//! The flattening pass of the mesh loader.
//!
//! The loader reads a mesh file into a list of models, each a flat run
//! of position components (three per point) and a list of point
//! indices. It then walks every index of every model in order and
//! emits one vertex per index, numbered consecutively, so that the
//! drawn geometry is a plain triangle list. The library performs and
//! checks that pass. A position component is a 32-bit float; the
//! library never computes with coordinates, it only selects and moves
//! them, so it carries each component as its raw bit pattern in a
//! `u32`. The parsing of the file and the later centering and scaling
//! of the coordinates are float work and stay outside the library.

use vstd::prelude::*;

verus! {

/// One position: the raw bit patterns of three 32-bit float
/// coordinates. The library moves the bits and never interprets them.
#[derive(Clone, Copy, Debug, PartialEq, Eq, Structural)]
pub struct CoordBits {
    pub x: u32,
    pub y: u32,
    pub z: u32,
}

/// One parsed model: a flat run of position components, three per
/// point, and the point indices of its triangle list.
#[derive(Debug)]
pub struct MeshSource {
    pub positions: Vec<u32>,
    pub indices: Vec<u32>,
}

/// Why a list of models cannot be flattened.
#[derive(Clone, Copy, Debug, PartialEq, Eq, Structural)]
pub enum MeshError {
    /// Some model's run of position components is not a whole number
    /// of triples.
    RaggedPositions,
    /// No model has any position.
    NoPositions,
    /// Some index points past the positions of its own model.
    IndexOutOfRange,
    /// More indices than a 32-bit running vertex number can count.
    TooManyIndices,
    /// No model has any index.
    NoIndices,
}

/// The point at index `i` of a flat run of position components.
pub open spec fn triple_of(flat: Seq<u32>, i: int) -> CoordBits {
    CoordBits { x: flat[3 * i], y: flat[3 * i + 1], z: flat[3 * i + 2] }
}

/// A model's run of position components is a whole number of triples.
pub open spec fn positions_aligned(m: MeshSource) -> bool {
    m.positions@.len() % 3 == 0
}

/// The index at position `k` of `m` points at a whole triple within
/// the model's own positions.
pub open spec fn index_in_range(m: MeshSource, k: int) -> bool {
    3 * (m.indices@[k] as int) + 2 < m.positions@.len()
}

/// Every index of `m` points at a whole triple.
pub open spec fn indices_valid(m: MeshSource) -> bool {
    forall|k: int| 0 <= k < m.indices@.len() ==> index_in_range(m, k)
}

/// Every model's positions are whole triples.
pub open spec fn all_aligned(models: Seq<MeshSource>) -> bool {
    forall|i: int| 0 <= i < models.len() ==> positions_aligned(models[i])
}

/// Every index of every model is in range.
pub open spec fn all_indices_valid(models: Seq<MeshSource>) -> bool {
    forall|i: int| 0 <= i < models.len() ==> indices_valid(models[i])
}

/// Some model has at least one position component.
pub open spec fn has_positions(models: Seq<MeshSource>) -> bool {
    exists|i: int| 0 <= i < models.len() && models[i].positions@.len() > 0
}

/// The points of one model, in order.
pub open spec fn model_triples(m: MeshSource) -> Seq<CoordBits> {
    Seq::new(m.positions@.len() / 3, |k: int| triple_of(m.positions@, k))
}

/// The points of all models, concatenated in model order.
pub open spec fn collected(models: Seq<MeshSource>) -> Seq<CoordBits>
    decreases models.len(),
{
    if models.len() == 0 {
        Seq::empty()
    } else {
        collected(models.drop_last()) + model_triples(models.last())
    }
}

/// One model's points selected by its own indices, in index order.
pub open spec fn model_gathered(m: MeshSource) -> Seq<CoordBits> {
    Seq::new(m.indices@.len(), |k: int| triple_of(m.positions@, m.indices@[k] as int))
}

/// The vertices the loader emits: every model's indexed points,
/// concatenated in model order.
pub open spec fn gathered(models: Seq<MeshSource>) -> Seq<CoordBits>
    decreases models.len(),
{
    if models.len() == 0 {
        Seq::empty()
    } else {
        gathered(models.drop_last()) + model_gathered(models.last())
    }
}

/// How many indices all models hold together.
pub open spec fn total_indices(models: Seq<MeshSource>) -> nat
    decreases models.len(),
{
    if models.len() == 0 {
        0
    } else {
        total_indices(models.drop_last()) + models.last().indices@.len()
    }
}

proof fn lemma_collected_step(models: Seq<MeshSource>, i: int)
    requires
        0 <= i < models.len(),
    ensures
        collected(models.take(i + 1)) == collected(models.take(i)) + model_triples(models[i]),
{
    assert(models.take(i + 1).drop_last() =~= models.take(i));
    assert(models.take(i + 1).last() == models[i]);
}

proof fn lemma_gathered_step(models: Seq<MeshSource>, i: int)
    requires
        0 <= i < models.len(),
    ensures
        gathered(models.take(i + 1)) == gathered(models.take(i)) + model_gathered(models[i]),
{
    assert(models.take(i + 1).drop_last() =~= models.take(i));
    assert(models.take(i + 1).last() == models[i]);
}

proof fn lemma_total_indices_step(models: Seq<MeshSource>, i: int)
    requires
        0 <= i < models.len(),
    ensures
        total_indices(models.take(i + 1)) == total_indices(models.take(i))
            + models[i].indices@.len(),
{
    assert(models.take(i + 1).drop_last() =~= models.take(i));
    assert(models.take(i + 1).last() == models[i]);
}

/// The remainder of the models never shrinks the running index count.
proof fn lemma_total_indices_take_le(models: Seq<MeshSource>, i: int)
    requires
        0 <= i <= models.len(),
    ensures
        total_indices(models.take(i)) <= total_indices(models),
    decreases models.len() - i,
{
    if i < models.len() {
        lemma_total_indices_take_le(models, i + 1);
        lemma_total_indices_step(models, i);
    } else {
        assert(models.take(i) =~= models);
    }
}

/// The loader emits exactly one vertex per index.
pub proof fn lemma_gathered_len(models: Seq<MeshSource>)
    ensures
        gathered(models).len() == total_indices(models),
    decreases models.len(),
{
    if models.len() > 0 {
        lemma_gathered_len(models.drop_last());
    }
}

/// Every vertex the loader emits is a point of the mesh: gathering by
/// in-range indices over whole triples only ever selects among the
/// collected points.
pub proof fn lemma_gathered_from_collected(models: Seq<MeshSource>, k: int)
    requires
        all_aligned(models),
        all_indices_valid(models),
        0 <= k < gathered(models).len(),
    ensures
        collected(models).contains(gathered(models)[k]),
    decreases models.len(),
{
    let prefix = models.drop_last();
    let m = models.last();
    assert(gathered(models) == gathered(prefix) + model_gathered(m));
    assert(collected(models) == collected(prefix) + model_triples(m));
    if k < gathered(prefix).len() {
        assert(all_aligned(prefix)) by {
            assert forall|i: int| 0 <= i < prefix.len() implies positions_aligned(
                prefix[i],
            ) by {
                assert(prefix[i] == models[i]);
            }
        }
        assert(all_indices_valid(prefix)) by {
            assert forall|i: int| 0 <= i < prefix.len() implies indices_valid(prefix[i]) by {
                assert(prefix[i] == models[i]);
            }
        }
        lemma_gathered_from_collected(prefix, k);
        let i = choose|i: int|
            0 <= i < collected(prefix).len() && collected(prefix)[i] == gathered(prefix)[k];
        assert(collected(models)[i] == gathered(models)[k]);
    } else {
        let j = k - gathered(prefix).len();
        assert(gathered(models)[k] == model_gathered(m)[j]);
        assert(positions_aligned(m) && indices_valid(m)) by {
            assert(models[models.len() - 1] == m);
        }
        assert(index_in_range(m, j));
        let idx = m.indices@[j] as int;
        let len = m.positions@.len() as int;
        assert(len == 3 * (len / 3));
        assert(idx < len / 3);
        assert(model_triples(m)[idx] == triple_of(m.positions@, idx));
        assert(collected(models)[collected(prefix).len() + idx] == gathered(models)[k]);
    }
}

/// Check that every model's positions are whole triples.
pub fn positions_are_aligned(models: &Vec<MeshSource>) -> (r: bool)
    ensures
        r == all_aligned(models@),
{
    let mut i: usize = 0;
    while i < models.len()
        invariant
            i <= models@.len(),
            forall|j: int| 0 <= j < i ==> positions_aligned(models@[j]),
        decreases models@.len() - i,
    {
        if models[i].positions.len() % 3 != 0 {
            return false;
        }
        i = i + 1;
    }
    true
}

/// Check that some model has a position.
pub fn any_positions(models: &Vec<MeshSource>) -> (r: bool)
    ensures
        r == has_positions(models@),
{
    let mut i: usize = 0;
    while i < models.len()
        invariant
            i <= models@.len(),
            forall|j: int| 0 <= j < i ==> models@[j].positions@.len() == 0,
        decreases models@.len() - i,
    {
        if models[i].positions.len() > 0 {
            return true;
        }
        i = i + 1;
    }
    false
}

/// Check that every index of one model points at a whole triple.
pub fn model_indices_valid(m: &MeshSource) -> (r: bool)
    ensures
        r == indices_valid(*m),
{
    let mut k: usize = 0;
    while k < m.indices.len()
        invariant
            k <= m.indices@.len(),
            forall|j: int| 0 <= j < k ==> index_in_range(*m, j),
        decreases m.indices@.len() - k,
    {
        let idx = m.indices[k];
        if !((idx as u64) * 3 + 2 < m.positions.len() as u64) {
            proof {
                assert(!index_in_range(*m, k as int));
            }
            return false;
        }
        k = k + 1;
    }
    true
}

/// Check that every index of every model points at a whole triple.
pub fn indices_all_valid(models: &Vec<MeshSource>) -> (r: bool)
    ensures
        r == all_indices_valid(models@),
{
    let mut i: usize = 0;
    while i < models.len()
        invariant
            i <= models@.len(),
            forall|j: int| 0 <= j < i ==> indices_valid(models@[j]),
        decreases models@.len() - i,
    {
        if !model_indices_valid(&models[i]) {
            return false;
        }
        i = i + 1;
    }
    true
}

/// Count the indices of all models, or report that the count does not
/// fit a 64-bit number.
pub fn count_indices(models: &Vec<MeshSource>) -> (r: Option<u64>)
    ensures
        match r {
            Some(n) => n == total_indices(models@),
            None => total_indices(models@) > u64::MAX,
        },
{
    let mut acc: u64 = 0;
    let mut i: usize = 0;
    while i < models.len()
        invariant
            i <= models@.len(),
            acc == total_indices(models@.take(i as int)),
        decreases models@.len() - i,
    {
        let len = models[i].indices.len() as u64;
        proof {
            lemma_total_indices_step(models@, i as int);
        }
        if u64::MAX - acc < len {
            proof {
                lemma_total_indices_take_le(models@, i as int + 1);
            }
            return None;
        }
        acc = acc + len;
        i = i + 1;
    }
    proof {
        assert(models@.take(i as int) =~= models@);
    }
    Some(acc)
}

/// Append the points of one model, in order.
fn append_triples(m: &MeshSource, out: &mut Vec<CoordBits>)
    requires
        positions_aligned(*m),
    ensures
        final(out)@ == old(out)@ + model_triples(*m),
{
    let flat = &m.positions;
    let mut i: usize = 0;
    while i < flat.len()
        invariant
            positions_aligned(*m),
            flat == m.positions,
            i <= flat@.len(),
            i % 3 == 0,
            3 * out@.len() == 3 * old(out)@.len() + i,
            out@ == old(out)@ + model_triples(*m).take((i / 3) as int),
        decreases flat@.len() - i,
    {
        let c = CoordBits { x: flat[i], y: flat[i + 1], z: flat[i + 2] };
        proof {
            let k = (i / 3) as int;
            assert(triple_of(flat@, k) == c);
            assert(model_triples(*m).take(k + 1) =~= model_triples(*m).take(k).push(c));
        }
        out.push(c);
        i = i + 3;
    }
    proof {
        assert(model_triples(*m).take((i / 3) as int) =~= model_triples(*m));
    }
}

/// Collect the points of all models, in model order: what the loader
/// measures to frame the mesh.
pub fn collect_positions(models: &Vec<MeshSource>) -> (r: Vec<CoordBits>)
    requires
        all_aligned(models@),
    ensures
        r@ == collected(models@),
{
    let mut r: Vec<CoordBits> = Vec::new();
    let mut i: usize = 0;
    while i < models.len()
        invariant
            all_aligned(models@),
            i <= models@.len(),
            r@ == collected(models@.take(i as int)),
        decreases models@.len() - i,
    {
        proof {
            lemma_collected_step(models@, i as int);
        }
        append_triples(&models[i], &mut r);
        i = i + 1;
    }
    proof {
        assert(models@.take(i as int) =~= models@);
    }
    r
}

/// Append one model's points selected by its own indices.
fn append_gathered(m: &MeshSource, out: &mut Vec<CoordBits>)
    requires
        indices_valid(*m),
    ensures
        final(out)@ == old(out)@ + model_gathered(*m),
{
    let mut k: usize = 0;
    while k < m.indices.len()
        invariant
            indices_valid(*m),
            k <= m.indices@.len(),
            out@ == old(out)@ + model_gathered(*m).take(k as int),
        decreases m.indices@.len() - k,
    {
        let idx = m.indices[k];
        let plen: usize = m.positions.len();
        proof {
            assert(index_in_range(*m, k as int));
            assert(3 * (idx as int) + 2 < plen as int);
        }
        let base: usize = (idx as usize) * 3;
        let c = CoordBits {
            x: m.positions[base],
            y: m.positions[base + 1],
            z: m.positions[base + 2],
        };
        proof {
            let kk = k as int;
            assert(triple_of(m.positions@, m.indices@[kk] as int) == c);
            assert(model_gathered(*m).take(kk + 1) =~= model_gathered(*m).take(kk).push(c));
        }
        out.push(c);
        k = k + 1;
    }
    proof {
        assert(model_gathered(*m).take(k as int) =~= model_gathered(*m));
    }
}

/// Gather every model's indexed points, in model order: the vertices
/// the loader emits.
pub fn gather_positions(models: &Vec<MeshSource>) -> (r: Vec<CoordBits>)
    requires
        all_indices_valid(models@),
    ensures
        r@ == gathered(models@),
{
    let mut r: Vec<CoordBits> = Vec::new();
    let mut i: usize = 0;
    while i < models.len()
        invariant
            all_indices_valid(models@),
            i <= models@.len(),
            r@ == gathered(models@.take(i as int)),
        decreases models@.len() - i,
    {
        proof {
            lemma_gathered_step(models@, i as int);
        }
        append_gathered(&models[i], &mut r);
        i = i + 1;
    }
    proof {
        assert(models@.take(i as int) =~= models@);
    }
    r
}

/// The consecutive vertex numbers the loader emits alongside the
/// gathered vertices.
pub fn sequential_indices(count: usize) -> (r: Vec<u32>)
    requires
        count <= u32::MAX,
    ensures
        r@.len() == count,
        forall|k: int| 0 <= k < count ==> r@[k] == k as u32,
{
    let mut r: Vec<u32> = Vec::new();
    let mut i: usize = 0;
    while i < count
        invariant
            count <= u32::MAX,
            i <= count,
            r@.len() == i,
            forall|k: int| 0 <= k < i ==> r@[k] == k as u32,
        decreases count - i,
    {
        r.push(i as u32);
        i = i + 1;
    }
    r
}

/// The flattened mesh: one vertex per index of the source models, and
/// the consecutive numbers that index them.
#[derive(Debug, PartialEq)]
pub struct FlatMesh {
    pub vertices: Vec<CoordBits>,
    pub indices: Vec<u32>,
}

/// Flatten a list of parsed models into one vertex list and one
/// consecutive index list, or say exactly why that is impossible.
///
/// The checks run in the order in which the loader would trip over
/// them: ragged positions first, then a mesh without positions, then
/// an index out of range, then an index count beyond the 32-bit
/// running vertex number, then a mesh without indices.
pub fn flatten_mesh(models: &Vec<MeshSource>) -> (r: Result<FlatMesh, MeshError>)
    ensures
        match r {
            Ok(fm) => {
                &&& all_aligned(models@)
                &&& has_positions(models@)
                &&& all_indices_valid(models@)
                &&& 0 < total_indices(models@) <= u32::MAX
                &&& fm.vertices@ == gathered(models@)
                &&& fm.indices@.len() == total_indices(models@)
                &&& forall|k: int| 0 <= k < fm.indices@.len() ==> fm.indices@[k] == k as u32
            },
            Err(MeshError::RaggedPositions) => !all_aligned(models@),
            Err(MeshError::NoPositions) => all_aligned(models@) && !has_positions(models@),
            Err(MeshError::IndexOutOfRange) => all_aligned(models@) && has_positions(models@)
                && !all_indices_valid(models@),
            Err(MeshError::TooManyIndices) => all_aligned(models@) && has_positions(models@)
                && all_indices_valid(models@) && total_indices(models@) > u32::MAX,
            Err(MeshError::NoIndices) => all_aligned(models@) && has_positions(models@)
                && all_indices_valid(models@) && total_indices(models@) == 0,
        },
{
    if !positions_are_aligned(models) {
        return Err(MeshError::RaggedPositions);
    }
    if !any_positions(models) {
        return Err(MeshError::NoPositions);
    }
    if !indices_all_valid(models) {
        return Err(MeshError::IndexOutOfRange);
    }
    let n = match count_indices(models) {
        None => {
            return Err(MeshError::TooManyIndices);
        },
        Some(n) => n,
    };
    if n > u32::MAX as u64 {
        return Err(MeshError::TooManyIndices);
    }
    if n == 0 {
        return Err(MeshError::NoIndices);
    }
    let vertices = gather_positions(models);
    let indices = sequential_indices(n as usize);
    proof {
        lemma_gathered_len(models@);
    }
    Ok(FlatMesh { vertices, indices })
}

} // verus!
