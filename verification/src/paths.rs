//! Selection of the mesh file to load.
//!
//! The sample looks for a mesh in a fixed order: a preferred file in
//! the source model directory, the same file in the top-level model
//! directory, then the first entry with an `obj` extension (compared
//! without regard to ASCII case) in either directory, in that order.
//! The file system is read outside the library, which is handed the
//! existence of the two preferred files and the two directory listings
//! as plain values, and decides.

use vstd::prelude::*;

verus! {

/// Whether `name` is a file name with extension `obj`, compared
/// without regard to ASCII case.
///
/// A file name carries an extension when it has a dot that is neither
/// its first nor its last character; the extension is what follows the
/// last such dot. `name` matches exactly when its last four characters
/// are a dot followed by `obj` in any case, and something precedes the
/// dot (a name that is all extension, such as `.obj`, is a hidden file
/// without an extension).
pub open spec fn is_obj_name(name: Seq<char>) -> bool {
    &&& name.len() >= 5
    &&& name[name.len() - 4] == '.'
    &&& (name[name.len() - 3] == 'o' || name[name.len() - 3] == 'O')
    &&& (name[name.len() - 2] == 'b' || name[name.len() - 2] == 'B')
    &&& (name[name.len() - 1] == 'j' || name[name.len() - 1] == 'J')
}

/// Decide whether one file name has the `obj` extension.
pub fn is_obj_file_name(name: &str) -> (r: bool)
    ensures
        r == is_obj_name(name@),
{
    let n = name.unicode_len();
    if n < 5 {
        return false;
    }
    let dot = name.get_char(n - 4);
    let c0 = name.get_char(n - 3);
    let c1 = name.get_char(n - 2);
    let c2 = name.get_char(n - 1);
    dot == '.' && (c0 == 'o' || c0 == 'O') && (c1 == 'b' || c1 == 'B') && (c2 == 'j' || c2 == 'J')
}

/// Find the first entry of a directory listing that names an `obj`
/// file, as the directory scan of the sample does.
pub fn first_obj_index(names: &Vec<String>) -> (r: Option<usize>)
    ensures
        match r {
            Some(i) => {
                &&& i < names@.len()
                &&& is_obj_name(names@[i as int]@)
                &&& forall|j: int| 0 <= j < i ==> !is_obj_name(names@[j]@)
            },
            None => forall|j: int| 0 <= j < names@.len() ==> !is_obj_name(names@[j]@),
        },
{
    let mut i: usize = 0;
    while i < names.len()
        invariant
            i <= names@.len(),
            forall|j: int| 0 <= j < i ==> !is_obj_name(names@[j]@),
        decreases names@.len() - i,
    {
        if is_obj_file_name(names[i].as_str()) {
            return Some(i);
        }
        i = i + 1;
    }
    None
}

/// Where the mesh file was found.
#[derive(Clone, Copy, Debug, PartialEq, Eq, Structural)]
pub enum ObjSource {
    /// The preferred file in the source model directory exists.
    Preferred,
    /// Only the preferred file in the top-level model directory exists.
    AltPreferred,
    /// The entry at this index of the source model directory listing.
    PrimaryEntry(usize),
    /// The entry at this index of the top-level model directory listing.
    FallbackEntry(usize),
    /// No candidate was found.
    NotFound,
}

/// Decide which mesh file to load.
///
/// `preferred_exists` and `alt_exists` say whether the preferred file
/// exists in the source and the top-level model directory; `primary`
/// and `fallback` are the listings of those two directories (empty
/// where a directory could not be read). The preferred files win in
/// that order; otherwise the first `obj` entry of `primary`, then of
/// `fallback`, is taken.
pub fn choose_obj_source(
    preferred_exists: bool,
    alt_exists: bool,
    primary: &Vec<String>,
    fallback: &Vec<String>,
) -> (r: ObjSource)
    ensures
        preferred_exists ==> r == ObjSource::Preferred,
        !preferred_exists && alt_exists ==> r == ObjSource::AltPreferred,
        !preferred_exists && !alt_exists ==> match r {
            ObjSource::PrimaryEntry(i) => {
                &&& i < primary@.len()
                &&& is_obj_name(primary@[i as int]@)
                &&& forall|j: int| 0 <= j < i ==> !is_obj_name(primary@[j]@)
            },
            ObjSource::FallbackEntry(i) => {
                &&& forall|j: int| 0 <= j < primary@.len() ==> !is_obj_name(primary@[j]@)
                &&& i < fallback@.len()
                &&& is_obj_name(fallback@[i as int]@)
                &&& forall|j: int| 0 <= j < i ==> !is_obj_name(fallback@[j]@)
            },
            ObjSource::NotFound => {
                &&& forall|j: int| 0 <= j < primary@.len() ==> !is_obj_name(primary@[j]@)
                &&& forall|j: int| 0 <= j < fallback@.len() ==> !is_obj_name(fallback@[j]@)
            },
            _ => false,
        },
{
    if preferred_exists {
        return ObjSource::Preferred;
    }
    if alt_exists {
        return ObjSource::AltPreferred;
    }
    if let Some(i) = first_obj_index(primary) {
        return ObjSource::PrimaryEntry(i);
    }
    if let Some(i) = first_obj_index(fallback) {
        return ObjSource::FallbackEntry(i);
    }
    ObjSource::NotFound
}

} // verus!
