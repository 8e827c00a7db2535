use metal_obj::paths::{choose_obj_source, first_obj_index, is_obj_file_name, ObjSource};

#[test]
fn obj_extension_plain() {
    assert!(is_obj_file_name("Bunny.obj"));
}

#[test]
fn obj_extension_any_case() {
    assert!(is_obj_file_name("BUNNY.OBJ"));
    assert!(is_obj_file_name("teapot.ObJ"));
    assert!(is_obj_file_name("x.oBj"));
}

#[test]
fn obj_extension_double_dot() {
    assert!(is_obj_file_name("a.tar.obj"));
    assert!(is_obj_file_name("..obj"));
}

#[test]
fn obj_extension_rejects_hidden_file() {
    assert!(!is_obj_file_name(".obj"));
}

#[test]
fn obj_extension_rejects_others() {
    assert!(!is_obj_file_name(""));
    assert!(!is_obj_file_name("obj"));
    assert!(!is_obj_file_name("bunny.mtl"));
    assert!(!is_obj_file_name("bunny.obja"));
    assert!(!is_obj_file_name("bunnyobj"));
}

#[test]
fn first_obj_picks_first_match() {
    let names = vec![
        String::from("readme.txt"),
        String::from("cube.obj"),
        String::from("other.OBJ"),
    ];
    assert_eq!(first_obj_index(&names), Some(1));
}

#[test]
fn first_obj_none_without_match() {
    let names = vec![String::from("readme.txt"), String::from("cube.mtl")];
    assert_eq!(first_obj_index(&names), None);
    let empty: Vec<String> = Vec::new();
    assert_eq!(first_obj_index(&empty), None);
}

#[test]
fn choose_prefers_preferred_file() {
    let primary = vec![String::from("cube.obj")];
    let fallback = vec![String::from("ship.obj")];
    assert_eq!(
        choose_obj_source(true, true, &primary, &fallback),
        ObjSource::Preferred
    );
    assert_eq!(
        choose_obj_source(true, false, &primary, &fallback),
        ObjSource::Preferred
    );
}

#[test]
fn choose_falls_back_to_alt_preferred() {
    let primary = vec![String::from("cube.obj")];
    let fallback = vec![String::from("ship.obj")];
    assert_eq!(
        choose_obj_source(false, true, &primary, &fallback),
        ObjSource::AltPreferred
    );
}

#[test]
fn choose_scans_primary_then_fallback() {
    let primary = vec![String::from("notes.txt"), String::from("cube.obj")];
    let fallback = vec![String::from("ship.obj")];
    assert_eq!(
        choose_obj_source(false, false, &primary, &fallback),
        ObjSource::PrimaryEntry(1)
    );
    let primary_empty: Vec<String> = Vec::new();
    assert_eq!(
        choose_obj_source(false, false, &primary_empty, &fallback),
        ObjSource::FallbackEntry(0)
    );
}

#[test]
fn choose_not_found() {
    let primary = vec![String::from("notes.txt")];
    let fallback: Vec<String> = Vec::new();
    assert_eq!(
        choose_obj_source(false, false, &primary, &fallback),
        ObjSource::NotFound
    );
}
