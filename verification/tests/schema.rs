use flat_bindgen::schema::{get_int_name, simple_name, IntKind};
use planus_types::ast::IntegerType;
use planus_types::intermediate::AbsolutePath;

#[test]
fn integer_types_have_the_names_of_the_target_language() {
    assert_eq!(get_int_name(&IntegerType::U8), "u8");
    assert_eq!(get_int_name(&IntegerType::U16), "u16");
    assert_eq!(get_int_name(&IntegerType::U32), "u32");
    assert_eq!(get_int_name(&IntegerType::U64), "u64");
    assert_eq!(get_int_name(&IntegerType::I8), "i8");
    assert_eq!(get_int_name(&IntegerType::I16), "i16");
    assert_eq!(get_int_name(&IntegerType::I32), "i32");
    assert_eq!(get_int_name(&IntegerType::I64), "i64");
}

#[test]
fn integer_kinds_have_the_same_names() {
    assert_eq!(IntKind::U8.name(), "u8");
    assert_eq!(IntKind::U16.name(), "u16");
    assert_eq!(IntKind::U32.name(), "u32");
    assert_eq!(IntKind::U64.name(), "u64");
    assert_eq!(IntKind::I8.name(), "i8");
    assert_eq!(IntKind::I16.name(), "i16");
    assert_eq!(IntKind::I32.name(), "i32");
    assert_eq!(IntKind::I64.name(), "i64");
}

#[test]
fn simple_name_is_the_last_segment() {
    let path = AbsolutePath(vec![
        "rlbot".to_string(),
        "flat".to_string(),
        "PlayerInfo".to_string(),
    ]);
    assert_eq!(simple_name(&path), Some("PlayerInfo"));
}

#[test]
fn simple_name_of_a_single_segment() {
    let path = AbsolutePath(vec!["Touch".to_string()]);
    assert_eq!(simple_name(&path), Some("Touch"));
}

#[test]
fn root_path_has_no_simple_name() {
    assert_eq!(simple_name(&AbsolutePath::ROOT_PATH), None);
}
