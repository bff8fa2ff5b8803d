use flat_bindgen::driver::{
    is_frozen, patch_wire_code, plan_named, plan_unit, select_generator, DriverError, Generator,
    Outputs, FROZEN_TYPES,
};
use flat_bindgen::schema::Kind;
use indexmap::IndexMap;
use planus_types::ast::IntegerType;
use planus_types::intermediate::{
    AbsolutePath, DeclarationKind, Enum, RpcService, Struct, Table, Union,
};

fn strings(texts: &[&str]) -> Vec<String> {
    texts.iter().map(|text| text.to_string()).collect()
}

fn path(segments: &[&str]) -> AbsolutePath {
    AbsolutePath(strings(segments))
}

fn table() -> DeclarationKind {
    DeclarationKind::Table(Table {
        fields: IndexMap::new(),
        alignment_order: Vec::new(),
        max_size: 0,
        max_vtable_size: 0,
        max_alignment: 1,
    })
}

fn structure() -> DeclarationKind {
    DeclarationKind::Struct(Struct { fields: IndexMap::new(), size: 0, alignment: 1 })
}

fn enumeration() -> DeclarationKind {
    DeclarationKind::Enum(Enum { type_: IntegerType::U8, variants: IndexMap::new(), alignment: 1 })
}

fn union() -> DeclarationKind {
    DeclarationKind::Union(Union { variants: IndexMap::new() })
}

fn service() -> DeclarationKind {
    DeclarationKind::RpcService(RpcService { methods: IndexMap::new() })
}

fn recorded(names: &[(&str, Kind)]) -> Outputs {
    let mut outputs = Outputs::new();
    for (name, kind) in names {
        outputs.record(plan_named(name, *kind).unwrap());
    }
    outputs
}

#[test]
fn every_data_kind_has_its_generator() {
    assert_eq!(select_generator(Kind::Table), Ok(Generator::Table));
    assert_eq!(select_generator(Kind::Struct), Ok(Generator::Struct));
    assert_eq!(select_generator(Kind::Enum), Ok(Generator::Enum));
    assert_eq!(select_generator(Kind::Union), Ok(Generator::Union));
}

#[test]
fn services_have_no_generator() {
    assert_eq!(select_generator(Kind::RpcService), Err(DriverError::UnsupportedKind));
}

#[test]
fn plan_names_the_unit_after_the_declaration() {
    let unit = plan_named("PlayerInfo", Kind::Table).unwrap();
    assert_eq!(unit.class_name, "PlayerInfo");
    assert_eq!(unit.file_name, "player_info.rs");
    assert_eq!(unit.module_entry, "mod player_info;\npub use player_info::*;\n");
    assert_eq!(unit.generator, Generator::Table);
}

#[test]
fn plan_of_a_service_is_an_error() {
    assert_eq!(plan_named("Control", Kind::RpcService).unwrap_err(), DriverError::UnsupportedKind);
}

#[test]
fn plan_reads_the_kind_of_the_declaration() {
    let at = path(&["rlbot", "flat", "CollisionShape"]);
    assert_eq!(plan_unit(&at, &table()).unwrap().generator, Generator::Table);
    assert_eq!(plan_unit(&at, &structure()).unwrap().generator, Generator::Struct);
    assert_eq!(plan_unit(&at, &enumeration()).unwrap().generator, Generator::Enum);
    assert_eq!(plan_unit(&at, &union()).unwrap().generator, Generator::Union);
    assert_eq!(plan_unit(&at, &service()).unwrap_err(), DriverError::UnsupportedKind);
}

#[test]
fn plan_takes_the_last_segment_of_the_path() {
    let unit = plan_unit(&path(&["rlbot", "flat", "CollisionShape"]), &union()).unwrap();
    assert_eq!(unit.class_name, "CollisionShape");
    assert_eq!(unit.file_name, "collision_shape.rs");
    assert_eq!(unit.module_entry, "mod collision_shape;\npub use collision_shape::*;\n");
}

#[test]
fn plan_of_a_declaration_without_name_is_an_error() {
    assert_eq!(plan_unit(&path(&[]), &table()).unwrap_err(), DriverError::EmptyPath);
    assert_eq!(plan_unit(&path(&[]), &service()).unwrap_err(), DriverError::EmptyPath);
}

#[test]
fn new_run_accounts_for_the_index_alone() {
    let emitted = Outputs::new().finish();
    assert_eq!(
        emitted.stale_files(&strings(&["mod.rs", "touch.rs"])),
        strings(&["touch.rs"])
    );
    let aggregate = emitted.aggregate();
    assert_eq!(aggregate.module_index, "");
    assert!(aggregate.class_names.is_empty());
}

#[test]
fn files_of_vanished_declarations_are_stale() {
    let emitted = recorded(&[("A", Kind::Table), ("B", Kind::Enum)]).finish();
    let existing = strings(&["a.rs", "b.rs", "c.rs", "mod.rs"]);
    let stale = emitted.stale_files(&existing);
    assert_eq!(stale, strings(&["c.rs"]));
    let remaining: Vec<String> =
        existing.into_iter().filter(|file| !stale.contains(file)).collect();
    assert_eq!(remaining, strings(&["a.rs", "b.rs", "mod.rs"]));
}

#[test]
fn nothing_is_stale_in_an_empty_folder() {
    let emitted = recorded(&[("A", Kind::Table)]).finish();
    assert!(emitted.stale_files(&Vec::new()).is_empty());
}

#[test]
fn stale_files_keep_the_order_of_the_folder() {
    let emitted = recorded(&[("Kept", Kind::Struct)]).finish();
    let existing = strings(&["z.rs", "kept.rs", "a.rs", "z.rs", "Kept.rs"]);
    assert_eq!(emitted.stale_files(&existing), strings(&["z.rs", "a.rs", "z.rs", "Kept.rs"]));
}

#[test]
fn index_is_sorted_whatever_the_order_of_the_schema() {
    let expected = "mod ball_info;\npub use ball_info::*;\n\
                    mod player_info;\npub use player_info::*;\n\
                    mod touch;\npub use touch::*;\n";
    let forward = recorded(&[
        ("BallInfo", Kind::Table),
        ("PlayerInfo", Kind::Table),
        ("Touch", Kind::Struct),
    ]);
    let backward = recorded(&[
        ("Touch", Kind::Struct),
        ("PlayerInfo", Kind::Table),
        ("BallInfo", Kind::Table),
    ]);
    assert_eq!(forward.finish().aggregate().module_index, expected);
    assert_eq!(backward.finish().aggregate().module_index, expected);
}

#[test]
fn index_entries_are_ordered_as_lines() {
    let outputs = recorded(&[("Line", Kind::Table), ("Line3", Kind::Table)]);
    assert_eq!(
        outputs.finish().aggregate().module_index,
        "mod line3;\npub use line3::*;\nmod line;\npub use line::*;\n"
    );
}

#[test]
fn class_names_stay_in_the_order_of_the_schema() {
    let outputs = recorded(&[
        ("Touch", Kind::Struct),
        ("PlayerInfo", Kind::Table),
        ("BallInfo", Kind::Table),
    ]);
    assert_eq!(
        outputs.finish().aggregate().class_names,
        strings(&["Touch", "PlayerInfo", "BallInfo"])
    );
}

#[test]
fn frozen_types_are_exactly_the_listed_ones() {
    assert_eq!(FROZEN_TYPES.len(), 26);
    for name in FROZEN_TYPES {
        assert!(is_frozen(name), "{name}");
    }
    assert!(is_frozen("PlayerInfo"));
    assert!(is_frozen("ControllableInfo"));
    assert!(is_frozen("PlayerInput"));
    assert!(!is_frozen("PlayerClass"));
    assert!(!is_frozen("playerinfo"));
    assert!(!is_frozen("PlayerInf"));
    assert!(!is_frozen(""));
}

#[test]
fn wire_code_spells_the_project_name_in_capitals() {
    assert_eq!(patch_wire_code("pub struct RlBotPacket;"), "pub struct RLBotPacket;");
    assert_eq!(patch_wire_code("RlBotRlBot rlbot RLBot"), "RLBotRLBot rlbot RLBot");
}

#[test]
fn wire_code_loses_the_serde_derives() {
    assert_eq!(
        patch_wire_code("#[derive(Clone, ::serde::Serialize, ::serde::Deserialize, Debug)]"),
        "#[derive(Clone,   Debug)]"
    );
    assert_eq!(patch_wire_code("::serde::Serialize"), "::serde::Serialize");
}

#[test]
fn wire_code_without_matches_is_unchanged() {
    assert_eq!(patch_wire_code(""), "");
    assert_eq!(patch_wire_code("pub mod flat {}"), "pub mod flat {}");
}

#[test]
fn edits_are_made_one_after_the_other() {
    assert_eq!(
        patch_wire_code("::serde::Seria::serde::Deserialize,lize,"),
        "::serde::Serialize,"
    );
    assert_eq!(patch_wire_code("::serde::Deseria::serde::Serialize,lize,"), "");
    assert_eq!(patch_wire_code("RlB::serde::Serialize,ot"), "RlBot");
}
