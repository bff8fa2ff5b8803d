use flat_bindgen::text::join_lines;
use flat_bindgen::unions::{is_no_set, UnionBindGenerator, UnionError};
use indexmap::IndexMap;
use planus_types::ast::Docstrings;
use planus_types::intermediate::{DeclarationIndex, Type, TypeKind, UnionVariant};

fn variant(index: usize) -> UnionVariant {
    UnionVariant {
        type_: Type {
            span: Default::default(),
            kind: TypeKind::Table(DeclarationIndex(index)),
        },
        docstrings: Docstrings::new(None),
    }
}

fn union_of(names: &[&str]) -> IndexMap<String, UnionVariant> {
    let mut variants = IndexMap::new();
    for (index, name) in names.iter().enumerate() {
        variants.insert(name.to_string(), variant(index));
    }
    variants
}

#[test]
fn union_with_two_variants_emits_every_section() {
    let variants = union_of(&["BoxShape", "SphereShape"]);
    let lines = UnionBindGenerator::new("CollisionShape", &variants)
        .generate_binds()
        .unwrap();
    let expected = "\
use crate::{FromGil, PyDefault, flat};
use pyo3::prelude::*;

#[derive(pyo3::FromPyObject)]
pub enum CollisionShapeUnion {
    BoxShape(Py<super::BoxShape>),
    SphereShape(Py<super::SphereShape>),
}

#[pyclass(module = \"rlbot_flatbuffers\", set_all)]
pub struct CollisionShape {
    item: CollisionShapeUnion,
}

impl crate::PyDefault for CollisionShape {
    fn py_default(py: Python) -> Py<Self> {
        Py::new(py, Self {
            item: CollisionShapeUnion::BoxShape(super::BoxShape::py_default(py)),
        }).unwrap()
    }
}

impl FromGil<flat::CollisionShape> for CollisionShape {
    fn from_gil(py: Python, flat_t: flat::CollisionShape) -> Self {
        match flat_t {
            flat::CollisionShape::BoxShape(item) => CollisionShape {
                item: CollisionShapeUnion::BoxShape(
                    Py::new(py, super::BoxShape::from_gil(py, *item)).unwrap(),
                ),
            },
            flat::CollisionShape::SphereShape(item) => CollisionShape {
                item: CollisionShapeUnion::SphereShape(
                    Py::new(py, super::SphereShape::from_gil(py, *item)).unwrap(),
                ),
            },
        }
    }
}

impl FromGil<&CollisionShape> for flat::CollisionShape {
    fn from_gil(py: Python, py_type: &CollisionShape) -> Self {
        match &py_type.item {
            CollisionShapeUnion::BoxShape(item) => {
                flat::CollisionShape::BoxShape(Box::new(crate::from_py_into(py, item)))
            },
            CollisionShapeUnion::SphereShape(item) => {
                flat::CollisionShape::SphereShape(Box::new(crate::from_py_into(py, item)))
            },
        }
    }
}

#[pymethods]
impl CollisionShape {
    #[new]
    pub fn new(item: CollisionShapeUnion) -> Self {
        Self { item }
    }

    #[getter(item)]
    pub fn get(&self, py: Python) -> Option<Py<PyAny>> {
        match &self.item {
            CollisionShapeUnion::BoxShape(item) => Some(item.clone_ref(py).into_any()),
            CollisionShapeUnion::SphereShape(item) => Some(item.clone_ref(py).into_any()),
        }
    }

    pub fn __str__(&self, py: Python) -> String {
        self.__repr__(py)
    }

    pub fn inner_repr(&self, py: Python) -> String {
        match &self.item {
            CollisionShapeUnion::BoxShape(item) => item.borrow(py).__repr__(py),
            CollisionShapeUnion::SphereShape(item) => item.borrow(py).__repr__(py),
        }
    }

    pub fn __repr__(&self, py: Python) -> String {
        match &self.item {
            CollisionShapeUnion::BoxShape(item) => format!(\"CollisionShape({})\", item.borrow(py).__repr__(py)),
            CollisionShapeUnion::SphereShape(item) => format!(\"CollisionShape({})\", item.borrow(py).__repr__(py)),
        }
    }
}
";
    assert_eq!(join_lines(&lines), expected);
}

#[test]
fn union_without_variants_is_refused() {
    let variants = union_of(&[]);
    let binds = UnionBindGenerator::new("Empty", &variants).generate_binds();
    assert_eq!(binds, Err(UnionError::NoVariants));
}

#[test]
fn only_the_configured_union_has_no_setter() {
    assert!(is_no_set("PlayerClass"));
    assert!(!is_no_set("CollisionShape"));
    assert!(!is_no_set("playerclass"));
    assert!(!is_no_set(""));
}

fn lines_of(name: &str, names: &[&str]) -> Vec<String> {
    let variants = union_of(names);
    UnionBindGenerator::new(name, &variants)
        .generate_binds()
        .unwrap()
        .into_iter()
        .map(|line| line.into_owned())
        .collect()
}

#[test]
fn union_with_one_variant_has_one_arm_everywhere() {
    let lines = lines_of("Only", &["Lone"]);
    assert_eq!(lines.len(), 74);
    assert_eq!(lines[4], "pub enum OnlyUnion {");
    assert_eq!(lines[5], "    Lone(Py<super::Lone>),");
    assert_eq!(lines[6], "}");
    assert_eq!(
        lines.iter().filter(|line| line.contains("OnlyUnion::Lone(item) =>")).count(),
        4
    );
    assert_eq!(
        lines.iter().filter(|line| line.contains("flat::Only::Lone(item) =>")).count(),
        1
    );
}

#[test]
fn number_of_lines_grows_by_twelve_per_variant() {
    assert_eq!(lines_of("U", &["A"]).len(), 74);
    assert_eq!(lines_of("U", &["A", "B"]).len(), 86);
    assert_eq!(lines_of("U", &["A", "B", "C"]).len(), 98);
}

#[test]
fn default_is_the_first_declared_variant() {
    let lines = lines_of("Shape", &["A", "B", "C"]);
    assert_eq!(lines[18], "            item: ShapeUnion::A(super::A::py_default(py)),");
    assert_eq!(lines.iter().filter(|line| line.contains("py_default(py))")).count(), 1);
    let reordered = lines_of("Shape", &["A", "C", "B"]);
    assert_eq!(reordered[15..23], lines[15..23]);
    let other = lines_of("Shape", &["B", "A", "C"]);
    assert_eq!(other[18], "            item: ShapeUnion::B(super::B::py_default(py)),");
}

#[test]
fn configured_union_has_the_accessor_but_no_setter() {
    let lines = lines_of("PlayerClass", &["Human", "CustomBot", "PsyonixBot"]);
    assert_eq!(lines[10], "#[pyclass(module = \"rlbot_flatbuffers\")]");
    assert!(lines.iter().all(|line| !line.contains("set_all")));
    assert_eq!(lines[68], "    #[getter(item)]");
    assert!(lines.contains(&"    pub fn get(&self, py: Python) -> Option<Py<PyAny>> {".to_string()));
}

#[test]
fn other_unions_have_the_accessor_and_the_setter() {
    let lines = lines_of("CollisionShape", &["BoxShape", "SphereShape", "CylinderShape"]);
    assert_eq!(lines[10], "#[pyclass(module = \"rlbot_flatbuffers\", set_all)]");
    assert_eq!(lines.iter().filter(|line| line.contains("set_all")).count(), 1);
    assert_eq!(lines[68], "    #[getter(item)]");
}

#[test]
fn union_with_as_many_variants_as_tags_is_accepted() {
    let names: Vec<String> = (0..255).map(|index| format!("V{index}")).collect();
    let names: Vec<&str> = names.iter().map(|name| name.as_str()).collect();
    let lines = lines_of("Wide", &names);
    assert_eq!(lines.len(), 12 * 255 + 62);
    assert_eq!(lines[5], "    V0(Py<super::V0>),");
    assert_eq!(lines[259], "    V254(Py<super::V254>),");
}

#[test]
fn union_with_more_variants_than_tags_is_refused() {
    let names: Vec<String> = (0..256).map(|index| format!("V{index}")).collect();
    let names: Vec<&str> = names.iter().map(|name| name.as_str()).collect();
    let variants = union_of(&names);
    let binds = UnionBindGenerator::new("Wide", &variants).generate_binds();
    assert_eq!(binds, Err(UnionError::TooManyVariants));
}

#[test]
fn variants_keep_the_order_of_declaration() {
    let lines = lines_of("Shape", &["Zeta", "Alpha", "Mid"]);
    assert_eq!(lines[5], "    Zeta(Py<super::Zeta>),");
    assert_eq!(lines[6], "    Alpha(Py<super::Alpha>),");
    assert_eq!(lines[7], "    Mid(Py<super::Mid>),");
}

#[test]
fn outer_representation_wraps_the_inner_one_in_the_union_name() {
    let lines = lines_of("Shape", &["A"]);
    assert!(lines.contains(
        &"            ShapeUnion::A(item) => format!(\"Shape({})\", item.borrow(py).__repr__(py)),"
            .to_string()
    ));
    assert!(lines
        .contains(&"            ShapeUnion::A(item) => item.borrow(py).__repr__(py),".to_string()));
}
