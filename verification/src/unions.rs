//! Bindings for union declarations.
//!
//! A union wraps exactly one of several payload classes, tagged by the active variant.  The
//! generator turns the union's name and its ordered variant names into the lines of one
//! output unit: a tagged-variant type, a wrapper class holding one such value, the default
//! construction, both conversions with the wire type, and the methods of the wrapper class.

use crate::schema::{variant_count, variant_name, variant_names};
use crate::text::{concat3, concat5, concat7, same_text, texts};
use indexmap::IndexMap;
use planus_types::intermediate::UnionVariant;
use std::borrow::Cow;
use vstd::prelude::*;

verus! {

/// The largest number of variants whose tags fit the one-byte discriminant.
pub const MAX_VARIANTS: usize = 255;

/// The unions whose wrapper class gets no setter for its value.
pub const NO_SET_TYPES: [&'static str; 1] = ["PlayerClass"];

/// Whether the wrapper class of the union `name` is left without a setter.
pub open spec fn is_no_set_type(name: Seq<char>) -> bool {
    exists|i: int| 0 <= i < 1 && #[trigger] NO_SET_TYPES@[i]@ == name
}

/// The parts of the output that hold one block of lines per variant.
pub enum Section {
    /// A case of the tagged-variant type.
    Case,
    /// An arm of the conversion from the wire type.
    FromFlat,
    /// An arm of the conversion to the wire type.
    ToFlat,
    /// An arm of the accessor of the wrapped value.
    Getter,
    /// An arm of the inner textual representation.
    InnerRepr,
    /// An arm of the outer textual representation.
    Repr,
}

/// The block of `section` for the variant `var` of the union `name`.
pub open spec fn arm(section: Section, name: Seq<char>, var: Seq<char>) -> Seq<Seq<char>> {
    match section {
        Section::Case => seq!["    "@ + var + "(Py<super::"@ + var + ">),"@],
        Section::FromFlat => seq![
            "            flat::"@ + name + "::"@ + var + "(item) => "@ + name + " {"@,
            "                item: "@ + name + "Union::"@ + var + "("@,
            "                    Py::new(py, super::"@ + var + "::from_gil(py, *item)).unwrap(),"@,
            "                ),"@,
            "            },"@,
        ],
        Section::ToFlat => seq![
            "            "@ + name + "Union::"@ + var + "(item) => {"@,
            "                flat::"@ + name + "::"@ + var
                + "(Box::new(crate::from_py_into(py, item)))"@,
            "            },"@,
        ],
        Section::Getter => seq![
            "            "@ + name + "Union::"@ + var
                + "(item) => Some(item.clone_ref(py).into_any()),"@,
        ],
        Section::InnerRepr => seq![
            "            "@ + name + "Union::"@ + var + "(item) => item.borrow(py).__repr__(py),"@,
        ],
        Section::Repr => seq![
            "            "@ + name + "Union::"@ + var + "(item) => format!(\""@ + name
                + "({})\", item.borrow(py).__repr__(py)),"@,
        ],
    }
}

/// The blocks of `section` for the first `n` variants, in declaration order.
pub open spec fn arms_prefix(
    section: Section,
    name: Seq<char>,
    variants: Seq<Seq<char>>,
    n: int,
) -> Seq<Seq<char>>
    decreases n,
{
    if n <= 0 {
        Seq::empty()
    } else {
        arms_prefix(section, name, variants, n - 1) + arm(section, name, variants[n - 1])
    }
}

/// The blocks of `section` for every variant, in declaration order.
pub open spec fn arms(section: Section, name: Seq<char>, variants: Seq<Seq<char>>) -> Seq<
    Seq<char>,
> {
    arms_prefix(section, name, variants, variants.len() as int)
}

/// The imports that open every output unit.
pub open spec fn header_lines() -> Seq<Seq<char>> {
    seq!["use crate::{FromGil, PyDefault, flat};"@, "use pyo3::prelude::*;"@, ""@]
}

/// The tagged-variant type: one case per variant, each holding a handle to the payload class
/// of the same name.
pub open spec fn variant_type_lines(name: Seq<char>, variants: Seq<Seq<char>>) -> Seq<Seq<char>> {
    seq!["#[derive(pyo3::FromPyObject)]"@, "pub enum "@ + name + "Union {"@] + arms(
        Section::Case,
        name,
        variants,
    ) + seq!["}"@, ""@]
}

/// The attribute that declares the wrapper class; it grants a setter for every field unless
/// `no_set` holds.
pub open spec fn class_attribute(no_set: bool) -> Seq<char> {
    if no_set {
        "#[pyclass(module = \"rlbot_flatbuffers\")]"@
    } else {
        "#[pyclass(module = \"rlbot_flatbuffers\", set_all)]"@
    }
}

/// The wrapper class, which holds exactly one tagged value.
pub open spec fn class_lines(name: Seq<char>, no_set: bool) -> Seq<Seq<char>> {
    seq![
        class_attribute(no_set),
        "pub struct "@ + name + " {"@,
        "    item: "@ + name + "Union,"@,
        "}"@,
        ""@,
    ]
}

/// The default construction of the wrapper class: the default of the payload class `first`,
/// wrapped in the case of the same name.
pub open spec fn default_lines(name: Seq<char>, first: Seq<char>) -> Seq<Seq<char>> {
    seq![
        "impl crate::PyDefault for "@ + name + " {"@,
        "    fn py_default(py: Python) -> Py<Self> {"@,
        "        Py::new(py, Self {"@,
        "            item: "@ + name + "Union::"@ + first + "(super::"@ + first
            + "::py_default(py)),"@,
        "        }).unwrap()"@,
        "    }"@,
        "}"@,
        ""@,
    ]
}

/// The definitions: the tagged-variant type, the wrapper class and its default construction,
/// which is that of the first declared variant.
pub open spec fn definition_lines(name: Seq<char>, variants: Seq<Seq<char>>, no_set: bool) -> Seq<
    Seq<char>,
> {
    variant_type_lines(name, variants) + class_lines(name, no_set) + default_lines(
        name,
        variants[0],
    )
}

/// The conversion from the wire type: one arm per variant, which converts the payload and
/// wraps it in the case of the same name.
pub open spec fn from_flat_lines(name: Seq<char>, variants: Seq<Seq<char>>) -> Seq<Seq<char>> {
    seq![
        "impl FromGil<flat::"@ + name + "> for "@ + name + " {"@,
        "    fn from_gil(py: Python, flat_t: flat::"@ + name + ") -> Self {"@,
        "        match flat_t {"@,
    ] + arms(Section::FromFlat, name, variants) + seq!["        }"@, "    }"@, "}"@, ""@]
}

/// The conversion to the wire type: one arm per variant, which converts the payload back and
/// wraps it in the wire type's case of the same name.
pub open spec fn to_flat_lines(name: Seq<char>, variants: Seq<Seq<char>>) -> Seq<Seq<char>> {
    seq![
        "impl FromGil<&"@ + name + "> for flat::"@ + name + " {"@,
        "    fn from_gil(py: Python, py_type: &"@ + name + ") -> Self {"@,
        "        match &py_type.item {"@,
    ] + arms(Section::ToFlat, name, variants) + seq!["        }"@, "    }"@, "}"@, ""@]
}

/// The constructor, which takes the tagged value, and the accessor, which hands out the
/// payload of the active variant as a plain object.
pub open spec fn new_method_lines(name: Seq<char>, variants: Seq<Seq<char>>) -> Seq<Seq<char>> {
    seq![
        "    #[new]"@,
        "    pub fn new(item: "@ + name + "Union) -> Self {"@,
        "        Self { item }"@,
        "    }"@,
        ""@,
        "    #[getter(item)]"@,
        "    pub fn get(&self, py: Python) -> Option<Py<PyAny>> {"@,
        "        match &self.item {"@,
    ] + arms(Section::Getter, name, variants) + seq!["        }"@, "    }"@]
}

/// The string conversion, which is the outer representation.
pub open spec fn str_method_lines() -> Seq<Seq<char>> {
    seq![
        "    pub fn __str__(&self, py: Python) -> String {"@,
        "        self.__repr__(py)"@,
        "    }"@,
    ]
}

/// The inner representation: that of the active payload alone.
pub open spec fn inner_repr_method_lines(name: Seq<char>, variants: Seq<Seq<char>>) -> Seq<
    Seq<char>,
> {
    seq![
        "    pub fn inner_repr(&self, py: Python) -> String {"@,
        "        match &self.item {"@,
    ] + arms(Section::InnerRepr, name, variants) + seq!["        }"@, "    }"@]
}

/// The outer representation: the union's name with the payload's representation in round
/// brackets.
pub open spec fn repr_method_lines(name: Seq<char>, variants: Seq<Seq<char>>) -> Seq<Seq<char>> {
    seq![
        "    pub fn __repr__(&self, py: Python) -> String {"@,
        "        match &self.item {"@,
    ] + arms(Section::Repr, name, variants) + seq!["        }"@, "    }"@]
}

/// The methods of the wrapper class, with an empty line between each two of them.
pub open spec fn py_methods_lines(name: Seq<char>, variants: Seq<Seq<char>>) -> Seq<Seq<char>> {
    seq!["#[pymethods]"@, "impl "@ + name + " {"@] + new_method_lines(name, variants) + seq![""@]
        + str_method_lines() + seq![""@] + inner_repr_method_lines(name, variants) + seq![""@]
        + repr_method_lines(name, variants) + seq!["}"@, ""@]
}

/// Every line of the output unit of the union `name`.
pub open spec fn union_binds(name: Seq<char>, variants: Seq<Seq<char>>, no_set: bool) -> Seq<
    Seq<char>,
> {
    header_lines() + definition_lines(name, variants, no_set) + from_flat_lines(name, variants)
        + to_flat_lines(name, variants) + py_methods_lines(name, variants)
}

/// Why a union gets no bindings.
#[derive(Clone, Copy, Debug, PartialEq, Eq, Structural)]
pub enum UnionError {
    /// The union declares no variant, so it has no default.
    NoVariants,
    /// The union declares more variants than a one-byte discriminant can tag.
    TooManyVariants,
}

/// What a generator stands for: the union it was made for and the lines written so far.
pub struct UnionBinding {
    /// The union's simple name, which is the name of the wrapper class.
    pub name: Seq<char>,
    /// The names of the union's variants, in declaration order.
    pub variants: Seq<Seq<char>>,
    /// Whether the wrapper class gets no setter for its value.
    pub no_set: bool,
    /// The lines written so far.
    pub lines: Seq<Seq<char>>,
}

/// The generator of the bindings of one union.
pub struct UnionBindGenerator<'a> {
    name: &'a str,
    variants: &'a IndexMap<String, UnionVariant>,
    file_contents: Vec<Cow<'static, str>>,
    is_no_set: bool,
}

impl<'a> View for UnionBindGenerator<'a> {
    type V = UnionBinding;

    closed spec fn view(&self) -> UnionBinding {
        UnionBinding {
            name: self.name@,
            variants: variant_names(*self.variants),
            no_set: self.is_no_set,
            lines: texts(self.file_contents@),
        }
    }
}

/// Whether `name` is one of the unions whose wrapper class gets no setter.
pub fn is_no_set(name: &str) -> (no_set: bool)
    ensures
        no_set == is_no_set_type(name@),
{
    let mut i: usize = 0;
    while i < 1
        invariant
            i <= 1,
            forall|j: int| 0 <= j < i ==> #[trigger] NO_SET_TYPES@[j]@ != name@,
        decreases 1 - i,
    {
        if same_text(NO_SET_TYPES[i], name) {
            return true;
        }
        i += 1;
    }
    false
}

impl<'a> UnionBindGenerator<'a> {
    /// A generator for the union `name` with the body `variants`, which has written nothing
    /// yet.
    pub fn new(name: &'a str, variants: &'a IndexMap<String, UnionVariant>) -> (generator: Self)
        ensures
            generator@.name == name@,
            generator@.variants == variant_names(*variants),
            generator@.no_set == is_no_set_type(name@),
            generator@.lines == Seq::<Seq<char>>::empty(),
    {
        Self { name, variants, file_contents: Vec::new(), is_no_set: is_no_set(name) }
    }

    fn write_fmt(&mut self, text: String)
        ensures
            final(self)@.name == old(self)@.name,
            final(self)@.variants == old(self)@.variants,
            final(self)@.no_set == old(self)@.no_set,
            final(self)@.lines == old(self)@.lines.push(text@),
    {
        self.file_contents.push(Cow::Owned(text));
    }

    fn write_str(&mut self, text: &'static str)
        ensures
            final(self)@.name == old(self)@.name,
            final(self)@.variants == old(self)@.variants,
            final(self)@.no_set == old(self)@.no_set,
            final(self)@.lines == old(self)@.lines.push(text@),
    {
        self.file_contents.push(Cow::Borrowed(text));
    }

    fn generate_definition(&mut self)
        requires
            old(self)@.variants.len() > 0,
        ensures
            final(self)@.name == old(self)@.name,
            final(self)@.variants == old(self)@.variants,
            final(self)@.no_set == old(self)@.no_set,
            final(self)@.lines == old(self)@.lines + definition_lines(
                old(self)@.name,
                old(self)@.variants,
                old(self)@.no_set,
            ),
    {
        let ghost before = self@;
        self.write_str("#[derive(pyo3::FromPyObject)]");
        self.write_fmt(concat3("pub enum ", self.name, "Union {"));
        let ghost opened = self@.lines;

        let count = variant_count(self.variants);
        let mut i: usize = 0;
        while i < count
            invariant
                i <= count,
                count == before.variants.len(),
                self@.name == before.name,
                self@.variants == before.variants,
                self@.no_set == before.no_set,
                self@.lines == opened + arms_prefix(
                    Section::Case,
                    before.name,
                    before.variants,
                    i as int,
                ),
            decreases count - i,
        {
            let var_name = variant_name(self.variants, i);
            self.write_fmt(concat5("    ", var_name, "(Py<super::", var_name, ">),"));
            i += 1;
        }

        self.write_str("}");
        self.write_str("");

        if self.is_no_set {
            self.write_str("#[pyclass(module = \"rlbot_flatbuffers\")]");
        } else {
            self.write_str("#[pyclass(module = \"rlbot_flatbuffers\", set_all)]");
        }

        self.write_fmt(concat3("pub struct ", self.name, " {"));
        self.write_fmt(concat3("    item: ", self.name, "Union,"));
        self.write_str("}");
        self.write_str("");

        self.write_fmt(concat3("impl crate::PyDefault for ", self.name, " {"));
        self.write_str("    fn py_default(py: Python) -> Py<Self> {");
        self.write_str("        Py::new(py, Self {");

        let first_var_name = variant_name(self.variants, 0);
        self.write_fmt(
            concat7(
                "            item: ",
                self.name,
                "Union::",
                first_var_name,
                "(super::",
                first_var_name,
                "::py_default(py)),",
            ),
        );
        self.write_str("        }).unwrap()");
        self.write_str("    }");
        self.write_str("}");
        self.write_str("");
    }

    fn generate_from_flat_impls(&mut self)
        ensures
            final(self)@.name == old(self)@.name,
            final(self)@.variants == old(self)@.variants,
            final(self)@.no_set == old(self)@.no_set,
            final(self)@.lines == old(self)@.lines + from_flat_lines(
                old(self)@.name,
                old(self)@.variants,
            ),
    {
        let ghost before = self@;
        self.write_fmt(concat5("impl FromGil<flat::", self.name, "> for ", self.name, " {"));
        self.write_fmt(
            concat3("    fn from_gil(py: Python, flat_t: flat::", self.name, ") -> Self {"),
        );
        self.write_str("        match flat_t {");
        let ghost opened = self@.lines;

        let count = variant_count(self.variants);
        let mut i: usize = 0;
        while i < count
            invariant
                i <= count,
                count == before.variants.len(),
                self@.name == before.name,
                self@.variants == before.variants,
                self@.no_set == before.no_set,
                self@.lines == opened + arms_prefix(
                    Section::FromFlat,
                    before.name,
                    before.variants,
                    i as int,
                ),
            decreases count - i,
        {
            let var_name = variant_name(self.variants, i);
            self.write_fmt(
                concat7(
                    "            flat::",
                    self.name,
                    "::",
                    var_name,
                    "(item) => ",
                    self.name,
                    " {",
                ),
            );
            self.write_fmt(concat5("                item: ", self.name, "Union::", var_name, "("));
            self.write_fmt(
                concat3(
                    "                    Py::new(py, super::",
                    var_name,
                    "::from_gil(py, *item)).unwrap(),",
                ),
            );
            self.write_str("                ),");
            self.write_str("            },");
            i += 1;
        }

        self.write_str("        }");
        self.write_str("    }");
        self.write_str("}");
        self.write_str("");
    }

    fn generate_to_flat_impls(&mut self)
        ensures
            final(self)@.name == old(self)@.name,
            final(self)@.variants == old(self)@.variants,
            final(self)@.no_set == old(self)@.no_set,
            final(self)@.lines == old(self)@.lines + to_flat_lines(
                old(self)@.name,
                old(self)@.variants,
            ),
    {
        let ghost before = self@;
        self.write_fmt(concat5("impl FromGil<&", self.name, "> for flat::", self.name, " {"));
        self.write_fmt(
            concat3("    fn from_gil(py: Python, py_type: &", self.name, ") -> Self {"),
        );
        self.write_str("        match &py_type.item {");
        let ghost opened = self@.lines;

        let count = variant_count(self.variants);
        let mut i: usize = 0;
        while i < count
            invariant
                i <= count,
                count == before.variants.len(),
                self@.name == before.name,
                self@.variants == before.variants,
                self@.no_set == before.no_set,
                self@.lines == opened + arms_prefix(
                    Section::ToFlat,
                    before.name,
                    before.variants,
                    i as int,
                ),
            decreases count - i,
        {
            let var_name = variant_name(self.variants, i);
            self.write_fmt(concat5("            ", self.name, "Union::", var_name, "(item) => {"));
            self.write_fmt(
                concat5(
                    "                flat::",
                    self.name,
                    "::",
                    var_name,
                    "(Box::new(crate::from_py_into(py, item)))",
                ),
            );
            self.write_str("            },");
            i += 1;
        }

        self.write_str("        }");
        self.write_str("    }");
        self.write_str("}");
        self.write_str("");
    }

    fn generate_new_method(&mut self)
        ensures
            final(self)@.name == old(self)@.name,
            final(self)@.variants == old(self)@.variants,
            final(self)@.no_set == old(self)@.no_set,
            final(self)@.lines == old(self)@.lines + new_method_lines(
                old(self)@.name,
                old(self)@.variants,
            ),
    {
        let ghost before = self@;
        self.write_str("    #[new]");
        self.write_fmt(concat3("    pub fn new(item: ", self.name, "Union) -> Self {"));
        self.write_str("        Self { item }");
        self.write_str("    }");
        self.write_str("");
        self.write_str("    #[getter(item)]");

        self.write_str("    pub fn get(&self, py: Python) -> Option<Py<PyAny>> {");
        self.write_str("        match &self.item {");
        let ghost opened = self@.lines;

        let count = variant_count(self.variants);
        let mut i: usize = 0;
        while i < count
            invariant
                i <= count,
                count == before.variants.len(),
                self@.name == before.name,
                self@.variants == before.variants,
                self@.no_set == before.no_set,
                self@.lines == opened + arms_prefix(
                    Section::Getter,
                    before.name,
                    before.variants,
                    i as int,
                ),
            decreases count - i,
        {
            let var_name = variant_name(self.variants, i);
            self.write_fmt(
                concat5(
                    "            ",
                    self.name,
                    "Union::",
                    var_name,
                    "(item) => Some(item.clone_ref(py).into_any()),",
                ),
            );
            i += 1;
        }

        self.write_str("        }");
        self.write_str("    }");
    }

    fn generate_str_method(&mut self)
        ensures
            final(self)@.name == old(self)@.name,
            final(self)@.variants == old(self)@.variants,
            final(self)@.no_set == old(self)@.no_set,
            final(self)@.lines == old(self)@.lines + str_method_lines(),
    {
        self.write_str("    pub fn __str__(&self, py: Python) -> String {");
        self.write_str("        self.__repr__(py)");
        self.write_str("    }");
    }

    fn generate_inner_repr_method(&mut self)
        ensures
            final(self)@.name == old(self)@.name,
            final(self)@.variants == old(self)@.variants,
            final(self)@.no_set == old(self)@.no_set,
            final(self)@.lines == old(self)@.lines + inner_repr_method_lines(
                old(self)@.name,
                old(self)@.variants,
            ),
    {
        let ghost before = self@;
        self.write_str("    pub fn inner_repr(&self, py: Python) -> String {");
        self.write_str("        match &self.item {");
        let ghost opened = self@.lines;

        let count = variant_count(self.variants);
        let mut i: usize = 0;
        while i < count
            invariant
                i <= count,
                count == before.variants.len(),
                self@.name == before.name,
                self@.variants == before.variants,
                self@.no_set == before.no_set,
                self@.lines == opened + arms_prefix(
                    Section::InnerRepr,
                    before.name,
                    before.variants,
                    i as int,
                ),
            decreases count - i,
        {
            let var_name = variant_name(self.variants, i);
            self.write_fmt(
                concat5(
                    "            ",
                    self.name,
                    "Union::",
                    var_name,
                    "(item) => item.borrow(py).__repr__(py),",
                ),
            );
            i += 1;
        }

        self.write_str("        }");
        self.write_str("    }");
    }

    fn generate_repr_method(&mut self)
        ensures
            final(self)@.name == old(self)@.name,
            final(self)@.variants == old(self)@.variants,
            final(self)@.no_set == old(self)@.no_set,
            final(self)@.lines == old(self)@.lines + repr_method_lines(
                old(self)@.name,
                old(self)@.variants,
            ),
    {
        let ghost before = self@;
        self.write_str("    pub fn __repr__(&self, py: Python) -> String {");
        self.write_str("        match &self.item {");
        let ghost opened = self@.lines;

        let count = variant_count(self.variants);
        let mut i: usize = 0;
        while i < count
            invariant
                i <= count,
                count == before.variants.len(),
                self@.name == before.name,
                self@.variants == before.variants,
                self@.no_set == before.no_set,
                self@.lines == opened + arms_prefix(
                    Section::Repr,
                    before.name,
                    before.variants,
                    i as int,
                ),
            decreases count - i,
        {
            let var_name = variant_name(self.variants, i);
            self.write_fmt(
                concat7(
                    "            ",
                    self.name,
                    "Union::",
                    var_name,
                    "(item) => format!(\"",
                    self.name,
                    "({})\", item.borrow(py).__repr__(py)),",
                ),
            );
            i += 1;
        }

        self.write_str("        }");
        self.write_str("    }");
    }

    fn generate_py_methods(&mut self)
        ensures
            final(self)@.name == old(self)@.name,
            final(self)@.variants == old(self)@.variants,
            final(self)@.no_set == old(self)@.no_set,
            final(self)@.lines == old(self)@.lines + py_methods_lines(
                old(self)@.name,
                old(self)@.variants,
            ),
    {
        self.write_str("#[pymethods]");
        self.write_fmt(concat3("impl ", self.name, " {"));

        self.generate_new_method();
        self.write_str("");

        self.generate_str_method();
        self.write_str("");

        self.generate_inner_repr_method();
        self.write_str("");

        self.generate_repr_method();
        self.write_str("}");
        self.write_str("");
    }

    /// The lines of the union's output unit, after those written before.  A union without
    /// variants, or with more than a one-byte tag can tell apart, is refused before any line
    /// is written.
    pub fn generate_binds(self) -> (binds: Result<Vec<Cow<'static, str>>, UnionError>)
        ensures
            match binds {
                Ok(lines) => {
                    &&& 0 < self@.variants.len() <= MAX_VARIANTS
                    &&& texts(lines@) == self@.lines + union_binds(
                        self@.name,
                        self@.variants,
                        self@.no_set,
                    )
                },
                Err(UnionError::NoVariants) => self@.variants.len() == 0,
                Err(UnionError::TooManyVariants) => self@.variants.len() > MAX_VARIANTS,
            },
    {
        let mut generator = self;
        let count = variant_count(generator.variants);
        if count == 0 {
            return Err(UnionError::NoVariants);
        }
        if count > MAX_VARIANTS {
            return Err(UnionError::TooManyVariants);
        }
        generator.write_str("use crate::{FromGil, PyDefault, flat};");
        generator.write_str("use pyo3::prelude::*;");
        generator.write_str("");

        generator.generate_definition();
        generator.generate_from_flat_impls();
        generator.generate_to_flat_impls();
        generator.generate_py_methods();

        Ok(generator.file_contents)
    }
}

} // verus!
