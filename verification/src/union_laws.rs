//! What holds of the bindings of every union.

use crate::unions::{
    arm, arms, arms_prefix, class_attribute, class_lines, default_lines, definition_lines,
    from_flat_lines, header_lines, inner_repr_method_lines, new_method_lines, py_methods_lines,
    repr_method_lines, str_method_lines, to_flat_lines, union_binds, variant_type_lines, Section,
};
use vstd::prelude::*;

verus! {

/// The number of lines that one variant takes in `section`.
pub open spec fn arm_len(section: Section) -> nat {
    match section {
        Section::Case => 1,
        Section::FromFlat => 5,
        Section::ToFlat => 3,
        Section::Getter => 1,
        Section::InnerRepr => 1,
        Section::Repr => 1,
    }
}

/// Whether `line` is not an attribute: it is empty or starts with another character than `#`.
pub open spec fn is_plain(line: Seq<char>) -> bool {
    line.len() == 0 || line[0] != '#'
}

/// Whether every line of `lines` is plain or one of the three attributes that open the
/// tagged-variant type, the wrapper class and its methods.
pub open spec fn attributes_are_known(lines: Seq<Seq<char>>, no_set: bool) -> bool {
    forall|j: int|
        0 <= j < lines.len() ==> is_plain(#[trigger] lines[j]) || lines[j]
            == "#[derive(pyo3::FromPyObject)]"@ || lines[j] == class_attribute(no_set)
            || lines[j] == "#[pymethods]"@
}

proof fn lemma_arm_is_plain(section: Section, name: Seq<char>, var: Seq<char>)
    ensures
        arm(section, name, var).len() == arm_len(section),
        forall|j: int|
            0 <= j < arm(section, name, var).len() ==> is_plain(
                #[trigger] arm(section, name, var)[j],
            ),
{
    reveal_strlit("    ");
    reveal_strlit("            flat::");
    reveal_strlit("                item: ");
    reveal_strlit("                    Py::new(py, super::");
    reveal_strlit("                ),");
    reveal_strlit("            },");
    reveal_strlit("            ");
    reveal_strlit("                flat::");
    let lines = arm(section, name, var);
    assert forall|j: int| 0 <= j < lines.len() implies is_plain(#[trigger] lines[j]) by {
        assert(lines[j][0] == ' ');
    }
}

proof fn lemma_arms_prefix_are_plain(
    section: Section,
    name: Seq<char>,
    variants: Seq<Seq<char>>,
    n: int,
)
    requires
        0 <= n,
    ensures
        arms_prefix(section, name, variants, n).len() == n * arm_len(section),
        forall|j: int|
            0 <= j < arms_prefix(section, name, variants, n).len() ==> is_plain(
                #[trigger] arms_prefix(section, name, variants, n)[j],
            ),
    decreases n,
{
    if n > 0 {
        lemma_arms_prefix_are_plain(section, name, variants, n - 1);
        lemma_arm_is_plain(section, name, variants[n - 1]);
        let before = arms_prefix(section, name, variants, n - 1);
        let last = arm(section, name, variants[n - 1]);
        assert(n * arm_len(section) == (n - 1) * arm_len(section) + arm_len(section))
            by (nonlinear_arith);
        assert forall|j: int| 0 <= j < (before + last).len() implies is_plain(
            #[trigger] (before + last)[j],
        ) by {
            if j < before.len() {
                assert((before + last)[j] == before[j]);
            } else {
                assert((before + last)[j] == last[j - before.len()]);
            }
        }
    }
}

proof fn lemma_arm_in_prefix(
    section: Section,
    name: Seq<char>,
    variants: Seq<Seq<char>>,
    n: int,
    i: int,
)
    requires
        0 <= i < n,
    ensures
        arms_prefix(section, name, variants, n).subrange(
            i * arm_len(section),
            (i + 1) * arm_len(section),
        ) == arm(section, name, variants[i]),
    decreases n,
{
    let len = arm_len(section) as int;
    let before = arms_prefix(section, name, variants, n - 1);
    let last = arm(section, name, variants[n - 1]);
    let low = i * len;
    let high = (i + 1) * len;
    lemma_arms_prefix_are_plain(section, name, variants, n - 1);
    lemma_arm_is_plain(section, name, variants[n - 1]);
    assert(before.len() == (n - 1) * len);
    assert(last.len() == len);
    assert(high == low + len) by (nonlinear_arith)
        requires
            low == i * len,
            high == (i + 1) * len,
    ;
    assert(0 <= low) by (nonlinear_arith)
        requires
            low == i * len,
            0 <= i,
            0 <= len,
    ;
    if i < n - 1 {
        lemma_arm_in_prefix(section, name, variants, n - 1, i);
        assert(high <= before.len()) by (nonlinear_arith)
            requires
                high == (i + 1) * len,
                before.len() == (n - 1) * len,
                i + 1 <= n - 1,
                0 <= len,
        ;
        assert((before + last).subrange(low, high) =~= before.subrange(low, high));
    } else {
        assert(low == before.len());
        assert((before + last).subrange(low, high) =~= last);
    }
}

/// Every section that matches on the active variant is exhaustive: it holds the block of
/// each declared variant once, at the variant's place in the order of declaration.
pub proof fn lemma_every_variant_has_its_arm(
    section: Section,
    name: Seq<char>,
    variants: Seq<Seq<char>>,
    i: int,
)
    requires
        0 <= i < variants.len(),
    ensures
        arms(section, name, variants).len() == variants.len() * arm_len(section),
        arms(section, name, variants).subrange(i * arm_len(section), (i + 1) * arm_len(section))
            == arm(section, name, variants[i]),
{
    lemma_arms_prefix_are_plain(section, name, variants, variants.len() as int);
    lemma_arm_in_prefix(section, name, variants, variants.len() as int, i);
}

/// A section holds `arm_len` lines for each variant, and none of them is an attribute.
pub proof fn lemma_arms_are_plain(section: Section, name: Seq<char>, variants: Seq<Seq<char>>)
    ensures
        arms(section, name, variants).len() == variants.len() * arm_len(section),
        attributes_are_known(arms(section, name, variants), true),
        attributes_are_known(arms(section, name, variants), false),
{
    lemma_arms_prefix_are_plain(section, name, variants, variants.len() as int);
}

proof fn lemma_attributes_known_of_both(a: Seq<Seq<char>>, b: Seq<Seq<char>>, no_set: bool)
    requires
        attributes_are_known(a, no_set),
        attributes_are_known(b, no_set),
    ensures
        attributes_are_known(a + b, no_set),
{
    assert forall|j: int| 0 <= j < (a + b).len() implies is_plain(#[trigger] (a + b)[j]) || (a
        + b)[j] == "#[derive(pyo3::FromPyObject)]"@ || (a + b)[j] == class_attribute(no_set) || (a
        + b)[j] == "#[pymethods]"@ by {
        if j < a.len() {
            assert((a + b)[j] == a[j]);
        } else {
            assert((a + b)[j] == b[j - a.len()]);
        }
    }
}

proof fn lemma_header(no_set: bool)
    ensures
        header_lines().len() == 3,
        attributes_are_known(header_lines(), no_set),
{
    reveal_strlit("use crate::{FromGil, PyDefault, flat};");
    reveal_strlit("use pyo3::prelude::*;");
    reveal_strlit("");
}

proof fn lemma_variant_type(name: Seq<char>, variants: Seq<Seq<char>>, no_set: bool)
    ensures
        variant_type_lines(name, variants).len() == variants.len() as int + 4,
        attributes_are_known(variant_type_lines(name, variants), no_set),
{
    reveal_strlit("pub enum ");
    reveal_strlit("}");
    reveal_strlit("");
    let open = seq!["#[derive(pyo3::FromPyObject)]"@, "pub enum "@ + name + "Union {"@];
    let close = seq!["}"@, ""@];
    assert(open[1][0] == 'p');
    lemma_arms_are_plain(Section::Case, name, variants);
    lemma_attributes_known_of_both(open, arms(Section::Case, name, variants), no_set);
    lemma_attributes_known_of_both(open + arms(Section::Case, name, variants), close, no_set);
}

proof fn lemma_class(name: Seq<char>, no_set: bool)
    ensures
        class_lines(name, no_set).len() == 5,
        class_lines(name, no_set)[0] == class_attribute(no_set),
        attributes_are_known(class_lines(name, no_set), no_set),
{
    reveal_strlit("pub struct ");
    reveal_strlit("    item: ");
    reveal_strlit("}");
    reveal_strlit("");
    let lines = class_lines(name, no_set);
    assert(lines[1][0] == 'p');
    assert(lines[2][0] == ' ');
}

proof fn lemma_default(name: Seq<char>, first: Seq<char>, no_set: bool)
    ensures
        default_lines(name, first).len() == 8,
        attributes_are_known(default_lines(name, first), no_set),
{
    reveal_strlit("impl crate::PyDefault for ");
    reveal_strlit("    fn py_default(py: Python) -> Py<Self> {");
    reveal_strlit("        Py::new(py, Self {");
    reveal_strlit("            item: ");
    reveal_strlit("        }).unwrap()");
    reveal_strlit("    }");
    reveal_strlit("}");
    reveal_strlit("");
    let lines = default_lines(name, first);
    assert(lines[0][0] == 'i');
    assert(lines[3][0] == ' ');
}

proof fn lemma_definition(name: Seq<char>, variants: Seq<Seq<char>>, no_set: bool)
    ensures
        definition_lines(name, variants, no_set).len() == variants.len() as int + 17,
        definition_lines(name, variants, no_set)[variants.len() as int + 4] == class_attribute(no_set),
        definition_lines(name, variants, no_set).subrange(
            variants.len() as int + 9,
            variants.len() as int + 17,
        ) == default_lines(name, variants[0]),
        attributes_are_known(definition_lines(name, variants, no_set), no_set),
{
    let types = variant_type_lines(name, variants);
    let class = class_lines(name, no_set);
    let default = default_lines(name, variants[0]);
    lemma_variant_type(name, variants, no_set);
    lemma_class(name, no_set);
    lemma_default(name, variants[0], no_set);
    lemma_attributes_known_of_both(types, class, no_set);
    lemma_attributes_known_of_both(types + class, default, no_set);
    assert((types + class + default)[variants.len() as int + 4] == class[0]);
    assert((types + class + default).subrange(variants.len() as int + 9, variants.len() as int + 17)
        =~= default);
}

proof fn lemma_from_flat(name: Seq<char>, variants: Seq<Seq<char>>, no_set: bool)
    ensures
        from_flat_lines(name, variants).len() == 5 * variants.len() as int + 7,
        attributes_are_known(from_flat_lines(name, variants), no_set),
{
    reveal_strlit("impl FromGil<flat::");
    reveal_strlit("    fn from_gil(py: Python, flat_t: flat::");
    reveal_strlit("        match flat_t {");
    reveal_strlit("        }");
    reveal_strlit("    }");
    reveal_strlit("}");
    reveal_strlit("");
    let open = seq![
        "impl FromGil<flat::"@ + name + "> for "@ + name + " {"@,
        "    fn from_gil(py: Python, flat_t: flat::"@ + name + ") -> Self {"@,
        "        match flat_t {"@,
    ];
    let close = seq!["        }"@, "    }"@, "}"@, ""@];
    assert(open[0][0] == 'i');
    assert(open[1][0] == ' ');
    lemma_arms_are_plain(Section::FromFlat, name, variants);
    lemma_attributes_known_of_both(open, arms(Section::FromFlat, name, variants), no_set);
    lemma_attributes_known_of_both(open + arms(Section::FromFlat, name, variants), close, no_set);
}

proof fn lemma_to_flat(name: Seq<char>, variants: Seq<Seq<char>>, no_set: bool)
    ensures
        to_flat_lines(name, variants).len() == 3 * variants.len() as int + 7,
        attributes_are_known(to_flat_lines(name, variants), no_set),
{
    reveal_strlit("impl FromGil<&");
    reveal_strlit("    fn from_gil(py: Python, py_type: &");
    reveal_strlit("        match &py_type.item {");
    reveal_strlit("        }");
    reveal_strlit("    }");
    reveal_strlit("}");
    reveal_strlit("");
    let open = seq![
        "impl FromGil<&"@ + name + "> for flat::"@ + name + " {"@,
        "    fn from_gil(py: Python, py_type: &"@ + name + ") -> Self {"@,
        "        match &py_type.item {"@,
    ];
    let close = seq!["        }"@, "    }"@, "}"@, ""@];
    assert(open[0][0] == 'i');
    assert(open[1][0] == ' ');
    lemma_arms_are_plain(Section::ToFlat, name, variants);
    lemma_attributes_known_of_both(open, arms(Section::ToFlat, name, variants), no_set);
    lemma_attributes_known_of_both(open + arms(Section::ToFlat, name, variants), close, no_set);
}

proof fn lemma_new_method(name: Seq<char>, variants: Seq<Seq<char>>, no_set: bool)
    ensures
        new_method_lines(name, variants).len() == variants.len() as int + 10,
        new_method_lines(name, variants)[5] == "    #[getter(item)]"@,
        attributes_are_known(new_method_lines(name, variants), no_set),
{
    reveal_strlit("    #[new]");
    reveal_strlit("    pub fn new(item: ");
    reveal_strlit("        Self { item }");
    reveal_strlit("    }");
    reveal_strlit("");
    reveal_strlit("    #[getter(item)]");
    reveal_strlit("    pub fn get(&self, py: Python) -> Option<Py<PyAny>> {");
    reveal_strlit("        match &self.item {");
    reveal_strlit("        }");
    let open = seq![
        "    #[new]"@,
        "    pub fn new(item: "@ + name + "Union) -> Self {"@,
        "        Self { item }"@,
        "    }"@,
        ""@,
        "    #[getter(item)]"@,
        "    pub fn get(&self, py: Python) -> Option<Py<PyAny>> {"@,
        "        match &self.item {"@,
    ];
    let close = seq!["        }"@, "    }"@];
    assert(open[1][0] == ' ');
    lemma_arms_are_plain(Section::Getter, name, variants);
    lemma_attributes_known_of_both(open, arms(Section::Getter, name, variants), no_set);
    lemma_attributes_known_of_both(open + arms(Section::Getter, name, variants), close, no_set);
    assert((open + arms(Section::Getter, name, variants) + close)[5] == open[5]);
}

proof fn lemma_str_method(no_set: bool)
    ensures
        str_method_lines().len() == 3,
        attributes_are_known(str_method_lines(), no_set),
{
    reveal_strlit("    pub fn __str__(&self, py: Python) -> String {");
    reveal_strlit("        self.__repr__(py)");
    reveal_strlit("    }");
}

proof fn lemma_inner_repr_method(name: Seq<char>, variants: Seq<Seq<char>>, no_set: bool)
    ensures
        inner_repr_method_lines(name, variants).len() == variants.len() as int + 4,
        attributes_are_known(inner_repr_method_lines(name, variants), no_set),
{
    reveal_strlit("    pub fn inner_repr(&self, py: Python) -> String {");
    reveal_strlit("        match &self.item {");
    reveal_strlit("        }");
    reveal_strlit("    }");
    let open = seq![
        "    pub fn inner_repr(&self, py: Python) -> String {"@,
        "        match &self.item {"@,
    ];
    let close = seq!["        }"@, "    }"@];
    lemma_arms_are_plain(Section::InnerRepr, name, variants);
    lemma_attributes_known_of_both(open, arms(Section::InnerRepr, name, variants), no_set);
    lemma_attributes_known_of_both(open + arms(Section::InnerRepr, name, variants), close, no_set);
}

proof fn lemma_repr_method(name: Seq<char>, variants: Seq<Seq<char>>, no_set: bool)
    ensures
        repr_method_lines(name, variants).len() == variants.len() as int + 4,
        attributes_are_known(repr_method_lines(name, variants), no_set),
{
    reveal_strlit("    pub fn __repr__(&self, py: Python) -> String {");
    reveal_strlit("        match &self.item {");
    reveal_strlit("        }");
    reveal_strlit("    }");
    let open = seq![
        "    pub fn __repr__(&self, py: Python) -> String {"@,
        "        match &self.item {"@,
    ];
    let close = seq!["        }"@, "    }"@];
    lemma_arms_are_plain(Section::Repr, name, variants);
    lemma_attributes_known_of_both(open, arms(Section::Repr, name, variants), no_set);
    lemma_attributes_known_of_both(open + arms(Section::Repr, name, variants), close, no_set);
}

proof fn lemma_py_methods(name: Seq<char>, variants: Seq<Seq<char>>, no_set: bool)
    ensures
        py_methods_lines(name, variants).len() == 3 * variants.len() as int + 28,
        py_methods_lines(name, variants)[7] == "    #[getter(item)]"@,
        attributes_are_known(py_methods_lines(name, variants), no_set),
{
    reveal_strlit("impl ");
    reveal_strlit("}");
    reveal_strlit("");
    let open = seq!["#[pymethods]"@, "impl "@ + name + " {"@];
    let gap = seq![""@];
    let close = seq!["}"@, ""@];
    let new = new_method_lines(name, variants);
    let inner = inner_repr_method_lines(name, variants);
    let repr = repr_method_lines(name, variants);
    assert(open[1][0] == 'i');
    lemma_new_method(name, variants, no_set);
    lemma_str_method(no_set);
    lemma_inner_repr_method(name, variants, no_set);
    lemma_repr_method(name, variants, no_set);
    lemma_attributes_known_of_both(open, new, no_set);
    lemma_attributes_known_of_both(open + new, gap, no_set);
    lemma_attributes_known_of_both(open + new + gap, str_method_lines(), no_set);
    lemma_attributes_known_of_both(open + new + gap + str_method_lines(), gap, no_set);
    lemma_attributes_known_of_both(open + new + gap + str_method_lines() + gap, inner, no_set);
    lemma_attributes_known_of_both(
        open + new + gap + str_method_lines() + gap + inner,
        gap,
        no_set,
    );
    lemma_attributes_known_of_both(
        open + new + gap + str_method_lines() + gap + inner + gap,
        repr,
        no_set,
    );
    lemma_attributes_known_of_both(
        open + new + gap + str_method_lines() + gap + inner + gap + repr,
        close,
        no_set,
    );
    assert(py_methods_lines(name, variants)[7] == new[5]);
}

/// The output unit of a union with `n` variants has `12 * n + 62` lines.  The wrapper
/// class's attribute is line `n + 7` and the accessor's is line `9 * n + 41`, counted from 0;
/// every other attribute among the lines opens the tagged-variant type or the methods.
pub proof fn lemma_union_binds_layout(name: Seq<char>, variants: Seq<Seq<char>>, no_set: bool)
    ensures
        union_binds(name, variants, no_set).len() == 12 * variants.len() as int + 62,
        union_binds(name, variants, no_set)[variants.len() as int + 7] == class_attribute(no_set),
        union_binds(name, variants, no_set)[9 * variants.len() as int + 41] == "    #[getter(item)]"@,
        union_binds(name, variants, no_set).subrange(
            variants.len() as int + 12,
            variants.len() as int + 20,
        ) == default_lines(name, variants[0]),
        attributes_are_known(union_binds(name, variants, no_set), no_set),
{
    let header = header_lines();
    let definition = definition_lines(name, variants, no_set);
    let from_flat = from_flat_lines(name, variants);
    let to_flat = to_flat_lines(name, variants);
    let methods = py_methods_lines(name, variants);
    lemma_header(no_set);
    lemma_definition(name, variants, no_set);
    lemma_from_flat(name, variants, no_set);
    lemma_to_flat(name, variants, no_set);
    lemma_py_methods(name, variants, no_set);
    lemma_attributes_known_of_both(header, definition, no_set);
    lemma_attributes_known_of_both(header + definition, from_flat, no_set);
    lemma_attributes_known_of_both(header + definition + from_flat, to_flat, no_set);
    lemma_attributes_known_of_both(header + definition + from_flat + to_flat, methods, no_set);
    let all = union_binds(name, variants, no_set);
    assert(all[variants.len() as int + 7] == definition[variants.len() as int + 4]);
    assert(all[9 * variants.len() as int + 41] == methods[7]);
    assert(all.subrange(variants.len() as int + 12, variants.len() as int + 20) =~= definition.subrange(
        variants.len() as int + 9,
        variants.len() as int + 17,
    ));
}

/// The default construction is that of the first declared variant, whatever the variants
/// after it are: two unions of one name whose first variants agree have the same lines of
/// default construction, at the same place after the cases of their tagged-variant types.
pub proof fn lemma_default_is_first_variant(
    name: Seq<char>,
    variants: Seq<Seq<char>>,
    others: Seq<Seq<char>>,
    no_set: bool,
)
    requires
        variants.len() > 0,
        others.len() > 0,
        variants[0] == others[0],
    ensures
        union_binds(name, variants, no_set).subrange(variants.len() as int + 12, variants.len() as int + 20)
            == default_lines(name, variants[0]),
        union_binds(name, variants, no_set).subrange(variants.len() as int + 12, variants.len() as int + 20)
            == union_binds(name, others, no_set).subrange(others.len() as int + 12, others.len() as int + 20),
        default_lines(name, variants[0])[3] == "            item: "@ + name + "Union::"@
            + variants[0] + "(super::"@ + variants[0] + "::py_default(py)),"@,
{
    lemma_union_binds_layout(name, variants, no_set);
    lemma_union_binds_layout(name, others, no_set);
}

/// The wrapper class of every union has the accessor of its value.  It is declared with a
/// setter for its value exactly when the union is not one of those configured to go without:
/// then no line of the output grants one.
pub proof fn lemma_setter_follows_configuration(
    name: Seq<char>,
    variants: Seq<Seq<char>>,
    no_set: bool,
)
    ensures
        union_binds(name, variants, no_set).contains("    #[getter(item)]"@),
        union_binds(name, variants, no_set).contains(class_attribute(false)) <==> !no_set,
{
    let all = union_binds(name, variants, no_set);
    lemma_union_binds_layout(name, variants, no_set);
    assert(all[9 * variants.len() as int + 41] == "    #[getter(item)]"@);
    assert(all[variants.len() as int + 7] == class_attribute(no_set));
    reveal_strlit("#[derive(pyo3::FromPyObject)]");
    reveal_strlit("#[pyclass(module = \"rlbot_flatbuffers\")]");
    reveal_strlit("#[pyclass(module = \"rlbot_flatbuffers\", set_all)]");
    reveal_strlit("#[pymethods]");
    let granting = class_attribute(false);
    assert(!is_plain(granting));
    assert(granting != "#[derive(pyo3::FromPyObject)]"@);
    assert(granting != "#[pymethods]"@);
    assert(granting != class_attribute(true));
    if no_set {
        assert forall|j: int| 0 <= j < all.len() implies all[j] != granting by {}
    }
}

} // verus!
