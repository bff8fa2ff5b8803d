//! Lines of generated source text and the ways they are put together.

use std::borrow::Cow;
use vstd::prelude::*;
use vstd::relations::{sorted_by, total_ordering};
use vstd::seq_lib::lemma_sorted_unique;

verus! {

/// The text of each line of `lines`, in order.
pub open spec fn texts(lines: Seq<Cow<'static, str>>) -> Seq<Seq<char>> {
    Seq::new(lines.len(), |i: int| lines[i]@)
}

/// The text of each string of `strings`, in order.
pub open spec fn string_texts(strings: Seq<String>) -> Seq<Seq<char>> {
    Seq::new(strings.len(), |i: int| strings[i]@)
}

/// The first `n` elements of `lines` with `sep` between each two neighbours.
pub open spec fn joined_prefix(lines: Seq<Seq<char>>, sep: Seq<char>, n: int) -> Seq<char>
    decreases n,
{
    if n <= 0 {
        Seq::empty()
    } else if n == 1 {
        lines[0]
    } else {
        joined_prefix(lines, sep, n - 1) + sep + lines[n - 1]
    }
}

/// All of `lines` with `sep` between each two neighbours.
pub open spec fn joined(lines: Seq<Seq<char>>, sep: Seq<char>) -> Seq<char> {
    joined_prefix(lines, sep, lines.len() as int)
}

/// The first `n` elements of `parts`, one after the other.
pub open spec fn concat_prefix(parts: Seq<Seq<char>>, n: int) -> Seq<char>
    decreases n,
{
    if n <= 0 {
        Seq::empty()
    } else {
        concat_prefix(parts, n - 1) + parts[n - 1]
    }
}

/// All of `parts`, one after the other.
pub open spec fn concat_all(parts: Seq<Seq<char>>) -> Seq<char> {
    concat_prefix(parts, parts.len() as int)
}

/// `String::push`: appends `ch` to the end of the string.
pub assume_specification[ String::push ](s: &mut String, ch: char)
    ensures
        final(s)@ == old(s)@.push(ch),
;

/// `str`'s `==`: two string slices are equal when they hold the same characters.
#[verifier::external_body]
pub(crate) fn same_text(a: &str, b: &str) -> (same: bool)
    ensures
        same == (a@ == b@),
{
    a == b
}

/// `text` with every match of `from` replaced by `to`.  The matches are found from the start
/// of the text and do not overlap: the search goes on behind the end of each match.  Where
/// `from` is empty the text is left as it is.
pub open spec fn replaced(text: Seq<char>, from: Seq<char>, to: Seq<char>) -> Seq<char>
    decreases text.len(),
{
    if from.len() == 0 || text.len() < from.len() {
        text
    } else if text.take(from.len() as int) == from {
        to + replaced(text.skip(from.len() as int), from, to)
    } else {
        seq![text[0]] + replaced(text.skip(1), from, to)
    }
}

/// `str::replace` with a string as the pattern: a new string in which all matches of `from`
/// are replaced by `to`.  Matches are searched from the start and do not overlap.  An empty
/// pattern, which matches between any two characters, is left out.
#[verifier::external_body]
pub(crate) fn replace(text: &str, from: &str, to: &str) -> (result: String)
    requires
        from@.len() > 0,
    ensures
        result@ == replaced(text@, from@, to@),
{
    text.replace(from, to)
}

/// The parts `a`, `b`, `c`, one after the other.
pub fn concat3(a: &str, b: &str, c: &str) -> (line: String)
    ensures
        line@ == a@ + b@ + c@,
{
    let mut text = String::from_str(a);
    text.append(b);
    text.append(c);
    text
}

/// The parts `a` to `e`, one after the other.
pub fn concat5(a: &str, b: &str, c: &str, d: &str, e: &str) -> (line: String)
    ensures
        line@ == a@ + b@ + c@ + d@ + e@,
{
    let mut text = String::from_str(a);
    text.append(b);
    text.append(c);
    text.append(d);
    text.append(e);
    text
}

/// The parts `a` to `g`, one after the other.
pub fn concat7(a: &str, b: &str, c: &str, d: &str, e: &str, f: &str, g: &str) -> (line: String)
    ensures
        line@ == a@ + b@ + c@ + d@ + e@ + f@ + g@,
{
    let mut text = String::from_str(a);
    text.append(b);
    text.append(c);
    text.append(d);
    text.append(e);
    text.append(f);
    text.append(g);
    text
}

/// The text of a line, borrowed.
pub fn line_text<'a>(line: &'a Cow<'static, str>) -> (text: &'a str)
    ensures
        text@ == line@,
{
    match line {
        Cow::Borrowed(text) => text,
        Cow::Owned(text) => text.as_str(),
    }
}

/// One output unit: the lines with a newline between each two of them.
pub fn join_lines(lines: &Vec<Cow<'static, str>>) -> (unit: String)
    ensures
        unit@ == joined(texts(lines@), "\n"@),
{
    let mut unit = String::new();
    let mut i: usize = 0;
    while i < lines.len()
        invariant
            i <= lines.len(),
            unit@ == joined_prefix(texts(lines@), "\n"@, i as int),
        decreases lines.len() - i,
    {
        if i != 0 {
            unit.append("\n");
        }
        unit.append(line_text(&lines[i]));
        i += 1;
    }
    unit
}

/// Whether `a` comes before `b`, or is `b`, in the order of strings: the first character in
/// which they differ decides, by its code point, and a text comes before its extensions.
pub open spec fn text_le(a: Seq<char>, b: Seq<char>) -> bool
    decreases a.len(),
{
    if a.len() == 0 {
        true
    } else if b.len() == 0 {
        false
    } else if a[0] != b[0] {
        a[0] < b[0]
    } else {
        text_le(a.drop_first(), b.drop_first())
    }
}

/// The order of strings, as a relation.
pub open spec fn text_order() -> spec_fn(Seq<char>, Seq<char>) -> bool {
    |a: Seq<char>, b: Seq<char>| text_le(a, b)
}

/// The texts of `texts` in ascending order.
pub open spec fn sorted_texts(texts: Seq<Seq<char>>) -> Seq<Seq<char>> {
    texts.sort_by(text_order())
}

proof fn lemma_text_le_reflexive(a: Seq<char>)
    ensures
        text_le(a, a),
    decreases a.len(),
{
    if a.len() > 0 {
        lemma_text_le_reflexive(a.drop_first());
    }
}

proof fn lemma_text_le_antisymmetric(a: Seq<char>, b: Seq<char>)
    requires
        text_le(a, b),
        text_le(b, a),
    ensures
        a == b,
    decreases a.len(),
{
    if a.len() == 0 || b.len() == 0 {
        assert(a =~= b);
    } else {
        lemma_text_le_antisymmetric(a.drop_first(), b.drop_first());
        assert(a =~= seq![a[0]] + a.drop_first());
        assert(b =~= seq![b[0]] + b.drop_first());
    }
}

proof fn lemma_text_le_transitive(a: Seq<char>, b: Seq<char>, c: Seq<char>)
    requires
        text_le(a, b),
        text_le(b, c),
    ensures
        text_le(a, c),
    decreases a.len(),
{
    if a.len() > 0 && a[0] == b[0] && b[0] == c[0] {
        lemma_text_le_transitive(a.drop_first(), b.drop_first(), c.drop_first());
    }
}

proof fn lemma_text_le_connected(a: Seq<char>, b: Seq<char>)
    ensures
        text_le(a, b) || text_le(b, a),
    decreases a.len(),
{
    if a.len() > 0 && b.len() > 0 && a[0] == b[0] {
        lemma_text_le_connected(a.drop_first(), b.drop_first());
    }
}

/// The order of strings is a total order.
pub proof fn lemma_text_order_is_total()
    ensures
        total_ordering(text_order()),
{
    let order = text_order();
    assert forall|a: Seq<char>| #[trigger] order(a, a) by {
        lemma_text_le_reflexive(a);
    }
    assert forall|a: Seq<char>, b: Seq<char>| #[trigger] order(a, b) && #[trigger] order(
        b,
        a,
    ) implies a == b by {
        lemma_text_le_antisymmetric(a, b);
    }
    assert forall|a: Seq<char>, b: Seq<char>, c: Seq<char>| #[trigger] order(a, b)
        && #[trigger] order(b, c) implies order(a, c) by {
        lemma_text_le_transitive(a, b, c);
    }
    assert forall|a: Seq<char>, b: Seq<char>| #[trigger] order(a, b) || #[trigger] order(b, a) by {
        lemma_text_le_connected(a, b);
    }
}

/// `sorted_texts` holds the same texts, each as often as before, in ascending order.
pub proof fn lemma_sorted_texts(texts: Seq<Seq<char>>)
    ensures
        sorted_texts(texts).to_multiset() == texts.to_multiset(),
        sorted_by(sorted_texts(texts), text_order()),
        forall|i: int, j: int|
            0 <= i < j < sorted_texts(texts).len() ==> text_le(
                #[trigger] sorted_texts(texts)[i],
                #[trigger] sorted_texts(texts)[j],
            ),
{
    lemma_text_order_is_total();
    texts.lemma_sort_by_ensures(text_order());
    let sorted = sorted_texts(texts);
    assert forall|i: int, j: int| 0 <= i < j < sorted.len() implies text_le(
        #[trigger] sorted[i],
        #[trigger] sorted[j],
    ) by {
        assert(text_order()(sorted[i], sorted[j]));
    }
}

/// `sort_unstable` of a slice of strings: afterwards the slice holds the same strings in
/// ascending order.  Strings are ordered lexicographically by their bytes, which orders them
/// by the code points of their characters.
#[verifier::external_body]
fn sort_unstable(strings: &mut Vec<String>)
    ensures
        sorted_by(string_texts(final(strings)@), text_order()),
        string_texts(final(strings)@).to_multiset() == string_texts(old(strings)@).to_multiset(),
{
    strings.sort_unstable();
}

/// Puts `strings` in ascending order.
pub fn sort_texts(strings: &mut Vec<String>)
    ensures
        string_texts(final(strings)@) == sorted_texts(string_texts(old(strings)@)),
{
    let ghost before = string_texts(strings@);
    sort_unstable(strings);
    proof {
        lemma_sorted_texts(before);
        lemma_text_order_is_total();
        lemma_sorted_unique(string_texts(strings@), sorted_texts(before), text_order());
    }
}

/// The strings of `parts`, one after the other.
pub fn concat_strings(parts: &Vec<String>) -> (whole: String)
    ensures
        whole@ == concat_all(string_texts(parts@)),
{
    let mut whole = String::new();
    let mut i: usize = 0;
    while i < parts.len()
        invariant
            i <= parts.len(),
            whole@ == concat_prefix(string_texts(parts@), i as int),
        decreases parts.len() - i,
    {
        whole.append(parts[i].as_str());
        i += 1;
    }
    whole
}

/// Whether one of `strings` is `text`.
pub fn contains_text(strings: &Vec<String>, text: &str) -> (found: bool)
    ensures
        found == string_texts(strings@).contains(text@),
{
    let mut i: usize = 0;
    while i < strings.len()
        invariant
            i <= strings.len(),
            forall|j: int| 0 <= j < i ==> string_texts(strings@)[j] != text@,
        decreases strings.len() - i,
    {
        if same_text(strings[i].as_str(), text) {
            assert(string_texts(strings@)[i as int] == text@);
            return true;
        }
        i += 1;
    }
    false
}

} // verus!
