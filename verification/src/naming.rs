//! File names derived from declaration names.
//!
//! A declaration's simple name is written in camel case; the file that holds its bindings
//! is named by the same words in lower case, separated by underscores.

use vstd::prelude::*;

verus! {

/// Whether `c` has the Unicode `Uppercase` property, as `char::is_uppercase` reports it.
/// Contracts ask this of characters beyond ASCII only.
pub uninterp spec fn unicode_uppercase(c: char) -> bool;

/// Whether `c` is an uppercase character: one of `'A'..='Z'` among the ASCII characters,
/// and beyond them what Unicode says.
pub open spec fn is_uppercase(c: char) -> bool {
    if (c as u32) < 128 {
        'A' <= c && c <= 'Z'
    } else {
        unicode_uppercase(c)
    }
}

/// The ASCII lower-case equivalent of `c`: `'A'..='Z'` move to `'a'..='z'`, every other
/// character stays.
pub open spec fn ascii_lower(c: char) -> char {
    if 'A' <= c && c <= 'Z' {
        ((c as u8) + 32) as char
    } else {
        c
    }
}

/// The ASCII upper-case equivalent of `c`: `'a'..='z'` move to `'A'..='Z'`, every other
/// character stays.
pub open spec fn ascii_upper(c: char) -> char {
    if 'a' <= c && c <= 'z' {
        ((c as u8) - 32) as char
    } else {
        c
    }
}

/// `char::is_uppercase`: whether `c` has the `Uppercase` property of the Unicode Character
/// Database.  Among the ASCII characters exactly the letters `'A'..='Z'` have it; of the
/// characters beyond ASCII the contract gives the answer a name and says no more.
pub assume_specification[ char::is_uppercase ](c: char) -> (upper: bool)
    ensures
        upper == (if (c as u32) < 128 {
            'A' <= c && c <= 'Z'
        } else {
            unicode_uppercase(c)
        }),
;

/// `char::to_ascii_lowercase`: ASCII letters `'A'..='Z'` are mapped to `'a'..='z'`, all other
/// characters are returned unchanged.
pub assume_specification[ char::to_ascii_lowercase ](c: &char) -> (lower: char)
    ensures
        lower == ascii_lower(*c),
;

/// What the character `c` at position `i` contributes to the snake-case form.
pub open spec fn snake_piece(i: int, c: char) -> Seq<char> {
    if is_uppercase(c) {
        if i != 0 {
            seq!['_', ascii_lower(c)]
        } else {
            seq![ascii_lower(c)]
        }
    } else {
        seq![c]
    }
}

/// The snake-case form of the first `n` characters of `s`.
pub open spec fn snake_prefix(s: Seq<char>, n: int) -> Seq<char>
    decreases n,
{
    if n <= 0 {
        Seq::empty()
    } else {
        snake_prefix(s, n - 1) + snake_piece(n - 1, s[n - 1])
    }
}

/// The snake-case form of `s`: an underscore goes before every uppercase character but one at
/// position 0, and every uppercase character is replaced by its ASCII lower-case equivalent.
pub open spec fn snake_case_of(s: Seq<char>) -> Seq<char> {
    snake_prefix(s, s.len() as int)
}

/// Whether every uppercase character of `s` is an ASCII letter.
pub open spec fn uppercase_is_ascii(s: Seq<char>) -> bool {
    forall|i: int| 0 <= i < s.len() && is_uppercase(#[trigger] s[i]) ==> (s[i] as u32) < 128
}

/// Whether `s` holds no uppercase character.
pub open spec fn has_no_uppercase(s: Seq<char>) -> bool {
    forall|i: int| 0 <= i < s.len() ==> !is_uppercase(#[trigger] s[i])
}

/// Whether `s` holds no underscore.
pub open spec fn has_no_underscore(s: Seq<char>) -> bool {
    forall|i: int| 0 <= i < s.len() ==> #[trigger] s[i] != '_'
}

/// `s` with its first character replaced by that character's ASCII lower-case equivalent.
pub open spec fn lower_first(s: Seq<char>) -> Seq<char> {
    if s.len() == 0 {
        s
    } else {
        s.update(0, ascii_lower(s[0]))
    }
}

/// `t` without its underscores, each character that followed one replaced by its ASCII
/// upper-case equivalent.
pub open spec fn capitals_restored(t: Seq<char>) -> Seq<char>
    decreases t.len(),
{
    if t.len() == 0 {
        Seq::empty()
    } else if t.len() >= 2 && t[t.len() - 2] == '_' {
        capitals_restored(t.take(t.len() - 2)) + seq![ascii_upper(t.last())]
    } else {
        capitals_restored(t.drop_last()) + seq![t.last()]
    }
}

/// The lower-case, underscore-separated form of a camel-case name.
pub fn camel_to_snake(input: &str) -> (snake_case: String)
    ensures
        snake_case@ == snake_case_of(input@),
{
    broadcast use vstd::string::group_string_axioms;

    let mut snake_case = String::new();
    let mut first = true;
    for ch in iter: input.chars()
        invariant
            iter.seq() == input@,
            first == (iter.index() == 0),
            snake_case@ == snake_prefix(input@, iter.index() as int),
    {
        if ch.is_uppercase() {
            if !first {
                snake_case.push('_');
            }
            snake_case.push(ch.to_ascii_lowercase());
        } else {
            snake_case.push(ch);
        }
        first = false;
    }
    snake_case
}

/// The snake-case form of a prefix has at least the prefix's length, and none of its
/// characters is uppercase when the uppercase characters of the input are ASCII letters.
proof fn lemma_snake_prefix_lowercase(s: Seq<char>, n: int)
    requires
        0 <= n <= s.len(),
        uppercase_is_ascii(s),
    ensures
        n <= snake_prefix(s, n).len() <= 2 * n,
        has_no_uppercase(snake_prefix(s, n)),
    decreases n,
{
    if n > 0 {
        lemma_snake_prefix_lowercase(s, n - 1);
        let c = s[n - 1];
        let before = snake_prefix(s, n - 1);
        let piece = snake_piece(n - 1, c);
        assert(!is_uppercase('_'));
        assert(is_uppercase(c) ==> !is_uppercase(ascii_lower(c)));
        assert forall|j: int| 0 <= j < piece.len() implies !is_uppercase(#[trigger] piece[j]) by {}
        assert forall|j: int| 0 <= j < (before + piece).len() implies !is_uppercase(
            #[trigger] (before + piece)[j],
        ) by {
            if j < before.len() {
                assert((before + piece)[j] == before[j]);
            } else {
                assert((before + piece)[j] == piece[j - before.len()]);
            }
        }
    }
}

/// For every name whose uppercase characters are ASCII letters, the snake-case form holds no
/// uppercase character.
pub proof fn lemma_snake_case_has_no_uppercase(s: Seq<char>)
    requires
        uppercase_is_ascii(s),
    ensures
        has_no_uppercase(snake_case_of(s)),
{
    lemma_snake_prefix_lowercase(s, s.len() as int);
}

proof fn lemma_snake_prefix_of_lowercase(t: Seq<char>, n: int)
    requires
        0 <= n <= t.len(),
        has_no_uppercase(t),
    ensures
        snake_prefix(t, n) == t.take(n),
    decreases n,
{
    if n > 0 {
        lemma_snake_prefix_of_lowercase(t, n - 1);
        assert(!is_uppercase(t[n - 1]));
        assert(t.take(n - 1) + seq![t[n - 1]] =~= t.take(n));
    }
}

/// A text without uppercase characters is its own snake-case form.
pub proof fn lemma_snake_case_keeps_lowercase(t: Seq<char>)
    requires
        has_no_uppercase(t),
    ensures
        snake_case_of(t) == t,
{
    lemma_snake_prefix_of_lowercase(t, t.len() as int);
    assert(t.take(t.len() as int) =~= t);
}

/// Applying the transformation twice gives what applying it once gives, for every name whose
/// uppercase characters are ASCII letters.
pub proof fn lemma_snake_case_idempotent(s: Seq<char>)
    requires
        uppercase_is_ascii(s),
    ensures
        snake_case_of(snake_case_of(s)) == snake_case_of(s),
{
    lemma_snake_case_has_no_uppercase(s);
    lemma_snake_case_keeps_lowercase(snake_case_of(s));
}

proof fn lemma_capitals_restored_prefix(s: Seq<char>, n: int)
    requires
        0 <= n <= s.len(),
        uppercase_is_ascii(s),
        has_no_underscore(s),
    ensures
        capitals_restored(snake_prefix(s, n)) == lower_first(s).take(n),
        snake_prefix(s, n).len() >= n,
        n > 0 ==> snake_prefix(s, n).last() != '_',
    decreases n,
{
    if n > 0 {
        lemma_capitals_restored_prefix(s, n - 1);
        let c = s[n - 1];
        let before = snake_prefix(s, n - 1);
        let whole = snake_prefix(s, n);
        let target = lower_first(s);
        assert(c != '_');
        assert(target.take(n - 1) + seq![target[n - 1]] =~= target.take(n));
        if is_uppercase(c) {
            assert('A' <= c && c <= 'Z');
            assert(ascii_upper(ascii_lower(c)) == c);
            if n - 1 != 0 {
                assert(whole == before + seq!['_', ascii_lower(c)]);
                assert(whole[whole.len() - 2] == '_');
                assert(whole.take(whole.len() - 2) =~= before);
                assert(whole.last() == ascii_lower(c));
                assert(target[n - 1] == c);
            } else {
                assert(before =~= Seq::<char>::empty());
                assert(whole =~= seq![ascii_lower(c)]);
                assert(whole.drop_last() =~= Seq::<char>::empty());
                assert(target[0] == ascii_lower(c));
            }
        } else {
            assert(whole == before + seq![c]);
            assert(whole.drop_last() =~= before);
            assert(whole.last() == c);
            assert(ascii_lower(c) == c);
            assert(target[n - 1] == c);
            if whole.len() >= 2 {
                assert(before.len() >= 1);
                assert(n - 1 > 0);
                assert(whole[whole.len() - 2] == before.last());
            }
        }
    }
}

/// Restoring a capital after every underscore of the snake-case form gives the name back, but
/// for the case of its first character, which the snake-case form does not record.  This holds
/// of every name without underscores whose uppercase characters are ASCII letters.
pub proof fn lemma_capitals_restored(s: Seq<char>)
    requires
        uppercase_is_ascii(s),
        has_no_underscore(s),
    ensures
        capitals_restored(snake_case_of(s)) == lower_first(s),
{
    lemma_capitals_restored_prefix(s, s.len() as int);
    assert(lower_first(s).take(s.len() as int) =~= lower_first(s));
}

} // verus!
