//! Texts: width, containment, order and numerals, and the string functions
//! of std that the library relies on.

use vstd::prelude::*;

verus! {

/// Display width of a text: the number of bytes of its UTF-8 form.
pub open spec fn width_of(s: Seq<char>) -> usize {
    vstd::utf8::encode_utf8(s).len() as usize
}

/// The display width of `s`.
pub fn text_width(s: &String) -> (w: usize)
    ensures
        w == width_of(s@),
{
    s.as_str().len()
}

/// The text `s` in upper case, as `str::to_uppercase` gives it.
pub uninterp spec fn uppercase_of(s: Seq<char>) -> Seq<char>;

/// `str::to_uppercase`: the upper-case form of the text, which depends on
/// the text alone.
#[verifier::external_body]
pub(crate) fn str_to_uppercase(s: &str) -> (upper: String)
    ensures
        upper@ == uppercase_of(s@),
{
    s.to_uppercase()
}

/// `String::pop`: takes the last character away, where there is one.
#[verifier::external_body]
pub(crate) fn string_pop(s: &mut String)
    ensures
        final(s)@ == if old(s)@.len() > 0 {
            old(s)@.drop_last()
        } else {
            old(s)@
        },
{
    s.pop();
}

/// `String::push`: puts `ch` at the end.
#[verifier::external_body]
pub(crate) fn string_push(s: &mut String, ch: char)
    ensures
        final(s)@ == old(s)@.push(ch),
{
    s.push(ch);
}

/// `String::insert`: puts `ch` in at the byte position `at`, which has to be
/// the end of some number of whole characters; `ch` then follows those
/// characters.
#[verifier::external_body]
pub(crate) fn string_insert(s: &mut String, at: usize, ch: char)
    requires
        exists|k: int| 0 <= k <= old(s)@.len() && at == width_of(#[trigger] old(s)@.take(k)),
    ensures
        forall|k: int|
            0 <= k <= old(s)@.len() && at == width_of(#[trigger] old(s)@.take(k)) ==> final(s)@
                == old(s)@.insert(k, ch),
{
    s.insert(at, ch);
}

/// The text `s` with every character `from` replaced by the text `to`.
pub open spec fn replaced(s: Seq<char>, from: char, to: Seq<char>) -> Seq<char>
    decreases s.len(),
{
    if s.len() == 0 {
        Seq::empty()
    } else if s.last() == from {
        replaced(s.drop_last(), from, to) + to
    } else {
        replaced(s.drop_last(), from, to).push(s.last())
    }
}

/// `str::replace` with a character pattern: every occurrence of the character
/// `from` is replaced by the text `to`.
#[verifier::external_body]
pub(crate) fn str_replace(s: &str, from: char, to: &str) -> (out: String)
    ensures
        out@ == replaced(s@, from, to@),
{
    s.replace(from, to)
}

/// `needle` stands in `hay` from position `i` on.
pub open spec fn occurs_at(hay: Seq<char>, needle: Seq<char>, i: int) -> bool {
    0 <= i && i + needle.len() <= hay.len() && hay.subrange(i, i + needle.len()) == needle
}

/// `needle` stands somewhere in `hay`, letter case counted.
pub open spec fn contains_text(hay: Seq<char>, needle: Seq<char>) -> bool {
    exists|i: int| occurs_at(hay, needle, i)
}

/// `str::contains` with a string pattern: true exactly where the pattern is a
/// contiguous part of the text. Both are valid UTF-8, so a match of bytes is a
/// match of characters.
#[verifier::external_body]
pub(crate) fn str_contains(hay: &str, needle: &str) -> (found: bool)
    ensures
        found == contains_text(hay@, needle@),
{
    hay.contains(needle)
}

/// `a` comes strictly before `b` in the lexicographic order of code points.
pub open spec fn text_lt(a: Seq<char>, b: Seq<char>) -> bool
    decreases a.len(),
{
    if b.len() == 0 {
        false
    } else if a.len() == 0 {
        true
    } else if a[0] != b[0] {
        (a[0] as u32) < (b[0] as u32)
    } else {
        text_lt(a.drop_first(), b.drop_first())
    }
}

/// `<` of `str`: std orders strings lexicographically by their bytes, which
/// is the order of their code points.
#[verifier::external_body]
pub(crate) fn str_lt(a: &str, b: &str) -> (less: bool)
    ensures
        less == text_lt(a@, b@),
{
    a < b
}

/// No text comes before itself.
pub proof fn lemma_text_lt_irreflexive(a: Seq<char>)
    ensures
        !text_lt(a, a),
    decreases a.len(),
{
    if a.len() > 0 {
        lemma_text_lt_irreflexive(a.drop_first());
    }
}

/// Of two different texts one comes before the other.
pub proof fn lemma_text_lt_total(a: Seq<char>, b: Seq<char>)
    ensures
        text_lt(a, b) || text_lt(b, a) || a == b,
        !(text_lt(a, b) && text_lt(b, a)),
    decreases a.len(),
{
    if a.len() > 0 && b.len() > 0 {
        if a[0] == b[0] {
            lemma_text_lt_total(a.drop_first(), b.drop_first());
            if a.drop_first() == b.drop_first() {
                assert(a =~= seq![a[0]] + a.drop_first());
                assert(b =~= seq![b[0]] + b.drop_first());
            }
        } else if (a[0] as u32) == (b[0] as u32) {
            vstd::utf8::char_u32_cast(a[0], a[0] as u32);
            vstd::utf8::char_u32_cast(b[0], b[0] as u32);
        }
    }
}

/// The order of texts is transitive.
pub proof fn lemma_text_lt_transitive(a: Seq<char>, b: Seq<char>, c: Seq<char>)
    requires
        text_lt(a, b),
        text_lt(b, c),
    ensures
        text_lt(a, c),
    decreases a.len(),
{
    if a.len() > 0 && a[0] == b[0] && b[0] == c[0] {
        lemma_text_lt_transitive(a.drop_first(), b.drop_first(), c.drop_first());
    }
}

/// The character of a decimal digit.
pub open spec fn digit(d: nat) -> char {
    if d == 0 {
        '0'
    } else if d == 1 {
        '1'
    } else if d == 2 {
        '2'
    } else if d == 3 {
        '3'
    } else if d == 4 {
        '4'
    } else if d == 5 {
        '5'
    } else if d == 6 {
        '6'
    } else if d == 7 {
        '7'
    } else if d == 8 {
        '8'
    } else {
        '9'
    }
}

/// The decimal numeral of `n`, without leading zeros.
pub open spec fn decimal(n: nat) -> Seq<char>
    decreases n,
{
    if n < 10 {
        seq![digit(n)]
    } else {
        decimal(n / 10).push(digit(n % 10))
    }
}

/// `to_string` of a `usize`: its decimal numeral.
#[verifier::external_body]
pub(crate) fn usize_to_string(n: usize) -> (s: String)
    ensures
        s@ == decimal(n as nat),
{
    n.to_string()
}

/// The number of digits of the decimal numeral of `n`.
pub open spec fn decimal_len(n: nat) -> nat
    decreases n,
{
    if n < 10 {
        1
    } else {
        decimal_len(n / 10) + 1
    }
}

/// The numeral of `n` has `decimal_len(n)` characters.
pub proof fn lemma_decimal_len(n: nat)
    ensures
        decimal(n).len() == decimal_len(n),
    decreases n,
{
    if n >= 10 {
        lemma_decimal_len(n / 10);
    }
}

/// Counts the digits of `n`.
pub fn digits(n: usize) -> (d: usize)
    ensures
        d == decimal_len(n as nat),
{
    let mut rest: usize = n;
    let mut d: usize = 1;
    while rest >= 10
        invariant
            d >= 1,
            d + rest <= n + 1,
            d + decimal_len(rest as nat) == decimal_len(n as nat) + 1,
        decreases rest,
    {
        rest = rest / 10;
        d = d + 1;
    }
    d
}

} // verus!
