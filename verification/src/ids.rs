//! Identifiers: 128-bit UUID values, their canonical text, and literal text comparison.

use vstd::prelude::*;

verus! {

/// Lowercase hexadecimal digit of a nibble value.
pub open spec fn hex_digit(n: u128) -> char {
    if n < 10 {
        ((48 + n) as u32) as char
    } else {
        ((87 + n) as u32) as char
    }
}

/// The `k`-th nibble (0 = most significant) of a 128-bit value.
pub open spec fn nibble(x: u128, k: int) -> u128 {
    (x >> (((31 - k) * 4) as u128)) & 0xf
}

/// Number of hyphens that precede text position `p` in the hyphenated form.
pub open spec fn hyphens_before(p: int) -> int {
    if p < 8 {
        0
    } else if p < 13 {
        1
    } else if p < 18 {
        2
    } else if p < 23 {
        3
    } else {
        4
    }
}

/// Canonical lowercase hyphenated text of a UUID (8-4-4-4-12 hex digits).
pub open spec fn uuid_text(x: u128) -> Seq<char> {
    Seq::new(
        36,
        |p: int|
            if p == 8 || p == 13 || p == 18 || p == 23 {
                '-'
            } else {
                hex_digit(nibble(x, p - hyphens_before(p)))
            },
    )
}

/// What `uuid::Uuid::parse_str` yields for a text, as the 128-bit value.
pub uninterp spec fn uuid_parse_str(text: Seq<char>) -> Option<u128>;

/// Formats a UUID with `uuid::Uuid`'s `Display`, which writes the lowercase
/// hyphenated form; the contract states that form, and that
/// `uuid::Uuid::parse_str` reads that form back as the same UUID.
#[verifier::external_body]
pub(crate) fn uuid_to_text(id: u128) -> (text: String)
    ensures
        text@ == uuid_text(id),
        uuid_parse_str(text@) == Some(id),
{
    uuid::Uuid::from_u128(id).to_string()
}

/// Parses a UUID with `uuid::Uuid::parse_str`; the result is named, not restated.
#[verifier::external_body]
pub(crate) fn parse_uuid(text: &str) -> (id: Option<u128>)
    ensures
        id == uuid_parse_str(text@),
{
    match uuid::Uuid::parse_str(text) {
        Ok(value) => Some(value.as_u128()),
        Err(_) => None,
    }
}

/// A fresh random UUID from `uuid::Uuid::new_v4`. The crate masks the random
/// bits so that the version nibble is 4 and the variant bits are `10`; that is
/// all the contract states.
#[verifier::external_body]
pub(crate) fn random_uuid() -> (id: u128)
    ensures
        id & 0xf000_c000_0000_0000_0000u128 == 0x4000_8000_0000_0000_0000u128,
{
    uuid::Uuid::new_v4().as_u128()
}

/// Whether a text equals a literal.
pub fn text_equals(text: &str, literal: &str) -> (equal: bool)
    ensures
        equal == (text@ == literal@),
{
    text.to_owned() == literal.to_owned()
}

} // verus!

verus! {

/// Lexicographic order of texts by character code.
pub open spec fn text_precedes(a: Seq<char>, b: Seq<char>) -> bool
    decreases a.len(),
{
    if a.len() == 0 {
        b.len() > 0
    } else if b.len() == 0 {
        false
    } else if a[0] != b[0] {
        a[0] < b[0]
    } else {
        text_precedes(a.drop_first(), b.drop_first())
    }
}

proof fn lemma_text_precedes_step(a: Seq<char>, b: Seq<char>, i: int)
    requires
        0 <= i < a.len(),
        i < b.len(),
        a[i] == b[i],
    ensures
        text_precedes(a.skip(i), b.skip(i)) == text_precedes(a.skip(i + 1), b.skip(i + 1)),
{
    assert(a.skip(i).drop_first() =~= a.skip(i + 1));
    assert(b.skip(i).drop_first() =~= b.skip(i + 1));
}

/// Whether `a` sorts strictly before `b`.
pub fn text_before(a: &str, b: &str) -> (before: bool)
    ensures
        before == text_precedes(a@, b@),
{
    let n = a.unicode_len();
    let m = b.unicode_len();
    let mut i: usize = 0;
    assert(a@.skip(0) =~= a@);
    assert(b@.skip(0) =~= b@);
    while i < n && i < m
        invariant
            n == a@.len(),
            m == b@.len(),
            i <= n,
            i <= m,
            text_precedes(a@, b@) == text_precedes(a@.skip(i as int), b@.skip(i as int)),
        decreases n - i,
    {
        let x = a.get_char(i);
        let y = b.get_char(i);
        if x != y {
            return x < y;
        }
        proof {
            lemma_text_precedes_step(a@, b@, i as int);
        }
        i = i + 1;
    }
    i == n && i < m
}

/// Text order is irreflexive and asymmetric.
pub proof fn lemma_text_precedes_strict(a: Seq<char>, b: Seq<char>)
    ensures
        !text_precedes(a, a),
        text_precedes(a, b) ==> !text_precedes(b, a),
        !text_precedes(a, b) && !text_precedes(b, a) ==> a =~= b,
    decreases a.len(),
{
    if a.len() > 0 && b.len() > 0 {
        lemma_text_precedes_strict(a.drop_first(), b.drop_first());
        lemma_text_precedes_strict(a.drop_first(), a.drop_first());
        if a[0] == b[0] && !text_precedes(a, b) && !text_precedes(b, a) {
            assert(a =~= seq![a[0]] + a.drop_first());
            assert(b =~= seq![b[0]] + b.drop_first());
        }
    } else if a.len() > 0 {
        lemma_text_precedes_strict(a.drop_first(), a.drop_first());
    }
}

} // verus!
