//! JSON string literals, as the canonical envelope text writes them.

use crate::text::{hex_digit, lemma_hex_digit_injective};
use vstd::prelude::*;

verus! {

/// What stands for one character inside a JSON string literal.
///
/// The quotation mark and the backslash get a backslash in front. The control
/// characters below U+0020 are written with their short escape where JSON has
/// one and as `\u00` with two lowercase hexadecimal digits otherwise. Every
/// other character stands for itself.
pub open spec fn escaped_char(c: char) -> Seq<char> {
    if c == '"' {
        seq!['\\', '"']
    } else if c == '\\' {
        seq!['\\', '\\']
    } else if c == '\u{8}' {
        seq!['\\', 'b']
    } else if c == '\t' {
        seq!['\\', 't']
    } else if c == '\n' {
        seq!['\\', 'n']
    } else if c == '\u{c}' {
        seq!['\\', 'f']
    } else if c == '\r' {
        seq!['\\', 'r']
    } else if (c as u32) < 0x20 {
        seq!['\\', 'u', '0', '0', hex_digit(c as u32 as int / 16), hex_digit(c as u32 as int % 16)]
    } else {
        seq![c]
    }
}

/// The characters of `s`, each one escaped, in order.
pub open spec fn escaped(s: Seq<char>) -> Seq<char>
    decreases s.len(),
{
    if s.len() == 0 {
        Seq::empty()
    } else {
        escaped_char(s.first()) + escaped(s.drop_first())
    }
}

/// The JSON string literal for `s`: its escaped characters between two
/// quotation marks.
pub open spec fn json_string(s: Seq<char>) -> Seq<char> {
    seq!['"'] + escaped(s) + seq!['"']
}

/// No escape sequence starts with a quotation mark, and none is empty.
pub proof fn lemma_escaped_char_head(c: char)
    ensures
        escaped_char(c).len() >= 1,
        escaped_char(c)[0] != '"',
{
}

/// Escape sequences form a prefix code: where two of them, each followed by
/// some text, give the same text, the characters are the same and so is what
/// follows.
pub proof fn lemma_escaped_char_prefix_free(c1: char, r1: Seq<char>, c2: char, r2: Seq<char>)
    requires
        escaped_char(c1) + r1 == escaped_char(c2) + r2,
    ensures
        c1 == c2,
        r1 == r2,
{
    let e1 = escaped_char(c1);
    let e2 = escaped_char(c2);
    let t1 = e1 + r1;
    let t2 = e2 + r2;
    assert(t1[0] == e1[0] && t2[0] == e2[0]);
    if e1.len() >= 2 && e2.len() >= 2 {
        assert(t1[1] == e1[1] && t2[1] == e2[1]);
        if e1.len() == 6 && e2.len() == 6 {
            assert(t1[4] == e1[4] && t2[4] == e2[4]);
            assert(t1[5] == e1[5] && t2[5] == e2[5]);
            let u1 = c1 as u32 as int;
            let u2 = c2 as u32 as int;
            lemma_hex_digit_injective(u1 / 16, u2 / 16);
            lemma_hex_digit_injective(u1 % 16, u2 % 16);
            assert(u1 == u2);
            vstd::utf8::char_u32_cast(c1, c1 as u32);
            vstd::utf8::char_u32_cast(c2, c2 as u32);
        }
    }
    assert(c1 == c2);
    assert(r1 =~= t1.skip(e1.len() as int));
    assert(r2 =~= t2.skip(e2.len() as int));
}

/// Escaped text that is closed by a quotation mark ends there: where two such
/// texts, each followed by some text, are the same, the texts that were
/// escaped are the same and so is what follows.
pub proof fn lemma_escaped_delimited(s1: Seq<char>, r1: Seq<char>, s2: Seq<char>, r2: Seq<char>)
    requires
        escaped(s1) + seq!['"'] + r1 == escaped(s2) + seq!['"'] + r2,
    ensures
        s1 == s2,
        r1 == r2,
    decreases s1.len(),
{
    let q = seq!['"'];
    let t1 = escaped(s1) + q + r1;
    let t2 = escaped(s2) + q + r2;
    if s1.len() == 0 && s2.len() == 0 {
        assert(s1 =~= s2);
        assert(r1 =~= t1.skip(1));
        assert(r2 =~= t2.skip(1));
    } else if s1.len() == 0 {
        lemma_escaped_char_head(s2.first());
        assert(t1[0] == '"');
        assert(t2[0] == escaped_char(s2.first())[0]);
        assert(false);
    } else if s2.len() == 0 {
        lemma_escaped_char_head(s1.first());
        assert(t2[0] == '"');
        assert(t1[0] == escaped_char(s1.first())[0]);
        assert(false);
    } else {
        let rest1 = escaped(s1.drop_first()) + q + r1;
        let rest2 = escaped(s2.drop_first()) + q + r2;
        assert(t1 =~= escaped_char(s1.first()) + rest1);
        assert(t2 =~= escaped_char(s2.first()) + rest2);
        lemma_escaped_char_prefix_free(s1.first(), rest1, s2.first(), rest2);
        lemma_escaped_delimited(s1.drop_first(), r1, s2.drop_first(), r2);
        assert(s1 =~= seq![s1.first()] + s1.drop_first());
        assert(s2 =~= seq![s2.first()] + s2.drop_first());
    }
}

/// A string literal says where it ends: where two literals, each followed by
/// some text, give the same text, the strings are the same and so is what
/// follows.
pub proof fn lemma_json_string_prefix_free(
    s1: Seq<char>,
    r1: Seq<char>,
    s2: Seq<char>,
    r2: Seq<char>,
)
    requires
        json_string(s1) + r1 == json_string(s2) + r2,
    ensures
        s1 == s2,
        r1 == r2,
{
    let q = seq!['"'];
    let t1 = json_string(s1) + r1;
    let t2 = json_string(s2) + r2;
    let u1 = escaped(s1) + q + r1;
    let u2 = escaped(s2) + q + r2;
    assert(u1 =~= t1.skip(1));
    assert(u2 =~= t2.skip(1));
    lemma_escaped_delimited(s1, r1, s2, r2);
}

/// Calls `serde_json::to_string` on a string slice.
///
/// For a string slice the serializer writes into a byte vector, which cannot
/// fail, so the call returns a value. The text it returns is the literal that
/// [`json_string`] describes: serde_json's escape table marks the quotation
/// mark, the backslash and the bytes below 0x20, and passes every other byte
/// through unchanged.
#[verifier::external_body]
fn serialize_str(s: &str) -> (r: Option<String>)
    ensures
        r is Some,
        r->0@ == json_string(s@),
{
    serde_json::to_string(s).ok()
}

/// The JSON string literal for `s`.
pub fn to_json_string(s: &str) -> (text: String)
    ensures
        text@ == json_string(s@),
{
    serialize_str(s).unwrap()
}

} // verus!
