//! JSON serialization of a single-field string object, byte for byte.
//!
//! The encoder works on UTF-8 bytes. JSON escaping only ever rewrites bytes
//! below 0x80 (the quote, the backslash, and the control range below 0x20),
//! and UTF-8 continuation bytes are all 0x80 or above, so escaping byte by
//! byte is exactly escaping character by character.

use vstd::prelude::*;

verus! {

/// The lower-case hex digit for a value below 16.
pub open spec fn spec_hex_digit(v: u8) -> u8 {
    if v < 10 {
        (0x30 + v) as u8  // '0'..='9'
    } else {
        (0x57 + v) as u8  // 'a'..='f'
    }
}

/// How one byte of a string appears inside a JSON string literal.
pub open spec fn escaped_byte(b: u8) -> Seq<u8> {
    if b == 0x22 {  // '"'
        seq![0x5cu8, 0x22u8]
    } else if b == 0x5c {  // '\\'
        seq![0x5cu8, 0x5cu8]
    } else if b == 0x08 {
        seq![0x5cu8, 0x62u8]  // \b
    } else if b == 0x09 {
        seq![0x5cu8, 0x74u8]  // \t
    } else if b == 0x0a {
        seq![0x5cu8, 0x6eu8]  // \n
    } else if b == 0x0c {
        seq![0x5cu8, 0x66u8]  // \f
    } else if b == 0x0d {
        seq![0x5cu8, 0x72u8]  // \r
    } else if b < 0x20 {
        seq![0x5cu8, 0x75u8, 0x30u8, 0x30u8, spec_hex_digit(b / 16), spec_hex_digit(b % 16)]
    } else {
        seq![b]
    }
}

/// A byte that JSON escaping leaves in place.
pub open spec fn is_plain_byte(b: u8) -> bool {
    b >= 0x20 && b != 0x22 && b != 0x5c
}

/// The escaped form of a whole string's bytes.
pub open spec fn json_escaped(s: Seq<u8>) -> Seq<u8>
    decreases s.len(),
{
    if s.len() == 0 {
        Seq::empty()
    } else {
        escaped_byte(s[0]) + json_escaped(s.drop_first())
    }
}

/// A JSON string literal: the escaped bytes between double quotes.
pub open spec fn json_string(s: Seq<u8>) -> Seq<u8> {
    seq![0x22u8] + json_escaped(s) + seq![0x22u8]
}

/// The JSON object `{"key":"value"}` with exactly one string member.
pub open spec fn json_object_single(key: Seq<u8>, value: Seq<u8>) -> Seq<u8> {
    seq![0x7bu8] + json_string(key) + seq![0x3au8] + json_string(value) + seq![0x7du8]
}

/// Escaping distributes over concatenation.
proof fn lemma_json_escaped_concat(a: Seq<u8>, b: Seq<u8>)
    ensures
        json_escaped(a + b) == json_escaped(a) + json_escaped(b),
    decreases a.len(),
{
    if a.len() == 0 {
        assert(a + b =~= b);
        assert(a =~= Seq::<u8>::empty());
        assert(json_escaped(a) + json_escaped(b) =~= json_escaped(b));
    } else {
        assert((a + b).len() > 0);
        assert((a + b)[0] == a[0]);
        assert((a + b).drop_first() =~= a.drop_first() + b);
        lemma_json_escaped_concat(a.drop_first(), b);
        assert(escaped_byte(a[0]) + (json_escaped(a.drop_first()) + json_escaped(b)) =~= (
        escaped_byte(a[0]) + json_escaped(a.drop_first())) + json_escaped(b));
    }
}

/// Escaping a one-byte string yields that byte's escape sequence.
proof fn lemma_json_escaped_single(b: u8)
    ensures
        json_escaped(seq![b]) == escaped_byte(b),
{
    assert(seq![b].drop_first() =~= Seq::<u8>::empty());
    assert(escaped_byte(b) + json_escaped(seq![b].drop_first()) =~= escaped_byte(b));
}

/// Escaping leaves a string of plain bytes unchanged.
pub proof fn lemma_json_escaped_plain(s: Seq<u8>)
    requires
        forall|i: int| 0 <= i < s.len() ==> is_plain_byte(s[i]),
    ensures
        json_escaped(s) == s,
    decreases s.len(),
{
    if s.len() == 0 {
        assert(json_escaped(s) =~= s);
    } else {
        lemma_json_escaped_plain(s.drop_first());
        assert(escaped_byte(s[0]) =~= seq![s[0]]);
        assert(seq![s[0]] + s.drop_first() =~= s);
    }
}

/// The lower-case hex digit for a value below 16.
fn hex_digit(v: u8) -> (r: u8)
    requires
        v < 16,
    ensures
        r == spec_hex_digit(v),
{
    if v < 10 {
        0x30 + v
    } else {
        0x57 + v
    }
}

/// Appends the escaped form of `s` to `out`.
fn push_escaped(out: &mut Vec<u8>, s: &[u8])
    ensures
        final (out)@ == old(out)@ + json_escaped(s@),
{
    let ghost base: Seq<u8> = out@;
    let n: usize = s.len();
    let mut i: usize = 0;
    while i < n
        invariant
            n == s@.len(),
            i <= n,
            out@ == base + json_escaped(s@.subrange(0, i as int)),
        decreases n - i,
    {
        let b = s[i];
        let ghost before: Seq<u8> = out@;
        if b == 0x22 {
            out.push(0x5c);
            out.push(0x22);
        } else if b == 0x5c {
            out.push(0x5c);
            out.push(0x5c);
        } else if b == 0x08 {
            out.push(0x5c);
            out.push(0x62);
        } else if b == 0x09 {
            out.push(0x5c);
            out.push(0x74);
        } else if b == 0x0a {
            out.push(0x5c);
            out.push(0x6e);
        } else if b == 0x0c {
            out.push(0x5c);
            out.push(0x66);
        } else if b == 0x0d {
            out.push(0x5c);
            out.push(0x72);
        } else if b < 0x20 {
            out.push(0x5c);
            out.push(0x75);
            out.push(0x30);
            out.push(0x30);
            out.push(hex_digit(b / 16));
            out.push(hex_digit(b % 16));
        } else {
            out.push(b);
        }
        proof {
            assert(out@ =~= before + escaped_byte(b));
            assert(s@.subrange(0, i + 1) =~= s@.subrange(0, i as int) + seq![b]);
            lemma_json_escaped_concat(s@.subrange(0, i as int), seq![b]);
            lemma_json_escaped_single(b);
            assert(base + json_escaped(s@.subrange(0, i + 1)) =~= (base + json_escaped(
                s@.subrange(0, i as int),
            )) + escaped_byte(b));
        }
        i = i + 1;
    }
    proof {
        assert(s@.subrange(0, n as int) =~= s@);
    }
}

/// Serializes the JSON object `{"key":"value"}`, escaping both strings.
pub fn encode_single_field_object(key: &[u8], value: &[u8]) -> (r: Vec<u8>)
    ensures
        r@ == json_object_single(key@, value@),
{
    let mut out: Vec<u8> = Vec::new();
    out.push(0x7b);
    out.push(0x22);
    push_escaped(&mut out, key);
    out.push(0x22);
    out.push(0x3a);
    out.push(0x22);
    push_escaped(&mut out, value);
    out.push(0x22);
    out.push(0x7d);
    proof {
        assert(out@ =~= json_object_single(key@, value@));
    }
    out
}

} // verus!
