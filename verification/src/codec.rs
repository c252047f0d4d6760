//! Hex and UUID text forms, through the `hex` and `uuid` crates.
use vstd::prelude::*;

verus! {

/// Lowercase hex digit for a value below 16.
pub open spec fn hex_digit(v: u8) -> char {
    if v < 10 {
        ((v + 48) as u8) as char
    } else {
        ((v + 87) as u8) as char
    }
}

/// Lowercase hex text of `bytes`: two digits per byte, high nibble first.
pub open spec fn hex_text(bytes: Seq<u8>) -> Seq<char> {
    Seq::new(
        2 * bytes.len(),
        |i: int| if i % 2 == 0 { hex_digit(bytes[i / 2] / 16) } else { hex_digit(bytes[i / 2] % 16) },
    )
}

/// The value of one hex digit byte (either case), if it is one.
pub open spec fn hex_value(c: u8) -> Option<u8> {
    if 48 <= c <= 57 {
        Some((c - 48) as u8)
    } else if 97 <= c <= 102 {
        Some((c - 87) as u8)
    } else if 65 <= c <= 70 {
        Some((c - 55) as u8)
    } else {
        None
    }
}

/// Bytes named by hex text `s`: defined exactly when `s` has even length and
/// every byte is a hex digit.
pub open spec fn unhex(s: Seq<u8>) -> Option<Seq<u8>> {
    if s.len() % 2 == 0 && forall|i: int| 0 <= i < s.len() ==> (#[trigger] hex_value(s[i])) is Some {
        Some(
            Seq::new(
                s.len() / 2,
                |i: int| (hex_value(s[2 * i])->0 * 16 + hex_value(s[2 * i + 1])->0) as u8,
            ),
        )
    } else {
        None
    }
}

/// `hex::encode`: lowercase hex, two digits per byte.
#[verifier::external_body]
pub(crate) fn hex_encode(bytes: &[u8]) -> (r: String)
    ensures
        r@ == hex_text(bytes@),
{
    hex::encode(bytes)
}

/// `hex::decode` of the UTF-8 bytes of `s`: `Some` exactly when the text is
/// an even number of hex digits (either case).
#[verifier::external_body]
pub(crate) fn hex_decode(s: &str) -> (r: Option<Vec<u8>>)
    ensures
        match r {
            Some(v) => unhex(vstd::utf8::encode_utf8(s@)) == Some(v@),
            None => unhex(vstd::utf8::encode_utf8(s@)) is None,
        },
{
    hex::decode(s).ok()
}

proof fn lemma_hex_digit_value(v: u8)
    requires
        v < 16,
    ensures
        hex_value(hex_digit(v) as u8) == Some(v),
        '\0' <= hex_digit(v) <= '\u{7f}',
{
}

/// Lowercase hex text is ASCII, and reads back as the bytes it was made of.
pub proof fn lemma_hex_round_trip(bytes: Seq<u8>)
    ensures
        vstd::utf8::is_ascii_chars(hex_text(bytes)),
        vstd::utf8::encode_utf8(hex_text(bytes)).len() == 2 * bytes.len(),
        unhex(vstd::utf8::encode_utf8(hex_text(bytes))) == Some(bytes),
{
    let t = hex_text(bytes);
    assert forall|i: int| 0 <= i < t.len() implies '\0' <= #[trigger] t[i] <= '\u{7f}' by {
        let v: u8 = if i % 2 == 0 { bytes[i / 2] / 16 } else { bytes[i / 2] % 16 };
        lemma_hex_digit_value(v);
    }
    vstd::utf8::is_ascii_chars_encode_utf8(t);
    let e = vstd::utf8::encode_utf8(t);
    assert forall|i: int| 0 <= i < e.len() implies (#[trigger] hex_value(e[i])) is Some by {
        let v: u8 = if i % 2 == 0 { bytes[i / 2] / 16 } else { bytes[i / 2] % 16 };
        lemma_hex_digit_value(v);
        assert(e[i] == t[i] as u8);
    }
    let decoded = Seq::new(
        e.len() / 2,
        |i: int| (hex_value(e[2 * i])->0 * 16 + hex_value(e[2 * i + 1])->0) as u8,
    );
    assert forall|i: int| 0 <= i < bytes.len() implies decoded[i] == bytes[i] by {
        let b = bytes[i];
        lemma_hex_digit_value(b / 16);
        lemma_hex_digit_value(b % 16);
        assert(e[2 * i] == t[2 * i] as u8);
        assert(e[2 * i + 1] == t[2 * i + 1] as u8);
        assert((2 * i) / 2 == i);
        assert((2 * i + 1) / 2 == i);
    }
    assert(decoded =~= bytes);
}

/// The value of a hex digit character (either case), if it is one.
pub open spec fn hex_char_value(c: char) -> Option<u8> {
    if '0' <= c && c <= '9' {
        Some(((c as u32) - 48) as u8)
    } else if 'a' <= c && c <= 'f' {
        Some(((c as u32) - 87) as u8)
    } else if 'A' <= c && c <= 'F' {
        Some(((c as u32) - 55) as u8)
    } else {
        None
    }
}

/// ASCII lower-casing of one character.
pub open spec fn ascii_lower(c: char) -> char {
    if 'A' <= c && c <= 'Z' {
        ((c as u32) + 32) as char
    } else {
        c
    }
}

/// The 32 digits of a hyphenated UUID text (hyphens at 8, 13, 18 and 23),
/// if `s` has that shape.
pub open spec fn hyphenated_digits(s: Seq<char>) -> Option<Seq<char>> {
    if s.len() == 36 && s[8] == '-' && s[13] == '-' && s[18] == '-' && s[23] == '-' {
        Some(
            s.subrange(0, 8) + s.subrange(9, 13) + s.subrange(14, 18) + s.subrange(19, 23) + s.subrange(
                24,
                36,
            ),
        )
    } else {
        None
    }
}

/// The 32 digits of a UUID text in one of the forms `Uuid::parse_str`
/// accepts: simple (32 digits), hyphenated, braced (`{` hyphenated `}`) or
/// URN (`urn:uuid:` in any case, then hyphenated).
pub open spec fn uuid_digits(s: Seq<char>) -> Option<Seq<char>> {
    if s.len() == 32 {
        Some(s)
    } else if s.len() == 36 {
        hyphenated_digits(s)
    } else if s.len() == 38 && s[0] == '{' && s[37] == '}' {
        hyphenated_digits(s.subrange(1, 37))
    } else if s.len() == 45 && s.subrange(0, 9).map_values(|c: char| ascii_lower(c)) == "urn:uuid:"@ {
        hyphenated_digits(s.subrange(9, 45))
    } else {
        None
    }
}

/// The bytes 32 hex digits name, two digits per byte, if all are hex digits.
pub open spec fn digits_bytes(d: Seq<char>) -> Option<Seq<u8>> {
    if d.len() == 32 && forall|i: int| 0 <= i < 32 ==> (#[trigger] hex_char_value(d[i])) is Some {
        Some(Seq::new(16, |i: int| (hex_char_value(d[2 * i])->0 * 16 + hex_char_value(d[2 * i + 1])->0) as u8))
    } else {
        None
    }
}

/// What `uuid::Uuid::parse_str` accepts and returns, as the 128-bit value
/// (`Uuid::as_u128`): a simple, hyphenated, braced or URN text of hex
/// digits (either case) names the UUID with those big-endian bytes; any
/// other text is refused. (Only ASCII texts have these shapes, so counting
/// characters is counting the bytes the parser counts.)
pub open spec fn uuid_parse(s: Seq<char>) -> Option<u128> {
    match uuid_digits(s) {
        Some(d) => match digits_bytes(d) {
            Some(b) => Some(uuid_of_bytes(b)),
            None => None,
        },
        None => None,
    }
}

/// The sixteen big-endian bytes of a UUID value.
pub open spec fn uuid_bytes(v: u128) -> Seq<u8> {
    Seq::new(16, |i: int| ((v >> ((8 * (15 - i)) as u128)) & 0xff) as u8)
}

/// The UUID value whose big-endian bytes are `b` (meaningful for 16 bytes).
pub open spec fn uuid_of_bytes(b: Seq<u8>) -> u128 {
    choose|v: u128| uuid_bytes(v) == b
}

/// Different UUID values have different bytes.
pub proof fn lemma_uuid_bytes_injective(v: u128, w: u128)
    requires
        uuid_bytes(v) == uuid_bytes(w),
    ensures
        v == w,
{
    let bv = uuid_bytes(v);
    let bw = uuid_bytes(w);
    assert(bv[0] == bw[0] && bv[1] == bw[1] && bv[2] == bw[2] && bv[3] == bw[3]);
    assert(bv[4] == bw[4] && bv[5] == bw[5] && bv[6] == bw[6] && bv[7] == bw[7]);
    assert(bv[8] == bw[8] && bv[9] == bw[9] && bv[10] == bw[10] && bv[11] == bw[11]);
    assert(bv[12] == bw[12] && bv[13] == bw[13] && bv[14] == bw[14] && bv[15] == bw[15]);
    assert(v == w) by (bit_vector)
        requires
            ((v >> 120u128) & 0xffu128) as u8 == ((w >> 120u128) & 0xffu128) as u8,
            ((v >> 112u128) & 0xffu128) as u8 == ((w >> 112u128) & 0xffu128) as u8,
            ((v >> 104u128) & 0xffu128) as u8 == ((w >> 104u128) & 0xffu128) as u8,
            ((v >> 96u128) & 0xffu128) as u8 == ((w >> 96u128) & 0xffu128) as u8,
            ((v >> 88u128) & 0xffu128) as u8 == ((w >> 88u128) & 0xffu128) as u8,
            ((v >> 80u128) & 0xffu128) as u8 == ((w >> 80u128) & 0xffu128) as u8,
            ((v >> 72u128) & 0xffu128) as u8 == ((w >> 72u128) & 0xffu128) as u8,
            ((v >> 64u128) & 0xffu128) as u8 == ((w >> 64u128) & 0xffu128) as u8,
            ((v >> 56u128) & 0xffu128) as u8 == ((w >> 56u128) & 0xffu128) as u8,
            ((v >> 48u128) & 0xffu128) as u8 == ((w >> 48u128) & 0xffu128) as u8,
            ((v >> 40u128) & 0xffu128) as u8 == ((w >> 40u128) & 0xffu128) as u8,
            ((v >> 32u128) & 0xffu128) as u8 == ((w >> 32u128) & 0xffu128) as u8,
            ((v >> 24u128) & 0xffu128) as u8 == ((w >> 24u128) & 0xffu128) as u8,
            ((v >> 16u128) & 0xffu128) as u8 == ((w >> 16u128) & 0xffu128) as u8,
            ((v >> 8u128) & 0xffu128) as u8 == ((w >> 8u128) & 0xffu128) as u8,
            ((v >> 0u128) & 0xffu128) as u8 == ((w >> 0u128) & 0xffu128) as u8,
    ;
}

/// The value read from a UUID's bytes is that UUID.
pub proof fn lemma_uuid_of_bytes(v: u128)
    ensures
        uuid_of_bytes(uuid_bytes(v)) == v,
{
    let w = uuid_of_bytes(uuid_bytes(v));
    assert(uuid_bytes(w) == uuid_bytes(v));
    lemma_uuid_bytes_injective(v, w);
}

/// The 16 big-endian bytes of a UUID value (what `Uuid::as_bytes` gives).
pub(crate) fn uuid_bytes_vec(v: u128) -> (r: Vec<u8>)
    ensures
        r@ == uuid_bytes(v),
{
    let mut r: Vec<u8> = Vec::new();
    let mut i: usize = 0;
    while i < 16
        invariant
            i <= 16,
            r@ == uuid_bytes(v).take(i as int),
        decreases 16 - i,
    {
        let shift: u128 = (8 * (15 - i)) as u128;
        let byte: u8 = ((v >> shift) & 0xff) as u8;
        r.push(byte);
        proof {
            assert(uuid_bytes(v)[i as int] == byte);
            assert(r@ =~= uuid_bytes(v).take(i + 1));
        }
        i = i + 1;
    }
    proof {
        assert(uuid_bytes(v).take(16) =~= uuid_bytes(v));
    }
    r
}

/// Hyphenated lowercase form `xxxxxxxx-xxxx-xxxx-xxxx-xxxxxxxxxxxx`.
pub open spec fn uuid_text(v: u128) -> Seq<char> {
    let b = uuid_bytes(v);
    hex_text(b.subrange(0, 4)) + seq!['-'] + hex_text(b.subrange(4, 6)) + seq!['-'] + hex_text(
        b.subrange(6, 8),
    ) + seq!['-'] + hex_text(b.subrange(8, 10)) + seq!['-'] + hex_text(b.subrange(10, 16))
}

/// A hex digit reads back as its value.
proof fn lemma_hex_char(v: u8)
    requires
        v < 16,
    ensures
        hex_char_value(hex_digit(v)) == Some(v),
{
}

/// The hyphenated text of a UUID parses back to that UUID.
pub proof fn lemma_uuid_text_parses(v: u128)
    ensures
        uuid_parse(uuid_text(v)) == Some(v),
{
    let b = uuid_bytes(v);
    let t = uuid_text(v);
    assert(t.len() == 36);
    assert(t[8] == '-' && t[13] == '-' && t[18] == '-' && t[23] == '-');
    let d = hex_text(b);
    assert(hyphenated_digits(t) == Some(d)) by {
        assert(t.subrange(0, 8) + t.subrange(9, 13) + t.subrange(14, 18) + t.subrange(19, 23) + t.subrange(24, 36)
            =~= d);
    }
    assert forall|i: int| 0 <= i < 32 implies (#[trigger] hex_char_value(d[i])) is Some by {
        let x: u8 = if i % 2 == 0 { b[i / 2] / 16 } else { b[i / 2] % 16 };
        lemma_hex_char(x);
    }
    let back = Seq::new(16, |i: int| (hex_char_value(d[2 * i])->0 * 16 + hex_char_value(d[2 * i + 1])->0) as u8);
    assert forall|i: int| 0 <= i < 16 implies back[i] == b[i] by {
        lemma_hex_char(b[i] / 16);
        lemma_hex_char(b[i] % 16);
        assert((2 * i) / 2 == i);
        assert((2 * i + 1) / 2 == i);
    }
    assert(back =~= b);
    lemma_uuid_of_bytes(v);
}

/// `Uuid::parse_str(s).map(|u| u.as_u128())`.
#[verifier::external_body]
pub(crate) fn parse_uuid(s: &str) -> (r: Option<u128>)
    ensures
        r == uuid_parse(s@),
{
    uuid::Uuid::parse_str(s).ok().map(|u| u.as_u128())
}

/// `Uuid::from_u128(v).to_string()`: the hyphenated lowercase form.
#[verifier::external_body]
pub(crate) fn uuid_to_string(v: u128) -> (r: String)
    ensures
        r@ == uuid_text(v),
{
    uuid::Uuid::from_u128(v).to_string()
}

/// `Uuid::from_slice(bytes).map(|u| u.as_u128())`: defined exactly for 16
/// bytes, read big-endian.
#[verifier::external_body]
pub(crate) fn uuid_from_slice(bytes: &[u8]) -> (r: Option<u128>)
    ensures
        r is Some <==> bytes@.len() == 16,
        r matches Some(v) ==> uuid_bytes(v) == bytes@,
{
    uuid::Uuid::from_slice(bytes).ok().map(|u| u.as_u128())
}

} // verus!
