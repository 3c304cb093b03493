use mongodb::bson::oid::ObjectId;
use vstd::prelude::*;

verus! {

/// The twelve bytes of a MongoDB object id.
#[derive(Debug, Default, Clone, Copy, PartialEq, Eq)]
pub struct ObjectIdBytes {
    pub bytes: [u8; 12],
}

/// A hexadecimal digit, in either case.
pub open spec fn is_hex_digit(c: char) -> bool {
    ('0' <= c && c <= '9') || ('a' <= c && c <= 'f') || ('A' <= c && c <= 'F')
}

/// A lowercase hexadecimal digit.
pub open spec fn is_lower_hex_digit(c: char) -> bool {
    ('0' <= c && c <= '9') || ('a' <= c && c <= 'f')
}

/// The value, from 0 to 15, of a hexadecimal digit.
pub open spec fn hex_value(c: char) -> int {
    if '0' <= c && c <= '9' {
        c as int - '0' as int
    } else if 'a' <= c && c <= 'f' {
        c as int - 'a' as int + 10
    } else {
        c as int - 'A' as int + 10
    }
}

/// The text of an object id: twelve bytes written as twenty-four hex digits.
pub open spec fn is_object_id_text(s: Seq<char>) -> bool {
    &&& s.len() == 24
    &&& forall|i: int| 0 <= i < s.len() ==> #[trigger] is_hex_digit(s[i])
}

/// The canonical text of an object id: twenty-four lowercase hex digits.
pub open spec fn is_canonical_object_id_text(s: Seq<char>) -> bool {
    &&& s.len() == 24
    &&& forall|i: int| 0 <= i < s.len() ==> #[trigger] is_lower_hex_digit(s[i])
}

/// The bytes that hex text stands for: each pair of digits, high digit first.
pub open spec fn hex_decode(s: Seq<char>) -> Seq<u8> {
    Seq::new(
        (s.len() / 2) as nat,
        |k: int| (16 * hex_value(s[2 * k]) + hex_value(s[2 * k + 1])) as u8,
    )
}

/// `text` writes `bytes` in lowercase hex: two digits for each byte, high
/// digit first.
pub open spec fn encodes_lower_hex(text: Seq<char>, bytes: Seq<u8>) -> bool {
    &&& text.len() == 2 * bytes.len()
    &&& forall|k: int|
        0 <= k < bytes.len() ==> {
            &&& is_lower_hex_digit(text[2 * k])
            &&& is_lower_hex_digit(text[2 * k + 1])
            &&& hex_value(text[2 * k]) == #[trigger] bytes[k] / 16
            &&& hex_value(text[2 * k + 1]) == bytes[k] % 16
        }
}

/// Relies on bson's `ObjectId::parse_str`, which hex-decodes the text and
/// accepts it exactly when it decodes to twelve bytes, and on
/// `ObjectId::bytes`, which gives those bytes back.
#[verifier::external_body]
pub(crate) fn parse_object_id(s: &str) -> (r: Option<ObjectIdBytes>)
    ensures
        r is Some <==> is_object_id_text(s@),
        r matches Some(id) ==> id.bytes@ == hex_decode(s@),
{
    match ObjectId::parse_str(s) {
        Ok(id) => Some(ObjectIdBytes { bytes: id.bytes() }),
        Err(_) => None,
    }
}

/// Relies on bson's `ObjectId::to_hex`, which hex-encodes the twelve bytes of
/// the id in lowercase, high digit first.
#[verifier::external_body]
pub(crate) fn object_id_to_text(id: &ObjectIdBytes) -> (r: String)
    ensures
        encodes_lower_hex(r@, id.bytes@),
{
    ObjectId::from_bytes(id.bytes).to_hex()
}

/// Two lowercase hex digits of the same value are the same digit.
proof fn lemma_lower_digit_unique(a: char, b: char)
    requires
        is_lower_hex_digit(a),
        is_lower_hex_digit(b),
        hex_value(a) == hex_value(b),
    ensures
        a == b,
{
    assert(a as int == b as int);
}

/// A byte written as two hex digits gives those digits back.
proof fn lemma_byte_digits(h: int, l: int)
    requires
        0 <= h < 16,
        0 <= l < 16,
    ensures
        ((16 * h + l) as u8) / 16 == h,
        ((16 * h + l) as u8) % 16 == l,
{
    assert(0 <= 16 * h + l < 256);
    assert((16 * h + l) / 16 == h && (16 * h + l) % 16 == l) by (nonlinear_arith)
        requires
            0 <= h < 16,
            0 <= l < 16,
    ;
}

/// Canonical text read as an object id and written out again is the same
/// text: whatever writes the decoded bytes in lowercase hex writes `s`.
pub proof fn lemma_object_id_text_round_trip(s: Seq<char>, text: Seq<char>)
    requires
        is_canonical_object_id_text(s),
        encodes_lower_hex(text, hex_decode(s)),
    ensures
        text == s,
{
    let bytes = hex_decode(s);
    assert forall|i: int| 0 <= i < s.len() implies text[i] == s[i] by {
        let k = i / 2;
        assert(0 <= k < 12);
        assert(is_lower_hex_digit(s[2 * k]) && is_lower_hex_digit(s[2 * k + 1]));
        lemma_byte_digits(hex_value(s[2 * k]), hex_value(s[2 * k + 1]));
        assert(bytes[k] == (16 * hex_value(s[2 * k]) + hex_value(s[2 * k + 1])) as u8);
        if i % 2 == 0 {
            assert(i == 2 * k);
            lemma_lower_digit_unique(text[2 * k], s[2 * k]);
        } else {
            assert(i == 2 * k + 1);
            lemma_lower_digit_unique(text[2 * k + 1], s[2 * k + 1]);
        }
    }
    assert(text =~= s);
}

} // verus!
