//! Twelve-byte document identifiers and their 24-digit hexadecimal text form.
use vstd::prelude::*;

verus! {

/// Number of bytes in a document identifier.
pub const ID_LEN: usize = 12;

pub open spec fn is_hex_char(c: char) -> bool {
    ('0' <= c && c <= '9') || ('a' <= c && c <= 'f') || ('A' <= c && c <= 'F')
}

/// Value of a hexadecimal digit, either case.
pub open spec fn hex_value(c: char) -> int {
    if '0' <= c && c <= '9' {
        c as int - '0' as int
    } else if 'a' <= c && c <= 'f' {
        c as int - 'a' as int + 10
    } else {
        c as int - 'A' as int + 10
    }
}

/// Lowercase hexadecimal digit for `n` in `0..16`.
pub open spec fn lower_hex_digit(n: int) -> char {
    if n < 10 {
        (n + '0' as int) as char
    } else {
        (n - 10 + 'a' as int) as char
    }
}

/// Lowercase hexadecimal text of a byte string, two digits per byte, high nibble first.
pub open spec fn hex_lower(b: Seq<u8>) -> Seq<char> {
    Seq::new(
        2 * b.len(),
        |k: int|
            if k % 2 == 0 {
                lower_hex_digit(b[k / 2] as int / 16)
            } else {
                lower_hex_digit(b[k / 2] as int % 16)
            },
    )
}

/// Text that names a document identifier: exactly 24 hexadecimal digits.
pub open spec fn is_object_id_text(s: Seq<char>) -> bool {
    s.len() == 2 * ID_LEN && forall|i: int| 0 <= i < s.len() ==> is_hex_char(#[trigger] s[i])
}

/// The bytes that a string of hexadecimal digit pairs denotes.
pub open spec fn bytes_of_hex(s: Seq<char>) -> Seq<u8> {
    Seq::new(
        s.len() / 2,
        |i: int| (hex_value(s[2 * i]) * 16 + hex_value(s[2 * i + 1])) as u8,
    )
}

/// Relies on bson's `ObjectId::parse_str`: it decodes the text with `hex::decode`
/// (an even number of digits `0-9`, `a-f`, `A-F`, high nibble first) and accepts
/// exactly twelve bytes.
#[verifier::external_body]
pub(crate) fn parse_object_id(s: &str) -> (r: Option<Vec<u8>>)
    ensures
        r.is_some() == is_object_id_text(s@),
        r matches Some(b) ==> b@ == bytes_of_hex(s@),
{
    bson::oid::ObjectId::parse_str(s).ok().map(|o| o.bytes().to_vec())
}

/// Relies on bson's `ObjectId::to_hex`: `hex::encode` of the twelve bytes, in
/// lowercase digits.
#[verifier::external_body]
pub(crate) fn object_id_hex(b: &Vec<u8>) -> (r: String)
    requires
        b@.len() == ID_LEN,
    ensures
        r@ == hex_lower(b@),
{
    let bytes: [u8; 12] = b.as_slice().try_into().unwrap();
    bson::oid::ObjectId::from_bytes(bytes).to_hex()
}

/// Relies on bson's `ObjectId::new`: a fresh identifier from the clock, a
/// per-process random value and a counter; only its length is known here.
#[verifier::external_body]
pub(crate) fn new_object_id() -> (r: Vec<u8>)
    ensures
        r@.len() == ID_LEN,
{
    bson::oid::ObjectId::new().bytes().to_vec()
}

/// Byte-wise equality of two identifiers.
pub fn same_id(a: &Vec<u8>, b: &Vec<u8>) -> (r: bool)
    ensures
        r == (a@ == b@),
{
    if a.len() != b.len() {
        return false;
    }
    let mut i: usize = 0;
    while i < a.len()
        invariant
            a@.len() == b@.len(),
            i <= a@.len(),
            forall|j: int| 0 <= j < i ==> a@[j] == b@[j],
        decreases a@.len() - i,
    {
        if a[i] != b[i] {
            return false;
        }
        i = i + 1;
    }
    assert(a@ =~= b@);
    true
}

proof fn lemma_hex_digit_round_trip(n: int)
    requires
        0 <= n < 16,
    ensures
        is_hex_char(lower_hex_digit(n)),
        hex_value(lower_hex_digit(n)) == n,
{
}

/// The text form of an identifier names it: parsing the lowercase hexadecimal
/// text of twelve bytes gives those bytes back.
pub proof fn lemma_hex_round_trip(b: Seq<u8>)
    requires
        b.len() == ID_LEN,
    ensures
        is_object_id_text(hex_lower(b)),
        bytes_of_hex(hex_lower(b)) == b,
{
    let h = hex_lower(b);
    assert forall|k: int| 0 <= k < h.len() implies is_hex_char(#[trigger] h[k]) by {
        if k % 2 == 0 {
            lemma_hex_digit_round_trip(b[k / 2] as int / 16);
        } else {
            lemma_hex_digit_round_trip(b[k / 2] as int % 16);
        }
    }
    assert forall|i: int| 0 <= i < b.len() implies #[trigger] bytes_of_hex(h)[i] == b[i] by {
        let x = b[i] as int;
        assert((2 * i) / 2 == i);
        assert((2 * i + 1) / 2 == i);
        assert((2 * i) % 2 == 0);
        assert((2 * i + 1) % 2 == 1);
        lemma_hex_digit_round_trip(x / 16);
        lemma_hex_digit_round_trip(x % 16);
        assert(x / 16 * 16 + x % 16 == x);
    }
    assert(bytes_of_hex(h) =~= b);
}

} // verus!
