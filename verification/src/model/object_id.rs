//! Twelve-byte document identifiers and their 24-digit hexadecimal form.
use vstd::prelude::*;

verus! {

/// The identifier of a stored document: the twelve bytes of a BSON ObjectId.
#[derive(Clone, Copy, Debug)]
pub struct DocId {
    pub bytes: [u8; 12],
}

/// Whether `c` is an ASCII hexadecimal digit, in either case.
pub open spec fn is_hex_digit(c: char) -> bool {
    ||| ('0' <= c && c <= '9')
    ||| ('a' <= c && c <= 'f')
    ||| ('A' <= c && c <= 'F')
}

/// The value of a hexadecimal digit.
pub open spec fn hex_value(c: char) -> int {
    if '0' <= c && c <= '9' {
        (c as int) - ('0' as int)
    } else if 'a' <= c && c <= 'f' {
        (c as int) - ('a' as int) + 10
    } else {
        (c as int) - ('A' as int) + 10
    }
}

/// Whether `s` is the hexadecimal form of a document identifier:
/// exactly 24 hexadecimal digits.
pub open spec fn is_object_id_hex(s: Seq<char>) -> bool {
    &&& s.len() == 24
    &&& forall|i: int| 0 <= i < 24 ==> is_hex_digit(#[trigger] s[i])
}

/// The twelve bytes that 24 hexadecimal digits denote, two digits per byte,
/// the high nibble first.
pub open spec fn object_id_bytes(s: Seq<char>) -> Seq<u8> {
    Seq::new(12, |i: int| (hex_value(s[2 * i]) * 16 + hex_value(s[2 * i + 1])) as u8)
}

/// The lowercase hexadecimal digits, by value.
pub open spec fn hex_digits() -> Seq<char> {
    seq!['0', '1', '2', '3', '4', '5', '6', '7', '8', '9', 'a', 'b', 'c', 'd', 'e', 'f']
}

/// The lowercase hexadecimal form of a sequence of bytes: two digits per
/// byte, the high nibble first.
pub open spec fn hex_of_bytes(b: Seq<u8>) -> Seq<char> {
    Seq::new(
        2 * b.len(),
        |i: int|
            if i % 2 == 0 {
                hex_digits()[(b[i / 2] / 16) as int]
            } else {
                hex_digits()[(b[i / 2] % 16) as int]
            },
    )
}

/// The message of the error that bson's `ObjectId::parse_str` reports for `s`.
pub uninterp spec fn object_id_parse_error(s: Seq<char>) -> Seq<char>;

/// Calls `mongodb::bson::oid::ObjectId::parse_str`.  Its source decodes the
/// string with `hex::decode` and then demands twelve bytes, so it succeeds
/// exactly on 24 hexadecimal digits and yields the bytes they denote; the
/// text of its error (`Display`) is left to the name `object_id_parse_error`.
#[verifier::external_body]
fn parse_object_id(s: &str) -> (res: Result<[u8; 12], String>)
    ensures
        res is Ok <==> is_object_id_hex(s@),
        res matches Ok(b) ==> b@ == object_id_bytes(s@),
        res matches Err(m) ==> m@ == object_id_parse_error(s@),
{
    match mongodb::bson::oid::ObjectId::parse_str(s) {
        Ok(oid) => Ok(oid.bytes()),
        Err(e) => Err(e.to_string()),
    }
}

/// Calls `mongodb::bson::oid::ObjectId::to_hex` on the identifier with these
/// bytes.  Its source is `hex::encode` of the bytes: two lowercase digits per
/// byte, the high nibble first.
#[verifier::external_body]
fn object_id_to_hex(bytes: [u8; 12]) -> (res: String)
    ensures
        res@ == hex_of_bytes(bytes@),
{
    mongodb::bson::oid::ObjectId::from_bytes(bytes).to_hex()
}

proof fn lemma_hex_digit(n: int)
    requires
        0 <= n < 16,
    ensures
        is_hex_digit(hex_digits()[n]),
        hex_value(hex_digits()[n]) == n,
{
    let d = hex_digits();
    if n == 0 { assert(d[0] == '0'); }
    else if n == 1 { assert(d[1] == '1'); }
    else if n == 2 { assert(d[2] == '2'); }
    else if n == 3 { assert(d[3] == '3'); }
    else if n == 4 { assert(d[4] == '4'); }
    else if n == 5 { assert(d[5] == '5'); }
    else if n == 6 { assert(d[6] == '6'); }
    else if n == 7 { assert(d[7] == '7'); }
    else if n == 8 { assert(d[8] == '8'); }
    else if n == 9 { assert(d[9] == '9'); }
    else if n == 10 { assert(d[10] == 'a'); }
    else if n == 11 { assert(d[11] == 'b'); }
    else if n == 12 { assert(d[12] == 'c'); }
    else if n == 13 { assert(d[13] == 'd'); }
    else if n == 14 { assert(d[14] == 'e'); }
    else { assert(d[15] == 'f'); }
}

/// The hexadecimal form of an identifier is read back as the same
/// identifier: writing it out and parsing it loses nothing.
pub proof fn hex_form_round_trips(id: DocId)
    ensures
        is_object_id_hex(hex_of_bytes(id.bytes@)),
        object_id_bytes(hex_of_bytes(id.bytes@)) == id.bytes@,
{
    let b = id.bytes@;
    let h = hex_of_bytes(b);
    assert forall|i: int| 0 <= i < 24 implies is_hex_digit(#[trigger] h[i]) by {
        let byte = b[i / 2];
        if i % 2 == 0 {
            lemma_hex_digit((byte / 16) as int);
        } else {
            lemma_hex_digit((byte % 16) as int);
        }
    }
    assert forall|j: int| 0 <= j < 12 implies #[trigger] object_id_bytes(h)[j] == b[j] by {
        let byte = b[j];
        assert((2 * j) / 2 == j && (2 * j) % 2 == 0);
        assert((2 * j + 1) / 2 == j && (2 * j + 1) % 2 == 1);
        lemma_hex_digit((byte / 16) as int);
        lemma_hex_digit((byte % 16) as int);
        assert(h[2 * j] == hex_digits()[(byte / 16) as int]);
        assert(h[2 * j + 1] == hex_digits()[(byte % 16) as int]);
        assert(byte == (byte / 16) * 16 + byte % 16);
    }
    assert(object_id_bytes(h) =~= b);
}

impl DocId {
    /// The lowercase hexadecimal form of the identifier.
    pub fn to_hex(&self) -> (res: String)
        ensures
            res@ == hex_of_bytes(self.bytes@),
    {
        object_id_to_hex(self.bytes)
    }

    /// Parses the hexadecimal form of an identifier.
    pub fn parse_hex(s: &str) -> (res: Result<DocId, String>)
        ensures
            res is Ok <==> is_object_id_hex(s@),
            res matches Ok(id) ==> id.bytes@ == object_id_bytes(s@),
            res matches Err(m) ==> m@ == object_id_parse_error(s@),
    {
        match parse_object_id(s) {
            Ok(bytes) => Ok(DocId { bytes }),
            Err(m) => Err(m),
        }
    }
}

} // verus!
