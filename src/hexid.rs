//! Identifiers as hexadecimal text, the form they take outside the store.
use crate::db::DocumentId;
use vstd::prelude::*;

verus! {

/// The error of a failed hexadecimal decoding.
#[verifier::external_type_specification]
#[verifier::external_body]
pub struct ExFromHexError(hex::FromHexError);

/// A hexadecimal digit, in either case.
pub open spec fn is_hex_digit(c: char) -> bool {
    ('0' <= c && c <= '9') || ('a' <= c && c <= 'f') || ('A' <= c && c <= 'F')
}

/// A lowercase hexadecimal digit.
pub open spec fn is_lower_hex_digit(c: char) -> bool {
    ('0' <= c && c <= '9') || ('a' <= c && c <= 'f')
}

/// The value of a hexadecimal digit.
pub open spec fn hex_value(c: char) -> int {
    if '0' <= c && c <= '9' {
        c as int - '0' as int
    } else if 'a' <= c && c <= 'f' {
        c as int - 'a' as int + 10
    } else {
        c as int - 'A' as int + 10
    }
}

/// Text that decodes as hexadecimal: an even number of digits.
pub open spec fn is_hex_text(s: Seq<char>) -> bool {
    &&& s.len() % 2 == 0
    &&& forall|i: int| 0 <= i < s.len() ==> is_hex_digit(#[trigger] s[i])
}

/// Each byte of `b` is written in `s` as two digits, high half first.
pub open spec fn hex_denotes(s: Seq<char>, b: Seq<u8>) -> bool {
    &&& s.len() == 2 * b.len()
    &&& forall|i: int|
        0 <= i < b.len() ==> #[trigger] b[i] == hex_value(s[2 * i]) * 16 + hex_value(s[2 * i + 1])
}

/// Relies on hex::encode: two lowercase digits for each byte, high half
/// first.
#[verifier::external_body]
fn hex_encode(b: &[u8]) -> (r: String)
    ensures
        hex_denotes(r@, b@),
        forall|i: int| 0 <= i < r@.len() ==> is_lower_hex_digit(#[trigger] r@[i]),
{
    hex::encode(b)
}

/// Relies on hex::decode: succeeds exactly on an even number of hexadecimal
/// digits, each pair giving one byte, high half first.
#[verifier::external_body]
fn hex_decode(s: &str) -> (r: Result<Vec<u8>, hex::FromHexError>)
    ensures
        r is Ok <==> is_hex_text(s@),
        r matches Ok(b) ==> hex_denotes(s@, b@),
{
    hex::decode(s)
}

impl DocumentId {
    /// The identifier as 64 lowercase hexadecimal digits.
    pub fn to_hex(&self) -> (r: String)
        ensures
            r@.len() == 64,
            hex_denotes(r@, self.0@),
            forall|i: int| 0 <= i < r@.len() ==> is_lower_hex_digit(#[trigger] r@[i]),
    {
        hex_encode(self.0.as_slice())
    }

    /// Reads an identifier written as 64 hexadecimal digits, in either case;
    /// `None` for any other text.
    pub fn from_hex(s: &str) -> (r: Option<DocumentId>)
        ensures
            r is Some <==> is_hex_text(s@) && s@.len() == 64,
            r matches Some(id) ==> hex_denotes(s@, id.0@),
    {
        let bytes = match hex_decode(s) {
            Ok(b) => b,
            Err(_) => return None,
        };
        if bytes.len() != 32 {
            return None;
        }
        let mut a: [u8; 32] = [0u8; 32];
        let mut i: usize = 0;
        while i < 32
            invariant
                0 <= i <= 32,
                bytes@.len() == 32,
                forall|j: int| 0 <= j < i ==> a@[j] == bytes@[j],
            decreases 32 - i,
        {
            a[i] = bytes[i];
            i = i + 1;
        }
        assert(a@ =~= bytes@);
        Some(DocumentId(a))
    }
}

} // verus!
