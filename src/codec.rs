//! Byte encodings of what the store keeps: the identifier digest of a text
//! and the serialized form of a record.
use sha2::Digest;
use vstd::prelude::*;

verus! {

/// The SHA-256 digest of the UTF-8 bytes of a text.
pub uninterp spec fn text_digest(s: Seq<char>) -> Seq<u8>;

/// What `bincode::deserialize` reads from bytes as a (text, seconds,
/// nanoseconds) triple, or `None` where it fails.
pub uninterp spec fn record_decoding(b: Seq<u8>) -> Option<(Seq<char>, i64, u32)>;

/// Relies on sha2::Sha256::digest, applied to the UTF-8 bytes of `s`.
#[verifier::external_body]
pub(crate) fn sha256_of_text(s: &str) -> (r: [u8; 32])
    ensures
        r@ == text_digest(s@),
{
    sha2::Sha256::digest(s.as_bytes()).into()
}

/// Relies on bincode::serialize of a `(&str, i64, u32)` triple, and on
/// bincode::deserialize reading back what it wrote. Serializing into a `Vec`
/// with no size limit cannot fail for a string and two integers.
#[verifier::external_body]
pub(crate) fn encode_record(content: &str, secs: i64, nanos: u32) -> (r: Result<
    Vec<u8>,
    bincode::Error,
>)
    ensures
        r is Ok,
        r matches Ok(b) ==> record_decoding(b@) == Some((content@, secs, nanos)),
{
    bincode::serialize(&(content, secs, nanos))
}

/// Relies on bincode::deserialize of a `(String, i64, u32)` triple.
#[verifier::external_body]
pub(crate) fn decode_record(bytes: &[u8]) -> (r: Result<(String, i64, u32), bincode::Error>)
    ensures
        match r {
            Ok((c, s, n)) => record_decoding(bytes@) == Some((c@, s, n)),
            Err(_) => record_decoding(bytes@) is None,
        },
{
    bincode::deserialize::<(String, i64, u32)>(bytes)
}

} // verus!
