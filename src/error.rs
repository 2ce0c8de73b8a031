use vstd::prelude::*;

verus! {

/// The storage engine's error type, carried through unchanged.
#[verifier::external_type_specification]
#[verifier::external_body]
pub struct ExSledError(sled::Error);

/// The kind of a serialization failure, carried through unchanged.
#[verifier::external_type_specification]
#[verifier::external_body]
pub struct ExBincodeErrorKind(bincode::ErrorKind);

/// What can go wrong in a store operation.
#[derive(Debug)]
pub enum StoreError {
    /// An I/O or engine-internal failure of the key-value store.
    Sled(sled::Error),
    /// A value that could not be encoded, or stored bytes that do not decode
    /// as a record.
    Bincode(bincode::Error),
}

} // verus!
