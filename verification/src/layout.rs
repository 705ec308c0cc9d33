use vstd::prelude::*;

use crate::error::DataError;

verus! {

/// A record type that may live in tagged account storage: a fixed number of
/// bytes holding fixed-width little-endian fields, with every bit pattern of
/// that region a valid record.
///
/// `spec_bytes` is the canonical encoding of a record's field region and
/// `spec_decode` reads a record back out of one; the three lemmas oblige an
/// implementor to prove that the two are mutually inverse, so that in-place
/// reads and writes of a buffer can never disagree about the stored fields.
pub trait FixedLayout: Sized {
    /// Byte length of the field region.
    spec fn spec_size() -> nat;

    /// The canonical encoding of this record's fields.
    spec fn spec_bytes(self) -> Seq<u8>;

    /// The record whose fields a field region of declared size holds.
    spec fn spec_decode(bytes: Seq<u8>) -> Self;

    /// An encoding is exactly as long as the declared size.
    proof fn lemma_bytes_len(self)
        ensures
            self.spec_bytes().len() == Self::spec_size(),
    ;

    /// Decoding an encoding yields the record back.
    proof fn lemma_decode_encode(self)
        ensures
            Self::spec_decode(self.spec_bytes()) == self,
    ;

    /// Encoding a decoded field region yields the same bytes.
    proof fn lemma_encode_decode(bytes: Seq<u8>)
        requires
            bytes.len() == Self::spec_size(),
        ensures
            Self::spec_decode(bytes).spec_bytes() == bytes,
    ;

    /// Returns the declared size as a machine integer.
    fn size() -> (n: usize)
        ensures
            n == Self::spec_size(),
    ;

    /// Reads the record out of its field region.
    fn decode(fields: &[u8]) -> (r: Self)
        requires
            fields@.len() == Self::spec_size(),
        ensures
            r == Self::spec_decode(fields@),
    ;

    /// Returns the exact byte representation of this record's fields, for
    /// writing back into storage or for hashing and transmission.
    fn to_bytes(&self) -> (r: Vec<u8>)
        ensures
            r@ == self.spec_bytes(),
    ;
}

/// Parses a fixed-layout value out of raw instruction data.
///
/// The data must be exactly the declared size of `T` — instruction data
/// carries no tag header — and any other length rejects the whole request
/// with `InvalidInstructionData`.
pub fn try_from_instruction_bytes<T: FixedLayout>(data: &[u8]) -> (r: Result<T, DataError>)
    ensures
        match r {
            Ok(v) => data@.len() == T::spec_size() && v == T::spec_decode(data@),
            Err(e) => e == DataError::InvalidInstructionData && data@.len() != T::spec_size(),
        },
{
    let n = T::size();
    if data.len() != n {
        return Err(DataError::InvalidInstructionData);
    }
    Ok(T::decode(data))
}

} // verus!
