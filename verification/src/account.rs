use vstd::prelude::*;

use vstd::slice::{slice_index_get, slice_subrange};

use crate::discriminator::Discriminator;
use crate::error::DataError;
use crate::layout::FixedLayout;

verus! {

/// Byte length of the header that precedes every record's field region:
/// one tag byte and seven reserved bytes.
pub const HEADER_LEN: usize = 8;

/// A buffer is a valid instance of record type `T` exactly when it is long
/// enough for the header plus `T`'s field region and its tag byte is the
/// one `T` declares.  The seven reserved header bytes are ignored on read.
pub open spec fn spec_valid_for<T: FixedLayout + Discriminator>(data: Seq<u8>) -> bool {
    &&& data.len() >= HEADER_LEN + T::spec_size()
    &&& data[0] == T::spec_discriminator().as_byte()
}

/// The record a buffer holds as an instance of `T`: the decoding of the
/// field region right after the header, or `None` where the buffer is not
/// valid for `T`.
pub open spec fn spec_view<T: FixedLayout + Discriminator>(data: Seq<u8>) -> Option<T> {
    if spec_valid_for::<T>(data) {
        Some(T::spec_decode(data.subrange(HEADER_LEN as int, HEADER_LEN + T::spec_size())))
    } else {
        None
    }
}

/// The buffer after `value`'s fields are written over the field region:
/// header and any trailing bytes unchanged, bytes `8..8 + size` replaced by
/// `value`'s encoding.
pub open spec fn spec_store<T: FixedLayout>(data: Seq<u8>, value: T) -> Seq<u8> {
    data.subrange(0, HEADER_LEN as int) + value.spec_bytes() + data.subrange(
        HEADER_LEN + T::spec_size(),
        data.len() as int,
    )
}

/// Validates `data` as an instance of `T` and reads the record out of it.
///
/// Succeeds exactly on the buffers that are valid for `T`; the record read
/// is the decoding of the field region, whose bytes are its own encoding.
/// Any other buffer — too short, or tagged for a different record kind,
/// whatever its length — is refused with `InvalidLayout`.
pub fn try_from_bytes<T: FixedLayout + Discriminator>(data: &[u8]) -> (r: Result<T, DataError>)
    ensures
        match r {
            Ok(v) => {
                &&& spec_view::<T>(data@) == Some(v)
                &&& v.spec_bytes() == data@.subrange(
                    HEADER_LEN as int,
                    HEADER_LEN + T::spec_size(),
                )
            },
            Err(e) => {
                &&& e == DataError::InvalidLayout
                &&& spec_view::<T>(data@) is None
            },
        },
{
    let n = T::size();
    if data.len() < HEADER_LEN || data.len() - HEADER_LEN < n {
        return Err(DataError::InvalidLayout);
    }
    let tag = *slice_index_get(data, 0);
    if tag != T::discriminator().as_u8() {
        return Err(DataError::InvalidLayout);
    }
    let fields = slice_subrange(data, HEADER_LEN, HEADER_LEN + n);
    let v = T::decode(fields);
    proof {
        T::lemma_encode_decode(fields@);
    }
    Ok(v)
}

/// Validates `data` as an instance of `T` and writes `value`'s fields over
/// the field region in place.
///
/// Succeeds exactly on the buffers that are valid for `T`, leaving the
/// header and any trailing bytes untouched; a buffer that is too short or
/// tagged for a different record kind is refused with `InvalidLayout` and
/// left unchanged.
pub fn try_write_bytes<T: FixedLayout + Discriminator>(data: &mut Vec<u8>, value: &T) -> (r:
    Result<(), DataError>)
    ensures
        match r {
            Ok(_) => {
                &&& spec_valid_for::<T>(old(data)@)
                &&& final(data)@ == spec_store(old(data)@, *value)
            },
            Err(e) => {
                &&& e == DataError::InvalidLayout
                &&& final(data)@ == old(data)@
                &&& !spec_valid_for::<T>(old(data)@)
            },
        },
{
    let n = T::size();
    if data.len() < HEADER_LEN || data.len() - HEADER_LEN < n {
        return Err(DataError::InvalidLayout);
    }
    let tag = data[0];
    if tag != T::discriminator().as_u8() {
        return Err(DataError::InvalidLayout);
    }
    let bytes = value.to_bytes();
    proof {
        value.lemma_bytes_len();
    }
    let mut i: usize = 0;
    while i < n
        invariant
            i <= n,
            n == T::spec_size(),
            HEADER_LEN + n <= usize::MAX,
            bytes@ == value.spec_bytes(),
            bytes@.len() == n,
            data@.len() == old(data)@.len(),
            data@.len() >= HEADER_LEN + n,
            forall|j: int| 0 <= j < HEADER_LEN + i ==> data@[j] == spec_store(old(data)@, *value)[j],
            forall|j: int| HEADER_LEN + i <= j < data@.len() ==> data@[j] == old(data)@[j],
        decreases n - i,
    {
        data.set(HEADER_LEN + i, bytes[i]);
        i += 1;
    }
    proof {
        assert(data@ =~= spec_store(old(data)@, *value));
    }
    Ok(())
}

/// Round trip: writing a record into a buffer that is valid for its type
/// and then viewing the buffer yields that record back, and leaves the
/// buffer valid.  No divergence can hide between the write path and the
/// read path.
pub proof fn lemma_store_then_view<T: FixedLayout + Discriminator>(data: Seq<u8>, value: T)
    requires
        spec_valid_for::<T>(data),
    ensures
        spec_valid_for::<T>(spec_store(data, value)),
        spec_view::<T>(spec_store(data, value)) == Some(value),
{
    value.lemma_bytes_len();
    value.lemma_decode_encode();
    let stored = spec_store(data, value);
    assert(stored.len() == data.len());
    assert(stored[0] == data[0]);
    assert(stored.subrange(HEADER_LEN as int, HEADER_LEN + T::spec_size()) =~= value.spec_bytes());
}

} // verus!
