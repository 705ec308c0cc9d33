use vstd::prelude::*;

verus! {

/// Failure of a validated buffer access.
///
/// `InvalidLayout` reports a buffer that is too short for the requested
/// record type or whose tag byte names a different record kind.
/// `InvalidInstructionData` reports raw instruction data whose length is not
/// exactly the declared size of the expected fixed-layout value.  Both are
/// terminal: the caller must abort the enclosing operation.
#[derive(Clone, Copy, Debug, PartialEq, Eq, Structural)]
pub enum DataError {
    InvalidLayout,
    InvalidInstructionData,
}

/// Failure of the deterministic storage allocator.
///
/// `InsufficientFunds` means the funding account cannot cover the
/// rent-exempt balance for the requested size; `AlreadyInitialized` means an
/// account already exists at the target address; `AddressMismatch` means the
/// target address is not the one the seed list derives, so the host refused
/// to sign for it.  `Other` carries any remaining host-runtime refusal.
/// All are fatal to the enclosing operation; nothing is retried.
#[derive(Clone, Copy, Debug, PartialEq, Eq, Structural)]
pub enum AllocationError {
    InsufficientFunds,
    AddressMismatch,
    AlreadyInitialized,
    Other,
}

} // verus!
