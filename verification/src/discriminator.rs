use vstd::prelude::*;

verus! {

/// The closed set of record kinds this program stores.
///
/// Byte 0 of every account buffer holds the tag of exactly one of these
/// kinds.  The tag values are fixed, non-zero, and stable across versions:
/// reordering or renumbering them would break every buffer already written.
#[derive(Clone, Copy, Debug, PartialEq, Eq, Structural)]
pub enum AccountDiscriminator {
    Bus,
    Proof,
    Treasury,
}

impl AccountDiscriminator {
    /// The one-byte tag of this record kind.
    pub open spec fn as_byte(self) -> u8 {
        match self {
            AccountDiscriminator::Bus => 1,
            AccountDiscriminator::Proof => 2,
            AccountDiscriminator::Treasury => 3,
        }
    }

    /// The record kind a tag byte denotes, if any.
    pub open spec fn spec_from_byte(b: u8) -> Option<AccountDiscriminator> {
        if b == 1 {
            Some(AccountDiscriminator::Bus)
        } else if b == 2 {
            Some(AccountDiscriminator::Proof)
        } else if b == 3 {
            Some(AccountDiscriminator::Treasury)
        } else {
            None
        }
    }

    /// Returns this record kind's tag byte.
    pub fn as_u8(self) -> (b: u8)
        ensures
            b == self.as_byte(),
    {
        match self {
            AccountDiscriminator::Bus => 1,
            AccountDiscriminator::Proof => 2,
            AccountDiscriminator::Treasury => 3,
        }
    }

    /// Decodes a tag byte back into a record kind; `None` for every byte
    /// that no record kind declares.
    pub fn try_from_u8(b: u8) -> (r: Option<AccountDiscriminator>)
        ensures
            r == Self::spec_from_byte(b),
    {
        if b == 1 {
            Some(AccountDiscriminator::Bus)
        } else if b == 2 {
            Some(AccountDiscriminator::Proof)
        } else if b == 3 {
            Some(AccountDiscriminator::Treasury)
        } else {
            None
        }
    }
}

/// Every record kind's tag is non-zero, and no two distinct record kinds
/// share a tag byte.
pub proof fn lemma_discriminator_bytes_distinct(a: AccountDiscriminator, b: AccountDiscriminator)
    ensures
        a.as_byte() != 0,
        a != b ==> a.as_byte() != b.as_byte(),
{
}

/// Tag bytes decode back to exactly the record kind that declared them.
pub proof fn lemma_discriminator_byte_round_trip(a: AccountDiscriminator)
    ensures
        AccountDiscriminator::spec_from_byte(a.as_byte()) == Some(a),
{
}

/// A record type's capability declaration: the type names its own record
/// kind, and with it the tag byte and the buffer layout it answers to.
pub trait Discriminator {
    /// The record kind this type declares.
    spec fn spec_discriminator() -> AccountDiscriminator;

    /// Returns the declared record kind.
    fn discriminator() -> (d: AccountDiscriminator)
        ensures
            d == Self::spec_discriminator(),
    ;
}

} // verus!
