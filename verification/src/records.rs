use vstd::prelude::*;

use vstd::bytes::*;
use vstd::slice::slice_subrange;

use crate::discriminator::{AccountDiscriminator, Discriminator};
use crate::layout::FixedLayout;

verus! {

/// A bus record: a reward pool drawn from in rotation.  Field region:
/// bytes 0..8 hold `id`, bytes 8..16 hold `rewards`, both little-endian.
#[derive(Clone, Copy, Debug, PartialEq, Eq, Structural)]
pub struct Bus {
    pub id: u64,
    pub rewards: u64,
}

/// A proof record: the running total a prover has accumulated.  Field
/// region: bytes 0..8 hold `balance`, little-endian.
#[derive(Clone, Copy, Debug, PartialEq, Eq, Structural)]
pub struct Proof {
    pub balance: u64,
}

/// A treasury record: the program's central balance.  Field region:
/// bytes 0..8 hold `balance`, little-endian.
#[derive(Clone, Copy, Debug, PartialEq, Eq, Structural)]
pub struct Treasury {
    pub balance: u64,
}

impl Discriminator for Bus {
    open spec fn spec_discriminator() -> AccountDiscriminator {
        AccountDiscriminator::Bus
    }

    fn discriminator() -> (d: AccountDiscriminator) {
        AccountDiscriminator::Bus
    }
}

impl Discriminator for Proof {
    open spec fn spec_discriminator() -> AccountDiscriminator {
        AccountDiscriminator::Proof
    }

    fn discriminator() -> (d: AccountDiscriminator) {
        AccountDiscriminator::Proof
    }
}

impl Discriminator for Treasury {
    open spec fn spec_discriminator() -> AccountDiscriminator {
        AccountDiscriminator::Treasury
    }

    fn discriminator() -> (d: AccountDiscriminator) {
        AccountDiscriminator::Treasury
    }
}

impl FixedLayout for Bus {
    open spec fn spec_size() -> nat {
        16
    }

    open spec fn spec_bytes(self) -> Seq<u8> {
        spec_u64_to_le_bytes(self.id) + spec_u64_to_le_bytes(self.rewards)
    }

    open spec fn spec_decode(bytes: Seq<u8>) -> Self {
        Bus {
            id: spec_u64_from_le_bytes(bytes.subrange(0, 8)),
            rewards: spec_u64_from_le_bytes(bytes.subrange(8, 16)),
        }
    }

    proof fn lemma_bytes_len(self) {
        lemma_auto_spec_u64_to_from_le_bytes();
    }

    proof fn lemma_decode_encode(self) {
        lemma_auto_spec_u64_to_from_le_bytes();
        assert(self.spec_bytes().subrange(0, 8) =~= spec_u64_to_le_bytes(self.id));
        assert(self.spec_bytes().subrange(8, 16) =~= spec_u64_to_le_bytes(self.rewards));
    }

    proof fn lemma_encode_decode(bytes: Seq<u8>) {
        lemma_auto_spec_u64_to_from_le_bytes();
        assert(Self::spec_decode(bytes).spec_bytes() =~= bytes);
    }

    fn size() -> (n: usize) {
        16
    }

    fn decode(fields: &[u8]) -> (r: Self) {
        let id = u64_from_le_bytes(slice_subrange(fields, 0, 8));
        let rewards = u64_from_le_bytes(slice_subrange(fields, 8, 16));
        Bus { id, rewards }
    }

    fn to_bytes(&self) -> (r: Vec<u8>) {
        let mut out = u64_to_le_bytes(self.id);
        let mut tail = u64_to_le_bytes(self.rewards);
        out.append(&mut tail);
        proof {
            assert(out@ =~= self.spec_bytes());
        }
        out
    }
}

impl FixedLayout for Proof {
    open spec fn spec_size() -> nat {
        8
    }

    open spec fn spec_bytes(self) -> Seq<u8> {
        spec_u64_to_le_bytes(self.balance)
    }

    open spec fn spec_decode(bytes: Seq<u8>) -> Self {
        Proof { balance: spec_u64_from_le_bytes(bytes) }
    }

    proof fn lemma_bytes_len(self) {
        lemma_auto_spec_u64_to_from_le_bytes();
    }

    proof fn lemma_decode_encode(self) {
        lemma_auto_spec_u64_to_from_le_bytes();
    }

    proof fn lemma_encode_decode(bytes: Seq<u8>) {
        lemma_auto_spec_u64_to_from_le_bytes();
    }

    fn size() -> (n: usize) {
        8
    }

    fn decode(fields: &[u8]) -> (r: Self) {
        Proof { balance: u64_from_le_bytes(fields) }
    }

    fn to_bytes(&self) -> (r: Vec<u8>) {
        u64_to_le_bytes(self.balance)
    }
}

impl FixedLayout for Treasury {
    open spec fn spec_size() -> nat {
        8
    }

    open spec fn spec_bytes(self) -> Seq<u8> {
        spec_u64_to_le_bytes(self.balance)
    }

    open spec fn spec_decode(bytes: Seq<u8>) -> Self {
        Treasury { balance: spec_u64_from_le_bytes(bytes) }
    }

    proof fn lemma_bytes_len(self) {
        lemma_auto_spec_u64_to_from_le_bytes();
    }

    proof fn lemma_decode_encode(self) {
        lemma_auto_spec_u64_to_from_le_bytes();
    }

    proof fn lemma_encode_decode(bytes: Seq<u8>) {
        lemma_auto_spec_u64_to_from_le_bytes();
    }

    fn size() -> (n: usize) {
        8
    }

    fn decode(fields: &[u8]) -> (r: Self) {
        Treasury { balance: u64_from_le_bytes(fields) }
    }

    fn to_bytes(&self) -> (r: Vec<u8>) {
        u64_to_le_bytes(self.balance)
    }
}

} // verus!
