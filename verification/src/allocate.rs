use vstd::prelude::*;

use solana_program::account_info::AccountInfo;
use solana_program::instruction::Instruction;
use solana_program::program_error::ProgramError;
use solana_program::pubkey::Pubkey;
use solana_program::rent::Rent;

use crate::error::AllocationError;

verus! {

#[verifier::external_type_specification]
#[verifier::external_body]
pub struct ExPubkey(Pubkey);

#[verifier::external_type_specification]
#[verifier::external_body]
pub struct ExAccountInfo<'info>(AccountInfo<'info>);

#[verifier::external_type_specification]
#[verifier::external_body]
pub struct ExRent(Rent);

#[verifier::external_type_specification]
#[verifier::external_body]
pub struct ExInstruction(Instruction);

#[verifier::external_type_specification]
#[verifier::external_body]
pub struct ExProgramError(ProgramError);

/// Most seeds the host's signing mechanism accepts in one seed list.
pub const MAX_SEEDS: usize = 16;

/// Longest single seed the host's signing mechanism accepts, in bytes.
pub const MAX_SEED_LEN: usize = 32;

/// A seed list is acceptable when it stays within the host's bounds on
/// seed count and on the length of each seed.
pub open spec fn spec_seeds_ok(seeds: Seq<Seq<u8>>) -> bool {
    &&& seeds.len() <= MAX_SEEDS
    &&& forall|i: int| 0 <= i < seeds.len() ==> (#[trigger] seeds[i]).len() <= MAX_SEED_LEN
}

/// The capability that authorizes allocation at a derived address: the list
/// of seed byte strings from which the target address was derived under the
/// program's own identity.  Holding a well-formed `PdaSeeds` for an address
/// lets the program sign for that address without any private key; the
/// bounds on the list are checked once, at construction.
pub struct PdaSeeds {
    seeds: Vec<Vec<u8>>,
}

impl PdaSeeds {
    /// The seed list as mathematical sequences of bytes.
    pub closed spec fn spec_seeds(self) -> Seq<Seq<u8>> {
        self.seeds.deep_view()
    }

    /// Every value of this type carries a seed list within the host's
    /// bounds.
    #[verifier::type_invariant]
    pub closed spec fn wf(self) -> bool {
        spec_seeds_ok(self.spec_seeds())
    }

    /// Bundles a seed list into a signing capability.  Succeeds exactly on
    /// lists of at most `MAX_SEEDS` seeds of at most `MAX_SEED_LEN` bytes
    /// each; any longer list or seed is refused.
    pub fn new(seeds: Vec<Vec<u8>>) -> (r: Option<PdaSeeds>)
        ensures
            match r {
                Some(p) => p.spec_seeds() == seeds.deep_view() && spec_seeds_ok(seeds.deep_view()),
                None => !spec_seeds_ok(seeds.deep_view()),
            },
    {
        if seeds.len() > MAX_SEEDS {
            return None;
        }
        let mut i: usize = 0;
        while i < seeds.len()
            invariant
                i <= seeds.deep_view().len(),
                seeds.deep_view().len() <= MAX_SEEDS,
                forall|j: int|
                    0 <= j < i ==> (#[trigger] seeds.deep_view()[j]).len() <= MAX_SEED_LEN,
            decreases seeds.deep_view().len() - i,
        {
            proof {
                assert(seeds.deep_view()[i as int].len() == seeds@[i as int]@.len());
            }
            if seeds[i].len() > MAX_SEED_LEN {
                return None;
            }
            i += 1;
        }
        Some(PdaSeeds { seeds })
    }

    /// How many seeds the capability bundles.
    pub fn len(&self) -> (n: usize)
        ensures
            n == self.spec_seeds().len(),
    {
        self.seeds.len()
    }
}

/// Code the host's error encoding gives `SystemError::AccountAlreadyInUse`
/// (custom error 0 of the system program).
pub const CODE_ACCOUNT_IN_USE: u64 = 4294967296;

/// Code the host's error encoding gives
/// `SystemError::ResultWithNegativeLamports` (custom error 1 of the system
/// program): the funding account could not cover the transfer.
pub const CODE_NEGATIVE_LAMPORTS: u64 = 1;

/// Code of the builtin `ProgramError::InsufficientFunds`.
pub const CODE_INSUFFICIENT_FUNDS: u64 = 25769803776;

/// Code of the builtin `ProgramError::MissingRequiredSignature`: the target
/// address was not signed for, as when the seeds derive some other address.
pub const CODE_MISSING_SIGNATURE: u64 = 34359738368;

/// Code of the builtin `ProgramError::InvalidSeeds`.
pub const CODE_INVALID_SEEDS: u64 = 60129542144;

/// The allocation failure a numeric host error code names: an address
/// collision, a funding shortfall, a seed/address mismatch, or — for every
/// other code — an unclassified host refusal.
pub open spec fn spec_classify_host_code(code: u64) -> AllocationError {
    if code == CODE_ACCOUNT_IN_USE {
        AllocationError::AlreadyInitialized
    } else if code == CODE_NEGATIVE_LAMPORTS || code == CODE_INSUFFICIENT_FUNDS {
        AllocationError::InsufficientFunds
    } else if code == CODE_MISSING_SIGNATURE || code == CODE_INVALID_SEEDS {
        AllocationError::AddressMismatch
    } else {
        AllocationError::Other
    }
}

/// Maps a numeric host error code to the allocation failure it names.
pub fn classify_host_code(code: u64) -> (r: AllocationError)
    ensures
        r == spec_classify_host_code(code),
{
    if code == CODE_ACCOUNT_IN_USE {
        AllocationError::AlreadyInitialized
    } else if code == CODE_NEGATIVE_LAMPORTS || code == CODE_INSUFFICIENT_FUNDS {
        AllocationError::InsufficientFunds
    } else if code == CODE_MISSING_SIGNATURE || code == CODE_INVALID_SEEDS {
        AllocationError::AddressMismatch
    } else {
        AllocationError::Other
    }
}

/// Relies on `Rent::get` (through `sysvar::Sysvar`): yields the host's
/// current rent model, or an error where the host offers none.
#[verifier::external_body]
fn rent_get() -> Result<Rent, ProgramError> {
    <Rent as solana_program::sysvar::Sysvar>::get()
}

/// Relies on `Rent::minimum_balance`: the smallest balance that keeps an
/// account of `space` bytes rent-exempt under the given rent model.
#[verifier::external_body]
fn rent_minimum_balance(rent: &Rent, space: usize) -> u64 {
    rent.minimum_balance(space)
}

/// Relies on `system_instruction::create_account`: builds the
/// system-program instruction that creates an account of `space` bytes at
/// `target`'s address, owned by `owner`, funded with `lamports` by `payer`.
#[verifier::external_body]
fn create_account_instruction(
    payer: &AccountInfo,
    target: &AccountInfo,
    lamports: u64,
    space: u64,
    owner: &Pubkey,
) -> Instruction {
    solana_program::system_instruction::create_account(payer.key, target.key, lamports, space, owner)
}

/// Relies on `program::invoke_signed`: asks the host to execute `ix`,
/// signing for the address the bundled seeds derive under this program's
/// identity.  The host refuses, among others, a target address the seeds do
/// not derive and a target account that already exists.
#[verifier::external_body]
fn invoke_signed_create<'info>(
    ix: &Instruction,
    payer: &AccountInfo<'info>,
    target: &AccountInfo<'info>,
    system_program: &AccountInfo<'info>,
    seeds: &PdaSeeds,
) -> Result<(), ProgramError> {
    let seed_slices: Vec<&[u8]> = seeds.seeds.iter().map(|s| s.as_slice()).collect();
    solana_program::program::invoke_signed(
        ix,
        &[payer.clone(), target.clone(), system_program.clone()],
        &[seed_slices.as_slice()],
    )
}

/// Relies on `From<ProgramError> for u64`: the stable numeric encoding of a
/// host error, with builtin variants in the upper 32 bits and custom codes
/// of the called program below them.
#[verifier::external_body]
fn host_error_code(e: ProgramError) -> u64 {
    u64::from(e)
}

/// Creates the storage account that will hold one new record: exactly
/// `space` bytes at `target_account`'s address, owned by `owner`, funded
/// rent-exempt by `payer`, authorized by the seed capability that derives
/// the target address.  Every host refusal is surfaced as the allocation
/// failure its error code names — an existing account at the target address
/// as `AlreadyInitialized`, a funding shortfall as `InsufficientFunds`, a
/// seed/address mismatch as `AddressMismatch` — and nothing is retried.
pub fn create_pda<'info>(
    target_account: &AccountInfo<'info>,
    owner: &Pubkey,
    space: usize,
    pda_seeds: &PdaSeeds,
    system_program: &AccountInfo<'info>,
    payer: &AccountInfo<'info>,
) -> Result<(), AllocationError> {
    let rent = match rent_get() {
        Ok(rent) => rent,
        Err(e) => {
            let code = host_error_code(e);
            return Err(classify_host_code(code));
        },
    };
    let lamports = rent_minimum_balance(&rent, space);
    let ix = create_account_instruction(payer, target_account, lamports, space as u64, owner);
    match invoke_signed_create(&ix, payer, target_account, system_program, pda_seeds) {
        Ok(_) => Ok(()),
        Err(e) => {
            let code = host_error_code(e);
            Err(classify_host_code(code))
        },
    }
}

} // verus!
