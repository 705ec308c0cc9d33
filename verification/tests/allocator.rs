use account_layout::allocate::{
    classify_host_code, create_pda, PdaSeeds, CODE_ACCOUNT_IN_USE, CODE_INSUFFICIENT_FUNDS,
    CODE_INVALID_SEEDS, CODE_MISSING_SIGNATURE, CODE_NEGATIVE_LAMPORTS,
};
use account_layout::error::AllocationError;

use solana_program::account_info::AccountInfo;
use solana_program::program_error::ProgramError;
use solana_program::pubkey::Pubkey;
use solana_program::system_instruction::SystemError;

#[test]
fn seeds_within_bounds_are_accepted() {
    let seeds = vec![vec![7u8; 32], vec![1u8], Vec::new()];
    let pda_seeds = PdaSeeds::new(seeds).unwrap();
    assert_eq!(pda_seeds.len(), 3);
}

#[test]
fn empty_seed_list_is_accepted() {
    let pda_seeds = PdaSeeds::new(Vec::new()).unwrap();
    assert_eq!(pda_seeds.len(), 0);
}

#[test]
fn overlong_seed_is_refused() {
    let seeds = vec![vec![0u8; 33]];
    assert!(PdaSeeds::new(seeds).is_none());
}

#[test]
fn too_many_seeds_are_refused() {
    let seeds = vec![vec![1u8]; 17];
    assert!(PdaSeeds::new(seeds).is_none());
    let seeds = vec![vec![1u8]; 16];
    assert!(PdaSeeds::new(seeds).is_some());
}

#[test]
fn host_codes_match_the_host_encoding() {
    assert_eq!(CODE_ACCOUNT_IN_USE, u64::from(ProgramError::Custom(0)));
    assert_eq!(
        CODE_NEGATIVE_LAMPORTS,
        u64::from(ProgramError::Custom(SystemError::ResultWithNegativeLamports as u32))
    );
    assert_eq!(
        CODE_INSUFFICIENT_FUNDS,
        u64::from(ProgramError::InsufficientFunds)
    );
    assert_eq!(
        CODE_MISSING_SIGNATURE,
        u64::from(ProgramError::MissingRequiredSignature)
    );
    assert_eq!(CODE_INVALID_SEEDS, u64::from(ProgramError::InvalidSeeds));
    assert_eq!(SystemError::AccountAlreadyInUse as u32, 0);
}

#[test]
fn classification_of_host_codes() {
    assert_eq!(
        classify_host_code(CODE_ACCOUNT_IN_USE),
        AllocationError::AlreadyInitialized
    );
    assert_eq!(
        classify_host_code(CODE_NEGATIVE_LAMPORTS),
        AllocationError::InsufficientFunds
    );
    assert_eq!(
        classify_host_code(CODE_INSUFFICIENT_FUNDS),
        AllocationError::InsufficientFunds
    );
    assert_eq!(
        classify_host_code(CODE_MISSING_SIGNATURE),
        AllocationError::AddressMismatch
    );
    assert_eq!(
        classify_host_code(CODE_INVALID_SEEDS),
        AllocationError::AddressMismatch
    );
    assert_eq!(classify_host_code(0), AllocationError::Other);
    assert_eq!(classify_host_code(2), AllocationError::Other);
    assert_eq!(
        classify_host_code(u64::from(ProgramError::UnsupportedSysvar)),
        AllocationError::Other
    );
}

#[test]
fn create_pda_without_host_runtime_fails() {
    let target_key = Pubkey::new_unique();
    let owner = Pubkey::new_unique();
    let payer_key = Pubkey::new_unique();
    let system_key = solana_program::system_program::id();

    let mut target_lamports = 0u64;
    let mut target_data: Vec<u8> = Vec::new();
    let target = AccountInfo::new(
        &target_key,
        false,
        true,
        &mut target_lamports,
        &mut target_data,
        &system_key,
        false,
        0,
    );

    let mut payer_lamports = 1_000_000_000u64;
    let mut payer_data: Vec<u8> = Vec::new();
    let payer = AccountInfo::new(
        &payer_key,
        true,
        true,
        &mut payer_lamports,
        &mut payer_data,
        &system_key,
        false,
        0,
    );

    let mut system_lamports = 1u64;
    let mut system_data: Vec<u8> = Vec::new();
    let system_program = AccountInfo::new(
        &system_key,
        false,
        false,
        &mut system_lamports,
        &mut system_data,
        &system_key,
        true,
        0,
    );

    let pda_seeds = PdaSeeds::new(vec![b"proof".to_vec(), vec![255u8]]).unwrap();

    // Off the host runtime the rent query is unavailable, so allocation must
    // surface a host refusal; no account springs into being.
    let r = create_pda(&target, &owner, 16, &pda_seeds, &system_program, &payer);
    assert_eq!(r, Err(AllocationError::Other));
    assert_eq!(target.data_len(), 0);
    assert_eq!(**target.lamports.borrow(), 0);
}
