//! Unit tests for the record codecs, the capability checks, the arithmetic
//! primitives, the error table and the address re-derivation.
use fundraiser::accounts::{pubkey_eq, AccountState, ProgramIds, Pubkey};
use fundraiser::errors::{FundraiserError, ProgramFailure};
use fundraiser::helpers::mint::MintAccount;
use fundraiser::helpers::mint_2022::Mint2022Account;
use fundraiser::helpers::mint_interface::MintInterface;
use fundraiser::helpers::program::ProgramAccount;
use fundraiser::helpers::signer::SignerAccount;
use fundraiser::helpers::system::SystemAccount;
use fundraiser::helpers::token::TokenAccount;
use fundraiser::helpers::token_2022::TokenAccount2022Account;
use fundraiser::helpers::token_interface::TokenAccountInterface;
use fundraiser::helpers::AccountCheck;
use fundraiser::rules::{checked_pow_u64, contribution_cap_value};
use fundraiser::state::contributor::{Contributor, ContributorParams, CONTRIBUTOR_LEN};
use fundraiser::state::fundraise::{Fundraise, FundraiseParams, FUNDRAISE_LEN};
use fundraiser::state::{i64_of_bits, i64_to_bits, Prefix, SetInner, Space};

fn program_id() -> Pubkey {
    pinocchio_pubkey::from_str("961YdRKb41e47DoC8JM973Xp52dVQ1NQ3P4bUm82eT8D")
}

fn ids() -> ProgramIds {
    ProgramIds {
        program: program_id(),
        system: pinocchio_system::ID.to_bytes(),
        token: pinocchio_token::ID.to_bytes(),
        token_2022: pinocchio_token_2022::ID.to_bytes(),
        associated_token: pinocchio_associated_token_account::ID.to_bytes(),
    }
}

#[test]
fn fundraise_codec_round_trip() {
    let record = Fundraise {
        maker: [5u8; 32],
        mint_to_raise: [6u8; 32],
        amount_to_raise: 5_000_000,
        current_amount: 123_456,
        time_started: -12_345,
        duration: 30,
        bump: 251,
    };
    let bytes = record.to_bytes();
    assert_eq!(bytes.len(), FUNDRAISE_LEN);
    let loaded = Fundraise::load(&bytes).unwrap();
    assert_eq!(loaded.maker, [5u8; 32]);
    assert_eq!(loaded.mint_to_raise, [6u8; 32]);
    assert_eq!(loaded.get_amount_to_raise(), 5_000_000);
    assert_eq!(loaded.get_current_amount(), 123_456);
    assert_eq!(loaded.get_time_started(), -12_345);
    assert_eq!(loaded.get_duration(), 30);
    assert_eq!(loaded.bump, 251);
}

#[test]
fn contributor_codec_round_trip() {
    let record = Contributor { fundraise: [7u8; 32], authority: [8u8; 32], amount: 42, bump: 250 };
    let bytes = record.to_bytes();
    assert_eq!(bytes.len(), CONTRIBUTOR_LEN);
    let loaded = Contributor::load(&bytes).unwrap();
    assert_eq!(loaded.fundraise, [7u8; 32]);
    assert_eq!(loaded.authority, [8u8; 32]);
    assert_eq!(loaded.get_amount(), 42);
    assert_eq!(loaded.bump, 250);
}

#[test]
fn load_rejects_wrong_sizes() {
    assert_eq!(
        Fundraise::load(&vec![0u8; FUNDRAISE_LEN - 1]).err(),
        Some(ProgramFailure::InvalidAccountData)
    );
    assert_eq!(
        Fundraise::load(&vec![0u8; FUNDRAISE_LEN + 1]).err(),
        Some(ProgramFailure::InvalidAccountData)
    );
    assert_eq!(
        Contributor::load(&vec![0u8; 1]).err(),
        Some(ProgramFailure::InvalidAccountData)
    );
}

#[test]
fn set_inner_resets_running_amounts() {
    let mut record = Fundraise {
        maker: [0u8; 32],
        mint_to_raise: [0u8; 32],
        amount_to_raise: 0,
        current_amount: 999,
        time_started: 0,
        duration: 0,
        bump: 0,
    };
    record.set_inner(FundraiseParams::new([1u8; 32], [2u8; 32], 5_000_000, 77, 30, 249));
    assert_eq!(record.maker, [1u8; 32]);
    assert_eq!(record.mint_to_raise, [2u8; 32]);
    assert_eq!(record.get_amount_to_raise(), 5_000_000);
    assert_eq!(record.get_current_amount(), 0);
    assert_eq!(record.get_time_started(), 77);
    assert_eq!(record.get_duration(), 30);
    assert_eq!(record.bump, 249);

    let mut contribution =
        Contributor { fundraise: [0u8; 32], authority: [0u8; 32], amount: 999, bump: 0 };
    contribution.set_inner(ContributorParams::new([3u8; 32], [4u8; 32], 248));
    assert_eq!(contribution.fundraise, [3u8; 32]);
    assert_eq!(contribution.authority, [4u8; 32]);
    assert_eq!(contribution.get_amount(), 0);
    assert_eq!(contribution.bump, 248);
}

#[test]
fn record_labels_and_sizes() {
    assert_eq!(Fundraise::prefix(), b"fundraise".to_vec());
    assert_eq!(Contributor::prefix(), b"contributor".to_vec());
    assert_eq!(Fundraise::len(), FUNDRAISE_LEN);
    assert_eq!(Contributor::len(), CONTRIBUTOR_LEN);
}

#[test]
fn signed_time_bit_patterns_round_trip() {
    assert_eq!(i64_to_bits(-1), u64::MAX);
    assert_eq!(i64_to_bits(0), 0);
    assert_eq!(i64_to_bits(1_700_000_000), 1_700_000_000);
    assert_eq!(i64_of_bits(u64::MAX), -1);
    assert_eq!(i64_of_bits(i64_to_bits(i64::MIN)), i64::MIN);
    assert_eq!(i64_of_bits(i64_to_bits(i64::MAX)), i64::MAX);
}

#[test]
fn error_codes_and_descriptions_are_stable() {
    let table: Vec<(FundraiserError, u32, &str)> = vec![
        (FundraiserError::NotSigner, 0, "Account is not a signer"),
        (FundraiserError::InvalidAddress, 1, "Account address is invalid"),
        (FundraiserError::TargetNotMet, 2, "The amount to raise has not been met"),
        (FundraiserError::TargetMet, 3, "The amount to raise has been achieved"),
        (FundraiserError::ContributionTooBig, 4, "The contribution is too big"),
        (FundraiserError::ContributionTooSmall, 5, "The contribution is too small"),
        (
            FundraiserError::MaximumContributionsReached,
            6,
            "The maximum amount to contribute has been reached",
        ),
        (FundraiserError::FundraiserNotEnded, 7, "The fundraiser has not ended yet"),
        (FundraiserError::FundraiserEnded, 8, "The fundraiser has ended"),
        (FundraiserError::InvalidAmount, 9, "Invalid total amount. i should be bigger than 3"),
        (FundraiserError::InvalidMintToRaise, 10, "Mint to raise does not match"),
        (
            FundraiserError::BelowMinRaiseAmount,
            11,
            "The amount to raise is below the minimum required",
        ),
    ];
    for (error, code, text) in table {
        assert_eq!(error.code(), code);
        assert_eq!(error.to_str(), text);
    }
}

#[test]
fn validate_re_derives_record_addresses() {
    let maker: Pubkey = [9u8; 32];
    let bump: u8 = 247;
    let expected = pinocchio_pubkey::derive_address_const(
        &[b"fundraise", maker.as_slice()],
        Some(bump),
        &program_id(),
    );
    let seeds: Vec<Vec<u8>> = vec![b"fundraise".to_vec(), maker.to_vec()];
    assert!(ProgramAccount::validate(&seeds, bump, &expected, &ids()).is_ok());
    // Any other address, the wrong bump, or different seeds are rejected.
    assert_eq!(
        ProgramAccount::validate(&seeds, bump, &[1u8; 32], &ids()).err(),
        Some(ProgramFailure::Fundraiser(FundraiserError::InvalidAddress))
    );
    assert_eq!(
        ProgramAccount::validate(&seeds, bump.wrapping_add(1), &expected, &ids()).err(),
        Some(ProgramFailure::Fundraiser(FundraiserError::InvalidAddress))
    );
    let other_seeds: Vec<Vec<u8>> = vec![b"contributor".to_vec(), maker.to_vec()];
    assert_eq!(
        ProgramAccount::validate(&other_seeds, bump, &expected, &ids()).err(),
        Some(ProgramFailure::Fundraiser(FundraiserError::InvalidAddress))
    );
    // Three-seed derivations follow the same discipline.
    let campaign: Pubkey = expected;
    let authority: Pubkey = [4u8; 32];
    let c_expected = pinocchio_pubkey::derive_address_const(
        &[b"contributor", campaign.as_slice(), authority.as_slice()],
        Some(bump),
        &program_id(),
    );
    let c_seeds: Vec<Vec<u8>> =
        vec![b"contributor".to_vec(), campaign.to_vec(), authority.to_vec()];
    assert!(ProgramAccount::validate(&c_seeds, bump, &c_expected, &ids()).is_ok());
}

#[test]
fn derivation_is_deterministic() {
    let maker: Pubkey = [9u8; 32];
    let a = pinocchio_pubkey::derive_address_const(
        &[b"fundraise", maker.as_slice()],
        Some(255),
        &program_id(),
    );
    let b = pinocchio_pubkey::derive_address_const(
        &[b"fundraise", maker.as_slice()],
        Some(255),
        &program_id(),
    );
    assert_eq!(a, b);
    assert!(pubkey_eq(&a, &b));
}

#[test]
fn contribution_cap_is_a_basis_point_fraction() {
    assert_eq!(contribution_cap_value(5_000_000), 500_000);
    assert_eq!(contribution_cap_value(0), 0);
    assert_eq!(contribution_cap_value(9), 0);
    assert_eq!(contribution_cap_value(10_000), 1_000);
    assert_eq!(contribution_cap_value(u64::MAX), u64::MAX / 10);
}

#[test]
fn checked_pow_matches_exact_powers() {
    assert_eq!(checked_pow_u64(3, 0), Some(1));
    assert_eq!(checked_pow_u64(3, 6), Some(729));
    assert_eq!(checked_pow_u64(1, 9), Some(1));
    assert_eq!(checked_pow_u64(0, 3), Some(0));
    assert_eq!(checked_pow_u64(3, 40), Some(12_157_665_459_056_928_801));
    assert_eq!(checked_pow_u64(3, 41), None);
}

#[test]
fn close_tombstones_the_record() {
    let mut record = AccountState {
        key: [1u8; 32],
        owner: program_id(),
        is_signer: false,
        lamports: 1_500_000,
        data: vec![7u8; CONTRIBUTOR_LEN],
    };
    let mut destination = AccountState {
        key: [2u8; 32],
        owner: pinocchio_system::ID.to_bytes(),
        is_signer: true,
        lamports: 1_000_000,
        data: Vec::new(),
    };
    ProgramAccount::close(&mut record, &mut destination);
    assert_eq!(record.data, vec![0xffu8]);
    assert_eq!(record.lamports, 0);
    assert_eq!(destination.lamports, 2_500_000);
    // The tombstone no longer matches the record's declared shape.
    assert!(Contributor::load(&record.data).is_err());
}

#[test]
fn mint_shapes_under_both_variants() {
    let mut base = vec![0u8; 82];
    base[44] = 9;
    let legacy = AccountState {
        key: [1u8; 32],
        owner: pinocchio_token::ID.to_bytes(),
        is_signer: false,
        lamports: 1,
        data: base.clone(),
    };
    assert!(MintInterface::check(&legacy, &ids()).is_ok());
    assert_eq!(MintInterface::decimals(&legacy, &ids()), Ok(9));

    // An extended-variant mint carrying extensions marks itself with the
    // mint record-kind byte just past the base holding-account length.
    let mut extended_data = vec![0u8; 170];
    extended_data[44] = 2;
    extended_data[165] = 0x01;
    let extended = AccountState {
        key: [1u8; 32],
        owner: pinocchio_token_2022::ID.to_bytes(),
        is_signer: false,
        lamports: 1,
        data: extended_data.clone(),
    };
    assert!(MintInterface::check(&extended, &ids()).is_ok());
    assert_eq!(MintInterface::decimals(&extended, &ids()), Ok(2));

    let mut wrong_kind = extended_data;
    wrong_kind[165] = 0x02;
    let wrong = AccountState {
        key: [1u8; 32],
        owner: pinocchio_token_2022::ID.to_bytes(),
        is_signer: false,
        lamports: 1,
        data: wrong_kind,
    };
    assert_eq!(MintInterface::check(&wrong, &ids()).err(), Some(ProgramFailure::InvalidAccountData));

    let foreign = AccountState {
        key: [1u8; 32],
        owner: [3u8; 32],
        is_signer: false,
        lamports: 1,
        data: base,
    };
    assert_eq!(
        MintInterface::check(&foreign, &ids()).err(),
        Some(ProgramFailure::InvalidAccountOwner)
    );
    assert_eq!(
        MintInterface::decimals(&foreign, &ids()).err(),
        Some(ProgramFailure::IncorrectProgramId)
    );
}

#[test]
fn holding_account_balance_is_read_little_endian() {
    let mut data = vec![0u8; 165];
    data[64..72].copy_from_slice(&777_u64.to_le_bytes());
    let account = AccountState {
        key: [1u8; 32],
        owner: pinocchio_token::ID.to_bytes(),
        is_signer: false,
        lamports: 1,
        data,
    };
    assert!(TokenAccountInterface::check(&account, &ids()).is_ok());
    assert_eq!(TokenAccountInterface::amount(&account, &ids()), Ok(777));
}

#[test]
fn variant_specific_checks() {
    let legacy_mint = AccountState {
        key: [1u8; 32],
        owner: pinocchio_token::ID.to_bytes(),
        is_signer: false,
        lamports: 1,
        data: vec![0u8; 82],
    };
    assert!(MintAccount::check(&legacy_mint, &ids()).is_ok());
    assert_eq!(
        Mint2022Account::check(&legacy_mint, &ids()).err(),
        Some(ProgramFailure::InvalidAccountOwner)
    );

    let mut extended_mint = legacy_mint.clone();
    extended_mint.owner = pinocchio_token_2022::ID.to_bytes();
    assert!(Mint2022Account::check(&extended_mint, &ids()).is_ok());
    assert_eq!(
        MintAccount::check(&extended_mint, &ids()).err(),
        Some(ProgramFailure::InvalidAccountOwner)
    );

    let legacy_holding = AccountState {
        key: [1u8; 32],
        owner: pinocchio_token::ID.to_bytes(),
        is_signer: false,
        lamports: 1,
        data: vec![0u8; 165],
    };
    assert!(TokenAccount::check(&legacy_holding, &ids()).is_ok());

    // An extended holding account with extensions marks itself with the
    // holding-account record-kind byte.
    let mut extended_data = vec![0u8; 170];
    extended_data[165] = 0x02;
    let extended_holding = AccountState {
        key: [1u8; 32],
        owner: pinocchio_token_2022::ID.to_bytes(),
        is_signer: false,
        lamports: 1,
        data: extended_data,
    };
    assert!(TokenAccount2022Account::check(&extended_holding, &ids()).is_ok());

    let mut truncated = legacy_holding.clone();
    truncated.data.pop();
    assert_eq!(
        TokenAccount::check(&truncated, &ids()).err(),
        Some(ProgramFailure::InvalidAccountData)
    );
}

#[test]
fn balance_of_foreign_owned_account_is_refused() {
    let mut data = vec![0u8; 165];
    data[64..72].copy_from_slice(&5_u64.to_le_bytes());
    let account = AccountState {
        key: [1u8; 32],
        owner: [9u8; 32],
        is_signer: false,
        lamports: 1,
        data,
    };
    assert_eq!(
        TokenAccountInterface::amount(&account, &ids()).err(),
        Some(ProgramFailure::IncorrectProgramId)
    );
}

#[test]
fn signer_and_system_checks() {
    let mut account = AccountState {
        key: [1u8; 32],
        owner: pinocchio_system::ID.to_bytes(),
        is_signer: true,
        lamports: 1,
        data: Vec::new(),
    };
    assert!(SignerAccount::check(&account, &ids()).is_ok());
    assert!(SystemAccount::check(&account, &ids()).is_ok());
    account.is_signer = false;
    account.owner = [9u8; 32];
    assert_eq!(
        SignerAccount::check(&account, &ids()).err(),
        Some(ProgramFailure::Fundraiser(FundraiserError::NotSigner))
    );
    assert_eq!(
        SystemAccount::check(&account, &ids()).err(),
        Some(ProgramFailure::InvalidAccountOwner)
    );
}
