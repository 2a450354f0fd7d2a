//! End-to-end scenarios for the instruction decision core, driven through
//! the dispatcher with account snapshots built the way the host runtime
//! would present them.
use fundraiser::accounts::{AccountState, ProgramIds, Pubkey};
use fundraiser::errors::{FundraiserError, ProgramFailure};
use fundraiser::instructions::HostContext;
use fundraiser::{process_instruction, InstructionEffects};

const NOW: i64 = 1_700_000_000;
const ONE_DAY: u64 = 86_400;
const RECORD_BUMP: u8 = 255;
const AUTHORITY_ATA_BUMP: u8 = 254;
const VAULT_BUMP: u8 = 253;
const MAKER_ATA_BUMP: u8 = 252;

fn program_id() -> Pubkey {
    pinocchio_pubkey::from_str("961YdRKb41e47DoC8JM973Xp52dVQ1NQ3P4bUm82eT8D")
}

fn ids() -> ProgramIds {
    ProgramIds {
        program: program_id(),
        system: pinocchio_system::ID.to_bytes(),
        token: pinocchio_token::ID.to_bytes(),
        token_2022: pinocchio_token_2022::ID.to_bytes(),
        associated_token: pinocchio_associated_token_account::ID.to_bytes(),
    }
}

fn wallet(key: Pubkey, is_signer: bool) -> AccountState {
    AccountState {
        key,
        owner: pinocchio_system::ID.to_bytes(),
        is_signer,
        lamports: 1_000_000_000,
        data: Vec::new(),
    }
}

fn program_marker(key: Pubkey) -> AccountState {
    AccountState { key, owner: [0u8; 32], is_signer: false, lamports: 1, data: Vec::new() }
}

fn mint_account(key: Pubkey, decimals: u8) -> AccountState {
    let mut data = vec![0u8; 82];
    data[44] = decimals;
    AccountState {
        key,
        owner: pinocchio_token::ID.to_bytes(),
        is_signer: false,
        lamports: 1_000_000,
        data,
    }
}

fn token_account(key: Pubkey, mint: Pubkey, owner: Pubkey, amount: u64) -> AccountState {
    let mut data = vec![0u8; 165];
    data[0..32].copy_from_slice(&mint);
    data[32..64].copy_from_slice(&owner);
    data[64..72].copy_from_slice(&amount.to_le_bytes());
    AccountState {
        key,
        owner: pinocchio_token::ID.to_bytes(),
        is_signer: false,
        lamports: 2_000_000,
        data,
    }
}

fn fundraise_pda(maker: &Pubkey) -> Pubkey {
    pinocchio_pubkey::derive_address_const(
        &[b"fundraise", maker.as_slice()],
        Some(RECORD_BUMP),
        &program_id(),
    )
}

fn contributor_pda(fundraise: &Pubkey, authority: &Pubkey) -> Pubkey {
    pinocchio_pubkey::derive_address_const(
        &[b"contributor", fundraise.as_slice(), authority.as_slice()],
        Some(RECORD_BUMP),
        &program_id(),
    )
}

fn ata_address(owner: &Pubkey, mint: &Pubkey, bump: u8) -> Pubkey {
    pinocchio_pubkey::derive_address_const(
        &[
            owner.as_slice(),
            pinocchio_token::ID.to_bytes().as_slice(),
            mint.as_slice(),
        ],
        Some(bump),
        &pinocchio_associated_token_account::ID.to_bytes(),
    )
}

fn ctx_at(now: i64) -> HostContext {
    HostContext {
        now,
        record_bump: RECORD_BUMP,
        authority_ata_bump: AUTHORITY_ATA_BUMP,
        vault_bump: VAULT_BUMP,
        maker_ata_bump: MAKER_ATA_BUMP,
    }
}

fn initialize_data(amount_to_raise: u64, duration: u64) -> Vec<u8> {
    let mut data = vec![0u8];
    data.extend_from_slice(&amount_to_raise.to_le_bytes());
    data.extend_from_slice(&duration.to_le_bytes());
    data
}

fn contribute_data(amount: u64) -> Vec<u8> {
    let mut data = vec![1u8];
    data.extend_from_slice(&amount.to_le_bytes());
    data
}

fn initialize_accounts(
    maker: Pubkey,
    mint: Pubkey,
    vault_amount: u64,
) -> Vec<AccountState> {
    let f_pda = fundraise_pda(&maker);
    let vault_key = ata_address(&f_pda, &mint, VAULT_BUMP);
    vec![
        wallet(maker, true),
        mint_account(mint, 6),
        wallet(f_pda, false),
        token_account(vault_key, mint, f_pda, vault_amount),
        program_marker(pinocchio_system::ID.to_bytes()),
        program_marker(pinocchio_token::ID.to_bytes()),
        program_marker(pinocchio_associated_token_account::ID.to_bytes()),
    ]
}

/// Runs Initialize and returns the campaign record account it would leave
/// behind, plus the stored record's serialized bytes.
fn initialized_fundraise_account(
    maker: Pubkey,
    mint: Pubkey,
    amount_to_raise: u64,
    duration: u64,
) -> AccountState {
    let accounts = initialize_accounts(maker, mint, 0);
    let r = process_instruction(
        &accounts,
        &initialize_data(amount_to_raise, duration),
        &ctx_at(NOW),
        &ids(),
    );
    let record = match r {
        Ok(InstructionEffects::Initialize(e)) => e.fundraise,
        _ => panic!("initialize failed"),
    };
    AccountState {
        key: fundraise_pda(&maker),
        owner: program_id(),
        is_signer: false,
        lamports: 2_000_000,
        data: record.to_bytes(),
    }
}

fn contribute_accounts(
    authority: Pubkey,
    mint: Pubkey,
    fundraise: AccountState,
    contributor: AccountState,
    vault_amount: u64,
) -> Vec<AccountState> {
    let f_pda = fundraise.key;
    let authority_ata = ata_address(&authority, &mint, AUTHORITY_ATA_BUMP);
    let vault_key = ata_address(&f_pda, &mint, VAULT_BUMP);
    vec![
        wallet(authority, true),
        mint_account(mint, 6),
        fundraise,
        contributor,
        token_account(authority_ata, mint, authority, 1_000_000_000),
        token_account(vault_key, mint, f_pda, vault_amount),
        program_marker(pinocchio_system::ID.to_bytes()),
        program_marker(pinocchio_token::ID.to_bytes()),
    ]
}

fn fresh_contributor(fundraise: &Pubkey, authority: &Pubkey) -> AccountState {
    wallet(contributor_pda(fundraise, authority), false)
}

fn read_le_u64(data: &[u8], offset: usize) -> u64 {
    let mut raw = [0u8; 8];
    raw.copy_from_slice(&data[offset..offset + 8]);
    u64::from_le_bytes(raw)
}

#[test]
fn initialize() {
    let maker: Pubkey = [1u8; 32];
    let mint: Pubkey = [2u8; 32];
    let amount_to_raise: u64 = 5_000_000;
    let duration: u64 = ONE_DAY;
    let accounts = initialize_accounts(maker, mint, 0);
    let r = process_instruction(
        &accounts,
        &initialize_data(amount_to_raise, duration),
        &ctx_at(NOW),
        &ids(),
    );
    match r {
        Ok(InstructionEffects::Initialize(e)) => {
            assert_eq!(e.fundraise.maker, maker);
            assert_eq!(e.fundraise.mint_to_raise, mint);
            assert_eq!(e.fundraise.get_amount_to_raise(), amount_to_raise);
            assert_eq!(e.fundraise.get_time_started(), NOW);
            assert_eq!(e.fundraise.get_duration(), duration);
            assert_eq!(e.create_fundraise.address, fundraise_pda(&maker));
            assert_eq!(e.create_vault.address, ata_address(&fundraise_pda(&maker), &mint, VAULT_BUMP));
        },
        _ => panic!("initialize failed"),
    }
}

#[test]
fn contribute() {
    let maker: Pubkey = [1u8; 32];
    let authority: Pubkey = [3u8; 32];
    let mint: Pubkey = [2u8; 32];
    let fundraise = initialized_fundraise_account(maker, mint, 5_000_000, ONE_DAY);
    let f_pda = fundraise.key;
    let pre_current = read_le_u64(&fundraise.data, 72);
    let contribute_amount: u64 = 500_000;
    let contributor = fresh_contributor(&f_pda, &authority);
    let c_pda = contributor.key;
    let accounts = contribute_accounts(authority, mint, fundraise, contributor, 0);
    let pre_vault = read_le_u64(&accounts[5].data, 64);
    let pre_authority_ata = read_le_u64(&accounts[4].data, 64);
    let r = process_instruction(&accounts, &contribute_data(contribute_amount), &ctx_at(NOW), &ids());
    match r {
        Ok(InstructionEffects::Contribute(e)) => {
            assert_eq!(e.contributor.fundraise, f_pda);
            assert_eq!(e.contributor.authority, authority);
            assert_eq!(e.contributor.get_amount(), contribute_amount);
            assert_eq!(pre_current, e.fundraise.get_current_amount() - contribute_amount);
            let create = e.create_contributor.expect("first deposit creates the record");
            assert_eq!(create.address, c_pda);
            assert_eq!(e.transfer.amount, contribute_amount);
            assert_eq!(pre_authority_ata, (pre_authority_ata - e.transfer.amount) + contribute_amount);
            assert_eq!(e.transfer.to, accounts[5].key);
            assert_eq!(e.transfer.from, accounts[4].key);
            assert_eq!(pre_vault + e.transfer.amount, contribute_amount);
        },
        _ => panic!("contribute failed"),
    }
}

#[test]
fn claim() {
    let maker: Pubkey = [1u8; 32];
    let authority: Pubkey = [3u8; 32];
    let mint: Pubkey = [2u8; 32];
    let fundraise = initialized_fundraise_account(maker, mint, 5_000_000, ONE_DAY);
    let f_pda = fundraise.key;

    // A single deposit of the whole 5_000_000 target breaches the
    // per-contributor cap, so it is rejected and the vault stays empty.
    let contributor = fresh_contributor(&f_pda, &authority);
    let caccounts = contribute_accounts(authority, mint, fundraise.clone(), contributor, 0);
    let r = process_instruction(&caccounts, &contribute_data(5_000_000), &ctx_at(NOW), &ids());
    assert_eq!(
        r.err(),
        Some(ProgramFailure::Fundraiser(FundraiserError::ContributionTooBig))
    );

    // An hour later the maker tries to claim; the empty vault is below the
    // target, so the claim fails and the vault balance is still zero.
    let vault_key = ata_address(&f_pda, &mint, VAULT_BUMP);
    let vault = token_account(vault_key, mint, f_pda, 0);
    let maker_ata = ata_address(&maker, &mint, MAKER_ATA_BUMP);
    let accounts = vec![
        wallet(maker, true),
        mint_account(mint, 6),
        fundraise,
        vault,
        wallet(maker_ata, false),
        program_marker(pinocchio_system::ID.to_bytes()),
        program_marker(pinocchio_token::ID.to_bytes()),
        program_marker(pinocchio_associated_token_account::ID.to_bytes()),
    ];
    let r = process_instruction(&accounts, &vec![3u8], &ctx_at(NOW + 3600), &ids());
    assert_eq!(
        r.err(),
        Some(ProgramFailure::Fundraiser(FundraiserError::TargetNotMet))
    );
    let vault_bal = read_le_u64(&accounts[3].data, 64);
    assert_eq!(vault_bal, 0);
}

#[test]
fn refund() {
    let maker: Pubkey = [1u8; 32];
    let authority: Pubkey = [3u8; 32];
    let mint: Pubkey = [2u8; 32];
    let fundraise = initialized_fundraise_account(maker, mint, 5_000_000, ONE_DAY);
    let f_pda = fundraise.key;
    let contribute_amount: u64 = 500_000;
    let contributor = fresh_contributor(&f_pda, &authority);
    let caccounts =
        contribute_accounts(authority, mint, fundraise, contributor, 0);
    let r = process_instruction(&caccounts, &contribute_data(contribute_amount), &ctx_at(NOW), &ids());
    let (fundraise_record, contributor_record) = match r {
        Ok(InstructionEffects::Contribute(e)) => (e.fundraise, e.contributor),
        _ => panic!("contribute failed"),
    };

    // An hour later, with the target unmet, the contributor asks for their
    // deposit back.
    let pre_current = fundraise_record.get_current_amount();
    let contributor_amount = contributor_record.get_amount();
    let fundraise_account = AccountState {
        key: f_pda,
        owner: program_id(),
        is_signer: false,
        lamports: 2_000_000,
        data: fundraise_record.to_bytes(),
    };
    let contributor_account = AccountState {
        key: contributor_pda(&f_pda, &authority),
        owner: program_id(),
        is_signer: false,
        lamports: 1_500_000,
        data: contributor_record.to_bytes(),
    };
    let authority_ata = ata_address(&authority, &mint, AUTHORITY_ATA_BUMP);
    let vault_key = ata_address(&f_pda, &mint, VAULT_BUMP);
    let accounts = vec![
        wallet(authority, true),
        wallet(maker, false),
        mint_account(mint, 6),
        fundraise_account,
        contributor_account,
        token_account(authority_ata, mint, authority, 999_500_000),
        token_account(vault_key, mint, f_pda, contribute_amount),
        program_marker(pinocchio_system::ID.to_bytes()),
        program_marker(pinocchio_token::ID.to_bytes()),
    ];
    let r = process_instruction(&accounts, &vec![2u8], &ctx_at(NOW + 3600), &ids());
    match r {
        Ok(InstructionEffects::Refund(e)) => {
            assert_eq!(pre_current, e.fundraise.get_current_amount() + contributor_amount);
            // The contribution record is closed: a second refund can never
            // find it in its expected shape again.
            assert_eq!(e.close_contributor.address, contributor_pda(&f_pda, &authority));
            assert_eq!(e.close_contributor.destination, authority);
            // The refund drains the vault to zero, so the vault is closed
            // with its rent going back to the maker.
            let close_vault = e.close_vault.expect("vault drained to zero closes it");
            assert_eq!(close_vault.address, vault_key);
            assert_eq!(close_vault.destination, maker);
            assert_eq!(e.transfer.amount, contributor_amount);
            assert_eq!(e.transfer.from, vault_key);
            assert_eq!(e.transfer.to, authority_ata);
        },
        _ => panic!("refund failed"),
    }
}

#[test]
fn contribute_of_one_base_unit_is_too_small() {
    let maker: Pubkey = [1u8; 32];
    let authority: Pubkey = [3u8; 32];
    let mint: Pubkey = [2u8; 32];
    let fundraise = initialized_fundraise_account(maker, mint, 5_000_000, ONE_DAY);
    let contributor = fresh_contributor(&fundraise.key, &authority);
    let accounts = contribute_accounts(authority, mint, fundraise, contributor, 0);
    let r = process_instruction(&accounts, &contribute_data(1), &ctx_at(NOW), &ids());
    assert_eq!(
        r.err(),
        Some(ProgramFailure::Fundraiser(FundraiserError::ContributionTooSmall))
    );
}

#[test]
fn cumulative_contributions_over_cap_are_rejected() {
    let maker: Pubkey = [1u8; 32];
    let authority: Pubkey = [3u8; 32];
    let mint: Pubkey = [2u8; 32];
    let fundraise = initialized_fundraise_account(maker, mint, 5_000_000, ONE_DAY);
    let f_pda = fundraise.key;
    let contributor = fresh_contributor(&f_pda, &authority);
    let accounts = contribute_accounts(authority, mint, fundraise, contributor, 0);
    let r = process_instruction(&accounts, &contribute_data(400_000), &ctx_at(NOW), &ids());
    let (fundraise_record, contributor_record) = match r {
        Ok(InstructionEffects::Contribute(e)) => (e.fundraise, e.contributor),
        _ => panic!("first contribute failed"),
    };

    // The second deposit would push the cumulative amount to 600_000,
    // over the 10% cap of the 5_000_000 target.
    let fundraise_account = AccountState {
        key: f_pda,
        owner: program_id(),
        is_signer: false,
        lamports: 2_000_000,
        data: fundraise_record.to_bytes(),
    };
    let contributor_account = AccountState {
        key: contributor_pda(&f_pda, &authority),
        owner: program_id(),
        is_signer: false,
        lamports: 1_500_000,
        data: contributor_record.to_bytes(),
    };
    let accounts =
        contribute_accounts(authority, mint, fundraise_account, contributor_account, 400_000);
    let r = process_instruction(&accounts, &contribute_data(200_000), &ctx_at(NOW), &ids());
    assert_eq!(
        r.err(),
        Some(ProgramFailure::Fundraiser(FundraiserError::MaximumContributionsReached))
    );
}

#[test]
fn claim_succeeds_once_target_met() {
    let maker: Pubkey = [1u8; 32];
    let mint: Pubkey = [2u8; 32];
    let fundraise = initialized_fundraise_account(maker, mint, 5_000_000, ONE_DAY);
    let f_pda = fundraise.key;
    let vault_key = ata_address(&f_pda, &mint, VAULT_BUMP);
    let vault = token_account(vault_key, mint, f_pda, 5_000_000);
    let maker_ata = ata_address(&maker, &mint, MAKER_ATA_BUMP);
    let accounts = vec![
        wallet(maker, true),
        mint_account(mint, 6),
        fundraise,
        vault,
        token_account(maker_ata, mint, maker, 0),
        program_marker(pinocchio_system::ID.to_bytes()),
        program_marker(pinocchio_token::ID.to_bytes()),
        program_marker(pinocchio_associated_token_account::ID.to_bytes()),
    ];
    let r = process_instruction(&accounts, &vec![3u8], &ctx_at(NOW + 3600), &ids());
    match r {
        Ok(InstructionEffects::Claim(e)) => {
            // The whole current vault balance moves to the maker.
            assert_eq!(e.transfer.amount, 5_000_000);
            assert_eq!(e.transfer.from, vault_key);
            assert_eq!(e.transfer.to, maker_ata);
            assert_eq!(e.transfer.authority, f_pda);
            assert!(e.create_maker_token_account.is_none());
        },
        _ => panic!("claim failed"),
    }
}

#[test]
fn refund_after_target_met_fails() {
    let maker: Pubkey = [1u8; 32];
    let authority: Pubkey = [3u8; 32];
    let mint: Pubkey = [2u8; 32];
    let fundraise = initialized_fundraise_account(maker, mint, 5_000_000, ONE_DAY);
    let f_pda = fundraise.key;
    let contributor = fresh_contributor(&f_pda, &authority);
    let accounts = contribute_accounts(authority, mint, fundraise, contributor, 0);
    let r = process_instruction(&accounts, &contribute_data(500_000), &ctx_at(NOW), &ids());
    let (fundraise_record, contributor_record) = match r {
        Ok(InstructionEffects::Contribute(e)) => (e.fundraise, e.contributor),
        _ => panic!("contribute failed"),
    };
    let fundraise_account = AccountState {
        key: f_pda,
        owner: program_id(),
        is_signer: false,
        lamports: 2_000_000,
        data: fundraise_record.to_bytes(),
    };
    let contributor_account = AccountState {
        key: contributor_pda(&f_pda, &authority),
        owner: program_id(),
        is_signer: false,
        lamports: 1_500_000,
        data: contributor_record.to_bytes(),
    };
    let authority_ata = ata_address(&authority, &mint, AUTHORITY_ATA_BUMP);
    let vault_key = ata_address(&f_pda, &mint, VAULT_BUMP);
    let accounts = vec![
        wallet(authority, true),
        wallet(maker, false),
        mint_account(mint, 6),
        fundraise_account,
        contributor_account,
        token_account(authority_ata, mint, authority, 0),
        // Other contributors have meanwhile pushed the vault to the target.
        token_account(vault_key, mint, f_pda, 5_000_000),
        program_marker(pinocchio_system::ID.to_bytes()),
        program_marker(pinocchio_token::ID.to_bytes()),
    ];
    let r = process_instruction(&accounts, &vec![2u8], &ctx_at(NOW + 3600), &ids());
    assert_eq!(
        r.err(),
        Some(ProgramFailure::Fundraiser(FundraiserError::TargetMet))
    );
}

#[test]
fn contribute_after_window_closes_fails() {
    let maker: Pubkey = [1u8; 32];
    let authority: Pubkey = [3u8; 32];
    let mint: Pubkey = [2u8; 32];
    let fundraise = initialized_fundraise_account(maker, mint, 5_000_000, 1);
    let contributor = fresh_contributor(&fundraise.key, &authority);
    let accounts = contribute_accounts(authority, mint, fundraise, contributor, 0);
    // Exactly one whole day has elapsed: the one-day window is no longer
    // open (elapsed days == duration).
    let r = process_instruction(
        &accounts,
        &contribute_data(500_000),
        &ctx_at(NOW + ONE_DAY as i64),
        &ids(),
    );
    assert_eq!(
        r.err(),
        Some(ProgramFailure::Fundraiser(FundraiserError::FundraiserEnded))
    );
    // One second before that tick the window is still open.
    let r = process_instruction(
        &accounts,
        &contribute_data(500_000),
        &ctx_at(NOW + ONE_DAY as i64 - 1),
        &ids(),
    );
    assert!(r.is_ok());
}

#[test]
fn refund_window_allows_the_closing_day() {
    let maker: Pubkey = [1u8; 32];
    let authority: Pubkey = [3u8; 32];
    let mint: Pubkey = [2u8; 32];
    let fundraise = initialized_fundraise_account(maker, mint, 5_000_000, 1);
    let f_pda = fundraise.key;
    let contributor = fresh_contributor(&f_pda, &authority);
    let accounts = contribute_accounts(authority, mint, fundraise, contributor, 0);
    let r = process_instruction(&accounts, &contribute_data(500_000), &ctx_at(NOW), &ids());
    let (fundraise_record, contributor_record) = match r {
        Ok(InstructionEffects::Contribute(e)) => (e.fundraise, e.contributor),
        _ => panic!("contribute failed"),
    };
    let fundraise_account = AccountState {
        key: f_pda,
        owner: program_id(),
        is_signer: false,
        lamports: 2_000_000,
        data: fundraise_record.to_bytes(),
    };
    let contributor_account = AccountState {
        key: contributor_pda(&f_pda, &authority),
        owner: program_id(),
        is_signer: false,
        lamports: 1_500_000,
        data: contributor_record.to_bytes(),
    };
    let authority_ata = ata_address(&authority, &mint, AUTHORITY_ATA_BUMP);
    let vault_key = ata_address(&f_pda, &mint, VAULT_BUMP);
    let accounts = vec![
        wallet(authority, true),
        wallet(maker, false),
        mint_account(mint, 6),
        fundraise_account,
        contributor_account,
        token_account(authority_ata, mint, authority, 0),
        token_account(vault_key, mint, f_pda, 500_000),
        program_marker(pinocchio_system::ID.to_bytes()),
        program_marker(pinocchio_token::ID.to_bytes()),
    ];
    // Exactly one whole elapsed day equals the duration: refund is still
    // allowed on the closing boundary.
    let r = process_instruction(&accounts, &vec![2u8], &ctx_at(NOW + ONE_DAY as i64), &ids());
    assert!(r.is_ok());
    // Two whole elapsed days exceed the one-day duration: too late.
    let r = process_instruction(
        &accounts,
        &vec![2u8],
        &ctx_at(NOW + 2 * ONE_DAY as i64),
        &ids(),
    );
    assert_eq!(
        r.err(),
        Some(ProgramFailure::Fundraiser(FundraiserError::FundraiserEnded))
    );
}

#[test]
fn initialize_below_min_raise_floor_fails() {
    let maker: Pubkey = [1u8; 32];
    let mint: Pubkey = [2u8; 32];
    let accounts = initialize_accounts(maker, mint, 0);
    // With 6 decimals the floor is 3^6 = 729; a 729 target is at the floor
    // and rejected, 730 is just above it and accepted.
    let r = process_instruction(&accounts, &initialize_data(729, ONE_DAY), &ctx_at(NOW), &ids());
    assert_eq!(
        r.err(),
        Some(ProgramFailure::Fundraiser(FundraiserError::BelowMinRaiseAmount))
    );
    let r = process_instruction(&accounts, &initialize_data(730, ONE_DAY), &ctx_at(NOW), &ids());
    assert!(r.is_ok());
}

#[test]
fn unsigned_maker_is_rejected() {
    let maker: Pubkey = [1u8; 32];
    let mint: Pubkey = [2u8; 32];
    let mut accounts = initialize_accounts(maker, mint, 0);
    accounts[0].is_signer = false;
    let r = process_instruction(
        &accounts,
        &initialize_data(5_000_000, ONE_DAY),
        &ctx_at(NOW),
        &ids(),
    );
    assert_eq!(
        r.err(),
        Some(ProgramFailure::Fundraiser(FundraiserError::NotSigner))
    );
}

#[test]
fn substituted_campaign_account_is_rejected() {
    let maker: Pubkey = [1u8; 32];
    let mint: Pubkey = [2u8; 32];
    let mut accounts = initialize_accounts(maker, mint, 0);
    // A same-shaped account at a different address is not the derivation of
    // (label, maker, nonce).
    accounts[2].key = [9u8; 32];
    let r = process_instruction(
        &accounts,
        &initialize_data(5_000_000, ONE_DAY),
        &ctx_at(NOW),
        &ids(),
    );
    assert_eq!(
        r.err(),
        Some(ProgramFailure::Fundraiser(FundraiserError::InvalidAddress))
    );
}

#[test]
fn wrong_mint_on_contribute_is_rejected() {
    let maker: Pubkey = [1u8; 32];
    let authority: Pubkey = [3u8; 32];
    let mint: Pubkey = [2u8; 32];
    let other_mint: Pubkey = [7u8; 32];
    let fundraise = initialized_fundraise_account(maker, mint, 5_000_000, ONE_DAY);
    let f_pda = fundraise.key;
    let contributor = fresh_contributor(&f_pda, &authority);
    let authority_ata = ata_address(&authority, &other_mint, AUTHORITY_ATA_BUMP);
    let vault_key = ata_address(&f_pda, &other_mint, VAULT_BUMP);
    let accounts = vec![
        wallet(authority, true),
        mint_account(other_mint, 6),
        fundraise,
        contributor,
        token_account(authority_ata, other_mint, authority, 1_000_000_000),
        token_account(vault_key, other_mint, f_pda, 0),
        program_marker(pinocchio_system::ID.to_bytes()),
        program_marker(pinocchio_token::ID.to_bytes()),
    ];
    let r = process_instruction(&accounts, &contribute_data(500_000), &ctx_at(NOW), &ids());
    assert_eq!(
        r.err(),
        Some(ProgramFailure::Fundraiser(FundraiserError::InvalidMintToRaise))
    );
}

#[test]
fn unknown_discriminator_is_rejected() {
    let maker: Pubkey = [1u8; 32];
    let mint: Pubkey = [2u8; 32];
    let accounts = initialize_accounts(maker, mint, 0);
    let r = process_instruction(&accounts, &vec![9u8], &ctx_at(NOW), &ids());
    assert_eq!(r.err(), Some(ProgramFailure::InvalidInstructionData));
    let r = process_instruction(&accounts, &Vec::new(), &ctx_at(NOW), &ids());
    assert_eq!(r.err(), Some(ProgramFailure::InvalidInstructionData));
}

#[test]
fn missing_accounts_are_rejected() {
    let maker: Pubkey = [1u8; 32];
    let mint: Pubkey = [2u8; 32];
    let mut accounts = initialize_accounts(maker, mint, 0);
    accounts.pop();
    let r = process_instruction(
        &accounts,
        &initialize_data(5_000_000, ONE_DAY),
        &ctx_at(NOW),
        &ids(),
    );
    assert_eq!(r.err(), Some(ProgramFailure::NotEnoughAccountKeys));
}

#[test]
fn malformed_mint_record_is_rejected() {
    let maker: Pubkey = [1u8; 32];
    let mint: Pubkey = [2u8; 32];
    let mut accounts = initialize_accounts(maker, mint, 0);
    accounts[1].data.pop();
    let r = process_instruction(
        &accounts,
        &initialize_data(5_000_000, ONE_DAY),
        &ctx_at(NOW),
        &ids(),
    );
    assert_eq!(r.err(), Some(ProgramFailure::InvalidAccountData));
}

#[test]
fn foreign_owned_campaign_record_is_rejected() {
    let maker: Pubkey = [1u8; 32];
    let authority: Pubkey = [3u8; 32];
    let mint: Pubkey = [2u8; 32];
    let mut fundraise = initialized_fundraise_account(maker, mint, 5_000_000, ONE_DAY);
    fundraise.owner = [8u8; 32];
    let contributor = fresh_contributor(&fundraise.key, &authority);
    let accounts = contribute_accounts(authority, mint, fundraise, contributor, 0);
    let r = process_instruction(&accounts, &contribute_data(500_000), &ctx_at(NOW), &ids());
    assert_eq!(r.err(), Some(ProgramFailure::InvalidAccountOwner));
}

#[test]
fn contribute_overflowing_running_sum_fails() {
    let maker: Pubkey = [1u8; 32];
    let authority: Pubkey = [3u8; 32];
    let mint: Pubkey = [2u8; 32];
    let fundraise = initialized_fundraise_account(maker, mint, u64::MAX, ONE_DAY);
    let f_pda = fundraise.key;
    let r = fundraiser::state::fundraise::Fundraise::load(&fundraise.data).unwrap();
    let mut near_full = r;
    near_full.set_current_amount(u64::MAX - 5);
    let fundraise_account = AccountState {
        key: f_pda,
        owner: program_id(),
        is_signer: false,
        lamports: 2_000_000,
        data: near_full.to_bytes(),
    };
    let contributor = fresh_contributor(&f_pda, &authority);
    let accounts = contribute_accounts(authority, mint, fundraise_account, contributor, 0);
    let r = process_instruction(&accounts, &contribute_data(10), &ctx_at(NOW), &ids());
    assert_eq!(r.err(), Some(ProgramFailure::ArithmeticOverflow));
}

#[test]
fn refund_twice_fails() {
    let maker: Pubkey = [1u8; 32];
    let authority: Pubkey = [3u8; 32];
    let mint: Pubkey = [2u8; 32];
    let fundraise = initialized_fundraise_account(maker, mint, 5_000_000, ONE_DAY);
    let f_pda = fundraise.key;
    let contributor = fresh_contributor(&f_pda, &authority);
    let caccounts = contribute_accounts(authority, mint, fundraise, contributor, 0);
    let r = process_instruction(&caccounts, &contribute_data(500_000), &ctx_at(NOW), &ids());
    let (fundraise_record, contributor_record) = match r {
        Ok(InstructionEffects::Contribute(e)) => (e.fundraise, e.contributor),
        _ => panic!("contribute failed"),
    };
    let fundraise_account = AccountState {
        key: f_pda,
        owner: program_id(),
        is_signer: false,
        lamports: 2_000_000,
        data: fundraise_record.to_bytes(),
    };
    let contributor_account = AccountState {
        key: contributor_pda(&f_pda, &authority),
        owner: program_id(),
        is_signer: false,
        lamports: 1_500_000,
        data: contributor_record.to_bytes(),
    };
    let authority_ata = ata_address(&authority, &mint, AUTHORITY_ATA_BUMP);
    let vault_key = ata_address(&f_pda, &mint, VAULT_BUMP);
    let mut accounts = vec![
        wallet(authority, true),
        wallet(maker, false),
        mint_account(mint, 6),
        fundraise_account,
        contributor_account,
        token_account(authority_ata, mint, authority, 0),
        token_account(vault_key, mint, f_pda, 500_000),
        program_marker(pinocchio_system::ID.to_bytes()),
        program_marker(pinocchio_token::ID.to_bytes()),
    ];
    let r = process_instruction(&accounts, &vec![2u8], &ctx_at(NOW + 3600), &ids());
    let refunded = match r {
        Ok(InstructionEffects::Refund(e)) => e,
        _ => panic!("first refund failed"),
    };

    // Apply the effects of the first refund: the campaign record shrinks,
    // the vault is drained, and the contribution record is closed down to
    // its one-byte tombstone.
    accounts[3].data = refunded.fundraise.to_bytes();
    accounts[4].data = vec![0xffu8];
    accounts[4].lamports = 0;
    accounts[6].data = token_account(vault_key, mint, f_pda, 0).data;
    let r = process_instruction(&accounts, &vec![2u8], &ctx_at(NOW + 3600), &ids());
    assert!(r.is_err());
}
