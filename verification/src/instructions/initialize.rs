//! Initialize: a maker opens a campaign with a fixed target and window.
//!
//! Effects: create the campaign record (rent-funded by the maker), create
//! the custodial vault owned by the campaign's derived authority, and store
//! the campaign's fields with the wall clock stamped as its start time.
use vstd::prelude::*;
use vstd::bytes::{spec_u64_from_le_bytes, u64_from_le_bytes};
use vstd::slice::slice_subrange;
use vstd::arithmetic::power::pow;
use crate::accounts::{pubkey_eq, AccountState, ProgramIds};
use crate::constants::MIN_AMOUNT_TO_RAISE;
use crate::errors::{FundraiserError, ProgramFailure};
use crate::helpers::mint_interface::MintInterface;
use crate::helpers::signer::SignerAccount;
use crate::helpers::AccountCheck;
use crate::instructions::{CreateAccountRequest, CreateVaultRequest, HostContext};
use crate::pda::{derive_address_2, derived_address};
use crate::rules::checked_pow_u64;
use crate::state::fundraise::{fundraise_prefix, fundraise_prefix_bytes, Fundraise, FUNDRAISE_LEN};

verus! {

/// The account list of an Initialize call, in order.
pub struct InitializeAccounts<'a> {
    pub maker: &'a AccountState,
    pub mint_to_raise: &'a AccountState,
    pub fundraise: &'a AccountState,
    pub vault: &'a AccountState,
    pub system_program: &'a AccountState,
    pub token_program: &'a AccountState,
    pub associated_token_program: &'a AccountState,
}

/// The capability checks an Initialize account list must pass, in order:
/// exactly seven accounts, a signing maker, and a well-shaped mint under
/// either transfer variant.
pub open spec fn initialize_accounts_check(
    accounts: Seq<AccountState>,
    ids: ProgramIds,
) -> Result<(), ProgramFailure> {
    if accounts.len() != 7 {
        Err(ProgramFailure::NotEnoughAccountKeys)
    } else {
        match SignerAccount::check_spec(accounts[0], ids) {
            Err(e) => Err(e),
            Ok(_) => match MintInterface::check_spec(accounts[1], ids) {
                Err(e) => Err(e),
                Ok(_) => Ok(()),
            },
        }
    }
}

impl<'a> InitializeAccounts<'a> {
    /// Destructures and validates the account list.
    pub fn try_from(accounts: &'a Vec<AccountState>, ids: &ProgramIds) -> (r: Result<
        InitializeAccounts<'a>,
        ProgramFailure,
    >)
        ensures
            r is Ok <==> initialize_accounts_check(accounts@, *ids) is Ok,
            r matches Err(e) ==> initialize_accounts_check(accounts@, *ids) == Err::<
                (),
                ProgramFailure,
            >(e),
            r matches Ok(s) ==> {
                &&& *s.maker == accounts@[0]
                &&& *s.mint_to_raise == accounts@[1]
                &&& *s.fundraise == accounts@[2]
                &&& *s.vault == accounts@[3]
                &&& *s.system_program == accounts@[4]
                &&& *s.token_program == accounts@[5]
                &&& *s.associated_token_program == accounts@[6]
            },
    {
        if accounts.len() != 7 {
            return Err(ProgramFailure::NotEnoughAccountKeys);
        }
        match SignerAccount::check(&accounts[0], ids) {
            Err(e) => {
                return Err(e);
            },
            Ok(_) => {},
        }
        match MintInterface::check(&accounts[1], ids) {
            Err(e) => {
                return Err(e);
            },
            Ok(_) => {},
        }
        Ok(
            InitializeAccounts {
                maker: &accounts[0],
                mint_to_raise: &accounts[1],
                fundraise: &accounts[2],
                vault: &accounts[3],
                system_program: &accounts[4],
                token_program: &accounts[5],
                associated_token_program: &accounts[6],
            },
        )
    }
}

/// The parsed payload of an Initialize call.
pub struct InitializeInstructionData {
    pub amount_to_raise: u64,
    pub duration: u64,
}

impl InitializeInstructionData {
    /// Parses the fixed-width little-endian payload, failing unless it is
    /// exactly two 8-byte fields.
    pub fn try_from(data: &[u8]) -> (r: Result<InitializeInstructionData, ProgramFailure>)
        ensures
            r is Ok <==> data@.len() == 16,
            r matches Ok(d) ==> {
                &&& d.amount_to_raise == spec_u64_from_le_bytes(data@.subrange(0, 8))
                &&& d.duration == spec_u64_from_le_bytes(data@.subrange(8, 16))
            },
            r matches Err(e) ==> e == ProgramFailure::InvalidInstructionData,
    {
        if data.len() != 16 {
            return Err(ProgramFailure::InvalidInstructionData);
        }
        let amount_to_raise = u64_from_le_bytes(slice_subrange(data, 0, 8));
        let duration = u64_from_le_bytes(slice_subrange(data, 8, 16));
        Ok(InitializeInstructionData { amount_to_raise, duration })
    }
}

/// Everything an Initialize call checks before its business rules run:
/// the account checks, the payload shape, and that the campaign account's
/// address is the derivation of the campaign label and the maker under this
/// program with the host-found nonce.
pub open spec fn initialize_checks(
    accounts: Seq<AccountState>,
    payload: Seq<u8>,
    ctx: HostContext,
    ids: ProgramIds,
) -> Result<(), ProgramFailure> {
    match initialize_accounts_check(accounts, ids) {
        Err(e) => Err(e),
        Ok(_) => if payload.len() != 16 {
            Err(ProgramFailure::InvalidInstructionData)
        } else if accounts[2].key@ != derived_address(
            seq![fundraise_prefix(), accounts[0].key@],
            ctx.record_bump,
            ids.program@,
        ) {
            Err(ProgramFailure::Fundraiser(FundraiserError::InvalidAddress))
        } else {
            Ok(())
        },
    }
}

/// A validated Initialize call, ready for its business rules.
pub struct Initialize<'a> {
    pub accounts: InitializeAccounts<'a>,
    pub data: InitializeInstructionData,
    pub bump: u8,
}

/// The effects of a successful Initialize.
pub struct InitializeEffects {
    /// Create the campaign record account at its derived address.
    pub create_fundraise: CreateAccountRequest,
    /// Create the custodial vault for (campaign, asset).
    pub create_vault: CreateVaultRequest,
    /// The campaign record to store.
    pub fundraise: Fundraise,
}

/// What the business rules decide once the validation has passed: the target must
/// strictly exceed the minimum-raise floor scaled by the asset's decimal
/// precision, and the campaign record is then created with the clock
/// stamped as its start.
pub open spec fn initialize_process(
    maker: AccountState,
    mint_to_raise: AccountState,
    fundraise_account: AccountState,
    vault: AccountState,
    token_program: AccountState,
    amount_to_raise: u64,
    duration: u64,
    bump: u8,
    now: i64,
    ids: ProgramIds,
) -> Result<InitializeEffects, ProgramFailure> {
    match MintInterface::decimals_spec(mint_to_raise, ids) {
        Err(e) => Err(e),
        Ok(decimals) => if amount_to_raise <= pow(MIN_AMOUNT_TO_RAISE as int, decimals as nat) {
            Err(ProgramFailure::Fundraiser(FundraiserError::BelowMinRaiseAmount))
        } else {
            Ok(
                InitializeEffects {
                    create_fundraise: CreateAccountRequest {
                        payer: maker.key,
                        address: fundraise_account.key,
                        space: FUNDRAISE_LEN as u64,
                    },
                    create_vault: CreateVaultRequest {
                        payer: maker.key,
                        address: vault.key,
                        mint: mint_to_raise.key,
                        owner: fundraise_account.key,
                        token_program: token_program.key,
                    },
                    fundraise: Fundraise {
                        maker: maker.key,
                        mint_to_raise: mint_to_raise.key,
                        amount_to_raise,
                        current_amount: 0,
                        time_started: now,
                        duration,
                        bump,
                    },
                },
            )
        },
    }
}

/// The whole Initialize decision, from raw accounts and payload to effects.
pub open spec fn initialize_spec(
    accounts: Seq<AccountState>,
    payload: Seq<u8>,
    ctx: HostContext,
    ids: ProgramIds,
) -> Result<InitializeEffects, ProgramFailure> {
    match initialize_checks(accounts, payload, ctx, ids) {
        Err(e) => Err(e),
        Ok(_) => initialize_process(
            accounts[0],
            accounts[1],
            accounts[2],
            accounts[3],
            accounts[5],
            spec_u64_from_le_bytes(payload.subrange(0, 8)),
            spec_u64_from_le_bytes(payload.subrange(8, 16)),
            ctx.record_bump,
            ctx.now,
            ids,
        ),
    }
}

impl<'a> Initialize<'a> {
    /// Validates the accounts, parses the payload, and re-derives the campaign
    /// record's address from the campaign label, the maker and the
    /// host-found nonce.
    pub fn try_from(
        data: &[u8],
        accounts: &'a Vec<AccountState>,
        ctx: &HostContext,
        ids: &ProgramIds,
    ) -> (r: Result<Initialize<'a>, ProgramFailure>)
        ensures
            r is Ok <==> initialize_checks(accounts@, data@, *ctx, *ids) is Ok,
            r matches Err(e) ==> initialize_checks(accounts@, data@, *ctx, *ids) == Err::<
                (),
                ProgramFailure,
            >(e),
            r matches Ok(s) ==> {
                &&& *s.accounts.maker == accounts@[0]
                &&& *s.accounts.mint_to_raise == accounts@[1]
                &&& *s.accounts.fundraise == accounts@[2]
                &&& *s.accounts.vault == accounts@[3]
                &&& *s.accounts.token_program == accounts@[5]
                &&& s.data.amount_to_raise == spec_u64_from_le_bytes(data@.subrange(0, 8))
                &&& s.data.duration == spec_u64_from_le_bytes(data@.subrange(8, 16))
                &&& s.bump == ctx.record_bump
            },
    {
        let parsed = match InitializeAccounts::try_from(accounts, ids) {
            Err(e) => {
                return Err(e);
            },
            Ok(a) => a,
        };
        let data = match InitializeInstructionData::try_from(data) {
            Err(e) => {
                return Err(e);
            },
            Ok(d) => d,
        };
        let prefix = fundraise_prefix_bytes();
        let pda = derive_address_2(
            prefix.as_slice(),
            parsed.maker.key.as_slice(),
            ctx.record_bump,
            &ids.program,
        );
        if !pubkey_eq(&pda, &parsed.fundraise.key) {
            return Err(ProgramFailure::Fundraiser(FundraiserError::InvalidAddress));
        }
        Ok(Initialize { accounts: parsed, data, bump: ctx.record_bump })
    }

    /// Runs the business rules and produces the creation effects and the
    /// campaign record.
    pub fn process(&self, ctx: &HostContext, ids: &ProgramIds) -> (r: Result<
        InitializeEffects,
        ProgramFailure,
    >)
        ensures
            r == initialize_process(
                *self.accounts.maker,
                *self.accounts.mint_to_raise,
                *self.accounts.fundraise,
                *self.accounts.vault,
                *self.accounts.token_program,
                self.data.amount_to_raise,
                self.data.duration,
                self.bump,
                ctx.now,
                *ids,
            ),
    {
        let decimals = match MintInterface::decimals(self.accounts.mint_to_raise, ids) {
            Err(e) => {
                return Err(e);
            },
            Ok(d) => d,
        };
        let below_floor = match checked_pow_u64(MIN_AMOUNT_TO_RAISE, decimals) {
            Some(floor) => self.data.amount_to_raise <= floor,
            None => true,
        };
        if below_floor {
            return Err(ProgramFailure::Fundraiser(FundraiserError::BelowMinRaiseAmount));
        }
        Ok(
            InitializeEffects {
                create_fundraise: CreateAccountRequest {
                    payer: self.accounts.maker.key,
                    address: self.accounts.fundraise.key,
                    space: FUNDRAISE_LEN as u64,
                },
                create_vault: CreateVaultRequest {
                    payer: self.accounts.maker.key,
                    address: self.accounts.vault.key,
                    mint: self.accounts.mint_to_raise.key,
                    owner: self.accounts.fundraise.key,
                    token_program: self.accounts.token_program.key,
                },
                fundraise: Fundraise {
                    maker: self.accounts.maker.key,
                    mint_to_raise: self.accounts.mint_to_raise.key,
                    amount_to_raise: self.data.amount_to_raise,
                    current_amount: 0,
                    time_started: ctx.now,
                    duration: self.data.duration,
                    bump: self.bump,
                },
            },
        )
    }
}

} // verus!
