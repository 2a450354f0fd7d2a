//! Contribute: a signer deposits the raised asset into the custodial vault
//! while the campaign window is open, within the per-contributor cap.
//!
//! Effects (atomic): the campaign's running sum and the contributor's
//! cumulative deposit both grow by the amount, a fresh contribution record
//! is created on the contributor's first deposit, and a transfer of the
//! amount from the contributor's holding account into the vault is
//! requested under the contributor's own signature.
use vstd::prelude::*;
use vstd::bytes::{spec_u64_from_le_bytes, u64_from_le_bytes};
use vstd::slice::slice_subrange;
use vstd::arithmetic::power::pow;
use crate::accounts::{
    lemma_pubkey_of_seq, pubkey_eq, pubkey_of_seq, AccountState, ProgramIds,
};
use crate::constants::MIN_CONTRIBUTION_UNIT;
use crate::errors::{FundraiserError, ProgramFailure};
use crate::helpers::associated_token::AssociatedTokenAccount;
use crate::helpers::mint_interface::MintInterface;
use crate::helpers::program::ProgramAccount;
use crate::helpers::signer::SignerAccount;
use crate::helpers::AccountCheck;
use crate::instructions::{CreateAccountRequest, HostContext, TransferRequest};
use crate::pda::{derive_address_2, derive_address_3, derived_address};
use crate::rules::{
    checked_pow_u64, contribute_window_open, contribution_cap, contribution_cap_value,
    is_contribute_window_open,
};
use crate::state::contributor::{
    contributor_prefix, contributor_prefix_bytes, Contributor, CONTRIBUTOR_LEN,
};
use crate::state::fundraise::{fundraise_prefix, fundraise_prefix_bytes, Fundraise, FUNDRAISE_LEN};
use crate::state::spec_i64_from_le_bytes;

verus! {

/// The account list of a Contribute call, in order.
pub struct ContributeAccounts<'a> {
    pub authority: &'a AccountState,
    pub mint_to_raise: &'a AccountState,
    pub fundraise: &'a AccountState,
    pub contributor: &'a AccountState,
    pub authority_token_account: &'a AccountState,
    pub vault: &'a AccountState,
    pub system_program: &'a AccountState,
    pub token_program: &'a AccountState,
}

/// The capability checks a Contribute account list must pass, in order:
/// exactly eight accounts, a signing contributor, a well-shaped mint, a
/// campaign record owned by this program, and the contributor's holding
/// account and the vault both at their canonical derived addresses.
pub open spec fn contribute_accounts_check(
    accounts: Seq<AccountState>,
    ctx: HostContext,
    ids: ProgramIds,
) -> Result<(), ProgramFailure> {
    if accounts.len() != 8 {
        Err(ProgramFailure::NotEnoughAccountKeys)
    } else {
        match SignerAccount::check_spec(accounts[0], ids) {
            Err(e) => Err(e),
            Ok(_) => match MintInterface::check_spec(accounts[1], ids) {
                Err(e) => Err(e),
                Ok(_) => match ProgramAccount::check_spec(accounts[2], ids) {
                    Err(e) => Err(e),
                    Ok(_) => match AssociatedTokenAccount::check_spec(
                        accounts[4],
                        accounts[0].key,
                        accounts[1].key,
                        accounts[7].key,
                        ctx.authority_ata_bump,
                        ids,
                    ) {
                        Err(e) => Err(e),
                        Ok(_) => AssociatedTokenAccount::check_spec(
                            accounts[5],
                            accounts[2].key,
                            accounts[1].key,
                            accounts[7].key,
                            ctx.vault_bump,
                            ids,
                        ),
                    },
                },
            },
        }
    }
}

impl<'a> ContributeAccounts<'a> {
    /// Destructures and validates the account list.
    pub fn try_from(
        accounts: &'a Vec<AccountState>,
        ctx: &HostContext,
        ids: &ProgramIds,
    ) -> (r: Result<ContributeAccounts<'a>, ProgramFailure>)
        ensures
            r is Ok <==> contribute_accounts_check(accounts@, *ctx, *ids) is Ok,
            r matches Err(e) ==> contribute_accounts_check(accounts@, *ctx, *ids) == Err::<
                (),
                ProgramFailure,
            >(e),
            r matches Ok(s) ==> {
                &&& *s.authority == accounts@[0]
                &&& *s.mint_to_raise == accounts@[1]
                &&& *s.fundraise == accounts@[2]
                &&& *s.contributor == accounts@[3]
                &&& *s.authority_token_account == accounts@[4]
                &&& *s.vault == accounts@[5]
                &&& *s.system_program == accounts@[6]
                &&& *s.token_program == accounts@[7]
            },
    {
        if accounts.len() != 8 {
            return Err(ProgramFailure::NotEnoughAccountKeys);
        }
        match SignerAccount::check(&accounts[0], ids) {
            Err(e) => {
                return Err(e);
            },
            Ok(_) => {},
        }
        match MintInterface::check(&accounts[1], ids) {
            Err(e) => {
                return Err(e);
            },
            Ok(_) => {},
        }
        match ProgramAccount::check(&accounts[2], ids) {
            Err(e) => {
                return Err(e);
            },
            Ok(_) => {},
        }
        match AssociatedTokenAccount::check(
            &accounts[4],
            &accounts[0].key,
            &accounts[1].key,
            &accounts[7].key,
            ctx.authority_ata_bump,
            ids,
        ) {
            Err(e) => {
                return Err(e);
            },
            Ok(_) => {},
        }
        match AssociatedTokenAccount::check(
            &accounts[5],
            &accounts[2].key,
            &accounts[1].key,
            &accounts[7].key,
            ctx.vault_bump,
            ids,
        ) {
            Err(e) => {
                return Err(e);
            },
            Ok(_) => {},
        }
        Ok(
            ContributeAccounts {
                authority: &accounts[0],
                mint_to_raise: &accounts[1],
                fundraise: &accounts[2],
                contributor: &accounts[3],
                authority_token_account: &accounts[4],
                vault: &accounts[5],
                system_program: &accounts[6],
                token_program: &accounts[7],
            },
        )
    }
}

/// The parsed payload of a Contribute call.
pub struct ContributeInstructionData {
    pub amount: u64,
}

impl ContributeInstructionData {
    /// Parses the fixed-width little-endian payload, failing unless it is
    /// exactly one 8-byte field.
    pub fn try_from(data: &[u8]) -> (r: Result<ContributeInstructionData, ProgramFailure>)
        ensures
            r is Ok <==> data@.len() == 8,
            r matches Ok(d) ==> d.amount == spec_u64_from_le_bytes(data@.subrange(0, 8)),
            r matches Err(e) ==> e == ProgramFailure::InvalidInstructionData,
    {
        if data.len() != 8 {
            return Err(ProgramFailure::InvalidInstructionData);
        }
        let amount = u64_from_le_bytes(slice_subrange(data, 0, 8));
        Ok(ContributeInstructionData { amount })
    }
}

/// Everything a Contribute call checks before its business rules run: the
/// account checks, the payload shape, and that the contribution record's
/// address is the derivation of the contribution label, the campaign and
/// the contributor under this program with the host-found nonce.
pub open spec fn contribute_checks(
    accounts: Seq<AccountState>,
    payload: Seq<u8>,
    ctx: HostContext,
    ids: ProgramIds,
) -> Result<(), ProgramFailure> {
    match contribute_accounts_check(accounts, ctx, ids) {
        Err(e) => Err(e),
        Ok(_) => if payload.len() != 8 {
            Err(ProgramFailure::InvalidInstructionData)
        } else if accounts[3].key@ != derived_address(
            seq![contributor_prefix(), accounts[2].key@, accounts[0].key@],
            ctx.record_bump,
            ids.program@,
        ) {
            Err(ProgramFailure::Fundraiser(FundraiserError::InvalidAddress))
        } else {
            Ok(())
        },
    }
}

/// A validated Contribute call, ready for its business rules.
pub struct Contribute<'a> {
    pub accounts: ContributeAccounts<'a>,
    pub data: ContributeInstructionData,
    pub bump: u8,
}

/// The effects of a successful Contribute.
pub struct ContributeEffects {
    /// Create the contribution record first, when this is the contributor's
    /// first deposit into this campaign.
    pub create_contributor: Option<CreateAccountRequest>,
    /// The updated campaign record to store.
    pub fundraise: Fundraise,
    /// The updated contribution record to store.
    pub contributor: Contributor,
    /// Move the amount from the contributor's holding account into the
    /// vault, authorized by the contributor's own signature.
    pub transfer: TransferRequest,
}

/// What the business rules decide once the validation has passed, in order: the
/// amount must exceed the minimum-contribution floor scaled by the asset's
/// decimals; the campaign record must decode, re-derive to its own address
/// and match the given mint; the amount must not exceed the basis-point cap
/// of the target; the window must still be open; the contribution record
/// must decode (a missing one counts as zero); the contributor's cumulative
/// deposit must stay within the cap; and the campaign's running sum must
/// not overflow.
pub open spec fn contribute_process(
    authority: AccountState,
    mint_to_raise: AccountState,
    fundraise_account: AccountState,
    contributor_account: AccountState,
    authority_token_account: AccountState,
    vault: AccountState,
    amount: u64,
    bump: u8,
    now: i64,
    ids: ProgramIds,
) -> Result<ContributeEffects, ProgramFailure> {
    let fb = fundraise_account.data@;
    let target = spec_u64_from_le_bytes(fb.subrange(64, 72));
    let current = spec_u64_from_le_bytes(fb.subrange(72, 80));
    let time_started = spec_i64_from_le_bytes(fb.subrange(80, 88));
    let duration = spec_u64_from_le_bytes(fb.subrange(88, 96));
    let created = contributor_account.owner != ids.program;
    let cb = contributor_account.data@;
    let existing: u64 = if created {
        0
    } else {
        spec_u64_from_le_bytes(cb.subrange(64, 72))
    };
    match MintInterface::decimals_spec(mint_to_raise, ids) {
        Err(e) => Err(e),
        Ok(decimals) => if amount <= pow(MIN_CONTRIBUTION_UNIT as int, decimals as nat) {
            Err(ProgramFailure::Fundraiser(FundraiserError::ContributionTooSmall))
        } else if fb.len() != FUNDRAISE_LEN {
            Err(ProgramFailure::InvalidAccountData)
        } else if fundraise_account.key@ != derived_address(
            seq![fundraise_prefix(), fb.subrange(0, 32)],
            fb[96],
            ids.program@,
        ) {
            Err(ProgramFailure::Fundraiser(FundraiserError::InvalidAddress))
        } else if fb.subrange(32, 64) != mint_to_raise.key@ {
            Err(ProgramFailure::Fundraiser(FundraiserError::InvalidMintToRaise))
        } else if amount > contribution_cap(target) {
            Err(ProgramFailure::Fundraiser(FundraiserError::ContributionTooBig))
        } else if !contribute_window_open(now, time_started, duration) {
            Err(ProgramFailure::Fundraiser(FundraiserError::FundraiserEnded))
        } else if !created && cb.len() != CONTRIBUTOR_LEN {
            Err(ProgramFailure::InvalidAccountData)
        } else if existing > contribution_cap(target) || existing + amount > contribution_cap(
            target,
        ) {
            Err(ProgramFailure::Fundraiser(FundraiserError::MaximumContributionsReached))
        } else if current + amount > u64::MAX {
            Err(ProgramFailure::ArithmeticOverflow)
        } else {
            Ok(
                ContributeEffects {
                    create_contributor: if created {
                        Some(
                            CreateAccountRequest {
                                payer: authority.key,
                                address: contributor_account.key,
                                space: CONTRIBUTOR_LEN as u64,
                            },
                        )
                    } else {
                        None
                    },
                    fundraise: Fundraise {
                        maker: pubkey_of_seq(fb.subrange(0, 32)),
                        mint_to_raise: pubkey_of_seq(fb.subrange(32, 64)),
                        amount_to_raise: target,
                        current_amount: (current + amount) as u64,
                        time_started,
                        duration,
                        bump: fb[96],
                    },
                    contributor: Contributor {
                        fundraise: if created {
                            fundraise_account.key
                        } else {
                            pubkey_of_seq(cb.subrange(0, 32))
                        },
                        authority: if created {
                            authority.key
                        } else {
                            pubkey_of_seq(cb.subrange(32, 64))
                        },
                        amount: (existing + amount) as u64,
                        bump: if created {
                            bump
                        } else {
                            cb[72]
                        },
                    },
                    transfer: TransferRequest {
                        from: authority_token_account.key,
                        to: vault.key,
                        authority: authority.key,
                        amount,
                    },
                },
            )
        },
    }
}

/// The whole Contribute decision, from raw accounts and payload to effects.
pub open spec fn contribute_spec(
    accounts: Seq<AccountState>,
    payload: Seq<u8>,
    ctx: HostContext,
    ids: ProgramIds,
) -> Result<ContributeEffects, ProgramFailure> {
    match contribute_checks(accounts, payload, ctx, ids) {
        Err(e) => Err(e),
        Ok(_) => contribute_process(
            accounts[0],
            accounts[1],
            accounts[2],
            accounts[3],
            accounts[4],
            accounts[5],
            spec_u64_from_le_bytes(payload.subrange(0, 8)),
            ctx.record_bump,
            ctx.now,
            ids,
        ),
    }
}

impl<'a> Contribute<'a> {
    /// Validates the accounts, parses the payload, and re-derives the
    /// contribution record's address from the contribution label, the
    /// campaign, the contributor and the host-found nonce.
    pub fn try_from(
        data: &[u8],
        accounts: &'a Vec<AccountState>,
        ctx: &HostContext,
        ids: &ProgramIds,
    ) -> (r: Result<Contribute<'a>, ProgramFailure>)
        ensures
            r is Ok <==> contribute_checks(accounts@, data@, *ctx, *ids) is Ok,
            r matches Err(e) ==> contribute_checks(accounts@, data@, *ctx, *ids) == Err::<
                (),
                ProgramFailure,
            >(e),
            r matches Ok(s) ==> {
                &&& *s.accounts.authority == accounts@[0]
                &&& *s.accounts.mint_to_raise == accounts@[1]
                &&& *s.accounts.fundraise == accounts@[2]
                &&& *s.accounts.contributor == accounts@[3]
                &&& *s.accounts.authority_token_account == accounts@[4]
                &&& *s.accounts.vault == accounts@[5]
                &&& s.data.amount == spec_u64_from_le_bytes(data@.subrange(0, 8))
                &&& s.bump == ctx.record_bump
            },
    {
        let parsed = match ContributeAccounts::try_from(accounts, ctx, ids) {
            Err(e) => {
                return Err(e);
            },
            Ok(a) => a,
        };
        let data = match ContributeInstructionData::try_from(data) {
            Err(e) => {
                return Err(e);
            },
            Ok(d) => d,
        };
        let prefix = contributor_prefix_bytes();
        let pda = derive_address_3(
            prefix.as_slice(),
            parsed.fundraise.key.as_slice(),
            parsed.authority.key.as_slice(),
            ctx.record_bump,
            &ids.program,
        );
        if !pubkey_eq(&pda, &parsed.contributor.key) {
            return Err(ProgramFailure::Fundraiser(FundraiserError::InvalidAddress));
        }
        Ok(Contribute { accounts: parsed, data, bump: ctx.record_bump })
    }

    /// Runs the business rules and produces the record updates and the
    /// transfer request.
    pub fn process(&self, ctx: &HostContext, ids: &ProgramIds) -> (r: Result<
        ContributeEffects,
        ProgramFailure,
    >)
        ensures
            r == contribute_process(
                *self.accounts.authority,
                *self.accounts.mint_to_raise,
                *self.accounts.fundraise,
                *self.accounts.contributor,
                *self.accounts.authority_token_account,
                *self.accounts.vault,
                self.data.amount,
                self.bump,
                ctx.now,
                *ids,
            ),
    {
        let decimals = match MintInterface::decimals(self.accounts.mint_to_raise, ids) {
            Err(e) => {
                return Err(e);
            },
            Ok(d) => d,
        };
        let too_small = match checked_pow_u64(MIN_CONTRIBUTION_UNIT, decimals) {
            Some(floor) => self.data.amount <= floor,
            None => true,
        };
        if too_small {
            return Err(ProgramFailure::Fundraiser(FundraiserError::ContributionTooSmall));
        }
        let mut fundraise = match Fundraise::load(self.accounts.fundraise.data.as_slice()) {
            Err(e) => {
                return Err(e);
            },
            Ok(f) => f,
        };
        let prefix = fundraise_prefix_bytes();
        let fundraise_pda = derive_address_2(
            prefix.as_slice(),
            fundraise.maker.as_slice(),
            fundraise.bump,
            &ids.program,
        );
        if !pubkey_eq(&self.accounts.fundraise.key, &fundraise_pda) {
            return Err(ProgramFailure::Fundraiser(FundraiserError::InvalidAddress));
        }
        match fundraise.check_mint_to_raise(&self.accounts.mint_to_raise.key) {
            Err(e) => {
                return Err(e);
            },
            Ok(_) => {},
        }
        let cap = contribution_cap_value(fundraise.get_amount_to_raise());
        if self.data.amount > cap {
            return Err(ProgramFailure::Fundraiser(FundraiserError::ContributionTooBig));
        }
        if !is_contribute_window_open(
            ctx.now,
            fundraise.get_time_started(),
            fundraise.get_duration(),
        ) {
            return Err(ProgramFailure::Fundraiser(FundraiserError::FundraiserEnded));
        }
        let created = match ProgramAccount::check(self.accounts.contributor, ids) {
            Err(_) => true,
            Ok(_) => false,
        };
        let mut contributor = if created {
            Contributor {
                fundraise: self.accounts.fundraise.key,
                authority: self.accounts.authority.key,
                amount: 0,
                bump: self.bump,
            }
        } else {
            match Contributor::load(self.accounts.contributor.data.as_slice()) {
                Err(e) => {
                    return Err(e);
                },
                Ok(c) => c,
            }
        };
        let existing = contributor.get_amount();
        if existing > cap || (existing as u128) + (self.data.amount as u128) > (cap as u128) {
            return Err(ProgramFailure::Fundraiser(FundraiserError::MaximumContributionsReached));
        }
        let current = fundraise.get_current_amount();
        if (current as u128) + (self.data.amount as u128) > (u64::MAX as u128) {
            return Err(ProgramFailure::ArithmeticOverflow);
        }
        fundraise.set_current_amount(current + self.data.amount);
        contributor.set_amount(existing + self.data.amount);
        proof {
            lemma_pubkey_of_seq(fundraise.maker);
            lemma_pubkey_of_seq(fundraise.mint_to_raise);
            if !created {
                lemma_pubkey_of_seq(contributor.fundraise);
                lemma_pubkey_of_seq(contributor.authority);
            }
        }
        Ok(
            ContributeEffects {
                create_contributor: if created {
                    Some(
                        CreateAccountRequest {
                            payer: self.accounts.authority.key,
                            address: self.accounts.contributor.key,
                            space: CONTRIBUTOR_LEN as u64,
                        },
                    )
                } else {
                    None
                },
                fundraise,
                contributor,
                transfer: TransferRequest {
                    from: self.accounts.authority_token_account.key,
                    to: self.accounts.vault.key,
                    authority: self.accounts.authority.key,
                    amount: self.data.amount,
                },
            },
        )
    }
}

} // verus!
