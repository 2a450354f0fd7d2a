//! Refund: a contributor reclaims their whole recorded deposit while the
//! campaign window has not yet closed and the target is still unmet.
//!
//! Effects (atomic): the campaign's running sum shrinks by the recorded
//! deposit, the deposit moves from the vault back to the contributor's
//! holding account under the campaign's derived signing authority, the
//! vault is closed if that drains it to exactly zero (rent to the maker),
//! and the contribution record is closed unconditionally (rent to the
//! contributor), which makes a second refund structurally impossible.
use vstd::prelude::*;
use vstd::bytes::spec_u64_from_le_bytes;
use crate::accounts::{lemma_pubkey_of_seq, pubkey_eq, pubkey_of_seq, AccountState, ProgramIds};
use crate::errors::{FundraiserError, ProgramFailure};
use crate::helpers::associated_token::AssociatedTokenAccount;
use crate::helpers::mint_interface::MintInterface;
use crate::helpers::program::ProgramAccount;
use crate::helpers::signer::SignerAccount;
use crate::helpers::token_interface::TokenAccountInterface;
use crate::helpers::AccountCheck;
use crate::instructions::{CloseRequest, HostContext, TransferRequest};
use crate::pda::{derive_address_2, derive_address_3, derived_address};
use crate::rules::{is_refund_window_ended, refund_window_ended};
use crate::state::contributor::{
    contributor_prefix, contributor_prefix_bytes, Contributor, CONTRIBUTOR_LEN,
};
use crate::state::fundraise::{fundraise_prefix, fundraise_prefix_bytes, Fundraise, FUNDRAISE_LEN};
use crate::state::spec_i64_from_le_bytes;

verus! {

/// The account list of a Refund call, in order.
pub struct RefundAccounts<'a> {
    pub authority: &'a AccountState,
    pub maker: &'a AccountState,
    pub mint_to_raise: &'a AccountState,
    pub fundraise: &'a AccountState,
    pub contributor: &'a AccountState,
    pub authority_token_account: &'a AccountState,
    pub vault: &'a AccountState,
    pub system_program: &'a AccountState,
    pub token_program: &'a AccountState,
}

/// The capability checks a Refund account list must pass, in order: exactly
/// nine accounts, a signing contributor, a well-shaped mint, campaign and
/// contribution records owned by this program, and the contributor's
/// holding account and the vault both at their canonical derived addresses.
pub open spec fn refund_accounts_check(
    accounts: Seq<AccountState>,
    ctx: HostContext,
    ids: ProgramIds,
) -> Result<(), ProgramFailure> {
    if accounts.len() != 9 {
        Err(ProgramFailure::NotEnoughAccountKeys)
    } else {
        match SignerAccount::check_spec(accounts[0], ids) {
            Err(e) => Err(e),
            Ok(_) => match MintInterface::check_spec(accounts[2], ids) {
                Err(e) => Err(e),
                Ok(_) => match ProgramAccount::check_spec(accounts[3], ids) {
                    Err(e) => Err(e),
                    Ok(_) => match ProgramAccount::check_spec(accounts[4], ids) {
                        Err(e) => Err(e),
                        Ok(_) => match AssociatedTokenAccount::check_spec(
                            accounts[5],
                            accounts[0].key,
                            accounts[2].key,
                            accounts[8].key,
                            ctx.authority_ata_bump,
                            ids,
                        ) {
                            Err(e) => Err(e),
                            Ok(_) => AssociatedTokenAccount::check_spec(
                                accounts[6],
                                accounts[3].key,
                                accounts[2].key,
                                accounts[8].key,
                                ctx.vault_bump,
                                ids,
                            ),
                        },
                    },
                },
            },
        }
    }
}

impl<'a> RefundAccounts<'a> {
    /// Destructures and validates the account list.
    pub fn try_from(
        accounts: &'a Vec<AccountState>,
        ctx: &HostContext,
        ids: &ProgramIds,
    ) -> (r: Result<RefundAccounts<'a>, ProgramFailure>)
        ensures
            r is Ok <==> refund_accounts_check(accounts@, *ctx, *ids) is Ok,
            r matches Err(e) ==> refund_accounts_check(accounts@, *ctx, *ids) == Err::<
                (),
                ProgramFailure,
            >(e),
            r matches Ok(s) ==> {
                &&& *s.authority == accounts@[0]
                &&& *s.maker == accounts@[1]
                &&& *s.mint_to_raise == accounts@[2]
                &&& *s.fundraise == accounts@[3]
                &&& *s.contributor == accounts@[4]
                &&& *s.authority_token_account == accounts@[5]
                &&& *s.vault == accounts@[6]
                &&& *s.system_program == accounts@[7]
                &&& *s.token_program == accounts@[8]
            },
    {
        if accounts.len() != 9 {
            return Err(ProgramFailure::NotEnoughAccountKeys);
        }
        match SignerAccount::check(&accounts[0], ids) {
            Err(e) => {
                return Err(e);
            },
            Ok(_) => {},
        }
        match MintInterface::check(&accounts[2], ids) {
            Err(e) => {
                return Err(e);
            },
            Ok(_) => {},
        }
        match ProgramAccount::check(&accounts[3], ids) {
            Err(e) => {
                return Err(e);
            },
            Ok(_) => {},
        }
        match ProgramAccount::check(&accounts[4], ids) {
            Err(e) => {
                return Err(e);
            },
            Ok(_) => {},
        }
        match AssociatedTokenAccount::check(
            &accounts[5],
            &accounts[0].key,
            &accounts[2].key,
            &accounts[8].key,
            ctx.authority_ata_bump,
            ids,
        ) {
            Err(e) => {
                return Err(e);
            },
            Ok(_) => {},
        }
        match AssociatedTokenAccount::check(
            &accounts[6],
            &accounts[3].key,
            &accounts[2].key,
            &accounts[8].key,
            ctx.vault_bump,
            ids,
        ) {
            Err(e) => {
                return Err(e);
            },
            Ok(_) => {},
        }
        Ok(
            RefundAccounts {
                authority: &accounts[0],
                maker: &accounts[1],
                mint_to_raise: &accounts[2],
                fundraise: &accounts[3],
                contributor: &accounts[4],
                authority_token_account: &accounts[5],
                vault: &accounts[6],
                system_program: &accounts[7],
                token_program: &accounts[8],
            },
        )
    }
}

/// A validated Refund call, ready for its business rules.
pub struct Refund<'a> {
    pub accounts: RefundAccounts<'a>,
}

/// The effects of a successful Refund.
pub struct RefundEffects {
    /// The updated campaign record to store.
    pub fundraise: Fundraise,
    /// Move the contributor's whole recorded deposit from the vault back to
    /// their holding account, authorized by the campaign's derived signing
    /// authority.
    pub transfer: TransferRequest,
    /// Close the vault when the refund drains it to exactly zero, returning
    /// its rent to the maker.
    pub close_vault: Option<CloseRequest>,
    /// Always close the contribution record, returning its rent to the
    /// contributor; the tombstoned record can never be refunded again.
    pub close_contributor: CloseRequest,
}

/// What the business rules decide once the validation has passed, in order: both
/// records must decode and re-derive to their own addresses; the campaign
/// must match the given mint; the window must not have closed; the vault's
/// balance must still be below the target; and the campaign's running sum
/// must not underflow when the deposit is taken out of it.
pub open spec fn refund_process(
    authority: AccountState,
    maker: AccountState,
    mint_to_raise: AccountState,
    fundraise_account: AccountState,
    contributor_account: AccountState,
    authority_token_account: AccountState,
    vault: AccountState,
    now: i64,
    ids: ProgramIds,
) -> Result<RefundEffects, ProgramFailure> {
    let fb = fundraise_account.data@;
    let cb = contributor_account.data@;
    let target = spec_u64_from_le_bytes(fb.subrange(64, 72));
    let current = spec_u64_from_le_bytes(fb.subrange(72, 80));
    let contributed = spec_u64_from_le_bytes(cb.subrange(64, 72));
    if fb.len() != FUNDRAISE_LEN {
        Err(ProgramFailure::InvalidAccountData)
    } else if fundraise_account.key@ != derived_address(
        seq![fundraise_prefix(), fb.subrange(0, 32)],
        fb[96],
        ids.program@,
    ) {
        Err(ProgramFailure::Fundraiser(FundraiserError::InvalidAddress))
    } else if fb.subrange(32, 64) != mint_to_raise.key@ {
        Err(ProgramFailure::Fundraiser(FundraiserError::InvalidMintToRaise))
    } else if cb.len() != CONTRIBUTOR_LEN {
        Err(ProgramFailure::InvalidAccountData)
    } else if contributor_account.key@ != derived_address(
        seq![contributor_prefix(), cb.subrange(0, 32), cb.subrange(32, 64)],
        cb[72],
        ids.program@,
    ) {
        Err(ProgramFailure::Fundraiser(FundraiserError::InvalidAddress))
    } else if refund_window_ended(
        now,
        spec_i64_from_le_bytes(fb.subrange(80, 88)),
        spec_u64_from_le_bytes(fb.subrange(88, 96)),
    ) {
        Err(ProgramFailure::Fundraiser(FundraiserError::FundraiserEnded))
    } else {
        match TokenAccountInterface::amount_spec(vault, ids) {
            Err(e) => Err(e),
            Ok(vault_amount) => if vault_amount >= target {
                Err(ProgramFailure::Fundraiser(FundraiserError::TargetMet))
            } else if current < contributed {
                Err(ProgramFailure::ArithmeticOverflow)
            } else {
                Ok(
                    RefundEffects {
                        fundraise: Fundraise {
                            maker: pubkey_of_seq(fb.subrange(0, 32)),
                            mint_to_raise: pubkey_of_seq(fb.subrange(32, 64)),
                            amount_to_raise: target,
                            current_amount: (current - contributed) as u64,
                            time_started: spec_i64_from_le_bytes(fb.subrange(80, 88)),
                            duration: spec_u64_from_le_bytes(fb.subrange(88, 96)),
                            bump: fb[96],
                        },
                        transfer: TransferRequest {
                            from: vault.key,
                            to: authority_token_account.key,
                            authority: fundraise_account.key,
                            amount: contributed,
                        },
                        close_vault: if vault_amount == contributed {
                            Some(CloseRequest { address: vault.key, destination: maker.key })
                        } else {
                            None
                        },
                        close_contributor: CloseRequest {
                            address: contributor_account.key,
                            destination: authority.key,
                        },
                    },
                )
            },
        }
    }
}

/// The whole Refund decision, from raw accounts to effects.
pub open spec fn refund_spec(
    accounts: Seq<AccountState>,
    ctx: HostContext,
    ids: ProgramIds,
) -> Result<RefundEffects, ProgramFailure> {
    match refund_accounts_check(accounts, ctx, ids) {
        Err(e) => Err(e),
        Ok(_) => refund_process(
            accounts[0],
            accounts[1],
            accounts[2],
            accounts[3],
            accounts[4],
            accounts[5],
            accounts[6],
            ctx.now,
            ids,
        ),
    }
}

impl<'a> Refund<'a> {
    /// Validates the account list.
    pub fn try_from(
        accounts: &'a Vec<AccountState>,
        ctx: &HostContext,
        ids: &ProgramIds,
    ) -> (r: Result<Refund<'a>, ProgramFailure>)
        ensures
            r is Ok <==> refund_accounts_check(accounts@, *ctx, *ids) is Ok,
            r matches Err(e) ==> refund_accounts_check(accounts@, *ctx, *ids) == Err::<
                (),
                ProgramFailure,
            >(e),
            r matches Ok(s) ==> {
                &&& *s.accounts.authority == accounts@[0]
                &&& *s.accounts.maker == accounts@[1]
                &&& *s.accounts.mint_to_raise == accounts@[2]
                &&& *s.accounts.fundraise == accounts@[3]
                &&& *s.accounts.contributor == accounts@[4]
                &&& *s.accounts.authority_token_account == accounts@[5]
                &&& *s.accounts.vault == accounts@[6]
            },
    {
        let parsed = match RefundAccounts::try_from(accounts, ctx, ids) {
            Err(e) => {
                return Err(e);
            },
            Ok(a) => a,
        };
        Ok(Refund { accounts: parsed })
    }

    /// Runs the business rules and produces the record update, the transfer
    /// request and the account closures.
    pub fn process(&self, ctx: &HostContext, ids: &ProgramIds) -> (r: Result<
        RefundEffects,
        ProgramFailure,
    >)
        ensures
            r == refund_process(
                *self.accounts.authority,
                *self.accounts.maker,
                *self.accounts.mint_to_raise,
                *self.accounts.fundraise,
                *self.accounts.contributor,
                *self.accounts.authority_token_account,
                *self.accounts.vault,
                ctx.now,
                *ids,
            ),
    {
        let mut fundraise = match Fundraise::load(self.accounts.fundraise.data.as_slice()) {
            Err(e) => {
                return Err(e);
            },
            Ok(f) => f,
        };
        let prefix = fundraise_prefix_bytes();
        let fundraise_pda = derive_address_2(
            prefix.as_slice(),
            fundraise.maker.as_slice(),
            fundraise.bump,
            &ids.program,
        );
        if !pubkey_eq(&self.accounts.fundraise.key, &fundraise_pda) {
            return Err(ProgramFailure::Fundraiser(FundraiserError::InvalidAddress));
        }
        match fundraise.check_mint_to_raise(&self.accounts.mint_to_raise.key) {
            Err(e) => {
                return Err(e);
            },
            Ok(_) => {},
        }
        let contributor = match Contributor::load(self.accounts.contributor.data.as_slice()) {
            Err(e) => {
                return Err(e);
            },
            Ok(c) => c,
        };
        let contributor_seed = contributor_prefix_bytes();
        let contributor_pda = derive_address_3(
            contributor_seed.as_slice(),
            contributor.fundraise.as_slice(),
            contributor.authority.as_slice(),
            contributor.bump,
            &ids.program,
        );
        if !pubkey_eq(&self.accounts.contributor.key, &contributor_pda) {
            return Err(ProgramFailure::Fundraiser(FundraiserError::InvalidAddress));
        }
        if is_refund_window_ended(
            ctx.now,
            fundraise.get_time_started(),
            fundraise.get_duration(),
        ) {
            return Err(ProgramFailure::Fundraiser(FundraiserError::FundraiserEnded));
        }
        let vault_amount = match TokenAccountInterface::amount(self.accounts.vault, ids) {
            Err(e) => {
                return Err(e);
            },
            Ok(a) => a,
        };
        if vault_amount >= fundraise.get_amount_to_raise() {
            return Err(ProgramFailure::Fundraiser(FundraiserError::TargetMet));
        }
        let current = fundraise.get_current_amount();
        let contributed = contributor.get_amount();
        if current < contributed {
            return Err(ProgramFailure::ArithmeticOverflow);
        }
        fundraise.set_current_amount(current - contributed);
        proof {
            lemma_pubkey_of_seq(fundraise.maker);
            lemma_pubkey_of_seq(fundraise.mint_to_raise);
        }
        Ok(
            RefundEffects {
                fundraise,
                transfer: TransferRequest {
                    from: self.accounts.vault.key,
                    to: self.accounts.authority_token_account.key,
                    authority: self.accounts.fundraise.key,
                    amount: contributed,
                },
                close_vault: if vault_amount == contributed {
                    Some(
                        CloseRequest {
                            address: self.accounts.vault.key,
                            destination: self.accounts.maker.key,
                        },
                    )
                } else {
                    None
                },
                close_contributor: CloseRequest {
                    address: self.accounts.contributor.key,
                    destination: self.accounts.authority.key,
                },
            },
        )
    }
}

} // verus!
