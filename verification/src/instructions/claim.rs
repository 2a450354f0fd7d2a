//! Claim: the maker collects the pooled funds once the vault balance has
//! reached the target.
//!
//! Deliberately permissive, as documented: the signing maker is not
//! cross-checked against the campaign record's stored maker, and nothing
//! marks the campaign as claimed afterwards. The transfer is authorized by
//! the campaign's derived signing authority and empties the vault's entire
//! current balance into the maker's holding account.
use vstd::prelude::*;
use vstd::bytes::spec_u64_from_le_bytes;
use crate::accounts::{AccountState, ProgramIds};
use crate::errors::{FundraiserError, ProgramFailure};
use crate::helpers::associated_token::AssociatedTokenAccount;
use crate::helpers::mint_interface::MintInterface;
use crate::helpers::program::ProgramAccount;
use crate::helpers::signer::SignerAccount;
use crate::helpers::token_interface::TokenAccountInterface;
use crate::helpers::AccountCheck;
use crate::instructions::{CreateVaultRequest, HostContext, TransferRequest};
use crate::state::fundraise::{Fundraise, FUNDRAISE_LEN};

verus! {

/// The account list of a Claim call, in order.
pub struct ClaimAccounts<'a> {
    pub maker: &'a AccountState,
    pub mint_to_raise: &'a AccountState,
    pub fundraise: &'a AccountState,
    pub vault: &'a AccountState,
    pub maker_token_account: &'a AccountState,
    pub system_program: &'a AccountState,
    pub token_program: &'a AccountState,
    pub associated_token_program: &'a AccountState,
}

/// The capability checks a Claim account list must pass, in order: exactly
/// eight accounts, a signing maker, a well-shaped mint, a campaign record
/// owned by this program, and the vault at its canonical derived address.
pub open spec fn claim_accounts_check(
    accounts: Seq<AccountState>,
    ctx: HostContext,
    ids: ProgramIds,
) -> Result<(), ProgramFailure> {
    if accounts.len() != 8 {
        Err(ProgramFailure::NotEnoughAccountKeys)
    } else {
        match SignerAccount::check_spec(accounts[0], ids) {
            Err(e) => Err(e),
            Ok(_) => match MintInterface::check_spec(accounts[1], ids) {
                Err(e) => Err(e),
                Ok(_) => match ProgramAccount::check_spec(accounts[2], ids) {
                    Err(e) => Err(e),
                    Ok(_) => AssociatedTokenAccount::check_spec(
                        accounts[3],
                        accounts[2].key,
                        accounts[1].key,
                        accounts[6].key,
                        ctx.vault_bump,
                        ids,
                    ),
                },
            },
        }
    }
}

impl<'a> ClaimAccounts<'a> {
    /// Destructures and validates the account list.
    pub fn try_from(
        accounts: &'a Vec<AccountState>,
        ctx: &HostContext,
        ids: &ProgramIds,
    ) -> (r: Result<ClaimAccounts<'a>, ProgramFailure>)
        ensures
            r is Ok <==> claim_accounts_check(accounts@, *ctx, *ids) is Ok,
            r matches Err(e) ==> claim_accounts_check(accounts@, *ctx, *ids) == Err::<
                (),
                ProgramFailure,
            >(e),
            r matches Ok(s) ==> {
                &&& *s.maker == accounts@[0]
                &&& *s.mint_to_raise == accounts@[1]
                &&& *s.fundraise == accounts@[2]
                &&& *s.vault == accounts@[3]
                &&& *s.maker_token_account == accounts@[4]
                &&& *s.system_program == accounts@[5]
                &&& *s.token_program == accounts@[6]
                &&& *s.associated_token_program == accounts@[7]
            },
    {
        if accounts.len() != 8 {
            return Err(ProgramFailure::NotEnoughAccountKeys);
        }
        match SignerAccount::check(&accounts[0], ids) {
            Err(e) => {
                return Err(e);
            },
            Ok(_) => {},
        }
        match MintInterface::check(&accounts[1], ids) {
            Err(e) => {
                return Err(e);
            },
            Ok(_) => {},
        }
        match ProgramAccount::check(&accounts[2], ids) {
            Err(e) => {
                return Err(e);
            },
            Ok(_) => {},
        }
        match AssociatedTokenAccount::check(
            &accounts[3],
            &accounts[2].key,
            &accounts[1].key,
            &accounts[6].key,
            ctx.vault_bump,
            ids,
        ) {
            Err(e) => {
                return Err(e);
            },
            Ok(_) => {},
        }
        Ok(
            ClaimAccounts {
                maker: &accounts[0],
                mint_to_raise: &accounts[1],
                fundraise: &accounts[2],
                vault: &accounts[3],
                maker_token_account: &accounts[4],
                system_program: &accounts[5],
                token_program: &accounts[6],
                associated_token_program: &accounts[7],
            },
        )
    }
}

/// A validated Claim call, ready for its business rules.
pub struct Claim<'a> {
    pub accounts: ClaimAccounts<'a>,
}

/// The effects of a successful Claim.
pub struct ClaimEffects {
    /// Create the maker's holding account first, when it does not yet exist
    /// at its canonical derived address.
    pub create_maker_token_account: Option<CreateVaultRequest>,
    /// Move the vault's entire current balance to the maker's holding
    /// account, authorized by the campaign's derived signing authority.
    pub transfer: TransferRequest,
}

/// What the business rules decide once the validation has passed: the vault's
/// current balance must have reached the campaign's target, and the whole
/// balance then moves to the maker's holding account.
pub open spec fn claim_process(
    maker: AccountState,
    mint_to_raise: AccountState,
    fundraise_account: AccountState,
    vault: AccountState,
    maker_token_account: AccountState,
    token_program: AccountState,
    maker_ata_bump: u8,
    ids: ProgramIds,
) -> Result<ClaimEffects, ProgramFailure> {
    let fb = fundraise_account.data@;
    match TokenAccountInterface::amount_spec(vault, ids) {
        Err(e) => Err(e),
        Ok(vault_amount) => if fb.len() != FUNDRAISE_LEN {
            Err(ProgramFailure::InvalidAccountData)
        } else if vault_amount < spec_u64_from_le_bytes(fb.subrange(64, 72)) {
            Err(ProgramFailure::Fundraiser(FundraiserError::TargetNotMet))
        } else {
            Ok(
                ClaimEffects {
                    create_maker_token_account: if AssociatedTokenAccount::check_spec(
                        maker_token_account,
                        maker.key,
                        mint_to_raise.key,
                        token_program.key,
                        maker_ata_bump,
                        ids,
                    ) is Err {
                        Some(
                            CreateVaultRequest {
                                payer: maker.key,
                                address: maker_token_account.key,
                                mint: mint_to_raise.key,
                                owner: maker.key,
                                token_program: token_program.key,
                            },
                        )
                    } else {
                        None
                    },
                    transfer: TransferRequest {
                        from: vault.key,
                        to: maker_token_account.key,
                        authority: fundraise_account.key,
                        amount: vault_amount,
                    },
                },
            )
        },
    }
}

/// The whole Claim decision, from raw accounts to effects.
pub open spec fn claim_spec(
    accounts: Seq<AccountState>,
    ctx: HostContext,
    ids: ProgramIds,
) -> Result<ClaimEffects, ProgramFailure> {
    match claim_accounts_check(accounts, ctx, ids) {
        Err(e) => Err(e),
        Ok(_) => claim_process(
            accounts[0],
            accounts[1],
            accounts[2],
            accounts[3],
            accounts[4],
            accounts[6],
            ctx.maker_ata_bump,
            ids,
        ),
    }
}

impl<'a> Claim<'a> {
    /// Validates the account list.
    pub fn try_from(
        accounts: &'a Vec<AccountState>,
        ctx: &HostContext,
        ids: &ProgramIds,
    ) -> (r: Result<Claim<'a>, ProgramFailure>)
        ensures
            r is Ok <==> claim_accounts_check(accounts@, *ctx, *ids) is Ok,
            r matches Err(e) ==> claim_accounts_check(accounts@, *ctx, *ids) == Err::<
                (),
                ProgramFailure,
            >(e),
            r matches Ok(s) ==> {
                &&& *s.accounts.maker == accounts@[0]
                &&& *s.accounts.mint_to_raise == accounts@[1]
                &&& *s.accounts.fundraise == accounts@[2]
                &&& *s.accounts.vault == accounts@[3]
                &&& *s.accounts.maker_token_account == accounts@[4]
                &&& *s.accounts.token_program == accounts@[6]
            },
    {
        let parsed = match ClaimAccounts::try_from(accounts, ctx, ids) {
            Err(e) => {
                return Err(e);
            },
            Ok(a) => a,
        };
        Ok(Claim { accounts: parsed })
    }

    /// Runs the business rules and produces the transfer request that
    /// empties the vault.
    pub fn process(&self, ctx: &HostContext, ids: &ProgramIds) -> (r: Result<
        ClaimEffects,
        ProgramFailure,
    >)
        ensures
            r == claim_process(
                *self.accounts.maker,
                *self.accounts.mint_to_raise,
                *self.accounts.fundraise,
                *self.accounts.vault,
                *self.accounts.maker_token_account,
                *self.accounts.token_program,
                ctx.maker_ata_bump,
                *ids,
            ),
    {
        let vault_amount = match TokenAccountInterface::amount(self.accounts.vault, ids) {
            Err(e) => {
                return Err(e);
            },
            Ok(a) => a,
        };
        let fundraise = match Fundraise::load(self.accounts.fundraise.data.as_slice()) {
            Err(e) => {
                return Err(e);
            },
            Ok(f) => f,
        };
        if vault_amount < fundraise.get_amount_to_raise() {
            return Err(ProgramFailure::Fundraiser(FundraiserError::TargetNotMet));
        }
        let needs_ata = match AssociatedTokenAccount::check(
            self.accounts.maker_token_account,
            &self.accounts.maker.key,
            &self.accounts.mint_to_raise.key,
            &self.accounts.token_program.key,
            ctx.maker_ata_bump,
            ids,
        ) {
            Err(_) => true,
            Ok(_) => false,
        };
        Ok(
            ClaimEffects {
                create_maker_token_account: if needs_ata {
                    Some(
                        CreateVaultRequest {
                            payer: self.accounts.maker.key,
                            address: self.accounts.maker_token_account.key,
                            mint: self.accounts.mint_to_raise.key,
                            owner: self.accounts.maker.key,
                            token_program: self.accounts.token_program.key,
                        },
                    )
                } else {
                    None
                },
                transfer: TransferRequest {
                    from: self.accounts.vault.key,
                    to: self.accounts.maker_token_account.key,
                    authority: self.accounts.fundraise.key,
                    amount: vault_amount,
                },
            },
        )
    }
}

} // verus!
