//! The custodial-vault check: is this account the canonical holding account
//! for a given (owner, asset) pair under a given transfer variant?
use vstd::prelude::*;
use crate::accounts::{pubkey_eq, AccountState, ProgramIds, Pubkey};
use crate::errors::{FundraiserError, ProgramFailure};
use crate::pda::{derive_address_3, derived_address};

verus! {

/// Accepts only the canonical holding account for (owner, asset, variant):
/// its address must be the derivation of the owner, the variant program and
/// the asset under the derivation program, and the variant program must own
/// it.
pub struct AssociatedTokenAccount;

impl AssociatedTokenAccount {
    /// What the check decides for a given account, owner, asset, variant and
    /// derivation nonce.
    pub open spec fn check_spec(
        account: AccountState,
        owner: Pubkey,
        mint: Pubkey,
        token_program: Pubkey,
        bump: u8,
        ids: ProgramIds,
    ) -> Result<(), ProgramFailure> {
        if account.owner != token_program {
            Err(ProgramFailure::InvalidAccountOwner)
        } else if account.key@ != derived_address(
            seq![owner@, token_program@, mint@],
            bump,
            ids.associated_token@,
        ) {
            Err(ProgramFailure::Fundraiser(FundraiserError::InvalidAddress))
        } else {
            Ok(())
        }
    }

    /// Evaluates the check: ownership by the given variant program, then
    /// re-derivation of the canonical address with the given nonce.
    pub fn check(
        account: &AccountState,
        owner: &Pubkey,
        mint: &Pubkey,
        token_program: &Pubkey,
        bump: u8,
        ids: &ProgramIds,
    ) -> (r: Result<(), ProgramFailure>)
        ensures
            r == Self::check_spec(*account, *owner, *mint, *token_program, bump, *ids),
    {
        if !pubkey_eq(&account.owner, token_program) {
            return Err(ProgramFailure::InvalidAccountOwner);
        }
        let expected = derive_address_3(
            owner.as_slice(),
            token_program.as_slice(),
            mint.as_slice(),
            bump,
            &ids.associated_token,
        );
        if !pubkey_eq(&account.key, &expected) {
            return Err(ProgramFailure::Fundraiser(FundraiserError::InvalidAddress));
        }
        Ok(())
    }
}

} // verus!
