//! The shape check for asset mints of the extended transfer variant.
use vstd::prelude::*;
use crate::accounts::{pubkey_eq, AccountState, ProgramIds};
use crate::errors::ProgramFailure;
use crate::helpers::{
    AccountCheck, MINT_BASE_LEN, TOKEN_2022_ACCOUNT_DISCRIMINATOR_OFFSET,
    TOKEN_2022_MINT_DISCRIMINATOR,
};

verus! {

/// An extended-variant mint either has the exact base layout, or carries
/// extensions and marks itself with the mint record-kind byte just past the
/// base holding-account length.
pub open spec fn mint_2022_shape_ok(data: Seq<u8>) -> bool {
    ||| data.len() == MINT_BASE_LEN
    ||| (data.len() > TOKEN_2022_ACCOUNT_DISCRIMINATOR_OFFSET
        && data[TOKEN_2022_ACCOUNT_DISCRIMINATOR_OFFSET as int] == TOKEN_2022_MINT_DISCRIMINATOR)
}

/// Accepts only mint accounts owned by the extended transfer program whose
/// data has a valid extended-mint shape.
pub struct Mint2022Account;

impl AccountCheck for Mint2022Account {
    open spec fn check_spec(account: AccountState, ids: ProgramIds) -> Result<(), ProgramFailure> {
        if account.owner != ids.token_2022 {
            Err(ProgramFailure::InvalidAccountOwner)
        } else if !mint_2022_shape_ok(account.data@) {
            Err(ProgramFailure::InvalidAccountData)
        } else {
            Ok(())
        }
    }

    fn check(account: &AccountState, ids: &ProgramIds) -> Result<(), ProgramFailure> {
        if !pubkey_eq(&account.owner, &ids.token_2022) {
            return Err(ProgramFailure::InvalidAccountOwner);
        }
        if !mint_2022_shape(&account.data) {
            return Err(ProgramFailure::InvalidAccountData);
        }
        Ok(())
    }
}

/// Evaluates the extended-mint shape predicate.
pub fn mint_2022_shape(data: &Vec<u8>) -> (r: bool)
    ensures
        r == mint_2022_shape_ok(data@),
{
    if data.len() == MINT_BASE_LEN {
        return true;
    }
    data.len() > TOKEN_2022_ACCOUNT_DISCRIMINATOR_OFFSET
        && data[TOKEN_2022_ACCOUNT_DISCRIMINATOR_OFFSET] == TOKEN_2022_MINT_DISCRIMINATOR
}

} // verus!
