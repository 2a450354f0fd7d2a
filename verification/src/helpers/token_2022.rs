//! The shape check for holding accounts of the extended transfer variant.
use vstd::prelude::*;
use crate::accounts::{pubkey_eq, AccountState, ProgramIds};
use crate::errors::ProgramFailure;
use crate::helpers::{
    AccountCheck, TOKEN_2022_ACCOUNT_DISCRIMINATOR_OFFSET, TOKEN_2022_TOKEN_ACCOUNT_DISCRIMINATOR,
    TOKEN_ACCOUNT_BASE_LEN,
};

verus! {

/// An extended-variant holding account either has the exact base layout, or
/// carries extensions and marks itself with the holding-account record-kind
/// byte just past the base length.
pub open spec fn token_account_2022_shape_ok(data: Seq<u8>) -> bool {
    ||| data.len() == TOKEN_ACCOUNT_BASE_LEN
    ||| (data.len() > TOKEN_2022_ACCOUNT_DISCRIMINATOR_OFFSET
        && data[TOKEN_2022_ACCOUNT_DISCRIMINATOR_OFFSET as int]
            == TOKEN_2022_TOKEN_ACCOUNT_DISCRIMINATOR)
}

/// Accepts only holding accounts owned by the extended transfer program whose
/// data has a valid extended shape.
pub struct TokenAccount2022Account;

impl AccountCheck for TokenAccount2022Account {
    open spec fn check_spec(account: AccountState, ids: ProgramIds) -> Result<(), ProgramFailure> {
        if account.owner != ids.token_2022 {
            Err(ProgramFailure::InvalidAccountOwner)
        } else if !token_account_2022_shape_ok(account.data@) {
            Err(ProgramFailure::InvalidAccountData)
        } else {
            Ok(())
        }
    }

    fn check(account: &AccountState, ids: &ProgramIds) -> Result<(), ProgramFailure> {
        if !pubkey_eq(&account.owner, &ids.token_2022) {
            return Err(ProgramFailure::InvalidAccountOwner);
        }
        if !token_account_2022_shape(&account.data) {
            return Err(ProgramFailure::InvalidAccountData);
        }
        Ok(())
    }
}

/// Evaluates the extended holding-account shape predicate.
pub fn token_account_2022_shape(data: &Vec<u8>) -> (r: bool)
    ensures
        r == token_account_2022_shape_ok(data@),
{
    if data.len() == TOKEN_ACCOUNT_BASE_LEN {
        return true;
    }
    data.len() > TOKEN_2022_ACCOUNT_DISCRIMINATOR_OFFSET
        && data[TOKEN_2022_ACCOUNT_DISCRIMINATOR_OFFSET]
            == TOKEN_2022_TOKEN_ACCOUNT_DISCRIMINATOR
}

} // verus!
