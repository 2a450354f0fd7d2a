//! The shape check for holding accounts of the legacy transfer variant.
use vstd::prelude::*;
use crate::accounts::{pubkey_eq, AccountState, ProgramIds};
use crate::errors::ProgramFailure;
use crate::helpers::{AccountCheck, TOKEN_ACCOUNT_BASE_LEN};

verus! {

/// Accepts only holding accounts owned by the legacy transfer program with
/// the exact base layout.
pub struct TokenAccount;

impl AccountCheck for TokenAccount {
    open spec fn check_spec(account: AccountState, ids: ProgramIds) -> Result<(), ProgramFailure> {
        if account.owner != ids.token {
            Err(ProgramFailure::InvalidAccountOwner)
        } else if account.data@.len() != TOKEN_ACCOUNT_BASE_LEN {
            Err(ProgramFailure::InvalidAccountData)
        } else {
            Ok(())
        }
    }

    fn check(account: &AccountState, ids: &ProgramIds) -> Result<(), ProgramFailure> {
        if !pubkey_eq(&account.owner, &ids.token) {
            return Err(ProgramFailure::InvalidAccountOwner);
        }
        if account.data.len() != TOKEN_ACCOUNT_BASE_LEN {
            return Err(ProgramFailure::InvalidAccountData);
        }
        Ok(())
    }
}

} // verus!
