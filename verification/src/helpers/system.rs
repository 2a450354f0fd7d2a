//! The ownership check for accounts of the account-creation program.
use vstd::prelude::*;
use crate::accounts::{pubkey_eq, AccountState, ProgramIds};
use crate::errors::ProgramFailure;
use crate::helpers::AccountCheck;

verus! {

/// Accepts only accounts owned by the account-creation program.
pub struct SystemAccount;

impl AccountCheck for SystemAccount {
    open spec fn check_spec(account: AccountState, ids: ProgramIds) -> Result<(), ProgramFailure> {
        if account.owner == ids.system {
            Ok(())
        } else {
            Err(ProgramFailure::InvalidAccountOwner)
        }
    }

    fn check(account: &AccountState, ids: &ProgramIds) -> Result<(), ProgramFailure> {
        if !pubkey_eq(&account.owner, &ids.system) {
            return Err(ProgramFailure::InvalidAccountOwner);
        }
        Ok(())
    }
}

} // verus!
