//! The signer check: did this account authorize the current call?
use vstd::prelude::*;
use crate::accounts::{AccountState, ProgramIds};
use crate::errors::{FundraiserError, ProgramFailure};
use crate::helpers::AccountCheck;

verus! {

/// Accepts only accounts that signed the current call.
pub struct SignerAccount;

impl AccountCheck for SignerAccount {
    open spec fn check_spec(account: AccountState, ids: ProgramIds) -> Result<(), ProgramFailure> {
        if account.is_signer {
            Ok(())
        } else {
            Err(ProgramFailure::Fundraiser(FundraiserError::NotSigner))
        }
    }

    fn check(account: &AccountState, ids: &ProgramIds) -> Result<(), ProgramFailure> {
        if !account.is_signer {
            return Err(ProgramFailure::Fundraiser(FundraiserError::NotSigner));
        }
        Ok(())
    }
}

} // verus!
