//! The variant-agnostic holding-account check, plus the balance reader.
use vstd::prelude::*;
use vstd::bytes::{spec_u64_from_le_bytes, u64_from_le_bytes};
use vstd::slice::slice_subrange;
use crate::accounts::{pubkey_eq, AccountState, ProgramIds};
use crate::errors::ProgramFailure;
use crate::helpers::{AccountCheck, TOKEN_ACCOUNT_BASE_LEN};

verus! {

/// Offset of the little-endian balance field in a holding-account record.
pub const TOKEN_ACCOUNT_AMOUNT_OFFSET: usize = 64;

/// Accepts a base-layout holding account under either transfer variant.
pub struct TokenAccountInterface;

impl AccountCheck for TokenAccountInterface {
    open spec fn check_spec(account: AccountState, ids: ProgramIds) -> Result<(), ProgramFailure> {
        if account.owner == ids.token_2022 {
            if account.data@.len() != TOKEN_ACCOUNT_BASE_LEN {
                Err(ProgramFailure::InvalidAccountData)
            } else {
                Ok(())
            }
        } else if account.owner != ids.token {
            Err(ProgramFailure::InvalidAccountOwner)
        } else if account.data@.len() != TOKEN_ACCOUNT_BASE_LEN {
            Err(ProgramFailure::InvalidAccountData)
        } else {
            Ok(())
        }
    }

    fn check(account: &AccountState, ids: &ProgramIds) -> Result<(), ProgramFailure> {
        if pubkey_eq(&account.owner, &ids.token_2022) {
            if account.data.len() != TOKEN_ACCOUNT_BASE_LEN {
                return Err(ProgramFailure::InvalidAccountData);
            }
        } else if !pubkey_eq(&account.owner, &ids.token) {
            return Err(ProgramFailure::InvalidAccountOwner);
        } else if account.data.len() != TOKEN_ACCOUNT_BASE_LEN {
            return Err(ProgramFailure::InvalidAccountData);
        }
        Ok(())
    }
}

impl TokenAccountInterface {
    /// What reading a holding account's balance yields: the little-endian
    /// balance field of an account owned by either variant, IncorrectProgramId
    /// for any other owner, and InvalidAccountData for a buffer too short to
    /// hold the field.
    pub open spec fn amount_spec(account: AccountState, ids: ProgramIds) -> Result<
        u64,
        ProgramFailure,
    > {
        if account.owner == ids.token || account.owner == ids.token_2022 {
            if account.data@.len() >= TOKEN_ACCOUNT_AMOUNT_OFFSET + 8 {
                Ok(
                    spec_u64_from_le_bytes(
                        account.data@.subrange(
                            TOKEN_ACCOUNT_AMOUNT_OFFSET as int,
                            TOKEN_ACCOUNT_AMOUNT_OFFSET + 8,
                        ),
                    ),
                )
            } else {
                Err(ProgramFailure::InvalidAccountData)
            }
        } else {
            Err(ProgramFailure::IncorrectProgramId)
        }
    }

    /// Reads the holding account's current balance under whichever variant
    /// owns it.
    pub fn amount(account: &AccountState, ids: &ProgramIds) -> (r: Result<u64, ProgramFailure>)
        ensures
            r == Self::amount_spec(*account, *ids),
    {
        if pubkey_eq(&account.owner, &ids.token) || pubkey_eq(&account.owner, &ids.token_2022) {
            if account.data.len() >= TOKEN_ACCOUNT_AMOUNT_OFFSET + 8 {
                Ok(
                    u64_from_le_bytes(
                        slice_subrange(
                            account.data.as_slice(),
                            TOKEN_ACCOUNT_AMOUNT_OFFSET,
                            TOKEN_ACCOUNT_AMOUNT_OFFSET + 8,
                        ),
                    ),
                )
            } else {
                Err(ProgramFailure::InvalidAccountData)
            }
        } else {
            Err(ProgramFailure::IncorrectProgramId)
        }
    }
}

} // verus!
