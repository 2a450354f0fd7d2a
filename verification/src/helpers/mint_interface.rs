//! The variant-agnostic mint check, plus the decimal-precision reader.
//!
//! Two interchangeable asset-transfer variants exist; this check accepts a
//! mint owned by whichever variant's program, and rejects any other owner.
use vstd::prelude::*;
use crate::accounts::{pubkey_eq, AccountState, ProgramIds};
use crate::errors::ProgramFailure;
use crate::helpers::mint_2022::{mint_2022_shape, mint_2022_shape_ok};
use crate::helpers::{AccountCheck, MINT_BASE_LEN};

verus! {

/// Offset of the decimal-precision byte in a mint record.
pub const MINT_DECIMALS_OFFSET: usize = 44;

/// Accepts a well-shaped mint under either transfer variant.
pub struct MintInterface;

impl AccountCheck for MintInterface {
    open spec fn check_spec(account: AccountState, ids: ProgramIds) -> Result<(), ProgramFailure> {
        if account.owner == ids.token_2022 {
            if mint_2022_shape_ok(account.data@) {
                Ok(())
            } else {
                Err(ProgramFailure::InvalidAccountData)
            }
        } else if account.owner != ids.token {
            Err(ProgramFailure::InvalidAccountOwner)
        } else if account.data@.len() != MINT_BASE_LEN {
            Err(ProgramFailure::InvalidAccountData)
        } else {
            Ok(())
        }
    }

    fn check(account: &AccountState, ids: &ProgramIds) -> Result<(), ProgramFailure> {
        if pubkey_eq(&account.owner, &ids.token_2022) {
            if !mint_2022_shape(&account.data) {
                return Err(ProgramFailure::InvalidAccountData);
            }
        } else if !pubkey_eq(&account.owner, &ids.token) {
            return Err(ProgramFailure::InvalidAccountOwner);
        } else if account.data.len() != MINT_BASE_LEN {
            return Err(ProgramFailure::InvalidAccountData);
        }
        Ok(())
    }
}

impl MintInterface {
    /// What reading the decimal precision yields: the decimals byte of a mint
    /// owned by either variant, IncorrectProgramId for any other owner, and
    /// InvalidAccountData for a buffer too short to hold the byte.
    pub open spec fn decimals_spec(account: AccountState, ids: ProgramIds) -> Result<
        u8,
        ProgramFailure,
    > {
        if account.owner == ids.token || account.owner == ids.token_2022 {
            if account.data@.len() > MINT_DECIMALS_OFFSET {
                Ok(account.data@[MINT_DECIMALS_OFFSET as int])
            } else {
                Err(ProgramFailure::InvalidAccountData)
            }
        } else {
            Err(ProgramFailure::IncorrectProgramId)
        }
    }

    /// Reads the mint's decimal precision under whichever variant owns it.
    pub fn decimals(account: &AccountState, ids: &ProgramIds) -> (r: Result<u8, ProgramFailure>)
        ensures
            r == Self::decimals_spec(*account, *ids),
    {
        if pubkey_eq(&account.owner, &ids.token) || pubkey_eq(&account.owner, &ids.token_2022) {
            if account.data.len() > MINT_DECIMALS_OFFSET {
                Ok(account.data[MINT_DECIMALS_OFFSET])
            } else {
                Err(ProgramFailure::InvalidAccountData)
            }
        } else {
            Err(ProgramFailure::IncorrectProgramId)
        }
    }
}

} // verus!
