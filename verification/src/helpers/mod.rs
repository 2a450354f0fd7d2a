//! Account capability checks: composable, short-circuiting predicates applied
//! to raw account snapshots before any instruction trusts their contents.
//! None of them mutates state.
use vstd::prelude::*;
use crate::accounts::{AccountState, ProgramIds};
use crate::errors::ProgramFailure;

pub mod associated_token;
pub mod mint;
pub mod mint_2022;
pub mod mint_interface;
pub mod program;
pub mod signer;
pub mod system;
pub mod token;
pub mod token_2022;
pub mod token_interface;

verus! {

/// Byte length of an asset-mint record under either transfer variant.
pub const MINT_BASE_LEN: usize = 82;

/// Byte length of a holding account record under either transfer variant.
pub const TOKEN_ACCOUNT_BASE_LEN: usize = 165;

/// Offset of the record-kind byte in extended-variant accounts that carry
/// extensions beyond the base layout.
pub const TOKEN_2022_ACCOUNT_DISCRIMINATOR_OFFSET: usize = 165;

/// Record-kind byte marking an extended-variant mint.
pub const TOKEN_2022_MINT_DISCRIMINATOR: u8 = 0x01;

/// Record-kind byte marking an extended-variant holding account.
pub const TOKEN_2022_TOKEN_ACCOUNT_DISCRIMINATOR: u8 = 0x02;

/// A pure validation predicate over one account snapshot.
pub trait AccountCheck {
    /// What the check decides for a given account.
    spec fn check_spec(account: AccountState, ids: ProgramIds) -> Result<(), ProgramFailure>;

    /// Evaluates the check.
    fn check(account: &AccountState, ids: &ProgramIds) -> (r: Result<(), ProgramFailure>)
        ensures
            r == Self::check_spec(*account, *ids),
    ;
}

} // verus!
