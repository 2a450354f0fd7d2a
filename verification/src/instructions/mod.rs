//! Instruction handlers, one per externally dispatchable operation.
//!
//! Each handler is a pure decision function: it parses its accounts and
//! payload, applies the capability checks, executes the business rules, and
//! returns the effects — record writes, asset transfers, account creations
//! and closures — for the host runtime to carry out atomically. A handler
//! never performs outside work itself; host-supplied facts (the clock
//! reading, the derivation nonces found by the host) arrive in a
//! [`HostContext`].
use vstd::prelude::*;
use crate::accounts::Pubkey;

pub mod claim;
pub mod contribute;
pub mod initialize;
pub mod refund;

verus! {

/// Payload discriminator of the Initialize instruction.
pub const INITIALIZE_DISCRIMINATOR: u8 = 0;

/// Payload discriminator of the Contribute instruction.
pub const CONTRIBUTE_DISCRIMINATOR: u8 = 1;

/// Payload discriminator of the Refund instruction.
pub const REFUND_DISCRIMINATOR: u8 = 2;

/// Payload discriminator of the Claim instruction.
pub const CLAIM_DISCRIMINATOR: u8 = 3;

/// Facts only the host runtime can supply: the wall clock and the
/// disambiguation bytes its derivation search found for the addresses the
/// instruction touches. The decision core re-derives every address from
/// these nonces and never trusts an address without that check.
pub struct HostContext {
    /// The wall-clock reading for this invocation.
    pub now: i64,
    /// Nonce for the record address the instruction creates or re-derives:
    /// the campaign record on Initialize, the contribution record on
    /// Contribute.
    pub record_bump: u8,
    /// Nonce for the caller's own holding-account address.
    pub authority_ata_bump: u8,
    /// Nonce for the custodial vault's address.
    pub vault_bump: u8,
    /// Nonce for the maker's holding-account address on Claim.
    pub maker_ata_bump: u8,
}

/// One requested movement of the raised asset between holding accounts.
pub struct TransferRequest {
    /// The holding account debited.
    pub from: Pubkey,
    /// The holding account credited.
    pub to: Pubkey,
    /// The identity that authorizes the movement: the contributor's own
    /// signature on Contribute, the campaign's derived signing authority on
    /// Claim and Refund.
    pub authority: Pubkey,
    /// Base units moved.
    pub amount: u64,
}

/// A request to create a rent-funded record account owned by this program.
pub struct CreateAccountRequest {
    /// Who funds the new account's rent.
    pub payer: Pubkey,
    /// The address the account must be created at.
    pub address: Pubkey,
    /// Exact record size in bytes.
    pub space: u64,
}

/// A request to close an account and return its rent to a destination.
pub struct CloseRequest {
    /// The account to close.
    pub address: Pubkey,
    /// Who receives the closed account's balance.
    pub destination: Pubkey,
}

/// A request to create the canonical holding account for (owner, asset)
/// under a transfer variant.
pub struct CreateVaultRequest {
    /// Who funds the new account's rent.
    pub payer: Pubkey,
    /// The address the holding account must be created at.
    pub address: Pubkey,
    /// The asset the account holds.
    pub mint: Pubkey,
    /// The identity the account belongs to.
    pub owner: Pubkey,
    /// The transfer variant that manages the account.
    pub token_program: Pubkey,
}

} // verus!
