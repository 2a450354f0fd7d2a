//! On-ledger logic of a crowdfunding program: a maker opens a campaign with a
//! fixed target, contributors deposit a fungible asset into a custodial vault
//! during a bounded window, the maker claims the pool once the target is met,
//! and contributors can reclaim their deposits while the target is unmet.
//!
//! Every instruction is modelled as a pure decision function from untrusted
//! account snapshots, the instruction payload, and host-supplied facts (the
//! clock, derivation nonces) to either a typed failure or a set of effects
//! (record writes, asset transfers, account creations and closures) that the
//! surrounding runtime carries out atomically.
use vstd::prelude::*;
use vstd::slice::slice_subrange;
use crate::accounts::{AccountState, ProgramIds};
use crate::errors::ProgramFailure;
use crate::instructions::claim::{claim_spec, Claim, ClaimEffects};
use crate::instructions::contribute::{contribute_spec, Contribute, ContributeEffects};
use crate::instructions::initialize::{initialize_spec, Initialize, InitializeEffects};
use crate::instructions::refund::{refund_spec, Refund, RefundEffects};
use crate::instructions::{
    HostContext, CLAIM_DISCRIMINATOR, CONTRIBUTE_DISCRIMINATOR, INITIALIZE_DISCRIMINATOR,
    REFUND_DISCRIMINATOR,
};

pub mod accounting;
pub mod accounts;
pub mod constants;
pub mod errors;
pub mod rules;
pub mod helpers;
pub mod instructions;
pub mod pda;
pub mod state;

verus! {

/// The effects of whichever instruction was dispatched.
pub enum InstructionEffects {
    Initialize(InitializeEffects),
    Contribute(ContributeEffects),
    Refund(RefundEffects),
    Claim(ClaimEffects),
}

/// The whole dispatch decision: the first payload byte selects the
/// instruction, the rest is its payload; an empty payload or an unknown
/// discriminator is rejected.
pub open spec fn process_instruction_spec(
    accounts: Seq<AccountState>,
    instruction_data: Seq<u8>,
    ctx: HostContext,
    ids: ProgramIds,
) -> Result<InstructionEffects, ProgramFailure> {
    if instruction_data.len() == 0 {
        Err(ProgramFailure::InvalidInstructionData)
    } else {
        let payload = instruction_data.subrange(1, instruction_data.len() as int);
        if instruction_data[0] == INITIALIZE_DISCRIMINATOR {
            match initialize_spec(accounts, payload, ctx, ids) {
                Err(e) => Err(e),
                Ok(e) => Ok(InstructionEffects::Initialize(e)),
            }
        } else if instruction_data[0] == CONTRIBUTE_DISCRIMINATOR {
            match contribute_spec(accounts, payload, ctx, ids) {
                Err(e) => Err(e),
                Ok(e) => Ok(InstructionEffects::Contribute(e)),
            }
        } else if instruction_data[0] == REFUND_DISCRIMINATOR {
            match refund_spec(accounts, ctx, ids) {
                Err(e) => Err(e),
                Ok(e) => Ok(InstructionEffects::Refund(e)),
            }
        } else if instruction_data[0] == CLAIM_DISCRIMINATOR {
            match claim_spec(accounts, ctx, ids) {
                Err(e) => Err(e),
                Ok(e) => Ok(InstructionEffects::Claim(e)),
            }
        } else {
            Err(ProgramFailure::InvalidInstructionData)
        }
    }
}

/// Reads the one-byte discriminator and routes to the matching handler.
pub fn process_instruction(
    accounts: &Vec<AccountState>,
    instruction_data: &Vec<u8>,
    ctx: &HostContext,
    ids: &ProgramIds,
) -> (r: Result<InstructionEffects, ProgramFailure>)
    ensures
        r == process_instruction_spec(accounts@, instruction_data@, *ctx, *ids),
{
    if instruction_data.len() == 0 {
        return Err(ProgramFailure::InvalidInstructionData);
    }
    let discriminator = instruction_data[0];
    let payload = slice_subrange(instruction_data.as_slice(), 1, instruction_data.len());
    if discriminator == INITIALIZE_DISCRIMINATOR {
        let handler = match Initialize::try_from(payload, accounts, ctx, ids) {
            Err(e) => {
                return Err(e);
            },
            Ok(h) => h,
        };
        match handler.process(ctx, ids) {
            Err(e) => Err(e),
            Ok(e) => Ok(InstructionEffects::Initialize(e)),
        }
    } else if discriminator == CONTRIBUTE_DISCRIMINATOR {
        let handler = match Contribute::try_from(payload, accounts, ctx, ids) {
            Err(e) => {
                return Err(e);
            },
            Ok(h) => h,
        };
        match handler.process(ctx, ids) {
            Err(e) => Err(e),
            Ok(e) => Ok(InstructionEffects::Contribute(e)),
        }
    } else if discriminator == REFUND_DISCRIMINATOR {
        let handler = match Refund::try_from(accounts, ctx, ids) {
            Err(e) => {
                return Err(e);
            },
            Ok(h) => h,
        };
        match handler.process(ctx, ids) {
            Err(e) => Err(e),
            Ok(e) => Ok(InstructionEffects::Refund(e)),
        }
    } else if discriminator == CLAIM_DISCRIMINATOR {
        let handler = match Claim::try_from(accounts, ctx, ids) {
            Err(e) => {
                return Err(e);
            },
            Ok(h) => h,
        };
        match handler.process(ctx, ids) {
            Err(e) => Err(e),
            Ok(e) => Ok(InstructionEffects::Claim(e)),
        }
    } else {
        Err(ProgramFailure::InvalidInstructionData)
    }
}

} // verus!
