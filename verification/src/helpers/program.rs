//! The ownership check and address re-derivation for this program's own
//! record accounts, plus the record-closing discipline.
use vstd::prelude::*;
use crate::accounts::{pubkey_eq, AccountState, ProgramIds, Pubkey};
use crate::errors::{FundraiserError, ProgramFailure};
use crate::helpers::AccountCheck;
use crate::pda::{derive_address_2, derive_address_3, derived_address};

verus! {

/// Accepts only record accounts owned by this program, and re-derives their
/// addresses from the fields stored inside them.
pub struct ProgramAccount;

impl AccountCheck for ProgramAccount {
    open spec fn check_spec(account: AccountState, ids: ProgramIds) -> Result<(), ProgramFailure> {
        if account.owner == ids.program {
            Ok(())
        } else {
            Err(ProgramFailure::InvalidAccountOwner)
        }
    }

    fn check(account: &AccountState, ids: &ProgramIds) -> Result<(), ProgramFailure> {
        if !pubkey_eq(&account.owner, &ids.program) {
            return Err(ProgramFailure::InvalidAccountOwner);
        }
        Ok(())
    }
}

impl ProgramAccount {
    /// What re-derivation decides: the observed address must be exactly the
    /// derivation of the given seeds and bump under this program.
    pub open spec fn validate_spec(
        seeds: Seq<Seq<u8>>,
        bump: u8,
        address: Pubkey,
        ids: ProgramIds,
    ) -> Result<(), ProgramFailure> {
        if address@ == derived_address(seeds, bump, ids.program@) {
            Ok(())
        } else {
            Err(ProgramFailure::Fundraiser(FundraiserError::InvalidAddress))
        }
    }

    /// Re-derives a record address from its seeds and stored bump and fails
    /// with InvalidAddress unless it reproduces the observed address.
    pub fn validate(
        seeds: &Vec<Vec<u8>>,
        bump: u8,
        address: &Pubkey,
        ids: &ProgramIds,
    ) -> (r: Result<(), ProgramFailure>)
        requires
            seeds@.len() == 2 || seeds@.len() == 3,
        ensures
            r == Self::validate_spec(
                seeds@.map_values(|s: Vec<u8>| s@),
                bump,
                *address,
                *ids,
            ),
    {
        let pda: Pubkey = if seeds.len() == 2 {
            derive_address_2(seeds[0].as_slice(), seeds[1].as_slice(), bump, &ids.program)
        } else {
            derive_address_3(
                seeds[0].as_slice(),
                seeds[1].as_slice(),
                seeds[2].as_slice(),
                bump,
                &ids.program,
            )
        };
        proof {
            assert(seeds@.map_values(|s: Vec<u8>| s@) =~= if seeds@.len() == 2 {
                seq![seeds@[0]@, seeds@[1]@]
            } else {
                seq![seeds@[0]@, seeds@[1]@, seeds@[2]@]
            });
        }
        if !pubkey_eq(address, &pda) {
            return Err(ProgramFailure::Fundraiser(FundraiserError::InvalidAddress));
        }
        proof {
            assert(address@ =~= pda@);
        }
        Ok(())
    }

    /// Closes a record account: tombstones its data down to a single marker
    /// byte and moves its whole balance to the destination account, so the
    /// record no longer matches any declared record shape.
    pub fn close(account: &mut AccountState, destination: &mut AccountState)
        requires
            old(destination).lamports + old(account).lamports <= u64::MAX,
        ensures
            final(account).data@ == seq![0xffu8],
            final(account).lamports == 0,
            final(account).key == old(account).key,
            final(account).owner == old(account).owner,
            final(account).is_signer == old(account).is_signer,
            *final(destination) == (AccountState {
                lamports: (old(destination).lamports + old(account).lamports) as u64,
                ..*old(destination)
            }),
    {
        let mut tombstone: Vec<u8> = Vec::new();
        tombstone.push(0xff);
        proof {
            assert(tombstone@ =~= seq![0xffu8]);
        }
        account.data = tombstone;
        destination.lamports = destination.lamports + account.lamports;
        account.lamports = 0;
    }
}

} // verus!
