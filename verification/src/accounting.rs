//! The campaign-wide accounting laws.
//!
//! A campaign's `current_amount` must always equal the sum of the live
//! contribution records that reference it. The lemmas here prove that a
//! successful Contribute and a successful Refund both preserve that
//! invariant, that no Contribute can push a contribution record past the
//! basis-point cap, that a tombstoned contribution record can never be
//! refunded again, and that Claim empties the vault exactly when the target
//! is met.
use vstd::prelude::*;
use vstd::bytes::spec_u64_from_le_bytes;
use crate::accounts::{AccountState, ProgramIds};
use crate::errors::{FundraiserError, ProgramFailure};
use crate::helpers::token_interface::TokenAccountInterface;
use crate::instructions::contribute::contribute_process;
use crate::instructions::claim::claim_process;
use crate::instructions::refund::refund_spec;
use crate::instructions::HostContext;
use crate::rules::contribution_cap;
use crate::state::fundraise::FUNDRAISE_LEN;

verus! {

/// The sum of a sequence of contribution amounts.
pub open spec fn seq_sum(s: Seq<u64>) -> int
    decreases s.len(),
{
    if s.len() == 0 {
        0
    } else {
        seq_sum(s.drop_last()) + s.last()
    }
}

/// Appending one amount grows the sum by that amount.
pub proof fn lemma_seq_sum_push(s: Seq<u64>, v: u64)
    ensures
        seq_sum(s.push(v)) == seq_sum(s) + v,
{
    assert(s.push(v).drop_last() =~= s);
}

/// Replacing one amount changes the sum by the difference.
pub proof fn lemma_seq_sum_update(s: Seq<u64>, i: int, v: u64)
    requires
        0 <= i < s.len(),
    ensures
        seq_sum(s.update(i, v)) == seq_sum(s) - s[i] + v,
    decreases s.len(),
{
    if i == s.len() - 1 {
        assert(s.update(i, v).drop_last() =~= s.drop_last());
    } else {
        assert(s.update(i, v).drop_last() =~= s.drop_last().update(i, v));
        lemma_seq_sum_update(s.drop_last(), i, v);
    }
}

/// Removing one amount shrinks the sum by that amount.
pub proof fn lemma_seq_sum_remove(s: Seq<u64>, i: int)
    requires
        0 <= i < s.len(),
    ensures
        seq_sum(s.remove(i)) == seq_sum(s) - s[i],
    decreases s.len(),
{
    if i == s.len() - 1 {
        assert(s.remove(i) =~= s.drop_last());
    } else {
        assert(s.remove(i).drop_last() =~= s.drop_last().remove(i));
        assert(s.remove(i).last() == s.last());
        lemma_seq_sum_remove(s.drop_last(), i);
    }
}

/// The accounting invariant: a campaign's running sum equals the sum of the
/// live contribution amounts that reference it.
pub open spec fn accounting_ok(current_amount: u64, contributions: Seq<u64>) -> bool {
    current_amount == seq_sum(contributions)
}

/// A successful Contribute preserves the accounting invariant: the updated
/// campaign sum equals the sum of the live contributions after this
/// contributor's entry is updated (or appended, on a first deposit).
pub proof fn lemma_contribute_preserves_accounting(
    authority: AccountState,
    mint_to_raise: AccountState,
    fundraise_account: AccountState,
    contributor_account: AccountState,
    authority_token_account: AccountState,
    vault: AccountState,
    amount: u64,
    bump: u8,
    now: i64,
    ids: ProgramIds,
    contributions: Seq<u64>,
    idx: int,
)
    requires
        contribute_process(
            authority,
            mint_to_raise,
            fundraise_account,
            contributor_account,
            authority_token_account,
            vault,
            amount,
            bump,
            now,
            ids,
        ) is Ok,
        accounting_ok(
            spec_u64_from_le_bytes(fundraise_account.data@.subrange(72, 80)),
            contributions,
        ),
        contributor_account.owner == ids.program ==> {
            &&& 0 <= idx < contributions.len()
            &&& contributions[idx] == spec_u64_from_le_bytes(
                contributor_account.data@.subrange(64, 72),
            )
        },
    ensures
        contribute_process(
            authority,
            mint_to_raise,
            fundraise_account,
            contributor_account,
            authority_token_account,
            vault,
            amount,
            bump,
            now,
            ids,
        ) matches Ok(e) ==> {
            &&& contributor_account.owner == ids.program ==> accounting_ok(
                e.fundraise.current_amount,
                contributions.update(idx, e.contributor.amount),
            )
            &&& contributor_account.owner != ids.program ==> accounting_ok(
                e.fundraise.current_amount,
                contributions.push(e.contributor.amount),
            )
        },
{
    let r = contribute_process(
        authority,
        mint_to_raise,
        fundraise_account,
        contributor_account,
        authority_token_account,
        vault,
        amount,
        bump,
        now,
        ids,
    );
    let e = r->Ok_0;
    if contributor_account.owner == ids.program {
        lemma_seq_sum_update(contributions, idx, e.contributor.amount);
    } else {
        lemma_seq_sum_push(contributions, e.contributor.amount);
    }
}

/// A successful Refund preserves the accounting invariant: the updated
/// campaign sum equals the sum of the live contributions once this
/// contributor's entry is removed.
pub proof fn lemma_refund_preserves_accounting(
    accounts: Seq<AccountState>,
    ctx: HostContext,
    ids: ProgramIds,
    contributions: Seq<u64>,
    idx: int,
)
    requires
        refund_spec(accounts, ctx, ids) is Ok,
        accounts.len() == 9,
        accounting_ok(
            spec_u64_from_le_bytes(accounts[3].data@.subrange(72, 80)),
            contributions,
        ),
        0 <= idx < contributions.len(),
        contributions[idx] == spec_u64_from_le_bytes(accounts[4].data@.subrange(64, 72)),
    ensures
        refund_spec(accounts, ctx, ids) matches Ok(e) ==> accounting_ok(
            e.fundraise.current_amount,
            contributions.remove(idx),
        ),
{
    lemma_seq_sum_remove(contributions, idx);
}

/// Cap enforcement: no successful Contribute leaves the contribution
/// record's amount above the basis-point cap of the campaign's target.
pub proof fn lemma_contribute_respects_cap(
    authority: AccountState,
    mint_to_raise: AccountState,
    fundraise_account: AccountState,
    contributor_account: AccountState,
    authority_token_account: AccountState,
    vault: AccountState,
    amount: u64,
    bump: u8,
    now: i64,
    ids: ProgramIds,
)
    ensures
        contribute_process(
            authority,
            mint_to_raise,
            fundraise_account,
            contributor_account,
            authority_token_account,
            vault,
            amount,
            bump,
            now,
            ids,
        ) matches Ok(e) ==> e.contributor.amount <= contribution_cap(e.fundraise.amount_to_raise),
{
}

/// No double refund: once a contribution record has been closed down to its
/// one-byte tombstone, every further Refund attempt fails.
pub proof fn lemma_no_double_refund(
    accounts: Seq<AccountState>,
    ctx: HostContext,
    ids: ProgramIds,
)
    requires
        accounts[4].data@ == seq![0xffu8],
    ensures
        refund_spec(accounts, ctx, ids) is Err,
{
}

/// Claim gating: Claim fails with TargetNotMet exactly while the vault's
/// balance is below the target, and otherwise empties the vault's whole
/// balance to the maker's holding account.
pub proof fn lemma_claim_gating(
    maker: AccountState,
    mint_to_raise: AccountState,
    fundraise_account: AccountState,
    vault: AccountState,
    maker_token_account: AccountState,
    token_program: AccountState,
    maker_ata_bump: u8,
    ids: ProgramIds,
)
    requires
        TokenAccountInterface::amount_spec(vault, ids) is Ok,
        fundraise_account.data@.len() == FUNDRAISE_LEN,
    ensures
        ({
            let vault_amount = TokenAccountInterface::amount_spec(vault, ids)->Ok_0;
            let target = spec_u64_from_le_bytes(fundraise_account.data@.subrange(64, 72));
            let r = claim_process(
                maker,
                mint_to_raise,
                fundraise_account,
                vault,
                maker_token_account,
                token_program,
                maker_ata_bump,
                ids,
            );
            &&& vault_amount < target ==> r == Err::<
                crate::instructions::claim::ClaimEffects,
                ProgramFailure,
            >(ProgramFailure::Fundraiser(FundraiserError::TargetNotMet))
            &&& vault_amount >= target ==> {
                &&& r is Ok
                &&& r->Ok_0.transfer.amount == vault_amount
                &&& r->Ok_0.transfer.from == vault.key
                &&& r->Ok_0.transfer.to == maker_token_account.key
                &&& r->Ok_0.transfer.authority == fundraise_account.key
            }
        }),
{
}

} // verus!
