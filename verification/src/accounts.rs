//! Plain-value snapshots of the ledger accounts an instruction receives.
//!
//! The host runtime hands each instruction a list of untrusted account
//! references. The decision core never trusts their contents before the
//! capability checks have passed, and it only ever needs a few plain facts
//! about each account: its address, the program that owns it, whether it
//! signed the current call, its balance in native units, and its raw data.
use vstd::prelude::*;

verus! {

broadcast use vstd::array::group_array_axioms;

/// A 32-byte account address.
pub type Pubkey = [u8; 32];

/// Everything the decision core may read about one account.
#[derive(Clone)]
pub struct AccountState {
    /// The account's address.
    pub key: Pubkey,
    /// The program that owns the account.
    pub owner: Pubkey,
    /// Whether the account authorized the current call.
    pub is_signer: bool,
    /// The account's balance in native units (rent funding).
    pub lamports: u64,
    /// The account's raw record data.
    pub data: Vec<u8>,
}

/// The identities of the programs this logic works with, injected once by the
/// host process and read-only thereafter.
pub struct ProgramIds {
    /// This program's own identity; it owns every campaign and contribution
    /// record.
    pub program: Pubkey,
    /// The account-creation / rent-funding program.
    pub system: Pubkey,
    /// The legacy asset-transfer program.
    pub token: Pubkey,
    /// The extended asset-transfer program.
    pub token_2022: Pubkey,
    /// The program under which custodial vault addresses are derived.
    pub associated_token: Pubkey,
}

/// The address whose view is the given 32-byte sequence.
pub open spec fn pubkey_of_seq(s: Seq<u8>) -> Pubkey {
    choose|a: Pubkey| a@ == s
}

/// Every address is recovered from its own view.
pub proof fn lemma_pubkey_of_seq(a: Pubkey)
    ensures
        pubkey_of_seq(a@) == a,
{
    assert(a@ == a@);
    let b = pubkey_of_seq(a@);
    assert(b@ == a@);
    assert(b =~= a);
}

/// Byte-for-byte equality of two addresses.
pub fn pubkey_eq(a: &Pubkey, b: &Pubkey) -> (r: bool)
    ensures
        r <==> a == b,
        r <==> a@ == b@,
{
    let mut i: usize = 0;
    while i < 32
        invariant
            i <= 32,
            forall|j: int| 0 <= j < i ==> a@[j] == b@[j],
        decreases 32 - i,
    {
        if a[i] != b[i] {
            return false;
        }
        i += 1;
    }
    proof {
        assert(a@ =~= b@);
        assert(*a =~= *b);
    }
    true
}

} // verus!
