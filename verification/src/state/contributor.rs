//! The contribution record: one per (campaign, contributor) pair, created
//! lazily on the first contribution and destroyed by a refund.
use vstd::prelude::*;
use vstd::bytes::{
    lemma_auto_spec_u64_to_from_le_bytes, spec_u64_from_le_bytes, spec_u64_to_le_bytes,
    u64_from_le_bytes, u64_to_le_bytes,
};
use vstd::slice::slice_subrange;
use crate::accounts::Pubkey;
use crate::errors::ProgramFailure;
use crate::state::fundraise::read_pubkey;
use crate::state::{push_bytes, SetInner};

verus! {

/// Exact byte length of an encoded contribution record.
pub const CONTRIBUTOR_LEN: usize = 73;

/// The seed label under which contribution record addresses are derived:
/// the bytes of "contributor".
pub open spec fn contributor_prefix() -> Seq<u8> {
    seq![99u8, 111u8, 110u8, 116u8, 114u8, 105u8, 98u8, 117u8, 116u8, 111u8, 114u8]
}

/// The seed label for contribution records, as bytes.
pub fn contributor_prefix_bytes() -> (r: Vec<u8>)
    ensures
        r@ == contributor_prefix(),
{
    let mut v: Vec<u8> = Vec::new();
    v.push(99);
    v.push(111);
    v.push(110);
    v.push(116);
    v.push(114);
    v.push(105);
    v.push(98);
    v.push(117);
    v.push(116);
    v.push(111);
    v.push(114);
    proof {
        assert(v@ =~= contributor_prefix());
    }
    v
}

/// One contributor's cumulative live deposit into one campaign.
pub struct Contributor {
    /// The campaign this contribution belongs to.
    pub fundraise: Pubkey,
    /// The contributor's identity; only it may trigger mutation.
    pub authority: Pubkey,
    /// Cumulative amount deposited and not yet withdrawn.
    pub amount: u64,
    /// The nonce that made the record's derived address valid.
    pub bump: u8,
}

impl Contributor {
    /// The exact little-endian byte encoding of this record.
    pub open spec fn encoded(self) -> Seq<u8> {
        self.fundraise@ + self.authority@ + spec_u64_to_le_bytes(self.amount) + seq![self.bump]
    }

    /// Serializes the record into its fixed 73-byte layout.
    pub fn to_bytes(&self) -> (r: Vec<u8>)
        ensures
            r@ == self.encoded(),
            r@.len() == CONTRIBUTOR_LEN,
    {
        let mut v: Vec<u8> = Vec::new();
        push_bytes(&mut v, self.fundraise.as_slice());
        push_bytes(&mut v, self.authority.as_slice());
        let mut amount = u64_to_le_bytes(self.amount);
        v.append(&mut amount);
        v.push(self.bump);
        proof {
            lemma_auto_spec_u64_to_from_le_bytes();
            assert(v@ =~= self.encoded());
        }
        v
    }

    /// Deserializes a record from a buffer, failing unless the buffer length
    /// exactly matches the declared record size.
    pub fn load(bytes: &[u8]) -> (r: Result<Contributor, ProgramFailure>)
        ensures
            r is Ok <==> bytes@.len() == CONTRIBUTOR_LEN,
            r matches Ok(c) ==> {
                &&& c.fundraise@ == bytes@.subrange(0, 32)
                &&& c.authority@ == bytes@.subrange(32, 64)
                &&& c.amount == spec_u64_from_le_bytes(bytes@.subrange(64, 72))
                &&& c.bump == bytes@[72]
                &&& c.encoded() == bytes@
            },
            r matches Err(e) ==> e == ProgramFailure::InvalidAccountData,
    {
        if bytes.len() != CONTRIBUTOR_LEN {
            return Err(ProgramFailure::InvalidAccountData);
        }
        let fundraise = read_pubkey(bytes, 0);
        let authority = read_pubkey(bytes, 32);
        let amount = u64_from_le_bytes(slice_subrange(bytes, 64, 72));
        let bump = bytes[72];
        let c = Contributor { fundraise, authority, amount, bump };
        proof {
            lemma_auto_spec_u64_to_from_le_bytes();
            assert(c.encoded() =~= bytes@);
        }
        Ok(c)
    }

    /// The cumulative live deposit.
    pub fn get_amount(&self) -> (r: u64)
        ensures
            r == self.amount,
    {
        self.amount
    }

    /// Replaces the cumulative deposit.
    pub fn set_amount(&mut self, amount: u64)
        ensures
            *final(self) == (Contributor { amount, ..*old(self) }),
    {
        self.amount = amount;
    }
}

/// The parameter bundle a fresh contribution record is initialized from; the
/// deposit always starts at zero.
pub struct ContributorParams {
    pub fundraise: Pubkey,
    pub authority: Pubkey,
    pub bump: u8,
}

impl ContributorParams {
    /// Bundles the creation parameters of a contribution record.
    pub fn new(fundraise: Pubkey, authority: Pubkey, bump: u8) -> (r: ContributorParams)
        ensures
            r == (ContributorParams { fundraise, authority, bump }),
    {
        ContributorParams { fundraise, authority, bump }
    }
}

impl crate::state::Prefix for Contributor {
    open spec fn prefix_spec() -> Seq<u8> {
        contributor_prefix()
    }

    fn prefix() -> Vec<u8> {
        contributor_prefix_bytes()
    }
}

impl crate::state::Space for Contributor {
    open spec fn len_spec() -> int {
        CONTRIBUTOR_LEN as int
    }

    fn len() -> usize {
        CONTRIBUTOR_LEN
    }
}

impl SetInner for Contributor {
    type Params = ContributorParams;

    open spec fn inner_from(params: ContributorParams) -> Contributor {
        Contributor {
            fundraise: params.fundraise,
            authority: params.authority,
            amount: 0,
            bump: params.bump,
        }
    }

    fn set_inner(&mut self, params: ContributorParams) {
        self.fundraise = params.fundraise;
        self.authority = params.authority;
        self.amount = 0;
        self.bump = params.bump;
    }
}

} // verus!
