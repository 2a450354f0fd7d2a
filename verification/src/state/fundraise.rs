//! The campaign record: one per maker, created by Initialize.
use vstd::prelude::*;
use vstd::bytes::{
    lemma_auto_spec_u64_to_from_le_bytes, spec_u64_from_le_bytes, spec_u64_to_le_bytes,
    u64_from_le_bytes, u64_to_le_bytes,
};
use vstd::slice::slice_subrange;
use vstd::array::ArrayAdditionalExecFns;
use crate::accounts::{pubkey_eq, Pubkey};
use crate::errors::{FundraiserError, ProgramFailure};
use crate::state::{
    i64_bits, i64_from_bits, i64_of_bits, i64_to_bits, lemma_i64_bits_roundtrip, push_bytes,
    spec_i64_from_le_bytes, spec_i64_to_le_bytes, SetInner,
};

verus! {

/// Exact byte length of an encoded campaign record.
pub const FUNDRAISE_LEN: usize = 97;

/// The seed label under which campaign record addresses are derived:
/// the bytes of "fundraise".
pub open spec fn fundraise_prefix() -> Seq<u8> {
    seq![102u8, 117u8, 110u8, 100u8, 114u8, 97u8, 105u8, 115u8, 101u8]
}

/// The seed label for campaign records, as bytes.
pub fn fundraise_prefix_bytes() -> (r: Vec<u8>)
    ensures
        r@ == fundraise_prefix(),
{
    let mut v: Vec<u8> = Vec::new();
    v.push(102);
    v.push(117);
    v.push(110);
    v.push(100);
    v.push(114);
    v.push(97);
    v.push(105);
    v.push(115);
    v.push(101);
    proof {
        assert(v@ =~= fundraise_prefix());
    }
    v
}

/// One fundraising campaign: who raises, in which asset, how much, how much
/// has come in so far, and the time window.
pub struct Fundraise {
    /// The identity that opened the campaign; set once, never changed.
    pub maker: Pubkey,
    /// The fungible asset being raised; every operation must match it.
    pub mint_to_raise: Pubkey,
    /// The raise goal, fixed at creation.
    pub amount_to_raise: u64,
    /// Running sum of all live contributions to this campaign.
    pub current_amount: u64,
    /// Timestamp at creation.
    pub time_started: i64,
    /// Window length in whole days, fixed at creation.
    pub duration: u64,
    /// The nonce that made the record's derived address valid.
    pub bump: u8,
}

impl Fundraise {
    /// The exact little-endian byte encoding of this record.
    pub open spec fn encoded(self) -> Seq<u8> {
        self.maker@ + self.mint_to_raise@ + spec_u64_to_le_bytes(self.amount_to_raise)
            + spec_u64_to_le_bytes(self.current_amount) + spec_i64_to_le_bytes(self.time_started)
            + spec_u64_to_le_bytes(self.duration) + seq![self.bump]
    }

    /// Serializes the record into its fixed 97-byte layout.
    pub fn to_bytes(&self) -> (r: Vec<u8>)
        ensures
            r@ == self.encoded(),
            r@.len() == FUNDRAISE_LEN,
    {
        let mut v: Vec<u8> = Vec::new();
        push_bytes(&mut v, self.maker.as_slice());
        push_bytes(&mut v, self.mint_to_raise.as_slice());
        let mut amount = u64_to_le_bytes(self.amount_to_raise);
        v.append(&mut amount);
        let mut current = u64_to_le_bytes(self.current_amount);
        v.append(&mut current);
        let mut time = u64_to_le_bytes(i64_to_bits(self.time_started));
        v.append(&mut time);
        let mut duration = u64_to_le_bytes(self.duration);
        v.append(&mut duration);
        v.push(self.bump);
        proof {
            lemma_auto_spec_u64_to_from_le_bytes();
            assert(v@ =~= self.encoded());
        }
        v
    }

    /// Deserializes a record from a buffer, failing unless the buffer length
    /// exactly matches the declared record size.
    pub fn load(bytes: &[u8]) -> (r: Result<Fundraise, ProgramFailure>)
        ensures
            r is Ok <==> bytes@.len() == FUNDRAISE_LEN,
            r matches Ok(f) ==> {
                &&& f.maker@ == bytes@.subrange(0, 32)
                &&& f.mint_to_raise@ == bytes@.subrange(32, 64)
                &&& f.amount_to_raise == spec_u64_from_le_bytes(bytes@.subrange(64, 72))
                &&& f.current_amount == spec_u64_from_le_bytes(bytes@.subrange(72, 80))
                &&& f.time_started == spec_i64_from_le_bytes(bytes@.subrange(80, 88))
                &&& f.duration == spec_u64_from_le_bytes(bytes@.subrange(88, 96))
                &&& f.bump == bytes@[96]
                &&& f.encoded() == bytes@
            },
            r matches Err(e) ==> e == ProgramFailure::InvalidAccountData,
    {
        if bytes.len() != FUNDRAISE_LEN {
            return Err(ProgramFailure::InvalidAccountData);
        }
        let maker = read_pubkey(bytes, 0);
        let mint_to_raise = read_pubkey(bytes, 32);
        let amount_to_raise = u64_from_le_bytes(slice_subrange(bytes, 64, 72));
        let current_amount = u64_from_le_bytes(slice_subrange(bytes, 72, 80));
        let time_started = i64_of_bits(u64_from_le_bytes(slice_subrange(bytes, 80, 88)));
        let duration = u64_from_le_bytes(slice_subrange(bytes, 88, 96));
        let bump = bytes[96];
        let f = Fundraise { maker, mint_to_raise, amount_to_raise, current_amount, time_started, duration, bump };
        proof {
            lemma_auto_spec_u64_to_from_le_bytes();
            lemma_i64_bits_roundtrip(0, spec_u64_from_le_bytes(bytes@.subrange(80, 88)));
            assert(f.encoded() =~= bytes@);
        }
        Ok(f)
    }

    /// The raise goal.
    pub fn get_amount_to_raise(&self) -> (r: u64)
        ensures
            r == self.amount_to_raise,
    {
        self.amount_to_raise
    }

    /// The running sum of live contributions.
    pub fn get_current_amount(&self) -> (r: u64)
        ensures
            r == self.current_amount,
    {
        self.current_amount
    }

    /// The creation timestamp.
    pub fn get_time_started(&self) -> (r: i64)
        ensures
            r == self.time_started,
    {
        self.time_started
    }

    /// The window length in whole days.
    pub fn get_duration(&self) -> (r: u64)
        ensures
            r == self.duration,
    {
        self.duration
    }

    /// Replaces the raise goal.
    pub fn set_amount_to_raise(&mut self, amount: u64)
        ensures
            *final(self) == (Fundraise { amount_to_raise: amount, ..*old(self) }),
    {
        self.amount_to_raise = amount;
    }

    /// Replaces the running contribution sum.
    pub fn set_current_amount(&mut self, amount: u64)
        ensures
            *final(self) == (Fundraise { current_amount: amount, ..*old(self) }),
    {
        self.current_amount = amount;
    }

    /// Replaces the creation timestamp.
    pub fn set_time_started(&mut self, time: i64)
        ensures
            *final(self) == (Fundraise { time_started: time, ..*old(self) }),
    {
        self.time_started = time;
    }

    /// Replaces the window length.
    pub fn set_duration(&mut self, duration: u64)
        ensures
            *final(self) == (Fundraise { duration: duration, ..*old(self) }),
    {
        self.duration = duration;
    }

    /// Fails with InvalidMintToRaise unless the given asset is exactly the
    /// one this campaign raises.
    pub fn check_mint_to_raise(&self, mint: &Pubkey) -> (r: Result<(), ProgramFailure>)
        ensures
            r is Ok <==> self.mint_to_raise == *mint,
            r is Ok <==> self.mint_to_raise@ == mint@,
            r matches Err(e) ==> e == ProgramFailure::Fundraiser(
                FundraiserError::InvalidMintToRaise,
            ),
    {
        if !pubkey_eq(&self.mint_to_raise, mint) {
            return Err(ProgramFailure::Fundraiser(FundraiserError::InvalidMintToRaise));
        }
        Ok(())
    }
}

/// The parameter bundle a fresh campaign record is initialized from; the
/// contribution sum always starts at zero.
pub struct FundraiseParams {
    pub maker: Pubkey,
    pub mint_to_raise: Pubkey,
    pub amount_to_raise: u64,
    pub time_started: i64,
    pub duration: u64,
    pub bump: u8,
}

impl FundraiseParams {
    /// Bundles the creation parameters of a campaign.
    pub fn new(
        maker: Pubkey,
        mint_to_raise: Pubkey,
        amount_to_raise: u64,
        time_started: i64,
        duration: u64,
        bump: u8,
    ) -> (r: FundraiseParams)
        ensures
            r == (FundraiseParams { maker, mint_to_raise, amount_to_raise, time_started, duration, bump }),
    {
        FundraiseParams { maker, mint_to_raise, amount_to_raise, time_started, duration, bump }
    }
}

impl crate::state::Prefix for Fundraise {
    open spec fn prefix_spec() -> Seq<u8> {
        fundraise_prefix()
    }

    fn prefix() -> Vec<u8> {
        fundraise_prefix_bytes()
    }
}

impl crate::state::Space for Fundraise {
    open spec fn len_spec() -> int {
        FUNDRAISE_LEN as int
    }

    fn len() -> usize {
        FUNDRAISE_LEN
    }
}

impl SetInner for Fundraise {
    type Params = FundraiseParams;

    open spec fn inner_from(params: FundraiseParams) -> Fundraise {
        Fundraise {
            maker: params.maker,
            mint_to_raise: params.mint_to_raise,
            amount_to_raise: params.amount_to_raise,
            current_amount: 0,
            time_started: params.time_started,
            duration: params.duration,
            bump: params.bump,
        }
    }

    fn set_inner(&mut self, params: FundraiseParams) {
        self.maker = params.maker;
        self.mint_to_raise = params.mint_to_raise;
        self.amount_to_raise = params.amount_to_raise;
        self.current_amount = 0;
        self.time_started = params.time_started;
        self.duration = params.duration;
        self.bump = params.bump;
    }
}

/// Copies the 32 bytes at `offset` into an address value.
pub fn read_pubkey(bytes: &[u8], offset: usize) -> (r: Pubkey)
    requires
        offset + 32 <= bytes@.len(),
    ensures
        r@ == bytes@.subrange(offset as int, offset + 32),
{
    let mut r: Pubkey = [0u8; 32];
    let n: usize = bytes.len();
    let mut i: usize = 0;
    while i < 32
        invariant
            i <= 32,
            n == bytes@.len(),
            offset + 32 <= n,
            forall|j: int| 0 <= j < i ==> r@[j] == bytes@[offset + j],
        decreases 32 - i,
    {
        r[i] = bytes[offset + i];
        i += 1;
    }
    proof {
        assert(r@ =~= bytes@.subrange(offset as int, offset + 32));
    }
    r
}

} // verus!
