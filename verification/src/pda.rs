//! Deterministic derivation of program-owned addresses.
//!
//! A record's address is the hash of a label, the owning identities, a
//! disambiguation byte (the nonce that made the derivation valid) and the
//! program id. Handlers re-derive every record address from the fields stored
//! in the record itself before trusting anything read from it, which defeats
//! substitution of a same-shaped but unrelated account.
use vstd::prelude::*;
use crate::accounts::Pubkey;

verus! {

/// The address that the derivation hash yields for the given seeds,
/// disambiguation byte and program id. The hash is a pure function of these
/// inputs alone; its value is fixed but not spelled out here.
pub uninterp spec fn derived_address(seeds: Seq<Seq<u8>>, bump: u8, program_id: Seq<u8>) -> Seq<u8>;

/// Relies on pinocchio_pubkey::derive_address_const: the derivation hash of
/// the seeds, the bump byte and the program id, a pure function of its
/// arguments.
#[verifier::external_body]
pub fn derive_address_2(seed0: &[u8], seed1: &[u8], bump: u8, program_id: &Pubkey) -> (r: Pubkey)
    ensures
        r@ == derived_address(seq![seed0@, seed1@], bump, program_id@),
{
    pinocchio_pubkey::derive_address_const(&[seed0, seed1], Some(bump), program_id)
}

/// Relies on pinocchio_pubkey::derive_address_const: the derivation hash of
/// the seeds, the bump byte and the program id, a pure function of its
/// arguments.
#[verifier::external_body]
pub fn derive_address_3(
    seed0: &[u8],
    seed1: &[u8],
    seed2: &[u8],
    bump: u8,
    program_id: &Pubkey,
) -> (r: Pubkey)
    ensures
        r@ == derived_address(seq![seed0@, seed1@, seed2@], bump, program_id@),
{
    pinocchio_pubkey::derive_address_const(&[seed0, seed1, seed2], Some(bump), program_id)
}

/// Derivation is a pure function: two derivations from identical seeds, bump
/// and program id yield the identical address.
pub proof fn lemma_derivation_deterministic(
    seeds_a: Seq<Seq<u8>>,
    seeds_b: Seq<Seq<u8>>,
    bump_a: u8,
    bump_b: u8,
    program_a: Seq<u8>,
    program_b: Seq<u8>,
)
    requires
        seeds_a == seeds_b,
        bump_a == bump_b,
        program_a == program_b,
    ensures
        derived_address(seeds_a, bump_a, program_a) == derived_address(seeds_b, bump_b, program_b),
{
}

} // verus!
