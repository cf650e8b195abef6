//! The custodian: a deterministic, key-less identity that holds Vault
//! authority while an escrow is open.
//!
//! The identity is derived from a fixed protocol seed together with the
//! deploying program's own identity, by the ledger's program-derived-address
//! scheme. No private key exists for it, so only the protocol's own
//! transitions can release what it owns. The derivation is a chain of
//! hashes; the contracts rely only on it being a function of the seed and
//! the program identity, so its value is left abstract.

use vstd::prelude::*;

use crate::identity::Identity;

verus! {

/// The fixed protocol seed: the ASCII bytes of "escrow".
pub open spec fn protocol_seed() -> Seq<u8> {
    seq![101u8, 115u8, 99u8, 114u8, 111u8, 119u8]
}

/// The words of the identity that program-derived-address lookup returns
/// for the given seed and program identity.
pub uninterp spec fn derived_authority_words(seed: Seq<u8>, program: (u64, u64, u64, u64)) -> (u64, u64, u64, u64);

/// The custodian's identity for the program deployed under `program_id`.
pub open spec fn custodian_of(program_id: Identity) -> Identity {
    Identity::from_words(derived_authority_words(protocol_seed(), program_id.words()))
}

/// Relies on solana_pubkey::Pubkey::find_program_address: the returned
/// address is a deterministic function of the seeds and the program id
/// alone. That function panics on a seed longer than 32 bytes (the
/// service's seed-length cap), so `requires` leaves those seeds out; the
/// body hands it a single seed, well under its cap on the number of seeds.
/// One reliance remains: for some program identity no bump seed might
/// yield a derivable address — the call would panic rather than return.
/// No such identity is known, and the derivation is a hash chain, so none
/// can be sought; the probability for any given identity is about 2^-255.
#[verifier::external_body]
fn find_derived_authority(seed: &Vec<u8>, program_id: &Identity) -> (r: Identity)
    requires
        seed@.len() <= 32,
    ensures
        r.words() == derived_authority_words(seed@, program_id.words()),
{
    let mut b = [0u8; 32];
    let ws = [program_id.w0, program_id.w1, program_id.w2, program_id.w3];
    for i in 0..4 {
        b[i * 8..i * 8 + 8].copy_from_slice(&ws[i].to_le_bytes());
    }
    let p = solana_pubkey::Pubkey::new_from_array(b);
    let (pda, _bump) = solana_pubkey::Pubkey::find_program_address(&[seed.as_slice()], &p);
    let o = pda.to_bytes();
    let w = |i: usize| u64::from_le_bytes(o[i * 8..i * 8 + 8].try_into().unwrap());
    Identity { w0: w(0), w1: w(1), w2: w(2), w3: w(3) }
}

/// The custodian's identity, computed by the ledger's derivation scheme
/// from the protocol seed and the program's identity.
pub fn custodian_identity(program_id: &Identity) -> (r: Identity)
    ensures
        r == custodian_of(*program_id),
{
    let mut seed: Vec<u8> = Vec::new();
    seed.push(101);
    seed.push(115);
    seed.push(99);
    seed.push(114);
    seed.push(111);
    seed.push(119);
    proof {
        assert(seed@ =~= protocol_seed());
    }
    find_derived_authority(&seed, program_id)
}

} // verus!
