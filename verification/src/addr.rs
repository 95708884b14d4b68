//! Deterministic address derivation: one account per authority per program,
//! at an address computed from the authority's key and the program id alone.

use vstd::prelude::*;
use crate::Pubkey;

verus! {

/// The program-derived address and bump seed for a given seed and program id,
/// or `None` in the statistically improbable event that no bump works.
pub uninterp spec fn pda_of(seed: Seq<u8>, program: Seq<u8>) -> Option<(Seq<u8>, u8)>;

/// Relies on solana Pubkey::try_find_program_address: the derived address and
/// bump seed are a function of the seed bytes and the program id alone.
#[verifier::external_body]
fn find_pda(seed: &Pubkey, program: &Pubkey) -> (r: Option<(Pubkey, u8)>)
    ensures
        r is Some <==> pda_of(seed@, program@) is Some,
        r matches Some(p) ==> pda_of(seed@, program@) == Some((p.0@, p.1)),
{
    let pid = anchor_lang::prelude::Pubkey::new_from_array(program.bytes);
    anchor_lang::prelude::Pubkey::try_find_program_address(&[seed.bytes.as_slice()], &pid)
        .map(|(key, bump)| (Pubkey { bytes: key.to_bytes() }, bump))
}

/// Derive the address of the state account owned by `authority` under
/// `program`, with its bump seed.
pub fn derive_address(authority: &Pubkey, program: &Pubkey) -> (r: Option<(Pubkey, u8)>)
    ensures
        r is Some <==> pda_of(authority@, program@) is Some,
        r matches Some(p) ==> pda_of(authority@, program@) == Some((p.0@, p.1)),
{
    find_pda(authority, program)
}

} // verus!
