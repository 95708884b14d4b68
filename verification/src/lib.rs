//! Delegated-state accounts: a counter and a city grid whose authoritative
//! copy can move between a persistent base layer and a transient execution
//! layer, gated by an authority key or a session credential.

use vstd::prelude::*;

pub mod addr;
pub mod auth;
pub mod counter;
pub mod lifecycle;
pub mod simcity;

verus! {

broadcast use vstd::array::axiom_array_ext_equal;

/// A 32-byte public key identifying an authority, a signer or a program.
#[verifier::ext_equal]
#[derive(Clone, Copy, Debug)]
pub struct Pubkey {
    pub bytes: [u8; 32],
}

impl View for Pubkey {
    type V = Seq<u8>;

    open spec fn view(&self) -> Seq<u8> {
        self.bytes@
    }
}

/// Byte-for-byte comparison of two public keys.
pub fn key_eq(a: &Pubkey, b: &Pubkey) -> (r: bool)
    ensures
        r == (*a == *b),
{
    let mut i: usize = 0;
    while i < 32
        invariant
            i <= 32,
            forall|j: int| 0 <= j < i ==> a.bytes@[j] == b.bytes@[j],
        decreases 32 - i,
    {
        if a.bytes[i] != b.bytes[i] {
            return false;
        }
        i += 1;
    }
    proof {
        assert(a.bytes =~= b.bytes);
        assert(*a =~= *b);
    }
    true
}

} // verus!
