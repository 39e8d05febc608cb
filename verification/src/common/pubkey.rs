use vstd::prelude::*;

verus! {

/// A 256-bit participant identity, held as two 128-bit words.
///
/// The library only ever compares identities; it never interprets them.
#[derive(Clone, Copy, Debug, PartialEq, Eq, Hash, Structural)]
pub struct Pubkey {
    /// The first sixteen bytes, big-endian.
    pub hi: u128,
    /// The last sixteen bytes, big-endian.
    pub lo: u128,
}

impl Pubkey {
    /// Builds an identity from its two words.
    pub fn new(hi: u128, lo: u128) -> (key: Pubkey)
        ensures
            key == (Pubkey { hi, lo }),
    {
        Pubkey { hi, lo }
    }
}

} // verus!
