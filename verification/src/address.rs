use vstd::prelude::*;
use crate::pubkey::Pubkey;

verus! {

/// An address that only the program can authorize, with the bump that
/// completes its seeds.
#[derive(Clone, Copy, Debug, PartialEq, Eq)]
pub struct DerivedAddress {
    pub address: Pubkey,
    pub bump: u8,
}

/// The address and bump that the host's derivation gives for one seed under a
/// program's identity, if it gives any.
pub uninterp spec fn program_address(seed: Seq<u8>, program_id: Seq<u8>) -> Option<(Seq<u8>, u8)>;

/// A derived address and its bump, by their bytes.
pub open spec fn derived_bytes(d: Option<(Pubkey, u8)>) -> Option<(Seq<u8>, u8)> {
    match d {
        Some((address, bump)) => Some((address@, bump)),
        None => None,
    }
}

/// The seed of the configuration record's address: the letters `STATE`.
pub open spec fn config_seed() -> Seq<u8> {
    seq![0x53u8, 0x54u8, 0x41u8, 0x54u8, 0x45u8]
}

/// The seed of the configuration record's address, for the host to sign
/// with.
pub fn config_seed_bytes() -> (r: [u8; 5])
    ensures
        r@ == config_seed(),
{
    let seed: [u8; 5] = [0x53, 0x54, 0x41, 0x54, 0x45];
    assert(seed@ =~= config_seed());
    seed
}

impl DerivedAddress {
    /// What derivation gives for a seed under a program's identity.
    pub open spec fn spec_derive(seed: Seq<u8>, program_id: Pubkey) -> Option<DerivedAddress> {
        match program_address(seed, program_id@) {
            Some((address, bump)) => Some(
                DerivedAddress { address: Pubkey::from_seq(address), bump },
            ),
            None => None,
        }
    }

    /// Where the configuration record of a program lives.
    pub open spec fn spec_config(program_id: Pubkey) -> Option<DerivedAddress> {
        Self::spec_derive(config_seed(), program_id)
    }

    /// Derives the address for `seed` under `program_id`. The outcome depends
    /// on the two arguments alone: equal arguments give equal outcomes.
    pub fn derive(seed: &[u8], program_id: &Pubkey) -> (r: Option<DerivedAddress>)
        ensures
            r == Self::spec_derive(seed@, *program_id),
    {
        match find_program_address(seed, program_id) {
            Some((address, bump)) => {
                proof {
                    Pubkey::lemma_from_seq_of_view(address);
                }
                Some(DerivedAddress { address, bump })
            },
            None => None,
        }
    }

    /// Derives the address of the configuration record of `program_id`.
    pub fn config(program_id: &Pubkey) -> (r: Option<DerivedAddress>)
        ensures
            r == Self::spec_config(*program_id),
    {
        let seed = config_seed_bytes();
        Self::derive(seed.as_slice(), program_id)
    }
}

/// Calls `solana_program::pubkey::Pubkey::try_find_program_address` with the
/// one seed. The search is a fixed computation on the seed and the program's
/// bytes (a hash and a curve test for each bump from 255 down), so the
/// contract claims only that the outcome is the one that `program_address`
/// names for these arguments.
#[verifier::external_body]
fn find_program_address(seed: &[u8], program_id: &Pubkey) -> (r: Option<(Pubkey, u8)>)
    ensures
        derived_bytes(r) == program_address(seed@, program_id@),
{
    let id = solana_program::pubkey::Pubkey::new_from_array(program_id.bytes);
    match solana_program::pubkey::Pubkey::try_find_program_address(&[seed], &id) {
        Some((address, bump)) => Some((Pubkey { bytes: address.to_bytes() }, bump)),
        None => None,
    }
}

} // verus!
