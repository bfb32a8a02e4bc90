//! The derived authority: the keyless address under which the custody
//! account is held, computed from one fixed seed and the program's own
//! identity.

use vstd::prelude::*;
use crate::pubkey::Pubkey;

verus! {

/// The derived authority of a program: the address, and the discriminating
/// byte that moved the address off the curve.
#[derive(Debug, Clone, Copy, PartialEq, Eq)]
pub struct DerivedAuthority {
    pub address: Pubkey,
    pub bump_seed: u8,
}

/// A derived authority as plain values.
pub struct DerivedAuthorityView {
    pub address: Seq<u8>,
    pub bump_seed: u8,
}

impl View for DerivedAuthority {
    type V = DerivedAuthorityView;

    open spec fn view(&self) -> DerivedAuthorityView {
        DerivedAuthorityView { address: self.address@, bump_seed: self.bump_seed }
    }
}

/// What an `Option` of a derived authority says as plain values.
pub open spec fn authority_view(a: Option<DerivedAuthority>) -> Option<DerivedAuthorityView> {
    match a {
        Some(a) => Some(a@),
        None => None,
    }
}

/// The address that the host's library derives from one seed for a program,
/// with the discriminating byte it appended to the seed; `None` where it
/// finds none.
pub uninterp spec fn program_address(seed: Seq<u8>, program_id: Seq<u8>) -> Option<(Seq<u8>, u8)>;

/// A derived address and its discriminating byte as plain values.
pub open spec fn address_view(found: Option<(Pubkey, u8)>) -> Option<(Seq<u8>, u8)> {
    match found {
        Some((address, bump_seed)) => Some((address@, bump_seed)),
        None => None,
    }
}

/// `Pubkey::try_find_program_address` of `solana_program`, for one seed.
/// The contract names what it returns and claims nothing else of it: the
/// same seed and program give the same address and byte.
#[verifier::external_body]
fn try_find_program_address(seed: &[u8], program_id: &Pubkey) -> (found: Option<(Pubkey, u8)>)
    ensures
        address_view(found) == program_address(seed@, program_id@),
{
    solana_program::pubkey::Pubkey::try_find_program_address(&[seed], &program_id.bytes.into())
        .map(|(address, bump_seed)| (Pubkey::new_from_array(address.to_bytes()), bump_seed))
}

/// The fixed seed of the escrow's authority: the bytes of `escrow`.
pub open spec fn escrow_seed_spec() -> Seq<u8> {
    seq![101u8, 115u8, 99u8, 114u8, 111u8, 119u8]
}

/// The fixed seed of the escrow's authority.
pub fn escrow_seed() -> (seed: Vec<u8>)
    ensures
        seed@ == escrow_seed_spec(),
{
    let mut seed: Vec<u8> = Vec::new();
    seed.push(101u8);
    seed.push(115u8);
    seed.push(99u8);
    seed.push(114u8);
    seed.push(111u8);
    seed.push(119u8);
    seed
}

/// The derived authority of the escrow program `program_id`, where the
/// host's library finds one.
pub open spec fn escrow_authority(program_id: Seq<u8>) -> Option<DerivedAuthorityView> {
    match program_address(escrow_seed_spec(), program_id) {
        Some((address, bump_seed)) => Some(DerivedAuthorityView { address, bump_seed }),
        None => None,
    }
}

impl DerivedAuthority {
    /// Derives the authority of the escrow program `program_id`. The seed
    /// is the program's own constant and never comes from a caller.
    pub fn find(program_id: &Pubkey) -> (found: Option<DerivedAuthority>)
        ensures
            authority_view(found) == escrow_authority(program_id@),
    {
        let seed = escrow_seed();
        match try_find_program_address(seed.as_slice(), program_id) {
            Some((address, bump_seed)) => Some(DerivedAuthority { address, bump_seed }),
            None => None,
        }
    }

    /// The seeds that authorize a transfer in the name of this authority:
    /// the fixed seed, then the discriminating byte.
    pub fn signer_seeds(&self) -> (seeds: Vec<Vec<u8>>)
        ensures
            seeds.deep_view() == signer_seeds_spec(self@),
    {
        let mut bump: Vec<u8> = Vec::new();
        bump.push(self.bump_seed);
        let mut seeds: Vec<Vec<u8>> = Vec::new();
        seeds.push(escrow_seed());
        seeds.push(bump);
        assert(seeds.deep_view() =~~= signer_seeds_spec(self@));
        seeds
    }
}

/// The seeds that authorize a transfer in the name of an authority.
pub open spec fn signer_seeds_spec(a: DerivedAuthorityView) -> Seq<Seq<u8>> {
    seq![escrow_seed_spec(), seq![a.bump_seed]]
}

} // verus!
