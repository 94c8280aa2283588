//! Program-derived addresses: addresses computed from seed bytes and the
//! identity of the program, for which no private key exists.

use vstd::prelude::*;
use anchor_lang::prelude::Pubkey;
use crate::address::Address;

verus! {

/// What `Pubkey::create_program_address` returns for the given seeds and
/// program: the bytes of the derived address, or `None` where the seeds give
/// no valid address.
pub uninterp spec fn program_address(seeds: Seq<Seq<u8>>, program: Seq<u8>) -> Option<[u8; 32]>;

/// What `Pubkey::try_find_program_address` returns for the given seeds and
/// program: the bytes of the derived address and the bump seed it was found
/// with, or `None` where no bump seed gives a valid address.
pub uninterp spec fn canonical_address(seeds: Seq<Seq<u8>>, program: Seq<u8>) -> Option<([u8; 32], u8)>;

/// The seeds from which a signer is derived: an address and a bump seed.
#[derive(Clone, Copy, Debug, PartialEq, Eq)]
pub struct SignerSeeds {
    pub seed: Address,
    pub bump: u8,
}

impl SignerSeeds {
    /// The seed byte strings: the address, then the bump seed alone.
    pub open spec fn as_seq(self) -> Seq<Seq<u8>> {
        seq![self.seed@, seq![self.bump]]
    }
}

/// The address that the program signs for with the given seeds, if there is one.
pub open spec fn signer_address(seeds: SignerSeeds, program: Address) -> Option<Address> {
    match program_address(seeds.as_seq(), program@) {
        Some(bytes) => Some(Address { bytes }),
        None => None,
    }
}

/// The address derived from `seed` alone, with its canonical bump seed.
pub open spec fn derived_address(seed: Address, program: Address) -> Option<(Address, u8)> {
    match canonical_address(seq![seed@], program@) {
        Some((bytes, bump)) => Some((Address { bytes }, bump)),
        None => None,
    }
}

/// Calls `Pubkey::create_program_address` with the seeds `[seed, [bump]]`.
/// The result is the named value `program_address` of these seeds; an error
/// of the call becomes `None`.
#[verifier::external_body]
fn create_program_address(seeds: &SignerSeeds, program: &Address) -> (r: Option<Address>)
    ensures
        program_address(seeds.as_seq(), program@) == (match r {
            Some(address) => Some(address.bytes),
            None => None,
        }),
{
    let bump = [seeds.bump];
    match Pubkey::create_program_address(
        &[&seeds.seed.bytes, &bump],
        &Pubkey::new_from_array(program.bytes),
    ) {
        Ok(key) => Some(Address { bytes: key.to_bytes() }),
        Err(_) => None,
    }
}

/// Calls `Pubkey::try_find_program_address` with the single seed `seed`.
/// The result is the named value `canonical_address` of that seed. Where an
/// address is found, it is the one that `Pubkey::create_program_address`
/// gives for the seed followed by the bump seed found.
#[verifier::external_body]
fn find_program_address(seed: &Address, program: &Address) -> (r: Option<(Address, u8)>)
    ensures
        canonical_address(seq![seed@], program@) == (match r {
            Some((address, bump)) => Some((address.bytes, bump)),
            None => None,
        }),
        r matches Some((address, bump)) ==> program_address(
            seq![seed@, seq![bump]],
            program@,
        ) == Some(address.bytes),
{
    match Pubkey::try_find_program_address(
        &[&seed.bytes],
        &Pubkey::new_from_array(program.bytes),
    ) {
        Some((key, bump)) => Some((Address { bytes: key.to_bytes() }, bump)),
        None => None,
    }
}

/// The address that the program signs for with `seeds`, if there is one.
pub fn sign(seeds: &SignerSeeds, program: &Address) -> (r: Option<Address>)
    ensures
        r == signer_address(*seeds, *program),
{
    create_program_address(seeds, program)
}

/// The address derived from `seed` for the program, with the bump seed it
/// was found with. The program signs for that address with the seed and that
/// bump seed.
pub fn derive_address(seed: &Address, program: &Address) -> (r: Option<(Address, u8)>)
    ensures
        r == derived_address(*seed, *program),
        r matches Some((address, bump)) ==> signer_address(
            SignerSeeds { seed: *seed, bump },
            *program,
        ) == Some(address),
{
    find_program_address(seed, program)
}

} // verus!
