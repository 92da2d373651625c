use crate::key::Key;
use vstd::prelude::*;

verus! {

/// The seed that, with the program's identity, derives the custodial authority.
pub const ESCROW_PDA_SEED: [u8; 15] = [
    101, 115, 99, 114, 111, 119, 95, 112, 100, 97, 95, 115, 101, 101, 100,
];

/// The program-derived address and bump seed for `seed` under `program_id`,
/// or none where no bump seed yields an address off the ed25519 curve.
pub uninterp spec fn program_address(seed: Seq<u8>, program_id: Seq<u8>) -> Option<(Seq<u8>, u8)>;

/// The custodial authority of the escrow program `program_id`.
pub open spec fn custodial_authority(program_id: Seq<u8>) -> Option<(Seq<u8>, u8)> {
    program_address(ESCROW_PDA_SEED@, program_id)
}

/// The key of the custodial authority, where one can be derived.
pub open spec fn authority_key(program_id: Seq<u8>) -> Seq<u8> {
    match custodial_authority(program_id) {
        Some(found) => found.0,
        None => Seq::empty(),
    }
}

/// Relies on solana_program's `Pubkey::try_find_program_address` with the single
/// seed `seed`: a pure function of the seed and the program id.
#[verifier::external_body]
fn try_find_program_address(seed: &[u8], program_id: &Key) -> (r: Option<(Key, u8)>)
    ensures
        match r {
            Some(found) => program_address(seed@, program_id@) == Some((found.0@, found.1)),
            None => program_address(seed@, program_id@) is None,
        },
{
    let id = anchor_lang::prelude::Pubkey::new_from_array(program_id.bytes);
    anchor_lang::prelude::Pubkey::try_find_program_address(&[seed], &id).map(
        |(address, bump)| (Key { bytes: address.to_bytes() }, bump),
    )
}

/// Derives the key the escrow program acts as when it holds a deposit, and
/// the bump seed that proves the derivation.
pub fn derive_authority(program_id: &Key) -> (r: Option<(Key, u8)>)
    ensures
        match r {
            Some(found) => custodial_authority(program_id@) == Some((found.0@, found.1)),
            None => custodial_authority(program_id@) is None,
        },
{
    let seed: [u8; 15] = ESCROW_PDA_SEED;
    try_find_program_address(seed.as_slice(), program_id)
}

} // verus!
