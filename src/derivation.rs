use vstd::prelude::*;
use crate::address::Address;
use anchor_lang::prelude::Pubkey;

verus! {

/// The address and bump seed that the ledger derives for a list of seeds under
/// a program identity, or `None` when no bump seed yields an address off the
/// ed25519 curve.
pub uninterp spec fn program_address(seeds: Seq<Seq<u8>>, program_id: Seq<u8>) -> Option<(Seq<u8>, u8)>;

/// The seeds of a derivation as byte sequences.
pub open spec fn seeds_view(seeds: Seq<Vec<u8>>) -> Seq<Seq<u8>> {
    seeds.map_values(|s: Vec<u8>| s@)
}

/// A derivation result as an address view and a bump seed.
pub open spec fn found_view(r: Option<(Address, u8)>) -> Option<(Seq<u8>, u8)> {
    match r {
        Some((a, b)) => Some((a@, b)),
        None => None,
    }
}

/// Relies on `Pubkey::try_find_program_address` (solana-address): the search
/// over bump seeds is deterministic, so the outcome depends on the seeds and
/// the program identity alone. Unlike `find_program_address` it returns
/// `None` instead of panicking when no bump seed works or the seeds are too
/// many or too long.
#[verifier::external_body]
fn try_find_program_address(seeds: &Vec<Vec<u8>>, program_id: &Address) -> (r: Option<(Address, u8)>)
    ensures
        found_view(r) == program_address(seeds_view(seeds@), program_id@),
{
    let slices: Vec<&[u8]> = seeds.iter().map(|s| s.as_slice()).collect();
    Pubkey::try_find_program_address(&slices, &Pubkey::new_from_array(program_id.bytes))
        .map(|(a, b)| (Address { bytes: a.to_bytes() }, b))
}

/// Seed that names the launch record of a mint: the bytes of "launch".
pub open spec fn launch_seed() -> Seq<u8> {
    seq![108u8, 97u8, 117u8, 110u8, 99u8, 104u8]
}

/// Seed that names the delegated signer of a launch: the bytes of "launch_signer".
pub open spec fn launch_signer_seed() -> Seq<u8> {
    launch_seed() + seq![95u8, 115u8, 105u8, 103u8, 110u8, 101u8, 114u8]
}

/// Seeds of the launch record address of a mint.
pub open spec fn launch_seeds(mint: Seq<u8>) -> Seq<Seq<u8>> {
    seq![launch_seed(), mint]
}

/// Seeds of the delegated signer address of a launch record.
pub open spec fn signer_seeds(launch: Seq<u8>) -> Seq<Seq<u8>> {
    seq![launch_signer_seed(), launch]
}

/// The seeds, bump included, that prove the program's authority over the
/// delegated signer of a launch record.
pub open spec fn signing_seeds(launch: Seq<u8>, bump: u8) -> Seq<Seq<u8>> {
    signer_seeds(launch).push(seq![bump])
}

/// The launch record address, with its bump, derived from a mint.
pub open spec fn derived_launch(mint: Seq<u8>, program_id: Seq<u8>) -> Option<(Seq<u8>, u8)> {
    program_address(launch_seeds(mint), program_id)
}

/// The delegated signer address, with its bump, derived from a launch record.
pub open spec fn derived_signer(launch: Seq<u8>, program_id: Seq<u8>) -> Option<(Seq<u8>, u8)> {
    program_address(signer_seeds(launch), program_id)
}

fn launch_seed_bytes() -> (r: Vec<u8>)
    ensures
        r@ == launch_seed(),
{
    let r: Vec<u8> = vec![108u8, 97u8, 117u8, 110u8, 99u8, 104u8];
    assert(r@ =~= launch_seed());
    r
}

fn launch_signer_seed_bytes() -> (r: Vec<u8>)
    ensures
        r@ == launch_signer_seed(),
{
    let r: Vec<u8> = vec![
        108u8, 97u8, 117u8, 110u8, 99u8, 104u8, 95u8, 115u8, 105u8, 103u8, 110u8, 101u8, 114u8,
    ];
    assert(r@ =~= launch_signer_seed());
    r
}

/// The capability handed to the token program when minting: the signer seeds
/// of a launch record followed by the bump seed.
pub struct SigningProof {
    pub seeds: Vec<Vec<u8>>,
}

impl View for SigningProof {
    type V = Seq<Seq<u8>>;

    open spec fn view(&self) -> Seq<Seq<u8>> {
        seeds_view(self.seeds@)
    }
}

/// Derives the launch record address of a mint. The same mint and program
/// identity always give the same address and bump.
pub fn derive_launch_address(mint: &Address, program_id: &Address) -> (r: Option<(Address, u8)>)
    ensures
        found_view(r) == derived_launch(mint@, program_id@),
{
    let seeds: Vec<Vec<u8>> = vec![launch_seed_bytes(), mint.to_seed()];
    assert(seeds_view(seeds@) =~= launch_seeds(mint@));
    try_find_program_address(&seeds, program_id)
}

/// Derives the delegated signer address of a launch record. The same launch
/// record address and program identity always give the same address and bump.
pub fn derive_launch_signer(launch: &Address, program_id: &Address) -> (r: Option<(Address, u8)>)
    ensures
        found_view(r) == derived_signer(launch@, program_id@),
{
    let seeds: Vec<Vec<u8>> = vec![launch_signer_seed_bytes(), launch.to_seed()];
    assert(seeds_view(seeds@) =~= signer_seeds(launch@));
    try_find_program_address(&seeds, program_id)
}

/// Builds the signing proof for the delegated signer of a launch record.
pub fn signing_proof(launch: &Address, bump: u8) -> (r: SigningProof)
    ensures
        r@ == signing_seeds(launch@, bump),
{
    let bump_seed: Vec<u8> = vec![bump];
    let seeds: Vec<Vec<u8>> = vec![launch_signer_seed_bytes(), launch.to_seed(), bump_seed];
    assert(bump_seed@ =~= seq![bump]);
    assert(seeds_view(seeds@) =~= signing_seeds(launch@, bump));
    SigningProof { seeds }
}

} // verus!
