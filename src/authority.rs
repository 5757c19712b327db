use vstd::prelude::*;

use crate::constants::{authority_tag, AUTHORITY_SEED};
use crate::state::Key;

verus! {

/// The program-derived address that the seeds and program id yield, with its
/// bump seed, or `None` where no bump gives an address off the curve.
pub uninterp spec fn program_address(seeds: Seq<Seq<u8>>, program_id: Seq<u8>) -> Option<(Seq<u8>, u8)>;

/// Relies on `Pubkey::try_find_program_address`: a deterministic function of
/// the seeds and the program id (a SHA-256 digest searched over bump seeds).
/// It returns `None` for more than 15 seeds or a seed over 32 bytes, and in the
/// improbable case that no bump seed works.
#[verifier::external_body]
fn find_program_address(seeds: &Vec<Vec<u8>>, program_id: &Key) -> (r: Option<(Key, u8)>)
    ensures
        match r {
            Some((k, b)) => program_address(seeds_view(seeds@), program_id@) == Some((k@, b)),
            None => program_address(seeds_view(seeds@), program_id@) is None,
        },
{
    let seeds: Vec<&[u8]> = seeds.iter().map(|s| s.as_slice()).collect();
    let program_id = anchor_lang::prelude::Pubkey::new_from_array(program_id.bytes);
    anchor_lang::prelude::Pubkey::try_find_program_address(&seeds, &program_id).map(
        |(k, b)| (Key { bytes: k.to_bytes() }, b),
    )
}

/// What a list of seeds holds, seed by seed.
pub open spec fn seeds_view(seeds: Seq<Vec<u8>>) -> Seq<Seq<u8>> {
    seeds.map_values(|s: Vec<u8>| s@)
}

/// The seeds of a sale record's address: its id alone.
pub open spec fn record_seeds(id: Seq<u8>) -> Seq<Seq<u8>> {
    seq![id]
}

/// The seeds of a sale's custody authority: its id, then the authority tag.
pub open spec fn authority_seeds_of(id: Seq<u8>) -> Seq<Seq<u8>> {
    seq![id, authority_tag()]
}

/// The seeds that sign for the custody authority: its seeds, then its bump.
pub open spec fn signer_seeds_of(id: Seq<u8>, bump: u8) -> Seq<Seq<u8>> {
    seq![id, authority_tag(), seq![bump]]
}

fn key_bytes(k: &Key) -> (r: Vec<u8>)
    ensures
        r@ == k@,
{
    let mut r: Vec<u8> = Vec::new();
    let mut i: usize = 0;
    while i < 32
        invariant
            0 <= i <= 32,
            r@ == k@.subrange(0, i as int),
        decreases 32 - i,
    {
        r.push(k.bytes[i]);
        i = i + 1;
    }
    assert(r@ =~= k@);
    r
}

fn authority_tag_bytes() -> (r: Vec<u8>)
    ensures
        r@ == authority_tag(),
{
    let mut r: Vec<u8> = Vec::new();
    let mut i: usize = 0;
    while i < 9
        invariant
            0 <= i <= 9,
            r@ == AUTHORITY_SEED@.subrange(0, i as int),
        decreases 9 - i,
    {
        r.push(AUTHORITY_SEED[i]);
        i = i + 1;
    }
    assert(r@ =~= authority_tag());
    r
}

/// The address under which the sale record with this id is stored, and its bump.
pub fn record_address(id: &Key, program_id: &Key) -> (r: Option<(Key, u8)>)
    ensures
        match r {
            Some((k, b)) => program_address(record_seeds(id@), program_id@) == Some((k@, b)),
            None => program_address(record_seeds(id@), program_id@) is None,
        },
{
    let mut seeds: Vec<Vec<u8>> = Vec::new();
    seeds.push(key_bytes(id));
    assert(seeds_view(seeds@) =~= record_seeds(id@));
    find_program_address(&seeds, program_id)
}

/// The seeds with which the program signs for the custody authority of the
/// sale `id` whose bump seed is `bump`.
pub fn authority_signer_seeds(id: &Key, bump: u8) -> (r: Vec<Vec<u8>>)
    ensures
        seeds_view(r@) == signer_seeds_of(id@, bump),
{
    let mut seeds: Vec<Vec<u8>> = Vec::new();
    seeds.push(key_bytes(id));
    seeds.push(authority_tag_bytes());
    let mut b: Vec<u8> = Vec::new();
    b.push(bump);
    seeds.push(b);
    assert(seeds_view(seeds@) =~= signer_seeds_of(id@, bump));
    seeds
}

/// The capability that moves units out of a sale's vault: an address derived
/// from the sale's id and the authority tag, for which only the program signs.
/// It is computed when needed and never stored.
#[derive(Debug, Clone, Copy)]
pub struct CustodyAuthority {
    pub address: Key,
    pub bump: u8,
}

impl CustodyAuthority {
    /// Derives the custody authority of the sale `id` under `program_id`.
    pub fn derive(id: &Key, program_id: &Key) -> (r: Option<CustodyAuthority>)
        ensures
            r is Some <==> program_address(authority_seeds_of(id@), program_id@) is Some,
            r is Some ==> program_address(authority_seeds_of(id@), program_id@) == Some(
                (r->0.address@, r->0.bump),
            ),
    {
        let mut seeds: Vec<Vec<u8>> = Vec::new();
        seeds.push(key_bytes(id));
        seeds.push(authority_tag_bytes());
        assert(seeds_view(seeds@) =~= authority_seeds_of(id@));
        match find_program_address(&seeds, program_id) {
            Some((address, bump)) => Some(CustodyAuthority { address, bump }),
            None => None,
        }
    }

    /// The seeds with which the program signs for this authority of sale `id`.
    pub fn signer_seeds(&self, id: &Key) -> (r: Vec<Vec<u8>>)
        ensures
            seeds_view(r@) == signer_seeds_of(id@, self.bump),
    {
        authority_signer_seeds(id, self.bump)
    }
}

} // verus!
