//! Deriving the address of a record from the seeds that identify it.
//!
//! The hashing itself is the ledger's: this module names what it yields, says
//! which bump byte is the canonical one for a list of seeds, and proves that
//! the address found for a list of seeds is derived again from those seeds and
//! the bump that was found with it.

use vstd::prelude::*;
use crate::address::Address;
use anchor_lang::prelude::Pubkey;
use anchor_lang::solana_program::pubkey::PubkeyError;

verus! {

/// `PubkeyError`, the error that `Pubkey::create_program_address` returns.
/// Nothing is known of its values.
#[verifier::external_type_specification]
#[verifier::external_body]
pub struct ExPubkeyError(PubkeyError);

/// The most seeds that one derivation accepts, the bump seed included.
pub const MAX_SEEDS: usize = 16;

/// The most bytes that one seed may hold.
pub const MAX_SEED_LEN: usize = 32;

/// The address that `Pubkey::create_program_address` derives from `seeds` for
/// the program `program_id`, or `None` where it returns an error.
pub uninterp spec fn program_address(seeds: Seq<Seq<u8>>, program_id: Seq<u8>) -> Option<Seq<u8>>;

/// The seeds as byte sequences.
pub open spec fn seed_bytes(seeds: Seq<Vec<u8>>) -> Seq<Seq<u8>> {
    Seq::new(seeds.len(), |i: int| seeds[i]@)
}

/// Seeds that the derivation refuses whatever they hash to: too many of them,
/// or one that is too long.
pub open spec fn oversized(seeds: Seq<Seq<u8>>) -> bool {
    seeds.len() > MAX_SEEDS || exists|i: int| 0 <= i < seeds.len() && #[trigger] seeds[i].len() > MAX_SEED_LEN
}

/// `seeds` followed by the one-byte seed `bump`.
pub open spec fn with_bump(seeds: Seq<Seq<u8>>, bump: u8) -> Seq<Seq<u8>> {
    seeds.push(seq![bump])
}

/// `bump` is the canonical bump of `seeds`: the largest byte, zero left out,
/// with which the seeds derive an address.
pub open spec fn is_canonical_bump(seeds: Seq<Seq<u8>>, program_id: Seq<u8>, bump: u8) -> bool {
    &&& bump >= 1
    &&& program_address(with_bump(seeds, bump), program_id) is Some
    &&& forall|c: u8| c > bump ==> #[trigger] program_address(with_bump(seeds, c), program_id) is None
}

/// No bump byte makes `seeds` derive an address.
pub open spec fn has_no_bump(seeds: Seq<Seq<u8>>, program_id: Seq<u8>) -> bool {
    forall|c: u8| c >= 1 ==> #[trigger] program_address(with_bump(seeds, c), program_id) is None
}

/// The address found for `seeds`, with its canonical bump; `None` where no
/// bump derives one.
pub open spec fn found_address(seeds: Seq<Seq<u8>>, program_id: Seq<u8>) -> Option<(Seq<u8>, u8)> {
    if exists|b: u8| is_canonical_bump(seeds, program_id, b) {
        let b = choose|b: u8| is_canonical_bump(seeds, program_id, b);
        Some((program_address(with_bump(seeds, b), program_id).unwrap(), b))
    } else {
        None
    }
}

/// The view of what a search for an address returned.
pub open spec fn found_view(found: Option<(Address, u8)>) -> Option<(Seq<u8>, u8)> {
    match found {
        Some((address, bump)) => Some((address@, bump)),
        None => None,
    }
}

/// Calls `Pubkey::create_program_address`. Believed, not proved: the address
/// that it returns is a function of the seeds and the program alone, which
/// [`program_address`] names; and it returns an error for more than sixteen
/// seeds and for a seed of more than thirty-two bytes.
#[verifier::external_body]
fn create_program_address(seeds: &Vec<Vec<u8>>, program_id: &Address) -> (r: Result<Address, PubkeyError>)
    ensures
        r is Ok <==> program_address(seed_bytes(seeds@), program_id@) is Some,
        r is Ok ==> program_address(seed_bytes(seeds@), program_id@) == Some(r.unwrap()@),
        oversized(seed_bytes(seeds@)) ==> r is Err,
{
    let parts: Vec<&[u8]> = seeds.iter().map(|seed| seed.as_slice()).collect();
    let program = Pubkey::new_from_array(program_id.bytes);
    match Pubkey::create_program_address(&parts, &program) {
        Ok(key) => Ok(Address { bytes: key.to_bytes() }),
        Err(e) => Err(e),
    }
}

/// Calls `Pubkey::try_find_program_address`. Believed, not proved: it tries
/// the bump bytes from 255 down to 1 and returns the first address that
/// `Pubkey::create_program_address` derives from the seeds followed by the
/// bump, with that bump; it returns `None` where none of them derives one,
/// as is the case for sixteen seeds or more and for a seed of more than
/// thirty-two bytes.
#[verifier::external_body]
fn try_find_program_address(seeds: &Vec<Vec<u8>>, program_id: &Address) -> (r: Option<(Address, u8)>)
    ensures
        match r {
            Some((address, bump)) => {
                &&& is_canonical_bump(seed_bytes(seeds@), program_id@, bump)
                &&& program_address(with_bump(seed_bytes(seeds@), bump), program_id@) == Some(address@)
            },
            None => has_no_bump(seed_bytes(seeds@), program_id@),
        },
        seeds@.len() >= MAX_SEEDS || oversized(seed_bytes(seeds@)) ==> r is None,
{
    let parts: Vec<&[u8]> = seeds.iter().map(|seed| seed.as_slice()).collect();
    let program = Pubkey::new_from_array(program_id.bytes);
    match Pubkey::try_find_program_address(&parts, &program) {
        Some((key, bump)) => Some((Address { bytes: key.to_bytes() }, bump)),
        None => None,
    }
}

/// At most one bump is canonical for a list of seeds.
pub proof fn lemma_canonical_bump_unique(seeds: Seq<Seq<u8>>, program_id: Seq<u8>, a: u8, b: u8)
    requires
        is_canonical_bump(seeds, program_id, a),
        is_canonical_bump(seeds, program_id, b),
    ensures
        a == b,
{
    if a < b {
        assert(program_address(with_bump(seeds, b), program_id) is None);
    }
    if b < a {
        assert(program_address(with_bump(seeds, a), program_id) is None);
    }
}

/// Oversized seeds stay oversized when a bump seed follows them, and a list
/// of sixteen seeds becomes oversized by it.
pub proof fn lemma_oversized_with_bump(seeds: Seq<Seq<u8>>, bump: u8)
    requires
        oversized(seeds) || seeds.len() >= MAX_SEEDS,
    ensures
        oversized(with_bump(seeds, bump)),
{
    if seeds.len() < MAX_SEEDS {
        let i = choose|i: int| 0 <= i < seeds.len() && #[trigger] seeds[i].len() > MAX_SEED_LEN;
        assert(with_bump(seeds, bump)[i] == seeds[i]);
    }
}

/// Finds the address of the record that `seeds` identify under the program
/// `program_id`, and the canonical bump that goes with it.
pub fn find_address(seeds: &Vec<Vec<u8>>, program_id: &Address) -> (r: Option<(Address, u8)>)
    ensures
        found_view(r) == found_address(seed_bytes(seeds@), program_id@),
        seeds@.len() >= MAX_SEEDS || oversized(seed_bytes(seeds@)) ==> r is None,
{
    let r = try_find_program_address(seeds, program_id);
    proof {
        let s = seed_bytes(seeds@);
        let p = program_id@;
        match r {
            Some((address, bump)) => {
                let b = choose|b: u8| is_canonical_bump(s, p, b);
                lemma_canonical_bump_unique(s, p, b, bump);
            },
            None => {
                assert forall|b: u8| !is_canonical_bump(s, p, b) by {
                    if b >= 1 {
                        assert(program_address(with_bump(s, b), p) is None);
                    }
                }
            },
        }
    }
    r
}

/// Derives again the address of the record that `seeds` identify, from the
/// bump that was stored with the record.
pub fn rederive_address(seeds: Vec<Vec<u8>>, bump: u8, program_id: &Address) -> (r: Option<Address>)
    ensures
        match r {
            Some(address) => program_address(with_bump(seed_bytes(seeds@), bump), program_id@) == Some(address@),
            None => program_address(with_bump(seed_bytes(seeds@), bump), program_id@) is None,
        },
        seeds@.len() >= MAX_SEEDS || oversized(seed_bytes(seeds@)) ==> r is None,
{
    let mut all = seeds;
    let mut last: Vec<u8> = Vec::new();
    last.push(bump);
    all.push(last);
    proof {
        assert(seed_bytes(all@) =~= with_bump(seed_bytes(seeds@), bump));
        if seeds@.len() >= MAX_SEEDS || oversized(seed_bytes(seeds@)) {
            lemma_oversized_with_bump(seed_bytes(seeds@), bump);
        }
    }
    match create_program_address(&all, program_id) {
        Ok(address) => Some(address),
        Err(_) => None,
    }
}

} // verus!
