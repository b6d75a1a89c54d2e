//! The seeds that identify a stream and an event, and the addresses that they
//! derive under this program.
//!
//! Every list of seeds starts with the namespace of the log, so that its
//! records cannot meet the records of another program's in the same storage.
//! A stream is then identified by its name alone, an event by the address of
//! its stream and a nonce that the caller chooses.

use vstd::prelude::*;
use vstd::slice::slice_to_vec;
use vstd::utf8::encode_utf8;
use crate::address::Address;
use crate::derivation::{
    find_address, found_address, found_view, program_address, rederive_address, seed_bytes,
    with_bump, MAX_SEED_LEN,
};

verus! {

/// The address of this program: `STRMsoUj1u6oEhDaG6gtECiixy5fKm1sNAyALaUhSBo`.
pub const PROGRAM_ID: [u8; 32] = [
    6, 133, 100, 182, 211, 232, 67, 212, 98, 241, 133, 62, 26, 14, 5, 190,
    201, 64, 30, 33, 35, 109, 144, 152, 133, 99, 161, 230, 83, 216, 38, 198,
];

/// The namespace of the log: `solstream`.
pub const NAMESPACE: [u8; 9] = [115, 111, 108, 115, 116, 114, 101, 97, 109];

/// The tag of the stream records: `stream`.
pub const STREAM_TAG: [u8; 6] = [115, 116, 114, 101, 97, 109];

/// The tag of the event records: `events`.
pub const EVENT_TAG: [u8; 6] = [101, 118, 101, 110, 116, 115];

/// The seeds that identify the stream called `name`.
pub open spec fn stream_seeds(name: Seq<char>) -> Seq<Seq<u8>> {
    seq![NAMESPACE@, STREAM_TAG@, encode_utf8(name)]
}

/// The seeds that identify the event that `nonce` tells apart from the others
/// of the stream at `stream`.
pub open spec fn event_seeds(stream: Seq<u8>, nonce: Seq<u8>) -> Seq<Seq<u8>> {
    seq![NAMESPACE@, EVENT_TAG@, stream, nonce]
}

/// The address of the stream called `name`, with its bump.
pub open spec fn stream_address(name: Seq<char>) -> Option<(Seq<u8>, u8)> {
    found_address(stream_seeds(name), PROGRAM_ID@)
}

/// The address of the event that `nonce` identifies under the stream at
/// `stream`, with its bump.
pub open spec fn event_address(stream: Seq<u8>, nonce: Seq<u8>) -> Option<(Seq<u8>, u8)> {
    found_address(event_seeds(stream, nonce), PROGRAM_ID@)
}

/// The address that the name of a stream derives with the bump `bump`.
pub open spec fn stream_address_with(name: Seq<char>, bump: u8) -> Option<Seq<u8>> {
    program_address(with_bump(stream_seeds(name), bump), PROGRAM_ID@)
}

/// The address of this program.
pub fn program_id() -> (id: Address)
    ensures
        id@ == PROGRAM_ID@,
{
    Address::new(PROGRAM_ID)
}

/// The seeds of the stream called `name`.
fn make_stream_seeds(name: &str) -> (seeds: Vec<Vec<u8>>)
    ensures
        seed_bytes(seeds@) == stream_seeds(name@),
{
    let mut seeds: Vec<Vec<u8>> = Vec::new();
    seeds.push(slice_to_vec(NAMESPACE.as_slice()));
    seeds.push(slice_to_vec(STREAM_TAG.as_slice()));
    seeds.push(slice_to_vec(name.as_bytes()));
    assert(seed_bytes(seeds@) =~= stream_seeds(name@));
    seeds
}

/// The seeds of the event that `nonce` identifies under the stream at `stream`.
fn make_event_seeds(stream: &Address, nonce: &[u8]) -> (seeds: Vec<Vec<u8>>)
    ensures
        seed_bytes(seeds@) == event_seeds(stream@, nonce@),
{
    let mut seeds: Vec<Vec<u8>> = Vec::new();
    seeds.push(slice_to_vec(NAMESPACE.as_slice()));
    seeds.push(slice_to_vec(EVENT_TAG.as_slice()));
    seeds.push(slice_to_vec(stream.bytes.as_slice()));
    seeds.push(slice_to_vec(nonce));
    assert(seed_bytes(seeds@) =~= event_seeds(stream@, nonce@));
    seeds
}

/// Finds the address of the stream called `name`, and the bump to store with
/// it. A name of more than thirty-two bytes has no address.
pub fn find_stream_address(name: &str) -> (r: Option<(Address, u8)>)
    ensures
        found_view(r) == stream_address(name@),
        encode_utf8(name@).len() > MAX_SEED_LEN ==> r is None,
{
    let seeds = make_stream_seeds(name);
    assert(seed_bytes(seeds@)[2] == encode_utf8(name@));
    find_address(&seeds, &program_id())
}

/// Finds the address of the event that `nonce` identifies under the stream
/// at `stream`, and the bump to store with it. A nonce of more than
/// thirty-two bytes has no address.
pub fn find_event_address(stream: &Address, nonce: &[u8]) -> (r: Option<(Address, u8)>)
    ensures
        found_view(r) == event_address(stream@, nonce@),
        nonce@.len() > MAX_SEED_LEN ==> r is None,
{
    let seeds = make_event_seeds(stream, nonce);
    assert(seed_bytes(seeds@)[3] == nonce@);
    find_address(&seeds, &program_id())
}

/// Derives the address of the stream called `name` again, from the bump that
/// was stored with it.
pub fn rederive_stream_address(name: &str, bump: u8) -> (r: Option<Address>)
    ensures
        match r {
            Some(address) => stream_address_with(name@, bump) == Some(address@),
            None => stream_address_with(name@, bump) is None,
        },
{
    let seeds = make_stream_seeds(name);
    rederive_address(seeds, bump, &program_id())
}

} // verus!
