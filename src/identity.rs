use vstd::prelude::*;

use crate::address::Address;
use crate::uuid::{seed_prefix, UuidFormatting};

verus! {

/// The program-derived address and bump seed for `seeds` under the program
/// `program_id`, or `None` when there is none.
pub uninterp spec fn program_address(seeds: Seq<Seq<u8>>, program_id: Seq<u8>) -> Option<(Seq<u8>, u8)>;

/// Relies on `Pubkey::try_find_program_address` of solana-program (through
/// anchor-lang's prelude): the address and bump seed depend on the seeds and
/// the program id alone, and the search gives `None` rather than panicking.
#[verifier::external_body]
fn find_program_address(seeds: &Vec<Vec<u8>>, program_id: &Address) -> (r: Option<(Address, u8)>)
    ensures
        match r {
            Some((a, bump)) => program_address(seeds@.map_values(|v: Vec<u8>| v@), program_id.key()) == Some((a.key(), bump)),
            None => program_address(seeds@.map_values(|v: Vec<u8>| v@), program_id.key()) is None,
        },
{
    let slices: Vec<&[u8]> = seeds.iter().map(|s| s.as_slice()).collect();
    let program = anchor_lang::prelude::Pubkey::new_from_array(program_id.bytes);
    anchor_lang::prelude::Pubkey::try_find_program_address(&slices, &program)
        .map(|(key, bump)| (Address { bytes: key.to_bytes() }, bump))
}

/// The bytes of `release_escrow`.
pub open spec fn escrow_tag() -> Seq<u8> {
    seq![114u8, 101, 108, 101, 97, 115, 101, 95, 101, 115, 99, 114, 111, 119]
}

/// The bytes of `release_access`.
pub open spec fn access_tag() -> Seq<u8> {
    seq![114u8, 101, 108, 101, 97, 115, 101, 95, 97, 99, 99, 101, 115, 115]
}

/// The seeds of a record keyed by a release and a buyer: a namespace tag and
/// the first seven bytes of each identifier without its hyphens.
pub open spec fn record_seeds(tag: Seq<u8>, release_id: Seq<char>, buyer_id: Seq<char>) -> Seq<Seq<u8>> {
    seq![tag, seed_prefix(release_id, 7), seed_prefix(buyer_id, 7)]
}

fn seed_vec(seed: &[u8; 7]) -> (r: Vec<u8>)
    ensures
        r@ == seed@,
{
    let mut v: Vec<u8> = Vec::new();
    let mut i: usize = 0;
    while i < 7
        invariant
            i <= 7,
            seed@.len() == 7,
            v@ == seed@.take(i as int),
        decreases 7 - i,
    {
        v.push(seed[i]);
        i = i + 1;
        assert(v@ =~= seed@.take(i as int));
    }
    assert(seed@.take(7) =~= seed@);
    v
}

fn record_address(tag: Vec<u8>, release_id: &str, buyer_id: &str, program_id: &Address) -> (r: Option<(Address, u8)>)
    ensures
        match r {
            Some((a, bump)) => program_address(record_seeds(tag@, release_id@, buyer_id@), program_id.key()) == Some((a.key(), bump)),
            None => program_address(record_seeds(tag@, release_id@, buyer_id@), program_id.key()) is None,
        },
{
    let ghost tag_bytes = tag@;
    let release_seed = seed_vec(&release_id.to_7_byte_seed());
    let buyer_seed = seed_vec(&buyer_id.to_7_byte_seed());
    let mut seeds: Vec<Vec<u8>> = Vec::new();
    seeds.push(tag);
    seeds.push(release_seed);
    seeds.push(buyer_seed);
    assert(seeds@.map_values(|v: Vec<u8>| v@) =~= record_seeds(tag_bytes, release_id@, buyer_id@));
    find_program_address(&seeds, program_id)
}

/// The address and bump seed of the escrow entry for a release and a buyer.
pub fn escrow_address(release_id: &str, buyer_id: &str, program_id: &Address) -> (r: Option<(Address, u8)>)
    ensures
        match r {
            Some((a, bump)) => program_address(record_seeds(escrow_tag(), release_id@, buyer_id@), program_id.key())
                == Some((a.key(), bump)),
            None => program_address(record_seeds(escrow_tag(), release_id@, buyer_id@), program_id.key()) is None,
        },
{
    let tag: Vec<u8> = vec![114u8, 101, 108, 101, 97, 115, 101, 95, 101, 115, 99, 114, 111, 119];
    assert(tag@ =~= escrow_tag());
    record_address(tag, release_id, buyer_id, program_id)
}

/// The address and bump seed of the access grant for a release and a buyer.
pub fn access_address(release_id: &str, buyer_id: &str, program_id: &Address) -> (r: Option<(Address, u8)>)
    ensures
        match r {
            Some((a, bump)) => program_address(record_seeds(access_tag(), release_id@, buyer_id@), program_id.key())
                == Some((a.key(), bump)),
            None => program_address(record_seeds(access_tag(), release_id@, buyer_id@), program_id.key()) is None,
        },
{
    let tag: Vec<u8> = vec![114u8, 101, 108, 101, 97, 115, 101, 95, 97, 99, 99, 101, 115, 115];
    assert(tag@ =~= access_tag());
    record_address(tag, release_id, buyer_id, program_id)
}

} // verus!
