use vstd::prelude::*;

use crate::access::FulfillReleaseArgs;
use crate::address::Address;

verus! {

/// A creator listed on a collectible, with a share of its royalties.
#[derive(Clone, Copy, Debug, PartialEq, Eq)]
pub struct Creator {
    pub address: Address,
    pub verified: bool,
    pub share: u8,
}

/// The collection a collectible belongs to.
#[derive(Clone, Copy, Debug, PartialEq, Eq)]
pub struct Collection {
    pub verified: bool,
    pub key: Address,
}

/// How a collectible may be used up.
#[derive(Clone, Copy, Debug, PartialEq, Eq, PartialOrd, Hash, Structural)]
pub enum UseMethod {
    Burn,
    Multiple,
    Single,
}

/// A collectible's remaining and total uses.
#[derive(Clone, Copy, Debug, PartialEq, Eq, Structural)]
pub struct Uses {
    pub use_method: UseMethod,
    pub remaining: u64,
    pub total: u64,
}

/// The metadata attached to a minted collectible.
#[derive(Clone, Debug, PartialEq, Eq)]
pub struct Metadata {
    pub name: String,
    pub symbol: String,
    pub uri: String,
    pub seller_fee_basis_points: u16,
    pub creators: Option<Vec<Creator>>,
    pub collection: Option<Collection>,
    pub uses: Option<Uses>,
}

/// The creator as listed on a minted collectible: only the treasury itself is
/// marked verified, whatever the caller claimed.
pub open spec fn listed_creator(c: Creator, treasury_key: Seq<u8>) -> Creator {
    Creator { address: c.address, verified: c.address.key() == treasury_key, share: c.share }
}

impl Creator {
    pub fn to_metaplex_creator(&self, treasury_key: &Address) -> (r: Creator)
        ensures
            r == listed_creator(*self, treasury_key.key()),
    {
        Creator { address: self.address, verified: self.address.same(treasury_key), share: self.share }
    }

    pub fn multiple_to_metaplex_creators(creators: Vec<Creator>, treasury_key: &Address) -> (r: Vec<Creator>)
        ensures
            r@ == creators@.map_values(|c: Creator| listed_creator(c, treasury_key.key())),
    {
        let mut listed: Vec<Creator> = Vec::new();
        let mut i: usize = 0;
        while i < creators.len()
            invariant
                i <= creators@.len(),
                listed@ == creators@.take(i as int).map_values(|c: Creator| listed_creator(c, treasury_key.key())),
            decreases creators@.len() - i,
        {
            listed.push(creators[i].to_metaplex_creator(treasury_key));
            i = i + 1;
            assert(listed@ =~= creators@.take(i as int).map_values(|c: Creator| listed_creator(c, treasury_key.key())));
        }
        assert(creators@.take(i as int) =~= creators@);
        listed
    }
}

/// The metadata of the collectible minted by `fulfill`: the name, symbol,
/// address and royalty from the arguments, the creators as listed under the
/// treasury, and no collection or uses.
pub fn collectible_metadata(args: &FulfillReleaseArgs, treasury_key: &Address) -> (r: Metadata)
    ensures
        r.name@ == args.name@,
        r.symbol@ == args.symbol@,
        r.uri@ == args.metadata_uri@,
        r.seller_fee_basis_points == args.seller_fee_basis_points,
        r.creators is Some,
        r.creators->0@ == args.creators@.map_values(|c: Creator| listed_creator(c, treasury_key.key())),
        r.collection is None,
        r.uses is None,
{
    let mut creators: Vec<Creator> = Vec::new();
    let mut i: usize = 0;
    while i < args.creators.len()
        invariant
            i <= args.creators@.len(),
            creators@ == args.creators@.take(i as int),
        decreases args.creators@.len() - i,
    {
        creators.push(args.creators[i]);
        i = i + 1;
        assert(creators@ =~= args.creators@.take(i as int));
    }
    assert(args.creators@.take(i as int) =~= args.creators@);
    Metadata {
        name: args.name.clone(),
        symbol: args.symbol.clone(),
        uri: args.metadata_uri.clone(),
        seller_fee_basis_points: args.seller_fee_basis_points,
        creators: Some(Creator::multiple_to_metaplex_creators(creators, treasury_key)),
        collection: None,
        uses: None,
    }
}

} // verus!
