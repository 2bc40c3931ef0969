//! The descriptive record bound permanently to an asset identity at
//! issuance: display name, symbol, content-locator URI, royalty rate in
//! basis points, and the ordered beneficiary list whose shares sum to 100.

use vstd::prelude::*;

verus! {

/// One royalty beneficiary: identity, verified flag, share percentage.
#[derive(Clone, Copy, Debug, PartialEq, Eq, Structural)]
pub struct CreatorShare {
    pub address: u64,
    pub verified: bool,
    pub share: u8,
}

/// The immutable descriptive metadata bound to one asset identity.
pub struct DescriptiveRecord {
    pub name: String,
    pub symbol: String,
    pub uri: String,
    pub seller_fee_basis_points: u16,
    pub creators: Vec<CreatorShare>,
}

/// The sum of the beneficiaries' share percentages.
pub open spec fn shares_sum(cs: Seq<CreatorShare>) -> int
    decreases cs.len(),
{
    if cs.len() == 0 {
        0
    } else {
        shares_sum(cs.drop_last()) + cs.last().share
    }
}

/// Well-formedness of a descriptive record: the royalty rate stays within
/// the basis-point range and the beneficiary shares sum to 100.
pub open spec fn record_wf(r: DescriptiveRecord) -> bool {
    &&& r.seller_fee_basis_points <= 10000
    &&& shares_sum(r.creators@) == 100
}

/// Build the single-beneficiary creator list used at issuance: the original
/// creator carries the full share and is marked verified.
pub fn single_creator(creator: u64) -> (r: Vec<CreatorShare>)
    ensures
        r@ =~= seq![(CreatorShare { address: creator, verified: true, share: 100 })],
        shares_sum(r@) == 100,
{
    let mut v: Vec<CreatorShare> = Vec::new();
    v.push(CreatorShare { address: creator, verified: true, share: 100 });
    proof {
        reveal_with_fuel(shares_sum, 2);
        assert(v@.drop_last() =~= Seq::<CreatorShare>::empty());
    }
    v
}

} // verus!
