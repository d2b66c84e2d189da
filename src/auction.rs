//! Amounts, bidders and bids of the auction domain.
use vstd::prelude::*;

verus! {

/// Identifier of an auction.
pub type ItemId = String;

/// A sum of money, in units of the auction domain.
pub type Amount = u64;

/// Who placed a bid.
#[derive(Copy, Clone, Debug, PartialEq, Eq, Structural)]
pub enum Bidder {
    Sniper,
    Other,
}

/// A bid on a given auction.
#[derive(Clone, Debug, PartialEq, Eq)]
pub struct Bid {
    pub item: ItemId,
    pub details: BidDetails,
}

/// A bid that we intend to place.
#[derive(Clone, Debug, PartialEq, Eq)]
pub struct ItemBid {
    pub item: ItemId,
    pub price: Amount,
}

/// A bid as the auction house reports it: who bid, how much, and by how
/// much the next bid has to exceed it.
#[derive(Copy, Clone, Debug, PartialEq, Eq, Structural)]
pub struct BidDetails {
    pub bidder: Bidder,
    pub price: Amount,
    pub increment: Amount,
}

impl BidDetails {
    /// The smallest amount that outbids this bid.
    pub open spec fn spec_next_valid_bid(self) -> int {
        self.price + self.increment
    }

    /// An amount outbids this bid when it reaches `price + increment`.
    pub open spec fn outbidded_by(self, other: int) -> bool {
        other >= self.spec_next_valid_bid()
    }

    pub fn next_valid_bid(self) -> (r: Amount)
        requires
            self.spec_next_valid_bid() <= u64::MAX,
        ensures
            r == self.spec_next_valid_bid(),
    {
        self.price + self.increment
    }

    pub fn is_outbidded_by(self, other: Amount) -> (r: bool)
        ensures
            r == self.outbidded_by(other as int),
    {
        other >= self.price && other - self.price >= self.increment
    }
}

impl ItemBid {
    /// A copy of this bid.
    pub fn duplicate(&self) -> (r: ItemBid)
        ensures
            r == *self,
    {
        ItemBid { item: self.item.clone(), price: self.price }
    }
}

} // verus!
