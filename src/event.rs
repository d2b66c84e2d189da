//! The events that services exchange through the log.
use vstd::prelude::*;
use crate::auction::{BidDetails, ItemBid, ItemId};

verus! {

/// Everything that is persisted in the event log, one variant per
/// producing service.
#[derive(Clone, Debug, PartialEq, Eq)]
pub enum Event {
    AuctionHouse(AuctionHouseEvent),
    BiddingEngine(BiddingEngineEvent),
    Ui(UiEvent),
}

/// A notification of the auction house about one item.
#[derive(Clone, Debug, PartialEq, Eq)]
pub struct AuctionHouseEvent {
    pub item: ItemId,
    pub event: AuctionHouseItemEvent,
}

#[derive(Copy, Clone, Debug, PartialEq, Eq, Structural)]
pub enum AuctionHouseItemEvent {
    Bid(BidDetails),
    Closed,
}

#[derive(Clone, Debug, PartialEq, Eq)]
pub enum BiddingEngineEvent {
    /// We are placing a bid
    Bid(ItemBid),
    /// Auction house event caused an error
    AuctionError(BiddingEngineAuctionError),
    /// User event caused an error
    UserError(BiddingEngineUserError),
}

#[derive(Copy, Clone, Debug, PartialEq, Eq, Structural)]
pub enum BiddingEngineUserError {
    AlreadyClosed,
    TooLow,
}

#[derive(Clone, Debug, PartialEq, Eq)]
pub enum BiddingEngineAuctionError {
    UnknownAuction(ItemId),
}

#[derive(Clone, Debug, PartialEq, Eq)]
pub enum UiEvent {
    MaxBidSet(ItemBid),
}

impl BiddingEngineEvent {
    /// A copy of this event.
    pub fn duplicate(&self) -> (r: BiddingEngineEvent)
        ensures
            r == *self,
    {
        match self {
            BiddingEngineEvent::Bid(b) => BiddingEngineEvent::Bid(b.duplicate()),
            BiddingEngineEvent::AuctionError(BiddingEngineAuctionError::UnknownAuction(item)) => {
                BiddingEngineEvent::AuctionError(
                    BiddingEngineAuctionError::UnknownAuction(item.clone()),
                )
            },
            BiddingEngineEvent::UserError(e) => BiddingEngineEvent::UserError(*e),
        }
    }
}

impl Event {
    /// A copy of this event.
    pub fn duplicate(&self) -> (r: Event)
        ensures
            r == *self,
    {
        match self {
            Event::AuctionHouse(e) => Event::AuctionHouse(
                AuctionHouseEvent { item: e.item.clone(), event: e.event },
            ),
            Event::BiddingEngine(e) => Event::BiddingEngine(e.duplicate()),
            Event::Ui(UiEvent::MaxBidSet(b)) => Event::Ui(UiEvent::MaxBidSet(b.duplicate())),
        }
    }
}

} // verus!
