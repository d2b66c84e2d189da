//! The link to the remote auction house: the client it is reached
//! through, and the service that sends our bids to it.
use vstd::prelude::*;
use std::time::Duration;
use crate::auction::{Amount, ItemBid};
use crate::event::{AuctionHouseEvent, BiddingEngineEvent, Event};
use crate::event_log::InMemoryLog;
use crate::persistence::{Error, Transaction};
use crate::service::LogFollowerService;

verus! {

/// The progress key of the sender.
pub const AUCTION_HOUSE_SENDER_ID: &'static str = "auction-house-sender";

/// A client of the remote auction house.
pub trait AuctionHouseClient {
    fn place_bid(&self, item_id: &str, price: Amount) -> Result<(), Error>;

    fn poll(&self, timeout: Option<Duration>) -> Result<Option<AuctionHouseEvent>, Error>;
}

/// Sends the bids the engine decided on to the auction house.
pub struct AuctionHouseSender<C> {
    auction_house_client: C,
    /// Item and price of each bid handed to the client, in order.
    placed: Ghost<Seq<(Seq<char>, Amount)>>,
}

/// The bid an event of the log asks us to place, if any.
pub fn bid_to_place(event: &Event) -> (r: Option<ItemBid>)
    ensures
        r == match *event {
            Event::BiddingEngine(BiddingEngineEvent::Bid(bid)) => Some(bid),
            _ => None,
        },
{
    match event {
        Event::BiddingEngine(BiddingEngineEvent::Bid(bid)) => Some(bid.duplicate()),
        _ => None,
    }
}

impl<C: AuctionHouseClient> AuctionHouseSender<C> {
    /// The client bids are sent through.
    pub closed spec fn client(&self) -> C {
        self.auction_house_client
    }

    /// Item and price of each bid handed to the client, in order.
    pub closed spec fn placed(&self) -> Seq<(Seq<char>, Amount)> {
        self.placed@
    }

    pub fn new(auction_house_client: C) -> (r: AuctionHouseSender<C>)
        ensures
            r.client() == auction_house_client,
            r.placed() == Seq::<(Seq<char>, Amount)>::empty(),
    {
        AuctionHouseSender { auction_house_client, placed: Ghost(Seq::empty()) }
    }
}

impl<C: AuctionHouseClient> LogFollowerService for AuctionHouseSender<C> {
    open spec fn inv(&self) -> bool {
        true
    }

    fn get_log_progress_id(&self) -> (r: String)
        ensures
            r@ == AUCTION_HOUSE_SENDER_ID@,
    {
        AUCTION_HOUSE_SENDER_ID.to_owned()
    }

    /// Places our own bids with the auction house, one call per bid, and
    /// returns what the call returned; passes over every other event. The
    /// log is left as it was.
    fn handle_event(&mut self, _transaction: &Transaction, log: &mut InMemoryLog, event: Event) -> (r:
        Result<(), Error>)
        ensures
            final(log)@ == old(log)@,
            final(self).client() == old(self).client(),
            (match event {
                Event::BiddingEngine(BiddingEngineEvent::Bid(bid)) => final(self).placed()
                    == old(self).placed().push((bid.item@, bid.price)),
                _ => r is Ok && final(self).placed() == old(self).placed(),
            }),
    {
        assert(log@.subrange(0, log@.len() as int) == log@);
        match bid_to_place(&event) {
            // the remote side is relied upon to ignore a bid it already has
            Some(bid) => {
                let r = self.auction_house_client.place_bid(bid.item.as_str(), bid.price);
                self.placed = Ghost(self.placed@.push((bid.item@, bid.price)));
                r
            },
            None => Ok(()),
        }
    }
}

} // verus!
