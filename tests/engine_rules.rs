use auction_sniper::auction::{BidDetails, Bidder, ItemBid};
use auction_sniper::event::{
    AuctionHouseEvent, AuctionHouseItemEvent, BiddingEngineAuctionError, BiddingEngineEvent,
    Event, UiEvent,
};
use auction_sniper::event_log::InMemoryLog;
use auction_sniper::persistence::{Backend, Connection, Error};
use auction_sniper::service::bidding_engine::{
    AuctionBiddingState, AuctionState, BiddingEngine, InMemoryBiddingStateStore,
};

fn state(limit: u64, last: Option<u64>, highest: Option<BidDetails>) -> AuctionBiddingState {
    AuctionBiddingState {
        max_bid_limit: limit,
        last_bid_sent: last,
        auction_state: AuctionState {
            higest_bid: highest,
            closed: false,
        },
    }
}

fn bid(bidder: Bidder, price: u64, increment: u64) -> BidDetails {
    BidDetails {
        bidder,
        price,
        increment,
    }
}

fn bid_event(item: &str, price: u64) -> BiddingEngineEvent {
    BiddingEngineEvent::Bid(ItemBid {
        item: item.to_owned(),
        price,
    })
}

fn max_bid(item: &str, price: u64) -> Event {
    Event::Ui(UiEvent::MaxBidSet(ItemBid {
        item: item.to_owned(),
        price,
    }))
}

fn house(item: &str, event: AuctionHouseItemEvent) -> Event {
    Event::AuctionHouse(AuctionHouseEvent {
        item: item.to_owned(),
        event,
    })
}

/// Everything the engine wrote to the log from `from` on.
fn emitted(log: &InMemoryLog, from: u64) -> Vec<Event> {
    log.read(from, usize::MAX).unwrap().data.into_iter().map(|e| e.details).collect()
}

#[test]
fn next_valid_bid_adds_the_increment() {
    let d = bid(Bidder::Other, 10, 3);
    assert_eq!(d.next_valid_bid(), 13);
    assert!(d.is_outbidded_by(13));
    assert!(d.is_outbidded_by(14));
    assert!(!d.is_outbidded_by(12));
    let huge = bid(Bidder::Other, u64::MAX, 1);
    assert!(!huge.is_outbidded_by(u64::MAX));
}

#[test]
fn raised_limit_bids_the_next_valid_amount() {
    let (s, events) = BiddingEngine::handle_max_bid_limit_event(
        "foo",
        Some(state(100, Some(0), Some(bid(Bidder::Other, 1, 1)))),
        101,
    )
    .unwrap();
    assert_eq!(s, Some(state(101, Some(2), Some(bid(Bidder::Other, 1, 1)))));
    assert_eq!(events, vec![bid_event("foo", 2)]);
}

#[test]
fn raised_limit_below_next_valid_bid_stays_silent() {
    let (s, events) = BiddingEngine::handle_max_bid_limit_event(
        "foo",
        Some(state(100, Some(0), Some(bid(Bidder::Other, 1, 101)))),
        101,
    )
    .unwrap();
    assert_eq!(s, Some(state(101, Some(0), Some(bid(Bidder::Other, 1, 101)))));
    assert!(events.is_empty());
}

#[test]
fn raised_limit_while_winning_stays_silent() {
    let (_, events) = BiddingEngine::handle_max_bid_limit_event(
        "foo",
        Some(state(100, Some(0), Some(bid(Bidder::Sniper, 1, 0)))),
        101,
    )
    .unwrap();
    assert!(events.is_empty());
}

#[test]
fn auction_event_for_unseen_item_is_an_unknown_auction() {
    let (s, events) = BiddingEngine::handle_auction_house_event(
        "foo",
        None,
        AuctionHouseItemEvent::Bid(bid(Bidder::Other, 5, 1)),
    )
    .unwrap();
    assert_eq!(s, None);
    assert_eq!(
        events,
        vec![BiddingEngineEvent::AuctionError(
            BiddingEngineAuctionError::UnknownAuction("foo".to_owned())
        )]
    );
}

#[test]
fn bid_on_closed_auction_is_ignored_and_closed_stays() {
    let open = AuctionState {
        higest_bid: None,
        closed: false,
    };
    let closed = open.handle_auction_event(AuctionHouseItemEvent::Closed);
    assert!(closed.closed);
    let after_bid = closed.handle_auction_event(AuctionHouseItemEvent::Bid(bid(Bidder::Other, 5, 1)));
    assert_eq!(after_bid, closed);
    assert!(after_bid.handle_auction_event(AuctionHouseItemEvent::Closed).closed);
}

#[test]
fn equal_bid_does_not_replace_the_highest() {
    let s = AuctionState {
        higest_bid: Some(bid(Bidder::Other, 10, 2)),
        closed: false,
    };
    let same = s.handle_auction_event(AuctionHouseItemEvent::Bid(bid(Bidder::Sniper, 11, 2)));
    assert_eq!(same, s);
    let higher = s.handle_auction_event(AuctionHouseItemEvent::Bid(bid(Bidder::Sniper, 12, 2)));
    assert_eq!(higher.higest_bid, Some(bid(Bidder::Sniper, 12, 2)));
}

#[test]
fn last_bid_sent_only_rises_over_a_run() {
    let mut engine = BiddingEngine::new(InMemoryBiddingStateStore::new());
    let mut log = InMemoryLog::new();
    let mut conn = Connection::new(Backend::InMemory);
    let events = vec![
        max_bid("foo", 100),
        house("foo", AuctionHouseItemEvent::Bid(bid(Bidder::Other, 50, 5))),
        max_bid("foo", 10),
        house("foo", AuctionHouseItemEvent::Bid(bid(Bidder::Other, 60, 5))),
        max_bid("foo", 100),
        house("foo", AuctionHouseItemEvent::Closed),
        max_bid("foo", 1000),
    ];
    let mut bids = vec![];
    for e in events {
        let from = log.tail();
        engine.handle_event(&conn.start_transaction(), &mut log, e).unwrap();
        for out in emitted(&log, from) {
            if let Event::BiddingEngine(BiddingEngineEvent::Bid(b)) = out {
                bids.push(b.price);
            }
        }
    }
    assert_eq!(bids, vec![0, 55, 65]);
}

#[test]
fn redelivered_event_emits_nothing_more() -> Result<(), Error> {
    let mut engine = BiddingEngine::new(InMemoryBiddingStateStore::new());
    let mut log = InMemoryLog::new();
    let mut conn = Connection::new(Backend::InMemory);
    engine.handle_event(&conn.start_transaction(), &mut log, max_bid("foo", 100))?;
    let outbid = house("foo", AuctionHouseItemEvent::Bid(bid(Bidder::Other, 7, 0)));
    engine.handle_event(&conn.start_transaction(), &mut log, outbid.clone())?;
    assert_eq!(log.tail(), 2);
    engine.handle_event(&conn.start_transaction(), &mut log, outbid)?;
    engine.handle_event(&conn.start_transaction(), &mut log, max_bid("foo", 100))?;
    assert_eq!(log.tail(), 2);
    // an unknown auction is reported each time
    let unknown = house("bar", AuctionHouseItemEvent::Closed);
    engine.handle_event(&conn.start_transaction(), &mut log, unknown.clone())?;
    engine.handle_event(&conn.start_transaction(), &mut log, unknown)?;
    assert_eq!(log.tail(), 4);
    Ok(())
}

#[test]
fn engine_refuses_a_transaction_of_another_backend() {
    let mut engine = BiddingEngine::new(InMemoryBiddingStateStore::new());
    let mut log = InMemoryLog::new();
    let mut conn = Connection::new(Backend::Postgres);
    assert_eq!(
        engine.handle_event(&conn.start_transaction(), &mut log, max_bid("foo", 100)),
        Err(Error::WrongType)
    );
    assert_eq!(log.tail(), 0);
    // its own events need no store
    assert_eq!(
        engine.handle_event(
            &conn.start_transaction(),
            &mut log,
            Event::BiddingEngine(bid_event("foo", 1))
        ),
        Ok(())
    );
}

#[test]
fn state_store_round_trip_and_backend_check() {
    let mut store = InMemoryBiddingStateStore::new();
    let mut conn = Connection::new(Backend::InMemory);
    let tr = conn.start_transaction();
    assert_eq!(store.load_tr(&tr, "foo"), Ok(None));
    let s = state(5, Some(1), None);
    store.store_tr(&tr, "foo", s).unwrap();
    assert_eq!(store.load(&mut conn, "foo"), Ok(Some(s)));
    assert_eq!(store.load_tr(&tr, "bar"), Ok(None));
    let mut other = Connection::new(Backend::Postgres);
    assert_eq!(store.load(&mut other, "foo"), Err(Error::WrongType));
    assert_eq!(
        store.store_tr(&other.start_transaction(), "foo", state(9, None, None)),
        Err(Error::WrongType)
    );
    assert_eq!(store.load_tr(&tr, "foo"), Ok(Some(s)));
}
