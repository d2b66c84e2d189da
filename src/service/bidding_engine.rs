//! Bidding Engine
//!
//! The logic that, based on events from the Ui and the Auction House,
//! determines whether new bids should be placed and of what amount.
use vstd::prelude::*;
use crate::auction::{Amount, BidDetails, Bidder, ItemBid};
use crate::event::{
    AuctionHouseItemEvent, BiddingEngineAuctionError, BiddingEngineEvent, Event, UiEvent,
};
use crate::event_log::InMemoryLog;
use crate::keyed_store::KeyedStore;
use crate::persistence::{Backend, Connection, Error, Transaction};
use crate::service::LogFollowerService;

verus! {

/// The progress key of the bidding engine.
pub const BIDDING_ENGINE_SERVICE_ID: &'static str = "bidding-engine";

/// Bidding state from the perspective of the auction house.
///
/// Constructed from the events delivered by the (remote) auction house.
#[derive(Copy, Clone, Debug, PartialEq, Eq, Structural)]
pub struct AuctionState {
    pub higest_bid: Option<BidDetails>,
    pub closed: bool,
}

/// Our own state in one auction.
#[derive(Copy, Clone, Debug, PartialEq, Eq, Structural)]
pub struct AuctionBiddingState {
    pub max_bid_limit: Amount,
    pub last_bid_sent: Option<Amount>,
    pub auction_state: AuctionState,
}

/// What one event makes the engine emit.
pub enum Emission {
    Nothing,
    Bid(Amount),
    UnknownAuction,
}

/// What the engine handles about one item.
pub enum ItemInput {
    AuctionHouse(AuctionHouseItemEvent),
    MaxBidSet(Amount),
}

impl Default for AuctionState {
    fn default() -> (r: AuctionState)
        ensures
            r == AuctionState::initial(),
    {
        AuctionState { higest_bid: None, closed: false }
    }
}

impl Default for AuctionBiddingState {
    fn default() -> (r: AuctionBiddingState)
        ensures
            r == AuctionBiddingState::initial(),
    {
        AuctionBiddingState { max_bid_limit: 0, last_bid_sent: None, auction_state: AuctionState::default() }
    }
}

impl AuctionState {
    /// An open auction with no bid yet.
    pub open spec fn initial() -> AuctionState {
        AuctionState { higest_bid: None, closed: false }
    }

    /// The state after an auction-house event: a bid is taken while the
    /// auction is open and the bid outbids the highest one (the first of two
    /// equal bids stays); closing is final.
    pub open spec fn apply(self, event: AuctionHouseItemEvent) -> AuctionState {
        match event {
            AuctionHouseItemEvent::Bid(bid) => {
                if !self.closed && match self.higest_bid {
                    None => true,
                    Some(highest) => highest.outbidded_by(bid.price as int),
                } {
                    AuctionState { higest_bid: Some(bid), closed: self.closed }
                } else {
                    self
                }
            },
            AuctionHouseItemEvent::Closed => AuctionState { higest_bid: self.higest_bid, closed: true },
        }
    }

    /// The bid we would place, given what we are willing to pay.
    pub open spec fn next_bid(self, max_price: Amount) -> Option<Amount> {
        if self.closed {
            None
        } else {
            match self.higest_bid {
                None => Some(0),
                Some(highest) => {
                    if highest.bidder == Bidder::Sniper {
                        None
                    } else if highest.spec_next_valid_bid() <= max_price {
                        Some(highest.spec_next_valid_bid() as Amount)
                    } else {
                        None
                    }
                },
            }
        }
    }

    pub fn handle_auction_event(self, event: AuctionHouseItemEvent) -> (r: AuctionState)
        ensures
            r == self.apply(event),
    {
        let mut state = self;
        match event {
            AuctionHouseItemEvent::Bid(bid) => {
                let outbids = match state.higest_bid {
                    None => true,
                    Some(highest) => highest.is_outbidded_by(bid.price),
                };
                if !state.closed && outbids {
                    state.higest_bid = Some(bid);
                }
                state
            },
            AuctionHouseItemEvent::Closed => {
                state.closed = true;
                state
            },
        }
    }

    fn get_next_valid_bid(self, max_price: Amount) -> (r: Option<Amount>)
        ensures
            r == self.next_bid(max_price),
    {
        if self.closed {
            return None;
        }
        match self.higest_bid {
            // an opening bid of zero
            None => Some(0),
            Some(highest) => {
                if highest.bidder == Bidder::Sniper {
                    // our bid is the highest already
                    None
                } else if highest.is_outbidded_by(max_price) {
                    Some(highest.next_valid_bid())
                } else {
                    None
                }
            },
        }
    }
}

impl AuctionBiddingState {
    /// No limit, no bid sent, an open auction without bids.
    pub open spec fn initial() -> AuctionBiddingState {
        AuctionBiddingState { max_bid_limit: 0, last_bid_sent: None, auction_state: AuctionState::initial() }
    }

    /// Whether `amount` is worth sending, given the bids sent so far.
    pub open spec fn better_than_last_sent(self, amount: Amount) -> bool {
        match self.last_bid_sent {
            None => true,
            Some(last) => last < amount,
        }
    }

    /// The bid to send from this state, if any.
    pub open spec fn decision(self) -> Option<Amount> {
        match self.auction_state.next_bid(self.max_bid_limit) {
            Some(bid) => if self.better_than_last_sent(bid) {
                Some(bid)
            } else {
                None
            },
            None => None,
        }
    }

    /// This state once the decision has been acted on.
    pub open spec fn after_decision(self) -> AuctionBiddingState {
        match self.decision() {
            Some(bid) => AuctionBiddingState { last_bid_sent: Some(bid), ..self },
            None => self,
        }
    }

    pub open spec fn with_auction_event(self, event: AuctionHouseItemEvent) -> AuctionBiddingState {
        AuctionBiddingState { auction_state: self.auction_state.apply(event), ..self }
    }

    pub fn is_bid_better_than_last_bid_sent(self, amount: Amount) -> (r: bool)
        ensures
            r == self.better_than_last_sent(amount),
    {
        match self.last_bid_sent {
            None => true,
            Some(last) => last < amount,
        }
    }

    pub fn handle_auction_house_event(self, event: AuctionHouseItemEvent) -> (r: AuctionBiddingState)
        ensures
            r == self.with_auction_event(event),
    {
        AuctionBiddingState { auction_state: self.auction_state.handle_auction_event(event), ..self }
    }
}

/// `events` is exactly what `emission` calls for, about `item`.
pub open spec fn emits(events: Seq<BiddingEngineEvent>, item: Seq<char>, emission: Emission) -> bool {
    match emission {
        Emission::Nothing => events.len() == 0,
        Emission::Bid(price) => {
            &&& events.len() == 1
            &&& events[0] is Bid
            &&& events[0]->Bid_0.item@ == item
            &&& events[0]->Bid_0.price == price
        },
        Emission::UnknownAuction => {
            &&& events.len() == 1
            &&& events[0] is AuctionError
            &&& events[0]->AuctionError_0->UnknownAuction_0@ == item
        },
    }
}

/// `events`, as written to the log, are exactly what `emission` calls for.
pub open spec fn log_emits(events: Seq<Event>, item: Seq<char>, emission: Emission) -> bool {
    &&& forall|i: int| 0 <= i < events.len() ==> #[trigger] events[i] is BiddingEngine
    &&& emits(events.map_values(|e: Event| e->BiddingEngine_0), item, emission)
}

pub open spec fn emission_of(bid: Option<Amount>) -> Emission {
    match bid {
        Some(price) => Emission::Bid(price),
        None => Emission::Nothing,
    }
}

/// The state of an item after one input, from its state before (if the
/// engine has seen it), and what the engine emits.
pub open spec fn item_transition(old_state: Option<AuctionBiddingState>, input: ItemInput) -> (
    Option<AuctionBiddingState>,
    Emission,
) {
    match input {
        ItemInput::MaxBidSet(price) => {
            let base = match old_state {
                Some(s) => s,
                None => AuctionBiddingState::initial(),
            };
            let s = AuctionBiddingState { max_bid_limit: price, ..base };
            (Some(s.after_decision()), emission_of(s.decision()))
        },
        ItemInput::AuctionHouse(event) => match old_state {
            None => (None, Emission::UnknownAuction),
            Some(s0) => {
                let s = s0.with_auction_event(event);
                (Some(s.after_decision()), emission_of(s.decision()))
            },
        },
    }
}

/// The item an event is about, and what the engine takes from it.
pub open spec fn item_input(event: Event) -> Option<(Seq<char>, ItemInput)> {
    match event {
        Event::AuctionHouse(e) => Some((e.item@, ItemInput::AuctionHouse(e.event))),
        Event::Ui(UiEvent::MaxBidSet(b)) => Some((b.item@, ItemInput::MaxBidSet(b.price))),
        Event::BiddingEngine(_) => None,
    }
}

pub open spec fn lookup(
    states: Map<Seq<char>, AuctionBiddingState>,
    item: Seq<char>,
) -> Option<AuctionBiddingState> {
    if states.contains_key(item) {
        Some(states[item])
    } else {
        None
    }
}

/// All per-item states after the engine handles `event`.
pub open spec fn engine_states(states: Map<Seq<char>, AuctionBiddingState>, event: Event) -> Map<
    Seq<char>,
    AuctionBiddingState,
> {
    match item_input(event) {
        None => states,
        Some((item, input)) => match item_transition(lookup(states, item), input).0 {
            Some(s) => states.insert(item, s),
            None => states,
        },
    }
}

/// What the engine emits when it handles `event` in `states`.
pub open spec fn engine_emission(states: Map<Seq<char>, AuctionBiddingState>, event: Event) -> Emission {
    match item_input(event) {
        None => Emission::Nothing,
        Some((item, input)) => item_transition(lookup(states, item), input).1,
    }
}

/// The item an event is about; empty for events the engine ignores.
pub open spec fn event_item(event: Event) -> Seq<char> {
    match item_input(event) {
        None => Seq::empty(),
        Some((item, _)) => item,
    }
}

/// Per-item bidding states of the in-memory backend.
pub struct InMemoryBiddingStateStore(KeyedStore<AuctionBiddingState>);

impl InMemoryBiddingStateStore {
    pub closed spec fn view(&self) -> Map<Seq<char>, AuctionBiddingState> {
        self.0@
    }

    pub closed spec fn wf(&self) -> bool {
        self.0.wf()
    }

    pub fn new() -> (r: InMemoryBiddingStateStore)
        ensures
            r.wf(),
            r@ == Map::<Seq<char>, AuctionBiddingState>::empty(),
    {
        InMemoryBiddingStateStore(KeyedStore::new())
    }

    /// The state of `item_id`, read within a transaction.
    pub fn load_tr(&self, transaction: &Transaction, item_id: &str) -> (r: Result<
        Option<AuctionBiddingState>,
        Error,
    >)
        requires
            self.wf(),
        ensures
            r is Ok <==> transaction.backend == Backend::InMemory,
            r is Err ==> r == Err::<Option<AuctionBiddingState>, Error>(Error::WrongType),
            r is Ok ==> r->Ok_0 == lookup(self@, item_id@),
    {
        transaction.cast(Backend::InMemory)?;
        Ok(self.0.get(item_id))
    }

    /// The state of `item_id`, read in a transaction of its own.
    pub fn load(&self, conn: &mut Connection, item_id: &str) -> (r: Result<
        Option<AuctionBiddingState>,
        Error,
    >)
        requires
            self.wf(),
        ensures
            r is Ok <==> old(conn).backend == Backend::InMemory,
            r is Err ==> r == Err::<Option<AuctionBiddingState>, Error>(Error::WrongType),
            r is Ok ==> r->Ok_0 == lookup(self@, item_id@),
    {
        let transaction = conn.start_transaction();
        self.load_tr(&transaction, item_id)
    }

    /// Records `state` for `item_id` as part of `transaction`.
    pub fn store_tr(
        &mut self,
        transaction: &Transaction,
        item_id: &str,
        state: AuctionBiddingState,
    ) -> (r: Result<(), Error>)
        requires
            old(self).wf(),
        ensures
            final(self).wf(),
            r is Ok <==> transaction.backend == Backend::InMemory,
            r is Err ==> r == Err::<(), Error>(Error::WrongType) && final(self)@ == old(self)@,
            r is Ok ==> final(self)@ == old(self)@.insert(item_id@, state),
    {
        transaction.cast(Backend::InMemory)?;
        self.0.insert(item_id, state);
        Ok(())
    }
}

/// The bidding engine: it owns the per-item states and writes its
/// decisions to the log.
pub struct BiddingEngine {
    bidding_state_store: InMemoryBiddingStateStore,
}

impl BiddingEngine {
    /// The per-item states the engine holds.
    pub closed spec fn view(&self) -> Map<Seq<char>, AuctionBiddingState> {
        self.bidding_state_store@
    }

    pub closed spec fn wf(&self) -> bool {
        self.bidding_state_store.wf()
    }

    pub fn new(bidding_state_store: InMemoryBiddingStateStore) -> (r: BiddingEngine)
        requires
            bidding_state_store.wf(),
        ensures
            r.wf(),
            r@ == bidding_state_store@,
    {
        BiddingEngine { bidding_state_store }
    }

    /// Decides on a bid for `item_id` in `new_state`; the state returned
    /// remembers a bid that is sent.
    pub fn handle_next_bid_decision_for_new_state(
        item_id: &str,
        new_state: AuctionBiddingState,
    ) -> (r: Result<(Option<AuctionBiddingState>, Vec<BiddingEngineEvent>), Error>)
        ensures
            r is Ok,
            r->Ok_0.0 == Some(new_state.after_decision()),
            emits(r->Ok_0.1@, item_id@, emission_of(new_state.decision())),
    {
        let mut new_state = new_state;
        match new_state.auction_state.get_next_valid_bid(new_state.max_bid_limit) {
            Some(our_new_bid) => {
                if new_state.is_bid_better_than_last_bid_sent(our_new_bid) {
                    new_state.last_bid_sent = Some(our_new_bid);
                    let mut events: Vec<BiddingEngineEvent> = Vec::new();
                    events.push(
                        BiddingEngineEvent::Bid(
                            ItemBid { item: item_id.to_owned(), price: our_new_bid },
                        ),
                    );
                    Ok((Some(new_state), events))
                } else {
                    Ok((Some(new_state), Vec::new()))
                }
            },
            None => Ok((Some(new_state), Vec::new())),
        }
    }

    /// Handles an auction-house event about `item_id`; an item the engine
    /// has never seen is reported as an unknown auction.
    pub fn handle_auction_house_event(
        item_id: &str,
        old_state: Option<AuctionBiddingState>,
        event: AuctionHouseItemEvent,
    ) -> (r: Result<(Option<AuctionBiddingState>, Vec<BiddingEngineEvent>), Error>)
        ensures
            r is Ok,
            r->Ok_0.0 == item_transition(old_state, ItemInput::AuctionHouse(event)).0,
            emits(r->Ok_0.1@, item_id@, item_transition(old_state, ItemInput::AuctionHouse(event)).1),
    {
        match old_state {
            Some(auction_state) => Self::handle_next_bid_decision_for_new_state(
                item_id,
                auction_state.handle_auction_house_event(event),
            ),
            None => {
                let mut events: Vec<BiddingEngineEvent> = Vec::new();
                events.push(
                    BiddingEngineEvent::AuctionError(
                        BiddingEngineAuctionError::UnknownAuction(item_id.to_owned()),
                    ),
                );
                Ok((None, events))
            },
        }
    }

    /// Handles a new spending limit for `item_id`.
    pub fn handle_max_bid_limit_event(
        item_id: &str,
        old_state: Option<AuctionBiddingState>,
        price: Amount,
    ) -> (r: Result<(Option<AuctionBiddingState>, Vec<BiddingEngineEvent>), Error>)
        ensures
            r is Ok,
            r->Ok_0.0 == item_transition(old_state, ItemInput::MaxBidSet(price)).0,
            emits(r->Ok_0.1@, item_id@, item_transition(old_state, ItemInput::MaxBidSet(price)).1),
    {
        let old_state = match old_state {
            Some(s) => s,
            None => AuctionBiddingState::default(),
        };
        Self::handle_next_bid_decision_for_new_state(
            item_id,
            AuctionBiddingState { max_bid_limit: price, ..old_state },
        )
    }
    /// Loads the state of `item_id`, applies `input` to it, stores the new
    /// state if it changed and writes what the engine emits to the log, all
    /// as part of `transaction`.
    fn handle_auction_item_event_with(
        &mut self,
        transaction: &Transaction,
        log: &mut InMemoryLog,
        item_id: &str,
        input: ItemInput,
    ) -> (r: Result<(), Error>)
        requires
            old(self).wf(),
        ensures
            final(self).wf(),
            r is Ok <==> transaction.backend == Backend::InMemory,
            r is Err ==> r == Err::<(), Error>(Error::WrongType) && final(self)@ == old(self)@
                && final(log)@ == old(log)@,
            r is Ok ==> {
                let (new_state, emission) = item_transition(lookup(old(self)@, item_id@), input);
                &&& final(self)@ == match new_state {
                    Some(s) => old(self)@.insert(item_id@, s),
                    None => old(self)@,
                }
                &&& final(log)@.len() >= old(log)@.len()
                &&& final(log)@.subrange(0, old(log)@.len() as int) == old(log)@
                &&& log_emits(
                    final(log)@.subrange(old(log)@.len() as int, final(log)@.len() as int),
                    item_id@,
                    emission,
                )
            },
    {
        let old_auction_state = self.bidding_state_store.load_tr(transaction, item_id)?;
        let (new_auction_state, events) = match input {
            ItemInput::AuctionHouse(event) => Self::handle_auction_house_event(
                item_id,
                old_auction_state,
                event,
            )?,
            ItemInput::MaxBidSet(price) => Self::handle_max_bid_limit_event(
                item_id,
                old_auction_state,
                price,
            )?,
        };
        if let Some(new_state) = new_auction_state {
            let changed = match old_auction_state {
                Some(old_state) => old_state != new_state,
                None => true,
            };
            if changed {
                self.bidding_state_store.store_tr(transaction, item_id, new_state)?;
            } else {
                assert(self@.insert(item_id@, new_state) =~= self@);
            }
        }
        let mut to_write: Vec<Event> = Vec::new();
        let mut i: usize = 0;
        while i < events.len()
            invariant
                i <= events@.len(),
                to_write@.len() == i,
                forall|j: int| 0 <= j < i ==> #[trigger] to_write@[j] == Event::BiddingEngine(events@[j]),
            decreases events@.len() - i,
        {
            to_write.push(Event::BiddingEngine(events[i].duplicate()));
            i = i + 1;
        }
        let ghost before = log@;
        log.write_tr(transaction, to_write.as_slice())?;
        assert(log@.subrange(0, before.len() as int) == before);
        assert(log@.subrange(before.len() as int, log@.len() as int) == to_write@);
        assert(to_write@.map_values(|e: Event| e->BiddingEngine_0) == events@);
        Ok(())
    }

    /// Handles one event of the log: auction-house events and new limits
    /// move the state of their item; the engine's own events are ignored.
    pub fn handle_event(&mut self, transaction: &Transaction, log: &mut InMemoryLog, event: Event) -> (r:
        Result<(), Error>)
        requires
            old(self).wf(),
        ensures
            final(self).wf(),
            r is Ok <==> (transaction.backend == Backend::InMemory || event is BiddingEngine),
            r is Err ==> r == Err::<(), Error>(Error::WrongType) && final(self)@ == old(self)@
                && final(log)@ == old(log)@,
            r is Ok ==> {
                &&& final(self)@ == engine_states(old(self)@, event)
                &&& final(log)@.len() >= old(log)@.len()
                &&& final(log)@.subrange(0, old(log)@.len() as int) == old(log)@
                &&& log_emits(
                    final(log)@.subrange(old(log)@.len() as int, final(log)@.len() as int),
                    event_item(event),
                    engine_emission(old(self)@, event),
                )
            },
    {
        match event {
            Event::AuctionHouse(event) => self.handle_auction_item_event_with(
                transaction,
                log,
                event.item.as_str(),
                ItemInput::AuctionHouse(event.event),
            ),
            Event::Ui(UiEvent::MaxBidSet(item_bid)) => self.handle_auction_item_event_with(
                transaction,
                log,
                item_bid.item.as_str(),
                ItemInput::MaxBidSet(item_bid.price),
            ),
            Event::BiddingEngine(_) => {
                assert(log@.subrange(0, log@.len() as int) == log@);
                assert(log@.subrange(log@.len() as int, log@.len() as int).map_values(
                    |e: Event| e->BiddingEngine_0,
                ) == Seq::<BiddingEngineEvent>::empty());
                Ok(())
            },
        }
    }
}

impl LogFollowerService for BiddingEngine {
    open spec fn inv(&self) -> bool {
        self.wf()
    }

    fn get_log_progress_id(&self) -> (r: String)
        ensures
            r@ == BIDDING_ENGINE_SERVICE_ID@,
    {
        BIDDING_ENGINE_SERVICE_ID.to_owned()
    }

    fn handle_event(&mut self, transaction: &Transaction, log: &mut InMemoryLog, event: Event) -> (r:
        Result<(), Error>) {
        BiddingEngine::handle_event(self, transaction, log, event)
    }
}

/// The last bid sent for an item never decreases, whatever event comes:
/// once set it stays set, at the same amount or higher.
pub proof fn lemma_last_bid_sent_never_decreases(
    states: Map<Seq<char>, AuctionBiddingState>,
    event: Event,
    item: Seq<char>,
)
    requires
        states.contains_key(item),
        states[item].last_bid_sent is Some,
    ensures
        engine_states(states, event).contains_key(item),
        engine_states(states, event)[item].last_bid_sent is Some,
        engine_states(states, event)[item].last_bid_sent->Some_0 >= states[item].last_bid_sent->Some_0,
{
}

/// Once an auction is closed it stays closed, whatever event comes.
pub proof fn lemma_closed_stays_closed(
    states: Map<Seq<char>, AuctionBiddingState>,
    event: Event,
    item: Seq<char>,
)
    requires
        states.contains_key(item),
        states[item].auction_state.closed,
    ensures
        engine_states(states, event).contains_key(item),
        engine_states(states, event)[item].auction_state.closed,
{
}

/// Handling an event again, after its first handling took effect, emits
/// nothing and changes no state, provided the engine knew the item of an
/// auction-house event (an unknown auction is reported on each delivery).
pub proof fn lemma_redelivery_is_idempotent(states: Map<Seq<char>, AuctionBiddingState>, event: Event)
    requires
        event is AuctionHouse ==> states.contains_key(event->AuctionHouse_0.item@),
    ensures
        engine_states(engine_states(states, event), event) == engine_states(states, event),
        engine_emission(engine_states(states, event), event) == Emission::Nothing,
{
    let after = engine_states(states, event);
    match item_input(event) {
        None => {},
        Some((item, input)) => {
            let s1 = item_transition(lookup(states, item), input).0->Some_0;
            assert(after.contains_key(item) && after[item] == s1);
            assert(after.insert(item, s1) =~= after);
        },
    }
}

} // verus!
