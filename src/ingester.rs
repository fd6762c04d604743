use vstd::prelude::*;
use vstd::string::StringExecFns;
use crate::models::{
    CurrencyRequest, FeedError, OrderBookSnapshot, OrderBookUpdate, ServerInfo, SubscribeInfo,
};
use crate::models::{spec_side_of, Side};
use crate::order_book::{apply_level, snapshot_levels, OrderBook};

verus! {

/// The deepest book the feed serves.
pub const MAX_DEPTH_TIER: u64 = 250;

/// The depth the feed serves for a request of `num_levels` levels: the
/// smallest of 25, 100 and 250 that is at least `num_levels`.
pub open spec fn spec_depth_tier(num_levels: u64) -> Option<u64> {
    if num_levels <= 25 {
        Some(25)
    } else if num_levels <= 100 {
        Some(100)
    } else if num_levels <= 250 {
        Some(250)
    } else {
        None
    }
}

/// The depth tier to subscribe with; `UnsupportedDepth` past the deepest.
pub fn depth_tier(num_levels: u64) -> (r: Result<u64, FeedError>)
    ensures
        r == match spec_depth_tier(num_levels) {
            Some(t) => Ok::<u64, FeedError>(t),
            None => Err(FeedError::UnsupportedDepth { requested: num_levels }),
        },
{
    if num_levels <= 25 {
        Ok(25)
    } else if num_levels <= 100 {
        Ok(100)
    } else if num_levels <= MAX_DEPTH_TIER {
        Ok(250)
    } else {
        Err(FeedError::UnsupportedDepth { requested: num_levels })
    }
}

/// The decimal text of a depth tier.
pub open spec fn tier_text(tier: u64) -> Seq<char> {
    if tier == 25 {
        "25"@
    } else if tier == 100 {
        "100"@
    } else {
        "250"@
    }
}

/// The subscribe request for the book channel of `symbol` at depth `tier`.
pub open spec fn subscribe_text(symbol: Seq<char>, tier: u64) -> Seq<char> {
    "{\"event\":\"subscribe\",\"channel\":\"book\",\"symbol\":\""@ + symbol + "\",\"len\":"@
        + tier_text(tier) + "}"@
}

/// The text of the subscribe request for `symbol` at a depth tier.
pub fn subscribe_message(symbol: &str, tier: u64) -> (r: String)
    requires
        tier == 25 || tier == 100 || tier == 250,
    ensures
        r@ == subscribe_text(symbol@, tier),
{
    let mut r = String::from_str("{\"event\":\"subscribe\",\"channel\":\"book\",\"symbol\":\"");
    r.append(symbol);
    r.append("\",\"len\":");
    if tier == 25 {
        r.append("25");
    } else if tier == 100 {
        r.append("100");
    } else {
        r.append("250");
    }
    r.append("}");
    r
}

/// Where a session stands in the handshake.
#[derive(Debug, Clone, Copy, PartialEq, Eq, Structural)]
pub enum Phase {
    AwaitingServerInfo,
    AwaitingSubscribeAck,
    AwaitingSnapshot,
    Streaming,
}

/// What a session does when an update deletes a price its side lacks.
#[derive(Debug, Clone, Copy, PartialEq, Eq, Structural)]
pub enum MissingPricePolicy {
    /// End the session with `PriceNotFound`.
    Abort,
    /// Leave the book as it is and read on.
    Skip,
}

/// The record that the next message is to be decoded as.
#[derive(Debug, Clone, Copy, PartialEq, Eq, Structural)]
pub enum RecordKind {
    ServerInfo,
    SubscribeAck,
    Snapshot,
    Update,
}

/// A message read from the feed, as far as it could be decoded.
#[derive(Debug)]
pub enum FeedEvent {
    ServerInfo(ServerInfo),
    SubscribeAck(SubscribeInfo),
    Snapshot(OrderBookSnapshot),
    Update(OrderBookUpdate),
    /// The message was not the record that was asked for.
    Undecodable,
}

/// What the session asks of its transport next.
#[derive(Debug)]
pub enum FeedAction {
    /// Read one message and decode it as this record.
    Read(RecordKind),
    /// Send this subscribe request, then read the acknowledgement.
    Subscribe(String),
    /// Show the book, then read the next update.
    RenderAndRead,
}

/// The decisions of a feed session: the handshake (server information,
/// subscribe, acknowledgement, snapshot) and then one update per message.
/// The transport and the decoding of messages are left to the caller, which
/// performs each `FeedAction` and hands back the message it read.
#[derive(Debug)]
pub struct Ingester {
    phase: Phase,
    order_book: Option<OrderBook>,
    currency_request: CurrencyRequest,
    policy: MissingPricePolicy,
}

impl Ingester {
    pub closed spec fn spec_phase(&self) -> Phase {
        self.phase
    }

    pub closed spec fn spec_book(&self) -> Option<OrderBook> {
        self.order_book
    }

    pub closed spec fn spec_request(&self) -> CurrencyRequest {
        self.currency_request
    }

    pub closed spec fn spec_policy(&self) -> MissingPricePolicy {
        self.policy
    }

    /// A book exists exactly while streaming, made with the requested depth.
    pub closed spec fn wf(&self) -> bool {
        match self.order_book {
            Some(b) => self.phase == Phase::Streaming && b.wf()
                && b.spec_num_levels() == self.currency_request.num_levels,
            None => self.phase != Phase::Streaming,
        }
    }

    /// A session for `currency_request`, waiting for the server's first message.
    pub fn new(currency_request: CurrencyRequest, policy: MissingPricePolicy) -> (r: Ingester)
        ensures
            r.wf(),
            r.spec_phase() == Phase::AwaitingServerInfo,
            r.spec_book() is None,
            r.spec_request() == currency_request,
            r.spec_policy() == policy,
    {
        Ingester { phase: Phase::AwaitingServerInfo, order_book: None, currency_request, policy }
    }

    /// What to do first on a fresh connection: read the server information.
    pub fn start(&self) -> (r: FeedAction)
        ensures
            r == FeedAction::Read(RecordKind::ServerInfo),
    {
        FeedAction::Read(RecordKind::ServerInfo)
    }

    /// Where the handshake stands.
    pub fn phase(&self) -> (r: Phase)
        ensures
            r == self.spec_phase(),
    {
        self.phase
    }

    /// The book, once the snapshot has come.
    pub fn order_book(&self) -> (r: Option<&OrderBook>)
        ensures
            r == match self.spec_book() {
                Some(b) => Some(&b),
                None => None::<&OrderBook>,
            },
    {
        match &self.order_book {
            Some(b) => Some(b),
            None => None,
        }
    }

    /// The depth tier that the requested number of levels maps to.
    pub fn get_num_price_points(&self) -> (r: Result<u64, FeedError>)
        ensures
            r == match spec_depth_tier(self.spec_request().num_levels) {
                Some(t) => Ok::<u64, FeedError>(t),
                None => Err(FeedError::UnsupportedDepth {
                    requested: self.spec_request().num_levels,
                }),
            },
    {
        depth_tier(self.currency_request.num_levels)
    }

    /// Takes the message read for the last action and decides the next.
    ///
    /// During the handshake a message that is not the expected record ends
    /// the session with `Decode`; the server information leads to the
    /// subscribe request (or `UnsupportedDepth`, before anything is sent),
    /// the acknowledgement to reading the snapshot, and the snapshot to the
    /// book and streaming. While streaming, each update is applied and the
    /// book shown; a message that is no update is passed over, and an update
    /// refused with `PriceNotFound` ends the session or is passed over as the
    /// policy says. On error nothing changes.
    pub fn step(&mut self, event: FeedEvent) -> (r: Result<FeedAction, FeedError>)
        requires
            old(self).wf(),
        ensures
            final(self).wf(),
            final(self).spec_request() == old(self).spec_request(),
            final(self).spec_policy() == old(self).spec_policy(),
            r is Err ==> final(self).spec_phase() == old(self).spec_phase(),
            ({
                let levels = old(self).spec_request().num_levels;
                let symbol = old(self).spec_request().name@;
                let stay = final(self).spec_phase() == old(self).spec_phase()
                    && final(self).spec_book() == old(self).spec_book();
                match (old(self).spec_phase(), event) {
                    (Phase::AwaitingServerInfo, FeedEvent::ServerInfo(_)) => match spec_depth_tier(levels) {
                        Some(t) => {
                            &&& r matches Ok(FeedAction::Subscribe(m)) && m@ == subscribe_text(symbol, t)
                            &&& final(self).spec_phase() == Phase::AwaitingSubscribeAck
                            &&& final(self).spec_book() is None
                        },
                        None => r == Err::<FeedAction, FeedError>(FeedError::UnsupportedDepth { requested: levels }),
                    },
                    (Phase::AwaitingSubscribeAck, FeedEvent::SubscribeAck(_)) =>
                        r == Ok::<FeedAction, FeedError>(FeedAction::Read(RecordKind::Snapshot))
                        && final(self).spec_phase() == Phase::AwaitingSnapshot
                        && final(self).spec_book() is None,
                    (Phase::AwaitingSnapshot, FeedEvent::Snapshot(snapshot)) =>
{
                        &&& r == Ok::<FeedAction, FeedError>(FeedAction::RenderAndRead)
                        &&& final(self).spec_phase() == Phase::Streaming
                        &&& final(self).spec_book() is Some
                        &&& final(self).spec_book().unwrap().bids() == snapshot_levels(snapshot.entries@, Side::Bid)
                        &&& final(self).spec_book().unwrap().asks() == snapshot_levels(snapshot.entries@, Side::Ask)
                    },
                    (Phase::Streaming, FeedEvent::Update(u)) => {
                        let b = old(self).spec_book().unwrap();
                        let e = u.data;
                        let side = spec_side_of(e.amount);
                        let other = match side { Side::Bid => Side::Ask, Side::Ask => Side::Bid };
                        let nb = final(self).spec_book().unwrap();
                        &&& final(self).spec_phase() == Phase::Streaming
                        &&& final(self).spec_book() is Some
                        &&& final(self).spec_book().unwrap().wf()
                        &&& if e.count == 0 && !b.levels(side).contains_key(e.price) {
                            &&& nb.bids() == b.bids()
                            &&& nb.asks() == b.asks()
                            &&& r == match old(self).spec_policy() {
                                MissingPricePolicy::Abort => Err::<FeedAction, FeedError>(
                                    FeedError::PriceNotFound { side, price: e.price }),
                                MissingPricePolicy::Skip => Ok(FeedAction::Read(RecordKind::Update)),
                            }
                        } else {
                            &&& nb.levels(side) == apply_level(b.levels(side), e.price, e.count)
                            &&& nb.levels(other) == b.levels(other)
                            &&& r == Ok::<FeedAction, FeedError>(FeedAction::RenderAndRead)
                        }
                    },
                    (Phase::Streaming, _) => stay && r == Ok::<FeedAction, FeedError>(FeedAction::Read(RecordKind::Update)),
                    _ => stay && r == Err::<FeedAction, FeedError>(FeedError::Decode),
                }
            }),
    {
        match self.phase {
            Phase::AwaitingServerInfo => match event {
                FeedEvent::ServerInfo(_) => match depth_tier(self.currency_request.num_levels) {
                    Ok(tier) => {
                        let msg = subscribe_message(self.currency_request.name.as_str(), tier);
                        self.phase = Phase::AwaitingSubscribeAck;
                        Ok(FeedAction::Subscribe(msg))
                    },
                    Err(e) => Err(e),
                },
                _ => Err(FeedError::Decode),
            },
            Phase::AwaitingSubscribeAck => match event {
                FeedEvent::SubscribeAck(_) => {
                    self.phase = Phase::AwaitingSnapshot;
                    Ok(FeedAction::Read(RecordKind::Snapshot))
                },
                _ => Err(FeedError::Decode),
            },
            Phase::AwaitingSnapshot => match event {
                FeedEvent::Snapshot(snapshot) => {
                    let book = OrderBook::new(snapshot, self.currency_request.num_levels);
                    self.order_book = Some(book);
                    self.phase = Phase::Streaming;
                    Ok(FeedAction::RenderAndRead)
                },
                _ => Err(FeedError::Decode),
            },
            Phase::Streaming => match event {
                FeedEvent::Update(update) => {
                    let mut book = self.order_book.take().unwrap();
                    let applied = book.update(update);
                    self.order_book = Some(book);
                    match applied {
                        Ok(()) => Ok(FeedAction::RenderAndRead),
                        Err(e) => match self.policy {
                            MissingPricePolicy::Abort => Err(e),
                            MissingPricePolicy::Skip => Ok(FeedAction::Read(RecordKind::Update)),
                        },
                    }
                },
                _ => Ok(FeedAction::Read(RecordKind::Update)),
            },
        }
    }
}

} // verus!
