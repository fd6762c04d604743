use vstd::prelude::*;

verus! {

/// Bit pattern of IEEE-754 binary64 positive infinity. Every bit pattern in
/// `1..=POSITIVE_INFINITY_BITS` encodes a number greater than zero; every
/// other one encodes zero, a negative number or NaN.
pub const POSITIVE_INFINITY_BITS: u64 = 0x7FF0_0000_0000_0000;

/// The currency pair to watch and how many levels of each side to show.
#[derive(Debug)]
pub struct CurrencyRequest {
    pub name: String,
    pub num_levels: u64,
}

/// What the server sends first on a fresh connection.
#[derive(Debug)]
pub struct ServerInfo {
    pub version: u64,
    pub server_id: String,
}

/// The server's confirmation of a subscription.
#[derive(Debug)]
pub struct SubscribeInfo {
    pub channel_id: u64,
    pub currency_name: String,
}

/// One raw price level as the feed sends it.
///
/// `price` and `amount` hold the IEEE-754 binary64 bit patterns of the feed's
/// numbers. Prices are non-negative, and for non-negative doubles the order of
/// the bit patterns as integers is the numeric order, so levels are keyed and
/// ordered by `price` directly.
#[derive(Debug, Clone, Copy, PartialEq, Eq, Structural)]
pub struct OrderBookEntry {
    pub price: u64,
    pub count: u64,
    pub amount: u64,
}

/// One incremental update on a channel.
#[derive(Debug, Clone, Copy)]
pub struct OrderBookUpdate {
    pub channel_id: u64,
    pub data: OrderBookEntry,
}

/// The full book that opens a channel's stream.
#[derive(Debug)]
pub struct OrderBookSnapshot {
    pub channel_id: u64,
    pub entries: Vec<OrderBookEntry>,
}

/// A side of the book.
#[derive(Debug, Clone, Copy, PartialEq, Eq, Structural)]
pub enum Side {
    Bid,
    Ask,
}

/// Why a feed session or a book operation stopped.
#[derive(Debug, Clone, Copy, PartialEq, Eq, Structural)]
pub enum FeedError {
    /// Opening the connection, or sending or reading a message, failed.
    Transport,
    /// A handshake message did not have the expected shape.
    Decode,
    /// More levels were requested than the feed serves.
    UnsupportedDepth { requested: u64 },
    /// A deletion named a price that its side does not hold.
    PriceNotFound { side: Side, price: u64 },
}

/// Whether the double with bit pattern `amount` is greater than zero.
pub open spec fn amount_is_positive(amount: u64) -> bool {
    0 < amount && amount <= POSITIVE_INFINITY_BITS
}

/// The feed's side convention: a positive amount is a bid, anything else
/// (zero, negative, NaN) an ask.
pub open spec fn spec_side_of(amount: u64) -> Side {
    if amount_is_positive(amount) {
        Side::Bid
    } else {
        Side::Ask
    }
}

/// The side an entry with this amount belongs to.
#[verifier::when_used_as_spec(spec_side_of)]
pub fn side_of(amount: u64) -> (side: Side)
    ensures
        side == spec_side_of(amount),
{
    if 0 < amount && amount <= POSITIVE_INFINITY_BITS {
        Side::Bid
    } else {
        Side::Ask
    }
}

} // verus!
