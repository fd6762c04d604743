//! A two-sided price-level order book fed by a snapshot and incremental
//! updates, and the session logic that drives a book feed's handshake.

pub mod ingester;
pub mod models;
pub mod order_book;
pub mod price_levels;

pub use models::{
    side_of, CurrencyRequest, FeedError, OrderBookEntry, OrderBookSnapshot, OrderBookUpdate,
    ServerInfo, Side, SubscribeInfo,
};
pub use order_book::OrderBook;
pub use price_levels::PriceLevels;
pub use ingester::{
    depth_tier, subscribe_message, FeedAction, FeedEvent, Ingester, MissingPricePolicy, Phase,
    RecordKind,
};
