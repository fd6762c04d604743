use vstd::prelude::*;
use crate::models::{
    side_of, spec_side_of, FeedError, OrderBookEntry, OrderBookSnapshot, OrderBookUpdate, Side,
};
use crate::price_levels::PriceLevels;

verus! {

/// The level map after one raw entry for it: a zero count deletes the
/// level, any other count sets it.
pub open spec fn apply_level(m: Map<u64, u64>, price: u64, count: u64) -> Map<u64, u64> {
    if count == 0 {
        m.remove(price)
    } else {
        m.insert(price, count)
    }
}

/// The levels of `side` after the entries of a snapshot, taken in order.
pub open spec fn snapshot_levels(entries: Seq<OrderBookEntry>, side: Side) -> Map<u64, u64>
    decreases entries.len(),
{
    if entries.len() == 0 {
        Map::empty()
    } else {
        let prev = snapshot_levels(entries.drop_last(), side);
        let e = entries.last();
        if spec_side_of(e.amount) == side {
            apply_level(prev, e.price, e.count)
        } else {
            prev
        }
    }
}

/// Whether no level of `m` holds a zero count.
pub open spec fn no_empty_level(m: Map<u64, u64>) -> bool {
    forall|p: u64| #[trigger] m.contains_key(p) ==> m[p] > 0
}

/// Whatever the snapshot entries, each side they build is a finite map
/// from price to count, one count per distinct price, and none of them zero.
pub proof fn lemma_snapshot_levels(entries: Seq<OrderBookEntry>, side: Side)
    ensures
        snapshot_levels(entries, side).dom().finite(),
        no_empty_level(snapshot_levels(entries, side)),
    decreases entries.len(),
{
    if entries.len() > 0 {
        lemma_snapshot_levels(entries.drop_last(), side);
    }
}

/// What one raw entry does to the count of levels of a map, and to the
/// levels it does not name.
pub proof fn lemma_apply_level(m: Map<u64, u64>, price: u64, count: u64)
    requires
        m.dom().finite(),
    ensures
        count == 0 && m.contains_key(price) ==> apply_level(m, price, count).len() + 1 == m.len(),
        count > 0 && !m.contains_key(price) ==> apply_level(m, price, count).len() == m.len() + 1,
        count > 0 && m.contains_key(price) ==> apply_level(m, price, count).len() == m.len(),
        count > 0 ==> apply_level(m, price, count).contains_key(price)
            && apply_level(m, price, count)[price] == count,
        count == 0 ==> !apply_level(m, price, count).contains_key(price),
        forall|p: u64| p != price ==> (#[trigger] apply_level(m, price, count).contains_key(p)
            <==> m.contains_key(p)) && (m.contains_key(p) ==> apply_level(m, price, count)[p] == m[p]),
{
    if count > 0 && m.contains_key(price) {
        assert(m.insert(price, count).dom() =~= m.dom());
    }
}

/// Both sides of a book and the number of levels to show of each.
#[derive(Debug)]
pub struct OrderBook {
    bids: PriceLevels,
    asks: PriceLevels,
    num_levels: u64,
}

impl OrderBook {
    /// The bid levels, price to count.
    pub closed spec fn bids(&self) -> Map<u64, u64> {
        self.bids@
    }

    /// The ask levels, price to count.
    pub closed spec fn asks(&self) -> Map<u64, u64> {
        self.asks@
    }

    /// The levels of `side`.
    pub open spec fn levels(&self, side: Side) -> Map<u64, u64> {
        match side {
            Side::Bid => self.bids(),
            Side::Ask => self.asks(),
        }
    }

    pub closed spec fn spec_num_levels(&self) -> u64 {
        self.num_levels
    }

    /// Each side is ordered its own way and holds no zero count.
    pub closed spec fn wf(&self) -> bool {
        &&& self.bids.spec_side() == Side::Bid
        &&& self.asks.spec_side() == Side::Ask
        &&& no_empty_level(self.bids@)
        &&& no_empty_level(self.asks@)
    }

    /// The book that a snapshot describes, showing `num_levels` levels a side.
    /// Each entry goes to the side its amount names and is applied in order:
    /// a positive count sets its level, a zero count removes it.
    pub fn new(order_book_snapshot: OrderBookSnapshot, num_levels: u64) -> (r: OrderBook)
        ensures
            r.wf(),
            r.bids() == snapshot_levels(order_book_snapshot.entries@, Side::Bid),
            r.asks() == snapshot_levels(order_book_snapshot.entries@, Side::Ask),
            r.spec_num_levels() == num_levels,
    {
        let entries = &order_book_snapshot.entries;
        let mut bids = PriceLevels::new(Side::Bid);
        let mut asks = PriceLevels::new(Side::Ask);
        let mut i: usize = 0;
        while i < entries.len()
            invariant
                i <= entries@.len(),
                bids.spec_side() == Side::Bid,
                asks.spec_side() == Side::Ask,
                bids@ == snapshot_levels(entries@.take(i as int), Side::Bid),
                asks@ == snapshot_levels(entries@.take(i as int), Side::Ask),
                no_empty_level(bids@),
                no_empty_level(asks@),
            decreases entries@.len() - i,
        {
            let e = entries[i];
            proof {
                assert(entries@.take(i + 1).drop_last() =~= entries@.take(i as int));
            }
            let levels = match side_of(e.amount) {
                Side::Bid => &mut bids,
                Side::Ask => &mut asks,
            };
            if e.count == 0 {
                levels.remove(e.price);
            } else {
                levels.upsert(e.price, e.count);
            }
            i = i + 1;
        }
        proof {
            assert(entries@.take(entries@.len() as int) =~= entries@);
        }
        OrderBook { bids, asks, num_levels }
    }

    /// Applies one incremental update to the side its amount names. A
    /// positive count sets the level at its price, new or not. A zero count
    /// deletes that level; when the side holds no such price the update is
    /// refused with `PriceNotFound` and the book is left as it was.
    pub fn update(&mut self, order_book_update: OrderBookUpdate) -> (r: Result<(), FeedError>)
        requires
            old(self).wf(),
        ensures
            final(self).wf(),
            final(self).spec_num_levels() == old(self).spec_num_levels(),
            ({
                let e = order_book_update.data;
                let side = spec_side_of(e.amount);
                let other = match side { Side::Bid => Side::Ask, Side::Ask => Side::Bid };
                if e.count == 0 && !old(self).levels(side).contains_key(e.price) {
                    &&& r == Err::<(), FeedError>(FeedError::PriceNotFound { side, price: e.price })
                    &&& final(self).bids() == old(self).bids()
                    &&& final(self).asks() == old(self).asks()
                } else {
                    &&& r is Ok
                    &&& final(self).levels(side) == apply_level(old(self).levels(side), e.price, e.count)
                    &&& final(self).levels(other) == old(self).levels(other)
                }
            }),
    {
        let e = order_book_update.data;
        let side = side_of(e.amount);
        let levels = match side {
            Side::Bid => &mut self.bids,
            Side::Ask => &mut self.asks,
        };
        if e.count == 0 {
            if !levels.remove(e.price) {
                return Err(FeedError::PriceNotFound { side, price: e.price });
            }
        } else {
            levels.upsert(e.price, e.count);
        }
        Ok(())
    }

    /// The number of levels a side shows.
    pub fn num_levels(&self) -> (r: u64)
        ensures
            r == self.spec_num_levels(),
    {
        self.num_levels
    }

    /// The `n` best bids, highest price first.
    pub fn top_bids(&self, n: usize) -> (r: Vec<(u64, u64)>)
        requires
            self.wf(),
        ensures
            crate::price_levels::is_top(Side::Bid, self.bids(), n as nat, r@),
    {
        self.bids.top(n)
    }

    /// The `n` best asks, lowest price first.
    pub fn top_asks(&self, n: usize) -> (r: Vec<(u64, u64)>)
        requires
            self.wf(),
        ensures
            crate::price_levels::is_top(Side::Ask, self.asks(), n as nat, r@),
    {
        self.asks.top(n)
    }
}

} // verus!
