use vstd::prelude::*;
use std::collections::BTreeMap;
use crate::models::Side;
use vstd::std_specs::iter::IteratorSpec;
use vstd::std_specs::cmp::OrdSpec;

verus! {

/// Whether, on `side`, price `a` is a better level than price `b`: lower for
/// asks, higher for bids.
pub open spec fn better(side: Side, a: u64, b: u64) -> bool {
    match side {
        Side::Bid => a > b,
        Side::Ask => a < b,
    }
}

/// Whether `levels` lists each price at most once, best first.
pub open spec fn in_side_order(side: Side, levels: Seq<(u64, u64)>) -> bool {
    forall|i: int, j: int| 0 <= i < j < levels.len() ==> better(side, #[trigger] levels[i].0, #[trigger] levels[j].0)
}

/// Whether `levels` are the `n` best levels of `m` on `side`, best first:
/// as many as `n` allows, each taken from `m`, in side order, and no level of
/// `m` left out that beats one taken.
pub open spec fn is_top(side: Side, m: Map<u64, u64>, n: nat, levels: Seq<(u64, u64)>) -> bool {
    &&& levels.len() == if n < m.len() { n } else { m.len() }
    &&& in_side_order(side, levels)
    &&& forall|i: int| 0 <= i < levels.len() ==> #[trigger] m.contains_key(levels[i].0) && m[levels[i].0] == levels[i].1
    &&& forall|p: u64| #[trigger] m.contains_key(p) ==>
        (exists|i: int| 0 <= i < levels.len() && levels[i].0 == p)
        || (forall|i: int| 0 <= i < levels.len() ==> better(side, #[trigger] levels[i].0, p))
}

/// The levels of one side of a book: price to the number of orders resting
/// at that price.
#[derive(Debug)]
pub struct PriceLevels {
    side: Side,
    levels: BTreeMap<u64, u64>,
}

impl View for PriceLevels {
    type V = Map<u64, u64>;

    closed spec fn view(&self) -> Map<u64, u64> {
        self.levels@
    }
}

impl PriceLevels {
    pub closed spec fn spec_side(&self) -> Side {
        self.side
    }

    /// An empty side.
    pub fn new(side: Side) -> (r: PriceLevels)
        ensures
            r@ == Map::<u64, u64>::empty(),
            r.spec_side() == side,
    {
        PriceLevels { side, levels: BTreeMap::new() }
    }

    /// Which side this is.
    pub fn side(&self) -> (r: Side)
        ensures
            r == self.spec_side(),
    {
        self.side
    }

    /// Number of levels.
    pub fn len(&self) -> (r: usize)
        ensures
            r == self@.len(),
    {
        self.levels.len()
    }

    /// The count at `price`, if there is such a level.
    pub fn get(&self, price: u64) -> (r: Option<u64>)
        ensures
            r == if self@.contains_key(price) { Some(self@[price]) } else { None::<u64> },
    {
        match self.levels.get(&price) {
            Some(c) => Some(*c),
            None => None,
        }
    }

    /// Sets the level at `price` to `count`, adding it if absent.
    pub fn upsert(&mut self, price: u64, count: u64)
        ensures
            final(self)@ == old(self)@.insert(price, count),
            final(self).spec_side() == old(self).spec_side(),
    {
        self.levels.insert(price, count);
    }

    /// Removes the level at `price`; says whether there was one.
    pub fn remove(&mut self, price: u64) -> (found: bool)
        ensures
            found == old(self)@.contains_key(price),
            final(self)@ == old(self)@.remove(price),
            final(self).spec_side() == old(self).spec_side(),
    {
        self.levels.remove(&price).is_some()
    }

    /// Every level, lowest price first.
    fn ascending(&self) -> (r: Vec<(u64, u64)>)
        ensures
            r@.len() == self@.len(),
            in_side_order(Side::Ask, r@),
            forall|i: int| 0 <= i < r@.len() ==> #[trigger] self@.contains_key(r@[i].0) && self@[r@[i].0] == r@[i].1,
            forall|p: u64| #[trigger] self@.contains_key(p) ==> exists|i: int| 0 <= i < r@.len() && r@[i].0 == p,
    {
        let mut r: Vec<(u64, u64)> = Vec::new();
        let iter = self.levels.iter();
        let ghost keys = iter.remaining().map_values(|kv: (&u64, &u64)| *kv.0);
        proof {
            broadcast use vstd::std_specs::btree::axiom_increasing_seq_meaning;
            assert forall|i: int, j: int| 0 <= i < j < keys.len() implies keys[i] < keys[j] by {
                assert(keys[i].cmp_spec(&keys[j]) is Less);
            }
        }
        for kv in it: iter
            invariant
                r@.len() == it.index(),
                it.seq() == iter.remaining(),
                forall|i: int| 0 <= i < r@.len() ==> r@[i].0 == *it.seq()[i].0 && r@[i].1 == *it.seq()[i].1,
        {
            r.push((*kv.0, *kv.1));
        }
        proof {
            assert forall|i: int, j: int| 0 <= i < j < r@.len() implies better(Side::Ask, #[trigger] r@[i].0, #[trigger] r@[j].0) by {
                assert(keys[i] < keys[j]);
            }
        }
        r
    }

    /// The `n` best levels of this side, best first: ascending prices for
    /// asks, descending for bids; all of them when there are fewer than `n`.
    pub fn top(&self, n: usize) -> (r: Vec<(u64, u64)>)
        ensures
            is_top(self.spec_side(), self@, n as nat, r@),
            r@.len() <= n,
            r@.len() <= self@.len(),
            r@.len() > 0 ==> forall|p: u64| #[trigger] self@.contains_key(p) ==>
                p == r@[0].0 || better(self.spec_side(), r@[0].0, p),
    {
        let all = self.ascending();
        let len = all.len();
        let k: usize = if n < len { n } else { len };
        let mut r: Vec<(u64, u64)> = Vec::new();
        let mut i: usize = 0;
        while i < k
            invariant
                k <= len == all@.len(),
                i <= k,
                r@.len() == i,
                forall|j: int| 0 <= j < i ==> #[trigger] r@[j] == match self.side {
                    Side::Ask => all@[j],
                    Side::Bid => all@[len - 1 - j],
                },
            decreases k - i,
        {
            match self.side {
                Side::Ask => r.push(all[i]),
                Side::Bid => r.push(all[len - 1 - i]),
            }
            i = i + 1;
        }
        proof {
            let m = self@;
            let side = self.side;
            assert forall|a: int, b: int| 0 <= a < b < r@.len() implies better(side, #[trigger] r@[a].0, #[trigger] r@[b].0) by {
                match side {
                    Side::Ask => assert(all@[a].0 < all@[b].0),
                    Side::Bid => assert(all@[len - 1 - b].0 < all@[len - 1 - a].0),
                }
            }
            assert forall|a: int| 0 <= a < r@.len() implies #[trigger] m.contains_key(r@[a].0) && m[r@[a].0] == r@[a].1 by {
                match side {
                    Side::Ask => assert(m.contains_key(all@[a].0)),
                    Side::Bid => assert(m.contains_key(all@[len - 1 - a].0)),
                }
            }
            assert forall|p: u64| #[trigger] m.contains_key(p) implies
                (exists|a: int| 0 <= a < r@.len() && r@[a].0 == p)
                || (forall|a: int| 0 <= a < r@.len() ==> better(side, #[trigger] r@[a].0, p)) by {
                let j = choose|j: int| 0 <= j < all@.len() && all@[j].0 == p;
                match side {
                    Side::Ask => {
                        if j < k {
                            assert(r@[j].0 == p);
                        } else {
                            assert forall|a: int| 0 <= a < r@.len() implies better(side, #[trigger] r@[a].0, p) by {
                                assert(all@[a].0 < all@[j].0);
                            }
                        }
                    },
                    Side::Bid => {
                        if j >= len - k {
                            assert(r@[len - 1 - j].0 == p);
                        } else {
                            assert forall|a: int| 0 <= a < r@.len() implies better(side, #[trigger] r@[a].0, p) by {
                                assert(all@[j].0 < all@[len - 1 - a].0);
                            }
                        }
                    },
                }
            }
            if r@.len() > 0 {
                assert forall|p: u64| #[trigger] m.contains_key(p) implies p == r@[0].0 || better(side, r@[0].0, p) by {
                    if exists|a: int| 0 <= a < r@.len() && r@[a].0 == p {
                        let a = choose|a: int| 0 <= a < r@.len() && r@[a].0 == p;
                        if a > 0 {
                            assert(better(side, r@[0].0, r@[a].0));
                        }
                    } else {
                        assert(better(side, r@[0].0, p));
                    }
                }
            }
        }
        r
    }
}

} // verus!
