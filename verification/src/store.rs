//! In-memory model of the shared market data store.
//!
//! The real service talks to an external database engine through exactly
//! the six operations below; each of them fails with a generic store error
//! on any underlying failure. This module gives those operations exact
//! semantics over sequences, and a failure switch so that an outage of the
//! underlying engine can be simulated: while a failure detail is set, every
//! operation returns a [`StoreError`] carrying it and changes nothing.

use vstd::prelude::*;
use crate::entities::{Listing, ListingModel, Order, OrderModel, listing_models, order_models,
    lemma_listing_models_push, lemma_order_models_push};

verus! {

/// The generic error every store operation fails with. The detail is the
/// underlying engine's text; it is for the caller's logging only and never
/// reaches a client (see the handler contracts).
#[derive(Debug)]
pub struct StoreError {
    pub detail: String,
}

/// Detail text of the store error raised when a listing id is not present.
pub open spec fn spec_not_found_detail() -> Seq<char> {
    "listing not found"@
}

/// The most recently added listing with the given id, if any.
pub open spec fn spec_find_listing(s: Seq<ListingModel>, id: Seq<char>) -> Option<ListingModel>
    decreases s.len(),
{
    if s.len() == 0 {
        None
    } else if s.last().id == id {
        Some(s.last())
    } else {
        spec_find_listing(s.drop_last(), id)
    }
}

/// All orders referencing the given listing id, in insertion order.
pub open spec fn spec_orders_for(s: Seq<OrderModel>, id: Seq<char>) -> Seq<OrderModel>
    decreases s.len(),
{
    if s.len() == 0 {
        Seq::empty()
    } else if s.last().listing_id == id {
        spec_orders_for(s.drop_last(), id).push(s.last())
    } else {
        spec_orders_for(s.drop_last(), id)
    }
}

/// The still-pending orders referencing the given listing id, in insertion
/// order.
pub open spec fn spec_pending_for(s: Seq<OrderModel>, id: Seq<char>) -> Seq<OrderModel>
    decreases s.len(),
{
    if s.len() == 0 {
        Seq::empty()
    } else if s.last().listing_id == id && s.last().pending {
        spec_pending_for(s.drop_last(), id).push(s.last())
    } else {
        spec_pending_for(s.drop_last(), id)
    }
}

/// Mathematical image of the store: the two tables and the failure switch.
pub struct StoreModel {
    pub listings: Seq<ListingModel>,
    pub orders: Seq<OrderModel>,
    pub failure: Option<Seq<char>>,
}

/// The shared market data store. A single handle to it is shared by all
/// requests; the route layer serializes access so that at most one request
/// performs a store call at a time.
pub struct MarketStore {
    pub listings: Vec<Listing>,
    pub orders: Vec<Order>,
    pub failure: Option<String>,
}

impl View for MarketStore {
    type V = StoreModel;

    open spec fn view(&self) -> StoreModel {
        StoreModel {
            listings: listing_models(self.listings@),
            orders: order_models(self.orders@),
            failure: match self.failure {
                Some(ref d) => Some(d@),
                None => None,
            },
        }
    }
}

impl MarketStore {
    /// An empty, healthy store.
    pub fn new() -> (r: MarketStore)
        ensures
            r@.listings == Seq::<ListingModel>::empty(),
            r@.orders == Seq::<OrderModel>::empty(),
            r@.failure is None,
    {
        let r = MarketStore { listings: Vec::new(), orders: Vec::new(), failure: None };
        proof {
            assert(r@.listings =~= Seq::<ListingModel>::empty());
            assert(r@.orders =~= Seq::<OrderModel>::empty());
        }
        r
    }

    /// Simulates the health of the underlying engine: while a detail is
    /// set, every operation fails with it. The tables are untouched.
    pub fn set_failure(&mut self, detail: Option<String>)
        ensures
            final(self)@.listings == old(self)@.listings,
            final(self)@.orders == old(self)@.orders,
            final(self)@.failure == match detail {
                Some(d) => Some(d@),
                None => None::<Seq<char>>,
            },
    {
        self.failure = detail;
    }

    /// A store error carrying the current failure detail.
    /// Callable only while the failure switch is set.
    fn failure_error(&self) -> (r: StoreError)
        requires
            self@.failure is Some,
        ensures
            Some(r.detail@) == self@.failure,
    {
        match &self.failure {
            Some(d) => StoreError { detail: d.clone() },
            None => StoreError { detail: String::new() },
        }
    }

    /// Returns every listing, in insertion order; fails exactly when the
    /// failure switch is set.
    pub fn get_listings(&self) -> (r: Result<Vec<Listing>, StoreError>)
        ensures
            match r {
                Ok(ls) => self@.failure is None && listing_models(ls@) == self@.listings,
                Err(e) => Some(e.detail@) == self@.failure,
            },
    {
        if self.failure.is_some() {
            return Err(self.failure_error());
        }
        let mut out: Vec<Listing> = Vec::new();
        let n = self.listings.len();
        let mut i: usize = 0;
        proof {
            assert(listing_models(out@) =~= self@.listings.take(0));
        }
        while i < n
            invariant
                i <= n,
                n == self.listings.len(),
                listing_models(out@) == self@.listings.take(i as int),
            decreases n - i,
        {
            let ghost prev = out@;
            let item = self.listings[i].dup();
            let ghost itemv = item;
            out.push(item);
            proof {
                lemma_listing_models_push(prev, itemv);
                assert(itemv@ == self@.listings[i as int]);
                assert(listing_models(prev).push(itemv@) =~= self@.listings.take(i + 1));
            }
            i = i + 1;
        }
        proof {
            assert(self@.listings.take(n as int) =~= self@.listings);
        }
        Ok(out)
    }

    /// Appends a listing; fails, changing nothing, exactly when the
    /// failure switch is set.
    pub fn add_listing(&mut self, listing: Listing) -> (r: Result<(), StoreError>)
        ensures
            final(self)@.failure == old(self)@.failure,
            final(self)@.orders == old(self)@.orders,
            match r {
                Ok(_) => old(self)@.failure is None && final(self)@.listings == old(
                    self,
                )@.listings.push(listing@),
                Err(e) => Some(e.detail@) == old(self)@.failure && final(self)@.listings == old(
                    self,
                )@.listings,
            },
    {
        if self.failure.is_some() {
            return Err(self.failure_error());
        }
        let ghost lv = listing;
        self.listings.push(listing);
        proof {
            lemma_listing_models_push(old(self).listings@, lv);
        }
        Ok(())
    }

    /// Returns the most recently added listing with the given id; fails
    /// when the failure switch is set, and also when no listing has the id
    /// (the flat taxonomy does not distinguish the two).
    pub fn get_listing_by_id(&self, id: &String) -> (r: Result<Listing, StoreError>)
        ensures
            match r {
                Ok(l) => self@.failure is None && spec_find_listing(self@.listings, id@) == Some(
                    l@,
                ),
                Err(e) => (self@.failure is Some && Some(e.detail@) == self@.failure) || (
                self@.failure is None && spec_find_listing(self@.listings, id@) is None
                    && e.detail@ == spec_not_found_detail()),
            },
    {
        if self.failure.is_some() {
            return Err(self.failure_error());
        }
        let n = self.listings.len();
        let mut i: usize = n;
        proof {
            assert(self@.listings.take(n as int) =~= self@.listings);
        }
        while i > 0
            invariant
                i <= n,
                n == self.listings.len(),
                self@.failure is None,
                spec_find_listing(self@.listings, id@) == spec_find_listing(
                    self@.listings.take(i as int),
                    id@,
                ),
            decreases i,
        {
            i = i - 1;
            proof {
                assert(self@.listings.take(i + 1).drop_last() =~= self@.listings.take(i as int));
                assert(self@.listings.take(i + 1).last() == self@.listings[i as int]);
            }
            if self.listings[i].id == *id {
                proof {
                    assert(self@.listings.take(i + 1).last().id == id@);
                    assert(spec_find_listing(self@.listings.take(i + 1), id@) == Some(
                        self@.listings[i as int],
                    ));
                }
                return Ok(self.listings[i].dup());
            }
        }
        Err(StoreError { detail: "listing not found".to_owned() })
    }

    /// Returns every order referencing the given listing id, in insertion
    /// order; fails exactly when the failure switch is set. An id with no
    /// orders yields the empty sequence, not an error.
    pub fn get_orders_by_id(&self, id: &String) -> (r: Result<Vec<Order>, StoreError>)
        ensures
            match r {
                Ok(os) => self@.failure is None && order_models(os@) == spec_orders_for(
                    self@.orders,
                    id@,
                ),
                Err(e) => Some(e.detail@) == self@.failure,
            },
    {
        if self.failure.is_some() {
            return Err(self.failure_error());
        }
        let mut out: Vec<Order> = Vec::new();
        let n = self.orders.len();
        let mut i: usize = 0;
        proof {
            assert(order_models(out@) =~= spec_orders_for(self@.orders.take(0), id@));
        }
        while i < n
            invariant
                i <= n,
                n == self.orders.len(),
                order_models(out@) == spec_orders_for(self@.orders.take(i as int), id@),
            decreases n - i,
        {
            proof {
                assert(self@.orders.take(i + 1).drop_last() =~= self@.orders.take(i as int));
                assert(self@.orders.take(i + 1).last() == self@.orders[i as int]);
            }
            if self.orders[i].listing_id == *id {
                let ghost prev = out@;
                let item = self.orders[i].dup();
                let ghost itemv = item;
                out.push(item);
                proof {
                    lemma_order_models_push(prev, itemv);
                    assert(itemv@ == self@.orders[i as int]);
                }
            }
            i = i + 1;
        }
        proof {
            assert(self@.orders.take(n as int) =~= self@.orders);
        }
        Ok(out)
    }

    /// Returns the still-pending orders referencing the given listing id,
    /// in insertion order; fails exactly when the failure switch is set.
    pub fn get_pending_trades_by_id(&self, id: &String) -> (r: Result<Vec<Order>, StoreError>)
        ensures
            match r {
                Ok(os) => self@.failure is None && order_models(os@) == spec_pending_for(
                    self@.orders,
                    id@,
                ),
                Err(e) => Some(e.detail@) == self@.failure,
            },
    {
        if self.failure.is_some() {
            return Err(self.failure_error());
        }
        let mut out: Vec<Order> = Vec::new();
        let n = self.orders.len();
        let mut i: usize = 0;
        proof {
            assert(order_models(out@) =~= spec_pending_for(self@.orders.take(0), id@));
        }
        while i < n
            invariant
                i <= n,
                n == self.orders.len(),
                order_models(out@) == spec_pending_for(self@.orders.take(i as int), id@),
            decreases n - i,
        {
            proof {
                assert(self@.orders.take(i + 1).drop_last() =~= self@.orders.take(i as int));
                assert(self@.orders.take(i + 1).last() == self@.orders[i as int]);
            }
            if self.orders[i].listing_id == *id && self.orders[i].pending {
                let ghost prev = out@;
                let item = self.orders[i].dup();
                let ghost itemv = item;
                out.push(item);
                proof {
                    lemma_order_models_push(prev, itemv);
                    assert(itemv@ == self@.orders[i as int]);
                }
            }
            i = i + 1;
        }
        proof {
            assert(self@.orders.take(n as int) =~= self@.orders);
        }
        Ok(out)
    }

    /// Appends an order; fails, changing nothing, exactly when the failure
    /// switch is set.
    pub fn add_order(&mut self, order: Order) -> (r: Result<(), StoreError>)
        ensures
            final(self)@.failure == old(self)@.failure,
            final(self)@.listings == old(self)@.listings,
            match r {
                Ok(_) => old(self)@.failure is None && final(self)@.orders == old(
                    self,
                )@.orders.push(order@),
                Err(e) => Some(e.detail@) == old(self)@.failure && final(self)@.orders == old(
                    self,
                )@.orders,
            },
    {
        if self.failure.is_some() {
            return Err(self.failure_error());
        }
        let ghost ov = order;
        self.orders.push(order);
        proof {
            lemma_order_models_push(old(self).orders@, ov);
        }
        Ok(())
    }
}

} // verus!
