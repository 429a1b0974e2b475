//! One handler per domain operation.
//!
//! Every handler follows the same shape: acquire access to the shared data
//! store (read handlers borrow it, write handlers borrow it mutably; the
//! route layer serializes the borrows), invoke exactly one store call, and
//! wrap the outcome in the uniform envelope. Any store error is flattened
//! to the single generic kind and its detail never reaches the client.
//! Each invocation produces exactly one envelope.

use vstd::prelude::*;
use crate::entities::{Listing, ListingModel, Order, OrderModel};
use crate::envelope::{ApiErrorType, CallResponse, JsonReply, JsonReplyModel, Payload,
    PayloadModel, spec_internal_err_reply, spec_ok_reply};
use crate::store::{MarketStore, StoreModel, spec_find_listing, spec_orders_for, spec_pending_for};

verus! {

/// Handle to the external cache; injected into every handler but not yet
/// consulted by any operation (reserved for future read-path optimization).
pub struct CacheConnection {}

/// Handle to the external approximate-membership filter; injected but not
/// yet consulted by any operation.
pub struct CFilterConnection {}

/// The success message of the get-all-listings operation.
pub open spec fn spec_msg_listings() -> Seq<char> {
    "Data retrieved successfully"@
}

/// The success message of the add-listing operation.
pub open spec fn spec_msg_listing_added() -> Seq<char> {
    "Listing added successfully"@
}

/// The success message of the get-listing-by-id operation.
pub open spec fn spec_msg_listing_retrieved() -> Seq<char> {
    "Listing retrieved successfully"@
}

/// The success message of the get-orders-by-id operation.
pub open spec fn spec_msg_orders_retrieved() -> Seq<char> {
    "Orders retrieved successfully"@
}

/// The success message of the get-pending-trades-by-id operation.
pub open spec fn spec_msg_pending_retrieved() -> Seq<char> {
    "Pending trades retrieved successfully"@
}

/// The success message of the add-order operation.
pub open spec fn spec_msg_order_added() -> Seq<char> {
    "Order added successfully"@
}

/// The reply of the get-all-listings operation on a store in the given
/// state: every listing on a healthy store, the flattened store error
/// otherwise.
pub open spec fn spec_listings_reply(s: StoreModel) -> JsonReplyModel {
    if s.failure is None {
        spec_ok_reply(spec_msg_listings(), PayloadModel::Listings(s.listings))
    } else {
        spec_internal_err_reply(ApiErrorType::DbInsertionFailed)
    }
}

/// The reply of the add-listing operation: the echoed input on success.
pub open spec fn spec_listing_send_reply(s: StoreModel, payload: ListingModel) -> JsonReplyModel {
    if s.failure is None {
        spec_ok_reply(spec_msg_listing_added(), PayloadModel::OneListing(payload))
    } else {
        spec_internal_err_reply(ApiErrorType::DbInsertionFailed)
    }
}

/// The reply of the get-listing-by-id operation: the most recently added
/// listing with that id; an absent id is indistinguishable from a store
/// failure under the flat error taxonomy.
pub open spec fn spec_listing_by_id_reply(s: StoreModel, id: Seq<char>) -> JsonReplyModel {
    if s.failure is None && spec_find_listing(s.listings, id) is Some {
        spec_ok_reply(
            spec_msg_listing_retrieved(),
            PayloadModel::OneListing(spec_find_listing(s.listings, id)->Some_0),
        )
    } else {
        spec_internal_err_reply(ApiErrorType::DbInsertionFailed)
    }
}

/// The reply of the get-orders-by-id operation: all orders referencing the
/// id, in insertion order; an id with no orders yields the empty sequence.
pub open spec fn spec_orders_by_id_reply(s: StoreModel, id: Seq<char>) -> JsonReplyModel {
    if s.failure is None {
        spec_ok_reply(
            spec_msg_orders_retrieved(),
            PayloadModel::Orders(spec_orders_for(s.orders, id)),
        )
    } else {
        spec_internal_err_reply(ApiErrorType::DbInsertionFailed)
    }
}

/// The reply of the get-pending-trades-by-id operation.
pub open spec fn spec_orders_pending_reply(s: StoreModel, id: Seq<char>) -> JsonReplyModel {
    if s.failure is None {
        spec_ok_reply(
            spec_msg_pending_retrieved(),
            PayloadModel::Orders(spec_pending_for(s.orders, id)),
        )
    } else {
        spec_internal_err_reply(ApiErrorType::DbInsertionFailed)
    }
}

/// The reply of the add-order operation: the echoed input on success.
pub open spec fn spec_orders_send_reply(s: StoreModel, payload: OrderModel) -> JsonReplyModel {
    if s.failure is None {
        spec_ok_reply(spec_msg_order_added(), PayloadModel::OneOrder(payload))
    } else {
        spec_internal_err_reply(ApiErrorType::DbInsertionFailed)
    }
}

/// Retrieves all listings. Success carries the store's full listing
/// sequence verbatim; any store error becomes the flattened internal
/// error, its detail withheld.
pub fn listings_handler(db: &MarketStore, _cache: &CacheConnection) -> (r: Result<
    JsonReply,
    JsonReply,
>)
    ensures
        r is Ok <==> db@.failure is None,
        match r {
            Ok(rep) => rep@ == spec_listings_reply(db@),
            Err(rep) => rep@ == spec_listings_reply(db@),
        },
{
    let resp = CallResponse::new("listings");
    match db.get_listings() {
        Ok(listings) => resp.into_ok("Data retrieved successfully", Payload::Listings(listings)),
        Err(_e) => resp.into_err_internal(ApiErrorType::DbInsertionFailed),
    }
}

/// Adds a listing. On a healthy store the listing is appended and echoed
/// back; on a failing store nothing changes and the flattened internal
/// error is returned.
pub fn listing_send_handler(
    payload: Listing,
    db: &mut MarketStore,
    _cache: &CacheConnection,
    _cf: &CFilterConnection,
) -> (r: Result<JsonReply, JsonReply>)
    ensures
        final(db)@.orders == old(db)@.orders,
        final(db)@.failure == old(db)@.failure,
        r is Ok <==> old(db)@.failure is None,
        old(db)@.failure is None ==> final(db)@.listings == old(db)@.listings.push(payload@),
        old(db)@.failure is Some ==> final(db)@.listings == old(db)@.listings,
        match r {
            Ok(rep) => rep@ == spec_listing_send_reply(old(db)@, payload@),
            Err(rep) => rep@ == spec_listing_send_reply(old(db)@, payload@),
        },
{
    let resp = CallResponse::new("listing_send");
    match db.add_listing(payload.dup()) {
        Ok(_) => resp.into_ok("Listing added successfully", Payload::OneListing(payload)),
        Err(_) => resp.into_err_internal(ApiErrorType::DbInsertionFailed),
    }
}

/// Retrieves the most recently added listing with the given id. Both a
/// failing store and an absent id yield the flattened internal error.
pub fn listing_by_id_handler(
    id: String,
    db: &MarketStore,
    _cache: &CacheConnection,
    _cf: &CFilterConnection,
) -> (r: Result<JsonReply, JsonReply>)
    ensures
        r is Ok <==> db@.failure is None && spec_find_listing(db@.listings, id@) is Some,
        match r {
            Ok(rep) => rep@ == spec_listing_by_id_reply(db@, id@),
            Err(rep) => rep@ == spec_listing_by_id_reply(db@, id@),
        },
{
    let resp = CallResponse::new("listing_by_id");
    match db.get_listing_by_id(&id) {
        Ok(listing) => resp.into_ok(
            "Listing retrieved successfully",
            Payload::OneListing(listing),
        ),
        Err(_) => resp.into_err_internal(ApiErrorType::DbInsertionFailed),
    }
}

/// Retrieves all orders referencing the given listing id.
pub fn orders_by_id_handler(
    id: String,
    db: &MarketStore,
    _cache: &CacheConnection,
    _cf: &CFilterConnection,
) -> (r: Result<JsonReply, JsonReply>)
    ensures
        r is Ok <==> db@.failure is None,
        match r {
            Ok(rep) => rep@ == spec_orders_by_id_reply(db@, id@),
            Err(rep) => rep@ == spec_orders_by_id_reply(db@, id@),
        },
{
    let resp = CallResponse::new("orders_by_id");
    match db.get_orders_by_id(&id) {
        Ok(orders) => resp.into_ok("Orders retrieved successfully", Payload::Orders(orders)),
        Err(_) => resp.into_err_internal(ApiErrorType::DbInsertionFailed),
    }
}

/// Retrieves the still-pending orders referencing the given listing id.
/// The operation exists at the handler layer only; no route is bound to it
/// in this slice.
pub fn orders_pending_handler(
    id: String,
    db: &MarketStore,
    _cache: &CacheConnection,
    _cf: &CFilterConnection,
) -> (r: Result<JsonReply, JsonReply>)
    ensures
        r is Ok <==> db@.failure is None,
        match r {
            Ok(rep) => rep@ == spec_orders_pending_reply(db@, id@),
            Err(rep) => rep@ == spec_orders_pending_reply(db@, id@),
        },
{
    let resp = CallResponse::new("orders_pending");
    match db.get_pending_trades_by_id(&id) {
        Ok(pending_trades) => resp.into_ok(
            "Pending trades retrieved successfully",
            Payload::Orders(pending_trades),
        ),
        Err(_) => resp.into_err_internal(ApiErrorType::DbInsertionFailed),
    }
}

/// Adds an order. On a healthy store the order is appended and echoed
/// back; on a failing store nothing changes and the flattened internal
/// error is returned.
pub fn orders_send_handler(
    payload: Order,
    db: &mut MarketStore,
    _cache: &CacheConnection,
    _cf: &CFilterConnection,
) -> (r: Result<JsonReply, JsonReply>)
    ensures
        final(db)@.listings == old(db)@.listings,
        final(db)@.failure == old(db)@.failure,
        r is Ok <==> old(db)@.failure is None,
        old(db)@.failure is None ==> final(db)@.orders == old(db)@.orders.push(payload@),
        old(db)@.failure is Some ==> final(db)@.orders == old(db)@.orders,
        match r {
            Ok(rep) => rep@ == spec_orders_send_reply(old(db)@, payload@),
            Err(rep) => rep@ == spec_orders_send_reply(old(db)@, payload@),
        },
{
    let resp = CallResponse::new("orders_send");
    match db.add_order(payload.dup()) {
        Ok(_) => resp.into_ok("Order added successfully", Payload::OneOrder(payload)),
        Err(_) => resp.into_err_internal(ApiErrorType::DbInsertionFailed),
    }
}

} // verus!
