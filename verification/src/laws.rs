//! The behavioral laws of the pipeline, proved once and for all over the
//! functional model [`spec_serve`]. Since [`crate::routes::serve`] is
//! proved equal to that model, each law carries over to the executable
//! pipeline.

use vstd::prelude::*;
use crate::entities::{ListingModel, OrderModel};
use crate::envelope::{ApiErrorType, ApiStatus, PayloadModel, spec_internal_err_reply,
    spec_internal_error_message, spec_ok_reply};
use crate::handlers::{spec_msg_listing_added, spec_msg_listing_retrieved, spec_msg_listings,
    spec_msg_order_added, spec_msg_orders_retrieved};
use crate::routes::{BodyOutcomeModel, HttpMethod, Rejection, RouteTargetModel,
    spec_match_route, spec_rejection_reply, spec_serve};
use crate::store::{StoreModel, spec_find_listing, spec_orders_for};

verus! {

/// Law: on a healthy store, adding a listing and then getting its id
/// returns a success envelope whose data is exactly the listing that was
/// added, and the get changes nothing.
pub proof fn lemma_post_then_get_listing(
    s: StoreModel,
    l: ListingModel,
    cl_post: int,
    cl_get: int,
    limit: int,
)
    requires
        s.failure is None,
        cl_post <= limit,
    ensures
        ({
            let (s1, rep1) = spec_serve(
                s,
                HttpMethod::Post,
                seq!["listings"@, "send"@],
                cl_post,
                limit,
                BodyOutcomeModel::ParsedListing(l),
            );
            let (s2, rep2) = spec_serve(
                s1,
                HttpMethod::Get,
                seq!["listings"@, l.id],
                cl_get,
                limit,
                BodyOutcomeModel::Absent,
            );
            rep1 == spec_ok_reply(spec_msg_listing_added(), PayloadModel::OneListing(l)) && rep2
                == spec_ok_reply(spec_msg_listing_retrieved(), PayloadModel::OneListing(l)) && s2
                == s1 && s1.listings == s.listings.push(l)
        }),
{
    let post_segs = seq!["listings"@, "send"@];
    assert(spec_match_route(HttpMethod::Post, post_segs) == Some(RouteTargetModel::ListingSend));
    let (s1, rep1) = spec_serve(
        s,
        HttpMethod::Post,
        post_segs,
        cl_post,
        limit,
        BodyOutcomeModel::ParsedListing(l),
    );
    assert(s1.listings == s.listings.push(l));
    let get_segs = seq!["listings"@, l.id];
    assert(spec_match_route(HttpMethod::Get, get_segs) == Some(
        RouteTargetModel::ListingById(l.id),
    ));
    assert(s1.listings.last() == l);
    assert(spec_find_listing(s1.listings, l.id) == Some(l));
}

/// Law: on a healthy store holding the referenced listing, adding an
/// order and then getting the orders for its listing id returns a success
/// envelope whose data sequence ends with — and so contains — the added
/// order.
pub proof fn lemma_post_then_get_orders(
    s: StoreModel,
    o: OrderModel,
    cl_post: int,
    cl_get: int,
    limit: int,
)
    requires
        s.failure is None,
        spec_find_listing(s.listings, o.listing_id) is Some,
        cl_post <= limit,
    ensures
        ({
            let (s1, rep1) = spec_serve(
                s,
                HttpMethod::Post,
                seq!["orders"@, "send"@],
                cl_post,
                limit,
                BodyOutcomeModel::ParsedOrder(o),
            );
            let (s2, rep2) = spec_serve(
                s1,
                HttpMethod::Get,
                seq!["orders"@, o.listing_id],
                cl_get,
                limit,
                BodyOutcomeModel::Absent,
            );
            let ords = spec_orders_for(s.orders, o.listing_id).push(o);
            rep1 == spec_ok_reply(spec_msg_order_added(), PayloadModel::OneOrder(o)) && rep2
                == spec_ok_reply(spec_msg_orders_retrieved(), PayloadModel::Orders(ords))
                && ords.contains(o) && s2 == s1
        }),
{
    reveal_strlit("listings");
    reveal_strlit("orders");
    let post_segs = seq!["orders"@, "send"@];
    assert("orders"@.len() == 6);
    assert("listings"@.len() == 8);
    assert(spec_match_route(HttpMethod::Post, post_segs) == Some(RouteTargetModel::OrdersSend));
    let (s1, rep1) = spec_serve(
        s,
        HttpMethod::Post,
        post_segs,
        cl_post,
        limit,
        BodyOutcomeModel::ParsedOrder(o),
    );
    assert(s1.orders == s.orders.push(o));
    let get_segs = seq!["orders"@, o.listing_id];
    assert(spec_match_route(HttpMethod::Get, get_segs) == Some(
        RouteTargetModel::OrdersById(o.listing_id),
    ));
    assert(s1.orders.last() == o);
    assert(s1.orders.drop_last() =~= s.orders);
    assert(spec_orders_for(s1.orders, o.listing_id) == spec_orders_for(
        s.orders,
        o.listing_id,
    ).push(o));
    let ords = spec_orders_for(s.orders, o.listing_id).push(o);
    assert(ords.contains(o)) by {
        assert(ords[ords.len() - 1] == o);
    }
}

/// Law: getting all listings on an empty, healthy store answers with a
/// success envelope carrying the empty sequence — not with an error.
pub proof fn lemma_empty_store_listings(s: StoreModel, cl: int, limit: int)
    requires
        s.failure is None,
        s.listings == Seq::<ListingModel>::empty(),
    ensures
        ({
            let (s2, rep) = spec_serve(
                s,
                HttpMethod::Get,
                seq!["listings"@],
                cl,
                limit,
                BodyOutcomeModel::Absent,
            );
            s2 == s && rep == spec_ok_reply(
                spec_msg_listings(),
                PayloadModel::Listings(Seq::<ListingModel>::empty()),
            ) && rep.body.status == ApiStatus::Success
        }),
{
    let segs = seq!["listings"@];
    assert(spec_match_route(HttpMethod::Get, segs) == Some(RouteTargetModel::Listings));
}

/// Law: a write route whose declared body length exceeds the configured
/// limit is rejected with the payload-too-large kind — a client error, not
/// the store-failure kind — and the store is left untouched, whatever the
/// body held and whatever state the store was in: the handler is never
/// reached.
pub proof fn lemma_oversized_body_rejected(
    s: StoreModel,
    m: HttpMethod,
    segs: Seq<Seq<char>>,
    cl: int,
    limit: int,
    body: BodyOutcomeModel,
)
    requires
        spec_match_route(m, segs) == Some(RouteTargetModel::ListingSend) || spec_match_route(
            m,
            segs,
        ) == Some(RouteTargetModel::OrdersSend),
        cl > limit,
    ensures
        ({
            let (s2, rep) = spec_serve(s, m, segs, cl, limit, body);
            s2 == s && rep == spec_rejection_reply(Rejection::PayloadTooLarge)
                && rep.body.kind == Some(ApiErrorType::PayloadTooLarge) && rep.body.kind != Some(
                ApiErrorType::DbInsertionFailed,
            ) && 400 <= rep.status_code < 500
        }),
{
}

/// Law: while the store is failing, every read route answers with the
/// flattened store-failure envelope: a 5xx status, the store-failure kind,
/// and the fixed message — the underlying failure detail appears nowhere
/// in the reply, and the store is untouched.
pub proof fn lemma_store_failure_on_read_routes(
    s: StoreModel,
    m: HttpMethod,
    segs: Seq<Seq<char>>,
    cl: int,
    limit: int,
    body: BodyOutcomeModel,
    detail: Seq<char>,
)
    requires
        s.failure == Some(detail),
        ({
            let t = spec_match_route(m, segs);
            (t matches Some(x) && (x is Listings || x is ListingById || x is OrdersById))
        }),
    ensures
        ({
            let (s2, rep) = spec_serve(s, m, segs, cl, limit, body);
            s2 == s && rep == spec_internal_err_reply(ApiErrorType::DbInsertionFailed)
                && rep.status_code == 500 && rep.body.status == ApiStatus::Failure
                && rep.body.kind == Some(ApiErrorType::DbInsertionFailed) && rep.body.message
                == spec_internal_error_message()
        }),
{
}

/// Law: two listings with distinct ids, added one after the other in
/// whichever order the shared-handle acquisition serialized the two
/// requests to, are afterwards each independently retrievable: neither
/// write is lost.
pub proof fn lemma_distinct_posts_both_retrievable(
    s: StoreModel,
    first: ListingModel,
    second: ListingModel,
    cl_a: int,
    cl_b: int,
    cl_get: int,
    limit: int,
)
    requires
        s.failure is None,
        first.id != second.id,
        cl_a <= limit,
        cl_b <= limit,
    ensures
        ({
            let (s1, _) = spec_serve(
                s,
                HttpMethod::Post,
                seq!["listings"@, "send"@],
                cl_a,
                limit,
                BodyOutcomeModel::ParsedListing(first),
            );
            let (s2, _) = spec_serve(
                s1,
                HttpMethod::Post,
                seq!["listings"@, "send"@],
                cl_b,
                limit,
                BodyOutcomeModel::ParsedListing(second),
            );
            let (_, rep_first) = spec_serve(
                s2,
                HttpMethod::Get,
                seq!["listings"@, first.id],
                cl_get,
                limit,
                BodyOutcomeModel::Absent,
            );
            let (_, rep_second) = spec_serve(
                s2,
                HttpMethod::Get,
                seq!["listings"@, second.id],
                cl_get,
                limit,
                BodyOutcomeModel::Absent,
            );
            rep_first == spec_ok_reply(
                spec_msg_listing_retrieved(),
                PayloadModel::OneListing(first),
            ) && rep_second == spec_ok_reply(
                spec_msg_listing_retrieved(),
                PayloadModel::OneListing(second),
            )
        }),
{
    let post_segs = seq!["listings"@, "send"@];
    assert(spec_match_route(HttpMethod::Post, post_segs) == Some(RouteTargetModel::ListingSend));
    let (s1, _) = spec_serve(
        s,
        HttpMethod::Post,
        post_segs,
        cl_a,
        limit,
        BodyOutcomeModel::ParsedListing(first),
    );
    let (s2, _) = spec_serve(
        s1,
        HttpMethod::Post,
        post_segs,
        cl_b,
        limit,
        BodyOutcomeModel::ParsedListing(second),
    );
    assert(s2.listings == s.listings.push(first).push(second));
    assert(spec_match_route(HttpMethod::Get, seq!["listings"@, first.id]) == Some(
        RouteTargetModel::ListingById(first.id),
    ));
    assert(spec_match_route(HttpMethod::Get, seq!["listings"@, second.id]) == Some(
        RouteTargetModel::ListingById(second.id),
    ));
    assert(s2.listings.last() == second);
    assert(spec_find_listing(s2.listings, second.id) == Some(second));
    assert(s2.listings.drop_last() =~= s1.listings);
    assert(s1.listings.last() == first);
    assert(spec_find_listing(s1.listings, first.id) == Some(first));
    assert(spec_find_listing(s2.listings, first.id) == Some(first));
}

} // verus!
