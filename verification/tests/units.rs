use market_api::entities::{Listing, Order};
use market_api::envelope::{ApiErrorType, ApiStatus, CallResponse, Payload, map_api_res,
    status_code_of};
use market_api::routes::{CorsPolicy, HttpMethod, PathTail, Rejection, RouteTarget,
    handle_rejection, listing_by_id, listing_send, listings, match_route, orders_by_id,
    orders_send};
use market_api::store::MarketStore;

fn listing(id: &str) -> Listing {
    Listing {
        id: id.to_string(),
        seller: "bob".to_string(),
        price: 5,
        metadata: String::new(),
    }
}

fn order(id: &str, listing_id: &str, pending: bool) -> Order {
    Order {
        id: id.to_string(),
        listing_id: listing_id.to_string(),
        quantity: 1,
        price: 3,
        pending,
    }
}

#[test]
fn envelope_ok_shape() {
    let resp = CallResponse::new("listings");
    let reply = resp
        .into_ok("Data retrieved successfully", Payload::Listings(Vec::new()))
        .unwrap();
    assert_eq!(reply.status_code, 200);
    assert!(matches!(reply.body.status, ApiStatus::Success));
    assert!(reply.body.kind.is_none());
    assert_eq!(reply.body.message, "Data retrieved successfully");
    assert!(reply.body.data.is_some());
}

#[test]
fn envelope_internal_error_shape() {
    let resp = CallResponse::new("listings");
    let reply = resp
        .into_err_internal(ApiErrorType::DbInsertionFailed)
        .unwrap_err();
    assert_eq!(reply.status_code, 500);
    assert!(matches!(reply.body.status, ApiStatus::Failure));
    assert_eq!(reply.body.kind, Some(ApiErrorType::DbInsertionFailed));
    assert_eq!(reply.body.message, "Internal server error");
    assert!(reply.body.data.is_none());
}

#[test]
fn wire_tags() {
    assert_eq!(ApiStatus::Success.wire_tag(), "ok");
    assert_eq!(ApiStatus::Failure.wire_tag(), "error");
    let tags: Vec<String> = [
        ApiErrorType::DbInsertionFailed,
        ApiErrorType::RouteNotFound,
        ApiErrorType::PayloadTooLarge,
        ApiErrorType::MalformedBody,
    ]
    .iter()
    .map(|k| k.wire_tag())
    .collect();
    assert_eq!(tags, vec!["db_insertion_failed", "route_not_found", "payload_too_large", "malformed_body"]);
    for i in 0..tags.len() {
        for j in 0..tags.len() {
            if i != j {
                assert_ne!(tags[i], tags[j]);
            }
        }
    }
}

#[test]
fn status_codes_by_kind() {
    assert_eq!(status_code_of(ApiErrorType::DbInsertionFailed), 500);
    assert_eq!(status_code_of(ApiErrorType::RouteNotFound), 404);
    assert_eq!(status_code_of(ApiErrorType::PayloadTooLarge), 413);
    assert_eq!(status_code_of(ApiErrorType::MalformedBody), 400);
}

#[test]
fn map_api_res_collapses_both_sides() {
    let ok = CallResponse::new("a").into_ok("done", Payload::Listings(Vec::new()));
    assert_eq!(map_api_res(ok).status_code, 200);
    let err = CallResponse::new("b").into_err_internal(ApiErrorType::DbInsertionFailed);
    assert_eq!(map_api_res(err).status_code, 500);
}

#[test]
fn rejections_become_envelopes() {
    let r = handle_rejection(Rejection::PayloadTooLarge);
    assert_eq!(r.status_code, 413);
    assert_eq!(r.body.kind, Some(ApiErrorType::PayloadTooLarge));
    assert_eq!(r.body.message, "Payload too large");

    let r = handle_rejection(Rejection::MalformedBody);
    assert_eq!(r.status_code, 400);
    assert_eq!(r.body.message, "Malformed request body");

    let r = handle_rejection(Rejection::RouteNotFound);
    assert_eq!(r.status_code, 404);
    assert_eq!(r.body.message, "Route not found");
}

#[test]
fn route_table_bindings() {
    let r = listings();
    assert_eq!(r.method, HttpMethod::Get);
    assert_eq!(r.root, "listings");
    assert!(matches!(r.tail, PathTail::End));
    assert!(r.body_limit.is_none());
    assert_eq!(r.cors, CorsPolicy::Read);

    let r = listing_by_id();
    assert_eq!(r.method, HttpMethod::Get);
    assert_eq!(r.root, "listings");
    assert!(matches!(r.tail, PathTail::Param));
    assert_eq!(r.cors, CorsPolicy::Read);

    let r = listing_send(4096);
    assert_eq!(r.method, HttpMethod::Post);
    assert_eq!(r.root, "listings");
    assert!(matches!(r.tail, PathTail::Literal(ref s) if s == "send"));
    assert_eq!(r.body_limit, Some(4096));
    assert_eq!(r.cors, CorsPolicy::Write);

    let r = orders_by_id();
    assert_eq!(r.method, HttpMethod::Get);
    assert_eq!(r.root, "orders");
    assert!(matches!(r.tail, PathTail::Param));

    let r = orders_send(4096);
    assert_eq!(r.method, HttpMethod::Post);
    assert_eq!(r.root, "orders");
    assert!(matches!(r.tail, PathTail::Literal(ref s) if s == "send"));
    assert_eq!(r.body_limit, Some(4096));
}

#[test]
fn route_matching() {
    let v = |parts: &[&str]| -> Vec<String> { parts.iter().map(|p| p.to_string()).collect() };

    assert!(matches!(
        match_route(HttpMethod::Get, &v(&["listings"])),
        Some(RouteTarget::Listings)
    ));
    assert!(matches!(
        match_route(HttpMethod::Post, &v(&["listings", "send"])),
        Some(RouteTarget::ListingSend)
    ));
    assert!(matches!(
        match_route(HttpMethod::Get, &v(&["listings", "abc"])),
        Some(RouteTarget::ListingById(ref id)) if id == "abc"
    ));
    // With GET, the "send" segment is read as an ordinary id parameter.
    assert!(matches!(
        match_route(HttpMethod::Get, &v(&["listings", "send"])),
        Some(RouteTarget::ListingById(ref id)) if id == "send"
    ));
    assert!(matches!(
        match_route(HttpMethod::Post, &v(&["orders", "send"])),
        Some(RouteTarget::OrdersSend)
    ));
    assert!(matches!(
        match_route(HttpMethod::Get, &v(&["orders", "xyz"])),
        Some(RouteTarget::OrdersById(ref id)) if id == "xyz"
    ));
    assert!(match_route(HttpMethod::Post, &v(&["listings"])).is_none());
    assert!(match_route(HttpMethod::Get, &v(&[])).is_none());
    assert!(match_route(HttpMethod::Get, &v(&["trades"])).is_none());
    assert!(match_route(HttpMethod::Post, &v(&["orders", "abc"])).is_none());
}

#[test]
fn store_operations() {
    let mut db = MarketStore::new();
    assert!(db.add_listing(listing("a")).is_ok());
    assert!(db.add_order(order("o-1", "a", true)).is_ok());
    assert!(db.add_order(order("o-2", "a", false)).is_ok());
    assert!(db.add_order(order("o-3", "b", true)).is_ok());

    let ls = db.get_listings().unwrap();
    assert_eq!(ls.len(), 1);
    assert_eq!(ls[0].id, "a");

    let found = db.get_listing_by_id(&"a".to_string()).unwrap();
    assert_eq!(found.id, "a");
    let missing = db.get_listing_by_id(&"zzz".to_string()).unwrap_err();
    assert_eq!(missing.detail, "listing not found");

    let os = db.get_orders_by_id(&"a".to_string()).unwrap();
    assert_eq!(os.len(), 2);
    assert_eq!(os[0].id, "o-1");
    assert_eq!(os[1].id, "o-2");

    let pending = db.get_pending_trades_by_id(&"a".to_string()).unwrap();
    assert_eq!(pending.len(), 1);
    assert_eq!(pending[0].id, "o-1");
}

#[test]
fn failing_store_rejects_writes_unchanged() {
    let mut db = MarketStore::new();
    db.set_failure(Some("disk full".to_string()));
    let e = db.add_listing(listing("a")).unwrap_err();
    assert_eq!(e.detail, "disk full");
    let e = db.get_listings().unwrap_err();
    assert_eq!(e.detail, "disk full");

    db.set_failure(None);
    assert!(db.get_listings().unwrap().is_empty());
}
