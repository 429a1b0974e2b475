use market_api::entities::{Listing, Order};
use market_api::envelope::{ApiErrorType, ApiStatus, Payload};
use market_api::handlers::{CFilterConnection, CacheConnection, orders_pending_handler};
use market_api::routes::{BodyOutcome, HttpMethod, serve};
use market_api::store::MarketStore;

fn listing(id: &str, price: u64) -> Listing {
    Listing {
        id: id.to_string(),
        seller: "alice".to_string(),
        price,
        metadata: "mint condition".to_string(),
    }
}

fn order(id: &str, listing_id: &str, pending: bool) -> Order {
    Order {
        id: id.to_string(),
        listing_id: listing_id.to_string(),
        quantity: 2,
        price: 10,
        pending,
    }
}

fn segs(parts: &[&str]) -> Vec<String> {
    parts.iter().map(|p| p.to_string()).collect()
}

#[test]
fn listing_round_trip() {
    let mut db = MarketStore::new();
    let cache = CacheConnection {};
    let cf = CFilterConnection {};

    let posted = serve(
        &mut db,
        &cache,
        &cf,
        HttpMethod::Post,
        &segs(&["listings", "send"]),
        64,
        1024,
        BodyOutcome::ParsedListing(listing("l-1", 42)),
    );
    assert_eq!(posted.status_code, 200);
    assert!(matches!(posted.body.status, ApiStatus::Success));
    assert_eq!(posted.body.message, "Listing added successfully");

    let got = serve(
        &mut db,
        &cache,
        &cf,
        HttpMethod::Get,
        &segs(&["listings", "l-1"]),
        0,
        1024,
        BodyOutcome::Absent,
    );
    assert_eq!(got.status_code, 200);
    match got.body.data {
        Some(Payload::OneListing(l)) => {
            assert_eq!(l.id, "l-1");
            assert_eq!(l.seller, "alice");
            assert_eq!(l.price, 42);
            assert_eq!(l.metadata, "mint condition");
        }
        _ => panic!("expected the echoed listing back"),
    }
}

#[test]
fn order_round_trip() {
    let mut db = MarketStore::new();
    let cache = CacheConnection {};
    let cf = CFilterConnection {};

    serve(
        &mut db,
        &cache,
        &cf,
        HttpMethod::Post,
        &segs(&["listings", "send"]),
        64,
        1024,
        BodyOutcome::ParsedListing(listing("l-1", 42)),
    );
    let posted = serve(
        &mut db,
        &cache,
        &cf,
        HttpMethod::Post,
        &segs(&["orders", "send"]),
        64,
        1024,
        BodyOutcome::ParsedOrder(order("o-1", "l-1", true)),
    );
    assert_eq!(posted.status_code, 200);

    let got = serve(
        &mut db,
        &cache,
        &cf,
        HttpMethod::Get,
        &segs(&["orders", "l-1"]),
        0,
        1024,
        BodyOutcome::Absent,
    );
    assert_eq!(got.status_code, 200);
    match got.body.data {
        Some(Payload::Orders(os)) => {
            assert_eq!(os.len(), 1);
            assert_eq!(os[0].id, "o-1");
            assert_eq!(os[0].listing_id, "l-1");
        }
        _ => panic!("expected the orders for l-1"),
    }
}

#[test]
fn empty_store_returns_empty_sequence() {
    let mut db = MarketStore::new();
    let cache = CacheConnection {};
    let cf = CFilterConnection {};

    let got = serve(
        &mut db,
        &cache,
        &cf,
        HttpMethod::Get,
        &segs(&["listings"]),
        0,
        1024,
        BodyOutcome::Absent,
    );
    assert_eq!(got.status_code, 200);
    assert!(matches!(got.body.status, ApiStatus::Success));
    assert!(got.body.kind.is_none());
    match got.body.data {
        Some(Payload::Listings(ls)) => assert!(ls.is_empty()),
        _ => panic!("expected an empty listing sequence, not an error"),
    }
}

#[test]
fn oversized_body_never_reaches_the_store() {
    let mut db = MarketStore::new();
    let cache = CacheConnection {};
    let cf = CFilterConnection {};

    let rejected = serve(
        &mut db,
        &cache,
        &cf,
        HttpMethod::Post,
        &segs(&["listings", "send"]),
        2048,
        1024,
        BodyOutcome::ParsedListing(listing("l-1", 42)),
    );
    assert_eq!(rejected.status_code, 413);
    assert!(matches!(rejected.body.status, ApiStatus::Failure));
    assert_eq!(rejected.body.kind, Some(ApiErrorType::PayloadTooLarge));
    assert_ne!(rejected.body.kind, Some(ApiErrorType::DbInsertionFailed));

    let got = serve(
        &mut db,
        &cache,
        &cf,
        HttpMethod::Get,
        &segs(&["listings"]),
        0,
        1024,
        BodyOutcome::Absent,
    );
    match got.body.data {
        Some(Payload::Listings(ls)) => assert!(ls.is_empty()),
        _ => panic!("store must be untouched by a rejected request"),
    }
}

#[test]
fn store_failure_reads_give_opaque_500() {
    let mut db = MarketStore::new();
    let cache = CacheConnection {};
    let cf = CFilterConnection {};
    db.set_failure(Some("connection refused: db-host-17".to_string()));

    for path in [segs(&["listings"]), segs(&["listings", "l-1"]), segs(&["orders", "l-1"])] {
        let got = serve(
            &mut db,
            &cache,
            &cf,
            HttpMethod::Get,
            &path,
            0,
            1024,
            BodyOutcome::Absent,
        );
        assert_eq!(got.status_code, 500);
        assert!(matches!(got.body.status, ApiStatus::Failure));
        assert_eq!(got.body.kind, Some(ApiErrorType::DbInsertionFailed));
        assert_eq!(got.body.message, "Internal server error");
        assert!(!got.body.message.contains("db-host-17"));
        assert!(got.body.data.is_none());
    }
}

#[test]
fn distinct_posts_both_retrievable() {
    for flipped in [false, true] {
        let mut db = MarketStore::new();
        let cache = CacheConnection {};
        let cf = CFilterConnection {};
        let (a, b) = if flipped { ("l-2", "l-1") } else { ("l-1", "l-2") };
        for id in [a, b] {
            let posted = serve(
                &mut db,
                &cache,
                &cf,
                HttpMethod::Post,
                &segs(&["listings", "send"]),
                64,
                1024,
                BodyOutcome::ParsedListing(listing(id, 7)),
            );
            assert_eq!(posted.status_code, 200);
        }
        for id in ["l-1", "l-2"] {
            let got = serve(
                &mut db,
                &cache,
                &cf,
                HttpMethod::Get,
                &segs(&["listings", id]),
                0,
                1024,
                BodyOutcome::Absent,
            );
            assert_eq!(got.status_code, 200);
            match got.body.data {
                Some(Payload::OneListing(l)) => assert_eq!(l.id, id),
                _ => panic!("a write was lost"),
            }
        }
    }
}

#[test]
fn malformed_body_rejected_before_the_handler() {
    let mut db = MarketStore::new();
    let cache = CacheConnection {};
    let cf = CFilterConnection {};

    let garbled = serve(
        &mut db,
        &cache,
        &cf,
        HttpMethod::Post,
        &segs(&["listings", "send"]),
        64,
        1024,
        BodyOutcome::Malformed,
    );
    assert_eq!(garbled.status_code, 400);
    assert_eq!(garbled.body.kind, Some(ApiErrorType::MalformedBody));

    let wrong_entity = serve(
        &mut db,
        &cache,
        &cf,
        HttpMethod::Post,
        &segs(&["listings", "send"]),
        64,
        1024,
        BodyOutcome::ParsedOrder(order("o-1", "l-1", true)),
    );
    assert_eq!(wrong_entity.status_code, 400);
    assert_eq!(wrong_entity.body.kind, Some(ApiErrorType::MalformedBody));
}

#[test]
fn unmatched_routes_give_404_envelopes() {
    let mut db = MarketStore::new();
    let cache = CacheConnection {};
    let cf = CFilterConnection {};

    for (method, path) in [
        (HttpMethod::Get, segs(&["nothing"])),
        (HttpMethod::Post, segs(&["listings"])),
        (HttpMethod::Post, segs(&["listings", "l-1"])),
        (HttpMethod::Get, segs(&["listings", "l-1", "extra"])),
    ] {
        let got = serve(&mut db, &cache, &cf, method, &path, 0, 1024, BodyOutcome::Absent);
        assert_eq!(got.status_code, 404);
        assert_eq!(got.body.kind, Some(ApiErrorType::RouteNotFound));
        assert_eq!(got.body.message, "Route not found");
    }
}

#[test]
fn missing_listing_is_a_flattened_store_error() {
    let mut db = MarketStore::new();
    let cache = CacheConnection {};
    let cf = CFilterConnection {};

    let got = serve(
        &mut db,
        &cache,
        &cf,
        HttpMethod::Get,
        &segs(&["listings", "ghost"]),
        0,
        1024,
        BodyOutcome::Absent,
    );
    assert_eq!(got.status_code, 500);
    assert_eq!(got.body.kind, Some(ApiErrorType::DbInsertionFailed));
}

#[test]
fn duplicate_id_returns_the_most_recent() {
    let mut db = MarketStore::new();
    let cache = CacheConnection {};
    let cf = CFilterConnection {};

    for price in [1u64, 2u64] {
        serve(
            &mut db,
            &cache,
            &cf,
            HttpMethod::Post,
            &segs(&["listings", "send"]),
            64,
            1024,
            BodyOutcome::ParsedListing(listing("l-1", price)),
        );
    }
    let got = serve(
        &mut db,
        &cache,
        &cf,
        HttpMethod::Get,
        &segs(&["listings", "l-1"]),
        0,
        1024,
        BodyOutcome::Absent,
    );
    match got.body.data {
        Some(Payload::OneListing(l)) => assert_eq!(l.price, 2),
        _ => panic!("expected the most recently added listing"),
    }
}

#[test]
fn get_on_send_path_reads_it_as_an_id() {
    let mut db = MarketStore::new();
    let cache = CacheConnection {};
    let cf = CFilterConnection {};

    let got = serve(
        &mut db,
        &cache,
        &cf,
        HttpMethod::Get,
        &segs(&["listings", "send"]),
        0,
        1024,
        BodyOutcome::Absent,
    );
    // No listing has the id "send", so the flat taxonomy answers 500.
    assert_eq!(got.status_code, 500);
    assert_eq!(got.body.kind, Some(ApiErrorType::DbInsertionFailed));
}

#[test]
fn pending_trades_filters_settled_orders() {
    let mut db = MarketStore::new();
    let cache = CacheConnection {};
    let cf = CFilterConnection {};

    serve(
        &mut db,
        &cache,
        &cf,
        HttpMethod::Post,
        &segs(&["orders", "send"]),
        64,
        1024,
        BodyOutcome::ParsedOrder(order("o-1", "l-1", true)),
    );
    serve(
        &mut db,
        &cache,
        &cf,
        HttpMethod::Post,
        &segs(&["orders", "send"]),
        64,
        1024,
        BodyOutcome::ParsedOrder(order("o-2", "l-1", false)),
    );
    serve(
        &mut db,
        &cache,
        &cf,
        HttpMethod::Post,
        &segs(&["orders", "send"]),
        64,
        1024,
        BodyOutcome::ParsedOrder(order("o-3", "l-2", true)),
    );

    // The pending-trades operation exists at the handler layer only; no
    // route is bound to it in this slice.
    let reply = match orders_pending_handler("l-1".to_string(), &db, &cache, &cf) {
        Ok(r) => r,
        Err(_) => panic!("expected a success reply"),
    };
    assert_eq!(reply.status_code, 200);
    match reply.body.data {
        Some(Payload::Orders(os)) => {
            assert_eq!(os.len(), 1);
            assert_eq!(os[0].id, "o-1");
            assert!(os[0].pending);
        }
        _ => panic!("expected the pending orders for l-1"),
    }
}
