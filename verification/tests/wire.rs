use market_api::entities::{Listing, Order};
use market_api::envelope::{ApiErrorType, ApiStatus, CallResponse, Envelope, Payload};
use market_api::routes::{Rejection, handle_rejection};

fn wire(e: &Envelope) -> String {
    String::from_utf8(e.to_json_bytes()).expect("the rendered bytes are UTF-8")
}

#[test]
fn rejection_wire_bytes() {
    let reply = handle_rejection(Rejection::RouteNotFound);
    assert_eq!(
        wire(&reply.body),
        "{\"status\":\"error\",\"kind\":\"route_not_found\",\"message\":\"Route not found\"}"
    );
}

#[test]
fn internal_error_wire_bytes() {
    let reply = CallResponse::new("listings")
        .into_err_internal(ApiErrorType::DbInsertionFailed)
        .unwrap_err();
    assert_eq!(
        wire(&reply.body),
        "{\"status\":\"error\",\"kind\":\"db_insertion_failed\",\"message\":\"Internal server error\"}"
    );
}

#[test]
fn success_wire_bytes_with_listing_array() {
    let l = Listing {
        id: "a".to_string(),
        seller: "alice".to_string(),
        price: 42,
        metadata: "mint".to_string(),
    };
    let reply = CallResponse::new("listings")
        .into_ok("Data retrieved successfully", Payload::Listings(vec![l]))
        .unwrap();
    assert_eq!(
        wire(&reply.body),
        "{\"status\":\"ok\",\"message\":\"Data retrieved successfully\",\"data\":[{\"id\":\"a\",\"seller\":\"alice\",\"price\":42,\"metadata\":\"mint\"}]}"
    );
}

#[test]
fn empty_array_wire_bytes() {
    let reply = CallResponse::new("listings")
        .into_ok("Data retrieved successfully", Payload::Listings(Vec::new()))
        .unwrap();
    assert_eq!(
        wire(&reply.body),
        "{\"status\":\"ok\",\"message\":\"Data retrieved successfully\",\"data\":[]}"
    );
}

#[test]
fn order_wire_bytes_with_bool_and_commas() {
    let o1 = Order {
        id: "o-1".to_string(),
        listing_id: "a".to_string(),
        quantity: 2,
        price: 10,
        pending: true,
    };
    let o2 = Order {
        id: "o-2".to_string(),
        listing_id: "a".to_string(),
        quantity: 1,
        price: 205,
        pending: false,
    };
    let reply = CallResponse::new("orders_by_id")
        .into_ok("Orders retrieved successfully", Payload::Orders(vec![o1, o2]))
        .unwrap();
    let mut expected = String::new();
    expected.push_str("{\"status\":\"ok\",\"message\":\"Orders retrieved successfully\",\"data\":[");
    expected.push_str("{\"id\":\"o-1\",\"listing_id\":\"a\",\"quantity\":2,\"price\":10,\"pending\":true},");
    expected.push_str("{\"id\":\"o-2\",\"listing_id\":\"a\",\"quantity\":1,\"price\":205,\"pending\":false}");
    expected.push_str("]}");
    assert_eq!(wire(&reply.body), expected);
}

#[test]
fn strings_are_escaped() {
    let e = Envelope {
        status: ApiStatus::Success,
        kind: None,
        message: "a\"b\\c\nd".to_string(),
        data: None,
    };
    assert_eq!(wire(&e), "{\"status\":\"ok\",\"message\":\"a\\\"b\\\\c\\u000ad\"}");
}

#[test]
fn non_ascii_text_passes_through() {
    let e = Envelope {
        status: ApiStatus::Success,
        kind: None,
        message: "héllo \u{2713}".to_string(),
        data: None,
    };
    assert_eq!(wire(&e), "{\"status\":\"ok\",\"message\":\"héllo \u{2713}\"}");
}
