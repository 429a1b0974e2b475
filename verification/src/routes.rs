//! The route layer: binds HTTP method and path to a handler, enforces the
//! configured body-size limit on write routes, injects the shared handles,
//! and translates transport rejections into the same envelope shape the
//! handlers use.
//!
//! [`serve`] is the whole pipeline for one request: its contract equates
//! the executable path with the functional model [`spec_serve`], so every
//! route's observable behavior — reply and store change alike — is pinned
//! down by one spec function.

use vstd::prelude::*;
use crate::entities::{Listing, ListingModel, Order, OrderModel};
use crate::envelope::{ApiErrorType, Envelope, ApiStatus, JsonReply, JsonReplyModel,
    EnvelopeModel, map_api_res, spec_status_code_of, status_code_of};
use crate::handlers::{CFilterConnection, CacheConnection, listing_by_id_handler,
    listing_send_handler, listings_handler, orders_by_id_handler, orders_send_handler,
    spec_listing_by_id_reply, spec_listing_send_reply, spec_listings_reply,
    spec_orders_by_id_reply, spec_orders_send_reply};
use crate::store::{MarketStore, StoreModel};

verus! {

/// The two HTTP methods this surface exposes.
#[derive(Clone, Copy, PartialEq, Eq, Structural, Debug)]
pub enum HttpMethod {
    Get,
    Post,
}

/// Cross-origin policy attached to a route: one permissive policy for the
/// read (GET) routes, one for the write (POST) routes.
#[derive(Clone, Copy, PartialEq, Eq, Structural, Debug)]
pub enum CorsPolicy {
    Read,
    Write,
}

/// A transport-level rejection raised before any handler runs.
#[derive(Clone, Copy, PartialEq, Eq, Structural, Debug)]
pub enum Rejection {
    /// No route matches the request's method and path.
    RouteNotFound,
    /// The declared body length exceeds the route's configured limit.
    PayloadTooLarge,
    /// The body could not be read as the entity the route expects.
    MalformedBody,
}

/// The error kind a rejection surfaces as.
pub open spec fn spec_kind_of_rejection(rej: Rejection) -> ApiErrorType {
    match rej {
        Rejection::RouteNotFound => ApiErrorType::RouteNotFound,
        Rejection::PayloadTooLarge => ApiErrorType::PayloadTooLarge,
        Rejection::MalformedBody => ApiErrorType::MalformedBody,
    }
}

/// The stable client-facing message of a rejection.
pub open spec fn spec_rejection_message(rej: Rejection) -> Seq<char> {
    match rej {
        Rejection::RouteNotFound => "Route not found"@,
        Rejection::PayloadTooLarge => "Payload too large"@,
        Rejection::MalformedBody => "Malformed request body"@,
    }
}

/// The structured error envelope a rejection is converted into, in place
/// of a transport-default error page: a client-error status, the
/// rejection's kind, its stable message, no data.
pub open spec fn spec_rejection_reply(rej: Rejection) -> JsonReplyModel {
    JsonReplyModel {
        status_code: spec_status_code_of(spec_kind_of_rejection(rej)),
        body: EnvelopeModel {
            status: ApiStatus::Failure,
            kind: Some(spec_kind_of_rejection(rej)),
            message: spec_rejection_message(rej),
            data: None,
        },
    }
}

/// Converts an unrecovered rejection into the uniform envelope shape.
pub fn handle_rejection(rej: Rejection) -> (r: JsonReply)
    ensures
        r@ == spec_rejection_reply(rej),
{
    let kind = match rej {
        Rejection::RouteNotFound => ApiErrorType::RouteNotFound,
        Rejection::PayloadTooLarge => ApiErrorType::PayloadTooLarge,
        Rejection::MalformedBody => ApiErrorType::MalformedBody,
    };
    let message = match rej {
        Rejection::RouteNotFound => "Route not found",
        Rejection::PayloadTooLarge => "Payload too large",
        Rejection::MalformedBody => "Malformed request body",
    };
    JsonReply {
        status_code: status_code_of(kind),
        body: Envelope {
            status: ApiStatus::Failure,
            kind: Some(kind),
            message: message.to_owned(),
            data: None,
        },
    }
}

/// The handler a request is dispatched to, with the extracted path
/// parameter where the route has one.
pub enum RouteTarget {
    Listings,
    ListingById(String),
    ListingSend,
    OrdersById(String),
    OrdersSend,
}

/// Mathematical image of a [`RouteTarget`].
pub enum RouteTargetModel {
    Listings,
    ListingById(Seq<char>),
    ListingSend,
    OrdersById(Seq<char>),
    OrdersSend,
}

impl View for RouteTarget {
    type V = RouteTargetModel;

    open spec fn view(&self) -> RouteTargetModel {
        match self {
            RouteTarget::Listings => RouteTargetModel::Listings,
            RouteTarget::ListingById(id) => RouteTargetModel::ListingById(id@),
            RouteTarget::ListingSend => RouteTargetModel::ListingSend,
            RouteTarget::OrdersById(id) => RouteTargetModel::OrdersById(id@),
            RouteTarget::OrdersSend => RouteTargetModel::OrdersSend,
        }
    }
}

/// The character sequences of a request path's segments, in order.
pub open spec fn segment_views(s: Seq<String>) -> Seq<Seq<char>> {
    s.map_values(|x: String| x@)
}

/// Which route, if any, the method and path segments bind to. Path
/// templates are matched segment by segment; `/listings/{id}` and
/// `/orders/{id}` accept any single trailing segment as the id, so
/// `GET /listings/send` reads `send` as an id while `POST /listings/send`
/// is the add-listing route.
pub open spec fn spec_match_route(m: HttpMethod, segs: Seq<Seq<char>>) -> Option<
    RouteTargetModel,
> {
    if segs.len() == 1 && segs[0] == "listings"@ && m == HttpMethod::Get {
        Some(RouteTargetModel::Listings)
    } else if segs.len() == 2 && segs[0] == "listings"@ && segs[1] == "send"@ && m
        == HttpMethod::Post {
        Some(RouteTargetModel::ListingSend)
    } else if segs.len() == 2 && segs[0] == "listings"@ && m == HttpMethod::Get {
        Some(RouteTargetModel::ListingById(segs[1]))
    } else if segs.len() == 2 && segs[0] == "orders"@ && segs[1] == "send"@ && m
        == HttpMethod::Post {
        Some(RouteTargetModel::OrdersSend)
    } else if segs.len() == 2 && segs[0] == "orders"@ && m == HttpMethod::Get {
        Some(RouteTargetModel::OrdersById(segs[1]))
    } else {
        None
    }
}

/// Matches a request's method and path segments against the route table.
pub fn match_route(method: HttpMethod, segments: &Vec<String>) -> (r: Option<RouteTarget>)
    ensures
        ({
            let s = spec_match_route(method, segment_views(segments@));
            match r {
                Some(t) => s == Some(t@),
                None => s is None,
            }
        }),
{
    proof {
        if segments@.len() > 0 {
            assert(segment_views(segments@)[0] == segments@[0]@);
        }
        if segments@.len() > 1 {
            assert(segment_views(segments@)[1] == segments@[1]@);
        }
        assert(segment_views(segments@).len() == segments@.len());
    }
    let listings_seg: String = "listings".to_owned();
    let orders_seg: String = "orders".to_owned();
    let send_seg: String = "send".to_owned();
    if segments.len() == 1 && segments[0] == listings_seg && method == HttpMethod::Get {
        Some(RouteTarget::Listings)
    } else if segments.len() == 2 && segments[0] == listings_seg && segments[1] == send_seg
        && method == HttpMethod::Post {
        Some(RouteTarget::ListingSend)
    } else if segments.len() == 2 && segments[0] == listings_seg && method == HttpMethod::Get {
        Some(RouteTarget::ListingById(segments[1].clone()))
    } else if segments.len() == 2 && segments[0] == orders_seg && segments[1] == send_seg && method
        == HttpMethod::Post {
        Some(RouteTarget::OrdersSend)
    } else if segments.len() == 2 && segments[0] == orders_seg && method == HttpMethod::Get {
        Some(RouteTarget::OrdersById(segments[1].clone()))
    } else {
        None
    }
}

/// The tail of a route's path template, after the fixed first segment.
pub enum PathTail {
    /// The path is the first segment alone.
    End,
    /// One dynamic trailing segment, extracted as a string parameter.
    Param,
    /// One fixed trailing segment.
    Literal(String),
}

/// Declarative description of one route binding: the method and path
/// template it matches, the body-size limit it enforces (write routes
/// only), and the cross-origin policy it attaches. The shared store,
/// cache and filter handles are injected at dispatch time.
pub struct RouteSpec {
    pub method: HttpMethod,
    pub root: String,
    pub tail: PathTail,
    pub body_limit: Option<u64>,
    pub cors: CorsPolicy,
}

/// GET /listings — retrieves all listings; read policy, no body.
pub fn listings() -> (r: RouteSpec)
    ensures
        r.method == HttpMethod::Get,
        r.root@ == "listings"@,
        r.tail is End,
        r.body_limit is None,
        r.cors == CorsPolicy::Read,
{
    RouteSpec {
        method: HttpMethod::Get,
        root: "listings".to_owned(),
        tail: PathTail::End,
        body_limit: None,
        cors: CorsPolicy::Read,
    }
}

/// GET /listings/{id} — retrieves a listing by its id; read policy.
pub fn listing_by_id() -> (r: RouteSpec)
    ensures
        r.method == HttpMethod::Get,
        r.root@ == "listings"@,
        r.tail is Param,
        r.body_limit is None,
        r.cors == CorsPolicy::Read,
{
    RouteSpec {
        method: HttpMethod::Get,
        root: "listings".to_owned(),
        tail: PathTail::Param,
        body_limit: None,
        cors: CorsPolicy::Read,
    }
}

/// POST /listings/send — adds a listing; write policy, body limited to
/// the configured size.
pub fn listing_send(body_limit: u64) -> (r: RouteSpec)
    ensures
        r.method == HttpMethod::Post,
        r.root@ == "listings"@,
        r.tail matches PathTail::Literal(s) && s@ == "send"@,
        r.body_limit == Some(body_limit),
        r.cors == CorsPolicy::Write,
{
    RouteSpec {
        method: HttpMethod::Post,
        root: "listings".to_owned(),
        tail: PathTail::Literal("send".to_owned()),
        body_limit: Some(body_limit),
        cors: CorsPolicy::Write,
    }
}

/// GET /orders/{id} — retrieves the orders for a listing id; read policy.
pub fn orders_by_id() -> (r: RouteSpec)
    ensures
        r.method == HttpMethod::Get,
        r.root@ == "orders"@,
        r.tail is Param,
        r.body_limit is None,
        r.cors == CorsPolicy::Read,
{
    RouteSpec {
        method: HttpMethod::Get,
        root: "orders".to_owned(),
        tail: PathTail::Param,
        body_limit: None,
        cors: CorsPolicy::Read,
    }
}

/// POST /orders/send — adds an order; write policy, body limited to the
/// configured size.
pub fn orders_send(body_limit: u64) -> (r: RouteSpec)
    ensures
        r.method == HttpMethod::Post,
        r.root@ == "orders"@,
        r.tail matches PathTail::Literal(s) && s@ == "send"@,
        r.body_limit == Some(body_limit),
        r.cors == CorsPolicy::Write,
{
    RouteSpec {
        method: HttpMethod::Post,
        root: "orders".to_owned(),
        tail: PathTail::Literal("send".to_owned()),
        body_limit: Some(body_limit),
        cors: CorsPolicy::Write,
    }
}

/// Law: the matcher binds exactly the five declared routes — each target
/// is produced precisely for its own method and path shape, and nothing
/// else matches.
pub proof fn lemma_match_route_exact(m: HttpMethod, segs: Seq<Seq<char>>)
    ensures
        (spec_match_route(m, segs) == Some(RouteTargetModel::Listings)) <==> (m == HttpMethod::Get
            && segs =~= seq!["listings"@]),
        (spec_match_route(m, segs) == Some(RouteTargetModel::ListingSend)) <==> (m
            == HttpMethod::Post && segs =~= seq!["listings"@, "send"@]),
        (spec_match_route(m, segs) matches Some(t) && t is ListingById) <==> (m == HttpMethod::Get
            && segs.len() == 2 && segs[0] == "listings"@),
        (spec_match_route(m, segs) == Some(RouteTargetModel::OrdersSend)) <==> (m
            == HttpMethod::Post && segs =~= seq!["orders"@, "send"@]),
        (spec_match_route(m, segs) matches Some(t) && t is OrdersById) <==> (m == HttpMethod::Get
            && segs.len() == 2 && segs[0] == "orders"@),
{
    reveal_strlit("listings");
    reveal_strlit("orders");
    assert("orders"@.len() == 6);
    assert("listings"@.len() == 8);
}

/// What the transport handed over as the request body, after the route
/// layer's own deserialization step: nothing (the read routes), a body
/// read as one of the two entities, or a body that matched neither the
/// expected entity nor valid JSON.
pub enum BodyOutcome {
    Absent,
    ParsedListing(Listing),
    ParsedOrder(Order),
    Malformed,
}

/// Mathematical image of a [`BodyOutcome`].
pub enum BodyOutcomeModel {
    Absent,
    ParsedListing(ListingModel),
    ParsedOrder(OrderModel),
    Malformed,
}

impl View for BodyOutcome {
    type V = BodyOutcomeModel;

    open spec fn view(&self) -> BodyOutcomeModel {
        match self {
            BodyOutcome::Absent => BodyOutcomeModel::Absent,
            BodyOutcome::ParsedListing(l) => BodyOutcomeModel::ParsedListing(l@),
            BodyOutcome::ParsedOrder(o) => BodyOutcomeModel::ParsedOrder(o@),
            BodyOutcome::Malformed => BodyOutcomeModel::Malformed,
        }
    }
}

/// The store state after a successful add of a listing.
pub open spec fn spec_store_after_add_listing(s: StoreModel, l: ListingModel) -> StoreModel {
    if s.failure is None {
        StoreModel { listings: s.listings.push(l), ..s }
    } else {
        s
    }
}

/// The store state after a successful add of an order.
pub open spec fn spec_store_after_add_order(s: StoreModel, o: OrderModel) -> StoreModel {
    if s.failure is None {
        StoreModel { orders: s.orders.push(o), ..s }
    } else {
        s
    }
}

/// The functional model of one request through the whole pipeline: the
/// store state after the request together with the reply. Requests that
/// do not reach a handler — an unmatched route, an oversized body, a body
/// that is not the expected entity — leave the store untouched and answer
/// with the matching rejection envelope; the store is consulted only after
/// every route-level check has passed.
pub open spec fn spec_serve(
    s: StoreModel,
    m: HttpMethod,
    segs: Seq<Seq<char>>,
    content_length: int,
    body_limit: int,
    body: BodyOutcomeModel,
) -> (StoreModel, JsonReplyModel) {
    match spec_match_route(m, segs) {
        None => (s, spec_rejection_reply(Rejection::RouteNotFound)),
        Some(t) => match t {
            RouteTargetModel::Listings => (s, spec_listings_reply(s)),
            RouteTargetModel::ListingById(id) => (s, spec_listing_by_id_reply(s, id)),
            RouteTargetModel::OrdersById(id) => (s, spec_orders_by_id_reply(s, id)),
            RouteTargetModel::ListingSend => {
                if content_length > body_limit {
                    (s, spec_rejection_reply(Rejection::PayloadTooLarge))
                } else {
                    match body {
                        BodyOutcomeModel::ParsedListing(l) => (
                            spec_store_after_add_listing(s, l),
                            spec_listing_send_reply(s, l),
                        ),
                        _ => (s, spec_rejection_reply(Rejection::MalformedBody)),
                    }
                }
            },
            RouteTargetModel::OrdersSend => {
                if content_length > body_limit {
                    (s, spec_rejection_reply(Rejection::PayloadTooLarge))
                } else {
                    match body {
                        BodyOutcomeModel::ParsedOrder(o) => (
                            spec_store_after_add_order(s, o),
                            spec_orders_send_reply(s, o),
                        ),
                        _ => (s, spec_rejection_reply(Rejection::MalformedBody)),
                    }
                }
            },
        },
    }
}

/// Runs one request through the route table, the route-level checks and
/// the matched handler, and returns the one reply every request gets.
///
/// The contract equates the call with [`spec_serve`] on the request's
/// model: in particular a write route whose declared body length exceeds
/// the configured limit is rejected before the store is consulted, and no
/// request on a read route changes the store.
pub fn serve(
    db: &mut MarketStore,
    cache: &CacheConnection,
    cf: &CFilterConnection,
    method: HttpMethod,
    segments: &Vec<String>,
    content_length: u64,
    body_limit: u64,
    body: BodyOutcome,
) -> (r: JsonReply)
    ensures
        ({
            let (s2, rep) = spec_serve(
                old(db)@,
                method,
                segment_views(segments@),
                content_length as int,
                body_limit as int,
                body@,
            );
            final(db)@ == s2 && r@ == rep
        }),
{
    match match_route(method, segments) {
        None => handle_rejection(Rejection::RouteNotFound),
        Some(RouteTarget::Listings) => map_api_res(listings_handler(db, cache)),
        Some(RouteTarget::ListingById(id)) => map_api_res(
            listing_by_id_handler(id, db, cache, cf),
        ),
        Some(RouteTarget::OrdersById(id)) => map_api_res(orders_by_id_handler(id, db, cache, cf)),
        Some(RouteTarget::ListingSend) => {
            if content_length > body_limit {
                handle_rejection(Rejection::PayloadTooLarge)
            } else {
                match body {
                    BodyOutcome::ParsedListing(l) => map_api_res(
                        listing_send_handler(l, db, cache, cf),
                    ),
                    _ => handle_rejection(Rejection::MalformedBody),
                }
            }
        },
        Some(RouteTarget::OrdersSend) => {
            if content_length > body_limit {
                handle_rejection(Rejection::PayloadTooLarge)
            } else {
                match body {
                    BodyOutcome::ParsedOrder(o) => map_api_res(
                        orders_send_handler(o, db, cache, cf),
                    ),
                    _ => handle_rejection(Rejection::MalformedBody),
                }
            }
        },
    }
}

} // verus!
