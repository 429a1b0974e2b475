//! The uniform success/error response envelope and its HTTP status mapping.
//!
//! Every route answers with a [`JsonReply`]: an HTTP status code together
//! with an [`Envelope`] body. The envelope is the only path by which a
//! handler communicates with the route layer.

use vstd::prelude::*;
use crate::entities::{Listing, ListingModel, Order, OrderModel, listing_models, order_models};

verus! {

/// Wire-level outcome tag: serialized as `"ok"` on success and `"error"`
/// on failure.
#[derive(Clone, Copy, PartialEq, Eq, Structural, Debug)]
pub enum ApiStatus {
    Success,
    Failure,
}

/// The error taxonomy surfaced by this layer. Every store failure, read or
/// write, is deliberately flattened to [`ApiErrorType::DbInsertionFailed`];
/// the remaining variants are malformed-request failures raised by the
/// route layer before any handler runs.
#[derive(Clone, Copy, PartialEq, Eq, Structural, Debug)]
pub enum ApiErrorType {
    /// The data store reported a failure during an insert or a query.
    DbInsertionFailed,
    /// No route matches the request's method and path.
    RouteNotFound,
    /// The request body exceeds the configured size limit.
    PayloadTooLarge,
    /// The request body could not be read as the expected entity.
    MalformedBody,
}

/// The wire tag of a status: `"ok"` for success, `"error"` for failure.
pub open spec fn spec_status_tag(status: ApiStatus) -> Seq<char> {
    match status {
        ApiStatus::Success => "ok"@,
        ApiStatus::Failure => "error"@,
    }
}

impl ApiStatus {
    /// The tag this status is serialized as.
    pub fn wire_tag(&self) -> (r: String)
        ensures
            r@ == spec_status_tag(*self),
    {
        match self {
            ApiStatus::Success => "ok".to_owned(),
            ApiStatus::Failure => "error".to_owned(),
        }
    }
}

/// The stable wire tag of an error kind.
pub open spec fn spec_kind_tag(kind: ApiErrorType) -> Seq<char> {
    match kind {
        ApiErrorType::DbInsertionFailed => "db_insertion_failed"@,
        ApiErrorType::RouteNotFound => "route_not_found"@,
        ApiErrorType::PayloadTooLarge => "payload_too_large"@,
        ApiErrorType::MalformedBody => "malformed_body"@,
    }
}

impl ApiErrorType {
    /// The tag this kind is serialized as.
    pub fn wire_tag(&self) -> (r: String)
        ensures
            r@ == spec_kind_tag(*self),
    {
        match self {
            ApiErrorType::DbInsertionFailed => "db_insertion_failed".to_owned(),
            ApiErrorType::RouteNotFound => "route_not_found".to_owned(),
            ApiErrorType::PayloadTooLarge => "payload_too_large".to_owned(),
            ApiErrorType::MalformedBody => "malformed_body".to_owned(),
        }
    }
}

/// Law: distinct error kinds carry distinct wire tags, so the `kind` field
/// alone identifies the failure.
pub proof fn lemma_kind_tags_distinct(k1: ApiErrorType, k2: ApiErrorType)
    requires
        k1 != k2,
    ensures
        spec_kind_tag(k1) != spec_kind_tag(k2),
{
    reveal_strlit("db_insertion_failed");
    reveal_strlit("route_not_found");
    reveal_strlit("payload_too_large");
    reveal_strlit("malformed_body");
    assert("db_insertion_failed"@.len() == 19);
    assert("route_not_found"@.len() == 15);
    assert("payload_too_large"@.len() == 17);
    assert("malformed_body"@.len() == 14);
}

/// HTTP status code that an error envelope of the given kind carries.
pub open spec fn spec_status_code_of(kind: ApiErrorType) -> u16 {
    match kind {
        ApiErrorType::DbInsertionFailed => 500,
        ApiErrorType::RouteNotFound => 404,
        ApiErrorType::PayloadTooLarge => 413,
        ApiErrorType::MalformedBody => 400,
    }
}

/// Maps an error kind to its HTTP status code: the single store-failure
/// kind to a server error, the malformed-request kinds to client errors.
pub fn status_code_of(kind: ApiErrorType) -> (r: u16)
    ensures
        r == spec_status_code_of(kind),
        kind == ApiErrorType::DbInsertionFailed ==> 500 <= r < 600,
        kind != ApiErrorType::DbInsertionFailed ==> 400 <= r < 500,
{
    match kind {
        ApiErrorType::DbInsertionFailed => 500,
        ApiErrorType::RouteNotFound => 404,
        ApiErrorType::PayloadTooLarge => 413,
        ApiErrorType::MalformedBody => 400,
    }
}

/// The serialized payload carried in a success envelope's `data` field:
/// exactly what the store call returned (or, for add operations, the echoed
/// input).
#[derive(Debug)]
pub enum Payload {
    Listings(Vec<Listing>),
    OneListing(Listing),
    Orders(Vec<Order>),
    OneOrder(Order),
}

/// Mathematical image of a [`Payload`].
pub enum PayloadModel {
    Listings(Seq<ListingModel>),
    OneListing(ListingModel),
    Orders(Seq<OrderModel>),
    OneOrder(OrderModel),
}

impl View for Payload {
    type V = PayloadModel;

    open spec fn view(&self) -> PayloadModel {
        match self {
            Payload::Listings(ls) => PayloadModel::Listings(listing_models(ls@)),
            Payload::OneListing(l) => PayloadModel::OneListing(l@),
            Payload::Orders(os) => PayloadModel::Orders(order_models(os@)),
            Payload::OneOrder(o) => PayloadModel::OneOrder(o@),
        }
    }
}

/// The uniform response body: `{status, message, data}` on success,
/// `{status, kind, message}` on error.
#[derive(Debug)]
pub struct Envelope {
    pub status: ApiStatus,
    pub kind: Option<ApiErrorType>,
    pub message: String,
    pub data: Option<Payload>,
}

/// Mathematical image of an [`Envelope`].
pub struct EnvelopeModel {
    pub status: ApiStatus,
    pub kind: Option<ApiErrorType>,
    pub message: Seq<char>,
    pub data: Option<PayloadModel>,
}

impl View for Envelope {
    type V = EnvelopeModel;

    open spec fn view(&self) -> EnvelopeModel {
        EnvelopeModel {
            status: self.status,
            kind: self.kind,
            message: self.message@,
            data: match self.data {
                Some(p) => Some(p@),
                None => None,
            },
        }
    }
}

/// A complete route answer: HTTP status code plus envelope body.
#[derive(Debug)]
pub struct JsonReply {
    pub status_code: u16,
    pub body: Envelope,
}

/// Mathematical image of a [`JsonReply`].
pub struct JsonReplyModel {
    pub status_code: u16,
    pub body: EnvelopeModel,
}

impl View for JsonReply {
    type V = JsonReplyModel;

    open spec fn view(&self) -> JsonReplyModel {
        JsonReplyModel { status_code: self.status_code, body: self.body@ }
    }
}

/// The success reply a handler produces: HTTP 200, status tag `ok`, no
/// error kind, the operation's message, and the payload.
pub open spec fn spec_ok_reply(message: Seq<char>, data: PayloadModel) -> JsonReplyModel {
    JsonReplyModel {
        status_code: 200,
        body: EnvelopeModel {
            status: ApiStatus::Success,
            kind: None,
            message: message,
            data: Some(data),
        },
    }
}

/// The stable, non-leaking message carried by every internal-error reply.
pub open spec fn spec_internal_error_message() -> Seq<char> {
    "Internal server error"@
}

/// The error reply a handler produces for a store failure: the kind's
/// status code, status tag `error`, the kind, the stable message, no data.
/// No detail of the underlying failure appears anywhere in it.
pub open spec fn spec_internal_err_reply(kind: ApiErrorType) -> JsonReplyModel {
    JsonReplyModel {
        status_code: spec_status_code_of(kind),
        body: EnvelopeModel {
            status: ApiStatus::Failure,
            kind: Some(kind),
            message: spec_internal_error_message(),
            data: None,
        },
    }
}

/// Per-request envelope context, tagged with the operation's name. The tag
/// serves the caller's logging; it is not part of the wire format.
pub struct CallResponse {
    pub op: String,
}

impl CallResponse {
    /// Constructs the envelope context for one handler invocation.
    pub fn new(op: &str) -> (r: CallResponse)
        ensures
            r.op@ == op@,
    {
        CallResponse { op: op.to_owned() }
    }

    /// Returns the success envelope for this call: never fails, embeds the
    /// payload as is.
    pub fn into_ok(self, message: &str, data: Payload) -> (r: Result<JsonReply, JsonReply>)
        ensures
            r matches Ok(reply) && reply@ == spec_ok_reply(message@, data@),
    {
        Ok(JsonReply {
            status_code: 200,
            body: Envelope {
                status: ApiStatus::Success,
                kind: None,
                message: message.to_owned(),
                data: Some(data),
            },
        })
    }

    /// Returns the error envelope for an internal failure: a 5xx-class
    /// status for the store-failure kind, a stable message that forwards no
    /// detail of the underlying error.
    pub fn into_err_internal(self, kind: ApiErrorType) -> (r: Result<JsonReply, JsonReply>)
        ensures
            r matches Err(reply) && reply@ == spec_internal_err_reply(kind),
    {
        let code = status_code_of(kind);
        Err(JsonReply {
            status_code: code,
            body: Envelope {
                status: ApiStatus::Failure,
                kind: Some(kind),
                message: "Internal server error".to_owned(),
                data: None,
            },
        })
    }
}

/// Collapses a handler's two-sided result into the one reply that is
/// written to the transport; success and failure carry the same shape.
pub fn map_api_res(r: Result<JsonReply, JsonReply>) -> (reply: JsonReply)
    ensures
        match r {
            Ok(ok_reply) => reply@ == ok_reply@,
            Err(err_reply) => reply@ == err_reply@,
        },
{
    match r {
        Ok(reply) => reply,
        Err(reply) => reply,
    }
}

} // verus!
