//! Verified rendering of the response envelope to its JSON wire bytes.
//!
//! Every route answers with the JSON envelope `{status, message, data?}`
//! on success and `{status, kind, message}` on error; that shape is part
//! of this library's wire contract, so the bytes are produced here, under
//! proof, rather than by the transport. Text is escaped as JSON requires:
//! quote and backslash get a backslash, control bytes become `\u00XX`;
//! all other UTF-8 bytes pass through unchanged.

use vstd::prelude::*;
use vstd::utf8::encode_utf8;
use crate::entities::{Listing, ListingModel, Order, OrderModel, listing_models, order_models};
use crate::envelope::{Envelope, EnvelopeModel, Payload, PayloadModel, spec_kind_tag,
    spec_status_tag};

verus! {

/// The lowercase hex digit of a value below 16.
pub open spec fn spec_hex_digit(n: u8) -> u8 {
    if n < 10 {
        (48 + n) as u8
    } else {
        (87 + n) as u8
    }
}

/// The JSON escape of one byte of UTF-8 text.
pub open spec fn spec_escaped_byte(b: u8) -> Seq<u8> {
    if b == 34 {
        seq![92u8, 34u8]
    } else if b == 92 {
        seq![92u8, 92u8]
    } else if b < 32 {
        seq![92u8, 117u8, 48u8, 48u8, spec_hex_digit(b / 16), spec_hex_digit(b % 16)]
    } else {
        seq![b]
    }
}

/// The JSON escape of a byte sequence of UTF-8 text.
pub open spec fn spec_escaped(s: Seq<u8>) -> Seq<u8>
    decreases s.len(),
{
    if s.len() == 0 {
        Seq::empty()
    } else {
        spec_escaped(s.drop_last()) + spec_escaped_byte(s.last())
    }
}

/// The JSON string literal of a text: its escaped UTF-8 bytes in quotes.
pub open spec fn spec_json_string(s: Seq<char>) -> Seq<u8> {
    seq![34u8] + spec_escaped(encode_utf8(s)) + seq![34u8]
}

/// The decimal digits of a non-negative integer.
pub open spec fn spec_decimal(n: int) -> Seq<u8>
    decreases n,
{
    if n < 10 {
        seq![(48 + n) as u8]
    } else {
        spec_decimal(n / 10).push((48 + n % 10) as u8)
    }
}

/// The JSON rendering of a boolean.
pub open spec fn spec_bool_json(b: bool) -> Seq<u8> {
    if b {
        encode_utf8("true"@)
    } else {
        encode_utf8("false"@)
    }
}

/// Appends the UTF-8 bytes of a text verbatim.
fn push_str_bytes(out: &mut Vec<u8>, s: &str)
    ensures
        final(out)@ == old(out)@ + encode_utf8(s@),
{
    let bytes = s.as_bytes();
    let n = bytes.len();
    let mut i: usize = 0;
    proof {
        assert(out@ + bytes@.take(0) =~= out@);
    }
    while i < n
        invariant
            i <= n,
            n == bytes@.len(),
            bytes@ == encode_utf8(s@),
            out@ == old(out)@ + bytes@.take(i as int),
        decreases n - i,
    {
        out.push(bytes[i]);
        i = i + 1;
        proof {
            assert(out@ =~= old(out)@ + bytes@.take(i as int));
        }
    }
    proof {
        assert(bytes@.take(n as int) =~= bytes@);
    }
}

/// Appends one lowercase hex digit.
fn push_hex_digit(out: &mut Vec<u8>, n: u8)
    requires
        n < 16,
    ensures
        final(out)@ == old(out)@.push(spec_hex_digit(n)),
{
    if n < 10 {
        out.push(48 + n);
    } else {
        out.push(87 + n);
    }
}

/// Appends the decimal digits of a number.
fn push_decimal(out: &mut Vec<u8>, n: u64)
    ensures
        final(out)@ == old(out)@ + spec_decimal(n as int),
    decreases n,
{
    if n < 10 {
        out.push(48 + n as u8);
        proof {
            assert(out@ =~= old(out)@ + spec_decimal(n as int));
        }
    } else {
        proof {
            assert(n / 10 < n && (n as int) / 10 == (n / 10) as int) by (nonlinear_arith)
                requires
                    n >= 10,
            ;
        }
        push_decimal(out, n / 10);
        out.push(48 + (n % 10) as u8);
        proof {
            assert(out@ =~= old(out)@ + spec_decimal(n as int));
        }
    }
}

/// Appends the JSON string literal of a text, escaping as it goes.
fn push_json_string(out: &mut Vec<u8>, s: &str)
    ensures
        final(out)@ == old(out)@ + spec_json_string(s@),
{
    out.push(34);
    let bytes = s.as_bytes();
    let n = bytes.len();
    let mut i: usize = 0;
    proof {
        assert(out@ =~= old(out)@ + seq![34u8] + spec_escaped(bytes@.take(0)));
    }
    while i < n
        invariant
            i <= n,
            n == bytes@.len(),
            bytes@ == encode_utf8(s@),
            out@ == old(out)@ + seq![34u8] + spec_escaped(bytes@.take(i as int)),
        decreases n - i,
    {
        let b = bytes[i];
        if b == 34 {
            out.push(92);
            out.push(34);
        } else if b == 92 {
            out.push(92);
            out.push(92);
        } else if b < 32 {
            out.push(92);
            out.push(117);
            out.push(48);
            out.push(48);
            push_hex_digit(out, b / 16);
            push_hex_digit(out, b % 16);
        } else {
            out.push(b);
        }
        i = i + 1;
        proof {
            assert(bytes@.take(i as int).drop_last() =~= bytes@.take(i - 1));
            assert(bytes@.take(i as int).last() == bytes@[i - 1]);
            assert(out@ =~= old(out)@ + seq![34u8] + spec_escaped(bytes@.take(i as int)));
        }
    }
    out.push(34);
    proof {
        assert(bytes@.take(n as int) =~= bytes@);
        assert(out@ =~= old(out)@ + spec_json_string(s@));
    }
}

/// Appends the JSON rendering of a boolean.
fn push_bool(out: &mut Vec<u8>, b: bool)
    ensures
        final(out)@ == old(out)@ + spec_bool_json(b),
{
    if b {
        push_str_bytes(out, "true");
    } else {
        push_str_bytes(out, "false");
    }
}

/// The JSON object of a listing.
pub open spec fn spec_listing_json(l: ListingModel) -> Seq<u8> {
    encode_utf8("{\"id\":"@) + spec_json_string(l.id) + encode_utf8(",\"seller\":"@)
        + spec_json_string(l.seller) + encode_utf8(",\"price\":"@) + spec_decimal(l.price)
        + encode_utf8(",\"metadata\":"@) + spec_json_string(l.metadata) + encode_utf8("}"@)
}

/// The JSON object of an order.
pub open spec fn spec_order_json(o: OrderModel) -> Seq<u8> {
    encode_utf8("{\"id\":"@) + spec_json_string(o.id) + encode_utf8(",\"listing_id\":"@)
        + spec_json_string(o.listing_id) + encode_utf8(",\"quantity\":"@) + spec_decimal(
        o.quantity,
    ) + encode_utf8(",\"price\":"@) + spec_decimal(o.price) + encode_utf8(",\"pending\":"@)
        + spec_bool_json(o.pending) + encode_utf8("}"@)
}

/// The comma-joined JSON objects of a listing sequence.
pub open spec fn spec_listing_items(s: Seq<ListingModel>) -> Seq<u8>
    decreases s.len(),
{
    if s.len() == 0 {
        Seq::empty()
    } else if s.len() == 1 {
        spec_listing_json(s[0])
    } else {
        spec_listing_items(s.drop_last()) + encode_utf8(","@) + spec_listing_json(s.last())
    }
}

/// The JSON array of a listing sequence.
pub open spec fn spec_listings_json(s: Seq<ListingModel>) -> Seq<u8> {
    encode_utf8("["@) + spec_listing_items(s) + encode_utf8("]"@)
}

/// The comma-joined JSON objects of an order sequence.
pub open spec fn spec_order_items(s: Seq<OrderModel>) -> Seq<u8>
    decreases s.len(),
{
    if s.len() == 0 {
        Seq::empty()
    } else if s.len() == 1 {
        spec_order_json(s[0])
    } else {
        spec_order_items(s.drop_last()) + encode_utf8(","@) + spec_order_json(s.last())
    }
}

/// The JSON array of an order sequence.
pub open spec fn spec_orders_json(s: Seq<OrderModel>) -> Seq<u8> {
    encode_utf8("["@) + spec_order_items(s) + encode_utf8("]"@)
}

/// The JSON rendering of a success payload.
pub open spec fn spec_payload_json(p: PayloadModel) -> Seq<u8> {
    match p {
        PayloadModel::Listings(s) => spec_listings_json(s),
        PayloadModel::OneListing(l) => spec_listing_json(l),
        PayloadModel::Orders(s) => spec_orders_json(s),
        PayloadModel::OneOrder(o) => spec_order_json(o),
    }
}

/// The JSON wire bytes of a whole envelope: `kind` appears exactly on
/// error envelopes, `data` exactly on those that carry a payload.
pub open spec fn spec_envelope_json(e: EnvelopeModel) -> Seq<u8> {
    encode_utf8("{\"status\":"@) + spec_json_string(spec_status_tag(e.status)) + (match e.kind {
        Some(k) => encode_utf8(",\"kind\":"@) + spec_json_string(spec_kind_tag(k)),
        None => Seq::<u8>::empty(),
    }) + encode_utf8(",\"message\":"@) + spec_json_string(e.message) + (match e.data {
        Some(p) => encode_utf8(",\"data\":"@) + spec_payload_json(p),
        None => Seq::<u8>::empty(),
    }) + encode_utf8("}"@)
}

/// Appends the JSON object of a listing.
fn push_listing_json(out: &mut Vec<u8>, l: &Listing)
    ensures
        final(out)@ == old(out)@ + spec_listing_json(l@),
{
    push_str_bytes(out, "{\"id\":");
    push_json_string(out, l.id.as_str());
    push_str_bytes(out, ",\"seller\":");
    push_json_string(out, l.seller.as_str());
    push_str_bytes(out, ",\"price\":");
    push_decimal(out, l.price);
    push_str_bytes(out, ",\"metadata\":");
    push_json_string(out, l.metadata.as_str());
    push_str_bytes(out, "}");
    proof {
        assert(out@ =~= old(out)@ + spec_listing_json(l@));
    }
}

/// Appends the JSON object of an order.
fn push_order_json(out: &mut Vec<u8>, o: &Order)
    ensures
        final(out)@ == old(out)@ + spec_order_json(o@),
{
    push_str_bytes(out, "{\"id\":");
    push_json_string(out, o.id.as_str());
    push_str_bytes(out, ",\"listing_id\":");
    push_json_string(out, o.listing_id.as_str());
    push_str_bytes(out, ",\"quantity\":");
    push_decimal(out, o.quantity);
    push_str_bytes(out, ",\"price\":");
    push_decimal(out, o.price);
    push_str_bytes(out, ",\"pending\":");
    push_bool(out, o.pending);
    push_str_bytes(out, "}");
    proof {
        assert(out@ =~= old(out)@ + spec_order_json(o@));
    }
}

/// Appends the JSON array of a listing vector.
fn push_listings_json(out: &mut Vec<u8>, ls: &Vec<Listing>)
    ensures
        final(out)@ == old(out)@ + spec_listings_json(listing_models(ls@)),
{
    push_str_bytes(out, "[");
    let n = ls.len();
    let mut i: usize = 0;
    proof {
        assert(out@ =~= old(out)@ + encode_utf8("["@) + spec_listing_items(
            listing_models(ls@).take(0),
        ));
    }
    while i < n
        invariant
            i <= n,
            n == ls@.len(),
            out@ == old(out)@ + encode_utf8("["@) + spec_listing_items(
                listing_models(ls@).take(i as int),
            ),
        decreases n - i,
    {
        if i > 0 {
            push_str_bytes(out, ",");
        }
        push_listing_json(out, &ls[i]);
        i = i + 1;
        proof {
            let ghost s = listing_models(ls@);
            assert(s[i - 1] == ls@[i - 1]@);
            assert(s.take(i as int).drop_last() =~= s.take(i - 1));
            assert(s.take(i as int).last() == s[i - 1]);
            assert(out@ =~= old(out)@ + encode_utf8("["@) + spec_listing_items(
                s.take(i as int),
            ));
        }
    }
    push_str_bytes(out, "]");
    proof {
        assert(listing_models(ls@).take(n as int) =~= listing_models(ls@));
        assert(out@ =~= old(out)@ + spec_listings_json(listing_models(ls@)));
    }
}

/// Appends the JSON array of an order vector.
fn push_orders_json(out: &mut Vec<u8>, os: &Vec<Order>)
    ensures
        final(out)@ == old(out)@ + spec_orders_json(order_models(os@)),
{
    push_str_bytes(out, "[");
    let n = os.len();
    let mut i: usize = 0;
    proof {
        assert(out@ =~= old(out)@ + encode_utf8("["@) + spec_order_items(
            order_models(os@).take(0),
        ));
    }
    while i < n
        invariant
            i <= n,
            n == os@.len(),
            out@ == old(out)@ + encode_utf8("["@) + spec_order_items(
                order_models(os@).take(i as int),
            ),
        decreases n - i,
    {
        if i > 0 {
            push_str_bytes(out, ",");
        }
        push_order_json(out, &os[i]);
        i = i + 1;
        proof {
            let ghost s = order_models(os@);
            assert(s[i - 1] == os@[i - 1]@);
            assert(s.take(i as int).drop_last() =~= s.take(i - 1));
            assert(s.take(i as int).last() == s[i - 1]);
            assert(out@ =~= old(out)@ + encode_utf8("["@) + spec_order_items(s.take(i as int)));
        }
    }
    push_str_bytes(out, "]");
    proof {
        assert(order_models(os@).take(n as int) =~= order_models(os@));
        assert(out@ =~= old(out)@ + spec_orders_json(order_models(os@)));
    }
}

/// Appends the JSON rendering of a success payload.
fn push_payload_json(out: &mut Vec<u8>, p: &Payload)
    ensures
        final(out)@ == old(out)@ + spec_payload_json(p@),
{
    match p {
        Payload::Listings(ls) => push_listings_json(out, ls),
        Payload::OneListing(l) => push_listing_json(out, l),
        Payload::Orders(os) => push_orders_json(out, os),
        Payload::OneOrder(o) => push_order_json(out, o),
    }
}

impl Envelope {
    /// The JSON wire bytes of this envelope, exactly as
    /// [`spec_envelope_json`] states them.
    pub fn to_json_bytes(&self) -> (r: Vec<u8>)
        ensures
            r@ == spec_envelope_json(self@),
    {
        let mut out: Vec<u8> = Vec::new();
        push_str_bytes(&mut out, "{\"status\":");
        let tag = self.status.wire_tag();
        push_json_string(&mut out, tag.as_str());
        match &self.kind {
            Some(k) => {
                push_str_bytes(&mut out, ",\"kind\":");
                let ktag = k.wire_tag();
                push_json_string(&mut out, ktag.as_str());
            },
            None => {},
        }
        push_str_bytes(&mut out, ",\"message\":");
        push_json_string(&mut out, self.message.as_str());
        match &self.data {
            Some(p) => {
                push_str_bytes(&mut out, ",\"data\":");
                push_payload_json(&mut out, p);
            },
            None => {},
        }
        push_str_bytes(&mut out, "}");
        proof {
            assert(out@ =~= spec_envelope_json(self@));
        }
        out
    }
}

} // verus!
