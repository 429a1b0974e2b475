//! Domain entities exchanged over the wire and kept in the data store.

use vstd::prelude::*;

verus! {

/// A sellable item record. The identifier is the sole key used to look the
/// listing up and to find its orders; the remaining fields are carried
/// through this layer unchanged.
#[derive(Debug)]
pub struct Listing {
    pub id: String,
    pub seller: String,
    pub price: u64,
    pub metadata: String,
}

/// Mathematical image of a [`Listing`]: every string as its character
/// sequence, the price as an unbounded integer.
pub struct ListingModel {
    pub id: Seq<char>,
    pub seller: Seq<char>,
    pub price: int,
    pub metadata: Seq<char>,
}

impl View for Listing {
    type V = ListingModel;

    open spec fn view(&self) -> ListingModel {
        ListingModel {
            id: self.id@,
            seller: self.seller@,
            price: self.price as int,
            metadata: self.metadata@,
        }
    }
}

impl Listing {
    /// An owned copy with the same model.
    pub fn dup(&self) -> (r: Listing)
        ensures
            r@ == self@,
    {
        Listing {
            id: self.id.clone(),
            seller: self.seller.clone(),
            price: self.price,
            metadata: self.metadata.clone(),
        }
    }
}

/// A trade intent against a listing. `listing_id` references the target
/// listing's identifier; `pending` marks an order that has not yet settled.
#[derive(Debug)]
pub struct Order {
    pub id: String,
    pub listing_id: String,
    pub quantity: u64,
    pub price: u64,
    pub pending: bool,
}

/// Mathematical image of an [`Order`].
pub struct OrderModel {
    pub id: Seq<char>,
    pub listing_id: Seq<char>,
    pub quantity: int,
    pub price: int,
    pub pending: bool,
}

impl View for Order {
    type V = OrderModel;

    open spec fn view(&self) -> OrderModel {
        OrderModel {
            id: self.id@,
            listing_id: self.listing_id@,
            quantity: self.quantity as int,
            price: self.price as int,
            pending: self.pending,
        }
    }
}

impl Order {
    /// An owned copy with the same model.
    pub fn dup(&self) -> (r: Order)
        ensures
            r@ == self@,
    {
        Order {
            id: self.id.clone(),
            listing_id: self.listing_id.clone(),
            quantity: self.quantity,
            price: self.price,
            pending: self.pending,
        }
    }
}

/// The models of a sequence of listings, in the same order.
pub open spec fn listing_models(s: Seq<Listing>) -> Seq<ListingModel> {
    s.map_values(|l: Listing| l@)
}

/// The models of a sequence of orders, in the same order.
pub open spec fn order_models(s: Seq<Order>) -> Seq<OrderModel> {
    s.map_values(|o: Order| o@)
}

/// Appending a listing and taking models commute.
pub proof fn lemma_listing_models_push(s: Seq<Listing>, l: Listing)
    ensures
        listing_models(s.push(l)) == listing_models(s).push(l@),
{
    assert(listing_models(s.push(l)) =~= listing_models(s).push(l@));
}

/// Appending an order and taking models commute.
pub proof fn lemma_order_models_push(s: Seq<Order>, o: Order)
    ensures
        order_models(s.push(o)) == order_models(s).push(o@),
{
    assert(order_models(s.push(o)) =~= order_models(s).push(o@));
}

} // verus!
