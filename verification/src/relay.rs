//! What the exchange connector relays with a fill.
//!
//! The exchange reports a fill under its own order identifier. The gateway
//! routes by the composite identifier under which the order was placed. The
//! connector therefore remembers, for every order it placed, the composite
//! identifier that the exchange confirmed, and puts it on each fill of that
//! order before the fill goes to the fill queue.

use crate::queue_data::fills::FillMessage;
use vstd::hash_map::StringHashMap;
use vstd::prelude::*;
use vstd::string::*;

verus! {

/// The composite identifier of each order that was placed, by the order
/// identifier that the exchange gave it.
pub struct PlacedOrders {
    composites: StringHashMap<String>,
}

impl View for PlacedOrders {
    type V = Map<Seq<char>, Seq<char>>;

    closed spec fn view(&self) -> Map<Seq<char>, Seq<char>> {
        self.composites@.map_values(|composite: String| composite@)
    }
}

/// The composite identifier under which the order `order_id` was placed, or
/// `None` where no such order is known.
pub open spec fn spec_composite_of(
    orders: Map<Seq<char>, Seq<char>>,
    order_id: Seq<char>,
) -> Option<Seq<char>> {
    if orders.contains_key(order_id) {
        Some(orders[order_id])
    } else {
        None
    }
}

impl PlacedOrders {
    /// No order has been placed yet.
    pub fn new() -> (orders: Self)
        ensures
            orders@ == Map::<Seq<char>, Seq<char>>::empty(),
    {
        let orders = PlacedOrders { composites: StringHashMap::new() };
        assert(orders@ =~= Map::<Seq<char>, Seq<char>>::empty());
        orders
    }

    /// Remembers that the order which the exchange knows as `order_id` was
    /// placed under the composite identifier `composite`. What was
    /// remembered of that order before is replaced; every other order stays.
    pub fn record(&mut self, order_id: String, composite: String)
        ensures
            final(self)@ == old(self)@.insert(order_id@, composite@),
    {
        self.composites.insert(order_id, composite);
        assert(self@ =~= old(self)@.insert(order_id@, composite@));
    }

    /// The composite identifier under which the order `order_id` was placed,
    /// or `None` where no such order is known.
    pub fn composite_of(&self, order_id: &str) -> (composite: Option<&String>)
        ensures
            composite.deep_view() == spec_composite_of(self@, order_id@),
    {
        self.composites.get(order_id)
    }

    /// Puts on a fill the composite identifier of the order that was filled,
    /// which is the one remembered for the fill's order identifier, or none
    /// where the order is not known. Nothing else in the fill changes.
    pub fn relay_fill(&self, fill: FillMessage) -> (relayed: FillMessage)
        ensures
            relayed.client_order_id.deep_view() == spec_composite_of(self@, fill.msg.order_id@),
            relayed.msg_type == fill.msg_type,
            relayed.sid == fill.sid,
            relayed.seq == fill.seq,
            relayed.msg == fill.msg,
    {
        let client_order_id = match self.composite_of(fill.msg.order_id.as_str()) {
            Some(composite) => Some(composite.clone()),
            None => None,
        };
        FillMessage {
            msg_type: fill.msg_type,
            sid: fill.sid,
            seq: fill.seq,
            client_order_id,
            msg: fill.msg,
        }
    }
}

/// A fill of an order that was placed carries the composite identifier under
/// which it was placed, until the same order identifier is recorded again.
pub proof fn lemma_recorded_order_is_relayed(
    orders: Map<Seq<char>, Seq<char>>,
    order_id: Seq<char>,
    composite: Seq<char>,
    other_order_id: Seq<char>,
)
    ensures
        spec_composite_of(orders.insert(order_id, composite), order_id) == Some(composite),
        other_order_id != order_id ==> spec_composite_of(
            orders.insert(order_id, composite),
            other_order_id,
        ) == spec_composite_of(orders, other_order_id),
{
}

} // verus!
