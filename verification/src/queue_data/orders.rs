//! Order requests and their confirmations.

use crate::queue_data::data_core::{Action, OrderType, QueueClass, QueueData, Side};
use vstd::prelude::*;

verus! {

/// A request to place an order. Towards the exchange, `client_order_id` is a
/// composite identifier; from the client it is the client's own.
#[derive(Debug, Clone, PartialEq, Eq)]
pub struct CreateOrderMessage {
    pub action: Action,
    pub client_order_id: String,
    pub count: i32,
    pub side: Side,
    pub ticker: String,
    pub order_type: OrderType,
    pub buy_max_cost: Option<i64>,
    pub expiration_ts: Option<i64>,
    pub no_price: Option<i64>,
    pub sell_position_floor: Option<i32>,
    pub yes_price: Option<i64>,
}

impl QueueData for CreateOrderMessage {
    open spec fn spec_class() -> QueueClass {
        QueueClass::Order
    }

    fn class() -> QueueClass {
        QueueClass::Order
    }
}

/// The exchange's confirmation that an order was placed. The composite
/// identifier may be absent, in which case the confirmation cannot be routed.
#[derive(Debug, Clone, PartialEq, Eq)]
pub struct OrderConfirmMessage {
    pub order_id: String,
    pub client_order_id: Option<String>,
}

impl OrderConfirmMessage {
    /// A confirmation of the order `order_id`.
    pub fn new(order_id: String, client_order_id: Option<String>) -> (confirm: Self)
        ensures
            confirm.order_id == order_id,
            confirm.client_order_id == client_order_id,
    {
        OrderConfirmMessage { order_id, client_order_id }
    }
}

impl QueueData for OrderConfirmMessage {
    open spec fn spec_class() -> QueueClass {
        QueueClass::OrderConfirm
    }

    fn class() -> QueueClass {
        QueueClass::OrderConfirm
    }
}

} // verus!
