//! Fills reported by the exchange.

use crate::queue_data::data_core::{Action, QueueClass, QueueData, Side};
use vstd::prelude::*;

verus! {

/// A fill that has occurred on a ticker.
#[derive(Debug, Clone, PartialEq, Eq)]
pub struct Fill {
    pub trade_id: String,
    pub order_id: String,
    pub market_ticker: String,
    pub is_taker: bool,
    pub side: Side,
    pub yes_price: i32,
    pub no_price: i32,
    pub count: i32,
    pub action: Action,
    pub ts: i64,
}

/// A fill as it travels through the fill queue: the exchange's envelope, the
/// composite identifier of the order that was filled, which the exchange
/// connector relays, and the fill itself.
#[derive(Debug, Clone, PartialEq, Eq)]
pub struct FillMessage {
    pub msg_type: String,
    pub sid: u32,
    pub seq: u32,
    pub client_order_id: Option<String>,
    pub msg: Fill,
}

impl QueueData for FillMessage {
    open spec fn spec_class() -> QueueClass {
        QueueClass::Fill
    }

    fn class() -> QueueClass {
        QueueClass::Fill
    }
}

} // verus!
