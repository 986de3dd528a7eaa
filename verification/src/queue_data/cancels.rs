//! Cancel requests and their confirmations.

use crate::queue_data::data_core::{QueueClass, QueueData};
use vstd::prelude::*;

verus! {

/// A request to cancel the order that the exchange knows as `order_id`.
#[derive(Debug, Clone, PartialEq, Eq)]
pub struct CancelOrderMessage {
    pub order_id: String,
    pub client_order_id: String,
}

impl QueueData for CancelOrderMessage {
    open spec fn spec_class() -> QueueClass {
        QueueClass::Cancel
    }

    fn class() -> QueueClass {
        QueueClass::Cancel
    }
}

/// The exchange's confirmation that an order was cancelled.
#[derive(Debug, Clone, PartialEq, Eq)]
pub struct CancelConfirmMessage {
    pub order_id: String,
    pub client_order_id: String,
}

impl QueueData for CancelConfirmMessage {
    open spec fn spec_class() -> QueueClass {
        QueueClass::CancelConfirm
    }

    fn class() -> QueueClass {
        QueueClass::CancelConfirm
    }
}

} // verus!
