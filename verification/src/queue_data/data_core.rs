//! Queue classes and what every queued message has in common.

use vstd::prelude::*;
use vstd::string::*;

verus! {

/// The fixed categories of broker queue. Every message type is bound to
/// exactly one of them, and every class names exactly one queue.
#[derive(Debug, Clone, Copy, PartialEq, Eq, Structural)]
pub enum QueueClass {
    Order,
    OrderConfirm,
    Cancel,
    CancelConfirm,
    Fill,
}

impl QueueClass {
    /// The name of the broker queue of this class.
    pub open spec fn spec_name(self) -> Seq<char> {
        match self {
            QueueClass::Order => "order"@,
            QueueClass::OrderConfirm => "order-confirm"@,
            QueueClass::Cancel => "cancel"@,
            QueueClass::CancelConfirm => "cancel-confirm"@,
            QueueClass::Fill => "fill"@,
        }
    }

    /// The name of the broker queue of this class.
    pub fn name(&self) -> (name: &'static str)
        ensures
            name@ == self.spec_name(),
    {
        match self {
            QueueClass::Order => "order",
            QueueClass::OrderConfirm => "order-confirm",
            QueueClass::Cancel => "cancel",
            QueueClass::CancelConfirm => "cancel-confirm",
            QueueClass::Fill => "fill",
        }
    }

    /// The queue name as an owned string.
    pub fn to_string(&self) -> (name: String)
        ensures
            name@ == self.spec_name(),
    {
        String::from_str(self.name())
    }
}

/// Two different queue classes never share a queue name.
pub proof fn lemma_queue_names_distinct(a: QueueClass, b: QueueClass)
    requires
        a != b,
    ensures
        a.spec_name() != b.spec_name(),
{
    reveal_strlit("order");
    reveal_strlit("order-confirm");
    reveal_strlit("cancel");
    reveal_strlit("cancel-confirm");
    reveal_strlit("fill");
    assert(a.spec_name().len() != b.spec_name().len());
}

/// Which side of a market an order or a fill is on.
#[derive(Debug, Clone, Copy, PartialEq, Eq, Structural)]
pub enum Side {
    Yes,
    No,
}

/// Whether an order or a fill buys or sells.
#[derive(Debug, Clone, Copy, PartialEq, Eq, Structural)]
pub enum Action {
    Buy,
    Sell,
}

/// How an order is to be executed.
#[derive(Debug, Clone, Copy, PartialEq, Eq, Structural)]
pub enum OrderType {
    Market,
    Limit,
}

/// What every message that travels through a queue must say of itself: the
/// one queue class it is bound to.
pub trait QueueData {
    /// The queue class of this message type.
    spec fn spec_class() -> QueueClass;

    /// The queue class of this message type.
    fn class() -> (class: QueueClass)
        ensures
            class == Self::spec_class(),
    ;
}

/// The name of the queue that messages of type `T` are published to and
/// consumed from.
pub fn queue_name<T: QueueData>() -> (name: String)
    ensures
        name@ == T::spec_class().spec_name(),
{
    T::class().to_string()
}

} // verus!
