//! Order-routing gateway core.
//!
//! Clients connect over a framed binary protocol, log in under a client
//! identifier and submit orders and cancels. Every order leaves the gateway
//! carrying a composite identifier that embeds the client identifier, so that
//! confirmations and fills that come back later, out of order and interleaved
//! across clients, can be routed to the session they belong to.
//!
//! This crate holds the rules of that gateway: the composite-identifier codec,
//! the connection registry, the frame format and its decoder, the queue
//! classes and the publish/drain procedures, the routing decisions, and what
//! the exchange connector relays. It performs no I/O: sockets and the broker are driven by the caller, which
//! feeds the results back as plain values.

pub mod codec;
pub mod framing;
pub mod handler;
pub mod kalshi_wss;
pub mod queue;
pub mod queue_data;
pub mod registry;
pub mod relay;
pub mod router;
