//! The messages that travel through the broker, and the queue each one is
//! bound to.

pub mod cancels;
pub mod data_core;
pub mod fills;
pub mod orders;

pub use data_core::QueueClass;
pub use data_core::QueueData;
