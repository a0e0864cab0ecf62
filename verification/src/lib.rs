//! A client-side protocol layer for an on-chain limit-order-book venue:
//! conversions between human-scale quantities and the venue's lot/tick
//! integers, a decoder for the venue's binary audit-log event stream,
//! builders for protocol-conformant order and cancel instructions, and the
//! cursor logic of an incremental transaction poller.

pub mod addr;
pub mod err;
pub mod bytes;
pub mod client;
pub mod decimal;
pub mod decoder;
pub mod events;
pub mod meta;
pub mod orders;
pub mod poller;
pub mod random;
pub mod units;
