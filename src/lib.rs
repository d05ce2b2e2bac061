//! Guest side of a binary message-passing protocol across a guest/host
//! memory boundary.
//!
//! The guest keeps one reusable exchange region ([`buffer::ExchangeBuffer`]),
//! grown on demand and never shrunk. Outbound messages are copied into it
//! before the host is told where to read them. Inbound messages follow the
//! pull scheme: the host asks for a region large enough, writes the message
//! into it, then calls `accept` with its length; the guest slices the message
//! out and hands an owned copy to the registered
//! [`exchange::MessageProcessor`].
//!
//! The context object [`exchange::Exchange`] owns both the region and the
//! processor. The embedding glue (exports, imports, raw addresses) stays
//! outside this crate and only hands it plain lengths and bytes.

pub mod buffer;
pub mod exchange;
pub mod laws;
