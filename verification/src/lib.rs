//! A bidirectional, non-blocking datagram framing adapter.
//!
//! The adapter unifies one datagram socket into a single object that both
//! produces and consumes discrete application-level frames, using a pluggable
//! codec to translate between raw bytes and frame values. Send failures do not
//! terminate the stream: the offending peer is evicted from a shared
//! membership registry instead.
//!
//! The socket itself is driven by the surrounding application; the adapter
//! holds all framing state (receive buffer, send buffer, destination slot,
//! flushed flag) and makes every decision, taking the outcome of each socket
//! attempt as an event.

pub mod addr;
pub mod buffer;
pub mod codec;
pub mod registry;
pub mod adapter;
