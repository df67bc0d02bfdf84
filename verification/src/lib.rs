//! Bridges a stream of raw musical-controller events to an addressable
//! network message format: each three-byte event is decoded into a typed
//! event, rendered as an addressed message, and fanned out to a fixed set
//! of destinations.

pub mod dispatch;
pub mod message;
pub mod osc;
