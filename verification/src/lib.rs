//! Wire-protocol engine for a paravirtualized display agent.
//!
//! The agent bridges a compositor's window model to a hypervisor GUI daemon
//! over an inter-VM byte channel.  This crate holds the protocol core:
//! the binary wire codec, the monotonic window-identifier allocator and
//! window arena, the enabled/disabled connection gating, the inbound event
//! dispatcher with its validation rules, and the framebuffer bookkeeping.
//! Transport and compositor plumbing live outside the library and exchange
//! plain values with it.
use vstd::prelude::*;

pub mod bytes;
pub mod codec;
pub mod connection;
pub mod dispatch;
pub mod framebuffer;
pub mod geometry;
pub mod ids;

verus! {

/// Interface a display backend offers to the compositor layer.
pub trait Backend {
    /// Name of the seat this backend drives.
    fn seat_name(&self) -> String;
}

} // verus!
