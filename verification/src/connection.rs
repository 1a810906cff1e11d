//! The connection guard.
//!
//! The channel below may disconnect and reconnect at any time, while the
//! caller above keeps sending as if nothing happened.  This guard decouples
//! the two: while disabled, every outbound send is silently dropped, so a
//! freshly reconnected peer — whose state was reset — never sees messages
//! about windows it was not told of.  Each transition is reported once as
//! an explicit control event; for callers of the raw byte interface the
//! event also has a sentinel header form, a zero-type, zero-window header
//! whose length field carries a condition code.
use vstd::prelude::*;

use crate::codec::Header;
use crate::ids::NO_WINDOW_ID;

verus! {

/// Sentinel length code: the guard entered the disabled state.
pub const SENTINEL_DISABLED: u32 = 1;

/// Sentinel length code: the guard entered the enabled state.
pub const SENTINEL_ENABLED: u32 = 2;

/// Sentinel length code: a protocol error disabled the guard.
pub const SENTINEL_PROTOCOL_ERROR: u32 = 3;

/// The guard's state: while disabled, outbound sends are dropped.
#[derive(Clone, Copy, PartialEq, Eq, Structural, Debug)]
pub enum ConnectionState {
    /// The channel is down or was found misbehaving; sends are no-ops.
    Disabled,
    /// The channel is up; sends go through.
    Enabled,
}

/// A synthetic notification about the guard, delivered in order with the
/// decoded messages.  After `EnteredEnabled` the upstream layer must
/// recreate every window from scratch: the peer remembers none of them.
#[derive(Clone, Copy, PartialEq, Eq, Structural, Debug)]
pub enum ControlEvent {
    /// The channel needs to reconnect; the guard is now disabled.
    EnteredDisabled,
    /// The channel reconnected; the guard is now enabled.
    EnteredEnabled,
    /// A read error or a malformed envelope; the guard is now disabled.
    ProtocolError,
}

/// The sentinel header of a control event: zero type, zero window, and the
/// condition code in the length field.
pub open spec fn spec_sentinel_header(e: ControlEvent) -> Header {
    Header {
        ty: 0,
        window: NO_WINDOW_ID,
        untrusted_len: match e {
            ControlEvent::EnteredDisabled => SENTINEL_DISABLED,
            ControlEvent::EnteredEnabled => SENTINEL_ENABLED,
            ControlEvent::ProtocolError => SENTINEL_PROTOCOL_ERROR,
        },
    }
}

/// Returns the sentinel header of `e`.
pub fn sentinel_header(e: &ControlEvent) -> (h: Header)
    ensures
        h == spec_sentinel_header(*e),
{
    let code = match e {
        ControlEvent::EnteredDisabled => SENTINEL_DISABLED,
        ControlEvent::EnteredEnabled => SENTINEL_ENABLED,
        ControlEvent::ProtocolError => SENTINEL_PROTOCOL_ERROR,
    };
    Header { ty: 0, window: NO_WINDOW_ID, untrusted_len: code }
}

/// The outbound guard.
pub struct Connection {
    /// Current state.
    pub state: ConnectionState,
}

impl Connection {
    /// Whether sends currently go through.
    pub open spec fn enabled(self) -> bool {
        self.state is Enabled
    }

    /// Returns the guard of a freshly established channel, which starts
    /// enabled.
    pub fn new() -> (r: Connection)
        ensures
            r.enabled(),
    {
        Connection { state: ConnectionState::Enabled }
    }

    /// Returns whether sends currently go through.
    pub fn is_enabled(&self) -> (r: bool)
        ensures
            r == self.enabled(),
    {
        match self.state {
            ConnectionState::Enabled => true,
            ConnectionState::Disabled => false,
        }
    }

    /// The channel reported that it needs to reconnect: disable the guard.
    pub fn note_needs_reconnect(&mut self) -> (e: ControlEvent)
        ensures
            !final(self).enabled(),
            e == ControlEvent::EnteredDisabled,
    {
        self.state = ConnectionState::Disabled;
        ControlEvent::EnteredDisabled
    }

    /// The channel reconnected: enable the guard.
    pub fn note_reconnected(&mut self) -> (e: ControlEvent)
        ensures
            final(self).enabled(),
            e == ControlEvent::EnteredEnabled,
    {
        self.state = ConnectionState::Enabled;
        ControlEvent::EnteredEnabled
    }

    /// A read error, or a message that failed the envelope checks:
    /// disable the guard.
    pub fn note_fault(&mut self) -> (e: ControlEvent)
        ensures
            !final(self).enabled(),
            e == ControlEvent::ProtocolError,
    {
        self.state = ConnectionState::Disabled;
        ControlEvent::ProtocolError
    }
}

} // verus!
