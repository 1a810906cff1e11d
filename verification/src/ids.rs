//! Window identifiers and the window arena.
//!
//! Identifiers are non-zero 32-bit integers handed out by a monotonic
//! counter: 0 means "no window", 1 is reserved for the agent's own control
//! window, and client windows get 2, 3, 4, ... in order, never reused.
//! The arena keeps one slot per identifier ever issued.  A locally
//! destroyed window leaves a placeholder in its slot, distinguishable from
//! "never existed", so that a duplicate destroy from the peer is detected
//! instead of crashing.
use vstd::prelude::*;

use crate::framebuffer::BufferDims;

verus! {

/// The identifier that means "no window": global-scope messages carry it.
pub const NO_WINDOW_ID: u32 = 0;

/// The identifier of the agent's own control window.
pub const CONTROL_WINDOW_ID: u32 = 1;

/// The first identifier the allocator hands out to a client window.
pub const FIRST_CLIENT_WINDOW_ID: u32 = 2;

/// Protocol-visible state of one window.
#[derive(Clone, Copy, PartialEq, Eq, Structural, Debug)]
pub struct WindowEntry {
    /// Left edge of the window's last configured position.
    pub x: u32,
    /// Top edge of the window's last configured position.
    pub y: u32,
    /// Last configured width.
    pub width: u32,
    /// Last configured height.
    pub height: u32,
    /// Whether a configure for this window has been accepted yet.
    pub has_configured: bool,
    /// Dimensions of the shared framebuffer attached to the window, if any.
    pub buffer: Option<BufferDims>,
}

impl WindowEntry {
    /// The state of a window that has just been created: placed at the
    /// origin with no size, not yet configured, without a framebuffer.
    pub open spec fn initial() -> WindowEntry {
        WindowEntry { x: 0, y: 0, width: 0, height: 0, has_configured: false, buffer: None }
    }

    /// Returns the state of a freshly created window.
    pub fn new() -> (r: WindowEntry)
        ensures
            r == WindowEntry::initial(),
    {
        WindowEntry { x: 0, y: 0, width: 0, height: 0, has_configured: false, buffer: None }
    }
}

/// One arena slot: the window is live, was destroyed locally (placeholder
/// kept to catch duplicate destroys), or had its destruction confirmed by
/// the peer and is gone for good.
#[derive(Clone, Copy, PartialEq, Eq, Structural, Debug)]
pub enum Slot {
    /// The window is live; its protocol state is attached.
    Live(WindowEntry),
    /// Destroyed locally; the placeholder waits for the peer's confirmation.
    Destroyed,
    /// Destruction confirmed; any further reference to this id is stale.
    Removed,
}

/// Error a window-arena operation reports.
#[derive(Clone, Copy, PartialEq, Eq, Structural, Debug)]
pub enum MapError {
    /// The identifier counter would wrap: a fatal local condition; the
    /// process must be restarted, identifiers are never reused.
    IdsExhausted,
    /// The identifier does not name a window in the expected state; a
    /// protocol error of whoever supplied it, never fatal.
    UnknownWindow { window: u32 },
}

/// The arena of client windows, indexed by identifier.
pub struct WindowMap {
    /// Slot `i` belongs to identifier `i + 2`.
    pub slots: Vec<Slot>,
    /// The identifiers issued so far, in allocation order.
    pub issued: Ghost<Seq<u32>>,
}

impl View for WindowMap {
    type V = Seq<Slot>;

    open spec fn view(&self) -> Seq<Slot> {
        self.slots@
    }
}

/// The arena index of identifier `id`.
pub open spec fn slot_index(id: u32) -> int {
    id - FIRST_CLIENT_WINDOW_ID
}

impl WindowMap {
    /// The identifier the next allocation will return.
    pub open spec fn next_id(self) -> int {
        FIRST_CLIENT_WINDOW_ID + self@.len()
    }

    /// Every issued identifier has a slot, in order, starting at 2; the
    /// counter never passes the greatest representable identifier.
    pub open spec fn wf(self) -> bool {
        &&& self.next_id() <= u32::MAX + 1
        &&& self.issued@ == Seq::new(self@.len(), |i: int| (FIRST_CLIENT_WINDOW_ID + i) as u32)
    }

    /// Whether `id` was ever issued by this arena.
    pub open spec fn allocated(self, id: u32) -> bool {
        FIRST_CLIENT_WINDOW_ID <= id && (id as int) < self.next_id()
    }

    /// Whether `id` names a live window.
    pub open spec fn is_live(self, id: u32) -> bool {
        self.allocated(id) && self@[slot_index(id)] is Live
    }

    /// The entry of live window `id`.
    pub open spec fn entry_of(self, id: u32) -> WindowEntry
        recommends
            self.is_live(id),
    {
        self@[slot_index(id)]->Live_0
    }

    /// Returns an empty arena.
    pub fn new() -> (r: WindowMap)
        ensures
            r.wf(),
            r@.len() == 0,
            r.issued@.len() == 0,
    {
        let r = WindowMap { slots: Vec::new(), issued: Ghost(Seq::empty()) };
        proof {
            assert(r.issued@ =~= Seq::new(0, |i: int| (FIRST_CLIENT_WINDOW_ID + i) as u32));
        }
        r
    }

    /// Issues the next identifier and opens a live slot for it.  Fails
    /// exactly when the identifier space is exhausted, which is fatal for
    /// the process: identifiers are never recycled.
    pub fn allocate(&mut self) -> (r: Result<u32, MapError>)
        requires
            old(self).wf(),
        ensures
            final(self).wf(),
            old(self).next_id() <= u32::MAX ==> {
                &&& r == Ok::<u32, MapError>(old(self).next_id() as u32)
                &&& final(self)@ == old(self)@.push(Slot::Live(WindowEntry::initial()))
                &&& final(self).issued@ == old(self).issued@.push(old(self).next_id() as u32)
            },
            old(self).next_id() > u32::MAX ==> {
                &&& r == Err::<u32, MapError>(MapError::IdsExhausted)
                &&& *final(self) == *old(self)
            },
    {
        let n: usize = self.slots.len();
        if n >= (u32::MAX - 1) as usize {
            return Err(MapError::IdsExhausted);
        }
        let id = n as u32 + FIRST_CLIENT_WINDOW_ID;
        self.slots.push(Slot::Live(WindowEntry::new()));
        proof {
            self.issued@ = self.issued@.push(id);
            assert(self.issued@ =~= Seq::new(
                self@.len(),
                |i: int| (FIRST_CLIENT_WINDOW_ID + i) as u32,
            ));
        }
        Ok(id)
    }

    /// Returns the slot of `id`, or `None` if `id` was never issued.
    pub fn get_slot(&self, id: u32) -> (r: Option<Slot>)
        requires
            self.wf(),
        ensures
            r == if self.allocated(id) {
                Some(self@[slot_index(id)])
            } else {
                None::<Slot>
            },
    {
        if id < FIRST_CLIENT_WINDOW_ID {
            return None;
        }
        let idx = (id - FIRST_CLIENT_WINDOW_ID) as usize;
        if idx >= self.slots.len() {
            return None;
        }
        Some(self.slots[idx])
    }

    /// Returns the entry of `id` if it names a live window.
    pub fn get_live(&self, id: u32) -> (r: Option<WindowEntry>)
        requires
            self.wf(),
        ensures
            r == if self.is_live(id) {
                Some(self.entry_of(id))
            } else {
                None::<WindowEntry>
            },
    {
        match self.get_slot(id) {
            Some(Slot::Live(e)) => Some(e),
            _ => None,
        }
    }

    /// Replaces the entry of live window `id`.
    pub fn set_entry(&mut self, id: u32, e: WindowEntry)
        requires
            old(self).wf(),
            old(self).is_live(id),
        ensures
            final(self).wf(),
            final(self)@ == old(self)@.update(slot_index(id), Slot::Live(e)),
            final(self).issued@ == old(self).issued@,
    {
        let idx = (id - FIRST_CLIENT_WINDOW_ID) as usize;
        self.slots.set(idx, Slot::Live(e));
        proof {
            assert(self.issued@ =~= Seq::new(
                self@.len(),
                |i: int| (FIRST_CLIENT_WINDOW_ID + i) as u32,
            ));
        }
    }

    /// Destroys live window `id` locally, leaving the placeholder that
    /// waits for the peer's confirmation.  Destroying an identifier that is
    /// not live — never issued, already destroyed, or gone — is reported as
    /// `UnknownWindow`, never a crash.
    pub fn destroy(&mut self, id: u32) -> (r: Result<(), MapError>)
        requires
            old(self).wf(),
        ensures
            final(self).wf(),
            old(self).is_live(id) ==> {
                &&& r == Ok::<(), MapError>(())
                &&& final(self)@ == old(self)@.update(slot_index(id), Slot::Destroyed)
            },
            !old(self).is_live(id) ==> {
                &&& r == Err::<(), MapError>(MapError::UnknownWindow { window: id })
                &&& *final(self) == *old(self)
            },
            final(self).issued@ == old(self).issued@,
    {
        match self.get_slot(id) {
            Some(Slot::Live(_)) => {
                let idx = (id - FIRST_CLIENT_WINDOW_ID) as usize;
                self.slots.set(idx, Slot::Destroyed);
                proof {
                    assert(self.issued@ =~= Seq::new(
                        self@.len(),
                        |i: int| (FIRST_CLIENT_WINDOW_ID + i) as u32,
                    ));
                }
                Ok(())
            },
            _ => Err(MapError::UnknownWindow { window: id }),
        }
    }

    /// Retires the slot of `id` once the peer confirms its destruction.
    /// Valid only on the placeholder a local destroy left behind.
    pub fn finish_destroy(&mut self, id: u32) -> (r: Result<(), MapError>)
        requires
            old(self).wf(),
        ensures
            final(self).wf(),
            (old(self).allocated(id) && old(self)@[slot_index(id)] is Destroyed) ==> {
                &&& r == Ok::<(), MapError>(())
                &&& final(self)@ == old(self)@.update(slot_index(id), Slot::Removed)
            },
            !(old(self).allocated(id) && old(self)@[slot_index(id)] is Destroyed) ==> {
                &&& r == Err::<(), MapError>(MapError::UnknownWindow { window: id })
                &&& *final(self) == *old(self)
            },
            final(self).issued@ == old(self).issued@,
    {
        match self.get_slot(id) {
            Some(Slot::Destroyed) => {
                let idx = (id - FIRST_CLIENT_WINDOW_ID) as usize;
                self.slots.set(idx, Slot::Removed);
                proof {
                    assert(self.issued@ =~= Seq::new(
                        self@.len(),
                        |i: int| (FIRST_CLIENT_WINDOW_ID + i) as u32,
                    ));
                }
                Ok(())
            },
            _ => Err(MapError::UnknownWindow { window: id }),
        }
    }
}

/// Identifiers come out strictly increasing and never zero: every issued
/// identifier is smaller than the next one, and none is the reserved
/// "no window" value or the control window's.
pub proof fn lemma_ids_strictly_increasing(m: WindowMap)
    requires
        m.wf(),
    ensures
        forall|i: int, j: int|
            0 <= i < j < m.issued@.len() ==> m.issued@[i] < m.issued@[j],
        forall|i: int| 0 <= i < m.issued@.len() ==> m.issued@[i] != NO_WINDOW_ID,
        forall|i: int| 0 <= i < m.issued@.len() ==> m.issued@[i] != CONTROL_WINDOW_ID,
{
}

} // verus!
