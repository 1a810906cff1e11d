//! The protocol engine: inbound dispatch and the outbound send path.
//!
//! The engine owns the window arena, the agent's own control-window state
//! and the connection guard.  The transport layer drains the channel and
//! hands the engine a batch of read outcomes; the engine validates every
//! envelope, decodes each message, routes it — per window or globally —
//! under the validation rules of each message type, and returns the
//! actions the compositor layer must carry out.  Everything the engine
//! does is stated by one transition function, `step_outcome`, folded over
//! the batch by `run_steps`.
use vstd::prelude::*;

use crate::bytes::copy_bytes;
use crate::bytes::push_u32_le;
use crate::bytes::u32_le_bytes;
use crate::codec::decode_body;
use crate::codec::encode;
use crate::codec::header_bytes;
use crate::codec::header_admissible;
use crate::codec::lemma_decode_body_valid;
use crate::codec::msg_tag;
use crate::codec::msg_valid;
use crate::codec::spec_decode_body;
use crate::codec::spec_encode;
use crate::codec::CodecError;
use crate::codec::Header;
use crate::codec::Msg;
use crate::codec::MsgView;
use crate::codec::Rect;
use crate::codec::KEYMAP_LEN;
use crate::codec::MAX_UNTRUSTED_LEN;
use crate::codec::MSG_CREATE;
use crate::codec::MSG_MAP_INFO;
use crate::codec::MSG_SET_TITLE;
use crate::codec::MSG_SHM_IMAGE;
use crate::codec::MSG_WINDOW_DUMP;
use crate::codec::MSG_WINDOW_FLAGS;
use crate::connection::Connection;
use crate::connection::ControlEvent;
use crate::framebuffer::PixelBuffer;
use crate::ids::slot_index;
use crate::ids::MapError;
use crate::ids::Slot;
use crate::ids::WindowEntry;
use crate::ids::WindowMap;
use crate::ids::CONTROL_WINDOW_ID;
use crate::ids::FIRST_CLIENT_WINDOW_ID;
use crate::ids::NO_WINDOW_ID;

verus! {

/// Key-transition code: pressed.
pub const KEY_PRESS: u32 = 2;

/// Key-transition code: released.
pub const KEY_RELEASE: u32 = 3;

/// Button-transition code: pressed.
pub const BUTTON_PRESS: u32 = 4;

/// Button-transition code: released.
pub const BUTTON_RELEASE: u32 = 5;

/// Focus-transition code: gained.
pub const FOCUS_IN: u32 = 9;

/// Focus-transition code: lost.
pub const FOCUS_OUT: u32 = 10;

/// Smallest key code the peer may send; subtracted off before forwarding.
pub const MIN_KEYCODE: u32 = 8;

/// One past the largest key code the peer may send.
pub const KEYCODE_LIMIT: u32 = 0x108;

/// Largest admissible focus detail value.
pub const MAX_FOCUS_DETAIL: u32 = 7;

/// Number of keys a keymap notification covers, one bit each.
pub const KEYMAP_BITS: usize = 256;

/// The discrete pointer actions a button number selects.
#[derive(Clone, Copy, PartialEq, Eq, Structural, Debug)]
pub enum PointerButton {
    /// The primary (usually left) button.
    Primary,
    /// The secondary (usually right) button.
    Secondary,
    /// The tertiary (usually middle) button.
    Tertiary,
    /// Scroll up.
    ScrollUp,
    /// Scroll down.
    ScrollDown,
    /// Scroll left.
    ScrollLeft,
    /// Scroll right.
    ScrollRight,
}

/// A peer protocol violation: logged and dropped, never fatal — the peer
/// is a separate trust domain.
#[derive(Clone, Copy, PartialEq, Eq, Structural, Debug)]
pub enum Violation {
    /// A window-scoped event named an identifier that is not live.
    UnknownWindow { window: u32 },
    /// A message tag this engine does not know; skipped for forward
    /// compatibility.
    UnknownMessageType { ty: u32 },
    /// A known tag whose body has the wrong length.
    MalformedBody { ty: u32 },
    /// A destroy for a window the engine still considers live.
    UnexpectedDestroy { window: u32 },
    /// A message type that only this side ever sends came back inbound.
    UnexpectedMessage { ty: u32 },
    /// A configure with a zero width or height.
    BadGeometry { width: u32, height: u32 },
    /// A focus event with an unrecognized mode; the event is still
    /// processed best-effort.
    FocusModeBug { mode: u32 },
    /// A key code below the minimum or at or above the limit.
    KeycodeOutOfRange { keycode: u32 },
}

/// What the compositor layer must do in response to dispatched input.
#[derive(Clone, Copy, PartialEq, Eq, Structural, Debug)]
pub enum Action {
    /// The connection guard changed state, or saw a protocol error.
    Control(ControlEvent),
    /// The peer closed the control window: shut the agent down orderly.
    Shutdown,
    /// Pointer motion in a window.
    Motion { window: u32, x: u32, y: u32 },
    /// Pointer crossed a window boundary.
    Crossing { window: u32, kind: u32, x: u32, y: u32 },
    /// A key went down or up; `code` is already in internal numbering.
    Key { window: u32, code: u32, pressed: bool },
    /// A pointer button went down or up.
    Button { window: u32, button: PointerButton, pressed: bool },
    /// Keyboard focus changed.
    Focus { window: u32, focused: bool, detail: u32 },
    /// The peer asks a client window to close.
    CloseRequest { window: u32 },
    /// A client window's accepted size or position changed.
    Resize { window: u32, x: u32, y: u32, width: u32, height: u32 },
    /// The agent's own control window was configured.
    SelfConfigure { x: u32, y: u32, width: u32, height: u32 },
    /// A peer violation to log; processing continues.
    Log(Violation),
}

/// One result of polling the channel, as the transport layer reports it.
pub enum ReadOutcome {
    /// A framed message: its header and exactly the body bytes that came
    /// with it.
    Message { header: Header, body: Vec<u8> },
    /// Nothing more to read; `reconnected` reports whether the channel
    /// came back up since it was last drained.
    Pending { reconnected: bool },
    /// The channel needs to reconnect before anything else happens.
    NeedsReconnect,
    /// Reading failed.
    Fault,
}

/// Mathematical state of the engine.
#[verifier::ext_equal]
pub struct EngineV {
    /// Whether outbound sends go through.
    pub enabled: bool,
    /// State of the agent's own control window.
    pub control: WindowEntry,
    /// The client-window arena, slot `i` for identifier `i + 2`.
    pub windows: Seq<Slot>,
}

/// `s` with the guard set to `e`.
pub open spec fn with_enabled(s: EngineV, e: bool) -> EngineV {
    EngineV { enabled: e, control: s.control, windows: s.windows }
}

/// Whether `window` names a live client window in `s`.
pub open spec fn v_is_live(s: EngineV, window: u32) -> bool {
    &&& FIRST_CLIENT_WINDOW_ID <= window
    &&& slot_index(window) < s.windows.len()
    &&& s.windows[slot_index(window)] is Live
}

/// The entry of live client window `window` in `s`.
pub open spec fn v_entry(s: EngineV, window: u32) -> WindowEntry
    recommends
        v_is_live(s, window),
{
    s.windows[slot_index(window)]->Live_0
}

/// The pointer action a button number selects; out-of-range numbers are
/// ignored.
pub open spec fn button_of(button: u32) -> Option<PointerButton> {
    if button == 1 {
        Some(PointerButton::Primary)
    } else if button == 2 {
        Some(PointerButton::Tertiary)
    } else if button == 3 {
        Some(PointerButton::Secondary)
    } else if button == 4 {
        Some(PointerButton::ScrollUp)
    } else if button == 5 {
        Some(PointerButton::ScrollDown)
    } else if button == 6 {
        Some(PointerButton::ScrollLeft)
    } else if button == 7 {
        Some(PointerButton::ScrollRight)
    } else {
        None
    }
}

/// Bit `i` of the 256-bit keymap bitmask.
pub open spec fn keymap_bit(keys: Seq<u8>, i: int) -> bool {
    ((keys[i / 8] as u32) >> ((i % 8) as u32)) & 1 == 1
}

/// The synthetic key events of a keymap notification: one per code 0..=255
/// in ascending order, pressed exactly where its bit is set.
pub open spec fn keymap_actions(keys: Seq<u8>) -> Seq<Action> {
    Seq::new(
        KEYMAP_BITS as nat,
        |i: int|
            Action::Key { window: NO_WINDOW_ID, code: i as u32, pressed: keymap_bit(keys, i) },
    )
}

/// The actions of a focus event: an unrecognized mode is logged but the
/// event still processed; an unrecognized transition code or an
/// out-of-range detail drops it.
pub open spec fn focus_actions(window: u32, mode: u32, kind: u32, detail: u32) -> Seq<Action> {
    let bug: Seq<Action> = if mode != 0 {
        seq![Action::Log(Violation::FocusModeBug { mode })]
    } else {
        Seq::empty()
    };
    if kind != FOCUS_IN && kind != FOCUS_OUT {
        bug
    } else if detail > MAX_FOCUS_DETAIL {
        bug
    } else {
        bug + seq![Action::Focus { window, focused: kind == FOCUS_IN, detail }]
    }
}

/// The actions of a pure input event (one that changes no engine state),
/// after its per-type validation rules.
pub open spec fn input_actions(window: u32, m: MsgView) -> Seq<Action> {
    match m {
        MsgView::Motion { x, y } => seq![Action::Motion { window, x, y }],
        MsgView::Crossing { kind, x, y } => seq![Action::Crossing { window, kind, x, y }],
        MsgView::Button { kind, button } => {
            if kind != BUTTON_PRESS && kind != BUTTON_RELEASE {
                Seq::empty()
            } else {
                match button_of(button) {
                    Some(b) => seq![
                        Action::Button { window, button: b, pressed: kind == BUTTON_PRESS },
                    ],
                    None => Seq::empty(),
                }
            }
        },
        MsgView::Keypress { kind, keycode } => {
            if keycode < MIN_KEYCODE || keycode >= KEYCODE_LIMIT {
                seq![Action::Log(Violation::KeycodeOutOfRange { keycode })]
            } else if kind != KEY_PRESS && kind != KEY_RELEASE {
                Seq::empty()
            } else {
                seq![
                    Action::Key {
                        window,
                        code: (keycode - MIN_KEYCODE) as u32,
                        pressed: kind == KEY_PRESS,
                    },
                ]
            }
        },
        MsgView::Focus { mode, kind, detail } => focus_actions(window, mode, kind, detail),
        _ => Seq::empty(),
    }
}

/// Routes a pure input event: global scope and the control window need no
/// lookup; a client identifier must be live, else the reference is stale
/// and only logged.
pub open spec fn route_input(s: EngineV, window: u32, m: MsgView) -> Seq<Action> {
    if window == NO_WINDOW_ID || window == CONTROL_WINDOW_ID || v_is_live(s, window) {
        input_actions(window, m)
    } else {
        seq![Action::Log(Violation::UnknownWindow { window })]
    }
}

/// A configure: dimensions must be positive; the control window has its
/// own handler; for a client window the entry is updated, and a configure
/// that repeats the accepted size is coalesced — recorded, but no
/// size-change notification is forwarded again.
pub open spec fn step_configure(s: EngineV, window: u32, rect: Rect) -> (EngineV, Seq<Action>) {
    if rect.width == 0 || rect.height == 0 {
        (s, seq![Action::Log(Violation::BadGeometry { width: rect.width, height: rect.height })])
    } else if window == CONTROL_WINDOW_ID {
        let e = s.control;
        let redundant = e.has_configured && e.width == rect.width && e.height == rect.height;
        let e2 = WindowEntry {
            x: rect.x,
            y: rect.y,
            width: rect.width,
            height: rect.height,
            has_configured: true,
            buffer: e.buffer,
        };
        (
            EngineV { enabled: s.enabled, control: e2, windows: s.windows },
            if redundant {
                Seq::empty()
            } else {
                seq![
                    Action::SelfConfigure {
                        x: rect.x,
                        y: rect.y,
                        width: rect.width,
                        height: rect.height,
                    },
                ]
            },
        )
    } else if v_is_live(s, window) {
        let e = v_entry(s, window);
        let redundant = e.has_configured && e.width == rect.width && e.height == rect.height;
        let e2 = WindowEntry {
            x: rect.x,
            y: rect.y,
            width: rect.width,
            height: rect.height,
            has_configured: true,
            buffer: e.buffer,
        };
        (
            EngineV {
                enabled: s.enabled,
                control: s.control,
                windows: s.windows.update(slot_index(window), Slot::Live(e2)),
            },
            if redundant {
                Seq::empty()
            } else {
                seq![
                    Action::Resize {
                        window,
                        x: rect.x,
                        y: rect.y,
                        width: rect.width,
                        height: rect.height,
                    },
                ]
            },
        )
    } else {
        (s, seq![Action::Log(Violation::UnknownWindow { window })])
    }
}

/// A destroy from the peer: it retires the placeholder of a locally
/// destroyed window; a destroy for a live window, or for one never issued
/// or already gone, is the peer's violation — logged, never fatal.
pub open spec fn step_destroy(s: EngineV, window: u32) -> (EngineV, Seq<Action>) {
    if FIRST_CLIENT_WINDOW_ID <= window && slot_index(window) < s.windows.len() && s.windows[
        slot_index(window)
    ] is Destroyed {
        (
            EngineV {
                enabled: s.enabled,
                control: s.control,
                windows: s.windows.update(slot_index(window), Slot::Removed),
            },
            Seq::empty(),
        )
    } else if v_is_live(s, window) {
        (s, seq![Action::Log(Violation::UnexpectedDestroy { window })])
    } else {
        (s, seq![Action::Log(Violation::UnknownWindow { window })])
    }
}

/// One decoded message, routed by type and window scope.
pub open spec fn step_typed(s: EngineV, window: u32, m: MsgView) -> (EngineV, Seq<Action>) {
    match m {
        MsgView::KeymapNotify { keys } => (s, keymap_actions(keys)),
        MsgView::Configure { rect, .. } => step_configure(s, window, rect),
        MsgView::Destroy => step_destroy(s, window),
        MsgView::Close => {
            if window == CONTROL_WINDOW_ID {
                (s, seq![Action::Shutdown])
            } else if v_is_live(s, window) {
                (s, seq![Action::CloseRequest { window }])
            } else {
                (s, seq![Action::Log(Violation::UnknownWindow { window })])
            }
        },
        MsgView::Motion { .. } => (s, route_input(s, window, m)),
        MsgView::Crossing { .. } => (s, route_input(s, window, m)),
        MsgView::Button { .. } => (s, route_input(s, window, m)),
        MsgView::Keypress { .. } => (s, route_input(s, window, m)),
        MsgView::Focus { .. } => (s, route_input(s, window, m)),
        _ => (s, seq![Action::Log(Violation::UnexpectedMessage { ty: msg_tag(m) })]),
    }
}

/// One framed message: the envelope — declared length below the 1 MiB
/// ceiling and equal to the bytes present — is checked before anything
/// else; an envelope failure disables the guard.  A failed body decode is
/// the peer's violation; a decoded message goes to `step_typed`.
pub open spec fn step_message(s: EngineV, h: Header, body: Seq<u8>) -> (EngineV, Seq<Action>) {
    if h.untrusted_len >= MAX_UNTRUSTED_LEN || h.untrusted_len as int != body.len() {
        (with_enabled(s, false), seq![Action::Control(ControlEvent::ProtocolError)])
    } else {
        match spec_decode_body(h.ty, body) {
            Ok(m) => step_typed(s, h.window, m),
            Err(CodecError::UnknownType { ty }) => (
                s,
                seq![Action::Log(Violation::UnknownMessageType { ty })],
            ),
            Err(_) => (s, seq![Action::Log(Violation::MalformedBody { ty: h.ty })]),
        }
    }
}

/// One read outcome: a message is dispatched; "pending after a reconnect"
/// re-enables the guard with one synthetic enabled notification; a
/// needs-reconnect or a read fault disables it with the matching synthetic
/// notification.
pub open spec fn step_outcome(s: EngineV, r: ReadOutcome) -> (EngineV, Seq<Action>) {
    match r {
        ReadOutcome::Message { header, body } => step_message(s, header, body@),
        ReadOutcome::Pending { reconnected } => {
            if reconnected {
                (with_enabled(s, true), seq![Action::Control(ControlEvent::EnteredEnabled)])
            } else {
                (s, Seq::empty())
            }
        },
        ReadOutcome::NeedsReconnect => (
            with_enabled(s, false),
            seq![Action::Control(ControlEvent::EnteredDisabled)],
        ),
        ReadOutcome::Fault => (
            with_enabled(s, false),
            seq![Action::Control(ControlEvent::ProtocolError)],
        ),
    }
}

/// A whole batch, folded left to right: messages are processed strictly in
/// the order received, and their actions come out in that order.
pub open spec fn run_steps(s: EngineV, reads: Seq<ReadOutcome>) -> (EngineV, Seq<Action>)
    decreases reads.len(),
{
    if reads.len() == 0 {
        (s, Seq::empty())
    } else {
        let first = step_outcome(s, reads[0]);
        let rest = run_steps(first.0, reads.skip(1));
        (rest.0, first.1 + rest.1)
    }
}

/// Folding one more outcome onto a batch runs the batch, then the
/// outcome.
pub proof fn lemma_run_steps_snoc(s: EngineV, reads: Seq<ReadOutcome>, r: ReadOutcome)
    ensures
        ({
            let whole = run_steps(s, reads.push(r));
            let prefix = run_steps(s, reads);
            let last = step_outcome(prefix.0, r);
            whole.0 == last.0 && whole.1 == prefix.1 + last.1
        }),
    decreases reads.len(),
{
    let whole = run_steps(s, reads.push(r));
    let prefix = run_steps(s, reads);
    let last = step_outcome(prefix.0, r);
    if reads.len() == 0 {
        assert(reads.push(r)[0] == r);
        assert(reads.push(r).skip(1) =~= Seq::<ReadOutcome>::empty());
        assert(reads.push(r).skip(1) == Seq::<ReadOutcome>::empty());
        let one = step_outcome(s, r);
        assert(run_steps(one.0, Seq::<ReadOutcome>::empty()).1 == Seq::<Action>::empty());
        assert(whole.1 == one.1 + Seq::<Action>::empty());
        assert(prefix.0 == s);
        assert(last == one);
        assert(one.1 + Seq::<Action>::empty() =~= Seq::<Action>::empty() + one.1);
        assert(whole.1 =~= prefix.1 + last.1);
    } else {
        assert(reads.push(r)[0] == reads[0]);
        assert(reads.push(r).skip(1) =~= reads.skip(1).push(r));
        let s1 = step_outcome(s, reads[0]);
        lemma_run_steps_snoc(s1.0, reads.skip(1), r);
        assert(whole.1 =~= prefix.1 + last.1);
    }
}

/// Returns the pointer action a button number selects.
pub fn button_action_of(button: u32) -> (r: Option<PointerButton>)
    ensures
        r == button_of(button),
{
    if button == 1 {
        Some(PointerButton::Primary)
    } else if button == 2 {
        Some(PointerButton::Tertiary)
    } else if button == 3 {
        Some(PointerButton::Secondary)
    } else if button == 4 {
        Some(PointerButton::ScrollUp)
    } else if button == 5 {
        Some(PointerButton::ScrollDown)
    } else if button == 6 {
        Some(PointerButton::ScrollLeft)
    } else if button == 7 {
        Some(PointerButton::ScrollRight)
    } else {
        None
    }
}

/// The protocol engine.
pub struct Engine {
    /// The outbound guard.
    pub conn: Connection,
    /// State of the agent's own control window.
    pub control: WindowEntry,
    /// The client-window arena.
    pub windows: WindowMap,
}

impl View for Engine {
    type V = EngineV;

    open spec fn view(&self) -> EngineV {
        EngineV { enabled: self.conn.enabled(), control: self.control, windows: self.windows@ }
    }
}

impl Engine {
    /// The arena is well formed.
    pub open spec fn wf(self) -> bool {
        self.windows.wf()
    }

    /// Returns an engine for a freshly established channel: guard enabled,
    /// no client windows, control window in its initial state.
    pub fn new() -> (r: Engine)
        ensures
            r.wf(),
            r@.enabled,
            r@.control == WindowEntry::initial(),
            r@.windows.len() == 0,
            r.windows.issued@.len() == 0,
    {
        Engine { conn: Connection::new(), control: WindowEntry::new(), windows: WindowMap::new() }
    }

    /// Issues the next window identifier; fails exactly on exhaustion,
    /// which is fatal for the process.
    pub fn allocate_window_id(&mut self) -> (r: Result<u32, MapError>)
        requires
            old(self).wf(),
        ensures
            final(self).wf(),
            final(self)@.enabled == old(self)@.enabled,
            final(self)@.control == old(self)@.control,
            old(self).windows.next_id() <= u32::MAX ==> {
                &&& r == Ok::<u32, MapError>(old(self).windows.next_id() as u32)
                &&& final(self)@.windows == old(self)@.windows.push(
                    Slot::Live(WindowEntry::initial()),
                )
                &&& final(self).windows.issued@ == old(self).windows.issued@.push(
                    old(self).windows.next_id() as u32,
                )
            },
            old(self).windows.next_id() > u32::MAX ==> {
                &&& r == Err::<u32, MapError>(MapError::IdsExhausted)
                &&& *final(self) == *old(self)
            },
    {
        self.windows.allocate()
    }

    /// Serializes `m` for `window` and hands the bytes back for the
    /// channel — unless the guard is disabled, in which case the send is
    /// silently dropped, by design: the caller need not track the
    /// channel's state.
    pub fn send(&self, window: u32, m: &Msg) -> (r: Option<Vec<u8>>)
        requires
            self.wf(),
            msg_valid(m@),
        ensures
            self@.enabled ==> (r matches Some(b) && b@ == spec_encode(window, m@)),
            !self@.enabled ==> r is None,
    {
        if self.conn.is_enabled() {
            Some(encode(window, m))
        } else {
            None
        }
    }

    /// Sends a pre-serialized payload under a header whose declared
    /// length equals the payload's true byte count — that equality is
    /// this function's construction, and the ceiling its precondition,
    /// because outbound data originates locally.  Suppressed like `send` while the guard is disabled.
    pub fn send_raw(&self, window: u32, ty: u32, body: &Vec<u8>) -> (r: Option<Vec<u8>>)
        requires
            self.wf(),
            body@.len() < MAX_UNTRUSTED_LEN,
        ensures
            self@.enabled ==> (r matches Some(b) && b@ == header_bytes(
                Header { ty, window, untrusted_len: body@.len() as u32 },
            ) + body@),
            !self@.enabled ==> r is None,
    {
        if !self.conn.is_enabled() {
            return None;
        }
        let mut out: Vec<u8> = Vec::new();
        push_u32_le(&mut out, ty);
        push_u32_le(&mut out, window);
        push_u32_le(&mut out, body.len() as u32);
        let mut tail = copy_bytes(body);
        out.append(&mut tail);
        assert(out@ =~= header_bytes(Header { ty, window, untrusted_len: body@.len() as u32 })
            + body@);
        Some(out)
    }

    /// A window was created upstream: the peer is told with the creation
    /// sequence — create, configure, then mapping parameters — in that
    /// order.  While the guard is disabled nothing is sent; the upstream
    /// layer recreates every window after the reconnect notification.
    pub fn on_window_created(
        &self,
        window: u32,
        rect: Rect,
        parent: u32,
        override_redirect: u32,
    ) -> (msgs: Vec<Vec<u8>>)
        requires
            self.wf(),
            self.windows.is_live(window),
        ensures
            self@.enabled ==> {
                &&& msgs@.len() == 3
                &&& msgs@[0]@ == spec_encode(
                    window,
                    MsgView::Create { rect, parent, override_redirect },
                )
                &&& msgs@[1]@ == spec_encode(
                    window,
                    MsgView::Configure { rect, override_redirect },
                )
                &&& msgs@[2]@ == spec_encode(
                    window,
                    MsgView::MapInfo { override_redirect, transient_for: 0 },
                )
            },
            !self@.enabled ==> msgs@.len() == 0,
    {
        let mut msgs: Vec<Vec<u8>> = Vec::new();
        if !self.conn.is_enabled() {
            return msgs;
        }
        msgs.push(encode(window, &Msg::Create { rect, parent, override_redirect }));
        msgs.push(encode(window, &Msg::Configure { rect, override_redirect }));
        msgs.push(encode(window, &Msg::MapInfo { override_redirect, transient_for: 0 }));
        msgs
    }

    /// A window was destroyed upstream: its slot becomes the placeholder
    /// that waits for the peer's confirmation, and the destroy message
    /// goes out if the guard is enabled.  Destroying an identifier that is
    /// not live is reported, never a crash.
    pub fn on_window_destroyed(&mut self, window: u32) -> (r: Result<Option<Vec<u8>>, MapError>)
        requires
            old(self).wf(),
        ensures
            final(self).wf(),
            final(self)@.enabled == old(self)@.enabled,
            final(self)@.control == old(self)@.control,
            final(self).windows.issued@ == old(self).windows.issued@,
            old(self).windows.is_live(window) ==> {
                &&& final(self)@.windows == old(self)@.windows.update(
                    slot_index(window),
                    Slot::Destroyed,
                )
                &&& (old(self)@.enabled ==> (r matches Ok(Some(b)) && b@ == spec_encode(
                    window,
                    MsgView::Destroy,
                )))
                &&& (!old(self)@.enabled ==> r == Ok::<Option<Vec<u8>>, MapError>(None))
            },
            !old(self).windows.is_live(window) ==> {
                &&& r == Err::<Option<Vec<u8>>, MapError>(
                    MapError::UnknownWindow { window },
                )
                &&& *final(self) == *old(self)
            },
    {
        match self.windows.destroy(window) {
            Ok(()) => {
                if self.conn.is_enabled() {
                    Ok(Some(encode(window, &Msg::Destroy)))
                } else {
                    Ok(None)
                }
            },
            Err(e) => Err(e),
        }
    }

    /// Pushes a geometry change for a live window to the peer, suppressed while disabled.
    pub fn push_configure(&self, window: u32, rect: Rect) -> (r: Option<Vec<u8>>)
        requires
            self.wf(),
            self.windows.is_live(window),
        ensures
            self@.enabled ==> (r matches Some(b) && b@ == spec_encode(
                window,
                MsgView::Configure { rect, override_redirect: 0 },
            )),
            !self@.enabled ==> r is None,
    {
        self.send(window, &Msg::Configure { rect, override_redirect: 0 })
    }

    /// Whether `window` is an admissible scope for a pure input event:
    /// global, the control window, or a live client window.
    fn input_scope_ok(&self, window: u32) -> (r: bool)
        requires
            self.wf(),
        ensures
            r == (window == NO_WINDOW_ID || window == CONTROL_WINDOW_ID || v_is_live(
                self@,
                window,
            )),
    {
        if window == NO_WINDOW_ID || window == CONTROL_WINDOW_ID {
            true
        } else {
            match self.windows.get_live(window) {
                Some(_) => true,
                None => false,
            }
        }
    }

    /// Dispatches one decoded message, already routed past the envelope
    /// checks: updates the engine per `step_typed` and appends its
    /// actions to `out`.
    pub fn handle_typed(&mut self, window: u32, m: Msg, out: &mut Vec<Action>)
        requires
            old(self).wf(),
            msg_valid(m@),
        ensures
            final(self).wf(),
            final(self).windows.issued@ == old(self).windows.issued@,
            final(self)@ == step_typed(old(self)@, window, m@).0,
            final(out)@ == old(out)@ + step_typed(old(self)@, window, m@).1,
    {
        match m {
            Msg::KeymapNotify { keys } => {
                let mut code: usize = 0;
                while code < KEYMAP_BITS
                    invariant
                        keys@.len() == KEYMAP_LEN,
                        code <= KEYMAP_BITS,
                        *self == *old(self),
                        out@ == old(out)@ + keymap_actions(keys@).take(code as int),
                    decreases KEYMAP_BITS - code,
                {
                    let byte = keys[code / 8];
                    let pressed = ((byte as u32) >> ((code % 8) as u32)) & 1 == 1;
                    out.push(
                        Action::Key { window: NO_WINDOW_ID, code: code as u32, pressed },
                    );
                    proof {
                        assert(pressed == keymap_bit(keys@, code as int));
                        assert(keymap_actions(keys@).take(code as int + 1) =~= keymap_actions(
                            keys@,
                        ).take(code as int).push(
                            Action::Key { window: NO_WINDOW_ID, code: code as u32, pressed },
                        ));
                    }
                    code = code + 1;
                }
                proof {
                    assert(keymap_actions(keys@).take(KEYMAP_BITS as int) =~= keymap_actions(
                        keys@,
                    ));
                }
            },
            Msg::Configure { rect, override_redirect } => {
                if rect.width == 0 || rect.height == 0 {
                    out.push(
                        Action::Log(
                            Violation::BadGeometry { width: rect.width, height: rect.height },
                        ),
                    );
                } else if window == CONTROL_WINDOW_ID {
                    let e = self.control;
                    let redundant = e.has_configured && e.width == rect.width && e.height
                        == rect.height;
                    self.control = WindowEntry {
                        x: rect.x,
                        y: rect.y,
                        width: rect.width,
                        height: rect.height,
                        has_configured: true,
                        buffer: e.buffer,
                    };
                    if !redundant {
                        out.push(
                            Action::SelfConfigure {
                                x: rect.x,
                                y: rect.y,
                                width: rect.width,
                                height: rect.height,
                            },
                        );
                    }
                } else {
                    match self.windows.get_live(window) {
                        Some(e) => {
                            let redundant = e.has_configured && e.width == rect.width && e.height
                                == rect.height;
                            self.windows.set_entry(
                                window,
                                WindowEntry {
                                    x: rect.x,
                                    y: rect.y,
                                    width: rect.width,
                                    height: rect.height,
                                    has_configured: true,
                                    buffer: e.buffer,
                                },
                            );
                            if !redundant {
                                out.push(
                                    Action::Resize {
                                        window,
                                        x: rect.x,
                                        y: rect.y,
                                        width: rect.width,
                                        height: rect.height,
                                    },
                                );
                            }
                        },
                        None => {
                            out.push(Action::Log(Violation::UnknownWindow { window }));
                        },
                    }
                }
            },
            Msg::Destroy => {
                match self.windows.get_slot(window) {
                    Some(Slot::Destroyed) => {
                        let _ = self.windows.finish_destroy(window);
                    },
                    Some(Slot::Live(_)) => {
                        out.push(Action::Log(Violation::UnexpectedDestroy { window }));
                    },
                    _ => {
                        out.push(Action::Log(Violation::UnknownWindow { window }));
                    },
                }
            },
            Msg::Close => {
                if window == CONTROL_WINDOW_ID {
                    out.push(Action::Shutdown);
                } else {
                    match self.windows.get_live(window) {
                        Some(_) => {
                            out.push(Action::CloseRequest { window });
                        },
                        None => {
                            out.push(Action::Log(Violation::UnknownWindow { window }));
                        },
                    }
                }
            },
            Msg::Motion { x, y } => {
                if self.input_scope_ok(window) {
                    out.push(Action::Motion { window, x, y });
                } else {
                    out.push(Action::Log(Violation::UnknownWindow { window }));
                }
            },
            Msg::Crossing { kind, x, y } => {
                if self.input_scope_ok(window) {
                    out.push(Action::Crossing { window, kind, x, y });
                } else {
                    out.push(Action::Log(Violation::UnknownWindow { window }));
                }
            },
            Msg::Button { kind, button } => {
                if self.input_scope_ok(window) {
                    if kind == BUTTON_PRESS || kind == BUTTON_RELEASE {
                        match button_action_of(button) {
                            Some(b) => {
                                out.push(
                                    Action::Button {
                                        window,
                                        button: b,
                                        pressed: kind == BUTTON_PRESS,
                                    },
                                );
                            },
                            None => {},
                        }
                    }
                } else {
                    out.push(Action::Log(Violation::UnknownWindow { window }));
                }
            },
            Msg::Keypress { kind, keycode } => {
                if self.input_scope_ok(window) {
                    if keycode < MIN_KEYCODE || keycode >= KEYCODE_LIMIT {
                        out.push(Action::Log(Violation::KeycodeOutOfRange { keycode }));
                    } else if kind == KEY_PRESS || kind == KEY_RELEASE {
                        out.push(
                            Action::Key {
                                window,
                                code: keycode - MIN_KEYCODE,
                                pressed: kind == KEY_PRESS,
                            },
                        );
                    }
                } else {
                    out.push(Action::Log(Violation::UnknownWindow { window }));
                }
            },
            Msg::Focus { mode, kind, detail } => {
                if self.input_scope_ok(window) {
                    if mode != 0 {
                        out.push(Action::Log(Violation::FocusModeBug { mode }));
                    }
                    if (kind == FOCUS_IN || kind == FOCUS_OUT) && detail <= MAX_FOCUS_DETAIL {
                        out.push(
                            Action::Focus { window, focused: kind == FOCUS_IN, detail },
                        );
                    }
                } else {
                    out.push(Action::Log(Violation::UnknownWindow { window }));
                }
            },
            Msg::Create { .. } => {
                out.push(Action::Log(Violation::UnexpectedMessage { ty: MSG_CREATE }));
            },
            Msg::MapInfo { .. } => {
                out.push(Action::Log(Violation::UnexpectedMessage { ty: MSG_MAP_INFO }));
            },
            Msg::ShmImage { .. } => {
                out.push(Action::Log(Violation::UnexpectedMessage { ty: MSG_SHM_IMAGE }));
            },
            Msg::SetTitle { .. } => {
                out.push(Action::Log(Violation::UnexpectedMessage { ty: MSG_SET_TITLE }));
            },
            Msg::WindowFlags { .. } => {
                out.push(Action::Log(Violation::UnexpectedMessage { ty: MSG_WINDOW_FLAGS }));
            },
        }
        proof {
            assert(self@ =~= step_typed(old(self)@, window, m@).0);
            assert(out@ =~= old(out)@ + step_typed(old(self)@, window, m@).1);
        }
    }

    /// Dispatches one framed message: envelope first — a declared length
    /// at or above the 1 MiB ceiling, or disagreeing with the bytes in
    /// hand, disables the guard before any payload is interpreted — then
    /// decode and routing.
    pub fn handle_message(&mut self, header: Header, body: &Vec<u8>, out: &mut Vec<Action>)
        requires
            old(self).wf(),
        ensures
            final(self).wf(),
            final(self).windows.issued@ == old(self).windows.issued@,
            final(self)@ == step_message(old(self)@, header, body@).0,
            final(out)@ == old(out)@ + step_message(old(self)@, header, body@).1,
    {
        if !header_admissible(&header) || header.untrusted_len as usize != body.len() {
            let e = self.conn.note_fault();
            out.push(Action::Control(e));
            proof {
                assert(self@ =~= step_message(old(self)@, header, body@).0);
                assert(out@ =~= old(out)@ + step_message(old(self)@, header, body@).1);
            }
            return;
        }
        match decode_body(header.ty, body) {
            Ok(m) => {
                proof {
                    lemma_decode_body_valid(header.ty, body@);
                }
                self.handle_typed(header.window, m, out);
            },
            Err(CodecError::UnknownType { ty }) => {
                out.push(Action::Log(Violation::UnknownMessageType { ty }));
            },
            Err(_) => {
                out.push(Action::Log(Violation::MalformedBody { ty: header.ty }));
            },
        }
        proof {
            assert(self@ =~= step_message(old(self)@, header, body@).0);
            assert(out@ =~= old(out)@ + step_message(old(self)@, header, body@).1);
        }
    }

    /// Dispatches a whole batch of read outcomes in order, returning the
    /// actions for the compositor layer: exactly the fold of
    /// `step_outcome` over the batch.
    pub fn dispatch(&mut self, reads: &Vec<ReadOutcome>) -> (out: Vec<Action>)
        requires
            old(self).wf(),
        ensures
            final(self).wf(),
            final(self).windows.issued@ == old(self).windows.issued@,
            final(self)@ == run_steps(old(self)@, reads@).0,
            out@ == run_steps(old(self)@, reads@).1,
    {
        let mut out: Vec<Action> = Vec::new();
        let mut i: usize = 0;
        while i < reads.len()
            invariant
                self.wf(),
                i <= reads@.len(),
                self.windows.issued@ == old(self).windows.issued@,
                self@ == run_steps(old(self)@, reads@.take(i as int)).0,
                out@ == run_steps(old(self)@, reads@.take(i as int)).1,
            decreases reads@.len() - i,
        {
            let ghost prev = self@;
            let ghost prev_out = out@;
            let outcome: &ReadOutcome = &reads[i];
            match outcome {
                ReadOutcome::Message { header, body } => {
                    self.handle_message(*header, body, &mut out);
                },
                ReadOutcome::Pending { reconnected } => {
                    if *reconnected {
                        let e = self.conn.note_reconnected();
                        out.push(Action::Control(e));
                    }
                },
                ReadOutcome::NeedsReconnect => {
                    let e = self.conn.note_needs_reconnect();
                    out.push(Action::Control(e));
                },
                ReadOutcome::Fault => {
                    let e = self.conn.note_fault();
                    out.push(Action::Control(e));
                },
            }
            proof {
                let step = step_outcome(prev, reads@[i as int]);
                assert(self@ =~= step.0);
                assert(out@ =~= prev_out + step.1);
                assert(reads@.take(i as int + 1) =~= reads@.take(i as int).push(
                    reads@[i as int],
                ));
                lemma_run_steps_snoc(old(self)@, reads@.take(i as int), reads@[i as int]);
            }
            i = i + 1;
        }
        proof {
            assert(reads@.take(reads@.len() as int) =~= reads@);
        }
        out
    }

    /// Tells the peer a region of a live window's framebuffer was redrawn,
    /// suppressed while disabled.
    pub fn push_damage(&self, window: u32, rect: Rect) -> (r: Option<Vec<u8>>)
        requires
            self.wf(),
            self.windows.is_live(window),
        ensures
            self@.enabled ==> (r matches Some(b) && b@ == spec_encode(
                window,
                MsgView::ShmImage { rect },
            )),
            !self@.enabled ==> r is None,
    {
        self.send(window, &Msg::ShmImage { rect })
    }

    /// Publishes one finished frame of a live window: first the dump
    /// descriptor if the buffer still owes one — the peer must learn of a
    /// (re)allocation before any pixel data in it means anything — then
    /// the configure carrying `rect`, then one redraw notification per
    /// damage rectangle, in their order.  While the guard is disabled
    /// nothing is emitted and the dump debt is kept for after the
    /// reconnect.
    pub fn commit_frame(
        &self,
        window: u32,
        buf: &mut PixelBuffer,
        rect: Rect,
        damage: &Vec<Rect>,
    ) -> (msgs: Vec<Vec<u8>>)
        requires
            self.wf(),
            self.windows.is_live(window),
            old(buf).wf(),
        ensures
            final(buf).wf(),
            final(buf).width == old(buf).width,
            final(buf).height == old(buf).height,
            final(buf).pixels@ == old(buf).pixels@,
            !self@.enabled ==> msgs@.len() == 0 && *final(buf) == *old(buf),
            self@.enabled ==> ({
                let k: int = if old(buf).needs_dump {
                    1int
                } else {
                    0int
                };
                &&& !final(buf).needs_dump
                &&& msgs@.len() == k + 1 + damage@.len()
                &&& (old(buf).needs_dump ==> msgs@[0]@ == header_bytes(
                    Header { ty: MSG_WINDOW_DUMP, window, untrusted_len: 8 },
                ) + u32_le_bytes(old(buf).width) + u32_le_bytes(old(buf).height))
                &&& msgs@[k]@ == spec_encode(
                    window,
                    MsgView::Configure { rect, override_redirect: 0 },
                )
                &&& forall|i: int|
                    0 <= i < damage@.len() ==> msgs@[k + 1 + i]@ == spec_encode(
                        window,
                        MsgView::ShmImage { rect: damage@[i] },
                    )
            }),
    {
        let mut msgs: Vec<Vec<u8>> = Vec::new();
        if !self.is_enabled() {
            return msgs;
        }
        let ghost k: int = if buf.needs_dump {
            1int
        } else {
            0int
        };
        if buf.needs_dump {
            let descriptor = buf.take_dump_descriptor();
            if let Some(b) = self.send_raw(window, MSG_WINDOW_DUMP, &descriptor) {
                msgs.push(b);
            }
        }
        if let Some(b) = self.push_configure(window, rect) {
            msgs.push(b);
        }
        let ghost settled = *buf;
        let mut i: usize = 0;
        while i < damage.len()
            invariant
                i <= damage@.len(),
                self.wf(),
                self@.enabled,
                self.windows.is_live(window),
                k == (if old(buf).needs_dump {
                    1int
                } else {
                    0int
                }),
                msgs@.len() == k + 1 + i,
                *buf == settled,
                buf.wf(),
                !buf.needs_dump,
                buf.width == old(buf).width,
                buf.height == old(buf).height,
                buf.pixels@ == old(buf).pixels@,
                forall|j: int|
                    0 <= j < i ==> msgs@[k + 1 + j]@ == spec_encode(
                        window,
                        MsgView::ShmImage { rect: damage@[j] },
                    ),
                (k == 1 ==> msgs@[0]@ == header_bytes(
                    Header { ty: MSG_WINDOW_DUMP, window, untrusted_len: 8 },
                ) + u32_le_bytes(old(buf).width) + u32_le_bytes(old(buf).height)),
                msgs@[k]@ == spec_encode(
                    window,
                    MsgView::Configure { rect, override_redirect: 0 },
                ),
            decreases damage@.len() - i,
        {
            let ghost before = msgs@;
            let sent = self.push_damage(window, damage[i]);
            if let Some(b) = sent {
                msgs.push(b);
            }
            proof {
                assert(sent is Some);
                assert(forall|j: int| 0 <= j < before.len() ==> msgs@[j] == before[j]);
            }
            i = i + 1;
        }
        msgs
    }

    /// Returns whether the guard currently lets sends through.
    pub fn is_enabled(&self) -> (r: bool)
        ensures
            r == self@.enabled,
    {
        self.conn.is_enabled()
    }
}

/// Coalescing law: a configure whose size the window has not yet accepted
/// forwards exactly one size-change notification, and repeating the same
/// configure forwards none — the repeat changes nothing and emits
/// nothing.
pub proof fn lemma_configure_idempotent(s: EngineV, window: u32, rect: Rect)
    requires
        rect.width > 0,
        rect.height > 0,
        window == CONTROL_WINDOW_ID || v_is_live(s, window),
        ({
            let e = if window == CONTROL_WINDOW_ID {
                s.control
            } else {
                v_entry(s, window)
            };
            !(e.has_configured && e.width == rect.width && e.height == rect.height)
        }),
    ensures
        ({
            let first = step_configure(s, window, rect);
            let second = step_configure(first.0, window, rect);
            &&& first.1.len() == 1
            &&& (window == CONTROL_WINDOW_ID ==> first.1[0] == Action::SelfConfigure {
                x: rect.x,
                y: rect.y,
                width: rect.width,
                height: rect.height,
            })
            &&& (window != CONTROL_WINDOW_ID ==> first.1[0] == Action::Resize {
                window,
                x: rect.x,
                y: rect.y,
                width: rect.width,
                height: rect.height,
            })
            &&& second.1.len() == 0
            &&& second.0 == first.0
        }),
{
    let first = step_configure(s, window, rect);
    let second = step_configure(first.0, window, rect);
    if window != CONTROL_WINDOW_ID {
        assert(second.0.windows =~= first.0.windows);
    }
    assert(second.0 =~= first.0);
}

} // verus!
