//! The binary wire codec.
//!
//! Every message on the channel is a fixed 12-byte header followed by
//! exactly `untrusted_len` bytes of type-specific payload.  All fields are
//! unsigned 32-bit integers laid out little-endian, except the title and
//! keymap payloads, which are fixed-size byte blocks.  Encoding is
//! byte-exact; decoding refuses to read past the buffer it was given and
//! never trusts a declared length that disagrees with the bytes in hand.
use vstd::prelude::*;

use crate::bytes::copy_bytes;
use crate::bytes::copy_range;
use crate::bytes::get_u32_le;
use crate::bytes::lemma_read_u32_le_at;
use crate::bytes::push_u32_le;
use crate::bytes::read_u32_le;
use crate::bytes::u32_le_bytes;

verus! {

/// Message tag: key pressed or released.
pub const MSG_KEYPRESS: u32 = 124;

/// Message tag: pointer button pressed or released.
pub const MSG_BUTTON: u32 = 125;

/// Message tag: pointer motion.
pub const MSG_MOTION: u32 = 126;

/// Message tag: pointer crossed a window boundary.
pub const MSG_CROSSING: u32 = 127;

/// Message tag: keyboard focus change.
pub const MSG_FOCUS: u32 = 128;

/// Message tag: window creation.
pub const MSG_CREATE: u32 = 130;

/// Message tag: window destruction.
pub const MSG_DESTROY: u32 = 131;

/// Message tag: mapping parameters for a window.
pub const MSG_MAP_INFO: u32 = 132;

/// Message tag: window geometry change.
pub const MSG_CONFIGURE: u32 = 134;

/// Message tag: a region of the shared framebuffer was redrawn.
pub const MSG_SHM_IMAGE: u32 = 136;

/// Message tag: close request.
pub const MSG_CLOSE: u32 = 137;

/// Message tag: window title (fixed 128-byte buffer).
pub const MSG_SET_TITLE: u32 = 141;

/// Message tag: bitmap of currently pressed keys (256 bits).
pub const MSG_KEYMAP_NOTIFY: u32 = 142;

/// Message tag: set and clear window flags.
pub const MSG_WINDOW_FLAGS: u32 = 145;

/// Message tag: raw shared-memory descriptor for a window's framebuffer.
pub const MSG_WINDOW_DUMP: u32 = 147;

/// Size in bytes of the fixed message header.
pub const HEADER_LEN: usize = 12;

/// Hard ceiling (1 MiB) on a declared body length; anything at or above it
/// is rejected before the payload is touched.
pub const MAX_UNTRUSTED_LEN: u32 = 0x10_0000;

/// Size in bytes of a title payload.
pub const TITLE_LEN: usize = 128;

/// Size in bytes of a keymap payload (one bit per key code 0..=255).
pub const KEYMAP_LEN: usize = 32;

/// The fixed wire header: message tag, target window (0 = global scope) and
/// the peer-declared body length, which is untrusted until checked.
#[derive(Clone, Copy, PartialEq, Eq, Structural, Debug)]
pub struct Header {
    /// Message tag.
    pub ty: u32,
    /// Window the message addresses; 0 means no window / global scope.
    pub window: u32,
    /// Body length as declared by the sender.
    pub untrusted_len: u32,
}

/// A rectangle on the wire: top-left coordinate and size, all unsigned.
#[derive(Clone, Copy, PartialEq, Eq, Structural, Debug)]
pub struct Rect {
    /// Left edge.
    pub x: u32,
    /// Top edge.
    pub y: u32,
    /// Width in pixels.
    pub width: u32,
    /// Height in pixels.
    pub height: u32,
}

/// A typed protocol message (the payload part; the window it addresses
/// travels in the header).
#[derive(Debug, PartialEq)]
pub enum Msg {
    /// Create a window.
    Create { rect: Rect, parent: u32, override_redirect: u32 },
    /// Change a window's geometry.
    Configure { rect: Rect, override_redirect: u32 },
    /// Destroy a window.
    Destroy,
    /// Mapping parameters for a window.
    MapInfo { override_redirect: u32, transient_for: u32 },
    /// A region of the shared framebuffer was redrawn.
    ShmImage { rect: Rect },
    /// Window title; always exactly 128 bytes.
    SetTitle { title: Vec<u8> },
    /// Set and clear window flags.
    WindowFlags { set: u32, unset: u32 },
    /// Pointer motion.
    Motion { x: u32, y: u32 },
    /// Pointer crossed a window boundary.
    Crossing { kind: u32, x: u32, y: u32 },
    /// Close request.
    Close,
    /// Key press or release.
    Keypress { kind: u32, keycode: u32 },
    /// Pointer button press or release.
    Button { kind: u32, button: u32 },
    /// Keyboard focus change.
    Focus { mode: u32, kind: u32, detail: u32 },
    /// Bitmap of currently pressed keys; always exactly 32 bytes.
    KeymapNotify { keys: Vec<u8> },
}

/// Mathematical model of a message; byte blocks become sequences.
pub enum MsgView {
    /// Create a window.
    Create { rect: Rect, parent: u32, override_redirect: u32 },
    /// Change a window's geometry.
    Configure { rect: Rect, override_redirect: u32 },
    /// Destroy a window.
    Destroy,
    /// Mapping parameters for a window.
    MapInfo { override_redirect: u32, transient_for: u32 },
    /// A region of the shared framebuffer was redrawn.
    ShmImage { rect: Rect },
    /// Window title.
    SetTitle { title: Seq<u8> },
    /// Set and clear window flags.
    WindowFlags { set: u32, unset: u32 },
    /// Pointer motion.
    Motion { x: u32, y: u32 },
    /// Pointer crossed a window boundary.
    Crossing { kind: u32, x: u32, y: u32 },
    /// Close request.
    Close,
    /// Key press or release.
    Keypress { kind: u32, keycode: u32 },
    /// Pointer button press or release.
    Button { kind: u32, button: u32 },
    /// Keyboard focus change.
    Focus { mode: u32, kind: u32, detail: u32 },
    /// Bitmap of currently pressed keys.
    KeymapNotify { keys: Seq<u8> },
}

impl View for Msg {
    type V = MsgView;

    open spec fn view(&self) -> MsgView {
        match self {
            Msg::Create { rect, parent, override_redirect } => MsgView::Create {
                rect: *rect,
                parent: *parent,
                override_redirect: *override_redirect,
            },
            Msg::Configure { rect, override_redirect } => MsgView::Configure {
                rect: *rect,
                override_redirect: *override_redirect,
            },
            Msg::Destroy => MsgView::Destroy,
            Msg::MapInfo { override_redirect, transient_for } => MsgView::MapInfo {
                override_redirect: *override_redirect,
                transient_for: *transient_for,
            },
            Msg::ShmImage { rect } => MsgView::ShmImage { rect: *rect },
            Msg::SetTitle { title } => MsgView::SetTitle { title: title@ },
            Msg::WindowFlags { set, unset } => MsgView::WindowFlags {
                set: *set,
                unset: *unset,
            },
            Msg::Motion { x, y } => MsgView::Motion { x: *x, y: *y },
            Msg::Crossing { kind, x, y } => MsgView::Crossing { kind: *kind, x: *x, y: *y },
            Msg::Close => MsgView::Close,
            Msg::Keypress { kind, keycode } => MsgView::Keypress {
                kind: *kind,
                keycode: *keycode,
            },
            Msg::Button { kind, button } => MsgView::Button { kind: *kind, button: *button },
            Msg::Focus { mode, kind, detail } => MsgView::Focus {
                mode: *mode,
                kind: *kind,
                detail: *detail,
            },
            Msg::KeymapNotify { keys } => MsgView::KeymapNotify { keys: keys@ },
        }
    }
}

/// A message is well formed when its fixed-size byte blocks have their
/// required length; all other field values are valid on the wire.
pub open spec fn msg_valid(m: MsgView) -> bool {
    match m {
        MsgView::SetTitle { title } => title.len() == TITLE_LEN,
        MsgView::KeymapNotify { keys } => keys.len() == KEYMAP_LEN,
        _ => true,
    }
}

/// The wire tag of a message.
pub open spec fn msg_tag(m: MsgView) -> u32 {
    match m {
        MsgView::Create { .. } => MSG_CREATE,
        MsgView::Configure { .. } => MSG_CONFIGURE,
        MsgView::Destroy => MSG_DESTROY,
        MsgView::MapInfo { .. } => MSG_MAP_INFO,
        MsgView::ShmImage { .. } => MSG_SHM_IMAGE,
        MsgView::SetTitle { .. } => MSG_SET_TITLE,
        MsgView::WindowFlags { .. } => MSG_WINDOW_FLAGS,
        MsgView::Motion { .. } => MSG_MOTION,
        MsgView::Crossing { .. } => MSG_CROSSING,
        MsgView::Close => MSG_CLOSE,
        MsgView::Keypress { .. } => MSG_KEYPRESS,
        MsgView::Button { .. } => MSG_BUTTON,
        MsgView::Focus { .. } => MSG_FOCUS,
        MsgView::KeymapNotify { .. } => MSG_KEYMAP_NOTIFY,
    }
}

/// The sixteen payload bytes of a rectangle.
pub open spec fn rect_bytes(r: Rect) -> Seq<u8> {
    u32_le_bytes(r.x) + u32_le_bytes(r.y) + u32_le_bytes(r.width) + u32_le_bytes(r.height)
}

/// The payload bytes of a message.
pub open spec fn spec_payload(m: MsgView) -> Seq<u8> {
    match m {
        MsgView::Create { rect, parent, override_redirect } => rect_bytes(rect) + u32_le_bytes(
            parent,
        ) + u32_le_bytes(override_redirect),
        MsgView::Configure { rect, override_redirect } => rect_bytes(rect) + u32_le_bytes(
            override_redirect,
        ),
        MsgView::Destroy => Seq::empty(),
        MsgView::MapInfo { override_redirect, transient_for } => u32_le_bytes(override_redirect)
            + u32_le_bytes(transient_for),
        MsgView::ShmImage { rect } => rect_bytes(rect),
        MsgView::SetTitle { title } => title,
        MsgView::WindowFlags { set, unset } => u32_le_bytes(set) + u32_le_bytes(unset),
        MsgView::Motion { x, y } => u32_le_bytes(x) + u32_le_bytes(y),
        MsgView::Crossing { kind, x, y } => u32_le_bytes(kind) + u32_le_bytes(x) + u32_le_bytes(y),
        MsgView::Close => Seq::empty(),
        MsgView::Keypress { kind, keycode } => u32_le_bytes(kind) + u32_le_bytes(keycode),
        MsgView::Button { kind, button } => u32_le_bytes(kind) + u32_le_bytes(button),
        MsgView::Focus { mode, kind, detail } => u32_le_bytes(mode) + u32_le_bytes(kind)
            + u32_le_bytes(detail),
        MsgView::KeymapNotify { keys } => keys,
    }
}

/// The twelve bytes of a header.
pub open spec fn header_bytes(h: Header) -> Seq<u8> {
    u32_le_bytes(h.ty) + u32_le_bytes(h.window) + u32_le_bytes(h.untrusted_len)
}

/// The full wire image of a message sent to `window`: header then payload,
/// with the declared length equal to the payload's true length.
pub open spec fn spec_encode(window: u32, m: MsgView) -> Seq<u8> {
    header_bytes(
        Header { ty: msg_tag(m), window, untrusted_len: spec_payload(m).len() as u32 },
    ) + spec_payload(m)
}

/// A well-formed message's payload length: fixed per tag, well below the
/// 1 MiB ceiling.
pub proof fn lemma_payload_len(m: MsgView)
    requires
        msg_valid(m),
    ensures
        spec_payload(m).len() == payload_len_for(msg_tag(m)),
        known_tag(msg_tag(m)),
        spec_payload(m).len() < MAX_UNTRUSTED_LEN,
{
}

/// Whether `ty` is a tag this codec can decode.
pub open spec fn known_tag(ty: u32) -> bool {
    ||| ty == MSG_KEYPRESS
    ||| ty == MSG_BUTTON
    ||| ty == MSG_MOTION
    ||| ty == MSG_CROSSING
    ||| ty == MSG_FOCUS
    ||| ty == MSG_CREATE
    ||| ty == MSG_DESTROY
    ||| ty == MSG_MAP_INFO
    ||| ty == MSG_CONFIGURE
    ||| ty == MSG_SHM_IMAGE
    ||| ty == MSG_CLOSE
    ||| ty == MSG_SET_TITLE
    ||| ty == MSG_KEYMAP_NOTIFY
    ||| ty == MSG_WINDOW_FLAGS
}

/// The body length a known tag requires.
pub open spec fn payload_len_for(ty: u32) -> int {
    if ty == MSG_KEYPRESS {
        8
    } else if ty == MSG_BUTTON {
        8
    } else if ty == MSG_MOTION {
        8
    } else if ty == MSG_CROSSING {
        12
    } else if ty == MSG_FOCUS {
        12
    } else if ty == MSG_CREATE {
        24
    } else if ty == MSG_DESTROY {
        0
    } else if ty == MSG_MAP_INFO {
        8
    } else if ty == MSG_CONFIGURE {
        20
    } else if ty == MSG_SHM_IMAGE {
        16
    } else if ty == MSG_CLOSE {
        0
    } else if ty == MSG_SET_TITLE {
        128
    } else if ty == MSG_KEYMAP_NOTIFY {
        32
    } else if ty == MSG_WINDOW_FLAGS {
        8
    } else {
        0
    }
}

/// Returns the wire tag of `m`.
pub fn msg_tag_of(m: &Msg) -> (t: u32)
    ensures
        t == msg_tag(m@),
{
    match m {
        Msg::Create { .. } => MSG_CREATE,
        Msg::Configure { .. } => MSG_CONFIGURE,
        Msg::Destroy => MSG_DESTROY,
        Msg::MapInfo { .. } => MSG_MAP_INFO,
        Msg::ShmImage { .. } => MSG_SHM_IMAGE,
        Msg::SetTitle { .. } => MSG_SET_TITLE,
        Msg::WindowFlags { .. } => MSG_WINDOW_FLAGS,
        Msg::Motion { .. } => MSG_MOTION,
        Msg::Crossing { .. } => MSG_CROSSING,
        Msg::Close => MSG_CLOSE,
        Msg::Keypress { .. } => MSG_KEYPRESS,
        Msg::Button { .. } => MSG_BUTTON,
        Msg::Focus { .. } => MSG_FOCUS,
        Msg::KeymapNotify { .. } => MSG_KEYMAP_NOTIFY,
    }
}

/// Appends the sixteen payload bytes of `r` to `out`.
fn push_rect(out: &mut Vec<u8>, r: &Rect)
    ensures
        final(out)@ == old(out)@ + rect_bytes(*r),
{
    push_u32_le(out, r.x);
    push_u32_le(out, r.y);
    push_u32_le(out, r.width);
    push_u32_le(out, r.height);
    assert(out@ =~= old(out)@ + rect_bytes(*r));
}

/// Serializes the payload of `m`.
fn encode_payload(m: &Msg) -> (r: Vec<u8>)
    requires
        msg_valid(m@),
    ensures
        r@ == spec_payload(m@),
{
    let mut out: Vec<u8> = Vec::new();
    match m {
        Msg::Create { rect, parent, override_redirect } => {
            push_rect(&mut out, rect);
            push_u32_le(&mut out, *parent);
            push_u32_le(&mut out, *override_redirect);
        },
        Msg::Configure { rect, override_redirect } => {
            push_rect(&mut out, rect);
            push_u32_le(&mut out, *override_redirect);
        },
        Msg::Destroy => {},
        Msg::MapInfo { override_redirect, transient_for } => {
            push_u32_le(&mut out, *override_redirect);
            push_u32_le(&mut out, *transient_for);
        },
        Msg::ShmImage { rect } => {
            push_rect(&mut out, rect);
        },
        Msg::SetTitle { title } => {
            out = copy_bytes(title);
        },
        Msg::WindowFlags { set, unset } => {
            push_u32_le(&mut out, *set);
            push_u32_le(&mut out, *unset);
        },
        Msg::Motion { x, y } => {
            push_u32_le(&mut out, *x);
            push_u32_le(&mut out, *y);
        },
        Msg::Crossing { kind, x, y } => {
            push_u32_le(&mut out, *kind);
            push_u32_le(&mut out, *x);
            push_u32_le(&mut out, *y);
        },
        Msg::Close => {},
        Msg::Keypress { kind, keycode } => {
            push_u32_le(&mut out, *kind);
            push_u32_le(&mut out, *keycode);
        },
        Msg::Button { kind, button } => {
            push_u32_le(&mut out, *kind);
            push_u32_le(&mut out, *button);
        },
        Msg::Focus { mode, kind, detail } => {
            push_u32_le(&mut out, *mode);
            push_u32_le(&mut out, *kind);
            push_u32_le(&mut out, *detail);
        },
        Msg::KeymapNotify { keys } => {
            out = copy_bytes(keys);
        },
    }
    assert(out@ =~= spec_payload(m@));
    out
}

/// Serializes `m` addressed to `window` into its full wire image.
pub fn encode(window: u32, m: &Msg) -> (r: Vec<u8>)
    requires
        msg_valid(m@),
    ensures
        r@ == spec_encode(window, m@),
        r@.len() == HEADER_LEN + spec_payload(m@).len(),
{
    proof {
        lemma_payload_len(m@);
    }
    let mut payload = encode_payload(m);
    let tag = msg_tag_of(m);
    let mut out: Vec<u8> = Vec::new();
    push_u32_le(&mut out, tag);
    push_u32_le(&mut out, window);
    push_u32_le(&mut out, payload.len() as u32);
    out.append(&mut payload);
    assert(out@ =~= spec_encode(window, m@));
    out
}

/// Why a buffer failed to decode.
#[derive(Clone, Copy, PartialEq, Eq, Structural, Debug)]
pub enum CodecError {
    /// Shorter than the fixed header.
    Truncated,
    /// Declared body length at or above the 1 MiB ceiling.
    Oversized,
    /// Declared body length disagrees with the bytes in hand.
    LengthMismatch,
    /// Tag this codec does not know; skipped for forward compatibility.
    UnknownType { ty: u32 },
    /// Known tag, but the body has the wrong length for it.
    BadPayloadLength { ty: u32 },
}

/// The rectangle stored in `s` at offset `i`.
pub open spec fn read_rect(s: Seq<u8>, i: int) -> Rect {
    Rect {
        x: read_u32_le(s, i),
        y: read_u32_le(s, i + 4),
        width: read_u32_le(s, i + 8),
        height: read_u32_le(s, i + 12),
    }
}

/// The message a body of type `ty` decodes to, or why it is refused.
pub open spec fn spec_decode_body(ty: u32, body: Seq<u8>) -> Result<MsgView, CodecError> {
    if !known_tag(ty) {
        Err(CodecError::UnknownType { ty })
    } else if body.len() != payload_len_for(ty) {
        Err(CodecError::BadPayloadLength { ty })
    } else if ty == MSG_KEYPRESS {
        Ok(MsgView::Keypress { kind: read_u32_le(body, 0), keycode: read_u32_le(body, 4) })
    } else if ty == MSG_BUTTON {
        Ok(MsgView::Button { kind: read_u32_le(body, 0), button: read_u32_le(body, 4) })
    } else if ty == MSG_MOTION {
        Ok(MsgView::Motion { x: read_u32_le(body, 0), y: read_u32_le(body, 4) })
    } else if ty == MSG_CROSSING {
        Ok(
            MsgView::Crossing {
                kind: read_u32_le(body, 0),
                x: read_u32_le(body, 4),
                y: read_u32_le(body, 8),
            },
        )
    } else if ty == MSG_FOCUS {
        Ok(
            MsgView::Focus {
                mode: read_u32_le(body, 0),
                kind: read_u32_le(body, 4),
                detail: read_u32_le(body, 8),
            },
        )
    } else if ty == MSG_CREATE {
        Ok(
            MsgView::Create {
                rect: read_rect(body, 0),
                parent: read_u32_le(body, 16),
                override_redirect: read_u32_le(body, 20),
            },
        )
    } else if ty == MSG_DESTROY {
        Ok(MsgView::Destroy)
    } else if ty == MSG_MAP_INFO {
        Ok(
            MsgView::MapInfo {
                override_redirect: read_u32_le(body, 0),
                transient_for: read_u32_le(body, 4),
            },
        )
    } else if ty == MSG_CONFIGURE {
        Ok(
            MsgView::Configure {
                rect: read_rect(body, 0),
                override_redirect: read_u32_le(body, 16),
            },
        )
    } else if ty == MSG_SHM_IMAGE {
        Ok(MsgView::ShmImage { rect: read_rect(body, 0) })
    } else if ty == MSG_CLOSE {
        Ok(MsgView::Close)
    } else if ty == MSG_SET_TITLE {
        Ok(MsgView::SetTitle { title: body })
    } else if ty == MSG_KEYMAP_NOTIFY {
        Ok(MsgView::KeymapNotify { keys: body })
    } else {
        Ok(MsgView::WindowFlags { set: read_u32_le(body, 0), unset: read_u32_le(body, 4) })
    }
}

/// The message a full buffer (header and payload) decodes to, or why it is
/// refused.  The declared length must be under the ceiling and must equal
/// the bytes actually present.
pub open spec fn spec_decode(b: Seq<u8>) -> Result<(u32, MsgView), CodecError> {
    if b.len() < HEADER_LEN {
        Err(CodecError::Truncated)
    } else {
        let ty = read_u32_le(b, 0);
        let window = read_u32_le(b, 4);
        let len = read_u32_le(b, 8);
        if len >= MAX_UNTRUSTED_LEN {
            Err(CodecError::Oversized)
        } else if len as int != b.len() - HEADER_LEN {
            Err(CodecError::LengthMismatch)
        } else {
            match spec_decode_body(ty, b.subrange(HEADER_LEN as int, b.len() as int)) {
                Ok(m) => Ok((window, m)),
                Err(e) => Err(e),
            }
        }
    }
}

/// The view of a decoded body result.
pub open spec fn decoded_body_view(r: Result<Msg, CodecError>) -> Result<MsgView, CodecError> {
    match r {
        Ok(m) => Ok(m@),
        Err(e) => Err(e),
    }
}

/// The view of a decoded buffer result.
pub open spec fn decoded_view(r: Result<(u32, Msg), CodecError>) -> Result<
    (u32, MsgView),
    CodecError,
> {
    match r {
        Ok((w, m)) => Ok((w, m@)),
        Err(e) => Err(e),
    }
}

/// Parses a body of type `ty`, refusing to read outside the bytes given.
pub fn decode_body(ty: u32, body: &Vec<u8>) -> (r: Result<Msg, CodecError>)
    ensures
        decoded_body_view(r) == spec_decode_body(ty, body@),
{
    let n: usize = body.len();
    if ty == MSG_KEYPRESS {
        if n != 8 {
            return Err(CodecError::BadPayloadLength { ty });
        }
        Ok(Msg::Keypress { kind: get_u32_le(body, 0), keycode: get_u32_le(body, 4) })
    } else if ty == MSG_BUTTON {
        if n != 8 {
            return Err(CodecError::BadPayloadLength { ty });
        }
        Ok(Msg::Button { kind: get_u32_le(body, 0), button: get_u32_le(body, 4) })
    } else if ty == MSG_MOTION {
        if n != 8 {
            return Err(CodecError::BadPayloadLength { ty });
        }
        Ok(Msg::Motion { x: get_u32_le(body, 0), y: get_u32_le(body, 4) })
    } else if ty == MSG_CROSSING {
        if n != 12 {
            return Err(CodecError::BadPayloadLength { ty });
        }
        Ok(
            Msg::Crossing {
                kind: get_u32_le(body, 0),
                x: get_u32_le(body, 4),
                y: get_u32_le(body, 8),
            },
        )
    } else if ty == MSG_FOCUS {
        if n != 12 {
            return Err(CodecError::BadPayloadLength { ty });
        }
        Ok(
            Msg::Focus {
                mode: get_u32_le(body, 0),
                kind: get_u32_le(body, 4),
                detail: get_u32_le(body, 8),
            },
        )
    } else if ty == MSG_CREATE {
        if n != 24 {
            return Err(CodecError::BadPayloadLength { ty });
        }
        Ok(
            Msg::Create {
                rect: get_rect(body, 0),
                parent: get_u32_le(body, 16),
                override_redirect: get_u32_le(body, 20),
            },
        )
    } else if ty == MSG_DESTROY {
        if n != 0 {
            return Err(CodecError::BadPayloadLength { ty });
        }
        Ok(Msg::Destroy)
    } else if ty == MSG_MAP_INFO {
        if n != 8 {
            return Err(CodecError::BadPayloadLength { ty });
        }
        Ok(
            Msg::MapInfo {
                override_redirect: get_u32_le(body, 0),
                transient_for: get_u32_le(body, 4),
            },
        )
    } else if ty == MSG_CONFIGURE {
        if n != 20 {
            return Err(CodecError::BadPayloadLength { ty });
        }
        Ok(Msg::Configure { rect: get_rect(body, 0), override_redirect: get_u32_le(body, 16) })
    } else if ty == MSG_SHM_IMAGE {
        if n != 16 {
            return Err(CodecError::BadPayloadLength { ty });
        }
        Ok(Msg::ShmImage { rect: get_rect(body, 0) })
    } else if ty == MSG_CLOSE {
        if n != 0 {
            return Err(CodecError::BadPayloadLength { ty });
        }
        Ok(Msg::Close)
    } else if ty == MSG_SET_TITLE {
        if n != TITLE_LEN {
            return Err(CodecError::BadPayloadLength { ty });
        }
        let title = copy_bytes(body);
        assert(title@ =~= body@);
        Ok(Msg::SetTitle { title })
    } else if ty == MSG_KEYMAP_NOTIFY {
        if n != KEYMAP_LEN {
            return Err(CodecError::BadPayloadLength { ty });
        }
        let keys = copy_bytes(body);
        assert(keys@ =~= body@);
        Ok(Msg::KeymapNotify { keys })
    } else if ty == MSG_WINDOW_FLAGS {
        if n != 8 {
            return Err(CodecError::BadPayloadLength { ty });
        }
        Ok(Msg::WindowFlags { set: get_u32_le(body, 0), unset: get_u32_le(body, 4) })
    } else {
        Err(CodecError::UnknownType { ty })
    }
}

/// Reads the rectangle stored in `b` at offset `i`.
fn get_rect(b: &Vec<u8>, i: usize) -> (r: Rect)
    requires
        i + 16 <= b@.len(),
    ensures
        r == read_rect(b@, i as int),
{
    let _n: usize = b.len();
    Rect {
        x: get_u32_le(b, i),
        y: get_u32_le(b, i + 4),
        width: get_u32_le(b, i + 8),
        height: get_u32_le(b, i + 12),
    }
}

/// Parses a full buffer: header first, then the payload, after checking the
/// declared length against the ceiling and against the bytes present.
pub fn decode(b: &Vec<u8>) -> (r: Result<(u32, Msg), CodecError>)
    ensures
        decoded_view(r) == spec_decode(b@),
{
    let n: usize = b.len();
    if n < HEADER_LEN {
        return Err(CodecError::Truncated);
    }
    let ty = get_u32_le(b, 0);
    let window = get_u32_le(b, 4);
    let len = get_u32_le(b, 8);
    if len >= MAX_UNTRUSTED_LEN {
        return Err(CodecError::Oversized);
    }
    if len as usize != n - HEADER_LEN {
        return Err(CodecError::LengthMismatch);
    }
    let body = copy_range(b, HEADER_LEN, n);
    match decode_body(ty, &body) {
        Ok(m) => Ok((window, m)),
        Err(e) => Err(e),
    }
}

/// Reading two consecutive little-endian fields back from their encoding.
proof fn lemma_read_pair(s: Seq<u8>, a: u32, b: u32)
    requires
        s == u32_le_bytes(a) + u32_le_bytes(b),
    ensures
        read_u32_le(s, 0) == a,
        read_u32_le(s, 4) == b,
{
    assert(s.subrange(0, 4) =~= u32_le_bytes(a));
    assert(s.subrange(4, 8) =~= u32_le_bytes(b));
    lemma_read_u32_le_at(s, 0, a);
    lemma_read_u32_le_at(s, 4, b);
}

/// Reading three consecutive little-endian fields back from their encoding.
proof fn lemma_read_triple(s: Seq<u8>, a: u32, b: u32, c: u32)
    requires
        s == u32_le_bytes(a) + u32_le_bytes(b) + u32_le_bytes(c),
    ensures
        read_u32_le(s, 0) == a,
        read_u32_le(s, 4) == b,
        read_u32_le(s, 8) == c,
{
    assert(s.subrange(0, 4) =~= u32_le_bytes(a));
    assert(s.subrange(4, 8) =~= u32_le_bytes(b));
    assert(s.subrange(8, 12) =~= u32_le_bytes(c));
    lemma_read_u32_le_at(s, 0, a);
    lemma_read_u32_le_at(s, 4, b);
    lemma_read_u32_le_at(s, 8, c);
}

/// Reading a rectangle back from its encoding at offset `i`.
proof fn lemma_read_rect_at(s: Seq<u8>, i: int, r: Rect)
    requires
        0 <= i,
        i + 16 <= s.len(),
        s.subrange(i, i + 16) == rect_bytes(r),
    ensures
        read_rect(s, i) == r,
{
    let sub = s.subrange(i, i + 16);
    assert(sub.subrange(0, 4) =~= s.subrange(i, i + 4));
    assert(sub.subrange(4, 8) =~= s.subrange(i + 4, i + 8));
    assert(sub.subrange(8, 12) =~= s.subrange(i + 8, i + 12));
    assert(sub.subrange(12, 16) =~= s.subrange(i + 12, i + 16));
    assert(s.subrange(i, i + 4) =~= u32_le_bytes(r.x));
    assert(s.subrange(i + 4, i + 8) =~= u32_le_bytes(r.y));
    assert(s.subrange(i + 8, i + 12) =~= u32_le_bytes(r.width));
    assert(s.subrange(i + 12, i + 16) =~= u32_le_bytes(r.height));
    lemma_read_u32_le_at(s, i, r.x);
    lemma_read_u32_le_at(s, i + 4, r.y);
    lemma_read_u32_le_at(s, i + 8, r.width);
    lemma_read_u32_le_at(s, i + 12, r.height);
}

/// A well-formed payload decodes back to the message it came from.
proof fn lemma_decode_payload(m: MsgView)
    requires
        msg_valid(m),
    ensures
        spec_decode_body(msg_tag(m), spec_payload(m)) == Ok::<MsgView, CodecError>(m),
{
    lemma_payload_len(m);
    let p = spec_payload(m);
    match m {
        MsgView::Create { rect, parent, override_redirect } => {
            assert(p.subrange(0, 16) =~= rect_bytes(rect));
            lemma_read_rect_at(p, 0, rect);
            assert(p.subrange(16, 20) =~= u32_le_bytes(parent));
            lemma_read_u32_le_at(p, 16, parent);
            assert(p.subrange(20, 24) =~= u32_le_bytes(override_redirect));
            lemma_read_u32_le_at(p, 20, override_redirect);
        },
        MsgView::Configure { rect, override_redirect } => {
            assert(p.subrange(0, 16) =~= rect_bytes(rect));
            lemma_read_rect_at(p, 0, rect);
            assert(p.subrange(16, 20) =~= u32_le_bytes(override_redirect));
            lemma_read_u32_le_at(p, 16, override_redirect);
        },
        MsgView::Destroy => {},
        MsgView::MapInfo { override_redirect, transient_for } => {
            lemma_read_pair(p, override_redirect, transient_for);
        },
        MsgView::ShmImage { rect } => {
            assert(p.subrange(0, 16) =~= rect_bytes(rect));
            lemma_read_rect_at(p, 0, rect);
        },
        MsgView::SetTitle { title } => {},
        MsgView::WindowFlags { set, unset } => {
            lemma_read_pair(p, set, unset);
        },
        MsgView::Motion { x, y } => {
            lemma_read_pair(p, x, y);
        },
        MsgView::Crossing { kind, x, y } => {
            lemma_read_triple(p, kind, x, y);
        },
        MsgView::Close => {},
        MsgView::Keypress { kind, keycode } => {
            lemma_read_pair(p, kind, keycode);
        },
        MsgView::Button { kind, button } => {
            lemma_read_pair(p, kind, button);
        },
        MsgView::Focus { mode, kind, detail } => {
            lemma_read_triple(p, mode, kind, detail);
        },
        MsgView::KeymapNotify { keys } => {},
    }
}

/// Round trip: the wire image of any well-formed message decodes back to
/// exactly that message, addressed to the same window.
pub proof fn lemma_decode_encode_roundtrip(window: u32, m: MsgView)
    requires
        msg_valid(m),
    ensures
        spec_decode(spec_encode(window, m)) == Ok::<(u32, MsgView), CodecError>((window, m)),
{
    lemma_payload_len(m);
    let p = spec_payload(m);
    let ty = msg_tag(m);
    let len = p.len() as u32;
    let e = spec_encode(window, m);
    assert(e.len() == HEADER_LEN + p.len());
    assert(e.subrange(0, 4) =~= u32_le_bytes(ty));
    assert(e.subrange(4, 8) =~= u32_le_bytes(window));
    assert(e.subrange(8, 12) =~= u32_le_bytes(len));
    lemma_read_u32_le_at(e, 0, ty);
    lemma_read_u32_le_at(e, 4, window);
    lemma_read_u32_le_at(e, 8, len);
    assert(e.subrange(HEADER_LEN as int, e.len() as int) =~= p);
    lemma_decode_payload(m);
}

/// Any message the body decoder accepts is well formed: the fixed-size
/// byte blocks were length-checked on the way in.
pub proof fn lemma_decode_body_valid(ty: u32, body: Seq<u8>)
    ensures
        spec_decode_body(ty, body) matches Ok(m) ==> msg_valid(m),
{
}

/// Whether a header passes the envelope bound: its declared body length is
/// below the 1 MiB ceiling.  Checked before any payload is read or stored.
pub open spec fn spec_header_admissible(h: Header) -> bool {
    h.untrusted_len < MAX_UNTRUSTED_LEN
}

/// Returns whether the declared body length of `h` is below the 1 MiB
/// ceiling; a reader must check this before allocating for the payload.
pub fn header_admissible(h: &Header) -> (r: bool)
    ensures
        r == spec_header_admissible(*h),
{
    h.untrusted_len < MAX_UNTRUSTED_LEN
}

} // verus!

