//! Requests: their typed form, the wire layout of each opcode, and the decoder.

use vstd::prelude::*;

use crate::codec::{spec_card16, spec_card32, spec_int16, spec_words, Endianness};
use crate::connection::Connection;
use crate::event::{event_decodes_to, event_known, Event, EVENT_LENGTH};

verus! {

/// A decoded client request, one variant per supported opcode.
#[derive(Clone, Debug, PartialEq, Eq)]
#[allow(inconsistent_fields)]
pub enum Request {
    CreateWindow {
        window: u32,
        parent: u32,
        x: u16,
        y: u16,
        width: u16,
        height: u16,
        border_width: u16,
        class: u16,
        visual: u32,
        values: WindowAttributes,
    },
    ChangeWindowAttributes { window: u32, values: WindowAttributes },
    GetWindowAttributes { window: u32 },
    DestroyWindow { window: u32 },
    DestroySubwindows { window: u32 },
    ChangeSaveSet { mode: u8, window: u32 },
    ReparentWindow { window: u32, parent: u32, x: u16, y: u16 },
    MapWindow { window: u32 },
    MapSubwindows { window: u32 },
    UnmapWindow { window: u32 },
    UnmapSubwindows { window: u32 },
    ConfigureWindow { window: u32, values: ConfigureValues },
    CirculateWindow { direction: u8, window: u32 },
    GetGeometry { drawable: u32 },
    QueryTree { window: u32 },
    InternAtom { only_if_exists: bool, name: String },
    GetAtomName { atom: u32 },
    ChangeProperty { mode: u8, window: u32, property: u32, ptype: u32, format: u8, data: Vec<u8> },
    DeleteProperty { window: u32, property: u32 },
    GetProperty {
        delete: u8,
        window: u32,
        property: u32,
        typ: u32,
        long_offset: u32,
        long_length: u32,
    },
    RotateProperties { window: u32, delta: i16, properties: Vec<u32> },
    ListProperties { window: u32 },
    SetSelectionOwner { owner: u32, selection: u32, time: u32 },
    GetSelectionOwner { selection: u32 },
    ConvertSelection { requestor: u32, selection: u32, target: u32, property: u32, time: u32 },
    SendEvent { propagate: bool, destination: u32, event_mask: u32, event: Event },
    GrabPointer {
        owner_events: bool,
        grab_window: u32,
        event_mask: u16,
        pointer_mode: u8,
        keyboard_mode: u8,
        confine_to: u32,
        cursor: u32,
        time: u32,
    },
    UngrabPointer { time: u32 },
    GrabButton {
        owner_events: bool,
        grab_window: u32,
        event_mask: u16,
        pointer_mode: u8,
        keyboard_mode: u8,
        confine_to: u32,
        cursor: u32,
        button: u8,
        modifiers: u16,
    },
    UngrabButton { button: u8, grab_window: u32, modifiers: u16 },
    ChangeActivePointerGrab { cursor: u32, time: u32, event_mask: u16 },
    GrabKeyboard { owner_events: bool, grab_window: u32, time: u32, pointer_mode: u8, keyboard_mode: u8 },
    UngrabKeyboard { time: u32 },
    GrabKey {
        owner_events: bool,
        grab_window: u32,
        modifiers: u16,
        key: u8,
        pointer_mode: u8,
        keyboard_mode: u8,
    },
    UngrabKey { key: u8, grab_window: u32, modifiers: u16 },
    AllowEvents { mode: u8, time: u32 },
    GrabServer,
    UngrabServer,
    QueryPointer { window: u32 },
    GetMotionEvents { window: u32, start: u32, stop: u32 },
    TranslateCoordinates { src_window: u32, dst_window: u32, src_x: i16, src_y: i16 },
    WarpPointer {
        src_window: u32,
        dst_window: u32,
        src_x: i16,
        src_y: i16,
        src_width: u16,
        src_height: u16,
        dst_x: i16,
        dst_y: i16,
    },
    SetInputFocus { revert_to: u8, focus: u32, time: u32 },
    GetInputFocus,
    QueryKeymap,
    OpenFont { fid: u32, name: String },
    CloseFont { font: u32 },
    QueryFont { fid: u32 },
    ListFonts { max_names: u16, pattern: String },
    CreatePixmap { depth: u8, pid: u32, drawable: u32, width: u16, height: u16 },
    FreePixmap { pixmap: u32 },
    CreateGC { cid: u32, drawable: u32, value_mask: u32, value_list: [u32; 23] },
    FreeGC { gc: u32 },
    PutImage {
        format: u8,
        drawable: u32,
        gc: u32,
        width: u16,
        height: u16,
        dstx: i16,
        dsty: i16,
        leftpad: u8,
        depth: u8,
        data: Vec<u8>,
    },
    QueryExtension { name: String },
    GetKeyboardControl,
    NoOperation,
}

/// The optional fields of ConfigureWindow, in mask-bit order.
#[derive(Clone, Copy, Debug, Default, PartialEq, Eq)]
pub struct ConfigureValues {
    pub x: u32,
    pub y: u32,
    pub width: u32,
    pub height: u32,
    pub border_width: u32,
    pub sibling: u32,
    pub stack_mode: u32,
}

/// The optional window attributes of CreateWindow and
/// ChangeWindowAttributes, in mask-bit order.
#[derive(Clone, Copy, Debug, Default, PartialEq, Eq)]
pub struct WindowAttributes {
    pub background_pixmap: u32,
    pub background_pixel: u32,
    pub border_pixmap: u32,
    pub border_pixel: u32,
    pub border_gravity: u32,
    pub win_gravity: u32,
    pub backing_store: u32,
    pub backing_planes: u32,
    pub backing_pixel: u32,
    pub override_redirect: u32,
    pub save_under: u32,
    pub event_mask: u32,
    pub do_not_propagate_mask: u32,
    pub colormap: u32,
    pub cursor: u32,
}

/// The four bytes that open every request.
#[derive(Clone, Copy, Debug, PartialEq, Eq, Structural)]
pub struct RequestPrefix {
    pub opcode: u8,
    pub extra: u8,
    pub request_length: u16,
}

/// Why a request could not be decoded.
#[derive(Clone, Copy, Debug, PartialEq, Eq, Structural)]
pub enum DecodeError {
    /// The body's length differs from the length its prefix declares; the
    /// connection cannot go on.
    Framing,
    /// The request is complete but shorter than its opcode's fixed fields
    /// or its name.
    Length { opcode: u8 },
    /// No variant of `Request` belongs to this opcode.
    UnsupportedOpcode { opcode: u8 },
    /// The value list holds a word for a bit beyond the defined slots.
    MalformedValueMask { opcode: u8, mask: u32 },
    /// SendEvent carries an event that is not a client message in format 8, 16 or 32.
    MalformedEvent { code: u8 },
}

/// Number of attribute slots of a window's value list.
pub const WINDOW_ATTRIBUTE_SLOTS: usize = 15;

/// Number of slots of ConfigureWindow's value list.
pub const CONFIGURE_SLOTS: usize = 7;

/// Number of slots of CreateGC's value list.
pub const GC_SLOTS: usize = 23;

/// The name given to what `String::from_utf8_lossy` makes of some bytes.
pub uninterp spec fn lossy_text(b: Seq<u8>) -> Seq<char>;

/// Relies on `String::from_utf8_lossy`: text decoded from the bytes alone,
/// with invalid sequences replaced.
#[verifier::external_body]
fn decode_text(b: &[u8]) -> (r: String)
    ensures
        r@ == lossy_text(b@),
{
    String::from_utf8_lossy(b).into_owned()
}

// ---------------------------------------------------------------------------
// Field layout.

/// The 32-bit field at byte `off` of `b`.
pub open spec fn word_at(e: Endianness, b: Seq<u8>, off: int) -> u32 {
    spec_card32(e, b.subrange(off, off + 4))
}

/// The unsigned 16-bit field at byte `off` of `b`.
pub open spec fn half_at(e: Endianness, b: Seq<u8>, off: int) -> u16 {
    spec_card16(e, b.subrange(off, off + 2))
}

/// The signed 16-bit field at byte `off` of `b`.
pub open spec fn signed_at(e: Endianness, b: Seq<u8>, off: int) -> i16 {
    spec_int16(e, b.subrange(off, off + 2))
}

/// The 32-bit words of `b` from byte `off` on.
pub open spec fn words_from(e: Endianness, b: Seq<u8>, off: int) -> Seq<u32> {
    spec_words(e, b.subrange(off, b.len() as int))
}

// ---------------------------------------------------------------------------
// Value lists.

/// Bit `i` of `mask` is set.
pub open spec fn mask_bit(mask: u32, i: int) -> bool {
    0 <= i < 32 && (mask >> (i as u32)) & 1u32 == 1u32
}

/// The number of set bits of `mask` below bit `i`.
pub open spec fn mask_rank(mask: u32, i: int) -> nat
    decreases i,
{
    if i <= 0 {
        0
    } else {
        mask_rank(mask, i - 1) + if mask_bit(mask, i - 1) {
            1nat
        } else {
            0nat
        }
    }
}

/// Every word of `words` lands in one of the first `slots` slots.
pub open spec fn value_list_fits(mask: u32, slots: int, words: Seq<u32>) -> bool {
    words.len() <= mask_rank(mask, slots)
}

/// The slots filled from `words`: slot `i` takes the word whose position
/// among the words is the number of set bits below `i`, if bit `i` is set
/// and that word is there; else it keeps the default `0`.
pub open spec fn spec_value_list(mask: u32, slots: int, words: Seq<u32>) -> Seq<u32> {
    Seq::new(
        slots as nat,
        |i: int|
            if mask_bit(mask, i) && mask_rank(mask, i) < words.len() {
                words[mask_rank(mask, i) as int]
            } else {
                0u32
            },
    )
}

/// Fills `slots` attribute slots from a value list: set bits of `mask`,
/// from bit 0 upward, each take the next word; the others stay `0`. `None`
/// where a word would land beyond the last slot.
pub fn decode_value_list(mask: u32, slots: usize, words: &[u32]) -> (r: Option<Vec<u32>>)
    requires
        slots <= 32,
    ensures
        match r {
            Some(v) => value_list_fits(mask, slots as int, words@) && v@ == spec_value_list(
                mask,
                slots as int,
                words@,
            ),
            None => !value_list_fits(mask, slots as int, words@),
        },
{
    let mut out: Vec<u32> = Vec::new();
    let mut k: usize = 0;
    let mut i: u32 = 0;
    while (i as usize) < slots
        invariant
            slots <= 32,
            i <= slots,
            k == mask_rank(mask, i as int),
            k <= i,
            out@ == spec_value_list(mask, slots as int, words@).subrange(0, i as int),
        decreases slots - i,
    {
        if (mask >> i) & 1 == 1 {
            if k < words.len() {
                out.push(words[k]);
            } else {
                out.push(0);
            }
            k = k + 1;
        } else {
            out.push(0);
        }
        i = i + 1;
        assert(out@ =~= spec_value_list(mask, slots as int, words@).subrange(0, i as int));
    }
    assert(out@ =~= spec_value_list(mask, slots as int, words@));
    if words.len() > k {
        None
    } else {
        Some(out)
    }
}

/// The window attributes held in 15 slots.
pub open spec fn window_attributes_from(s: Seq<u32>) -> WindowAttributes {
    WindowAttributes {
        background_pixmap: s[0],
        background_pixel: s[1],
        border_pixmap: s[2],
        border_pixel: s[3],
        border_gravity: s[4],
        win_gravity: s[5],
        backing_store: s[6],
        backing_planes: s[7],
        backing_pixel: s[8],
        override_redirect: s[9],
        save_under: s[10],
        event_mask: s[11],
        do_not_propagate_mask: s[12],
        colormap: s[13],
        cursor: s[14],
    }
}

/// The configure values held in 7 slots.
pub open spec fn configure_values_from(s: Seq<u32>) -> ConfigureValues {
    ConfigureValues {
        x: s[0],
        y: s[1],
        width: s[2],
        height: s[3],
        border_width: s[4],
        sibling: s[5],
        stack_mode: s[6],
    }
}

impl WindowAttributes {
    fn from_slots(s: &Vec<u32>) -> (r: WindowAttributes)
        requires
            s@.len() == WINDOW_ATTRIBUTE_SLOTS,
        ensures
            r == window_attributes_from(s@),
    {
        WindowAttributes {
            background_pixmap: s[0],
            background_pixel: s[1],
            border_pixmap: s[2],
            border_pixel: s[3],
            border_gravity: s[4],
            win_gravity: s[5],
            backing_store: s[6],
            backing_planes: s[7],
            backing_pixel: s[8],
            override_redirect: s[9],
            save_under: s[10],
            event_mask: s[11],
            do_not_propagate_mask: s[12],
            colormap: s[13],
            cursor: s[14],
        }
    }
}

impl ConfigureValues {
    fn from_slots(s: &Vec<u32>) -> (r: ConfigureValues)
        requires
            s@.len() == CONFIGURE_SLOTS,
        ensures
            r == configure_values_from(s@),
    {
        ConfigureValues {
            x: s[0],
            y: s[1],
            width: s[2],
            height: s[3],
            border_width: s[4],
            sibling: s[5],
            stack_mode: s[6],
        }
    }
}

// ---------------------------------------------------------------------------
// Wire layout of each opcode.

impl RequestPrefix {
    /// The number of body bytes that follow the prefix.
    pub open spec fn spec_body_length(self) -> int {
        if self.request_length == 0 {
            0
        } else {
            (self.request_length - 1) * 4
        }
    }

    /// Number of body bytes that follow the prefix: the request length in
    /// words, less the prefix's own word.
    pub fn body_length(&self) -> (r: usize)
        ensures
            r == self.spec_body_length(),
    {
        if self.request_length == 0 {
            0
        } else {
            (self.request_length as usize - 1) * 4
        }
    }
}

/// The opcodes that have a variant of `Request`.
pub open spec fn opcode_supported(op: u8) -> bool {
    (1 <= op <= 47) || op == 49 || op == 53 || op == 54 || op == 55 || op == 60 || op == 72
        || op == 98 || op == 103 || op == 114 || op == 127
}

/// The number of body bytes that the fixed fields of an opcode occupy.
pub open spec fn fixed_length(op: u8) -> int {
    if op == 36 || op == 37 || op == 43 || op == 44 || op == 103 || op == 127 {
        0
    } else if op == 1 {
        28
    } else if op == 2 || op == 12 || op == 19 || op == 42 || op == 45 || op == 114 {
        8
    } else if op == 7 || op == 22 || op == 39 || op == 40 || op == 53 || op == 55 {
        12
    } else if op == 18 || op == 20 || op == 24 || op == 26 || op == 28 || op == 41 || op == 72 {
        20
    } else if op == 25 {
        8 + EVENT_LENGTH as int
    } else if op == 29 || op == 34 {
        6
    } else if op == 30 || op == 31 {
        10
    } else if op == 33 {
        9
    } else {
        4
    }
}

/// The byte just past the name of a request that carries one (0 for the others).
pub open spec fn text_end(e: Endianness, op: u8, b: Seq<u8>) -> int {
    if op == 16 || op == 98 {
        4 + half_at(e, b, 0)
    } else if op == 45 {
        8 + half_at(e, b, 4)
    } else if op == 49 {
        4 + half_at(e, b, 2)
    } else {
        0
    }
}

/// The mask, the number of slots and the offset of the words of an opcode
/// that carries a value list.
pub open spec fn value_list_layout(e: Endianness, op: u8, b: Seq<u8>) -> Option<(u32, int, int)> {
    if op == 1 {
        Some((word_at(e, b, 24), WINDOW_ATTRIBUTE_SLOTS as int, 28))
    } else if op == 2 {
        Some((word_at(e, b, 4), WINDOW_ATTRIBUTE_SLOTS as int, 8))
    } else if op == 12 {
        Some((half_at(e, b, 4) as u32, CONFIGURE_SLOTS as int, 8))
    } else if op == 55 {
        Some((word_at(e, b, 8), GC_SLOTS as int, 12))
    } else {
        None
    }
}

/// The attribute slots an opcode's value list fills.
pub open spec fn slots_of(e: Endianness, op: u8, b: Seq<u8>) -> Seq<u32> {
    let (mask, slots, off) = value_list_layout(e, op, b)->Some_0;
    spec_value_list(mask, slots, words_from(e, b, off))
}

/// The error, if any, of decoding body `b` after prefix `p`.
pub open spec fn decode_failure(e: Endianness, p: RequestPrefix, b: Seq<u8>) -> Option<DecodeError> {
    let op = p.opcode;
    if b.len() != p.spec_body_length() {
        Some(DecodeError::Framing)
    } else if op == 0 {
        None
    } else if !opcode_supported(op) {
        Some(DecodeError::UnsupportedOpcode { opcode: op })
    } else if b.len() < fixed_length(op) || b.len() < text_end(e, op, b) {
        Some(DecodeError::Length { opcode: op })
    } else if value_list_layout(e, op, b) is Some && !value_list_fits(
        value_list_layout(e, op, b)->Some_0.0,
        value_list_layout(e, op, b)->Some_0.1,
        words_from(e, b, value_list_layout(e, op, b)->Some_0.2),
    ) {
        Some(DecodeError::MalformedValueMask { opcode: op, mask: value_list_layout(e, op, b)->Some_0.0 })
    } else if op == 25 && !event_known(b.subrange(8, 8 + EVENT_LENGTH as int)) {
        Some(DecodeError::MalformedEvent { code: b[8] })
    } else {
        None
    }
}

/// The bytes of ChangeProperty's data that count: `format` times `count`,
/// or all that are there if fewer.
pub open spec fn property_data_length(format: u8, count: u32, avail: int) -> int {
    if format * count < avail {
        format * count
    } else {
        avail
    }
}

/// The bytes of one scanline of `width` pixels after `left_pad` unused bits,
/// padded to 32 bits.
pub open spec fn bitmap_line_bytes(width: u16, left_pad: u8) -> int {
    (width + left_pad + 31) / 32 * 4
}

/// The bytes of PutImage's data that count: a bitmap has one plane, an
/// XY pixmap `depth` planes, of padded scanlines; a Z pixmap four bytes per
/// pixel; all that are there for another format, or if fewer.
pub open spec fn image_data_length(format: u8, width: u16, height: u16, left_pad: u8, depth: u8, avail: int) -> int {
    let full = if format == 0 {
        height * bitmap_line_bytes(width, left_pad)
    } else if format == 1 {
        depth * (height * bitmap_line_bytes(width, left_pad))
    } else if format == 2 {
        height * (width * 4)
    } else {
        avail
    };
    if full < avail {
        full
    } else {
        avail
    }
}

/// `r` is the request that body `b` after prefix `p` holds.
pub open spec fn decodes_to(e: Endianness, p: RequestPrefix, b: Seq<u8>, r: Request) -> bool {
    let op = p.opcode;
    match r {
        Request::CreateWindow { window, parent, x, y, width, height, border_width, class, visual, values } => {
            &&& op == 1
            &&& window == word_at(e, b, 0)
            &&& parent == word_at(e, b, 4)
            &&& x == half_at(e, b, 8)
            &&& y == half_at(e, b, 10)
            &&& width == half_at(e, b, 12)
            &&& height == half_at(e, b, 14)
            &&& border_width == half_at(e, b, 16)
            &&& class == half_at(e, b, 18)
            &&& visual == word_at(e, b, 20)
            &&& values == window_attributes_from(slots_of(e, op, b))
        },
        Request::ChangeWindowAttributes { window, values } => {
            &&& op == 2
            &&& window == word_at(e, b, 0)
            &&& values == window_attributes_from(slots_of(e, op, b))
        },
        Request::GetWindowAttributes { window } => op == 3 && window == word_at(e, b, 0),
        Request::DestroyWindow { window } => op == 4 && window == word_at(e, b, 0),
        Request::DestroySubwindows { window } => op == 5 && window == word_at(e, b, 0),
        Request::ChangeSaveSet { mode, window } => op == 6 && mode == p.extra && window == word_at(e, b, 0),
        Request::ReparentWindow { window, parent, x, y } => {
            &&& op == 7
            &&& window == word_at(e, b, 0)
            &&& parent == word_at(e, b, 4)
            &&& x == half_at(e, b, 8)
            &&& y == half_at(e, b, 10)
        },
        Request::MapWindow { window } => op == 8 && window == word_at(e, b, 0),
        Request::MapSubwindows { window } => op == 9 && window == word_at(e, b, 0),
        Request::UnmapWindow { window } => op == 10 && window == word_at(e, b, 0),
        Request::UnmapSubwindows { window } => op == 11 && window == word_at(e, b, 0),
        Request::ConfigureWindow { window, values } => {
            &&& op == 12
            &&& window == word_at(e, b, 0)
            &&& values == configure_values_from(slots_of(e, op, b))
        },
        Request::CirculateWindow { direction, window } => {
            op == 13 && direction == p.extra && window == word_at(e, b, 0)
        },
        Request::GetGeometry { drawable } => op == 14 && drawable == word_at(e, b, 0),
        Request::QueryTree { window } => op == 15 && window == word_at(e, b, 0),
        Request::InternAtom { only_if_exists, name } => {
            &&& op == 16
            &&& only_if_exists == (p.extra != 0)
            &&& name@ == lossy_text(b.subrange(4, text_end(e, op, b)))
        },
        Request::GetAtomName { atom } => op == 17 && atom == word_at(e, b, 0),
        Request::ChangeProperty { mode, window, property, ptype, format, data } => {
            &&& op == 18
            &&& mode == p.extra
            &&& window == word_at(e, b, 0)
            &&& property == word_at(e, b, 4)
            &&& ptype == word_at(e, b, 8)
            &&& format == b[12]
            &&& data@ == b.subrange(
                20,
                20 + property_data_length(b[12], word_at(e, b, 16), b.len() - 20),
            )
        },
        Request::DeleteProperty { window, property } => {
            op == 19 && window == word_at(e, b, 0) && property == word_at(e, b, 4)
        },
        Request::GetProperty { delete, window, property, typ, long_offset, long_length } => {
            &&& op == 20
            &&& delete == p.extra
            &&& window == word_at(e, b, 0)
            &&& property == word_at(e, b, 4)
            &&& typ == word_at(e, b, 8)
            &&& long_offset == word_at(e, b, 12)
            &&& long_length == word_at(e, b, 16)
        },
        Request::RotateProperties { window, delta, properties } => {
            &&& op == 114
            &&& window == word_at(e, b, 0)
            &&& delta == signed_at(e, b, 6)
            &&& properties@ == words_from(e, b, 8)
        },
        Request::ListProperties { window } => op == 21 && window == word_at(e, b, 0),
        Request::SetSelectionOwner { owner, selection, time } => {
            &&& op == 22
            &&& owner == word_at(e, b, 0)
            &&& selection == word_at(e, b, 4)
            &&& time == word_at(e, b, 8)
        },
        Request::GetSelectionOwner { selection } => op == 23 && selection == word_at(e, b, 0),
        Request::ConvertSelection { requestor, selection, target, property, time } => {
            &&& op == 24
            &&& requestor == word_at(e, b, 0)
            &&& selection == word_at(e, b, 4)
            &&& target == word_at(e, b, 8)
            &&& property == word_at(e, b, 12)
            &&& time == word_at(e, b, 16)
        },
        Request::SendEvent { propagate, destination, event_mask, event } => {
            &&& op == 25
            &&& propagate == (p.extra != 0)
            &&& destination == word_at(e, b, 0)
            &&& event_mask == word_at(e, b, 4)
            &&& event_decodes_to(e, b.subrange(8, 8 + EVENT_LENGTH as int), event)
        },
        Request::GrabPointer {
            owner_events,
            grab_window,
            event_mask,
            pointer_mode,
            keyboard_mode,
            confine_to,
            cursor,
            time,
        } => {
            &&& op == 26
            &&& owner_events == (p.extra != 0)
            &&& grab_window == word_at(e, b, 0)
            &&& event_mask == half_at(e, b, 4)
            &&& pointer_mode == b[6]
            &&& keyboard_mode == b[7]
            &&& confine_to == word_at(e, b, 8)
            &&& cursor == word_at(e, b, 12)
            &&& time == word_at(e, b, 16)
        },
        Request::UngrabPointer { time } => op == 27 && time == word_at(e, b, 0),
        Request::GrabButton {
            owner_events,
            grab_window,
            event_mask,
            pointer_mode,
            keyboard_mode,
            confine_to,
            cursor,
            button,
            modifiers,
        } => {
            &&& op == 28
            &&& owner_events == (p.extra != 0)
            &&& grab_window == word_at(e, b, 0)
            &&& event_mask == half_at(e, b, 4)
            &&& pointer_mode == b[6]
            &&& keyboard_mode == b[7]
            &&& confine_to == word_at(e, b, 8)
            &&& cursor == word_at(e, b, 12)
            &&& button == b[16]
            &&& modifiers == half_at(e, b, 18)
        },
        Request::UngrabButton { button, grab_window, modifiers } => {
            &&& op == 29
            &&& button == p.extra
            &&& grab_window == word_at(e, b, 0)
            &&& modifiers == half_at(e, b, 4)
        },
        Request::ChangeActivePointerGrab { cursor, time, event_mask } => {
            &&& op == 30
            &&& cursor == word_at(e, b, 0)
            &&& time == word_at(e, b, 4)
            &&& event_mask == half_at(e, b, 8)
        },
        Request::GrabKeyboard { owner_events, grab_window, time, pointer_mode, keyboard_mode } => {
            &&& op == 31
            &&& owner_events == (p.extra != 0)
            &&& grab_window == word_at(e, b, 0)
            &&& time == word_at(e, b, 4)
            &&& pointer_mode == b[8]
            &&& keyboard_mode == b[9]
        },
        Request::UngrabKeyboard { time } => op == 32 && time == word_at(e, b, 0),
        Request::GrabKey { owner_events, grab_window, modifiers, key, pointer_mode, keyboard_mode } => {
            &&& op == 33
            &&& owner_events == (p.extra != 0)
            &&& grab_window == word_at(e, b, 0)
            &&& modifiers == half_at(e, b, 4)
            &&& key == b[6]
            &&& pointer_mode == b[7]
            &&& keyboard_mode == b[8]
        },
        Request::UngrabKey { key, grab_window, modifiers } => {
            &&& op == 34
            &&& key == p.extra
            &&& grab_window == word_at(e, b, 0)
            &&& modifiers == half_at(e, b, 4)
        },
        Request::AllowEvents { mode, time } => op == 35 && mode == p.extra && time == word_at(e, b, 0),
        Request::GrabServer => op == 36,
        Request::UngrabServer => op == 37,
        Request::QueryPointer { window } => op == 38 && window == word_at(e, b, 0),
        Request::GetMotionEvents { window, start, stop } => {
            &&& op == 39
            &&& window == word_at(e, b, 0)
            &&& start == word_at(e, b, 4)
            &&& stop == word_at(e, b, 8)
        },
        Request::TranslateCoordinates { src_window, dst_window, src_x, src_y } => {
            &&& op == 40
            &&& src_window == word_at(e, b, 0)
            &&& dst_window == word_at(e, b, 4)
            &&& src_x == signed_at(e, b, 8)
            &&& src_y == signed_at(e, b, 10)
        },
        Request::WarpPointer {
            src_window,
            dst_window,
            src_x,
            src_y,
            src_width,
            src_height,
            dst_x,
            dst_y,
        } => {
            &&& op == 41
            &&& src_window == word_at(e, b, 0)
            &&& dst_window == word_at(e, b, 4)
            &&& src_x == signed_at(e, b, 8)
            &&& src_y == signed_at(e, b, 10)
            &&& src_width == half_at(e, b, 12)
            &&& src_height == half_at(e, b, 14)
            &&& dst_x == signed_at(e, b, 16)
            &&& dst_y == signed_at(e, b, 18)
        },
        Request::SetInputFocus { revert_to, focus, time } => {
            &&& op == 42
            &&& revert_to == p.extra
            &&& focus == word_at(e, b, 0)
            &&& time == word_at(e, b, 4)
        },
        Request::GetInputFocus => op == 43,
        Request::QueryKeymap => op == 44,
        Request::OpenFont { fid, name } => {
            &&& op == 45
            &&& fid == word_at(e, b, 0)
            &&& name@ == lossy_text(b.subrange(8, text_end(e, op, b)))
        },
        Request::CloseFont { font } => op == 46 && font == word_at(e, b, 0),
        Request::QueryFont { fid } => op == 47 && fid == word_at(e, b, 0),
        Request::ListFonts { max_names, pattern } => {
            &&& op == 49
            &&& max_names == half_at(e, b, 0)
            &&& pattern@ == lossy_text(b.subrange(4, text_end(e, op, b)))
        },
        Request::CreatePixmap { depth, pid, drawable, width, height } => {
            &&& op == 53
            &&& depth == p.extra
            &&& pid == word_at(e, b, 0)
            &&& drawable == word_at(e, b, 4)
            &&& width == half_at(e, b, 8)
            &&& height == half_at(e, b, 10)
        },
        Request::FreePixmap { pixmap } => op == 54 && pixmap == word_at(e, b, 0),
        Request::CreateGC { cid, drawable, value_mask, value_list } => {
            &&& op == 55
            &&& cid == word_at(e, b, 0)
            &&& drawable == word_at(e, b, 4)
            &&& value_mask == word_at(e, b, 8)
            &&& value_list@ == slots_of(e, op, b)
        },
        Request::FreeGC { gc } => op == 60 && gc == word_at(e, b, 0),
        Request::PutImage { format, drawable, gc, width, height, dstx, dsty, leftpad, depth, data } => {
            &&& op == 72
            &&& format == p.extra
            &&& drawable == word_at(e, b, 0)
            &&& gc == word_at(e, b, 4)
            &&& width == half_at(e, b, 8)
            &&& height == half_at(e, b, 10)
            &&& dstx == signed_at(e, b, 12)
            &&& dsty == signed_at(e, b, 14)
            &&& leftpad == b[16]
            &&& depth == b[17]
            &&& data@ == b.subrange(
                20,
                20 + image_data_length(p.extra, width, height, leftpad, depth, b.len() - 20),
            )
        },
        Request::QueryExtension { name } => {
            &&& op == 98
            &&& name@ == lossy_text(b.subrange(4, text_end(e, op, b)))
        },
        Request::GetKeyboardControl => op == 103,
        Request::NoOperation => op == 127,
    }
}

/// `r` is the outcome of decoding body `b` after prefix `p`, as far as it
/// is a request or an error.
pub open spec fn decode_outcome(e: Endianness, p: RequestPrefix, b: Seq<u8>, r: Result<Request, DecodeError>) -> bool {
    match r {
        Ok(req) => decode_failure(e, p, b) is None && decodes_to(e, p, b, req),
        Err(err) => decode_failure(e, p, b) == Some(err),
    }
}

// ---------------------------------------------------------------------------
// The decoder.

impl Connection {
    fn read_word(&self, b: &[u8], off: usize) -> (r: u32)
        requires
            off + 4 <= b@.len(),
        ensures
            r == word_at(self.endianness, b@, off as int),
    {
        // The call brings in that the slice's length fits in `usize`, so
        // the end of the range below does not overflow.
        let _len = b.len();
        self.card32(&b[off..off + 4])
    }

    fn read_half(&self, b: &[u8], off: usize) -> (r: u16)
        requires
            off + 2 <= b@.len(),
        ensures
            r == half_at(self.endianness, b@, off as int),
    {
        // The call brings in that the slice's length fits in `usize`, so
        // the end of the range below does not overflow.
        let _len = b.len();
        self.card16(&b[off..off + 2])
    }

    fn read_signed(&self, b: &[u8], off: usize) -> (r: i16)
        requires
            off + 2 <= b@.len(),
        ensures
            r == signed_at(self.endianness, b@, off as int),
    {
        // The call brings in that the slice's length fits in `usize`, so
        // the end of the range below does not overflow.
        let _len = b.len();
        self.int16(&b[off..off + 2])
    }

    fn words_after(&self, b: &[u8], off: usize) -> (r: Vec<u32>)
        requires
            off <= b@.len(),
            (b@.len() - off) % 4 == 0,
        ensures
            r@ == words_from(self.endianness, b@, off as int),
    {
        self.copy8to32(&b[off..b.len()])
    }

    fn read_text(&self, b: &[u8], start: usize, end: usize) -> (r: String)
        requires
            start <= end <= b@.len(),
        ensures
            r@ == lossy_text(b@.subrange(start as int, end as int)),
    {
        decode_text(&b[start..end])
    }

    /// Reads the four-byte prefix of a request.
    pub fn read_prefix(&self, bytes: &[u8]) -> (r: RequestPrefix)
        requires
            bytes@.len() >= 4,
        ensures
            r.opcode == bytes@[0],
            r.extra == bytes@[1],
            r.request_length == half_at(self.endianness, bytes@, 2),
    {
        RequestPrefix { opcode: bytes[0], extra: bytes[1], request_length: self.read_half(bytes, 2) }
    }

    /// Decodes the body of a request whose prefix has been read. `Ok(None)`
    /// for opcode 0, the end of the requests.
    pub fn read_request(&self, prefix: &RequestPrefix, body: &[u8]) -> (r: Result<
        Option<Request>,
        DecodeError,
    >)
        ensures
            match r {
                Ok(None) => prefix.opcode == 0 && decode_failure(self.endianness, *prefix, body@) is None,
                Ok(Some(req)) => prefix.opcode != 0 && decode_outcome(
                    self.endianness,
                    *prefix,
                    body@,
                    Ok(req),
                ),
                Err(err) => decode_failure(self.endianness, *prefix, body@) == Some(err),
            },
    {
        if body.len() != prefix.body_length() {
            return Err(DecodeError::Framing);
        }
        let op = prefix.opcode;
        let r = if op == 0 {
            return Ok(None);
        } else if op <= 15 {
            self.decode_window_request(prefix, body)
        } else if op <= 25 || op == 114 {
            self.decode_property_request(prefix, body)
        } else if op <= 44 {
            self.decode_input_request(prefix, body)
        } else {
            self.decode_resource_request(prefix, body)
        };
        match r {
            Ok(req) => Ok(Some(req)),
            Err(err) => Err(err),
        }
    }

    fn decode_window_request(&self, p: &RequestPrefix, body: &[u8]) -> (r: Result<Request, DecodeError>)
        requires
            1 <= p.opcode <= 15,
            body@.len() == p.spec_body_length(),
        ensures
            decode_outcome(self.endianness, *p, body@, r),
    {
        let n = body.len();
        let op = p.opcode;
        if n < 4 || (op == 1 && n < 28) || ((op == 2 || op == 12) && n < 8) || (op == 7 && n < 12) {
            return Err(DecodeError::Length { opcode: op });
        }
        let window = self.read_word(body, 0);
        if op == 1 || op == 2 {
            let (mask, off) = if op == 1 {
                (self.read_word(body, 24), 28)
            } else {
                (self.read_word(body, 4), 8)
            };
            let words = self.words_after(body, off);
            let slots = match decode_value_list(mask, WINDOW_ATTRIBUTE_SLOTS, words.as_slice()) {
                Some(v) => v,
                None => {
                    return Err(DecodeError::MalformedValueMask { opcode: op, mask });
                },
            };
            let values = WindowAttributes::from_slots(&slots);
            if op == 1 {
                Ok(
                    Request::CreateWindow {
                        window,
                        parent: self.read_word(body, 4),
                        x: self.read_half(body, 8),
                        y: self.read_half(body, 10),
                        width: self.read_half(body, 12),
                        height: self.read_half(body, 14),
                        border_width: self.read_half(body, 16),
                        class: self.read_half(body, 18),
                        visual: self.read_word(body, 20),
                        values,
                    },
                )
            } else {
                Ok(Request::ChangeWindowAttributes { window, values })
            }
        } else if op == 12 {
            let mask = self.read_half(body, 4) as u32;
            let words = self.words_after(body, 8);
            match decode_value_list(mask, CONFIGURE_SLOTS, words.as_slice()) {
                Some(v) => Ok(Request::ConfigureWindow { window, values: ConfigureValues::from_slots(&v) }),
                None => Err(DecodeError::MalformedValueMask { opcode: op, mask }),
            }
        } else if op == 3 {
            Ok(Request::GetWindowAttributes { window })
        } else if op == 4 {
            Ok(Request::DestroyWindow { window })
        } else if op == 5 {
            Ok(Request::DestroySubwindows { window })
        } else if op == 6 {
            Ok(Request::ChangeSaveSet { mode: p.extra, window })
        } else if op == 7 {
            Ok(
                Request::ReparentWindow {
                    window,
                    parent: self.read_word(body, 4),
                    x: self.read_half(body, 8),
                    y: self.read_half(body, 10),
                },
            )
        } else if op == 8 {
            Ok(Request::MapWindow { window })
        } else if op == 9 {
            Ok(Request::MapSubwindows { window })
        } else if op == 10 {
            Ok(Request::UnmapWindow { window })
        } else if op == 11 {
            Ok(Request::UnmapSubwindows { window })
        } else if op == 13 {
            Ok(Request::CirculateWindow { direction: p.extra, window })
        } else if op == 14 {
            Ok(Request::GetGeometry { drawable: window })
        } else {
            Ok(Request::QueryTree { window })
        }
    }
}

impl Connection {
    fn decode_property_request(&self, p: &RequestPrefix, body: &[u8]) -> (r: Result<Request, DecodeError>)
        requires
            (16 <= p.opcode <= 25) || p.opcode == 114,
            body@.len() == p.spec_body_length(),
        ensures
            decode_outcome(self.endianness, *p, body@, r),
    {
        let n = body.len();
        let op = p.opcode;
        if n < 4 || ((op == 19 || op == 114) && n < 8) || (op == 22 && n < 12) || ((op == 18 || op
            == 20 || op == 24) && n < 20) || (op == 25 && n < 8 + EVENT_LENGTH) {
            return Err(DecodeError::Length { opcode: op });
        }
        if op == 16 {
            let end = 4 + self.read_half(body, 0) as usize;
            if n < end {
                return Err(DecodeError::Length { opcode: op });
            }
            return Ok(Request::InternAtom { only_if_exists: p.extra != 0, name: self.read_text(body, 4, end) });
        }
        let first = self.read_word(body, 0);
        if op == 17 {
            Ok(Request::GetAtomName { atom: first })
        } else if op == 18 {
            let format = body[12];
            let count = self.read_word(body, 16);
            let avail = n - 20;
            assert(format as u64 * count as u64 <= 0xff * 0xffff_ffff) by (nonlinear_arith);
            let logical = format as u64 * count as u64;
            let keep: usize = if logical < avail as u64 {
                logical as usize
            } else {
                avail
            };
            let data = vstd::slice::slice_to_vec(&body[20..20 + keep]);
            Ok(
                Request::ChangeProperty {
                    mode: p.extra,
                    window: first,
                    property: self.read_word(body, 4),
                    ptype: self.read_word(body, 8),
                    format,
                    data,
                },
            )
        } else if op == 19 {
            Ok(Request::DeleteProperty { window: first, property: self.read_word(body, 4) })
        } else if op == 20 {
            Ok(
                Request::GetProperty {
                    delete: p.extra,
                    window: first,
                    property: self.read_word(body, 4),
                    typ: self.read_word(body, 8),
                    long_offset: self.read_word(body, 12),
                    long_length: self.read_word(body, 16),
                },
            )
        } else if op == 21 {
            Ok(Request::ListProperties { window: first })
        } else if op == 22 {
            Ok(
                Request::SetSelectionOwner {
                    owner: first,
                    selection: self.read_word(body, 4),
                    time: self.read_word(body, 8),
                },
            )
        } else if op == 23 {
            Ok(Request::GetSelectionOwner { selection: first })
        } else if op == 24 {
            Ok(
                Request::ConvertSelection {
                    requestor: first,
                    selection: self.read_word(body, 4),
                    target: self.read_word(body, 8),
                    property: self.read_word(body, 12),
                    time: self.read_word(body, 16),
                },
            )
        } else if op == 25 {
            match self.event(&body[8..8 + EVENT_LENGTH]) {
                Some(event) => Ok(
                    Request::SendEvent {
                        propagate: p.extra != 0,
                        destination: first,
                        event_mask: self.read_word(body, 4),
                        event,
                    },
                ),
                None => Err(DecodeError::MalformedEvent { code: body[8] }),
            }
        } else {
            Ok(
                Request::RotateProperties {
                    window: first,
                    delta: self.read_signed(body, 6),
                    properties: self.words_after(body, 8),
                },
            )
        }
    }

    fn decode_input_request(&self, p: &RequestPrefix, body: &[u8]) -> (r: Result<Request, DecodeError>)
        requires
            26 <= p.opcode <= 44,
            body@.len() == p.spec_body_length(),
        ensures
            decode_outcome(self.endianness, *p, body@, r),
    {
        let n = body.len();
        let op = p.opcode;
        if op == 36 {
            return Ok(Request::GrabServer);
        } else if op == 37 {
            return Ok(Request::UngrabServer);
        } else if op == 43 {
            return Ok(Request::GetInputFocus);
        } else if op == 44 {
            return Ok(Request::QueryKeymap);
        }
        if n < 4 || ((op == 29 || op == 34) && n < 6) || (op == 42 && n < 8) || (op == 33 && n < 9)
            || ((op == 30 || op == 31) && n < 10) || ((op == 39 || op == 40) && n < 12) || ((op
            == 26 || op == 28 || op == 41) && n < 20) {
            return Err(DecodeError::Length { opcode: op });
        }
        let first = self.read_word(body, 0);
        if op == 26 {
            Ok(
                Request::GrabPointer {
                    owner_events: p.extra != 0,
                    grab_window: first,
                    event_mask: self.read_half(body, 4),
                    pointer_mode: body[6],
                    keyboard_mode: body[7],
                    confine_to: self.read_word(body, 8),
                    cursor: self.read_word(body, 12),
                    time: self.read_word(body, 16),
                },
            )
        } else if op == 27 {
            Ok(Request::UngrabPointer { time: first })
        } else if op == 28 {
            Ok(
                Request::GrabButton {
                    owner_events: p.extra != 0,
                    grab_window: first,
                    event_mask: self.read_half(body, 4),
                    pointer_mode: body[6],
                    keyboard_mode: body[7],
                    confine_to: self.read_word(body, 8),
                    cursor: self.read_word(body, 12),
                    button: body[16],
                    modifiers: self.read_half(body, 18),
                },
            )
        } else if op == 29 {
            Ok(Request::UngrabButton { button: p.extra, grab_window: first, modifiers: self.read_half(body, 4) })
        } else if op == 30 {
            Ok(
                Request::ChangeActivePointerGrab {
                    cursor: first,
                    time: self.read_word(body, 4),
                    event_mask: self.read_half(body, 8),
                },
            )
        } else if op == 31 {
            Ok(
                Request::GrabKeyboard {
                    owner_events: p.extra != 0,
                    grab_window: first,
                    time: self.read_word(body, 4),
                    pointer_mode: body[8],
                    keyboard_mode: body[9],
                },
            )
        } else if op == 32 {
            Ok(Request::UngrabKeyboard { time: first })
        } else if op == 33 {
            Ok(
                Request::GrabKey {
                    owner_events: p.extra != 0,
                    grab_window: first,
                    modifiers: self.read_half(body, 4),
                    key: body[6],
                    pointer_mode: body[7],
                    keyboard_mode: body[8],
                },
            )
        } else if op == 34 {
            Ok(Request::UngrabKey { key: p.extra, grab_window: first, modifiers: self.read_half(body, 4) })
        } else if op == 35 {
            Ok(Request::AllowEvents { mode: p.extra, time: first })
        } else if op == 38 {
            Ok(Request::QueryPointer { window: first })
        } else if op == 39 {
            Ok(
                Request::GetMotionEvents {
                    window: first,
                    start: self.read_word(body, 4),
                    stop: self.read_word(body, 8),
                },
            )
        } else if op == 40 {
            Ok(
                Request::TranslateCoordinates {
                    src_window: first,
                    dst_window: self.read_word(body, 4),
                    src_x: self.read_signed(body, 8),
                    src_y: self.read_signed(body, 10),
                },
            )
        } else if op == 41 {
            Ok(
                Request::WarpPointer {
                    src_window: first,
                    dst_window: self.read_word(body, 4),
                    src_x: self.read_signed(body, 8),
                    src_y: self.read_signed(body, 10),
                    src_width: self.read_half(body, 12),
                    src_height: self.read_half(body, 14),
                    dst_x: self.read_signed(body, 16),
                    dst_y: self.read_signed(body, 18),
                },
            )
        } else {
            Ok(Request::SetInputFocus { revert_to: p.extra, focus: first, time: self.read_word(body, 4) })
        }
    }

    fn decode_resource_request(&self, p: &RequestPrefix, body: &[u8]) -> (r: Result<Request, DecodeError>)
        requires
            p.opcode >= 45,
            p.opcode != 114,
            body@.len() == p.spec_body_length(),
        ensures
            decode_outcome(self.endianness, *p, body@, r),
    {
        let n = body.len();
        let op = p.opcode;
        if op == 103 {
            return Ok(Request::GetKeyboardControl);
        } else if op == 127 {
            return Ok(Request::NoOperation);
        } else if !(op == 45 || op == 46 || op == 47 || op == 49 || op == 53 || op == 54 || op == 55
            || op == 60 || op == 72 || op == 98) {
            return Err(DecodeError::UnsupportedOpcode { opcode: op });
        }
        if n < 4 || (op == 45 && n < 8) || ((op == 53 || op == 55) && n < 12) || (op == 72 && n
            < 20) {
            return Err(DecodeError::Length { opcode: op });
        }
        if op == 45 || op == 49 || op == 98 {
            let (start, end) = if op == 45 {
                (8, 8 + self.read_half(body, 4) as usize)
            } else if op == 49 {
                (4, 4 + self.read_half(body, 2) as usize)
            } else {
                (4, 4 + self.read_half(body, 0) as usize)
            };
            if n < end {
                return Err(DecodeError::Length { opcode: op });
            }
            let text = self.read_text(body, start, end);
            return if op == 45 {
                Ok(Request::OpenFont { fid: self.read_word(body, 0), name: text })
            } else if op == 49 {
                Ok(Request::ListFonts { max_names: self.read_half(body, 0), pattern: text })
            } else {
                Ok(Request::QueryExtension { name: text })
            };
        }
        let first = self.read_word(body, 0);
        if op == 46 {
            Ok(Request::CloseFont { font: first })
        } else if op == 47 {
            Ok(Request::QueryFont { fid: first })
        } else if op == 53 {
            Ok(
                Request::CreatePixmap {
                    depth: p.extra,
                    pid: first,
                    drawable: self.read_word(body, 4),
                    width: self.read_half(body, 8),
                    height: self.read_half(body, 10),
                },
            )
        } else if op == 54 {
            Ok(Request::FreePixmap { pixmap: first })
        } else if op == 55 {
            let value_mask = self.read_word(body, 8);
            let words = self.words_after(body, 12);
            let slots = match decode_value_list(value_mask, GC_SLOTS, words.as_slice()) {
                Some(v) => v,
                None => {
                    return Err(DecodeError::MalformedValueMask { opcode: op, mask: value_mask });
                },
            };
            let mut value_list = [0u32; 23];
            let mut i: usize = 0;
            while i < GC_SLOTS
                invariant
                    i <= GC_SLOTS,
                    slots@.len() == GC_SLOTS,
                    forall|j: int| 0 <= j < i ==> value_list@[j] == slots@[j],
                decreases GC_SLOTS - i,
            {
                value_list[i] = slots[i];
                i = i + 1;
            }
            assert(value_list@ =~= slots@);
            Ok(Request::CreateGC { cid: first, drawable: self.read_word(body, 4), value_mask, value_list })
        } else if op == 60 {
            Ok(Request::FreeGC { gc: first })
        } else {
            let width = self.read_half(body, 8);
            let height = self.read_half(body, 10);
            let leftpad = body[16];
            let depth = body[17];
            let avail = n - 20;
            let keep = image_data_length_exec(p.extra, width, height, leftpad, depth, avail);
            Ok(
                Request::PutImage {
                    format: p.extra,
                    drawable: first,
                    gc: self.read_word(body, 4),
                    width,
                    height,
                    dstx: self.read_signed(body, 12),
                    dsty: self.read_signed(body, 14),
                    leftpad,
                    depth,
                    data: vstd::slice::slice_to_vec(&body[20..20 + keep]),
                },
            )
        }
    }
}

fn image_data_length_exec(format: u8, width: u16, height: u16, left_pad: u8, depth: u8, avail: usize) -> (r: usize)
    ensures
        r == image_data_length(format, width, height, left_pad, depth, avail as int),
{
    let line = (width as u64 + left_pad as u64 + 31) / 32 * 4;
    assert(height as u64 * line <= 0xffff * 0x2020) by (nonlinear_arith)
        requires
            line <= 0x2020,
    ;
    assert(depth as u64 * (height as u64 * line) <= 0xff * (0xffff * 0x2020)) by (nonlinear_arith)
        requires
            height as u64 * line <= 0xffff * 0x2020,
    ;
    assert(height as u64 * (width as u64 * 4) <= 0xffff * (0xffff * 4)) by (nonlinear_arith);
    let full: u64 = if format == 0 {
        height as u64 * line
    } else if format == 1 {
        depth as u64 * (height as u64 * line)
    } else if format == 2 {
        height as u64 * (width as u64 * 4)
    } else {
        avail as u64
    };
    if full < avail as u64 {
        full as usize
    } else {
        avail
    }
}

} // verus!
