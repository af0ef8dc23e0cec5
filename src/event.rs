//! Events carried inside requests.

use vstd::prelude::*;

use crate::codec::{spec_card16, spec_card32, Endianness};
use crate::connection::Connection;

verus! {

/// The event code of a client message.
pub const CLIENT_MESSAGE: u8 = 33;

/// The byte length of an encoded event.
pub const EVENT_LENGTH: usize = 32;

/// The kinds of event of the protocol; a client message carries its fields.
#[derive(Clone, Copy, Debug, PartialEq, Eq)]
pub enum Event {
    KeyPress,
    KeyRelease,
    ButtonPress,
    ButtonRelease,
    MotionNotify,
    EnterNotify,
    LeaveNotify,
    FocusIn,
    FocusOut,
    KeymapNotify,
    Expose,
    GraphicsExposure,
    NoExposure,
    VisibilityNotify,
    CreateNotify,
    DestroyNotify,
    UnmapNotify,
    MapNotify,
    MapRequest,
    ReparentNotify,
    ConfigureNotify,
    ConfigureRequest,
    GravityNotify,
    ResizeRequest,
    CirculateNotify,
    CirculateRequest,
    PropertyNotify,
    SelectionClear,
    SelectionRequest,
    SelectionNotify,
    ColormapNotify,
    ClientMessage { sequence_number: u16, window: u32, atom_type: u32, data: ClientMessageData },
    MappingNotify,
}

/// The 20 data bytes of a client message, read as bytes, half-words or words.
#[derive(Clone, Copy, Debug, PartialEq, Eq)]
pub enum ClientMessageData {
    Bytes([u8; 20]),
    Shorts([u16; 10]),
    Longs([u32; 5]),
}

/// `b` holds an event that the decoder understands: a client message whose
/// data format is 8, 16 or 32.
pub open spec fn event_known(b: Seq<u8>) -> bool {
    b[0] == CLIENT_MESSAGE && (b[1] == 8 || b[1] == 16 || b[1] == 32)
}

/// `d` is the data of a client message in format `format` stored in the 20
/// bytes `b`.
pub open spec fn client_data_decodes_to(e: Endianness, format: u8, b: Seq<u8>, d: ClientMessageData) -> bool {
    match d {
        ClientMessageData::Bytes(a) => format == 8 && a@ == b.subrange(0, 20),
        ClientMessageData::Shorts(a) => format == 16 && a@ == Seq::new(
            10,
            |i: int| spec_card16(e, b.subrange(2 * i, 2 * i + 2)),
        ),
        ClientMessageData::Longs(a) => format == 32 && a@ == Seq::new(
            5,
            |i: int| spec_card32(e, b.subrange(4 * i, 4 * i + 4)),
        ),
    }
}

/// `ev` is the event stored in the 32 bytes `b`.
pub open spec fn event_decodes_to(e: Endianness, b: Seq<u8>, ev: Event) -> bool {
    match ev {
        Event::ClientMessage { sequence_number, window, atom_type, data } => {
            &&& b[0] == CLIENT_MESSAGE
            &&& sequence_number == spec_card16(e, b.subrange(2, 4))
            &&& window == spec_card32(e, b.subrange(4, 8))
            &&& atom_type == spec_card32(e, b.subrange(8, 12))
            &&& client_data_decodes_to(e, b[1], b.subrange(12, 32), data)
        },
        _ => false,
    }
}

impl Connection {
    /// Decodes the event at the front of `slice`; `None` where it is not a
    /// client message in format 8, 16 or 32.
    pub fn event(&self, slice: &[u8]) -> (r: Option<Event>)
        requires
            slice@.len() >= EVENT_LENGTH,
        ensures
            match r {
                Some(ev) => event_known(slice@) && event_decodes_to(self.endianness, slice@, ev),
                None => !event_known(slice@),
            },
    {
        if slice[0] != CLIENT_MESSAGE {
            return None;
        }
        let format = slice[1];
        let data = if format == 8 {
            let mut a = [0u8; 20];
            let mut i: usize = 0;
            while i < 20
                invariant
                    i <= 20,
                    slice@.len() >= 32,
                    forall|j: int| 0 <= j < i ==> a@[j] == slice@[12 + j],
                decreases 20 - i,
            {
                a[i] = slice[12 + i];
                i = i + 1;
            }
            assert(a@ =~= slice@.subrange(12, 32).subrange(0, 20));
            ClientMessageData::Bytes(a)
        } else if format == 16 {
            let mut a = [0u16; 10];
            let mut i: usize = 0;
            while i < 10
                invariant
                    i <= 10,
                    slice@.len() >= 32,
                    forall|j: int|
                        0 <= j < i ==> a@[j] == spec_card16(
                            self.endianness,
                            slice@.subrange(12, 32).subrange(2 * j, 2 * j + 2),
                        ),
                decreases 10 - i,
            {
                let v = self.card16(&slice[12 + 2 * i..14 + 2 * i]);
                assert(slice@.subrange(12 + 2 * i, 14 + 2 * i) =~= slice@.subrange(12, 32).subrange(
                    2 * i,
                    2 * i + 2,
                ));
                a[i] = v;
                i = i + 1;
            }
            assert(a@ =~= Seq::new(
                10,
                |i: int| spec_card16(self.endianness, slice@.subrange(12, 32).subrange(2 * i, 2 * i + 2)),
            ));
            ClientMessageData::Shorts(a)
        } else if format == 32 {
            let mut a = [0u32; 5];
            let mut i: usize = 0;
            while i < 5
                invariant
                    i <= 5,
                    slice@.len() >= 32,
                    forall|j: int|
                        0 <= j < i ==> a@[j] == spec_card32(
                            self.endianness,
                            slice@.subrange(12, 32).subrange(4 * j, 4 * j + 4),
                        ),
                decreases 5 - i,
            {
                let v = self.card32(&slice[12 + 4 * i..16 + 4 * i]);
                assert(slice@.subrange(12 + 4 * i, 16 + 4 * i) =~= slice@.subrange(12, 32).subrange(
                    4 * i,
                    4 * i + 4,
                ));
                a[i] = v;
                i = i + 1;
            }
            assert(a@ =~= Seq::new(
                5,
                |i: int| spec_card32(self.endianness, slice@.subrange(12, 32).subrange(4 * i, 4 * i + 4)),
            ));
            ClientMessageData::Longs(a)
        } else {
            return None;
        };
        Some(
            Event::ClientMessage {
                sequence_number: self.card16(&slice[2..4]),
                window: self.card32(&slice[4..8]),
                atom_type: self.card32(&slice[8..12]),
                data,
            },
        )
    }
}

} // verus!
