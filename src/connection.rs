//! The per-connection session and the connection handshake.

use vstd::prelude::*;

use crate::codec::{
    pad, push_bytes, push_zeros, spec_bytes16, spec_bytes32, spec_card16, spec_card32, spec_int16,
    spec_pad, spec_words, zeros, Endianness,
};
use crate::pixmap::{formats_bytes, lemma_formats_length, push_formats, PixmapFormat};
use crate::request::half_at;
use crate::screen::{depth_bytes, screen_bytes, visual_bytes, Depth, Screen, Visual};

verus! {

/// State negotiated for one client connection.
#[derive(Clone, Copy, Debug, PartialEq, Eq, Structural)]
pub struct Connection {
    pub endianness: Endianness,
    pub sequence_number: u16,
}

impl Connection {
    /// Reads an unsigned 32-bit value in the session's byte order.
    pub fn card32(&self, bytes: &[u8]) -> (r: u32)
        requires
            bytes@.len() >= 4,
        ensures
            r == spec_card32(self.endianness, bytes@),
    {
        self.endianness.card32(bytes)
    }

    /// Reads an unsigned 16-bit value in the session's byte order.
    pub fn card16(&self, bytes: &[u8]) -> (r: u16)
        requires
            bytes@.len() >= 2,
        ensures
            r == spec_card16(self.endianness, bytes@),
    {
        self.endianness.card16(bytes)
    }

    /// Reads a signed 16-bit value in the session's byte order.
    pub fn int16(&self, bytes: &[u8]) -> (r: i16)
        requires
            bytes@.len() >= 2,
        ensures
            r == spec_int16(self.endianness, bytes@),
    {
        self.endianness.int16(bytes)
    }

    /// Splits `source` into 32-bit words in the session's byte order.
    pub fn copy8to32(&self, source: &[u8]) -> (r: Vec<u32>)
        requires
            source@.len() % 4 == 0,
        ensures
            r@ == spec_words(self.endianness, source@),
    {
        self.endianness.copy8to32(source)
    }

    /// The wire bytes of a 32-bit value in the session's byte order.
    pub fn to_bytes_32(&self, val: u32) -> (r: [u8; 4])
        ensures
            r@ == spec_bytes32(self.endianness, val),
    {
        self.endianness.to_bytes_32(val)
    }

    /// The wire bytes of a 16-bit value in the session's byte order.
    pub fn to_bytes_16(&self, val: u16) -> (r: [u8; 2])
        ensures
            r@ == spec_bytes16(self.endianness, val),
    {
        self.endianness.to_bytes_16(val)
    }
}

/// The vendor name this server announces.
pub const VENDOR: &'static str = "Xaugh X Server";

/// The byte length of the client's connection prefix.
pub const CLIENT_PREFIX_LENGTH: usize = 12;

/// Why a handshake failed.
#[derive(Clone, Copy, Debug, PartialEq, Eq, Structural)]
pub enum HandshakeError {
    /// The stream ended before the 12-byte prefix was complete.
    Truncated,
    /// The first byte names neither byte order.
    InvalidByteOrder { byte: u8 },
}

/// The fields of the client's connection prefix.
#[derive(Clone, Copy, Debug, Default, PartialEq, Eq)]
pub struct ConnClientPrefix {
    pub endian: u8,
    pub major: u16,
    pub minor: u16,
    pub n_auth_name: u16,
    pub d_auth_data: u16,
}

/// The prefix of the server's reply to a connection.
#[derive(Clone, Copy, Debug, Default, PartialEq, Eq)]
pub struct ConnSetupPrefix {
    pub success: u8,
    pub length_reason: u8,
    pub major: u16,
    pub minor: u16,
    pub additional_length: u16,
}

/// The fixed block of server information sent on connection.
#[derive(Clone, Copy, Debug, Default, PartialEq, Eq)]
pub struct ConnSetup {
    pub release: u32,
    pub rid_base: u32,
    pub rid_mask: u32,
    pub motion_buffer_size: u32,
    pub v_bytes_vendor: u16,
    pub max_request_size: u16,
    pub num_roots: u8,
    pub num_formats: u8,
    pub image_byte_order: u8,
    pub bitmap_bit_order: u8,
    pub bitmap_scanline_unit: u8,
    pub bitmap_scanline_pad: u8,
    pub min_keycode: u8,
    pub max_keycode: u8,
    pub pad2: u32,
}

/// What the server announces to each client: the fixed block, the vendor
/// name, the pixel formats and one screen with one depth and one visual.
#[derive(Clone, Debug)]
pub struct ServerInfo {
    pub setup: ConnSetup,
    pub vendor: Vec<u8>,
    pub formats: Vec<PixmapFormat>,
    pub screen: Screen,
    pub depth: Depth,
    pub visual: Visual,
}

/// The byte order that a client's first byte selects.
pub open spec fn byte_order(b: u8) -> Option<Endianness> {
    if b == 0x42 {
        Some(Endianness::Big)
    } else if b == 0x6c {
        Some(Endianness::Little)
    } else {
        None
    }
}

/// The 32 wire bytes of the fixed server-information block.
pub open spec fn setup_bytes(e: Endianness, s: ConnSetup) -> Seq<u8> {
    spec_bytes32(e, s.release) + spec_bytes32(e, s.rid_base) + spec_bytes32(e, s.rid_mask) + spec_bytes32(
        e,
        s.motion_buffer_size,
    ) + spec_bytes16(e, s.v_bytes_vendor) + spec_bytes16(e, s.max_request_size) + seq![
        s.num_roots,
        s.num_formats,
        s.image_byte_order,
        s.bitmap_bit_order,
        s.bitmap_scanline_unit,
        s.bitmap_scanline_pad,
        s.min_keycode,
        s.max_keycode,
    ] + spec_bytes32(e, s.pad2)
}

/// Everything that follows the reply prefix.
#[verifier::opaque]
pub open spec fn additional_bytes(e: Endianness, info: ServerInfo) -> Seq<u8> {
    setup_bytes(e, info.setup) + info.vendor@ + zeros(spec_pad(info.vendor@.len() as int))
        + formats_bytes(e, info.formats@) + screen_bytes(e, info.screen) + depth_bytes(e, info.depth)
        + visual_bytes(e, info.visual)
}

/// The eight wire bytes of the reply prefix.
pub open spec fn setup_prefix_bytes(e: Endianness, p: ConnSetupPrefix) -> Seq<u8> {
    seq![p.success, p.length_reason] + spec_bytes16(e, p.major) + spec_bytes16(e, p.minor) + spec_bytes16(
        e,
        p.additional_length,
    )
}

/// The whole reply to a successful handshake.
pub open spec fn setup_reply_bytes(e: Endianness, major: u16, minor: u16, info: ServerInfo) -> Seq<u8> {
    setup_prefix_bytes(
        e,
        ConnSetupPrefix {
            success: 1,
            length_reason: 0,
            major,
            minor,
            additional_length: (additional_bytes(e, info).len() / 4) as u16,
        },
    ) + additional_bytes(e, info)
}

/// The client prefix that the 12 bytes `b` hold in byte order `e`.
pub open spec fn client_prefix_of(e: Endianness, b: Seq<u8>) -> ConnClientPrefix {
    ConnClientPrefix {
        endian: b[0],
        major: half_at(e, b, 2),
        minor: half_at(e, b, 4),
        n_auth_name: half_at(e, b, 6),
        d_auth_data: half_at(e, b, 8),
    }
}

impl ServerInfo {
    /// The counts in the fixed block and the screen match what is there.
    pub open spec fn wf(&self) -> bool {
        &&& self.vendor@.len() == self.setup.v_bytes_vendor
        &&& self.formats@.len() == self.setup.num_formats
        &&& self.setup.num_roots == 1
        &&& self.screen.num_depths == 1
        &&& self.depth.number_of_visuals == 1
    }

    /// Whether the counts in the fixed block and the screen match what is there.
    pub fn is_valid(&self) -> (r: bool)
        ensures
            r == self.wf(),
    {
        self.vendor.len() == self.setup.v_bytes_vendor as usize && self.formats.len()
            == self.setup.num_formats as usize && self.setup.num_roots == 1 && self.screen.num_depths
            == 1 && self.depth.number_of_visuals == 1
    }

    /// The information this server announces: one 1920x1080 screen with a
    /// single true-color visual.
    pub fn standard() -> (r: ServerInfo)
        ensures
            r.wf(),
            r.vendor@ == Seq::new(VENDOR@.len(), |i: int| VENDOR@[i] as u8),
            r.setup == (ConnSetup {
                release: 1,
                rid_base: 0x4600000,
                rid_mask: 0x01fffff,
                motion_buffer_size: 256,
                v_bytes_vendor: r.vendor@.len() as u16,
                max_request_size: 65535,
                num_roots: 1,
                num_formats: 1,
                image_byte_order: 0,
                bitmap_bit_order: 0,
                bitmap_scanline_unit: 32,
                bitmap_scanline_pad: 32,
                min_keycode: 8,
                max_keycode: 255,
                pad2: 0,
            }),
            r.formats@ == seq![PixmapFormat { depth: 1, bpp: 32, scanline_pad: 0, pad0: 0, pad1: 0 }],
            r.screen == (Screen {
                root_window: 1,
                default_colormap: 1,
                white_pixel: 1,
                black_pixel: 0,
                current_input_masks: 0,
                width_px: 1920,
                height_px: 1080,
                width_mm: 192,
                height_mm: 108,
                min_installed_maps: 1,
                max_installed_maps: 1,
                root_visual: 1,
                backing_stores: 0,
                save_unders: 0,
                root_depth: 1,
                num_depths: 1,
            }),
            r.depth == (Depth { depth: 1, pad0: 0, number_of_visuals: 1, pad1: 0 }),
            r.visual == (Visual {
                visual_id: 1,
                class: 4,
                bits_per_rgb_val: 32,
                colormap_entries: 256,
                red_mask: 0xFF,
                green_mask: 0xFF00,
                blue_mask: 0xFF0000,
                pad0: 0,
            }),
    {
        let vendor = VENDOR.as_bytes();
        proof {
            reveal_strlit("Xaugh X Server");
            assert(vstd::string::is_ascii(VENDOR));
            vstd::string::is_ascii_spec_bytes(VENDOR);
        }
        let mut formats: Vec<PixmapFormat> = Vec::new();
        formats.push(PixmapFormat { depth: 1, bpp: 32, scanline_pad: 0, pad0: 0, pad1: 0 });
        assert(formats@ =~= seq![PixmapFormat { depth: 1, bpp: 32, scanline_pad: 0, pad0: 0, pad1: 0 }]);
        ServerInfo {
            setup: ConnSetup {
                release: 1,
                rid_base: 0x4600000,
                rid_mask: 0x01fffff,
                motion_buffer_size: 256,
                v_bytes_vendor: vendor.len() as u16,
                max_request_size: 65535,
                num_roots: 1,
                num_formats: 1,
                image_byte_order: 0,
                bitmap_bit_order: 0,
                bitmap_scanline_unit: 32,
                bitmap_scanline_pad: 32,
                min_keycode: 8,
                max_keycode: 255,
                pad2: 0,
            },
            vendor: vstd::slice::slice_to_vec(vendor),
            formats,
            screen: Screen {
                root_window: 1,
                default_colormap: 1,
                white_pixel: 1,
                black_pixel: 0,
                current_input_masks: 0,
                width_px: 1920,
                height_px: 1080,
                width_mm: 192,
                height_mm: 108,
                min_installed_maps: 1,
                max_installed_maps: 1,
                root_visual: 1,
                backing_stores: 0,
                save_unders: 0,
                root_depth: 1,
                num_depths: 1,
            },
            depth: Depth { depth: 1, pad0: 0, number_of_visuals: 1, pad1: 0 },
            visual: Visual {
                visual_id: 1,
                class: 4,
                bits_per_rgb_val: 32,
                colormap_entries: 256,
                red_mask: 0xFF,
                green_mask: 0xFF00,
                blue_mask: 0xFF0000,
                pad0: 0,
            },
        }
    }
}

impl ConnClientPrefix {
    /// Reads the client's 12-byte connection prefix.
    pub fn parse(bytes: &[u8]) -> (r: Result<ConnClientPrefix, HandshakeError>)
        ensures
            match r {
                Ok(p) => {
                    &&& bytes@.len() >= CLIENT_PREFIX_LENGTH
                    &&& byte_order(bytes@[0]) is Some
                    &&& p == client_prefix_of(byte_order(bytes@[0])->Some_0, bytes@)
                },
                Err(HandshakeError::Truncated) => bytes@.len() < CLIENT_PREFIX_LENGTH,
                Err(HandshakeError::InvalidByteOrder { byte }) => bytes@.len() >= CLIENT_PREFIX_LENGTH
                    && byte_order(bytes@[0]) is None && byte == bytes@[0],
            },
    {
        if bytes.len() < CLIENT_PREFIX_LENGTH {
            return Err(HandshakeError::Truncated);
        }
        let e = if bytes[0] == 0x42 {
            Endianness::Big
        } else if bytes[0] == 0x6c {
            Endianness::Little
        } else {
            return Err(HandshakeError::InvalidByteOrder { byte: bytes[0] });
        };
        Ok(
            ConnClientPrefix {
                endian: bytes[0],
                major: e.card16(&bytes[2..4]),
                minor: e.card16(&bytes[4..6]),
                n_auth_name: e.card16(&bytes[6..8]),
                d_auth_data: e.card16(&bytes[8..10]),
            },
        )
    }

    /// The number of bytes of authorization name and data, each padded to
    /// four bytes, that follow the prefix.
    pub fn auth_length(&self) -> (r: usize)
        ensures
            r == self.n_auth_name + spec_pad(self.n_auth_name as int) + self.d_auth_data + spec_pad(
                self.d_auth_data as int,
            ),
    {
        let n = self.n_auth_name as usize;
        let d = self.d_auth_data as usize;
        n + pad(n) + d + pad(d)
    }
}

/// A handshake reply opens with the success byte 1 and echoes the client's
/// major and minor version, read back in the negotiated byte order.
pub proof fn lemma_reply_echoes_version(e: Endianness, major: u16, minor: u16, info: ServerInfo)
    ensures
        ({
            let b = setup_reply_bytes(e, major, minor, info);
            &&& b[0] == 1
            &&& spec_card16(e, b.subrange(2, 4)) == major
            &&& spec_card16(e, b.subrange(4, 6)) == minor
        }),
{
    let b = setup_reply_bytes(e, major, minor, info);
    crate::codec::lemma_round_trip16(e, major);
    crate::codec::lemma_round_trip16(e, minor);
    assert(b.subrange(2, 4) =~= spec_bytes16(e, major));
    assert(b.subrange(4, 6) =~= spec_bytes16(e, minor));
}

/// The length of everything that follows the reply prefix: a whole number
/// of words that fits in the prefix's 16-bit length field.
pub proof fn lemma_additional_length(e: Endianness, info: ServerInfo)
    requires
        info.wf(),
    ensures
        additional_bytes(e, info).len() % 4 == 0,
        additional_bytes(e, info).len() / 4 <= u16::MAX,
{
    reveal(additional_bytes);
    lemma_formats_length(e, info.formats@);
    lemma_record_lengths(e, info);
    let v = info.vendor@.len() as int;
    let f = info.formats@.len() as int;
    let p = spec_pad(v);
    let total = additional_bytes(e, info).len() as int;
    assert(total == 104 + (v + p) + 8 * f);
    assert((v + p) % 4 == 0);
    assert(total % 4 == 0 && total / 4 <= u16::MAX) by (nonlinear_arith)
        requires
            total == 104 + (v + p) + 8 * f,
            (v + p) % 4 == 0,
            0 <= v <= 0xffff,
            0 <= p < 4,
            0 <= f <= 0xff,
    ;
}

proof fn lemma_record_lengths(e: Endianness, info: ServerInfo)
    ensures
        setup_bytes(e, info.setup).len() == 32,
        screen_bytes(e, info.screen).len() == 40,
        depth_bytes(e, info.depth).len() == 8,
        visual_bytes(e, info.visual).len() == 24,
{
}

impl ConnSetup {
    /// Appends the wire bytes of the fixed block to `out`.
    fn push_bytes(&self, e: Endianness, out: &mut Vec<u8>)
        ensures
            final(out)@ == old(out)@ + setup_bytes(e, *self),
    {
        e.push32(out, self.release);
        e.push32(out, self.rid_base);
        e.push32(out, self.rid_mask);
        e.push32(out, self.motion_buffer_size);
        e.push16(out, self.v_bytes_vendor);
        e.push16(out, self.max_request_size);
        out.push(self.num_roots);
        out.push(self.num_formats);
        out.push(self.image_byte_order);
        out.push(self.bitmap_bit_order);
        out.push(self.bitmap_scanline_unit);
        out.push(self.bitmap_scanline_pad);
        out.push(self.min_keycode);
        out.push(self.max_keycode);
        e.push32(out, self.pad2);
        assert(out@ =~= old(out)@ + setup_bytes(e, *self));
    }
}

impl ConnSetupPrefix {
    /// Appends the wire bytes of the reply prefix to `out`.
    fn push_bytes(&self, e: Endianness, out: &mut Vec<u8>)
        ensures
            final(out)@ == old(out)@ + setup_prefix_bytes(e, *self),
    {
        out.push(self.success);
        out.push(self.length_reason);
        e.push16(out, self.major);
        e.push16(out, self.minor);
        e.push16(out, self.additional_length);
        assert(out@ =~= old(out)@ + setup_prefix_bytes(e, *self));
    }
}

fn additional_data(e: Endianness, info: &ServerInfo) -> (r: Vec<u8>)
    ensures
        r@ == additional_bytes(e, *info),
{
    let mut data: Vec<u8> = Vec::new();
    info.setup.push_bytes(e, &mut data);
    push_bytes(&mut data, info.vendor.as_slice());
    push_zeros(&mut data, pad(info.vendor.len()) as u64);
    push_formats(e, &mut data, &info.formats);
    info.screen.push_bytes(e, &mut data);
    info.depth.push_bytes(e, &mut data);
    info.visual.push_bytes(e, &mut data);
    reveal(additional_bytes);
    assert(data@ =~= additional_bytes(e, *info));
    data
}

/// Encodes the reply to a successful handshake: the prefix echoing the
/// client's version, then the server information.
pub fn setup_reply(e: Endianness, major: u16, minor: u16, info: &ServerInfo) -> (r: Vec<u8>)
    requires
        info.wf(),
    ensures
        r@ == setup_reply_bytes(e, major, minor, *info),
        r@.len() == 8 + 4 * spec_card16(e, r@.subrange(6, 8)),
{
    let data = additional_data(e, info);
    proof {
        lemma_additional_length(e, *info);
    }
    let prefix = ConnSetupPrefix {
        success: 1,
        length_reason: 0,
        major,
        minor,
        additional_length: (data.len() / 4) as u16,
    };
    let mut r: Vec<u8> = Vec::new();
    prefix.push_bytes(e, &mut r);
    push_bytes(&mut r, data.as_slice());
    proof {
        crate::codec::lemma_round_trip16(e, prefix.additional_length);
        assert(r@.subrange(6, 8) =~= spec_bytes16(e, prefix.additional_length));
    }
    r
}

/// Performs the handshake on the client's 12-byte prefix: picks the byte
/// order, and returns the new session, with sequence number 0, and the
/// reply that announces `info`.
pub fn establish_connection(prefix: &[u8], info: &ServerInfo) -> (r: Result<(Connection, Vec<u8>), HandshakeError>)
    requires
        info.wf(),
    ensures
        match r {
            Ok((c, reply)) => {
                &&& prefix@.len() >= CLIENT_PREFIX_LENGTH
                &&& byte_order(prefix@[0]) == Some(c.endianness)
                &&& c.sequence_number == 0
                &&& reply@ == setup_reply_bytes(
                    c.endianness,
                    half_at(c.endianness, prefix@, 2),
                    half_at(c.endianness, prefix@, 4),
                    *info,
                )
            },
            Err(HandshakeError::Truncated) => prefix@.len() < CLIENT_PREFIX_LENGTH,
            Err(HandshakeError::InvalidByteOrder { byte }) => prefix@.len() >= CLIENT_PREFIX_LENGTH
                && byte_order(prefix@[0]) is None && byte == prefix@[0],
        },
{
    let client = match ConnClientPrefix::parse(prefix) {
        Ok(p) => p,
        Err(err) => {
            return Err(err);
        },
    };
    let endianness = if client.endian == 0x42 {
        Endianness::Big
    } else {
        Endianness::Little
    };
    let reply = setup_reply(endianness, client.major, client.minor, info);
    Ok((Connection { endianness, sequence_number: 0 }, reply))
}

} // verus!
