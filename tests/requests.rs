use xaugh::codec::Endianness;
use xaugh::connection::Connection;
use xaugh::event::{ClientMessageData, Event};
use xaugh::request::{decode_value_list, ConfigureValues, DecodeError, Request, RequestPrefix};

fn little() -> Connection {
    Connection { endianness: Endianness::Little, sequence_number: 0 }
}

fn big() -> Connection {
    Connection { endianness: Endianness::Big, sequence_number: 0 }
}

/// Decodes one little-endian request given as opcode, auxiliary byte and body.
fn decode(conn: &Connection, opcode: u8, extra: u8, body: &[u8]) -> Result<Option<Request>, DecodeError> {
    let length = (body.len() / 4 + 1) as u16;
    let bytes = match conn.endianness {
        Endianness::Little => length.to_le_bytes(),
        Endianness::Big => length.to_be_bytes(),
    };
    let prefix = conn.read_prefix(&[opcode, extra, bytes[0], bytes[1]]);
    assert_eq!(prefix.body_length(), body.len());
    conn.read_request(&prefix, body)
}

fn le32(v: u32) -> [u8; 4] {
    v.to_le_bytes()
}

#[test]
fn value_list_fills_slots_by_bit_index() {
    let a = 0xAAAA_AAAA;
    let b = 0xBBBB_BBBB;
    assert_eq!(decode_value_list(0b101, 3, &[a, b]), Some(vec![a, 0, b]));
}

#[test]
fn value_list_keeps_defaults_for_missing_words() {
    assert_eq!(decode_value_list(0b111, 3, &[7]), Some(vec![7, 0, 0]));
    assert_eq!(decode_value_list(0, 4, &[]), Some(vec![0, 0, 0, 0]));
}

#[test]
fn value_list_refuses_words_beyond_the_slots() {
    assert_eq!(decode_value_list(0b1001, 3, &[1, 2]), None);
    assert_eq!(decode_value_list(0b1, 3, &[1, 2]), None);
}

#[test]
fn prefix_reads_opcode_aux_and_length() {
    let p = little().read_prefix(&[16, 1, 3, 0]);
    assert_eq!(p, RequestPrefix { opcode: 16, extra: 1, request_length: 3 });
    assert_eq!(p.body_length(), 8);
    let q = big().read_prefix(&[8, 0, 0, 2]);
    assert_eq!(q.request_length, 2);
    assert_eq!(q.body_length(), 4);
    assert_eq!(RequestPrefix { opcode: 1, extra: 0, request_length: 0 }.body_length(), 0);
}

#[test]
fn opcode_zero_ends_the_requests() {
    assert_eq!(decode(&little(), 0, 0, &[]), Ok(None));
}

#[test]
fn body_of_the_wrong_length_is_a_framing_error() {
    let conn = little();
    let prefix = RequestPrefix { opcode: 8, extra: 0, request_length: 2 };
    assert_eq!(conn.read_request(&prefix, &[1, 0, 0]), Err(DecodeError::Framing));
}

#[test]
fn fixed_layout_requests_decode() {
    let conn = little();
    assert_eq!(decode(&conn, 8, 0, &le32(0x0040_0001)), Ok(Some(Request::MapWindow { window: 0x0040_0001 })));
    assert_eq!(decode(&conn, 54, 0, &le32(9)), Ok(Some(Request::FreePixmap { pixmap: 9 })));
    assert_eq!(decode(&conn, 43, 0, &[]), Ok(Some(Request::GetInputFocus)));
    assert_eq!(decode(&conn, 37, 0, &[]), Ok(Some(Request::UngrabServer)));
    assert_eq!(decode(&conn, 127, 0, &[0, 0, 0, 0]), Ok(Some(Request::NoOperation)));
    assert_eq!(decode(&big(), 6, 1, &[0, 0, 0, 5]), Ok(Some(Request::ChangeSaveSet { mode: 1, window: 5 })));
}

#[test]
fn too_short_body_is_a_length_error() {
    assert_eq!(decode(&little(), 8, 0, &[]), Err(DecodeError::Length { opcode: 8 }));
    assert_eq!(decode(&little(), 1, 0, &[0; 24]), Err(DecodeError::Length { opcode: 1 }));
}

#[test]
fn unsupported_opcode_is_reported() {
    assert_eq!(decode(&little(), 48, 0, &[0; 4]), Err(DecodeError::UnsupportedOpcode { opcode: 48 }));
    assert_eq!(decode(&little(), 200, 0, &[]), Err(DecodeError::UnsupportedOpcode { opcode: 200 }));
}

#[test]
fn reparent_window_reads_its_position() {
    let mut body = Vec::new();
    body.extend_from_slice(&le32(3));
    body.extend_from_slice(&le32(1));
    body.extend_from_slice(&[10, 0, 20, 0]);
    assert_eq!(
        decode(&little(), 7, 0, &body),
        Ok(Some(Request::ReparentWindow { window: 3, parent: 1, x: 10, y: 20 }))
    );
}

#[test]
fn create_window_maps_values_by_mask_bit() {
    let mut body = Vec::new();
    body.extend_from_slice(&le32(0x0060_0001)); // window
    body.extend_from_slice(&le32(1)); // parent
    body.extend_from_slice(&[5, 0, 6, 0, 100, 0, 50, 0, 2, 0, 1, 0]); // x y width height border class
    body.extend_from_slice(&le32(0)); // visual
    body.extend_from_slice(&le32((1 << 1) | (1 << 11))); // background pixel, event mask
    body.extend_from_slice(&le32(0x00FF_FFFF));
    body.extend_from_slice(&le32(0x0002_8000));
    match decode(&little(), 1, 0, &body) {
        Ok(Some(Request::CreateWindow { window, parent, x, y, width, height, border_width, class, visual, values })) => {
            assert_eq!((window, parent, x, y, width, height, border_width, class, visual), (0x0060_0001, 1, 5, 6, 100, 50, 2, 1, 0));
            assert_eq!(values.background_pixel, 0x00FF_FFFF);
            assert_eq!(values.event_mask, 0x0002_8000);
            assert_eq!(values.background_pixmap, 0);
            assert_eq!(values.cursor, 0);
        }
        other => panic!("unexpected {:?}", other),
    }
}

#[test]
fn change_window_attributes_refuses_a_bit_beyond_the_attributes() {
    let mut body = Vec::new();
    body.extend_from_slice(&le32(4));
    body.extend_from_slice(&le32(1 << 20));
    body.extend_from_slice(&le32(7));
    assert_eq!(decode(&little(), 2, 0, &body), Err(DecodeError::MalformedValueMask { opcode: 2, mask: 1 << 20 }));
}

#[test]
fn configure_window_uses_a_sixteen_bit_mask() {
    let mut body = Vec::new();
    body.extend_from_slice(&le32(4));
    body.extend_from_slice(&[0b0100_1000, 0, 0, 0]); // height, stack mode
    body.extend_from_slice(&le32(480));
    body.extend_from_slice(&le32(1));
    let values = ConfigureValues { height: 480, stack_mode: 1, ..ConfigureValues::default() };
    assert_eq!(decode(&little(), 12, 0, &body), Ok(Some(Request::ConfigureWindow { window: 4, values })));
}

#[test]
fn create_gc_fills_its_slots() {
    let mut body = Vec::new();
    body.extend_from_slice(&le32(11));
    body.extend_from_slice(&le32(1));
    body.extend_from_slice(&le32((1 << 2) | (1 << 22)));
    body.extend_from_slice(&le32(0xFF));
    body.extend_from_slice(&le32(1));
    let mut expected = [0u32; 23];
    expected[2] = 0xFF;
    expected[22] = 1;
    assert_eq!(
        decode(&little(), 55, 0, &body),
        Ok(Some(Request::CreateGC { cid: 11, drawable: 1, value_mask: (1 << 2) | (1 << 22), value_list: expected }))
    );
    let mut too_many = body.clone();
    too_many.extend_from_slice(&le32(2));
    assert_eq!(
        decode(&little(), 55, 0, &too_many),
        Err(DecodeError::MalformedValueMask { opcode: 55, mask: (1 << 2) | (1 << 22) })
    );
}

#[test]
fn intern_atom_reads_its_name() {
    let mut body = vec![12, 0, 0, 0];
    body.extend_from_slice(b"WM_PROTOCOLS");
    assert_eq!(
        decode(&little(), 16, 0, &body),
        Ok(Some(Request::InternAtom { only_if_exists: false, name: "WM_PROTOCOLS".to_string() }))
    );
    let mut padded = vec![0, 3, 0, 0];
    padded.extend_from_slice(b"FOO\0");
    assert_eq!(
        decode(&big(), 16, 1, &padded),
        Ok(Some(Request::InternAtom { only_if_exists: true, name: "FOO".to_string() }))
    );
}

#[test]
fn invalid_text_is_replaced() {
    let body = vec![2, 0, 0, 0, b'A', 0xFF, 0, 0];
    assert_eq!(
        decode(&little(), 98, 0, &body),
        Ok(Some(Request::QueryExtension { name: "A\u{FFFD}".to_string() }))
    );
}

#[test]
fn name_longer_than_the_body_is_a_length_error() {
    let body = vec![9, 0, 0, 0, b'A', b'B', b'C', b'D'];
    assert_eq!(decode(&little(), 16, 0, &body), Err(DecodeError::Length { opcode: 16 }));
}

#[test]
fn open_font_and_list_fonts_read_their_names() {
    let mut body = Vec::new();
    body.extend_from_slice(&le32(0x0010_0000));
    body.extend_from_slice(&[5, 0, 0, 0]);
    body.extend_from_slice(b"fixed\0\0\0");
    assert_eq!(
        decode(&little(), 45, 0, &body),
        Ok(Some(Request::OpenFont { fid: 0x0010_0000, name: "fixed".to_string() }))
    );
    let body = vec![0xFF, 0xFF, 1, 0, b'*', 0, 0, 0];
    assert_eq!(
        decode(&little(), 49, 0, &body),
        Ok(Some(Request::ListFonts { max_names: 0xFFFF, pattern: "*".to_string() }))
    );
}

#[test]
fn change_property_keeps_format_times_count_bytes() {
    let mut body = Vec::new();
    body.extend_from_slice(&le32(2)); // window
    body.extend_from_slice(&le32(39)); // property
    body.extend_from_slice(&le32(31)); // type
    body.extend_from_slice(&[8, 0, 0, 0]); // format
    body.extend_from_slice(&le32(1)); // count
    body.extend_from_slice(&[1, 2, 3, 4, 5, 6, 7, 8, 9, 10, 11, 12]);
    assert_eq!(
        decode(&little(), 18, 0, &body),
        Ok(Some(Request::ChangeProperty { mode: 0, window: 2, property: 39, ptype: 31, format: 8, data: vec![1, 2, 3, 4, 5, 6, 7, 8] }))
    );
    body[16] = 100;
    match decode(&little(), 18, 0, &body) {
        Ok(Some(Request::ChangeProperty { data, .. })) => assert_eq!(data.len(), 12),
        other => panic!("unexpected {:?}", other),
    }
}

#[test]
fn put_image_keeps_the_image_bytes() {
    let mut body = Vec::new();
    body.extend_from_slice(&le32(1)); // drawable
    body.extend_from_slice(&le32(2)); // gc
    body.extend_from_slice(&[2, 0, 1, 0]); // width 2, height 1
    body.extend_from_slice(&[0xFE, 0xFF, 3, 0]); // dst x -2, dst y 3
    body.extend_from_slice(&[0, 24, 0, 0]); // left pad, depth
    body.extend_from_slice(&[1, 2, 3, 4, 5, 6, 7, 8, 9, 9, 9, 9]);
    assert_eq!(
        decode(&little(), 72, 2, &body),
        Ok(Some(Request::PutImage {
            format: 2,
            drawable: 1,
            gc: 2,
            width: 2,
            height: 1,
            dstx: -2,
            dsty: 3,
            leftpad: 0,
            depth: 24,
            data: vec![1, 2, 3, 4, 5, 6, 7, 8],
        }))
    );
    // A bitmap of 2 pixels takes one padded word per line.
    match decode(&little(), 72, 0, &body) {
        Ok(Some(Request::PutImage { data, .. })) => assert_eq!(data, vec![1, 2, 3, 4]),
        other => panic!("unexpected {:?}", other),
    }
}

#[test]
fn rotate_properties_reads_its_atoms() {
    let mut body = Vec::new();
    body.extend_from_slice(&le32(5));
    body.extend_from_slice(&[2, 0, 0xFF, 0xFF]);
    body.extend_from_slice(&le32(40));
    body.extend_from_slice(&le32(41));
    assert_eq!(
        decode(&little(), 114, 0, &body),
        Ok(Some(Request::RotateProperties { window: 5, delta: -1, properties: vec![40, 41] }))
    );
}

#[test]
fn grab_button_reads_button_and_modifiers() {
    let mut body = Vec::new();
    body.extend_from_slice(&le32(1));
    body.extend_from_slice(&[4, 0, 1, 1]);
    body.extend_from_slice(&le32(0));
    body.extend_from_slice(&le32(0));
    body.extend_from_slice(&[3, 0, 0x40, 0]);
    assert_eq!(
        decode(&little(), 28, 1, &body),
        Ok(Some(Request::GrabButton {
            owner_events: true,
            grab_window: 1,
            event_mask: 4,
            pointer_mode: 1,
            keyboard_mode: 1,
            confine_to: 0,
            cursor: 0,
            button: 3,
            modifiers: 0x40,
        }))
    );
}

#[test]
fn warp_pointer_reads_signed_fields() {
    let mut body = Vec::new();
    body.extend_from_slice(&le32(0));
    body.extend_from_slice(&le32(1));
    body.extend_from_slice(&[0, 0, 0, 0, 0, 0, 0, 0]);
    body.extend_from_slice(&[0xF6, 0xFF, 20, 0]);
    assert_eq!(
        decode(&little(), 41, 0, &body),
        Ok(Some(Request::WarpPointer { src_window: 0, dst_window: 1, src_x: 0, src_y: 0, src_width: 0, src_height: 0, dst_x: -10, dst_y: 20 }))
    );
}

fn client_message(format: u8) -> Vec<u8> {
    let mut ev = vec![33, format];
    ev.extend_from_slice(&[7, 0]);
    ev.extend_from_slice(&le32(0x0050_0000));
    ev.extend_from_slice(&le32(300));
    for i in 0..20u8 {
        ev.push(i);
    }
    ev
}

fn send_event_body(event: &[u8]) -> Vec<u8> {
    let mut body = Vec::new();
    body.extend_from_slice(&le32(1));
    body.extend_from_slice(&le32(0));
    body.extend_from_slice(event);
    body
}

#[test]
fn send_event_carries_a_client_message() {
    let mut bytes = [0u8; 20];
    for i in 0..20 {
        bytes[i] = i as u8;
    }
    let expected = Event::ClientMessage { sequence_number: 7, window: 0x0050_0000, atom_type: 300, data: ClientMessageData::Bytes(bytes) };
    assert_eq!(
        decode(&little(), 25, 1, &send_event_body(&client_message(8))),
        Ok(Some(Request::SendEvent { propagate: true, destination: 1, event_mask: 0, event: expected }))
    );
}

#[test]
fn client_message_data_follows_its_format() {
    let conn = little();
    match conn.event(&client_message(16)) {
        Some(Event::ClientMessage { data: ClientMessageData::Shorts(s), .. }) => {
            assert_eq!(s[0], 0x0100);
            assert_eq!(s[9], 0x1312);
        }
        other => panic!("unexpected {:?}", other),
    }
    match conn.event(&client_message(32)) {
        Some(Event::ClientMessage { data: ClientMessageData::Longs(l), .. }) => {
            assert_eq!(l, [0x0302_0100, 0x0706_0504, 0x0B0A_0908, 0x0F0E_0D0C, 0x1312_1110]);
        }
        other => panic!("unexpected {:?}", other),
    }
    assert_eq!(conn.event(&client_message(7)), None);
}

#[test]
fn send_event_with_an_unknown_event_is_malformed() {
    let mut ev = client_message(8);
    ev[0] = 12;
    assert_eq!(decode(&little(), 25, 0, &send_event_body(&ev)), Err(DecodeError::MalformedEvent { code: 12 }));
}
