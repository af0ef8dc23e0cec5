use xaugh::codec::Endianness;
use xaugh::connection::{establish_connection, setup_reply, ConnClientPrefix, HandshakeError, ServerInfo};

fn little_prefix(major: u16, minor: u16, n: u16, d: u16) -> Vec<u8> {
    let mut b = vec![b'l', 0];
    b.extend_from_slice(&major.to_le_bytes());
    b.extend_from_slice(&minor.to_le_bytes());
    b.extend_from_slice(&n.to_le_bytes());
    b.extend_from_slice(&d.to_le_bytes());
    b.extend_from_slice(&[0, 0]);
    b
}

#[test]
fn little_endian_handshake_echoes_the_version() {
    let info = ServerInfo::standard();
    let (conn, reply) = establish_connection(&little_prefix(11, 0, 0, 0), &info).unwrap();
    assert_eq!(conn.endianness, Endianness::Little);
    assert_eq!(conn.sequence_number, 0);
    assert_eq!(reply[0], 1);
    assert_eq!(u16::from_le_bytes([reply[2], reply[3]]), 11);
    assert_eq!(u16::from_le_bytes([reply[4], reply[5]]), 0);
}

#[test]
fn big_endian_handshake_uses_big_endian_fields() {
    let prefix = [b'B', 0, 0, 11, 0, 3, 0, 0, 0, 0, 0, 0];
    let (conn, reply) = establish_connection(&prefix, &ServerInfo::standard()).unwrap();
    assert_eq!(conn.endianness, Endianness::Big);
    assert_eq!(&reply[0..6], &[1, 0, 0, 11, 0, 3]);
    // release number 1, as the first field of the server block
    assert_eq!(&reply[8..12], &[0, 0, 0, 1]);
}

#[test]
fn reply_length_field_counts_the_words_that_follow() {
    let (_, reply) = establish_connection(&little_prefix(11, 0, 0, 0), &ServerInfo::standard()).unwrap();
    let words = u16::from_le_bytes([reply[6], reply[7]]) as usize;
    assert_eq!(reply.len(), 8 + 4 * words);
    assert_eq!(reply.len() % 4, 0);
    // server block 32, vendor 14 + 2, one format 8, screen 40, depth 8, visual 24
    assert_eq!(words, 32);
}

#[test]
fn reply_announces_the_vendor() {
    let (_, reply) = establish_connection(&little_prefix(11, 0, 0, 0), &ServerInfo::standard()).unwrap();
    assert_eq!(u16::from_le_bytes([reply[24], reply[25]]), 14);
    assert_eq!(&reply[40..54], b"Xaugh X Server");
    assert_eq!(&reply[54..56], &[0, 0]);
}

#[test]
fn short_prefix_is_truncated() {
    let prefix = little_prefix(11, 0, 0, 0);
    assert_eq!(establish_connection(&prefix[..11], &ServerInfo::standard()), Err(HandshakeError::Truncated));
    assert_eq!(ConnClientPrefix::parse(&[]), Err(HandshakeError::Truncated));
}

#[test]
fn unknown_byte_order_is_refused() {
    let mut prefix = little_prefix(11, 0, 0, 0);
    prefix[0] = b'x';
    assert_eq!(
        establish_connection(&prefix, &ServerInfo::standard()),
        Err(HandshakeError::InvalidByteOrder { byte: b'x' })
    );
}

#[test]
fn client_prefix_gives_the_auth_length() {
    let p = ConnClientPrefix::parse(&little_prefix(11, 0, 18, 16)).unwrap();
    assert_eq!(p.endian, b'l');
    assert_eq!(p.major, 11);
    assert_eq!(p.minor, 0);
    assert_eq!(p.n_auth_name, 18);
    assert_eq!(p.d_auth_data, 16);
    assert_eq!(p.auth_length(), 20 + 16);
    let q = ConnClientPrefix::parse(&little_prefix(11, 0, 0, 0)).unwrap();
    assert_eq!(q.auth_length(), 0);
}

#[test]
fn standard_info_is_valid_and_a_broken_one_is_not() {
    let info = ServerInfo::standard();
    assert!(info.is_valid());
    let mut broken = info.clone();
    broken.setup.num_formats = 2;
    assert!(!broken.is_valid());
}

#[test]
fn setup_reply_lays_out_the_records() {
    let info = ServerInfo::standard();
    let reply = setup_reply(Endianness::Little, 11, 0, &info);
    // pixel format after the padded vendor name
    assert_eq!(&reply[56..64], &[1, 32, 0, 0, 0, 0, 0, 0]);
    // screen: root window 1, then width 1920 and height 1080 at offsets 20 and 22
    assert_eq!(&reply[64..68], &[1, 0, 0, 0]);
    assert_eq!(u16::from_le_bytes([reply[84], reply[85]]), 1920);
    assert_eq!(u16::from_le_bytes([reply[86], reply[87]]), 1080);
    // visual: id 1, class 4, then the blue mask
    assert_eq!(&reply[112..118], &[1, 0, 0, 0, 4, 32]);
    assert_eq!(&reply[128..132], &[0, 0, 0xFF, 0]);
    assert_eq!(reply.len(), 136);
}
