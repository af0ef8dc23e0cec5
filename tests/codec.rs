use xaugh::codec::{pad, Endianness};
use xaugh::connection::Connection;

#[test]
fn card32_reads_both_byte_orders() {
    let bytes = [0x01u8, 0x02, 0x03, 0x04];
    assert_eq!(Endianness::Little.card32(&bytes), 0x0403_0201);
    assert_eq!(Endianness::Big.card32(&bytes), 0x0102_0304);
}

#[test]
fn card16_reads_both_byte_orders() {
    let bytes = [0xABu8, 0xCD, 0xEF];
    assert_eq!(Endianness::Little.card16(&bytes), 0xCDAB);
    assert_eq!(Endianness::Big.card16(&bytes), 0xABCD);
}

#[test]
fn int16_is_twos_complement() {
    assert_eq!(Endianness::Little.int16(&[0xFF, 0xFF]), -1);
    assert_eq!(Endianness::Big.int16(&[0x80, 0x00]), -32768);
    assert_eq!(Endianness::Big.int16(&[0x7F, 0xFF]), 32767);
    assert_eq!(Endianness::Little.int16(&[0x05, 0x00]), 5);
}

#[test]
fn to_bytes_writes_both_byte_orders() {
    assert_eq!(Endianness::Little.to_bytes_32(0x1122_3344), [0x44, 0x33, 0x22, 0x11]);
    assert_eq!(Endianness::Big.to_bytes_32(0x1122_3344), [0x11, 0x22, 0x33, 0x44]);
    assert_eq!(Endianness::Little.to_bytes_16(0x1122), [0x22, 0x11]);
    assert_eq!(Endianness::Big.to_bytes_16(0x1122), [0x11, 0x22]);
}

#[test]
fn round_trip_holds_for_sample_values() {
    let values32 = [0u32, 1, 0xFF, 0x100, 0xDEAD_BEEF, 0x8000_0000, u32::MAX];
    let values16 = [0u16, 1, 0xFF, 0x100, 0xBEEF, 0x8000, u16::MAX];
    for e in [Endianness::Big, Endianness::Little] {
        for v in values32 {
            assert_eq!(e.card32(&e.to_bytes_32(v)), v);
        }
        for v in values16 {
            assert_eq!(e.card16(&e.to_bytes_16(v)), v);
        }
    }
}

#[test]
fn copy8to32_splits_into_words() {
    let bytes = [1u8, 0, 0, 0, 0, 0, 0, 2];
    assert_eq!(Endianness::Little.copy8to32(&bytes), vec![1, 0x0200_0000]);
    assert_eq!(Endianness::Big.copy8to32(&bytes), vec![0x0100_0000, 2]);
    assert_eq!(Endianness::Big.copy8to32(&[]), Vec::<u32>::new());
}

#[test]
fn pad_reaches_a_four_byte_boundary() {
    let expected = [0usize, 3, 2, 1, 0, 3, 2, 1, 0];
    for s in 0..expected.len() {
        let p = pad(s);
        assert_eq!(p, expected[s]);
        assert!(p < 4);
        assert_eq!((s + p) % 4, 0);
    }
    assert_eq!(pad(14), 2);
}

#[test]
fn connection_codec_follows_its_byte_order() {
    let little = Connection { endianness: Endianness::Little, sequence_number: 0 };
    let big = Connection { endianness: Endianness::Big, sequence_number: 0 };
    let bytes = [0x01u8, 0x02, 0x03, 0x04];
    assert_eq!(little.card32(&bytes), 0x0403_0201);
    assert_eq!(big.card32(&bytes), 0x0102_0304);
    assert_eq!(little.card16(&bytes), 0x0201);
    assert_eq!(big.int16(&[0xFF, 0xFE]), -2);
    assert_eq!(big.copy8to32(&bytes), vec![0x0102_0304]);
    assert_eq!(little.to_bytes_32(7), [7, 0, 0, 0]);
    assert_eq!(big.to_bytes_16(7), [0, 7]);
}
