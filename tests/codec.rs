use feetech_io::codec::{decode_value, encode_value, Layout, WireEncoding};

fn layout(size: u8, encoding: WireEncoding) -> Layout {
    Layout { address: 0, size, encoding }
}

#[test]
fn unsigned_is_little_endian() {
    let l = layout(2, WireEncoding::Unsigned);
    assert_eq!(encode_value(l, 777), Some(vec![0x09, 0x03]));
    assert_eq!(decode_value(l, &vec![0x09, 0x03]), 777);
    assert_eq!(encode_value(l, -1), None);
    assert_eq!(encode_value(l, 65536), None);
}

#[test]
fn offset_is_sign_magnitude_on_bit_11() {
    let l = layout(2, WireEncoding::SignMagnitude { sign_bit: 11 });
    assert_eq!(decode_value(l, &vec![0xC5, 0x0A]), -709);
    assert_eq!(encode_value(l, -709), Some(vec![0xC5, 0x0A]));
    assert_eq!(encode_value(l, 2048), None);
}

#[test]
fn position_is_sign_magnitude_on_bit_15() {
    let l = layout(2, WireEncoding::SignMagnitude { sign_bit: 15 });
    assert_eq!(encode_value(l, -100), Some(vec![0x64, 0x80]));
    assert_eq!(encode_value(l, -234), Some(vec![0xEA, 0x80]));
    assert_eq!(decode_value(l, &vec![0x00, 0x0c]), 3072);
}

#[test]
fn twos_complement_wraps_negative_values() {
    let l = layout(2, WireEncoding::TwosComplement);
    assert_eq!(encode_value(l, -2), Some(vec![0xfe, 0xff]));
    assert_eq!(decode_value(l, &vec![0x00, 0x80]), -32768);
}

#[test]
fn one_byte_values() {
    let l = layout(1, WireEncoding::Unsigned);
    assert_eq!(encode_value(l, 200), Some(vec![200]));
    assert_eq!(decode_value(l, &vec![200]), 200);
    assert_eq!(encode_value(l, 256), None);
}

#[test]
fn every_sign_magnitude_value_round_trips() {
    let l = layout(2, WireEncoding::SignMagnitude { sign_bit: 15 });
    for v in -32767i64..=32767 {
        let bytes = encode_value(l, v).unwrap();
        assert_eq!(decode_value(l, &bytes), v);
    }
}
