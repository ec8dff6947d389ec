use drone_flight_controller::raw_axes::{decode_axes, decode_axis, RawAxes};

#[test]
fn decode_axis_little_endian() {
    assert_eq!(decode_axis(0x34, 0x12), 0x1234);
    assert_eq!(decode_axis(0x00, 0x00), 0);
    assert_eq!(decode_axis(0xff, 0x7f), i16::MAX);
}

#[test]
fn decode_axis_negative() {
    assert_eq!(decode_axis(0xff, 0xff), -1);
    assert_eq!(decode_axis(0x00, 0x80), i16::MIN);
    assert_eq!(decode_axis(0xc0, 0xff), -64);
}

#[test]
fn decode_axis_round_trip() {
    for v in [i16::MIN, -12345, -256, -1, 0, 1, 255, 256, 12345, i16::MAX] {
        let bytes = v.to_le_bytes();
        assert_eq!(decode_axis(bytes[0], bytes[1]), v);
    }
}

#[test]
fn decode_six_registers() {
    let buffer = [0x10, 0x00, 0xf0, 0xff, 0x00, 0x40];
    assert_eq!(decode_axes(&buffer), RawAxes { x: 16, y: -16, z: 16384 });
}
