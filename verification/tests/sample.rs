use imu_fifo::sample::{decode_lane, encode_lane, encode_lanes, parse_lanes};

#[test]
fn byte_order_low_first() {
    // Each lane is little-endian: low byte first.
    assert_eq!(decode_lane(0, 1), 256);
    assert_eq!(decode_lane(1, 0), 1);
    assert_eq!(decode_lane(0x34, 0x12), 0x1234);
}

#[test]
fn negative_lane() {
    // 0xff, 0xff is -1: sign extension is correct, and the physical value
    // is -1.0 times the scale.
    let lanes = parse_lanes(&[0xff, 0xff, 0, 0, 0, 0]);
    assert_eq!(lanes, [-1, 0, 0]);
    let scale: f64 = 0.5;
    assert_eq!(lanes[0] as f64 * scale, -1.0 * scale);
    assert_eq!(lanes[0] as f64 * scale, -0.5);
}

#[test]
fn lane_extremes() {
    assert_eq!(decode_lane(0xff, 0x7f), 32767);
    assert_eq!(decode_lane(0x00, 0x80), -32768);
    assert_eq!(encode_lane(32767), (0xff, 0x7f));
    assert_eq!(encode_lane(-32768), (0x00, 0x80));
    assert_eq!(encode_lane(-1), (0xff, 0xff));
}

#[test]
fn round_trip() {
    // Encoding X=1, Y=2, Z=4 and decoding with scale 1.0 reproduces
    // exactly [1.0, 2.0, 4.0].
    let payload = encode_lanes(&[1, 2, 4]);
    assert_eq!(payload, [1, 0, 2, 0, 4, 0]);
    let lanes = parse_lanes(&payload);
    assert_eq!(lanes, [1, 2, 4]);
    let scale: f64 = 1.0;
    let physical: [f64; 3] = [
        lanes[0] as f64 * scale,
        lanes[1] as f64 * scale,
        lanes[2] as f64 * scale,
    ];
    assert_eq!(physical, [1.0, 2.0, 4.0]);
}

#[test]
fn round_trip_many() {
    for &v in &[0i16, 1, -1, 2, 4, 127, -128, 255, 256, -257, 12345, -12345, 32767, -32768] {
        let (lo, hi) = encode_lane(v);
        assert_eq!(decode_lane(lo, hi), v);
    }
}

#[test]
fn scale_linearity() {
    // Scaling the decoded lanes by S and then by k equals decoding with
    // scale S * k, checked on values where the products are exact.
    let lanes = parse_lanes(&[1, 0, 0, 1, 0xff, 0xff]);
    let s: f64 = 0.25;
    let k: f64 = 8.0;
    for &lane in &lanes {
        let scaled_then_multiplied = (lane as f64 * s) * k;
        let scaled_once = lane as f64 * (s * k);
        assert_eq!(scaled_then_multiplied, scaled_once);
    }
}
