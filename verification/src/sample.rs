//! Sample decoding: three signed 16-bit little-endian lanes (X, Y, Z) packed
//! into a 6-byte payload.
//!
//! Byte order is fixed here once and for all: each lane is stored low byte
//! first (bytes `2i` and `2i + 1` hold lane `i`). The decoder returns raw
//! lane counts; the physical value of a lane is its count multiplied by the
//! sensor's configured scale factor, a floating-point step that the
//! embedding performs.

use vstd::prelude::*;

verus! {

/// Signed 16-bit value of one lane, given its low and high byte.
pub open spec fn lane_spec(lo: u8, hi: u8) -> int {
    if hi >= 0x80 {
        lo as int + 256 * (hi as int) - 0x10000
    } else {
        lo as int + 256 * (hi as int)
    }
}

/// Lane `i` of a 6-byte payload: bytes `2i` (low) and `2i + 1` (high).
pub open spec fn lane_at(p: Seq<u8>, i: int) -> int
    recommends
        p.len() == 6,
        0 <= i < 3,
{
    lane_spec(p[2 * i], p[2 * i + 1])
}

/// The lane triple `l` is exactly what payload `p` encodes.
pub open spec fn lanes_decode_ok(l: [i16; 3], p: Seq<u8>) -> bool
    recommends
        p.len() == 6,
{
    forall|i: int|
        #![trigger l@[i]]
        #![trigger lane_at(p, i)]
        0 <= i < 3 ==> l@[i] as int == lane_at(p, i)
}

/// Unsigned 16-bit representation of a lane value (two's complement).
pub open spec fn lane_unsigned(v: int) -> int
    recommends
        -0x8000 <= v < 0x8000,
{
    if v < 0 {
        v + 0x10000
    } else {
        v
    }
}

/// Low byte of the little-endian encoding of lane value `v`.
pub open spec fn lane_lo(v: int) -> u8
    recommends
        -0x8000 <= v < 0x8000,
{
    (lane_unsigned(v) % 256) as u8
}

/// High byte of the little-endian encoding of lane value `v`.
pub open spec fn lane_hi(v: int) -> u8
    recommends
        -0x8000 <= v < 0x8000,
{
    (lane_unsigned(v) / 256) as u8
}

/// Decode one lane from its two bytes, low byte first.
pub fn decode_lane(lo: u8, hi: u8) -> (r: i16)
    ensures
        r as int == lane_spec(lo, hi),
{
    let v: u32 = lo as u32 + 256 * (hi as u32);
    if v >= 0x8000 {
        ((v as i32) - 0x10000) as i16
    } else {
        v as i16
    }
}

/// Decode a 6-byte payload into its three raw lanes.
pub fn parse_lanes(payload: &[u8; 6]) -> (r: [i16; 3])
    ensures
        lanes_decode_ok(r, payload@),
{
    let x = decode_lane(payload[0], payload[1]);
    let y = decode_lane(payload[2], payload[3]);
    let z = decode_lane(payload[4], payload[5]);
    [x, y, z]
}

/// Encode one lane value as two bytes, low byte first.
pub fn encode_lane(v: i16) -> (r: (u8, u8))
    ensures
        r.0 == lane_lo(v as int),
        r.1 == lane_hi(v as int),
        lane_spec(r.0, r.1) == v as int,
{
    let u: u32 = if v < 0 {
        ((v as i32) + 0x10000) as u32
    } else {
        v as u32
    };
    let lo: u8 = (u % 256) as u8;
    let hi: u8 = (u / 256) as u8;
    proof {
        lemma_lane_round_trip(v as int);
    }
    (lo, hi)
}

/// Encode a lane triple into a 6-byte payload, each lane low byte first.
pub fn encode_lanes(lanes: &[i16; 3]) -> (r: [u8; 6])
    ensures
        lanes_decode_ok(*lanes, r@),
{
    let (l0, h0) = encode_lane(lanes[0]);
    let (l1, h1) = encode_lane(lanes[1]);
    let (l2, h2) = encode_lane(lanes[2]);
    [l0, h0, l1, h1, l2, h2]
}

/// Law: encoding a lane value and decoding the two bytes gives the value
/// back, for every value a signed 16-bit lane can hold.
pub proof fn lemma_lane_round_trip(v: int)
    requires
        -0x8000 <= v < 0x8000,
    ensures
        lane_spec(lane_lo(v), lane_hi(v)) == v,
{
    let u = lane_unsigned(v);
    assert(0 <= u < 0x10000);
    assert(u == 256 * (u / 256) + u % 256) by (nonlinear_arith);
    assert(0 <= u % 256 < 256) by (nonlinear_arith);
    assert(u >= 0x8000 ==> u / 256 >= 0x80) by (nonlinear_arith)
        requires
            0 <= u < 0x10000,
    ;
    assert(u < 0x8000 ==> u / 256 < 0x80) by (nonlinear_arith)
        requires
            0 <= u < 0x10000,
    ;
}

/// Law: a payload determines its lanes — two lane triples consistent with
/// the same 6-byte payload are equal. Together with the contract of
/// `encode_lanes`, this is the round trip at the level of whole payloads.
pub proof fn lemma_lanes_round_trip(l: [i16; 3], l2: [i16; 3], p: Seq<u8>)
    requires
        p.len() == 6,
        lanes_decode_ok(l, p),
        lanes_decode_ok(l2, p),
    ensures
        l@ == l2@,
{
    assert forall|i: int| 0 <= i < 3 implies l@[i] == l2@[i] by {
        assert(l@[i] as int == lane_at(p, i));
        assert(l2@[i] as int == lane_at(p, i));
    }
    assert(l@ =~= l2@);
}

/// Law: sign extension is exactly the top bit of the high byte — a decoded
/// lane is negative precisely when the high byte is at least 0x80, and every
/// decoded lane lies in the signed 16-bit range.
pub proof fn lemma_lane_sign(lo: u8, hi: u8)
    ensures
        -0x8000 <= lane_spec(lo, hi) < 0x8000,
        lane_spec(lo, hi) < 0 <==> hi >= 0x80,
{
}

} // verus!
