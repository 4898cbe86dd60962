//! The FIFO output register: popping one entry from the sensor's hardware
//! FIFO and decoding it.
//!
//! One entry is a 7-byte burst. Byte 0 is the tag byte — its upper 5 bits
//! are the tag code, its lower 3 bits are reserved and ignored. Bytes 1–6
//! are the payload: three signed 16-bit little-endian lanes (X, Y, Z).
//!
//! Decoding is split from the bus transaction. `decode_frame` is the pure
//! part with an exact contract: for every 7-byte frame it says which value
//! or error comes out. `pop` performs exactly one transaction and hands the
//! response to `decode_frame`; since nothing is promised of a bus response,
//! its contract says that whatever it returns is the correct decoding of
//! some 7-byte frame, and that a decode error carries an invalid tag code.

use vstd::prelude::*;

use crate::sample::lanes_decode_ok;
use crate::sample::parse_lanes;
use crate::transport::Transport;

verus! {

/// Sub-address of the FIFO output register.
const ADDR: u8 = 0x78;

/// A decode failure: the tag code lay outside the documented range.
#[derive(Clone, Copy, Debug, PartialEq, Eq, Structural)]
pub struct InvalidTag {
    /// The offending tag code; classification rejects `0x1a ..= 0x1f`.
    pub code: u8,
}

/// Classification of a tag code, the upper 5 bits of a FIFO entry's first
/// byte.
#[derive(Clone, Copy, Debug, PartialEq, Eq, Structural)]
pub enum SensorTag {
    /// No valid sample present (code 0x00).
    Empty,
    /// Uncompressed gyroscope sample (code 0x01).
    GyroscopeNC,
    /// Uncompressed accelerometer sample (code 0x02).
    AccelerometerNC,
    /// A recognized but unhandled sample type (codes 0x03 ..= 0x19); the
    /// payload is passed through raw.
    Other(u8),
}

/// One decoded FIFO entry.
///
/// Gyroscope and accelerometer samples carry raw lane counts; the physical
/// value of a lane (deg/s, g) is its count multiplied by the sensor's
/// configured scale factor, a floating-point step that the embedding
/// performs.
#[derive(Clone, Copy, Debug, PartialEq, Eq)]
pub enum Value {
    /// The FIFO held no valid sample.
    Empty,
    /// Raw gyroscope lanes, X, Y, Z.
    Gyro([i16; 3]),
    /// Raw accelerometer lanes, X, Y, Z.
    Accel([i16; 3]),
    /// A valid but unhandled tag code with its raw payload.
    Other(u8, [u8; 6]),
}

/// What a `pop` can fail with: either the transport failed, or the
/// response's tag code was invalid.
#[derive(Clone, Copy, Debug, PartialEq, Eq)]
pub enum Error<E> {
    /// The bus transaction failed; the transport's error, unchanged.
    Transport(E),
    /// The transaction succeeded but the tag code was invalid.
    Decode(InvalidTag),
}

/// The tag code of a tag byte: its upper 5 bits.
pub open spec fn tag_code_of(b: u8) -> u8 {
    b >> 3
}

/// Classification of a tag code: total over all of `u8`, an error exactly
/// above 0x19.
pub open spec fn classify_spec(code: u8) -> Result<SensorTag, InvalidTag> {
    if code == 0x00 {
        Ok(SensorTag::Empty)
    } else if code == 0x01 {
        Ok(SensorTag::GyroscopeNC)
    } else if code == 0x02 {
        Ok(SensorTag::AccelerometerNC)
    } else if code <= 0x19 {
        Ok(SensorTag::Other(code))
    } else {
        Err(InvalidTag { code })
    }
}

/// `r` is the correct decoding of the 7-byte frame `f`: the tag code is
/// split off byte 0, classified, and the payload (bytes 1–6) is decoded or
/// passed through as the classification directs.
pub open spec fn frame_decodes_to(f: Seq<u8>, r: Result<Value, InvalidTag>) -> bool
    recommends
        f.len() == 7,
{
    let p = f.subrange(1, 7);
    match classify_spec(tag_code_of(f[0])) {
        Ok(SensorTag::Empty) => r == Ok::<Value, InvalidTag>(Value::Empty),
        Ok(SensorTag::GyroscopeNC) => r matches Ok(Value::Gyro(l)) && lanes_decode_ok(l, p),
        Ok(SensorTag::AccelerometerNC) => r matches Ok(Value::Accel(l)) && lanes_decode_ok(l, p),
        Ok(SensorTag::Other(c)) => r matches Ok(Value::Other(c2, raw)) && c2 == c && raw@ == p,
        Err(t) => r == Err::<Value, InvalidTag>(t),
    }
}

impl SensorTag {
    /// Classify a tag code. Codes 0x00 ..= 0x19 all classify; any code
    /// above 0x19 is rejected with the code itself.
    pub fn try_from(v: u8) -> (r: Result<SensorTag, InvalidTag>)
        ensures
            r == classify_spec(v),
    {
        if v == 0x00 {
            Ok(SensorTag::Empty)
        } else if v == 0x01 {
            Ok(SensorTag::GyroscopeNC)
        } else if v == 0x02 {
            Ok(SensorTag::AccelerometerNC)
        } else if v <= 0x19 {
            Ok(SensorTag::Other(v))
        } else {
            Err(InvalidTag { code: v })
        }
    }
}

/// Law: classification is total and deterministic on codes 0x00 ..= 0x19,
/// and every code above 0x19 yields the decode error carrying that code —
/// never a silent fallback.
pub proof fn lemma_classify_total(code: u8)
    ensures
        code <= 0x19 ==> classify_spec(code) is Ok,
        code > 0x19 ==> classify_spec(code) == Err::<SensorTag, InvalidTag>(InvalidTag { code }),
{
}

/// Decode one 7-byte FIFO frame. Pure: no bus access, no failure path
/// beyond the explicit invalid-tag error.
pub fn decode_frame(frame: &[u8; 7]) -> (r: Result<Value, InvalidTag>)
    ensures
        frame_decodes_to(frame@, r),
        r is Ok <==> tag_code_of(frame@[0]) <= 0x19,
        r matches Err(t) ==> 0x19 < t.code < 0x20 && t.code == tag_code_of(frame@[0]),
{
    let tag_byte = frame[0];
    let code = tag_byte >> 3;
    proof {
        assert(tag_byte >> 3 < 0x20) by (bit_vector);
    }
    let payload: [u8; 6] = [frame[1], frame[2], frame[3], frame[4], frame[5], frame[6]];
    proof {
        assert(payload@ =~= frame@.subrange(1, 7));
    }
    match SensorTag::try_from(code) {
        Ok(SensorTag::Empty) => Ok(Value::Empty),
        Ok(SensorTag::GyroscopeNC) => Ok(Value::Gyro(parse_lanes(&payload))),
        Ok(SensorTag::AccelerometerNC) => Ok(Value::Accel(parse_lanes(&payload))),
        Ok(SensorTag::Other(c)) => Ok(Value::Other(c, payload)),
        Err(t) => Err(t),
    }
}

/// The FIFO output register of one device.
pub struct FifoOut {
    /// Bus address of the device.
    pub address: u8,
}

impl FifoOut {
    /// A FIFO output register at the given bus address.
    pub fn new(address: u8) -> (r: Self)
        ensures
            r.address == address,
    {
        FifoOut { address }
    }

    /// Pop a value from the FIFO.
    ///
    /// Issues exactly one combined write-then-read transaction of 7 bytes
    /// against the FIFO output register. A transport failure is propagated
    /// unchanged; a response is decoded by `decode_frame`, whose contract
    /// pins the result for every frame. Each successful pop consumes one
    /// hardware FIFO entry, so repeated pops need not return the same
    /// entry.
    pub fn pop<T: Transport>(&mut self, bus: &mut T) -> (r: Result<Value, Error<T::Error>>)
        ensures
            *final(self) == *old(self),
            r matches Ok(v) ==> exists|f: Seq<u8>|
                f.len() == 7 && #[trigger] frame_decodes_to(f, Ok(v)),
            r matches Err(Error::Decode(t)) ==> 0x19 < t.code < 0x20 && exists|f: Seq<u8>|
                f.len() == 7 && #[trigger] frame_decodes_to(f, Err(t)),
    {
        let mut out: [u8; 7] = [0, 0, 0, 0, 0, 0, 0];
        match bus.write_read(self.address, ADDR, &mut out) {
            Err(e) => Err(Error::Transport(e)),
            Ok(()) => {
                match decode_frame(&out) {
                    Ok(v) => {
                        proof {
                            assert(frame_decodes_to(out@, Ok(v)));
                        }
                        Ok(v)
                    },
                    Err(t) => {
                        proof {
                            assert(frame_decodes_to(out@, Err(t)));
                        }
                        Err(Error::Decode(t))
                    },
                }
            },
        }
    }
}

} // verus!
