use vstd::prelude::*;

use crate::cayenne_lpp_scalar::{CayenneLPPScalar, CayenneLPPValue};
use crate::constants::{
    LPP_ACCELEROMETER, LPP_ALTITUDE, LPP_ANALOG_INPUT, LPP_ANALOG_OUTPUT,
    LPP_BAROMETRIC_PRESSURE, LPP_COLOR, LPP_CONCENTRATION, LPP_CURRENT, LPP_DIGITAL_INPUT,
    LPP_DIGITAL_OUTPUT, LPP_DIRECTION, LPP_DISTANCE, LPP_ENERGY, LPP_FREQUENCY,
    LPP_GENERIC_SENSOR, LPP_GPS, LPP_GYROMETER, LPP_LUMINOSITY, LPP_PERCENTAGE, LPP_POWER,
    LPP_PRESENCE, LPP_RELATIVE_HUMIDITY, LPP_SWITCH, LPP_TEMPERATURE, LPP_UNIXTIME, LPP_VOLTAGE,
};
use crate::error::Error;
use crate::wire::{be16, be24, be32, signed16, signed24, step_next, step_result};
use crate::CayenneLPP;

verus! {

/// Iterator over the Cayenne LPP scalars parsed from a data structure.
/// Each step yields `Option<Result<CayenneLPPScalar, Error>>`; `Some(Err(..))`
/// is returned when there was an error unpacking a scalar. The most likely
/// causes of such an error are unhandled type codes, out-of-bounds results,
/// and stray bytes at the end of the byte stream. Any of these could
/// indicate corrupt data or, perhaps, that the provided byte stream isn't
/// actually in Cayenne LPP format.
///
/// An emitted error is terminal: every later step yields `None`. So is the
/// clean end of the buffer, which is reached when fewer than the two header
/// bytes remain; a single dangling byte ends the sequence silently.
pub struct CayenneLPPIntoFailableIterator {
    /// The Cayenne LPP instance that this iterator is over.
    lpp: CayenneLPP,
    /// The current index into the Cayenne LPP data structure.
    index: usize,
}

impl CayenneLPPIntoFailableIterator {
    #[verifier::type_invariant]
    spec fn wf(self) -> bool {
        self.index <= self.lpp.bytes().len()
    }

    /// The bytes the iterator walks: the full backing buffer.
    pub closed spec fn stream(&self) -> Seq<u8> {
        self.lpp.bytes()
    }

    /// The read position: the offset of the first byte of the next scalar.
    pub closed spec fn pos(&self) -> int {
        self.index as int
    }

    /// Reads one byte and advances.
    fn get_u8(&mut self) -> (r: u8)
        requires
            old(self).pos() + 1 <= old(self).stream().len(),
        ensures
            final(self).stream() == old(self).stream(),
            final(self).pos() == old(self).pos() + 1,
            r == old(self).stream()[old(self).pos()],
    {
        let r = self.lpp.byte_at(self.index);
        self.index = self.index + 1;
        r
    }

    /// Reads two big-endian bytes and reassembles the unsigned value.
    fn get_u16(&mut self) -> (r: u16)
        requires
            old(self).pos() + 2 <= old(self).stream().len(),
        ensures
            final(self).stream() == old(self).stream(),
            final(self).pos() == old(self).pos() + 2,
            r as int == be16(
                old(self).stream()[old(self).pos()],
                old(self).stream()[old(self).pos() + 1],
            ),
    {
        let b0 = self.lpp.byte_at(self.index);
        let b1 = self.lpp.byte_at(self.index + 1);
        self.index = self.index + 2;
        (b0 as u16) * 0x100 + (b1 as u16)
    }

    /// Reads two big-endian bytes and reassembles the signed value from its
    /// two's-complement wire representation.
    fn get_i16(&mut self) -> (r: i16)
        requires
            old(self).pos() + 2 <= old(self).stream().len(),
        ensures
            final(self).stream() == old(self).stream(),
            final(self).pos() == old(self).pos() + 2,
            r as int == signed16(
                be16(old(self).stream()[old(self).pos()], old(self).stream()[old(self).pos() + 1]),
            ),
    {
        let w = self.get_u16();
        if w >= 0x8000 {
            ((w as i32) - 0x10000) as i16
        } else {
            w as i16
        }
    }

    /// Reads three big-endian bytes and reassembles the signed value,
    /// extending the sign bit of the most significant byte. This is only
    /// used by the GPS packet.
    fn get_i24(&mut self) -> (r: i32)
        requires
            old(self).pos() + 3 <= old(self).stream().len(),
        ensures
            final(self).stream() == old(self).stream(),
            final(self).pos() == old(self).pos() + 3,
            r as int == signed24(
                be24(
                    old(self).stream()[old(self).pos()],
                    old(self).stream()[old(self).pos() + 1],
                    old(self).stream()[old(self).pos() + 2],
                ),
            ),
    {
        let b0 = self.lpp.byte_at(self.index);
        let b1 = self.lpp.byte_at(self.index + 1);
        let b2 = self.lpp.byte_at(self.index + 2);
        self.index = self.index + 3;
        let w: u32 = (b0 as u32) * 0x10000 + (b1 as u32) * 0x100 + (b2 as u32);
        if w >= 0x800000 {
            ((w as i64) - 0x1000000) as i32
        } else {
            w as i32
        }
    }

    /// Reads four big-endian bytes and reassembles the unsigned value.
    fn get_u32(&mut self) -> (r: u32)
        requires
            old(self).pos() + 4 <= old(self).stream().len(),
        ensures
            final(self).stream() == old(self).stream(),
            final(self).pos() == old(self).pos() + 4,
            r as int == be32(
                old(self).stream()[old(self).pos()],
                old(self).stream()[old(self).pos() + 1],
                old(self).stream()[old(self).pos() + 2],
                old(self).stream()[old(self).pos() + 3],
            ),
    {
        let b0 = self.lpp.byte_at(self.index);
        let b1 = self.lpp.byte_at(self.index + 1);
        let b2 = self.lpp.byte_at(self.index + 2);
        let b3 = self.lpp.byte_at(self.index + 3);
        self.index = self.index + 4;
        (b0 as u32) * 0x1000000 + (b1 as u32) * 0x10000 + (b2 as u32) * 0x100 + (b3 as u32)
    }

    /// Pulls the next scalar out of the byte stream, or reports why none
    /// can be produced, exactly as `step_result` describes; the read
    /// position moves as `step_next` describes.
    pub fn next(&mut self) -> (r: Option<Result<CayenneLPPScalar, Error>>)
        ensures
            final(self).stream() == old(self).stream(),
            r == step_result(old(self).stream(), old(self).pos()),
            final(self).pos() == step_next(old(self).stream(), old(self).pos()),
    {
        proof {
            use_type_invariant(&*self);
        }
        let n = self.lpp.total_len();

        // The clean end of the byte stream: not even the two-byte
        // channel/type header fits.
        if n - self.index < 2 {
            return None;
        }
        // The index will always be set to the first byte of the _next_
        // scalar when `next` is called.
        let channel = self.get_u8();
        let type_code = self.get_u8();

        if type_code == LPP_DIGITAL_INPUT {
            if n - self.index < 1 {
                self.index = n;
                return Some(Err(Error::BufferUnderrun));
            }
            let v = self.get_u8();
            Some(Ok(CayenneLPPScalar { channel, value: CayenneLPPValue::DigitalInput(v) }))
        } else if type_code == LPP_DIGITAL_OUTPUT {
            if n - self.index < 1 {
                self.index = n;
                return Some(Err(Error::BufferUnderrun));
            }
            let v = self.get_u8();
            Some(Ok(CayenneLPPScalar { channel, value: CayenneLPPValue::DigitalOutput(v) }))
        } else if type_code == LPP_ANALOG_INPUT {
            if n - self.index < 2 {
                self.index = n;
                return Some(Err(Error::BufferUnderrun));
            }
            let v = self.get_i16();
            Some(Ok(CayenneLPPScalar { channel, value: CayenneLPPValue::AnalogInput(v) }))
        } else if type_code == LPP_ANALOG_OUTPUT {
            if n - self.index < 2 {
                self.index = n;
                return Some(Err(Error::BufferUnderrun));
            }
            let v = self.get_i16();
            Some(Ok(CayenneLPPScalar { channel, value: CayenneLPPValue::AnalogOutput(v) }))
        } else if type_code == LPP_GENERIC_SENSOR {
            if n - self.index < 4 {
                self.index = n;
                return Some(Err(Error::BufferUnderrun));
            }
            let v = self.get_u32();
            Some(Ok(CayenneLPPScalar { channel, value: CayenneLPPValue::GenericSensor(v) }))
        } else if type_code == LPP_LUMINOSITY {
            if n - self.index < 2 {
                self.index = n;
                return Some(Err(Error::BufferUnderrun));
            }
            let v = self.get_u16();
            Some(Ok(CayenneLPPScalar { channel, value: CayenneLPPValue::Luminosity(v) }))
        } else if type_code == LPP_PRESENCE {
            if n - self.index < 1 {
                self.index = n;
                return Some(Err(Error::BufferUnderrun));
            }
            let v = self.get_u8();
            Some(Ok(CayenneLPPScalar { channel, value: CayenneLPPValue::Presence(v) }))
        } else if type_code == LPP_TEMPERATURE {
            if n - self.index < 2 {
                self.index = n;
                return Some(Err(Error::BufferUnderrun));
            }
            let v = self.get_i16();
            Some(Ok(CayenneLPPScalar { channel, value: CayenneLPPValue::Temperature(v) }))
        } else if type_code == LPP_RELATIVE_HUMIDITY {
            if n - self.index < 1 {
                self.index = n;
                return Some(Err(Error::BufferUnderrun));
            }
            // Relative humidity cannot be more than 100 %, but a sensor
            // that is a little bit off should not cause an error, so there
            // is no bounds check here. The natural range of the byte bounds
            // it to 0 - 127.5 %.
            let v = self.get_u8();
            Some(Ok(CayenneLPPScalar { channel, value: CayenneLPPValue::RelativeHumidity(v) }))
        } else if type_code == LPP_ACCELEROMETER {
            if n - self.index < 6 {
                self.index = n;
                return Some(Err(Error::BufferUnderrun));
            }
            let vx = self.get_i16();
            let vy = self.get_i16();
            let vz = self.get_i16();
            Some(
                Ok(
                    CayenneLPPScalar {
                        channel,
                        value: CayenneLPPValue::Accelerometer(vx, vy, vz),
                    },
                ),
            )
        } else if type_code == LPP_BAROMETRIC_PRESSURE {
            if n - self.index < 2 {
                self.index = n;
                return Some(Err(Error::BufferUnderrun));
            }
            let v = self.get_u16();
            Some(
                Ok(
                    CayenneLPPScalar {
                        channel,
                        value: CayenneLPPValue::BarometricPressure(v),
                    },
                ),
            )
        } else if type_code == LPP_VOLTAGE {
            if n - self.index < 2 {
                self.index = n;
                return Some(Err(Error::BufferUnderrun));
            }
            let v = self.get_u16();
            Some(Ok(CayenneLPPScalar { channel, value: CayenneLPPValue::Voltage(v) }))
        } else if type_code == LPP_CURRENT {
            if n - self.index < 2 {
                self.index = n;
                return Some(Err(Error::BufferUnderrun));
            }
            let v = self.get_u16();
            Some(Ok(CayenneLPPScalar { channel, value: CayenneLPPValue::Current(v) }))
        } else if type_code == LPP_FREQUENCY {
            if n - self.index < 4 {
                self.index = n;
                return Some(Err(Error::BufferUnderrun));
            }
            let v = self.get_u32();
            Some(Ok(CayenneLPPScalar { channel, value: CayenneLPPValue::Frequency(v) }))
        } else if type_code == LPP_PERCENTAGE {
            if n - self.index < 1 {
                self.index = n;
                return Some(Err(Error::BufferUnderrun));
            }
            let v = self.get_u8();
            Some(Ok(CayenneLPPScalar { channel, value: CayenneLPPValue::Percentage(v) }))
        } else if type_code == LPP_ALTITUDE {
            if n - self.index < 2 {
                self.index = n;
                return Some(Err(Error::BufferUnderrun));
            }
            let v = self.get_i16();
            Some(Ok(CayenneLPPScalar { channel, value: CayenneLPPValue::Altitude(v) }))
        } else if type_code == LPP_CONCENTRATION {
            if n - self.index < 2 {
                self.index = n;
                return Some(Err(Error::BufferUnderrun));
            }
            let v = self.get_u16();
            Some(Ok(CayenneLPPScalar { channel, value: CayenneLPPValue::Concentration(v) }))
        } else if type_code == LPP_POWER {
            if n - self.index < 2 {
                self.index = n;
                return Some(Err(Error::BufferUnderrun));
            }
            let v = self.get_u16();
            Some(Ok(CayenneLPPScalar { channel, value: CayenneLPPValue::Power(v) }))
        } else if type_code == LPP_DISTANCE {
            if n - self.index < 4 {
                self.index = n;
                return Some(Err(Error::BufferUnderrun));
            }
            let v = self.get_u32();
            Some(Ok(CayenneLPPScalar { channel, value: CayenneLPPValue::Distance(v) }))
        } else if type_code == LPP_ENERGY {
            if n - self.index < 4 {
                self.index = n;
                return Some(Err(Error::BufferUnderrun));
            }
            let v = self.get_u32();
            Some(Ok(CayenneLPPScalar { channel, value: CayenneLPPValue::Energy(v) }))
        } else if type_code == LPP_DIRECTION {
            if n - self.index < 2 {
                self.index = n;
                return Some(Err(Error::BufferUnderrun));
            }
            // Direction is deliberately not bounds checked: it is equally
            // valid to use +/- to refer to left or right of north, or to
            // have directions larger than 360 to indicate more than one
            // turn.
            let v = self.get_u16();
            Some(Ok(CayenneLPPScalar { channel, value: CayenneLPPValue::Direction(v) }))
        } else if type_code == LPP_UNIXTIME {
            if n - self.index < 4 {
                self.index = n;
                return Some(Err(Error::BufferUnderrun));
            }
            let v = self.get_u32();
            Some(Ok(CayenneLPPScalar { channel, value: CayenneLPPValue::UnixTime(v) }))
        } else if type_code == LPP_GYROMETER {
            if n - self.index < 6 {
                self.index = n;
                return Some(Err(Error::BufferUnderrun));
            }
            let vx = self.get_u16();
            let vy = self.get_u16();
            let vz = self.get_u16();
            Some(
                Ok(CayenneLPPScalar { channel, value: CayenneLPPValue::Gyrometer(vx, vy, vz) }),
            )
        } else if type_code == LPP_COLOR {
            if n - self.index < 3 {
                self.index = n;
                return Some(Err(Error::BufferUnderrun));
            }
            let r = self.get_u8();
            let g = self.get_u8();
            let b = self.get_u8();
            Some(Ok(CayenneLPPScalar { channel, value: CayenneLPPValue::Color(r, g, b) }))
        } else if type_code == LPP_GPS {
            if n - self.index < 9 {
                self.index = n;
                return Some(Err(Error::BufferUnderrun));
            }
            let lat = self.get_i24();
            let lon = self.get_i24();
            let alt = self.get_i24();

            // Some basic sanity bounds checking. The maximum latitude is
            // +/- 90 degrees N/S.
            if lat > 900000 || lat < -900000 {
                self.index = n;
                return Some(Err(Error::OutOfRange));
            }
            // Same for longitude, but this time it's +/- 180.
            if lon > 1800000 || lon < -1800000 {
                self.index = n;
                return Some(Err(Error::OutOfRange));
            }
            Some(Ok(CayenneLPPScalar { channel, value: CayenneLPPValue::GPS(lat, lon, alt) }))
        } else if type_code == LPP_SWITCH {
            if n - self.index < 1 {
                self.index = n;
                return Some(Err(Error::BufferUnderrun));
            }
            let v = self.get_u8();
            Some(Ok(CayenneLPPScalar { channel, value: CayenneLPPValue::Switch(v != 0) }))
        } else {
            self.index = n;
            Some(Err(Error::UnhandledType(type_code)))
        }
    }
}

impl CayenneLPP {
    /// Consumes the structure and iterates over its full backing buffer,
    /// yielding one `Result` per parsed scalar.
    pub fn into_iter(self) -> (it: CayenneLPPIntoFailableIterator)
        ensures
            it.stream() == self.bytes(),
            it.pos() == 0,
    {
        CayenneLPPIntoFailableIterator { lpp: self, index: 0 }
    }

    /// Create an infailable iterator. This iterator flattens the result
    /// from an `Option<Result<CayenneLPPScalar, Error>>` into just an
    /// `Option`. This is useful if you want to just stop processing the
    /// byte stream when the first error is encountered.
    pub fn into_infailable_iter(self) -> (it: CayenneLPPIterator)
        ensures
            it.stream() == self.bytes(),
            it.pos() == 0,
    {
        CayenneLPPIterator { failable_iterator: self.into_iter() }
    }
}

/// The best-effort iterator: a wrapper over the strict iterator that turns
/// every non-`Ok` outcome into the end of the sequence, silently discarding
/// the distinction between a clean end of the buffer and corruption.
pub struct CayenneLPPIterator {
    failable_iterator: CayenneLPPIntoFailableIterator,
}

impl CayenneLPPIterator {
    /// The bytes the iterator walks: the full backing buffer.
    pub closed spec fn stream(&self) -> Seq<u8> {
        self.failable_iterator.stream()
    }

    /// The read position: the offset of the first byte of the next scalar.
    pub closed spec fn pos(&self) -> int {
        self.failable_iterator.pos()
    }

    /// Pulls the next scalar out of the byte stream, or ends the sequence:
    /// exactly the scalar `step_result` describes where it is `Some(Ok(..))`,
    /// and `None` where it is an error or the end of the buffer.
    pub fn next(&mut self) -> (r: Option<CayenneLPPScalar>)
        ensures
            final(self).stream() == old(self).stream(),
            r == (match step_result(old(self).stream(), old(self).pos()) {
                Some(Ok(s)) => Some(s),
                _ => None::<CayenneLPPScalar>,
            }),
            final(self).pos() == step_next(old(self).stream(), old(self).pos()),
    {
        match self.failable_iterator.next() {
            Some(Ok(s)) => Some(s),
            _ => None,
        }
    }
}

} // verus!
