//! A verified codec for the Cayenne LPP (Low Power Payload) binary
//! sensor-telemetry format used on bandwidth-constrained wireless networks
//! such as LoRaWAN.
//!
//! The encoder appends one typed measurement at a time into a caller-owned
//! byte buffer of fixed capacity and never resizes it; the decoder walks a
//! received buffer and yields one typed scalar per step, either strictly
//! (reporting each malformation as an error) or best-effort (stopping at the
//! first sign of trouble).
//!
//! Every numeric value travels in its fixed-point wire unit (for example a
//! temperature as a count of 0.1 degree C steps), so encoding and decoding
//! are exact and every contract in this crate speaks about bytes and
//! integers only.

use vstd::prelude::*;

mod cayenne_lpp_into_iterator;
mod cayenne_lpp_scalar;
mod constants;
mod error;
mod properties;
mod wire;

pub use cayenne_lpp_into_iterator::CayenneLPPIntoFailableIterator;
pub use cayenne_lpp_into_iterator::CayenneLPPIterator;
pub use cayenne_lpp_scalar::CayenneLPPScalar;
pub use cayenne_lpp_scalar::CayenneLPPValue;
pub use constants::{
    LPP_ACCELEROMETER, LPP_ACCELEROMETER_SIZE, LPP_ALTITUDE, LPP_ALTITUDE_SIZE, LPP_ANALOG_INPUT,
    LPP_ANALOG_INPUT_SIZE, LPP_ANALOG_OUTPUT, LPP_ANALOG_OUTPUT_SIZE, LPP_BAROMETRIC_PRESSURE,
    LPP_BAROMETRIC_PRESSURE_SIZE, LPP_COLOR, LPP_COLOR_SIZE, LPP_CONCENTRATION,
    LPP_CONCENTRATION_SIZE, LPP_CURRENT, LPP_CURRENT_SIZE, LPP_DIGITAL_INPUT,
    LPP_DIGITAL_INPUT_SIZE, LPP_DIGITAL_OUTPUT, LPP_DIGITAL_OUTPUT_SIZE, LPP_DIRECTION,
    LPP_DIRECTION_SIZE, LPP_DISTANCE, LPP_DISTANCE_SIZE, LPP_ENERGY, LPP_ENERGY_SIZE,
    LPP_FREQUENCY, LPP_FREQUENCY_SIZE, LPP_GENERIC_SENSOR, LPP_GENERIC_SENSOR_SIZE, LPP_GPS,
    LPP_GPS_SIZE, LPP_GYROMETER, LPP_GYROMETER_SIZE, LPP_LUMINOSITY, LPP_LUMINOSITY_SIZE,
    LPP_PERCENTAGE, LPP_PERCENTAGE_SIZE, LPP_POWER, LPP_POWER_SIZE, LPP_PRESENCE,
    LPP_PRESENCE_SIZE, LPP_RELATIVE_HUMIDITY, LPP_RELATIVE_HUMIDITY_SIZE, LPP_SWITCH,
    LPP_SWITCH_SIZE, LPP_TEMPERATURE, LPP_TEMPERATURE_SIZE, LPP_UNIXTIME, LPP_UNIXTIME_SIZE,
    LPP_VOLTAGE, LPP_VOLTAGE_SIZE,
};
pub use error::Error;
pub use properties::{
    encoding_of, lemma_encoded_scalar_len, lemma_decoded_body, lemma_exhaustion,
    lemma_round_trip, lemma_step_in_context, offset_of,
};
pub use wire::{
    be16, be16_bytes, be24, be24_bytes, be32, be32_bytes, decodable_value, decoded_value,
    encoded_body,
    encoded_scalar, known_code, signed16, signed24, size_of_code, step_next, step_result,
    type_code_of, value_in_range, wire16, wire24, wire_size_of,
};

verus! {

/// This struct contains the data of the added payload objects and an index
/// that points to the next free byte in the buffer. All newly added values
/// will increase the index. After adding all the values, the buffer contains
/// the payloads of the different data types and has a logical length of
/// `index`.
pub struct CayenneLPP {
    buffer: Vec<u8>,
    index: usize,
}

impl CayenneLPP {
    #[verifier::type_invariant]
    spec fn wf(self) -> bool {
        self.index <= self.buffer.len()
    }

    /// The bytes written so far: the logically valid prefix of the buffer.
    pub closed spec fn payload(&self) -> Seq<u8> {
        self.buffer@.take(self.index as int)
    }

    /// The total number of bytes the backing buffer can hold.
    pub closed spec fn capacity(&self) -> int {
        self.buffer@.len() as int
    }

    /// The full contents of the backing buffer, stale bytes beyond the
    /// write cursor included. The iterators walk these bytes from offset 0,
    /// which is what a receiver wants after wrapping a received buffer.
    pub closed spec fn bytes(&self) -> Seq<u8> {
        self.buffer@
    }

    /// Creates a new Cayenne LPP structure over the given buffer. Since the
    /// codec never resizes the storage, the buffer must equal the length of,
    /// or be bigger than, the data that shall be added to it.
    ///
    /// It is possible to use the size constants for the data types (e.g.
    /// `LPP_TEMPERATURE_SIZE`) to exactly calculate the size of the needed
    /// buffer.
    pub fn new(buffer: Vec<u8>) -> (lpp: Self)
        ensures
            lpp.payload() == Seq::<u8>::empty(),
            lpp.capacity() == buffer@.len(),
            lpp.bytes() == buffer@,
    {
        let lpp = CayenneLPP { buffer, index: 0 };
        proof {
            assert(lpp.payload() =~= Seq::<u8>::empty());
        }
        lpp
    }

    /// Resets the index that is pointing into the buffer, so it is possible
    /// to reuse the buffer and add new payloads to it.
    /// Remark: the buffer is not cleared by this operation.
    pub fn reset(&mut self)
        ensures
            final(self).payload() == Seq::<u8>::empty(),
            final(self).capacity() == old(self).capacity(),
            final(self).bytes() == old(self).bytes(),
    {
        self.index = 0;
        proof {
            assert(self.payload() =~= Seq::<u8>::empty());
        }
    }

    /// Returns the slice of the buffer that contains the payload of the
    /// added data types.
    pub fn payload_slice(&self) -> (r: &[u8])
        ensures
            r@ == self.payload(),
    {
        proof {
            use_type_invariant(self);
        }
        vstd::slice::slice_subrange(self.buffer.as_slice(), 0, self.index)
    }

    /// Reads one byte of the backing buffer, stale bytes included.
    pub(crate) fn byte_at(&self, i: usize) -> (r: u8)
        requires
            i < self.bytes().len(),
        ensures
            r == self.bytes()[i as int],
            self.bytes().len() <= usize::MAX,
    {
        proof {
            vstd::std_specs::vec::axiom_spec_len(&self.buffer);
        }
        self.buffer[i]
    }

    /// The total length of the backing buffer.
    pub(crate) fn total_len(&self) -> (r: usize)
        ensures
            r == self.bytes().len(),
    {
        self.buffer.len()
    }

    /// Appends one byte at the write cursor, touching no other byte.
    fn push_byte(&mut self, b: u8)
        requires
            old(self).payload().len() < old(self).capacity(),
        ensures
            final(self).capacity() == old(self).capacity(),
            final(self).payload() == old(self).payload().push(b),
            final(self).bytes() == final(self).payload() + old(self).bytes().skip(
                (old(self).payload().len() + 1) as int,
            ),
    {
        proof {
            use_type_invariant(&*self);
        }
        self.buffer[self.index] = b;
        self.index = self.index + 1;
        proof {
            assert(self.payload() =~= old(self).payload().push(b));
            assert(self.bytes() =~= self.payload() + old(self).bytes().skip(
                (old(self).payload().len() + 1) as int,
            ));
        }
    }

    /// Appends the two big-endian bytes of an unsigned 16-bit value.
    fn push_u16_be(&mut self, w: u16)
        requires
            old(self).payload().len() + 2 <= old(self).capacity(),
        ensures
            final(self).capacity() == old(self).capacity(),
            final(self).payload() == old(self).payload() + be16_bytes(w as int),
            final(self).bytes() == final(self).payload() + old(self).bytes().skip(
                (old(self).payload().len() + 2) as int,
            ),
    {
        self.push_byte((w / 0x100) as u8);
        self.push_byte((w % 0x100) as u8);
        proof {
            assert(self.payload() =~= old(self).payload() + be16_bytes(w as int));
            assert(self.bytes() =~= self.payload() + old(self).bytes().skip(
                (old(self).payload().len() + 2) as int,
            ));
        }
    }

    /// Appends the two big-endian bytes of the two's-complement wire
    /// representation of a signed 16-bit value.
    fn push_i16_be(&mut self, v: i16)
        requires
            old(self).payload().len() + 2 <= old(self).capacity(),
        ensures
            final(self).capacity() == old(self).capacity(),
            final(self).payload() == old(self).payload() + be16_bytes(wire16(v as int)),
            final(self).bytes() == final(self).payload() + old(self).bytes().skip(
                (old(self).payload().len() + 2) as int,
            ),
    {
        let w: u16 = if v >= 0 {
            v as u16
        } else {
            ((v as i32) + 0x10000) as u16
        };
        self.push_u16_be(w);
    }

    /// Appends the four big-endian bytes of an unsigned 32-bit value.
    fn push_u32_be(&mut self, w: u32)
        requires
            old(self).payload().len() + 4 <= old(self).capacity(),
        ensures
            final(self).capacity() == old(self).capacity(),
            final(self).payload() == old(self).payload() + be32_bytes(w as int),
            final(self).bytes() == final(self).payload() + old(self).bytes().skip(
                (old(self).payload().len() + 4) as int,
            ),
    {
        self.push_byte((w / 0x1000000) as u8);
        self.push_byte(((w / 0x10000) % 0x100) as u8);
        self.push_byte(((w / 0x100) % 0x100) as u8);
        self.push_byte((w % 0x100) as u8);
        proof {
            assert(self.payload() =~= old(self).payload() + be32_bytes(w as int));
            assert(self.bytes() =~= self.payload() + old(self).bytes().skip(
                (old(self).payload().len() + 4) as int,
            ));
        }
    }

    /// Appends the three big-endian bytes of the two's-complement wire
    /// representation of a signed value, keeping only its low 24 bits.
    fn push_i24_be(&mut self, v: i32)
        requires
            old(self).payload().len() + 3 <= old(self).capacity(),
        ensures
            final(self).capacity() == old(self).capacity(),
            final(self).payload() == old(self).payload() + be24_bytes(wire24(v as int)),
            final(self).bytes() == final(self).payload() + old(self).bytes().skip(
                (old(self).payload().len() + 3) as int,
            ),
    {
        let u: u32 = if v >= 0 {
            v as u32
        } else {
            ((v as i64) + 0x100000000i64) as u32
        };
        let w: u32 = u % 0x1000000;
        proof {
            if v < 0 {
                vstd::arithmetic::div_mod::lemma_mod_multiples_vanish(
                    0x100,
                    v as int,
                    0x1000000,
                );
            }
            assert(w == wire24(v as int));
        }
        self.push_byte((w / 0x10000) as u8);
        self.push_byte(((w / 0x100) % 0x100) as u8);
        self.push_byte((w % 0x100) as u8);
        proof {
            assert(self.payload() =~= old(self).payload() + be24_bytes(wire24(v as int)));
            assert(self.bytes() =~= self.payload() + old(self).bytes().skip(
                (old(self).payload().len() + 3) as int,
            ));
        }
    }

    /// Adds the payload for a digital input to the Cayenne LPP data
    /// structure.
    pub fn add_digital_input(&mut self, channel: u8, value: u8) -> (r: Result<(), Error>)
        ensures
            final(self).capacity() == old(self).capacity(),
            r == (if old(self).payload().len() + LPP_DIGITAL_INPUT_SIZE > old(self).capacity() {
                Err::<(), Error>(Error::InsufficientMemory)
            } else {
                Ok::<(), Error>(())
            }),
            r is Ok ==> final(self).payload() == old(self).payload() + encoded_scalar(
                channel,
                CayenneLPPValue::DigitalInput(value),
            ),
            r is Err ==> final(self).payload() == old(self).payload(),
            r is Ok ==> final(self).bytes() == final(self).payload() + old(self).bytes().skip(
                (old(self).payload().len() + LPP_DIGITAL_INPUT_SIZE) as int,
            ),
            r is Err ==> final(self).bytes() == old(self).bytes(),
    {
        proof {
            use_type_invariant(&*self);
        }
        if self.buffer.len() - self.index < LPP_DIGITAL_INPUT_SIZE {
            return Err(Error::InsufficientMemory);
        }
        self.push_byte(channel);
        self.push_byte(LPP_DIGITAL_INPUT);
        self.push_byte(value);
        proof {
            assert(self.payload() =~= old(self).payload() + encoded_scalar(
                channel,
                CayenneLPPValue::DigitalInput(value),
            ));
            assert(self.bytes() =~= self.payload() + old(self).bytes().skip(
                (old(self).payload().len() + LPP_DIGITAL_INPUT_SIZE) as int,
            ));
        }
        Ok(())
    }

    /// Adds the payload for a digital output to the Cayenne LPP data
    /// structure.
    pub fn add_digital_output(&mut self, channel: u8, value: u8) -> (r: Result<(), Error>)
        ensures
            final(self).capacity() == old(self).capacity(),
            r == (if old(self).payload().len() + LPP_DIGITAL_OUTPUT_SIZE > old(self).capacity() {
                Err::<(), Error>(Error::InsufficientMemory)
            } else {
                Ok::<(), Error>(())
            }),
            r is Ok ==> final(self).payload() == old(self).payload() + encoded_scalar(
                channel,
                CayenneLPPValue::DigitalOutput(value),
            ),
            r is Err ==> final(self).payload() == old(self).payload(),
            r is Ok ==> final(self).bytes() == final(self).payload() + old(self).bytes().skip(
                (old(self).payload().len() + LPP_DIGITAL_OUTPUT_SIZE) as int,
            ),
            r is Err ==> final(self).bytes() == old(self).bytes(),
    {
        proof {
            use_type_invariant(&*self);
        }
        if self.buffer.len() - self.index < LPP_DIGITAL_OUTPUT_SIZE {
            return Err(Error::InsufficientMemory);
        }
        self.push_byte(channel);
        self.push_byte(LPP_DIGITAL_OUTPUT);
        self.push_byte(value);
        proof {
            assert(self.payload() =~= old(self).payload() + encoded_scalar(
                channel,
                CayenneLPPValue::DigitalOutput(value),
            ));
            assert(self.bytes() =~= self.payload() + old(self).bytes().skip(
                (old(self).payload().len() + LPP_DIGITAL_OUTPUT_SIZE) as int,
            ));
        }
        Ok(())
    }

    /// Adds the payload for an analog input to the Cayenne LPP data
    /// structure. The value is a count of 0.01 units.
    pub fn add_analog_input(&mut self, channel: u8, value: i16) -> (r: Result<(), Error>)
        ensures
            final(self).capacity() == old(self).capacity(),
            r == (if old(self).payload().len() + LPP_ANALOG_INPUT_SIZE > old(self).capacity() {
                Err::<(), Error>(Error::InsufficientMemory)
            } else {
                Ok::<(), Error>(())
            }),
            r is Ok ==> final(self).payload() == old(self).payload() + encoded_scalar(
                channel,
                CayenneLPPValue::AnalogInput(value),
            ),
            r is Err ==> final(self).payload() == old(self).payload(),
            r is Ok ==> final(self).bytes() == final(self).payload() + old(self).bytes().skip(
                (old(self).payload().len() + LPP_ANALOG_INPUT_SIZE) as int,
            ),
            r is Err ==> final(self).bytes() == old(self).bytes(),
    {
        proof {
            use_type_invariant(&*self);
        }
        if self.buffer.len() - self.index < LPP_ANALOG_INPUT_SIZE {
            return Err(Error::InsufficientMemory);
        }
        self.push_byte(channel);
        self.push_byte(LPP_ANALOG_INPUT);
        self.push_i16_be(value);
        proof {
            assert(self.payload() =~= old(self).payload() + encoded_scalar(
                channel,
                CayenneLPPValue::AnalogInput(value),
            ));
            assert(self.bytes() =~= self.payload() + old(self).bytes().skip(
                (old(self).payload().len() + LPP_ANALOG_INPUT_SIZE) as int,
            ));
        }
        Ok(())
    }

    /// Adds the payload for a temperature to the Cayenne LPP data
    /// structure. The value is a count of 0.1 degree C steps.
    pub fn add_temperature(&mut self, channel: u8, value: i16) -> (r: Result<(), Error>)
        ensures
            final(self).capacity() == old(self).capacity(),
            r == (if old(self).payload().len() + LPP_TEMPERATURE_SIZE > old(self).capacity() {
                Err::<(), Error>(Error::InsufficientMemory)
            } else {
                Ok::<(), Error>(())
            }),
            r is Ok ==> final(self).payload() == old(self).payload() + encoded_scalar(
                channel,
                CayenneLPPValue::Temperature(value),
            ),
            r is Err ==> final(self).payload() == old(self).payload(),
            r is Ok ==> final(self).bytes() == final(self).payload() + old(self).bytes().skip(
                (old(self).payload().len() + LPP_TEMPERATURE_SIZE) as int,
            ),
            r is Err ==> final(self).bytes() == old(self).bytes(),
    {
        proof {
            use_type_invariant(&*self);
        }
        if self.buffer.len() - self.index < LPP_TEMPERATURE_SIZE {
            return Err(Error::InsufficientMemory);
        }
        self.push_byte(channel);
        self.push_byte(LPP_TEMPERATURE);
        self.push_i16_be(value);
        proof {
            assert(self.payload() =~= old(self).payload() + encoded_scalar(
                channel,
                CayenneLPPValue::Temperature(value),
            ));
            assert(self.bytes() =~= self.payload() + old(self).bytes().skip(
                (old(self).payload().len() + LPP_TEMPERATURE_SIZE) as int,
            ));
        }
        Ok(())
    }

    /// Adds the payload for a generic sensor to the Cayenne LPP data
    /// structure. The units are not specified.
    pub fn add_generic_sensor(&mut self, channel: u8, value: u32) -> (r: Result<(), Error>)
        ensures
            final(self).capacity() == old(self).capacity(),
            r == (if old(self).payload().len() + LPP_GENERIC_SENSOR_SIZE > old(self).capacity() {
                Err::<(), Error>(Error::InsufficientMemory)
            } else {
                Ok::<(), Error>(())
            }),
            r is Ok ==> final(self).payload() == old(self).payload() + encoded_scalar(
                channel,
                CayenneLPPValue::GenericSensor(value),
            ),
            r is Err ==> final(self).payload() == old(self).payload(),
            r is Ok ==> final(self).bytes() == final(self).payload() + old(self).bytes().skip(
                (old(self).payload().len() + LPP_GENERIC_SENSOR_SIZE) as int,
            ),
            r is Err ==> final(self).bytes() == old(self).bytes(),
    {
        proof {
            use_type_invariant(&*self);
        }
        if self.buffer.len() - self.index < LPP_GENERIC_SENSOR_SIZE {
            return Err(Error::InsufficientMemory);
        }
        self.push_byte(channel);
        self.push_byte(LPP_GENERIC_SENSOR);
        self.push_u32_be(value);
        proof {
            assert(self.payload() =~= old(self).payload() + encoded_scalar(
                channel,
                CayenneLPPValue::GenericSensor(value),
            ));
            assert(self.bytes() =~= self.payload() + old(self).bytes().skip(
                (old(self).payload().len() + LPP_GENERIC_SENSOR_SIZE) as int,
            ));
        }
        Ok(())
    }

    /// Adds the payload for luminosity to the Cayenne LPP data structure.
    /// The value should be provided in lux.
    pub fn add_luminosity(&mut self, channel: u8, lux: u16) -> (r: Result<(), Error>)
        ensures
            final(self).capacity() == old(self).capacity(),
            r == (if old(self).payload().len() + LPP_LUMINOSITY_SIZE > old(self).capacity() {
                Err::<(), Error>(Error::InsufficientMemory)
            } else {
                Ok::<(), Error>(())
            }),
            r is Ok ==> final(self).payload() == old(self).payload() + encoded_scalar(
                channel,
                CayenneLPPValue::Luminosity(lux),
            ),
            r is Err ==> final(self).payload() == old(self).payload(),
            r is Ok ==> final(self).bytes() == final(self).payload() + old(self).bytes().skip(
                (old(self).payload().len() + LPP_LUMINOSITY_SIZE) as int,
            ),
            r is Err ==> final(self).bytes() == old(self).bytes(),
    {
        proof {
            use_type_invariant(&*self);
        }
        if self.buffer.len() - self.index < LPP_LUMINOSITY_SIZE {
            return Err(Error::InsufficientMemory);
        }
        self.push_byte(channel);
        self.push_byte(LPP_LUMINOSITY);
        self.push_u16_be(lux);
        proof {
            assert(self.payload() =~= old(self).payload() + encoded_scalar(
                channel,
                CayenneLPPValue::Luminosity(lux),
            ));
            assert(self.bytes() =~= self.payload() + old(self).bytes().skip(
                (old(self).payload().len() + LPP_LUMINOSITY_SIZE) as int,
            ));
        }
        Ok(())
    }

    /// Adds the payload for an analog output to the Cayenne LPP data
    /// structure. The value is a count of 0.01 units.
    pub fn add_analog_output(&mut self, channel: u8, value: i16) -> (r: Result<(), Error>)
        ensures
            final(self).capacity() == old(self).capacity(),
            r == (if old(self).payload().len() + LPP_ANALOG_OUTPUT_SIZE > old(self).capacity() {
                Err::<(), Error>(Error::InsufficientMemory)
            } else {
                Ok::<(), Error>(())
            }),
            r is Ok ==> final(self).payload() == old(self).payload() + encoded_scalar(
                channel,
                CayenneLPPValue::AnalogOutput(value),
            ),
            r is Err ==> final(self).payload() == old(self).payload(),
            r is Ok ==> final(self).bytes() == final(self).payload() + old(self).bytes().skip(
                (old(self).payload().len() + LPP_ANALOG_OUTPUT_SIZE) as int,
            ),
            r is Err ==> final(self).bytes() == old(self).bytes(),
    {
        proof {
            use_type_invariant(&*self);
        }
        if self.buffer.len() - self.index < LPP_ANALOG_OUTPUT_SIZE {
            return Err(Error::InsufficientMemory);
        }
        self.push_byte(channel);
        self.push_byte(LPP_ANALOG_OUTPUT);
        self.push_i16_be(value);
        proof {
            assert(self.payload() =~= old(self).payload() + encoded_scalar(
                channel,
                CayenneLPPValue::AnalogOutput(value),
            ));
            assert(self.bytes() =~= self.payload() + old(self).bytes().skip(
                (old(self).payload().len() + LPP_ANALOG_OUTPUT_SIZE) as int,
            ));
        }
        Ok(())
    }

    /// Adds the payload for a presence sensor to the Cayenne LPP data
    /// structure.
    pub fn add_presence(&mut self, channel: u8, value: u8) -> (r: Result<(), Error>)
        ensures
            final(self).capacity() == old(self).capacity(),
            r == (if old(self).payload().len() + LPP_PRESENCE_SIZE > old(self).capacity() {
                Err::<(), Error>(Error::InsufficientMemory)
            } else {
                Ok::<(), Error>(())
            }),
            r is Ok ==> final(self).payload() == old(self).payload() + encoded_scalar(
                channel,
                CayenneLPPValue::Presence(value),
            ),
            r is Err ==> final(self).payload() == old(self).payload(),
            r is Ok ==> final(self).bytes() == final(self).payload() + old(self).bytes().skip(
                (old(self).payload().len() + LPP_PRESENCE_SIZE) as int,
            ),
            r is Err ==> final(self).bytes() == old(self).bytes(),
    {
        proof {
            use_type_invariant(&*self);
        }
        if self.buffer.len() - self.index < LPP_PRESENCE_SIZE {
            return Err(Error::InsufficientMemory);
        }
        self.push_byte(channel);
        self.push_byte(LPP_PRESENCE);
        self.push_byte(value);
        proof {
            assert(self.payload() =~= old(self).payload() + encoded_scalar(
                channel,
                CayenneLPPValue::Presence(value),
            ));
            assert(self.bytes() =~= self.payload() + old(self).bytes().skip(
                (old(self).payload().len() + LPP_PRESENCE_SIZE) as int,
            ));
        }
        Ok(())
    }

    /// Adds the payload for relative humidity to the Cayenne LPP data
    /// structure. The value is a count of 0.5 % steps, so 100 % humidity is
    /// the byte 200.
    pub fn add_relative_humidity(&mut self, channel: u8, half_percent: u8) -> (r: Result<
        (),
        Error,
    >)
        ensures
            final(self).capacity() == old(self).capacity(),
            r == (if old(self).payload().len() + LPP_RELATIVE_HUMIDITY_SIZE > old(
                self,
            ).capacity() {
                Err::<(), Error>(Error::InsufficientMemory)
            } else {
                Ok::<(), Error>(())
            }),
            r is Ok ==> final(self).payload() == old(self).payload() + encoded_scalar(
                channel,
                CayenneLPPValue::RelativeHumidity(half_percent),
            ),
            r is Err ==> final(self).payload() == old(self).payload(),
            r is Ok ==> final(self).bytes() == final(self).payload() + old(self).bytes().skip(
                (old(self).payload().len() + LPP_RELATIVE_HUMIDITY_SIZE) as int,
            ),
            r is Err ==> final(self).bytes() == old(self).bytes(),
    {
        proof {
            use_type_invariant(&*self);
        }
        if self.buffer.len() - self.index < LPP_RELATIVE_HUMIDITY_SIZE {
            return Err(Error::InsufficientMemory);
        }
        self.push_byte(channel);
        self.push_byte(LPP_RELATIVE_HUMIDITY);
        self.push_byte(half_percent);
        proof {
            assert(self.payload() =~= old(self).payload() + encoded_scalar(
                channel,
                CayenneLPPValue::RelativeHumidity(half_percent),
            ));
            assert(self.bytes() =~= self.payload() + old(self).bytes().skip(
                (old(self).payload().len() + LPP_RELATIVE_HUMIDITY_SIZE) as int,
            ));
        }
        Ok(())
    }

    /// Adds the payload of an accelerometer to the Cayenne LPP data
    /// structure. Each axis is a count of 0.001 G steps.
    pub fn add_accelerometer(&mut self, channel: u8, x: i16, y: i16, z: i16) -> (r: Result<
        (),
        Error,
    >)
        ensures
            final(self).capacity() == old(self).capacity(),
            r == (if old(self).payload().len() + LPP_ACCELEROMETER_SIZE > old(self).capacity() {
                Err::<(), Error>(Error::InsufficientMemory)
            } else {
                Ok::<(), Error>(())
            }),
            r is Ok ==> final(self).payload() == old(self).payload() + encoded_scalar(
                channel,
                CayenneLPPValue::Accelerometer(x, y, z),
            ),
            r is Err ==> final(self).payload() == old(self).payload(),
            r is Ok ==> final(self).bytes() == final(self).payload() + old(self).bytes().skip(
                (old(self).payload().len() + LPP_ACCELEROMETER_SIZE) as int,
            ),
            r is Err ==> final(self).bytes() == old(self).bytes(),
    {
        proof {
            use_type_invariant(&*self);
        }
        if self.buffer.len() - self.index < LPP_ACCELEROMETER_SIZE {
            return Err(Error::InsufficientMemory);
        }
        self.push_byte(channel);
        self.push_byte(LPP_ACCELEROMETER);
        self.push_i16_be(x);
        self.push_i16_be(y);
        self.push_i16_be(z);
        proof {
            assert(self.payload() =~= old(self).payload() + encoded_scalar(
                channel,
                CayenneLPPValue::Accelerometer(x, y, z),
            ));
            assert(self.bytes() =~= self.payload() + old(self).bytes().skip(
                (old(self).payload().len() + LPP_ACCELEROMETER_SIZE) as int,
            ));
        }
        Ok(())
    }

    /// Adds the payload for barometric pressure to the Cayenne LPP data
    /// structure. The value is a count of 0.1 hPa steps.
    pub fn add_barometric_pressure(&mut self, channel: u8, value: u16) -> (r: Result<(), Error>)
        ensures
            final(self).capacity() == old(self).capacity(),
            r == (if old(self).payload().len() + LPP_BAROMETRIC_PRESSURE_SIZE > old(
                self,
            ).capacity() {
                Err::<(), Error>(Error::InsufficientMemory)
            } else {
                Ok::<(), Error>(())
            }),
            r is Ok ==> final(self).payload() == old(self).payload() + encoded_scalar(
                channel,
                CayenneLPPValue::BarometricPressure(value),
            ),
            r is Err ==> final(self).payload() == old(self).payload(),
            r is Ok ==> final(self).bytes() == final(self).payload() + old(self).bytes().skip(
                (old(self).payload().len() + LPP_BAROMETRIC_PRESSURE_SIZE) as int,
            ),
            r is Err ==> final(self).bytes() == old(self).bytes(),
    {
        proof {
            use_type_invariant(&*self);
        }
        if self.buffer.len() - self.index < LPP_BAROMETRIC_PRESSURE_SIZE {
            return Err(Error::InsufficientMemory);
        }
        self.push_byte(channel);
        self.push_byte(LPP_BAROMETRIC_PRESSURE);
        self.push_u16_be(value);
        proof {
            assert(self.payload() =~= old(self).payload() + encoded_scalar(
                channel,
                CayenneLPPValue::BarometricPressure(value),
            ));
            assert(self.bytes() =~= self.payload() + old(self).bytes().skip(
                (old(self).payload().len() + LPP_BAROMETRIC_PRESSURE_SIZE) as int,
            ));
        }
        Ok(())
    }

    /// Adds the payload for a voltage to the Cayenne LPP data structure.
    /// The value is a count of 0.01 V steps; counts above the unsigned
    /// 16-bit range are rejected as `OutOfRange` rather than wrapped.
    pub fn add_voltage(&mut self, channel: u8, centivolts: u32) -> (r: Result<(), Error>)
        ensures
            final(self).capacity() == old(self).capacity(),
            r == (if old(self).payload().len() + LPP_VOLTAGE_SIZE > old(self).capacity() {
                Err::<(), Error>(Error::InsufficientMemory)
            } else if centivolts > 0xFFFF {
                Err::<(), Error>(Error::OutOfRange)
            } else {
                Ok::<(), Error>(())
            }),
            r is Ok ==> final(self).payload() == old(self).payload() + encoded_scalar(
                channel,
                CayenneLPPValue::Voltage(centivolts as u16),
            ),
            r is Err ==> final(self).payload() == old(self).payload(),
            r is Ok ==> final(self).bytes() == final(self).payload() + old(self).bytes().skip(
                (old(self).payload().len() + LPP_VOLTAGE_SIZE) as int,
            ),
            r is Err ==> final(self).bytes() == old(self).bytes(),
    {
        proof {
            use_type_invariant(&*self);
        }
        if self.buffer.len() - self.index < LPP_VOLTAGE_SIZE {
            return Err(Error::InsufficientMemory);
        }
        if centivolts > 0xFFFF {
            return Err(Error::OutOfRange);
        }
        self.push_byte(channel);
        self.push_byte(LPP_VOLTAGE);
        self.push_u16_be(centivolts as u16);
        proof {
            assert(self.payload() =~= old(self).payload() + encoded_scalar(
                channel,
                CayenneLPPValue::Voltage(centivolts as u16),
            ));
            assert(self.bytes() =~= self.payload() + old(self).bytes().skip(
                (old(self).payload().len() + LPP_VOLTAGE_SIZE) as int,
            ));
        }
        Ok(())
    }

    /// Adds the payload for a current to the Cayenne LPP data structure.
    /// The value is a count of 1 mA steps; counts above the unsigned 16-bit
    /// range are rejected as `OutOfRange` rather than wrapped.
    pub fn add_current(&mut self, channel: u8, milliamps: u32) -> (r: Result<(), Error>)
        ensures
            final(self).capacity() == old(self).capacity(),
            r == (if old(self).payload().len() + LPP_CURRENT_SIZE > old(self).capacity() {
                Err::<(), Error>(Error::InsufficientMemory)
            } else if milliamps > 0xFFFF {
                Err::<(), Error>(Error::OutOfRange)
            } else {
                Ok::<(), Error>(())
            }),
            r is Ok ==> final(self).payload() == old(self).payload() + encoded_scalar(
                channel,
                CayenneLPPValue::Current(milliamps as u16),
            ),
            r is Err ==> final(self).payload() == old(self).payload(),
            r is Ok ==> final(self).bytes() == final(self).payload() + old(self).bytes().skip(
                (old(self).payload().len() + LPP_CURRENT_SIZE) as int,
            ),
            r is Err ==> final(self).bytes() == old(self).bytes(),
    {
        proof {
            use_type_invariant(&*self);
        }
        if self.buffer.len() - self.index < LPP_CURRENT_SIZE {
            return Err(Error::InsufficientMemory);
        }
        if milliamps > 0xFFFF {
            return Err(Error::OutOfRange);
        }
        self.push_byte(channel);
        self.push_byte(LPP_CURRENT);
        self.push_u16_be(milliamps as u16);
        proof {
            assert(self.payload() =~= old(self).payload() + encoded_scalar(
                channel,
                CayenneLPPValue::Current(milliamps as u16),
            ));
            assert(self.bytes() =~= self.payload() + old(self).bytes().skip(
                (old(self).payload().len() + LPP_CURRENT_SIZE) as int,
            ));
        }
        Ok(())
    }

    /// Adds the payload for a frequency to the Cayenne LPP data structure.
    /// The units are in hertz.
    pub fn add_frequency(&mut self, channel: u8, frequency: u32) -> (r: Result<(), Error>)
        ensures
            final(self).capacity() == old(self).capacity(),
            r == (if old(self).payload().len() + LPP_FREQUENCY_SIZE > old(self).capacity() {
                Err::<(), Error>(Error::InsufficientMemory)
            } else {
                Ok::<(), Error>(())
            }),
            r is Ok ==> final(self).payload() == old(self).payload() + encoded_scalar(
                channel,
                CayenneLPPValue::Frequency(frequency),
            ),
            r is Err ==> final(self).payload() == old(self).payload(),
            r is Ok ==> final(self).bytes() == final(self).payload() + old(self).bytes().skip(
                (old(self).payload().len() + LPP_FREQUENCY_SIZE) as int,
            ),
            r is Err ==> final(self).bytes() == old(self).bytes(),
    {
        proof {
            use_type_invariant(&*self);
        }
        if self.buffer.len() - self.index < LPP_FREQUENCY_SIZE {
            return Err(Error::InsufficientMemory);
        }
        self.push_byte(channel);
        self.push_byte(LPP_FREQUENCY);
        self.push_u32_be(frequency);
        proof {
            assert(self.payload() =~= old(self).payload() + encoded_scalar(
                channel,
                CayenneLPPValue::Frequency(frequency),
            ));
            assert(self.bytes() =~= self.payload() + old(self).bytes().skip(
                (old(self).payload().len() + LPP_FREQUENCY_SIZE) as int,
            ));
        }
        Ok(())
    }

    /// Adds the payload for a percentage to the Cayenne LPP data structure.
    /// The units are single percent, 0-100 %.
    pub fn add_percentage(&mut self, channel: u8, percentage: u8) -> (r: Result<(), Error>)
        ensures
            final(self).capacity() == old(self).capacity(),
            r == (if old(self).payload().len() + LPP_PERCENTAGE_SIZE > old(self).capacity() {
                Err::<(), Error>(Error::InsufficientMemory)
            } else {
                Ok::<(), Error>(())
            }),
            r is Ok ==> final(self).payload() == old(self).payload() + encoded_scalar(
                channel,
                CayenneLPPValue::Percentage(percentage),
            ),
            r is Err ==> final(self).payload() == old(self).payload(),
            r is Ok ==> final(self).bytes() == final(self).payload() + old(self).bytes().skip(
                (old(self).payload().len() + LPP_PERCENTAGE_SIZE) as int,
            ),
            r is Err ==> final(self).bytes() == old(self).bytes(),
    {
        proof {
            use_type_invariant(&*self);
        }
        if self.buffer.len() - self.index < LPP_PERCENTAGE_SIZE {
            return Err(Error::InsufficientMemory);
        }
        self.push_byte(channel);
        self.push_byte(LPP_PERCENTAGE);
        self.push_byte(percentage);
        proof {
            assert(self.payload() =~= old(self).payload() + encoded_scalar(
                channel,
                CayenneLPPValue::Percentage(percentage),
            ));
            assert(self.bytes() =~= self.payload() + old(self).bytes().skip(
                (old(self).payload().len() + LPP_PERCENTAGE_SIZE) as int,
            ));
        }
        Ok(())
    }

    /// Adds the payload for an altitude to the Cayenne LPP data structure,
    /// in meters.
    pub fn add_altitude(&mut self, channel: u8, altitude: i16) -> (r: Result<(), Error>)
        ensures
            final(self).capacity() == old(self).capacity(),
            r == (if old(self).payload().len() + LPP_ALTITUDE_SIZE > old(self).capacity() {
                Err::<(), Error>(Error::InsufficientMemory)
            } else {
                Ok::<(), Error>(())
            }),
            r is Ok ==> final(self).payload() == old(self).payload() + encoded_scalar(
                channel,
                CayenneLPPValue::Altitude(altitude),
            ),
            r is Err ==> final(self).payload() == old(self).payload(),
            r is Ok ==> final(self).bytes() == final(self).payload() + old(self).bytes().skip(
                (old(self).payload().len() + LPP_ALTITUDE_SIZE) as int,
            ),
            r is Err ==> final(self).bytes() == old(self).bytes(),
    {
        proof {
            use_type_invariant(&*self);
        }
        if self.buffer.len() - self.index < LPP_ALTITUDE_SIZE {
            return Err(Error::InsufficientMemory);
        }
        self.push_byte(channel);
        self.push_byte(LPP_ALTITUDE);
        self.push_i16_be(altitude);
        proof {
            assert(self.payload() =~= old(self).payload() + encoded_scalar(
                channel,
                CayenneLPPValue::Altitude(altitude),
            ));
            assert(self.bytes() =~= self.payload() + old(self).bytes().skip(
                (old(self).payload().len() + LPP_ALTITUDE_SIZE) as int,
            ));
        }
        Ok(())
    }

    /// Adds the payload for a power to the Cayenne LPP data structure, in
    /// watts.
    pub fn add_power(&mut self, channel: u8, power: u16) -> (r: Result<(), Error>)
        ensures
            final(self).capacity() == old(self).capacity(),
            r == (if old(self).payload().len() + LPP_POWER_SIZE > old(self).capacity() {
                Err::<(), Error>(Error::InsufficientMemory)
            } else {
                Ok::<(), Error>(())
            }),
            r is Ok ==> final(self).payload() == old(self).payload() + encoded_scalar(
                channel,
                CayenneLPPValue::Power(power),
            ),
            r is Err ==> final(self).payload() == old(self).payload(),
            r is Ok ==> final(self).bytes() == final(self).payload() + old(self).bytes().skip(
                (old(self).payload().len() + LPP_POWER_SIZE) as int,
            ),
            r is Err ==> final(self).bytes() == old(self).bytes(),
    {
        proof {
            use_type_invariant(&*self);
        }
        if self.buffer.len() - self.index < LPP_POWER_SIZE {
            return Err(Error::InsufficientMemory);
        }
        self.push_byte(channel);
        self.push_byte(LPP_POWER);
        self.push_u16_be(power);
        proof {
            assert(self.payload() =~= old(self).payload() + encoded_scalar(
                channel,
                CayenneLPPValue::Power(power),
            ));
            assert(self.bytes() =~= self.payload() + old(self).bytes().skip(
                (old(self).payload().len() + LPP_POWER_SIZE) as int,
            ));
        }
        Ok(())
    }

    /// Adds the payload for a distance to the Cayenne LPP data structure.
    /// The units are in millimeters.
    pub fn add_distance(&mut self, channel: u8, distance: u32) -> (r: Result<(), Error>)
        ensures
            final(self).capacity() == old(self).capacity(),
            r == (if old(self).payload().len() + LPP_DISTANCE_SIZE > old(self).capacity() {
                Err::<(), Error>(Error::InsufficientMemory)
            } else {
                Ok::<(), Error>(())
            }),
            r is Ok ==> final(self).payload() == old(self).payload() + encoded_scalar(
                channel,
                CayenneLPPValue::Distance(distance),
            ),
            r is Err ==> final(self).payload() == old(self).payload(),
            r is Ok ==> final(self).bytes() == final(self).payload() + old(self).bytes().skip(
                (old(self).payload().len() + LPP_DISTANCE_SIZE) as int,
            ),
            r is Err ==> final(self).bytes() == old(self).bytes(),
    {
        proof {
            use_type_invariant(&*self);
        }
        if self.buffer.len() - self.index < LPP_DISTANCE_SIZE {
            return Err(Error::InsufficientMemory);
        }
        self.push_byte(channel);
        self.push_byte(LPP_DISTANCE);
        self.push_u32_be(distance);
        proof {
            assert(self.payload() =~= old(self).payload() + encoded_scalar(
                channel,
                CayenneLPPValue::Distance(distance),
            ));
            assert(self.bytes() =~= self.payload() + old(self).bytes().skip(
                (old(self).payload().len() + LPP_DISTANCE_SIZE) as int,
            ));
        }
        Ok(())
    }

    /// Adds the payload for an energy to the Cayenne LPP data structure.
    /// The units are in single Wh.
    pub fn add_energy(&mut self, channel: u8, energy: u32) -> (r: Result<(), Error>)
        ensures
            final(self).capacity() == old(self).capacity(),
            r == (if old(self).payload().len() + LPP_ENERGY_SIZE > old(self).capacity() {
                Err::<(), Error>(Error::InsufficientMemory)
            } else {
                Ok::<(), Error>(())
            }),
            r is Ok ==> final(self).payload() == old(self).payload() + encoded_scalar(
                channel,
                CayenneLPPValue::Energy(energy),
            ),
            r is Err ==> final(self).payload() == old(self).payload(),
            r is Ok ==> final(self).bytes() == final(self).payload() + old(self).bytes().skip(
                (old(self).payload().len() + LPP_ENERGY_SIZE) as int,
            ),
            r is Err ==> final(self).bytes() == old(self).bytes(),
    {
        proof {
            use_type_invariant(&*self);
        }
        if self.buffer.len() - self.index < LPP_ENERGY_SIZE {
            return Err(Error::InsufficientMemory);
        }
        self.push_byte(channel);
        self.push_byte(LPP_ENERGY);
        self.push_u32_be(energy);
        proof {
            assert(self.payload() =~= old(self).payload() + encoded_scalar(
                channel,
                CayenneLPPValue::Energy(energy),
            ));
            assert(self.bytes() =~= self.payload() + old(self).bytes().skip(
                (old(self).payload().len() + LPP_ENERGY_SIZE) as int,
            ));
        }
        Ok(())
    }

    /// Adds the payload for a direction to the Cayenne LPP data structure,
    /// in degrees. Deliberately unchecked: values above 360 degrees may
    /// indicate more than one turn.
    pub fn add_direction(&mut self, channel: u8, direction: u16) -> (r: Result<(), Error>)
        ensures
            final(self).capacity() == old(self).capacity(),
            r == (if old(self).payload().len() + LPP_DIRECTION_SIZE > old(self).capacity() {
                Err::<(), Error>(Error::InsufficientMemory)
            } else {
                Ok::<(), Error>(())
            }),
            r is Ok ==> final(self).payload() == old(self).payload() + encoded_scalar(
                channel,
                CayenneLPPValue::Direction(direction),
            ),
            r is Err ==> final(self).payload() == old(self).payload(),
            r is Ok ==> final(self).bytes() == final(self).payload() + old(self).bytes().skip(
                (old(self).payload().len() + LPP_DIRECTION_SIZE) as int,
            ),
            r is Err ==> final(self).bytes() == old(self).bytes(),
    {
        proof {
            use_type_invariant(&*self);
        }
        if self.buffer.len() - self.index < LPP_DIRECTION_SIZE {
            return Err(Error::InsufficientMemory);
        }
        self.push_byte(channel);
        self.push_byte(LPP_DIRECTION);
        self.push_u16_be(direction);
        proof {
            assert(self.payload() =~= old(self).payload() + encoded_scalar(
                channel,
                CayenneLPPValue::Direction(direction),
            ));
            assert(self.bytes() =~= self.payload() + old(self).bytes().skip(
                (old(self).payload().len() + LPP_DIRECTION_SIZE) as int,
            ));
        }
        Ok(())
    }

    /// Adds the payload for a unix time to the Cayenne LPP data structure.
    /// The units are in seconds relative to the unix epoch.
    pub fn add_unixtime(&mut self, channel: u8, unixtime: u32) -> (r: Result<(), Error>)
        ensures
            final(self).capacity() == old(self).capacity(),
            r == (if old(self).payload().len() + LPP_UNIXTIME_SIZE > old(self).capacity() {
                Err::<(), Error>(Error::InsufficientMemory)
            } else {
                Ok::<(), Error>(())
            }),
            r is Ok ==> final(self).payload() == old(self).payload() + encoded_scalar(
                channel,
                CayenneLPPValue::UnixTime(unixtime),
            ),
            r is Err ==> final(self).payload() == old(self).payload(),
            r is Ok ==> final(self).bytes() == final(self).payload() + old(self).bytes().skip(
                (old(self).payload().len() + LPP_UNIXTIME_SIZE) as int,
            ),
            r is Err ==> final(self).bytes() == old(self).bytes(),
    {
        proof {
            use_type_invariant(&*self);
        }
        if self.buffer.len() - self.index < LPP_UNIXTIME_SIZE {
            return Err(Error::InsufficientMemory);
        }
        self.push_byte(channel);
        self.push_byte(LPP_UNIXTIME);
        self.push_u32_be(unixtime);
        proof {
            assert(self.payload() =~= old(self).payload() + encoded_scalar(
                channel,
                CayenneLPPValue::UnixTime(unixtime),
            ));
            assert(self.bytes() =~= self.payload() + old(self).bytes().skip(
                (old(self).payload().len() + LPP_UNIXTIME_SIZE) as int,
            ));
        }
        Ok(())
    }

    /// Adds the payload for a gyrometer to the Cayenne LPP data structure.
    /// Each axis is a count of 0.01 degree/s steps.
    pub fn add_gyrometer(&mut self, channel: u8, x: u16, y: u16, z: u16) -> (r: Result<
        (),
        Error,
    >)
        ensures
            final(self).capacity() == old(self).capacity(),
            r == (if old(self).payload().len() + LPP_GYROMETER_SIZE > old(self).capacity() {
                Err::<(), Error>(Error::InsufficientMemory)
            } else {
                Ok::<(), Error>(())
            }),
            r is Ok ==> final(self).payload() == old(self).payload() + encoded_scalar(
                channel,
                CayenneLPPValue::Gyrometer(x, y, z),
            ),
            r is Err ==> final(self).payload() == old(self).payload(),
            r is Ok ==> final(self).bytes() == final(self).payload() + old(self).bytes().skip(
                (old(self).payload().len() + LPP_GYROMETER_SIZE) as int,
            ),
            r is Err ==> final(self).bytes() == old(self).bytes(),
    {
        proof {
            use_type_invariant(&*self);
        }
        if self.buffer.len() - self.index < LPP_GYROMETER_SIZE {
            return Err(Error::InsufficientMemory);
        }
        self.push_byte(channel);
        self.push_byte(LPP_GYROMETER);
        self.push_u16_be(x);
        self.push_u16_be(y);
        self.push_u16_be(z);
        proof {
            assert(self.payload() =~= old(self).payload() + encoded_scalar(
                channel,
                CayenneLPPValue::Gyrometer(x, y, z),
            ));
            assert(self.bytes() =~= self.payload() + old(self).bytes().skip(
                (old(self).payload().len() + LPP_GYROMETER_SIZE) as int,
            ));
        }
        Ok(())
    }

    /// Adds the payload for a switch to the Cayenne LPP data structure.
    /// It travels as a single byte that is 0 or 1.
    pub fn add_switch(&mut self, channel: u8, value: bool) -> (r: Result<(), Error>)
        ensures
            final(self).capacity() == old(self).capacity(),
            r == (if old(self).payload().len() + LPP_SWITCH_SIZE > old(self).capacity() {
                Err::<(), Error>(Error::InsufficientMemory)
            } else {
                Ok::<(), Error>(())
            }),
            r is Ok ==> final(self).payload() == old(self).payload() + encoded_scalar(
                channel,
                CayenneLPPValue::Switch(value),
            ),
            r is Err ==> final(self).payload() == old(self).payload(),
            r is Ok ==> final(self).bytes() == final(self).payload() + old(self).bytes().skip(
                (old(self).payload().len() + LPP_SWITCH_SIZE) as int,
            ),
            r is Err ==> final(self).bytes() == old(self).bytes(),
    {
        proof {
            use_type_invariant(&*self);
        }
        if self.buffer.len() - self.index < LPP_SWITCH_SIZE {
            return Err(Error::InsufficientMemory);
        }
        self.push_byte(channel);
        self.push_byte(LPP_SWITCH);
        self.push_byte(if value { 1 } else { 0 });
        proof {
            assert(self.payload() =~= old(self).payload() + encoded_scalar(
                channel,
                CayenneLPPValue::Switch(value),
            ));
            assert(self.bytes() =~= self.payload() + old(self).bytes().skip(
                (old(self).payload().len() + LPP_SWITCH_SIZE) as int,
            ));
        }
        Ok(())
    }

    /// Adds the payload for a concentration to the Cayenne LPP data
    /// structure, in ppm.
    pub fn add_concentration(&mut self, channel: u8, concentration: u16) -> (r: Result<
        (),
        Error,
    >)
        ensures
            final(self).capacity() == old(self).capacity(),
            r == (if old(self).payload().len() + LPP_CONCENTRATION_SIZE > old(self).capacity() {
                Err::<(), Error>(Error::InsufficientMemory)
            } else {
                Ok::<(), Error>(())
            }),
            r is Ok ==> final(self).payload() == old(self).payload() + encoded_scalar(
                channel,
                CayenneLPPValue::Concentration(concentration),
            ),
            r is Err ==> final(self).payload() == old(self).payload(),
            r is Ok ==> final(self).bytes() == final(self).payload() + old(self).bytes().skip(
                (old(self).payload().len() + LPP_CONCENTRATION_SIZE) as int,
            ),
            r is Err ==> final(self).bytes() == old(self).bytes(),
    {
        proof {
            use_type_invariant(&*self);
        }
        if self.buffer.len() - self.index < LPP_CONCENTRATION_SIZE {
            return Err(Error::InsufficientMemory);
        }
        self.push_byte(channel);
        self.push_byte(LPP_CONCENTRATION);
        self.push_u16_be(concentration);
        proof {
            assert(self.payload() =~= old(self).payload() + encoded_scalar(
                channel,
                CayenneLPPValue::Concentration(concentration),
            ));
            assert(self.bytes() =~= self.payload() + old(self).bytes().skip(
                (old(self).payload().len() + LPP_CONCENTRATION_SIZE) as int,
            ));
        }
        Ok(())
    }

    /// Adds the payload for a color to the Cayenne LPP data structure.
    /// It's a byte per color channel, in R, G, B order.
    pub fn add_color(&mut self, channel: u8, red: u8, green: u8, blue: u8) -> (r: Result<
        (),
        Error,
    >)
        ensures
            final(self).capacity() == old(self).capacity(),
            r == (if old(self).payload().len() + LPP_COLOR_SIZE > old(self).capacity() {
                Err::<(), Error>(Error::InsufficientMemory)
            } else {
                Ok::<(), Error>(())
            }),
            r is Ok ==> final(self).payload() == old(self).payload() + encoded_scalar(
                channel,
                CayenneLPPValue::Color(red, green, blue),
            ),
            r is Err ==> final(self).payload() == old(self).payload(),
            r is Ok ==> final(self).bytes() == final(self).payload() + old(self).bytes().skip(
                (old(self).payload().len() + LPP_COLOR_SIZE) as int,
            ),
            r is Err ==> final(self).bytes() == old(self).bytes(),
    {
        proof {
            use_type_invariant(&*self);
        }
        if self.buffer.len() - self.index < LPP_COLOR_SIZE {
            return Err(Error::InsufficientMemory);
        }
        self.push_byte(channel);
        self.push_byte(LPP_COLOR);
        self.push_byte(red);
        self.push_byte(green);
        self.push_byte(blue);
        proof {
            assert(self.payload() =~= old(self).payload() + encoded_scalar(
                channel,
                CayenneLPPValue::Color(red, green, blue),
            ));
            assert(self.bytes() =~= self.payload() + old(self).bytes().skip(
                (old(self).payload().len() + LPP_COLOR_SIZE) as int,
            ));
        }
        Ok(())
    }

    /// Adds a scalar value to the data structure, dispatching on its
    /// variant. Purely a convenience wrapper around the `add_` methods;
    /// a `Voltage` or `Current` scalar already fits the wire range, so only
    /// `InsufficientMemory` can be reported here.
    pub fn add_scalar(&mut self, scalar: &CayenneLPPScalar) -> (r: Result<(), Error>)
        ensures
            final(self).capacity() == old(self).capacity(),
            r == (if old(self).payload().len() + wire_size_of(scalar.value) > old(
                self,
            ).capacity() {
                Err::<(), Error>(Error::InsufficientMemory)
            } else {
                Ok::<(), Error>(())
            }),
            r is Ok ==> final(self).payload() == old(self).payload() + encoded_scalar(
                scalar.channel,
                scalar.value,
            ),
            r is Err ==> final(self).payload() == old(self).payload(),
            r is Ok ==> final(self).bytes() == final(self).payload() + old(self).bytes().skip(
                (old(self).payload().len() + wire_size_of(scalar.value)) as int,
            ),
            r is Err ==> final(self).bytes() == old(self).bytes(),
    {
        let channel = scalar.channel;
        match scalar.value {
            CayenneLPPValue::DigitalInput(s) => self.add_digital_input(channel, s),
            CayenneLPPValue::DigitalOutput(s) => self.add_digital_output(channel, s),
            CayenneLPPValue::AnalogInput(s) => self.add_analog_input(channel, s),
            CayenneLPPValue::AnalogOutput(s) => self.add_analog_output(channel, s),
            CayenneLPPValue::GenericSensor(s) => self.add_generic_sensor(channel, s),
            CayenneLPPValue::Luminosity(s) => self.add_luminosity(channel, s),
            CayenneLPPValue::Presence(s) => self.add_presence(channel, s),
            CayenneLPPValue::Temperature(s) => self.add_temperature(channel, s),
            CayenneLPPValue::RelativeHumidity(s) => self.add_relative_humidity(channel, s),
            CayenneLPPValue::Accelerometer(x, y, z) => self.add_accelerometer(channel, x, y, z),
            CayenneLPPValue::BarometricPressure(s) => self.add_barometric_pressure(channel, s),
            CayenneLPPValue::Voltage(s) => self.add_voltage(channel, s as u32),
            CayenneLPPValue::Current(s) => self.add_current(channel, s as u32),
            CayenneLPPValue::Frequency(s) => self.add_frequency(channel, s),
            CayenneLPPValue::Percentage(s) => self.add_percentage(channel, s),
            CayenneLPPValue::Altitude(s) => self.add_altitude(channel, s),
            CayenneLPPValue::Concentration(s) => self.add_concentration(channel, s),
            CayenneLPPValue::Power(s) => self.add_power(channel, s),
            CayenneLPPValue::Distance(s) => self.add_distance(channel, s),
            CayenneLPPValue::Energy(s) => self.add_energy(channel, s),
            CayenneLPPValue::Direction(s) => self.add_direction(channel, s),
            CayenneLPPValue::UnixTime(s) => self.add_unixtime(channel, s),
            CayenneLPPValue::Gyrometer(x, y, z) => self.add_gyrometer(channel, x, y, z),
            CayenneLPPValue::Color(r, g, b) => self.add_color(channel, r, g, b),
            CayenneLPPValue::GPS(lat, lon, alt) => self.add_gps(channel, lat, lon, alt),
            CayenneLPPValue::Switch(s) => self.add_switch(channel, s),
        }
    }

    /// Adds the payload for a GPS position to the Cayenne LPP data
    /// structure. Latitude and longitude are counts of 0.0001 degree steps,
    /// the altitude is a count of 0.01 m steps. Each field keeps only its
    /// low 24 bits on the wire.
    pub fn add_gps(&mut self, channel: u8, latitude: i32, longitude: i32, meters: i32) -> (r:
        Result<(), Error>)
        ensures
            final(self).capacity() == old(self).capacity(),
            r == (if old(self).payload().len() + LPP_GPS_SIZE > old(self).capacity() {
                Err::<(), Error>(Error::InsufficientMemory)
            } else {
                Ok::<(), Error>(())
            }),
            r is Ok ==> final(self).payload() == old(self).payload() + encoded_scalar(
                channel,
                CayenneLPPValue::GPS(latitude, longitude, meters),
            ),
            r is Err ==> final(self).payload() == old(self).payload(),
            r is Ok ==> final(self).bytes() == final(self).payload() + old(self).bytes().skip(
                (old(self).payload().len() + LPP_GPS_SIZE) as int,
            ),
            r is Err ==> final(self).bytes() == old(self).bytes(),
    {
        proof {
            use_type_invariant(&*self);
        }
        if self.buffer.len() - self.index < LPP_GPS_SIZE {
            return Err(Error::InsufficientMemory);
        }
        self.push_byte(channel);
        self.push_byte(LPP_GPS);
        self.push_i24_be(latitude);
        self.push_i24_be(longitude);
        self.push_i24_be(meters);
        proof {
            assert(self.payload() =~= old(self).payload() + encoded_scalar(
                channel,
                CayenneLPPValue::GPS(latitude, longitude, meters),
            ));
            assert(self.bytes() =~= self.payload() + old(self).bytes().skip(
                (old(self).payload().len() + LPP_GPS_SIZE) as int,
            ));
        }
        Ok(())
    }
}

} // verus!
