use vstd::prelude::*;

use crate::cayenne_lpp_scalar::{CayenneLPPScalar, CayenneLPPValue};
use crate::constants::{
    LPP_ACCELEROMETER, LPP_ACCELEROMETER_SIZE, LPP_ALTITUDE, LPP_ALTITUDE_SIZE, LPP_ANALOG_INPUT,
    LPP_ANALOG_INPUT_SIZE, LPP_ANALOG_OUTPUT, LPP_ANALOG_OUTPUT_SIZE, LPP_BAROMETRIC_PRESSURE,
    LPP_BAROMETRIC_PRESSURE_SIZE, LPP_COLOR, LPP_COLOR_SIZE, LPP_CONCENTRATION,
    LPP_CONCENTRATION_SIZE, LPP_CURRENT, LPP_CURRENT_SIZE, LPP_DIGITAL_INPUT,
    LPP_DIGITAL_INPUT_SIZE, LPP_DIGITAL_OUTPUT, LPP_DIGITAL_OUTPUT_SIZE, LPP_DIRECTION,
    LPP_DIRECTION_SIZE, LPP_DISTANCE, LPP_DISTANCE_SIZE, LPP_ENERGY, LPP_ENERGY_SIZE,
    LPP_FREQUENCY, LPP_FREQUENCY_SIZE, LPP_GENERIC_SENSOR, LPP_GENERIC_SENSOR_SIZE, LPP_GPS,
    LPP_GPS_SIZE, LPP_GYROMETER, LPP_GYROMETER_SIZE, LPP_LUMINOSITY, LPP_LUMINOSITY_SIZE,
    LPP_PERCENTAGE, LPP_PERCENTAGE_SIZE, LPP_POWER, LPP_POWER_SIZE, LPP_PRESENCE,
    LPP_PRESENCE_SIZE, LPP_RELATIVE_HUMIDITY, LPP_RELATIVE_HUMIDITY_SIZE, LPP_SWITCH,
    LPP_SWITCH_SIZE, LPP_TEMPERATURE, LPP_TEMPERATURE_SIZE, LPP_UNIXTIME, LPP_UNIXTIME_SIZE,
    LPP_VOLTAGE, LPP_VOLTAGE_SIZE,
};
use crate::error::Error;

verus! {

// ----------------------------------------------------------------------------
// Big-endian reassembly of unsigned integers from wire bytes.
// ----------------------------------------------------------------------------

/// The unsigned integer carried by two big-endian bytes.
pub open spec fn be16(b0: u8, b1: u8) -> int {
    b0 * 0x100 + b1
}

/// The unsigned integer carried by three big-endian bytes.
pub open spec fn be24(b0: u8, b1: u8, b2: u8) -> int {
    b0 * 0x10000 + b1 * 0x100 + b2
}

/// The unsigned integer carried by four big-endian bytes.
pub open spec fn be32(b0: u8, b1: u8, b2: u8, b3: u8) -> int {
    b0 * 0x1000000 + b1 * 0x10000 + b2 * 0x100 + b3
}

// ----------------------------------------------------------------------------
// Splitting an unsigned integer into big-endian wire bytes.
// ----------------------------------------------------------------------------

/// The two big-endian bytes of an unsigned 16-bit integer.
pub open spec fn be16_bytes(w: int) -> Seq<u8>
    recommends
        0 <= w < 0x10000,
{
    seq![(w / 0x100) as u8, (w % 0x100) as u8]
}

/// The three big-endian bytes of an unsigned 24-bit integer.
pub open spec fn be24_bytes(w: int) -> Seq<u8>
    recommends
        0 <= w < 0x1000000,
{
    seq![(w / 0x10000) as u8, ((w / 0x100) % 0x100) as u8, (w % 0x100) as u8]
}

/// The four big-endian bytes of an unsigned 32-bit integer.
pub open spec fn be32_bytes(w: int) -> Seq<u8>
    recommends
        0 <= w < 0x100000000,
{
    seq![
        (w / 0x1000000) as u8,
        ((w / 0x10000) % 0x100) as u8,
        ((w / 0x100) % 0x100) as u8,
        (w % 0x100) as u8,
    ]
}

// ----------------------------------------------------------------------------
// Two's-complement view of signed fields.
// ----------------------------------------------------------------------------

/// The unsigned 16-bit wire representation of a signed 16-bit value.
pub open spec fn wire16(v: int) -> int
    recommends
        -0x8000 <= v < 0x8000,
{
    if v < 0 {
        v + 0x10000
    } else {
        v
    }
}

/// The unsigned 24-bit wire representation of a signed 32-bit value.
/// Values outside the 24-bit signed range wrap, as the encoder keeps
/// only the low three bytes.
pub open spec fn wire24(v: int) -> int {
    // In spec code, `%` is the Euclidean remainder, so the result is
    // in [0, 0x1000000) for any argument.
    v % 0x1000000
}

/// The signed value carried by an unsigned 16-bit wire representation.
pub open spec fn signed16(w: int) -> int
    recommends
        0 <= w < 0x10000,
{
    if w < 0x8000 {
        w
    } else {
        w - 0x10000
    }
}

/// The signed value carried by an unsigned 24-bit wire representation.
pub open spec fn signed24(w: int) -> int
    recommends
        0 <= w < 0x1000000,
{
    if w < 0x800000 {
        w
    } else {
        w - 0x1000000
    }
}

// ----------------------------------------------------------------------------
// The type table: code, total wire size and body layout per variant.
// ----------------------------------------------------------------------------

/// The one-byte type code of a value, as it appears on the wire.
pub open spec fn type_code_of(value: CayenneLPPValue) -> u8 {
    match value {
        CayenneLPPValue::DigitalInput(_) => LPP_DIGITAL_INPUT,
        CayenneLPPValue::DigitalOutput(_) => LPP_DIGITAL_OUTPUT,
        CayenneLPPValue::AnalogInput(_) => LPP_ANALOG_INPUT,
        CayenneLPPValue::AnalogOutput(_) => LPP_ANALOG_OUTPUT,
        CayenneLPPValue::GenericSensor(_) => LPP_GENERIC_SENSOR,
        CayenneLPPValue::Luminosity(_) => LPP_LUMINOSITY,
        CayenneLPPValue::Presence(_) => LPP_PRESENCE,
        CayenneLPPValue::Temperature(_) => LPP_TEMPERATURE,
        CayenneLPPValue::RelativeHumidity(_) => LPP_RELATIVE_HUMIDITY,
        CayenneLPPValue::Accelerometer(_, _, _) => LPP_ACCELEROMETER,
        CayenneLPPValue::BarometricPressure(_) => LPP_BAROMETRIC_PRESSURE,
        CayenneLPPValue::Voltage(_) => LPP_VOLTAGE,
        CayenneLPPValue::Current(_) => LPP_CURRENT,
        CayenneLPPValue::Frequency(_) => LPP_FREQUENCY,
        CayenneLPPValue::Percentage(_) => LPP_PERCENTAGE,
        CayenneLPPValue::Altitude(_) => LPP_ALTITUDE,
        CayenneLPPValue::Concentration(_) => LPP_CONCENTRATION,
        CayenneLPPValue::Power(_) => LPP_POWER,
        CayenneLPPValue::Distance(_) => LPP_DISTANCE,
        CayenneLPPValue::Energy(_) => LPP_ENERGY,
        CayenneLPPValue::Direction(_) => LPP_DIRECTION,
        CayenneLPPValue::UnixTime(_) => LPP_UNIXTIME,
        CayenneLPPValue::Gyrometer(_, _, _) => LPP_GYROMETER,
        CayenneLPPValue::Color(_, _, _) => LPP_COLOR,
        CayenneLPPValue::GPS(_, _, _) => LPP_GPS,
        CayenneLPPValue::Switch(_) => LPP_SWITCH,
    }
}

/// Whether a one-byte type code appears in the type table.
pub open spec fn known_code(code: u8) -> bool {
    ||| code == LPP_DIGITAL_INPUT
    ||| code == LPP_DIGITAL_OUTPUT
    ||| code == LPP_ANALOG_INPUT
    ||| code == LPP_ANALOG_OUTPUT
    ||| code == LPP_GENERIC_SENSOR
    ||| code == LPP_LUMINOSITY
    ||| code == LPP_PRESENCE
    ||| code == LPP_TEMPERATURE
    ||| code == LPP_RELATIVE_HUMIDITY
    ||| code == LPP_ACCELEROMETER
    ||| code == LPP_BAROMETRIC_PRESSURE
    ||| code == LPP_VOLTAGE
    ||| code == LPP_CURRENT
    ||| code == LPP_FREQUENCY
    ||| code == LPP_PERCENTAGE
    ||| code == LPP_ALTITUDE
    ||| code == LPP_CONCENTRATION
    ||| code == LPP_POWER
    ||| code == LPP_DISTANCE
    ||| code == LPP_ENERGY
    ||| code == LPP_DIRECTION
    ||| code == LPP_UNIXTIME
    ||| code == LPP_GYROMETER
    ||| code == LPP_COLOR
    ||| code == LPP_GPS
    ||| code == LPP_SWITCH
}

/// The total wire size of a scalar with the given type code, including the
/// two header bytes. Meaningful only for codes in the type table.
pub open spec fn size_of_code(code: u8) -> int
    recommends
        known_code(code),
{
    if code == LPP_DIGITAL_INPUT {
        LPP_DIGITAL_INPUT_SIZE as int
    } else if code == LPP_DIGITAL_OUTPUT {
        LPP_DIGITAL_OUTPUT_SIZE as int
    } else if code == LPP_ANALOG_INPUT {
        LPP_ANALOG_INPUT_SIZE as int
    } else if code == LPP_ANALOG_OUTPUT {
        LPP_ANALOG_OUTPUT_SIZE as int
    } else if code == LPP_GENERIC_SENSOR {
        LPP_GENERIC_SENSOR_SIZE as int
    } else if code == LPP_LUMINOSITY {
        LPP_LUMINOSITY_SIZE as int
    } else if code == LPP_PRESENCE {
        LPP_PRESENCE_SIZE as int
    } else if code == LPP_TEMPERATURE {
        LPP_TEMPERATURE_SIZE as int
    } else if code == LPP_RELATIVE_HUMIDITY {
        LPP_RELATIVE_HUMIDITY_SIZE as int
    } else if code == LPP_ACCELEROMETER {
        LPP_ACCELEROMETER_SIZE as int
    } else if code == LPP_BAROMETRIC_PRESSURE {
        LPP_BAROMETRIC_PRESSURE_SIZE as int
    } else if code == LPP_VOLTAGE {
        LPP_VOLTAGE_SIZE as int
    } else if code == LPP_CURRENT {
        LPP_CURRENT_SIZE as int
    } else if code == LPP_FREQUENCY {
        LPP_FREQUENCY_SIZE as int
    } else if code == LPP_PERCENTAGE {
        LPP_PERCENTAGE_SIZE as int
    } else if code == LPP_ALTITUDE {
        LPP_ALTITUDE_SIZE as int
    } else if code == LPP_CONCENTRATION {
        LPP_CONCENTRATION_SIZE as int
    } else if code == LPP_POWER {
        LPP_POWER_SIZE as int
    } else if code == LPP_DISTANCE {
        LPP_DISTANCE_SIZE as int
    } else if code == LPP_ENERGY {
        LPP_ENERGY_SIZE as int
    } else if code == LPP_DIRECTION {
        LPP_DIRECTION_SIZE as int
    } else if code == LPP_UNIXTIME {
        LPP_UNIXTIME_SIZE as int
    } else if code == LPP_GYROMETER {
        LPP_GYROMETER_SIZE as int
    } else if code == LPP_COLOR {
        LPP_COLOR_SIZE as int
    } else if code == LPP_GPS {
        LPP_GPS_SIZE as int
    } else {
        LPP_SWITCH_SIZE as int
    }
}

/// The total wire size of a value, including the two header bytes.
pub open spec fn wire_size_of(value: CayenneLPPValue) -> int {
    size_of_code(type_code_of(value))
}

// ----------------------------------------------------------------------------
// Encoding: the body bytes and the full wire image of one scalar.
// ----------------------------------------------------------------------------

/// The body bytes of a value: everything after the two header bytes.
pub open spec fn encoded_body(value: CayenneLPPValue) -> Seq<u8> {
    match value {
        CayenneLPPValue::DigitalInput(v) => seq![v],
        CayenneLPPValue::DigitalOutput(v) => seq![v],
        CayenneLPPValue::AnalogInput(v) => be16_bytes(wire16(v as int)),
        CayenneLPPValue::AnalogOutput(v) => be16_bytes(wire16(v as int)),
        CayenneLPPValue::GenericSensor(v) => be32_bytes(v as int),
        CayenneLPPValue::Luminosity(v) => be16_bytes(v as int),
        CayenneLPPValue::Presence(v) => seq![v],
        CayenneLPPValue::Temperature(v) => be16_bytes(wire16(v as int)),
        CayenneLPPValue::RelativeHumidity(v) => seq![v],
        CayenneLPPValue::Accelerometer(x, y, z) => be16_bytes(wire16(x as int)) + be16_bytes(
            wire16(y as int),
        ) + be16_bytes(wire16(z as int)),
        CayenneLPPValue::BarometricPressure(v) => be16_bytes(v as int),
        CayenneLPPValue::Voltage(v) => be16_bytes(v as int),
        CayenneLPPValue::Current(v) => be16_bytes(v as int),
        CayenneLPPValue::Frequency(v) => be32_bytes(v as int),
        CayenneLPPValue::Percentage(v) => seq![v],
        CayenneLPPValue::Altitude(v) => be16_bytes(wire16(v as int)),
        CayenneLPPValue::Concentration(v) => be16_bytes(v as int),
        CayenneLPPValue::Power(v) => be16_bytes(v as int),
        CayenneLPPValue::Distance(v) => be32_bytes(v as int),
        CayenneLPPValue::Energy(v) => be32_bytes(v as int),
        CayenneLPPValue::Direction(v) => be16_bytes(v as int),
        CayenneLPPValue::UnixTime(v) => be32_bytes(v as int),
        CayenneLPPValue::Gyrometer(x, y, z) => be16_bytes(x as int) + be16_bytes(y as int)
            + be16_bytes(z as int),
        CayenneLPPValue::Color(r, g, b) => seq![r, g, b],
        CayenneLPPValue::GPS(lat, lon, alt) => be24_bytes(wire24(lat as int)) + be24_bytes(
            wire24(lon as int),
        ) + be24_bytes(wire24(alt as int)),
        CayenneLPPValue::Switch(v) => seq![if v { 1u8 } else { 0u8 }],
    }
}

/// The full wire image of one scalar: channel byte, type code byte, body.
pub open spec fn encoded_scalar(channel: u8, value: CayenneLPPValue) -> Seq<u8> {
    seq![channel, type_code_of(value)] + encoded_body(value)
}

// ----------------------------------------------------------------------------
// Decoding: one step of the strict iterator as a mathematical function.
// ----------------------------------------------------------------------------

/// The value carried by the body bytes of a scalar with the given type
/// code. Meaningful only for codes in the type table and a body of the
/// code's size.
pub open spec fn decoded_value(code: u8, body: Seq<u8>) -> CayenneLPPValue
    recommends
        known_code(code),
        body.len() == size_of_code(code) - 2,
{
    if code == LPP_DIGITAL_INPUT {
        CayenneLPPValue::DigitalInput(body[0])
    } else if code == LPP_DIGITAL_OUTPUT {
        CayenneLPPValue::DigitalOutput(body[0])
    } else if code == LPP_ANALOG_INPUT {
        CayenneLPPValue::AnalogInput(signed16(be16(body[0], body[1])) as i16)
    } else if code == LPP_ANALOG_OUTPUT {
        CayenneLPPValue::AnalogOutput(signed16(be16(body[0], body[1])) as i16)
    } else if code == LPP_GENERIC_SENSOR {
        CayenneLPPValue::GenericSensor(be32(body[0], body[1], body[2], body[3]) as u32)
    } else if code == LPP_LUMINOSITY {
        CayenneLPPValue::Luminosity(be16(body[0], body[1]) as u16)
    } else if code == LPP_PRESENCE {
        CayenneLPPValue::Presence(body[0])
    } else if code == LPP_TEMPERATURE {
        CayenneLPPValue::Temperature(signed16(be16(body[0], body[1])) as i16)
    } else if code == LPP_RELATIVE_HUMIDITY {
        CayenneLPPValue::RelativeHumidity(body[0])
    } else if code == LPP_ACCELEROMETER {
        CayenneLPPValue::Accelerometer(
            signed16(be16(body[0], body[1])) as i16,
            signed16(be16(body[2], body[3])) as i16,
            signed16(be16(body[4], body[5])) as i16,
        )
    } else if code == LPP_BAROMETRIC_PRESSURE {
        CayenneLPPValue::BarometricPressure(be16(body[0], body[1]) as u16)
    } else if code == LPP_VOLTAGE {
        CayenneLPPValue::Voltage(be16(body[0], body[1]) as u16)
    } else if code == LPP_CURRENT {
        CayenneLPPValue::Current(be16(body[0], body[1]) as u16)
    } else if code == LPP_FREQUENCY {
        CayenneLPPValue::Frequency(be32(body[0], body[1], body[2], body[3]) as u32)
    } else if code == LPP_PERCENTAGE {
        CayenneLPPValue::Percentage(body[0])
    } else if code == LPP_ALTITUDE {
        CayenneLPPValue::Altitude(signed16(be16(body[0], body[1])) as i16)
    } else if code == LPP_CONCENTRATION {
        CayenneLPPValue::Concentration(be16(body[0], body[1]) as u16)
    } else if code == LPP_POWER {
        CayenneLPPValue::Power(be16(body[0], body[1]) as u16)
    } else if code == LPP_DISTANCE {
        CayenneLPPValue::Distance(be32(body[0], body[1], body[2], body[3]) as u32)
    } else if code == LPP_ENERGY {
        CayenneLPPValue::Energy(be32(body[0], body[1], body[2], body[3]) as u32)
    } else if code == LPP_DIRECTION {
        CayenneLPPValue::Direction(be16(body[0], body[1]) as u16)
    } else if code == LPP_UNIXTIME {
        CayenneLPPValue::UnixTime(be32(body[0], body[1], body[2], body[3]) as u32)
    } else if code == LPP_GYROMETER {
        CayenneLPPValue::Gyrometer(
            be16(body[0], body[1]) as u16,
            be16(body[2], body[3]) as u16,
            be16(body[4], body[5]) as u16,
        )
    } else if code == LPP_COLOR {
        CayenneLPPValue::Color(body[0], body[1], body[2])
    } else if code == LPP_GPS {
        CayenneLPPValue::GPS(
            signed24(be24(body[0], body[1], body[2])) as i32,
            signed24(be24(body[3], body[4], body[5])) as i32,
            signed24(be24(body[6], body[7], body[8])) as i32,
        )
    } else {
        CayenneLPPValue::Switch(body[0] != 0)
    }
}

/// The per-field sanity bounds the strict iterator enforces: only a GPS
/// latitude outside [-90, 90] degrees or longitude outside [-180, 180]
/// degrees (in 0.0001 degree steps) is rejected.
pub open spec fn value_in_range(value: CayenneLPPValue) -> bool {
    match value {
        CayenneLPPValue::GPS(lat, lon, _) => -900000 <= lat && lat <= 900000 && -1800000 <= lon
            && lon <= 1800000,
        _ => true,
    }
}

/// The values whose wire image decodes back to exactly the same scalar.
/// Every variant qualifies except a GPS whose altitude leaves the 24-bit
/// signed range (it would wrap on the wire) or whose latitude or longitude
/// leaves the sanity bounds the decoder enforces; those bounds lie well
/// inside the 24-bit range.
pub open spec fn decodable_value(value: CayenneLPPValue) -> bool {
    match value {
        CayenneLPPValue::GPS(lat, lon, alt) => -900000 <= lat && lat <= 900000 && -1800000 <= lon
            && lon <= 1800000 && -0x800000 <= alt && alt < 0x800000,
        _ => true,
    }
}

/// What one step of the strict iterator yields when standing at offset `i`
/// of `buf`:
///
/// - `None` when fewer than the two header bytes remain - the clean end of
///   the sequence. A single dangling byte also ends the sequence silently.
/// - `Some(Err(UnhandledType(code)))` when the type code read is not in the
///   type table.
/// - `Some(Err(BufferUnderrun))` when fewer bytes remain than the type's
///   declared size requires.
/// - `Some(Err(OutOfRange))` when a GPS latitude or longitude is outside
///   its sanity bounds.
/// - `Some(Ok(scalar))` otherwise.
pub open spec fn step_result(buf: Seq<u8>, i: int) -> Option<Result<CayenneLPPScalar, Error>>
    recommends
        0 <= i <= buf.len(),
{
    if i + 2 > buf.len() {
        None
    } else {
        let channel = buf[i];
        let code = buf[i + 1];
        if !known_code(code) {
            Some(Err(Error::UnhandledType(code)))
        } else if i + size_of_code(code) > buf.len() {
            Some(Err(Error::BufferUnderrun))
        } else {
            let value = decoded_value(code, buf.subrange(i + 2, i + size_of_code(code)));
            if !value_in_range(value) {
                Some(Err(Error::OutOfRange))
            } else {
                Some(Ok(CayenneLPPScalar { channel, value }))
            }
        }
    }
}

/// Where the strict iterator stands after one step at offset `i` of `buf`:
/// unchanged at a clean end, past the consumed scalar after a success, and
/// at the end of the buffer after an error, since an emitted error is
/// terminal.
pub open spec fn step_next(buf: Seq<u8>, i: int) -> int
    recommends
        0 <= i <= buf.len(),
{
    match step_result(buf, i) {
        None => i,
        Some(Ok(s)) => i + wire_size_of(s.value),
        Some(Err(_)) => buf.len() as int,
    }
}

} // verus!
