use vstd::prelude::*;

use crate::cayenne_lpp_scalar::{CayenneLPPScalar, CayenneLPPValue};
use crate::error::Error;
use crate::wire::{
    decodable_value, decoded_value, encoded_body, encoded_scalar, known_code, step_next,
    step_result, type_code_of, value_in_range, wire_size_of,
};

verus! {

/// The wire image of one scalar is as long as the type table declares, and
/// its body carries everything after the two header bytes.
pub proof fn lemma_encoded_scalar_len(channel: u8, value: CayenneLPPValue)
    ensures
        encoded_body(value).len() == wire_size_of(value) - 2,
        encoded_scalar(channel, value).len() == wire_size_of(value),
        3 <= wire_size_of(value) <= 11,
{
    match value {
        CayenneLPPValue::DigitalInput(_) => {},
        CayenneLPPValue::DigitalOutput(_) => {},
        CayenneLPPValue::AnalogInput(_) => {},
        CayenneLPPValue::AnalogOutput(_) => {},
        CayenneLPPValue::GenericSensor(_) => {},
        CayenneLPPValue::Luminosity(_) => {},
        CayenneLPPValue::Presence(_) => {},
        CayenneLPPValue::Temperature(_) => {},
        CayenneLPPValue::RelativeHumidity(_) => {},
        CayenneLPPValue::Accelerometer(_, _, _) => {},
        CayenneLPPValue::BarometricPressure(_) => {},
        CayenneLPPValue::Voltage(_) => {},
        CayenneLPPValue::Current(_) => {},
        CayenneLPPValue::Frequency(_) => {},
        CayenneLPPValue::Percentage(_) => {},
        CayenneLPPValue::Altitude(_) => {},
        CayenneLPPValue::Concentration(_) => {},
        CayenneLPPValue::Power(_) => {},
        CayenneLPPValue::Distance(_) => {},
        CayenneLPPValue::Energy(_) => {},
        CayenneLPPValue::Direction(_) => {},
        CayenneLPPValue::UnixTime(_) => {},
        CayenneLPPValue::Gyrometer(_, _, _) => {},
        CayenneLPPValue::Color(_, _, _) => {},
        CayenneLPPValue::GPS(_, _, _) => {},
        CayenneLPPValue::Switch(_) => {},
    }
}

/// Per-variant facts: decoding inverts encoding at the level of one
/// value's body bytes.
proof fn lemma_decoded_digital_input(v: u8)
    ensures
        decoded_value(
            type_code_of(CayenneLPPValue::DigitalInput(v)),
            encoded_body(CayenneLPPValue::DigitalInput(v)),
        ) == CayenneLPPValue::DigitalInput(v),
{
}

proof fn lemma_decoded_digital_output(v: u8)
    ensures
        decoded_value(
            type_code_of(CayenneLPPValue::DigitalOutput(v)),
            encoded_body(CayenneLPPValue::DigitalOutput(v)),
        ) == CayenneLPPValue::DigitalOutput(v),
{
}

proof fn lemma_decoded_analog_input(v: i16)
    ensures
        decoded_value(
            type_code_of(CayenneLPPValue::AnalogInput(v)),
            encoded_body(CayenneLPPValue::AnalogInput(v)),
        ) == CayenneLPPValue::AnalogInput(v),
{
}

proof fn lemma_decoded_analog_output(v: i16)
    ensures
        decoded_value(
            type_code_of(CayenneLPPValue::AnalogOutput(v)),
            encoded_body(CayenneLPPValue::AnalogOutput(v)),
        ) == CayenneLPPValue::AnalogOutput(v),
{
}

proof fn lemma_decoded_generic_sensor(v: u32)
    ensures
        decoded_value(
            type_code_of(CayenneLPPValue::GenericSensor(v)),
            encoded_body(CayenneLPPValue::GenericSensor(v)),
        ) == CayenneLPPValue::GenericSensor(v),
{
}

proof fn lemma_decoded_luminosity(v: u16)
    ensures
        decoded_value(
            type_code_of(CayenneLPPValue::Luminosity(v)),
            encoded_body(CayenneLPPValue::Luminosity(v)),
        ) == CayenneLPPValue::Luminosity(v),
{
}

proof fn lemma_decoded_presence(v: u8)
    ensures
        decoded_value(
            type_code_of(CayenneLPPValue::Presence(v)),
            encoded_body(CayenneLPPValue::Presence(v)),
        ) == CayenneLPPValue::Presence(v),
{
}

proof fn lemma_decoded_temperature(v: i16)
    ensures
        decoded_value(
            type_code_of(CayenneLPPValue::Temperature(v)),
            encoded_body(CayenneLPPValue::Temperature(v)),
        ) == CayenneLPPValue::Temperature(v),
{
}

proof fn lemma_decoded_relative_humidity(v: u8)
    ensures
        decoded_value(
            type_code_of(CayenneLPPValue::RelativeHumidity(v)),
            encoded_body(CayenneLPPValue::RelativeHumidity(v)),
        ) == CayenneLPPValue::RelativeHumidity(v),
{
}

proof fn lemma_decoded_accelerometer(x: i16, y: i16, z: i16)
    ensures
        decoded_value(
            type_code_of(CayenneLPPValue::Accelerometer(x, y, z)),
            encoded_body(CayenneLPPValue::Accelerometer(x, y, z)),
        ) == CayenneLPPValue::Accelerometer(x, y, z),
{
}

proof fn lemma_decoded_barometric_pressure(v: u16)
    ensures
        decoded_value(
            type_code_of(CayenneLPPValue::BarometricPressure(v)),
            encoded_body(CayenneLPPValue::BarometricPressure(v)),
        ) == CayenneLPPValue::BarometricPressure(v),
{
}

proof fn lemma_decoded_voltage(v: u16)
    ensures
        decoded_value(
            type_code_of(CayenneLPPValue::Voltage(v)),
            encoded_body(CayenneLPPValue::Voltage(v)),
        ) == CayenneLPPValue::Voltage(v),
{
}

proof fn lemma_decoded_current(v: u16)
    ensures
        decoded_value(
            type_code_of(CayenneLPPValue::Current(v)),
            encoded_body(CayenneLPPValue::Current(v)),
        ) == CayenneLPPValue::Current(v),
{
}

proof fn lemma_decoded_frequency(v: u32)
    ensures
        decoded_value(
            type_code_of(CayenneLPPValue::Frequency(v)),
            encoded_body(CayenneLPPValue::Frequency(v)),
        ) == CayenneLPPValue::Frequency(v),
{
}

proof fn lemma_decoded_percentage(v: u8)
    ensures
        decoded_value(
            type_code_of(CayenneLPPValue::Percentage(v)),
            encoded_body(CayenneLPPValue::Percentage(v)),
        ) == CayenneLPPValue::Percentage(v),
{
}

proof fn lemma_decoded_altitude(v: i16)
    ensures
        decoded_value(
            type_code_of(CayenneLPPValue::Altitude(v)),
            encoded_body(CayenneLPPValue::Altitude(v)),
        ) == CayenneLPPValue::Altitude(v),
{
}

proof fn lemma_decoded_concentration(v: u16)
    ensures
        decoded_value(
            type_code_of(CayenneLPPValue::Concentration(v)),
            encoded_body(CayenneLPPValue::Concentration(v)),
        ) == CayenneLPPValue::Concentration(v),
{
}

proof fn lemma_decoded_power(v: u16)
    ensures
        decoded_value(
            type_code_of(CayenneLPPValue::Power(v)),
            encoded_body(CayenneLPPValue::Power(v)),
        ) == CayenneLPPValue::Power(v),
{
}

proof fn lemma_decoded_distance(v: u32)
    ensures
        decoded_value(
            type_code_of(CayenneLPPValue::Distance(v)),
            encoded_body(CayenneLPPValue::Distance(v)),
        ) == CayenneLPPValue::Distance(v),
{
}

proof fn lemma_decoded_energy(v: u32)
    ensures
        decoded_value(
            type_code_of(CayenneLPPValue::Energy(v)),
            encoded_body(CayenneLPPValue::Energy(v)),
        ) == CayenneLPPValue::Energy(v),
{
}

proof fn lemma_decoded_direction(v: u16)
    ensures
        decoded_value(
            type_code_of(CayenneLPPValue::Direction(v)),
            encoded_body(CayenneLPPValue::Direction(v)),
        ) == CayenneLPPValue::Direction(v),
{
}

proof fn lemma_decoded_unixtime(v: u32)
    ensures
        decoded_value(
            type_code_of(CayenneLPPValue::UnixTime(v)),
            encoded_body(CayenneLPPValue::UnixTime(v)),
        ) == CayenneLPPValue::UnixTime(v),
{
}

proof fn lemma_decoded_gyrometer(x: u16, y: u16, z: u16)
    ensures
        decoded_value(
            type_code_of(CayenneLPPValue::Gyrometer(x, y, z)),
            encoded_body(CayenneLPPValue::Gyrometer(x, y, z)),
        ) == CayenneLPPValue::Gyrometer(x, y, z),
{
}

proof fn lemma_decoded_color(r: u8, g: u8, b: u8)
    ensures
        decoded_value(
            type_code_of(CayenneLPPValue::Color(r, g, b)),
            encoded_body(CayenneLPPValue::Color(r, g, b)),
        ) == CayenneLPPValue::Color(r, g, b),
{
}

proof fn lemma_decoded_gps(lat: i32, lon: i32, alt: i32)
    requires
        decodable_value(CayenneLPPValue::GPS(lat, lon, alt)),
    ensures
        decoded_value(
            type_code_of(CayenneLPPValue::GPS(lat, lon, alt)),
            encoded_body(CayenneLPPValue::GPS(lat, lon, alt)),
        ) == CayenneLPPValue::GPS(lat, lon, alt),
{
}

proof fn lemma_decoded_switch(v: bool)
    ensures
        decoded_value(
            type_code_of(CayenneLPPValue::Switch(v)),
            encoded_body(CayenneLPPValue::Switch(v)),
        ) == CayenneLPPValue::Switch(v),
{
}

/// Decoding inverts encoding at the level of one value: the body bytes the
/// encoder emits carry back exactly the value that went in, for every value
/// that fits its wire representation.
pub proof fn lemma_decoded_body(value: CayenneLPPValue)
    requires
        decodable_value(value),
    ensures
        decoded_value(type_code_of(value), encoded_body(value)) == value,
{
    match value {
        CayenneLPPValue::DigitalInput(v) => {
            lemma_decoded_digital_input(v);
        },
        CayenneLPPValue::DigitalOutput(v) => {
            lemma_decoded_digital_output(v);
        },
        CayenneLPPValue::AnalogInput(v) => {
            lemma_decoded_analog_input(v);
        },
        CayenneLPPValue::AnalogOutput(v) => {
            lemma_decoded_analog_output(v);
        },
        CayenneLPPValue::GenericSensor(v) => {
            lemma_decoded_generic_sensor(v);
        },
        CayenneLPPValue::Luminosity(v) => {
            lemma_decoded_luminosity(v);
        },
        CayenneLPPValue::Presence(v) => {
            lemma_decoded_presence(v);
        },
        CayenneLPPValue::Temperature(v) => {
            lemma_decoded_temperature(v);
        },
        CayenneLPPValue::RelativeHumidity(v) => {
            lemma_decoded_relative_humidity(v);
        },
        CayenneLPPValue::Accelerometer(x, y, z) => {
            lemma_decoded_accelerometer(x, y, z);
        },
        CayenneLPPValue::BarometricPressure(v) => {
            lemma_decoded_barometric_pressure(v);
        },
        CayenneLPPValue::Voltage(v) => {
            lemma_decoded_voltage(v);
        },
        CayenneLPPValue::Current(v) => {
            lemma_decoded_current(v);
        },
        CayenneLPPValue::Frequency(v) => {
            lemma_decoded_frequency(v);
        },
        CayenneLPPValue::Percentage(v) => {
            lemma_decoded_percentage(v);
        },
        CayenneLPPValue::Altitude(v) => {
            lemma_decoded_altitude(v);
        },
        CayenneLPPValue::Concentration(v) => {
            lemma_decoded_concentration(v);
        },
        CayenneLPPValue::Power(v) => {
            lemma_decoded_power(v);
        },
        CayenneLPPValue::Distance(v) => {
            lemma_decoded_distance(v);
        },
        CayenneLPPValue::Energy(v) => {
            lemma_decoded_energy(v);
        },
        CayenneLPPValue::Direction(v) => {
            lemma_decoded_direction(v);
        },
        CayenneLPPValue::UnixTime(v) => {
            lemma_decoded_unixtime(v);
        },
        CayenneLPPValue::Gyrometer(x, y, z) => {
            lemma_decoded_gyrometer(x, y, z);
        },
        CayenneLPPValue::Color(r, g, b) => {
            lemma_decoded_color(r, g, b);
        },
        CayenneLPPValue::GPS(lat, lon, alt) => {
            lemma_decoded_gps(lat, lon, alt);
        },
        CayenneLPPValue::Switch(v) => {
            lemma_decoded_switch(v);
        },
    }
}

/// One strict decoding step taken in the middle of a larger buffer: at the
/// offset where the wire image of a decodable scalar begins, the step
/// yields exactly that scalar and stops right behind it, whatever bytes
/// stand before and after.
pub proof fn lemma_step_in_context(
    pre: Seq<u8>,
    channel: u8,
    value: CayenneLPPValue,
    suf: Seq<u8>,
)
    requires
        decodable_value(value),
    ensures
        step_result(pre + encoded_scalar(channel, value) + suf, pre.len() as int) == Some(
            Ok::<CayenneLPPScalar, Error>(CayenneLPPScalar { channel, value }),
        ),
        step_next(pre + encoded_scalar(channel, value) + suf, pre.len() as int) == pre.len()
            + wire_size_of(value),
{
    let buf = pre + encoded_scalar(channel, value) + suf;
    let i = pre.len() as int;
    let code = type_code_of(value);
    let size = wire_size_of(value);
    lemma_encoded_scalar_len(channel, value);
    assert(buf[i] == channel);
    assert(buf[i + 1] == code);
    assert(known_code(code));
    assert(buf.subrange(i + 2, i + size) =~= encoded_body(value));
    lemma_decoded_body(value);
    assert(value_in_range(value));
}

/// Round-trip: the wire image of any decodable scalar, handed back to the
/// strict decoder, yields exactly that scalar and consumes exactly its wire
/// size. The fixed-point wire units make the round trip lossless.
pub proof fn lemma_round_trip(channel: u8, value: CayenneLPPValue)
    requires
        decodable_value(value),
    ensures
        step_result(encoded_scalar(channel, value), 0) == Some(
            Ok::<CayenneLPPScalar, Error>(CayenneLPPScalar { channel, value }),
        ),
        step_next(encoded_scalar(channel, value), 0) == wire_size_of(value),
{
    let enc = encoded_scalar(channel, value);
    lemma_step_in_context(Seq::empty(), channel, value, Seq::empty());
    assert(Seq::<u8>::empty() + enc + Seq::<u8>::empty() =~= enc);
}

/// The wire image of a whole sequence of scalars: their encodings, one
/// after the other, starting at offset 0.
pub open spec fn encoding_of(scalars: Seq<CayenneLPPScalar>) -> Seq<u8>
    decreases scalars.len(),
{
    if scalars.len() == 0 {
        Seq::empty()
    } else {
        encoded_scalar(scalars[0].channel, scalars[0].value) + encoding_of(scalars.skip(1))
    }
}

/// The offset at which the wire image of the `k`-th scalar begins.
pub open spec fn offset_of(scalars: Seq<CayenneLPPScalar>, k: int) -> int {
    encoding_of(scalars.take(k)).len() as int
}

/// The wire image of a sequence of scalars splits at any point: the first
/// `k` scalars are encoded first, the remaining ones follow.
proof fn lemma_encoding_split(scalars: Seq<CayenneLPPScalar>, k: int)
    requires
        0 <= k <= scalars.len(),
    ensures
        encoding_of(scalars) == encoding_of(scalars.take(k)) + encoding_of(scalars.skip(k)),
    decreases k,
{
    if k == 0 {
        assert(scalars.take(0) =~= Seq::<CayenneLPPScalar>::empty());
        assert(scalars.skip(0) =~= scalars);
        assert(encoding_of(scalars.take(0)) + encoding_of(scalars) =~= encoding_of(scalars));
    } else {
        let rest = scalars.skip(1);
        lemma_encoding_split(rest, k - 1);
        assert(rest.take(k - 1) =~= scalars.take(k).skip(1));
        assert(rest.skip(k - 1) =~= scalars.skip(k));
        assert(scalars.take(k)[0] == scalars[0]);
        assert(encoding_of(scalars.take(k)) == encoded_scalar(
            scalars[0].channel,
            scalars[0].value,
        ) + encoding_of(scalars.take(k).skip(1)));
        assert(encoding_of(scalars) =~= encoding_of(scalars.take(k)) + encoding_of(
            scalars.skip(k),
        ));
    }
}

/// Exhaustion: over the wire image of any sequence of decodable scalars,
/// the strict iterator yields exactly those scalars, in order, and then
/// ends cleanly - no fewer, no more. The statement characterizes every
/// step: standing at the offset of the `k`-th scalar, the iterator
/// produces that scalar and moves to the offset of the next one; standing
/// behind the last scalar, it produces `None`. Since the best-effort
/// iterator keeps exactly the `Ok` items, it yields the same scalars.
pub proof fn lemma_exhaustion(scalars: Seq<CayenneLPPScalar>, k: int)
    requires
        forall|j: int| 0 <= j < scalars.len() ==> decodable_value(#[trigger] scalars[j].value),
        0 <= k <= scalars.len(),
    ensures
        k < scalars.len() ==> step_result(encoding_of(scalars), offset_of(scalars, k)) == Some(
            Ok::<CayenneLPPScalar, Error>(scalars[k]),
        ) && step_next(encoding_of(scalars), offset_of(scalars, k)) == offset_of(scalars, k + 1),
        k == scalars.len() ==> offset_of(scalars, k) == encoding_of(scalars).len() && step_result(
            encoding_of(scalars),
            offset_of(scalars, k),
        ) is None,
{
    let buf = encoding_of(scalars);
    if k == scalars.len() {
        assert(scalars.take(k) =~= scalars);
        lemma_step_at_end(buf);
    } else {
        let pre = encoding_of(scalars.take(k));
        let s = scalars[k];
        lemma_encoding_split(scalars, k);
        let tail = scalars.skip(k);
        assert(tail[0] == s);
        assert(tail.skip(1) =~= scalars.skip(k + 1));
        assert(encoding_of(tail) == encoded_scalar(s.channel, s.value) + encoding_of(
            scalars.skip(k + 1),
        ));
        let suf = encoding_of(scalars.skip(k + 1));
        assert(buf =~= pre + encoded_scalar(s.channel, s.value) + suf);
        lemma_step_in_context(pre, s.channel, s.value, suf);
        // The next offset: the first k + 1 encodings are the first k
        // followed by the image of the k-th scalar.
        lemma_encoding_split(scalars.take(k + 1), k);
        assert(scalars.take(k + 1).take(k) =~= scalars.take(k));
        let one = scalars.take(k + 1).skip(k);
        assert(one.len() == 1);
        assert(one[0] == s);
        assert(one.skip(1) =~= Seq::<CayenneLPPScalar>::empty());
        assert(encoding_of(Seq::<CayenneLPPScalar>::empty()) == Seq::<u8>::empty());
        assert(encoding_of(one) == encoded_scalar(s.channel, s.value) + encoding_of(one.skip(1)));
        assert(encoded_scalar(s.channel, s.value) + Seq::<u8>::empty() =~= encoded_scalar(
            s.channel,
            s.value,
        ));
        lemma_encoded_scalar_len(s.channel, s.value);
    }
}

/// Standing at or past the end of any buffer, a strict decoding step
/// yields nothing.
proof fn lemma_step_at_end(buf: Seq<u8>)
    ensures
        step_result(buf, buf.len() as int) is None,
{
}

} // verus!
