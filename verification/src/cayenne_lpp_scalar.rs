use vstd::prelude::*;

verus! {

/// Enumeration of the Cayenne LPP values that are supported by this library.
///
/// Every numeric payload is carried in the exact fixed-point unit that goes on
/// the wire, so that a value round-trips through the codec without loss:
/// for example a temperature is a count of 0.1 degree C steps, and a GPS
/// latitude is a count of 0.0001 degree steps. Converting between these wire
/// units and a physical floating-point quantity is the caller's concern.
#[derive(Debug, PartialEq, Eq, Clone, Copy)]
pub enum CayenneLPPValue {
    /// Data type of a digital input.
    DigitalInput(u8),

    /// Data type of a digital output.
    DigitalOutput(u8),

    /// Data type of an analog input, in 0.01 units.
    AnalogInput(i16),

    /// Data type of an analog output, in 0.01 units.
    AnalogOutput(i16),

    /// Data type of a generic sensor, unitless.
    GenericSensor(u32),

    /// Data type of a luminosity value, in lux.
    Luminosity(u16),

    /// Data type of a presence sensor.
    Presence(u8),

    /// Data type of a temperature value, in 0.1 degree C steps.
    Temperature(i16),

    /// Data type of a relative humidity value, in 0.5 % steps.
    RelativeHumidity(u8),

    /// Data type of accelerometer values, in 0.001 G steps per axis.
    Accelerometer(i16, i16, i16),

    /// Data type of a barometric pressure value, in 0.1 hPa steps.
    BarometricPressure(u16),

    /// Data type of a voltage value, in 0.01 V steps.
    Voltage(u16),

    /// Data type of a current value, in 1 mA steps.
    Current(u16),

    /// Data type of a frequency value, in Hz.
    Frequency(u32),

    /// Data type of a percentage, 0-100 %.
    Percentage(u8),

    /// Data type of an altitude, in meters.
    Altitude(i16),

    /// Data type of a concentration, in ppm.
    Concentration(u16),

    /// Data type of a power value, in W.
    Power(u16),

    /// Data type of a distance value, in mm.
    Distance(u32),

    /// Data type of an energy value, in Wh.
    Energy(u32),

    /// Data type of a direction value, in degrees.
    Direction(u16),

    /// Data type of a time value, in seconds since the unix epoch.
    UnixTime(u32),

    /// Data type of gyrometer values, in 0.01 degree/s steps per axis.
    Gyrometer(u16, u16, u16),

    /// Data type of a color value, as R, G, B bytes.
    Color(u8, u8, u8),

    /// Data type of a GPS value: latitude and longitude in 0.0001 degree
    /// steps, altitude in 0.01 m steps. Each field travels as a 24-bit
    /// signed integer, so values outside that range wrap on the wire.
    GPS(i32, i32, i32),

    /// Data type of a switch value.
    Switch(bool),
}

/// Single value parsed from a Cayenne LPP data structure,
/// including the enumeration of its value and its channel.
#[derive(Debug, PartialEq, Eq, Clone, Copy)]
pub struct CayenneLPPScalar {
    /// The channel value parsed from a data structure.
    pub channel: u8,

    /// Value of the scalar parsed from a data structure.
    pub value: CayenneLPPValue,
}

} // verus!
