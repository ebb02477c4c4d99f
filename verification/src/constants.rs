use vstd::prelude::*;

verus! {

/// Data type code of a digital input (1 payload byte).
pub const LPP_DIGITAL_INPUT: u8 = 0;

/// Data type code of a digital output (1 payload byte).
pub const LPP_DIGITAL_OUTPUT: u8 = 1;

/// Data type code of an analog input (2 payload bytes, signed, 0.01 units).
pub const LPP_ANALOG_INPUT: u8 = 2;

/// Data type code of an analog output (2 payload bytes, signed, 0.01 units).
pub const LPP_ANALOG_OUTPUT: u8 = 3;

/// Data type code of a generic sensor (4 payload bytes, unsigned).
pub const LPP_GENERIC_SENSOR: u8 = 100;

/// Data type code of a luminosity value (2 payload bytes, 1 lux, unsigned).
pub const LPP_LUMINOSITY: u8 = 101;

/// Data type code of a presence sensor (1 payload byte).
pub const LPP_PRESENCE: u8 = 102;

/// Data type code of a temperature value (2 payload bytes, signed, 0.1 degree C).
pub const LPP_TEMPERATURE: u8 = 103;

/// Data type code of a relative humidity value (1 payload byte, 0.5 %, unsigned).
pub const LPP_RELATIVE_HUMIDITY: u8 = 104;

/// Data type code of accelerometer values (2 payload bytes per axis, signed, 0.001 G).
pub const LPP_ACCELEROMETER: u8 = 113;

/// Data type code of a barometric pressure value (2 payload bytes, 0.1 hPa, unsigned).
pub const LPP_BAROMETRIC_PRESSURE: u8 = 115;

/// Data type code of a voltage value (2 payload bytes, 0.01 V, unsigned).
pub const LPP_VOLTAGE: u8 = 116;

/// Data type code of a current value (2 payload bytes, 1 mA, unsigned).
pub const LPP_CURRENT: u8 = 117;

/// Data type code of a frequency value (4 payload bytes, 1 Hz, unsigned).
pub const LPP_FREQUENCY: u8 = 118;

/// Data type code of a percentage (1 payload byte, 1 %, unsigned).
pub const LPP_PERCENTAGE: u8 = 120;

/// Data type code of an altitude (2 payload bytes, 1 m, signed).
pub const LPP_ALTITUDE: u8 = 121;

/// Data type code of a concentration (2 payload bytes, 1 ppm, unsigned).
pub const LPP_CONCENTRATION: u8 = 125;

/// Data type code of a power value (2 payload bytes, 1 W, unsigned).
pub const LPP_POWER: u8 = 128;

/// Data type code of a distance value (4 payload bytes, 1 mm, unsigned).
pub const LPP_DISTANCE: u8 = 130;

/// Data type code of an energy value (4 payload bytes, 1 Wh, unsigned).
pub const LPP_ENERGY: u8 = 131;

/// Data type code of a direction value (2 payload bytes, 1 degree, unsigned).
pub const LPP_DIRECTION: u8 = 132;

/// Data type code of a time value (4 payload bytes, unix timestamp, unsigned).
pub const LPP_UNIXTIME: u8 = 133;

/// Data type code of gyrometer values (2 payload bytes per axis, 0.01 degree/s).
pub const LPP_GYROMETER: u8 = 134;

/// Data type code of a color value (1 payload byte per RGB channel).
pub const LPP_COLOR: u8 = 135;

/// Data type code of a GPS value (3 payload bytes per field; 0.0001 degree
/// for latitude and longitude, 0.01 m for altitude).
pub const LPP_GPS: u8 = 136;

/// Data type code of a switch value (1 payload byte, 0 or 1).
pub const LPP_SWITCH: u8 = 142;

// Total wire sizes: channel byte + type code byte + payload bytes.

/// Size of a digital input packet including channel and data type.
pub const LPP_DIGITAL_INPUT_SIZE: usize = 3;

/// Size of a digital output packet including channel and data type.
pub const LPP_DIGITAL_OUTPUT_SIZE: usize = 3;

/// Size of an analog input packet including channel and data type.
pub const LPP_ANALOG_INPUT_SIZE: usize = 4;

/// Size of an analog output packet including channel and data type.
pub const LPP_ANALOG_OUTPUT_SIZE: usize = 4;

/// Size of a generic sensor packet including channel and data type.
pub const LPP_GENERIC_SENSOR_SIZE: usize = 6;

/// Size of a luminosity packet including channel and data type.
pub const LPP_LUMINOSITY_SIZE: usize = 4;

/// Size of a presence sensor packet including channel and data type.
pub const LPP_PRESENCE_SIZE: usize = 3;

/// Size of a temperature packet including channel and data type.
pub const LPP_TEMPERATURE_SIZE: usize = 4;

/// Size of a relative humidity packet including channel and data type.
pub const LPP_RELATIVE_HUMIDITY_SIZE: usize = 3;

/// Size of an accelerometer packet including channel and data type.
pub const LPP_ACCELEROMETER_SIZE: usize = 8;

/// Size of a barometric pressure packet including channel and data type.
pub const LPP_BAROMETRIC_PRESSURE_SIZE: usize = 4;

/// Size of a voltage packet including channel and data type.
pub const LPP_VOLTAGE_SIZE: usize = 4;

/// Size of a current packet including channel and data type.
pub const LPP_CURRENT_SIZE: usize = 4;

/// Size of a frequency packet including channel and data type.
pub const LPP_FREQUENCY_SIZE: usize = 6;

/// Size of a percentage packet including channel and data type.
pub const LPP_PERCENTAGE_SIZE: usize = 3;

/// Size of an altitude packet including channel and data type.
pub const LPP_ALTITUDE_SIZE: usize = 4;

/// Size of a concentration packet including channel and data type.
pub const LPP_CONCENTRATION_SIZE: usize = 4;

/// Size of a power packet including channel and data type.
pub const LPP_POWER_SIZE: usize = 4;

/// Size of a distance packet including channel and data type.
pub const LPP_DISTANCE_SIZE: usize = 6;

/// Size of an energy packet including channel and data type.
pub const LPP_ENERGY_SIZE: usize = 6;

/// Size of a direction packet including channel and data type.
pub const LPP_DIRECTION_SIZE: usize = 4;

/// Size of a unix time packet including channel and data type.
pub const LPP_UNIXTIME_SIZE: usize = 6;

/// Size of a gyrometer packet including channel and data type.
pub const LPP_GYROMETER_SIZE: usize = 8;

/// Size of a color packet including channel and data type.
pub const LPP_COLOR_SIZE: usize = 5;

/// Size of a GPS packet including channel and data type.
pub const LPP_GPS_SIZE: usize = 11;

/// Size of a switch packet including channel and data type.
pub const LPP_SWITCH_SIZE: usize = 3;

} // verus!
