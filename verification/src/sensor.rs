//! Generic sensor types that mirror Zephyr's sensor subsystem structures.

use vstd::prelude::*;

use crate::math::trunc_div;

verus! {

/// Sensor value: an integer part and a fractional part in micro-units
/// (mirrors Zephyr's `struct sensor_value`).
#[derive(Debug, Clone, Copy, Default)]
pub struct SensorValue {
    /// Integer part of the value.
    pub val1: i32,
    /// Fractional part of the value (typically in micro-units).
    pub val2: i32,
}

impl SensorValue {
    /// Creates a value from its integer and fractional parts.
    pub fn new(val1: i32, val2: i32) -> (r: Self)
        ensures
            r.val1 == val1,
            r.val2 == val2,
    {
        Self { val1, val2 }
    }

    /// Creates a value from a temperature in millicelsius: the integer part is
    /// whole degrees, the fractional part the remaining millidegrees in
    /// micro-degrees, both carrying the sign of `mc`.
    pub fn from_millicelsius(mc: i32) -> (r: Self)
        ensures
            r.val1 == trunc_div(mc as int, 1000),
            r.val2 == (mc - trunc_div(mc as int, 1000) * 1000) * 1000,
            r.val1 * 1_000_000 + r.val2 == mc * 1000,
            -1_000_000 < r.val2 < 1_000_000,
            r.val2 > 0 ==> mc > 0,
            r.val2 < 0 ==> mc < 0,
    {
        Self { val1: mc / 1000, val2: (mc % 1000) * 1000 }
    }
}


/// Sensor channel types (matches Zephyr's `sensor_channel` enum). Each
/// variant stands for the Zephyr channel number given by [`SensorChannel::code`].
#[derive(Debug, Clone, Copy, PartialEq, Eq, Structural)]
pub enum SensorChannel {
    /// All available sensor channels.
    All,
    /// Red color channel.
    Red,
    /// Green color channel.
    Green,
    /// Blue color channel.
    Blue,
    /// Overall light intensity.
    Intensity,
    /// Infrared channel.
    Ir,
    /// Ambient temperature.
    AmbientTemp,
    /// Die (chip) temperature.
    DieTemp,
    /// Accelerometer data (3-axis).
    Accel,
    /// Gyroscope data (3-axis).
    Gyro,
    /// Magnetometer data (3-axis).
    Magn,
    /// Relative humidity.
    Humidity,
    /// Atmospheric pressure.
    Pressure,
    /// Proximity detection.
    Prox,
    /// Distance measurement.
    Distance,
}

/// The Zephyr channel number of each channel.
pub open spec fn channel_code(c: SensorChannel) -> i32 {
    match c {
        SensorChannel::All => 0,
        SensorChannel::Red => 1,
        SensorChannel::Green => 2,
        SensorChannel::Blue => 3,
        SensorChannel::Intensity => 4,
        SensorChannel::Ir => 5,
        SensorChannel::AmbientTemp => 13,
        SensorChannel::DieTemp => 14,
        SensorChannel::Accel => 15,
        SensorChannel::Gyro => 16,
        SensorChannel::Magn => 17,
        SensorChannel::Humidity => 22,
        SensorChannel::Pressure => 23,
        SensorChannel::Prox => 24,
        SensorChannel::Distance => 25,
    }
}

/// The channel that a raw Zephyr channel number names; numbers that name no
/// channel fall back to `All`.
pub open spec fn channel_from_code(chan: i32) -> SensorChannel {
    if chan == 1 {
        SensorChannel::Red
    } else if chan == 2 {
        SensorChannel::Green
    } else if chan == 3 {
        SensorChannel::Blue
    } else if chan == 4 {
        SensorChannel::Intensity
    } else if chan == 5 {
        SensorChannel::Ir
    } else if chan == 13 {
        SensorChannel::AmbientTemp
    } else if chan == 14 {
        SensorChannel::DieTemp
    } else if chan == 15 {
        SensorChannel::Accel
    } else if chan == 16 {
        SensorChannel::Gyro
    } else if chan == 17 {
        SensorChannel::Magn
    } else if chan == 22 {
        SensorChannel::Humidity
    } else if chan == 23 {
        SensorChannel::Pressure
    } else if chan == 24 {
        SensorChannel::Prox
    } else if chan == 25 {
        SensorChannel::Distance
    } else {
        SensorChannel::All
    }
}

impl SensorChannel {
    /// The Zephyr channel number of this channel (its C enum value).
    pub fn code(self) -> (r: i32)
        ensures
            r == channel_code(self),
    {
        match self {
            SensorChannel::All => 0,
            SensorChannel::Red => 1,
            SensorChannel::Green => 2,
            SensorChannel::Blue => 3,
            SensorChannel::Intensity => 4,
            SensorChannel::Ir => 5,
            SensorChannel::AmbientTemp => 13,
            SensorChannel::DieTemp => 14,
            SensorChannel::Accel => 15,
            SensorChannel::Gyro => 16,
            SensorChannel::Magn => 17,
            SensorChannel::Humidity => 22,
            SensorChannel::Pressure => 23,
            SensorChannel::Prox => 24,
            SensorChannel::Distance => 25,
        }
    }
}

impl From<i32> for SensorChannel {
    fn from(chan: i32) -> (r: Self) {
        match chan {
            0 => SensorChannel::All,
            1 => SensorChannel::Red,
            2 => SensorChannel::Green,
            3 => SensorChannel::Blue,
            4 => SensorChannel::Intensity,
            5 => SensorChannel::Ir,
            13 => SensorChannel::AmbientTemp,
            14 => SensorChannel::DieTemp,
            15 => SensorChannel::Accel,
            16 => SensorChannel::Gyro,
            17 => SensorChannel::Magn,
            22 => SensorChannel::Humidity,
            23 => SensorChannel::Pressure,
            24 => SensorChannel::Prox,
            25 => SensorChannel::Distance,
            _ => SensorChannel::All,
        }
    }
}

impl vstd::std_specs::convert::FromSpecImpl<i32> for SensorChannel {
    open spec fn obeys_from_spec() -> bool {
        true
    }

    open spec fn from_spec(chan: i32) -> SensorChannel {
        channel_from_code(chan)
    }
}

/// Each channel's Zephyr number is its value in Zephyr's `enum sensor_channel`:
/// All 0, Red 1, Green 2, Blue 3, Intensity 4, Ir 5, AmbientTemp 13, DieTemp 14,
/// Accel 15, Gyro 16, Magn 17, Humidity 22, Pressure 23, Prox 24, Distance 25;
/// each of those numbers names its channel, and any other number names `All`.
pub proof fn lemma_channel_numbers()
    ensures
        channel_code(SensorChannel::All) == 0,
        channel_code(SensorChannel::Red) == 1,
        channel_code(SensorChannel::Green) == 2,
        channel_code(SensorChannel::Blue) == 3,
        channel_code(SensorChannel::Intensity) == 4,
        channel_code(SensorChannel::Ir) == 5,
        channel_code(SensorChannel::AmbientTemp) == 13,
        channel_code(SensorChannel::DieTemp) == 14,
        channel_code(SensorChannel::Accel) == 15,
        channel_code(SensorChannel::Gyro) == 16,
        channel_code(SensorChannel::Magn) == 17,
        channel_code(SensorChannel::Humidity) == 22,
        channel_code(SensorChannel::Pressure) == 23,
        channel_code(SensorChannel::Prox) == 24,
        channel_code(SensorChannel::Distance) == 25,
        channel_from_code(0) == SensorChannel::All,
        channel_from_code(1) == SensorChannel::Red,
        channel_from_code(2) == SensorChannel::Green,
        channel_from_code(3) == SensorChannel::Blue,
        channel_from_code(4) == SensorChannel::Intensity,
        channel_from_code(5) == SensorChannel::Ir,
        channel_from_code(13) == SensorChannel::AmbientTemp,
        channel_from_code(14) == SensorChannel::DieTemp,
        channel_from_code(15) == SensorChannel::Accel,
        channel_from_code(16) == SensorChannel::Gyro,
        channel_from_code(17) == SensorChannel::Magn,
        channel_from_code(22) == SensorChannel::Humidity,
        channel_from_code(23) == SensorChannel::Pressure,
        channel_from_code(24) == SensorChannel::Prox,
        channel_from_code(25) == SensorChannel::Distance,
        forall|chan: i32|
            !(0 <= chan <= 5 || 13 <= chan <= 17 || 22 <= chan <= 25) ==> #[trigger] channel_from_code(
                chan,
            ) == SensorChannel::All,
{
}

/// Each sensor error's errno is Zephyr's negated value: NotReady -ENODEV (-19),
/// InvalidChannel and InvalidArgument -EINVAL (-22), IoError -EIO (-5),
/// NotSupported -95.
pub proof fn lemma_sensor_errno_values()
    ensures
        sensor_errno(SensorError::NotReady) == -19,
        sensor_errno(SensorError::InvalidChannel) == -22,
        sensor_errno(SensorError::IoError) == -5,
        sensor_errno(SensorError::InvalidArgument) == -22,
        sensor_errno(SensorError::NotSupported) == -95,
{
}

/// Converting a channel to its Zephyr number and back gives the channel.
pub proof fn lemma_channel_code_roundtrip(c: SensorChannel)
    ensures
        channel_from_code(channel_code(c)) == c,
{
}

/// Distinct channels have distinct Zephyr numbers.
pub proof fn lemma_channel_code_injective(a: SensorChannel, b: SensorChannel)
    requires
        channel_code(a) == channel_code(b),
    ensures
        a == b,
{
    lemma_channel_code_roundtrip(a);
    lemma_channel_code_roundtrip(b);
}

/// Driver error type for sensor operations.
#[derive(Debug, Clone, Copy, PartialEq, Eq, Structural)]
pub enum SensorError {
    /// Sensor is not ready or not responding (`-ENODEV`).
    NotReady,
    /// Invalid or unsupported channel requested (`-EINVAL`).
    InvalidChannel,
    /// I/O error during communication (`-EIO`).
    IoError,
    /// Invalid argument provided to function (`-EINVAL`).
    InvalidArgument,
    /// Operation not supported by this sensor (`-ENOTSUP`).
    NotSupported,
}

/// The negative errno value of each sensor error.
pub open spec fn sensor_errno(e: SensorError) -> int {
    match e {
        SensorError::NotReady => -19,
        SensorError::InvalidChannel => -22,
        SensorError::IoError => -5,
        SensorError::InvalidArgument => -22,
        SensorError::NotSupported => -95,
    }
}

impl SensorError {
    /// Converts the error to its corresponding (negative) errno value.
    pub fn to_errno(self) -> (r: i32)
        ensures
            r == sensor_errno(self),
            r < 0,
    {
        match self {
            SensorError::NotReady => -19,
            SensorError::InvalidChannel => -22,
            SensorError::IoError => -5,
            SensorError::InvalidArgument => -22,
            SensorError::NotSupported => -95,
        }
    }
}

/// Result type for sensor operations.
pub type SensorResult<T> = Result<T, SensorError>;

} // verus!
