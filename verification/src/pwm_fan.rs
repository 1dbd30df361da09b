//! PWM-controlled fans: their devicetree configuration, the speed they last
//! set, and the reading of their tachometer.

use vstd::prelude::*;

use crate::error::{Error, EINVAL};

verus! {

/// Fan error kinds (those of embedded-fans).
#[derive(Debug, Clone, Copy, PartialEq, Eq, Structural)]
pub enum FanErrorKind {
    /// An error occurred on the underlying peripheral.
    Peripheral,
    /// The fan is not capable of operating at the requested speed.
    InvalidSpeed,
    /// A different error occurred.
    Other,
}

/// Whether a devicetree value fits in `u16`.
pub open spec fn fits_u16(value: u32) -> bool {
    value <= u16::MAX
}

/// A tachometer reading in RPM clamped to the range of `u16`.
pub open spec fn clamped_rpm(reading: i32) -> u16 {
    if reading < 0 {
        0
    } else if reading > u16::MAX {
        u16::MAX
    } else {
        reading as u16
    }
}

/// The fan error for a failed `pwm_set_cycles`: `EINVAL` (pulse longer than
/// the period) is an invalid speed, any other errno is another error.
pub open spec fn spec_set_cycles_error_kind(e: Error) -> FanErrorKind {
    if e.0 == EINVAL {
        FanErrorKind::InvalidSpeed
    } else {
        FanErrorKind::Other
    }
}

/// Maps a failed `pwm_set_cycles` to a fan error kind.
pub fn set_cycles_error_kind(e: Error) -> (r: FanErrorKind)
    ensures
        r == spec_set_cycles_error_kind(e),
{
    if e.0 == EINVAL {
        FanErrorKind::InvalidSpeed
    } else {
        FanErrorKind::Other
    }
}

/// Clamps a tachometer reading to `0..=u16::MAX`.
pub fn clamp_rpm(reading: i32) -> (r: u16)
    ensures
        r == clamped_rpm(reading),
{
    if reading < 0 {
        0
    } else if reading > 0xFFFF {
        0xFFFF
    } else {
        reading as u16
    }
}

/// A PWM-controlled fan: the PWM controller `device` with its output
/// selection, the fan's RPM limits, an optional tachometer, and the RPM it
/// last set.
pub struct PwmFan<D, T> {
    device: D,
    channel: u32,
    period: u32,
    flags: u16,
    max_rpm: u16,
    min_rpm: u16,
    min_start_rpm: u16,
    tachometer: Option<T>,
    last_set_rpm: u16,
}

/// What reading a fan's RPM gives: the tachometer's reading clamped to `u16`
/// where there is a tachometer (`reading` is its outcome), else the RPM last set.
pub open spec fn spec_rpm(last_set_rpm: u16, reading: Option<Result<i32, Error>>) -> Result<u16, FanErrorKind> {
    match reading {
        None => Ok(last_set_rpm),
        Some(Ok(r)) => Ok(clamped_rpm(r)),
        Some(Err(_)) => Err(FanErrorKind::Other),
    }
}

impl<D, T> PwmFan<D, T> {
    /// The RPM last set (0 until a speed is set).
    pub closed spec fn last_set_rpm(&self) -> u16 {
        self.last_set_rpm
    }

    /// The PWM controller the fan is driven by.
    pub closed spec fn device_value(&self) -> D {
        self.device
    }

    /// The fan's tachometer, if it has one.
    pub closed spec fn tachometer_value(&self) -> Option<T> {
        self.tachometer
    }

    /// Whether the fan has a tachometer.
    pub open spec fn has_tachometer(&self) -> bool {
        self.tachometer_value() is Some
    }

    /// The devicetree limits and PWM selection of the fan.
    pub closed spec fn config(&self) -> (u32, u32, u16, u16, u16, u16) {
        (self.channel, self.period, self.flags, self.max_rpm, self.min_rpm, self.min_start_rpm)
    }

    /// Builds a fan from its devicetree properties; `None` where the flags or
    /// one of the RPM limits does not fit in `u16`. No speed is set yet.
    pub fn new(
        device: D,
        channel: u32,
        period: u32,
        flags: u32,
        max_rpm: u32,
        min_rpm: u32,
        min_start_rpm: u32,
        tachometer: Option<T>,
    ) -> (r: Option<Self>)
        ensures
            r is Some <==> (fits_u16(flags) && fits_u16(max_rpm) && fits_u16(min_rpm) && fits_u16(
                min_start_rpm,
            )),
            r matches Some(fan) ==> fan.config() == (
                channel,
                period,
                flags as u16,
                max_rpm as u16,
                min_rpm as u16,
                min_start_rpm as u16,
            ) && fan.last_set_rpm() == 0 && fan.device_value() == device && fan.tachometer_value()
                == tachometer,
    {
        if flags > 0xFFFF || max_rpm > 0xFFFF || min_rpm > 0xFFFF || min_start_rpm > 0xFFFF {
            return None;
        }
        Some(
            PwmFan {
                device,
                channel,
                period,
                flags: flags as u16,
                max_rpm: max_rpm as u16,
                min_rpm: min_rpm as u16,
                min_start_rpm: min_start_rpm as u16,
                tachometer,
                last_set_rpm: 0,
            },
        )
    }

    /// The PWM controller the fan is driven by.
    pub fn device(&self) -> (r: &D)
        ensures
            *r == self.device_value(),
    {
        &self.device
    }

    /// The fan's tachometer, if it has one.
    pub fn tachometer(&self) -> (r: &Option<T>)
        ensures
            *r == self.tachometer_value(),
    {
        &self.tachometer
    }

    /// The PWM channel.
    pub fn channel(&self) -> (r: u32)
        ensures
            r == self.config().0,
    {
        self.channel
    }

    /// The PWM period in cycles.
    pub fn period(&self) -> (r: u32)
        ensures
            r == self.config().1,
    {
        self.period
    }

    /// The PWM flags.
    pub fn flags(&self) -> (r: u16)
        ensures
            r == self.config().2,
    {
        self.flags
    }

    /// The maximum RPM the fan is capable of running at.
    pub fn max_rpm(&self) -> (r: u16)
        ensures
            r == self.config().3,
    {
        self.max_rpm
    }

    /// The minimum RPM the fan is capable of running at.
    pub fn min_rpm(&self) -> (r: u16)
        ensures
            r == self.config().4,
    {
        self.min_rpm
    }

    /// The minimum RPM needed for the fan to start from a dead stop.
    pub fn min_start_rpm(&self) -> (r: u16)
        ensures
            r == self.config().5,
    {
        self.min_start_rpm
    }

    /// Records the RPM that a successful speed change set.
    pub fn record_set_rpm(&mut self, actual_rpm: u16)
        ensures
            final(self).last_set_rpm() == actual_rpm,
            final(self).config() == old(self).config(),
            final(self).device_value() == old(self).device_value(),
            final(self).tachometer_value() == old(self).tachometer_value(),
    {
        self.last_set_rpm = actual_rpm;
    }

    /// The fan's current RPM: the tachometer's reading clamped to `u16` where
    /// the fan has a tachometer (`reading` is the outcome of reading it, and
    /// must be present exactly then), else the RPM last set. A failed
    /// tachometer read is `Other`.
    pub fn rpm(&self, reading: Option<Result<i32, Error>>) -> (r: Result<u16, FanErrorKind>)
        requires
            reading is Some == self.has_tachometer(),
        ensures
            r == spec_rpm(self.last_set_rpm(), reading),
    {
        match reading {
            None => Ok(self.last_set_rpm),
            Some(Ok(value)) => Ok(clamp_rpm(value)),
            Some(Err(_)) => Err(FanErrorKind::Other),
        }
    }
}

/// A tachometer reading is clamped to `0..=u16::MAX`: the result is the
/// reading's distance into that range, kept where the reading lies in it.
pub proof fn lemma_clamped_rpm(reading: i32)
    ensures
        0 <= reading <= 65535 ==> clamped_rpm(reading) as int == reading as int,
        reading < 0 ==> clamped_rpm(reading) == 0,
        reading > 65535 ==> clamped_rpm(reading) == 65535,
{
}

/// A failed `pwm_set_cycles` is an invalid speed exactly for EINVAL (22).
pub proof fn lemma_set_cycles_error_kind(e: Error)
    ensures
        spec_set_cycles_error_kind(e) == FanErrorKind::InvalidSpeed <==> e.0 == 22,
        spec_set_cycles_error_kind(e) != FanErrorKind::InvalidSpeed ==> spec_set_cycles_error_kind(e)
            == FanErrorKind::Other,
{
}

/// A fan without a tachometer reports the RPM it last set.
pub proof fn lemma_rpm_without_tachometer_reads_back(set_rpm: u16)
    ensures
        spec_rpm(set_rpm, None) == Ok::<u16, FanErrorKind>(set_rpm),
{
}

/// A tachometer reading is reported as it is where it fits in `u16`.
pub proof fn lemma_rpm_reading_in_range(set_rpm: u16, reading: i32)
    requires
        0 <= reading <= u16::MAX,
    ensures
        spec_rpm(set_rpm, Some(Ok(reading))) == Ok::<u16, FanErrorKind>(reading as u16),
{
}

} // verus!
