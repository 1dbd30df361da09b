//! A PWM-controlled fan without tachometer or speed bookkeeping.

use vstd::prelude::*;

use crate::pwm_fan::fits_u16;

verus! {

/// A PWM-controlled fan: the PWM controller `device` with its output
/// selection and the fan's RPM limits from the devicetree.
pub struct Fan<D> {
    device: D,
    channel: u32,
    period: u32,
    flags: u16,
    max_rpm: u16,
    min_rpm: u16,
    min_start_rpm: u16,
}

impl<D> Fan<D> {
    /// The devicetree limits and PWM selection of the fan.
    pub closed spec fn config(&self) -> (u32, u32, u16, u16, u16, u16) {
        (self.channel, self.period, self.flags, self.max_rpm, self.min_rpm, self.min_start_rpm)
    }

    /// The PWM controller the fan is driven by.
    pub closed spec fn device_value(&self) -> D {
        self.device
    }

    /// Builds a fan from its devicetree properties; `None` where the flags or
    /// one of the RPM limits does not fit in `u16`.
    pub fn new(
        device: D,
        channel: u32,
        period: u32,
        flags: u32,
        max_rpm: u32,
        min_rpm: u32,
        min_start_rpm: u32,
    ) -> (r: Option<Self>)
        ensures
            r is Some <==> (fits_u16(flags) && fits_u16(max_rpm) && fits_u16(min_rpm) && fits_u16(
                min_start_rpm,
            )),
            r matches Some(fan) ==> fan.config() == (
                channel,
                period,
                flags as u16,
                max_rpm as u16,
                min_rpm as u16,
                min_start_rpm as u16,
            ) && fan.device_value() == device,
    {
        if flags > 0xFFFF || max_rpm > 0xFFFF || min_rpm > 0xFFFF || min_start_rpm > 0xFFFF {
            return None;
        }
        Some(
            Fan {
                device,
                channel,
                period,
                flags: flags as u16,
                max_rpm: max_rpm as u16,
                min_rpm: min_rpm as u16,
                min_start_rpm: min_start_rpm as u16,
            },
        )
    }

    /// The PWM controller the fan is driven by.
    pub fn device(&self) -> (r: &D)
        ensures
            *r == self.device_value(),
    {
        &self.device
    }

    /// The PWM channel.
    pub fn channel(&self) -> (r: u32)
        ensures
            r == self.config().0,
    {
        self.channel
    }

    /// The PWM period in cycles.
    pub fn period(&self) -> (r: u32)
        ensures
            r == self.config().1,
    {
        self.period
    }

    /// The PWM flags.
    pub fn flags(&self) -> (r: u16)
        ensures
            r == self.config().2,
    {
        self.flags
    }

    /// The maximum RPM the fan is capable of running at.
    pub fn max_rpm(&self) -> (r: u16)
        ensures
            r == self.config().3,
    {
        self.max_rpm
    }

    /// The minimum RPM the fan is capable of running at.
    pub fn min_rpm(&self) -> (r: u16)
        ensures
            r == self.config().4,
    {
        self.min_rpm
    }

    /// The minimum RPM needed for the fan to start from a dead stop.
    pub fn min_start_rpm(&self) -> (r: u16)
        ensures
            r == self.config().5,
    {
        self.min_start_rpm
    }
}

} // verus!
