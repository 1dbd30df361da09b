use zephyr::error::{Error, EINVAL, ENOTSUP};
use zephyr::fan::Fan;
use zephyr::pwm_fan::{clamp_rpm, set_cycles_error_kind, FanErrorKind, PwmFan};
use zephyr::rtc::{
    to_datetime, to_rtctime, Datetime, DatetimeError, DatetimeFields, Month, Rtc, RtcTime,
};

#[test]
fn pwm_fan_new_checks_u16_ranges() {
    let fan: Option<PwmFan<u8, u8>> = PwmFan::new(1, 0, 25_000, 0, 5000, 1000, 1500, None);
    let fan = fan.unwrap();
    assert_eq!(fan.max_rpm(), 5000);
    assert_eq!(fan.min_rpm(), 1000);
    assert_eq!(fan.min_start_rpm(), 1500);
    assert_eq!(fan.period(), 25_000);
    assert!(PwmFan::<u8, u8>::new(1, 0, 25_000, 0x1_0000, 5000, 1000, 1500, None).is_none());
    assert!(PwmFan::<u8, u8>::new(1, 0, 25_000, 0, 70_000, 1000, 1500, None).is_none());
    assert!(PwmFan::<u8, u8>::new(1, 0, 25_000, 0, 5000, 1000, 65_536, None).is_none());
}

#[test]
fn pwm_fan_rpm_without_tachometer_is_last_set() {
    let mut fan: PwmFan<u8, u8> = PwmFan::new(1, 0, 25_000, 0, 5000, 1000, 1500, None).unwrap();
    assert_eq!(fan.rpm(None), Ok(0));
    fan.record_set_rpm(2500);
    assert_eq!(fan.rpm(None), Ok(2500));
}

#[test]
fn pwm_fan_rpm_with_tachometer() {
    let fan: PwmFan<u8, u8> = PwmFan::new(1, 0, 25_000, 0, 5000, 1000, 1500, Some(3)).unwrap();
    assert!(fan.tachometer().is_some());
    assert_eq!(fan.rpm(Some(Ok(1234))), Ok(1234));
    assert_eq!(fan.rpm(Some(Ok(-5))), Ok(0));
    assert_eq!(fan.rpm(Some(Ok(100_000))), Ok(u16::MAX));
    assert_eq!(fan.rpm(Some(Err(Error(5)))), Err(FanErrorKind::Other));
    assert_eq!(clamp_rpm(65_535), 65_535);
}

#[test]
fn set_cycles_errors() {
    assert_eq!(set_cycles_error_kind(Error(EINVAL)), FanErrorKind::InvalidSpeed);
    assert_eq!(set_cycles_error_kind(Error(ENOTSUP)), FanErrorKind::Other);
}

#[test]
fn fan_new_keeps_min_start_rpm() {
    let fan = Fan::new((), 2, 40_000, 1, 4000, 800, 1200).unwrap();
    assert_eq!(fan.min_start_rpm(), 1200);
    assert_eq!(fan.channel(), 2);
    assert_eq!(fan.flags(), 1);
    assert!(Fan::new((), 2, 40_000, 1, 4000, 800, 70_000).is_none());
}

fn rtc(sec: i32, min: i32, hour: i32, mday: i32, mon: i32, year: i32, nsec: i32) -> RtcTime {
    RtcTime {
        tm_sec: sec,
        tm_min: min,
        tm_hour: hour,
        tm_mday: mday,
        tm_mon: mon,
        tm_year: year,
        tm_wday: 3,
        tm_yday: 40,
        tm_isdst: 0,
        tm_nsec: nsec,
    }
}

#[test]
fn rtc_time_to_datetime() {
    let d = to_datetime(&rtc(5, 6, 7, 29, 1, 124, 500)).unwrap();
    assert_eq!(d.year(), 2024);
    assert_eq!(d.month(), Month::February);
    assert_eq!(d.day(), 29);
    assert_eq!(d.hour(), 7);
    assert_eq!(d.minute(), 6);
    assert_eq!(d.second(), 5);
    assert_eq!(d.nanoseconds(), 500);
}

#[test]
fn rtc_time_errors() {
    assert_eq!(to_datetime(&rtc(5, 6, 7, 29, 1, 123, 0)), Err(DatetimeError::Day));
    assert_eq!(to_datetime(&rtc(5, 6, 7, 0, 1, 124, 0)), Err(DatetimeError::Day));
    assert_eq!(to_datetime(&rtc(5, 6, 7, 300, 1, 124, 0)), Err(DatetimeError::Day));
    assert_eq!(to_datetime(&rtc(5, 6, 24, 1, 1, 124, 0)), Err(DatetimeError::Hour));
    assert_eq!(to_datetime(&rtc(5, 60, 7, 1, 1, 124, 0)), Err(DatetimeError::Minute));
    assert_eq!(to_datetime(&rtc(60, 6, 7, 1, 1, 124, 0)), Err(DatetimeError::Second));
    assert_eq!(to_datetime(&rtc(5, 6, 7, 1, 1, 124, -1)), Err(DatetimeError::Nanosecond));
    assert_eq!(to_datetime(&rtc(5, 6, 7, 1, 1, 124, 1_000_000_000)), Err(DatetimeError::Nanosecond));
    assert_eq!(to_datetime(&rtc(5, 6, 7, 1, 1, 69, 0)), Err(DatetimeError::Year));
    assert_eq!(to_datetime(&rtc(5, 6, 7, 1, 12, 124, 0)), Err(DatetimeError::Month));
    assert_eq!(to_datetime(&rtc(5, 6, 7, 1, -1, 124, 0)), Err(DatetimeError::Month));
}

#[test]
fn datetime_to_rtc_time_and_back() {
    let d = Datetime::new(DatetimeFields {
        year: 2000,
        month: Month::December,
        day: 31,
        hour: 23,
        minute: 59,
        second: 59,
        nanosecond: 999_999_999,
    })
    .unwrap();
    let t = to_rtctime(&d);
    assert_eq!(t, rtc(59, 59, 23, 31, 11, 100, 999_999_999).with_unknowns());
    assert_eq!(to_datetime(&t), Ok(d));
}

trait Unknowns {
    fn with_unknowns(self) -> Self;
}

impl Unknowns for RtcTime {
    fn with_unknowns(mut self) -> Self {
        self.tm_wday = -1;
        self.tm_yday = -1;
        self.tm_isdst = -1;
        self
    }
}

#[test]
fn datetime_validation() {
    let base = DatetimeFields {
        year: 1970,
        month: Month::January,
        day: 1,
        hour: 0,
        minute: 0,
        second: 0,
        nanosecond: 0,
    };
    assert!(Datetime::new(base).is_ok());
    assert_eq!(Datetime::new(DatetimeFields { year: 1969, ..base }), Err(DatetimeError::Year));
    assert_eq!(
        Datetime::new(DatetimeFields { year: 2100, month: Month::February, day: 29, ..base }),
        Err(DatetimeError::Day)
    );
    assert!(Datetime::new(DatetimeFields { year: 2000, month: Month::February, day: 29, ..base }).is_ok());
    assert_eq!(Datetime::new(DatetimeFields { month: Month::April, day: 31, ..base }), Err(DatetimeError::Day));
    assert_eq!(Month::try_from_number(13), Err(()));
    assert_eq!(Month::try_from_number(0), Err(()));
    assert_eq!(Month::try_from_number(7), Ok(Month::July));
    assert_eq!(Month::June.number(), 6);
}

#[test]
fn rtc_keeps_resolution() {
    let r = Rtc::new("rtc0", 1000);
    assert_eq!(r.resolution_hz(), 1000);
    assert_eq!(*r.device(), "rtc0");
}
