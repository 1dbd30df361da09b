//! Real-time clock values: Zephyr's `struct rtc_time` and the validated
//! calendar date-time that the RTC reports to its users, and the conversions
//! between them.

use vstd::prelude::*;

verus! {

/// A calendar month.
#[derive(Debug, Clone, Copy, PartialEq, Eq, Structural)]
pub enum Month {
    January,
    February,
    March,
    April,
    May,
    June,
    July,
    August,
    September,
    October,
    November,
    December,
}

/// The conventional number of each month (January is 1).
pub open spec fn month_number(m: Month) -> u8 {
    match m {
        Month::January => 1,
        Month::February => 2,
        Month::March => 3,
        Month::April => 4,
        Month::May => 5,
        Month::June => 6,
        Month::July => 7,
        Month::August => 8,
        Month::September => 9,
        Month::October => 10,
        Month::November => 11,
        Month::December => 12,
    }
}

/// The month with a given number, where one has it.
pub open spec fn month_from_number(n: u8) -> Option<Month> {
    if n == 1 {
        Some(Month::January)
    } else if n == 2 {
        Some(Month::February)
    } else if n == 3 {
        Some(Month::March)
    } else if n == 4 {
        Some(Month::April)
    } else if n == 5 {
        Some(Month::May)
    } else if n == 6 {
        Some(Month::June)
    } else if n == 7 {
        Some(Month::July)
    } else if n == 8 {
        Some(Month::August)
    } else if n == 9 {
        Some(Month::September)
    } else if n == 10 {
        Some(Month::October)
    } else if n == 11 {
        Some(Month::November)
    } else if n == 12 {
        Some(Month::December)
    } else {
        None
    }
}

/// Gregorian leap years.
pub open spec fn is_leap_year(year: u16) -> bool {
    (year % 4 == 0 && year % 100 != 0) || year % 400 == 0
}

/// Number of days of a month in a given year.
pub open spec fn days_in_month(m: Month, year: u16) -> u8 {
    match m {
        Month::February => if is_leap_year(year) { 29 } else { 28 },
        Month::April => 30,
        Month::June => 30,
        Month::September => 30,
        Month::November => 30,
        _ => 31,
    }
}

/// Months are numbered in calendar order, January 1 to December 12, and each
/// of those numbers names its month while no other number names one.
pub proof fn lemma_month_numbers()
    ensures
        month_number(Month::January) == 1,
        month_number(Month::February) == 2,
        month_number(Month::March) == 3,
        month_number(Month::April) == 4,
        month_number(Month::May) == 5,
        month_number(Month::June) == 6,
        month_number(Month::July) == 7,
        month_number(Month::August) == 8,
        month_number(Month::September) == 9,
        month_number(Month::October) == 10,
        month_number(Month::November) == 11,
        month_number(Month::December) == 12,
        month_from_number(1) == Some(Month::January),
        month_from_number(2) == Some(Month::February),
        month_from_number(3) == Some(Month::March),
        month_from_number(4) == Some(Month::April),
        month_from_number(5) == Some(Month::May),
        month_from_number(6) == Some(Month::June),
        month_from_number(7) == Some(Month::July),
        month_from_number(8) == Some(Month::August),
        month_from_number(9) == Some(Month::September),
        month_from_number(10) == Some(Month::October),
        month_from_number(11) == Some(Month::November),
        month_from_number(12) == Some(Month::December),
        forall|n: u8| !(1 <= n <= 12) ==> #[trigger] month_from_number(n) is None,
{
}

/// Month lengths are the Gregorian calendar's: January, March, May, July,
/// August, October and December have 31 days; April, June, September and
/// November 30; February 29 in years divisible by 4 but not by 100, or by
/// 400, else 28. So a year has 366 days exactly in leap years, else 365.
pub proof fn lemma_gregorian_month_lengths(year: u16)
    ensures
        days_in_month(Month::January, year) == 31,
        days_in_month(Month::February, year) == (if (year % 4 == 0 && year % 100 != 0) || year
            % 400 == 0 {
            29u8
        } else {
            28u8
        }),
        days_in_month(Month::March, year) == 31,
        days_in_month(Month::April, year) == 30,
        days_in_month(Month::May, year) == 31,
        days_in_month(Month::June, year) == 30,
        days_in_month(Month::July, year) == 31,
        days_in_month(Month::August, year) == 31,
        days_in_month(Month::September, year) == 30,
        days_in_month(Month::October, year) == 31,
        days_in_month(Month::November, year) == 30,
        days_in_month(Month::December, year) == 31,
        days_in_month(Month::January, year) + days_in_month(Month::February, year)
            + days_in_month(Month::March, year) + days_in_month(Month::April, year)
            + days_in_month(Month::May, year) + days_in_month(Month::June, year)
            + days_in_month(Month::July, year) + days_in_month(Month::August, year)
            + days_in_month(Month::September, year) + days_in_month(Month::October, year)
            + days_in_month(Month::November, year) + days_in_month(Month::December, year) == (
        if (year % 4 == 0 && year % 100 != 0) || year % 400 == 0 {
            366int
        } else {
            365int
        }),
{
}

/// A date and time passes the validation exactly when its year is at least
/// 1970, its day lies between 1 and the Gregorian length of its month, its
/// hour is below 24, minute and second below 60, and nanosecond below 10^9;
/// in particular the last day of every month is accepted.
pub proof fn lemma_validation_accepts_calendar_dates(f: DatetimeFields)
    ensures
        spec_validate(f) is Ok <==> (f.year >= 1970 && 1 <= f.day <= days_in_month(f.month, f.year)
            && f.hour < 24 && f.minute < 60 && f.second < 60 && f.nanosecond < 1_000_000_000),
        (f.year >= 1970 && f.hour < 24 && f.minute < 60 && f.second < 60 && f.nanosecond
            < 1_000_000_000 && f.day == 31 && (f.month == Month::January || f.month == Month::March
            || f.month == Month::May || f.month == Month::July || f.month == Month::August
            || f.month == Month::October || f.month == Month::December)) ==> spec_validate(f) is Ok,
{
}

impl Month {
    /// The month with the given number (1 to 12), or `Err(())` for any other number.
    pub fn try_from_number(n: u8) -> (r: Result<Month, ()>)
        ensures
            r matches Ok(m) ==> month_from_number(n) == Some(m),
            r is Err ==> month_from_number(n) is None,
    {
        match n {
            1 => Ok(Month::January),
            2 => Ok(Month::February),
            3 => Ok(Month::March),
            4 => Ok(Month::April),
            5 => Ok(Month::May),
            6 => Ok(Month::June),
            7 => Ok(Month::July),
            8 => Ok(Month::August),
            9 => Ok(Month::September),
            10 => Ok(Month::October),
            11 => Ok(Month::November),
            12 => Ok(Month::December),
            _ => Err(()),
        }
    }

    /// The conventional number of the month (January is 1).
    pub fn number(self) -> (r: u8)
        ensures
            r == month_number(self),
            1 <= r <= 12,
    {
        match self {
            Month::January => 1,
            Month::February => 2,
            Month::March => 3,
            Month::April => 4,
            Month::May => 5,
            Month::June => 6,
            Month::July => 7,
            Month::August => 8,
            Month::September => 9,
            Month::October => 10,
            Month::November => 11,
            Month::December => 12,
        }
    }

    /// Number of days of the month in `year`.
    pub fn days_in_month(self, year: u16) -> (r: u8)
        ensures
            r == days_in_month(self, year),
    {
        match self {
            Month::February => if (year % 4 == 0 && year % 100 != 0) || year % 400 == 0 {
                29
            } else {
                28
            },
            Month::April => 30,
            Month::June => 30,
            Month::September => 30,
            Month::November => 30,
            _ => 31,
        }
    }
}

/// A date and time whose fields are not yet validated.
#[derive(Debug, Clone, Copy, PartialEq, Eq, Structural)]
pub struct DatetimeFields {
    /// The year.
    pub year: u16,
    /// The month.
    pub month: Month,
    /// The day of the month (1-31).
    pub day: u8,
    /// The hour (0-23).
    pub hour: u8,
    /// The minute (0-59).
    pub minute: u8,
    /// The second (0-59).
    pub second: u8,
    /// The nanosecond (0-999_999_999).
    pub nanosecond: u32,
}

/// The field that failed the validation of a date and time.
#[derive(Debug, Clone, Copy, PartialEq, Eq, Structural)]
pub enum DatetimeError {
    /// The year is invalid.
    Year,
    /// The month is invalid.
    Month,
    /// The day is invalid.
    Day,
    /// The hour is invalid.
    Hour,
    /// The minute is invalid.
    Minute,
    /// The second is invalid.
    Second,
    /// The nanosecond is invalid.
    Nanosecond,
}

/// The validation of a date and time: the first field out of range, checked
/// in the order year (at least 1970), day (1 to the days of the month),
/// hour, minute, second, nanosecond.
pub open spec fn spec_validate(f: DatetimeFields) -> Result<(), DatetimeError> {
    if f.year < 1970 {
        Err(DatetimeError::Year)
    } else if f.day < 1 || f.day > days_in_month(f.month, f.year) {
        Err(DatetimeError::Day)
    } else if f.hour > 23 {
        Err(DatetimeError::Hour)
    } else if f.minute > 59 {
        Err(DatetimeError::Minute)
    } else if f.second > 59 {
        Err(DatetimeError::Second)
    } else if f.nanosecond > 999_999_999 {
        Err(DatetimeError::Nanosecond)
    } else {
        Ok(())
    }
}

/// A validated, timezone-neutral date and time.
#[derive(Debug, Clone, Copy, PartialEq, Eq)]
pub struct Datetime {
    data: DatetimeFields,
}

impl Datetime {
    #[verifier::type_invariant]
    spec fn inv(self) -> bool {
        spec_validate(self.data) is Ok
    }

    /// The fields of the date and time.
    pub closed spec fn fields(self) -> DatetimeFields {
        self.data
    }

    /// Validates the fields: the date and time they give, or the first field
    /// out of range.
    pub fn new(data: DatetimeFields) -> (r: Result<Datetime, DatetimeError>)
        ensures
            spec_validate(data) is Ok ==> (r matches Ok(d) && d.fields() == data),
            spec_validate(data) matches Err(e) ==> r == Err::<Datetime, DatetimeError>(e),
    {
        if data.year < 1970 {
            return Err(DatetimeError::Year);
        }
        if data.day < 1 {
            return Err(DatetimeError::Day);
        }
        if data.day > data.month.days_in_month(data.year) {
            return Err(DatetimeError::Day);
        }
        if data.hour > 23 {
            return Err(DatetimeError::Hour);
        }
        if data.minute > 59 {
            return Err(DatetimeError::Minute);
        }
        if data.second > 59 {
            return Err(DatetimeError::Second);
        }
        if data.nanosecond > 999_999_999 {
            return Err(DatetimeError::Nanosecond);
        }
        Ok(Datetime { data })
    }

    /// The fields of a valid date and time pass the validation.
    pub fn fields_are_valid(&self)
        ensures
            spec_validate(self.fields()) is Ok,
    {
        proof {
            use_type_invariant(self);
        }
    }

    /// The year (at least 1970).
    pub fn year(&self) -> (r: u16)
        ensures
            r == self.fields().year,
            r >= 1970,
    {
        proof {
            use_type_invariant(self);
        }
        self.data.year
    }

    /// The month.
    pub fn month(&self) -> (r: Month)
        ensures
            r == self.fields().month,
    {
        self.data.month
    }

    /// The day of the month (1 through the days of the month).
    pub fn day(&self) -> (r: u8)
        ensures
            r == self.fields().day,
            1 <= r <= 31,
    {
        proof {
            use_type_invariant(self);
        }
        self.data.day
    }

    /// The hour (0-23).
    pub fn hour(&self) -> (r: u8)
        ensures
            r == self.fields().hour,
            r <= 23,
    {
        proof {
            use_type_invariant(self);
        }
        self.data.hour
    }

    /// The minute (0-59).
    pub fn minute(&self) -> (r: u8)
        ensures
            r == self.fields().minute,
            r <= 59,
    {
        proof {
            use_type_invariant(self);
        }
        self.data.minute
    }

    /// The second (0-59).
    pub fn second(&self) -> (r: u8)
        ensures
            r == self.fields().second,
            r <= 59,
    {
        proof {
            use_type_invariant(self);
        }
        self.data.second
    }

    /// The nanosecond (0-999_999_999).
    pub fn nanoseconds(&self) -> (r: u32)
        ensures
            r == self.fields().nanosecond,
            r <= 999_999_999,
    {
        proof {
            use_type_invariant(self);
        }
        self.data.nanosecond
    }
}

/// Zephyr's broken-down RTC time (`struct rtc_time`): years since 1900,
/// months 0-11, and -1 for the fields that are unknown.
#[derive(Debug, Clone, Copy, PartialEq, Eq, Structural)]
pub struct RtcTime {
    /// Seconds (0-59).
    pub tm_sec: i32,
    /// Minutes (0-59).
    pub tm_min: i32,
    /// Hours (0-23).
    pub tm_hour: i32,
    /// Day of the month (1-31).
    pub tm_mday: i32,
    /// Month (0-11).
    pub tm_mon: i32,
    /// Year minus 1900.
    pub tm_year: i32,
    /// Day of the week (0-6), -1 if unknown.
    pub tm_wday: i32,
    /// Day of the year (0-365), -1 if unknown.
    pub tm_yday: i32,
    /// Daylight saving time flag, -1 if unknown.
    pub tm_isdst: i32,
    /// Nanoseconds.
    pub tm_nsec: i32,
}

/// Whether an integer fits in `u8`.
pub open spec fn fits_u8(v: int) -> bool {
    0 <= v <= u8::MAX
}

/// The date and time an RTC time stands for, or the first field that does not
/// convert: day, hour, minute, second and month (plus one) must fit in `u8`,
/// the nanosecond must not be negative, the year (plus 1900) must fit in
/// `u16`, the month must be 1-12, and the result must pass the validation.
pub open spec fn spec_rtc_to_fields(t: RtcTime) -> Result<DatetimeFields, DatetimeError> {
    if !fits_u8(t.tm_mday as int) {
        Err(DatetimeError::Day)
    } else if !fits_u8(t.tm_hour as int) {
        Err(DatetimeError::Hour)
    } else if !fits_u8(t.tm_min as int) {
        Err(DatetimeError::Minute)
    } else if !fits_u8(t.tm_sec as int) {
        Err(DatetimeError::Second)
    } else if t.tm_nsec < 0 {
        Err(DatetimeError::Nanosecond)
    } else if !(0 <= t.tm_year + 1900 <= u16::MAX) {
        Err(DatetimeError::Year)
    } else if !fits_u8(t.tm_mon + 1) {
        Err(DatetimeError::Month)
    } else if month_from_number((t.tm_mon + 1) as u8) is None {
        Err(DatetimeError::Month)
    } else {
        let f = DatetimeFields {
            year: (t.tm_year + 1900) as u16,
            month: month_from_number((t.tm_mon + 1) as u8).unwrap(),
            day: t.tm_mday as u8,
            hour: t.tm_hour as u8,
            minute: t.tm_min as u8,
            second: t.tm_sec as u8,
            nanosecond: t.tm_nsec as u32,
        };
        match spec_validate(f) {
            Ok(_) => Ok(f),
            Err(e) => Err(e),
        }
    }
}

/// `i32` to `u8`, `Err(())` where it does not fit.
fn u8_from_i32(v: i32) -> (r: Result<u8, ()>)
    ensures
        fits_u8(v as int) ==> r == Ok::<u8, ()>(v as u8),
        !fits_u8(v as int) ==> r is Err,
{
    if 0 <= v && v <= 255 {
        Ok(v as u8)
    } else {
        Err(())
    }
}

/// Converts Zephyr's RTC time into a validated date and time (see
/// [`spec_rtc_to_fields`]).
pub fn to_datetime(rtc_time: &RtcTime) -> (r: Result<Datetime, DatetimeError>)
    requires
        rtc_time.tm_year <= i32::MAX - 1900,
        rtc_time.tm_mon < i32::MAX,
    ensures
        spec_rtc_to_fields(*rtc_time) matches Ok(f) ==> (r matches Ok(d) && d.fields() == f),
        spec_rtc_to_fields(*rtc_time) matches Err(e) ==> r == Err::<Datetime, DatetimeError>(e),
{
    let day = match u8_from_i32(rtc_time.tm_mday) {
        Ok(v) => v,
        Err(_) => return Err(DatetimeError::Day),
    };
    let hour = match u8_from_i32(rtc_time.tm_hour) {
        Ok(v) => v,
        Err(_) => return Err(DatetimeError::Hour),
    };
    let minute = match u8_from_i32(rtc_time.tm_min) {
        Ok(v) => v,
        Err(_) => return Err(DatetimeError::Minute),
    };
    let second = match u8_from_i32(rtc_time.tm_sec) {
        Ok(v) => v,
        Err(_) => return Err(DatetimeError::Second),
    };
    if rtc_time.tm_nsec < 0 {
        return Err(DatetimeError::Nanosecond);
    }
    let nanosecond = rtc_time.tm_nsec as u32;
    let full_year: i32 = rtc_time.tm_year + 1900;
    if full_year < 0 || full_year > 0xFFFF {
        return Err(DatetimeError::Year);
    }
    let year = full_year as u16;
    let month_number = match u8_from_i32(rtc_time.tm_mon + 1) {
        Ok(v) => v,
        Err(_) => return Err(DatetimeError::Month),
    };
    let month = match Month::try_from_number(month_number) {
        Ok(m) => m,
        Err(_) => return Err(DatetimeError::Month),
    };
    Datetime::new(DatetimeFields { year, month, day, hour, minute, second, nanosecond })
}

/// Converts a date and time into Zephyr's RTC time; the weekday, day of the
/// year and daylight-saving flag, which a date and time does not hold, are
/// -1 (unknown). Converting the result back gives the same date and time.
pub fn to_rtctime(datetime: &Datetime) -> (r: RtcTime)
    ensures
        r.tm_sec == datetime.fields().second,
        r.tm_min == datetime.fields().minute,
        r.tm_hour == datetime.fields().hour,
        r.tm_mday == datetime.fields().day,
        r.tm_nsec == datetime.fields().nanosecond,
        r.tm_mon == month_number(datetime.fields().month) - 1,
        r.tm_year == datetime.fields().year - 1900,
        r.tm_wday == -1,
        r.tm_yday == -1,
        r.tm_isdst == -1,
        spec_rtc_to_fields(r) == Ok::<DatetimeFields, DatetimeError>(datetime.fields()),
{
    datetime.fields_are_valid();
    let month = datetime.month().number();
    let r = RtcTime {
        tm_sec: datetime.second() as i32,
        tm_min: datetime.minute() as i32,
        tm_hour: datetime.hour() as i32,
        tm_mday: datetime.day() as i32,
        tm_nsec: datetime.nanoseconds() as i32,
        tm_mon: (month - 1) as i32,
        tm_year: datetime.year() as i32 - 1900,
        tm_wday: -1,
        tm_yday: -1,
        tm_isdst: -1,
    };
    assert(month_from_number((r.tm_mon + 1) as u8) == Some(datetime.fields().month));
    r
}

/// A converted RTC time keeps every field that a date and time holds:
/// converting it back gives the same seconds, minutes, hours, day, month,
/// year and nanoseconds.
pub proof fn lemma_rtc_fields_roundtrip(t: RtcTime, f: DatetimeFields)
    requires
        spec_rtc_to_fields(t) == Ok::<DatetimeFields, DatetimeError>(f),
    ensures
        f.second == t.tm_sec,
        f.minute == t.tm_min,
        f.hour == t.tm_hour,
        f.day == t.tm_mday,
        f.nanosecond == t.tm_nsec,
        month_number(f.month) - 1 == t.tm_mon,
        f.year - 1900 == t.tm_year,
{
}

/// An RTC peripheral: the underlying RTC `device` and the resolution of its
/// clock in Hz.
pub struct Rtc<D> {
    device: D,
    resolution_hz: u32,
}

impl<D> Rtc<D> {
    /// An RTC with the given device and clock resolution.
    pub fn new(device: D, resolution_hz: u32) -> (r: Self)
        ensures
            r.resolution() == resolution_hz,
            r.device_value() == device,
    {
        Rtc { device, resolution_hz }
    }

    /// The clock resolution in Hz.
    pub closed spec fn resolution(&self) -> u32 {
        self.resolution_hz
    }

    /// The underlying RTC device.
    pub closed spec fn device_value(&self) -> D {
        self.device
    }

    /// The underlying RTC device.
    pub fn device(&self) -> (r: &D)
        ensures
            *r == self.device_value(),
    {
        &self.device
    }

    /// The clock resolution in Hz.
    pub fn resolution_hz(&self) -> (r: u32)
        ensures
            r == self.resolution(),
    {
        self.resolution_hz
    }
}

} // verus!
