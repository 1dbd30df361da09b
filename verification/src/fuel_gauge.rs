//! Unit and capacity-mode conversions between a Zephyr fuel gauge's raw
//! property values and the Smart Battery (SBS) values reported to its users.

use vstd::prelude::*;

use crate::error::{Error, EINVAL};
use crate::math::{lemma_trunc_div_bounds, trunc_div};

verus! {

/// A capacity (or current) whose unit follows the battery's CAPACITY_MODE
/// bit: mA/mAh when the bit is clear, 10mW/10mWh when it is set.
#[derive(Debug, Clone, Copy, PartialEq, Eq, Structural)]
pub enum CapacityModeValue {
    /// Unsigned milliamp or milliamp-hour value (CAPACITY_MODE clear).
    MilliAmpUnsigned(u16),
    /// Unsigned centiwatt or centiwatt-hour value (CAPACITY_MODE set).
    CentiWattUnsigned(u16),
}

/// A signed rate whose unit follows the battery's CAPACITY_MODE bit.
#[derive(Debug, Clone, Copy, PartialEq, Eq, Structural)]
pub enum CapacityModeSignedValue {
    /// Signed milliamp value (CAPACITY_MODE clear).
    MilliAmpSigned(i16),
    /// Signed centiwatt value (CAPACITY_MODE set).
    CentiWattSigned(i16),
}

/// The CAPACITY_MODE bit (bit 15) of an SBS BatteryMode word.
pub open spec fn capacity_mode_bit(sbs_mode: u16) -> bool {
    sbs_mode & 0x8000u16 != 0
}

/// The CAPACITY_MODE bit is the top bit of the 16-bit mode word: it is set
/// exactly when the word is at least 0x8000.
pub proof fn lemma_capacity_mode_bit_is_top_bit(sbs_mode: u16)
    ensures
        capacity_mode_bit(sbs_mode) <==> sbs_mode >= 0x8000,
{
    assert((sbs_mode & 0x8000u16 != 0) <==> sbs_mode >= 0x8000) by (bit_vector);
}

/// `BatteryModeFields::from_bits(sbs_mode).capacity_mode()` of
/// embedded-batteries: the bitfield stores CAPACITY_MODE in bit 15 of the
/// BatteryMode word, so the claim is that the call reads exactly that bit.
#[verifier::external_body]
fn battery_mode_capacity_mode(sbs_mode: u16) -> (r: bool)
    ensures
        r == capacity_mode_bit(sbs_mode),
{
    embedded_batteries_async::smart_battery::BatteryModeFields::from_bits(sbs_mode).capacity_mode()
}

/// Whether a BatteryMode word asks for capacities in 10mW/10mWh.
pub fn capacity_mode(sbs_mode: u16) -> (r: bool)
    ensures
        r == capacity_mode_bit(sbs_mode),
{
    battery_mode_capacity_mode(sbs_mode)
}

/// A raw capacity value tagged with the unit that the mode word selects.
pub open spec fn tagged_capacity(raw: u16, sbs_mode: u16) -> CapacityModeValue {
    if capacity_mode_bit(sbs_mode) {
        CapacityModeValue::CentiWattUnsigned(raw)
    } else {
        CapacityModeValue::MilliAmpUnsigned(raw)
    }
}

/// A raw signed rate tagged with the unit that the mode word selects.
pub open spec fn tagged_rate(raw: i16, sbs_mode: u16) -> CapacityModeSignedValue {
    if capacity_mode_bit(sbs_mode) {
        CapacityModeSignedValue::CentiWattSigned(raw)
    } else {
        CapacityModeSignedValue::MilliAmpSigned(raw)
    }
}

/// Whether a capacity's unit agrees with the mode word.
pub open spec fn capacity_matches_mode(capacity: CapacityModeValue, sbs_mode: u16) -> bool {
    match capacity {
        CapacityModeValue::CentiWattUnsigned(_) => capacity_mode_bit(sbs_mode),
        CapacityModeValue::MilliAmpUnsigned(_) => !capacity_mode_bit(sbs_mode),
    }
}

/// Whether a rate's unit agrees with the mode word.
pub open spec fn rate_matches_mode(rate: CapacityModeSignedValue, sbs_mode: u16) -> bool {
    match rate {
        CapacityModeSignedValue::CentiWattSigned(_) => capacity_mode_bit(sbs_mode),
        CapacityModeSignedValue::MilliAmpSigned(_) => !capacity_mode_bit(sbs_mode),
    }
}

/// The number that a capacity carries, whatever its unit.
pub open spec fn capacity_number(capacity: CapacityModeValue) -> u16 {
    match capacity {
        CapacityModeValue::CentiWattUnsigned(v) => v,
        CapacityModeValue::MilliAmpUnsigned(v) => v,
    }
}

/// The number that a rate carries, whatever its unit.
pub open spec fn rate_number(rate: CapacityModeSignedValue) -> i16 {
    match rate {
        CapacityModeSignedValue::CentiWattSigned(v) => v,
        CapacityModeSignedValue::MilliAmpSigned(v) => v,
    }
}

/// A raw value is tagged as 10mW/10mWh exactly when the mode word's top bit
/// is set, and keeps its number either way.
pub proof fn lemma_tagging_follows_top_bit(raw: u16, signed_raw: i16, sbs_mode: u16)
    ensures
        tagged_capacity(raw, sbs_mode) == (if sbs_mode >= 0x8000 {
            CapacityModeValue::CentiWattUnsigned(raw)
        } else {
            CapacityModeValue::MilliAmpUnsigned(raw)
        }),
        tagged_rate(signed_raw, sbs_mode) == (if sbs_mode >= 0x8000 {
            CapacityModeSignedValue::CentiWattSigned(signed_raw)
        } else {
            CapacityModeSignedValue::MilliAmpSigned(signed_raw)
        }),
{
    lemma_capacity_mode_bit_is_top_bit(sbs_mode);
}

/// Tags a raw capacity property (remaining capacity alarm, design capacity)
/// with the unit that the battery's mode word selects.
pub fn capacity_mode_value(raw: u16, sbs_mode: u16) -> (r: CapacityModeValue)
    ensures
        r == tagged_capacity(raw, sbs_mode),
{
    if capacity_mode(sbs_mode) {
        CapacityModeValue::CentiWattUnsigned(raw)
    } else {
        CapacityModeValue::MilliAmpUnsigned(raw)
    }
}

/// Tags a raw AtRate value with the unit that the battery's mode word selects.
pub fn capacity_mode_signed_value(raw: i16, sbs_mode: u16) -> (r: CapacityModeSignedValue)
    ensures
        r == tagged_rate(raw, sbs_mode),
{
    if capacity_mode(sbs_mode) {
        CapacityModeSignedValue::CentiWattSigned(raw)
    } else {
        CapacityModeSignedValue::MilliAmpSigned(raw)
    }
}

/// The raw value to write for a capacity setting: its number when its unit
/// agrees with the mode word, `EINVAL` when it does not.
pub fn raw_capacity_for_mode(sbs_mode: u16, capacity: CapacityModeValue) -> (r: Result<u16, Error>)
    ensures
        capacity_matches_mode(capacity, sbs_mode) ==> r == Ok::<u16, Error>(capacity_number(capacity)),
        !capacity_matches_mode(capacity, sbs_mode) ==> r == Err::<u16, Error>(Error(EINVAL)),
{
    let mode = capacity_mode(sbs_mode);
    match capacity {
        CapacityModeValue::CentiWattUnsigned(value) => {
            if mode {
                Ok(value)
            } else {
                Err(Error(EINVAL))
            }
        },
        CapacityModeValue::MilliAmpUnsigned(value) => {
            if mode {
                Err(Error(EINVAL))
            } else {
                Ok(value)
            }
        },
    }
}

/// The raw value to write for an AtRate setting: its number when its unit
/// agrees with the mode word, `EINVAL` when it does not.
pub fn raw_rate_for_mode(sbs_mode: u16, rate: CapacityModeSignedValue) -> (r: Result<i16, Error>)
    ensures
        rate_matches_mode(rate, sbs_mode) ==> r == Ok::<i16, Error>(rate_number(rate)),
        !rate_matches_mode(rate, sbs_mode) ==> r == Err::<i16, Error>(Error(EINVAL)),
{
    let mode = capacity_mode(sbs_mode);
    match rate {
        CapacityModeSignedValue::CentiWattSigned(value) => {
            if mode {
                Ok(value)
            } else {
                Err(Error(EINVAL))
            }
        },
        CapacityModeSignedValue::MilliAmpSigned(value) => {
            if mode {
                Err(Error(EINVAL))
            } else {
                Ok(value)
            }
        },
    }
}

/// A value narrowed to `u16`, or `EINVAL` where it does not fit.
pub open spec fn narrowed_u16(value: int) -> Result<u16, Error> {
    if 0 <= value <= u16::MAX {
        Ok(value as u16)
    } else {
        Err(Error(EINVAL))
    }
}

/// A value narrowed to `i16`, or `EINVAL` where it does not fit.
pub open spec fn narrowed_i16(value: int) -> Result<i16, Error> {
    if i16::MIN <= value <= i16::MAX {
        Ok(value as i16)
    } else {
        Err(Error(EINVAL))
    }
}

/// Narrows a `u32` reading (minutes, cycles) to `u16`, with `EINVAL` where it
/// does not fit.
pub fn u16_from_u32(value: u32) -> (r: Result<u16, Error>)
    ensures
        r == narrowed_u16(value as int),
        r is Ok <==> value <= 65535,
        r matches Ok(v) ==> v == value,
        r is Err ==> r == Err::<u16, Error>(Error(EINVAL)),
{
    if value <= 0xFFFF {
        Ok(value as u16)
    } else {
        Err(Error(EINVAL))
    }
}

/// Converts an unsigned micro-unit reading (uA, uV, uAh) to milli-units,
/// rounding down, with `EINVAL` where the result does not fit in `u16`.
pub fn milli_from_micro(micro: u32) -> (r: Result<u16, Error>)
    ensures
        r == narrowed_u16(micro as int / 1000),
        r is Ok <==> micro < 65_536_000,
        r matches Ok(v) ==> v * 1000 <= micro < v * 1000 + 1000,
        r is Err ==> r == Err::<u16, Error>(Error(EINVAL)),
{
    u16_from_u32(micro / 1000)
}

/// Converts a voltage in uV to mV, rounding toward zero, with `EINVAL` where
/// the result is negative or does not fit in `u16`.
pub fn millivolts_from_microvolts(microvolts: i32) -> (r: Result<u16, Error>)
    ensures
        r == narrowed_u16(trunc_div(microvolts as int, 1000)),
        r is Ok <==> -1000 < microvolts < 65_536_000,
        r matches Ok(v) ==> (microvolts >= 0 ==> v * 1000 <= microvolts < v * 1000 + 1000),
        r matches Ok(v) ==> (microvolts < 0 ==> v == 0),
        r is Err ==> r == Err::<u16, Error>(Error(EINVAL)),
{
    proof {
        lemma_trunc_div_bounds(microvolts as int, 1000);
    }
    let millivolts: i32 = microvolts / 1000;
    if 0 <= millivolts && millivolts <= 0xFFFF {
        Ok(millivolts as u16)
    } else {
        Err(Error(EINVAL))
    }
}

/// Converts a current in uA to mA, rounding toward zero, with `EINVAL` where
/// the result does not fit in `i16`.
pub fn milliamps_from_microamps(microamps: i32) -> (r: Result<i16, Error>)
    ensures
        r == narrowed_i16(trunc_div(microamps as int, 1000)),
        r is Ok <==> -32_769_000 < microamps < 32_768_000,
        r matches Ok(v) ==> (microamps >= 0 ==> v * 1000 <= microamps < v * 1000 + 1000),
        r matches Ok(v) ==> (microamps < 0 ==> v * 1000 - 1000 < microamps <= v * 1000),
        r is Err ==> r == Err::<i16, Error>(Error(EINVAL)),
{
    proof {
        lemma_trunc_div_bounds(microamps as int, 1000);
    }
    let milliamps: i32 = microamps / 1000;
    if -0x8000 <= milliamps && milliamps <= 0x7FFF {
        Ok(milliamps as i16)
    } else {
        Err(Error(EINVAL))
    }
}

/// What a capacity reading in uAh becomes: a finished value, or, in
/// 10mWh mode, the mAh figure that still needs the battery voltage.
#[derive(Debug, Clone, Copy, PartialEq, Eq, Structural)]
pub enum CapacityReading {
    /// The capacity in the unit that the mode word selects.
    Ready(CapacityModeValue),
    /// The capacity in mAh, to be converted to 10mWh with the battery voltage.
    NeedsVoltage(u16),
}

/// The capacity reading for a capacity in uAh under a mode word: mAh (rounded
/// down) must fit in `u16`, else `EINVAL`; in mA mode it is the finished value,
/// in 10mWh mode it still needs the voltage.
pub open spec fn spec_capacity_reading(micro_amp_hours: u32, sbs_mode: u16) -> Result<CapacityReading, Error> {
    match narrowed_u16(micro_amp_hours as int / 1000) {
        Ok(mah) => if capacity_mode_bit(sbs_mode) {
            Ok(CapacityReading::NeedsVoltage(mah))
        } else {
            Ok(CapacityReading::Ready(CapacityModeValue::MilliAmpUnsigned(mah)))
        },
        Err(e) => Err(e),
    }
}

/// First step of reporting a remaining or full-charge capacity: converts the
/// uAh reading to mAh and decides whether the battery voltage is needed.
pub fn capacity_from_microamp_hours(micro_amp_hours: u32, sbs_mode: u16) -> (r: Result<CapacityReading, Error>)
    ensures
        r == spec_capacity_reading(micro_amp_hours, sbs_mode),
        r is Ok <==> micro_amp_hours < 65_536_000,
        r is Err ==> r == Err::<CapacityReading, Error>(Error(EINVAL)),
        r matches Ok(CapacityReading::Ready(v)) ==> sbs_mode < 0x8000 && v
            is MilliAmpUnsigned && v->MilliAmpUnsigned_0 * 1000 <= micro_amp_hours
            < v->MilliAmpUnsigned_0 * 1000 + 1000,
        r matches Ok(CapacityReading::NeedsVoltage(mah)) ==> sbs_mode >= 0x8000 && mah * 1000
            <= micro_amp_hours < mah * 1000 + 1000,
{
    proof {
        lemma_capacity_mode_bit_is_top_bit(sbs_mode);
    }
    let mah = milli_from_micro(micro_amp_hours)?;
    if capacity_mode(sbs_mode) {
        Ok(CapacityReading::NeedsVoltage(mah))
    } else {
        Ok(CapacityReading::Ready(CapacityModeValue::MilliAmpUnsigned(mah)))
    }
}

/// The energy in 10mWh of a charge in mAh at a voltage in uV:
/// `mAh * uV / 10_000_000`, rounded toward zero.
pub open spec fn spec_centiwatt_hours(milli_amp_hours: u16, microvolts: i32) -> int {
    trunc_div(milli_amp_hours * microvolts, 10_000_000)
}

/// Second step of reporting a capacity in 10mWh mode: converts mAh to 10mWh
/// at the battery voltage, with `EINVAL` where the result is negative or does
/// not fit in `u16`.
pub fn centiwatt_hours(milli_amp_hours: u16, microvolts: i32) -> (r: Result<CapacityModeValue, Error>)
    ensures
        r == (match narrowed_u16(spec_centiwatt_hours(milli_amp_hours, microvolts)) {
            Ok(cwh) => Ok(CapacityModeValue::CentiWattUnsigned(cwh)),
            Err(e) => Err(e),
        }),
        r is Ok <==> -10_000_000 < milli_amp_hours * microvolts < 65_536 * 10_000_000,
        r is Err ==> r == Err::<CapacityModeValue, Error>(Error(EINVAL)),
        r matches Ok(CapacityModeValue::CentiWattUnsigned(c)) ==> c * 10_000_000 - 10_000_000
            < milli_amp_hours * microvolts < c * 10_000_000 + 10_000_000,
        r matches Ok(CapacityModeValue::CentiWattUnsigned(c)) ==> (microvolts >= 0 ==> c
            * 10_000_000 <= milli_amp_hours * microvolts),
        r matches Ok(v) ==> v is CentiWattUnsigned,
{
    proof {
        lemma_centiwatt_hours_energy(milli_amp_hours, microvolts);
    }
    assert(-0x1_0000_0000_0000 <= (milli_amp_hours as int) * (microvolts as int) <= 0x1_0000_0000_0000) by (nonlinear_arith);
    let product: i64 = (milli_amp_hours as i64) * (microvolts as i64);
    let cwh: i64 = product / 10_000_000;
    if 0 <= cwh && cwh <= 0xFFFF {
        Ok(CapacityModeValue::CentiWattUnsigned(cwh as u16))
    } else {
        Err(Error(EINVAL))
    }
}

/// The energy in 10mWh is the charge in mAh times the voltage in uV over
/// 10_000_000, rounded toward zero: for a non-negative voltage it is the
/// largest count of 10mWh not above `mAh * uV / 10^7`, for a negative voltage
/// it is not positive and within one unit of it.
pub proof fn lemma_centiwatt_hours_energy(milli_amp_hours: u16, microvolts: i32)
    ensures
        microvolts >= 0 ==> 0 <= spec_centiwatt_hours(milli_amp_hours, microvolts) * 10_000_000
            <= milli_amp_hours * microvolts < spec_centiwatt_hours(milli_amp_hours, microvolts)
            * 10_000_000 + 10_000_000,
        microvolts < 0 ==> spec_centiwatt_hours(milli_amp_hours, microvolts) * 10_000_000
            - 10_000_000 < milli_amp_hours * microvolts <= spec_centiwatt_hours(
            milli_amp_hours,
            microvolts,
        ) * 10_000_000 <= 0,
{
    let a = milli_amp_hours * microvolts;
    lemma_trunc_div_bounds(a, 10_000_000);
    if microvolts >= 0 {
        assert(a >= 0) by (nonlinear_arith)
            requires
                a == milli_amp_hours * microvolts,
                microvolts >= 0,
                milli_amp_hours >= 0,
        ;
    } else if milli_amp_hours == 0 {
        assert(a == 0);
    } else {
        assert(a < 0) by (nonlinear_arith)
            requires
                a == milli_amp_hours * microvolts,
                microvolts < 0,
                milli_amp_hours > 0,
        ;
    }
}

/// Writing a capacity setting and reading it back under the same mode word
/// gives the setting back.
pub proof fn lemma_capacity_setting_roundtrip(sbs_mode: u16, capacity: CapacityModeValue)
    requires
        capacity_matches_mode(capacity, sbs_mode),
    ensures
        tagged_capacity(capacity_number(capacity), sbs_mode) == capacity,
{
}

/// A capacity read under a mode word is accepted as a setting under the same
/// mode word, and writes back the raw value it was read from.
pub proof fn lemma_capacity_reading_roundtrip(raw: u16, sbs_mode: u16)
    ensures
        capacity_matches_mode(tagged_capacity(raw, sbs_mode), sbs_mode),
        capacity_number(tagged_capacity(raw, sbs_mode)) == raw,
{
}

/// Writing an AtRate setting and reading it back under the same mode word
/// gives the setting back.
pub proof fn lemma_rate_setting_roundtrip(sbs_mode: u16, rate: CapacityModeSignedValue)
    requires
        rate_matches_mode(rate, sbs_mode),
    ensures
        tagged_rate(rate_number(rate), sbs_mode) == rate,
{
}

/// An AtRate value read under a mode word is accepted as a setting under the
/// same mode word, and writes back the raw value it was read from.
pub proof fn lemma_rate_reading_roundtrip(raw: i16, sbs_mode: u16)
    ensures
        rate_matches_mode(tagged_rate(raw, sbs_mode), sbs_mode),
        rate_number(tagged_rate(raw, sbs_mode)) == raw,
{
}

} // verus!
