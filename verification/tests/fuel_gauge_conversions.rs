use zephyr::battery::{design_capacity_alarm_levels, max_error_or_zero, BatteryServiceWrapperError};
use zephyr::error::{to_result, to_result_void, Error, EINVAL, ENOTSUP};
use zephyr::fuel_gauge::{
    capacity_from_microamp_hours, capacity_mode, capacity_mode_signed_value, capacity_mode_value,
    centiwatt_hours, milli_from_micro, milliamps_from_microamps, millivolts_from_microvolts,
    raw_capacity_for_mode, raw_rate_for_mode, u16_from_u32, CapacityModeSignedValue,
    CapacityModeValue, CapacityReading,
};

const CWH_MODE: u16 = 0x8000;
const MA_MODE: u16 = 0x7FFF;

#[test]
fn capacity_mode_reads_bit_15() {
    assert!(capacity_mode(0x8000));
    assert!(capacity_mode(0xFFFF));
    assert!(!capacity_mode(0x7FFF));
    assert!(!capacity_mode(0));
}

#[test]
fn capacity_value_follows_mode() {
    assert_eq!(capacity_mode_value(500, CWH_MODE), CapacityModeValue::CentiWattUnsigned(500));
    assert_eq!(capacity_mode_value(500, MA_MODE), CapacityModeValue::MilliAmpUnsigned(500));
    assert_eq!(capacity_mode_signed_value(-7, CWH_MODE), CapacityModeSignedValue::CentiWattSigned(-7));
    assert_eq!(capacity_mode_signed_value(-7, 0), CapacityModeSignedValue::MilliAmpSigned(-7));
}

#[test]
fn capacity_setting_must_match_mode() {
    assert_eq!(raw_capacity_for_mode(CWH_MODE, CapacityModeValue::CentiWattUnsigned(9)), Ok(9));
    assert_eq!(raw_capacity_for_mode(0, CapacityModeValue::MilliAmpUnsigned(9)), Ok(9));
    assert_eq!(raw_capacity_for_mode(0, CapacityModeValue::CentiWattUnsigned(9)), Err(Error(EINVAL)));
    assert_eq!(raw_capacity_for_mode(CWH_MODE, CapacityModeValue::MilliAmpUnsigned(9)), Err(Error(EINVAL)));
    assert_eq!(raw_rate_for_mode(CWH_MODE, CapacityModeSignedValue::CentiWattSigned(-3)), Ok(-3));
    assert_eq!(raw_rate_for_mode(0, CapacityModeSignedValue::MilliAmpSigned(-3)), Ok(-3));
    assert_eq!(raw_rate_for_mode(0, CapacityModeSignedValue::CentiWattSigned(-3)), Err(Error(EINVAL)));
    assert_eq!(raw_rate_for_mode(CWH_MODE, CapacityModeSignedValue::MilliAmpSigned(-3)), Err(Error(EINVAL)));
}

#[test]
fn capacity_setting_roundtrip() {
    for mode in [0u16, CWH_MODE, 0xA5A5, 0x1234] {
        for raw in [0u16, 1, 4000, u16::MAX] {
            let read = capacity_mode_value(raw, mode);
            assert_eq!(raw_capacity_for_mode(mode, read), Ok(raw));
            let rate = capacity_mode_signed_value(raw as i16, mode);
            assert_eq!(raw_rate_for_mode(mode, rate), Ok(raw as i16));
        }
    }
}

#[test]
fn voltage_conversion() {
    assert_eq!(millivolts_from_microvolts(3_700_999), Ok(3700));
    assert_eq!(millivolts_from_microvolts(65_535_999), Ok(65535));
    assert_eq!(millivolts_from_microvolts(65_536_000), Err(Error(EINVAL)));
    assert_eq!(millivolts_from_microvolts(-999), Ok(0));
    assert_eq!(millivolts_from_microvolts(-1000), Err(Error(EINVAL)));
}

#[test]
fn current_conversion() {
    assert_eq!(milliamps_from_microamps(-1_500), Ok(-1));
    assert_eq!(milliamps_from_microamps(2_000_000), Ok(2000));
    assert_eq!(milliamps_from_microamps(-32_768_999), Ok(-32768));
    assert_eq!(milliamps_from_microamps(-32_769_000), Err(Error(EINVAL)));
    assert_eq!(milliamps_from_microamps(32_768_000), Err(Error(EINVAL)));
}

#[test]
fn unsigned_milli_conversion() {
    assert_eq!(milli_from_micro(1_999), Ok(1));
    assert_eq!(milli_from_micro(65_535_999), Ok(65535));
    assert_eq!(milli_from_micro(65_536_000), Err(Error(EINVAL)));
    assert_eq!(u16_from_u32(65535), Ok(65535));
    assert_eq!(u16_from_u32(65536), Err(Error(EINVAL)));
}

#[test]
fn capacity_in_milliamp_hours_mode() {
    assert_eq!(
        capacity_from_microamp_hours(4_200_500, 0),
        Ok(CapacityReading::Ready(CapacityModeValue::MilliAmpUnsigned(4200)))
    );
    assert_eq!(capacity_from_microamp_hours(70_000_000, 0), Err(Error(EINVAL)));
    assert_eq!(capacity_from_microamp_hours(70_000_000, CWH_MODE), Err(Error(EINVAL)));
}

#[test]
fn capacity_in_centiwatt_hours_mode() {
    assert_eq!(
        capacity_from_microamp_hours(3_000_000, CWH_MODE),
        Ok(CapacityReading::NeedsVoltage(3000))
    );
    assert_eq!(centiwatt_hours(3000, 3_700_000), Ok(CapacityModeValue::CentiWattUnsigned(1110)));
    assert_eq!(centiwatt_hours(3000, -3_700_000), Err(Error(EINVAL)));
    assert_eq!(centiwatt_hours(65535, i32::MAX), Err(Error(EINVAL)));
    assert_eq!(centiwatt_hours(0, i32::MIN), Ok(CapacityModeValue::CentiWattUnsigned(0)));
}

#[test]
fn zephyr_codes_to_results() {
    assert_eq!(to_result(5), Ok(5));
    assert_eq!(to_result(-22), Err(Error(22)));
    assert_eq!(to_result(i32::MIN), Err(Error(2_147_483_648)));
    assert_eq!(to_result_void(0), Ok(()));
    assert_eq!(to_result_void(-134), Err(Error(ENOTSUP)));
}

#[test]
fn wrapper_error_from_zephyr_error() {
    let e: BatteryServiceWrapperError = Error(EINVAL).into();
    assert_eq!(e, BatteryServiceWrapperError::ZephyrError(Error(22)));
}

#[test]
fn design_capacity_levels() {
    let (warning, low) = design_capacity_alarm_levels(CapacityModeValue::MilliAmpUnsigned(5000));
    assert_eq!(warning, CapacityModeValue::MilliAmpUnsigned(1250));
    assert_eq!(low, CapacityModeValue::MilliAmpUnsigned(500));
    let (warning, low) = design_capacity_alarm_levels(CapacityModeValue::CentiWattUnsigned(7));
    assert_eq!(warning, CapacityModeValue::MilliAmpUnsigned(1));
    assert_eq!(low, CapacityModeValue::MilliAmpUnsigned(0));
}

#[test]
fn max_error_falls_back_to_zero() {
    assert_eq!(max_error_or_zero(Ok(3)), 3);
    assert_eq!(max_error_or_zero(Err(Error(ENOTSUP))), 0);
}
