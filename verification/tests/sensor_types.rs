use zephyr::sensor::{SensorChannel, SensorError, SensorValue};

#[test]
fn sensor_value_new_keeps_parts() {
    let v = SensorValue::new(42, 123_456);
    assert_eq!(v.val1, 42);
    assert_eq!(v.val2, 123_456);
}

#[test]
fn from_millicelsius_positive() {
    let t = SensorValue::from_millicelsius(25_500);
    assert_eq!(t.val1, 25);
    assert_eq!(t.val2, 500_000);
}

#[test]
fn from_millicelsius_negative_keeps_sign() {
    let t = SensorValue::from_millicelsius(-25_500);
    assert_eq!(t.val1, -25);
    assert_eq!(t.val2, -500_000);
    let u = SensorValue::from_millicelsius(-999);
    assert_eq!(u.val1, 0);
    assert_eq!(u.val2, -999_000);
}

#[test]
fn from_millicelsius_preserves_value_in_micro_units() {
    for mc in [i32::MIN, -1_000_001, -1, 0, 1, 999, 1000, 123_456, i32::MAX] {
        let v = SensorValue::from_millicelsius(mc);
        assert_eq!(v.val1 as i64 * 1_000_000 + v.val2 as i64, mc as i64 * 1000);
        assert!(v.val2 > -1_000_000 && v.val2 < 1_000_000);
    }
}

#[test]
fn channel_from_known_code() {
    assert_eq!(SensorChannel::from(13), SensorChannel::AmbientTemp);
    assert_eq!(SensorChannel::from(25), SensorChannel::Distance);
    assert_eq!(SensorChannel::from(0), SensorChannel::All);
}

#[test]
fn channel_from_unknown_code_is_all() {
    assert_eq!(SensorChannel::from(999), SensorChannel::All);
    assert_eq!(SensorChannel::from(6), SensorChannel::All);
    assert_eq!(SensorChannel::from(-1), SensorChannel::All);
}

#[test]
fn channel_code_roundtrip() {
    let all = [
        SensorChannel::All,
        SensorChannel::Red,
        SensorChannel::Green,
        SensorChannel::Blue,
        SensorChannel::Intensity,
        SensorChannel::Ir,
        SensorChannel::AmbientTemp,
        SensorChannel::DieTemp,
        SensorChannel::Accel,
        SensorChannel::Gyro,
        SensorChannel::Magn,
        SensorChannel::Humidity,
        SensorChannel::Pressure,
        SensorChannel::Prox,
        SensorChannel::Distance,
    ];
    for c in all {
        assert_eq!(SensorChannel::from(c.code()), c);
    }
    assert_eq!(SensorChannel::AmbientTemp.code(), 13);
}

#[test]
fn sensor_error_errno_values() {
    assert_eq!(SensorError::IoError.to_errno(), -5);
    assert_eq!(SensorError::NotReady.to_errno(), -19);
    assert_eq!(SensorError::InvalidChannel.to_errno(), -22);
    assert_eq!(SensorError::InvalidArgument.to_errno(), -22);
    assert_eq!(SensorError::NotSupported.to_errno(), -95);
}
