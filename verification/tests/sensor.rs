use riot_rs_embassy::nrf::internal_temp::{
    InternalTemp, Notification, PhysicalUnit, PhysicalValue, ReadingError, ThresholdKind, MAX_RAW_READING,
};

#[test]
fn internal_temp_initializes_once() {
    let mut sensor = InternalTemp::new();
    assert!(!sensor.enabled());
    assert!(sensor.init());
    assert!(sensor.enabled());
    sensor.set_enabled(false);
    // A second initialization does nothing, and in particular does not re-enable the sensor.
    assert!(!sensor.init());
    assert!(!sensor.enabled());
}

#[test]
fn internal_temp_reading() {
    let mut sensor = InternalTemp::new();
    assert_eq!(sensor.read(100), Err(ReadingError::Disabled));
    sensor.init();
    // 25.25 °C, read as 101 quarters of a degree, is reported as 2525 hundredths.
    assert_eq!(sensor.read(101), Ok(PhysicalValue { value: 2525 }));
    assert_eq!(sensor.read(-3), Ok(PhysicalValue { value: -75 }));
    assert_eq!(sensor.read(MAX_RAW_READING), Ok(PhysicalValue { value: 25 * MAX_RAW_READING }));
    assert_eq!(InternalTemp::value_scale(), -2);
    assert_eq!(InternalTemp::unit(), PhysicalUnit::Celsius);
    assert_eq!(InternalTemp::display_name(), Some("Internal temperature sensor"));
    assert_eq!(InternalTemp::part_number(), "nrf52 internal temperature sensor");
    assert_eq!(InternalTemp::version(), 0);
}

#[test]
fn internal_temp_lower_threshold() {
    let mut sensor = InternalTemp::new();
    sensor.init();
    sensor.set_threshold(ThresholdKind::Lower, PhysicalValue { value: 2000 });
    let hot = sensor.read(100);
    // Not watched yet.
    assert_eq!(sensor.threshold_notification(hot), None);
    sensor.set_threshold_enabled(ThresholdKind::Lower, true);
    assert_eq!(sensor.threshold_notification(hot), Some(Notification::Threshold(ThresholdKind::Lower)));
    // At the threshold itself, nothing is sent.
    assert_eq!(sensor.threshold_notification(sensor.read(80)), None);
    assert_eq!(sensor.threshold_notification(Err(ReadingError::Disabled)), None);
    // Other thresholds are not supported and change nothing.
    sensor.set_threshold(ThresholdKind::Higher, PhysicalValue { value: 9000 });
    sensor.set_threshold_enabled(ThresholdKind::Higher, false);
    assert_eq!(sensor.threshold_notification(hot), Some(Notification::Threshold(ThresholdKind::Lower)));
}

#[test]
fn portable_frequencies_into_architecture_frequencies() {
    use_i2c();
    use_spi();
}

fn use_i2c() {
    let f: riot_rs_embassy::stm32::i2c::Frequency = riot_rs_embassy::i2c::Frequency::_400k.into();
    assert_eq!(f, riot_rs_embassy::stm32::i2c::Frequency::_400k);
    let f: riot_rs_embassy::stm32::i2c::Frequency =
        riot_rs_embassy::i2c::Frequency::Arch(riot_rs_embassy::stm32::i2c::Frequency::_250k).into();
    assert_eq!(f, riot_rs_embassy::stm32::i2c::Frequency::_250k);
}

fn use_spi() {
    let f: riot_rs_embassy::rp2040::spi::Frequency = riot_rs_embassy::spi::Frequency::_8M.into();
    assert_eq!(f, riot_rs_embassy::rp2040::spi::Frequency::_8M);
    let f: riot_rs_embassy::rp2040::spi::Frequency =
        riot_rs_embassy::spi::Frequency::Arch(riot_rs_embassy::rp2040::spi::Frequency::_32M).into();
    assert_eq!(f, riot_rs_embassy::rp2040::spi::Frequency::_32M);
}
