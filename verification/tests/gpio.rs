use riot_rs_embassy::gpio::input::InputBuilder;
use riot_rs_embassy::gpio::output::OutputBuilder;
use riot_rs_embassy::gpio::{DriveStrength, FromDriveStrength, FromSpeed, Level, Pull, Speed};
use riot_rs_embassy::esp::gpio::{DriveStrength as EspDriveStrength, Esp, Speed as EspSpeed};
use riot_rs_embassy::hal_esp::gpio::{DriveStrength as C6DriveStrength, Esp32c6};
use riot_rs_embassy::nrf::gpio::{output_drive, DriveStrength as NrfDriveStrength, Nrf, OutputDrive};
use riot_rs_embassy::rp2040::gpio::DriveStrength as RpDriveStrength;
use riot_rs_embassy::stm32::gpio::{DriveStrength as StmDriveStrength, Speed as StmSpeed, Stm32};

#[test]
fn level_and_bool() {
    assert_eq!(Level::from_bool(true), Level::High);
    assert_eq!(Level::from_bool(false), Level::Low);
    assert!(Level::High.into_bool());
    assert!(!Level::Low.into_bool());
    assert_eq!(Level::from_bool(Level::High.into_bool()), Level::High);
}

#[test]
fn portable_defaults() {
    assert_eq!(DriveStrength::<EspDriveStrength>::default(), DriveStrength::Standard);
    assert_eq!(Speed::<StmSpeed>::default(), Speed::Low);
}

#[test]
fn esp_drive_strength_mapping() {
    assert_eq!(<EspDriveStrength as FromDriveStrength>::from(DriveStrength::Lowest), EspDriveStrength::_5mA);
    assert_eq!(<EspDriveStrength as FromDriveStrength>::from(DriveStrength::Standard), EspDriveStrength::_10mA);
    assert_eq!(<EspDriveStrength as FromDriveStrength>::from(DriveStrength::Medium), EspDriveStrength::_10mA);
    assert_eq!(<EspDriveStrength as FromDriveStrength>::from(DriveStrength::High), EspDriveStrength::_20mA);
    assert_eq!(<EspDriveStrength as FromDriveStrength>::from(DriveStrength::Highest), EspDriveStrength::_40mA);
    assert_eq!(
        <EspDriveStrength as FromDriveStrength>::from(DriveStrength::Arch(EspDriveStrength::_40mA)),
        EspDriveStrength::_40mA
    );
    assert_eq!(<EspSpeed as FromSpeed>::from(Speed::VeryHigh), EspSpeed::UnsupportedByArchitecture);
    assert_eq!(<C6DriveStrength as FromDriveStrength>::from(DriveStrength::High), C6DriveStrength::_20mA);
}

#[test]
fn nrf_drive_strength_mapping() {
    assert_eq!(<NrfDriveStrength as FromDriveStrength>::from(DriveStrength::Lowest), NrfDriveStrength::Standard);
    assert_eq!(<NrfDriveStrength as FromDriveStrength>::from(DriveStrength::Standard), NrfDriveStrength::Standard);
    assert_eq!(<NrfDriveStrength as FromDriveStrength>::from(DriveStrength::Medium), NrfDriveStrength::Standard);
    assert_eq!(<NrfDriveStrength as FromDriveStrength>::from(DriveStrength::High), NrfDriveStrength::High);
    assert_eq!(<NrfDriveStrength as FromDriveStrength>::from(DriveStrength::Highest), NrfDriveStrength::High);
    assert_eq!(NrfDriveStrength::default(), NrfDriveStrength::Standard);
    assert_eq!(output_drive(NrfDriveStrength::High), OutputDrive::HighDrive);
    assert_eq!(output_drive(NrfDriveStrength::Standard), OutputDrive::Standard);
}

#[test]
fn rp2040_drive_strength_mapping() {
    assert_eq!(RpDriveStrength::default(), RpDriveStrength::_4mA);
    assert_eq!(<RpDriveStrength as FromDriveStrength>::from(DriveStrength::Lowest), RpDriveStrength::_2mA);
    assert_eq!(<RpDriveStrength as FromDriveStrength>::from(DriveStrength::Standard), RpDriveStrength::_4mA);
    assert_eq!(<RpDriveStrength as FromDriveStrength>::from(DriveStrength::Medium), RpDriveStrength::_8mA);
    assert_eq!(<RpDriveStrength as FromDriveStrength>::from(DriveStrength::High), RpDriveStrength::_12mA);
    assert_eq!(<RpDriveStrength as FromDriveStrength>::from(DriveStrength::Highest), RpDriveStrength::_12mA);
}

#[test]
fn stm32_speed_mapping() {
    assert_eq!(<StmSpeed as FromSpeed>::from(Speed::Low), StmSpeed::Low);
    assert_eq!(<StmSpeed as FromSpeed>::from(Speed::Medium), StmSpeed::Medium);
    assert_eq!(<StmSpeed as FromSpeed>::from(Speed::High), StmSpeed::High);
    assert_eq!(<StmSpeed as FromSpeed>::from(Speed::VeryHigh), StmSpeed::VeryHigh);
    assert_eq!(<StmSpeed as FromSpeed>::from(Speed::Arch(StmSpeed::Medium)), StmSpeed::Medium);
    assert_eq!(
        <StmDriveStrength as FromDriveStrength>::from(DriveStrength::Highest),
        StmDriveStrength::UnsupportedByArchitecture
    );
}

#[test]
fn input_builder_settings() {
    let builder: InputBuilder<Nrf, u8> = InputBuilder::new(7u8, Pull::Up);
    let config = builder.opt_schmitt_trigger(true).build();
    assert_eq!(config.pin, 7);
    assert_eq!(config.pull, Pull::Up);
    // The Schmitt trigger is not configurable on this architecture: the request is ignored.
    assert!(!config.schmitt_trigger);
}

#[test]
fn output_builder_on_nrf() {
    let builder: OutputBuilder<Nrf, u8> = OutputBuilder::new(3u8, Level::High);
    let config = builder.drive_strength(DriveStrength::Highest).opt_speed(Speed::High).build();
    assert_eq!(config.pin, 3);
    assert_eq!(config.initial_level, Level::High);
    assert_eq!(config.drive_strength, NrfDriveStrength::High);
}

#[test]
fn output_builder_on_stm32() {
    let builder: OutputBuilder<Stm32, u8> = OutputBuilder::new(1u8, Level::Low);
    let config = builder.opt_drive_strength(DriveStrength::Highest).speed(Speed::VeryHigh).build();
    assert_eq!(config.drive_strength, StmDriveStrength::UnsupportedByArchitecture);
    assert_eq!(config.speed, StmSpeed::VeryHigh);
    assert_eq!(config.initial_level, Level::Low);
}

#[test]
fn output_builder_defaults_on_esp() {
    let builder: OutputBuilder<Esp, u8> = OutputBuilder::new(2u8, Level::Low);
    // Neither setting is configurable on this architecture: both requests are ignored.
    let config = builder.opt_drive_strength(DriveStrength::Lowest).opt_speed(Speed::High).build();
    assert_eq!(config.drive_strength, EspDriveStrength::_10mA);
    assert_eq!(config.speed, EspSpeed::UnsupportedByArchitecture);
    let builder: OutputBuilder<Esp32c6, u8> = OutputBuilder::new(2u8, Level::Low);
    let config = builder.opt_drive_strength(DriveStrength::Lowest).build();
    assert_eq!(config.drive_strength, C6DriveStrength::_5mA);
}
