use riot_rs_embassy::hal_esp::usb::Peripherals as UsbPeripherals;
use riot_rs_embassy::hal_esp::wifi::{action, first_step, next, Action, Event, Step, RECONNECT_PAUSE_MS};
use riot_rs_embassy::sendcell::SendCell;
use riot_rs_embassy::spi::{BitOrder, Mode, Phase, Polarity};
use riot_rs_embassy::usb::config;

#[test]
fn spi_modes_polarity_and_phase() {
    use_modes(riot_rs_embassy::rp2040::spi::polarity_and_phase);
    use_modes(riot_rs_embassy::stm32::spi::polarity_and_phase);
    assert_eq!(
        riot_rs_embassy::nrf::spi::Mode::Mode2.polarity_and_phase(),
        (Polarity::IdleHigh, Phase::CaptureOnFirstTransition)
    );
    assert_eq!(BitOrder::default(), BitOrder::MsbFirst);
}

fn use_modes(f: fn(Mode) -> (Polarity, Phase)) {
    assert_eq!(f(Mode::Mode0), (Polarity::IdleLow, Phase::CaptureOnFirstTransition));
    assert_eq!(f(Mode::Mode1), (Polarity::IdleLow, Phase::CaptureOnSecondTransition));
    assert_eq!(f(Mode::Mode2), (Polarity::IdleHigh, Phase::CaptureOnFirstTransition));
    assert_eq!(f(Mode::Mode3), (Polarity::IdleHigh, Phase::CaptureOnSecondTransition));
}

#[test]
fn wifi_connection_steps() {
    let step = first_step();
    assert_eq!(action(step), Action::QueryState);
    // Not connected, driver not started: configure and start, then connect.
    let step = next(step, Event::State(false));
    assert_eq!(action(step), Action::QueryStarted);
    let step = next(step, Event::Started(false));
    assert_eq!(action(step), Action::ConfigureAndStart);
    let step = next(step, Event::Done);
    assert_eq!(action(step), Action::Connect);
    // A failed attempt is followed by a pause, then a fresh state query.
    let step = next(step, Event::Connected(false));
    assert_eq!(action(step), Action::Sleep(RECONNECT_PAUSE_MS));
    assert_eq!(RECONNECT_PAUSE_MS, 5000);
    let step = next(step, Event::Done);
    assert_eq!(step, Step::QueryState);
    // Connected: wait for the disconnection, pause, then check that the driver is started.
    let step = next(step, Event::State(true));
    assert_eq!(action(step), Action::WaitForDisconnection);
    let step = next(step, Event::Done);
    assert_eq!(action(step), Action::Sleep(5000));
    let step = next(step, Event::Done);
    assert_eq!(step, Step::QueryStarted);
    // Already started: connect straight away; success leads back to the state query.
    let step = next(step, Event::Started(true));
    assert_eq!(step, Step::Connect);
    assert_eq!(next(step, Event::Connected(true)), Step::QueryState);
}

#[test]
fn send_cell_checks_the_executor() {
    let cell = SendCell::with_executor_id(42u32, 7);
    assert_eq!(cell.get_with_executor_id(7), Some(&42));
    assert_eq!(cell.get_with_executor_id(8), None);
}

#[test]
fn default_usb_config() {
    let c = config();
    assert_eq!((c.vendor_id, c.product_id), (0xc0de, 0xcafe));
    assert_eq!(c.manufacturer, Some("Embassy"));
    assert_eq!(c.product, Some("USB-Ethernet example"));
    assert_eq!(c.serial_number, Some("12345678"));
    assert_eq!(c.max_power, 100);
    assert_eq!(c.max_packet_size_0, 64);
    assert!(c.composite_with_iads);
    assert_eq!((c.device_class, c.device_sub_class, c.device_protocol), (0xEF, 0x02, 0x01));
}

#[test]
fn usb_peripherals_are_taken() {
    let mut usb0 = Some(1u8);
    let mut gpio_20 = Some(20u8);
    let mut gpio_19 = Some(19u8);
    let p = UsbPeripherals::new(&mut usb0, &mut gpio_20, &mut gpio_19);
    assert_eq!((usb0, gpio_20, gpio_19), (None, None, None));
    assert_eq!(p.into_parts(), (1, 20, 19));
}

#[test]
fn bus_peripherals_are_taken() {
    let mut i2c0 = Some(());
    let mut i2c1 = Some(());
    riot_rs_embassy::rp2040::i2c::init(&mut i2c0, &mut i2c1);
    assert!(i2c0.is_none() && i2c1.is_none());
    let mut spi2 = Some(2u8);
    riot_rs_embassy::hal_esp::spi::init(&mut spi2);
    assert_eq!(spi2, None);
}

#[test]
fn configuration_defaults() {
    assert_eq!(
        riot_rs_embassy::hal_esp::i2c::controller::Config::default().frequency,
        riot_rs_embassy::hal_esp::i2c::controller::Frequency::_100k
    );
    assert_eq!(riot_rs_embassy::esp::i2c::Config::default().frequency, riot_rs_embassy::esp::i2c::Frequency::K100);
    let c = riot_rs_embassy::stm32::i2c::Config::default();
    assert!(!c.sda_pullup && !c.scl_pullup);
    assert_eq!(c.frequency, riot_rs_embassy::stm32::i2c::Frequency::_100k);
    assert_eq!(riot_rs_embassy::rp2040::spi::Config::default().frequency, riot_rs_embassy::rp2040::spi::Frequency::_1M);
    assert_eq!(riot_rs_embassy::stm32::spi::Config::default().mode, Mode::Mode0);
    assert_eq!(riot_rs_embassy::esp::spi::Config::default().frequency, riot_rs_embassy::esp::spi::Frequency::M1);
    let n = riot_rs_embassy::nrf::i2c::Config::default();
    assert_eq!(n.frequency, riot_rs_embassy::nrf::i2c::Frequency::K100);
    assert!(!n.sda_pullup && !n.scl_pullup && !n.sda_high_drive && !n.scl_high_drive);
    let n = riot_rs_embassy::nrf::spi::Config::default();
    assert_eq!(n.frequency, riot_rs_embassy::nrf::spi::Frequency::M1);
    assert_eq!(n.mode, riot_rs_embassy::nrf::spi::Mode::Mode0);
    assert_eq!(n.bit_order, riot_rs_embassy::nrf::spi::BitOrder::MsbFirst);
}

#[test]
fn stand_in_architecture() {
    use_stand_ins();
}

fn use_stand_ins() {
    let p: riot_rs_embassy::arch::OptionalPeripherals = riot_rs_embassy::arch::Peripherals.into();
    assert_eq!(p, riot_rs_embassy::arch::OptionalPeripherals);
    assert_eq!(riot_rs_embassy::arch::executor::Executor::new(), riot_rs_embassy::arch::executor::Executor);
    assert!(!riot_rs_embassy::arch::gpio::input::SCHMITT_TRIGGER_CONFIGURABLE);
    assert!(!riot_rs_embassy::arch::gpio::output::DRIVE_STRENGTH_CONFIGURABLE);
    assert!(!riot_rs_embassy::arch::gpio::output::SPEED_CONFIGURABLE);
}

#[test]
fn wifi_client_config_holds_the_given_network() {
    let config = riot_rs_embassy::hal_esp::wifi::client_config("home", "secret passphrase").unwrap();
    assert_eq!(config.network, "home");
    assert_eq!(config.password, "secret passphrase");
}

#[test]
fn wifi_client_config_refuses_overlong_strings() {
    let name_32 = "n".repeat(32);
    let name_33 = "n".repeat(33);
    let password_64 = "p".repeat(64);
    let password_65 = "p".repeat(65);
    assert!(riot_rs_embassy::hal_esp::wifi::client_config(&name_32, &password_64).is_ok());
    assert_eq!(
        riot_rs_embassy::hal_esp::wifi::client_config(&name_33, &password_64).unwrap_err(),
        riot_rs_embassy::hal_esp::wifi::ConfigError::NetworkTooLong
    );
    assert_eq!(
        riot_rs_embassy::hal_esp::wifi::client_config(&name_33, &password_65).unwrap_err(),
        riot_rs_embassy::hal_esp::wifi::ConfigError::NetworkTooLong
    );
    assert_eq!(
        riot_rs_embassy::hal_esp::wifi::client_config(&name_32, &password_65).unwrap_err(),
        riot_rs_embassy::hal_esp::wifi::ConfigError::PasswordTooLong
    );
}

#[test]
fn usb_ethernet_and_network_settings() {
    assert_eq!(riot_rs_embassy::usb::host_mac_address(), [0x8A, 0x88, 0x88, 0x88, 0x88, 0x88]);
    assert_eq!(riot_rs_embassy::usb::device_mac_address(), [0xCA, 0xCC, 0xCC, 0xCC, 0xCC, 0xCC]);
    assert_eq!(riot_rs_embassy::usb::CONFIG_DESCRIPTOR_LEN, 256);
    assert_eq!(riot_rs_embassy::usb::BOS_DESCRIPTOR_LEN, 256);
    assert_eq!(riot_rs_embassy::usb::MSOS_DESCRIPTOR_LEN, 128);
    assert_eq!(riot_rs_embassy::usb::CONTROL_BUFFER_LEN, 128);
    assert_eq!(riot_rs_embassy::usb::NCM_MAX_PACKET_SIZE, 64);
    assert_eq!(riot_rs_embassy::usb::NCM_RX_QUEUE_LEN, 4);
    assert_eq!(riot_rs_embassy::usb::NCM_TX_QUEUE_LEN, 4);
    assert_eq!(riot_rs_embassy::network::ETHERNET_MTU, 1514);
    assert_eq!(riot_rs_embassy::network::MAX_CONCURRENT_SOCKETS, 4);
    assert_eq!(riot_rs_embassy::network::RANDOM_SEED, 1234);
}
