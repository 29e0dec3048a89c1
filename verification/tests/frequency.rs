use riot_rs_embassy::arch;
use riot_rs_embassy::hal_esp;
use riot_rs_embassy::i2c::controller::{highest_freq_in, kHz};
use riot_rs_embassy::spi::main::highest_freq_in as spi_highest_freq_in;
use riot_rs_embassy::spi::Kilohertz;
use riot_rs_embassy::arch::spi::main::Frequency as SpiFrequency;
use riot_rs_embassy::hal_esp::i2c::controller::Frequency as I2cFrequency;
use riot_rs_embassy::hal_esp::spi::main::Frequency as EspSpiFrequency;

#[test]
fn test_valid_highest_freq_in() {
    let freq_0 = highest_freq_in(kHz(50)..=kHz(150));
    let freq_1 = highest_freq_in(kHz(100)..=kHz(100));
    let freq_2 = highest_freq_in(kHz(50)..=kHz(100));
    let freq_3 = highest_freq_in(kHz(50)..=kHz(400));
    let freq_4 = highest_freq_in(kHz(100)..=kHz(400));
    let freq_5 = highest_freq_in(kHz(300)..=kHz(400));
    let freq_6 = highest_freq_in(kHz(100)..=kHz(450));
    let freq_7 = highest_freq_in(kHz(300)..=kHz(450));

    // The only available values in the dummy arch are 100k and 400k.
    assert_eq!(freq_0, arch::i2c::controller::Frequency::_100k);
    assert_eq!(freq_1, arch::i2c::controller::Frequency::_100k);
    assert_eq!(freq_2, arch::i2c::controller::Frequency::_100k);
    assert_eq!(freq_3, arch::i2c::controller::Frequency::_400k);
    assert_eq!(freq_4, arch::i2c::controller::Frequency::_400k);
    assert_eq!(freq_5, arch::i2c::controller::Frequency::_400k);
    assert_eq!(freq_6, arch::i2c::controller::Frequency::_400k);
    assert_eq!(freq_7, arch::i2c::controller::Frequency::_400k);
}

#[test]
fn mod_test_valid_highest_freq_in() {

    let freq_0 = spi_highest_freq_in(Kilohertz::kHz(50)..=Kilohertz::kHz(150));
    let freq_1 = spi_highest_freq_in(Kilohertz::kHz(100)..=Kilohertz::MHz(8));
    let freq_2 = spi_highest_freq_in(Kilohertz::MHz(8)..=Kilohertz::MHz(10));

    assert_eq!(freq_0, arch::spi::main::Frequency::F(Kilohertz::kHz(150)));
    assert_eq!(freq_1, arch::spi::main::Frequency::F(Kilohertz::MHz(8)));
    assert_eq!(freq_2, arch::spi::main::Frequency::F(Kilohertz::MHz(8)));
}

#[test]
fn i2c_highest_freq_in_exact_bounds() {
    // The upper bound is inclusive.
    assert_eq!(highest_freq_in(kHz(400)..=kHz(400)), hal_esp::i2c::controller::Frequency::_400k);
    assert_eq!(highest_freq_in(kHz(0)..=kHz(399)), hal_esp::i2c::controller::Frequency::_100k);
    assert_eq!(highest_freq_in(kHz(101)..=kHz(u32::MAX)), hal_esp::i2c::controller::Frequency::_400k);
}

#[test]
fn spi_highest_freq_in_lower_bound_zero_and_above_max() {

    assert_eq!(spi_highest_freq_in(Kilohertz::kHz(0)..=Kilohertz::kHz(1)).khz(), 1);
    assert_eq!(spi_highest_freq_in(Kilohertz::kHz(1)..=Kilohertz::MHz(100)), arch::spi::main::Frequency::F(Kilohertz::kHz(8000)));
    assert_eq!(spi_highest_freq_in(Kilohertz::kHz(7999)..=Kilohertz::kHz(7999)).khz(), 7999);
}

#[test]
fn i2c_frequency_order() {
    assert_eq!(I2cFrequency::first(), I2cFrequency::_100k);
    assert_eq!(I2cFrequency::last(), I2cFrequency::_400k);
    assert_eq!(I2cFrequency::_100k.next(), Some(I2cFrequency::_400k));
    assert_eq!(I2cFrequency::_400k.next(), None);
    assert_eq!(I2cFrequency::_400k.prev(), Some(I2cFrequency::_100k));
    assert_eq!(I2cFrequency::_100k.prev(), None);
    assert_eq!(I2cFrequency::_100k.khz(), 100);
    assert_eq!(I2cFrequency::_400k.khz(), 400);
    assert_eq!(I2cFrequency::_400k.to_hertz(), 400_000);
    assert_eq!(I2cFrequency::_100k.next().unwrap().prev(), Some(I2cFrequency::_100k));
}

#[test]
fn spi_frequency_order() {
    assert_eq!(SpiFrequency::first().khz(), 1);
    assert_eq!(SpiFrequency::last().khz(), 8000);
    assert_eq!(SpiFrequency::first().prev(), None);
    assert_eq!(SpiFrequency::last().next(), None);
    let f = SpiFrequency::F(Kilohertz::MHz(2));
    assert_eq!(f.next().unwrap().khz(), 2001);
    assert_eq!(f.prev().unwrap().khz(), 1999);
    assert_eq!(f.next().unwrap().prev().unwrap(), f);
    assert_eq!(SpiFrequency::F(Kilohertz::kHz(0)).prev(), None);
    assert_eq!(SpiFrequency::F(Kilohertz::kHz(0)).next().unwrap().khz(), 1);
}

#[test]
fn esp_spi_frequency_maximum() {
    assert_eq!(EspSpiFrequency::last().khz(), 80_000);
    assert_eq!(EspSpiFrequency::F(Kilohertz::MHz(80)).next(), None);
    assert_eq!(EspSpiFrequency::F(Kilohertz::kHz(79_999)).next(), Some(EspSpiFrequency::F(Kilohertz::MHz(80))));
    let config = hal_esp::spi::main::Config::default();
    assert_eq!(config.frequency, EspSpiFrequency::F(Kilohertz::kHz(80_000)));
}

#[test]
fn kilohertz_units() {
    assert_eq!(Kilohertz::MHz(8).to_kHz(), 8000);
    assert_eq!(Kilohertz::kHz(125).to_kHz(), 125);
    assert_eq!(Kilohertz::MHz(8), Kilohertz::kHz(8000));
    assert_ne!(Kilohertz::MHz(8), Kilohertz::kHz(8001));
    // Equal as values even when the megahertz value does not fit in kilohertz as a u32.
    assert_eq!(Kilohertz::MHz(5_000_000), Kilohertz::MHz(5_000_000));
    assert_ne!(Kilohertz::MHz(5_000_000), Kilohertz::kHz(u32::MAX));
}

#[test]
fn architecture_frequencies_in_hertz() {
    assert_eq!(riot_rs_embassy::esp::i2c::Frequency::M1.to_hertz(), 1_000_000);
    assert_eq!(riot_rs_embassy::esp::spi::Frequency::K500.to_hertz(), 500_000);
    assert_eq!(riot_rs_embassy::rp2040::i2c::Frequency::K250.to_hertz(), 250_000);
    assert_eq!(riot_rs_embassy::rp2040::spi::Frequency::_500k.to_hertz(), 500_000);
    assert_eq!(riot_rs_embassy::rp2040::spi::Frequency::_32M.to_hertz(), 32_000_000);
    assert_eq!(riot_rs_embassy::stm32::i2c::Frequency::_400k.to_hertz(), 400_000);
    assert_eq!(riot_rs_embassy::stm32::spi::Frequency::K500.to_hertz(), 500_000);
}

#[test]
fn esp32c6_spi_frequency_in_hertz() {
    assert_eq!(hal_esp::spi::main::Frequency::F(Kilohertz::kHz(125)).to_hertz(), 125_000);
    assert_eq!(hal_esp::spi::main::Frequency::F(Kilohertz::MHz(80)).to_hertz(), 80_000_000);
    assert_eq!(riot_rs_embassy::esp::spi::Frequency::M32.to_hertz(), 32_000_000);
    assert_eq!(riot_rs_embassy::esp::i2c::Frequency::M1.to_hertz(), 1_000_000);
}

#[test]
fn rp2040_conversion_keeps_the_named_frequency() {
    let freq = riot_rs_embassy::rp2040::spi::Frequency::from(riot_rs_embassy::spi::Frequency::_500k);
    assert_eq!(freq.to_hertz(), 500_000);
    let freq = riot_rs_embassy::rp2040::spi::Frequency::from(riot_rs_embassy::spi::Frequency::_8M);
    assert_eq!(freq.to_hertz(), 8_000_000);
}
