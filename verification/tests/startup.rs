use riot_rs_embassy::startup::{plan, Context, Features, Step};

fn features(context: Context) -> Features {
    Features {
        context,
        external_interrupts: false,
        i2c: false,
        spi: false,
        hwrng: false,
        usb: false,
        usb_ethernet: false,
        wifi_cyw43: false,
        wifi_esp: false,
        net: false,
    }
}

#[test]
fn minimal_startup() {
    assert_eq!(plan(&features(Context::Other)), vec![Step::GetSpawner, Step::RunTasks]);
}

#[test]
fn stm32_startup_with_buses_and_usb_ethernet() {
    let mut f = features(Context::Stm32);
    f.external_interrupts = true;
    f.i2c = true;
    f.spi = true;
    f.usb = true;
    f.usb_ethernet = true;
    f.net = true;
    assert_eq!(
        plan(&f),
        vec![
            Step::ExtIntRegistryInit,
            Step::I2cInit,
            Step::SpiInit,
            Step::GetSpawner,
            Step::RunTasks,
            Step::UsbBuilder,
            Step::UsbEthernetDevice,
            Step::UsbStart,
            Step::NetworkStack,
        ]
    );
}

#[test]
fn rp_startup_with_cyw43_wifi() {
    let mut f = features(Context::Rp);
    f.wifi_cyw43 = true;
    f.net = true;
    f.hwrng = true;
    assert_eq!(
        plan(&f),
        vec![
            Step::ConstructRng,
            Step::GetSpawner,
            Step::RunTasks,
            Step::Cyw43Device,
            Step::NetworkStack,
            Step::Cyw43Join,
        ]
    );
}

#[test]
fn esp_and_nrf_specific_steps() {
    let mut f = features(Context::Esp);
    f.wifi_esp = true;
    f.net = true;
    f.external_interrupts = true;
    assert_eq!(
        plan(&f),
        vec![Step::GpioInit, Step::GetSpawner, Step::RunTasks, Step::EspWifiInit, Step::NetworkStack]
    );
    let mut f = features(Context::Nrf);
    f.usb = true;
    assert_eq!(
        plan(&f),
        vec![Step::UsbInit, Step::GetSpawner, Step::RunTasks, Step::UsbBuilder, Step::UsbStart]
    );
}

#[test]
fn unbuildable_feature_sets() {
    assert!(features(Context::Other).buildable());
    let mut f = features(Context::Stm32);
    f.usb_ethernet = true;
    f.net = true;
    assert!(!f.buildable());
    let mut f = features(Context::Stm32);
    f.net = true;
    assert!(!f.buildable());
    let mut f = features(Context::Stm32);
    f.wifi_cyw43 = true;
    assert!(!f.buildable());
    let mut f = features(Context::Rp);
    f.wifi_esp = true;
    assert!(!f.buildable());
    let mut f = features(Context::Rp);
    f.usb = true;
    f.usb_ethernet = true;
    f.wifi_cyw43 = true;
    f.net = true;
    assert!(!f.buildable());
}
