use riot_rs_embassy::extint_registry::nrf;
use riot_rs_embassy::extint_registry::other;
use riot_rs_embassy::extint_registry::stm32;

#[test]
fn nrf_registry_runs_out_of_channels() {
    let mut registry = nrf::ExtIntRegistry::new();
    let mut pin = 0u8;
    for _ in 0..nrf::INT_CHANNEL_COUNT {
        assert_eq!(registry.use_interrupt_for_pin(&mut pin), Ok(()));
    }
    assert_eq!(registry.use_interrupt_for_pin(&mut pin), Err(nrf::Error::NoIntChannelAvailable));
    assert_eq!(registry.use_interrupt_for_pin(&mut pin), Err(nrf::Error::NoIntChannelAvailable));
}

#[test]
fn stm32_registry_hands_each_channel_out_once() {
    let mut registry = stm32::ExtIntRegistry::new();
    assert!(!registry.initialized());
    let mut channels = [Some(()); 16];
    registry.init(&mut channels);
    assert!(registry.initialized());
    assert!(channels.iter().all(|c| c.is_none()));
    assert_eq!(registry.get_interrupt_channel_for_pin(3), Ok(3));
    assert_eq!(registry.get_interrupt_channel_for_pin(3), Err(stm32::Error::IntChannelAlreadyUsed));
    // Other channels are unaffected.
    assert_eq!(registry.get_interrupt_channel_for_pin(0), Ok(0));
    assert_eq!(registry.get_interrupt_channel_for_pin(15), Ok(15));
    assert_eq!(registry.get_interrupt_channel_for_pin(15), Err(stm32::Error::IntChannelAlreadyUsed));
    assert_eq!(registry.get_interrupt_channel_for_pin(14), Ok(14));
}

#[test]
fn other_registry_is_empty() {
    let _registry = other::ExtIntRegistry::new();
}

#[test]
fn nrf51_registry_has_four_channels() {
    assert_eq!(nrf::channel_count(nrf::Family::Nrf51), 4);
    assert_eq!(nrf::channel_count(nrf::Family::Nrf52), 8);
    let mut registry = nrf::ExtIntRegistry::for_family(nrf::Family::Nrf51);
    let mut pin = 0u8;
    for _ in 0..4 {
        assert_eq!(registry.use_interrupt_for_pin(&mut pin), Ok(()));
    }
    assert_eq!(registry.use_interrupt_for_pin(&mut pin), Err(nrf::Error::NoIntChannelAvailable));
}
