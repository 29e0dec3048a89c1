//! USB peripherals of the ESP32-C6.
use vstd::prelude::*;

verus! {

/// The peripherals the USB driver needs: the USB controller `U` and its D+ (`DP`, GPIO 20)
/// and D- (`DM`, GPIO 19) pins.
pub struct Peripherals<U, DP, DM> {
    usb: U,
    usbdp: DP,
    usbdm: DM,
}

impl<U, DP, DM> Peripherals<U, DP, DM> {
    /// The USB controller.
    pub closed spec fn usb_spec(self) -> U {
        self.usb
    }

    /// The D+ pin.
    pub closed spec fn usbdp_spec(self) -> DP {
        self.usbdp
    }

    /// The D- pin.
    pub closed spec fn usbdm_spec(self) -> DM {
        self.usbdm
    }

    /// Takes the USB peripherals out of their slots among the optional peripherals: the USB
    /// controller (`USB0`), GPIO 20 and GPIO 19. Each slot must still hold its peripheral; the
    /// three slots are empty afterwards.
    pub fn new(
        usb0: &mut Option<U>,
        gpio_20: &mut Option<DP>,
        gpio_19: &mut Option<DM>,
    ) -> (r: Self)
        requires
            old(usb0).is_some(),
            old(gpio_20).is_some(),
            old(gpio_19).is_some(),
        ensures
            final(usb0).is_none(),
            final(gpio_20).is_none(),
            final(gpio_19).is_none(),
            r.usb_spec() == old(usb0).unwrap(),
            r.usbdp_spec() == old(gpio_20).unwrap(),
            r.usbdm_spec() == old(gpio_19).unwrap(),
    {
        Self {
            usb: usb0.take().unwrap(),
            usbdp: gpio_20.take().unwrap(),
            usbdm: gpio_19.take().unwrap(),
        }
    }

    /// Hands the peripherals out, for the USB driver.
    pub fn into_parts(self) -> (r: (U, DP, DM))
        ensures
            r == (self.usb_spec(), self.usbdp_spec(), self.usbdm_spec()),
    {
        (self.usb, self.usbdp, self.usbdm)
    }
}

} // verus!
