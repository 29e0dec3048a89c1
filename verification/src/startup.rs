//! The start-up sequence of the system task: which initialization steps run, and in which
//! order, for the selected architecture and features.
//!
//! The system task carries the steps out (they touch the hardware and spawn tasks); this module
//! decides them.
use vstd::prelude::*;

verus! {

/// The architecture family the system is built for.
#[derive(Debug, Copy, Clone, PartialEq, Eq, Structural)]
pub enum Context {
    /// nRF MCUs.
    Nrf,
    /// RP2040 MCUs.
    Rp,
    /// ESP32 MCUs.
    Esp,
    /// STM32 MCUs.
    Stm32,
    /// No hardware architecture.
    Other,
}

/// The features the system is built with.
#[derive(Debug, Copy, Clone, PartialEq, Eq, Structural)]
pub struct Features {
    /// The architecture family.
    pub context: Context,
    /// Support for external interrupts on GPIO inputs.
    pub external_interrupts: bool,
    /// I2C support.
    pub i2c: bool,
    /// SPI support.
    pub spi: bool,
    /// Hardware random number generator.
    pub hwrng: bool,
    /// USB support.
    pub usb: bool,
    /// Networking over USB (CDC-NCM Ethernet).
    pub usb_ethernet: bool,
    /// Wi-Fi through a CYW43 chip.
    pub wifi_cyw43: bool,
    /// Wi-Fi of the ESP32.
    pub wifi_esp: bool,
    /// Networking.
    pub net: bool,
}

impl Features {
    /// Whether a system can be built with these features:
    ///
    /// - USB Ethernet runs on USB and provides the network device of the network stack;
    /// - the network stack needs a network device, and there is only one: USB Ethernet or
    ///   Wi-Fi;
    /// - CYW43 Wi-Fi runs on RP2040 MCUs, and ESP32 Wi-Fi on ESP32 MCUs.
    pub open spec fn is_buildable(self) -> bool {
        &&& self.usb_ethernet ==> self.usb && self.net
        &&& self.net ==> (self.usb_ethernet || self.wifi_cyw43 || self.wifi_esp)
        &&& !(self.usb_ethernet && (self.wifi_cyw43 || self.wifi_esp))
        &&& self.wifi_cyw43 ==> self.context == Context::Rp
        &&& self.wifi_esp ==> self.context == Context::Esp
    }

    /// Returns whether a system can be built with these features.
    pub fn buildable(&self) -> (r: bool)
        ensures
            r == self.is_buildable(),
    {
        (!self.usb_ethernet || (self.usb && self.net))
            && (!self.net || self.usb_ethernet || self.wifi_cyw43 || self.wifi_esp)
            && !(self.usb_ethernet && (self.wifi_cyw43 || self.wifi_esp))
            && (!self.wifi_cyw43 || self.context == Context::Rp)
            && (!self.wifi_esp || self.context == Context::Esp)
    }
}

/// A step of the start-up sequence.
#[derive(Debug, Copy, Clone, PartialEq, Eq, Structural)]
pub enum Step {
    /// Hand the external-interrupt channels to their registry.
    ExtIntRegistryInit,
    /// Distribute the GPIO pins among the peripherals.
    GpioInit,
    /// Reserve the I2C peripherals for the I2C drivers.
    I2cInit,
    /// Reserve the SPI peripherals for the SPI drivers.
    SpiInit,
    /// Set up the random number generator.
    ConstructRng,
    /// Start the USB hardware.
    UsbInit,
    /// Get the spawner of the current executor.
    GetSpawner,
    /// Run the registered start-up functions of the applications.
    RunTasks,
    /// Create the USB device builder.
    UsbBuilder,
    /// Create the USB Ethernet class and spawn its task.
    UsbEthernetDevice,
    /// Let the USB builder hooks run, build the USB device and spawn its task.
    UsbStart,
    /// Set the CYW43 Wi-Fi chip up and spawn its task.
    Cyw43Device,
    /// Set the ESP32 Wi-Fi up and spawn its connection task.
    EspWifiInit,
    /// Create the network stack and spawn its task.
    NetworkStack,
    /// Join the Wi-Fi network with the CYW43 chip.
    Cyw43Join,
}

/// `step` alone if `enabled`, nothing otherwise.
pub open spec fn step_if(enabled: bool, step: Step) -> Seq<Step> {
    if enabled {
        seq![step]
    } else {
        Seq::<Step>::empty()
    }
}

/// The start-up sequence for the given features.
pub open spec fn plan_spec(f: Features) -> Seq<Step> {
    Seq::<Step>::empty()
        + step_if(f.context == Context::Stm32 && f.external_interrupts, Step::ExtIntRegistryInit)
        + step_if(f.context == Context::Esp, Step::GpioInit)
        + step_if(f.i2c, Step::I2cInit)
        + step_if(f.spi, Step::SpiInit)
        + step_if(f.hwrng, Step::ConstructRng)
        + step_if(f.usb && f.context == Context::Nrf, Step::UsbInit)
        + step_if(true, Step::GetSpawner)
        + step_if(true, Step::RunTasks)
        + step_if(f.usb, Step::UsbBuilder)
        + step_if(f.usb_ethernet, Step::UsbEthernetDevice)
        + step_if(f.usb, Step::UsbStart)
        + step_if(f.wifi_cyw43, Step::Cyw43Device)
        + step_if(f.wifi_esp, Step::EspWifiInit)
        + step_if(f.net, Step::NetworkStack)
        + step_if(f.wifi_cyw43, Step::Cyw43Join)
}

/// Appends `step` to `steps` if `enabled`.
fn push_if(steps: &mut Vec<Step>, enabled: bool, step: Step)
    ensures
        final(steps)@ == old(steps)@ + step_if(enabled, step),
{
    if enabled {
        steps.push(step);
    } else {
        assert(old(steps)@ + step_if(enabled, step) =~= old(steps)@);
    }
}

/// Returns the start-up sequence for the given features:
///
/// 1. the architecture and bus peripherals are set up (external-interrupt channels on STM32,
///    GPIO pins on ESP32, I2C, SPI, the random number generator, USB on nRF);
/// 2. the spawner is obtained and the applications' start-up functions run;
/// 3. USB is built, with its Ethernet class if enabled, then started;
/// 4. Wi-Fi is set up, then the network stack, and finally the CYW43 chip joins the network.
pub fn plan(f: &Features) -> (r: Vec<Step>)
    requires
        f.is_buildable(),
    ensures
        r@ == plan_spec(*f),
{
    let mut steps: Vec<Step> = Vec::new();
    push_if(
        &mut steps,
        f.context == Context::Stm32 && f.external_interrupts,
        Step::ExtIntRegistryInit,
    );
    push_if(&mut steps, f.context == Context::Esp, Step::GpioInit);
    push_if(&mut steps, f.i2c, Step::I2cInit);
    push_if(&mut steps, f.spi, Step::SpiInit);
    push_if(&mut steps, f.hwrng, Step::ConstructRng);
    push_if(&mut steps, f.usb && f.context == Context::Nrf, Step::UsbInit);
    push_if(&mut steps, true, Step::GetSpawner);
    push_if(&mut steps, true, Step::RunTasks);
    push_if(&mut steps, f.usb, Step::UsbBuilder);
    push_if(&mut steps, f.usb_ethernet, Step::UsbEthernetDevice);
    push_if(&mut steps, f.usb, Step::UsbStart);
    push_if(&mut steps, f.wifi_cyw43, Step::Cyw43Device);
    push_if(&mut steps, f.wifi_esp, Step::EspWifiInit);
    push_if(&mut steps, f.net, Step::NetworkStack);
    push_if(&mut steps, f.wifi_cyw43, Step::Cyw43Join);
    steps
}

/// Position of a step in the start-up order.
pub open spec fn rank(step: Step) -> int {
    match step {
        Step::ExtIntRegistryInit => 0,
        Step::GpioInit => 1,
        Step::I2cInit => 2,
        Step::SpiInit => 3,
        Step::ConstructRng => 4,
        Step::UsbInit => 5,
        Step::GetSpawner => 6,
        Step::RunTasks => 7,
        Step::UsbBuilder => 8,
        Step::UsbEthernetDevice => 9,
        Step::UsbStart => 10,
        Step::Cyw43Device => 11,
        Step::EspWifiInit => 12,
        Step::NetworkStack => 13,
        Step::Cyw43Join => 14,
    }
}

/// Whether the features call for `step`.
pub open spec fn enabled(f: Features, step: Step) -> bool {
    match step {
        Step::ExtIntRegistryInit => f.context == Context::Stm32 && f.external_interrupts,
        Step::GpioInit => f.context == Context::Esp,
        Step::I2cInit => f.i2c,
        Step::SpiInit => f.spi,
        Step::ConstructRng => f.hwrng,
        Step::UsbInit => f.usb && f.context == Context::Nrf,
        Step::GetSpawner => true,
        Step::RunTasks => true,
        Step::UsbBuilder => f.usb,
        Step::UsbEthernetDevice => f.usb_ethernet,
        Step::UsbStart => f.usb,
        Step::Cyw43Device => f.wifi_cyw43,
        Step::EspWifiInit => f.wifi_esp,
        Step::NetworkStack => f.net,
        Step::Cyw43Join => f.wifi_cyw43,
    }
}

/// Whether the ranks of the steps of `s` strictly increase.
pub open spec fn ranks_increase(s: Seq<Step>) -> bool {
    forall|i: int, j: int| 0 <= i < j < s.len() ==> rank(#[trigger] s[i]) < rank(#[trigger] s[j])
}

/// Appending an optional step of higher rank than every step so far keeps the ranks
/// increasing and keeps every rank at most that of the step.
proof fn lemma_append_rank(s: Seq<Step>, on: bool, step: Step)
    requires
        ranks_increase(s),
        forall|i: int| 0 <= i < s.len() ==> rank(#[trigger] s[i]) < rank(step),
    ensures
        ranks_increase(s + step_if(on, step)),
        forall|i: int| 0 <= i < (s + step_if(on, step)).len() ==> rank(
            #[trigger] (s + step_if(on, step))[i],
        ) <= rank(step),
{
    let t = s + step_if(on, step);
    if on {
        assert(t[s.len() as int] == step);
    } else {
        assert(t =~= s);
    }
}

/// A step is in `s` followed by an optional step exactly when it is in `s` or is that step.
proof fn lemma_append_contains(s: Seq<Step>, on: bool, step: Step, x: Step)
    ensures
        (s + step_if(on, step)).contains(x) <==> s.contains(x) || (on && x == step),
{
    let t = s + step_if(on, step);
    if on {
        assert(t[s.len() as int] == step);
        if t.contains(x) {
            let k = choose|k: int| 0 <= k < t.len() && t[k] == x;
            if k < s.len() {
                assert(s[k] == x);
            }
        }
        if s.contains(x) {
            let k = choose|k: int| 0 <= k < s.len() && s[k] == x;
            assert(t[k] == x);
        }
    } else {
        assert(t =~= s);
    }
}

/// The prefixes of the start-up sequence, one more optional step at a time.
spec fn prefix(f: Features, k: int) -> Seq<Step>
    decreases k,
{
    if k <= 0 {
        Seq::<Step>::empty()
    } else {
        prefix(f, k - 1) + step_if(enabled(f, step_of_rank(k - 1)), step_of_rank(k - 1))
    }
}

/// The step of a given rank.
spec fn step_of_rank(k: int) -> Step {
    if k <= 0 {
        Step::ExtIntRegistryInit
    } else if k == 1 {
        Step::GpioInit
    } else if k == 2 {
        Step::I2cInit
    } else if k == 3 {
        Step::SpiInit
    } else if k == 4 {
        Step::ConstructRng
    } else if k == 5 {
        Step::UsbInit
    } else if k == 6 {
        Step::GetSpawner
    } else if k == 7 {
        Step::RunTasks
    } else if k == 8 {
        Step::UsbBuilder
    } else if k == 9 {
        Step::UsbEthernetDevice
    } else if k == 10 {
        Step::UsbStart
    } else if k == 11 {
        Step::Cyw43Device
    } else if k == 12 {
        Step::EspWifiInit
    } else if k == 13 {
        Step::NetworkStack
    } else {
        Step::Cyw43Join
    }
}

/// The whole start-up sequence is the last prefix.
proof fn lemma_plan_is_prefix(f: Features)
    ensures
        plan_spec(f) == prefix(f, 15),
{
    reveal_with_fuel(prefix, 16);
}

/// The ranks of every prefix increase, and stay below the prefix's length.
proof fn lemma_prefix_ranks(f: Features, k: int)
    requires
        0 <= k <= 15,
    ensures
        ranks_increase(prefix(f, k)),
        forall|i: int| 0 <= i < prefix(f, k).len() ==> rank(#[trigger] prefix(f, k)[i]) < k,
    decreases k,
{
    if k > 0 {
        lemma_prefix_ranks(f, k - 1);
        assert(rank(step_of_rank(k - 1)) == k - 1);
        lemma_append_rank(prefix(f, k - 1), enabled(f, step_of_rank(k - 1)), step_of_rank(k - 1));
    }
}

/// A step is in a prefix exactly when the features call for it and its rank is below the
/// prefix's length.
proof fn lemma_prefix_contains(f: Features, k: int, x: Step)
    requires
        0 <= k <= 15,
    ensures
        prefix(f, k).contains(x) <==> enabled(f, x) && rank(x) < k,
    decreases k,
{
    if k > 0 {
        lemma_prefix_contains(f, k - 1, x);
        let step = step_of_rank(k - 1);
        lemma_append_contains(prefix(f, k - 1), enabled(f, step), step, x);
        assert(rank(step_of_rank(k - 1)) == k - 1);
        assert(rank(x) == k - 1 ==> x == step_of_rank(k - 1));
    }
}

/// The start-up sequence holds exactly the steps that the features call for, each once, in the
/// fixed order of [`rank`]: in particular the applications' start-up functions run after every
/// peripheral has been set up and the spawner obtained, and the network stack is created after
/// the network device (USB Ethernet or Wi-Fi) it runs on, which a buildable feature set
/// always plans.
pub proof fn lemma_plan_order(f: Features)
    ensures
        ranks_increase(plan_spec(f)),
        forall|step: Step| #[trigger] plan_spec(f).contains(step) <==> enabled(f, step),
        f.is_buildable() && plan_spec(f).contains(Step::NetworkStack) ==> (plan_spec(f).contains(
            Step::UsbEthernetDevice,
        ) || plan_spec(f).contains(Step::Cyw43Device) || plan_spec(f).contains(
            Step::EspWifiInit,
        )),
        f.is_buildable() && plan_spec(f).contains(Step::UsbEthernetDevice) ==> plan_spec(
            f,
        ).contains(Step::UsbStart),
{
    lemma_plan_is_prefix(f);
    lemma_prefix_ranks(f, 15);
    assert forall|step: Step| #[trigger] plan_spec(f).contains(step) <==> enabled(f, step) by {
        lemma_prefix_contains(f, 15, step);
    }
}

} // verus!
