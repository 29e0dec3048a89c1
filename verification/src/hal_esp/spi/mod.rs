//! SPI support of the ESP32-C6.
pub mod main;

use vstd::prelude::*;

verus! {

/// Takes the SPI peripheral out of its slot among the optional peripherals and does nothing
/// with it, so that only the drivers of this module can use it. The slot must still hold the
/// peripheral; it is empty afterwards.
pub fn init<P>(spi2: &mut Option<P>)
    requires
        old(spi2).is_some(),
    ensures
        final(spi2).is_none(),
{
    let _ = spi2.take().unwrap();
}

} // verus!
