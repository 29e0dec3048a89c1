//! Frequencies in hertz, computed with the `fugit` rate type that the ESP32 drivers take.
use vstd::prelude::*;

verus! {

/// `fugit::HertzU32::kHz` followed by `to_Hz`. For a rate counted in hertz
/// (`Rate<u32, 1, 1>`), `kHz` stores one thousand times its argument, and `to_Hz` returns what
/// is stored. The multiplication is not checked, so `requires` keeps it within `u32`.
#[verifier::external_body]
pub(crate) fn khz_in_hertz(khz: u32) -> (hz: u32)
    requires
        khz * 1000 <= u32::MAX,
    ensures
        hz == khz * 1000,
{
    fugit::HertzU32::kHz(khz).to_Hz()
}

/// `fugit::HertzU32::MHz` followed by `to_Hz`. For a rate counted in hertz
/// (`Rate<u32, 1, 1>`), `MHz` stores one million times its argument, and `to_Hz` returns what
/// is stored. The multiplication is not checked, so `requires` keeps it within `u32`.
#[verifier::external_body]
pub(crate) fn mhz_in_hertz(mhz: u32) -> (hz: u32)
    requires
        mhz * 1_000_000 <= u32::MAX,
    ensures
        hz == mhz * 1_000_000,
{
    fugit::HertzU32::MHz(mhz).to_Hz()
}

} // verus!
