//! SPI in main mode.
use vstd::prelude::*;

use crate::arch::spi::main::{max_frequency_khz, Frequency};
use crate::spi::Kilohertz;

verus! {

/// Whether `f` is the highest available frequency whose value in kilohertz lies in
/// `[min, max]`.
pub open spec fn is_highest_freq_in(f: Frequency, min: int, max: int) -> bool {
    &&& f.is_available()
    &&& min <= f.khz_spec() <= max
    &&& forall|g: Frequency| #[trigger] g.is_available() && min <= g.khz_spec() <= max
        ==> g.khz_spec() <= f.khz_spec()
}

/// Whether some available frequency lies in `[min, max]` (in kilohertz).
pub open spec fn some_freq_in(min: int, max: int) -> bool {
    min <= max_frequency_khz() && 1 <= max
}

/// Returns the highest SPI frequency available on the MCU that fits into the requested
/// range.
///
/// The range must not be empty and must contain an available frequency; the bounds must be
/// expressible in kilohertz as a `u32`.
pub fn highest_freq_in(range: core::ops::RangeInclusive<Kilohertz>) -> (r: Frequency)
    requires
        range@.start.khz_value() <= u32::MAX,
        range@.end.khz_value() <= u32::MAX,
        range@.start.khz_value() <= range@.end.khz_value(),
        some_freq_in(range@.start.khz_value(), range@.end.khz_value()),
    ensures
        is_highest_freq_in(r, range@.start.khz_value(), range@.end.khz_value()),
        r.khz_spec() == if range@.end.khz_value() < max_frequency_khz() {
            range@.end.khz_value()
        } else {
            max_frequency_khz()
        },
{
    let min = range.start().to_kHz();
    let max = range.end().to_kHz();

    let mut freq = Frequency::first();

    // Not yet in the requested range: go up.
    while freq.khz() < min
        invariant
            freq.is_available(),
            freq.khz_spec() <= if min < 1 { 1 } else { min as int },
            min <= max_frequency_khz(),
        decreases min - freq.khz_spec(),
    {
        match freq.next() {
            Some(next) => {
                freq = next;
            },
            None => {
                // Unreachable: the current frequency is below `min`, hence below the maximum.
                assert(false);
            },
        }
    }

    // In the requested range: go up while the next frequency still fits (inclusive bound).
    loop
        invariant
            freq.is_available(),
            min <= freq.khz_spec() <= max,
            max <= u32::MAX,
        ensures
            freq.is_available(),
            min <= freq.khz_spec() <= max,
            freq.khz_spec() == max || freq.khz_spec() == max_frequency_khz(),
        decreases max - freq.khz_spec(),
    {
        match freq.next() {
            Some(next) => {
                if next.khz() <= max {
                    freq = next;
                } else {
                    break;
                }
            },
            None => {
                break;
            },
        }
    }
    assert(is_highest_freq_in(freq, min as int, max as int));
    freq
}

} // verus!
