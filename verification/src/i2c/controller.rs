//! I2C in controller mode.
use vstd::prelude::*;

use crate::arch::i2c::controller::Frequency;

verus! {

/// A frequency in kilohertz.
#[allow(non_camel_case_types)]
#[derive(Debug, Copy, Clone, PartialEq, Eq, Structural)]
pub struct kHz(pub u32);

/// Whether `f` is the highest frequency whose value in kilohertz lies in `[min, max]`.
pub open spec fn is_highest_freq_in(f: Frequency, min: int, max: int) -> bool {
    &&& min <= f.khz_spec() <= max
    &&& forall|g: Frequency| min <= #[trigger] g.khz_spec() <= max ==> g.khz_spec() <= f.khz_spec()
}

/// Whether some frequency of the architecture (100 kHz or 400 kHz) lies in `[min, max]` (in
/// kilohertz).
pub open spec fn some_freq_in(min: int, max: int) -> bool {
    ||| min <= Frequency::_100k.khz_spec() <= max
    ||| min <= Frequency::_400k.khz_spec() <= max
}

/// Returns the highest I2C frequency available on the architecture that fits into the
/// requested range.
///
/// The range must not be empty and must contain an available frequency.
pub fn highest_freq_in(range: core::ops::RangeInclusive<kHz>) -> (r: Frequency)
    requires
        range@.start.0 <= range@.end.0,
        some_freq_in(range@.start.0 as int, range@.end.0 as int),
    ensures
        is_highest_freq_in(r, range@.start.0 as int, range@.end.0 as int),
        r == (if range@.start.0 <= 400 <= range@.end.0 {
            Frequency::_400k
        } else {
            Frequency::_100k
        }),
{
    let min = range.start().0;
    let max = range.end().0;

    let mut freq = Frequency::first();

    // Not yet in the requested range: go up.
    while freq.khz() < min
        invariant
            some_freq_in(min as int, max as int),
            forall|g: Frequency| #[trigger] g.khz_spec() < freq.khz_spec() ==> g.khz_spec() < min,
        decreases 400 - freq.khz_spec(),
    {
        match freq.next() {
            Some(next) => {
                freq = next;
            },
            None => {
                // Unreachable: a frequency at least `min` exists, and all lower ones were skipped.
                assert(Frequency::_100k.khz_spec() < min && Frequency::_400k.khz_spec() < min);
                assert(false);
            },
        }
    }

    // In the requested range: go up while the next frequency still fits (inclusive bound).
    loop
        invariant
            min <= freq.khz_spec(),
            freq.khz_spec() <= max,
        ensures
            is_highest_freq_in(freq, min as int, max as int),
        decreases 400 - freq.khz_spec(),
    {
        match freq.next() {
            Some(next) => {
                if next.khz() <= max {
                    freq = next;
                } else {
                    break;
                }
            },
            None => {
                break;
            },
        }
    }
    assert(min <= 400 <= max ==> Frequency::_400k.khz_spec() <= freq.khz_spec());
    freq
}

} // verus!
