//! SPI main-mode settings of the ESP32-C6.
use vstd::prelude::*;

use crate::spi::{BitOrder, Kilohertz, Mode};
use crate::rate::khz_in_hertz;

verus! {

/// Highest SPI frequency of this architecture, in kilohertz (80 MHz, from the datasheet).
pub open spec fn max_frequency_khz() -> int {
    80000
}

/// Highest SPI frequency of this architecture.
pub fn max_frequency() -> (r: Kilohertz)
    ensures
        r.khz_value() == max_frequency_khz(),
{
    Kilohertz::MHz(80)
}

/// SPI bus frequency.
///
/// Every whole number of kilohertz from 1 kHz up to the maximum frequency is available.
#[derive(Debug, Copy, Clone)]
pub enum Frequency {
    /// A frequency in kilohertz or megahertz.
    F(Kilohertz),
}

impl Frequency {
    /// The frequency in kilohertz.
    pub open spec fn khz_spec(self) -> int {
        match self {
            Frequency::F(k) => k.khz_value(),
        }
    }

    /// Whether the hardware supports this frequency.
    pub open spec fn is_available(self) -> bool {
        1 <= self.khz_spec() <= max_frequency_khz()
    }

    /// The next frequency, one kilohertz higher, if it is available.
    pub open spec fn next_spec(self) -> Option<Frequency> {
        if self.khz_spec() < max_frequency_khz() {
            Some(Frequency::F(Kilohertz::kHz((self.khz_spec() + 1) as u32)))
        } else {
            None
        }
    }

    /// The previous frequency, one kilohertz lower, if it is available.
    pub open spec fn prev_spec(self) -> Option<Frequency> {
        if self.khz_spec() > 1 {
            Some(Frequency::F(Kilohertz::kHz((self.khz_spec() - 1) as u32)))
        } else {
            None
        }
    }

    /// The lowest available frequency (1 kHz).
    pub fn first() -> (r: Self)
        ensures
            r.khz_spec() == 1,
            r.is_available(),
    {
        Frequency::F(Kilohertz::kHz(1))
    }

    /// The highest available frequency.
    pub fn last() -> (r: Self)
        ensures
            r.khz_spec() == max_frequency_khz(),
            r.is_available(),
    {
        Frequency::F(max_frequency())
    }

    /// The next frequency, one kilohertz higher, if it is available.
    pub fn next(self) -> (r: Option<Self>)
        requires
            self.khz_spec() <= u32::MAX,
        ensures
            r == self.next_spec(),
    {
        match self {
            Frequency::F(kilohertz) => {
                let khz = kilohertz.to_kHz();
                let max = max_frequency().to_kHz();
                if khz < max {
                    Some(Frequency::F(Kilohertz::kHz(khz + 1)))
                } else {
                    None
                }
            },
        }
    }

    /// The previous frequency, one kilohertz lower, if it is available.
    pub fn prev(self) -> (r: Option<Self>)
        requires
            self.khz_spec() <= u32::MAX,
        ensures
            r == self.prev_spec(),
    {
        match self {
            Frequency::F(kilohertz) => {
                let khz = kilohertz.to_kHz();
                if khz > 1 {
                    Some(Frequency::F(Kilohertz::kHz(khz - 1)))
                } else {
                    None
                }
            },
        }
    }

    /// Returns the frequency in hertz, as handed to the SPI driver.
    pub fn to_hertz(self) -> (r: u32)
        requires
            self.khz_spec() * 1000 <= u32::MAX,
        ensures
            r == self.khz_spec() * 1000,
    {
        match self {
            Frequency::F(kilohertz) => khz_in_hertz(kilohertz.to_kHz()),
        }
    }

    /// The frequency in kilohertz.
    pub fn khz(self) -> (r: u32)
        requires
            self.khz_spec() <= u32::MAX,
        ensures
            r == self.khz_spec(),
    {
        match self {
            Frequency::F(kilohertz) => kilohertz.to_kHz(),
        }
    }
}

/// Stepping through the frequencies: `next` goes up by one kilohertz and `prev` undoes it,
/// both stay among the available frequencies, `first` is the lowest available frequency and
/// has no predecessor, `last` is the highest and has no successor.
pub proof fn lemma_frequency_order(f: Frequency)
    requires
        f.khz_spec() <= u32::MAX,
    ensures
        f.next_spec() is Some ==> {
            let g = f.next_spec().unwrap();
            &&& g.khz_spec() == f.khz_spec() + 1
            &&& g.is_available()
            &&& f.khz_spec() >= 1 ==> g.prev_spec() is Some && g.prev_spec().unwrap().khz_spec()
                == f.khz_spec()
        },
        f.prev_spec() is Some ==> {
            let g = f.prev_spec().unwrap();
            &&& g.khz_spec() == f.khz_spec() - 1
            &&& f.khz_spec() <= max_frequency_khz() ==> g.is_available() && g.next_spec() is Some
                && g.next_spec().unwrap().khz_spec() == f.khz_spec()
        },
        f.is_available() ==> 1 <= f.khz_spec() <= max_frequency_khz(),
        Frequency::F(Kilohertz::kHz(1)).prev_spec() is None,
        Frequency::F(Kilohertz::MHz(80)).next_spec() is None,
{
    let k = f.khz_spec();
    assert(k >= 0);
    if k < max_frequency_khz() {
        let g = Frequency::F(Kilohertz::kHz((k + 1) as u32));
        assert(g.khz_spec() == k + 1);
        assert(f.next_spec() == Some(g));
        if k >= 1 {
            assert((g.khz_spec() - 1) as u32 == k as u32);
            let h = Frequency::F(Kilohertz::kHz(k as u32));
            assert(h.khz_spec() == k);
            assert(g.prev_spec() == Some(h));
        }
    }
    if k > 1 {
        let g = Frequency::F(Kilohertz::kHz((k - 1) as u32));
        assert(g.khz_spec() == k - 1);
        assert(f.prev_spec() == Some(g));
        if k - 1 < max_frequency_khz() {
            assert((g.khz_spec() + 1) as u32 == k as u32);
            let h = Frequency::F(Kilohertz::kHz(k as u32));
            assert(h.khz_spec() == k);
            assert(g.next_spec() == Some(h));
        }
    }
}

/// Two frequencies are equal when they denote the same number of kilohertz.
impl PartialEq for Frequency {
    fn eq(&self, other: &Self) -> (r: bool) {
        match (self, other) {
            (Frequency::F(a), Frequency::F(b)) => a.eq(b),
        }
    }
}

impl vstd::std_specs::cmp::PartialEqSpecImpl for Frequency {
    open spec fn obeys_eq_spec() -> bool {
        true
    }

    open spec fn eq_spec(&self, other: &Frequency) -> bool {
        self.khz_spec() == other.khz_spec()
    }
}

impl Eq for Frequency {}

/// SPI bus configuration.
#[derive(Debug, Copy, Clone, PartialEq, Eq)]
pub struct Config {
    /// The bus frequency.
    pub frequency: Frequency,
    /// The SPI mode.
    pub mode: Mode,
    /// The bit order.
    pub bit_order: BitOrder,
}

impl Default for Config {
    fn default() -> (r: Self)
        ensures
            r.frequency.khz_spec() == max_frequency_khz(),
            r.mode == Mode::Mode0,
            r.bit_order == BitOrder::MsbFirst,
    {
        Config {
            frequency: Frequency::F(Kilohertz::MHz(80)),
            mode: Mode::Mode0,
            bit_order: BitOrder::default(),
        }
    }
}

} // verus!
