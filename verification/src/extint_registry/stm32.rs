//! Registry for architectures where each pin number has its own interrupt channel, shared
//! between ports (a channel bound to pin 0 of one port cannot serve pin 0 of another port).
use vstd::prelude::*;

verus! {

/// Number of interrupt channels (EXTI lines), one per pin number.
pub const INT_CHANNEL_COUNT: u8 = 16;

/// Error returned when registering an interrupt fails.
#[derive(Debug, Copy, Clone, PartialEq, Eq, Structural)]
pub enum Error {
    /// The channel of this pin number is already bound to a pin.
    IntChannelAlreadyUsed,
}

/// Whether bit `i` of `bits` is set.
pub open spec fn bit_is_set(bits: u16, i: u16) -> bool {
    (bits >> i) & 1u16 == 1u16
}

/// Keeps track of the interrupt channels handed out so far, one bit per channel.
pub struct ExtIntRegistry {
    initialized: bool,
    used_interrupt_channels: u16,
}

impl ExtIntRegistry {
    /// Whether [`init()`](Self::init) has run.
    pub closed spec fn is_initialized(self) -> bool {
        self.initialized
    }

    /// The set of channels handed out so far.
    pub closed spec fn used_channels(self) -> Set<int> {
        Set::new(
            |i: int|
                0 <= i < INT_CHANNEL_COUNT && bit_is_set(self.used_interrupt_channels, i as u16),
        )
    }

    /// Returns a registry, not yet initialized, with no channel in use.
    pub fn new() -> (r: Self)
        ensures
            !r.is_initialized(),
            r.used_channels() == Set::<int>::empty(),
    {
        let r = Self { initialized: false, used_interrupt_channels: 0 };
        assert forall|i: u16| !bit_is_set(0u16, i) by {
            assert((0u16 >> i) & 1u16 == 0u16) by (bit_vector);
        }
        assert(r.used_channels() =~= Set::<int>::empty());
        r
    }

    /// Takes every channel peripheral (`EXTI0` to `EXTI15`) out of its slot among the optional
    /// peripherals, so that the registry is the only one managing them, and marks the registry
    /// as initialized. Every slot must still hold its peripheral; all are empty afterwards.
    pub fn init<T>(&mut self, exti: &mut [Option<T>; 16])
        requires
            forall|i: int| 0 <= i < 16 ==> (#[trigger] old(exti)@[i]).is_some(),
        ensures
            forall|i: int| 0 <= i < 16 ==> (#[trigger] final(exti)@[i]).is_none(),
            final(self).is_initialized(),
            final(self).used_channels() == old(self).used_channels(),
    {
        let mut i: usize = 0;
        while i < 16
            invariant
                0 <= i <= 16,
                forall|j: int| 0 <= j < i ==> (#[trigger] exti@[j]).is_none(),
                forall|j: int| i <= j < 16 ==> (#[trigger] exti@[j]).is_some(),
            decreases 16 - i,
        {
            let _channel = exti[i].take().unwrap();
            i = i + 1;
        }
        self.initialized = true;
    }

    /// Returns whether the registry has been initialized, which handing out a channel needs.
    pub fn initialized(&self) -> (r: bool)
        ensures
            r == self.is_initialized(),
    {
        self.initialized
    }

    /// Reserves the interrupt channel of the pin with the given pin number, and returns the
    /// number of that channel, which is the pin number itself.
    ///
    /// The registry must be initialized, and the pin number must name one of the channels.
    ///
    /// # Errors
    ///
    /// Returns [`Error::IntChannelAlreadyUsed`] when the channel is already in use; the set of
    /// used channels is then unchanged.
    pub fn get_interrupt_channel_for_pin(&mut self, pin_number: u8) -> (r: Result<u8, Error>)
        requires
            old(self).is_initialized(),
            pin_number < INT_CHANNEL_COUNT,
        ensures
            final(self).is_initialized(),
            final(self).used_channels() == old(self).used_channels().insert(pin_number as int),
            old(self).used_channels().contains(pin_number as int) ==> r == Err::<u8, Error>(
                Error::IntChannelAlreadyUsed,
            ),
            !old(self).used_channels().contains(pin_number as int) ==> r == Ok::<u8, Error>(
                pin_number,
            ),
    {
        let bits = self.used_interrupt_channels;
        let bit = pin_number as u16;
        let mask: u16 = 1u16 << bit;
        let was_used = bits & mask != 0;
        let new_bits = bits | mask;
        self.used_interrupt_channels = new_bits;
        proof {
            assert(was_used == bit_is_set(bits, bit)) by (bit_vector)
                requires
                    bit < 16,
                    mask == 1u16 << bit,
                    was_used == (bits & mask != 0u16),
            ;
            assert forall|i: u16| i < 16 implies bit_is_set(new_bits, i) == (i == bit
                || bit_is_set(bits, i)) by {
                assert(bit_is_set(new_bits, i) == (i == bit || bit_is_set(bits, i))) by (bit_vector)
                    requires
                        bit < 16,
                        i < 16,
                        new_bits == bits | (1u16 << bit),
                ;
            }
            let ghost expected = old(self).used_channels().insert(pin_number as int);
            assert(self.used_channels() =~= expected) by {
                assert forall|i: int| #[trigger] self.used_channels().contains(i)
                    == old(self).used_channels().insert(pin_number as int).contains(i) by {
                    if 0 <= i < 16 {
                        assert(bit_is_set(new_bits, i as u16) == (i as u16 == bit || bit_is_set(
                            bits,
                            i as u16,
                        )));
                    }
                }
            }
        }
        if was_used {
            return Err(Error::IntChannelAlreadyUsed);
        }
        // The channel number is the pin number.
        Ok(pin_number)
    }
}

} // verus!
