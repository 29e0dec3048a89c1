//! Registry for architectures with a fixed number of interchangeable interrupt channels.
use vstd::prelude::*;

verus! {

/// Number of interrupt channels (GPIOTE channels) of the nRF52 MCUs.
pub const INT_CHANNEL_COUNT: u8 = 8;

/// Number of interrupt channels (GPIOTE channels) of the nRF51 MCUs.
pub const NRF51_INT_CHANNEL_COUNT: u8 = 4;

/// The nRF MCU family, which fixes the number of interrupt channels.
#[derive(Debug, Copy, Clone, PartialEq, Eq, Structural)]
pub enum Family {
    /// nRF51 MCUs.
    Nrf51,
    /// nRF52 MCUs.
    Nrf52,
}

/// The number of interrupt channels of an MCU family.
pub open spec fn channel_count_spec(family: Family) -> nat {
    match family {
        Family::Nrf51 => NRF51_INT_CHANNEL_COUNT as nat,
        Family::Nrf52 => INT_CHANNEL_COUNT as nat,
    }
}

/// Returns the number of interrupt channels of an MCU family.
pub fn channel_count(family: Family) -> (r: u8)
    ensures
        r == channel_count_spec(family),
{
    match family {
        Family::Nrf51 => NRF51_INT_CHANNEL_COUNT,
        Family::Nrf52 => INT_CHANNEL_COUNT,
    }
}

/// Error returned when registering an interrupt fails.
#[derive(Debug, Copy, Clone, PartialEq, Eq, Structural)]
pub enum Error {
    /// Every interrupt channel is already in use.
    NoIntChannelAvailable,
}

/// Whether a request for a channel succeeds when `used` of the `channels` channels are already
/// handed out.
pub open spec fn request_succeeds(channels: nat, used: nat) -> bool {
    used < channels
}

/// The number of channels handed out after one more request, when `used` of the `channels`
/// channels were handed out before it: one more if the request succeeds, the same otherwise.
pub open spec fn used_after_request(channels: nat, used: nat) -> nat {
    if request_succeeds(channels, used) {
        used + 1
    } else {
        used
    }
}

/// The number of channels handed out after `k` requests made to a new registry with
/// `channels` channels.
pub open spec fn used_after_requests(channels: nat, k: nat) -> nat
    decreases k,
{
    if k == 0 {
        0
    } else {
        used_after_request(channels, used_after_requests(channels, (k - 1) as nat))
    }
}

/// Of the requests made to a new registry with `channels` channels, exactly the first
/// `channels` succeed and every later one fails; after `k` requests, `min(k, channels)`
/// channels are handed out, and that number never decreases.
pub proof fn lemma_requests_from_new(channels: nat, k: nat)
    ensures
        used_after_requests(channels, k) == if k < channels {
            k
        } else {
            channels
        },
        used_after_requests(channels, k) <= channels,
        forall|i: nat|
            i < k ==> (request_succeeds(channels, #[trigger] used_after_requests(channels, i))
                <==> i < channels),
        forall|i: nat, j: nat|
            i <= j <= k ==> used_after_requests(channels, i) <= used_after_requests(channels, j),
    decreases k,
{
    if k > 0 {
        lemma_requests_from_new(channels, (k - 1) as nat);
    }
}

/// Keeps count of the interrupt channels handed out so far.
pub struct ExtIntRegistry {
    channel_count: u8,
    used_interrupt_channel_count: u8,
}

impl ExtIntRegistry {
    #[verifier::type_invariant]
    spec fn inv(self) -> bool {
        &&& self.channel_count <= INT_CHANNEL_COUNT
        &&& self.used_interrupt_channel_count <= self.channel_count
    }

    /// The number of interrupt channels handed out so far.
    pub closed spec fn used(self) -> nat {
        self.used_interrupt_channel_count as nat
    }

    /// The number of interrupt channels of the MCU.
    pub closed spec fn channels(self) -> nat {
        self.channel_count as nat
    }

    /// Returns a registry of the nRF52 channels with no channel in use.
    pub fn new() -> (r: Self)
        ensures
            r.used() == 0,
            r.channels() == INT_CHANNEL_COUNT,
    {
        Self::for_family(Family::Nrf52)
    }

    /// Returns a registry of the channels of an MCU of `family`, with no channel in use.
    pub fn for_family(family: Family) -> (r: Self)
        ensures
            r.used() == 0,
            r.channels() == channel_count_spec(family),
    {
        Self { channel_count: channel_count(family), used_interrupt_channel_count: 0 }
    }

    /// Reserves an interrupt channel for the given pin.
    ///
    /// The caller must hold the pin, so that it cannot register it twice at the same time.
    ///
    /// # Errors
    ///
    /// Returns [`Error::NoIntChannelAvailable`] when every channel is already in use; the
    /// registry is then left unchanged.
    pub fn use_interrupt_for_pin<PIN>(&mut self, _pin: &mut PIN) -> (r: Result<(), Error>)
        ensures
            old(self).used() < old(self).channels() ==> r is Ok && final(self).used() == old(
                self,
            ).used() + 1,
            old(self).used() >= old(self).channels() ==> r == Err::<(), Error>(
                Error::NoIntChannelAvailable,
            ) && final(self).used() == old(self).used(),
            final(self).channels() == old(self).channels(),
            final(self).used() <= final(self).channels(),
            (r is Ok) == request_succeeds(old(self).channels(), old(self).used()),
            final(self).used() == used_after_request(old(self).channels(), old(self).used()),
    {
        proof {
            use_type_invariant(&*self);
        }
        let c = self.used_interrupt_channel_count;
        if c == self.channel_count {
            return Err(Error::NoIntChannelAvailable);
        }
        // Cannot overflow: `c` is lower than the channel count, itself lower than `u8::MAX`.
        self.used_interrupt_channel_count = c + 1;
        Ok(())
    }
}

} // verus!
