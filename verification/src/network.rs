//! Settings of the network stack.
use vstd::prelude::*;

verus! {

/// Maximum transmission unit of an Ethernet frame, in bytes.
pub const ETHERNET_MTU: usize = 1514;

/// Number of sockets the network stack allows open at the same time, unless the build
/// configuration sets another number.
pub const MAX_CONCURRENT_SOCKETS: usize = 4;

/// The seed of the network stack's random numbers.
pub const RANDOM_SEED: u64 = 1234;

} // verus!
