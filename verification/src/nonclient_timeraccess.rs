//! Journal entries for countdown-page requests from outside the roster.

use vstd::prelude::*;
use crate::address::Ipv4;
use crate::clock::Timestamp;

verus! {

/// An address outside the roster that asked for the countdown page, with the time
/// of its latest request.
#[derive(Clone, Copy, Debug, PartialEq, Eq, Structural)]
pub struct NonclientTimerAccess {
    pub ip_address: Ipv4,
    pub last_timer_access: Timestamp,
}

impl NonclientTimerAccess {
    /// The journal entry for `ip_address`, last seen at `last_timer_access`.
    pub fn new(ip_address: Ipv4, last_timer_access: Timestamp) -> (entry: NonclientTimerAccess)
        ensures
            entry == (NonclientTimerAccess { ip_address, last_timer_access }),
    {
        NonclientTimerAccess { ip_address, last_timer_access }
    }
}

} // verus!
