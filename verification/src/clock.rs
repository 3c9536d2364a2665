//! The transformer's clock.
//!
//! Tap-toggle timing compares recorded press instants with the current
//! instant.  Production composers read the wall clock; tests run on a fixed
//! clock they advance by hand, so every timing decision is reproducible.

use vstd::prelude::*;

verus! {

/// Relies on std::time::SystemTime::now, read against the Unix epoch and
/// converted to microseconds; clamped so that an instant strictly after it
/// still fits in a u64.
#[verifier::external_body]
fn wall_clock_micros() -> (r: u64)
    ensures
        r < u64::MAX,
{
    match std::time::SystemTime::now().duration_since(std::time::UNIX_EPOCH) {
        Ok(d) => {
            let us = d.as_micros();
            if us >= u64::MAX as u128 {
                u64::MAX - 1
            } else {
                us as u64
            }
        },
        Err(_) => 0,
    }
}

/// A clock that is either pinned to an instant or follows the wall clock.
/// Instants count microseconds since the epoch.
#[derive(Clone, Copy, Debug, PartialEq, Eq)]
pub struct Clock {
    pub pinned: Option<u64>,
}

impl Clock {
    /// A pinned instant leaves room for an instant strictly after it.
    pub open spec fn wf(&self) -> bool {
        match self.pinned {
            Some(t) => t < u64::MAX,
            None => true,
        }
    }

    /// A clock that follows the wall clock.
    pub fn wall() -> (r: Clock)
        ensures
            r.pinned is None,
            r.wf(),
    {
        Clock { pinned: None }
    }

    /// A clock pinned to the given instant.
    pub fn pinned_at(t: u64) -> (r: Clock)
        requires
            t < u64::MAX,
        ensures
            r.pinned == Some(t),
            r.wf(),
    {
        Clock { pinned: Some(t) }
    }

    /// The current instant.  On a pinned clock this is the pinned instant;
    /// on a wall clock nothing is promised beyond room for one more tick.
    pub fn now(&self) -> (r: u64)
        requires
            self.wf(),
        ensures
            r < u64::MAX,
            match self.pinned {
                Some(t) => r == t,
                None => true,
            },
    {
        match self.pinned {
            Some(t) => t,
            None => wall_clock_micros(),
        }
    }

    /// Moves a pinned clock forward; a wall clock is left alone.
    pub fn advance(&mut self, by: u64)
        requires
            old(self).wf(),
            match old(self).pinned {
                Some(t) => t + by < u64::MAX,
                None => true,
            },
        ensures
            final(self).wf(),
            final(self).pinned == match old(self).pinned {
                Some(t) => Some((t + by) as u64),
                None => None::<u64>,
            },
    {
        match self.pinned {
            Some(t) => {
                self.pinned = Some(t + by);
            },
            None => {},
        }
    }
}

} // verus!
