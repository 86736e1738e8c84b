//! The unread total that the tray icon shows.

use vstd::prelude::*;

verus! {

/// The last unread total handed to the tray.
pub struct BadgeCounter {
    count: u32,
}

impl BadgeCounter {
    pub closed spec fn value(&self) -> u32 {
        self.count
    }

    /// A counter showing no unread messages.
    pub fn new() -> (c: Self)
        ensures
            c.value() == 0,
    {
        BadgeCounter { count: 0 }
    }
}

/// Records the new unread total; returns the previous one (so the caller
/// can tell whether it changed).
pub fn update_badge(counter: &mut BadgeCounter, total: u32) -> (previous: u32)
    ensures
        previous == old(counter).value(),
        final(counter).value() == total,
{
    let previous = counter.count;
    counter.count = total;
    previous
}

/// The current unread total.
pub fn badge_count(counter: &BadgeCounter) -> (n: u32)
    ensures
        n == counter.value(),
{
    counter.count
}

} // verus!
