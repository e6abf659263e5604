//! A reminder offset: an announcement sent a fixed number of minutes
//! before a scheduled disbandment.

use vstd::prelude::*;

verus! {

/// A "minutes before disbandment" offset. A guild keeps a set of these:
/// no two configured reminders share an offset.
#[derive(Debug, Clone, Copy, PartialEq, Eq, Hash, Structural)]
pub struct Reminder(u32);

impl View for Reminder {
    type V = int;

    closed spec fn view(&self) -> int {
        self.0 as int
    }
}

impl Reminder {
    pub fn before_minutes(minutes: u32) -> (r: Reminder)
        ensures
            r@ == minutes,
    {
        Reminder(minutes)
    }

    /// The offset in minutes.
    pub fn minutes(&self) -> (r: u32)
        ensures
            r == self@,
    {
        self.0
    }

    /// The offset as a duration in whole seconds; it fits well inside
    /// the signed sixty-four-bit range.
    pub fn before_duration(&self) -> (r: u64)
        ensures
            r == self@ * 60,
            r <= 257_698_037_700,
    {
        (self.0 as u64) * 60
    }
}

} // verus!
