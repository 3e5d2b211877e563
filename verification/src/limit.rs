//! A checker that watches a value against a quota and warns through a messenger.
use vstd::prelude::*;

verus! {

/// A destination for warning messages. Implementors decide what sending means.
pub trait Messenger {
    fn send(&self, msg: &str);
}

/// The warning owed for a value against a quota: over the whole of it,
/// over nine tenths, over three quarters, or nothing yet.
pub fn quota_message(value: usize, max: usize) -> (r: Option<&'static str>)
    ensures
        value >= max ==> (r matches Some(m) && m@ == "Error: You are over your quota!"@),
        value < max && 10 * value >= 9 * max ==> (r matches Some(m) && m@
            == "Urgent warning: You've used up over 90% of your quota!"@),
        value < max && 10 * value < 9 * max && 4 * value >= 3 * max ==> (r matches Some(m) && m@
            == "Warning: You've used up over 75% of your quota!"@),
        4 * value < 3 * max ==> r is None,
{
    let v = value as u128;
    let m = max as u128;
    if v >= m {
        Some("Error: You are over your quota!")
    } else if v * 10 >= m * 9 {
        Some("Urgent warning: You've used up over 90% of your quota!")
    } else if v * 4 >= m * 3 {
        Some("Warning: You've used up over 75% of your quota!")
    } else {
        None
    }
}

/// Tracks a value against a maximum and sends a warning through the
/// messenger when the value nears or passes the quota.
pub struct LimitChecker<'a, T: Messenger> {
    messenger: &'a T,
    value: usize,
    max: usize,
}

impl<'a, T: Messenger> LimitChecker<'a, T> {
    /// The value most recently set.
    pub closed spec fn spec_value(&self) -> usize {
        self.value
    }

    /// The quota this checker was built with.
    pub closed spec fn spec_max(&self) -> usize {
        self.max
    }

    /// A fresh checker over the given messenger and quota, starting at zero.
    pub fn new(messenger: &'a T, max: usize) -> (c: LimitChecker<'a, T>)
        ensures
            c.spec_value() == 0,
            c.spec_max() == max,
    {
        LimitChecker { messenger, value: 0, max }
    }

    /// Records the new value and warns the messenger when it has reached
    /// three quarters, nine tenths, or the whole of the quota.
    pub fn set_value(&mut self, value: usize)
        ensures
            final(self).spec_value() == value,
            final(self).spec_max() == old(self).spec_max(),
    {
        self.value = value;

        if let Some(msg) = quota_message(self.value, self.max) {
            self.messenger.send(msg);
        }
    }
}

} // verus!
