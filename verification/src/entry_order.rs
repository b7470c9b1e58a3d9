//! The order of conversation entries: by the time they were received, and
//! by nothing else.

use vstd::prelude::*;
use vstd::std_specs::cmp::PartialEqSpecImpl;
use vstd::std_specs::cmp::PartialOrdSpecImpl;
use std::cmp::Ordering;
use crate::channel_view_entry::ChannelViewEntry;

verus! {

/// How two times of receipt compare.
pub open spec fn time_order(a: u64, b: u64) -> Ordering {
    if a < b {
        Ordering::Less
    } else if a == b {
        Ordering::Equal
    } else {
        Ordering::Greater
    }
}

impl PartialEq for ChannelViewEntry {
    /// Two entries are equal when they were received in the same second.
    fn eq(&self, other: &Self) -> (r: bool) {
        self.time() == other.time()
    }
}

impl PartialEqSpecImpl for ChannelViewEntry {
    open spec fn obeys_eq_spec() -> bool {
        true
    }

    open spec fn eq_spec(&self, other: &Self) -> bool {
        self@.rx_time == other@.rx_time
    }
}

impl PartialOrd for ChannelViewEntry {
    fn partial_cmp(&self, other: &Self) -> (r: Option<Ordering>) {
        Some(self.cmp(other))
    }
}

impl PartialOrdSpecImpl for ChannelViewEntry {
    open spec fn obeys_partial_cmp_spec() -> bool {
        true
    }

    open spec fn partial_cmp_spec(&self, other: &Self) -> Option<Ordering> {
        Some(time_order(self@.rx_time, other@.rx_time))
    }
}

impl ChannelViewEntry {
    /// Compares two entries by the time they were received.
    pub fn cmp(&self, other: &Self) -> (r: Ordering)
        ensures
            r == time_order(self@.rx_time, other@.rx_time),
    {
        let a = self.time();
        let b = other.time();
        if a < b {
            Ordering::Less
        } else if a == b {
            Ordering::Equal
        } else {
            Ordering::Greater
        }
    }
}

} // verus!
