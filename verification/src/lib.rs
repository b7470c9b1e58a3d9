//! Device discovery and connection lifecycle for a mesh radio chat client.

use vstd::prelude::*;

pub mod channel_view;
pub mod channel_view_entry;
pub mod connection;
pub mod device;
pub mod device_list_view;
pub mod device_view;
pub mod discovery;
pub mod emoji_picker;
pub mod entry_order;
pub mod lifecycle;
pub mod navigation;
pub mod packet;

verus! {

/// Number of events that each bounded channel between the tasks and the
/// user interface can hold.
pub const CHANNEL_CAPACITY: usize = 100;

} // verus!
