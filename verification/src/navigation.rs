//! Which screen is on show, and when the window may close.

use vstd::prelude::*;
use crate::connection::ConnectionState;
use crate::connection::ConnectionStateView;

verus! {

/// The screens of the application.
#[derive(Debug, Clone, Copy, PartialEq, Eq, Structural)]
pub enum Screen {
    DeviceList,
    Device,
}

/// A request to show another screen.
#[derive(Debug, Clone, Copy, PartialEq, Eq, Structural)]
pub enum NavigationMessage {
    DevicesList,
    DeviceView,
}

/// The screen that the application starts with.
pub fn initial_view() -> (r: Screen)
    ensures
        r == Screen::DeviceList,
{
    Screen::DeviceList
}

/// The screen on show after a request: the one asked for.
pub open spec fn view_after(current: Screen, message: NavigationMessage) -> Screen {
    match message {
        NavigationMessage::DevicesList => Screen::DeviceList,
        NavigationMessage::DeviceView => Screen::Device,
    }
}

/// The screen to show after a request to navigate.
pub fn navigate(current: Screen, message: NavigationMessage) -> (r: Screen)
    ensures
        r == view_after(current, message),
{
    match message {
        NavigationMessage::DevicesList => {
            if current == Screen::Device {
                Screen::DeviceList
            } else {
                current
            }
        },
        NavigationMessage::DeviceView => Screen::Device,
    }
}

/// Whether the window closes at once when the user asks for it: it does
/// unless a radio is connected.
pub fn may_close(state: &ConnectionState) -> (r: bool)
    ensures
        r == !(state@ is Connected),
{
    match state {
        ConnectionState::Connected(_) => false,
        _ => true,
    }
}

/// The text of the window's title bar.
pub fn title() -> (r: String)
    ensures
        r@ == "MeshChat"@,
{
    "MeshChat".to_owned()
}

} // verus!
