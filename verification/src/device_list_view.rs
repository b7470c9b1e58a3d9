//! The list of radios in range, as the user interface keeps it.

use vstd::prelude::*;
use vstd::string::StringExecFns;
use crate::connection::ConnectionState;
use crate::connection::ConnectionStateView;
use crate::device::display_name;
use crate::device::name_from_id;
use crate::device::DeviceId;
use crate::device::DeviceIdView;
use crate::discovery::ids;
use crate::discovery::select;
use crate::discovery::DiscoveryEvent;
use crate::discovery::DiscoveryEventView;

verus! {

/// An error for the user: a short text and the cause.
#[derive(Debug, Clone, PartialEq, Eq)]
pub struct ErrorReport {
    pub summary: String,
    pub detail: String,
}

/// The radios in range, in the order they were found.
#[derive(Debug)]
pub struct DeviceListView {
    devices: Vec<DeviceId>,
}

impl View for DeviceListView {
    type V = Seq<DeviceIdView>;

    closed spec fn view(&self) -> Seq<DeviceIdView> {
        ids(self.devices@)
    }
}

/// The list after a notice of the discovery task: a radio found is added at
/// the end, a radio lost leaves wherever it stands, and an error changes
/// nothing.
pub open spec fn list_after(list: Seq<DeviceIdView>, event: DiscoveryEventView) -> Seq<
    DeviceIdView,
> {
    match event {
        DiscoveryEventView::Found(id) => list.push(id),
        DiscoveryEventView::Lost(id) => select(list, seq![id], false),
        DiscoveryEventView::Error(_) => list,
    }
}

impl DeviceListView {
    /// An empty list.
    pub fn new() -> (r: Self)
        ensures
            r@ == Seq::<DeviceIdView>::empty(),
    {
        let r = DeviceListView { devices: Vec::new() };
        assert(ids(r.devices@) =~= Seq::empty());
        r
    }

    /// The radios in range.
    pub fn devices(&self) -> (r: &Vec<DeviceId>)
        ensures
            ids(r@) == self@,
    {
        &self.devices
    }

    /// Takes in a notice of the discovery task. A failed scan is handed back
    /// as an error for the user, under the summary `Discovery Error`.
    pub fn update(&mut self, discovery_event: DiscoveryEvent) -> (r: Option<ErrorReport>)
        ensures
            final(self)@ == list_after(old(self)@, discovery_event@),
            match discovery_event@ {
                DiscoveryEventView::Error(e) => r matches Some(report) && report.summary@
                    == "Discovery Error"@ && report.detail@ == e,
                _ => r is None,
            },
    {
        match discovery_event {
            DiscoveryEvent::BLERadioFound(id) => {
                let ghost before = ids(self.devices@);
                self.devices.push(id);
                assert(ids(self.devices@) =~= before.push(id@));
                None
            },
            DiscoveryEvent::BLERadioLost(id) => {
                self.remove_all(&id);
                None
            },
            DiscoveryEvent::Error(e) => Some(
                ErrorReport { summary: "Discovery Error".to_owned(), detail: e },
            ),
        }
    }

    fn remove_all(&mut self, id: &DeviceId)
        ensures
            final(self)@ == select(old(self)@, seq![id@], false),
    {
        let ghost before = ids(self.devices@);
        let ghost gone = seq![id@];
        let mut kept: Vec<DeviceId> = Vec::new();
        let mut i: usize = 0;
        assert(before.take(0) =~= Seq::empty());
        assert(ids(kept@) =~= Seq::empty());
        while i < self.devices.len()
            invariant
                i <= self.devices.len(),
                before == ids(self.devices@),
                gone == seq![id@],
                ids(kept@) == select(before.take(i as int), gone, false),
            decreases self.devices.len() - i,
        {
            let ghost old_kept = ids(kept@);
            proof {
                assert(before.take(i as int + 1).drop_last() =~= before.take(i as int));
                assert(before.take(i as int + 1).last() == self.devices@[i as int]@);
                assert(gone.contains(self.devices@[i as int]@) <==> self.devices@[i as int]@
                    == id@) by {
                    assert(gone[0] == id@);
                }
            }
            if !self.devices[i].same_device(id) {
                let d = self.devices[i].duplicate();
                kept.push(d);
                assert(ids(kept@) =~= old_kept.push(d@));
            }
            i += 1;
        }
        assert(before.take(i as int) =~= before);
        self.devices = kept;
    }
}

/// What stands beside a radio in the list.
#[derive(Debug, Clone, Copy, PartialEq, Eq, Structural)]
pub enum RowControl {
    /// A button that connects to the radio.
    Connect,
    /// A button that disconnects from the radio.
    Disconnect,
    /// A label: the radio is being connected to.
    Connecting,
    /// A label: the radio is being disconnected from.
    Disconnecting,
    /// Nothing: another radio is in use.
    Nothing,
}

/// What stands beside a radio: while no radio is in use, every radio can be
/// connected to; otherwise only the radio in use shows what goes on.
pub open spec fn control_for(state: ConnectionStateView, device: DeviceIdView) -> RowControl {
    match state {
        ConnectionStateView::Disconnected => RowControl::Connect,
        ConnectionStateView::Connecting(d) => if d == device {
            RowControl::Connecting
        } else {
            RowControl::Nothing
        },
        ConnectionStateView::Connected(d) => if d == device {
            RowControl::Disconnect
        } else {
            RowControl::Nothing
        },
        ConnectionStateView::Disconnecting(d) => if d == device {
            RowControl::Disconnecting
        } else {
            RowControl::Nothing
        },
    }
}

/// What to draw beside `device` in the list.
pub fn row_control(state: &ConnectionState, device: &DeviceId) -> (r: RowControl)
    ensures
        r == control_for(state@, device@),
{
    match state {
        ConnectionState::Disconnected => RowControl::Connect,
        ConnectionState::Connecting(d) => if d.same_device(device) {
            RowControl::Connecting
        } else {
            RowControl::Nothing
        },
        ConnectionState::Connected(d) => if d.same_device(device) {
            RowControl::Disconnect
        } else {
            RowControl::Nothing
        },
        ConnectionState::Disconnecting(d) => if d.same_device(device) {
            RowControl::Disconnecting
        } else {
            RowControl::Nothing
        },
    }
}

/// The line above the list: what it says, and whether it is a button that
/// opens the screen of the connected radio.
#[derive(Debug, Clone, PartialEq, Eq)]
pub struct Header {
    pub label: String,
    pub opens_device: bool,
}

/// What the line above the list says in a state.
pub open spec fn header_text(state: ConnectionStateView) -> Seq<char> {
    match state {
        ConnectionStateView::Disconnected => "Disconnected"@,
        ConnectionStateView::Connecting(d) => "Connecting to "@ + display_name(d),
        ConnectionStateView::Connected(d) => display_name(d),
        ConnectionStateView::Disconnecting(d) => "Disconnecting from "@ + display_name(d),
    }
}

/// The line above the list.
pub fn header(state: &ConnectionState) -> (r: Header)
    ensures
        r.label@ == header_text(state@),
        r.opens_device == (state@ is Connected),
{
    match state {
        ConnectionState::Disconnected => Header {
            label: "Disconnected".to_owned(),
            opens_device: false,
        },
        ConnectionState::Connecting(d) => Header {
            label: String::from_str("Connecting to ").concat(name_from_id(d).as_str()),
            opens_device: false,
        },
        ConnectionState::Connected(d) => Header { label: name_from_id(d), opens_device: true },
        ConnectionState::Disconnecting(d) => Header {
            label: String::from_str("Disconnecting from ").concat(name_from_id(d).as_str()),
            opens_device: false,
        },
    }
}

} // verus!
