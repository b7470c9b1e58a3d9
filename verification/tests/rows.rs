use meshchat::connection::ConnectionState;
use meshchat::device::DeviceId;
use meshchat::device_list_view::header;
use meshchat::device_list_view::row_control;
use meshchat::device_list_view::Header;
use meshchat::device_list_view::RowControl;
use meshchat::device_view::status_line;

fn radio(name: &str, address: u64) -> DeviceId {
    DeviceId::new(Some(name.to_string()), address).unwrap()
}

#[test]
fn every_radio_can_be_connected_to_while_none_is_in_use() {
    assert_eq!(row_control(&ConnectionState::Disconnected, &radio("A", 1)), RowControl::Connect);
}

#[test]
fn only_the_radio_in_use_shows_what_goes_on() {
    let a = radio("A", 1);
    let b = radio("B", 2);
    assert_eq!(row_control(&ConnectionState::Connecting(a.clone()), &a), RowControl::Connecting);
    assert_eq!(row_control(&ConnectionState::Connecting(a.clone()), &b), RowControl::Nothing);
    assert_eq!(row_control(&ConnectionState::Connected(a.clone()), &a), RowControl::Disconnect);
    assert_eq!(row_control(&ConnectionState::Connected(a.clone()), &b), RowControl::Nothing);
    assert_eq!(
        row_control(&ConnectionState::Disconnecting(a.clone()), &a),
        RowControl::Disconnecting
    );
    assert_eq!(row_control(&ConnectionState::Disconnecting(a), &b), RowControl::Nothing);
}

#[test]
fn header_tells_the_state_and_opens_the_connected_radio() {
    let a = radio("ZG1", 1);
    assert_eq!(
        header(&ConnectionState::Disconnected),
        Header { label: "Disconnected".to_string(), opens_device: false }
    );
    assert_eq!(
        header(&ConnectionState::Connecting(a.clone())),
        Header { label: "Connecting to ZG1".to_string(), opens_device: false }
    );
    assert_eq!(
        header(&ConnectionState::Connected(a.clone())),
        Header { label: "ZG1".to_string(), opens_device: true }
    );
    assert_eq!(
        header(&ConnectionState::Disconnecting(a)),
        Header { label: "Disconnecting from ZG1".to_string(), opens_device: false }
    );
}

#[test]
fn status_line_tells_the_state() {
    let a = DeviceId::new(None, 0xAABB_CCDD_EEFF).unwrap();
    assert_eq!(status_line(&ConnectionState::Disconnected), "disconnected");
    assert_eq!(
        status_line(&ConnectionState::Connecting(a.clone())),
        "connecting to : AA:BB:CC:DD:EE:FF"
    );
    assert_eq!(
        status_line(&ConnectionState::Connected(a.clone())),
        "connected to : AA:BB:CC:DD:EE:FF"
    );
    assert_eq!(
        status_line(&ConnectionState::Disconnecting(a)),
        "disconnecting from : AA:BB:CC:DD:EE:FF"
    );
}
