use gateway_bridge::event::{handle_event, Released};
use gateway_bridge::response::{PeerInfo, Response, ResponseResult};
use gateway_bridge::state::{
    DataConnectionState, Endpoints, Entry, MediaConnectionState, TransferDescription,
};

fn ends(source: &str, destination: &str) -> Endpoints {
    Endpoints {
        source: source.to_string(),
        destination: destination.to_string(),
    }
}

fn transfer(description: &str) -> TransferDescription {
    TransferDescription {
        description: description.to_string(),
    }
}

#[test]
fn a_new_store_holds_nothing() {
    let data = DataConnectionState::new();
    assert_eq!(data.find("dc-1"), None);
    let media = MediaConnectionState::new();
    assert_eq!(media.find("mc-1"), None);
}

#[test]
fn find_after_store_returns_the_value() {
    let mut data = DataConnectionState::new();
    data.store("dc-1".to_string(), ends("a", "b"));
    assert_eq!(data.find("dc-1"), Some(ends("a", "b")));
    let mut media = MediaConnectionState::new();
    media.store("mc-1".to_string(), transfer("video"));
    assert_eq!(media.find("mc-1"), Some(transfer("video")));
}

#[test]
fn store_replaces_what_was_there() {
    let mut data = DataConnectionState::new();
    data.store("dc-1".to_string(), ends("a", "b"));
    data.store("dc-1".to_string(), ends("c", "d"));
    assert_eq!(data.find("dc-1"), Some(ends("c", "d")));
}

#[test]
fn find_after_remove_returns_nothing() {
    let mut data = DataConnectionState::new();
    data.store("dc-1".to_string(), ends("a", "b"));
    data.remove("dc-1");
    assert_eq!(data.find("dc-1"), None);
    data.remove("dc-1");
    assert_eq!(data.find("dc-1"), None);
}

#[test]
fn other_keys_are_left_alone() {
    let mut data = DataConnectionState::new();
    data.store("dc-1".to_string(), ends("a", "b"));
    data.store("dc-2".to_string(), ends("c", "d"));
    data.remove("dc-1");
    assert_eq!(data.find("dc-2"), Some(ends("c", "d")));
    data.store("dc-3".to_string(), ends("e", "f"));
    assert_eq!(data.find("dc-2"), Some(ends("c", "d")));
    assert_eq!(data.find("dc-3"), Some(ends("e", "f")));
    assert_eq!(data.find("dc-1"), None);
}

#[test]
fn a_found_entry_is_a_copy() {
    let mut data = DataConnectionState::new();
    data.store("dc-1".to_string(), ends("a", "b"));
    let mut copy = data.find("dc-1").unwrap();
    copy.source.push('x');
    assert_eq!(data.find("dc-1"), Some(ends("a", "b")));
    assert_eq!(ends("a", "b").duplicate(), ends("a", "b"));
    assert_eq!(transfer("t").duplicate(), transfer("t"));
}

#[test]
fn a_closed_data_connection_is_released() {
    let mut data = DataConnectionState::new();
    let mut media = MediaConnectionState::new();
    data.store("dc-1".to_string(), ends("a", "b"));
    data.store("dc-2".to_string(), ends("c", "d"));
    media.store("dc-1".to_string(), transfer("same key, other store"));
    let event = ResponseResult::Success(Response::DataConnectionClosed("dc-1".to_string()));
    let released = handle_event(&event, &mut data, &mut media);
    assert_eq!(
        released,
        Released::Data {
            data_connection_id: "dc-1".to_string(),
            endpoints: ends("a", "b"),
        }
    );
    assert_eq!(data.find("dc-1"), None);
    assert_eq!(data.find("dc-2"), Some(ends("c", "d")));
    assert_eq!(media.find("dc-1"), Some(transfer("same key, other store")));
}

#[test]
fn a_closed_media_connection_is_released() {
    let mut data = DataConnectionState::new();
    let mut media = MediaConnectionState::new();
    media.store("mc-1".to_string(), transfer("video"));
    data.store("mc-1".to_string(), ends("a", "b"));
    let event = ResponseResult::Success(Response::MediaConnectionClosed("mc-1".to_string()));
    let released = handle_event(&event, &mut data, &mut media);
    assert_eq!(
        released,
        Released::Media {
            media_connection_id: "mc-1".to_string(),
            transfer: transfer("video"),
        }
    );
    assert_eq!(media.find("mc-1"), None);
    assert_eq!(data.find("mc-1"), Some(ends("a", "b")));
}

#[test]
fn an_unknown_connection_releases_nothing() {
    let mut data = DataConnectionState::new();
    let mut media = MediaConnectionState::new();
    data.store("dc-2".to_string(), ends("c", "d"));
    let event = ResponseResult::Success(Response::DataConnectionClosed("dc-1".to_string()));
    assert_eq!(handle_event(&event, &mut data, &mut media), Released::Nothing);
    assert_eq!(data.find("dc-2"), Some(ends("c", "d")));
}

#[test]
fn other_events_leave_the_cache_alone() {
    let mut data = DataConnectionState::new();
    let mut media = MediaConnectionState::new();
    data.store("dc-1".to_string(), ends("a", "b"));
    media.store("mc-1".to_string(), transfer("video"));
    let events = [
        ResponseResult::Success(Response::Other),
        ResponseResult::Error("dc-1".to_string()),
        ResponseResult::Success(Response::PeerCreated(PeerInfo {
            peer_id: "dc-1".to_string(),
            token: "mc-1".to_string(),
        })),
    ];
    for event in events.iter() {
        assert_eq!(handle_event(event, &mut data, &mut media), Released::Nothing);
    }
    assert_eq!(data.find("dc-1"), Some(ends("a", "b")));
    assert_eq!(media.find("mc-1"), Some(transfer("video")));
}
