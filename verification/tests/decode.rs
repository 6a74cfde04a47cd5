use gateway_bridge::error::Error;
use gateway_bridge::response::{PeerInfo, Reply, Response, ResponseResult};

const PEER_CREATED: &str = r#"{
    "is_success":true,
    "result":{
        "request_type":"PEER",
        "command":"CREATE",
        "peer_id":"data_caller",
        "token":"pt-06cf1d26-0ef0-4b03-aca6-933027d434c2"
    }
}"#;

#[test]
fn a_created_peer_is_decoded_with_id_and_token() {
    let decoded = Reply::decode(PEER_CREATED.to_string()).unwrap().response;
    assert_eq!(
        decoded,
        ResponseResult::Success(Response::PeerCreated(PeerInfo {
            peer_id: "data_caller".to_string(),
            token: "pt-06cf1d26-0ef0-4b03-aca6-933027d434c2".to_string(),
        }))
    );
}

#[test]
fn a_reported_failure_is_decoded_as_an_answer() {
    let payload = r#"{"is_success":false,"result":"peer not found"}"#;
    let decoded = Reply::decode(payload.to_string());
    assert_eq!(
        decoded.unwrap(),
        Reply {
            response: ResponseResult::Error("peer not found".to_string()),
            payload: payload.to_string(),
        }
    );
}

#[test]
fn a_closed_data_connection_is_decoded_with_its_id() {
    let payload = r#"{"is_success":true,"result":{"request_type":"DATA","command":"EVENT","event":"CLOSE","data_connection_id":"dc-4995f372-fb6a-4196-b30a-ce11e5c7f56c"}}"#;
    assert_eq!(
        Reply::decode(payload.to_string()).unwrap().response,
        ResponseResult::Success(Response::DataConnectionClosed(
            "dc-4995f372-fb6a-4196-b30a-ce11e5c7f56c".to_string()
        ))
    );
}

#[test]
fn a_closed_media_connection_is_decoded_with_its_id() {
    let payload = r#"{"is_success":true,"result":{"request_type":"MEDIA","command":"EVENT","event":"CLOSE","media_connection_id":"mc-102127d9-30de-413b-93f7-41a33e39d82b"}}"#;
    assert_eq!(
        Reply::decode(payload.to_string()).unwrap().response,
        ResponseResult::Success(Response::MediaConnectionClosed(
            "mc-102127d9-30de-413b-93f7-41a33e39d82b".to_string()
        ))
    );
}

#[test]
fn any_other_success_is_decoded_as_other() {
    let deleted = r#"{"is_success":true,"result":{"request_type":"PEER","command":"DELETE","peer_id":"data_caller","token":"pt-87b54b79-643b-4c60-9c64-ead4ab902dee"}}"#;
    assert_eq!(
        Reply::decode(deleted.to_string()).unwrap().response,
        ResponseResult::Success(Response::Other)
    );
    let opened = r#"{"is_success":true,"result":{"request_type":"DATA","command":"EVENT","event":"OPEN","data_connection_id":"dc-4995f372-fb6a-4196-b30a-ce11e5c7f56c"}}"#;
    assert_eq!(
        Reply::decode(opened.to_string()).unwrap().response,
        ResponseResult::Success(Response::Other)
    );
}

#[test]
fn text_that_is_no_json_is_a_decode_error() {
    assert!(matches!(
        Reply::decode("invalid json".to_string()),
        Err(Error::DecodeError(_))
    ));
}

#[test]
fn json_of_another_shape_is_a_decode_error() {
    assert!(matches!(
        Reply::decode(r#"{"is_success":true}"#.to_string()),
        Err(Error::DecodeError(_))
    ));
    assert!(matches!(
        Reply::decode(r#"{"is_success":true,"result":{"request_type":"PEER","command":"CREATE"}}"#.to_string()),
        Err(Error::DecodeError(_))
    ));
    assert!(matches!(
        Reply::decode(r#"{"is_success":false,"result":{"request_type":"PEER"}}"#.to_string()),
        Err(Error::DecodeError(_))
    ));
}

#[test]
fn decoding_does_not_hand_the_payload_back() {
    let reply = Reply::decode(PEER_CREATED.to_string()).unwrap();
    assert_eq!(reply.payload, PEER_CREATED);
    let decoded = reply.response;
    assert_ne!(decoded, ResponseResult::Error(PEER_CREATED.to_string()));
    match decoded {
        ResponseResult::Success(Response::PeerCreated(info)) => {
            assert_ne!(info.peer_id, PEER_CREATED);
            assert_eq!(info.peer_id, "data_caller");
        }
        other => panic!("unexpected {:?}", other),
    }
}

#[test]
fn a_parsed_value_is_accepted_as_it_is() {
    let parsed = ResponseResult::Error("no".to_string());
    assert_eq!(
        Reply::accept(Ok(parsed.clone()), "text".to_string()).unwrap(),
        Reply {
            response: parsed,
            payload: "text".to_string(),
        }
    );
    let refused = skyway_webrtc_gateway_caller::error::Error::create_local_error("x");
    assert!(matches!(
        Reply::accept(Err(refused), "text".to_string()),
        Err(Error::DecodeError(_))
    ));
}

#[test]
fn a_local_error_carries_its_message() {
    match Error::create_local_error("error") {
        Error::LocalError(message) => assert_eq!(message, "error"),
        other => panic!("unexpected {:?}", other),
    }
}
