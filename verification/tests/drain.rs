use gateway_bridge::error::Error;
use gateway_bridge::repository::{
    receive_event, receive_event_check, receive_event_polled, register, register_payload,
    register_replied, register_sent, Exchange, Poll, Round, Turn, POLL_INTERVAL_MS,
};
use gateway_bridge::request::{PeerCommand, PeerServiceParams, Request};
use gateway_bridge::response::{Reply, Response, ResponseResult};

const PEER_DELETED: &str = r#"{"is_success":true,"result":{"request_type":"PEER","command":"DELETE","peer_id":"data_caller","token":"pt-87b54b79-643b-4c60-9c64-ead4ab902dee"}}"#;

fn deleted() -> Reply {
    Reply {
        response: ResponseResult::Success(Response::Other),
        payload: PEER_DELETED.to_string(),
    }
}

fn running(poll: Poll) -> Round {
    Round {
        shutting_down: false,
        poll,
    }
}

fn local(error: Error) -> String {
    match error {
        Error::LocalError(message) => message,
        other => panic!("unexpected {:?}", other),
    }
}

#[test]
fn the_poll_interval_is_a_second() {
    assert_eq!(POLL_INTERVAL_MS, 1000);
}

#[test]
fn a_delivered_command_goes_on_to_the_reply() {
    assert!(register_sent(true).is_ok());
}

#[test]
fn a_failed_send_ends_the_round_trip() {
    assert_eq!(
        local(register_sent(false).unwrap_err()),
        "could not send request to backend"
    );
}

#[test]
fn a_dropped_slot_ends_the_round_trip() {
    assert_eq!(
        local(register_replied(None).unwrap_err()),
        "could not receive response from backend"
    );
}

#[test]
fn a_reply_is_decoded() {
    assert_eq!(
        register_replied(Some(PEER_DELETED.to_string())).unwrap(),
        deleted()
    );
    assert!(matches!(
        register_replied(Some("{".to_string())),
        Err(Error::DecodeError(_))
    ));
}

#[test]
fn the_loop_head_stops_on_shutdown_only() {
    match receive_event_check(false) {
        Turn::Wait { millis } => assert_eq!(millis, 1000),
        other => panic!("unexpected {:?}", other),
    }
    match receive_event_check(true) {
        Turn::Stop(error) => assert_eq!(local(error), "worker has been shut down"),
        other => panic!("unexpected {:?}", other),
    }
}

#[test]
fn the_loop_foot_ends_on_payload_and_closure() {
    assert!(receive_event_polled(Poll::TimedOut).is_none());
    assert_eq!(
        local(receive_event_polled(Poll::Closed).unwrap().unwrap_err()),
        "receiver is closed"
    );
    assert_eq!(
        receive_event_polled(Poll::Payload(PEER_DELETED.to_string()))
            .unwrap()
            .unwrap(),
        deleted()
    );
    assert!(matches!(
        receive_event_polled(Poll::Payload("invalid json".to_string())),
        Some(Err(Error::DecodeError(_)))
    ));
}

#[test]
fn no_turns_no_ending() {
    assert!(receive_event(&vec![]).is_none());
    assert!(receive_event(&vec![running(Poll::TimedOut), running(Poll::TimedOut)]).is_none());
}

#[test]
fn the_first_payload_ends_the_loop() {
    let rounds = vec![
        running(Poll::TimedOut),
        running(Poll::Payload(PEER_DELETED.to_string())),
        running(Poll::Closed),
    ];
    assert_eq!(
        receive_event(&rounds).unwrap().unwrap(),
        deleted()
    );
}

#[test]
fn a_closed_channel_ends_the_loop() {
    let rounds = vec![
        running(Poll::TimedOut),
        running(Poll::TimedOut),
        running(Poll::Closed),
        running(Poll::Payload(PEER_DELETED.to_string())),
    ];
    assert_eq!(
        local(receive_event(&rounds).unwrap().unwrap_err()),
        "receiver is closed"
    );
}

#[test]
fn shutdown_is_seen_before_the_wait() {
    let rounds = vec![
        running(Poll::TimedOut),
        Round {
            shutting_down: true,
            poll: Poll::Payload(PEER_DELETED.to_string()),
        },
    ];
    assert_eq!(
        local(receive_event(&rounds).unwrap().unwrap_err()),
        "worker has been shut down"
    );
}

#[test]
fn the_payload_of_a_round_trip_is_the_written_request() {
    let request = Request::Peer(PeerServiceParams {
        command: PeerCommand::Status,
        params: "{\"peer_id\":\"p\"}".to_string(),
    });
    assert_eq!(
        register_payload(&request),
        "{\"type\":\"PEER\",\"command\":\"STATUS\",\"params\":{\"peer_id\":\"p\"}}"
    );
    assert_eq!(register_payload(&request), request.to_wire());
}

#[test]
fn a_whole_round_trip_ends_as_its_steps_do() {
    assert_eq!(
        local(register(Exchange::SendFailed).unwrap_err()),
        "could not send request to backend"
    );
    assert_eq!(
        local(register(Exchange::NoReply).unwrap_err()),
        "could not receive response from backend"
    );
    assert_eq!(
        register(Exchange::Reply(PEER_DELETED.to_string())).unwrap(),
        deleted()
    );
    assert!(matches!(
        register(Exchange::Reply("invalid json".to_string())),
        Err(Error::DecodeError(_))
    ));
    let refused = r#"{"is_success":false,"result":"no"}"#;
    assert_eq!(
        register(Exchange::Reply(refused.to_string())).unwrap(),
        Reply {
            response: ResponseResult::Error("no".to_string()),
            payload: refused.to_string(),
        }
    );
}
