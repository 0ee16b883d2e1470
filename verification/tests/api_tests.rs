//! Tests of the protocol envelope types.

use shepherd::api::{
    ClientInfo, ClientRole, Command, ErrorCode, ErrorInfo, Event, EventPayload, Request, Response,
    ResponsePayload, ResponseResult, API_VERSION,
};
use shepherd::ids::ClientId;
use shepherd::time::WallTime;

#[test]
fn request_envelope_carries_version() {
    let req = Request::new(1, Command::GetState);
    assert_eq!(req.request_id, 1);
    assert_eq!(req.api_version, API_VERSION);
    assert!(matches!(req.command, Command::GetState));
}

#[test]
fn response_envelopes() {
    let ok = Response::success(7, ResponsePayload::Pong);
    assert_eq!(ok.request_id, 7);
    assert!(matches!(ok.result, ResponseResult::Success(ResponsePayload::Pong)));

    let err = Response::error(8, ErrorInfo::new(ErrorCode::InvalidRequest, "bad".to_string()));
    assert_eq!(err.request_id, 8);
    match err.result {
        ResponseResult::Failure(e) => {
            assert_eq!(e.code, ErrorCode::InvalidRequest);
            assert_eq!(e.message, "bad");
        }
        _ => panic!("expected failure"),
    }
}

#[test]
fn event_envelope_carries_timestamp() {
    let ts = WallTime { days: 20447, secs: 12 * 3600 };
    let ev = Event::new(ts, EventPayload::Shutdown);
    assert_eq!(ev.api_version, API_VERSION);
    assert_eq!(ev.timestamp, ts);
    assert!(matches!(ev.payload, EventPayload::Shutdown));
}

#[test]
fn client_info_builder() {
    let id = ClientId::from_value(3);
    let info = ClientInfo::new(id, ClientRole::Shell).with_uid(1000);
    assert_eq!(info.client_id, id);
    assert_eq!(info.role, ClientRole::Shell);
    assert_eq!(info.uid, Some(1000));
    assert!(info.process_name.is_none());
}

#[test]
fn roles_gate_commands() {
    assert!(ClientRole::Shell.can_launch());
    assert!(ClientRole::Shell.can_stop());
    assert!(!ClientRole::Shell.can_extend());
    assert!(!ClientRole::Shell.can_reload_config());
    assert!(ClientRole::Admin.can_extend());
    assert!(ClientRole::Admin.can_reload_config());
    assert!(!ClientRole::Observer.can_launch());
    assert!(!ClientRole::Observer.can_stop());
}
