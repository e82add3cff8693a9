use iscp::autogen;
use iscp::codes::ResultCode;
use iscp::message as msg;

#[test]
fn connect_response() {
    let msg_value = msg::connect::ConnectResponse {
        request_id: 1.into(),
        protocol_version: "v1.0.0".to_string(),
        result_code: ResultCode::Succeeded,
        result_string: "ok".to_string(),
    };
    let proto = autogen::ConnectResponse {
        request_id: 1,
        protocol_version: "v1.0.0".to_string(),
        result_code: ResultCode::Succeeded.to_i32(),
        result_string: "ok".to_string(),
    };
    let p2m = msg::connect::ConnectResponse::from_proto(proto.clone());
    assert_eq!(p2m, msg_value.clone());
    let m2p = autogen::ConnectResponse::from(msg_value.clone());
    assert_eq!(m2p, proto.clone());
}

#[test]
fn disconnect() {
    let msg_value = msg::connect::Disconnect {
        result_code: ResultCode::Succeeded,
        result_string: "ok".to_string(),
    };
    let proto = autogen::Disconnect {
        result_code: ResultCode::Succeeded.to_i32(),
        result_string: "ok".to_string(),
    };
    let p2m = msg::connect::Disconnect::from_proto(proto.clone());
    assert_eq!(p2m, msg_value.clone());
    let m2p = autogen::Disconnect::from(msg_value.clone());
    assert_eq!(m2p, proto.clone());
}

#[test]
fn test_proto_from_to_ping() {
    let proto = autogen::Ping { request_id: 100 };
    let msg_value = msg::ping_pong::Ping { request_id: 100.into() };
    assert_eq!(msg_value, msg::ping_pong::Ping::from(proto.clone()));
    assert_eq!(autogen::Ping::from(msg_value), proto);
}

#[test]
fn test_proto_from_to_pong() {
    let proto = autogen::Pong { request_id: 100 };
    let msg_value = msg::ping_pong::Pong { request_id: 100.into() };
    assert_eq!(msg::ping_pong::Pong::from(proto.clone()), msg_value);
    assert_eq!(proto, autogen::Pong::from(msg_value));
}

#[test]
fn is_succeeded() {
    assert!(ResultCode::Succeeded.is_succeeded());
    assert!(!ResultCode::IncompatibleVersion.is_succeeded());
    assert!(!ResultCode::MaximumDataIdAlias.is_succeeded());
    assert!(!ResultCode::MaximumUpstreamAlias.is_succeeded());
    assert!(!ResultCode::UnspecifiedError.is_succeeded());
}
