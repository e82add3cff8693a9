use chrono::TimeZone;
use iscp::autogen;
use iscp::codes::{QoS, ResultCode};
use iscp::data_id::{DataFilter, DataId, DownstreamFilter};
use iscp::message::connect::{AccessToken, ConnectRequest, ConnectResponse, Disconnect};
use iscp::message::data::{
    DataPointGroup, DownstreamChunk, DownstreamChunkAck, DownstreamChunkAckComplete,
    DownstreamChunkResult, StreamChunk, UpstreamChunk, UpstreamChunkAck, UpstreamChunkResult,
    UpstreamInfo, UpstreamOrAlias,
};
use iscp::message::downstream::{
    DownstreamCloseRequest, DownstreamCloseResponse, DownstreamOpenRequest,
    DownstreamOpenResponse, DownstreamResumeRequest, DownstreamResumeResponse,
};
use iscp::message::e2e::{DownstreamCall, UpstreamCall, UpstreamCallAck};
use iscp::message::metadata::{
    BaseTime, DownstreamAbnormalClose, DownstreamMetadata, DownstreamMetadataAck,
    DownstreamNormalClose, DownstreamOpen, DownstreamResume, ReceivableMetadata,
    SendableMetadata, UpstreamAbnormalClose, UpstreamMetadata, UpstreamMetadataAck,
    UpstreamNormalClose, UpstreamOpen, UpstreamResume,
};
use iscp::message::ping_pong::{Ping, Pong};
use iscp::message::time::TimeDelta;
use iscp::message::upstream::{
    UpstreamCloseRequest, UpstreamCloseRequestExtensionFields, UpstreamCloseResponse,
    UpstreamOpenRequest, UpstreamOpenResponse, UpstreamResumeRequest, UpstreamResumeResponse,
};
use iscp::message::Message;
use std::collections::HashMap;

fn uuid_value(s: &str) -> u128 {
    uuid::Uuid::parse_str(s).unwrap().as_u128()
}

fn uuid_bytes(s: &str) -> Vec<u8> {
    uuid::Uuid::parse_str(s).unwrap().as_bytes().to_vec()
}

fn nanos_of(t: chrono::DateTime<chrono::Utc>) -> i128 {
    t.timestamp() as i128 * 1_000_000_000 + t.timestamp_subsec_nanos() as i128
}

struct Case {
    msg: Message,
    proto: autogen::Message,
}

impl Case {
    fn test(&self) {
        let p2m = Message::try_from(self.proto.clone()).unwrap();
        assert!(p2m == self.msg.clone());
        let m2p = self.msg.clone().to_proto();
        assert_eq!(m2p, self.proto.clone());
    }
}

fn wire(m: autogen::message::Message) -> autogen::Message {
    autogen::Message { message: Some(m) }
}

#[test]
fn test_message_from_to_proto() {
    let bt = BaseTime {
        session_id: "session_id".to_string(),
        name: String::from("name"),
        priority: 1,
        elapsed_time: TimeDelta::seconds(2),
        base_time: nanos_of(chrono::Utc.with_ymd_and_hms(2000, 1, 2, 3, 4, 5).unwrap()),
    };
    let wire_bt = || autogen::BaseTime {
        session_id: "session_id".to_string(),
        name: String::from("name"),
        priority: 1,
        elapsed_time: 2_000_000_000,
        base_time: chrono::Utc
            .with_ymd_and_hms(2000, 1, 2, 3, 4, 5)
            .unwrap()
            .timestamp_nanos_opt()
            .unwrap(),
    };

    let data_id = DataId::parse_str("test_id_type:test_id").unwrap();
    let id_alias: HashMap<u32, DataId> = [(1, data_id.clone())].iter().cloned().collect();
    let autogen_id_alias: HashMap<u32, DataId> = [(1, data_id.clone())].iter().cloned().collect();

    let data_filter = DataFilter {
        name: "test".to_string(),
        type_: "test_field_type".to_string(),
    };
    let down_filter = DownstreamFilter {
        source_node_id: "8aa70edc-3daf-4ae5-ace9-20e3c09426d3".to_string(),
        data_filters: vec![data_filter],
    };

    let upstream_aliases: HashMap<u32, UpstreamInfo> = [(
        1_u32,
        UpstreamInfo {
            source_node_id: "source_node_id".to_string(),
            session_id: "session_id".to_string(),
            stream_id: uuid_value("11111111-1111-1111-1111-111111111111"),
        },
    )]
    .iter()
    .cloned()
    .collect();
    let wire_upstream_aliases: HashMap<u32, autogen::UpstreamInfo> = [(
        1_u32,
        autogen::UpstreamInfo {
            source_node_id: "source_node_id".to_string(),
            session_id: "session_id".to_string(),
            stream_id: uuid_bytes("11111111-1111-1111-1111-111111111111"),
        },
    )]
    .iter()
    .cloned()
    .collect();

    let point = autogen::DataPoint {
        elapsed_time: chrono::Duration::seconds(100).num_nanoseconds().unwrap(),
        payload: vec![1, 2, 3, 4],
    };
    let data_point_group = DataPointGroup {
        data_points: vec![point.clone()],
        data_id_or_alias: autogen::DataIdOrAlias::DataIdAlias(9),
    };
    let stream_chunk = StreamChunk {
        sequence_number: 0,
        data_point_groups: vec![data_point_group.clone()],
    };
    let wire_chunk = || autogen::StreamChunk {
        sequence_number: 0,
        data_point_groups: vec![autogen::DataPointGroup {
            data_points: vec![point.clone()],
            data_id_or_alias: Some(autogen::DataIdOrAlias::DataIdAlias(9)),
        }],
    };

    let upstream_data_points_result = UpstreamChunkResult {
        sequence_number: 1,
        result_code: ResultCode::Succeeded,
        result_string: "ok".to_string(),
    };
    let downstream_data_points_result = DownstreamChunkResult {
        sequence_number_in_upstream: 1,
        stream_id_of_upstream: uuid_value("11111111-1111-1111-1111-111111111111"),
        result_code: ResultCode::Succeeded,
        result_string: "ok".to_string(),
    };
    let stream_uuid = "b6ac8145-0dbb-4660-a99a-d891f6b74db5";

    let mut cases = Vec::new();
    // connect
    cases.push(Case {
        msg: Message::ConnectRequest(ConnectRequest {
            request_id: 1.into(),
            protocol_version: "v1.0.0".to_string(),
            node_id: "2dda7df9-cfd8-4aba-a577-f05dec10b1d9".to_string(),
            ping_interval: TimeDelta::seconds(10),
            ping_timeout: TimeDelta::seconds(1),
            access_token: Some(AccessToken::new("access_token")),
            project_uuid: None,
        }),
        proto: wire(autogen::message::Message::ConnectRequest(autogen::ConnectRequest {
            request_id: 1,
            protocol_version: "v1.0.0".to_string(),
            node_id: "2dda7df9-cfd8-4aba-a577-f05dec10b1d9".to_string(),
            ping_interval: 10u32,
            ping_timeout: 1u32,
            extension_fields: Some(autogen::ConnectRequestExtensionFields {
                access_token: "access_token".into(),
                intdash: None,
            }),
        })),
    });
    cases.push(Case {
        msg: Message::ConnectResponse(ConnectResponse {
            request_id: 1.into(),
            protocol_version: "v1.0.0".to_string(),
            result_code: ResultCode::UnspecifiedError,
            result_string: "error".to_string(),
        }),
        proto: wire(autogen::message::Message::ConnectResponse(autogen::ConnectResponse {
            request_id: 1,
            protocol_version: "v1.0.0".to_string(),
            result_code: ResultCode::UnspecifiedError.to_i32(),
            result_string: "error".to_string(),
        })),
    });
    cases.push(Case {
        msg: Message::Disconnect(Disconnect {
            result_code: ResultCode::UnspecifiedError,
            result_string: "error".to_string(),
        }),
        proto: wire(autogen::message::Message::Disconnect(autogen::Disconnect {
            result_code: ResultCode::UnspecifiedError.to_i32(),
            result_string: "error".to_string(),
        })),
    });
    // upstream
    cases.push(Case {
        msg: Message::UpstreamOpenRequest(UpstreamOpenRequest {
            request_id: 1.into(),
            session_id: "session".to_string(),
            ack_interval: TimeDelta::seconds(1),
            expiry_interval: TimeDelta::seconds(1),
            data_ids: vec![data_id.clone()],
            qos: QoS::Reliable,
            persist: Some(true),
        }),
        proto: wire(autogen::message::Message::UpstreamOpenRequest(
            autogen::UpstreamOpenRequest {
                request_id: 1,
                session_id: "session".to_string(),
                ack_interval: chrono::Duration::seconds(1).num_milliseconds() as u32,
                expiry_interval: chrono::Duration::seconds(1).num_seconds() as u32,
                data_ids: vec![data_id.clone()],
                qos: QoS::Reliable.to_i32(),
                extension_fields: Some(autogen::UpstreamOpenRequestExtensionFields {
                    persist: true,
                }),
            },
        )),
    });
    cases.push(Case {
        msg: Message::UpstreamOpenResponse(UpstreamOpenResponse {
            request_id: 1.into(),
            result_code: ResultCode::Succeeded,
            result_string: "ok".to_string(),
            assigned_stream_id: uuid_value(stream_uuid),
            assigned_stream_id_alias: 2,
            data_id_aliases: id_alias.clone(),
            server_time: nanos_of(chrono::Utc.timestamp_opt(1, 420_000_000).unwrap()),
        }),
        proto: wire(autogen::message::Message::UpstreamOpenResponse(
            autogen::UpstreamOpenResponse {
                request_id: 1,
                result_code: ResultCode::Succeeded.to_i32(),
                result_string: "ok".to_string(),
                assigned_stream_id: uuid_bytes(stream_uuid),
                assigned_stream_id_alias: 2,
                data_id_aliases: autogen_id_alias.clone(),
                server_time: 1_420_000_000,
            },
        )),
    });
    cases.push(Case {
        msg: Message::UpstreamResumeRequest(UpstreamResumeRequest {
            request_id: 1.into(),
            stream_id: uuid_value(stream_uuid),
        }),
        proto: wire(autogen::message::Message::UpstreamResumeRequest(
            autogen::UpstreamResumeRequest {
                request_id: 1,
                stream_id: uuid_bytes(stream_uuid),
            },
        )),
    });
    cases.push(Case {
        msg: Message::UpstreamResumeResponse(UpstreamResumeResponse {
            request_id: 1.into(),
            assigned_stream_id_alias: 2,
            result_code: ResultCode::Succeeded,
            result_string: "ok".to_string(),
        }),
        proto: wire(autogen::message::Message::UpstreamResumeResponse(
            autogen::UpstreamResumeResponse {
                request_id: 1,
                assigned_stream_id_alias: 2,
                result_code: ResultCode::Succeeded.to_i32(),
                result_string: "ok".to_string(),
            },
        )),
    });
    cases.push(Case {
        msg: Message::UpstreamCloseRequest(UpstreamCloseRequest {
            request_id: 1.into(),
            stream_id: uuid_value(stream_uuid),
            total_data_points: 2,
            final_sequence_number: 3,
            extension_fields: Some(UpstreamCloseRequestExtensionFields { close_session: true }),
        }),
        proto: wire(autogen::message::Message::UpstreamCloseRequest(
            autogen::UpstreamCloseRequest {
                request_id: 1,
                stream_id: uuid_bytes(stream_uuid),
                total_data_points: 2,
                final_sequence_number: 3,
                extension_fields: Some(autogen::UpstreamCloseRequestExtensionFields {
                    close_session: true,
                }),
            },
        )),
    });
    cases.push(Case {
        msg: Message::UpstreamCloseResponse(UpstreamCloseResponse {
            request_id: 1.into(),
            result_code: ResultCode::UnspecifiedError,
            result_string: "error".to_string(),
        }),
        proto: wire(autogen::message::Message::UpstreamCloseResponse(
            autogen::UpstreamCloseResponse {
                request_id: 1,
                result_code: ResultCode::UnspecifiedError.to_i32(),
                result_string: "error".to_string(),
            },
        )),
    });
    // downstream
    cases.push(Case {
        msg: Message::DownstreamOpenRequest(DownstreamOpenRequest {
            request_id: 1.into(),
            desired_stream_id_alias: 2,
            downstream_filters: vec![down_filter.clone()],
            expiry_interval: TimeDelta::seconds(1),
            data_id_aliases: id_alias.clone(),
            qos: QoS::Reliable,
            omit_empty_chunk: false,
        }),
        proto: wire(autogen::message::Message::DownstreamOpenRequest(
            autogen::DownstreamOpenRequest {
                request_id: 1,
                desired_stream_id_alias: 2,
                expiry_interval: chrono::Duration::seconds(1).num_seconds() as u32,
                downstream_filters: vec![down_filter.clone()],
                data_id_aliases: id_alias.clone(),
                qos: QoS::Reliable.to_i32(),
                omit_empty_chunk: false,
            },
        )),
    });
    cases.push(Case {
        msg: Message::DownstreamOpenResponse(DownstreamOpenResponse {
            request_id: 1.into(),
            server_time: nanos_of(chrono::Utc.timestamp_opt(123_456_789, 123_456_789).unwrap()),
            result_code: ResultCode::Succeeded,
            result_string: "ok".to_string(),
            assigned_stream_id: uuid_value(stream_uuid),
        }),
        proto: wire(autogen::message::Message::DownstreamOpenResponse(
            autogen::DownstreamOpenResponse {
                request_id: 1,
                server_time: chrono::Utc
                    .timestamp_opt(123_456_789, 123_456_789)
                    .unwrap()
                    .timestamp_nanos_opt()
                    .unwrap_or_default(),
                result_code: ResultCode::Succeeded.to_i32(),
                result_string: "ok".to_string(),
                assigned_stream_id: uuid_bytes(stream_uuid),
            },
        )),
    });
    cases.push(Case {
        msg: Message::DownstreamResumeRequest(DownstreamResumeRequest {
            request_id: 1.into(),
            desired_stream_id_alias: 2,
            stream_id: uuid_value(stream_uuid),
        }),
        proto: wire(autogen::message::Message::DownstreamResumeRequest(
            autogen::DownstreamResumeRequest {
                request_id: 1,
                desired_stream_id_alias: 2,
                stream_id: uuid_bytes(stream_uuid),
            },
        )),
    });
    cases.push(Case {
        msg: Message::DownstreamResumeResponse(DownstreamResumeResponse {
            request_id: 1.into(),
            result_code: ResultCode::Succeeded,
            result_string: "ok".to_string(),
        }),
        proto: wire(autogen::message::Message::DownstreamResumeResponse(
            autogen::DownstreamResumeResponse {
                request_id: 1,
                result_code: ResultCode::Succeeded.to_i32(),
                result_string: "ok".to_string(),
            },
        )),
    });
    cases.push(Case {
        msg: Message::DownstreamCloseRequest(DownstreamCloseRequest {
            request_id: 1.into(),
            stream_id: uuid_value(stream_uuid),
        }),
        proto: wire(autogen::message::Message::DownstreamCloseRequest(
            autogen::DownstreamCloseRequest {
                request_id: 1,
                stream_id: uuid_bytes(stream_uuid),
            },
        )),
    });
    cases.push(Case {
        msg: Message::DownstreamCloseResponse(DownstreamCloseResponse {
            request_id: 1.into(),
            result_code: ResultCode::UnspecifiedError,
            result_string: "error".to_string(),
        }),
        proto: wire(autogen::message::Message::DownstreamCloseResponse(
            autogen::DownstreamCloseResponse {
                request_id: 1,
                result_code: ResultCode::UnspecifiedError.to_i32(),
                result_string: "error".to_string(),
            },
        )),
    });
    // stream
    cases.push(Case {
        msg: Message::UpstreamChunk(UpstreamChunk {
            stream_id_alias: 2,
            stream_chunk: stream_chunk.clone(),
            data_ids: vec![],
        }),
        proto: wire(autogen::message::Message::UpstreamChunk(autogen::UpstreamChunk {
            stream_id_alias: 2,
            stream_chunk: Some(wire_chunk()),
            data_ids: vec![],
        })),
    });
    cases.push(Case {
        msg: Message::UpstreamChunkAck(UpstreamChunkAck {
            stream_id_alias: 2,
            results: vec![upstream_data_points_result.clone()],
            data_id_aliases: id_alias.clone(),
        }),
        proto: wire(autogen::message::Message::UpstreamChunkAck(autogen::UpstreamChunkAck {
            stream_id_alias: 2,
            results: vec![upstream_data_points_result.into()],
            data_id_aliases: autogen_id_alias.clone(),
        })),
    });
    cases.push(Case {
        msg: Message::DownstreamChunk(DownstreamChunk {
            stream_id_alias: 2,
            stream_chunk: stream_chunk.clone(),
            upstream_or_alias: UpstreamOrAlias::Alias(2),
        }),
        proto: wire(autogen::message::Message::DownstreamChunk(autogen::DownstreamChunk {
            stream_id_alias: 2,
            stream_chunk: Some(wire_chunk()),
            upstream_or_alias: Some(autogen::UpstreamOrAlias::UpstreamAlias(2)),
        })),
    });
    cases.push(Case {
        msg: Message::DownstreamChunkAck(DownstreamChunkAck {
            stream_id_alias: 2,
            ack_id: 1,
            results: vec![downstream_data_points_result.clone()],
            upstream_aliases: upstream_aliases.clone(),
            data_id_aliases: id_alias.clone(),
        }),
        proto: wire(autogen::message::Message::DownstreamChunkAck(autogen::DownstreamChunkAck {
            ack_id: 1,
            stream_id_alias: 2,
            results: vec![downstream_data_points_result.to_proto()],
            data_id_aliases: autogen_id_alias.clone(),
            upstream_aliases: wire_upstream_aliases,
        })),
    });
    cases.push(Case {
        msg: Message::DownstreamChunkAckComplete(DownstreamChunkAckComplete {
            stream_id_alias: 1,
            ack_id: 2,
            result_code: ResultCode::Succeeded,
            result_string: "ok".to_string(),
        }),
        proto: wire(autogen::message::Message::DownstreamChunkAckComplete(
            autogen::DownstreamChunkAckComplete {
                stream_id_alias: 1,
                ack_id: 2,
                result_code: ResultCode::Succeeded.to_i32(),
                result_string: "ok".to_string(),
            },
        )),
    });
    // e2e
    cases.push(Case {
        msg: Message::UpstreamCall(UpstreamCall {
            call_id: "call_id".to_string(),
            request_call_id: "request_call_id".to_string(),
            destination_node_id: "node_id".to_string(),
            name: "name".to_string(),
            type_: "type".to_string(),
            payload: vec![1, 2, 3, 4],
        }),
        proto: wire(autogen::message::Message::UpstreamCall(autogen::UpstreamCall {
            call_id: "call_id".to_string(),
            request_call_id: "request_call_id".to_string(),
            destination_node_id: "node_id".to_string(),
            name: "name".to_string(),
            type_: "type".to_string(),
            payload: vec![1, 2, 3, 4],
        })),
    });
    cases.push(Case {
        msg: Message::UpstreamCallAck(UpstreamCallAck {
            call_id: "call_id".to_string(),
            result_code: ResultCode::Succeeded,
            result_string: "OK".to_string(),
        }),
        proto: wire(autogen::message::Message::UpstreamCallAck(autogen::UpstreamCallAck {
            call_id: "call_id".to_string(),
            result_code: ResultCode::Succeeded.to_i32(),
            result_string: "OK".to_string(),
        })),
    });
    cases.push(Case {
        msg: Message::DownstreamCall(DownstreamCall {
            call_id: "call_id".to_string(),
            request_call_id: "request_call_id".to_string(),
            source_node_id: "node_id".to_string(),
            name: "name".to_string(),
            type_: "type".to_string(),
            payload: vec![1, 2, 3, 4],
        }),
        proto: wire(autogen::message::Message::DownstreamCall(autogen::DownstreamCall {
            call_id: "call_id".to_string(),
            request_call_id: "request_call_id".to_string(),
            source_node_id: "node_id".to_string(),
            name: "name".to_string(),
            type_: "type".to_string(),
            payload: vec![1, 2, 3, 4],
        })),
    });
    // ping
    cases.push(Case {
        msg: Message::Ping(Ping { request_id: 1.into() }),
        proto: wire(autogen::message::Message::Ping(autogen::Ping { request_id: 1 })),
    });
    // pong
    cases.push(Case {
        msg: Message::Pong(Pong { request_id: 1.into() }),
        proto: wire(autogen::message::Message::Pong(autogen::Pong { request_id: 1 })),
    });
    // metadata
    cases.push(Case {
        msg: Message::UpstreamMetadata(UpstreamMetadata {
            request_id: 1.into(),
            metadata: SendableMetadata::BaseTime(bt.clone()),
            persist: Some(true),
        }),
        proto: wire(autogen::message::Message::UpstreamMetadata(autogen::UpstreamMetadata {
            request_id: 1,
            metadata: Some(autogen::UpstreamMetadataContent::BaseTime(wire_bt())),
            extension_fields: Some(autogen::UpstreamMetadataExtensionFields { persist: true }),
        })),
    });
    cases.push(Case {
        msg: Message::UpstreamMetadataAck(UpstreamMetadataAck {
            request_id: 1.into(),
            result_code: ResultCode::Succeeded,
            result_string: "ok".to_string(),
        }),
        proto: wire(autogen::message::Message::UpstreamMetadataAck(
            autogen::UpstreamMetadataAck {
                request_id: 1,
                result_code: ResultCode::Succeeded.to_i32(),
                result_string: "ok".to_string(),
            },
        )),
    });
    cases.push(Case {
        msg: Message::DownstreamMetadata(DownstreamMetadata {
            request_id: 1.into(),
            stream_id_alias: 2,
            source_node_id: "source_node_id".to_string(),
            metadata: ReceivableMetadata::BaseTime(bt.clone()),
        }),
        proto: wire(autogen::message::Message::DownstreamMetadata(autogen::DownstreamMetadata {
            request_id: 1,
            stream_id_alias: 2,
            source_node_id: "source_node_id".to_string(),
            metadata: Some(autogen::DownstreamMetadataContent::BaseTime(wire_bt())),
        })),
    });
    cases.push(Case {
        msg: Message::DownstreamMetadataAck(DownstreamMetadataAck {
            request_id: 1.into(),
            result_code: ResultCode::Succeeded,
            result_string: "ok".to_string(),
        }),
        proto: wire(autogen::message::Message::DownstreamMetadataAck(
            autogen::DownstreamMetadataAck {
                request_id: 1,
                result_code: ResultCode::Succeeded.to_i32(),
                result_string: "ok".to_string(),
            },
        )),
    });
    cases.into_iter().for_each(|case| {
        case.test();
    });
}

#[test]
fn connect_request() {
    let msg_value = ConnectRequest {
        request_id: 1.into(),
        protocol_version: "v1.0.0".to_string(),
        node_id: "2c2912e5-ce57-4453-a528-39850029744e".to_string(),
        ping_interval: TimeDelta::seconds(10),
        ping_timeout: TimeDelta::seconds(1),
        access_token: Some(AccessToken::new("access_token")),
        project_uuid: None,
    };
    let proto = autogen::ConnectRequest {
        request_id: 1,
        protocol_version: "v1.0.0".to_string(),
        node_id: "2c2912e5-ce57-4453-a528-39850029744e".to_string(),
        ping_interval: 10,
        ping_timeout: 1,
        extension_fields: Some(autogen::ConnectRequestExtensionFields {
            access_token: "access_token".into(),
            ..Default::default()
        }),
    };
    let p2m = ConnectRequest::from_proto(proto.clone());
    assert!(p2m == msg_value.clone());
    let m2p = msg_value.clone().to_proto();
    assert_eq!(m2p, proto.clone());
}

#[test]
fn utf8() {
    let info = autogen::UpstreamInfo {
        stream_id: vec![0, 159, 146, 150],
        ..Default::default()
    };
    let want = UpstreamInfo::default();
    assert_eq!(want, UpstreamInfo::from_proto(&info))
}

#[test]
fn downstream_invalid_uuid() {
    let testee = autogen::DownstreamOpenResponse {
        assigned_stream_id: vec![0, 159, 146, 150],
        ..Default::default()
    };
    assert_eq!(DownstreamOpenResponse::default(), DownstreamOpenResponse::from_proto(testee));
    let testee = autogen::DownstreamResumeRequest {
        stream_id: vec![0, 159, 146, 150],
        ..Default::default()
    };
    assert_eq!(DownstreamResumeRequest::default(), DownstreamResumeRequest::from_proto(testee));
    let testee = autogen::DownstreamCloseRequest {
        stream_id: vec![0, 159, 146, 150],
        ..Default::default()
    };
    assert_eq!(DownstreamCloseRequest::default(), DownstreamCloseRequest::from_proto(testee));
}

#[test]
fn metadata_invalid_uuid() {
    let bad = || vec![0, 159, 146, 150];
    assert_eq!(
        DownstreamAbnormalClose::default(),
        DownstreamAbnormalClose::from_proto(autogen::DownstreamAbnormalClose { stream_id: bad() })
    );
    assert_eq!(
        DownstreamNormalClose::default(),
        DownstreamNormalClose::from_proto(autogen::DownstreamNormalClose { stream_id: bad() })
    );
    assert_eq!(
        DownstreamOpen::default(),
        DownstreamOpen::from_proto(autogen::DownstreamOpen {
            stream_id: bad(),
            ..Default::default()
        })
    );
    assert_eq!(
        DownstreamResume::default(),
        DownstreamResume::from_proto(autogen::DownstreamResume {
            stream_id: bad(),
            ..Default::default()
        })
    );
    assert_eq!(
        UpstreamAbnormalClose::default(),
        UpstreamAbnormalClose::from_proto(autogen::UpstreamAbnormalClose {
            stream_id: bad(),
            ..Default::default()
        })
    );
    assert_eq!(
        UpstreamNormalClose::default(),
        UpstreamNormalClose::from_proto(autogen::UpstreamNormalClose {
            stream_id: bad(),
            ..Default::default()
        })
    );
    assert_eq!(
        UpstreamOpen::default(),
        UpstreamOpen::from_proto(autogen::UpstreamOpen {
            stream_id: bad(),
            ..Default::default()
        })
    );
    assert_eq!(
        UpstreamResume::default(),
        UpstreamResume::from_proto(autogen::UpstreamResume {
            stream_id: bad(),
            ..Default::default()
        })
    );
}

#[test]
fn upstream_invalid_uuid() {
    let testee = autogen::UpstreamOpenResponse {
        assigned_stream_id: vec![0, 159, 146, 150],
        ..Default::default()
    };
    assert_eq!(UpstreamOpenResponse::default(), UpstreamOpenResponse::from_proto(testee));
    let testee = autogen::UpstreamResumeRequest {
        stream_id: vec![0, 159, 146, 150],
        ..Default::default()
    };
    assert_eq!(UpstreamResumeRequest::default(), UpstreamResumeRequest::from_proto(testee));
    let testee = autogen::UpstreamCloseRequest {
        stream_id: vec![0, 159, 146, 150],
        ..Default::default()
    };
    assert_eq!(UpstreamCloseRequest::default(), UpstreamCloseRequest::from_proto(testee));
}
