use std::collections::HashMap;

use iscp::autogen;
use iscp::codes::{QoS, ResultCode};
use iscp::data_id::{DataId, DataIdParseError};
use iscp::duration::Duration;
use iscp::error::Error;
use iscp::iscp::connect::{check_close, ConnParams};
use iscp::iscp::down_order::{DownReorderer, DownstreamReordering};
use iscp::iscp::e2e::new_call_id;
use iscp::iscp::flush_policy::FlushPolicy;
use iscp::iscp::misc::{parse_stream_id, stream_id_to_bytes};
use iscp::iscp::types::{DownstreamChunk, UpstreamInfo};
use iscp::iscp::upstream::UpstreamFlusher;
use iscp::message::data::{DataPointGroup, StreamChunk, UpstreamChunk};
use iscp::message::metadata::UpstreamNormalClose;
use iscp::message::ping_pong::Ping;
use iscp::message::time::{time_from_wire, time_to_wire, TimeDelta, MIN_TIME_NANOS};
use iscp::message::connect::{AccessToken, ConnectRequest};
use iscp::message::upstream::UpstreamOpenRequest;
use iscp::message::Message;

const STREAM: &str = "b6ac8145-0dbb-4660-a99a-d891f6b74db5";

fn chunk(seq: u32) -> DownstreamChunk {
    DownstreamChunk {
        sequence_number: seq,
        data_point_groups: vec![],
        upstream: UpstreamInfo {
            session_id: "session".to_string(),
            stream_id: 7,
            source_node_id: "node".to_string(),
        },
    }
}

fn seqs(v: &[DownstreamChunk]) -> Vec<u32> {
    v.iter().map(|c| c.sequence_number).collect()
}

#[test]
fn time_delta_rounds_toward_zero_as_chrono() {
    for n in [-1_500_000_000i64, -999_999_999, 0, 1, 2_500_000_000, 1_999_999_999] {
        let ours = TimeDelta::nanoseconds(n);
        let theirs = chrono::Duration::nanoseconds(n);
        assert_eq!(ours.num_seconds(), theirs.num_seconds());
        assert_eq!(ours.num_milliseconds(), theirs.num_milliseconds());
        assert_eq!(ours.num_nanoseconds(), theirs.num_nanoseconds());
    }
    assert_eq!(TimeDelta::nanoseconds(-1_500_000_000).num_seconds(), -1);
    assert_eq!(TimeDelta::milliseconds(1500).num_seconds(), 1);
    assert_eq!(TimeDelta::milliseconds(1500).num_milliseconds(), 1500);
    assert_eq!(TimeDelta::seconds(10).num_nanoseconds(), Some(10_000_000_000));
    assert_eq!(TimeDelta::seconds(i64::MAX / 1000).num_nanoseconds(), None);
    assert_eq!(TimeDelta::zero().num_seconds(), 0);
}

#[test]
fn earliest_time_is_the_one_of_chrono() {
    let min = chrono::DateTime::<chrono::Utc>::MIN_UTC;
    assert_eq!(MIN_TIME_NANOS, min.timestamp() as i128 * 1_000_000_000);
}

#[test]
fn wire_time_reading_and_writing() {
    assert_eq!(time_from_wire(5), 5);
    assert_eq!(time_from_wire(-2_000_000_000), -2_000_000_000);
    assert_eq!(time_from_wire(-1), 0);
    assert!(chrono::DateTime::from_timestamp(-1 / 1_000_000_000, (-1i64 % 1_000_000_000) as u32).is_none());
    assert_eq!(time_to_wire(42), 42);
    assert_eq!(time_to_wire(i64::MAX as i128 + 1), 0);
    assert_eq!(time_to_wire(MIN_TIME_NANOS), 0);
}

#[test]
fn reorderer_hands_out_in_order() {
    let mut r = DownReorderer::new(true, DownstreamReordering::BestEffort, 10);
    assert!(r.enabled());
    assert_eq!(seqs(&r.iter(chunk(1)).unwrap()), vec![1]);
    assert_eq!(seqs(&r.iter(chunk(3)).unwrap()), Vec::<u32>::new());
    assert_eq!(seqs(&r.iter(chunk(4)).unwrap()), Vec::<u32>::new());
    assert_eq!(seqs(&r.iter(chunk(2)).unwrap()), vec![2, 3, 4]);
}

#[test]
fn reorderer_off_hands_out_each_chunk() {
    let mut r = DownReorderer::new(false, DownstreamReordering::Strict, 1);
    assert!(!r.enabled());
    assert_eq!(seqs(&r.iter(chunk(5)).unwrap()), vec![5]);
    assert_eq!(seqs(&r.iter(chunk(3)).unwrap()), vec![3]);
}

#[test]
fn strict_reorderer_refuses_when_full() {
    let mut r = DownReorderer::new(true, DownstreamReordering::Strict, 1);
    assert_eq!(seqs(&r.iter(chunk(1)).unwrap()), vec![1]);
    assert_eq!(seqs(&r.iter(chunk(3)).unwrap()), Vec::<u32>::new());
    match r.iter(chunk(4)) {
        Err(Error::Reordering(id)) => assert_eq!(id, 7),
        _ => panic!("a full strict reorderer refuses a chunk out of order"),
    }
    assert_eq!(seqs(&r.iter(chunk(2)).unwrap()), vec![2, 3]);
}

#[test]
fn best_effort_reorderer_gives_up_waiting_when_full() {
    let mut r = DownReorderer::new(true, DownstreamReordering::BestEffort, 2);
    assert_eq!(seqs(&r.iter(chunk(1)).unwrap()), vec![1]);
    assert_eq!(seqs(&r.iter(chunk(3)).unwrap()), Vec::<u32>::new());
    assert_eq!(seqs(&r.iter(chunk(5)).unwrap()), vec![3]);
    assert_eq!(seqs(&r.iter(chunk(4)).unwrap()), vec![4, 5]);
}

fn point(t: i64, payload: &[u8]) -> autogen::DataPoint {
    autogen::DataPoint { elapsed_time: t, payload: payload.to_vec() }
}

#[test]
fn flush_sorts_points_and_uses_aliases() {
    let id = DataId::new("name", "type");
    let other = DataId::new("other", "type");
    let mut aliases = HashMap::new();
    aliases.insert(1u32, id.clone());
    let mut f = UpstreamFlusher::new(9, 2, aliases, true);
    let policy = FlushPolicy::BufferSizeOnly { buffer_size: 100 };
    assert!(!f.write_data_points(id.clone(), vec![point(3, b"c"), point(1, b"a")], &policy));
    assert!(!f.write_data_points(other.clone(), vec![point(2, b"bb")], &policy));
    let (wire_chunk, _user_chunk) = f.flush(false).unwrap();
    assert_eq!(wire_chunk.stream_id_alias, 2);
    assert!(wire_chunk.data_ids.is_empty());
    let sc = wire_chunk.stream_chunk.unwrap();
    assert_eq!(sc.sequence_number, 1);
    assert_eq!(sc.data_point_groups.len(), 2);
    assert_eq!(sc.data_point_groups[0].data_id_or_alias, Some(autogen::DataIdOrAlias::DataIdAlias(1)));
    assert_eq!(sc.data_point_groups[0].data_points, vec![point(1, b"a"), point(3, b"c")]);
    assert_eq!(sc.data_point_groups[1].data_id_or_alias, Some(autogen::DataIdOrAlias::DataId(other)));
    assert!(f.flush(false).is_none());
}

#[test]
fn buffer_size_policy_asks_for_flush() {
    let id = DataId::new("name", "type");
    let mut f = UpstreamFlusher::new(9, 2, HashMap::new(), false);
    let policy = FlushPolicy::BufferSizeOnly { buffer_size: 3 };
    assert!(!f.write_data_points(id.clone(), vec![point(1, b"ab")], &policy));
    assert!(f.write_data_points(id, vec![point(2, b"cd")], &policy));
}

#[test]
fn reliable_upstream_keeps_chunks_until_acknowledged() {
    let id = DataId::new("name", "type");
    let mut f = UpstreamFlusher::new(9, 2, HashMap::new(), true);
    let policy = FlushPolicy::Immediately;
    f.write_data_points(id.clone(), vec![point(1, b"a")], &policy);
    f.flush(false).unwrap();
    f.write_data_points(id, vec![point(2, b"b")], &policy);
    f.flush(false).unwrap();
    assert_eq!(f.kept_sequence_numbers(), vec![1, 2]);
    let ack = autogen::UpstreamChunkAck {
        stream_id_alias: 2,
        results: vec![autogen::UpstreamChunkResult {
            sequence_number: 1,
            result_code: ResultCode::Succeeded.to_i32(),
            result_string: "ok".to_string(),
        }],
        data_id_aliases: HashMap::new(),
    };
    let results = f.process_ack(&ack);
    assert_eq!(results.len(), 1);
    assert_eq!(results[0].sequence_number, 1);
    assert_eq!(f.kept_sequence_numbers(), vec![2]);
    assert_eq!(f.last_received_sequence_number(), Some(1));
}

#[test]
fn unreliable_upstream_keeps_nothing() {
    let id = DataId::new("name", "type");
    let mut f = UpstreamFlusher::new(9, 2, HashMap::new(), false);
    f.write_data_points(id, vec![point(1, b"a")], &FlushPolicy::Immediately);
    f.flush(false).unwrap();
    assert!(f.kept_sequence_numbers().is_empty());
}

#[test]
fn data_id_parse_errors() {
    assert_eq!(DataId::parse_str("type-name"), Err(DataIdParseError::SplitterNotFound));
    assert_eq!(DataId::parse_str("a:b:c"), Err(DataIdParseError::MultipleSplitterFound));
    assert_eq!(DataId::parse_str("ty#pe:name"), Err(DataIdParseError::InvalidChar('#')));
    assert_eq!(DataId::parse_str("type:na+me"), Err(DataIdParseError::InvalidChar('+')));
    let id = DataId::parse_str("type:name").unwrap();
    assert_eq!(DataId::parse_str(&id.to_string()).unwrap(), id);
}

#[test]
fn ping_settings_refuse_zero_and_overflow() {
    let mut p = ConnParams::new();
    assert_eq!(p.ping_settings().unwrap(), (10, 1));
    p.ping_interval = Duration::from_secs(0);
    assert!(matches!(p.ping_settings(), Err(Error::InvalidValue(_))));
    p.ping_interval = Duration::from_secs(u32::MAX as u64 + 1);
    assert!(matches!(p.ping_settings(), Err(Error::InvalidValue(_))));
}

#[test]
fn connect_request_names_project_as_hyphenated_uuid() {
    let mut p = ConnParams::new();
    p.node_id = "node".to_string();
    p.project_uuid = Some(uuid::Uuid::parse_str(STREAM).unwrap().as_u128());
    let req = p.connect_request(10, 1, None);
    let ext = req.extension_fields.unwrap();
    assert_eq!(ext.access_token, "");
    assert_eq!(ext.intdash.unwrap().project_uuid, STREAM);
    assert_eq!(req.ping_interval, 10);
    assert_eq!(req.node_id, "node");
}

#[test]
fn closed_connection_refuses_requests() {
    assert!(check_close(1, false).is_ok());
    assert!(matches!(check_close(0, false), Err(Error::ConnectionClosed)));
    assert!(matches!(check_close(1, true), Err(Error::ConnectionClosed)));
}

#[test]
fn stream_ids_read_and_written_as_uuid_bytes() {
    let u = uuid::Uuid::parse_str(STREAM).unwrap();
    assert_eq!(parse_stream_id(u.as_bytes()).unwrap(), u.as_u128());
    assert!(matches!(parse_stream_id(&[1, 2, 3]), Err(Error::InvalidValue(_))));
    assert_eq!(stream_id_to_bytes(u.as_u128()), u.as_bytes().to_vec());
    assert_ne!(stream_id_to_bytes(1), vec![1u8]);
}

#[test]
fn normal_close_reads_session_uuid() {
    let u = uuid::Uuid::parse_str(STREAM).unwrap();
    let m = UpstreamNormalClose::from_proto(autogen::UpstreamNormalClose {
        stream_id: u.as_bytes().to_vec(),
        session_id: STREAM.to_string(),
        total_data_points: 3,
        final_sequence_number: 4,
    });
    assert_eq!(m.session_id, u.as_u128());
    assert_eq!(m.stream_id, u.as_u128());
    let back = m.clone().to_proto();
    assert_eq!(back.session_id, STREAM);
    let m = UpstreamNormalClose::from_proto(autogen::UpstreamNormalClose {
        session_id: "not a uuid".to_string(),
        ..Default::default()
    });
    assert_eq!(m.session_id, 0);
}

#[test]
fn call_ids_are_random_uuids() {
    let a = new_call_id();
    let b = new_call_id();
    assert_ne!(a, b);
    let u = uuid::Uuid::parse_str(&a).unwrap();
    assert_eq!(u.get_version_num(), 4);
    assert_eq!(u.to_string(), a);
}

#[test]
fn empty_and_incomplete_wire_messages_are_refused() {
    let empty = autogen::Message { message: None };
    assert!(matches!(Message::try_from(empty), Err(Error::Unexpected(_))));
    let incomplete = autogen::Message {
        message: Some(autogen::message::Message::UpstreamChunk(autogen::UpstreamChunk {
            stream_id_alias: 1,
            stream_chunk: None,
            data_ids: vec![],
        })),
    };
    assert!(matches!(Message::try_from(incomplete), Err(Error::Unexpected(_))));
    let no_key = autogen::Message {
        message: Some(autogen::message::Message::UpstreamChunk(autogen::UpstreamChunk {
            stream_id_alias: 1,
            stream_chunk: Some(autogen::StreamChunk {
                sequence_number: 1,
                data_point_groups: vec![autogen::DataPointGroup {
                    data_points: vec![],
                    data_id_or_alias: None,
                }],
            }),
            data_ids: vec![],
        })),
    };
    assert!(matches!(Message::try_from(no_key), Err(Error::Unexpected(_))));
}

#[test]
fn written_messages_read_back() {
    let chunk = Message::UpstreamChunk(UpstreamChunk {
        stream_id_alias: 3,
        stream_chunk: StreamChunk {
            sequence_number: 8,
            data_point_groups: vec![DataPointGroup {
                data_points: vec![point(1, b"x")],
                data_id_or_alias: autogen::DataIdOrAlias::DataIdAlias(1),
            }],
        },
        data_ids: vec![DataId::new("n", "t")],
    });
    let back = Message::try_from(chunk.clone().to_proto()).unwrap();
    assert!(back == chunk);
    let ping = Message::Ping(Ping { request_id: 5.into() });
    assert!(Message::try_from(ping.clone().to_proto()).unwrap() == ping);
}

#[test]
fn codes_round_trip_through_values_and_names() {
    for q in [QoS::Unreliable, QoS::Reliable, QoS::Partial] {
        assert_eq!(QoS::from_i32(q.to_i32()), Some(q));
        assert_eq!(QoS::from_str_name(q.as_str_name()), Some(q));
    }
    for c in [ResultCode::Succeeded, ResultCode::UnspecifiedError, ResultCode::IncompatibleVersion] {
        assert_eq!(ResultCode::from_i32(c.to_i32()), Some(c));
        assert_eq!(ResultCode::from_str_name(c.as_str_name()), Some(c));
    }
    assert_eq!(ResultCode::from_i32(-12345), None);
}

#[test]
fn connect_request_reads_back_but_a_lone_project_gains_an_empty_token() {
    let with_token = ConnectRequest {
        request_id: 3.into(),
        protocol_version: "2.0.0".to_string(),
        node_id: "node".to_string(),
        ping_interval: TimeDelta::seconds(10),
        ping_timeout: TimeDelta::seconds(1),
        project_uuid: Some(STREAM.to_string()),
        access_token: Some(AccessToken::new("token")),
    };
    let back = ConnectRequest::from_proto(with_token.clone().to_proto());
    assert!(back == with_token);

    let project_only = ConnectRequest { access_token: None, ..with_token.clone() };
    let wire = project_only.clone().to_proto();
    assert_eq!(wire.extension_fields.as_ref().unwrap().access_token, "");
    let back = ConnectRequest::from_proto(wire);
    assert!(back.access_token == Some(AccessToken::new("")));
    assert!(back.project_uuid == project_only.project_uuid);
}

#[test]
fn spans_read_back_when_whole_and_small() {
    let m = UpstreamOpenRequest {
        ack_interval: TimeDelta::milliseconds(250),
        expiry_interval: TimeDelta::seconds(60),
        ..Default::default()
    };
    let back = UpstreamOpenRequest::from_proto(m.clone().to_proto());
    assert!(back == m);
    let lossy = UpstreamOpenRequest { expiry_interval: TimeDelta::milliseconds(1500), ..Default::default() };
    let back = UpstreamOpenRequest::from_proto(lossy.to_proto());
    assert_eq!(back.expiry_interval.num_milliseconds(), 1000);
}
