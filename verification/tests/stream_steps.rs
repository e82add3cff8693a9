use std::collections::HashMap;

use iscp::autogen;
use iscp::codes::ResultCode;
use iscp::data_id::DataId;
use iscp::duration::Duration;
use iscp::error::Error;
use iscp::iscp::connect::{
    reconnect_step, ConnParams, ConnectionState, ReconnectAction, ReconnectEvent,
};
use iscp::iscp::down_flow::{DownPhase, DownstreamAction, DownstreamEvent, DownstreamFlow};
use iscp::iscp::down_order::{DownReorderer, DownstreamReordering};
use iscp::iscp::down_state::State;
use iscp::iscp::flush_policy::FlushPolicy;
use iscp::iscp::misc::{resume_step, stream_id_to_bytes, unix_epoch_to_system_time, ResumeStep};
use iscp::iscp::upstream::{
    ClosePhase, UpstreamAction, UpstreamCloseOptions, UpstreamEvent, UpstreamFlusher,
};
use iscp::message::Message;

fn point(t: i64, payload: &[u8]) -> autogen::DataPoint {
    autogen::DataPoint { elapsed_time: t, payload: payload.to_vec() }
}

fn ack_of(seq: u32) -> autogen::UpstreamChunkAck {
    autogen::UpstreamChunkAck {
        stream_id_alias: 2,
        results: vec![autogen::UpstreamChunkResult {
            sequence_number: seq,
            result_code: ResultCode::Succeeded.to_i32(),
            result_string: "ok".to_string(),
        }],
        data_id_aliases: HashMap::new(),
    }
}

fn upstream_with_points() -> UpstreamFlusher {
    let mut f = UpstreamFlusher::new(9, 2, HashMap::new(), true);
    let policy = FlushPolicy::BufferSizeOnly { buffer_size: 100 };
    f.write_data_points(DataId::new("a", "t"), vec![point(1, b"x"), point(2, b"y")], &policy);
    f
}

#[test]
fn ping_interval_error_text_comes_first() {
    let mut p = ConnParams::new();
    p.ping_interval = Duration::from_secs(0);
    p.ping_timeout = Duration::from_secs(0);
    match p.ping_settings() {
        Err(Error::InvalidValue(m)) => assert_eq!(m, "invalid ping_interval"),
        other => panic!("unexpected {:?}", other),
    }
    p.ping_interval = Duration::from_secs(10);
    match p.ping_settings() {
        Err(Error::InvalidValue(m)) => assert_eq!(m, "invalid ping_timeout"),
        other => panic!("unexpected {:?}", other),
    }
    p.ping_timeout = Duration::from_secs(u32::MAX as u64 + 1);
    match p.ping_settings() {
        Err(Error::InvalidValue(m)) => assert_eq!(m, "invalid ping_timeout"),
        other => panic!("unexpected {:?}", other),
    }
}

#[test]
fn empty_wire_message_is_refused_as_empty() {
    match Message::try_from(autogen::Message { message: None }) {
        Err(Error::Unexpected(m)) => assert_eq!(m, "empty message"),
        Err(e) => panic!("unexpected {:?}", e),
        Ok(_) => panic!("an empty message was read"),
    }
}

#[test]
fn server_time_before_epoch_is_refused() {
    assert_eq!(unix_epoch_to_system_time(1_500_000_000).unwrap(), 1_500_000_000);
    match unix_epoch_to_system_time(-1) {
        Err(Error::InvalidValue(m)) => assert_eq!(m, "server time overflow"),
        other => panic!("unexpected {:?}", other),
    }
}

#[test]
fn upstream_flush_event_sends_next_chunk() {
    let mut f = upstream_with_points();
    let actions = f.step(UpstreamEvent::FlushRequested, false);
    assert_eq!(actions.len(), 1);
    match &actions[0] {
        UpstreamAction::SendChunk(chunk, user) => {
            assert_eq!(chunk.stream_chunk.as_ref().unwrap().sequence_number, 1);
            assert_eq!(user.sequence_number, 1);
        },
        _ => panic!("expected a chunk"),
    }
    assert_eq!(f.last_issued_sequence_number(), 1);
    assert!(f.step(UpstreamEvent::FlushIntervalElapsed, false).is_empty());
}

#[test]
fn upstream_close_flushes_then_awaits_last_ack_then_closes() {
    let mut f = upstream_with_points();
    let opts = Some(UpstreamCloseOptions { close_session: true });
    let actions = f.step(UpstreamEvent::CloseRequested(opts), false);
    assert_eq!(actions.len(), 2);
    assert!(matches!(actions[0], UpstreamAction::SendChunk(_, _)));
    assert!(matches!(actions[1], UpstreamAction::AwaitLastAck(1)));
    assert_eq!(f.close_phase(), ClosePhase::Closing(opts));
    // Flushes are no longer taken while closing.
    assert!(f.step(UpstreamEvent::FlushRequested, false).is_empty());
    let actions = f.step(UpstreamEvent::Ack(ack_of(1)), false);
    assert_eq!(actions.len(), 2);
    match &actions[0] {
        UpstreamAction::DeliverResults(results) => {
            assert_eq!(results.len(), 1);
            assert_eq!(results[0].sequence_number, 1);
        },
        _ => panic!("expected results"),
    }
    match &actions[1] {
        UpstreamAction::SendClose(req) => {
            assert_eq!(req.final_sequence_number, 1);
            assert_eq!(req.total_data_points, 2);
            assert_eq!(req.stream_id, stream_id_to_bytes(9));
            assert_eq!(
                req.extension_fields,
                Some(autogen::UpstreamCloseRequestExtensionFields { close_session: true })
            );
        },
        _ => panic!("expected a close request"),
    }
    assert_eq!(f.close_phase(), ClosePhase::Closed);
    assert!(f.step(UpstreamEvent::CloseTimedOut, false).is_empty());
    assert!(f.step(UpstreamEvent::Ack(ack_of(1)), false).is_empty());
}

#[test]
fn upstream_close_timeout_sends_close_without_ack() {
    let mut f = upstream_with_points();
    let actions = f.step(UpstreamEvent::CloseRequested(None), false);
    assert!(matches!(actions[1], UpstreamAction::AwaitLastAck(1)));
    let actions = f.step(UpstreamEvent::CloseTimedOut, false);
    assert_eq!(actions.len(), 1);
    match &actions[0] {
        UpstreamAction::SendClose(req) => {
            assert_eq!(req.final_sequence_number, 1);
            assert_eq!(req.extension_fields, None);
        },
        _ => panic!("expected a close request"),
    }
}

#[test]
fn upstream_close_without_chunks_closes_at_once() {
    let mut f = UpstreamFlusher::new(9, 2, HashMap::new(), false);
    let actions = f.step(UpstreamEvent::CloseRequested(None), false);
    assert_eq!(actions.len(), 1);
    match &actions[0] {
        UpstreamAction::SendClose(req) => {
            assert_eq!(req.final_sequence_number, 0);
            assert_eq!(req.total_data_points, 0);
        },
        _ => panic!("expected a close request"),
    }
    assert_eq!(f.close_phase(), ClosePhase::Closed);
}

#[test]
fn upstream_timeout_while_open_does_nothing() {
    let mut f = upstream_with_points();
    assert!(f.step(UpstreamEvent::CloseTimedOut, false).is_empty());
    assert_eq!(f.close_phase(), ClosePhase::Open);
}

fn info_chunk(seq: u32) -> autogen::DownstreamChunk {
    autogen::DownstreamChunk {
        stream_id_alias: 3,
        stream_chunk: Some(autogen::StreamChunk {
            sequence_number: seq,
            data_point_groups: vec![autogen::DataPointGroup {
                data_points: vec![point(1, b"x")],
                data_id_or_alias: Some(autogen::DataIdOrAlias::DataId(DataId::new("a", "t"))),
            }],
        }),
        upstream_or_alias: Some(autogen::UpstreamOrAlias::UpstreamInfo(autogen::UpstreamInfo {
            session_id: "s".to_string(),
            stream_id: stream_id_to_bytes(7),
            source_node_id: "n".to_string(),
        })),
    }
}

fn downstream() -> DownstreamFlow {
    DownstreamFlow::new(
        5,
        3,
        HashMap::new(),
        DownReorderer::new(false, DownstreamReordering::NoReordering, 10),
        false,
    )
}

#[test]
fn downstream_chunk_is_delivered_and_acked_on_interval() {
    let mut d = downstream();
    let actions = d.step(DownstreamEvent::Chunk(info_chunk(1)));
    assert_eq!(actions.len(), 1);
    match &actions[0] {
        DownstreamAction::Deliver(chunks) => {
            assert_eq!(chunks.len(), 1);
            assert_eq!(chunks[0].sequence_number, 1);
            assert_eq!(chunks[0].upstream.stream_id, 7);
        },
        _ => panic!("expected chunks"),
    }
    let actions = d.step(DownstreamEvent::AckIntervalElapsed);
    assert_eq!(actions.len(), 1);
    match &actions[0] {
        DownstreamAction::SendAck(ack) => {
            assert_eq!(ack.ack_id, 0);
            assert_eq!(ack.stream_id_alias, 3);
            assert_eq!(ack.results.len(), 1);
            assert_eq!(ack.results[0].sequence_number_in_upstream, 1);
            assert_eq!(ack.upstream_aliases.len(), 1);
        },
        _ => panic!("expected an ack"),
    }
    assert!(d.step(DownstreamEvent::AckIntervalElapsed).is_empty());
}

#[test]
fn downstream_unreadable_chunk_is_dropped() {
    let mut d = downstream();
    let mut c = info_chunk(1);
    c.upstream_or_alias = None;
    let actions = d.step(DownstreamEvent::Chunk(c));
    assert_eq!(actions.len(), 1);
    assert!(matches!(actions[0], DownstreamAction::Dropped(Error::InvalidValue(_))));
    assert_eq!(d.close_phase(), DownPhase::Open);
}

#[test]
fn downstream_close_sends_pending_ack_then_awaits_completion() {
    let mut d = downstream();
    d.step(DownstreamEvent::Chunk(info_chunk(1)));
    d.step(DownstreamEvent::AckIntervalElapsed);
    d.step(DownstreamEvent::Chunk(info_chunk(2)));
    let actions = d.step(DownstreamEvent::CloseRequested);
    assert_eq!(actions.len(), 2);
    match &actions[0] {
        DownstreamAction::SendAck(ack) => assert_eq!(ack.ack_id, 1),
        _ => panic!("expected an ack"),
    }
    assert!(matches!(actions[1], DownstreamAction::AwaitAckComplete));
    assert_eq!(d.close_phase(), DownPhase::Closing);
    // Chunks are no longer read while closing.
    assert!(d.step(DownstreamEvent::Chunk(info_chunk(3))).is_empty());
    let complete = autogen::DownstreamChunkAckComplete {
        stream_id_alias: 3,
        ack_id: 1,
        result_code: 0,
        result_string: "ok".to_string(),
    };
    let actions = d.step(DownstreamEvent::AckComplete(complete));
    assert_eq!(actions.len(), 1);
    match &actions[0] {
        DownstreamAction::SendClose(req) => assert_eq!(req.stream_id, stream_id_to_bytes(5)),
        _ => panic!("expected a close request"),
    }
    assert_eq!(d.close_phase(), DownPhase::Closed);
    assert!(d.step(DownstreamEvent::CloseTimedOut).is_empty());
}

#[test]
fn downstream_close_timeout_sends_close() {
    let mut d = downstream();
    d.step(DownstreamEvent::Chunk(info_chunk(1)));
    d.step(DownstreamEvent::AckIntervalElapsed);
    d.step(DownstreamEvent::Chunk(info_chunk(2)));
    d.step(DownstreamEvent::CloseRequested);
    let actions = d.step(DownstreamEvent::CloseTimedOut);
    assert_eq!(actions.len(), 1);
    assert!(matches!(actions[0], DownstreamAction::SendClose(_)));
}

#[test]
fn downstream_close_with_nothing_issued_closes_at_once() {
    let mut d = downstream();
    let actions = d.step(DownstreamEvent::CloseRequested);
    assert_eq!(actions.len(), 1);
    assert!(matches!(actions[0], DownstreamAction::SendClose(_)));
}

fn wire_info(stream: u128, node: &str) -> autogen::UpstreamInfo {
    autogen::UpstreamInfo {
        session_id: "s".to_string(),
        stream_id: stream_id_to_bytes(stream),
        source_node_id: node.to_string(),
    }
}

#[test]
fn upstream_aliases_are_issued_in_order_once_each() {
    let mut s = State::new(HashMap::new());
    let a = s.add_upstream_info(wire_info(7, "n")).unwrap();
    let b = s.add_upstream_info(wire_info(8, "n")).unwrap();
    let again = s.add_upstream_info(wire_info(7, "n")).unwrap();
    assert_eq!(a.stream_id, 7);
    assert_eq!(b.stream_id, 8);
    assert_eq!(again.stream_id, 7);
    assert_eq!(s.get_upstream_info(0).unwrap().stream_id, 7);
    assert_eq!(s.get_upstream_info(1).unwrap().stream_id, 8);
    assert!(s.get_upstream_info(2).is_err());
    let ack = s.take_ack(3).unwrap();
    assert_eq!(ack.upstream_aliases.len(), 2);
    assert!(ack.upstream_aliases.contains_key(&0));
    assert!(ack.upstream_aliases.contains_key(&1));
}

#[test]
fn reconnection_steps() {
    match reconnect_step(ConnectionState::Connected, ReconnectEvent::Cancelled) {
        (ConnectionState::Closed, ReconnectAction::SendDisconnect(d)) => {
            assert_eq!(d.result_code, 0);
            assert_eq!(d.result_string, "OK");
        },
        _ => panic!("expected a disconnect"),
    }
    assert!(matches!(
        reconnect_step(ConnectionState::Connected, ReconnectEvent::WireClosed),
        (ConnectionState::Reconnecting, ReconnectAction::WaitAndConnect)
    ));
    assert!(matches!(
        reconnect_step(ConnectionState::Reconnecting, ReconnectEvent::ConnectFailed),
        (ConnectionState::Reconnecting, ReconnectAction::WaitAndConnect)
    ));
    assert!(matches!(
        reconnect_step(ConnectionState::Reconnecting, ReconnectEvent::ConnectSucceeded),
        (ConnectionState::Connected, ReconnectAction::Publish)
    ));
    assert!(matches!(
        reconnect_step(ConnectionState::Reconnecting, ReconnectEvent::Cancelled),
        (ConnectionState::Closed, ReconnectAction::Stop)
    ));
    assert!(matches!(
        reconnect_step(ConnectionState::Closed, ReconnectEvent::WireClosed),
        (ConnectionState::Closed, ReconnectAction::Nothing)
    ));
}

#[test]
fn resume_times_out_after_expiry() {
    match resume_step(true, true, false, true) {
        Err(Error::Timeout(m)) => assert_eq!(m, ""),
        other => panic!("unexpected {:?}", other),
    }
    assert_eq!(resume_step(true, true, false, false).unwrap(), ResumeStep::RequestResume);
    assert_eq!(resume_step(true, true, true, false).unwrap(), ResumeStep::GiveUp);
    assert_eq!(resume_step(false, true, false, false).unwrap(), ResumeStep::AwaitConnection);
    assert_eq!(resume_step(true, false, false, false).unwrap(), ResumeStep::Attach);
}
