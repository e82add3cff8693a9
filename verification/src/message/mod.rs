//! Protocol messages as the library user sees them, with their conversions to and from the
//! wire messages.

use vstd::prelude::*;

pub mod connect;
pub mod data;
pub mod downstream;
pub mod e2e;
pub mod metadata;
pub mod ping_pong;
pub mod time;
pub mod upstream;

use crate::autogen;
use crate::autogen::message::Message as Wire;
use crate::error::Error;
use crate::codes::{qos_of_value, result_code_of_value, QoS, ResultCode};
use crate::iscp::misc::{be_value, uuid_from_slice};
use crate::message::metadata::{ReceivableMetadata, SendableMetadata};
use crate::message::time::fits_i64;

verus! {

/// The id that pairs a request with its response.
#[derive(Clone, Copy, PartialEq, Eq, Hash, Debug, Default, PartialOrd, Ord, Structural)]
pub struct RequestId(pub u32);

impl RequestId {
    /// The number of this request id.
    pub fn value(&self) -> (r: u32)
        ensures
            r == self.0,
    {
        self.0
    }
}

impl From<u32> for RequestId {
    fn from(v: u32) -> (r: RequestId) {
        RequestId(v)
    }
}

impl vstd::std_specs::convert::FromSpecImpl<u32> for RequestId {
    open spec fn obeys_from_spec() -> bool {
        true
    }

    open spec fn from_spec(v: u32) -> RequestId {
        RequestId(v)
    }
}

/// The result code of a wire value that the protocol defines.
pub fn read_code(v: i32) -> (r: ResultCode)
    requires
        result_code_of_value(v) is Some,
    ensures
        Some(r) == result_code_of_value(v),
{
    match ResultCode::from_i32(v) {
        Some(c) => c,
        None => ResultCode::UnspecifiedError,
    }
}

/// The QoS of a wire value that the protocol defines.
pub fn read_qos(v: i32) -> (r: QoS)
    requires
        qos_of_value(v) is Some,
    ensures
        Some(r) == qos_of_value(v),
{
    match QoS::from_i32(v) {
        Some(q) => q,
        None => QoS::Unreliable,
    }
}

/// The uuid that wire bytes carry: the number they spell where there are 16 of them, and the
/// nil uuid otherwise.
pub open spec fn uuid_read(b: Seq<u8>) -> int {
    if b.len() == 16 {
        be_value(b) as int
    } else {
        0
    }
}

/// Reads a uuid from wire bytes; bytes that are not a uuid read as the nil uuid.
pub fn uuid_or_nil(b: &[u8]) -> (r: u128)
    ensures
        r == uuid_read(b@),
{
    match uuid_from_slice(b) {
        Some(v) => v,
        None => 0,
    }
}

/// Whether wire bytes are the 16 bytes of the uuid `v`.
pub open spec fn uuid_written(b: Seq<u8>, v: u128) -> bool {
    b.len() == 16 && be_value(b) == v
}

/// A protocol message as the library user sees it.
#[derive(Clone, PartialEq)]
pub enum Message {
    /// A message of kind `ConnectRequest.`.
    ConnectRequest(connect::ConnectRequest),
    /// A message of kind `ConnectResponse.`.
    ConnectResponse(connect::ConnectResponse),
    /// A message of kind `Disconnect.`.
    Disconnect(connect::Disconnect),
    /// A message of kind `UpstreamOpenRequest.`.
    UpstreamOpenRequest(upstream::UpstreamOpenRequest),
    /// A message of kind `UpstreamResumeRequest.`.
    UpstreamResumeRequest(upstream::UpstreamResumeRequest),
    /// A message of kind `UpstreamCloseRequest.`.
    UpstreamCloseRequest(upstream::UpstreamCloseRequest),
    /// A message of kind `UpstreamOpenResponse.`.
    UpstreamOpenResponse(upstream::UpstreamOpenResponse),
    /// A message of kind `UpstreamResumeResponse.`.
    UpstreamResumeResponse(upstream::UpstreamResumeResponse),
    /// A message of kind `UpstreamCloseResponse.`.
    UpstreamCloseResponse(upstream::UpstreamCloseResponse),
    /// A message of kind `DownstreamOpenRequest.`.
    DownstreamOpenRequest(downstream::DownstreamOpenRequest),
    /// A message of kind `DownstreamResumeRequest.`.
    DownstreamResumeRequest(downstream::DownstreamResumeRequest),
    /// A message of kind `DownstreamCloseRequest.`.
    DownstreamCloseRequest(downstream::DownstreamCloseRequest),
    /// A message of kind `DownstreamOpenResponse.`.
    DownstreamOpenResponse(downstream::DownstreamOpenResponse),
    /// A message of kind `DownstreamResumeResponse.`.
    DownstreamResumeResponse(downstream::DownstreamResumeResponse),
    /// A message of kind `DownstreamCloseResponse.`.
    DownstreamCloseResponse(downstream::DownstreamCloseResponse),
    /// A message of kind `UpstreamChunk.`.
    UpstreamChunk(data::UpstreamChunk),
    /// A message of kind `UpstreamChunkAck.`.
    UpstreamChunkAck(data::UpstreamChunkAck),
    /// A message of kind `DownstreamChunk.`.
    DownstreamChunk(data::DownstreamChunk),
    /// A message of kind `DownstreamChunkAck.`.
    DownstreamChunkAck(data::DownstreamChunkAck),
    /// A message of kind `DownstreamChunkAckComplete.`.
    DownstreamChunkAckComplete(data::DownstreamChunkAckComplete),
    /// A message of kind `Ping.`.
    Ping(ping_pong::Ping),
    /// A message of kind `Pong.`.
    Pong(ping_pong::Pong),
    /// A message of kind `UpstreamCall.`.
    UpstreamCall(e2e::UpstreamCall),
    /// A message of kind `UpstreamCallAck.`.
    UpstreamCallAck(e2e::UpstreamCallAck),
    /// A message of kind `DownstreamCall.`.
    DownstreamCall(e2e::DownstreamCall),
    /// A message of kind `UpstreamMetadata.`.
    UpstreamMetadata(metadata::UpstreamMetadata),
    /// A message of kind `UpstreamMetadataAck.`.
    UpstreamMetadataAck(metadata::UpstreamMetadataAck),
    /// A message of kind `DownstreamMetadata.`.
    DownstreamMetadata(metadata::DownstreamMetadata),
    /// A message of kind `DownstreamMetadataAck.`.
    DownstreamMetadataAck(metadata::DownstreamMetadataAck),
}

impl Message {
    /// Whether a wire message can be read: its codes are ones the protocol defines.
    pub open spec fn readable(p: autogen::Message) -> bool {
        match p.message {
            Some(m) => match m {
                Wire::ConnectResponse(x) =>
                    connect::ConnectResponse::readable(x),
                Wire::Disconnect(x) => connect::Disconnect::readable(x),
                Wire::UpstreamOpenRequest(x) =>
                    upstream::UpstreamOpenRequest::readable(x),
                Wire::UpstreamOpenResponse(x) =>
                    upstream::UpstreamOpenResponse::readable(x),
                Wire::UpstreamResumeResponse(x) =>
                    upstream::UpstreamResumeResponse::readable(x),
                Wire::UpstreamCloseResponse(x) =>
                    upstream::UpstreamCloseResponse::readable(x),
                Wire::DownstreamOpenRequest(x) =>
                    downstream::DownstreamOpenRequest::readable(x),
                Wire::DownstreamOpenResponse(x) =>
                    downstream::DownstreamOpenResponse::readable(x),
                Wire::DownstreamResumeResponse(x) =>
                    downstream::DownstreamResumeResponse::readable(x),
                Wire::DownstreamCloseResponse(x) =>
                    downstream::DownstreamCloseResponse::readable(x),
                Wire::UpstreamChunkAck(x) =>
                    data::UpstreamChunkAck::readable(x),
                Wire::DownstreamChunkAck(x) =>
                    data::DownstreamChunkAck::readable(x),
                Wire::DownstreamChunkAckComplete(x) =>
                    data::DownstreamChunkAckComplete::readable(x),
                Wire::UpstreamCallAck(x) => e2e::UpstreamCallAck::readable(x),
                Wire::UpstreamMetadataAck(x) =>
                    metadata::UpstreamMetadataAck::readable(x),
                Wire::DownstreamMetadata(x) =>
                    metadata::DownstreamMetadata::readable(x),
                Wire::DownstreamMetadataAck(x) =>
                    metadata::DownstreamMetadataAck::readable(x),
                _ => true,
            },
            None => true,
        }
    }

    /// Whether a wire message is complete: it carries a message, and that message carries the
    /// parts it needs.
    pub open spec fn complete(p: autogen::Message) -> bool {
        match p.message {
            Some(m) => match m {
                Wire::UpstreamChunk(x) => data::UpstreamChunk::complete(x),
                Wire::DownstreamChunk(x) => data::DownstreamChunk::complete(x),
                Wire::UpstreamMetadata(x) => x.metadata is Some,
                Wire::DownstreamMetadata(x) => x.metadata is Some,
                _ => true,
            },
            None => false,
        }
    }

    /// Whether the message can be written: the base times it carries fit in an `i64` of
    /// nanoseconds.
    pub open spec fn writable(self) -> bool {
        match self {
            Message::UpstreamMetadata(m) => m.metadata.writable(),
            Message::DownstreamMetadata(m) => m.metadata.writable(),
            _ => true,
        }
    }

    /// Whether this is what the wire message reads as.
    pub open spec fn reads(self, p: autogen::Message) -> bool {
        match p.message {
            Some(w) => match (self, w) {
                (Message::ConnectRequest(a), Wire::ConnectRequest(b)) =>
                    a.reads(b),
                (Message::ConnectResponse(a), Wire::ConnectResponse(b)) =>
                    a.reads(b),
                (Message::Disconnect(a), Wire::Disconnect(b)) => a.reads(b),
                (Message::UpstreamOpenRequest(a), Wire::UpstreamOpenRequest(b)) =>
                    a.reads(b),
                (Message::UpstreamResumeRequest(a), Wire::UpstreamResumeRequest(b)) =>
                    a.reads(b),
                (Message::UpstreamCloseRequest(a), Wire::UpstreamCloseRequest(b)) =>
                    a.reads(b),
                (Message::UpstreamOpenResponse(a), Wire::UpstreamOpenResponse(b)) =>
                    a.reads(b),
                (Message::UpstreamResumeResponse(a), Wire::UpstreamResumeResponse(b)) =>
                    a.reads(b),
                (Message::UpstreamCloseResponse(a), Wire::UpstreamCloseResponse(b)) =>
                    a.reads(b),
                (Message::DownstreamOpenRequest(a), Wire::DownstreamOpenRequest(b)) =>
                    a.reads(b),
                (Message::DownstreamResumeRequest(a), Wire::DownstreamResumeRequest(b)) =>
                    a.reads(b),
                (Message::DownstreamCloseRequest(a), Wire::DownstreamCloseRequest(b)) =>
                    a.reads(b),
                (Message::DownstreamOpenResponse(a), Wire::DownstreamOpenResponse(b)) =>
                    a.reads(b),
                (Message::DownstreamResumeResponse(a), Wire::DownstreamResumeResponse(b)) =>
                    a.reads(b),
                (Message::DownstreamCloseResponse(a), Wire::DownstreamCloseResponse(b)) =>
                    a.reads(b),
                (Message::UpstreamChunk(a), Wire::UpstreamChunk(b)) =>
                    a.reads(b),
                (Message::UpstreamChunkAck(a), Wire::UpstreamChunkAck(b)) =>
                    a.reads(b),
                (Message::DownstreamChunk(a), Wire::DownstreamChunk(b)) =>
                    a.reads(b),
                (Message::DownstreamChunkAck(a), Wire::DownstreamChunkAck(b)) =>
                    a.reads(b),
                (Message::DownstreamChunkAckComplete(a), Wire::DownstreamChunkAckComplete(b)) =>
                    a.reads(b),
                (Message::Ping(a), Wire::Ping(b)) => a.reads(b),
                (Message::Pong(a), Wire::Pong(b)) => a.reads(b),
                (Message::UpstreamCall(a), Wire::UpstreamCall(b)) =>
                    a.reads(b),
                (Message::UpstreamCallAck(a), Wire::UpstreamCallAck(b)) =>
                    a.reads(b),
                (Message::DownstreamCall(a), Wire::DownstreamCall(b)) =>
                    a.reads(b),
                (Message::UpstreamMetadata(a), Wire::UpstreamMetadata(b)) =>
                    a.reads(b),
                (Message::UpstreamMetadataAck(a), Wire::UpstreamMetadataAck(b)) =>
                    a.reads(b),
                (Message::DownstreamMetadata(a), Wire::DownstreamMetadata(b)) =>
                    a.reads(b),
                (Message::DownstreamMetadataAck(a), Wire::DownstreamMetadataAck(b)) =>
                    a.reads(b),
                _ => false,
            },
            None => false,
        }
    }

    /// Whether the wire message is what this writes as.
    pub open spec fn writes(self, p: autogen::Message) -> bool {
        match p.message {
            Some(w) => match (self, w) {
                (Message::ConnectRequest(a), Wire::ConnectRequest(b)) =>
                    a.writes(b),
                (Message::ConnectResponse(a), Wire::ConnectResponse(b)) =>
                    a.writes(b),
                (Message::Disconnect(a), Wire::Disconnect(b)) => a.writes(b),
                (Message::UpstreamOpenRequest(a), Wire::UpstreamOpenRequest(b)) =>
                    a.writes(b),
                (Message::UpstreamResumeRequest(a), Wire::UpstreamResumeRequest(b)) =>
                    a.writes(b),
                (Message::UpstreamCloseRequest(a), Wire::UpstreamCloseRequest(b)) =>
                    a.writes(b),
                (Message::UpstreamOpenResponse(a), Wire::UpstreamOpenResponse(b)) =>
                    a.writes(b),
                (Message::UpstreamResumeResponse(a), Wire::UpstreamResumeResponse(b)) =>
                    a.writes(b),
                (Message::UpstreamCloseResponse(a), Wire::UpstreamCloseResponse(b)) =>
                    a.writes(b),
                (Message::DownstreamOpenRequest(a), Wire::DownstreamOpenRequest(b)) =>
                    a.writes(b),
                (Message::DownstreamResumeRequest(a), Wire::DownstreamResumeRequest(b)) =>
                    a.writes(b),
                (Message::DownstreamCloseRequest(a), Wire::DownstreamCloseRequest(b)) =>
                    a.writes(b),
                (Message::DownstreamOpenResponse(a), Wire::DownstreamOpenResponse(b)) =>
                    a.writes(b),
                (Message::DownstreamResumeResponse(a), Wire::DownstreamResumeResponse(b)) =>
                    a.writes(b),
                (Message::DownstreamCloseResponse(a), Wire::DownstreamCloseResponse(b)) =>
                    a.writes(b),
                (Message::UpstreamChunk(a), Wire::UpstreamChunk(b)) =>
                    a.reads(b),
                (Message::UpstreamChunkAck(a), Wire::UpstreamChunkAck(b)) =>
                    a.reads(b) && data::UpstreamChunkAck::readable(b),
                (Message::DownstreamChunk(a), Wire::DownstreamChunk(b)) =>
                    a.writes(b),
                (Message::DownstreamChunkAck(a), Wire::DownstreamChunkAck(b)) =>
                    a.writes(b),
                (Message::DownstreamChunkAckComplete(a), Wire::DownstreamChunkAckComplete(b)) =>
                    a.writes(b),
                (Message::Ping(a), Wire::Ping(b)) => a.writes(b),
                (Message::Pong(a), Wire::Pong(b)) => a.writes(b),
                (Message::UpstreamCall(a), Wire::UpstreamCall(b)) =>
                    a.writes(b),
                (Message::UpstreamCallAck(a), Wire::UpstreamCallAck(b)) =>
                    a.writes(b),
                (Message::DownstreamCall(a), Wire::DownstreamCall(b)) =>
                    a.writes(b),
                (Message::UpstreamMetadata(a), Wire::UpstreamMetadata(b)) =>
                    a.writes(b),
                (Message::UpstreamMetadataAck(a), Wire::UpstreamMetadataAck(b)) =>
                    a.writes(b),
                (Message::DownstreamMetadata(a), Wire::DownstreamMetadata(b)) =>
                    a.writes(b),
                (Message::DownstreamMetadataAck(a), Wire::DownstreamMetadataAck(b)) =>
                    a.writes(b),
                _ => false,
            },
            None => false,
        }
    }

    /// Reads a wire message; an empty or incomplete one is refused. Its codes must be ones the
    /// protocol defines.
    pub fn try_from(p: autogen::Message) -> (r: Result<Message, Error>)
        requires
            Message::readable(p),
        ensures
            r is Ok <==> Message::complete(p),
            r matches Ok(m) ==> m.reads(p),
            r matches Err(e) ==> e is Unexpected,
            p.message is None ==> (r matches Err(Error::Unexpected(m)) && m@ == "empty message"@),
    {
        let inner = match p.message {
            Some(m) => m,
            None => {
                return Err(Error::unexpected("empty message"));
            },
        };
        let m = match inner {
            Wire::ConnectRequest(x) =>
                Message::ConnectRequest(connect::ConnectRequest::from_proto(x)),
            Wire::ConnectResponse(x) =>
                Message::ConnectResponse(connect::ConnectResponse::from_proto(x)),
            Wire::Disconnect(x) =>
                Message::Disconnect(connect::Disconnect::from_proto(x)),
            Wire::UpstreamOpenRequest(x) =>
                Message::UpstreamOpenRequest(upstream::UpstreamOpenRequest::from_proto(x)),
            Wire::UpstreamResumeRequest(x) =>
                Message::UpstreamResumeRequest(upstream::UpstreamResumeRequest::from_proto(x)),
            Wire::UpstreamCloseRequest(x) =>
                Message::UpstreamCloseRequest(upstream::UpstreamCloseRequest::from_proto(x)),
            Wire::UpstreamOpenResponse(x) =>
                Message::UpstreamOpenResponse(upstream::UpstreamOpenResponse::from_proto(x)),
            Wire::UpstreamResumeResponse(x) =>
                Message::UpstreamResumeResponse(upstream::UpstreamResumeResponse::from_proto(x)),
            Wire::UpstreamCloseResponse(x) =>
                Message::UpstreamCloseResponse(upstream::UpstreamCloseResponse::from_proto(x)),
            Wire::DownstreamOpenRequest(x) =>
                Message::DownstreamOpenRequest(downstream::DownstreamOpenRequest::from_proto(x)),
            Wire::DownstreamResumeRequest(x) =>
                Message::DownstreamResumeRequest(downstream::DownstreamResumeRequest::from_proto(x)),
            Wire::DownstreamCloseRequest(x) =>
                Message::DownstreamCloseRequest(downstream::DownstreamCloseRequest::from_proto(x)),
            Wire::DownstreamOpenResponse(x) =>
                Message::DownstreamOpenResponse(downstream::DownstreamOpenResponse::from_proto(x)),
            Wire::DownstreamResumeResponse(x) =>
                Message::DownstreamResumeResponse(downstream::DownstreamResumeResponse::from_proto(x)),
            Wire::DownstreamCloseResponse(x) =>
                Message::DownstreamCloseResponse(downstream::DownstreamCloseResponse::from_proto(x)),
            Wire::UpstreamChunk(x) =>
                match data::UpstreamChunk::try_from_proto(x) {
                Ok(v) => Message::UpstreamChunk(v),
                Err(e) => {
                    return Err(e);
                },
            },
            Wire::UpstreamChunkAck(x) =>
                Message::UpstreamChunkAck(data::UpstreamChunkAck::from_proto(x)),
            Wire::DownstreamChunk(x) =>
                match data::DownstreamChunk::try_from_proto(x) {
                Ok(v) => Message::DownstreamChunk(v),
                Err(e) => {
                    return Err(e);
                },
            },
            Wire::DownstreamChunkAck(x) =>
                Message::DownstreamChunkAck(data::DownstreamChunkAck::from_proto(x)),
            Wire::DownstreamChunkAckComplete(x) =>
                Message::DownstreamChunkAckComplete(data::DownstreamChunkAckComplete::from_proto(x)),
            Wire::Ping(x) => Message::Ping(ping_pong::Ping::from(x)),
            Wire::Pong(x) => Message::Pong(ping_pong::Pong::from(x)),
            Wire::UpstreamCall(x) =>
                Message::UpstreamCall(e2e::UpstreamCall::from_proto(x)),
            Wire::UpstreamCallAck(x) =>
                Message::UpstreamCallAck(e2e::UpstreamCallAck::from_proto(x)),
            Wire::DownstreamCall(x) =>
                Message::DownstreamCall(e2e::DownstreamCall::from_proto(x)),
            Wire::UpstreamMetadata(x) =>
                match metadata::UpstreamMetadata::try_from_proto(x) {
                Ok(v) => Message::UpstreamMetadata(v),
                Err(e) => {
                    return Err(e);
                },
            },
            Wire::UpstreamMetadataAck(x) =>
                Message::UpstreamMetadataAck(metadata::UpstreamMetadataAck::from_proto(x)),
            Wire::DownstreamMetadata(x) =>
                match metadata::DownstreamMetadata::try_from_proto(x) {
                Ok(v) => Message::DownstreamMetadata(v),
                Err(e) => {
                    return Err(e);
                },
            },
            Wire::DownstreamMetadataAck(x) =>
                Message::DownstreamMetadataAck(metadata::DownstreamMetadataAck::from_proto(x)),
        };
        Ok(m)
    }

    /// The wire message; the base times it carries must fit in an `i64` of nanoseconds.
    pub fn to_proto(self) -> (r: autogen::Message)
        requires
            self.writable(),
        ensures
            self.writes(r),
    {
        let inner = match self {
            Message::ConnectRequest(x) => Wire::ConnectRequest(x.to_proto()),
            Message::ConnectResponse(x) =>
                Wire::ConnectResponse(autogen::ConnectResponse::from(x)),
            Message::Disconnect(x) =>
                Wire::Disconnect(autogen::Disconnect::from(x)),
            Message::UpstreamOpenRequest(x) =>
                Wire::UpstreamOpenRequest(x.to_proto()),
            Message::UpstreamResumeRequest(x) =>
                Wire::UpstreamResumeRequest(x.to_proto()),
            Message::UpstreamCloseRequest(x) =>
                Wire::UpstreamCloseRequest(x.to_proto()),
            Message::UpstreamOpenResponse(x) =>
                Wire::UpstreamOpenResponse(x.to_proto()),
            Message::UpstreamResumeResponse(x) =>
                Wire::UpstreamResumeResponse(autogen::UpstreamResumeResponse::from(x)),
            Message::UpstreamCloseResponse(x) =>
                Wire::UpstreamCloseResponse(autogen::UpstreamCloseResponse::from(x)),
            Message::DownstreamOpenRequest(x) =>
                Wire::DownstreamOpenRequest(x.to_proto()),
            Message::DownstreamResumeRequest(x) =>
                Wire::DownstreamResumeRequest(x.to_proto()),
            Message::DownstreamCloseRequest(x) =>
                Wire::DownstreamCloseRequest(x.to_proto()),
            Message::DownstreamOpenResponse(x) =>
                Wire::DownstreamOpenResponse(x.to_proto()),
            Message::DownstreamResumeResponse(x) =>
                Wire::DownstreamResumeResponse(autogen::DownstreamResumeResponse::from(x)),
            Message::DownstreamCloseResponse(x) =>
                Wire::DownstreamCloseResponse(autogen::DownstreamCloseResponse::from(x)),
            Message::UpstreamChunk(x) => Wire::UpstreamChunk(x.to_proto()),
            Message::UpstreamChunkAck(x) =>
                Wire::UpstreamChunkAck(x.to_proto()),
            Message::DownstreamChunk(x) => Wire::DownstreamChunk(x.to_proto()),
            Message::DownstreamChunkAck(x) =>
                Wire::DownstreamChunkAck(x.to_proto()),
            Message::DownstreamChunkAckComplete(x) =>
                Wire::DownstreamChunkAckComplete(autogen::DownstreamChunkAckComplete::from(x)),
            Message::Ping(x) => Wire::Ping(autogen::Ping::from(x)),
            Message::Pong(x) => Wire::Pong(autogen::Pong::from(x)),
            Message::UpstreamCall(x) => Wire::UpstreamCall(x.to_proto()),
            Message::UpstreamCallAck(x) =>
                Wire::UpstreamCallAck(autogen::UpstreamCallAck::from(x)),
            Message::DownstreamCall(x) => Wire::DownstreamCall(x.to_proto()),
            Message::UpstreamMetadata(x) =>
                Wire::UpstreamMetadata(x.to_proto()),
            Message::UpstreamMetadataAck(x) =>
                Wire::UpstreamMetadataAck(autogen::UpstreamMetadataAck::from(x)),
            Message::DownstreamMetadata(x) =>
                Wire::DownstreamMetadata(x.to_proto()),
            Message::DownstreamMetadataAck(x) =>
                Wire::DownstreamMetadataAck(autogen::DownstreamMetadataAck::from(x)),
        };
        autogen::Message { message: Some(inner) }
    }
}

/// What the library writes as a wire message, it reads back without refusal: the wire message
/// is complete, and its codes are ones the protocol defines.
pub proof fn lemma_written_message_is_read(m: Message, p: autogen::Message)
    requires
        m.writes(p),
    ensures
        Message::readable(p),
        Message::complete(p),
{
    broadcast use {crate::codes::lemma_result_code_value_roundtrip, crate::codes::lemma_qos_value_roundtrip};
    match (m, p.message) {
        (Message::DownstreamChunkAck(a), Some(Wire::DownstreamChunkAck(b))) =>
            {
            assert forall|i: int| 0 <= i < b.results@.len() implies data::DownstreamChunkResult::readable(
                #[trigger] b.results@[i],
            ) by {
                assert(a.results@[i].writes(b.results@[i]));
            }
        },
        (Message::UpstreamChunk(a), Some(Wire::UpstreamChunk(b))) => {
            let c = b.stream_chunk->Some_0;
            assert forall|i: int| 0 <= i < c.data_point_groups@.len() implies data::DataPointGroup::complete(
                #[trigger] c.data_point_groups@[i],
            ) by {
                assert(a.stream_chunk.data_point_groups@[i].reads(c.data_point_groups@[i]));
            }
        },
        (Message::DownstreamChunk(a), Some(Wire::DownstreamChunk(b))) => {
            let c = b.stream_chunk->Some_0;
            assert forall|i: int| 0 <= i < c.data_point_groups@.len() implies data::DataPointGroup::complete(
                #[trigger] c.data_point_groups@[i],
            ) by {
                assert(a.stream_chunk.data_point_groups@[i].reads(c.data_point_groups@[i]));
            }
        },
        _ => {},
    }
}

impl Message {
    /// Whether the wire carries this message exactly: its spans and times are ones that read
    /// back as themselves (metadata of a normal close is left out, see
    /// `ReceivableMetadata::exact`).
    pub open spec fn exact(self) -> bool {
        match self {
            Message::ConnectRequest(m) => m.exact(),
            Message::UpstreamOpenRequest(m) => m.exact(),
            Message::UpstreamOpenResponse(m) => m.exact(),
            Message::DownstreamOpenRequest(m) => m.exact(),
            Message::DownstreamOpenResponse(m) => m.exact(),
            Message::UpstreamMetadata(m) => m.metadata.exact(),
            Message::DownstreamMetadata(m) => m.metadata.exact(),
            _ => true,
        }
    }
}

/// A message that the wire carries exactly reads back as itself: what it writes is what it
/// reads as, so reading its wire message gives a message that agrees with it on every field.
pub proof fn lemma_message_read_back(m: Message, p: autogen::Message)
    requires
        m.writes(p),
        m.exact(),
    ensures
        m.reads(p),
{
    broadcast use {crate::codes::lemma_result_code_value_roundtrip, crate::codes::lemma_qos_value_roundtrip};
    match (m, p.message) {
        (Message::ConnectRequest(a), Some(Wire::ConnectRequest(b))) => {
            connect::lemma_connect_request_read_back(a, b);
        },
        (Message::UpstreamOpenRequest(a), Some(Wire::UpstreamOpenRequest(b))) => {
            time::lemma_millis_read_back(a.ack_interval);
            time::lemma_secs_read_back(a.expiry_interval);
        },
        (Message::DownstreamOpenRequest(a), Some(Wire::DownstreamOpenRequest(b))) => {
            time::lemma_secs_read_back(a.expiry_interval);
        },
        (Message::UpstreamOpenResponse(a), Some(Wire::UpstreamOpenResponse(b))) => {
            time::lemma_time_read_back(a.server_time);
        },
        (Message::DownstreamOpenResponse(a), Some(Wire::DownstreamOpenResponse(b))) => {
            time::lemma_time_read_back(a.server_time);
        },
        (Message::UpstreamMetadata(a), Some(Wire::UpstreamMetadata(b))) => {
            let SendableMetadata::BaseTime(t) = a.metadata;
            lemma_elapsed_read_back(t.elapsed_time.total());
        },
        (Message::DownstreamMetadata(a), Some(Wire::DownstreamMetadata(b))) => {
            match a.metadata {
                ReceivableMetadata::BaseTime(t) => lemma_elapsed_read_back(t.elapsed_time.total()),
                _ => {},
            }
        },
        (Message::DownstreamChunkAck(a), Some(Wire::DownstreamChunkAck(b))) => {
            assert forall|k: u32| #[trigger] a.upstream_aliases@.contains_key(k) implies a.upstream_aliases@[k].reads(
                b.upstream_aliases@[k],
            ) by {
                assert(a.upstream_aliases@[k].writes(b.upstream_aliases@[k]));
            }
            assert forall|i: int| 0 <= i < b.results@.len() implies (#[trigger] a.results@[i]).reads(b.results@[i]) by {
                assert(a.results@[i].writes(b.results@[i]));
            }
        },
        _ => {},
    }
}

/// An elapsed time that fits in an `i64` of nanoseconds reads back as itself from the
/// unsigned nanoseconds the wire carries.
proof fn lemma_elapsed_read_back(t: int)
    requires
        fits_i64(t),
    ensures
        ((t as i64) as u64) as i64 == t,
{
    let x = t as i64;
    assert(x == t);
    assert((x as u64) as i64 == x) by (bit_vector);
}

} // verus!
