//! The kinds of message that a [`super::Message`] carries.

use vstd::prelude::*;

use super::{
    ConnectRequest, ConnectResponse, Disconnect, DownstreamCall, DownstreamChunk,
    DownstreamChunkAck, DownstreamChunkAckComplete, DownstreamCloseRequest,
    DownstreamCloseResponse, DownstreamMetadata, DownstreamMetadataAck, DownstreamOpenRequest,
    DownstreamOpenResponse, DownstreamResumeRequest, DownstreamResumeResponse, Ping, Pong,
    UpstreamCall, UpstreamCallAck, UpstreamChunk, UpstreamChunkAck, UpstreamCloseRequest,
    UpstreamCloseResponse, UpstreamMetadata, UpstreamMetadataAck, UpstreamOpenRequest,
    UpstreamOpenResponse, UpstreamResumeRequest, UpstreamResumeResponse,
};

verus! {

/// One message of the protocol, of any kind.
#[derive(Clone, Debug, PartialEq)]
pub enum Message {
    ConnectRequest(ConnectRequest),
    ConnectResponse(ConnectResponse),
    Disconnect(Disconnect),
    UpstreamOpenRequest(UpstreamOpenRequest),
    UpstreamOpenResponse(UpstreamOpenResponse),
    UpstreamResumeRequest(UpstreamResumeRequest),
    UpstreamResumeResponse(UpstreamResumeResponse),
    UpstreamCloseRequest(UpstreamCloseRequest),
    UpstreamCloseResponse(UpstreamCloseResponse),
    UpstreamChunk(UpstreamChunk),
    UpstreamChunkAck(UpstreamChunkAck),
    UpstreamMetadata(UpstreamMetadata),
    UpstreamMetadataAck(UpstreamMetadataAck),
    DownstreamOpenRequest(DownstreamOpenRequest),
    DownstreamOpenResponse(DownstreamOpenResponse),
    DownstreamResumeRequest(DownstreamResumeRequest),
    DownstreamResumeResponse(DownstreamResumeResponse),
    DownstreamCloseRequest(DownstreamCloseRequest),
    DownstreamCloseResponse(DownstreamCloseResponse),
    DownstreamChunk(DownstreamChunk),
    DownstreamChunkAck(DownstreamChunkAck),
    DownstreamChunkAckComplete(DownstreamChunkAckComplete),
    DownstreamMetadata(DownstreamMetadata),
    DownstreamMetadataAck(DownstreamMetadataAck),
    Ping(Ping),
    Pong(Pong),
    UpstreamCall(UpstreamCall),
    UpstreamCallAck(UpstreamCallAck),
    DownstreamCall(DownstreamCall),
}

} // verus!
