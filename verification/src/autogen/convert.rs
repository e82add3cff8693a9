//! Wrapping each kind of message in a [`Message`] and taking it out again, and what requests
//! and responses have in common.

use vstd::prelude::*;

use crate::codes::{result_code_of_value, ResultCode};

use super::message;
use super::private::Sealed;
use super::{
    Message, ConnectRequest, ConnectResponse, Disconnect, DownstreamCall, DownstreamChunk,
    DownstreamChunkAck, DownstreamChunkAckComplete, DownstreamCloseRequest,
    DownstreamCloseResponse, DownstreamMetadata, DownstreamMetadataAck, DownstreamOpenRequest,
    DownstreamOpenResponse, DownstreamResumeRequest, DownstreamResumeResponse, Ping, Pong,
    UpstreamCall, UpstreamCallAck, UpstreamChunk, UpstreamChunkAck, UpstreamCloseRequest,
    UpstreamCloseResponse, UpstreamMetadata, UpstreamMetadataAck, UpstreamOpenRequest,
    UpstreamOpenResponse, UpstreamResumeRequest, UpstreamResumeResponse,
};

verus! {

/// A message that was not of the kind asked for, given back.
#[derive(Debug)]
pub struct MessageConvertError(pub Message);

/// The request id that a message carries, for the kinds of message that carry one.
pub open spec fn message_request_id(m: Message) -> Option<u32> {
    match m.message {

        Some(message::Message::ConnectRequest(a)) => Some(a.request_id),
        Some(message::Message::ConnectResponse(a)) => Some(a.request_id),
        Some(message::Message::DownstreamCloseRequest(a)) => Some(a.request_id),
        Some(message::Message::DownstreamCloseResponse(a)) => Some(a.request_id),
        Some(message::Message::DownstreamMetadata(a)) => Some(a.request_id),
        Some(message::Message::DownstreamMetadataAck(a)) => Some(a.request_id),
        Some(message::Message::DownstreamOpenRequest(a)) => Some(a.request_id),
        Some(message::Message::DownstreamOpenResponse(a)) => Some(a.request_id),
        Some(message::Message::DownstreamResumeRequest(a)) => Some(a.request_id),
        Some(message::Message::DownstreamResumeResponse(a)) => Some(a.request_id),
        Some(message::Message::Ping(a)) => Some(a.request_id),
        Some(message::Message::Pong(a)) => Some(a.request_id),
        Some(message::Message::UpstreamCloseRequest(a)) => Some(a.request_id),
        Some(message::Message::UpstreamCloseResponse(a)) => Some(a.request_id),
        Some(message::Message::UpstreamMetadata(a)) => Some(a.request_id),
        Some(message::Message::UpstreamMetadataAck(a)) => Some(a.request_id),
        Some(message::Message::UpstreamOpenRequest(a)) => Some(a.request_id),
        Some(message::Message::UpstreamOpenResponse(a)) => Some(a.request_id),
        Some(message::Message::UpstreamResumeRequest(a)) => Some(a.request_id),
        Some(message::Message::UpstreamResumeResponse(a)) => Some(a.request_id),
        _ => None,
    }
}

impl Message {
    /// The request id of this message, if its kind carries one.
    pub fn request_id(&self) -> (r: Option<u32>)
        ensures
            r == message_request_id(*self),
    {
        match &self.message {
            Some(message::Message::ConnectRequest(a)) => Some(a.request_id),
            Some(message::Message::ConnectResponse(a)) => Some(a.request_id),
            Some(message::Message::DownstreamCloseRequest(a)) => Some(a.request_id),
            Some(message::Message::DownstreamCloseResponse(a)) => Some(a.request_id),
            Some(message::Message::DownstreamMetadata(a)) => Some(a.request_id),
            Some(message::Message::DownstreamMetadataAck(a)) => Some(a.request_id),
            Some(message::Message::DownstreamOpenRequest(a)) => Some(a.request_id),
            Some(message::Message::DownstreamOpenResponse(a)) => Some(a.request_id),
            Some(message::Message::DownstreamResumeRequest(a)) => Some(a.request_id),
            Some(message::Message::DownstreamResumeResponse(a)) => Some(a.request_id),
            Some(message::Message::Ping(a)) => Some(a.request_id),
            Some(message::Message::Pong(a)) => Some(a.request_id),
            Some(message::Message::UpstreamCloseRequest(a)) => Some(a.request_id),
            Some(message::Message::UpstreamCloseResponse(a)) => Some(a.request_id),
            Some(message::Message::UpstreamMetadata(a)) => Some(a.request_id),
            Some(message::Message::UpstreamMetadataAck(a)) => Some(a.request_id),
            Some(message::Message::UpstreamOpenRequest(a)) => Some(a.request_id),
            Some(message::Message::UpstreamOpenResponse(a)) => Some(a.request_id),
            Some(message::Message::UpstreamResumeRequest(a)) => Some(a.request_id),
            Some(message::Message::UpstreamResumeResponse(a)) => Some(a.request_id),
            _ => None,
        }
    }
}

impl From<ConnectRequest> for Message {
    fn from(m: ConnectRequest) -> (r: Message) {
        Message { message: Some(message::Message::ConnectRequest(m)) }
    }
}

impl vstd::std_specs::convert::FromSpecImpl<ConnectRequest> for Message {
    open spec fn obeys_from_spec() -> bool {
        true
    }

    open spec fn from_spec(m: ConnectRequest) -> Message {
        Message { message: Some(message::Message::ConnectRequest(m)) }
    }
}

impl TryFrom<Message> for ConnectRequest {
    type Error = MessageConvertError;

    fn try_from(m: Message) -> (r: Result<ConnectRequest, MessageConvertError>) {
        match m.message {
            Some(message::Message::ConnectRequest(a)) => Ok(a),
            other => Err(MessageConvertError(Message { message: other })),
        }
    }
}

impl vstd::std_specs::convert::TryFromSpecImpl<Message> for ConnectRequest {
    open spec fn obeys_try_from_spec() -> bool {
        true
    }

    open spec fn try_from_spec(m: Message) -> Result<ConnectRequest, MessageConvertError> {
        match m.message {
            Some(message::Message::ConnectRequest(a)) => Ok(a),
            _ => Err(MessageConvertError(m)),
        }
    }
}

impl From<ConnectResponse> for Message {
    fn from(m: ConnectResponse) -> (r: Message) {
        Message { message: Some(message::Message::ConnectResponse(m)) }
    }
}

impl vstd::std_specs::convert::FromSpecImpl<ConnectResponse> for Message {
    open spec fn obeys_from_spec() -> bool {
        true
    }

    open spec fn from_spec(m: ConnectResponse) -> Message {
        Message { message: Some(message::Message::ConnectResponse(m)) }
    }
}

impl TryFrom<Message> for ConnectResponse {
    type Error = MessageConvertError;

    fn try_from(m: Message) -> (r: Result<ConnectResponse, MessageConvertError>) {
        match m.message {
            Some(message::Message::ConnectResponse(a)) => Ok(a),
            other => Err(MessageConvertError(Message { message: other })),
        }
    }
}

impl vstd::std_specs::convert::TryFromSpecImpl<Message> for ConnectResponse {
    open spec fn obeys_try_from_spec() -> bool {
        true
    }

    open spec fn try_from_spec(m: Message) -> Result<ConnectResponse, MessageConvertError> {
        match m.message {
            Some(message::Message::ConnectResponse(a)) => Ok(a),
            _ => Err(MessageConvertError(m)),
        }
    }
}

impl From<Disconnect> for Message {
    fn from(m: Disconnect) -> (r: Message) {
        Message { message: Some(message::Message::Disconnect(m)) }
    }
}

impl vstd::std_specs::convert::FromSpecImpl<Disconnect> for Message {
    open spec fn obeys_from_spec() -> bool {
        true
    }

    open spec fn from_spec(m: Disconnect) -> Message {
        Message { message: Some(message::Message::Disconnect(m)) }
    }
}

impl TryFrom<Message> for Disconnect {
    type Error = MessageConvertError;

    fn try_from(m: Message) -> (r: Result<Disconnect, MessageConvertError>) {
        match m.message {
            Some(message::Message::Disconnect(a)) => Ok(a),
            other => Err(MessageConvertError(Message { message: other })),
        }
    }
}

impl vstd::std_specs::convert::TryFromSpecImpl<Message> for Disconnect {
    open spec fn obeys_try_from_spec() -> bool {
        true
    }

    open spec fn try_from_spec(m: Message) -> Result<Disconnect, MessageConvertError> {
        match m.message {
            Some(message::Message::Disconnect(a)) => Ok(a),
            _ => Err(MessageConvertError(m)),
        }
    }
}

impl From<DownstreamCall> for Message {
    fn from(m: DownstreamCall) -> (r: Message) {
        Message { message: Some(message::Message::DownstreamCall(m)) }
    }
}

impl vstd::std_specs::convert::FromSpecImpl<DownstreamCall> for Message {
    open spec fn obeys_from_spec() -> bool {
        true
    }

    open spec fn from_spec(m: DownstreamCall) -> Message {
        Message { message: Some(message::Message::DownstreamCall(m)) }
    }
}

impl TryFrom<Message> for DownstreamCall {
    type Error = MessageConvertError;

    fn try_from(m: Message) -> (r: Result<DownstreamCall, MessageConvertError>) {
        match m.message {
            Some(message::Message::DownstreamCall(a)) => Ok(a),
            other => Err(MessageConvertError(Message { message: other })),
        }
    }
}

impl vstd::std_specs::convert::TryFromSpecImpl<Message> for DownstreamCall {
    open spec fn obeys_try_from_spec() -> bool {
        true
    }

    open spec fn try_from_spec(m: Message) -> Result<DownstreamCall, MessageConvertError> {
        match m.message {
            Some(message::Message::DownstreamCall(a)) => Ok(a),
            _ => Err(MessageConvertError(m)),
        }
    }
}

impl From<DownstreamChunk> for Message {
    fn from(m: DownstreamChunk) -> (r: Message) {
        Message { message: Some(message::Message::DownstreamChunk(m)) }
    }
}

impl vstd::std_specs::convert::FromSpecImpl<DownstreamChunk> for Message {
    open spec fn obeys_from_spec() -> bool {
        true
    }

    open spec fn from_spec(m: DownstreamChunk) -> Message {
        Message { message: Some(message::Message::DownstreamChunk(m)) }
    }
}

impl TryFrom<Message> for DownstreamChunk {
    type Error = MessageConvertError;

    fn try_from(m: Message) -> (r: Result<DownstreamChunk, MessageConvertError>) {
        match m.message {
            Some(message::Message::DownstreamChunk(a)) => Ok(a),
            other => Err(MessageConvertError(Message { message: other })),
        }
    }
}

impl vstd::std_specs::convert::TryFromSpecImpl<Message> for DownstreamChunk {
    open spec fn obeys_try_from_spec() -> bool {
        true
    }

    open spec fn try_from_spec(m: Message) -> Result<DownstreamChunk, MessageConvertError> {
        match m.message {
            Some(message::Message::DownstreamChunk(a)) => Ok(a),
            _ => Err(MessageConvertError(m)),
        }
    }
}

impl From<DownstreamChunkAck> for Message {
    fn from(m: DownstreamChunkAck) -> (r: Message) {
        Message { message: Some(message::Message::DownstreamChunkAck(m)) }
    }
}

impl vstd::std_specs::convert::FromSpecImpl<DownstreamChunkAck> for Message {
    open spec fn obeys_from_spec() -> bool {
        true
    }

    open spec fn from_spec(m: DownstreamChunkAck) -> Message {
        Message { message: Some(message::Message::DownstreamChunkAck(m)) }
    }
}

impl TryFrom<Message> for DownstreamChunkAck {
    type Error = MessageConvertError;

    fn try_from(m: Message) -> (r: Result<DownstreamChunkAck, MessageConvertError>) {
        match m.message {
            Some(message::Message::DownstreamChunkAck(a)) => Ok(a),
            other => Err(MessageConvertError(Message { message: other })),
        }
    }
}

impl vstd::std_specs::convert::TryFromSpecImpl<Message> for DownstreamChunkAck {
    open spec fn obeys_try_from_spec() -> bool {
        true
    }

    open spec fn try_from_spec(m: Message) -> Result<DownstreamChunkAck, MessageConvertError> {
        match m.message {
            Some(message::Message::DownstreamChunkAck(a)) => Ok(a),
            _ => Err(MessageConvertError(m)),
        }
    }
}

impl From<DownstreamChunkAckComplete> for Message {
    fn from(m: DownstreamChunkAckComplete) -> (r: Message) {
        Message { message: Some(message::Message::DownstreamChunkAckComplete(m)) }
    }
}

impl vstd::std_specs::convert::FromSpecImpl<DownstreamChunkAckComplete> for Message {
    open spec fn obeys_from_spec() -> bool {
        true
    }

    open spec fn from_spec(m: DownstreamChunkAckComplete) -> Message {
        Message { message: Some(message::Message::DownstreamChunkAckComplete(m)) }
    }
}

impl TryFrom<Message> for DownstreamChunkAckComplete {
    type Error = MessageConvertError;

    fn try_from(m: Message) -> (r: Result<DownstreamChunkAckComplete, MessageConvertError>) {
        match m.message {
            Some(message::Message::DownstreamChunkAckComplete(a)) => Ok(a),
            other => Err(MessageConvertError(Message { message: other })),
        }
    }
}

impl vstd::std_specs::convert::TryFromSpecImpl<Message> for DownstreamChunkAckComplete {
    open spec fn obeys_try_from_spec() -> bool {
        true
    }

    open spec fn try_from_spec(m: Message) -> Result<DownstreamChunkAckComplete, MessageConvertError> {
        match m.message {
            Some(message::Message::DownstreamChunkAckComplete(a)) => Ok(a),
            _ => Err(MessageConvertError(m)),
        }
    }
}

impl From<DownstreamCloseRequest> for Message {
    fn from(m: DownstreamCloseRequest) -> (r: Message) {
        Message { message: Some(message::Message::DownstreamCloseRequest(m)) }
    }
}

impl vstd::std_specs::convert::FromSpecImpl<DownstreamCloseRequest> for Message {
    open spec fn obeys_from_spec() -> bool {
        true
    }

    open spec fn from_spec(m: DownstreamCloseRequest) -> Message {
        Message { message: Some(message::Message::DownstreamCloseRequest(m)) }
    }
}

impl TryFrom<Message> for DownstreamCloseRequest {
    type Error = MessageConvertError;

    fn try_from(m: Message) -> (r: Result<DownstreamCloseRequest, MessageConvertError>) {
        match m.message {
            Some(message::Message::DownstreamCloseRequest(a)) => Ok(a),
            other => Err(MessageConvertError(Message { message: other })),
        }
    }
}

impl vstd::std_specs::convert::TryFromSpecImpl<Message> for DownstreamCloseRequest {
    open spec fn obeys_try_from_spec() -> bool {
        true
    }

    open spec fn try_from_spec(m: Message) -> Result<DownstreamCloseRequest, MessageConvertError> {
        match m.message {
            Some(message::Message::DownstreamCloseRequest(a)) => Ok(a),
            _ => Err(MessageConvertError(m)),
        }
    }
}

impl From<DownstreamCloseResponse> for Message {
    fn from(m: DownstreamCloseResponse) -> (r: Message) {
        Message { message: Some(message::Message::DownstreamCloseResponse(m)) }
    }
}

impl vstd::std_specs::convert::FromSpecImpl<DownstreamCloseResponse> for Message {
    open spec fn obeys_from_spec() -> bool {
        true
    }

    open spec fn from_spec(m: DownstreamCloseResponse) -> Message {
        Message { message: Some(message::Message::DownstreamCloseResponse(m)) }
    }
}

impl TryFrom<Message> for DownstreamCloseResponse {
    type Error = MessageConvertError;

    fn try_from(m: Message) -> (r: Result<DownstreamCloseResponse, MessageConvertError>) {
        match m.message {
            Some(message::Message::DownstreamCloseResponse(a)) => Ok(a),
            other => Err(MessageConvertError(Message { message: other })),
        }
    }
}

impl vstd::std_specs::convert::TryFromSpecImpl<Message> for DownstreamCloseResponse {
    open spec fn obeys_try_from_spec() -> bool {
        true
    }

    open spec fn try_from_spec(m: Message) -> Result<DownstreamCloseResponse, MessageConvertError> {
        match m.message {
            Some(message::Message::DownstreamCloseResponse(a)) => Ok(a),
            _ => Err(MessageConvertError(m)),
        }
    }
}

impl From<DownstreamMetadata> for Message {
    fn from(m: DownstreamMetadata) -> (r: Message) {
        Message { message: Some(message::Message::DownstreamMetadata(m)) }
    }
}

impl vstd::std_specs::convert::FromSpecImpl<DownstreamMetadata> for Message {
    open spec fn obeys_from_spec() -> bool {
        true
    }

    open spec fn from_spec(m: DownstreamMetadata) -> Message {
        Message { message: Some(message::Message::DownstreamMetadata(m)) }
    }
}

impl TryFrom<Message> for DownstreamMetadata {
    type Error = MessageConvertError;

    fn try_from(m: Message) -> (r: Result<DownstreamMetadata, MessageConvertError>) {
        match m.message {
            Some(message::Message::DownstreamMetadata(a)) => Ok(a),
            other => Err(MessageConvertError(Message { message: other })),
        }
    }
}

impl vstd::std_specs::convert::TryFromSpecImpl<Message> for DownstreamMetadata {
    open spec fn obeys_try_from_spec() -> bool {
        true
    }

    open spec fn try_from_spec(m: Message) -> Result<DownstreamMetadata, MessageConvertError> {
        match m.message {
            Some(message::Message::DownstreamMetadata(a)) => Ok(a),
            _ => Err(MessageConvertError(m)),
        }
    }
}

impl From<DownstreamMetadataAck> for Message {
    fn from(m: DownstreamMetadataAck) -> (r: Message) {
        Message { message: Some(message::Message::DownstreamMetadataAck(m)) }
    }
}

impl vstd::std_specs::convert::FromSpecImpl<DownstreamMetadataAck> for Message {
    open spec fn obeys_from_spec() -> bool {
        true
    }

    open spec fn from_spec(m: DownstreamMetadataAck) -> Message {
        Message { message: Some(message::Message::DownstreamMetadataAck(m)) }
    }
}

impl TryFrom<Message> for DownstreamMetadataAck {
    type Error = MessageConvertError;

    fn try_from(m: Message) -> (r: Result<DownstreamMetadataAck, MessageConvertError>) {
        match m.message {
            Some(message::Message::DownstreamMetadataAck(a)) => Ok(a),
            other => Err(MessageConvertError(Message { message: other })),
        }
    }
}

impl vstd::std_specs::convert::TryFromSpecImpl<Message> for DownstreamMetadataAck {
    open spec fn obeys_try_from_spec() -> bool {
        true
    }

    open spec fn try_from_spec(m: Message) -> Result<DownstreamMetadataAck, MessageConvertError> {
        match m.message {
            Some(message::Message::DownstreamMetadataAck(a)) => Ok(a),
            _ => Err(MessageConvertError(m)),
        }
    }
}

impl From<DownstreamOpenRequest> for Message {
    fn from(m: DownstreamOpenRequest) -> (r: Message) {
        Message { message: Some(message::Message::DownstreamOpenRequest(m)) }
    }
}

impl vstd::std_specs::convert::FromSpecImpl<DownstreamOpenRequest> for Message {
    open spec fn obeys_from_spec() -> bool {
        true
    }

    open spec fn from_spec(m: DownstreamOpenRequest) -> Message {
        Message { message: Some(message::Message::DownstreamOpenRequest(m)) }
    }
}

impl TryFrom<Message> for DownstreamOpenRequest {
    type Error = MessageConvertError;

    fn try_from(m: Message) -> (r: Result<DownstreamOpenRequest, MessageConvertError>) {
        match m.message {
            Some(message::Message::DownstreamOpenRequest(a)) => Ok(a),
            other => Err(MessageConvertError(Message { message: other })),
        }
    }
}

impl vstd::std_specs::convert::TryFromSpecImpl<Message> for DownstreamOpenRequest {
    open spec fn obeys_try_from_spec() -> bool {
        true
    }

    open spec fn try_from_spec(m: Message) -> Result<DownstreamOpenRequest, MessageConvertError> {
        match m.message {
            Some(message::Message::DownstreamOpenRequest(a)) => Ok(a),
            _ => Err(MessageConvertError(m)),
        }
    }
}

impl From<DownstreamOpenResponse> for Message {
    fn from(m: DownstreamOpenResponse) -> (r: Message) {
        Message { message: Some(message::Message::DownstreamOpenResponse(m)) }
    }
}

impl vstd::std_specs::convert::FromSpecImpl<DownstreamOpenResponse> for Message {
    open spec fn obeys_from_spec() -> bool {
        true
    }

    open spec fn from_spec(m: DownstreamOpenResponse) -> Message {
        Message { message: Some(message::Message::DownstreamOpenResponse(m)) }
    }
}

impl TryFrom<Message> for DownstreamOpenResponse {
    type Error = MessageConvertError;

    fn try_from(m: Message) -> (r: Result<DownstreamOpenResponse, MessageConvertError>) {
        match m.message {
            Some(message::Message::DownstreamOpenResponse(a)) => Ok(a),
            other => Err(MessageConvertError(Message { message: other })),
        }
    }
}

impl vstd::std_specs::convert::TryFromSpecImpl<Message> for DownstreamOpenResponse {
    open spec fn obeys_try_from_spec() -> bool {
        true
    }

    open spec fn try_from_spec(m: Message) -> Result<DownstreamOpenResponse, MessageConvertError> {
        match m.message {
            Some(message::Message::DownstreamOpenResponse(a)) => Ok(a),
            _ => Err(MessageConvertError(m)),
        }
    }
}

impl From<DownstreamResumeRequest> for Message {
    fn from(m: DownstreamResumeRequest) -> (r: Message) {
        Message { message: Some(message::Message::DownstreamResumeRequest(m)) }
    }
}

impl vstd::std_specs::convert::FromSpecImpl<DownstreamResumeRequest> for Message {
    open spec fn obeys_from_spec() -> bool {
        true
    }

    open spec fn from_spec(m: DownstreamResumeRequest) -> Message {
        Message { message: Some(message::Message::DownstreamResumeRequest(m)) }
    }
}

impl TryFrom<Message> for DownstreamResumeRequest {
    type Error = MessageConvertError;

    fn try_from(m: Message) -> (r: Result<DownstreamResumeRequest, MessageConvertError>) {
        match m.message {
            Some(message::Message::DownstreamResumeRequest(a)) => Ok(a),
            other => Err(MessageConvertError(Message { message: other })),
        }
    }
}

impl vstd::std_specs::convert::TryFromSpecImpl<Message> for DownstreamResumeRequest {
    open spec fn obeys_try_from_spec() -> bool {
        true
    }

    open spec fn try_from_spec(m: Message) -> Result<DownstreamResumeRequest, MessageConvertError> {
        match m.message {
            Some(message::Message::DownstreamResumeRequest(a)) => Ok(a),
            _ => Err(MessageConvertError(m)),
        }
    }
}

impl From<DownstreamResumeResponse> for Message {
    fn from(m: DownstreamResumeResponse) -> (r: Message) {
        Message { message: Some(message::Message::DownstreamResumeResponse(m)) }
    }
}

impl vstd::std_specs::convert::FromSpecImpl<DownstreamResumeResponse> for Message {
    open spec fn obeys_from_spec() -> bool {
        true
    }

    open spec fn from_spec(m: DownstreamResumeResponse) -> Message {
        Message { message: Some(message::Message::DownstreamResumeResponse(m)) }
    }
}

impl TryFrom<Message> for DownstreamResumeResponse {
    type Error = MessageConvertError;

    fn try_from(m: Message) -> (r: Result<DownstreamResumeResponse, MessageConvertError>) {
        match m.message {
            Some(message::Message::DownstreamResumeResponse(a)) => Ok(a),
            other => Err(MessageConvertError(Message { message: other })),
        }
    }
}

impl vstd::std_specs::convert::TryFromSpecImpl<Message> for DownstreamResumeResponse {
    open spec fn obeys_try_from_spec() -> bool {
        true
    }

    open spec fn try_from_spec(m: Message) -> Result<DownstreamResumeResponse, MessageConvertError> {
        match m.message {
            Some(message::Message::DownstreamResumeResponse(a)) => Ok(a),
            _ => Err(MessageConvertError(m)),
        }
    }
}

impl From<Ping> for Message {
    fn from(m: Ping) -> (r: Message) {
        Message { message: Some(message::Message::Ping(m)) }
    }
}

impl vstd::std_specs::convert::FromSpecImpl<Ping> for Message {
    open spec fn obeys_from_spec() -> bool {
        true
    }

    open spec fn from_spec(m: Ping) -> Message {
        Message { message: Some(message::Message::Ping(m)) }
    }
}

impl TryFrom<Message> for Ping {
    type Error = MessageConvertError;

    fn try_from(m: Message) -> (r: Result<Ping, MessageConvertError>) {
        match m.message {
            Some(message::Message::Ping(a)) => Ok(a),
            other => Err(MessageConvertError(Message { message: other })),
        }
    }
}

impl vstd::std_specs::convert::TryFromSpecImpl<Message> for Ping {
    open spec fn obeys_try_from_spec() -> bool {
        true
    }

    open spec fn try_from_spec(m: Message) -> Result<Ping, MessageConvertError> {
        match m.message {
            Some(message::Message::Ping(a)) => Ok(a),
            _ => Err(MessageConvertError(m)),
        }
    }
}

impl From<Pong> for Message {
    fn from(m: Pong) -> (r: Message) {
        Message { message: Some(message::Message::Pong(m)) }
    }
}

impl vstd::std_specs::convert::FromSpecImpl<Pong> for Message {
    open spec fn obeys_from_spec() -> bool {
        true
    }

    open spec fn from_spec(m: Pong) -> Message {
        Message { message: Some(message::Message::Pong(m)) }
    }
}

impl TryFrom<Message> for Pong {
    type Error = MessageConvertError;

    fn try_from(m: Message) -> (r: Result<Pong, MessageConvertError>) {
        match m.message {
            Some(message::Message::Pong(a)) => Ok(a),
            other => Err(MessageConvertError(Message { message: other })),
        }
    }
}

impl vstd::std_specs::convert::TryFromSpecImpl<Message> for Pong {
    open spec fn obeys_try_from_spec() -> bool {
        true
    }

    open spec fn try_from_spec(m: Message) -> Result<Pong, MessageConvertError> {
        match m.message {
            Some(message::Message::Pong(a)) => Ok(a),
            _ => Err(MessageConvertError(m)),
        }
    }
}

impl From<UpstreamCall> for Message {
    fn from(m: UpstreamCall) -> (r: Message) {
        Message { message: Some(message::Message::UpstreamCall(m)) }
    }
}

impl vstd::std_specs::convert::FromSpecImpl<UpstreamCall> for Message {
    open spec fn obeys_from_spec() -> bool {
        true
    }

    open spec fn from_spec(m: UpstreamCall) -> Message {
        Message { message: Some(message::Message::UpstreamCall(m)) }
    }
}

impl TryFrom<Message> for UpstreamCall {
    type Error = MessageConvertError;

    fn try_from(m: Message) -> (r: Result<UpstreamCall, MessageConvertError>) {
        match m.message {
            Some(message::Message::UpstreamCall(a)) => Ok(a),
            other => Err(MessageConvertError(Message { message: other })),
        }
    }
}

impl vstd::std_specs::convert::TryFromSpecImpl<Message> for UpstreamCall {
    open spec fn obeys_try_from_spec() -> bool {
        true
    }

    open spec fn try_from_spec(m: Message) -> Result<UpstreamCall, MessageConvertError> {
        match m.message {
            Some(message::Message::UpstreamCall(a)) => Ok(a),
            _ => Err(MessageConvertError(m)),
        }
    }
}

impl From<UpstreamCallAck> for Message {
    fn from(m: UpstreamCallAck) -> (r: Message) {
        Message { message: Some(message::Message::UpstreamCallAck(m)) }
    }
}

impl vstd::std_specs::convert::FromSpecImpl<UpstreamCallAck> for Message {
    open spec fn obeys_from_spec() -> bool {
        true
    }

    open spec fn from_spec(m: UpstreamCallAck) -> Message {
        Message { message: Some(message::Message::UpstreamCallAck(m)) }
    }
}

impl TryFrom<Message> for UpstreamCallAck {
    type Error = MessageConvertError;

    fn try_from(m: Message) -> (r: Result<UpstreamCallAck, MessageConvertError>) {
        match m.message {
            Some(message::Message::UpstreamCallAck(a)) => Ok(a),
            other => Err(MessageConvertError(Message { message: other })),
        }
    }
}

impl vstd::std_specs::convert::TryFromSpecImpl<Message> for UpstreamCallAck {
    open spec fn obeys_try_from_spec() -> bool {
        true
    }

    open spec fn try_from_spec(m: Message) -> Result<UpstreamCallAck, MessageConvertError> {
        match m.message {
            Some(message::Message::UpstreamCallAck(a)) => Ok(a),
            _ => Err(MessageConvertError(m)),
        }
    }
}

impl From<UpstreamChunk> for Message {
    fn from(m: UpstreamChunk) -> (r: Message) {
        Message { message: Some(message::Message::UpstreamChunk(m)) }
    }
}

impl vstd::std_specs::convert::FromSpecImpl<UpstreamChunk> for Message {
    open spec fn obeys_from_spec() -> bool {
        true
    }

    open spec fn from_spec(m: UpstreamChunk) -> Message {
        Message { message: Some(message::Message::UpstreamChunk(m)) }
    }
}

impl TryFrom<Message> for UpstreamChunk {
    type Error = MessageConvertError;

    fn try_from(m: Message) -> (r: Result<UpstreamChunk, MessageConvertError>) {
        match m.message {
            Some(message::Message::UpstreamChunk(a)) => Ok(a),
            other => Err(MessageConvertError(Message { message: other })),
        }
    }
}

impl vstd::std_specs::convert::TryFromSpecImpl<Message> for UpstreamChunk {
    open spec fn obeys_try_from_spec() -> bool {
        true
    }

    open spec fn try_from_spec(m: Message) -> Result<UpstreamChunk, MessageConvertError> {
        match m.message {
            Some(message::Message::UpstreamChunk(a)) => Ok(a),
            _ => Err(MessageConvertError(m)),
        }
    }
}

impl From<UpstreamChunkAck> for Message {
    fn from(m: UpstreamChunkAck) -> (r: Message) {
        Message { message: Some(message::Message::UpstreamChunkAck(m)) }
    }
}

impl vstd::std_specs::convert::FromSpecImpl<UpstreamChunkAck> for Message {
    open spec fn obeys_from_spec() -> bool {
        true
    }

    open spec fn from_spec(m: UpstreamChunkAck) -> Message {
        Message { message: Some(message::Message::UpstreamChunkAck(m)) }
    }
}

impl TryFrom<Message> for UpstreamChunkAck {
    type Error = MessageConvertError;

    fn try_from(m: Message) -> (r: Result<UpstreamChunkAck, MessageConvertError>) {
        match m.message {
            Some(message::Message::UpstreamChunkAck(a)) => Ok(a),
            other => Err(MessageConvertError(Message { message: other })),
        }
    }
}

impl vstd::std_specs::convert::TryFromSpecImpl<Message> for UpstreamChunkAck {
    open spec fn obeys_try_from_spec() -> bool {
        true
    }

    open spec fn try_from_spec(m: Message) -> Result<UpstreamChunkAck, MessageConvertError> {
        match m.message {
            Some(message::Message::UpstreamChunkAck(a)) => Ok(a),
            _ => Err(MessageConvertError(m)),
        }
    }
}

impl From<UpstreamCloseRequest> for Message {
    fn from(m: UpstreamCloseRequest) -> (r: Message) {
        Message { message: Some(message::Message::UpstreamCloseRequest(m)) }
    }
}

impl vstd::std_specs::convert::FromSpecImpl<UpstreamCloseRequest> for Message {
    open spec fn obeys_from_spec() -> bool {
        true
    }

    open spec fn from_spec(m: UpstreamCloseRequest) -> Message {
        Message { message: Some(message::Message::UpstreamCloseRequest(m)) }
    }
}

impl TryFrom<Message> for UpstreamCloseRequest {
    type Error = MessageConvertError;

    fn try_from(m: Message) -> (r: Result<UpstreamCloseRequest, MessageConvertError>) {
        match m.message {
            Some(message::Message::UpstreamCloseRequest(a)) => Ok(a),
            other => Err(MessageConvertError(Message { message: other })),
        }
    }
}

impl vstd::std_specs::convert::TryFromSpecImpl<Message> for UpstreamCloseRequest {
    open spec fn obeys_try_from_spec() -> bool {
        true
    }

    open spec fn try_from_spec(m: Message) -> Result<UpstreamCloseRequest, MessageConvertError> {
        match m.message {
            Some(message::Message::UpstreamCloseRequest(a)) => Ok(a),
            _ => Err(MessageConvertError(m)),
        }
    }
}

impl From<UpstreamCloseResponse> for Message {
    fn from(m: UpstreamCloseResponse) -> (r: Message) {
        Message { message: Some(message::Message::UpstreamCloseResponse(m)) }
    }
}

impl vstd::std_specs::convert::FromSpecImpl<UpstreamCloseResponse> for Message {
    open spec fn obeys_from_spec() -> bool {
        true
    }

    open spec fn from_spec(m: UpstreamCloseResponse) -> Message {
        Message { message: Some(message::Message::UpstreamCloseResponse(m)) }
    }
}

impl TryFrom<Message> for UpstreamCloseResponse {
    type Error = MessageConvertError;

    fn try_from(m: Message) -> (r: Result<UpstreamCloseResponse, MessageConvertError>) {
        match m.message {
            Some(message::Message::UpstreamCloseResponse(a)) => Ok(a),
            other => Err(MessageConvertError(Message { message: other })),
        }
    }
}

impl vstd::std_specs::convert::TryFromSpecImpl<Message> for UpstreamCloseResponse {
    open spec fn obeys_try_from_spec() -> bool {
        true
    }

    open spec fn try_from_spec(m: Message) -> Result<UpstreamCloseResponse, MessageConvertError> {
        match m.message {
            Some(message::Message::UpstreamCloseResponse(a)) => Ok(a),
            _ => Err(MessageConvertError(m)),
        }
    }
}

impl From<UpstreamMetadata> for Message {
    fn from(m: UpstreamMetadata) -> (r: Message) {
        Message { message: Some(message::Message::UpstreamMetadata(m)) }
    }
}

impl vstd::std_specs::convert::FromSpecImpl<UpstreamMetadata> for Message {
    open spec fn obeys_from_spec() -> bool {
        true
    }

    open spec fn from_spec(m: UpstreamMetadata) -> Message {
        Message { message: Some(message::Message::UpstreamMetadata(m)) }
    }
}

impl TryFrom<Message> for UpstreamMetadata {
    type Error = MessageConvertError;

    fn try_from(m: Message) -> (r: Result<UpstreamMetadata, MessageConvertError>) {
        match m.message {
            Some(message::Message::UpstreamMetadata(a)) => Ok(a),
            other => Err(MessageConvertError(Message { message: other })),
        }
    }
}

impl vstd::std_specs::convert::TryFromSpecImpl<Message> for UpstreamMetadata {
    open spec fn obeys_try_from_spec() -> bool {
        true
    }

    open spec fn try_from_spec(m: Message) -> Result<UpstreamMetadata, MessageConvertError> {
        match m.message {
            Some(message::Message::UpstreamMetadata(a)) => Ok(a),
            _ => Err(MessageConvertError(m)),
        }
    }
}

impl From<UpstreamMetadataAck> for Message {
    fn from(m: UpstreamMetadataAck) -> (r: Message) {
        Message { message: Some(message::Message::UpstreamMetadataAck(m)) }
    }
}

impl vstd::std_specs::convert::FromSpecImpl<UpstreamMetadataAck> for Message {
    open spec fn obeys_from_spec() -> bool {
        true
    }

    open spec fn from_spec(m: UpstreamMetadataAck) -> Message {
        Message { message: Some(message::Message::UpstreamMetadataAck(m)) }
    }
}

impl TryFrom<Message> for UpstreamMetadataAck {
    type Error = MessageConvertError;

    fn try_from(m: Message) -> (r: Result<UpstreamMetadataAck, MessageConvertError>) {
        match m.message {
            Some(message::Message::UpstreamMetadataAck(a)) => Ok(a),
            other => Err(MessageConvertError(Message { message: other })),
        }
    }
}

impl vstd::std_specs::convert::TryFromSpecImpl<Message> for UpstreamMetadataAck {
    open spec fn obeys_try_from_spec() -> bool {
        true
    }

    open spec fn try_from_spec(m: Message) -> Result<UpstreamMetadataAck, MessageConvertError> {
        match m.message {
            Some(message::Message::UpstreamMetadataAck(a)) => Ok(a),
            _ => Err(MessageConvertError(m)),
        }
    }
}

impl From<UpstreamOpenRequest> for Message {
    fn from(m: UpstreamOpenRequest) -> (r: Message) {
        Message { message: Some(message::Message::UpstreamOpenRequest(m)) }
    }
}

impl vstd::std_specs::convert::FromSpecImpl<UpstreamOpenRequest> for Message {
    open spec fn obeys_from_spec() -> bool {
        true
    }

    open spec fn from_spec(m: UpstreamOpenRequest) -> Message {
        Message { message: Some(message::Message::UpstreamOpenRequest(m)) }
    }
}

impl TryFrom<Message> for UpstreamOpenRequest {
    type Error = MessageConvertError;

    fn try_from(m: Message) -> (r: Result<UpstreamOpenRequest, MessageConvertError>) {
        match m.message {
            Some(message::Message::UpstreamOpenRequest(a)) => Ok(a),
            other => Err(MessageConvertError(Message { message: other })),
        }
    }
}

impl vstd::std_specs::convert::TryFromSpecImpl<Message> for UpstreamOpenRequest {
    open spec fn obeys_try_from_spec() -> bool {
        true
    }

    open spec fn try_from_spec(m: Message) -> Result<UpstreamOpenRequest, MessageConvertError> {
        match m.message {
            Some(message::Message::UpstreamOpenRequest(a)) => Ok(a),
            _ => Err(MessageConvertError(m)),
        }
    }
}

impl From<UpstreamOpenResponse> for Message {
    fn from(m: UpstreamOpenResponse) -> (r: Message) {
        Message { message: Some(message::Message::UpstreamOpenResponse(m)) }
    }
}

impl vstd::std_specs::convert::FromSpecImpl<UpstreamOpenResponse> for Message {
    open spec fn obeys_from_spec() -> bool {
        true
    }

    open spec fn from_spec(m: UpstreamOpenResponse) -> Message {
        Message { message: Some(message::Message::UpstreamOpenResponse(m)) }
    }
}

impl TryFrom<Message> for UpstreamOpenResponse {
    type Error = MessageConvertError;

    fn try_from(m: Message) -> (r: Result<UpstreamOpenResponse, MessageConvertError>) {
        match m.message {
            Some(message::Message::UpstreamOpenResponse(a)) => Ok(a),
            other => Err(MessageConvertError(Message { message: other })),
        }
    }
}

impl vstd::std_specs::convert::TryFromSpecImpl<Message> for UpstreamOpenResponse {
    open spec fn obeys_try_from_spec() -> bool {
        true
    }

    open spec fn try_from_spec(m: Message) -> Result<UpstreamOpenResponse, MessageConvertError> {
        match m.message {
            Some(message::Message::UpstreamOpenResponse(a)) => Ok(a),
            _ => Err(MessageConvertError(m)),
        }
    }
}

impl From<UpstreamResumeRequest> for Message {
    fn from(m: UpstreamResumeRequest) -> (r: Message) {
        Message { message: Some(message::Message::UpstreamResumeRequest(m)) }
    }
}

impl vstd::std_specs::convert::FromSpecImpl<UpstreamResumeRequest> for Message {
    open spec fn obeys_from_spec() -> bool {
        true
    }

    open spec fn from_spec(m: UpstreamResumeRequest) -> Message {
        Message { message: Some(message::Message::UpstreamResumeRequest(m)) }
    }
}

impl TryFrom<Message> for UpstreamResumeRequest {
    type Error = MessageConvertError;

    fn try_from(m: Message) -> (r: Result<UpstreamResumeRequest, MessageConvertError>) {
        match m.message {
            Some(message::Message::UpstreamResumeRequest(a)) => Ok(a),
            other => Err(MessageConvertError(Message { message: other })),
        }
    }
}

impl vstd::std_specs::convert::TryFromSpecImpl<Message> for UpstreamResumeRequest {
    open spec fn obeys_try_from_spec() -> bool {
        true
    }

    open spec fn try_from_spec(m: Message) -> Result<UpstreamResumeRequest, MessageConvertError> {
        match m.message {
            Some(message::Message::UpstreamResumeRequest(a)) => Ok(a),
            _ => Err(MessageConvertError(m)),
        }
    }
}

impl From<UpstreamResumeResponse> for Message {
    fn from(m: UpstreamResumeResponse) -> (r: Message) {
        Message { message: Some(message::Message::UpstreamResumeResponse(m)) }
    }
}

impl vstd::std_specs::convert::FromSpecImpl<UpstreamResumeResponse> for Message {
    open spec fn obeys_from_spec() -> bool {
        true
    }

    open spec fn from_spec(m: UpstreamResumeResponse) -> Message {
        Message { message: Some(message::Message::UpstreamResumeResponse(m)) }
    }
}

impl TryFrom<Message> for UpstreamResumeResponse {
    type Error = MessageConvertError;

    fn try_from(m: Message) -> (r: Result<UpstreamResumeResponse, MessageConvertError>) {
        match m.message {
            Some(message::Message::UpstreamResumeResponse(a)) => Ok(a),
            other => Err(MessageConvertError(Message { message: other })),
        }
    }
}

impl vstd::std_specs::convert::TryFromSpecImpl<Message> for UpstreamResumeResponse {
    open spec fn obeys_try_from_spec() -> bool {
        true
    }

    open spec fn try_from_spec(m: Message) -> Result<UpstreamResumeResponse, MessageConvertError> {
        match m.message {
            Some(message::Message::UpstreamResumeResponse(a)) => Ok(a),
            _ => Err(MessageConvertError(m)),
        }
    }
}

/// The messages that carry a request id.
pub trait HasRequestId: Sealed {
    /// The request id carried.
    spec fn request_id_of(&self) -> u32;

    /// The request id carried.
    fn request_id(&self) -> (r: u32)
        ensures
            r == self.request_id_of(),
    ;

    /// Carries the given request id from now on.
    fn set_request_id(&mut self, request_id: u32)
        ensures
            final(self).request_id_of() == request_id,
    ;
}

impl Sealed for ConnectRequest {

}

impl HasRequestId for ConnectRequest {
    open spec fn request_id_of(&self) -> u32 {
        self.request_id
    }

    fn request_id(&self) -> (r: u32) {
        self.request_id
    }

    fn set_request_id(&mut self, request_id: u32)
        ensures
            *final(self) == (ConnectRequest { request_id, ..*old(self) }),
    {
        self.request_id = request_id;
    }
}

impl Sealed for ConnectResponse {

}

impl HasRequestId for ConnectResponse {
    open spec fn request_id_of(&self) -> u32 {
        self.request_id
    }

    fn request_id(&self) -> (r: u32) {
        self.request_id
    }

    fn set_request_id(&mut self, request_id: u32)
        ensures
            *final(self) == (ConnectResponse { request_id, ..*old(self) }),
    {
        self.request_id = request_id;
    }
}

impl Sealed for DownstreamCloseRequest {

}

impl HasRequestId for DownstreamCloseRequest {
    open spec fn request_id_of(&self) -> u32 {
        self.request_id
    }

    fn request_id(&self) -> (r: u32) {
        self.request_id
    }

    fn set_request_id(&mut self, request_id: u32)
        ensures
            *final(self) == (DownstreamCloseRequest { request_id, ..*old(self) }),
    {
        self.request_id = request_id;
    }
}

impl Sealed for DownstreamCloseResponse {

}

impl HasRequestId for DownstreamCloseResponse {
    open spec fn request_id_of(&self) -> u32 {
        self.request_id
    }

    fn request_id(&self) -> (r: u32) {
        self.request_id
    }

    fn set_request_id(&mut self, request_id: u32)
        ensures
            *final(self) == (DownstreamCloseResponse { request_id, ..*old(self) }),
    {
        self.request_id = request_id;
    }
}

impl Sealed for DownstreamMetadata {

}

impl HasRequestId for DownstreamMetadata {
    open spec fn request_id_of(&self) -> u32 {
        self.request_id
    }

    fn request_id(&self) -> (r: u32) {
        self.request_id
    }

    fn set_request_id(&mut self, request_id: u32)
        ensures
            *final(self) == (DownstreamMetadata { request_id, ..*old(self) }),
    {
        self.request_id = request_id;
    }
}

impl Sealed for DownstreamMetadataAck {

}

impl HasRequestId for DownstreamMetadataAck {
    open spec fn request_id_of(&self) -> u32 {
        self.request_id
    }

    fn request_id(&self) -> (r: u32) {
        self.request_id
    }

    fn set_request_id(&mut self, request_id: u32)
        ensures
            *final(self) == (DownstreamMetadataAck { request_id, ..*old(self) }),
    {
        self.request_id = request_id;
    }
}

impl Sealed for DownstreamOpenRequest {

}

impl HasRequestId for DownstreamOpenRequest {
    open spec fn request_id_of(&self) -> u32 {
        self.request_id
    }

    fn request_id(&self) -> (r: u32) {
        self.request_id
    }

    fn set_request_id(&mut self, request_id: u32)
        ensures
            *final(self) == (DownstreamOpenRequest { request_id, ..*old(self) }),
    {
        self.request_id = request_id;
    }
}

impl Sealed for DownstreamOpenResponse {

}

impl HasRequestId for DownstreamOpenResponse {
    open spec fn request_id_of(&self) -> u32 {
        self.request_id
    }

    fn request_id(&self) -> (r: u32) {
        self.request_id
    }

    fn set_request_id(&mut self, request_id: u32)
        ensures
            *final(self) == (DownstreamOpenResponse { request_id, ..*old(self) }),
    {
        self.request_id = request_id;
    }
}

impl Sealed for DownstreamResumeRequest {

}

impl HasRequestId for DownstreamResumeRequest {
    open spec fn request_id_of(&self) -> u32 {
        self.request_id
    }

    fn request_id(&self) -> (r: u32) {
        self.request_id
    }

    fn set_request_id(&mut self, request_id: u32)
        ensures
            *final(self) == (DownstreamResumeRequest { request_id, ..*old(self) }),
    {
        self.request_id = request_id;
    }
}

impl Sealed for DownstreamResumeResponse {

}

impl HasRequestId for DownstreamResumeResponse {
    open spec fn request_id_of(&self) -> u32 {
        self.request_id
    }

    fn request_id(&self) -> (r: u32) {
        self.request_id
    }

    fn set_request_id(&mut self, request_id: u32)
        ensures
            *final(self) == (DownstreamResumeResponse { request_id, ..*old(self) }),
    {
        self.request_id = request_id;
    }
}

impl Sealed for Ping {

}

impl HasRequestId for Ping {
    open spec fn request_id_of(&self) -> u32 {
        self.request_id
    }

    fn request_id(&self) -> (r: u32) {
        self.request_id
    }

    fn set_request_id(&mut self, request_id: u32)
        ensures
            *final(self) == (Ping { request_id, ..*old(self) }),
    {
        self.request_id = request_id;
    }
}

impl Sealed for Pong {

}

impl HasRequestId for Pong {
    open spec fn request_id_of(&self) -> u32 {
        self.request_id
    }

    fn request_id(&self) -> (r: u32) {
        self.request_id
    }

    fn set_request_id(&mut self, request_id: u32)
        ensures
            *final(self) == (Pong { request_id, ..*old(self) }),
    {
        self.request_id = request_id;
    }
}

impl Sealed for UpstreamCloseRequest {

}

impl HasRequestId for UpstreamCloseRequest {
    open spec fn request_id_of(&self) -> u32 {
        self.request_id
    }

    fn request_id(&self) -> (r: u32) {
        self.request_id
    }

    fn set_request_id(&mut self, request_id: u32)
        ensures
            *final(self) == (UpstreamCloseRequest { request_id, ..*old(self) }),
    {
        self.request_id = request_id;
    }
}

impl Sealed for UpstreamCloseResponse {

}

impl HasRequestId for UpstreamCloseResponse {
    open spec fn request_id_of(&self) -> u32 {
        self.request_id
    }

    fn request_id(&self) -> (r: u32) {
        self.request_id
    }

    fn set_request_id(&mut self, request_id: u32)
        ensures
            *final(self) == (UpstreamCloseResponse { request_id, ..*old(self) }),
    {
        self.request_id = request_id;
    }
}

impl Sealed for UpstreamMetadata {

}

impl HasRequestId for UpstreamMetadata {
    open spec fn request_id_of(&self) -> u32 {
        self.request_id
    }

    fn request_id(&self) -> (r: u32) {
        self.request_id
    }

    fn set_request_id(&mut self, request_id: u32)
        ensures
            *final(self) == (UpstreamMetadata { request_id, ..*old(self) }),
    {
        self.request_id = request_id;
    }
}

impl Sealed for UpstreamMetadataAck {

}

impl HasRequestId for UpstreamMetadataAck {
    open spec fn request_id_of(&self) -> u32 {
        self.request_id
    }

    fn request_id(&self) -> (r: u32) {
        self.request_id
    }

    fn set_request_id(&mut self, request_id: u32)
        ensures
            *final(self) == (UpstreamMetadataAck { request_id, ..*old(self) }),
    {
        self.request_id = request_id;
    }
}

impl Sealed for UpstreamOpenRequest {

}

impl HasRequestId for UpstreamOpenRequest {
    open spec fn request_id_of(&self) -> u32 {
        self.request_id
    }

    fn request_id(&self) -> (r: u32) {
        self.request_id
    }

    fn set_request_id(&mut self, request_id: u32)
        ensures
            *final(self) == (UpstreamOpenRequest { request_id, ..*old(self) }),
    {
        self.request_id = request_id;
    }
}

impl Sealed for UpstreamOpenResponse {

}

impl HasRequestId for UpstreamOpenResponse {
    open spec fn request_id_of(&self) -> u32 {
        self.request_id
    }

    fn request_id(&self) -> (r: u32) {
        self.request_id
    }

    fn set_request_id(&mut self, request_id: u32)
        ensures
            *final(self) == (UpstreamOpenResponse { request_id, ..*old(self) }),
    {
        self.request_id = request_id;
    }
}

impl Sealed for UpstreamResumeRequest {

}

impl HasRequestId for UpstreamResumeRequest {
    open spec fn request_id_of(&self) -> u32 {
        self.request_id
    }

    fn request_id(&self) -> (r: u32) {
        self.request_id
    }

    fn set_request_id(&mut self, request_id: u32)
        ensures
            *final(self) == (UpstreamResumeRequest { request_id, ..*old(self) }),
    {
        self.request_id = request_id;
    }
}

impl Sealed for UpstreamResumeResponse {

}

impl HasRequestId for UpstreamResumeResponse {
    open spec fn request_id_of(&self) -> u32 {
        self.request_id
    }

    fn request_id(&self) -> (r: u32) {
        self.request_id
    }

    fn set_request_id(&mut self, request_id: u32)
        ensures
            *final(self) == (UpstreamResumeResponse { request_id, ..*old(self) }),
    {
        self.request_id = request_id;
    }
}

/// The responses that carry a result code.
pub trait HasResultCode: Sealed {
    /// The wire value of the result code carried.
    spec fn result_code_value_of(&self) -> i32;

    /// The text of the result carried.
    spec fn result_string_of(&self) -> Seq<char>;

    /// The result code carried, if the protocol defines its value.
    fn result_code(&self) -> (r: Option<ResultCode>)
        ensures
            r == result_code_of_value(self.result_code_value_of()),
    ;

    /// The text of the result carried.
    fn result_string(&self) -> (r: &str)
        ensures
            r@ == self.result_string_of(),
    ;
}

impl HasResultCode for ConnectResponse {
    open spec fn result_code_value_of(&self) -> i32 {
        self.result_code
    }

    open spec fn result_string_of(&self) -> Seq<char> {
        self.result_string@
    }

    fn result_code(&self) -> (r: Option<ResultCode>) {
        ResultCode::from_i32(self.result_code)
    }

    fn result_string(&self) -> (r: &str) {
        self.result_string.as_str()
    }
}

impl HasResultCode for DownstreamCloseResponse {
    open spec fn result_code_value_of(&self) -> i32 {
        self.result_code
    }

    open spec fn result_string_of(&self) -> Seq<char> {
        self.result_string@
    }

    fn result_code(&self) -> (r: Option<ResultCode>) {
        ResultCode::from_i32(self.result_code)
    }

    fn result_string(&self) -> (r: &str) {
        self.result_string.as_str()
    }
}

impl HasResultCode for DownstreamMetadataAck {
    open spec fn result_code_value_of(&self) -> i32 {
        self.result_code
    }

    open spec fn result_string_of(&self) -> Seq<char> {
        self.result_string@
    }

    fn result_code(&self) -> (r: Option<ResultCode>) {
        ResultCode::from_i32(self.result_code)
    }

    fn result_string(&self) -> (r: &str) {
        self.result_string.as_str()
    }
}

impl HasResultCode for DownstreamOpenResponse {
    open spec fn result_code_value_of(&self) -> i32 {
        self.result_code
    }

    open spec fn result_string_of(&self) -> Seq<char> {
        self.result_string@
    }

    fn result_code(&self) -> (r: Option<ResultCode>) {
        ResultCode::from_i32(self.result_code)
    }

    fn result_string(&self) -> (r: &str) {
        self.result_string.as_str()
    }
}

impl HasResultCode for DownstreamResumeResponse {
    open spec fn result_code_value_of(&self) -> i32 {
        self.result_code
    }

    open spec fn result_string_of(&self) -> Seq<char> {
        self.result_string@
    }

    fn result_code(&self) -> (r: Option<ResultCode>) {
        ResultCode::from_i32(self.result_code)
    }

    fn result_string(&self) -> (r: &str) {
        self.result_string.as_str()
    }
}

impl HasResultCode for UpstreamCloseResponse {
    open spec fn result_code_value_of(&self) -> i32 {
        self.result_code
    }

    open spec fn result_string_of(&self) -> Seq<char> {
        self.result_string@
    }

    fn result_code(&self) -> (r: Option<ResultCode>) {
        ResultCode::from_i32(self.result_code)
    }

    fn result_string(&self) -> (r: &str) {
        self.result_string.as_str()
    }
}

impl HasResultCode for UpstreamMetadataAck {
    open spec fn result_code_value_of(&self) -> i32 {
        self.result_code
    }

    open spec fn result_string_of(&self) -> Seq<char> {
        self.result_string@
    }

    fn result_code(&self) -> (r: Option<ResultCode>) {
        ResultCode::from_i32(self.result_code)
    }

    fn result_string(&self) -> (r: &str) {
        self.result_string.as_str()
    }
}

impl HasResultCode for UpstreamOpenResponse {
    open spec fn result_code_value_of(&self) -> i32 {
        self.result_code
    }

    open spec fn result_string_of(&self) -> Seq<char> {
        self.result_string@
    }

    fn result_code(&self) -> (r: Option<ResultCode>) {
        ResultCode::from_i32(self.result_code)
    }

    fn result_string(&self) -> (r: &str) {
        self.result_string.as_str()
    }
}

impl HasResultCode for UpstreamResumeResponse {
    open spec fn result_code_value_of(&self) -> i32 {
        self.result_code
    }

    open spec fn result_string_of(&self) -> Seq<char> {
        self.result_string@
    }

    fn result_code(&self) -> (r: Option<ResultCode>) {
        ResultCode::from_i32(self.result_code)
    }

    fn result_string(&self) -> (r: &str) {
        self.result_string.as_str()
    }
}

/// The requests, each with the kind of its response.
pub trait RequestMessage: Into<Message> + HasRequestId {
    /// The kind of response to this kind of request.
    type Response: TryFrom<Message> + HasRequestId + HasResultCode;
}

impl RequestMessage for ConnectRequest {
    type Response = ConnectResponse;
}

impl RequestMessage for DownstreamCloseRequest {
    type Response = DownstreamCloseResponse;
}

impl RequestMessage for DownstreamMetadata {
    type Response = DownstreamMetadataAck;
}

impl RequestMessage for DownstreamOpenRequest {
    type Response = DownstreamOpenResponse;
}

impl RequestMessage for DownstreamResumeRequest {
    type Response = DownstreamResumeResponse;
}

impl RequestMessage for UpstreamCloseRequest {
    type Response = UpstreamCloseResponse;
}

impl RequestMessage for UpstreamMetadata {
    type Response = UpstreamMetadataAck;
}

impl RequestMessage for UpstreamOpenRequest {
    type Response = UpstreamOpenResponse;
}

impl RequestMessage for UpstreamResumeRequest {
    type Response = UpstreamResumeResponse;
}

} // verus!
