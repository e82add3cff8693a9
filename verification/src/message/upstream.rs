use vstd::prelude::*;

use crate::autogen;
use crate::codes::{qos_of_value, qos_value, result_code_of_value, result_code_value, QoS, ResultCode};
use crate::data_id::DataId;
use crate::iscp::misc::stream_id_to_bytes;
use crate::message::time::{
    time_exact, time_from_wire, time_to_wire, whole_millis_in_u32, whole_secs_in_u32,
    wire_millis, wire_secs, wire_time_read, wire_time_written, TimeDelta,
};
use crate::message::{read_code, read_qos, uuid_or_nil, uuid_read, uuid_written, RequestId};

use std::collections::HashMap;

verus! {

/// The response to a request to resume an upstream.
#[derive(Clone, PartialEq, Eq, Debug, Default)]
pub struct UpstreamResumeResponse {
    /// The id of the request this answers.
    pub request_id: RequestId,
    /// The stream id alias the broker assigned.
    pub assigned_stream_id_alias: u32,
    /// The result of the request.
    pub result_code: ResultCode,
    /// The result, in words.
    pub result_string: String,
}

impl UpstreamResumeResponse {
    /// Reads the wire message; its result code must be one the protocol defines.
    pub fn from_proto(p: autogen::UpstreamResumeResponse) -> (r: UpstreamResumeResponse)
        requires
            result_code_of_value(p.result_code) is Some,
        ensures
            r == (UpstreamResumeResponse {
                request_id: RequestId(p.request_id),
                assigned_stream_id_alias: p.assigned_stream_id_alias,
                result_code: result_code_of_value(p.result_code)->Some_0,
                result_string: p.result_string,
            }),
    {
        UpstreamResumeResponse {
            request_id: RequestId(p.request_id),
            assigned_stream_id_alias: p.assigned_stream_id_alias,
            result_code: read_code(p.result_code),
            result_string: p.result_string,
        }
    }
}

impl From<UpstreamResumeResponse> for autogen::UpstreamResumeResponse {
    /// The wire message.
    fn from(m: UpstreamResumeResponse) -> (r: autogen::UpstreamResumeResponse) {
        autogen::UpstreamResumeResponse {
            request_id: m.request_id.0,
            assigned_stream_id_alias: m.assigned_stream_id_alias,
            result_code: m.result_code.to_i32(),
            result_string: m.result_string,
        }
    }
}

impl vstd::std_specs::convert::FromSpecImpl<UpstreamResumeResponse> for autogen::UpstreamResumeResponse {
    open spec fn obeys_from_spec() -> bool {
        true
    }

    open spec fn from_spec(m: UpstreamResumeResponse) -> autogen::UpstreamResumeResponse {
        autogen::UpstreamResumeResponse {
            request_id: m.request_id.0,
            assigned_stream_id_alias: m.assigned_stream_id_alias,
            result_code: result_code_value(m.result_code),
            result_string: m.result_string,
        }
    }
}

/// The response to a request to close an upstream.
#[derive(Clone, PartialEq, Eq, Debug, Default)]
pub struct UpstreamCloseResponse {
    /// The id of the request this answers.
    pub request_id: RequestId,
    /// The result of the request.
    pub result_code: ResultCode,
    /// The result, in words.
    pub result_string: String,
}

impl UpstreamCloseResponse {
    /// Reads the wire message; its result code must be one the protocol defines.
    pub fn from_proto(p: autogen::UpstreamCloseResponse) -> (r: UpstreamCloseResponse)
        requires
            result_code_of_value(p.result_code) is Some,
        ensures
            r == (UpstreamCloseResponse {
                request_id: RequestId(p.request_id),
                result_code: result_code_of_value(p.result_code)->Some_0,
                result_string: p.result_string,
            }),
    {
        UpstreamCloseResponse {
            request_id: RequestId(p.request_id),
            result_code: read_code(p.result_code),
            result_string: p.result_string,
        }
    }
}

impl From<UpstreamCloseResponse> for autogen::UpstreamCloseResponse {
    /// The wire message.
    fn from(m: UpstreamCloseResponse) -> (r: autogen::UpstreamCloseResponse) {
        autogen::UpstreamCloseResponse {
            request_id: m.request_id.0,
            result_code: m.result_code.to_i32(),
            result_string: m.result_string,
        }
    }
}

impl vstd::std_specs::convert::FromSpecImpl<UpstreamCloseResponse> for autogen::UpstreamCloseResponse {
    open spec fn obeys_from_spec() -> bool {
        true
    }

    open spec fn from_spec(m: UpstreamCloseResponse) -> autogen::UpstreamCloseResponse {
        autogen::UpstreamCloseResponse {
            request_id: m.request_id.0,
            result_code: result_code_value(m.result_code),
            result_string: m.result_string,
        }
    }
}
/// Extension fields of a request to close an upstream.
#[derive(Clone, Copy, PartialEq, Eq, Debug, Default, Structural)]
pub struct UpstreamCloseRequestExtensionFields {
    /// Whether the session closes with the upstream.
    pub close_session: bool,
}

impl From<UpstreamCloseRequestExtensionFields> for autogen::UpstreamCloseRequestExtensionFields {
    fn from(m: UpstreamCloseRequestExtensionFields) -> (r: autogen::UpstreamCloseRequestExtensionFields) {
        autogen::UpstreamCloseRequestExtensionFields { close_session: m.close_session }
    }
}

impl vstd::std_specs::convert::FromSpecImpl<UpstreamCloseRequestExtensionFields> for autogen::UpstreamCloseRequestExtensionFields {
    open spec fn obeys_from_spec() -> bool {
        true
    }

    open spec fn from_spec(m: UpstreamCloseRequestExtensionFields) -> autogen::UpstreamCloseRequestExtensionFields {
        autogen::UpstreamCloseRequestExtensionFields { close_session: m.close_session }
    }
}

impl From<autogen::UpstreamCloseRequestExtensionFields> for UpstreamCloseRequestExtensionFields {
    fn from(p: autogen::UpstreamCloseRequestExtensionFields) -> (r: UpstreamCloseRequestExtensionFields) {
        UpstreamCloseRequestExtensionFields { close_session: p.close_session }
    }
}

impl vstd::std_specs::convert::FromSpecImpl<autogen::UpstreamCloseRequestExtensionFields> for UpstreamCloseRequestExtensionFields {
    open spec fn obeys_from_spec() -> bool {
        true
    }

    open spec fn from_spec(p: autogen::UpstreamCloseRequestExtensionFields) -> UpstreamCloseRequestExtensionFields {
        UpstreamCloseRequestExtensionFields { close_session: p.close_session }
    }
}

/// A request to open an upstream.
#[derive(Clone, PartialEq, Debug)]
pub struct UpstreamOpenRequest {
    /// The request id.
    pub request_id: RequestId,
    /// The session of the upstream.
    pub session_id: String,
    /// The interval between acknowledgements.
    pub ack_interval: TimeDelta,
    /// How long the broker keeps the stream after the connection is lost.
    pub expiry_interval: TimeDelta,
    /// The data ids that the upstream sends.
    pub data_ids: Vec<DataId>,
    /// The quality of service.
    pub qos: QoS,
    /// Whether the broker stores the data.
    pub persist: Option<bool>,
}

impl UpstreamOpenRequest {
    /// Whether the wire message can be read: its codes are ones the protocol defines.
    pub open spec fn readable(p: autogen::UpstreamOpenRequest) -> bool {
        qos_of_value(p.qos) is Some
    }

    /// Whether this is what the wire message reads as.
    pub open spec fn reads(self, p: autogen::UpstreamOpenRequest) -> bool {
        &&& self.request_id == RequestId(p.request_id)
        &&& self.session_id@ == p.session_id@
        &&& self.ack_interval.total() == p.ack_interval * 1_000_000
        &&& self.expiry_interval.total() == p.expiry_interval * 1_000_000_000
        &&& self.data_ids == p.data_ids
        &&& Some(self.qos) == qos_of_value(p.qos)
        &&& self.persist == (match p.extension_fields { Some(e) => Some(e.persist), None => None })
    }

    /// Whether the wire message is what this writes as.
    pub open spec fn writes(self, p: autogen::UpstreamOpenRequest) -> bool {
        &&& p.request_id == self.request_id.0
        &&& p.session_id@ == self.session_id@
        &&& p.ack_interval == wire_millis(self.ack_interval)
        &&& p.expiry_interval == wire_secs(self.expiry_interval)
        &&& p.data_ids == self.data_ids
        &&& p.qos == qos_value(self.qos)
        &&& (match self.persist { Some(b) =>
            p.extension_fields == Some(autogen::UpstreamOpenRequestExtensionFields { persist: b }), None =>
                p.extension_fields is None })
    }

    /// Reads the wire message; its codes must be ones the protocol defines.
    pub fn from_proto(p: autogen::UpstreamOpenRequest) -> (r: UpstreamOpenRequest)
        requires
            UpstreamOpenRequest::readable(p),
        ensures
            r.reads(p),
    {
        UpstreamOpenRequest {
            request_id: RequestId(p.request_id),
            session_id: p.session_id,
            ack_interval: TimeDelta::milliseconds(p.ack_interval as i64),
            expiry_interval: TimeDelta::seconds(p.expiry_interval as i64),
            data_ids: p.data_ids,
            qos: read_qos(p.qos),
            persist: match p.extension_fields { Some(e) => Some(e.persist), None => None },
        }
    }

    /// The wire message.
    pub fn to_proto(self) -> (r: autogen::UpstreamOpenRequest)
        ensures
            self.writes(r),
    {
        autogen::UpstreamOpenRequest {
            request_id: self.request_id.0,
            session_id: self.session_id,
            ack_interval: #[verifier::truncate] (self.ack_interval.num_milliseconds() as u32),
            expiry_interval: #[verifier::truncate] (self.expiry_interval.num_seconds() as u32),
            data_ids: self.data_ids,
            qos: self.qos.to_i32(),
            extension_fields: match self.persist { Some(b) =>
                Some(autogen::UpstreamOpenRequestExtensionFields { persist: b }), None => None },
        }
    }
}

impl Default for UpstreamOpenRequest {
    fn default() -> (r: UpstreamOpenRequest)
        ensures
            r.request_id == RequestId(0),
            r.session_id@ == Seq::<char>::empty(),
            r.ack_interval.total() == 0,
            r.expiry_interval.total() == 0,
            r.data_ids@.len() == 0,
            r.qos == QoS::Unreliable,
            r.persist is None,
    {
        UpstreamOpenRequest {
            request_id: RequestId(0),
            session_id: String::new(),
            ack_interval: TimeDelta::zero(),
            expiry_interval: TimeDelta::zero(),
            data_ids: Vec::new(),
            qos: QoS::Unreliable,
            persist: None,
        }
    }
}

/// The response to a request to open an upstream.
#[derive(Clone, PartialEq, Debug, Default)]
pub struct UpstreamOpenResponse {
    /// The request id.
    pub request_id: RequestId,
    /// The stream id the broker assigned.
    pub assigned_stream_id: u128,
    /// The stream id alias the broker assigned.
    pub assigned_stream_id_alias: u32,
    /// The time of the broker, in nanoseconds since the unix epoch.
    pub server_time: i128,
    /// The result of the request.
    pub result_code: ResultCode,
    /// The result, in words.
    pub result_string: String,
    /// Data id aliases the broker assigned.
    pub data_id_aliases: HashMap<u32, DataId>,
}

impl UpstreamOpenResponse {
    /// Whether the wire message can be read: its codes are ones the protocol defines.
    pub open spec fn readable(p: autogen::UpstreamOpenResponse) -> bool {
        result_code_of_value(p.result_code) is Some
    }

    /// Whether this is what the wire message reads as.
    pub open spec fn reads(self, p: autogen::UpstreamOpenResponse) -> bool {
        &&& self.request_id == RequestId(p.request_id)
        &&& self.assigned_stream_id == uuid_read(p.assigned_stream_id@)
        &&& self.assigned_stream_id_alias == p.assigned_stream_id_alias
        &&& self.server_time == wire_time_read(p.server_time)
        &&& Some(self.result_code) == result_code_of_value(p.result_code)
        &&& self.result_string@ == p.result_string@
        &&& self.data_id_aliases == p.data_id_aliases
    }

    /// Whether the wire message is what this writes as.
    pub open spec fn writes(self, p: autogen::UpstreamOpenResponse) -> bool {
        &&& p.request_id == self.request_id.0
        &&& uuid_written(p.assigned_stream_id@, self.assigned_stream_id)
        &&& p.assigned_stream_id_alias == self.assigned_stream_id_alias
        &&& p.server_time == wire_time_written(self.server_time)
        &&& p.result_code == result_code_value(self.result_code)
        &&& p.result_string@ == self.result_string@
        &&& p.data_id_aliases == self.data_id_aliases
    }

    /// Reads the wire message; its codes must be ones the protocol defines.
    pub fn from_proto(p: autogen::UpstreamOpenResponse) -> (r: UpstreamOpenResponse)
        requires
            UpstreamOpenResponse::readable(p),
        ensures
            r.reads(p),
    {
        UpstreamOpenResponse {
            request_id: RequestId(p.request_id),
            assigned_stream_id: uuid_or_nil(p.assigned_stream_id.as_slice()),
            assigned_stream_id_alias: p.assigned_stream_id_alias,
            server_time: time_from_wire(p.server_time),
            result_code: read_code(p.result_code),
            result_string: p.result_string,
            data_id_aliases: p.data_id_aliases,
        }
    }

    /// The wire message.
    pub fn to_proto(self) -> (r: autogen::UpstreamOpenResponse)
        ensures
            self.writes(r),
    {
        autogen::UpstreamOpenResponse {
            request_id: self.request_id.0,
            assigned_stream_id: stream_id_to_bytes(self.assigned_stream_id),
            assigned_stream_id_alias: self.assigned_stream_id_alias,
            server_time: time_to_wire(self.server_time),
            result_code: self.result_code.to_i32(),
            result_string: self.result_string,
            data_id_aliases: self.data_id_aliases,
        }
    }
}

/// A request to resume an upstream.
#[derive(Clone, PartialEq, Eq, Debug, Default)]
pub struct UpstreamResumeRequest {
    /// The request id.
    pub request_id: RequestId,
    /// The stream id of the upstream.
    pub stream_id: u128,
}

impl UpstreamResumeRequest {
    /// Whether this is what the wire message reads as.
    pub open spec fn reads(self, p: autogen::UpstreamResumeRequest) -> bool {
        &&& self.request_id == RequestId(p.request_id)
        &&& self.stream_id == uuid_read(p.stream_id@)
    }

    /// Whether the wire message is what this writes as.
    pub open spec fn writes(self, p: autogen::UpstreamResumeRequest) -> bool {
        &&& p.request_id == self.request_id.0
        &&& uuid_written(p.stream_id@, self.stream_id)
    }

    /// Reads the wire message.
    pub fn from_proto(p: autogen::UpstreamResumeRequest) -> (r: UpstreamResumeRequest)
        ensures
            r.reads(p),
    {
        UpstreamResumeRequest {
            request_id: RequestId(p.request_id),
            stream_id: uuid_or_nil(p.stream_id.as_slice()),
        }
    }

    /// The wire message.
    pub fn to_proto(self) -> (r: autogen::UpstreamResumeRequest)
        ensures
            self.writes(r),
    {
        autogen::UpstreamResumeRequest {
            request_id: self.request_id.0,
            stream_id: stream_id_to_bytes(self.stream_id),
        }
    }
}

/// A request to close an upstream.
#[derive(Clone, PartialEq, Eq, Debug, Default)]
pub struct UpstreamCloseRequest {
    /// The request id.
    pub request_id: RequestId,
    /// The stream id of the upstream.
    pub stream_id: u128,
    /// The number of data points sent.
    pub total_data_points: u64,
    /// The sequence number of the last chunk.
    pub final_sequence_number: u32,
    /// Extension fields.
    pub extension_fields: Option<UpstreamCloseRequestExtensionFields>,
}

impl UpstreamCloseRequest {
    /// Whether this is what the wire message reads as.
    pub open spec fn reads(self, p: autogen::UpstreamCloseRequest) -> bool {
        &&& self.request_id == RequestId(p.request_id)
        &&& self.stream_id == uuid_read(p.stream_id@)
        &&& self.total_data_points == p.total_data_points
        &&& self.final_sequence_number == p.final_sequence_number
        &&& self.extension_fields == (match p.extension_fields { Some(e) =>
            Some(UpstreamCloseRequestExtensionFields { close_session: e.close_session }), None =>
                None })
    }

    /// Whether the wire message is what this writes as.
    pub open spec fn writes(self, p: autogen::UpstreamCloseRequest) -> bool {
        &&& p.request_id == self.request_id.0
        &&& uuid_written(p.stream_id@, self.stream_id)
        &&& p.total_data_points == self.total_data_points
        &&& p.final_sequence_number == self.final_sequence_number
        &&& p.extension_fields == (match self.extension_fields { Some(e) =>
            Some(autogen::UpstreamCloseRequestExtensionFields { close_session: e.close_session }), None =>
                None })
    }

    /// Reads the wire message.
    pub fn from_proto(p: autogen::UpstreamCloseRequest) -> (r: UpstreamCloseRequest)
        ensures
            r.reads(p),
    {
        UpstreamCloseRequest {
            request_id: RequestId(p.request_id),
            stream_id: uuid_or_nil(p.stream_id.as_slice()),
            total_data_points: p.total_data_points,
            final_sequence_number: p.final_sequence_number,
            extension_fields: match p.extension_fields { Some(e) =>
                Some(UpstreamCloseRequestExtensionFields::from(e)), None => None },
        }
    }

    /// The wire message.
    pub fn to_proto(self) -> (r: autogen::UpstreamCloseRequest)
        ensures
            self.writes(r),
    {
        autogen::UpstreamCloseRequest {
            request_id: self.request_id.0,
            stream_id: stream_id_to_bytes(self.stream_id),
            total_data_points: self.total_data_points,
            final_sequence_number: self.final_sequence_number,
            extension_fields: match self.extension_fields { Some(e) =>
                Some(autogen::UpstreamCloseRequestExtensionFields::from(e)), None => None },
        }
    }
}

impl UpstreamResumeResponse {
    /// Whether the wire message can be read: its codes are ones the protocol defines.
    pub open spec fn readable(p: autogen::UpstreamResumeResponse) -> bool {
        result_code_of_value(p.result_code) is Some
    }

    /// Whether this is what the wire message reads as.
    pub open spec fn reads(self, p: autogen::UpstreamResumeResponse) -> bool {
        &&& self.request_id == RequestId(p.request_id)
        &&& self.assigned_stream_id_alias == p.assigned_stream_id_alias
        &&& Some(self.result_code) == result_code_of_value(p.result_code)
        &&& self.result_string@ == p.result_string@
    }

    /// Whether the wire message is what this writes as.
    pub open spec fn writes(self, p: autogen::UpstreamResumeResponse) -> bool {
        &&& p.request_id == self.request_id.0
        &&& p.assigned_stream_id_alias == self.assigned_stream_id_alias
        &&& p.result_code == result_code_value(self.result_code)
        &&& p.result_string@ == self.result_string@
    }
}

impl UpstreamCloseResponse {
    /// Whether the wire message can be read: its codes are ones the protocol defines.
    pub open spec fn readable(p: autogen::UpstreamCloseResponse) -> bool {
        result_code_of_value(p.result_code) is Some
    }

    /// Whether this is what the wire message reads as.
    pub open spec fn reads(self, p: autogen::UpstreamCloseResponse) -> bool {
        &&& self.request_id == RequestId(p.request_id)
        &&& Some(self.result_code) == result_code_of_value(p.result_code)
        &&& self.result_string@ == p.result_string@
    }

    /// Whether the wire message is what this writes as.
    pub open spec fn writes(self, p: autogen::UpstreamCloseResponse) -> bool {
        &&& p.request_id == self.request_id.0
        &&& p.result_code == result_code_value(self.result_code)
        &&& p.result_string@ == self.result_string@
    }
}

impl UpstreamOpenRequest {
    /// Whether the wire carries this request exactly: the acknowledgement interval is whole
    /// milliseconds and the expiry interval whole seconds, each fitting in a `u32`.
    pub open spec fn exact(self) -> bool {
        whole_millis_in_u32(self.ack_interval) && whole_secs_in_u32(self.expiry_interval)
    }
}

impl UpstreamOpenResponse {
    /// Whether the wire carries this response exactly: its server time is one the wire
    /// carries exactly.
    pub open spec fn exact(self) -> bool {
        time_exact(self.server_time)
    }
}

} // verus!
