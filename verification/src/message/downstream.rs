use vstd::prelude::*;

use crate::autogen;
use crate::codes::{qos_of_value, qos_value, result_code_of_value, result_code_value, QoS, ResultCode};
use crate::data_id::{DataId, DownstreamFilter};
use crate::iscp::misc::stream_id_to_bytes;
use crate::message::time::{
    time_exact, time_from_wire, time_to_wire, whole_secs_in_u32, wire_secs, wire_time_read,
    wire_time_written, TimeDelta,
};
use crate::message::{read_code, read_qos, uuid_or_nil, uuid_read, uuid_written, RequestId};

use std::collections::HashMap;

verus! {

/// The response to a request to resume a downstream.
#[derive(Clone, PartialEq, Eq, Debug, Default)]
pub struct DownstreamResumeResponse {
    /// The id of the request this answers.
    pub request_id: RequestId,
    /// The result of the request.
    pub result_code: ResultCode,
    /// The result, in words.
    pub result_string: String,
}

impl DownstreamResumeResponse {
    /// Reads the wire message; its result code must be one the protocol defines.
    pub fn from_proto(p: autogen::DownstreamResumeResponse) -> (r: DownstreamResumeResponse)
        requires
            result_code_of_value(p.result_code) is Some,
        ensures
            r == (DownstreamResumeResponse {
                request_id: RequestId(p.request_id),
                result_code: result_code_of_value(p.result_code)->Some_0,
                result_string: p.result_string,
            }),
    {
        DownstreamResumeResponse {
            request_id: RequestId(p.request_id),
            result_code: read_code(p.result_code),
            result_string: p.result_string,
        }
    }
}

impl From<DownstreamResumeResponse> for autogen::DownstreamResumeResponse {
    /// The wire message.
    fn from(m: DownstreamResumeResponse) -> (r: autogen::DownstreamResumeResponse) {
        autogen::DownstreamResumeResponse {
            request_id: m.request_id.0,
            result_code: m.result_code.to_i32(),
            result_string: m.result_string,
        }
    }
}

impl vstd::std_specs::convert::FromSpecImpl<DownstreamResumeResponse> for autogen::DownstreamResumeResponse {
    open spec fn obeys_from_spec() -> bool {
        true
    }

    open spec fn from_spec(m: DownstreamResumeResponse) -> autogen::DownstreamResumeResponse {
        autogen::DownstreamResumeResponse {
            request_id: m.request_id.0,
            result_code: result_code_value(m.result_code),
            result_string: m.result_string,
        }
    }
}

/// The response to a request to close a downstream.
#[derive(Clone, PartialEq, Eq, Debug, Default)]
pub struct DownstreamCloseResponse {
    /// The id of the request this answers.
    pub request_id: RequestId,
    /// The result of the request.
    pub result_code: ResultCode,
    /// The result, in words.
    pub result_string: String,
}

impl DownstreamCloseResponse {
    /// Reads the wire message; its result code must be one the protocol defines.
    pub fn from_proto(p: autogen::DownstreamCloseResponse) -> (r: DownstreamCloseResponse)
        requires
            result_code_of_value(p.result_code) is Some,
        ensures
            r == (DownstreamCloseResponse {
                request_id: RequestId(p.request_id),
                result_code: result_code_of_value(p.result_code)->Some_0,
                result_string: p.result_string,
            }),
    {
        DownstreamCloseResponse {
            request_id: RequestId(p.request_id),
            result_code: read_code(p.result_code),
            result_string: p.result_string,
        }
    }
}

impl From<DownstreamCloseResponse> for autogen::DownstreamCloseResponse {
    /// The wire message.
    fn from(m: DownstreamCloseResponse) -> (r: autogen::DownstreamCloseResponse) {
        autogen::DownstreamCloseResponse {
            request_id: m.request_id.0,
            result_code: m.result_code.to_i32(),
            result_string: m.result_string,
        }
    }
}

impl vstd::std_specs::convert::FromSpecImpl<DownstreamCloseResponse> for autogen::DownstreamCloseResponse {
    open spec fn obeys_from_spec() -> bool {
        true
    }

    open spec fn from_spec(m: DownstreamCloseResponse) -> autogen::DownstreamCloseResponse {
        autogen::DownstreamCloseResponse {
            request_id: m.request_id.0,
            result_code: result_code_value(m.result_code),
            result_string: m.result_string,
        }
    }
}
/// A request to open a downstream.
#[derive(Clone, PartialEq, Debug)]
pub struct DownstreamOpenRequest {
    /// The request id.
    pub request_id: RequestId,
    /// The stream id alias the node asks for.
    pub desired_stream_id_alias: u32,
    /// The filters that choose the data to receive.
    pub downstream_filters: Vec<DownstreamFilter>,
    /// How long the broker keeps the stream after the connection is lost.
    pub expiry_interval: TimeDelta,
    /// Data id aliases the node assigns.
    pub data_id_aliases: HashMap<u32, DataId>,
    /// The quality of service.
    pub qos: QoS,
    /// Whether chunks without data points are left out.
    pub omit_empty_chunk: bool,
}

impl DownstreamOpenRequest {
    /// Whether the wire message can be read: its codes are ones the protocol defines.
    pub open spec fn readable(p: autogen::DownstreamOpenRequest) -> bool {
        qos_of_value(p.qos) is Some
    }

    /// Whether this is what the wire message reads as.
    pub open spec fn reads(self, p: autogen::DownstreamOpenRequest) -> bool {
        &&& self.request_id == RequestId(p.request_id)
        &&& self.desired_stream_id_alias == p.desired_stream_id_alias
        &&& self.downstream_filters == p.downstream_filters
        &&& self.expiry_interval.total() == p.expiry_interval * 1_000_000_000
        &&& self.data_id_aliases == p.data_id_aliases
        &&& Some(self.qos) == qos_of_value(p.qos)
        &&& self.omit_empty_chunk == p.omit_empty_chunk
    }

    /// Whether the wire message is what this writes as.
    pub open spec fn writes(self, p: autogen::DownstreamOpenRequest) -> bool {
        &&& p.request_id == self.request_id.0
        &&& p.desired_stream_id_alias == self.desired_stream_id_alias
        &&& p.downstream_filters == self.downstream_filters
        &&& p.expiry_interval == wire_secs(self.expiry_interval)
        &&& p.data_id_aliases == self.data_id_aliases
        &&& p.qos == qos_value(self.qos)
        &&& p.omit_empty_chunk == self.omit_empty_chunk
    }

    /// Reads the wire message; its codes must be ones the protocol defines.
    pub fn from_proto(p: autogen::DownstreamOpenRequest) -> (r: DownstreamOpenRequest)
        requires
            DownstreamOpenRequest::readable(p),
        ensures
            r.reads(p),
    {
        DownstreamOpenRequest {
            request_id: RequestId(p.request_id),
            desired_stream_id_alias: p.desired_stream_id_alias,
            downstream_filters: p.downstream_filters,
            expiry_interval: TimeDelta::seconds(p.expiry_interval as i64),
            data_id_aliases: p.data_id_aliases,
            qos: read_qos(p.qos),
            omit_empty_chunk: p.omit_empty_chunk,
        }
    }

    /// The wire message.
    pub fn to_proto(self) -> (r: autogen::DownstreamOpenRequest)
        ensures
            self.writes(r),
    {
        autogen::DownstreamOpenRequest {
            request_id: self.request_id.0,
            desired_stream_id_alias: self.desired_stream_id_alias,
            downstream_filters: self.downstream_filters,
            expiry_interval: #[verifier::truncate] (self.expiry_interval.num_seconds() as u32),
            data_id_aliases: self.data_id_aliases,
            qos: self.qos.to_i32(),
            omit_empty_chunk: self.omit_empty_chunk,
        }
    }
}

impl Default for DownstreamOpenRequest {
    fn default() -> (r: DownstreamOpenRequest)
        ensures
            r.request_id == RequestId(0),
            r.desired_stream_id_alias == 0,
            r.downstream_filters@.len() == 0,
            r.expiry_interval.total() == 0,
            r.data_id_aliases@ == Map::<u32, DataId>::empty(),
            r.qos == QoS::Unreliable,
            !r.omit_empty_chunk,
    {
        DownstreamOpenRequest {
            request_id: RequestId(0),
            desired_stream_id_alias: 0,
            downstream_filters: Vec::new(),
            expiry_interval: TimeDelta::zero(),
            data_id_aliases: HashMap::new(),
            qos: QoS::Unreliable,
            omit_empty_chunk: false,
        }
    }
}

/// The response to a request to open a downstream.
#[derive(Clone, PartialEq, Eq, Debug, Default)]
pub struct DownstreamOpenResponse {
    /// The request id.
    pub request_id: RequestId,
    /// The stream id the broker assigned.
    pub assigned_stream_id: u128,
    /// The time of the broker, in nanoseconds since the unix epoch.
    pub server_time: i128,
    /// The result of the request.
    pub result_code: ResultCode,
    /// The result, in words.
    pub result_string: String,
}

impl DownstreamOpenResponse {
    /// Whether the wire message can be read: its codes are ones the protocol defines.
    pub open spec fn readable(p: autogen::DownstreamOpenResponse) -> bool {
        result_code_of_value(p.result_code) is Some
    }

    /// Whether this is what the wire message reads as.
    pub open spec fn reads(self, p: autogen::DownstreamOpenResponse) -> bool {
        &&& self.request_id == RequestId(p.request_id)
        &&& self.assigned_stream_id == uuid_read(p.assigned_stream_id@)
        &&& self.server_time == wire_time_read(p.server_time)
        &&& Some(self.result_code) == result_code_of_value(p.result_code)
        &&& self.result_string@ == p.result_string@
    }

    /// Whether the wire message is what this writes as.
    pub open spec fn writes(self, p: autogen::DownstreamOpenResponse) -> bool {
        &&& p.request_id == self.request_id.0
        &&& uuid_written(p.assigned_stream_id@, self.assigned_stream_id)
        &&& p.server_time == wire_time_written(self.server_time)
        &&& p.result_code == result_code_value(self.result_code)
        &&& p.result_string@ == self.result_string@
    }

    /// Reads the wire message; its codes must be ones the protocol defines.
    pub fn from_proto(p: autogen::DownstreamOpenResponse) -> (r: DownstreamOpenResponse)
        requires
            DownstreamOpenResponse::readable(p),
        ensures
            r.reads(p),
    {
        DownstreamOpenResponse {
            request_id: RequestId(p.request_id),
            assigned_stream_id: uuid_or_nil(p.assigned_stream_id.as_slice()),
            server_time: time_from_wire(p.server_time),
            result_code: read_code(p.result_code),
            result_string: p.result_string,
        }
    }

    /// The wire message.
    pub fn to_proto(self) -> (r: autogen::DownstreamOpenResponse)
        ensures
            self.writes(r),
    {
        autogen::DownstreamOpenResponse {
            request_id: self.request_id.0,
            assigned_stream_id: stream_id_to_bytes(self.assigned_stream_id),
            server_time: time_to_wire(self.server_time),
            result_code: self.result_code.to_i32(),
            result_string: self.result_string,
        }
    }
}

/// A request to resume a downstream.
#[derive(Clone, PartialEq, Eq, Debug, Default)]
pub struct DownstreamResumeRequest {
    /// The request id.
    pub request_id: RequestId,
    /// The stream id of the downstream.
    pub stream_id: u128,
    /// The stream id alias the node asks for.
    pub desired_stream_id_alias: u32,
}

impl DownstreamResumeRequest {
    /// Whether this is what the wire message reads as.
    pub open spec fn reads(self, p: autogen::DownstreamResumeRequest) -> bool {
        &&& self.request_id == RequestId(p.request_id)
        &&& self.stream_id == uuid_read(p.stream_id@)
        &&& self.desired_stream_id_alias == p.desired_stream_id_alias
    }

    /// Whether the wire message is what this writes as.
    pub open spec fn writes(self, p: autogen::DownstreamResumeRequest) -> bool {
        &&& p.request_id == self.request_id.0
        &&& uuid_written(p.stream_id@, self.stream_id)
        &&& p.desired_stream_id_alias == self.desired_stream_id_alias
    }

    /// Reads the wire message.
    pub fn from_proto(p: autogen::DownstreamResumeRequest) -> (r: DownstreamResumeRequest)
        ensures
            r.reads(p),
    {
        DownstreamResumeRequest {
            request_id: RequestId(p.request_id),
            stream_id: uuid_or_nil(p.stream_id.as_slice()),
            desired_stream_id_alias: p.desired_stream_id_alias,
        }
    }

    /// The wire message.
    pub fn to_proto(self) -> (r: autogen::DownstreamResumeRequest)
        ensures
            self.writes(r),
    {
        autogen::DownstreamResumeRequest {
            request_id: self.request_id.0,
            stream_id: stream_id_to_bytes(self.stream_id),
            desired_stream_id_alias: self.desired_stream_id_alias,
        }
    }
}

/// A request to close a downstream.
#[derive(Clone, PartialEq, Eq, Debug, Default)]
pub struct DownstreamCloseRequest {
    /// The request id.
    pub request_id: RequestId,
    /// The stream id of the downstream.
    pub stream_id: u128,
}

impl DownstreamCloseRequest {
    /// Whether this is what the wire message reads as.
    pub open spec fn reads(self, p: autogen::DownstreamCloseRequest) -> bool {
        &&& self.request_id == RequestId(p.request_id)
        &&& self.stream_id == uuid_read(p.stream_id@)
    }

    /// Whether the wire message is what this writes as.
    pub open spec fn writes(self, p: autogen::DownstreamCloseRequest) -> bool {
        &&& p.request_id == self.request_id.0
        &&& uuid_written(p.stream_id@, self.stream_id)
    }

    /// Reads the wire message.
    pub fn from_proto(p: autogen::DownstreamCloseRequest) -> (r: DownstreamCloseRequest)
        ensures
            r.reads(p),
    {
        DownstreamCloseRequest {
            request_id: RequestId(p.request_id),
            stream_id: uuid_or_nil(p.stream_id.as_slice()),
        }
    }

    /// The wire message.
    pub fn to_proto(self) -> (r: autogen::DownstreamCloseRequest)
        ensures
            self.writes(r),
    {
        autogen::DownstreamCloseRequest {
            request_id: self.request_id.0,
            stream_id: stream_id_to_bytes(self.stream_id),
        }
    }
}

impl DownstreamResumeResponse {
    /// Whether the wire message can be read: its codes are ones the protocol defines.
    pub open spec fn readable(p: autogen::DownstreamResumeResponse) -> bool {
        result_code_of_value(p.result_code) is Some
    }

    /// Whether this is what the wire message reads as.
    pub open spec fn reads(self, p: autogen::DownstreamResumeResponse) -> bool {
        &&& self.request_id == RequestId(p.request_id)
        &&& Some(self.result_code) == result_code_of_value(p.result_code)
        &&& self.result_string@ == p.result_string@
    }

    /// Whether the wire message is what this writes as.
    pub open spec fn writes(self, p: autogen::DownstreamResumeResponse) -> bool {
        &&& p.request_id == self.request_id.0
        &&& p.result_code == result_code_value(self.result_code)
        &&& p.result_string@ == self.result_string@
    }
}

impl DownstreamCloseResponse {
    /// Whether the wire message can be read: its codes are ones the protocol defines.
    pub open spec fn readable(p: autogen::DownstreamCloseResponse) -> bool {
        result_code_of_value(p.result_code) is Some
    }

    /// Whether this is what the wire message reads as.
    pub open spec fn reads(self, p: autogen::DownstreamCloseResponse) -> bool {
        &&& self.request_id == RequestId(p.request_id)
        &&& Some(self.result_code) == result_code_of_value(p.result_code)
        &&& self.result_string@ == p.result_string@
    }

    /// Whether the wire message is what this writes as.
    pub open spec fn writes(self, p: autogen::DownstreamCloseResponse) -> bool {
        &&& p.request_id == self.request_id.0
        &&& p.result_code == result_code_value(self.result_code)
        &&& p.result_string@ == self.result_string@
    }
}

impl DownstreamOpenRequest {
    /// Whether the wire carries this request exactly: the expiry interval is whole seconds
    /// that fit in a `u32`.
    pub open spec fn exact(self) -> bool {
        whole_secs_in_u32(self.expiry_interval)
    }
}

impl DownstreamOpenResponse {
    /// Whether the wire carries this response exactly: its server time is one the wire
    /// carries exactly.
    pub open spec fn exact(self) -> bool {
        time_exact(self.server_time)
    }
}

} // verus!
