use vstd::prelude::*;

use crate::autogen;
use crate::codes::{result_code_of_value, result_code_value, ResultCode};
use crate::message::{read_code, RequestId};

verus! {

/// The response to a call sent by a node.
#[derive(Clone, PartialEq, Eq, Debug, Default)]
pub struct UpstreamCallAck {
    /// The id of the call this answers.
    pub call_id: String,
    /// The result of the call.
    pub result_code: ResultCode,
    /// The result, in words.
    pub result_string: String,
}

impl UpstreamCallAck {
    /// Reads the wire message; its result code must be one the protocol defines.
    pub fn from_proto(p: autogen::UpstreamCallAck) -> (r: UpstreamCallAck)
        requires
            result_code_of_value(p.result_code) is Some,
        ensures
            r == (UpstreamCallAck {
                call_id: p.call_id,
                result_code: result_code_of_value(p.result_code)->Some_0,
                result_string: p.result_string,
            }),
    {
        UpstreamCallAck {
            call_id: p.call_id,
            result_code: read_code(p.result_code),
            result_string: p.result_string,
        }
    }
}

impl From<UpstreamCallAck> for autogen::UpstreamCallAck {
    /// The wire message.
    fn from(m: UpstreamCallAck) -> (r: autogen::UpstreamCallAck) {
        autogen::UpstreamCallAck {
            call_id: m.call_id,
            result_code: m.result_code.to_i32(),
            result_string: m.result_string,
        }
    }
}

impl vstd::std_specs::convert::FromSpecImpl<UpstreamCallAck> for autogen::UpstreamCallAck {
    open spec fn obeys_from_spec() -> bool {
        true
    }

    open spec fn from_spec(m: UpstreamCallAck) -> autogen::UpstreamCallAck {
        autogen::UpstreamCallAck {
            call_id: m.call_id,
            result_code: result_code_value(m.result_code),
            result_string: m.result_string,
        }
    }
}
/// A call that a node sends to another node.
#[derive(Clone, PartialEq, Eq, Debug, Default)]
pub struct UpstreamCall {
    /// The id of the call.
    pub call_id: String,
    /// The id of the call this answers; empty where it answers none.
    pub request_call_id: String,
    /// The node the call goes to.
    pub destination_node_id: String,
    /// The name of the call.
    pub name: String,
    /// The type of the call.
    pub type_: String,
    /// The payload.
    pub payload: Vec<u8>,
}

impl UpstreamCall {
    /// Whether this is what the wire message reads as.
    pub open spec fn reads(self, p: autogen::UpstreamCall) -> bool {
        &&& self.call_id@ == p.call_id@
        &&& self.request_call_id@ == p.request_call_id@
        &&& self.destination_node_id@ == p.destination_node_id@
        &&& self.name@ == p.name@
        &&& self.type_@ == p.type_@
        &&& self.payload == p.payload
    }

    /// Whether the wire message is what this writes as.
    pub open spec fn writes(self, p: autogen::UpstreamCall) -> bool {
        &&& p.call_id@ == self.call_id@
        &&& p.request_call_id@ == self.request_call_id@
        &&& p.destination_node_id@ == self.destination_node_id@
        &&& p.name@ == self.name@
        &&& p.type_@ == self.type_@
        &&& p.payload == self.payload
    }

    /// Reads the wire message.
    pub fn from_proto(p: autogen::UpstreamCall) -> (r: UpstreamCall)
        ensures
            r.reads(p),
    {
        UpstreamCall {
            call_id: p.call_id,
            request_call_id: p.request_call_id,
            destination_node_id: p.destination_node_id,
            name: p.name,
            type_: p.type_,
            payload: p.payload,
        }
    }

    /// The wire message.
    pub fn to_proto(self) -> (r: autogen::UpstreamCall)
        ensures
            self.writes(r),
    {
        autogen::UpstreamCall {
            call_id: self.call_id,
            request_call_id: self.request_call_id,
            destination_node_id: self.destination_node_id,
            name: self.name,
            type_: self.type_,
            payload: self.payload,
        }
    }
}

/// A call that a node receives from another node.
#[derive(Clone, PartialEq, Eq, Debug, Default)]
pub struct DownstreamCall {
    /// The id of the call.
    pub call_id: String,
    /// The id of the call this answers; empty where it answers none.
    pub request_call_id: String,
    /// The node the call comes from.
    pub source_node_id: String,
    /// The name of the call.
    pub name: String,
    /// The type of the call.
    pub type_: String,
    /// The payload.
    pub payload: Vec<u8>,
}

impl DownstreamCall {
    /// Whether this is what the wire message reads as.
    pub open spec fn reads(self, p: autogen::DownstreamCall) -> bool {
        &&& self.call_id@ == p.call_id@
        &&& self.request_call_id@ == p.request_call_id@
        &&& self.source_node_id@ == p.source_node_id@
        &&& self.name@ == p.name@
        &&& self.type_@ == p.type_@
        &&& self.payload == p.payload
    }

    /// Whether the wire message is what this writes as.
    pub open spec fn writes(self, p: autogen::DownstreamCall) -> bool {
        &&& p.call_id@ == self.call_id@
        &&& p.request_call_id@ == self.request_call_id@
        &&& p.source_node_id@ == self.source_node_id@
        &&& p.name@ == self.name@
        &&& p.type_@ == self.type_@
        &&& p.payload == self.payload
    }

    /// Reads the wire message.
    pub fn from_proto(p: autogen::DownstreamCall) -> (r: DownstreamCall)
        ensures
            r.reads(p),
    {
        DownstreamCall {
            call_id: p.call_id,
            request_call_id: p.request_call_id,
            source_node_id: p.source_node_id,
            name: p.name,
            type_: p.type_,
            payload: p.payload,
        }
    }

    /// The wire message.
    pub fn to_proto(self) -> (r: autogen::DownstreamCall)
        ensures
            self.writes(r),
    {
        autogen::DownstreamCall {
            call_id: self.call_id,
            request_call_id: self.request_call_id,
            source_node_id: self.source_node_id,
            name: self.name,
            type_: self.type_,
            payload: self.payload,
        }
    }
}

impl DownstreamCall {
    /// Whether the call answers another call: it names the call it answers.
    pub fn is_reply(&self) -> (r: bool)
        ensures
            r == (self.request_call_id@.len() > 0),
    {
        self.request_call_id.as_str().unicode_len() > 0
    }
}

impl UpstreamCallAck {
    /// Whether the wire message can be read: its codes are ones the protocol defines.
    pub open spec fn readable(p: autogen::UpstreamCallAck) -> bool {
        result_code_of_value(p.result_code) is Some
    }

    /// Whether this is what the wire message reads as.
    pub open spec fn reads(self, p: autogen::UpstreamCallAck) -> bool {
        &&& self.call_id@ == p.call_id@
        &&& Some(self.result_code) == result_code_of_value(p.result_code)
        &&& self.result_string@ == p.result_string@
    }

    /// Whether the wire message is what this writes as.
    pub open spec fn writes(self, p: autogen::UpstreamCallAck) -> bool {
        &&& p.call_id@ == self.call_id@
        &&& p.result_code == result_code_value(self.result_code)
        &&& p.result_string@ == self.result_string@
    }
}

} // verus!
