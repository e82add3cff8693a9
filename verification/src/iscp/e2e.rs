//! End-to-end calls between nodes.

use vstd::prelude::*;

use crate::autogen;
use crate::iscp::misc::{hyphenated, is_random_uuid, random_uuid, uuid_text};
use crate::text::str_eq;

verus! {

/// A call to another node.
#[derive(Clone, PartialEq, Eq, PartialOrd, Ord, Hash, Debug)]
pub struct UpstreamCall {
    pub destination_node_id: String,
    pub name: String,
    pub type_: String,
    pub payload: Vec<u8>,
}

/// A reply to a call of another node.
#[derive(Clone, PartialEq, Eq, PartialOrd, Ord, Hash, Debug)]
pub struct UpstreamReplyCall {
    pub request_call_id: String,
    pub destination_node_id: String,
    pub name: String,
    pub type_: String,
    pub payload: Vec<u8>,
}

/// A reply received to a call of this node.
#[derive(Clone, PartialEq, Eq, PartialOrd, Ord, Hash, Debug)]
pub struct DownstreamReplyCall {
    pub request_call_id: String,
    pub source_node_id: String,
    pub name: String,
    pub type_: String,
    pub payload: Vec<u8>,
}

/// A call received from another node.
#[derive(Clone, PartialEq, Eq, PartialOrd, Ord, Hash, Debug)]
pub struct DownstreamCall {
    pub call_id: String,
    pub source_node_id: String,
    pub name: String,
    pub type_: String,
    pub payload: Vec<u8>,
}

/// A fresh call id: the hyphenated text of a random (version 4) uuid.
pub fn new_call_id() -> (r: String)
    ensures
        exists|v: u128| is_random_uuid(v) && r@ == hyphenated(v),
{
    let v = random_uuid();
    uuid_text(v)
}

/// The wire message of a call under the given call id; it answers no call.
pub fn call_message(call: UpstreamCall, call_id: String) -> (r: autogen::UpstreamCall)
    ensures
        r.call_id == call_id,
        r.request_call_id@ == Seq::<char>::empty(),
        r.destination_node_id == call.destination_node_id,
        r.name == call.name,
        r.type_ == call.type_,
        r.payload == call.payload,
{
    autogen::UpstreamCall {
        call_id,
        request_call_id: String::new(),
        destination_node_id: call.destination_node_id,
        name: call.name,
        type_: call.type_,
        payload: call.payload,
    }
}

/// The wire message of a reply under the given call id; it answers the call it names.
pub fn reply_call_message(call: UpstreamReplyCall, call_id: String) -> (r: autogen::UpstreamCall)
    ensures
        r.call_id == call_id,
        r.request_call_id == call.request_call_id,
        r.destination_node_id == call.destination_node_id,
        r.name == call.name,
        r.type_ == call.type_,
        r.payload == call.payload,
{
    autogen::UpstreamCall {
        call_id,
        request_call_id: call.request_call_id,
        destination_node_id: call.destination_node_id,
        name: call.name,
        type_: call.type_,
        payload: call.payload,
    }
}

/// Whether a received call answers a call: it names the call it answers.
pub fn is_reply(call: &autogen::DownstreamCall) -> (r: bool)
    ensures
        r == (call.request_call_id@.len() > 0),
{
    call.request_call_id.as_str().unicode_len() > 0
}

/// A received call that answers no call, for the user; a reply gives `None`.
pub fn received_call(call: autogen::DownstreamCall) -> (r: Option<DownstreamCall>)
    ensures
        call.request_call_id@.len() > 0 ==> r is None,
        call.request_call_id@.len() == 0 ==> (r matches Some(c) && c.call_id == call.call_id
            && c.source_node_id == call.source_node_id && c.name == call.name && c.type_
            == call.type_ && c.payload == call.payload),
{
    if is_reply(&call) {
        return None;
    }
    Some(
        DownstreamCall {
            call_id: call.call_id,
            source_node_id: call.source_node_id,
            name: call.name,
            type_: call.type_,
            payload: call.payload,
        },
    )
}

/// A received reply, for the user; a call that answers no call gives `None`.
pub fn received_reply_call(call: autogen::DownstreamCall) -> (r: Option<DownstreamReplyCall>)
    ensures
        call.request_call_id@.len() == 0 ==> r is None,
        call.request_call_id@.len() > 0 ==> (r matches Some(c) && c.request_call_id
            == call.request_call_id && c.source_node_id == call.source_node_id && c.name
            == call.name && c.type_ == call.type_ && c.payload == call.payload),
{
    if !is_reply(&call) {
        return None;
    }
    Some(
        DownstreamReplyCall {
            request_call_id: call.request_call_id,
            source_node_id: call.source_node_id,
            name: call.name,
            type_: call.type_,
            payload: call.payload,
        },
    )
}

/// The reply to the call of the given call id, if the received call is that reply.
pub fn reply_to(call: autogen::DownstreamCall, call_id: &str) -> (r: Option<DownstreamReplyCall>)
    ensures
        call.request_call_id@ != call_id@ ==> r is None,
        call.request_call_id@ == call_id@ ==> (r matches Some(c) && c.request_call_id
            == call.request_call_id && c.source_node_id == call.source_node_id && c.name
            == call.name && c.type_ == call.type_ && c.payload == call.payload),
{
    if !str_eq(call.request_call_id.as_str(), call_id) {
        return None;
    }
    Some(
        DownstreamReplyCall {
            request_call_id: call.request_call_id,
            source_node_id: call.source_node_id,
            name: call.name,
            type_: call.type_,
            payload: call.payload,
        },
    )
}

} // verus!
