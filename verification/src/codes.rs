use vstd::prelude::*;

use crate::text::str_eq;
use QoS::{Partial, Reliable, Unreliable};
use ResultCode::{
    AckTimeout,
    AuthFailed,
    ConnectTimeout,
    DesiredQosNotSupported,
    IncompatibleVersion,
    InvalidDataFilter,
    InvalidDataId,
    InvalidDataIdAlias,
    InvalidPayload,
    MalformedMessage,
    MaximumDataIdAlias,
    MaximumUpstreamAlias,
    NoNodeId,
    NodeIdMismatch,
    PingTimeout,
    ProcessFailed,
    ProtocolError,
    RateLimitReached,
    ResumeRequestConflict,
    SessionAlreadyClosed,
    SessionCannotClosed,
    SessionNotFound,
    StreamNotFound,
    Succeeded,
    TooLargeMessageSize,
    TooLongAckInterval,
    TooLongExpiryInterval,
    TooLongPingTimeout,
    TooManyDataFilters,
    TooManyDataIdAliases,
    TooManyDownstreamFilters,
    TooManyStreams,
    TooShortPingInterval,
    TooShortPingTimeout,
    UnspecifiedError,
};

verus! {

/// Quality of service of a stream.
#[derive(Clone, Copy, Debug, PartialEq, Eq, Hash, Default, Structural)]
pub enum QoS {
    /// Data may be lost; nothing is sent again.
    #[default]
    Unreliable,
    /// Data is acknowledged and sent again until it is.
    Reliable,
    /// Between the two.
    Partial,
}

/// The wire value of each QoS.
pub open spec fn qos_value(q: QoS) -> i32 {
    if q == Partial {
        2
    } else if q == Reliable {
        1
    } else {
        0
    }
}

/// The QoS that a wire value stands for, if any.
pub open spec fn qos_of_value(v: i32) -> Option<QoS> {
    if v == 2 {
        Some(Partial)
    } else if v == 1 {
        Some(Reliable)
    } else if v == 0 {
        Some(Unreliable)
    } else {
        None
    }
}

/// The protocol name of the QoS of wire value `v`, if `v` is one.
pub open spec fn name_of_qos_value(v: i32) -> Option<Seq<char>> {
    if v == 2 {
        Some("PARTIAL"@)
    } else if v == 1 {
        Some("RELIABLE"@)
    } else if v == 0 {
        Some("UNRELIABLE"@)
    } else {
        None
    }
}

/// The name of each QoS in the protocol definition.
pub open spec fn qos_name(c: QoS) -> Seq<char> {
    name_of_qos_value(qos_value(c))->Some_0
}

/// The QoS whose protocol name is `s`, if any.
pub open spec fn qos_of_name(s: Seq<char>) -> Option<QoS> {
    if s == "PARTIAL"@ {
        Some(Partial)
    } else if s == "RELIABLE"@ {
        Some(Reliable)
    } else if s == "UNRELIABLE"@ {
        Some(Unreliable)
    } else {
        None
    }
}

impl QoS {
    /// The name of this value in the protocol definition.
    pub fn as_str_name(&self) -> (r: &'static str)
        ensures
            r@ == qos_name(*self),
    {
        let v = self.to_i32();
        let r = if v == 2 {
            "PARTIAL"
        } else if v == 1 {
            "RELIABLE"
        } else {
            "UNRELIABLE"
        };
        proof {
            reveal_strlit("PARTIAL");
            reveal_strlit("RELIABLE");
            reveal_strlit("UNRELIABLE");
        }
        r
    }

    /// The value named `value` in the protocol definition; `None` for any other text.
    pub fn from_str_name(value: &str) -> (r: Option<QoS>)
        ensures
            r == qos_of_name(value@),
    {
        if str_eq(value, "PARTIAL") {
            return Some(Partial);
        }
        if str_eq(value, "RELIABLE") {
            return Some(Reliable);
        }
        if str_eq(value, "UNRELIABLE") {
            return Some(Unreliable);
        }
        None
    }

    /// The wire value of this QoS.
    pub fn to_i32(&self) -> (r: i32)
        ensures
            r == qos_value(*self),
    {
        if *self == Partial {
            2
        } else if *self == Reliable {
            1
        } else {
            0
        }
    }

    /// The QoS of a wire value; `None` for a value that names no QoS.
    pub fn from_i32(v: i32) -> (r: Option<QoS>)
        ensures
            r == qos_of_value(v),
    {
        if v == 2 {
            Some(Partial)
        } else if v == 1 {
            Some(Reliable)
        } else if v == 0 {
            Some(Unreliable)
        } else {
            None
        }
    }
}

/// Result code of a request, as the protocol defines it.
#[derive(Clone, Copy, Debug, PartialEq, Eq, Hash, Default, Structural)]
pub enum ResultCode {
    AckTimeout,
    AuthFailed,
    ConnectTimeout,
    DesiredQosNotSupported,
    IncompatibleVersion,
    InvalidDataFilter,
    InvalidDataId,
    InvalidDataIdAlias,
    InvalidPayload,
    MalformedMessage,
    MaximumDataIdAlias,
    MaximumUpstreamAlias,
    NoNodeId,
    NodeIdMismatch,
    PingTimeout,
    ProcessFailed,
    ProtocolError,
    RateLimitReached,
    ResumeRequestConflict,
    SessionAlreadyClosed,
    SessionCannotClosed,
    SessionNotFound,
    StreamNotFound,
    #[default]
    Succeeded,
    TooLargeMessageSize,
    TooLongAckInterval,
    TooLongExpiryInterval,
    TooLongPingTimeout,
    TooManyDataFilters,
    TooManyDataIdAliases,
    TooManyDownstreamFilters,
    TooManyStreams,
    TooShortPingInterval,
    TooShortPingTimeout,
    UnspecifiedError,
}

/// The wire value of each result code.
pub open spec fn result_code_value(c: ResultCode) -> i32 {
    if c == AckTimeout {
        70
    } else if c == AuthFailed {
        66
    } else if c == ConnectTimeout {
        67
    } else if c == DesiredQosNotSupported {
        78
    } else if c == IncompatibleVersion {
        1
    } else if c == InvalidDataFilter {
        74
    } else if c == InvalidDataId {
        72
    } else if c == InvalidDataIdAlias {
        73
    } else if c == InvalidPayload {
        71
    } else if c == MalformedMessage {
        68
    } else if c == MaximumDataIdAlias {
        2
    } else if c == MaximumUpstreamAlias {
        3
    } else if c == NoNodeId {
        65
    } else if c == NodeIdMismatch {
        128
    } else if c == PingTimeout {
        79
    } else if c == ProcessFailed {
        77
    } else if c == ProtocolError {
        69
    } else if c == RateLimitReached {
        90
    } else if c == ResumeRequestConflict {
        76
    } else if c == SessionAlreadyClosed {
        130
    } else if c == SessionCannotClosed {
        131
    } else if c == SessionNotFound {
        129
    } else if c == StreamNotFound {
        75
    } else if c == Succeeded {
        0
    } else if c == TooLargeMessageSize {
        80
    } else if c == TooLongAckInterval {
        83
    } else if c == TooLongExpiryInterval {
        86
    } else if c == TooLongPingTimeout {
        87
    } else if c == TooManyDataFilters {
        85
    } else if c == TooManyDataIdAliases {
        81
    } else if c == TooManyDownstreamFilters {
        84
    } else if c == TooManyStreams {
        82
    } else if c == TooShortPingInterval {
        88
    } else if c == TooShortPingTimeout {
        89
    } else {
        64
    }
}

/// The result code that a wire value stands for, if any.
pub open spec fn result_code_of_value(v: i32) -> Option<ResultCode> {
    if v == 70 {
        Some(AckTimeout)
    } else if v == 66 {
        Some(AuthFailed)
    } else if v == 67 {
        Some(ConnectTimeout)
    } else if v == 78 {
        Some(DesiredQosNotSupported)
    } else if v == 1 {
        Some(IncompatibleVersion)
    } else if v == 74 {
        Some(InvalidDataFilter)
    } else if v == 72 {
        Some(InvalidDataId)
    } else if v == 73 {
        Some(InvalidDataIdAlias)
    } else if v == 71 {
        Some(InvalidPayload)
    } else if v == 68 {
        Some(MalformedMessage)
    } else if v == 2 {
        Some(MaximumDataIdAlias)
    } else if v == 3 {
        Some(MaximumUpstreamAlias)
    } else if v == 65 {
        Some(NoNodeId)
    } else if v == 128 {
        Some(NodeIdMismatch)
    } else if v == 79 {
        Some(PingTimeout)
    } else if v == 77 {
        Some(ProcessFailed)
    } else if v == 69 {
        Some(ProtocolError)
    } else if v == 90 {
        Some(RateLimitReached)
    } else if v == 76 {
        Some(ResumeRequestConflict)
    } else if v == 130 {
        Some(SessionAlreadyClosed)
    } else if v == 131 {
        Some(SessionCannotClosed)
    } else if v == 129 {
        Some(SessionNotFound)
    } else if v == 75 {
        Some(StreamNotFound)
    } else if v == 0 {
        Some(Succeeded)
    } else if v == 80 {
        Some(TooLargeMessageSize)
    } else if v == 83 {
        Some(TooLongAckInterval)
    } else if v == 86 {
        Some(TooLongExpiryInterval)
    } else if v == 87 {
        Some(TooLongPingTimeout)
    } else if v == 85 {
        Some(TooManyDataFilters)
    } else if v == 81 {
        Some(TooManyDataIdAliases)
    } else if v == 84 {
        Some(TooManyDownstreamFilters)
    } else if v == 82 {
        Some(TooManyStreams)
    } else if v == 88 {
        Some(TooShortPingInterval)
    } else if v == 89 {
        Some(TooShortPingTimeout)
    } else if v == 64 {
        Some(UnspecifiedError)
    } else {
        None
    }
}

/// The protocol name of the result code of wire value `v`, if `v` is one.
pub open spec fn name_of_code_value(v: i32) -> Option<Seq<char>> {
    if v == 70 {
        Some("ACK_TIMEOUT"@)
    } else if v == 66 {
        Some("AUTH_FAILED"@)
    } else if v == 67 {
        Some("CONNECT_TIMEOUT"@)
    } else if v == 78 {
        Some("DESIRED_QOS_NOT_SUPPORTED"@)
    } else if v == 1 {
        Some("INCOMPATIBLE_VERSION"@)
    } else if v == 74 {
        Some("INVALID_DATA_FILTER"@)
    } else if v == 72 {
        Some("INVALID_DATA_ID"@)
    } else if v == 73 {
        Some("INVALID_DATA_ID_ALIAS"@)
    } else if v == 71 {
        Some("INVALID_PAYLOAD"@)
    } else if v == 68 {
        Some("MALFORMED_MESSAGE"@)
    } else if v == 2 {
        Some("MAXIMUM_DATA_ID_ALIAS"@)
    } else if v == 3 {
        Some("MAXIMUM_UPSTREAM_ALIAS"@)
    } else if v == 65 {
        Some("NO_NODE_ID"@)
    } else if v == 128 {
        Some("NODE_ID_MISMATCH"@)
    } else if v == 79 {
        Some("PING_TIMEOUT"@)
    } else if v == 77 {
        Some("PROCESS_FAILED"@)
    } else if v == 69 {
        Some("PROTOCOL_ERROR"@)
    } else if v == 90 {
        Some("RATE_LIMIT_REACHED"@)
    } else if v == 76 {
        Some("RESUME_REQUEST_CONFLICT"@)
    } else if v == 130 {
        Some("SESSION_ALREADY_CLOSED"@)
    } else if v == 131 {
        Some("SESSION_CANNOT_CLOSED"@)
    } else if v == 129 {
        Some("SESSION_NOT_FOUND"@)
    } else if v == 75 {
        Some("STREAM_NOT_FOUND"@)
    } else if v == 0 {
        Some("SUCCEEDED"@)
    } else if v == 80 {
        Some("TOO_LARGE_MESSAGE_SIZE"@)
    } else if v == 83 {
        Some("TOO_LONG_ACK_INTERVAL"@)
    } else if v == 86 {
        Some("TOO_LONG_EXPIRY_INTERVAL"@)
    } else if v == 87 {
        Some("TOO_LONG_PING_TIMEOUT"@)
    } else if v == 85 {
        Some("TOO_MANY_DATA_FILTERS"@)
    } else if v == 81 {
        Some("TOO_MANY_DATA_ID_ALIASES"@)
    } else if v == 84 {
        Some("TOO_MANY_DOWNSTREAM_FILTERS"@)
    } else if v == 82 {
        Some("TOO_MANY_STREAMS"@)
    } else if v == 88 {
        Some("TOO_SHORT_PING_INTERVAL"@)
    } else if v == 89 {
        Some("TOO_SHORT_PING_TIMEOUT"@)
    } else if v == 64 {
        Some("UNSPECIFIED_ERROR"@)
    } else {
        None
    }
}

/// The name of each result code in the protocol definition.
pub open spec fn result_code_name(c: ResultCode) -> Seq<char> {
    name_of_code_value(result_code_value(c))->Some_0
}

/// The wire value of the result code that the protocol names `s`, if any.
pub open spec fn code_value_of_name(s: Seq<char>) -> Option<i32> {
    if s == "ACK_TIMEOUT"@ {
        Some(70i32)
    } else if s == "AUTH_FAILED"@ {
        Some(66i32)
    } else if s == "CONNECT_TIMEOUT"@ {
        Some(67i32)
    } else if s == "DESIRED_QOS_NOT_SUPPORTED"@ {
        Some(78i32)
    } else if s == "INCOMPATIBLE_VERSION"@ {
        Some(1i32)
    } else if s == "INVALID_DATA_FILTER"@ {
        Some(74i32)
    } else if s == "INVALID_DATA_ID"@ {
        Some(72i32)
    } else if s == "INVALID_DATA_ID_ALIAS"@ {
        Some(73i32)
    } else if s == "INVALID_PAYLOAD"@ {
        Some(71i32)
    } else if s == "MALFORMED_MESSAGE"@ {
        Some(68i32)
    } else if s == "MAXIMUM_DATA_ID_ALIAS"@ {
        Some(2i32)
    } else if s == "MAXIMUM_UPSTREAM_ALIAS"@ {
        Some(3i32)
    } else if s == "NO_NODE_ID"@ {
        Some(65i32)
    } else if s == "NODE_ID_MISMATCH"@ {
        Some(128i32)
    } else if s == "PING_TIMEOUT"@ {
        Some(79i32)
    } else if s == "PROCESS_FAILED"@ {
        Some(77i32)
    } else if s == "PROTOCOL_ERROR"@ {
        Some(69i32)
    } else if s == "RATE_LIMIT_REACHED"@ {
        Some(90i32)
    } else if s == "RESUME_REQUEST_CONFLICT"@ {
        Some(76i32)
    } else if s == "SESSION_ALREADY_CLOSED"@ {
        Some(130i32)
    } else if s == "SESSION_CANNOT_CLOSED"@ {
        Some(131i32)
    } else if s == "SESSION_NOT_FOUND"@ {
        Some(129i32)
    } else if s == "STREAM_NOT_FOUND"@ {
        Some(75i32)
    } else if s == "SUCCEEDED"@ {
        Some(0i32)
    } else if s == "TOO_LARGE_MESSAGE_SIZE"@ {
        Some(80i32)
    } else if s == "TOO_LONG_ACK_INTERVAL"@ {
        Some(83i32)
    } else if s == "TOO_LONG_EXPIRY_INTERVAL"@ {
        Some(86i32)
    } else if s == "TOO_LONG_PING_TIMEOUT"@ {
        Some(87i32)
    } else if s == "TOO_MANY_DATA_FILTERS"@ {
        Some(85i32)
    } else if s == "TOO_MANY_DATA_ID_ALIASES"@ {
        Some(81i32)
    } else if s == "TOO_MANY_DOWNSTREAM_FILTERS"@ {
        Some(84i32)
    } else if s == "TOO_MANY_STREAMS"@ {
        Some(82i32)
    } else if s == "TOO_SHORT_PING_INTERVAL"@ {
        Some(88i32)
    } else if s == "TOO_SHORT_PING_TIMEOUT"@ {
        Some(89i32)
    } else if s == "UNSPECIFIED_ERROR"@ {
        Some(64i32)
    } else {
        None
    }
}

/// The result code whose protocol name is `s`, if any.
pub open spec fn result_code_of_name(s: Seq<char>) -> Option<ResultCode> {
    match code_value_of_name(s) {
        Some(v) => result_code_of_value(v),
        None => None,
    }
}

/// The wire value of the result code that the protocol names `value`, if any.
fn code_value_of_name_exec(value: &str) -> (r: Option<i32>)
    ensures
        r == code_value_of_name(value@),
{
    if str_eq(value, "ACK_TIMEOUT") {
        return Some(70);
    }
    if str_eq(value, "AUTH_FAILED") {
        return Some(66);
    }
    if str_eq(value, "CONNECT_TIMEOUT") {
        return Some(67);
    }
    if str_eq(value, "DESIRED_QOS_NOT_SUPPORTED") {
        return Some(78);
    }
    if str_eq(value, "INCOMPATIBLE_VERSION") {
        return Some(1);
    }
    if str_eq(value, "INVALID_DATA_FILTER") {
        return Some(74);
    }
    if str_eq(value, "INVALID_DATA_ID") {
        return Some(72);
    }
    if str_eq(value, "INVALID_DATA_ID_ALIAS") {
        return Some(73);
    }
    if str_eq(value, "INVALID_PAYLOAD") {
        return Some(71);
    }
    if str_eq(value, "MALFORMED_MESSAGE") {
        return Some(68);
    }
    if str_eq(value, "MAXIMUM_DATA_ID_ALIAS") {
        return Some(2);
    }
    if str_eq(value, "MAXIMUM_UPSTREAM_ALIAS") {
        return Some(3);
    }
    if str_eq(value, "NO_NODE_ID") {
        return Some(65);
    }
    if str_eq(value, "NODE_ID_MISMATCH") {
        return Some(128);
    }
    if str_eq(value, "PING_TIMEOUT") {
        return Some(79);
    }
    if str_eq(value, "PROCESS_FAILED") {
        return Some(77);
    }
    if str_eq(value, "PROTOCOL_ERROR") {
        return Some(69);
    }
    if str_eq(value, "RATE_LIMIT_REACHED") {
        return Some(90);
    }
    if str_eq(value, "RESUME_REQUEST_CONFLICT") {
        return Some(76);
    }
    if str_eq(value, "SESSION_ALREADY_CLOSED") {
        return Some(130);
    }
    if str_eq(value, "SESSION_CANNOT_CLOSED") {
        return Some(131);
    }
    if str_eq(value, "SESSION_NOT_FOUND") {
        return Some(129);
    }
    if str_eq(value, "STREAM_NOT_FOUND") {
        return Some(75);
    }
    if str_eq(value, "SUCCEEDED") {
        return Some(0);
    }
    if str_eq(value, "TOO_LARGE_MESSAGE_SIZE") {
        return Some(80);
    }
    if str_eq(value, "TOO_LONG_ACK_INTERVAL") {
        return Some(83);
    }
    if str_eq(value, "TOO_LONG_EXPIRY_INTERVAL") {
        return Some(86);
    }
    if str_eq(value, "TOO_LONG_PING_TIMEOUT") {
        return Some(87);
    }
    if str_eq(value, "TOO_MANY_DATA_FILTERS") {
        return Some(85);
    }
    if str_eq(value, "TOO_MANY_DATA_ID_ALIASES") {
        return Some(81);
    }
    if str_eq(value, "TOO_MANY_DOWNSTREAM_FILTERS") {
        return Some(84);
    }
    if str_eq(value, "TOO_MANY_STREAMS") {
        return Some(82);
    }
    if str_eq(value, "TOO_SHORT_PING_INTERVAL") {
        return Some(88);
    }
    if str_eq(value, "TOO_SHORT_PING_TIMEOUT") {
        return Some(89);
    }
    if str_eq(value, "UNSPECIFIED_ERROR") {
        return Some(64);
    }
    None
}

impl ResultCode {
    /// The wire value of this result code.
    pub fn to_i32(&self) -> (r: i32)
        ensures
            r == result_code_value(*self),
    {
        if *self == AckTimeout {
            70
        } else if *self == AuthFailed {
            66
        } else if *self == ConnectTimeout {
            67
        } else if *self == DesiredQosNotSupported {
            78
        } else if *self == IncompatibleVersion {
            1
        } else if *self == InvalidDataFilter {
            74
        } else if *self == InvalidDataId {
            72
        } else if *self == InvalidDataIdAlias {
            73
        } else if *self == InvalidPayload {
            71
        } else if *self == MalformedMessage {
            68
        } else if *self == MaximumDataIdAlias {
            2
        } else if *self == MaximumUpstreamAlias {
            3
        } else if *self == NoNodeId {
            65
        } else if *self == NodeIdMismatch {
            128
        } else if *self == PingTimeout {
            79
        } else if *self == ProcessFailed {
            77
        } else if *self == ProtocolError {
            69
        } else if *self == RateLimitReached {
            90
        } else if *self == ResumeRequestConflict {
            76
        } else if *self == SessionAlreadyClosed {
            130
        } else if *self == SessionCannotClosed {
            131
        } else if *self == SessionNotFound {
            129
        } else if *self == StreamNotFound {
            75
        } else if *self == Succeeded {
            0
        } else if *self == TooLargeMessageSize {
            80
        } else if *self == TooLongAckInterval {
            83
        } else if *self == TooLongExpiryInterval {
            86
        } else if *self == TooLongPingTimeout {
            87
        } else if *self == TooManyDataFilters {
            85
        } else if *self == TooManyDataIdAliases {
            81
        } else if *self == TooManyDownstreamFilters {
            84
        } else if *self == TooManyStreams {
            82
        } else if *self == TooShortPingInterval {
            88
        } else if *self == TooShortPingTimeout {
            89
        } else {
            64
        }
    }

    /// The result code of a wire value; `None` for a value that names no result code.
    pub fn from_i32(v: i32) -> (r: Option<ResultCode>)
        ensures
            r == result_code_of_value(v),
    {
        if v == 70 {
            Some(AckTimeout)
        } else if v == 66 {
            Some(AuthFailed)
        } else if v == 67 {
            Some(ConnectTimeout)
        } else if v == 78 {
            Some(DesiredQosNotSupported)
        } else if v == 1 {
            Some(IncompatibleVersion)
        } else if v == 74 {
            Some(InvalidDataFilter)
        } else if v == 72 {
            Some(InvalidDataId)
        } else if v == 73 {
            Some(InvalidDataIdAlias)
        } else if v == 71 {
            Some(InvalidPayload)
        } else if v == 68 {
            Some(MalformedMessage)
        } else if v == 2 {
            Some(MaximumDataIdAlias)
        } else if v == 3 {
            Some(MaximumUpstreamAlias)
        } else if v == 65 {
            Some(NoNodeId)
        } else if v == 128 {
            Some(NodeIdMismatch)
        } else if v == 79 {
            Some(PingTimeout)
        } else if v == 77 {
            Some(ProcessFailed)
        } else if v == 69 {
            Some(ProtocolError)
        } else if v == 90 {
            Some(RateLimitReached)
        } else if v == 76 {
            Some(ResumeRequestConflict)
        } else if v == 130 {
            Some(SessionAlreadyClosed)
        } else if v == 131 {
            Some(SessionCannotClosed)
        } else if v == 129 {
            Some(SessionNotFound)
        } else if v == 75 {
            Some(StreamNotFound)
        } else if v == 0 {
            Some(Succeeded)
        } else if v == 80 {
            Some(TooLargeMessageSize)
        } else if v == 83 {
            Some(TooLongAckInterval)
        } else if v == 86 {
            Some(TooLongExpiryInterval)
        } else if v == 87 {
            Some(TooLongPingTimeout)
        } else if v == 85 {
            Some(TooManyDataFilters)
        } else if v == 81 {
            Some(TooManyDataIdAliases)
        } else if v == 84 {
            Some(TooManyDownstreamFilters)
        } else if v == 82 {
            Some(TooManyStreams)
        } else if v == 88 {
            Some(TooShortPingInterval)
        } else if v == 89 {
            Some(TooShortPingTimeout)
        } else if v == 64 {
            Some(UnspecifiedError)
        } else {
            None
        }
    }

    /// The name of this value in the protocol definition.
    pub fn as_str_name(&self) -> (r: &'static str)
        ensures
            r@ == result_code_name(*self),
    {
        let v = self.to_i32();
        let r = if v == 70 {
            "ACK_TIMEOUT"
        } else if v == 66 {
            "AUTH_FAILED"
        } else if v == 67 {
            "CONNECT_TIMEOUT"
        } else if v == 78 {
            "DESIRED_QOS_NOT_SUPPORTED"
        } else if v == 1 {
            "INCOMPATIBLE_VERSION"
        } else if v == 74 {
            "INVALID_DATA_FILTER"
        } else if v == 72 {
            "INVALID_DATA_ID"
        } else if v == 73 {
            "INVALID_DATA_ID_ALIAS"
        } else if v == 71 {
            "INVALID_PAYLOAD"
        } else if v == 68 {
            "MALFORMED_MESSAGE"
        } else if v == 2 {
            "MAXIMUM_DATA_ID_ALIAS"
        } else if v == 3 {
            "MAXIMUM_UPSTREAM_ALIAS"
        } else if v == 65 {
            "NO_NODE_ID"
        } else if v == 128 {
            "NODE_ID_MISMATCH"
        } else if v == 79 {
            "PING_TIMEOUT"
        } else if v == 77 {
            "PROCESS_FAILED"
        } else if v == 69 {
            "PROTOCOL_ERROR"
        } else if v == 90 {
            "RATE_LIMIT_REACHED"
        } else if v == 76 {
            "RESUME_REQUEST_CONFLICT"
        } else if v == 130 {
            "SESSION_ALREADY_CLOSED"
        } else if v == 131 {
            "SESSION_CANNOT_CLOSED"
        } else if v == 129 {
            "SESSION_NOT_FOUND"
        } else if v == 75 {
            "STREAM_NOT_FOUND"
        } else if v == 0 {
            "SUCCEEDED"
        } else if v == 80 {
            "TOO_LARGE_MESSAGE_SIZE"
        } else if v == 83 {
            "TOO_LONG_ACK_INTERVAL"
        } else if v == 86 {
            "TOO_LONG_EXPIRY_INTERVAL"
        } else if v == 87 {
            "TOO_LONG_PING_TIMEOUT"
        } else if v == 85 {
            "TOO_MANY_DATA_FILTERS"
        } else if v == 81 {
            "TOO_MANY_DATA_ID_ALIASES"
        } else if v == 84 {
            "TOO_MANY_DOWNSTREAM_FILTERS"
        } else if v == 82 {
            "TOO_MANY_STREAMS"
        } else if v == 88 {
            "TOO_SHORT_PING_INTERVAL"
        } else if v == 89 {
            "TOO_SHORT_PING_TIMEOUT"
        } else {
            "UNSPECIFIED_ERROR"
        };
        proof {
            reveal_strlit("ACK_TIMEOUT");
            reveal_strlit("AUTH_FAILED");
            reveal_strlit("CONNECT_TIMEOUT");
            reveal_strlit("DESIRED_QOS_NOT_SUPPORTED");
            reveal_strlit("INCOMPATIBLE_VERSION");
            reveal_strlit("INVALID_DATA_FILTER");
            reveal_strlit("INVALID_DATA_ID");
            reveal_strlit("INVALID_DATA_ID_ALIAS");
            reveal_strlit("INVALID_PAYLOAD");
            reveal_strlit("MALFORMED_MESSAGE");
            reveal_strlit("MAXIMUM_DATA_ID_ALIAS");
            reveal_strlit("MAXIMUM_UPSTREAM_ALIAS");
            reveal_strlit("NO_NODE_ID");
            reveal_strlit("NODE_ID_MISMATCH");
            reveal_strlit("PING_TIMEOUT");
            reveal_strlit("PROCESS_FAILED");
            reveal_strlit("PROTOCOL_ERROR");
            reveal_strlit("RATE_LIMIT_REACHED");
            reveal_strlit("RESUME_REQUEST_CONFLICT");
            reveal_strlit("SESSION_ALREADY_CLOSED");
            reveal_strlit("SESSION_CANNOT_CLOSED");
            reveal_strlit("SESSION_NOT_FOUND");
            reveal_strlit("STREAM_NOT_FOUND");
            reveal_strlit("SUCCEEDED");
            reveal_strlit("TOO_LARGE_MESSAGE_SIZE");
            reveal_strlit("TOO_LONG_ACK_INTERVAL");
            reveal_strlit("TOO_LONG_EXPIRY_INTERVAL");
            reveal_strlit("TOO_LONG_PING_TIMEOUT");
            reveal_strlit("TOO_MANY_DATA_FILTERS");
            reveal_strlit("TOO_MANY_DATA_ID_ALIASES");
            reveal_strlit("TOO_MANY_DOWNSTREAM_FILTERS");
            reveal_strlit("TOO_MANY_STREAMS");
            reveal_strlit("TOO_SHORT_PING_INTERVAL");
            reveal_strlit("TOO_SHORT_PING_TIMEOUT");
            reveal_strlit("UNSPECIFIED_ERROR");
        }
        r
    }

    /// The value named `value` in the protocol definition; `None` for any other text.
    pub fn from_str_name(value: &str) -> (r: Option<ResultCode>)
        ensures
            r == result_code_of_name(value@),
    {
        match code_value_of_name_exec(value) {
            Some(v) => ResultCode::from_i32(v),
            None => None,
        }
    }

    /// Whether this code reports success.
    pub fn is_succeeded(&self) -> (r: bool)
        ensures
            r == (*self == Succeeded),
    {
        *self == Succeeded
    }
}

/// Reading a QoS back from its wire value gives the same QoS.
pub broadcast proof fn lemma_qos_value_roundtrip(q: QoS)
    ensures
        #[trigger] qos_of_value(qos_value(q)) == Some(q),
{
}

/// Reading a result code back from its wire value gives the same code.
pub broadcast proof fn lemma_result_code_value_roundtrip(c: ResultCode)
    ensures
        #[trigger] result_code_of_value(result_code_value(c)) == Some(c),
{
}

/// A wire value that names a result code is that code's value.
pub proof fn lemma_result_code_of_value_inverse(v: i32)
    ensures
        result_code_of_value(v) matches Some(c) ==> result_code_value(c) == v,
{
}
/// The lengths of the QoS names, and a character that tells apart two names of one length.
proof fn lemma_qos_name_facts()
    ensures
        "PARTIAL"@.len() == 7,
        "RELIABLE"@.len() == 8,
        "UNRELIABLE"@.len() == 10,
{
    reveal_strlit("PARTIAL");
    reveal_strlit("RELIABLE");
    reveal_strlit("UNRELIABLE");
}

/// The lengths of the result code names, and a character that tells apart two names of one length.
proof fn lemma_result_code_name_facts()
    ensures
        "ACK_TIMEOUT"@.len() == 11,
        "AUTH_FAILED"@.len() == 11,
        "CONNECT_TIMEOUT"@.len() == 15,
        "DESIRED_QOS_NOT_SUPPORTED"@.len() == 25,
        "INCOMPATIBLE_VERSION"@.len() == 20,
        "INVALID_DATA_FILTER"@.len() == 19,
        "INVALID_DATA_ID"@.len() == 15,
        "INVALID_DATA_ID_ALIAS"@.len() == 21,
        "INVALID_PAYLOAD"@.len() == 15,
        "MALFORMED_MESSAGE"@.len() == 17,
        "MAXIMUM_DATA_ID_ALIAS"@.len() == 21,
        "MAXIMUM_UPSTREAM_ALIAS"@.len() == 22,
        "NO_NODE_ID"@.len() == 10,
        "NODE_ID_MISMATCH"@.len() == 16,
        "PING_TIMEOUT"@.len() == 12,
        "PROCESS_FAILED"@.len() == 14,
        "PROTOCOL_ERROR"@.len() == 14,
        "RATE_LIMIT_REACHED"@.len() == 18,
        "RESUME_REQUEST_CONFLICT"@.len() == 23,
        "SESSION_ALREADY_CLOSED"@.len() == 22,
        "SESSION_CANNOT_CLOSED"@.len() == 21,
        "SESSION_NOT_FOUND"@.len() == 17,
        "STREAM_NOT_FOUND"@.len() == 16,
        "SUCCEEDED"@.len() == 9,
        "TOO_LARGE_MESSAGE_SIZE"@.len() == 22,
        "TOO_LONG_ACK_INTERVAL"@.len() == 21,
        "TOO_LONG_EXPIRY_INTERVAL"@.len() == 24,
        "TOO_LONG_PING_TIMEOUT"@.len() == 21,
        "TOO_MANY_DATA_FILTERS"@.len() == 21,
        "TOO_MANY_DATA_ID_ALIASES"@.len() == 24,
        "TOO_MANY_DOWNSTREAM_FILTERS"@.len() == 27,
        "TOO_MANY_STREAMS"@.len() == 16,
        "TOO_SHORT_PING_INTERVAL"@.len() == 23,
        "TOO_SHORT_PING_TIMEOUT"@.len() == 22,
        "UNSPECIFIED_ERROR"@.len() == 17,
        "AUTH_FAILED"@[1] == 'U' && "ACK_TIMEOUT"@[1] == 'C',
        "INVALID_DATA_ID"@[0] == 'I' && "CONNECT_TIMEOUT"@[0] == 'C',
        "INVALID_PAYLOAD"@[0] == 'I' && "CONNECT_TIMEOUT"@[0] == 'C',
        "INVALID_PAYLOAD"@[8] == 'P' && "INVALID_DATA_ID"@[8] == 'D',
        "MAXIMUM_DATA_ID_ALIAS"@[0] == 'M' && "INVALID_DATA_ID_ALIAS"@[0] == 'I',
        "PROTOCOL_ERROR"@[3] == 'T' && "PROCESS_FAILED"@[3] == 'C',
        "SESSION_ALREADY_CLOSED"@[0] == 'S' && "MAXIMUM_UPSTREAM_ALIAS"@[0] == 'M',
        "SESSION_CANNOT_CLOSED"@[0] == 'S' && "INVALID_DATA_ID_ALIAS"@[0] == 'I',
        "SESSION_CANNOT_CLOSED"@[0] == 'S' && "MAXIMUM_DATA_ID_ALIAS"@[0] == 'M',
        "SESSION_NOT_FOUND"@[0] == 'S' && "MALFORMED_MESSAGE"@[0] == 'M',
        "STREAM_NOT_FOUND"@[0] == 'S' && "NODE_ID_MISMATCH"@[0] == 'N',
        "TOO_LARGE_MESSAGE_SIZE"@[0] == 'T' && "MAXIMUM_UPSTREAM_ALIAS"@[0] == 'M',
        "TOO_LARGE_MESSAGE_SIZE"@[0] == 'T' && "SESSION_ALREADY_CLOSED"@[0] == 'S',
        "TOO_LONG_ACK_INTERVAL"@[0] == 'T' && "INVALID_DATA_ID_ALIAS"@[0] == 'I',
        "TOO_LONG_ACK_INTERVAL"@[0] == 'T' && "MAXIMUM_DATA_ID_ALIAS"@[0] == 'M',
        "TOO_LONG_ACK_INTERVAL"@[0] == 'T' && "SESSION_CANNOT_CLOSED"@[0] == 'S',
        "TOO_LONG_PING_TIMEOUT"@[0] == 'T' && "INVALID_DATA_ID_ALIAS"@[0] == 'I',
        "TOO_LONG_PING_TIMEOUT"@[0] == 'T' && "MAXIMUM_DATA_ID_ALIAS"@[0] == 'M',
        "TOO_LONG_PING_TIMEOUT"@[0] == 'T' && "SESSION_CANNOT_CLOSED"@[0] == 'S',
        "TOO_LONG_PING_TIMEOUT"@[9] == 'P' && "TOO_LONG_ACK_INTERVAL"@[9] == 'A',
        "TOO_MANY_DATA_FILTERS"@[0] == 'T' && "INVALID_DATA_ID_ALIAS"@[0] == 'I',
        "TOO_MANY_DATA_FILTERS"@[0] == 'T' && "MAXIMUM_DATA_ID_ALIAS"@[0] == 'M',
        "TOO_MANY_DATA_FILTERS"@[0] == 'T' && "SESSION_CANNOT_CLOSED"@[0] == 'S',
        "TOO_MANY_DATA_FILTERS"@[4] == 'M' && "TOO_LONG_ACK_INTERVAL"@[4] == 'L',
        "TOO_MANY_DATA_FILTERS"@[4] == 'M' && "TOO_LONG_PING_TIMEOUT"@[4] == 'L',
        "TOO_MANY_DATA_ID_ALIASES"@[4] == 'M' && "TOO_LONG_EXPIRY_INTERVAL"@[4] == 'L',
        "TOO_MANY_STREAMS"@[0] == 'T' && "NODE_ID_MISMATCH"@[0] == 'N',
        "TOO_MANY_STREAMS"@[0] == 'T' && "STREAM_NOT_FOUND"@[0] == 'S',
        "TOO_SHORT_PING_INTERVAL"@[0] == 'T' && "RESUME_REQUEST_CONFLICT"@[0] == 'R',
        "TOO_SHORT_PING_TIMEOUT"@[0] == 'T' && "MAXIMUM_UPSTREAM_ALIAS"@[0] == 'M',
        "TOO_SHORT_PING_TIMEOUT"@[0] == 'T' && "SESSION_ALREADY_CLOSED"@[0] == 'S',
        "TOO_SHORT_PING_TIMEOUT"@[4] == 'S' && "TOO_LARGE_MESSAGE_SIZE"@[4] == 'L',
        "UNSPECIFIED_ERROR"@[0] == 'U' && "MALFORMED_MESSAGE"@[0] == 'M',
        "UNSPECIFIED_ERROR"@[0] == 'U' && "SESSION_NOT_FOUND"@[0] == 'S',
{
    reveal_strlit("ACK_TIMEOUT");
    reveal_strlit("AUTH_FAILED");
    reveal_strlit("CONNECT_TIMEOUT");
    reveal_strlit("DESIRED_QOS_NOT_SUPPORTED");
    reveal_strlit("INCOMPATIBLE_VERSION");
    reveal_strlit("INVALID_DATA_FILTER");
    reveal_strlit("INVALID_DATA_ID");
    reveal_strlit("INVALID_DATA_ID_ALIAS");
    reveal_strlit("INVALID_PAYLOAD");
    reveal_strlit("MALFORMED_MESSAGE");
    reveal_strlit("MAXIMUM_DATA_ID_ALIAS");
    reveal_strlit("MAXIMUM_UPSTREAM_ALIAS");
    reveal_strlit("NO_NODE_ID");
    reveal_strlit("NODE_ID_MISMATCH");
    reveal_strlit("PING_TIMEOUT");
    reveal_strlit("PROCESS_FAILED");
    reveal_strlit("PROTOCOL_ERROR");
    reveal_strlit("RATE_LIMIT_REACHED");
    reveal_strlit("RESUME_REQUEST_CONFLICT");
    reveal_strlit("SESSION_ALREADY_CLOSED");
    reveal_strlit("SESSION_CANNOT_CLOSED");
    reveal_strlit("SESSION_NOT_FOUND");
    reveal_strlit("STREAM_NOT_FOUND");
    reveal_strlit("SUCCEEDED");
    reveal_strlit("TOO_LARGE_MESSAGE_SIZE");
    reveal_strlit("TOO_LONG_ACK_INTERVAL");
    reveal_strlit("TOO_LONG_EXPIRY_INTERVAL");
    reveal_strlit("TOO_LONG_PING_TIMEOUT");
    reveal_strlit("TOO_MANY_DATA_FILTERS");
    reveal_strlit("TOO_MANY_DATA_ID_ALIASES");
    reveal_strlit("TOO_MANY_DOWNSTREAM_FILTERS");
    reveal_strlit("TOO_MANY_STREAMS");
    reveal_strlit("TOO_SHORT_PING_INTERVAL");
    reveal_strlit("TOO_SHORT_PING_TIMEOUT");
    reveal_strlit("UNSPECIFIED_ERROR");
}

/// Reading a QoS back from its protocol name gives the same value.
pub proof fn lemma_qos_name_roundtrip(c: QoS)
    ensures
        qos_of_name(qos_name(c)) == Some(c),
{
    lemma_qos_name_facts();
}

/// Reading a result code back from its protocol name gives the same value.
pub proof fn lemma_result_code_name_roundtrip(c: ResultCode)
    ensures
        result_code_of_name(result_code_name(c)) == Some(c),
{
    lemma_result_code_name_facts();
}


/// The wire values and names of the QoS levels are the protocol's: unreliable is 0
/// ("UNRELIABLE"), reliable is 1 ("RELIABLE"), partial is 2 ("PARTIAL"); no other value
/// names a QoS.
pub proof fn lemma_qos_wire_values(q: QoS, v: i32)
    ensures
        qos_value(q) == match q {
            QoS::Unreliable => 0i32,
            QoS::Reliable => 1i32,
            QoS::Partial => 2i32,
        },
        qos_of_value(v) == if v == 0 {
            Some(QoS::Unreliable)
        } else if v == 1 {
            Some(QoS::Reliable)
        } else if v == 2 {
            Some(QoS::Partial)
        } else {
            None
        },
        qos_name(QoS::Unreliable) == "UNRELIABLE"@,
        qos_name(QoS::Reliable) == "RELIABLE"@,
        qos_name(QoS::Partial) == "PARTIAL"@,
{
}

/// The wire values of the result codes are the protocol's.
pub proof fn lemma_result_code_wire_values(c: ResultCode)
    ensures
        result_code_value(c) == match c {
            ResultCode::Succeeded => 0i32,
            ResultCode::IncompatibleVersion => 1i32,
            ResultCode::MaximumDataIdAlias => 2i32,
            ResultCode::MaximumUpstreamAlias => 3i32,
            ResultCode::UnspecifiedError => 64i32,
            ResultCode::NoNodeId => 65i32,
            ResultCode::AuthFailed => 66i32,
            ResultCode::ConnectTimeout => 67i32,
            ResultCode::MalformedMessage => 68i32,
            ResultCode::ProtocolError => 69i32,
            ResultCode::AckTimeout => 70i32,
            ResultCode::InvalidPayload => 71i32,
            ResultCode::InvalidDataId => 72i32,
            ResultCode::InvalidDataIdAlias => 73i32,
            ResultCode::InvalidDataFilter => 74i32,
            ResultCode::StreamNotFound => 75i32,
            ResultCode::ResumeRequestConflict => 76i32,
            ResultCode::ProcessFailed => 77i32,
            ResultCode::DesiredQosNotSupported => 78i32,
            ResultCode::PingTimeout => 79i32,
            ResultCode::TooLargeMessageSize => 80i32,
            ResultCode::TooManyDataIdAliases => 81i32,
            ResultCode::TooManyStreams => 82i32,
            ResultCode::TooLongAckInterval => 83i32,
            ResultCode::TooManyDownstreamFilters => 84i32,
            ResultCode::TooManyDataFilters => 85i32,
            ResultCode::TooLongExpiryInterval => 86i32,
            ResultCode::TooLongPingTimeout => 87i32,
            ResultCode::TooShortPingInterval => 88i32,
            ResultCode::TooShortPingTimeout => 89i32,
            ResultCode::RateLimitReached => 90i32,
            ResultCode::NodeIdMismatch => 128i32,
            ResultCode::SessionNotFound => 129i32,
            ResultCode::SessionAlreadyClosed => 130i32,
            ResultCode::SessionCannotClosed => 131i32,
        },
{
}

/// The names of the result codes are the protocol's.
pub proof fn lemma_result_code_names(c: ResultCode)
    ensures
        result_code_name(c) == match c {
            ResultCode::Succeeded => "SUCCEEDED"@,
            ResultCode::IncompatibleVersion => "INCOMPATIBLE_VERSION"@,
            ResultCode::MaximumDataIdAlias => "MAXIMUM_DATA_ID_ALIAS"@,
            ResultCode::MaximumUpstreamAlias => "MAXIMUM_UPSTREAM_ALIAS"@,
            ResultCode::UnspecifiedError => "UNSPECIFIED_ERROR"@,
            ResultCode::NoNodeId => "NO_NODE_ID"@,
            ResultCode::AuthFailed => "AUTH_FAILED"@,
            ResultCode::ConnectTimeout => "CONNECT_TIMEOUT"@,
            ResultCode::MalformedMessage => "MALFORMED_MESSAGE"@,
            ResultCode::ProtocolError => "PROTOCOL_ERROR"@,
            ResultCode::AckTimeout => "ACK_TIMEOUT"@,
            ResultCode::InvalidPayload => "INVALID_PAYLOAD"@,
            ResultCode::InvalidDataId => "INVALID_DATA_ID"@,
            ResultCode::InvalidDataIdAlias => "INVALID_DATA_ID_ALIAS"@,
            ResultCode::InvalidDataFilter => "INVALID_DATA_FILTER"@,
            ResultCode::StreamNotFound => "STREAM_NOT_FOUND"@,
            ResultCode::ResumeRequestConflict => "RESUME_REQUEST_CONFLICT"@,
            ResultCode::ProcessFailed => "PROCESS_FAILED"@,
            ResultCode::DesiredQosNotSupported => "DESIRED_QOS_NOT_SUPPORTED"@,
            ResultCode::PingTimeout => "PING_TIMEOUT"@,
            ResultCode::TooLargeMessageSize => "TOO_LARGE_MESSAGE_SIZE"@,
            ResultCode::TooManyDataIdAliases => "TOO_MANY_DATA_ID_ALIASES"@,
            ResultCode::TooManyStreams => "TOO_MANY_STREAMS"@,
            ResultCode::TooLongAckInterval => "TOO_LONG_ACK_INTERVAL"@,
            ResultCode::TooManyDownstreamFilters => "TOO_MANY_DOWNSTREAM_FILTERS"@,
            ResultCode::TooManyDataFilters => "TOO_MANY_DATA_FILTERS"@,
            ResultCode::TooLongExpiryInterval => "TOO_LONG_EXPIRY_INTERVAL"@,
            ResultCode::TooLongPingTimeout => "TOO_LONG_PING_TIMEOUT"@,
            ResultCode::TooShortPingInterval => "TOO_SHORT_PING_INTERVAL"@,
            ResultCode::TooShortPingTimeout => "TOO_SHORT_PING_TIMEOUT"@,
            ResultCode::RateLimitReached => "RATE_LIMIT_REACHED"@,
            ResultCode::NodeIdMismatch => "NODE_ID_MISMATCH"@,
            ResultCode::SessionNotFound => "SESSION_NOT_FOUND"@,
            ResultCode::SessionAlreadyClosed => "SESSION_ALREADY_CLOSED"@,
            ResultCode::SessionCannotClosed => "SESSION_CANNOT_CLOSED"@,
        },
{
}

} // verus!
