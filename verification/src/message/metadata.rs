use vstd::prelude::*;

use crate::autogen;
use crate::autogen::DownstreamMetadataContent as DownContent;
use crate::autogen::UpstreamMetadataContent as UpContent;
use crate::codes::{qos_of_value, qos_value, result_code_of_value, result_code_value, QoS, ResultCode};
use crate::data_id::DownstreamFilter;
use crate::error::Error;
use crate::iscp::misc::{hyphenated, stream_id_to_bytes, uuid_parse, uuid_parsed, uuid_text};
use crate::message::time::{fits_i64, TimeDelta, MIN_TIME_NANOS};
use crate::message::{read_code, read_qos, uuid_or_nil, uuid_read, uuid_written, RequestId};

verus! {

/// The response to metadata sent by a node.
#[derive(Clone, PartialEq, Eq, Debug, Default)]
pub struct UpstreamMetadataAck {
    /// The id of the request this answers.
    pub request_id: RequestId,
    /// The result of the request.
    pub result_code: ResultCode,
    /// The result, in words.
    pub result_string: String,
}

impl UpstreamMetadataAck {
    /// Reads the wire message; its result code must be one the protocol defines.
    pub fn from_proto(p: autogen::UpstreamMetadataAck) -> (r: UpstreamMetadataAck)
        requires
            result_code_of_value(p.result_code) is Some,
        ensures
            r == (UpstreamMetadataAck {
                request_id: RequestId(p.request_id),
                result_code: result_code_of_value(p.result_code)->Some_0,
                result_string: p.result_string,
            }),
    {
        UpstreamMetadataAck {
            request_id: RequestId(p.request_id),
            result_code: read_code(p.result_code),
            result_string: p.result_string,
        }
    }
}

impl From<UpstreamMetadataAck> for autogen::UpstreamMetadataAck {
    /// The wire message.
    fn from(m: UpstreamMetadataAck) -> (r: autogen::UpstreamMetadataAck) {
        autogen::UpstreamMetadataAck {
            request_id: m.request_id.0,
            result_code: m.result_code.to_i32(),
            result_string: m.result_string,
        }
    }
}

impl vstd::std_specs::convert::FromSpecImpl<UpstreamMetadataAck> for autogen::UpstreamMetadataAck {
    open spec fn obeys_from_spec() -> bool {
        true
    }

    open spec fn from_spec(m: UpstreamMetadataAck) -> autogen::UpstreamMetadataAck {
        autogen::UpstreamMetadataAck {
            request_id: m.request_id.0,
            result_code: result_code_value(m.result_code),
            result_string: m.result_string,
        }
    }
}

/// The response of a node to metadata it received.
#[derive(Clone, PartialEq, Eq, Debug, Default)]
pub struct DownstreamMetadataAck {
    /// The id of the request this answers.
    pub request_id: RequestId,
    /// The result of the request.
    pub result_code: ResultCode,
    /// The result, in words.
    pub result_string: String,
}

impl DownstreamMetadataAck {
    /// Reads the wire message; its result code must be one the protocol defines.
    pub fn from_proto(p: autogen::DownstreamMetadataAck) -> (r: DownstreamMetadataAck)
        requires
            result_code_of_value(p.result_code) is Some,
        ensures
            r == (DownstreamMetadataAck {
                request_id: RequestId(p.request_id),
                result_code: result_code_of_value(p.result_code)->Some_0,
                result_string: p.result_string,
            }),
    {
        DownstreamMetadataAck {
            request_id: RequestId(p.request_id),
            result_code: read_code(p.result_code),
            result_string: p.result_string,
        }
    }
}

impl From<DownstreamMetadataAck> for autogen::DownstreamMetadataAck {
    /// The wire message.
    fn from(m: DownstreamMetadataAck) -> (r: autogen::DownstreamMetadataAck) {
        autogen::DownstreamMetadataAck {
            request_id: m.request_id.0,
            result_code: m.result_code.to_i32(),
            result_string: m.result_string,
        }
    }
}

impl vstd::std_specs::convert::FromSpecImpl<DownstreamMetadataAck> for autogen::DownstreamMetadataAck {
    open spec fn obeys_from_spec() -> bool {
        true
    }

    open spec fn from_spec(m: DownstreamMetadataAck) -> autogen::DownstreamMetadataAck {
        autogen::DownstreamMetadataAck {
            request_id: m.request_id.0,
            result_code: result_code_value(m.result_code),
            result_string: m.result_string,
        }
    }
}
/// A base time: the time at which a session's elapsed times start.
#[derive(Clone, PartialEq, Debug)]
pub struct BaseTime {
    /// The session the base time belongs to.
    pub session_id: String,
    /// The name of the base time.
    pub name: String,
    /// The priority of the base time.
    pub priority: u32,
    /// The time elapsed since the start of the session at this base time.
    pub elapsed_time: TimeDelta,
    /// The base time, in nanoseconds since the unix epoch.
    pub base_time: i128,
}

impl Default for BaseTime {
    fn default() -> (r: BaseTime)
        ensures
            r.session_id@ == Seq::<char>::empty(),
            r.name@ == Seq::<char>::empty(),
            r.priority == 0,
            r.elapsed_time.total() == 0,
            r.base_time == MIN_TIME_NANOS,
    {
        BaseTime {
            session_id: String::new(),
            name: String::new(),
            priority: 0,
            elapsed_time: TimeDelta::zero(),
            base_time: MIN_TIME_NANOS,
        }
    }
}

impl BaseTime {
    /// Whether the base time can be written: it fits in an `i64` of nanoseconds.
    pub open spec fn writable(self) -> bool {
        fits_i64(self.base_time as int)
    }

    /// Whether this is what the wire base time reads as: the elapsed nanoseconds are read as
    /// signed.
    pub open spec fn reads(self, p: autogen::BaseTime) -> bool {
        &&& self.session_id@ == p.session_id@
        &&& self.name@ == p.name@
        &&& self.priority == p.priority
        &&& self.elapsed_time.total() == p.elapsed_time as i64
        &&& self.base_time == p.base_time
    }

    /// Whether the wire base time is what this writes as: an elapsed time that does not fit
    /// in an `i64` of nanoseconds is written as zero.
    pub open spec fn writes(self, p: autogen::BaseTime) -> bool {
        &&& p.session_id@ == self.session_id@
        &&& p.name@ == self.name@
        &&& p.priority == self.priority
        &&& p.elapsed_time == if fits_i64(self.elapsed_time.total()) {
            (self.elapsed_time.total() as i64) as u64
        } else {
            0
        }
        &&& p.base_time == self.base_time
    }

    /// Reads the wire base time.
    pub fn from_proto(p: autogen::BaseTime) -> (r: BaseTime)
        ensures
            r.reads(p),
    {
        BaseTime {
            session_id: p.session_id,
            name: p.name,
            priority: p.priority,
            elapsed_time: TimeDelta::nanoseconds(#[verifier::truncate] (p.elapsed_time as i64)),
            base_time: p.base_time as i128,
        }
    }

    /// The wire base time; the base time must fit in an `i64` of nanoseconds.
    pub fn to_proto(self) -> (r: autogen::BaseTime)
        requires
            self.writable(),
        ensures
            self.writes(r),
    {
        let elapsed_time: u64 = match self.elapsed_time.num_nanoseconds() {
            Some(n) => #[verifier::truncate] (n as u64),
            None => 0,
        };
        autogen::BaseTime {
            session_id: self.session_id,
            name: self.name,
            priority: self.priority,
            elapsed_time,
            base_time: self.base_time as i64,
        }
    }
}

/// Metadata: an upstream opened.
#[derive(Clone, PartialEq, Eq, Debug, Default)]
pub struct UpstreamOpen {
    /// The stream id.
    pub stream_id: u128,
    /// The session.
    pub session_id: String,
    /// The quality of service.
    pub qos: QoS,
}

impl UpstreamOpen {
    /// Whether the wire message can be read: its codes are ones the protocol defines.
    pub open spec fn readable(p: autogen::UpstreamOpen) -> bool {
        qos_of_value(p.qos) is Some
    }

    /// Whether this is what the wire message reads as.
    pub open spec fn reads(self, p: autogen::UpstreamOpen) -> bool {
        &&& self.stream_id == uuid_read(p.stream_id@)
        &&& self.session_id@ == p.session_id@
        &&& Some(self.qos) == qos_of_value(p.qos)
    }

    /// Whether the wire message is what this writes as.
    pub open spec fn writes(self, p: autogen::UpstreamOpen) -> bool {
        &&& uuid_written(p.stream_id@, self.stream_id)
        &&& p.session_id@ == self.session_id@
        &&& p.qos == qos_value(self.qos)
    }

    /// Reads the wire message; its codes must be ones the protocol defines.
    pub fn from_proto(p: autogen::UpstreamOpen) -> (r: UpstreamOpen)
        requires
            UpstreamOpen::readable(p),
        ensures
            r.reads(p),
    {
        UpstreamOpen {
            stream_id: uuid_or_nil(p.stream_id.as_slice()),
            session_id: p.session_id,
            qos: read_qos(p.qos),
        }
    }

    /// The wire message.
    pub fn to_proto(self) -> (r: autogen::UpstreamOpen)
        ensures
            self.writes(r),
    {
        autogen::UpstreamOpen {
            stream_id: stream_id_to_bytes(self.stream_id),
            session_id: self.session_id,
            qos: self.qos.to_i32(),
        }
    }
}

/// Metadata: an upstream closed abnormally.
#[derive(Clone, PartialEq, Eq, Debug, Default)]
pub struct UpstreamAbnormalClose {
    /// The stream id.
    pub stream_id: u128,
    /// The session.
    pub session_id: String,
}

impl UpstreamAbnormalClose {
    /// Whether this is what the wire message reads as.
    pub open spec fn reads(self, p: autogen::UpstreamAbnormalClose) -> bool {
        &&& self.stream_id == uuid_read(p.stream_id@)
        &&& self.session_id@ == p.session_id@
    }

    /// Whether the wire message is what this writes as.
    pub open spec fn writes(self, p: autogen::UpstreamAbnormalClose) -> bool {
        &&& uuid_written(p.stream_id@, self.stream_id)
        &&& p.session_id@ == self.session_id@
    }

    /// Reads the wire message.
    pub fn from_proto(p: autogen::UpstreamAbnormalClose) -> (r: UpstreamAbnormalClose)
        ensures
            r.reads(p),
    {
        UpstreamAbnormalClose {
            stream_id: uuid_or_nil(p.stream_id.as_slice()),
            session_id: p.session_id,
        }
    }

    /// The wire message.
    pub fn to_proto(self) -> (r: autogen::UpstreamAbnormalClose)
        ensures
            self.writes(r),
    {
        autogen::UpstreamAbnormalClose {
            stream_id: stream_id_to_bytes(self.stream_id),
            session_id: self.session_id,
        }
    }
}

/// Metadata: an upstream resumed.
#[derive(Clone, PartialEq, Eq, Debug, Default)]
pub struct UpstreamResume {
    /// The stream id.
    pub stream_id: u128,
    /// The session.
    pub session_id: String,
    /// The quality of service.
    pub qos: QoS,
}

impl UpstreamResume {
    /// Whether the wire message can be read: its codes are ones the protocol defines.
    pub open spec fn readable(p: autogen::UpstreamResume) -> bool {
        qos_of_value(p.qos) is Some
    }

    /// Whether this is what the wire message reads as.
    pub open spec fn reads(self, p: autogen::UpstreamResume) -> bool {
        &&& self.stream_id == uuid_read(p.stream_id@)
        &&& self.session_id@ == p.session_id@
        &&& Some(self.qos) == qos_of_value(p.qos)
    }

    /// Whether the wire message is what this writes as.
    pub open spec fn writes(self, p: autogen::UpstreamResume) -> bool {
        &&& uuid_written(p.stream_id@, self.stream_id)
        &&& p.session_id@ == self.session_id@
        &&& p.qos == qos_value(self.qos)
    }

    /// Reads the wire message; its codes must be ones the protocol defines.
    pub fn from_proto(p: autogen::UpstreamResume) -> (r: UpstreamResume)
        requires
            UpstreamResume::readable(p),
        ensures
            r.reads(p),
    {
        UpstreamResume {
            stream_id: uuid_or_nil(p.stream_id.as_slice()),
            session_id: p.session_id,
            qos: read_qos(p.qos),
        }
    }

    /// The wire message.
    pub fn to_proto(self) -> (r: autogen::UpstreamResume)
        ensures
            self.writes(r),
    {
        autogen::UpstreamResume {
            stream_id: stream_id_to_bytes(self.stream_id),
            session_id: self.session_id,
            qos: self.qos.to_i32(),
        }
    }
}

/// Metadata: a downstream opened.
#[derive(Clone, PartialEq, Eq, Debug, Default)]
pub struct DownstreamOpen {
    /// The stream id.
    pub stream_id: u128,
    /// The filters of the downstream.
    pub downstream_filters: Vec<DownstreamFilter>,
    /// The quality of service.
    pub qos: QoS,
}

impl DownstreamOpen {
    /// Whether the wire message can be read: its codes are ones the protocol defines.
    pub open spec fn readable(p: autogen::DownstreamOpen) -> bool {
        qos_of_value(p.qos) is Some
    }

    /// Whether this is what the wire message reads as.
    pub open spec fn reads(self, p: autogen::DownstreamOpen) -> bool {
        &&& self.stream_id == uuid_read(p.stream_id@)
        &&& self.downstream_filters == p.downstream_filters
        &&& Some(self.qos) == qos_of_value(p.qos)
    }

    /// Whether the wire message is what this writes as.
    pub open spec fn writes(self, p: autogen::DownstreamOpen) -> bool {
        &&& uuid_written(p.stream_id@, self.stream_id)
        &&& p.downstream_filters == self.downstream_filters
        &&& p.qos == qos_value(self.qos)
    }

    /// Reads the wire message; its codes must be ones the protocol defines.
    pub fn from_proto(p: autogen::DownstreamOpen) -> (r: DownstreamOpen)
        requires
            DownstreamOpen::readable(p),
        ensures
            r.reads(p),
    {
        DownstreamOpen {
            stream_id: uuid_or_nil(p.stream_id.as_slice()),
            downstream_filters: p.downstream_filters,
            qos: read_qos(p.qos),
        }
    }

    /// The wire message.
    pub fn to_proto(self) -> (r: autogen::DownstreamOpen)
        ensures
            self.writes(r),
    {
        autogen::DownstreamOpen {
            stream_id: stream_id_to_bytes(self.stream_id),
            downstream_filters: self.downstream_filters,
            qos: self.qos.to_i32(),
        }
    }
}

/// Metadata: a downstream closed abnormally.
#[derive(Clone, PartialEq, Eq, Debug, Default)]
pub struct DownstreamAbnormalClose {
    /// The stream id.
    pub stream_id: u128,
}

impl DownstreamAbnormalClose {
    /// Whether this is what the wire message reads as.
    pub open spec fn reads(self, p: autogen::DownstreamAbnormalClose) -> bool {
        &&& self.stream_id == uuid_read(p.stream_id@)
    }

    /// Whether the wire message is what this writes as.
    pub open spec fn writes(self, p: autogen::DownstreamAbnormalClose) -> bool {
        &&& uuid_written(p.stream_id@, self.stream_id)
    }

    /// Reads the wire message.
    pub fn from_proto(p: autogen::DownstreamAbnormalClose) -> (r: DownstreamAbnormalClose)
        ensures
            r.reads(p),
    {
        DownstreamAbnormalClose { stream_id: uuid_or_nil(p.stream_id.as_slice()) }
    }

    /// The wire message.
    pub fn to_proto(self) -> (r: autogen::DownstreamAbnormalClose)
        ensures
            self.writes(r),
    {
        autogen::DownstreamAbnormalClose { stream_id: stream_id_to_bytes(self.stream_id) }
    }
}

/// Metadata: a downstream resumed.
#[derive(Clone, PartialEq, Eq, Debug, Default)]
pub struct DownstreamResume {
    /// The stream id.
    pub stream_id: u128,
    /// The filters of the downstream.
    pub downstream_filters: Vec<DownstreamFilter>,
    /// The quality of service.
    pub qos: QoS,
}

impl DownstreamResume {
    /// Whether the wire message can be read: its codes are ones the protocol defines.
    pub open spec fn readable(p: autogen::DownstreamResume) -> bool {
        qos_of_value(p.qos) is Some
    }

    /// Whether this is what the wire message reads as.
    pub open spec fn reads(self, p: autogen::DownstreamResume) -> bool {
        &&& self.stream_id == uuid_read(p.stream_id@)
        &&& self.downstream_filters == p.downstream_filters
        &&& Some(self.qos) == qos_of_value(p.qos)
    }

    /// Whether the wire message is what this writes as.
    pub open spec fn writes(self, p: autogen::DownstreamResume) -> bool {
        &&& uuid_written(p.stream_id@, self.stream_id)
        &&& p.downstream_filters == self.downstream_filters
        &&& p.qos == qos_value(self.qos)
    }

    /// Reads the wire message; its codes must be ones the protocol defines.
    pub fn from_proto(p: autogen::DownstreamResume) -> (r: DownstreamResume)
        requires
            DownstreamResume::readable(p),
        ensures
            r.reads(p),
    {
        DownstreamResume {
            stream_id: uuid_or_nil(p.stream_id.as_slice()),
            downstream_filters: p.downstream_filters,
            qos: read_qos(p.qos),
        }
    }

    /// The wire message.
    pub fn to_proto(self) -> (r: autogen::DownstreamResume)
        ensures
            self.writes(r),
    {
        autogen::DownstreamResume {
            stream_id: stream_id_to_bytes(self.stream_id),
            downstream_filters: self.downstream_filters,
            qos: self.qos.to_i32(),
        }
    }
}

/// Metadata: a downstream closed normally.
#[derive(Clone, PartialEq, Eq, Debug, Default)]
pub struct DownstreamNormalClose {
    /// The stream id.
    pub stream_id: u128,
}

impl DownstreamNormalClose {
    /// Whether this is what the wire message reads as.
    pub open spec fn reads(self, p: autogen::DownstreamNormalClose) -> bool {
        &&& self.stream_id == uuid_read(p.stream_id@)
    }

    /// Whether the wire message is what this writes as.
    pub open spec fn writes(self, p: autogen::DownstreamNormalClose) -> bool {
        &&& uuid_written(p.stream_id@, self.stream_id)
    }

    /// Reads the wire message.
    pub fn from_proto(p: autogen::DownstreamNormalClose) -> (r: DownstreamNormalClose)
        ensures
            r.reads(p),
    {
        DownstreamNormalClose { stream_id: uuid_or_nil(p.stream_id.as_slice()) }
    }

    /// The wire message.
    pub fn to_proto(self) -> (r: autogen::DownstreamNormalClose)
        ensures
            self.writes(r),
    {
        autogen::DownstreamNormalClose { stream_id: stream_id_to_bytes(self.stream_id) }
    }
}

/// Metadata: an upstream closed normally.
#[derive(Clone, PartialEq, Eq, Debug, Default)]
pub struct UpstreamNormalClose {
    /// The stream id.
    pub stream_id: u128,
    /// The session, as a uuid.
    pub session_id: u128,
    /// The number of data points sent.
    pub total_data_points: u64,
    /// The sequence number of the last chunk.
    pub final_sequence_number: u32,
}

impl UpstreamNormalClose {
    /// Whether this is what the wire message reads as, given what its session text parses
    /// as: a text that is not a uuid reads as the nil uuid.
    pub open spec fn reads_with(self, p: autogen::UpstreamNormalClose, session: Option<u128>) -> bool {
        &&& self.stream_id == uuid_read(p.stream_id@)
        &&& self.session_id == match session {
            Some(v) => v,
            None => 0,
        }
        &&& self.total_data_points == p.total_data_points
        &&& self.final_sequence_number == p.final_sequence_number
    }

    /// Whether this is what the wire message reads as.
    pub open spec fn reads(self, p: autogen::UpstreamNormalClose) -> bool {
        self.reads_with(p, uuid_parsed(p.session_id@))
    }

    /// Whether the wire message is what this writes as: the session as hyphenated text.
    pub open spec fn writes(self, p: autogen::UpstreamNormalClose) -> bool {
        &&& uuid_written(p.stream_id@, self.stream_id)
        &&& p.session_id@ == hyphenated(self.session_id)
        &&& p.total_data_points == self.total_data_points
        &&& p.final_sequence_number == self.final_sequence_number
    }

    /// Reads the wire message, given what its session text parses as.
    pub fn from_proto_with(p: autogen::UpstreamNormalClose, session: Option<u128>) -> (r: UpstreamNormalClose)
        ensures
            r.reads_with(p, session),
    {
        UpstreamNormalClose {
            stream_id: uuid_or_nil(p.stream_id.as_slice()),
            session_id: match session {
                Some(v) => v,
                None => 0,
            },
            total_data_points: p.total_data_points,
            final_sequence_number: p.final_sequence_number,
        }
    }

    /// Reads the wire message.
    pub fn from_proto(p: autogen::UpstreamNormalClose) -> (r: UpstreamNormalClose)
        ensures
            r.reads(p),
    {
        let session = uuid_parse(p.session_id.as_str());
        UpstreamNormalClose::from_proto_with(p, session)
    }

    /// The wire message.
    pub fn to_proto(self) -> (r: autogen::UpstreamNormalClose)
        ensures
            self.writes(r),
    {
        autogen::UpstreamNormalClose {
            stream_id: stream_id_to_bytes(self.stream_id),
            session_id: uuid_text(self.session_id),
            total_data_points: self.total_data_points,
            final_sequence_number: self.final_sequence_number,
        }
    }
}

/// Metadata of any kind.
#[derive(Clone, PartialEq, Debug)]
pub enum Metadata {
    /// A base time.
    BaseTime(BaseTime),
    /// Metadata of a stream event.
    UpstreamOpen(UpstreamOpen),
    /// Metadata of a stream event.
    UpstreamAbnormalClose(UpstreamAbnormalClose),
    /// Metadata of a stream event.
    UpstreamResume(UpstreamResume),
    /// Metadata of a stream event.
    UpstreamNormalClose(UpstreamNormalClose),
    /// Metadata of a stream event.
    DownstreamOpen(DownstreamOpen),
    /// Metadata of a stream event.
    DownstreamAbnormalClose(DownstreamAbnormalClose),
    /// Metadata of a stream event.
    DownstreamResume(DownstreamResume),
    /// Metadata of a stream event.
    DownstreamNormalClose(DownstreamNormalClose),
}

impl Default for Metadata {
    fn default() -> (r: Metadata)
        ensures
            r matches Metadata::BaseTime(b) && b.base_time == MIN_TIME_NANOS && b.priority == 0,
    {
        Metadata::BaseTime(BaseTime::default())
    }
}

/// Metadata that a node can send.
#[derive(Clone, PartialEq, Debug)]
pub enum SendableMetadata {
    /// A base time.
    BaseTime(BaseTime),
}

/// Metadata that a node can receive.
#[derive(Clone, PartialEq, Debug)]
pub enum ReceivableMetadata {
    /// A base time.
    BaseTime(BaseTime),
    /// Metadata of a stream event.
    UpstreamOpen(UpstreamOpen),
    /// Metadata of a stream event.
    UpstreamAbnormalClose(UpstreamAbnormalClose),
    /// Metadata of a stream event.
    UpstreamResume(UpstreamResume),
    /// Metadata of a stream event.
    UpstreamNormalClose(UpstreamNormalClose),
    /// Metadata of a stream event.
    DownstreamOpen(DownstreamOpen),
    /// Metadata of a stream event.
    DownstreamAbnormalClose(DownstreamAbnormalClose),
    /// Metadata of a stream event.
    DownstreamResume(DownstreamResume),
    /// Metadata of a stream event.
    DownstreamNormalClose(DownstreamNormalClose),
}

impl SendableMetadata {
    /// Whether the metadata can be written: a base time fits in an `i64` of nanoseconds.
    pub open spec fn writable(self) -> bool {
        match self {
            SendableMetadata::BaseTime(b) => b.writable(),
        }
    }

    /// Whether this is what the wire metadata reads as.
    pub open spec fn reads(self, p: autogen::UpstreamMetadataContent) -> bool {
        match (self, p) {
            (SendableMetadata::BaseTime(a), UpContent::BaseTime(b)) =>
                a.reads(b),
        }
    }

    /// Whether the wire metadata is what this writes as.
    pub open spec fn writes(self, p: autogen::UpstreamMetadataContent) -> bool {
        match (self, p) {
            (SendableMetadata::BaseTime(a), UpContent::BaseTime(b)) =>
                a.writes(b),
        }
    }

    /// Reads the wire metadata.
    pub fn from_proto(p: autogen::UpstreamMetadataContent) -> (r: SendableMetadata)
        ensures
            r.reads(p),
    {
        match p {
            UpContent::BaseTime(m) =>
                SendableMetadata::BaseTime(BaseTime::from_proto(m)),
        }
    }

    /// The wire metadata; a base time must fit in an `i64` of nanoseconds.
    pub fn to_proto(self) -> (r: autogen::UpstreamMetadataContent)
        requires
            self.writable(),
        ensures
            self.writes(r),
    {
        match self {
            SendableMetadata::BaseTime(m) =>
                UpContent::BaseTime(m.to_proto()),
        }
    }
}

impl ReceivableMetadata {
    /// Whether the wire metadata can be read: its QoS is one the protocol defines.
    pub open spec fn readable(p: autogen::DownstreamMetadataContent) -> bool {
        match p {
            DownContent::UpstreamOpen(m) => UpstreamOpen::readable(m),
            DownContent::UpstreamResume(m) => UpstreamResume::readable(m),
            DownContent::DownstreamOpen(m) => DownstreamOpen::readable(m),
            DownContent::DownstreamResume(m) =>
                DownstreamResume::readable(m),
            _ => true,
        }
    }

    /// Whether the metadata can be written: a base time fits in an `i64` of nanoseconds.
    pub open spec fn writable(self) -> bool {
        match self {
            ReceivableMetadata::BaseTime(b) => b.writable(),
            _ => true,
        }
    }

    /// Whether this is what the wire metadata reads as.
    pub open spec fn reads(self, p: autogen::DownstreamMetadataContent) -> bool {
        match (self, p) {
            (ReceivableMetadata::BaseTime(a), DownContent::BaseTime(b)) =>
                a.reads(b),
            (ReceivableMetadata::UpstreamOpen(a), DownContent::UpstreamOpen(b)) =>
                a.reads(b),
            (ReceivableMetadata::UpstreamAbnormalClose(a), DownContent::UpstreamAbnormalClose(b)) =>
                a.reads(b),
            (ReceivableMetadata::UpstreamResume(a), DownContent::UpstreamResume(b)) =>
                a.reads(b),
            (ReceivableMetadata::UpstreamNormalClose(a), DownContent::UpstreamNormalClose(b)) =>
                a.reads(b),
            (ReceivableMetadata::DownstreamOpen(a), DownContent::DownstreamOpen(b)) =>
                a.reads(b),
            (ReceivableMetadata::DownstreamAbnormalClose(a), DownContent::DownstreamAbnormalClose(b)) =>
                a.reads(b),
            (ReceivableMetadata::DownstreamResume(a), DownContent::DownstreamResume(b)) =>
                a.reads(b),
            (ReceivableMetadata::DownstreamNormalClose(a), DownContent::DownstreamNormalClose(b)) =>
                a.reads(b),
            _ => false,
        }
    }

    /// Whether the wire metadata is what this writes as.
    pub open spec fn writes(self, p: autogen::DownstreamMetadataContent) -> bool {
        match (self, p) {
            (ReceivableMetadata::BaseTime(a), DownContent::BaseTime(b)) =>
                a.writes(b),
            (ReceivableMetadata::UpstreamOpen(a), DownContent::UpstreamOpen(b)) =>
                a.writes(b),
            (ReceivableMetadata::UpstreamAbnormalClose(a), DownContent::UpstreamAbnormalClose(b)) =>
                a.writes(b),
            (ReceivableMetadata::UpstreamResume(a), DownContent::UpstreamResume(b)) =>
                a.writes(b),
            (ReceivableMetadata::UpstreamNormalClose(a), DownContent::UpstreamNormalClose(b)) =>
                a.writes(b),
            (ReceivableMetadata::DownstreamOpen(a), DownContent::DownstreamOpen(b)) =>
                a.writes(b),
            (ReceivableMetadata::DownstreamAbnormalClose(a), DownContent::DownstreamAbnormalClose(b)) =>
                a.writes(b),
            (ReceivableMetadata::DownstreamResume(a), DownContent::DownstreamResume(b)) =>
                a.writes(b),
            (ReceivableMetadata::DownstreamNormalClose(a), DownContent::DownstreamNormalClose(b)) =>
                a.writes(b),
            _ => false,
        }
    }

    /// Reads the wire metadata; its QoS must be one the protocol defines.
    pub fn from_proto(p: autogen::DownstreamMetadataContent) -> (r: ReceivableMetadata)
        requires
            ReceivableMetadata::readable(p),
        ensures
            r.reads(p),
    {
        match p {
            DownContent::BaseTime(m) =>
                ReceivableMetadata::BaseTime(BaseTime::from_proto(m)),
            DownContent::UpstreamOpen(m) =>
                ReceivableMetadata::UpstreamOpen(UpstreamOpen::from_proto(m)),
            DownContent::UpstreamAbnormalClose(m) =>
                ReceivableMetadata::UpstreamAbnormalClose(UpstreamAbnormalClose::from_proto(m)),
            DownContent::UpstreamResume(m) =>
                ReceivableMetadata::UpstreamResume(UpstreamResume::from_proto(m)),
            DownContent::UpstreamNormalClose(m) =>
                ReceivableMetadata::UpstreamNormalClose(UpstreamNormalClose::from_proto(m)),
            DownContent::DownstreamOpen(m) =>
                ReceivableMetadata::DownstreamOpen(DownstreamOpen::from_proto(m)),
            DownContent::DownstreamAbnormalClose(m) =>
                ReceivableMetadata::DownstreamAbnormalClose(DownstreamAbnormalClose::from_proto(m)),
            DownContent::DownstreamResume(m) =>
                ReceivableMetadata::DownstreamResume(DownstreamResume::from_proto(m)),
            DownContent::DownstreamNormalClose(m) =>
                ReceivableMetadata::DownstreamNormalClose(DownstreamNormalClose::from_proto(m)),
        }
    }

    /// The wire metadata; a base time must fit in an `i64` of nanoseconds.
    pub fn to_proto(self) -> (r: autogen::DownstreamMetadataContent)
        requires
            self.writable(),
        ensures
            self.writes(r),
    {
        match self {
            ReceivableMetadata::BaseTime(m) =>
                DownContent::BaseTime(m.to_proto()),
            ReceivableMetadata::UpstreamOpen(m) =>
                DownContent::UpstreamOpen(m.to_proto()),
            ReceivableMetadata::UpstreamAbnormalClose(m) =>
                DownContent::UpstreamAbnormalClose(m.to_proto()),
            ReceivableMetadata::UpstreamResume(m) =>
                DownContent::UpstreamResume(m.to_proto()),
            ReceivableMetadata::UpstreamNormalClose(m) =>
                DownContent::UpstreamNormalClose(m.to_proto()),
            ReceivableMetadata::DownstreamOpen(m) =>
                DownContent::DownstreamOpen(m.to_proto()),
            ReceivableMetadata::DownstreamAbnormalClose(m) =>
                DownContent::DownstreamAbnormalClose(m.to_proto()),
            ReceivableMetadata::DownstreamResume(m) =>
                DownContent::DownstreamResume(m.to_proto()),
            ReceivableMetadata::DownstreamNormalClose(m) =>
                DownContent::DownstreamNormalClose(m.to_proto()),
        }
    }
}

/// Metadata that a node sends.
#[derive(Clone, PartialEq, Debug)]
pub struct UpstreamMetadata {
    /// The request id.
    pub request_id: RequestId,
    /// The metadata.
    pub metadata: SendableMetadata,
    /// Whether the broker stores the metadata.
    pub persist: Option<bool>,
}

impl Default for UpstreamMetadata {
    fn default() -> (r: UpstreamMetadata)
        ensures
            r.request_id == RequestId(0),
            r.metadata matches SendableMetadata::BaseTime(b) && b.base_time == MIN_TIME_NANOS,
            r.persist is None,
    {
        UpstreamMetadata {
            request_id: RequestId(0),
            metadata: SendableMetadata::BaseTime(BaseTime::default()),
            persist: None,
        }
    }
}

impl UpstreamMetadata {
    /// Whether this is what the wire message reads as.
    pub open spec fn reads(self, p: autogen::UpstreamMetadata) -> bool {
        &&& self.request_id == RequestId(p.request_id)
        &&& p.metadata matches Some(m) && self.metadata.reads(m)
        &&& self.persist == match p.extension_fields {
            Some(e) => Some(e.persist),
            None => None,
        }
    }

    /// Whether the wire message is what this writes as.
    pub open spec fn writes(self, p: autogen::UpstreamMetadata) -> bool {
        &&& p.request_id == self.request_id.0
        &&& p.metadata matches Some(m) && self.metadata.writes(m)
        &&& match self.persist {
            Some(b) =>
                p.extension_fields == Some(autogen::UpstreamMetadataExtensionFields { persist: b }),
            None => p.extension_fields is None,
        }
    }

    /// Reads the wire message; one without metadata is refused.
    pub fn try_from_proto(p: autogen::UpstreamMetadata) -> (r: Result<UpstreamMetadata, Error>)
        ensures
            r is Ok <==> p.metadata is Some,
            r matches Ok(m) ==> m.reads(p),
            r matches Err(e) ==> e is Unexpected,
    {
        let metadata = match p.metadata {
            Some(m) => SendableMetadata::from_proto(m),
            None => {
                return Err(Error::unexpected("no upstream metadata"));
            },
        };
        let persist = match p.extension_fields {
            Some(e) => Some(e.persist),
            None => None,
        };
        Ok(UpstreamMetadata { request_id: RequestId(p.request_id), metadata, persist })
    }

    /// The wire message; a base time must fit in an `i64` of nanoseconds.
    pub fn to_proto(self) -> (r: autogen::UpstreamMetadata)
        requires
            self.metadata.writable(),
        ensures
            self.writes(r),
    {
        let extension_fields = match self.persist {
            Some(b) => Some(autogen::UpstreamMetadataExtensionFields { persist: b }),
            None => None,
        };
        autogen::UpstreamMetadata {
            request_id: self.request_id.0,
            metadata: Some(self.metadata.to_proto()),
            extension_fields,
        }
    }
}

/// Metadata that a node receives.
#[derive(Clone, PartialEq, Debug)]
pub struct DownstreamMetadata {
    /// The request id.
    pub request_id: RequestId,
    /// The stream id alias of the downstream.
    pub stream_id_alias: u32,
    /// The node the metadata comes from.
    pub source_node_id: String,
    /// The metadata.
    pub metadata: ReceivableMetadata,
}

impl Default for DownstreamMetadata {
    fn default() -> (r: DownstreamMetadata)
        ensures
            r.request_id == RequestId(0),
            r.stream_id_alias == 0,
            r.source_node_id@ == Seq::<char>::empty(),
            r.metadata matches ReceivableMetadata::BaseTime(b) && b.base_time == MIN_TIME_NANOS,
    {
        DownstreamMetadata {
            request_id: RequestId(0),
            stream_id_alias: 0,
            source_node_id: String::new(),
            metadata: ReceivableMetadata::BaseTime(BaseTime::default()),
        }
    }
}

impl DownstreamMetadata {
    /// Whether the wire message can be read: its metadata, if any, has a QoS the protocol
    /// defines.
    pub open spec fn readable(p: autogen::DownstreamMetadata) -> bool {
        p.metadata matches Some(m) ==> ReceivableMetadata::readable(m)
    }

    /// Whether this is what the wire message reads as.
    pub open spec fn reads(self, p: autogen::DownstreamMetadata) -> bool {
        &&& self.request_id == RequestId(p.request_id)
        &&& self.stream_id_alias == p.stream_id_alias
        &&& self.source_node_id@ == p.source_node_id@
        &&& p.metadata matches Some(m) && self.metadata.reads(m)
    }

    /// Whether the wire message is what this writes as.
    pub open spec fn writes(self, p: autogen::DownstreamMetadata) -> bool {
        &&& p.request_id == self.request_id.0
        &&& p.stream_id_alias == self.stream_id_alias
        &&& p.source_node_id@ == self.source_node_id@
        &&& p.metadata matches Some(m) && self.metadata.writes(m)
    }

    /// Reads the wire message; one without metadata is refused, and the QoS of its metadata
    /// must be one the protocol defines.
    pub fn try_from_proto(p: autogen::DownstreamMetadata) -> (r: Result<DownstreamMetadata, Error>)
        requires
            DownstreamMetadata::readable(p),
        ensures
            r is Ok <==> p.metadata is Some,
            r matches Ok(m) ==> m.reads(p),
            r matches Err(e) ==> e is Unexpected,
    {
        let metadata = match p.metadata {
            Some(m) => ReceivableMetadata::from_proto(m),
            None => {
                return Err(Error::unexpected("no downstream metadata"));
            },
        };
        Ok(
            DownstreamMetadata {
                request_id: RequestId(p.request_id),
                stream_id_alias: p.stream_id_alias,
                source_node_id: p.source_node_id,
                metadata,
            },
        )
    }

    /// The wire message; a base time must fit in an `i64` of nanoseconds.
    pub fn to_proto(self) -> (r: autogen::DownstreamMetadata)
        requires
            self.metadata.writable(),
        ensures
            self.writes(r),
    {
        autogen::DownstreamMetadata {
            request_id: self.request_id.0,
            stream_id_alias: self.stream_id_alias,
            source_node_id: self.source_node_id,
            metadata: Some(self.metadata.to_proto()),
        }
    }
}

impl UpstreamMetadataAck {
    /// Whether the wire message can be read: its codes are ones the protocol defines.
    pub open spec fn readable(p: autogen::UpstreamMetadataAck) -> bool {
        result_code_of_value(p.result_code) is Some
    }

    /// Whether this is what the wire message reads as.
    pub open spec fn reads(self, p: autogen::UpstreamMetadataAck) -> bool {
        &&& self.request_id == RequestId(p.request_id)
        &&& Some(self.result_code) == result_code_of_value(p.result_code)
        &&& self.result_string@ == p.result_string@
    }

    /// Whether the wire message is what this writes as.
    pub open spec fn writes(self, p: autogen::UpstreamMetadataAck) -> bool {
        &&& p.request_id == self.request_id.0
        &&& p.result_code == result_code_value(self.result_code)
        &&& p.result_string@ == self.result_string@
    }
}

impl DownstreamMetadataAck {
    /// Whether the wire message can be read: its codes are ones the protocol defines.
    pub open spec fn readable(p: autogen::DownstreamMetadataAck) -> bool {
        result_code_of_value(p.result_code) is Some
    }

    /// Whether this is what the wire message reads as.
    pub open spec fn reads(self, p: autogen::DownstreamMetadataAck) -> bool {
        &&& self.request_id == RequestId(p.request_id)
        &&& Some(self.result_code) == result_code_of_value(p.result_code)
        &&& self.result_string@ == p.result_string@
    }

    /// Whether the wire message is what this writes as.
    pub open spec fn writes(self, p: autogen::DownstreamMetadataAck) -> bool {
        &&& p.request_id == self.request_id.0
        &&& p.result_code == result_code_value(self.result_code)
        &&& p.result_string@ == self.result_string@
    }
}

impl BaseTime {
    /// Whether the wire carries this base time exactly: its elapsed time fits in an `i64` of
    /// nanoseconds.
    pub open spec fn exact(self) -> bool {
        fits_i64(self.elapsed_time.total())
    }
}

impl SendableMetadata {
    /// Whether the wire carries this metadata exactly.
    pub open spec fn exact(self) -> bool {
        match self {
            SendableMetadata::BaseTime(b) => b.exact(),
        }
    }
}

impl ReceivableMetadata {
    /// Whether the wire carries this metadata exactly, as far as the library shows: a base
    /// time's elapsed time fits in an `i64` of nanoseconds. A normal close is left out: that
    /// its session text parses back is known only where the text is parsed.
    pub open spec fn exact(self) -> bool {
        match self {
            ReceivableMetadata::BaseTime(b) => b.exact(),
            ReceivableMetadata::UpstreamNormalClose(_) => false,
            _ => true,
        }
    }
}

} // verus!
