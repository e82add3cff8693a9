//! Metadata that nodes send and receive.

use vstd::prelude::*;

use crate::autogen;
use crate::codes::{qos_of_value, QoS};
use crate::data_id::{clone_filters, filters_view, DownstreamFilter};
use crate::duration::Duration;
use crate::error::Error;
use crate::iscp::misc::{be_value, from_qos_i32, parse_stream_id, unix_epoch_to_system_time};

verus! {

/// The base time of a session.
#[derive(Debug, PartialEq, Eq)]
pub struct BaseTime {
    pub session_id: String,
    pub name: String,
    pub priority: u32,
    /// The time since the base time.
    pub elapsed_time: Duration,
    /// The base time, in nanoseconds since the unix epoch.
    pub base_time: u64,
}

/// An upstream opened.
#[derive(Debug, PartialEq, Eq)]
pub struct UpstreamOpen {
    pub stream_id: u128,
    pub session_id: String,
    pub qos: QoS,
}

/// An upstream closed abnormally.
#[derive(Debug, PartialEq, Eq)]
pub struct UpstreamAbnormalClose {
    pub stream_id: u128,
    pub session_id: String,
}

/// An upstream resumed.
#[derive(Debug, PartialEq, Eq)]
pub struct UpstreamResume {
    pub stream_id: u128,
    pub session_id: String,
    pub qos: QoS,
}

/// An upstream closed normally.
#[derive(Debug, PartialEq, Eq)]
pub struct UpstreamNormalClose {
    pub stream_id: u128,
    pub session_id: String,
    pub total_data_points: u64,
    pub final_sequence_number: u32,
}

/// A downstream opened.
#[derive(Debug, PartialEq, Eq)]
pub struct DownstreamOpen {
    pub stream_id: u128,
    pub downstream_filters: Vec<DownstreamFilter>,
    pub qos: QoS,
}

/// A downstream closed abnormally.
#[derive(Debug, PartialEq, Eq)]
pub struct DownstreamAbnormalClose {
    pub stream_id: u128,
}

/// A downstream resumed.
#[derive(Debug, PartialEq, Eq)]
pub struct DownstreamResume {
    pub stream_id: u128,
    pub downstream_filters: Vec<DownstreamFilter>,
    pub qos: QoS,
}

/// A downstream closed normally.
#[derive(Debug, PartialEq, Eq)]
pub struct DownstreamNormalClose {
    pub stream_id: u128,
}

/// Metadata that a node sends.
#[derive(Debug, PartialEq, Eq)]
pub enum SendableMetadata {
    BaseTime(BaseTime),
}

/// Metadata that a node receives.
#[derive(Debug, PartialEq, Eq)]
pub enum ReceivableMetadata {
    BaseTime(BaseTime),
    UpstreamOpen(UpstreamOpen),
    UpstreamAbnormalClose(UpstreamAbnormalClose),
    UpstreamResume(UpstreamResume),
    UpstreamNormalClose(UpstreamNormalClose),
    DownstreamOpen(DownstreamOpen),
    DownstreamAbnormalClose(DownstreamAbnormalClose),
    DownstreamResume(DownstreamResume),
    DownstreamNormalClose(DownstreamNormalClose),
}

/// Whether wire bytes are a stream id.
pub open spec fn is_stream_id(b: Seq<u8>) -> bool {
    b.len() == 16
}

/// Whether received wire metadata can be read: its stream id is 16 bytes, its QoS is known,
/// its base time is not before the epoch.
pub open spec fn readable(m: autogen::DownstreamMetadataContent) -> bool {
    match m {
        autogen::DownstreamMetadataContent::BaseTime(b) => b.base_time >= 0,
        autogen::DownstreamMetadataContent::UpstreamOpen(u) => is_stream_id(u.stream_id@)
            && qos_of_value(u.qos) is Some,
        autogen::DownstreamMetadataContent::UpstreamAbnormalClose(u) => is_stream_id(u.stream_id@),
        autogen::DownstreamMetadataContent::UpstreamResume(u) => is_stream_id(u.stream_id@)
            && qos_of_value(u.qos) is Some,
        autogen::DownstreamMetadataContent::UpstreamNormalClose(u) => is_stream_id(u.stream_id@),
        autogen::DownstreamMetadataContent::DownstreamOpen(d) => is_stream_id(d.stream_id@)
            && qos_of_value(d.qos) is Some,
        autogen::DownstreamMetadataContent::DownstreamAbnormalClose(d) => is_stream_id(
            d.stream_id@,
        ),
        autogen::DownstreamMetadataContent::DownstreamResume(d) => is_stream_id(d.stream_id@)
            && qos_of_value(d.qos) is Some,
        autogen::DownstreamMetadataContent::DownstreamNormalClose(d) => is_stream_id(
            d.stream_id@,
        ),
    }
}

/// Whether `r` is what received wire metadata `m` reads as: the same kind, the stream id read
/// from its bytes, the QoS from its value, the elapsed time from nanoseconds, the other
/// fields unchanged.
pub open spec fn read_as(m: autogen::DownstreamMetadataContent, r: ReceivableMetadata) -> bool {
    match (m, r) {
        (autogen::DownstreamMetadataContent::BaseTime(b), ReceivableMetadata::BaseTime(x)) => {
            &&& x.session_id@ == b.session_id@
            &&& x.name@ == b.name@
            &&& x.priority == b.priority
            &&& x.elapsed_time.wf() && x.elapsed_time.total_nanos() == b.elapsed_time
            &&& x.base_time == b.base_time
        },
        (
            autogen::DownstreamMetadataContent::UpstreamOpen(u),
            ReceivableMetadata::UpstreamOpen(x),
        ) => {
            &&& x.stream_id == be_value(u.stream_id@)
            &&& x.session_id@ == u.session_id@
            &&& Some(x.qos) == qos_of_value(u.qos)
        },
        (
            autogen::DownstreamMetadataContent::UpstreamAbnormalClose(u),
            ReceivableMetadata::UpstreamAbnormalClose(x),
        ) => {
            &&& x.stream_id == be_value(u.stream_id@)
            &&& x.session_id@ == u.session_id@
        },
        (
            autogen::DownstreamMetadataContent::UpstreamResume(u),
            ReceivableMetadata::UpstreamResume(x),
        ) => {
            &&& x.stream_id == be_value(u.stream_id@)
            &&& x.session_id@ == u.session_id@
            &&& Some(x.qos) == qos_of_value(u.qos)
        },
        (
            autogen::DownstreamMetadataContent::UpstreamNormalClose(u),
            ReceivableMetadata::UpstreamNormalClose(x),
        ) => {
            &&& x.stream_id == be_value(u.stream_id@)
            &&& x.session_id@ == u.session_id@
            &&& x.total_data_points == u.total_data_points
            &&& x.final_sequence_number == u.final_sequence_number
        },
        (
            autogen::DownstreamMetadataContent::DownstreamOpen(d),
            ReceivableMetadata::DownstreamOpen(x),
        ) => {
            &&& x.stream_id == be_value(d.stream_id@)
            &&& filters_view(x.downstream_filters@) == filters_view(d.downstream_filters@)
            &&& Some(x.qos) == qos_of_value(d.qos)
        },
        (
            autogen::DownstreamMetadataContent::DownstreamAbnormalClose(d),
            ReceivableMetadata::DownstreamAbnormalClose(x),
        ) => x.stream_id == be_value(d.stream_id@),
        (
            autogen::DownstreamMetadataContent::DownstreamResume(d),
            ReceivableMetadata::DownstreamResume(x),
        ) => {
            &&& x.stream_id == be_value(d.stream_id@)
            &&& filters_view(x.downstream_filters@) == filters_view(d.downstream_filters@)
            &&& Some(x.qos) == qos_of_value(d.qos)
        },
        (
            autogen::DownstreamMetadataContent::DownstreamNormalClose(d),
            ReceivableMetadata::DownstreamNormalClose(x),
        ) => x.stream_id == be_value(d.stream_id@),
        _ => false,
    }
}

impl ReceivableMetadata {
    /// Reads received wire metadata; metadata that cannot be read is refused.
    pub fn from_prost(metadata: &autogen::DownstreamMetadataContent) -> (r: Result<
        ReceivableMetadata,
        Error,
    >)
        ensures
            r is Ok <==> readable(*metadata),
            r matches Ok(x) ==> read_as(*metadata, x),
            r matches Err(e) ==> e is InvalidValue,
    {
        match metadata {
            autogen::DownstreamMetadataContent::BaseTime(m) => {
                let base_time = match unix_epoch_to_system_time(m.base_time) {
                    Ok(t) => t,
                    Err(e) => {
                        return Err(e);
                    },
                };
                Ok(
                    ReceivableMetadata::BaseTime(
                        BaseTime {
                            session_id: m.session_id.clone(),
                            name: m.name.clone(),
                            priority: m.priority,
                            elapsed_time: Duration::from_nanos(m.elapsed_time),
                            base_time,
                        },
                    ),
                )
            },
            autogen::DownstreamMetadataContent::UpstreamOpen(m) => {
                let stream_id = match parse_stream_id(m.stream_id.as_slice()) {
                    Ok(s) => s,
                    Err(e) => {
                        return Err(e);
                    },
                };
                let qos = match from_qos_i32(m.qos) {
                    Ok(q) => q,
                    Err(e) => {
                        return Err(e);
                    },
                };
                Ok(
                    ReceivableMetadata::UpstreamOpen(
                        UpstreamOpen { stream_id, session_id: m.session_id.clone(), qos },
                    ),
                )
            },
            autogen::DownstreamMetadataContent::UpstreamAbnormalClose(m) => {
                let stream_id = match parse_stream_id(m.stream_id.as_slice()) {
                    Ok(s) => s,
                    Err(e) => {
                        return Err(e);
                    },
                };
                Ok(
                    ReceivableMetadata::UpstreamAbnormalClose(
                        UpstreamAbnormalClose { stream_id, session_id: m.session_id.clone() },
                    ),
                )
            },
            autogen::DownstreamMetadataContent::UpstreamResume(m) => {
                let stream_id = match parse_stream_id(m.stream_id.as_slice()) {
                    Ok(s) => s,
                    Err(e) => {
                        return Err(e);
                    },
                };
                let qos = match from_qos_i32(m.qos) {
                    Ok(q) => q,
                    Err(e) => {
                        return Err(e);
                    },
                };
                Ok(
                    ReceivableMetadata::UpstreamResume(
                        UpstreamResume { stream_id, session_id: m.session_id.clone(), qos },
                    ),
                )
            },
            autogen::DownstreamMetadataContent::UpstreamNormalClose(m) => {
                let stream_id = match parse_stream_id(m.stream_id.as_slice()) {
                    Ok(s) => s,
                    Err(e) => {
                        return Err(e);
                    },
                };
                Ok(
                    ReceivableMetadata::UpstreamNormalClose(
                        UpstreamNormalClose {
                            stream_id,
                            session_id: m.session_id.clone(),
                            total_data_points: m.total_data_points,
                            final_sequence_number: m.final_sequence_number,
                        },
                    ),
                )
            },
            autogen::DownstreamMetadataContent::DownstreamOpen(m) => {
                let stream_id = match parse_stream_id(m.stream_id.as_slice()) {
                    Ok(s) => s,
                    Err(e) => {
                        return Err(e);
                    },
                };
                let qos = match from_qos_i32(m.qos) {
                    Ok(q) => q,
                    Err(e) => {
                        return Err(e);
                    },
                };
                Ok(
                    ReceivableMetadata::DownstreamOpen(
                        DownstreamOpen {
                            stream_id,
                            downstream_filters: clone_filters(&m.downstream_filters),
                            qos,
                        },
                    ),
                )
            },
            autogen::DownstreamMetadataContent::DownstreamAbnormalClose(m) => {
                let stream_id = match parse_stream_id(m.stream_id.as_slice()) {
                    Ok(s) => s,
                    Err(e) => {
                        return Err(e);
                    },
                };
                Ok(ReceivableMetadata::DownstreamAbnormalClose(DownstreamAbnormalClose { stream_id }))
            },
            autogen::DownstreamMetadataContent::DownstreamResume(m) => {
                let stream_id = match parse_stream_id(m.stream_id.as_slice()) {
                    Ok(s) => s,
                    Err(e) => {
                        return Err(e);
                    },
                };
                let qos = match from_qos_i32(m.qos) {
                    Ok(q) => q,
                    Err(e) => {
                        return Err(e);
                    },
                };
                Ok(
                    ReceivableMetadata::DownstreamResume(
                        DownstreamResume {
                            stream_id,
                            downstream_filters: clone_filters(&m.downstream_filters),
                            qos,
                        },
                    ),
                )
            },
            autogen::DownstreamMetadataContent::DownstreamNormalClose(m) => {
                let stream_id = match parse_stream_id(m.stream_id.as_slice()) {
                    Ok(s) => s,
                    Err(e) => {
                        return Err(e);
                    },
                };
                Ok(ReceivableMetadata::DownstreamNormalClose(DownstreamNormalClose { stream_id }))
            },
        }
    }
}

/// Base time reads back unchanged: the wire base time that sending `b` produces, once
/// received, reads as a base time equal to `b` field for field.
pub proof fn lemma_base_time_roundtrip(b: BaseTime, w: autogen::BaseTime, x: ReceivableMetadata)
    requires
        b.elapsed_time.wf(),
        w.session_id == b.session_id,
        w.name == b.name,
        w.priority == b.priority,
        w.elapsed_time == b.elapsed_time.total_nanos(),
        w.base_time == b.base_time,
        read_as(autogen::DownstreamMetadataContent::BaseTime(w), x),
    ensures
        readable(autogen::DownstreamMetadataContent::BaseTime(w)),
        x matches ReceivableMetadata::BaseTime(y) && y.session_id@ == b.session_id@ && y.name@
            == b.name@ && y.priority == b.priority && y.elapsed_time == b.elapsed_time
            && y.base_time == b.base_time,
{
    if let ReceivableMetadata::BaseTime(y) = x {
        Duration::lemma_same_length_same_duration(y.elapsed_time, b.elapsed_time);
    }
}

/// The wire request that sends metadata: the elapsed time in nanoseconds must fit in a `u64`
/// and the base time in nanoseconds since the epoch in an `i64`, else the metadata is
/// refused; when `persist` is given, it goes along in the extension fields.
pub fn convert_to_upstream_metadata(metadata: SendableMetadata, persist: Option<bool>) -> (r:
    Result<autogen::UpstreamMetadata, Error>)
    ensures
        ({
            let SendableMetadata::BaseTime(b) = metadata;
            &&& r is Ok <==> (b.elapsed_time.total_nanos() <= u64::MAX && b.base_time <= i64::MAX)
            &&& r matches Err(e) ==> e is InvalidValue
            &&& r matches Ok(req) ==> {
                &&& req.request_id == 0
                &&& req.metadata matches Some(autogen::UpstreamMetadataContent::BaseTime(w)) && w.session_id
                    == b.session_id && w.name == b.name && w.priority == b.priority && w.elapsed_time
                    == b.elapsed_time.total_nanos() && w.base_time == b.base_time
                &&& req.extension_fields == match persist {
                    Some(p) => Some(autogen::UpstreamMetadataExtensionFields { persist: p }),
                    None => None,
                }
            }
        }),
{
    let SendableMetadata::BaseTime(base_time) = metadata;
    let elapsed = base_time.elapsed_time.as_nanos();
    if elapsed > u64::MAX as u128 {
        return Err(Error::invalid_value("elapsed_time overflow"));
    }
    if base_time.base_time > i64::MAX as u64 {
        return Err(Error::invalid_value("base_time overflow"));
    }
    let extension_fields = match persist {
        Some(p) => Some(autogen::UpstreamMetadataExtensionFields { persist: p }),
        None => None,
    };
    Ok(
        autogen::UpstreamMetadata {
            request_id: 0,
            metadata: Some(
                autogen::UpstreamMetadataContent::BaseTime(
                    autogen::BaseTime {
                        session_id: base_time.session_id,
                        name: base_time.name,
                        priority: base_time.priority,
                        elapsed_time: elapsed as u64,
                        base_time: base_time.base_time as i64,
                    },
                ),
            ),
            extension_fields,
        },
    )
}


/// Reading received metadata keeps its kind and its values field for field: an upstream's
/// normal close keeps its number of data points and its final sequence number, a base time
/// its session, name, priority, elapsed time and time, and every notice the stream id that
/// its 16 bytes hold, its session, and the QoS that its value names.
pub proof fn lemma_read_metadata_keeps_fields(m: autogen::DownstreamMetadataContent, x: ReceivableMetadata)
    requires
        read_as(m, x),
    ensures
        match m {
            autogen::DownstreamMetadataContent::BaseTime(b) => x matches ReceivableMetadata::BaseTime(y)
                && y.session_id@ == b.session_id@ && y.name@ == b.name@ && y.priority == b.priority
                && y.elapsed_time.total_nanos() == b.elapsed_time && y.base_time == b.base_time,
            autogen::DownstreamMetadataContent::UpstreamOpen(u) => x matches ReceivableMetadata::UpstreamOpen(y)
                && y.stream_id == be_value(u.stream_id@) && y.session_id@ == u.session_id@
                && qos_of_value(u.qos) == Some(y.qos),
            autogen::DownstreamMetadataContent::UpstreamAbnormalClose(u) => x matches
                ReceivableMetadata::UpstreamAbnormalClose(y) && y.stream_id == be_value(u.stream_id@)
                && y.session_id@ == u.session_id@,
            autogen::DownstreamMetadataContent::UpstreamResume(u) => x matches
                ReceivableMetadata::UpstreamResume(y) && y.stream_id == be_value(u.stream_id@)
                && y.session_id@ == u.session_id@ && qos_of_value(u.qos) == Some(y.qos),
            autogen::DownstreamMetadataContent::UpstreamNormalClose(u) => x matches
                ReceivableMetadata::UpstreamNormalClose(y) && y.stream_id == be_value(u.stream_id@)
                && y.session_id@ == u.session_id@ && y.total_data_points == u.total_data_points
                && y.final_sequence_number == u.final_sequence_number,
            autogen::DownstreamMetadataContent::DownstreamOpen(d) => x matches
                ReceivableMetadata::DownstreamOpen(y) && y.stream_id == be_value(d.stream_id@)
                && filters_view(y.downstream_filters@) == filters_view(d.downstream_filters@)
                && qos_of_value(d.qos) == Some(y.qos),
            autogen::DownstreamMetadataContent::DownstreamAbnormalClose(d) => x matches
                ReceivableMetadata::DownstreamAbnormalClose(y) && y.stream_id == be_value(d.stream_id@),
            autogen::DownstreamMetadataContent::DownstreamResume(d) => x matches
                ReceivableMetadata::DownstreamResume(y) && y.stream_id == be_value(d.stream_id@)
                && filters_view(y.downstream_filters@) == filters_view(d.downstream_filters@)
                && qos_of_value(d.qos) == Some(y.qos),
            autogen::DownstreamMetadataContent::DownstreamNormalClose(d) => x matches
                ReceivableMetadata::DownstreamNormalClose(y) && y.stream_id == be_value(d.stream_id@),
        },
{
}

} // verus!
