//! Wire-level message types of the protocol, with plain fields.

use vstd::prelude::*;

use std::collections::HashMap;

pub use crate::codes::{QoS, ResultCode};
pub use crate::data_id::{DataFilter, DataId, DataIdView, DownstreamFilter};

pub mod convert;
pub mod message;
mod private;

verus! {

/// A data point: elapsed time and payload.
#[derive(Debug, PartialEq, Eq, Default)]
pub struct DataPoint {
    pub elapsed_time: i64,
    pub payload: Vec<u8>,
}

impl View for DataPoint {
    type V = (i64, Seq<u8>);

    open spec fn view(&self) -> (i64, Seq<u8>) {
        (self.elapsed_time, self.payload@)
    }
}

impl Clone for DataPoint {
    fn clone(&self) -> (r: Self)
        ensures
            r@ == self@,
    {
        DataPoint { elapsed_time: self.elapsed_time, payload: self.payload.clone() }
    }
}

/// A data id or an alias of one.
#[derive(Debug, PartialEq, Eq, Hash)]
pub enum DataIdOrAlias {
    DataId(DataId),
    DataIdAlias(u32),
}

/// The plain values of a data id or an alias of one.
pub enum DataIdOrAliasView {
    DataId(DataIdView),
    DataIdAlias(u32),
}

impl View for DataIdOrAlias {
    type V = DataIdOrAliasView;

    open spec fn view(&self) -> DataIdOrAliasView {
        match self {
            DataIdOrAlias::DataId(d) => DataIdOrAliasView::DataId(d@),
            DataIdOrAlias::DataIdAlias(a) => DataIdOrAliasView::DataIdAlias(*a),
        }
    }
}

impl Clone for DataIdOrAlias {
    fn clone(&self) -> (r: Self)
        ensures
            r@ == self@,
    {
        match self {
            DataIdOrAlias::DataId(d) => DataIdOrAlias::DataId(d.clone()),
            DataIdOrAlias::DataIdAlias(a) => DataIdOrAlias::DataIdAlias(*a),
        }
    }
}

/// The plain values of a sequence of data points.
pub open spec fn points_view(s: Seq<DataPoint>) -> Seq<(i64, Seq<u8>)> {
    s.map_values(|d: DataPoint| d@)
}

/// The plain values of an optional data id or alias.
pub open spec fn key_view(k: Option<DataIdOrAlias>) -> Option<DataIdOrAliasView> {
    match k {
        Some(x) => Some(x@),
        None => None,
    }
}

/// A copy of data points, with the same plain values.
pub fn clone_points(v: &Vec<DataPoint>) -> (r: Vec<DataPoint>)
    ensures
        points_view(r@) == points_view(v@),
{
    let mut r: Vec<DataPoint> = Vec::new();
    let mut i: usize = 0;
    while i < v.len()
        invariant
            i <= v@.len(),
            r@.len() == i,
            points_view(r@) == points_view(v@.take(i as int)),
        decreases v@.len() - i,
    {
        let ghost r0 = r@;
        let c = v[i].clone();
        r.push(c);
        proof {
            assert(v@.take(i + 1) =~= v@.take(i as int).push(v@[i as int]));
            assert forall|j: int| 0 <= j < i + 1 implies #[trigger] points_view(r@)[j] == points_view(v@.take(i + 1))[j] by {
                if j < i {
                    assert(points_view(r@)[j] == points_view(r0)[j]);
                    assert(points_view(r0)[j] == points_view(v@.take(i as int))[j]);
                }
            }
            assert(points_view(r@) =~= points_view(v@.take(i + 1)));
        }
        i = i + 1;
    }
    assert(v@.take(v@.len() as int) =~= v@);
    r
}

/// The data points of one data id within a stream chunk.
#[derive(Debug, PartialEq, Default)]
pub struct DataPointGroup {
    pub data_points: Vec<DataPoint>,
    pub data_id_or_alias: Option<DataIdOrAlias>,
}

/// The plain values of a data point group.
pub struct DataPointGroupView {
    pub data_points: Seq<(i64, Seq<u8>)>,
    pub data_id_or_alias: Option<DataIdOrAliasView>,
}

impl View for DataPointGroup {
    type V = DataPointGroupView;

    open spec fn view(&self) -> DataPointGroupView {
        DataPointGroupView {
            data_points: points_view(self.data_points@),
            data_id_or_alias: key_view(self.data_id_or_alias),
        }
    }
}

impl Clone for DataPointGroup {
    fn clone(&self) -> (r: Self)
        ensures
            r@ == self@,
    {
        let data_id_or_alias = match &self.data_id_or_alias {
            Some(k) => Some(k.clone()),
            None => None,
        };
        DataPointGroup { data_points: clone_points(&self.data_points), data_id_or_alias }
    }
}

/// The plain values of a sequence of data point groups.
pub open spec fn groups_view(s: Seq<DataPointGroup>) -> Seq<DataPointGroupView> {
    s.map_values(|g: DataPointGroup| g@)
}

/// A chunk of a stream: a sequence number and data point groups.
#[derive(Debug, PartialEq, Default)]
pub struct StreamChunk {
    pub sequence_number: u32,
    pub data_point_groups: Vec<DataPointGroup>,
}

/// The plain values of a stream chunk.
pub struct StreamChunkView {
    pub sequence_number: u32,
    pub data_point_groups: Seq<DataPointGroupView>,
}

impl View for StreamChunk {
    type V = StreamChunkView;

    open spec fn view(&self) -> StreamChunkView {
        StreamChunkView {
            sequence_number: self.sequence_number,
            data_point_groups: groups_view(self.data_point_groups@),
        }
    }
}

impl Clone for StreamChunk {
    fn clone(&self) -> (r: Self)
        ensures
            r@ == self@,
    {
        let v = &self.data_point_groups;
        let mut groups: Vec<DataPointGroup> = Vec::new();
        let mut i: usize = 0;
        while i < v.len()
            invariant
                i <= v@.len(),
                groups@.len() == i,
                groups_view(groups@) == groups_view(v@.take(i as int)),
            decreases v@.len() - i,
        {
            let ghost g0 = groups@;
            let c = v[i].clone();
            groups.push(c);
            proof {
                assert(v@.take(i + 1) =~= v@.take(i as int).push(v@[i as int]));
                assert forall|j: int| 0 <= j < i + 1 implies #[trigger] groups_view(groups@)[j]
                    == groups_view(v@.take(i + 1))[j] by {
                    if j < i {
                        assert(groups_view(groups@)[j] == groups_view(g0)[j]);
                        assert(groups_view(g0)[j] == groups_view(v@.take(i as int))[j]);
                    }
                }
                assert(groups_view(groups@) =~= groups_view(v@.take(i + 1)));
            }
            i = i + 1;
        }
        assert(v@.take(v@.len() as int) =~= v@);
        StreamChunk { sequence_number: self.sequence_number, data_point_groups: groups }
    }
}

/// The plain values of an optional stream chunk.
pub open spec fn stream_chunk_view(c: Option<StreamChunk>) -> Option<StreamChunkView> {
    match c {
        Some(x) => Some(x@),
        None => None,
    }
}

/// Information on an upstream.
#[derive(Clone, Debug, PartialEq, Eq, Default)]
pub struct UpstreamInfo {
    pub session_id: String,
    pub stream_id: Vec<u8>,
    pub source_node_id: String,
}

/// Extension fields of a connect request with the project uuid.
#[derive(Clone, Debug, PartialEq, Eq, Default)]
pub struct IntdashExtensionFields {
    pub project_uuid: String,
}

/// Extension fields of a connect request.
#[derive(Clone, Debug, PartialEq, Eq, Default)]
pub struct ConnectRequestExtensionFields {
    pub access_token: String,
    pub intdash: Option<IntdashExtensionFields>,
}

/// Connect request.
#[derive(Clone, Debug, PartialEq, Eq, Default)]
pub struct ConnectRequest {
    pub request_id: u32,
    pub protocol_version: String,
    pub node_id: String,
    pub ping_interval: u32,
    pub ping_timeout: u32,
    pub extension_fields: Option<ConnectRequestExtensionFields>,
}

/// Response to a connect request.
#[derive(Clone, Debug, PartialEq, Eq, Default)]
pub struct ConnectResponse {
    pub request_id: u32,
    pub protocol_version: String,
    pub result_code: i32,
    pub result_string: String,
}

/// Disconnection of a connection.
#[derive(Clone, Debug, PartialEq, Eq, Default)]
pub struct Disconnect {
    pub result_code: i32,
    pub result_string: String,
}

/// Base time of a session.
#[derive(Clone, Debug, PartialEq, Eq, Default)]
pub struct BaseTime {
    pub session_id: String,
    pub name: String,
    pub priority: u32,
    pub elapsed_time: u64,
    pub base_time: i64,
}

/// Metadata: an upstream opened.
#[derive(Clone, Debug, PartialEq, Eq, Default)]
pub struct UpstreamOpen {
    pub stream_id: Vec<u8>,
    pub session_id: String,
    pub qos: i32,
}

/// Metadata: an upstream closed abnormally.
#[derive(Clone, Debug, PartialEq, Eq, Default)]
pub struct UpstreamAbnormalClose {
    pub stream_id: Vec<u8>,
    pub session_id: String,
}

/// Metadata: an upstream resumed.
#[derive(Clone, Debug, PartialEq, Eq, Default)]
pub struct UpstreamResume {
    pub stream_id: Vec<u8>,
    pub session_id: String,
    pub qos: i32,
}

/// Metadata: an upstream closed normally.
#[derive(Clone, Debug, PartialEq, Eq, Default)]
pub struct UpstreamNormalClose {
    pub stream_id: Vec<u8>,
    pub session_id: String,
    pub total_data_points: u64,
    pub final_sequence_number: u32,
}

/// Metadata: a downstream opened.
#[derive(Clone, Debug, PartialEq, Eq, Default)]
pub struct DownstreamOpen {
    pub stream_id: Vec<u8>,
    pub downstream_filters: Vec<DownstreamFilter>,
    pub qos: i32,
}

/// Metadata: a downstream closed abnormally.
#[derive(Clone, Debug, PartialEq, Eq, Default)]
pub struct DownstreamAbnormalClose {
    pub stream_id: Vec<u8>,
}

/// Metadata: a downstream resumed.
#[derive(Clone, Debug, PartialEq, Eq, Default)]
pub struct DownstreamResume {
    pub stream_id: Vec<u8>,
    pub downstream_filters: Vec<DownstreamFilter>,
    pub qos: i32,
}

/// Metadata: a downstream closed normally.
#[derive(Clone, Debug, PartialEq, Eq, Default)]
pub struct DownstreamNormalClose {
    pub stream_id: Vec<u8>,
}

/// Request to open a downstream.
#[derive(Clone, Debug, PartialEq, Default)]
pub struct DownstreamOpenRequest {
    pub request_id: u32,
    pub desired_stream_id_alias: u32,
    pub downstream_filters: Vec<DownstreamFilter>,
    pub expiry_interval: u32,
    pub data_id_aliases: HashMap<u32, DataId>,
    pub qos: i32,
    pub omit_empty_chunk: bool,
}

/// Response to a request to open a downstream.
#[derive(Clone, Debug, PartialEq, Eq, Default)]
pub struct DownstreamOpenResponse {
    pub request_id: u32,
    pub assigned_stream_id: Vec<u8>,
    pub server_time: i64,
    pub result_code: i32,
    pub result_string: String,
}

/// Request to resume a downstream.
#[derive(Clone, Debug, PartialEq, Eq, Default)]
pub struct DownstreamResumeRequest {
    pub request_id: u32,
    pub stream_id: Vec<u8>,
    pub desired_stream_id_alias: u32,
}

/// Response to a request to resume a downstream.
#[derive(Clone, Debug, PartialEq, Eq, Default)]
pub struct DownstreamResumeResponse {
    pub request_id: u32,
    pub result_code: i32,
    pub result_string: String,
}

/// Request to close a downstream.
#[derive(Clone, Debug, PartialEq, Eq, Default)]
pub struct DownstreamCloseRequest {
    pub request_id: u32,
    pub stream_id: Vec<u8>,
}

/// Response to a request to close a downstream.
#[derive(Clone, Debug, PartialEq, Eq, Default)]
pub struct DownstreamCloseResponse {
    pub request_id: u32,
    pub result_code: i32,
    pub result_string: String,
}

/// Upstream information or an alias of it.
#[derive(Clone, Debug, PartialEq, Eq)]
pub enum UpstreamOrAlias {
    UpstreamInfo(UpstreamInfo),
    UpstreamAlias(u32),
}

/// A chunk of a downstream.
#[derive(Clone, Debug, PartialEq, Default)]
pub struct DownstreamChunk {
    pub stream_id_alias: u32,
    pub stream_chunk: Option<StreamChunk>,
    pub upstream_or_alias: Option<UpstreamOrAlias>,
}

/// Result of processing a downstream chunk.
#[derive(Clone, Debug, PartialEq, Eq, Default)]
pub struct DownstreamChunkResult {
    pub stream_id_of_upstream: Vec<u8>,
    pub sequence_number_in_upstream: u32,
    pub result_code: i32,
    pub result_string: String,
}

/// Acknowledgement of downstream chunks.
#[derive(Clone, Debug, PartialEq, Default)]
pub struct DownstreamChunkAck {
    pub stream_id_alias: u32,
    pub ack_id: u32,
    pub results: Vec<DownstreamChunkResult>,
    pub upstream_aliases: HashMap<u32, UpstreamInfo>,
    pub data_id_aliases: HashMap<u32, DataId>,
}

/// Response to an acknowledgement of downstream chunks.
#[derive(Clone, Debug, PartialEq, Eq, Default)]
pub struct DownstreamChunkAckComplete {
    pub stream_id_alias: u32,
    pub ack_id: u32,
    pub result_code: i32,
    pub result_string: String,
}

/// The metadata that a downstream metadata message carries.
#[derive(Clone, Debug, PartialEq, Eq)]
pub enum DownstreamMetadataContent {
    BaseTime(BaseTime),
    UpstreamOpen(UpstreamOpen),
    UpstreamAbnormalClose(UpstreamAbnormalClose),
    UpstreamResume(UpstreamResume),
    UpstreamNormalClose(UpstreamNormalClose),
    DownstreamOpen(DownstreamOpen),
    DownstreamAbnormalClose(DownstreamAbnormalClose),
    DownstreamResume(DownstreamResume),
    DownstreamNormalClose(DownstreamNormalClose),
}

/// Metadata sent from the broker to a node.
#[derive(Clone, Debug, PartialEq, Eq, Default)]
pub struct DownstreamMetadata {
    pub request_id: u32,
    pub stream_id_alias: u32,
    pub source_node_id: String,
    pub metadata: Option<DownstreamMetadataContent>,
}

/// Response to downstream metadata.
#[derive(Clone, Debug, PartialEq, Eq, Default)]
pub struct DownstreamMetadataAck {
    pub request_id: u32,
    pub result_code: i32,
    pub result_string: String,
}

/// An end-to-end call from a node.
#[derive(Clone, Debug, PartialEq, Eq, Default)]
pub struct UpstreamCall {
    pub call_id: String,
    pub request_call_id: String,
    pub destination_node_id: String,
    pub name: String,
    pub type_: String,
    pub payload: Vec<u8>,
}

/// Response to an end-to-end call from a node.
#[derive(Clone, Debug, PartialEq, Eq, Default)]
pub struct UpstreamCallAck {
    pub call_id: String,
    pub result_code: i32,
    pub result_string: String,
}

/// An end-to-end call to a node.
#[derive(Clone, Debug, PartialEq, Eq, Default)]
pub struct DownstreamCall {
    pub call_id: String,
    pub request_call_id: String,
    pub source_node_id: String,
    pub name: String,
    pub type_: String,
    pub payload: Vec<u8>,
}

/// Ping between a node and the broker.
#[derive(Clone, Debug, PartialEq, Eq, Default)]
pub struct Ping {
    pub request_id: u32,
}

/// Response to a ping.
#[derive(Clone, Debug, PartialEq, Eq, Default)]
pub struct Pong {
    pub request_id: u32,
}

/// Extension fields of a request to open an upstream.
#[derive(Clone, Debug, PartialEq, Eq, Default)]
pub struct UpstreamOpenRequestExtensionFields {
    pub persist: bool,
}

/// Request to open an upstream.
#[derive(Clone, Debug, PartialEq, Eq, Default)]
pub struct UpstreamOpenRequest {
    pub request_id: u32,
    pub session_id: String,
    pub ack_interval: u32,
    pub expiry_interval: u32,
    pub data_ids: Vec<DataId>,
    pub qos: i32,
    pub extension_fields: Option<UpstreamOpenRequestExtensionFields>,
}

/// Response to a request to open an upstream.
#[derive(Clone, Debug, PartialEq, Default)]
pub struct UpstreamOpenResponse {
    pub request_id: u32,
    pub assigned_stream_id: Vec<u8>,
    pub assigned_stream_id_alias: u32,
    pub data_id_aliases: HashMap<u32, DataId>,
    pub server_time: i64,
    pub result_code: i32,
    pub result_string: String,
}

/// Request to resume an upstream.
#[derive(Clone, Debug, PartialEq, Eq, Default)]
pub struct UpstreamResumeRequest {
    pub request_id: u32,
    pub stream_id: Vec<u8>,
}

/// Response to a request to resume an upstream.
#[derive(Clone, Debug, PartialEq, Eq, Default)]
pub struct UpstreamResumeResponse {
    pub request_id: u32,
    pub assigned_stream_id_alias: u32,
    pub result_code: i32,
    pub result_string: String,
}

/// Extension fields of a request to close an upstream.
#[derive(Clone, Debug, PartialEq, Eq, Default)]
pub struct UpstreamCloseRequestExtensionFields {
    pub close_session: bool,
}

/// Request to close an upstream.
#[derive(Clone, Debug, PartialEq, Eq, Default)]
pub struct UpstreamCloseRequest {
    pub request_id: u32,
    pub stream_id: Vec<u8>,
    pub total_data_points: u64,
    pub final_sequence_number: u32,
    pub extension_fields: Option<UpstreamCloseRequestExtensionFields>,
}

/// Response to a request to close an upstream.
#[derive(Clone, Debug, PartialEq, Eq, Default)]
pub struct UpstreamCloseResponse {
    pub request_id: u32,
    pub result_code: i32,
    pub result_string: String,
}

/// A chunk of an upstream.
#[derive(Debug, PartialEq, Default)]
pub struct UpstreamChunk {
    pub stream_id_alias: u32,
    pub stream_chunk: Option<StreamChunk>,
    pub data_ids: Vec<DataId>,
}

/// The plain values of a sequence of data ids.
pub open spec fn ids_view(s: Seq<DataId>) -> Seq<DataIdView> {
    s.map_values(|d: DataId| d@)
}

/// The plain values of an upstream chunk.
pub struct UpstreamChunkView {
    pub stream_id_alias: u32,
    pub stream_chunk: Option<StreamChunkView>,
    pub data_ids: Seq<DataIdView>,
}

impl View for UpstreamChunk {
    type V = UpstreamChunkView;

    open spec fn view(&self) -> UpstreamChunkView {
        UpstreamChunkView {
            stream_id_alias: self.stream_id_alias,
            stream_chunk: stream_chunk_view(self.stream_chunk),
            data_ids: ids_view(self.data_ids@),
        }
    }
}

impl Clone for UpstreamChunk {
    fn clone(&self) -> (r: Self)
        ensures
            r@ == self@,
    {
        let stream_chunk = match &self.stream_chunk {
            Some(c) => Some(c.clone()),
            None => None,
        };
        let v = &self.data_ids;
        let mut data_ids: Vec<DataId> = Vec::new();
        let mut i: usize = 0;
        while i < v.len()
            invariant
                i <= v@.len(),
                data_ids@.len() == i,
                ids_view(data_ids@) == ids_view(v@.take(i as int)),
            decreases v@.len() - i,
        {
            let ghost d0 = data_ids@;
            let c = v[i].clone();
            data_ids.push(c);
            proof {
                assert(v@.take(i + 1) =~= v@.take(i as int).push(v@[i as int]));
                assert forall|j: int| 0 <= j < i + 1 implies #[trigger] ids_view(data_ids@)[j]
                    == ids_view(v@.take(i + 1))[j] by {
                    if j < i {
                        assert(ids_view(data_ids@)[j] == ids_view(d0)[j]);
                        assert(ids_view(d0)[j] == ids_view(v@.take(i as int))[j]);
                    }
                }
                assert(ids_view(data_ids@) =~= ids_view(v@.take(i + 1)));
            }
            i = i + 1;
        }
        assert(v@.take(v@.len() as int) =~= v@);
        UpstreamChunk { stream_id_alias: self.stream_id_alias, stream_chunk, data_ids }
    }
}

/// Result of processing an upstream chunk.
#[derive(Clone, Debug, PartialEq, Eq, Default)]
pub struct UpstreamChunkResult {
    pub sequence_number: u32,
    pub result_code: i32,
    pub result_string: String,
}

/// Acknowledgement of upstream chunks.
#[derive(Clone, Debug, PartialEq, Default)]
pub struct UpstreamChunkAck {
    pub stream_id_alias: u32,
    pub results: Vec<UpstreamChunkResult>,
    pub data_id_aliases: HashMap<u32, DataId>,
}

/// The metadata that an upstream metadata message carries.
#[derive(Clone, Debug, PartialEq, Eq)]
pub enum UpstreamMetadataContent {
    BaseTime(BaseTime),
}

/// Extension fields of upstream metadata.
#[derive(Clone, Debug, PartialEq, Eq, Default)]
pub struct UpstreamMetadataExtensionFields {
    pub persist: bool,
}

/// Metadata sent from a node to the broker.
#[derive(Clone, Debug, PartialEq, Eq, Default)]
pub struct UpstreamMetadata {
    pub request_id: u32,
    pub metadata: Option<UpstreamMetadataContent>,
    pub extension_fields: Option<UpstreamMetadataExtensionFields>,
}

/// Response to upstream metadata.
#[derive(Clone, Debug, PartialEq, Eq, Default)]
pub struct UpstreamMetadataAck {
    pub request_id: u32,
    pub result_code: i32,
    pub result_string: String,
}

/// A message of the protocol.
#[derive(Clone, Debug, PartialEq, Default)]
pub struct Message {
    pub message: Option<message::Message>,
}

} // verus!
