use vstd::prelude::*;

use crate::autogen::{clone_points, points_view, DataPoint};
use crate::codes::ResultCode;
use crate::data_id::{DataId, DataIdView};
use crate::iscp::metadata::ReceivableMetadata;
use crate::text::str_eq;

verus! {

/// Information on an upstream, with its stream id read as a number.
#[derive(Debug, PartialEq, Eq)]
pub struct UpstreamInfo {
    pub session_id: String,
    pub stream_id: u128,
    pub source_node_id: String,
}

/// The plain values of an upstream information.
pub struct UpstreamInfoView {
    pub session_id: Seq<char>,
    pub stream_id: u128,
    pub source_node_id: Seq<char>,
}

impl View for UpstreamInfo {
    type V = UpstreamInfoView;

    open spec fn view(&self) -> UpstreamInfoView {
        UpstreamInfoView {
            session_id: self.session_id@,
            stream_id: self.stream_id,
            source_node_id: self.source_node_id@,
        }
    }
}

impl Clone for UpstreamInfo {
    fn clone(&self) -> (r: Self)
        ensures
            r == *self,
    {
        UpstreamInfo {
            session_id: self.session_id.clone(),
            stream_id: self.stream_id,
            source_node_id: self.source_node_id.clone(),
        }
    }
}

impl UpstreamInfo {
    /// Whether two upstream informations hold the same values.
    pub fn same_as(&self, other: &UpstreamInfo) -> (r: bool)
        ensures
            r == (self@ == other@),
    {
        self.stream_id == other.stream_id && str_eq(self.session_id.as_str(), other.session_id.as_str())
            && str_eq(self.source_node_id.as_str(), other.source_node_id.as_str())
    }
}

/// The data points of one data id.
#[derive(Debug, PartialEq)]
pub struct DataPointGroup {
    pub data_id: DataId,
    pub data_points: Vec<DataPoint>,
}

impl View for DataPointGroup {
    type V = (DataIdView, Seq<(i64, Seq<u8>)>);

    open spec fn view(&self) -> (DataIdView, Seq<(i64, Seq<u8>)>) {
        (self.data_id@, points_view(self.data_points@))
    }
}

impl Clone for DataPointGroup {
    fn clone(&self) -> (r: Self)
        ensures
            r@ == self@,
    {
        DataPointGroup { data_id: self.data_id.clone(), data_points: clone_points(&self.data_points) }
    }
}

/// The plain values of data point groups.
pub open spec fn user_groups_view(s: Seq<DataPointGroup>) -> Seq<(DataIdView, Seq<(i64, Seq<u8>)>)> {
    s.map_values(|g: DataPointGroup| g@)
}

/// A chunk of an upstream, as the library user sees it.
#[derive(Debug, PartialEq)]
pub struct UpstreamChunk {
    pub sequence_number: u32,
    pub data_point_groups: Vec<DataPointGroup>,
}

/// Result of processing an upstream chunk, with its result code read.
#[derive(Clone, Debug, PartialEq, Eq)]
pub struct UpstreamChunkResult {
    pub sequence_number: u32,
    pub result_code: ResultCode,
    pub result_string: String,
}

/// Metadata received on a downstream, with the node that sent it.
#[derive(Debug, PartialEq)]
pub struct DownstreamMetadata {
    pub source_node_id: String,
    pub metadata: ReceivableMetadata,
}

/// A chunk of a downstream, as the library user sees it.
#[derive(Debug, PartialEq)]
pub struct DownstreamChunk {
    pub sequence_number: u32,
    pub data_point_groups: Vec<DataPointGroup>,
    pub upstream: UpstreamInfo,
}

} // verus!
