use vstd::prelude::*;

use crate::autogen;
use crate::codes::{result_code_of_value, result_code_value, ResultCode};
use crate::data_id::DataId;
use crate::error::Error;
use crate::iscp::misc::stream_id_to_bytes;
use crate::message::{read_code, uuid_or_nil, uuid_read, uuid_written};

use std::collections::HashMap;
use vstd::std_specs::hash::spec_hash_map_iter;
use vstd::std_specs::iter::IteratorSpec;

verus! {

/// The result of processing a chunk of an upstream.
#[derive(Clone, PartialEq, Eq, Debug, Default)]
pub struct UpstreamChunkResult {
    /// The sequence number of the chunk.
    pub sequence_number: u32,
    /// The result of processing it.
    pub result_code: ResultCode,
    /// The result, in words.
    pub result_string: String,
}

impl UpstreamChunkResult {
    /// Reads the wire message; its result code must be one the protocol defines.
    pub fn from_proto(p: autogen::UpstreamChunkResult) -> (r: UpstreamChunkResult)
        requires
            result_code_of_value(p.result_code) is Some,
        ensures
            r == (UpstreamChunkResult {
                sequence_number: p.sequence_number,
                result_code: result_code_of_value(p.result_code)->Some_0,
                result_string: p.result_string,
            }),
    {
        UpstreamChunkResult {
            sequence_number: p.sequence_number,
            result_code: read_code(p.result_code),
            result_string: p.result_string,
        }
    }
}

impl From<UpstreamChunkResult> for autogen::UpstreamChunkResult {
    /// The wire message.
    fn from(m: UpstreamChunkResult) -> (r: autogen::UpstreamChunkResult) {
        autogen::UpstreamChunkResult {
            sequence_number: m.sequence_number,
            result_code: m.result_code.to_i32(),
            result_string: m.result_string,
        }
    }
}

impl vstd::std_specs::convert::FromSpecImpl<UpstreamChunkResult> for autogen::UpstreamChunkResult {
    open spec fn obeys_from_spec() -> bool {
        true
    }

    open spec fn from_spec(m: UpstreamChunkResult) -> autogen::UpstreamChunkResult {
        autogen::UpstreamChunkResult {
            sequence_number: m.sequence_number,
            result_code: result_code_value(m.result_code),
            result_string: m.result_string,
        }
    }
}

/// The response to an acknowledgement of downstream chunks.
#[derive(Clone, PartialEq, Eq, Debug, Default)]
pub struct DownstreamChunkAckComplete {
    /// The stream id alias of the downstream.
    pub stream_id_alias: u32,
    /// The id of the acknowledgement this answers.
    pub ack_id: u32,
    /// The result.
    pub result_code: ResultCode,
    /// The result, in words.
    pub result_string: String,
}

impl DownstreamChunkAckComplete {
    /// Reads the wire message; its result code must be one the protocol defines.
    pub fn from_proto(p: autogen::DownstreamChunkAckComplete) -> (r: DownstreamChunkAckComplete)
        requires
            result_code_of_value(p.result_code) is Some,
        ensures
            r == (DownstreamChunkAckComplete {
                stream_id_alias: p.stream_id_alias,
                ack_id: p.ack_id,
                result_code: result_code_of_value(p.result_code)->Some_0,
                result_string: p.result_string,
            }),
    {
        DownstreamChunkAckComplete {
            stream_id_alias: p.stream_id_alias,
            ack_id: p.ack_id,
            result_code: read_code(p.result_code),
            result_string: p.result_string,
        }
    }
}

impl From<DownstreamChunkAckComplete> for autogen::DownstreamChunkAckComplete {
    /// The wire message.
    fn from(m: DownstreamChunkAckComplete) -> (r: autogen::DownstreamChunkAckComplete) {
        autogen::DownstreamChunkAckComplete {
            stream_id_alias: m.stream_id_alias,
            ack_id: m.ack_id,
            result_code: m.result_code.to_i32(),
            result_string: m.result_string,
        }
    }
}

impl vstd::std_specs::convert::FromSpecImpl<DownstreamChunkAckComplete> for autogen::DownstreamChunkAckComplete {
    open spec fn obeys_from_spec() -> bool {
        true
    }

    open spec fn from_spec(m: DownstreamChunkAckComplete) -> autogen::DownstreamChunkAckComplete {
        autogen::DownstreamChunkAckComplete {
            stream_id_alias: m.stream_id_alias,
            ack_id: m.ack_id,
            result_code: result_code_value(m.result_code),
            result_string: m.result_string,
        }
    }
}
/// Whether every result of a wire acknowledgement has a result code the protocol defines.
pub open spec fn results_readable(rs: Seq<autogen::UpstreamChunkResult>) -> bool {
    forall|i: int| 0 <= i < rs.len() ==> #[trigger] result_code_of_value(rs[i].result_code) is Some
}

/// The plain values of a result: sequence number, result code, result text.
pub open spec fn result_view(r: UpstreamChunkResult) -> (u32, ResultCode, Seq<char>) {
    (r.sequence_number, r.result_code, r.result_string@)
}

/// The plain values of a wire result whose result code is defined.
pub open spec fn wire_result_view(r: autogen::UpstreamChunkResult) -> (u32, ResultCode, Seq<char>) {
    (r.sequence_number, result_code_of_value(r.result_code)->Some_0, r.result_string@)
}

/// The acknowledgement of chunks of an upstream.
#[derive(Clone, PartialEq, Debug, Default)]
pub struct UpstreamChunkAck {
    /// The stream id alias of the upstream.
    pub stream_id_alias: u32,
    /// The results of the chunks acknowledged.
    pub results: Vec<UpstreamChunkResult>,
    /// Data id aliases the broker assigns.
    pub data_id_aliases: HashMap<u32, DataId>,
}

impl UpstreamChunkAck {
    /// Whether the wire acknowledgement can be read: each result code is one the protocol
    /// defines.
    pub open spec fn readable(p: autogen::UpstreamChunkAck) -> bool {
        results_readable(p.results@)
    }

    /// Whether this is what the wire acknowledgement reads as; the wire acknowledgement is also
    /// what this writes as, where it can be read.
    pub open spec fn reads(self, p: autogen::UpstreamChunkAck) -> bool {
        &&& self.stream_id_alias == p.stream_id_alias
        &&& self.results@.map_values(|x: UpstreamChunkResult| result_view(x)) == p.results@.map_values(
            |x: autogen::UpstreamChunkResult| wire_result_view(x),
        )
        &&& self.data_id_aliases@ == p.data_id_aliases@
    }

    /// Reads the wire acknowledgement; each result code must be one the protocol defines.
    pub fn from_proto(p: autogen::UpstreamChunkAck) -> (r: UpstreamChunkAck)
        requires
            results_readable(p.results@),
        ensures
            r.stream_id_alias == p.stream_id_alias,
            r.results@.map_values(|x: UpstreamChunkResult| result_view(x)) == p.results@.map_values(
                |x: autogen::UpstreamChunkResult| wire_result_view(x),
            ),
            r.data_id_aliases@ == p.data_id_aliases@,
    {
        let ghost src = p.results@;
        let n = p.results.len();
        let mut rest = p.results;
        let mut results: Vec<UpstreamChunkResult> = Vec::new();
        let mut k: usize = 0;
        while k < n
            invariant
                n == src.len(),
                results_readable(src),
                k <= n,
                rest@ == src.skip(k as int),
                results@.len() == k,
                forall|j: int| 0 <= j < k ==> #[trigger] result_view(results@[j]) == wire_result_view(src[j]),
            decreases n - k,
        {
            let x = rest.remove(0);
            assert(src.skip(k as int)[0] == src[k as int]);
            assert(rest@ =~= src.skip(k + 1));
            assert(result_code_of_value(src[k as int].result_code) is Some);
            results.push(UpstreamChunkResult::from_proto(x));
            k = k + 1;
        }
        assert(results@.map_values(|x: UpstreamChunkResult| result_view(x)) =~= src.map_values(
            |x: autogen::UpstreamChunkResult| wire_result_view(x),
        ));
        UpstreamChunkAck {
            stream_id_alias: p.stream_id_alias,
            results,
            data_id_aliases: p.data_id_aliases,
        }
    }

    /// The wire acknowledgement.
    pub fn to_proto(self) -> (r: autogen::UpstreamChunkAck)
        ensures
            r.stream_id_alias == self.stream_id_alias,
            r.results@.map_values(|x: autogen::UpstreamChunkResult| wire_result_view(x))
                == self.results@.map_values(|x: UpstreamChunkResult| result_view(x)),
            results_readable(r.results@),
            r.data_id_aliases@ == self.data_id_aliases@,
    {
        let ghost src = self.results@;
        let n = self.results.len();
        let mut rest = self.results;
        let mut results: Vec<autogen::UpstreamChunkResult> = Vec::new();
        let mut k: usize = 0;
        while k < n
            invariant
                n == src.len(),
                k <= n,
                rest@ == src.skip(k as int),
                results@.len() == k,
                forall|j: int| 0 <= j < k ==> #[trigger] result_code_of_value(results@[j].result_code) is Some
                    && wire_result_view(results@[j]) == result_view(src[j]),
            decreases n - k,
        {
            let x = rest.remove(0);
            assert(src.skip(k as int)[0] == src[k as int]);
            assert(rest@ =~= src.skip(k + 1));
            proof {
                crate::codes::lemma_result_code_value_roundtrip(x.result_code);
            }
            results.push(autogen::UpstreamChunkResult::from(x));
            k = k + 1;
        }
        assert(results@.map_values(|x: autogen::UpstreamChunkResult| wire_result_view(x)) =~= src.map_values(
            |x: UpstreamChunkResult| result_view(x),
        ));
        autogen::UpstreamChunkAck {
            stream_id_alias: self.stream_id_alias,
            results,
            data_id_aliases: self.data_id_aliases,
        }
    }
}

impl From<DataId> for autogen::DataIdOrAlias {
    fn from(id: DataId) -> (r: autogen::DataIdOrAlias) {
        autogen::DataIdOrAlias::DataId(id)
    }
}

impl vstd::std_specs::convert::FromSpecImpl<DataId> for autogen::DataIdOrAlias {
    open spec fn obeys_from_spec() -> bool {
        true
    }

    open spec fn from_spec(id: DataId) -> autogen::DataIdOrAlias {
        autogen::DataIdOrAlias::DataId(id)
    }
}

impl From<u32> for autogen::DataIdOrAlias {
    fn from(alias: u32) -> (r: autogen::DataIdOrAlias) {
        autogen::DataIdOrAlias::DataIdAlias(alias)
    }
}

impl vstd::std_specs::convert::FromSpecImpl<u32> for autogen::DataIdOrAlias {
    open spec fn obeys_from_spec() -> bool {
        true
    }

    open spec fn from_spec(alias: u32) -> autogen::DataIdOrAlias {
        autogen::DataIdOrAlias::DataIdAlias(alias)
    }
}

/// Information about an upstream, as a downstream sees it.
#[derive(Clone, PartialEq, Eq, Hash, Debug, Default)]
pub struct UpstreamInfo {
    /// The node that sends the upstream.
    pub source_node_id: String,
    /// The session of the upstream.
    pub session_id: String,
    /// The stream id of the upstream.
    pub stream_id: u128,
}

impl UpstreamInfo {
    /// Whether this is what the wire information reads as.
    pub open spec fn reads(self, p: autogen::UpstreamInfo) -> bool {
        &&& self.source_node_id@ == p.source_node_id@
        &&& self.session_id@ == p.session_id@
        &&& self.stream_id == uuid_read(p.stream_id@)
    }

    /// Whether the wire information is what this writes as.
    pub open spec fn writes(self, p: autogen::UpstreamInfo) -> bool {
        &&& p.source_node_id@ == self.source_node_id@
        &&& p.session_id@ == self.session_id@
        &&& uuid_written(p.stream_id@, self.stream_id)
    }

    /// Reads the wire information; a stream id that is not 16 bytes reads as the nil uuid.
    pub fn from_proto(p: &autogen::UpstreamInfo) -> (r: UpstreamInfo)
        ensures
            r.reads(*p),
    {
        UpstreamInfo {
            source_node_id: p.source_node_id.clone(),
            session_id: p.session_id.clone(),
            stream_id: uuid_or_nil(p.stream_id.as_slice()),
        }
    }

    /// The wire information.
    pub fn to_proto(&self) -> (r: autogen::UpstreamInfo)
        ensures
            self.writes(r),
    {
        autogen::UpstreamInfo {
            source_node_id: self.source_node_id.clone(),
            session_id: self.session_id.clone(),
            stream_id: stream_id_to_bytes(self.stream_id),
        }
    }
}

/// Upstream information, or an alias of it.
#[derive(Clone, PartialEq, Eq, Debug)]
pub enum UpstreamOrAlias {
    /// The upstream information.
    UpstreamInfo(UpstreamInfo),
    /// The alias of upstream information sent before.
    Alias(u32),
}

impl Default for UpstreamOrAlias {
    fn default() -> (r: UpstreamOrAlias)
        ensures
            r == UpstreamOrAlias::Alias(0),
    {
        UpstreamOrAlias::Alias(0)
    }
}

impl From<UpstreamInfo> for UpstreamOrAlias {
    fn from(info: UpstreamInfo) -> (r: UpstreamOrAlias) {
        UpstreamOrAlias::UpstreamInfo(info)
    }
}

impl vstd::std_specs::convert::FromSpecImpl<UpstreamInfo> for UpstreamOrAlias {
    open spec fn obeys_from_spec() -> bool {
        true
    }

    open spec fn from_spec(info: UpstreamInfo) -> UpstreamOrAlias {
        UpstreamOrAlias::UpstreamInfo(info)
    }
}

impl From<u32> for UpstreamOrAlias {
    fn from(alias: u32) -> (r: UpstreamOrAlias) {
        UpstreamOrAlias::Alias(alias)
    }
}

impl vstd::std_specs::convert::FromSpecImpl<u32> for UpstreamOrAlias {
    open spec fn obeys_from_spec() -> bool {
        true
    }

    open spec fn from_spec(alias: u32) -> UpstreamOrAlias {
        UpstreamOrAlias::Alias(alias)
    }
}

impl UpstreamOrAlias {
    /// Whether this is what the wire value reads as.
    pub open spec fn reads(self, p: autogen::UpstreamOrAlias) -> bool {
        match (self, p) {
            (UpstreamOrAlias::UpstreamInfo(i), autogen::UpstreamOrAlias::UpstreamInfo(w)) =>
                i.reads(w),
            (UpstreamOrAlias::Alias(a), autogen::UpstreamOrAlias::UpstreamAlias(b)) => a == b,
            _ => false,
        }
    }

    /// Whether the wire value is what this writes as.
    pub open spec fn writes(self, p: autogen::UpstreamOrAlias) -> bool {
        match (self, p) {
            (UpstreamOrAlias::UpstreamInfo(i), autogen::UpstreamOrAlias::UpstreamInfo(w)) =>
                i.writes(w),
            (UpstreamOrAlias::Alias(a), autogen::UpstreamOrAlias::UpstreamAlias(b)) => a == b,
            _ => false,
        }
    }

    /// Reads the wire value.
    pub fn from_proto(p: autogen::UpstreamOrAlias) -> (r: UpstreamOrAlias)
        ensures
            r.reads(p),
    {
        match p {
            autogen::UpstreamOrAlias::UpstreamAlias(a) => UpstreamOrAlias::Alias(a),
            autogen::UpstreamOrAlias::UpstreamInfo(i) => UpstreamOrAlias::UpstreamInfo(
                UpstreamInfo::from_proto(&i),
            ),
        }
    }

    /// The wire value.
    pub fn to_proto(self) -> (r: autogen::UpstreamOrAlias)
        ensures
            self.writes(r),
    {
        match self {
            UpstreamOrAlias::Alias(a) => autogen::UpstreamOrAlias::UpstreamAlias(a),
            UpstreamOrAlias::UpstreamInfo(i) =>
                autogen::UpstreamOrAlias::UpstreamInfo(i.to_proto()),
        }
    }
}

/// The result of processing a chunk of a downstream.
#[derive(Clone, PartialEq, Eq, Debug, Default)]
pub struct DownstreamChunkResult {
    /// The stream id of the upstream the chunk came from.
    pub stream_id_of_upstream: u128,
    /// The sequence number of the chunk in that upstream.
    pub sequence_number_in_upstream: u32,
    /// The result of processing it.
    pub result_code: ResultCode,
    /// The result, in words.
    pub result_string: String,
}

impl DownstreamChunkResult {
    /// Whether the wire result can be read: its result code is one the protocol defines.
    pub open spec fn readable(p: autogen::DownstreamChunkResult) -> bool {
        result_code_of_value(p.result_code) is Some
    }

    /// Whether this is what the wire result reads as.
    pub open spec fn reads(self, p: autogen::DownstreamChunkResult) -> bool {
        &&& self.stream_id_of_upstream == uuid_read(p.stream_id_of_upstream@)
        &&& self.sequence_number_in_upstream == p.sequence_number_in_upstream
        &&& Some(self.result_code) == result_code_of_value(p.result_code)
        &&& self.result_string@ == p.result_string@
    }

    /// Whether the wire result is what this writes as.
    pub open spec fn writes(self, p: autogen::DownstreamChunkResult) -> bool {
        &&& uuid_written(p.stream_id_of_upstream@, self.stream_id_of_upstream)
        &&& p.sequence_number_in_upstream == self.sequence_number_in_upstream
        &&& p.result_code == result_code_value(self.result_code)
        &&& p.result_string@ == self.result_string@
    }

    /// Reads the wire result; its result code must be one the protocol defines.
    pub fn from_proto(p: autogen::DownstreamChunkResult) -> (r: DownstreamChunkResult)
        requires
            DownstreamChunkResult::readable(p),
        ensures
            r.reads(p),
    {
        DownstreamChunkResult {
            stream_id_of_upstream: uuid_or_nil(p.stream_id_of_upstream.as_slice()),
            sequence_number_in_upstream: p.sequence_number_in_upstream,
            result_code: read_code(p.result_code),
            result_string: p.result_string,
        }
    }

    /// The wire result.
    pub fn to_proto(self) -> (r: autogen::DownstreamChunkResult)
        ensures
            self.writes(r),
    {
        autogen::DownstreamChunkResult {
            stream_id_of_upstream: stream_id_to_bytes(self.stream_id_of_upstream),
            sequence_number_in_upstream: self.sequence_number_in_upstream,
            result_code: self.result_code.to_i32(),
            result_string: self.result_string,
        }
    }
}

/// Whether a map of upstream information is what a wire map reads as: the same aliases, each
/// with the information its wire information reads as.
pub open spec fn infos_read(m: Map<u32, UpstreamInfo>, p: Map<u32, autogen::UpstreamInfo>) -> bool {
    &&& m.dom() == p.dom()
    &&& forall|k: u32| #[trigger] m.contains_key(k) ==> m[k].reads(p[k])
}

/// Whether a wire map of upstream information is what a map writes as.
pub open spec fn infos_written(m: Map<u32, UpstreamInfo>, p: Map<u32, autogen::UpstreamInfo>) -> bool {
    &&& m.dom() == p.dom()
    &&& forall|k: u32| #[trigger] m.contains_key(k) ==> m[k].writes(p[k])
}

/// Reads a wire map of upstream information.
pub fn infos_from_proto(p: &HashMap<u32, autogen::UpstreamInfo>) -> (r: HashMap<u32, UpstreamInfo>)
    ensures
        infos_read(r@, p@),
{
    broadcast use vstd::std_specs::hash::group_hash_axioms;
    let mut r: HashMap<u32, UpstreamInfo> = HashMap::new();
    for kv in it: p.iter()
        invariant
            it.seq() == spec_hash_map_iter(p).remaining(),
            it.seq().no_duplicates(),
            forall|k: u32| #[trigger] r@.contains_key(k) <==> exists|j: int|
                0 <= j < it.index() && *it.seq()[j].0 == k,
            forall|k: u32| #[trigger] r@.contains_key(k) ==> p@.contains_key(k) && r@[k].reads(p@[k]),
    {
        let (k, v) = kv;
        let info = UpstreamInfo::from_proto(v);
        r.insert(*k, info);
    }
    proof {
        assert forall|k: u32| #[trigger] p@.contains_key(k) implies r@.contains_key(k) by {
            let v = spec_hash_map_iter(p).remaining();
            assert(v.contains((&k, &p@[k])));
            let j = choose|j: int| 0 <= j < v.len() && v[j] == (&k, &p@[k]);
            assert(*v[j].0 == k);
        }
        assert(r@.dom() =~= p@.dom());
    }
    r
}

/// Writes a map of upstream information as a wire map.
pub fn infos_to_proto(m: &HashMap<u32, UpstreamInfo>) -> (r: HashMap<u32, autogen::UpstreamInfo>)
    ensures
        infos_written(m@, r@),
{
    broadcast use vstd::std_specs::hash::group_hash_axioms;
    let mut r: HashMap<u32, autogen::UpstreamInfo> = HashMap::new();
    for kv in it: m.iter()
        invariant
            it.seq() == spec_hash_map_iter(m).remaining(),
            forall|k: u32| #[trigger] r@.contains_key(k) <==> exists|j: int|
                0 <= j < it.index() && *it.seq()[j].0 == k,
            forall|k: u32| #[trigger] r@.contains_key(k) ==> m@.contains_key(k) && m@[k].writes(r@[k]),
    {
        let (k, v) = kv;
        let info = v.to_proto();
        r.insert(*k, info);
    }
    proof {
        assert forall|k: u32| #[trigger] m@.contains_key(k) implies r@.contains_key(k) by {
            let v = spec_hash_map_iter(m).remaining();
            assert(v.contains((&k, &m@[k])));
            let j = choose|j: int| 0 <= j < v.len() && v[j] == (&k, &m@[k]);
            assert(*v[j].0 == k);
        }
        assert(m@.dom() =~= r@.dom());
    }
    r
}

/// The data points of a stream under one data id or alias.
#[derive(Clone, PartialEq, Debug)]
pub struct DataPointGroup {
    /// The data points.
    pub data_points: Vec<autogen::DataPoint>,
    /// The data id, or its alias.
    pub data_id_or_alias: autogen::DataIdOrAlias,
}

impl DataPointGroup {
    /// Whether the wire group is complete: it names its data id or alias.
    pub open spec fn complete(p: autogen::DataPointGroup) -> bool {
        p.data_id_or_alias is Some
    }

    /// Whether this is what the wire group reads as.
    pub open spec fn reads(self, p: autogen::DataPointGroup) -> bool {
        &&& self.data_points == p.data_points
        &&& p.data_id_or_alias == Some(self.data_id_or_alias)
    }

    /// Reads the wire group; one that names no data id or alias is refused.
    pub fn try_from_proto(p: autogen::DataPointGroup) -> (r: Result<DataPointGroup, Error>)
        ensures
            r is Ok <==> DataPointGroup::complete(p),
            r matches Ok(g) ==> g.reads(p),
            r matches Err(e) ==> e is Unexpected,
    {
        match p.data_id_or_alias {
            Some(k) => Ok(DataPointGroup { data_points: p.data_points, data_id_or_alias: k }),
            None => Err(Error::unexpected("no data_id_or_alias")),
        }
    }

    /// The wire group.
    pub fn to_proto(self) -> (r: autogen::DataPointGroup)
        ensures
            self.reads(r),
    {
        autogen::DataPointGroup {
            data_points: self.data_points,
            data_id_or_alias: Some(self.data_id_or_alias),
        }
    }
}

/// A chunk of a stream: the data points of a span of time, grouped by data id.
#[derive(Clone, PartialEq, Debug, Default)]
pub struct StreamChunk {
    /// The sequence number of the chunk.
    pub sequence_number: u32,
    /// The groups of data points.
    pub data_point_groups: Vec<DataPointGroup>,
}

impl StreamChunk {
    /// Whether the wire chunk is complete: each group names its data id or alias.
    pub open spec fn complete(p: autogen::StreamChunk) -> bool {
        forall|i: int| 0 <= i < p.data_point_groups@.len() ==> DataPointGroup::complete(
            #[trigger] p.data_point_groups@[i],
        )
    }

    /// Whether this is what the wire chunk reads as; the wire chunk is also what this writes
    /// as.
    pub open spec fn reads(self, p: autogen::StreamChunk) -> bool {
        &&& self.sequence_number == p.sequence_number
        &&& self.data_point_groups@.len() == p.data_point_groups@.len()
        &&& forall|i: int| 0 <= i < p.data_point_groups@.len() ==> (#[trigger] self.data_point_groups@[i]).reads(
            p.data_point_groups@[i],
        )
    }

    /// Reads the wire chunk; one with a group that names no data id or alias is refused.
    pub fn try_from_proto(p: autogen::StreamChunk) -> (r: Result<StreamChunk, Error>)
        ensures
            r is Ok <==> StreamChunk::complete(p),
            r matches Ok(c) ==> c.reads(p),
            r matches Err(e) ==> e is Unexpected,
    {
        let ghost src = p.data_point_groups@;
        let n = p.data_point_groups.len();
        let mut rest = p.data_point_groups;
        let mut groups: Vec<DataPointGroup> = Vec::new();
        let mut k: usize = 0;
        while k < n
            invariant
                n == src.len(),
                src == p.data_point_groups@,
                k <= n,
                rest@ == src.skip(k as int),
                groups@.len() == k,
                forall|j: int| 0 <= j < k ==> DataPointGroup::complete(#[trigger] src[j]),
                forall|j: int| 0 <= j < k ==> (#[trigger] groups@[j]).reads(src[j]),
            decreases n - k,
        {
            let x = rest.remove(0);
            assert(src.skip(k as int)[0] == src[k as int]);
            assert(rest@ =~= src.skip(k + 1));
            match DataPointGroup::try_from_proto(x) {
                Ok(g) => groups.push(g),
                Err(e) => {
                    assert(!DataPointGroup::complete(p.data_point_groups@[k as int]));
                    return Err(e);
                },
            }
            k = k + 1;
        }
        Ok(StreamChunk { sequence_number: p.sequence_number, data_point_groups: groups })
    }

    /// The wire chunk.
    pub fn to_proto(self) -> (r: autogen::StreamChunk)
        ensures
            self.reads(r),
    {
        let ghost src = self.data_point_groups@;
        let n = self.data_point_groups.len();
        let mut rest = self.data_point_groups;
        let mut groups: Vec<autogen::DataPointGroup> = Vec::new();
        let mut k: usize = 0;
        while k < n
            invariant
                n == src.len(),
                k <= n,
                rest@ == src.skip(k as int),
                groups@.len() == k,
                forall|j: int| 0 <= j < k ==> src[j].reads(#[trigger] groups@[j]),
            decreases n - k,
        {
            let x = rest.remove(0);
            assert(src.skip(k as int)[0] == src[k as int]);
            assert(rest@ =~= src.skip(k + 1));
            groups.push(x.to_proto());
            k = k + 1;
        }
        autogen::StreamChunk { sequence_number: self.sequence_number, data_point_groups: groups }
    }
}

/// A chunk of an upstream.
#[derive(Clone, PartialEq, Debug, Default)]
pub struct UpstreamChunk {
    /// The stream id alias of the upstream.
    pub stream_id_alias: u32,
    /// The chunk.
    pub stream_chunk: StreamChunk,
    /// The data ids that the chunk introduces.
    pub data_ids: Vec<DataId>,
}

impl UpstreamChunk {
    /// Whether the wire chunk is complete: it carries a complete stream chunk.
    pub open spec fn complete(p: autogen::UpstreamChunk) -> bool {
        p.stream_chunk matches Some(c) && StreamChunk::complete(c)
    }

    /// Whether this is what the wire chunk reads as; the wire chunk is also what this writes
    /// as.
    pub open spec fn reads(self, p: autogen::UpstreamChunk) -> bool {
        &&& self.stream_id_alias == p.stream_id_alias
        &&& p.stream_chunk matches Some(c) && self.stream_chunk.reads(c)
        &&& self.data_ids == p.data_ids
    }

    /// Reads the wire chunk; an incomplete one is refused.
    pub fn try_from_proto(p: autogen::UpstreamChunk) -> (r: Result<UpstreamChunk, Error>)
        ensures
            r is Ok <==> UpstreamChunk::complete(p),
            r matches Ok(c) ==> c.reads(p),
            r matches Err(e) ==> e is Unexpected,
    {
        let chunk = match p.stream_chunk {
            Some(c) => c,
            None => {
                return Err(Error::unexpected("no stream_chunk"));
            },
        };
        let stream_chunk = match StreamChunk::try_from_proto(chunk) {
            Ok(c) => c,
            Err(e) => {
                return Err(e);
            },
        };
        Ok(UpstreamChunk { stream_id_alias: p.stream_id_alias, stream_chunk, data_ids: p.data_ids })
    }

    /// The wire chunk.
    pub fn to_proto(self) -> (r: autogen::UpstreamChunk)
        ensures
            self.reads(r),
    {
        autogen::UpstreamChunk {
            stream_id_alias: self.stream_id_alias,
            stream_chunk: Some(self.stream_chunk.to_proto()),
            data_ids: self.data_ids,
        }
    }
}

/// A chunk of a downstream.
#[derive(Clone, PartialEq, Debug, Default)]
pub struct DownstreamChunk {
    /// The stream id alias of the downstream.
    pub stream_id_alias: u32,
    /// The chunk.
    pub stream_chunk: StreamChunk,
    /// The upstream the chunk came from, or its alias.
    pub upstream_or_alias: UpstreamOrAlias,
}

impl DownstreamChunk {
    /// Whether the wire chunk is complete: it carries a complete stream chunk and names its
    /// upstream.
    pub open spec fn complete(p: autogen::DownstreamChunk) -> bool {
        &&& p.stream_chunk matches Some(c) && StreamChunk::complete(c)
        &&& p.upstream_or_alias is Some
    }

    /// Whether this is what the wire chunk reads as.
    pub open spec fn reads(self, p: autogen::DownstreamChunk) -> bool {
        &&& self.stream_id_alias == p.stream_id_alias
        &&& p.stream_chunk matches Some(c) && self.stream_chunk.reads(c)
        &&& p.upstream_or_alias matches Some(u) && self.upstream_or_alias.reads(u)
    }

    /// Whether the wire chunk is what this writes as.
    pub open spec fn writes(self, p: autogen::DownstreamChunk) -> bool {
        &&& p.stream_id_alias == self.stream_id_alias
        &&& p.stream_chunk matches Some(c) && self.stream_chunk.reads(c)
        &&& p.upstream_or_alias matches Some(u) && self.upstream_or_alias.writes(u)
    }

    /// Reads the wire chunk; an incomplete one is refused.
    pub fn try_from_proto(p: autogen::DownstreamChunk) -> (r: Result<DownstreamChunk, Error>)
        ensures
            r is Ok <==> DownstreamChunk::complete(p),
            r matches Ok(c) ==> c.reads(p),
            r matches Err(e) ==> e is Unexpected,
    {
        let chunk = match p.stream_chunk {
            Some(c) => c,
            None => {
                return Err(Error::unexpected("no stream_chunk"));
            },
        };
        let stream_chunk = match StreamChunk::try_from_proto(chunk) {
            Ok(c) => c,
            Err(e) => {
                return Err(e);
            },
        };
        let upstream_or_alias = match p.upstream_or_alias {
            Some(u) => UpstreamOrAlias::from_proto(u),
            None => {
                return Err(Error::unexpected("no upstream_or_alias"));
            },
        };
        Ok(DownstreamChunk { stream_id_alias: p.stream_id_alias, stream_chunk, upstream_or_alias })
    }

    /// The wire chunk.
    pub fn to_proto(self) -> (r: autogen::DownstreamChunk)
        ensures
            self.writes(r),
    {
        autogen::DownstreamChunk {
            stream_id_alias: self.stream_id_alias,
            stream_chunk: Some(self.stream_chunk.to_proto()),
            upstream_or_alias: Some(self.upstream_or_alias.to_proto()),
        }
    }
}

/// The acknowledgement of chunks of a downstream.
#[derive(Clone, PartialEq, Debug, Default)]
pub struct DownstreamChunkAck {
    /// The id of the acknowledgement.
    pub ack_id: u32,
    /// The stream id alias of the downstream.
    pub stream_id_alias: u32,
    /// Aliases of upstream information.
    pub upstream_aliases: HashMap<u32, UpstreamInfo>,
    /// Data id aliases.
    pub data_id_aliases: HashMap<u32, DataId>,
    /// The results of the chunks acknowledged.
    pub results: Vec<DownstreamChunkResult>,
}

impl DownstreamChunkAck {
    /// Whether the wire acknowledgement can be read: each result code is one the protocol
    /// defines.
    pub open spec fn readable(p: autogen::DownstreamChunkAck) -> bool {
        forall|i: int| 0 <= i < p.results@.len() ==> DownstreamChunkResult::readable(
            #[trigger] p.results@[i],
        )
    }

    /// Whether this is what the wire acknowledgement reads as.
    pub open spec fn reads(self, p: autogen::DownstreamChunkAck) -> bool {
        &&& self.ack_id == p.ack_id
        &&& self.stream_id_alias == p.stream_id_alias
        &&& infos_read(self.upstream_aliases@, p.upstream_aliases@)
        &&& self.data_id_aliases == p.data_id_aliases
        &&& self.results@.len() == p.results@.len()
        &&& forall|i: int| 0 <= i < p.results@.len() ==> (#[trigger] self.results@[i]).reads(p.results@[i])
    }

    /// Whether the wire acknowledgement is what this writes as.
    pub open spec fn writes(self, p: autogen::DownstreamChunkAck) -> bool {
        &&& p.ack_id == self.ack_id
        &&& p.stream_id_alias == self.stream_id_alias
        &&& infos_written(self.upstream_aliases@, p.upstream_aliases@)
        &&& p.data_id_aliases == self.data_id_aliases
        &&& p.results@.len() == self.results@.len()
        &&& forall|i: int| 0 <= i < p.results@.len() ==> self.results@[i].writes(#[trigger] p.results@[i])
    }

    /// Reads the wire acknowledgement; each result code must be one the protocol defines.
    pub fn from_proto(p: autogen::DownstreamChunkAck) -> (r: DownstreamChunkAck)
        requires
            DownstreamChunkAck::readable(p),
        ensures
            r.reads(p),
    {
        let ghost src = p.results@;
        let n = p.results.len();
        let mut rest = p.results;
        let mut results: Vec<DownstreamChunkResult> = Vec::new();
        let mut k: usize = 0;
        while k < n
            invariant
                n == src.len(),
                k <= n,
                rest@ == src.skip(k as int),
                results@.len() == k,
                forall|j: int| 0 <= j < n ==> DownstreamChunkResult::readable(#[trigger] src[j]),
                forall|j: int| 0 <= j < k ==> (#[trigger] results@[j]).reads(src[j]),
            decreases n - k,
        {
            let x = rest.remove(0);
            assert(src.skip(k as int)[0] == src[k as int]);
            assert(rest@ =~= src.skip(k + 1));
            assert(DownstreamChunkResult::readable(src[k as int]));
            results.push(DownstreamChunkResult::from_proto(x));
            k = k + 1;
        }
        DownstreamChunkAck {
            ack_id: p.ack_id,
            stream_id_alias: p.stream_id_alias,
            upstream_aliases: infos_from_proto(&p.upstream_aliases),
            data_id_aliases: p.data_id_aliases,
            results,
        }
    }

    /// The wire acknowledgement.
    pub fn to_proto(self) -> (r: autogen::DownstreamChunkAck)
        ensures
            self.writes(r),
    {
        let ghost src = self.results@;
        let n = self.results.len();
        let mut rest = self.results;
        let mut results: Vec<autogen::DownstreamChunkResult> = Vec::new();
        let mut k: usize = 0;
        while k < n
            invariant
                n == src.len(),
                k <= n,
                rest@ == src.skip(k as int),
                results@.len() == k,
                forall|j: int| 0 <= j < k ==> src[j].writes(#[trigger] results@[j]),
            decreases n - k,
        {
            let x = rest.remove(0);
            assert(src.skip(k as int)[0] == src[k as int]);
            assert(rest@ =~= src.skip(k + 1));
            results.push(x.to_proto());
            k = k + 1;
        }
        autogen::DownstreamChunkAck {
            stream_id_alias: self.stream_id_alias,
            ack_id: self.ack_id,
            results,
            upstream_aliases: infos_to_proto(&self.upstream_aliases),
            data_id_aliases: self.data_id_aliases,
        }
    }
}

impl DownstreamChunkAckComplete {
    /// Whether the wire message can be read: its codes are ones the protocol defines.
    pub open spec fn readable(p: autogen::DownstreamChunkAckComplete) -> bool {
        result_code_of_value(p.result_code) is Some
    }

    /// Whether this is what the wire message reads as.
    pub open spec fn reads(self, p: autogen::DownstreamChunkAckComplete) -> bool {
        &&& self.stream_id_alias == p.stream_id_alias
        &&& self.ack_id == p.ack_id
        &&& Some(self.result_code) == result_code_of_value(p.result_code)
        &&& self.result_string@ == p.result_string@
    }

    /// Whether the wire message is what this writes as.
    pub open spec fn writes(self, p: autogen::DownstreamChunkAckComplete) -> bool {
        &&& p.stream_id_alias == self.stream_id_alias
        &&& p.ack_id == self.ack_id
        &&& p.result_code == result_code_value(self.result_code)
        &&& p.result_string@ == self.result_string@
    }
}

/// An upstream chunk written on the wire reads back as itself.
pub proof fn lemma_upstream_chunk_read_back(m: UpstreamChunk, p: autogen::UpstreamChunk, back: UpstreamChunk)
    requires
        m.reads(p),
        back.reads(p),
    ensures
        back.stream_id_alias == m.stream_id_alias,
        back.stream_chunk.sequence_number == m.stream_chunk.sequence_number,
        back.stream_chunk.data_point_groups@ == m.stream_chunk.data_point_groups@,
        back.data_ids == m.data_ids,
{
    assert(back.stream_chunk.data_point_groups@ =~= m.stream_chunk.data_point_groups@);
}

/// Upstream information written on the wire reads back as itself.
pub proof fn lemma_upstream_info_read_back(m: UpstreamInfo, p: autogen::UpstreamInfo, back: UpstreamInfo)
    requires
        m.writes(p),
        back.reads(p),
    ensures
        back.source_node_id@ == m.source_node_id@,
        back.session_id@ == m.session_id@,
        back.stream_id == m.stream_id,
{
}

} // verus!
