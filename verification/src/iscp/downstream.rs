use vstd::prelude::*;

use std::collections::HashMap;

use crate::autogen::{self, DataIdOrAliasView, DataPointGroupView};
use crate::codes::{qos_value, QoS};
use crate::data_id::{clone_filters, filters_view, DataId, DataIdView, DownstreamFilter};
use crate::duration::Duration;
use crate::error::Error;
use crate::iscp::down_order::DownstreamReordering;
use crate::iscp::down_state::{info_added, info_view_of, succeeded_result, wire_stream_id, State};
use crate::iscp::misc::{be_value, parse_stream_id, stream_id_to_bytes, unix_epoch_to_system_time};
use crate::iscp::metadata::{read_as, readable, ReceivableMetadata};
use crate::iscp::types::{user_groups_view, DataPointGroup, DownstreamChunk, DownstreamMetadata};

verus! {

broadcast use vstd::std_specs::hash::group_hash_axioms;

/// The settings of a downstream.
pub struct DownstreamConfig {
    /// Which data of which nodes the downstream receives.
    pub filters: Vec<DownstreamFilter>,
    /// How long the downstream may be resumed after a disconnection; zero for never.
    pub expiry_interval: Duration,
    /// The QoS of the stream.
    pub qos: QoS,
    /// The data ids to give aliases to.
    pub data_ids: Vec<DataId>,
    /// How often chunks are acknowledged.
    pub ack_interval: Duration,
    /// Whether chunks without data points are dropped.
    pub omit_empty_chunk: bool,
    /// How the chunks of a reliable downstream are put in order.
    pub reordering: DownstreamReordering,
    /// How many chunks of one upstream may wait to be put in order.
    pub reordering_chunks: usize,
    /// How long closing waits for the last acknowledgement to complete.
    pub close_timeout: Duration,
}

impl Default for DownstreamConfig {
    /// An unreliable downstream of no filters and no data ids, resumable for 60 s,
    /// acknowledged every 100 ms, keeping empty chunks, without reordering (255 chunks may
    /// wait when it is on), closing within 10 s.
    fn default() -> (r: DownstreamConfig)
        ensures
            r.filters@ == Seq::<DownstreamFilter>::empty(),
            r.expiry_interval.wf() && r.expiry_interval.total_nanos() == 60_000_000_000,
            r.qos == QoS::Unreliable,
            r.data_ids@ == Seq::<DataId>::empty(),
            r.ack_interval.wf() && r.ack_interval.total_nanos() == 100_000_000,
            !r.omit_empty_chunk,
            r.reordering == DownstreamReordering::NoReordering,
            r.reordering_chunks == 0xFF,
            r.close_timeout.wf() && r.close_timeout.total_nanos() == 10_000_000_000,
    {
        DownstreamConfig {
            filters: Vec::new(),
            expiry_interval: Duration::from_secs(60),
            qos: QoS::Unreliable,
            data_ids: Vec::new(),
            ack_interval: Duration::from_millis(100),
            omit_empty_chunk: false,
            reordering: DownstreamReordering::NoReordering,
            reordering_chunks: 0xFF,
            close_timeout: Duration::from_secs(10),
        }
    }
}

/// Sets the QoS of a downstream.
pub fn with_qos(config: &mut DownstreamConfig, qos: QoS)
    ensures
        final(config).qos == qos,
        final(config).filters == old(config).filters,
        final(config).expiry_interval == old(config).expiry_interval,
        final(config).data_ids == old(config).data_ids,
        final(config).ack_interval == old(config).ack_interval,
        final(config).omit_empty_chunk == old(config).omit_empty_chunk,
        final(config).reordering == old(config).reordering,
        final(config).reordering_chunks == old(config).reordering_chunks,
        final(config).close_timeout == old(config).close_timeout,
{
    config.qos = qos;
}

/// Whether the aliases `m` number the data ids `ids` from 1: alias `i + 1` for the data id at
/// index `i`, and no other alias.
pub open spec fn numbered_from_one(m: Map<u32, DataId>, ids: Seq<DataId>) -> bool {
    &&& forall|k: u32| #[trigger] m.contains_key(k) <==> 1 <= k <= ids.len()
    &&& forall|k: u32| 1 <= k <= ids.len() ==> #[trigger] m[k] == ids[k - 1]
}

/// The data id aliases a downstream asks for: the data ids numbered from 1.
pub fn data_id_aliases_of(data_ids: &Vec<DataId>) -> (r: HashMap<u32, DataId>)
    requires
        data_ids@.len() <= u32::MAX,
    ensures
        numbered_from_one(r@, data_ids@),
{
    let mut m: HashMap<u32, DataId> = HashMap::new();
    let n = data_ids.len();
    let mut i: usize = 0;
    while i < n
        invariant
            n == data_ids@.len(),
            n <= u32::MAX,
            i <= n,
            numbered_from_one(m@, data_ids@.take(i as int)),
        decreases n - i,
    {
        let key = (i + 1) as u32;
        m.insert(key, data_ids[i].clone());
        proof {
            let t = data_ids@.take(i + 1);
            assert forall|k: u32| #[trigger] m@.contains_key(k) <==> 1 <= k <= t.len() by {}
            assert forall|k: u32| 1 <= k <= t.len() implies #[trigger] m@[k] == t[k - 1] by {
                if k < key {
                    assert(data_ids@.take(i as int)[k - 1] == t[k - 1]);
                }
            }
        }
        i = i + 1;
    }
    assert(data_ids@.take(n as int) =~= data_ids@);
    m
}

/// The request that opens a downstream of the given settings under the desired stream id
/// alias, with the data id aliases it asks for. The expiry interval in whole seconds must
/// fit in a `u32`, else the settings are refused.
pub fn open_request(config: &DownstreamConfig, desired_stream_id_alias: u32) -> (r: Result<
    (autogen::DownstreamOpenRequest, HashMap<u32, DataId>),
    Error,
>)
    requires
        config.data_ids@.len() <= u32::MAX,
    ensures
        r is Ok <==> config.expiry_interval.secs_part() <= u32::MAX,
        r matches Err(e) ==> e is InvalidValue,
        r matches Ok((req, aliases)) ==> {
            &&& req.request_id == 0
            &&& req.desired_stream_id_alias == desired_stream_id_alias
            &&& filters_view(req.downstream_filters@) == filters_view(config.filters@)
            &&& req.expiry_interval == config.expiry_interval.secs_part()
            &&& req.data_id_aliases@ == aliases@
            &&& numbered_from_one(aliases@, config.data_ids@)
            &&& req.qos == qos_value(config.qos)
            &&& req.omit_empty_chunk == config.omit_empty_chunk
        },
{
    let secs = config.expiry_interval.as_secs();
    if secs > u32::MAX as u64 {
        return Err(Error::invalid_value("expiry_interval overflow"));
    }
    let aliases = data_id_aliases_of(&config.data_ids);
    let req = autogen::DownstreamOpenRequest {
        request_id: 0,
        desired_stream_id_alias,
        downstream_filters: clone_filters(&config.filters),
        expiry_interval: secs as u32,
        data_id_aliases: aliases.clone(),
        qos: config.qos.to_i32(),
        omit_empty_chunk: config.omit_empty_chunk,
    };
    Ok((req, aliases))
}

/// The request that resumes the downstream of the given stream id under the desired stream
/// id alias.
pub fn resume_request(stream_id: u128, desired_stream_id_alias: u32) -> (r:
    autogen::DownstreamResumeRequest)
    ensures
        r.request_id == 0,
        r.stream_id@.len() == 16,
        be_value(r.stream_id@) == stream_id,
        r.desired_stream_id_alias == desired_stream_id_alias,
{
    autogen::DownstreamResumeRequest {
        request_id: 0,
        stream_id: stream_id_to_bytes(stream_id),
        desired_stream_id_alias,
    }
}

/// The request that closes the downstream of the given stream id.
pub fn close_request(stream_id: u128) -> (r: autogen::DownstreamCloseRequest)
    ensures
        r.request_id == 0,
        r.stream_id@.len() == 16,
        be_value(r.stream_id@) == stream_id,
{
    autogen::DownstreamCloseRequest { request_id: 0, stream_id: stream_id_to_bytes(stream_id) }
}

/// The stream id and the server time (nanoseconds since the epoch) that the broker gave a
/// downstream it opened; a stream id not of 16 bytes, or a time before the epoch, is refused.
pub fn opened(response: &autogen::DownstreamOpenResponse) -> (r: Result<(u128, u64), Error>)
    ensures
        r is Ok <==> (response.assigned_stream_id@.len() == 16 && response.server_time >= 0),
        r matches Ok((id, t)) ==> id == be_value(response.assigned_stream_id@) && t
            == response.server_time,
        r matches Err(e) ==> e is InvalidValue,
{
    let stream_id = match parse_stream_id(response.assigned_stream_id.as_slice()) {
        Ok(s) => s,
        Err(e) => {
            return Err(e);
        },
    };
    let server_time = match unix_epoch_to_system_time(response.server_time) {
        Ok(t) => t,
        Err(e) => {
            return Err(e);
        },
    };
    Ok((stream_id, server_time))
}

/// Whether a stream tries to resume after its connection was lost: not when it cannot be
/// resumed (its expiry interval is zero) or it is closing.
pub fn resumes_after_disconnect(expiry_is_zero: bool, cancelled: bool) -> (r: bool)
    ensures
        r == (!expiry_is_zero && !cancelled),
{
    !expiry_is_zero && !cancelled
}

/// Whether a downstream drops empty chunks: when asked to and not reordering, since the
/// reordering needs every sequence number.
pub fn omits_empty_chunks(omit_empty_chunk: bool, reordering_enabled: bool) -> (r: bool)
    ensures
        r == (omit_empty_chunk && !reordering_enabled),
{
    omit_empty_chunk && !reordering_enabled
}

/// Takes in the completion of an acknowledgement: the largest completed acknowledgement id
/// is kept. Tells whether the broker reported success.
pub fn check_chunk_ack_complete(
    complete: &autogen::DownstreamChunkAckComplete,
    ack_id_complete: &mut u32,
) -> (r: bool)
    ensures
        *final(ack_id_complete) == if *old(ack_id_complete) < complete.ack_id {
            complete.ack_id
        } else {
            *old(ack_id_complete)
        },
        r == (complete.result_code == 0),
{
    if *ack_id_complete < complete.ack_id {
        *ack_id_complete = complete.ack_id;
    }
    complete.result_code == 0
}

/// Whether closing may stop waiting for acknowledgements to complete: nothing was issued, or
/// the last issued acknowledgement id has completed.
pub fn ack_complete_reached(last_issued: Option<u32>, ack_id_complete: u32) -> (r: bool)
    ensures
        r == match last_issued {
            Some(l) => l <= ack_id_complete,
            None => true,
        },
{
    match last_issued {
        Some(l) => l <= ack_id_complete,
        None => true,
    }
}

/// The data id that a group of a received chunk stands for, if it can be read: the data id
/// it names, or the one its alias stands for.
pub open spec fn group_data_id(aliases: Map<u32, DataId>, g: DataPointGroupView) -> Option<
    DataIdView,
> {
    match g.data_id_or_alias {
        Some(DataIdOrAliasView::DataId(d)) => Some(d),
        Some(DataIdOrAliasView::DataIdAlias(a)) => if aliases.contains_key(a) {
            Some(aliases[a]@)
        } else {
            None
        },
        None => None,
    }
}

/// Whether every group of a received chunk stands for a data id.
pub open spec fn groups_resolve(aliases: Map<u32, DataId>, gs: Seq<DataPointGroupView>) -> bool {
    forall|i: int| 0 <= i < gs.len() ==> #[trigger] group_data_id(aliases, gs[i]) is Some
}

/// The groups of a received chunk under the data ids they stand for.
pub open spec fn resolved_groups(aliases: Map<u32, DataId>, gs: Seq<DataPointGroupView>) -> Seq<
    (DataIdView, Seq<(i64, Seq<u8>)>),
> {
    gs.map_values(|g: DataPointGroupView| (group_data_id(aliases, g)->Some_0, g.data_points))
}

/// Reads the groups of a received chunk; a group whose data id cannot be read is refused.
fn resolve_groups(state: &State, gs: Vec<autogen::DataPointGroup>) -> (r: Result<
    Vec<DataPointGroup>,
    Error,
>)
    ensures
        r is Ok <==> groups_resolve(state.data_id_aliases(), autogen::groups_view(gs@)),
        r matches Ok(v) ==> user_groups_view(v@) == resolved_groups(
            state.data_id_aliases(),
            autogen::groups_view(gs@),
        ),
        r matches Err(e) ==> e is InvalidValue,
{
    let ghost aliases = state.data_id_aliases();
    let ghost gv = autogen::groups_view(gs@);
    let n = gs.len();
    let mut rest = gs;
    let mut out: Vec<DataPointGroup> = Vec::new();
    let mut k: usize = 0;
    while k < n
        invariant
            aliases == state.data_id_aliases(),
            gv == autogen::groups_view(gs@),
            n == gv.len(),
            k <= n,
            rest@.len() == n - k,
            autogen::groups_view(rest@) == gv.skip(k as int),
            out@.len() == k,
            groups_resolve(aliases, gv.take(k as int)),
            user_groups_view(out@) == resolved_groups(aliases, gv.take(k as int)),
        decreases n - k,
    {
        let g = rest.remove(0);
        proof {
            assert(autogen::groups_view(rest@) =~= gv.skip(k + 1)) by {
                assert forall|j: int| 0 <= j < rest@.len() implies #[trigger] autogen::groups_view(rest@)[j]
                    == gv.skip(k + 1)[j] by {
                    assert(gv.skip(k as int)[j + 1] == gv.skip(k + 1)[j]);
                }
            }
            assert(gv.skip(k as int)[0] == gv[k as int]);
            assert(g@ == gv[k as int]);
        }
        let data_id = match g.data_id_or_alias {
            Some(autogen::DataIdOrAlias::DataId(d)) => d,
            Some(autogen::DataIdOrAlias::DataIdAlias(a)) => match state.get_data_id(a) {
                Some(d) => d,
                None => {
                    proof {
                        assert(group_data_id(aliases, gv[k as int]) is None);
                    }
                    return Err(Error::invalid_value("unknown data id alias"));
                },
            },
            None => {
                proof {
                    assert(group_data_id(aliases, gv[k as int]) is None);
                }
                return Err(Error::invalid_value("invalid data_id_or_alias"));
            },
        };
        let ghost o0 = out@;
        out.push(DataPointGroup { data_id, data_points: g.data_points });
        proof {
            assert(gv.take(k + 1) =~= gv.take(k as int).push(gv[k as int]));
            assert forall|j: int| 0 <= j < k + 1 implies #[trigger] group_data_id(aliases, gv.take(k + 1)[j]) is Some by {
                if j < k {
                    assert(gv.take(k + 1)[j] == gv.take(k as int)[j]);
                }
            }
            assert(user_groups_view(out@) =~= resolved_groups(aliases, gv.take(k + 1))) by {
                assert forall|j: int| 0 <= j < k + 1 implies #[trigger] user_groups_view(out@)[j]
                    == resolved_groups(aliases, gv.take(k + 1))[j] by {
                    if j < k {
                        assert(out@[j] == o0[j]);
                        assert(user_groups_view(o0)[j] == resolved_groups(aliases, gv.take(k as int))[j]);
                    }
                }
            }
        }
        k = k + 1;
    }
    assert(gv.take(n as int) =~= gv);
    Ok(out)
}

/// Whether the results a state waits to acknowledge grew by one result that reports the
/// chunk of the given upstream and sequence number as processed.
pub open spec fn result_added(s0: State, s1: State, stream_id: u128, sequence_number: u32) -> bool {
    &&& s1.pending_results().len() == s0.pending_results().len() + 1
    &&& s1.pending_results().drop_last() == s0.pending_results()
    &&& succeeded_result(s1.pending_results().last(), stream_id, sequence_number)
}

/// Whether reading the received `chunk` took state `s0` to `s1` and gave `r`. A chunk without
/// stream chunk, and an empty one when empty chunks are dropped, gives `None`. A chunk with a
/// group whose data id cannot be read, or whose upstream cannot be read, is refused and
/// changes nothing. Else the chunk comes out with its groups under their data ids and its
/// upstream: new upstream information gets the next alias, and the chunk is recorded as
/// processed, to be acknowledged.
pub open spec fn chunk_read(
    chunk: autogen::DownstreamChunk,
    s0: State,
    s1: State,
    omit_empty_chunk: bool,
    r: Result<Option<DownstreamChunk>, Error>,
) -> bool {
    &&& s1.data_id_aliases() == s0.data_id_aliases()
    &&& s1.last_ack_id() == s0.last_ack_id()
    &&& match chunk.stream_chunk {
        None => r matches Ok(None) && s1 == s0,
        Some(sc) => {
            let gs = autogen::groups_view(sc.data_point_groups@);
            let aliases = s0.data_id_aliases();
            if omit_empty_chunk && gs.len() == 0 {
                r matches Ok(None) && s1 == s0
            } else if !groups_resolve(aliases, gs) {
                r matches Err(e) && e is InvalidValue && s1 == s0
            } else {
                match chunk.upstream_or_alias {
                    None => r matches Err(e) && e is InvalidValue && s1 == s0,
                    Some(autogen::UpstreamOrAlias::UpstreamAlias(a)) => if a < s0.infos().len() {
                        &&& r matches Ok(Some(c)) && c.sequence_number == sc.sequence_number
                            && user_groups_view(c.data_point_groups@) == resolved_groups(aliases, gs)
                            && c.upstream == s0.infos()[a as int]
                            && result_added(s0, s1, c.upstream.stream_id, sc.sequence_number)
                        &&& s1.infos() == s0.infos()
                        &&& s1.pending_aliases() == s0.pending_aliases()
                        &&& s1.last_upstream_alias() == s0.last_upstream_alias()
                    } else {
                        r matches Err(e) && e is InvalidValue && s1 == s0
                    },
                    Some(autogen::UpstreamOrAlias::UpstreamInfo(info)) => match wire_stream_id(info) {
                        None => r matches Err(e) && e is InvalidValue && s1 == s0,
                        Some(id) => {
                            &&& r matches Ok(Some(c)) && c.sequence_number == sc.sequence_number
                                && user_groups_view(c.data_point_groups@) == resolved_groups(aliases, gs)
                                && c.upstream@ == info_view_of(info, id)
                            &&& result_added(s0, s1, id, sc.sequence_number)
                            &&& info_added(s0, s1, info, id)
                        },
                    },
                }
            }
        },
    }
}

/// Reads a received chunk of a downstream. A chunk without stream chunk, and an empty one
/// when empty chunks are dropped, gives `None`. A chunk with a group whose data id cannot
/// be read, or whose upstream cannot be read, is refused and changes nothing. Else the chunk
/// comes out with its groups under their data ids and its upstream: new upstream information
/// gets the next alias, and the chunk is recorded as processed, to be acknowledged.
pub fn convert_downstream_chunk(
    chunk: autogen::DownstreamChunk,
    state: &mut State,
    omit_empty_chunk: bool,
) -> (r: Result<Option<DownstreamChunk>, Error>)
    requires
        old(state).wf(),
        chunk.upstream_or_alias matches Some(autogen::UpstreamOrAlias::UpstreamInfo(info))
            ==> old(state).can_add(info),
    ensures
        final(state).wf(),
        chunk_read(chunk, *old(state), *final(state), omit_empty_chunk, r),
{
    let stream_chunk = match chunk.stream_chunk {
        Some(sc) => sc,
        None => {
            return Ok(None);
        },
    };
    if omit_empty_chunk && stream_chunk.data_point_groups.len() == 0 {
        return Ok(None);
    }
    let sequence_number = stream_chunk.sequence_number;
    let data_point_groups = match resolve_groups(state, stream_chunk.data_point_groups) {
        Ok(v) => v,
        Err(e) => {
            return Err(e);
        },
    };
    let upstream = match chunk.upstream_or_alias {
        Some(autogen::UpstreamOrAlias::UpstreamInfo(info)) => match state.add_upstream_info(info) {
            Ok(u) => u,
            Err(e) => {
                return Err(e);
            },
        },
        Some(autogen::UpstreamOrAlias::UpstreamAlias(alias)) => match state.get_upstream_info(alias) {
            Ok(u) => u,
            Err(e) => {
                return Err(e);
            },
        },
        None => {
            return Err(Error::invalid_value("invalid upstream_or_alias"));
        },
    };
    state.add_sequence_number(upstream.stream_id, sequence_number);
    Ok(Some(DownstreamChunk { sequence_number, data_point_groups, upstream }))
}

/// Reads received wire metadata and makes its acknowledgement (success, "OK", under the same
/// request id). Metadata without content, or whose content cannot be read, is refused.
pub fn convert_downstream_metadata(metadata: autogen::DownstreamMetadata) -> (r: Result<
    (DownstreamMetadata, autogen::DownstreamMetadataAck),
    Error,
>)
    ensures
        r is Ok <==> (metadata.metadata matches Some(m) && readable(m)),
        r matches Err(e) ==> e is InvalidValue,
        r matches Ok((m, ack)) ==> {
            &&& m.source_node_id == metadata.source_node_id
            &&& read_as(metadata.metadata->Some_0, m.metadata)
            &&& ack.request_id == metadata.request_id
            &&& ack.result_code == 0
            &&& ack.result_string@ == seq!['O', 'K']
        },
{
    let content = match &metadata.metadata {
        Some(c) => c,
        None => {
            return Err(Error::invalid_value("invalid metadata"));
        },
    };
    let m = match ReceivableMetadata::from_prost(content) {
        Ok(m) => m,
        Err(e) => {
            return Err(e);
        },
    };
    let ok = "OK".to_owned();
    proof {
        reveal_strlit("OK");
        assert("OK"@ =~= seq!['O', 'K']);
    }
    let ack = autogen::DownstreamMetadataAck {
        request_id: metadata.request_id,
        result_code: 0,
        result_string: ok,
    };
    Ok((DownstreamMetadata { source_node_id: metadata.source_node_id, metadata: m }, ack))
}

} // verus!
