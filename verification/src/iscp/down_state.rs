use vstd::prelude::*;
use vstd::std_specs::iter::IteratorSpec;

use std::collections::HashMap;

use crate::autogen;
use crate::data_id::DataId;
use crate::error::Error;
use crate::iscp::misc::{be_value, parse_stream_id, stream_id_to_bytes};
use crate::iscp::types::{UpstreamInfo, UpstreamInfoView};
use crate::text::str_eq;

verus! {

broadcast use vstd::std_specs::hash::group_hash_axioms;

/// The state of a downstream: aliases it knows and results it has yet to acknowledge.
///
/// The maps are std's `HashMap` with its default hasher: vstd's map specifications hold for a
/// hasher that builds consistent hashers, which vstd states of the default hasher only. The
/// issued upstream information is a `Vec` indexed by alias, since aliases are issued from 0
/// without gaps.
pub struct State {
    data_id_aliases: HashMap<u32, DataId>,
    infos: Vec<UpstreamInfo>,
    for_ack: HashMap<u32, autogen::UpstreamInfo>,
    last_issued_upstream_info_alias: Option<u32>,
    last_issued_chunk_ack_id: Option<u32>,
    results: Vec<autogen::DownstreamChunkResult>,
}

/// A public picture of a downstream state.
pub struct DownstreamState {
    pub data_id_aliases: HashMap<u32, DataId>,
    pub last_issued_data_id_alias: Option<u32>,
    pub upstream_infos: HashMap<u32, UpstreamInfo>,
    pub last_issued_upstream_info_alias: Option<u32>,
    pub last_issued_chunk_ack_id: Option<u32>,
}

/// The number of upstream aliases that a last issued alias accounts for.
pub open spec fn issued_count(last: Option<u32>) -> nat {
    match last {
        None => 0,
        Some(a) => a as nat + 1,
    }
}

/// The stream id that upstream information from the wire carries, if its bytes are one.
pub open spec fn wire_stream_id(info: autogen::UpstreamInfo) -> Option<u128> {
    if info.stream_id@.len() == 16 {
        Some(be_value(info.stream_id@) as u128)
    } else {
        None
    }
}

/// The upstream information that wire information stands for, given its stream id.
pub open spec fn info_view_of(info: autogen::UpstreamInfo, stream_id: u128) -> UpstreamInfoView {
    UpstreamInfoView {
        session_id: info.session_id@,
        stream_id,
        source_node_id: info.source_node_id@,
    }
}

/// The wire result that reports a chunk of the given upstream and sequence number as processed.
pub open spec fn succeeded_result(
    r: autogen::DownstreamChunkResult,
    stream_id: u128,
    sequence_number: u32,
) -> bool {
    &&& r.stream_id_of_upstream@.len() == 16
    &&& be_value(r.stream_id_of_upstream@) == stream_id
    &&& r.sequence_number_in_upstream == sequence_number
    &&& r.result_code == 0
    &&& r.result_string@ == seq!['O', 'K']
}

/// The acknowledgement id that follows the last issued one: 0 first, then one more each
/// time, wrapping around after the largest.
pub open spec fn next_ack_id(last: Option<u32>) -> u32 {
    match last {
        Some(a) => if a == u32::MAX {
            0
        } else {
            (a + 1) as u32
        },
        None => 0,
    }
}

/// How taking in wire information of stream id `id` changes the issued information of a
/// state: known information changes nothing; new information is issued under the next alias
/// and waits to be reported to the broker, with its stream id as 16 bytes.
pub open spec fn info_added(s0: State, s1: State, info: autogen::UpstreamInfo, id: u128) -> bool {
    let v = info_view_of(info, id);
    match s0.index_of_info(v) {
        Some(_) => {
            &&& s1.infos() == s0.infos()
            &&& s1.last_upstream_alias() == s0.last_upstream_alias()
            &&& s1.pending_aliases() == s0.pending_aliases()
        },
        None => {
            let alias = s0.infos().len();
            &&& s1.infos().len() == alias + 1
            &&& s1.infos().drop_last() == s0.infos()
            &&& s1.infos().last()@ == v
            &&& s1.last_upstream_alias() == Some(alias as u32)
            &&& s1.pending_aliases().dom() == s0.pending_aliases().dom().insert(alias as u32)
            &&& forall|k: u32|
                k != alias && #[trigger] s0.pending_aliases().contains_key(k)
                    ==> s1.pending_aliases()[k] == s0.pending_aliases()[k]
            &&& ({
                let a = s1.pending_aliases()[alias as u32];
                &&& a.session_id == info.session_id
                &&& a.source_node_id == info.source_node_id
                &&& a.stream_id@.len() == 16
                &&& be_value(a.stream_id@) == id
            })
        },
    }
}

impl State {
    /// The well-formedness of a state: aliases are issued from 0 upwards without gaps, each
    /// upstream has one alias, and aliases to report lie among the issued ones.
    pub open spec fn wf(&self) -> bool {
        &&& self.infos().len() == issued_count(self.last_upstream_alias())
        &&& forall|i: int, j: int|
            0 <= i < j < self.infos().len() ==> #[trigger] self.infos()[i]@ != #[trigger] self.infos()[j]@
        &&& forall|k: u32| #[trigger] self.pending_aliases().contains_key(k) ==> k < self.infos().len()
    }

    /// The upstream information issued under each alias, in alias order.
    pub closed spec fn infos(&self) -> Seq<UpstreamInfo> {
        self.infos@
    }

    /// The data id aliases of this downstream.
    pub closed spec fn data_id_aliases(&self) -> Map<u32, DataId> {
        self.data_id_aliases@
    }

    /// The results not yet acknowledged.
    pub closed spec fn pending_results(&self) -> Seq<autogen::DownstreamChunkResult> {
        self.results@
    }

    /// The upstream aliases not yet reported to the broker.
    pub closed spec fn pending_aliases(&self) -> Map<u32, autogen::UpstreamInfo> {
        self.for_ack@
    }

    /// The last issued acknowledgement id.
    pub closed spec fn last_ack_id(&self) -> Option<u32> {
        self.last_issued_chunk_ack_id
    }

    /// The last issued upstream alias.
    pub closed spec fn last_upstream_alias(&self) -> Option<u32> {
        self.last_issued_upstream_info_alias
    }

    /// The index of the issued upstream information equal to `v`, if any.
    pub open spec fn index_of_info(&self, v: UpstreamInfoView) -> Option<int> {
        if exists|i: int| 0 <= i < self.infos().len() && #[trigger] self.infos()[i]@ == v {
            Some(choose|i: int| 0 <= i < self.infos().len() && #[trigger] self.infos()[i]@ == v)
        } else {
            None
        }
    }

    /// Whether adding the given wire information can be done without running out of aliases.
    pub open spec fn can_add(&self, info: autogen::UpstreamInfo) -> bool {
        match wire_stream_id(info) {
            None => true,
            Some(id) => self.index_of_info(info_view_of(info, id)) is Some
                || self.last_upstream_alias() != Some(u32::MAX),
        }
    }

    /// A state with the given data id aliases and nothing else.
    pub fn new(data_id_aliases: HashMap<u32, DataId>) -> (r: State)
        ensures
            r.wf(),
            r.data_id_aliases() == data_id_aliases@,
            r.infos() == Seq::<UpstreamInfo>::empty(),
            r.pending_results() == Seq::<autogen::DownstreamChunkResult>::empty(),
            r.pending_aliases() == Map::<u32, autogen::UpstreamInfo>::empty(),
            r.last_ack_id() is None,
            r.last_upstream_alias() is None,
    {
        State {
            data_id_aliases,
            infos: Vec::new(),
            for_ack: HashMap::new(),
            last_issued_upstream_info_alias: None,
            last_issued_chunk_ack_id: None,
            results: Vec::new(),
        }
    }

    /// Records that the chunk of the given upstream and sequence number was processed.
    pub fn add_sequence_number(&mut self, stream_id: u128, sequence_number: u32)
        ensures
            final(self).pending_results().len() == old(self).pending_results().len() + 1,
            final(self).pending_results().drop_last() == old(self).pending_results(),
            succeeded_result(final(self).pending_results().last(), stream_id, sequence_number),
            final(self).infos() == old(self).infos(),
            final(self).pending_aliases() == old(self).pending_aliases(),
            final(self).data_id_aliases() == old(self).data_id_aliases(),
            final(self).last_ack_id() == old(self).last_ack_id(),
            final(self).last_upstream_alias() == old(self).last_upstream_alias(),
    {
        let ok = "OK".to_owned();
        proof {
            reveal_strlit("OK");
            assert("OK"@ =~= seq!['O', 'K']);
        }
        self.results.push(
            autogen::DownstreamChunkResult {
                stream_id_of_upstream: stream_id_to_bytes(stream_id),
                sequence_number_in_upstream: sequence_number,
                result_code: 0,
                result_string: ok,
            },
        );
        assert(self.results@.drop_last() =~= old(self).results@);
    }

    /// Whether adding the given wire information can be done without running out of aliases.
    pub fn can_add_upstream_info(&self, info: &autogen::UpstreamInfo) -> (r: bool)
        requires
            self.wf(),
        ensures
            r == self.can_add(*info),
    {
        match parse_stream_id(info.stream_id.as_slice()) {
            Err(_) => true,
            Ok(stream_id) => {
                let found = self.find_info(&info.session_id, stream_id, &info.source_node_id);
                found.is_some() || match self.last_issued_upstream_info_alias {
                    Some(a) => a != u32::MAX,
                    None => true,
                }
            },
        }
    }

    fn find_info(&self, session_id: &String, stream_id: u128, source_node_id: &String) -> (r:
        Option<usize>)
        requires
            self.wf(),
        ensures
            ({
                let v = UpstreamInfoView {
                    session_id: session_id@,
                    stream_id,
                    source_node_id: source_node_id@,
                };
                match r {
                    Some(i) => self.index_of_info(v) == Some(i as int) && i < self.infos@.len(),
                    None => self.index_of_info(v) is None,
                }
            }),
    {
        let ghost v = UpstreamInfoView {
            session_id: session_id@,
            stream_id,
            source_node_id: source_node_id@,
        };
        let mut i: usize = 0;
        while i < self.infos.len()
            invariant
                self.wf(),
                v == (UpstreamInfoView {
                    session_id: session_id@,
                    stream_id,
                    source_node_id: source_node_id@,
                }),
                i <= self.infos@.len(),
                forall|j: int| 0 <= j < i ==> #[trigger] self.infos@[j]@ != v,
            decreases self.infos@.len() - i,
        {
            let info = &self.infos[i];
            if info.stream_id == stream_id && str_eq(info.session_id.as_str(), session_id.as_str())
                && str_eq(info.source_node_id.as_str(), source_node_id.as_str()) {
                proof {
                    assert(self.infos@[i as int]@ == v);
                    let c = choose|k: int| 0 <= k < self.infos@.len() && #[trigger] self.infos@[k]@ == v;
                    if c != i {
                        if c < i {
                            assert(self.infos@[c]@ != self.infos@[i as int]@);
                        } else {
                            assert(self.infos@[i as int]@ != self.infos@[c]@);
                        }
                    }
                }
                return Some(i);
            }
            i = i + 1;
        }
        None
    }

    /// Adds upstream information received on the wire: the information already issued is
    /// given back as it is; other information gets the next alias and is queued for
    /// acknowledgement.
    pub fn add_upstream_info(&mut self, upstream_info: autogen::UpstreamInfo) -> (r: Result<
        UpstreamInfo,
        Error,
    >)
        requires
            old(self).wf(),
            old(self).can_add(upstream_info),
        ensures
            final(self).wf(),
            final(self).data_id_aliases() == old(self).data_id_aliases(),
            final(self).pending_results() == old(self).pending_results(),
            final(self).last_ack_id() == old(self).last_ack_id(),
            match wire_stream_id(upstream_info) {
                None => {
                    &&& r matches Err(e) && e is InvalidValue
                    &&& *final(self) == *old(self)
                },
                Some(id) => {
                    &&& r matches Ok(info) && info@ == info_view_of(upstream_info, id)
                    &&& info_added(*old(self), *final(self), upstream_info, id)
                    &&& (old(self).index_of_info(info_view_of(upstream_info, id)) is Some
                        ==> *final(self) == *old(self))
                },
            },
    {
        let stream_id = match parse_stream_id(upstream_info.stream_id.as_slice()) {
            Ok(s) => s,
            Err(e) => {
                return Err(e);
            },
        };
        let info = UpstreamInfo {
            session_id: upstream_info.session_id,
            stream_id,
            source_node_id: upstream_info.source_node_id,
        };
        match self.find_info(&info.session_id, stream_id, &info.source_node_id) {
            Some(i) => Ok(self.infos[i].clone()),
            None => {
                let alias: u32 = match self.last_issued_upstream_info_alias {
                    Some(a) => a + 1,
                    None => 0,
                };
                self.last_issued_upstream_info_alias = Some(alias);
                let for_ack = autogen::UpstreamInfo {
                    session_id: info.session_id.clone(),
                    stream_id: stream_id_to_bytes(info.stream_id),
                    source_node_id: info.source_node_id.clone(),
                };
                let ghost v = info@;
                assert(old(self).index_of_info(v) is None);
                assert(forall|i: int| 0 <= i < old(self).infos@.len() ==> #[trigger] old(self).infos@[i]@ != v);
                self.infos.push(info.clone());
                self.for_ack.insert(alias, for_ack);
                proof {
                    assert forall|i: int, j: int|
                        0 <= i < j < self.infos@.len() implies #[trigger] self.infos@[i]@
                        != #[trigger] self.infos@[j]@ by {
                        if j == self.infos@.len() - 1 {
                            assert(old(self).infos@[i] == self.infos@[i]);
                        } else {
                            assert(old(self).infos@[i] == self.infos@[i]);
                            assert(old(self).infos@[j] == self.infos@[j]);
                        }
                    }
                    assert(self.infos@.len() == issued_count(self.last_issued_upstream_info_alias));
                    assert(alias as int == old(self).infos@.len());
                    assert(self.infos@.len() == old(self).infos@.len() + 1);
                    assert(self.for_ack@.dom() == old(self).for_ack@.dom().insert(alias));
                    assert(self.infos@.drop_last() =~= old(self).infos@);
                    assert(self.infos@.last() == info);
                    assert forall|k: u32| #[trigger] self.for_ack@.contains_key(k) implies k < self.infos@.len() by {
                        if k != alias {
                            assert(old(self).pending_aliases().contains_key(k));
                        }
                    }
                }
                Ok(info)
            },
        }
    }

    /// The upstream information issued under `alias`.
    pub fn get_upstream_info(&self, alias: u32) -> (r: Result<UpstreamInfo, Error>)
        requires
            self.wf(),
        ensures
            alias < self.infos().len() ==> (r matches Ok(info) && info == self.infos()[alias as int]),
            alias >= self.infos().len() ==> (r matches Err(e) && e is InvalidValue),
    {
        if (alias as usize) < self.infos.len() {
            Ok(self.infos[alias as usize].clone())
        } else {
            Err(Error::invalid_value("unknown upstream info alias"))
        }
    }

    /// The data id of an alias, if this downstream knows the alias.
    pub fn get_data_id(&self, alias: u32) -> (r: Option<DataId>)
        ensures
            r == (if self.data_id_aliases().contains_key(alias) {
                Some(self.data_id_aliases()[alias])
            } else {
                None
            }),
    {
        match self.data_id_aliases.get(&alias) {
            Some(id) => Some(id.clone()),
            None => None,
        }
    }

    /// Whether taking the acknowledgement took `a` to `b` and gave `r`: nothing pending gives
    /// `None`; else the pending results and upstream aliases go out under the next
    /// acknowledgement id and the given stream id alias. Nothing is pending afterwards.
    pub open spec fn ack_taken(
        a: State,
        b: State,
        stream_id_alias: u32,
        r: Option<autogen::DownstreamChunkAck>,
    ) -> bool {
        &&& b.infos() == a.infos()
        &&& b.data_id_aliases() == a.data_id_aliases()
        &&& b.last_upstream_alias() == a.last_upstream_alias()
        &&& b.pending_results().len() == 0
        &&& b.pending_aliases().is_empty()
        &&& (a.pending_results().len() == 0 && a.pending_aliases().is_empty()) ==> r is None
            && b.last_ack_id() == a.last_ack_id()
        &&& !(a.pending_results().len() == 0 && a.pending_aliases().is_empty()) ==> ({
            let id = next_ack_id(a.last_ack_id());
            &&& r matches Some(ack) && ack.ack_id == id && ack.stream_id_alias == stream_id_alias
                && ack.results@ == a.pending_results() && ack.upstream_aliases@
                == a.pending_aliases() && ack.data_id_aliases@ == Map::<u32, DataId>::empty()
            &&& b.last_ack_id() == Some(id)
        })
    }

    /// Takes the pending results and upstream aliases as an acknowledgement with the next
    /// acknowledgement id; `None` when nothing is pending.
    pub fn take_ack(&mut self, stream_id_alias: u32) -> (r: Option<autogen::DownstreamChunkAck>)
        requires
            old(self).wf(),
        ensures
            final(self).wf(),
            State::ack_taken(*old(self), *final(self), stream_id_alias, r),
    {
        let mut results: Vec<autogen::DownstreamChunkResult> = Vec::new();
        std::mem::swap(&mut results, &mut self.results);
        let mut upstream_aliases: HashMap<u32, autogen::UpstreamInfo> = HashMap::new();
        std::mem::swap(&mut upstream_aliases, &mut self.for_ack);

        if results.len() == 0 && upstream_aliases.len() == 0 {
            proof {
                assert(upstream_aliases@.dom().len() == 0);
                assert(upstream_aliases@.dom() =~= Set::<u32>::empty());
                assert(upstream_aliases@ =~= Map::<u32, autogen::UpstreamInfo>::empty());
            }
            return None;
        }
        proof {
            if old(self).for_ack@.is_empty() {
                assert(old(self).for_ack@.dom() =~= Set::<u32>::empty());
            }
        }
        let ack_id = match self.last_issued_chunk_ack_id {
            Some(a) => a.wrapping_add(1),
            None => 0,
        };
        self.last_issued_chunk_ack_id = Some(ack_id);
        Some(
            autogen::DownstreamChunkAck {
                stream_id_alias,
                ack_id,
                results,
                upstream_aliases,
                data_id_aliases: HashMap::new(),
            },
        )
    }

    /// The last issued acknowledgement id.
    pub fn last_issued_chunk_ack_id(&self) -> (r: Option<u32>)
        ensures
            r == self.last_ack_id(),
    {
        self.last_issued_chunk_ack_id
    }

    /// The largest data id alias, if there is one.
    fn last_data_id_alias(&self) -> (r: Option<u32>)
        ensures
            match r {
                None => forall|k: u32| !self.data_id_aliases().contains_key(k),
                Some(m) => self.data_id_aliases().contains_key(m) && forall|k: u32|
                    #[trigger] self.data_id_aliases().contains_key(k) ==> k <= m,
            },
    {
        let mut best: Option<u32> = None;
        for k in it: self.data_id_aliases.keys()
            invariant
                it.seq() == vstd::std_specs::hash::spec_keys_iter(&self.data_id_aliases).remaining(),
                match best {
                    None => it.index() == 0,
                    Some(m) => exists|t: int| 0 <= t < it.index() && *it.seq()[t] == m,
                },
                forall|t: int| 0 <= t < it.index() ==> (best matches Some(m) && *#[trigger] it.seq()[t] <= m),
        {
            best = match best {
                Some(m) => if m < *k {
                    Some(*k)
                } else {
                    Some(m)
                },
                None => Some(*k),
            };
        }
        proof {
            let v = vstd::std_specs::hash::spec_keys_iter(&self.data_id_aliases).remaining();
            assert(v.unref().to_set() == self.data_id_aliases@.dom());
            match best {
                None => {
                    assert forall|k: u32| !self.data_id_aliases().contains_key(k) by {
                        if self.data_id_aliases().contains_key(k) {
                            assert(v.unref().to_set().contains(k));
                            assert(v.unref().contains(k));
                        }
                    }
                },
                Some(m) => {
                    let t = choose|t: int| 0 <= t < v.len() && *v[t] == m;
                    assert(v.unref()[t] == m);
                    assert(v.unref().to_set().contains(m));
                    assert forall|k: u32| #[trigger] self.data_id_aliases().contains_key(k) implies k <= m by {
                        assert(v.unref().to_set().contains(k));
                        let j = choose|j: int| 0 <= j < v.unref().len() && v.unref()[j] == k;
                        assert(*v[j] == k);
                    }
                },
            }
        }
        best
    }

    /// A picture of the downstream state: its aliases and what it issued.
    pub fn state(&self) -> (r: DownstreamState)
        requires
            self.wf(),
        ensures
            r.data_id_aliases@ == self.data_id_aliases(),
            match r.last_issued_data_id_alias {
                None => forall|k: u32| !self.data_id_aliases().contains_key(k),
                Some(m) => self.data_id_aliases().contains_key(m) && forall|k: u32|
                    #[trigger] self.data_id_aliases().contains_key(k) ==> k <= m,
            },
            forall|k: u32| #[trigger] r.upstream_infos@.contains_key(k) <==> k < self.infos().len(),
            forall|k: u32| k < self.infos().len() ==> #[trigger] r.upstream_infos@[k] == self.infos()[k as int],
            r.last_issued_upstream_info_alias == self.last_upstream_alias(),
            r.last_issued_chunk_ack_id == self.last_ack_id(),
    {
        let mut infos: HashMap<u32, UpstreamInfo> = HashMap::new();
        let n = self.infos.len();
        let mut i: usize = 0;
        while i < n
            invariant
                self.wf(),
                n == self.infos@.len(),
                i <= n,
                forall|k: u32| #[trigger] infos@.contains_key(k) <==> k < i,
                forall|k: u32| k < i ==> #[trigger] infos@[k] == self.infos@[k as int],
            decreases n - i,
        {
            assert(i <= u32::MAX) by {
                assert(self.infos@.len() == issued_count(self.last_issued_upstream_info_alias));
            }
            infos.insert(i as u32, self.infos[i].clone());
            i = i + 1;
        }
        DownstreamState {
            data_id_aliases: self.data_id_aliases.clone(),
            last_issued_data_id_alias: self.last_data_id_alias(),
            upstream_infos: infos,
            last_issued_upstream_info_alias: self.last_issued_upstream_info_alias,
            last_issued_chunk_ack_id: self.last_issued_chunk_ack_id,
        }
    }
}


/// Upstream aliases are issued 0, 1, 2, ... with no gaps: new upstream information gets the
/// alias after the last issued one (0 for the first), lands at that index of the issued
/// information, and no upstream ever holds two aliases.
pub proof fn lemma_aliases_issued_in_order(
    s0: State,
    s1: State,
    info: autogen::UpstreamInfo,
    id: u128,
)
    requires
        s0.wf(),
        s1.wf(),
        info_added(s0, s1, info, id),
        s0.index_of_info(info_view_of(info, id)) is None,
    ensures
        s1.last_upstream_alias() == Some(
            match s0.last_upstream_alias() {
                Some(l) => (l + 1) as u32,
                None => 0u32,
            },
        ),
        s1.infos()[s1.last_upstream_alias().unwrap() as int]@ == info_view_of(info, id),
        forall|i: int, j: int|
            0 <= i < s1.infos().len() && 0 <= j < s1.infos().len() && #[trigger] s1.infos()[i]@
                == #[trigger] s1.infos()[j]@ ==> i == j,
{
    assert forall|i: int, j: int|
        0 <= i < s1.infos().len() && 0 <= j < s1.infos().len() && #[trigger] s1.infos()[i]@
            == #[trigger] s1.infos()[j]@ implies i == j by {
        if i < j {
            assert(s1.infos()[i]@ != s1.infos()[j]@);
        } else if j < i {
            assert(s1.infos()[j]@ != s1.infos()[i]@);
        }
    }
}

} // verus!
