use vstd::prelude::*;
use vstd::std_specs::iter::IteratorSpec;

use std::collections::BTreeMap;

use crate::autogen;
use crate::codes::{result_code_of_value, ResultCode};
use crate::error::Error;
use crate::iscp::types::UpstreamChunkResult;

verus! {

broadcast use vstd::std_specs::btree::group_btree_axioms;

/// The chunks of an upstream kept for sending again, and what the broker acknowledged.
pub struct UpstreamStorage {
    stream_id: u128,
    is_reliable: bool,
    chunks: BTreeMap<u32, autogen::UpstreamChunk>,
    last_received_sequence_number: Option<u32>,
}

/// The distinct numbers of `v`, in increasing order.
pub fn sorted_unique(v: &Vec<u32>) -> (r: Vec<u32>)
    ensures
        r@.to_set() == v@.to_set(),
        forall|i: int, j: int| 0 <= i < j < r@.len() ==> r@[i] < r@[j],
{
    let mut r: Vec<u32> = Vec::new();
    let mut k: usize = 0;
    while k < v.len()
        invariant
            k <= v@.len(),
            r@.to_set() == v@.take(k as int).to_set(),
            forall|i: int, j: int| 0 <= i < j < r@.len() ==> r@[i] < r@[j],
        decreases v@.len() - k,
    {
        let x = v[k];
        let n = r.len();
        let mut p: usize = 0;
        while p < n && r[p] < x
            invariant
                n == r@.len(),
                p <= n,
                forall|j: int| 0 <= j < p ==> r@[j] < x,
            decreases n - p,
        {
            p = p + 1;
        }
        proof {
            assert(v@.take(k + 1) =~= v@.take(k as int).push(x));
            broadcast use vstd::seq_lib::group_seq_properties;

        }
        if p < n && r[p] == x {
            proof {
                assert(r@.to_set().contains(x));
                assert(v@.take(k + 1).to_set() =~= v@.take(k as int).to_set().insert(x));
            }
        } else {
            let ghost old_r = r@;
            r.insert(p, x);
            proof {
                assert(r@ =~= old_r.insert(p as int, x));
                assert forall|i: int, j: int| 0 <= i < j < r@.len() implies r@[i] < r@[j] by {
                    if j < p {
                        assert(r@[i] == old_r[i] && r@[j] == old_r[j]);
                    } else if j == p {
                        assert(r@[i] == old_r[i]);
                    } else if i < p {
                        assert(r@[i] == old_r[i] && r@[j] == old_r[j - 1]);
                        assert(old_r[p as int] > x);
                        if j - 1 > p {
                            assert(old_r[p as int] < old_r[j - 1]);
                        }
                    } else if i == p {
                        assert(r@[j] == old_r[j - 1]);
                        assert(old_r[p as int] > x);
                        if j - 1 > p {
                            assert(old_r[p as int] < old_r[j - 1]);
                        }
                    } else {
                        assert(r@[i] == old_r[i - 1] && r@[j] == old_r[j - 1]);
                    }
                }
                assert forall|y: u32| r@.to_set().contains(y) <==> old_r.to_set().insert(x).contains(y) by {
                    if r@.contains(y) {
                        let t = choose|t: int| 0 <= t < r@.len() && r@[t] == y;
                        if t < p {
                            assert(old_r[t] == y);
                        } else if t > p {
                            assert(old_r[t - 1] == y);
                        }
                    }
                    if old_r.contains(y) {
                        let t = choose|t: int| 0 <= t < old_r.len() && old_r[t] == y;
                        if t < p {
                            assert(r@[t] == y);
                        } else {
                            assert(r@[t + 1] == y);
                        }
                    }
                    if y == x {
                        assert(r@[p as int] == x);
                    }
                }
                assert(r@.to_set() =~= old_r.to_set().insert(x));
                assert(v@.take(k + 1).to_set() =~= v@.take(k as int).to_set().insert(x));
            }
        }
        k = k + 1;
    }
    assert(v@.take(v@.len() as int) =~= v@);
    r
}

/// The plain values of a read result: sequence number, result code, result text.
pub open spec fn result_view(r: UpstreamChunkResult) -> (u32, ResultCode, Seq<char>) {
    (r.sequence_number, r.result_code, r.result_string@)
}

/// The last received sequence number after taking in results: the largest seen.
pub open spec fn fold_last(last: Option<u32>, rs: Seq<autogen::UpstreamChunkResult>) -> Option<u32>
    decreases rs.len(),
{
    if rs.len() == 0 {
        last
    } else {
        let l = fold_last(last, rs.drop_last());
        let s = rs.last().sequence_number;
        match l {
            Some(v) => if v < s {
                Some(s)
            } else {
                l
            },
            None => Some(s),
        }
    }
}

/// The last received sequence number after taking in results is the largest sequence number
/// among the one before and those of the results.
pub proof fn lemma_fold_last_is_max(last: Option<u32>, rs: Seq<autogen::UpstreamChunkResult>)
    ensures
        last matches Some(l) ==> (fold_last(last, rs) matches Some(m) && l <= m),
        forall|i: int| 0 <= i < rs.len() ==> (fold_last(last, rs) matches Some(m) && #[trigger] rs[i].sequence_number <= m),
        fold_last(last, rs) matches Some(m) ==> (last == Some(m) || exists|i: int|
            0 <= i < rs.len() && #[trigger] rs[i].sequence_number == m),
        last is None && rs.len() == 0 ==> fold_last(last, rs) is None,
    decreases rs.len(),
{
    if rs.len() > 0 {
        lemma_fold_last_is_max(last, rs.drop_last());
        assert forall|i: int| 0 <= i < rs.len() implies (fold_last(last, rs) matches Some(m) && #[trigger] rs[i].sequence_number <= m) by {
            if i < rs.len() - 1 {
                assert(rs.drop_last()[i] == rs[i]);
            }
        }
        if let Some(m) = fold_last(last, rs) {
            if m != rs.last().sequence_number {
                if let Some(m2) = fold_last(last, rs.drop_last()) {
                    if last != Some(m) {
                        let i = choose|i: int| 0 <= i < rs.drop_last().len() && #[trigger] rs.drop_last()[i].sequence_number == m2;
                        assert(rs[i].sequence_number == m);
                    }
                }
            } else {
                assert(rs[rs.len() - 1].sequence_number == m);
            }
        }
    }
}

/// A chunk that a reliable upstream keeps stays kept until an acknowledgement reports its
/// sequence number, and is dropped then.
pub proof fn lemma_kept_until_acked(
    stored: Map<u32, autogen::UpstreamChunkView>,
    seq: u32,
    chunk: autogen::UpstreamChunkView,
    rs: Seq<autogen::UpstreamChunkResult>,
)
    ensures
        stored.insert(seq, chunk).remove_keys(acked_numbers(rs)).contains_key(seq)
            <==> !(exists|i: int| 0 <= i < rs.len() && #[trigger] rs[i].sequence_number == seq),
{
}

/// The results whose result code can be read, read.
pub open spec fn converted(rs: Seq<autogen::UpstreamChunkResult>) -> Seq<(u32, ResultCode, Seq<char>)>
    decreases rs.len(),
{
    if rs.len() == 0 {
        Seq::empty()
    } else {
        let r = rs.last();
        match result_code_of_value(r.result_code) {
            Some(c) => converted(rs.drop_last()).push((r.sequence_number, c, r.result_string@)),
            None => converted(rs.drop_last()),
        }
    }
}

/// The sequence numbers that results report.
pub open spec fn acked_numbers(rs: Seq<autogen::UpstreamChunkResult>) -> Set<u32> {
    Set::new(|s: u32| exists|i: int| 0 <= i < rs.len() && #[trigger] rs[i].sequence_number == s)
}

/// Reads a result of the wire: its result code must name one.
pub fn convert_upstream_chunk_result(r: &autogen::UpstreamChunkResult) -> (res: Result<
    UpstreamChunkResult,
    Error,
>)
    ensures
        res is Ok <==> result_code_of_value(r.result_code) is Some,
        res matches Ok(v) ==> result_view(v) == (
            r.sequence_number,
            result_code_of_value(r.result_code)->Some_0,
            r.result_string@,
        ),
        res matches Err(e) ==> e is InvalidValue,
{
    match ResultCode::from_i32(r.result_code) {
        Some(c) => Ok(
            UpstreamChunkResult {
                sequence_number: r.sequence_number,
                result_code: c,
                result_string: r.result_string.clone(),
            },
        ),
        None => Err(Error::invalid_value("invalid result_code")),
    }
}

impl UpstreamStorage {

    /// The stream id of the upstream.
    pub closed spec fn stream(&self) -> u128 {
        self.stream_id
    }

    /// Whether the upstream is reliable, so that chunks are kept until acknowledged.
    pub closed spec fn reliable(&self) -> bool {
        self.is_reliable
    }

    /// The largest acknowledged sequence number.
    pub closed spec fn last_received(&self) -> Option<u32> {
        self.last_received_sequence_number
    }

    /// A storage for the upstream of the given stream id; it keeps chunks only when reliable.
    pub fn new(stream_id: u128, reliable: bool) -> (r: UpstreamStorage)
        ensures
            r.stream() == stream_id,
            r.reliable() == reliable,
            r.stored() == Map::<u32, autogen::UpstreamChunkView>::empty(),
            r.last_received() is None,
    {
        let r = UpstreamStorage {
            stream_id,
            is_reliable: reliable,
            chunks: BTreeMap::new(),
            last_received_sequence_number: None,
        };
        assert(r.stored() =~= Map::<u32, autogen::UpstreamChunkView>::empty());
        r
    }

    /// Takes in a chunk that was sent: a reliable upstream keeps it under its sequence number.
    pub fn add_chunk(&mut self, chunk: autogen::UpstreamChunk)
        requires
            chunk.stream_chunk is Some,
        ensures
            final(self).stream() == old(self).stream(),
            final(self).reliable() == old(self).reliable(),
            final(self).last_received() == old(self).last_received(),
            final(self).stored() == if old(self).reliable() {
                old(self).stored().insert(chunk.stream_chunk->Some_0.sequence_number, chunk@)
            } else {
                old(self).stored()
            },
    {
        let sequence_number = match &chunk.stream_chunk {
            Some(c) => c.sequence_number,
            None => 0,
        };
        if self.is_reliable {
            self.chunks.insert(sequence_number, chunk);
            assert(self.stored() =~= old(self).stored().insert(sequence_number, chunk@));
        }
    }

    /// Takes in an acknowledgement: the last received number becomes the largest seen, a
    /// reliable upstream stops keeping the acknowledged chunks, and the results whose code
    /// can be read are given back, in order.
    pub fn process_ack(&mut self, ack: &autogen::UpstreamChunkAck) -> (r: Vec<UpstreamChunkResult>)
        ensures
            final(self).stream() == old(self).stream(),
            final(self).reliable() == old(self).reliable(),
            final(self).last_received() == fold_last(old(self).last_received(), ack.results@),
            final(self).stored() == if old(self).reliable() {
                old(self).stored().remove_keys(acked_numbers(ack.results@))
            } else {
                old(self).stored()
            },
            r@.map_values(|v: UpstreamChunkResult| result_view(v)) == converted(ack.results@),
    {
        let mut out: Vec<UpstreamChunkResult> = Vec::new();
        let n = ack.results.len();
        let mut i: usize = 0;
        while i < n
            invariant
                n == ack.results@.len(),
                i <= n,
                self.stream() == old(self).stream(),
                self.reliable() == old(self).reliable(),
                self.last_received() == fold_last(old(self).last_received(), ack.results@.take(i as int)),
                self.stored() == if old(self).reliable() {
                    old(self).stored().remove_keys(acked_numbers(ack.results@.take(i as int)))
                } else {
                    old(self).stored()
                },
                out@.map_values(|v: UpstreamChunkResult| result_view(v)) == converted(ack.results@.take(i as int)),
            decreases n - i,
        {
            let result = &ack.results[i];
            let s = result.sequence_number;
            proof {
                assert(ack.results@.take(i + 1).drop_last() =~= ack.results@.take(i as int));
                assert(ack.results@.take(i + 1).last() == ack.results@[i as int]);
            }
            match self.last_received_sequence_number {
                Some(l) => {
                    if l < s {
                        self.last_received_sequence_number = Some(s);
                    }
                },
                None => {
                    self.last_received_sequence_number = Some(s);
                },
            }
            if self.is_reliable {
                self.chunks.remove(&s);
            }
            proof {
                assert(acked_numbers(ack.results@.take(i + 1)) =~= acked_numbers(ack.results@.take(i as int)).insert(s)) by {
                    assert forall|x: u32| acked_numbers(ack.results@.take(i + 1)).contains(x) <==> acked_numbers(ack.results@.take(i as int)).insert(s).contains(x) by {
                        if acked_numbers(ack.results@.take(i + 1)).contains(x) {
                            let t = choose|t: int| 0 <= t < i + 1 && #[trigger] ack.results@.take(i + 1)[t].sequence_number == x;
                            if t < i {
                                assert(ack.results@.take(i as int)[t].sequence_number == x);
                            }
                        }
                        if acked_numbers(ack.results@.take(i as int)).contains(x) {
                            let t = choose|t: int| 0 <= t < i && #[trigger] ack.results@.take(i as int)[t].sequence_number == x;
                            assert(ack.results@.take(i + 1)[t].sequence_number == x);
                        }
                        if x == s {
                            assert(ack.results@.take(i + 1)[i as int].sequence_number == x);
                        }
                    }
                }
                if old(self).reliable() {
                    assert(old(self).stored().remove_keys(acked_numbers(ack.results@.take(i as int))).remove(s)
                        =~= old(self).stored().remove_keys(acked_numbers(ack.results@.take(i as int)).insert(s)));
                    assert(self.stored() =~= old(self).stored().remove_keys(acked_numbers(ack.results@.take(i as int))).remove(s));
                }
            }
            let ghost out0 = out@;
            match convert_upstream_chunk_result(result) {
                Ok(v) => {
                    out.push(v);
                    proof {
                        assert(out@.map_values(|v: UpstreamChunkResult| result_view(v)) =~= out0.map_values(|v: UpstreamChunkResult| result_view(v)).push(result_view(v)));
                    }
                },
                Err(_) => {},
            }
            i = i + 1;
        }
        assert(ack.results@.take(n as int) =~= ack.results@);
        out
    }

    /// The kept chunk of a sequence number, if any.
    pub fn chunk(&self, sequence_number: u32) -> (r: Option<&autogen::UpstreamChunk>)
        ensures
            match r {
                Some(c) => self.stored().contains_key(sequence_number) && c@ == self.stored()[sequence_number],
                None => !self.stored().contains_key(sequence_number),
            },
    {
        self.chunks.get(&sequence_number)
    }

    /// The largest acknowledged sequence number.
    pub fn last_received_sequence_number(&self) -> (r: Option<u32>)
        ensures
            r == self.last_received(),
    {
        self.last_received_sequence_number
    }
    /// The chunks kept, by sequence number.
    pub closed spec fn stored(&self) -> Map<u32, autogen::UpstreamChunkView> {
        self.chunks@.map_values(|c: autogen::UpstreamChunk| c@)
    }

    /// The sequence numbers of the kept chunks, in increasing order.
    pub fn sequence_numbers(&self) -> (r: Vec<u32>)
        ensures
            r@.to_set() == self.stored().dom(),
            forall|i: int, j: int| 0 <= i < j < r@.len() ==> r@[i] < r@[j],
    {
        let mut r: Vec<u32> = Vec::new();
        for k in it: self.chunks.keys()
            invariant
                r@ == it.seq().take(it.index() as int).map_values(|x: &u32| *x),
                it.seq() == vstd::std_specs::btree::spec_keys_iter(&self.chunks).remaining(),
        {
            r.push(*k);
        }
        proof {
            let s = vstd::std_specs::btree::spec_keys_iter(&self.chunks).remaining();
            assert(r@ =~= s.unref());
        }
        sorted_unique(&r)
    }
}


/// Whether a result of the wire carries a result code that can be read.
pub open spec fn result_readable(r: autogen::UpstreamChunkResult) -> bool {
    result_code_of_value(r.result_code) is Some
}

/// The results given to the user for an acknowledgement are those of its results whose
/// code can be read, each read as (sequence number, code, text), in the acknowledgement's
/// order: a lone result gives itself when readable and nothing otherwise, and the results of
/// two runs of results one after the other are the results of the first run followed by
/// those of the second. So none is lost, none is added, and the order is kept.
pub proof fn lemma_converted_keeps_readable_results_in_order(
    a: Seq<autogen::UpstreamChunkResult>,
    b: Seq<autogen::UpstreamChunkResult>,
    r: autogen::UpstreamChunkResult,
)
    ensures
        converted(seq![r]) == if result_readable(r) {
            seq![(r.sequence_number, result_code_of_value(r.result_code)->Some_0, r.result_string@)]
        } else {
            Seq::<(u32, ResultCode, Seq<char>)>::empty()
        },
        converted(a + b) == converted(a) + converted(b),
        converted(a).len() <= a.len(),
    decreases b.len(),
{
    assert(seq![r].drop_last() =~= Seq::<autogen::UpstreamChunkResult>::empty());
    assert(converted(Seq::<autogen::UpstreamChunkResult>::empty()) =~= Seq::empty());
    lemma_converted_len(a);
    if b.len() == 0 {
        assert(a + b =~= a);
        assert(converted(b) =~= Seq::empty());
        assert(converted(a) + converted(b) =~= converted(a));
    } else {
        lemma_converted_keeps_readable_results_in_order(a, b.drop_last(), r);
        assert((a + b).drop_last() =~= a + b.drop_last());
        assert((a + b).last() == b.last());
        let l = b.last();
        match result_code_of_value(l.result_code) {
            Some(c) => {
                assert(converted(a) + converted(b.drop_last()).push((l.sequence_number, c, l.result_string@))
                    =~= (converted(a) + converted(b.drop_last())).push((l.sequence_number, c, l.result_string@)));
            },
            None => {},
        }
    }
}

proof fn lemma_converted_len(a: Seq<autogen::UpstreamChunkResult>)
    ensures
        converted(a).len() <= a.len(),
    decreases a.len(),
{
    if a.len() > 0 {
        lemma_converted_len(a.drop_last());
    }
}


} // verus!
