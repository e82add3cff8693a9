use vstd::multiset::Multiset;
use vstd::prelude::*;

use crate::error::Error;
use crate::iscp::types::DownstreamChunk;

verus! {

/// Reordering of the chunks of a reliable downstream.
#[derive(Clone, Copy, PartialEq, Eq, Debug, Default, Structural)]
pub enum DownstreamReordering {
    /// Chunks are handed out as they come.
    #[default]
    NoReordering,
    /// Chunks are put in order; when too many wait, the first waiting one is handed out.
    BestEffort,
    /// Chunks are put in order; when too many wait, a chunk out of order is an error.
    Strict,
}

/// The chunks of one upstream that wait to be handed out in order.
pub struct StreamSlot {
    pub stream_id: u128,
    pub next: u32,
    pub store: Vec<DownstreamChunk>,
}

/// The reordering state of a downstream.
pub struct DownReorderer {
    enabled: bool,
    strict: bool,
    limit: usize,
    streams: Vec<StreamSlot>,
}

/// Whether the chunks of `s` have strictly increasing sequence numbers.
pub open spec fn sorted_by_seq(s: Seq<DownstreamChunk>) -> bool {
    forall|i: int, j: int|
        0 <= i < j < s.len() ==> #[trigger] s[i].sequence_number < #[trigger] s[j].sequence_number
}

/// The number of leading chunks of `s` whose sequence number is below `k`.
pub open spec fn lower_bound(s: Seq<DownstreamChunk>, k: u32) -> int
    decreases s.len(),
{
    if s.len() == 0 {
        0
    } else if s[0].sequence_number >= k {
        0
    } else {
        1 + lower_bound(s.drop_first(), k)
    }
}

/// `s` with chunk `c` stored under its sequence number, replacing a chunk stored there.
pub open spec fn insert_chunk(s: Seq<DownstreamChunk>, c: DownstreamChunk) -> Seq<DownstreamChunk> {
    let p = lower_bound(s, c.sequence_number);
    if p < s.len() && s[p].sequence_number == c.sequence_number {
        s.update(p, c)
    } else {
        s.insert(p, c)
    }
}

/// The number that follows `n`, wrapping around after the largest.
pub open spec fn next_seq(n: u32) -> u32 {
    if n == u32::MAX {
        0
    } else {
        (n + 1) as u32
    }
}

/// What one step of handing out gives: the chunk handed out, the next expected sequence
/// number, and what stays stored.
pub open spec fn pop_spec(strict: bool, limit: nat, next: u32, store: Seq<DownstreamChunk>) -> Option<
    (DownstreamChunk, u32, Seq<DownstreamChunk>),
> {
    if !strict && store.len() >= limit {
        if store.len() == 0 {
            None
        } else {
            Some((store[0], next_seq(store[0].sequence_number), store.drop_first()))
        }
    } else {
        let p = lower_bound(store, next);
        if p < store.len() && store[p].sequence_number == next {
            Some((store[p], next_seq(next), store.remove(p)))
        } else {
            None
        }
    }
}

/// Handing out chunks until none can be: the chunks handed out, in order, the next expected
/// sequence number, and what stays stored.
pub open spec fn drain_spec(strict: bool, limit: nat, next: u32, store: Seq<DownstreamChunk>) -> (
    Seq<DownstreamChunk>,
    u32,
    Seq<DownstreamChunk>,
)
    decreases store.len(),
{
    if !strict && store.len() >= limit {
        if store.len() == 0 {
            (Seq::empty(), next, store)
        } else {
            let r = drain_spec(strict, limit, next_seq(store[0].sequence_number), store.drop_first());
            (seq![store[0]] + r.0, r.1, r.2)
        }
    } else {
        let p = lower_bound(store, next);
        proof {
            lemma_lower_bound_range(store, next);
        }
        if p < store.len() && store[p].sequence_number == next {
            let r = drain_spec(strict, limit, next_seq(next), store.remove(p));
            (seq![store[p]] + r.0, r.1, r.2)
        } else {
            (Seq::empty(), next, store)
        }
    }
}

proof fn lemma_lower_bound_scan(s: Seq<DownstreamChunk>, k: u32, i: int)
    requires
        0 <= i <= s.len(),
        forall|j: int| 0 <= j < i ==> s[j].sequence_number < k,
        i == s.len() || s[i].sequence_number >= k,
    ensures
        lower_bound(s, k) == i,
    decreases i,
{
    if i > 0 {
        lemma_lower_bound_scan(s.drop_first(), k, i - 1);
    }
}

/// The lower bound lies within the sequence and splits it at the given number.
pub proof fn lemma_lower_bound_range(s: Seq<DownstreamChunk>, k: u32)
    ensures
        0 <= lower_bound(s, k) <= s.len(),
        forall|j: int| 0 <= j < lower_bound(s, k) ==> s[j].sequence_number < k,
        lower_bound(s, k) < s.len() ==> s[lower_bound(s, k)].sequence_number >= k,
    decreases s.len(),
{
    if s.len() > 0 && s[0].sequence_number < k {
        lemma_lower_bound_range(s.drop_first(), k);
        assert forall|j: int| 0 <= j < lower_bound(s, k) implies s[j].sequence_number < k by {
            if j > 0 {
                assert(s[j] == s.drop_first()[j - 1]);
            }
        }
    }
}

proof fn lemma_insert_sorted(s: Seq<DownstreamChunk>, c: DownstreamChunk)
    requires
        sorted_by_seq(s),
    ensures
        sorted_by_seq(insert_chunk(s, c)),
{
    lemma_lower_bound_range(s, c.sequence_number);
    let p = lower_bound(s, c.sequence_number);
    let t = insert_chunk(s, c);
    if p < s.len() && s[p].sequence_number == c.sequence_number {
        assert forall|i: int, j: int| 0 <= i < j < t.len() implies #[trigger] t[i].sequence_number
            < #[trigger] t[j].sequence_number by {
            assert(s[i].sequence_number < s[j].sequence_number || i == p || j == p);
            if i == p {
                assert(s[p].sequence_number < s[j].sequence_number);
            }
            if j == p {
                assert(s[i].sequence_number < s[p].sequence_number);
            }
        }
    } else {
        assert forall|i: int, j: int| 0 <= i < j < t.len() implies #[trigger] t[i].sequence_number
            < #[trigger] t[j].sequence_number by {
            if j < p {
                assert(t[i] == s[i] && t[j] == s[j]);
            } else if j == p {
                assert(t[i] == s[i]);
            } else if i < p {
                assert(t[i] == s[i] && t[j] == s[j - 1]);
                if p < s.len() {
                    assert(s[p].sequence_number > c.sequence_number);
                    if j - 1 > p {
                        assert(s[p].sequence_number < s[j - 1].sequence_number);
                    }
                }
            } else if i == p {
                assert(t[j] == s[j - 1]);
                assert(s[p].sequence_number > c.sequence_number);
                if j - 1 > p {
                    assert(s[p].sequence_number < s[j - 1].sequence_number);
                }
            } else {
                assert(t[i] == s[i - 1] && t[j] == s[j - 1]);
            }
        }
    }
}

proof fn lemma_remove_sorted(s: Seq<DownstreamChunk>, p: int)
    requires
        sorted_by_seq(s),
        0 <= p < s.len(),
    ensures
        sorted_by_seq(s.remove(p)),
        sorted_by_seq(s.drop_first()),
{
    let t = s.remove(p);
    assert forall|i: int, j: int| 0 <= i < j < t.len() implies #[trigger] t[i].sequence_number
        < #[trigger] t[j].sequence_number by {
        let i2 = if i < p { i } else { i + 1 };
        let j2 = if j < p { j } else { j + 1 };
        assert(t[i] == s[i2] && t[j] == s[j2]);
    }
    let d = s.drop_first();
    assert forall|i: int, j: int| 0 <= i < j < d.len() implies #[trigger] d[i].sequence_number
        < #[trigger] d[j].sequence_number by {
        assert(d[i] == s[i + 1] && d[j] == s[j + 1]);
    }
}

/// A chunk that is the next expected one of an upstream with nothing waiting is handed out at
/// once, alone, and the next expected number moves past it.
pub proof fn lemma_in_order_chunk_handed_out(strict: bool, limit: nat, c: DownstreamChunk)
    ensures
        insert_chunk(Seq::empty(), c) == seq![c],
        drain_spec(strict, limit, c.sequence_number, insert_chunk(Seq::empty(), c)) == (
            seq![c],
            next_seq(c.sequence_number),
            Seq::<DownstreamChunk>::empty(),
        ),
{
    let s = seq![c];
    assert(insert_chunk(Seq::empty(), c) =~= s);
    assert(lower_bound(s, c.sequence_number) == 0);
    assert(s.drop_first() =~= Seq::<DownstreamChunk>::empty());
    assert(s.remove(0) =~= Seq::<DownstreamChunk>::empty());
    let e = Seq::<DownstreamChunk>::empty();
    assert(lower_bound(e, next_seq(c.sequence_number)) == 0);
    assert(drain_spec(strict, limit, next_seq(c.sequence_number), e) == (e, next_seq(c.sequence_number), e));
    assert(seq![c] + e =~= seq![c]);
}

proof fn lemma_pop_keeps_chunks(
    strict: bool,
    limit: nat,
    next2: u32,
    store: Seq<DownstreamChunk>,
    p: int,
)
    requires
        0 <= p < store.len(),
        ({
            let r = drain_spec(strict, limit, next2, store.remove(p));
            r.0.to_multiset().add(r.2.to_multiset()) == store.remove(p).to_multiset()
        }),
    ensures
        ({
            let r = drain_spec(strict, limit, next2, store.remove(p));
            (seq![store[p]] + r.0).to_multiset().add(r.2.to_multiset()) == store.to_multiset()
        }),
{
    broadcast use vstd::seq_lib::group_to_multiset_ensures;
    broadcast use vstd::multiset::group_multiset_axioms;

    let r = drain_spec(strict, limit, next2, store.remove(p));
    let x = store[p];
    vstd::seq_lib::lemma_multiset_commutative(seq![x], r.0);
    assert(seq![x] =~= Seq::<DownstreamChunk>::empty().push(x));
    assert(Seq::<DownstreamChunk>::empty().to_multiset() =~= Multiset::empty());
    assert(seq![x].to_multiset() =~= Multiset::empty().insert(x));
    assert(store.contains(x));
    assert(store.to_multiset().count(x) > 0);
    assert(store.remove(p).to_multiset() == store.to_multiset().remove(x));
    let lhs = (seq![x] + r.0).to_multiset().add(r.2.to_multiset());
    assert forall|y: DownstreamChunk| lhs.count(y) == store.to_multiset().count(y) by {
        assert(lhs.count(y) == seq![x].to_multiset().count(y) + store.remove(p).to_multiset().count(y));
    }
    assert(lhs =~= store.to_multiset());
}

/// Handing out loses no chunk and makes none up: the chunks handed out and the chunks that
/// stay stored are, together, the chunks that were stored.
pub proof fn lemma_drain_keeps_chunks(strict: bool, limit: nat, next: u32, store: Seq<DownstreamChunk>)
    ensures
        ({
            let d = drain_spec(strict, limit, next, store);
            d.0.to_multiset().add(d.2.to_multiset()) == store.to_multiset()
        }),
    decreases store.len(),
{
    broadcast use vstd::seq_lib::group_to_multiset_ensures;
    broadcast use vstd::multiset::group_multiset_axioms;

    let d = drain_spec(strict, limit, next, store);
    if !strict && store.len() >= limit {
        if store.len() == 0 {
            assert(d.0.to_multiset() =~= Multiset::empty());
            assert(d.0.to_multiset().add(d.2.to_multiset()) =~= store.to_multiset());
        } else {
            lemma_drain_keeps_chunks(strict, limit, next_seq(store[0].sequence_number), store.drop_first());
            assert(store.drop_first() =~= store.remove(0));
            lemma_pop_keeps_chunks(strict, limit, next_seq(store[0].sequence_number), store, 0);
        }
    } else {
        let p = lower_bound(store, next);
        lemma_lower_bound_range(store, next);
        if p < store.len() && store[p].sequence_number == next {
            lemma_drain_keeps_chunks(strict, limit, next_seq(next), store.remove(p));
            lemma_pop_keeps_chunks(strict, limit, next_seq(next), store, p);
        } else {
            assert(d.0.to_multiset() =~= Multiset::empty());
            assert(d.0.to_multiset().add(d.2.to_multiset()) =~= store.to_multiset());
        }
    }
}

/// In strict mode chunks are handed out in consecutive order: the first is the next expected
/// one, each one after is the one that follows the one before, and the next expected number
/// ends just past the last one handed out.
pub proof fn lemma_strict_drain_consecutive(limit: nat, next: u32, store: Seq<DownstreamChunk>)
    ensures
        ({
            let d = drain_spec(true, limit, next, store);
            &&& d.0.len() > 0 ==> d.0[0].sequence_number == next
            &&& forall|i: int|
                0 <= i < d.0.len() - 1 ==> #[trigger] d.0[i + 1].sequence_number == next_seq(
                    d.0[i].sequence_number,
                )
            &&& d.1 == if d.0.len() == 0 {
                next
            } else {
                next_seq(d.0.last().sequence_number)
            }
        }),
    decreases store.len(),
{
    let p = lower_bound(store, next);
    lemma_lower_bound_range(store, next);
    if p < store.len() && store[p].sequence_number == next {
        lemma_strict_drain_consecutive(limit, next_seq(next), store.remove(p));
        let r = drain_spec(true, limit, next_seq(next), store.remove(p));
        let d = drain_spec(true, limit, next, store);
        assert(d.0 == seq![store[p]] + r.0);
        assert forall|i: int| 0 <= i < d.0.len() - 1 implies #[trigger] d.0[i + 1].sequence_number
            == next_seq(d.0[i].sequence_number) by {
            assert(d.0[i + 1] == r.0[i]);
            assert(d.0[0] == store[p]);
            if i > 0 {
                assert(d.0[i] == r.0[i - 1]);
                assert(r.0[(i - 1) + 1].sequence_number == next_seq(r.0[i - 1].sequence_number));
            }
        }
        if r.0.len() > 0 {
            assert(d.0.last() == r.0.last());
        }
    }
}

impl StreamSlot {
    /// Whether the stored chunks are sorted by sequence number.
    pub open spec fn wf(&self) -> bool {
        sorted_by_seq(self.store@)
    }
}

impl DownReorderer {
    /// Whether reordering is on.
    pub closed spec fn is_enabled(&self) -> bool {
        self.enabled
    }

    /// Whether an out-of-order chunk is refused when too many chunks wait.
    pub closed spec fn is_strict(&self) -> bool {
        self.strict
    }

    /// How many chunks of one upstream may wait.
    pub closed spec fn limit(&self) -> nat {
        self.limit as nat
    }

    /// The waiting chunks of each upstream seen.
    pub closed spec fn slots(&self) -> Seq<StreamSlot> {
        self.streams@
    }

    /// The well-formedness of a reorderer: one slot per upstream, each sorted.
    pub open spec fn wf(&self) -> bool {
        &&& forall|i: int| 0 <= i < self.slots().len() ==> #[trigger] self.slots()[i].wf()
        &&& forall|i: int, j: int|
            0 <= i < j < self.slots().len() ==> #[trigger] self.slots()[i].stream_id
                != #[trigger] self.slots()[j].stream_id
    }

    /// The index of the slot of an upstream, if it has one.
    pub open spec fn slot_index(&self, stream_id: u128) -> Option<int> {
        if exists|i: int| 0 <= i < self.slots().len() && #[trigger] self.slots()[i].stream_id == stream_id {
            Some(choose|i: int| 0 <= i < self.slots().len() && #[trigger] self.slots()[i].stream_id == stream_id)
        } else {
            None
        }
    }

    /// A reorderer for a downstream of the given QoS and reordering setting, which lets at most
    /// `reordering_chunks` chunks of one upstream wait. It is on only for a reliable downstream
    /// with a reordering other than `NoReordering`.
    pub fn new(reliable: bool, reordering: DownstreamReordering, reordering_chunks: usize) -> (r:
        DownReorderer)
        ensures
            r.wf(),
            r.is_enabled() == (reliable && reordering != DownstreamReordering::NoReordering),
            r.is_strict() == (reordering == DownstreamReordering::Strict),
            r.limit() == reordering_chunks,
            r.slots().len() == 0,
    {
        DownReorderer {
            enabled: reliable && reordering != DownstreamReordering::NoReordering,
            strict: reordering == DownstreamReordering::Strict,
            limit: reordering_chunks,
            streams: Vec::new(),
        }
    }

    /// Whether reordering is on.
    pub fn enabled(&self) -> (r: bool)
        ensures
            r == self.is_enabled(),
    {
        self.enabled
    }

    fn find_slot(&self, stream_id: u128) -> (r: Option<usize>)
        requires
            self.wf(),
        ensures
            match r {
                Some(i) => self.slot_index(stream_id) == Some(i as int) && i < self.slots().len(),
                None => self.slot_index(stream_id) is None,
            },
    {
        let mut i: usize = 0;
        while i < self.streams.len()
            invariant
                self.wf(),
                i <= self.streams@.len(),
                forall|j: int| 0 <= j < i ==> #[trigger] self.streams@[j].stream_id != stream_id,
            decreases self.streams@.len() - i,
        {
            if self.streams[i].stream_id == stream_id {
                proof {
                    let c = choose|k: int|
                        0 <= k < self.slots().len() && #[trigger] self.slots()[k].stream_id == stream_id;
                    if c < i {
                        assert(self.slots()[c].stream_id != self.slots()[i as int].stream_id);
                    } else if c > i {
                        assert(self.slots()[i as int].stream_id != self.slots()[c].stream_id);
                    }
                }
                return Some(i);
            }
            i = i + 1;
        }
        None
    }

    /// Hands chunks out of a slot until none can be.
    fn drain(strict: bool, limit: usize, slot: &mut StreamSlot, out: &mut Vec<DownstreamChunk>)
        requires
            old(slot).wf(),
        ensures
            final(slot).wf(),
            final(slot).stream_id == old(slot).stream_id,
            ({
                let r = drain_spec(strict, limit as nat, old(slot).next, old(slot).store@);
                &&& final(out)@ == old(out)@ + r.0
                &&& final(slot).next == r.1
                &&& final(slot).store@ == r.2
            }),
        decreases old(slot).store@.len(),
    {
        if !strict && slot.store.len() >= limit {
            if slot.store.len() == 0 {
                return;
            }
            proof {
                lemma_remove_sorted(slot.store@, 0);
            }
            let c = slot.store.remove(0);
            assert(slot.store@ =~= old(slot).store@.drop_first());
            slot.next = if c.sequence_number == u32::MAX {
                0
            } else {
                c.sequence_number + 1
            };
            out.push(c);
            let ghost mid = out@;
            Self::drain(strict, limit, slot, out);
            assert(final(out)@ =~= old(out)@ + drain_spec(strict, limit as nat, old(slot).next, old(slot).store@).0);
        } else {
            let n = slot.store.len();
            let next = slot.next;
            let mut i: usize = 0;
            while i < n && slot.store[i].sequence_number < next
                invariant
                    n == slot.store@.len(),
                    i <= n,
                    forall|j: int| 0 <= j < i ==> slot.store@[j].sequence_number < next,
                decreases n - i,
            {
                i = i + 1;
            }
            proof {
                lemma_lower_bound_scan(slot.store@, next, i as int);
            }
            if i < n && slot.store[i].sequence_number == next {
                proof {
                    lemma_remove_sorted(slot.store@, i as int);
                }
                let c = slot.store.remove(i);
                slot.next = if next == u32::MAX {
                    0
                } else {
                    next + 1
                };
                out.push(c);
                Self::drain(strict, limit, slot, out);
                assert(final(out)@ =~= old(out)@ + drain_spec(strict, limit as nat, old(slot).next, old(slot).store@).0);
            }
        }
    }

    /// Whether `b` is `a` after taking in `chunk`, with `r` handed out: with reordering off
    /// the chunk itself comes out; in strict mode a chunk that is not the next expected one
    /// while its upstream already has `limit` chunks waiting is refused; else the chunks that
    /// can now be given in order come out and the rest wait.
    pub open spec fn reordered(
        a: DownReorderer,
        b: DownReorderer,
        chunk: DownstreamChunk,
        r: Result<Vec<DownstreamChunk>, Error>,
    ) -> bool {
        &&& b.is_enabled() == a.is_enabled()
        &&& b.is_strict() == a.is_strict()
        &&& b.limit() == a.limit()
        &&& !a.is_enabled() ==> (r matches Ok(v) && v@ == seq![chunk] && b == a)
        &&& a.is_enabled() ==> ({
            let sid = chunk.upstream.stream_id;
            let (next0, store0) = match a.slot_index(sid) {
                Some(i) => (a.slots()[i].next, a.slots()[i].store@),
                None => (chunk.sequence_number, Seq::<DownstreamChunk>::empty()),
            };
            if a.is_strict() && store0.len() >= a.limit()
                && next0 != chunk.sequence_number {
                &&& r matches Err(e) && e == Error::Reordering(sid)
                &&& b.slots() == a.slots()
            } else {
                let d = drain_spec(
                    a.is_strict(),
                    a.limit(),
                    next0,
                    insert_chunk(store0, chunk),
                );
                &&& r matches Ok(v) && v@ == d.0
                &&& b.slot_index(sid) matches Some(k) && b.slots()[k].next
                    == d.1 && b.slots()[k].store@ == d.2
                &&& forall|id: u128|
                    id != sid ==> #[trigger] b.slot_index(id) == a.slot_index(id)
            }
        })
    }

    /// Takes in a chunk and hands out the chunks that can now be given in order. With
    /// reordering off, the chunk itself is handed out. In strict mode, a chunk that is not the
    /// next expected one while the upstream already has `limit` chunks waiting is refused.
    pub fn iter(&mut self, chunk: DownstreamChunk) -> (r: Result<Vec<DownstreamChunk>, Error>)
        requires
            old(self).wf(),
        ensures
            final(self).wf(),
            DownReorderer::reordered(*old(self), *final(self), chunk, r),
    {
        if !self.enabled {
            let mut v = Vec::new();
            v.push(chunk);
            return Ok(v);
        }
        let sid = chunk.upstream.stream_id;
        let found = self.find_slot(sid);
        let mut slot = match found {
            Some(i) => self.streams.remove(i),
            None => StreamSlot { stream_id: sid, next: chunk.sequence_number, store: Vec::new() },
        };
        proof {
            match found {
                Some(i) => {
                    assert(slot == old(self).streams@[i as int]);
                    assert(old(self).slots()[i as int].wf());
                    assert(self.streams@ =~= old(self).streams@.remove(i as int));
                },
                None => {},
            }
        }
        if self.strict && slot.store.len() >= self.limit && slot.next != chunk.sequence_number {
            match found {
                Some(i) => {
                    self.streams.insert(i, slot);
                    assert(self.streams@ =~= old(self).streams@);
                },
                None => {
                    assert(false);
                },
            }
            return Err(Error::Reordering(sid));
        }
        let ghost store0 = slot.store@;
        let ghost next0 = slot.next;
        Self::insert_sorted(&mut slot.store, chunk);
        let mut out: Vec<DownstreamChunk> = Vec::new();
        Self::drain(self.strict, self.limit, &mut slot, &mut out);
        assert(out@ =~= drain_spec(self.strict, self.limit as nat, next0, insert_chunk(store0, chunk)).0);
        match found {
            Some(i) => {
                self.streams.insert(i, slot);
                proof {
                    assert(self.streams@ =~= old(self).streams@.update(i as int, slot));
                    assert forall|a: int, b: int| 0 <= a < b < self.slots().len() implies #[trigger] self.slots()[a].stream_id
                        != #[trigger] self.slots()[b].stream_id by {
                        assert(old(self).slots()[a].stream_id != old(self).slots()[b].stream_id);
                    }
                    assert forall|a: int| 0 <= a < self.slots().len() implies #[trigger] self.slots()[a].wf() by {
                        if a != i {
                            assert(old(self).slots()[a].wf());
                        }
                    }
                    self.lemma_slot_index_unique(sid, i as int);
                    assert forall|id: u128| id != sid implies #[trigger] self.slot_index(id) == old(self).slot_index(id) by {
                        match old(self).slot_index(id) {
                            Some(k) => {
                                assert(old(self).slots()[k].stream_id == id);
                                self.lemma_slot_index_unique(id, k);
                            },
                            None => {
                                assert forall|k: int| 0 <= k < self.slots().len() implies #[trigger] self.slots()[k].stream_id != id by {
                                    if k != i {
                                        assert(old(self).slots()[k].stream_id != id);
                                    }
                                }
                            },
                        }
                    }
                }
            },
            None => {
                self.streams.push(slot);
                proof {
                    let n = old(self).slots().len() as int;
                    assert(self.streams@ =~= old(self).streams@.push(slot));
                    assert forall|a: int, b: int| 0 <= a < b < self.slots().len() implies #[trigger] self.slots()[a].stream_id
                        != #[trigger] self.slots()[b].stream_id by {
                        if b < n {
                            assert(old(self).slots()[a].stream_id != old(self).slots()[b].stream_id);
                        } else {
                            assert(old(self).slots()[a].stream_id != sid);
                        }
                    }
                    assert forall|a: int| 0 <= a < self.slots().len() implies #[trigger] self.slots()[a].wf() by {
                        if a < n {
                            assert(old(self).slots()[a].wf());
                        }
                    }
                    self.lemma_slot_index_unique(sid, n);
                    assert forall|id: u128| id != sid implies #[trigger] self.slot_index(id) == old(self).slot_index(id) by {
                        match old(self).slot_index(id) {
                            Some(k) => {
                                assert(old(self).slots()[k].stream_id == id);
                                assert(self.slots()[k] == old(self).slots()[k]);
                                self.lemma_slot_index_unique(id, k);
                            },
                            None => {
                                assert forall|k: int| 0 <= k < self.slots().len() implies #[trigger] self.slots()[k].stream_id != id by {
                                    if k < n {
                                        assert(old(self).slots()[k].stream_id != id);
                                    }
                                }
                            },
                        }
                    }
                }
            },
        }
        Ok(out)
    }

    proof fn lemma_slot_index_unique(&self, sid: u128, k: int)
        requires
            forall|i: int, j: int|
                0 <= i < j < self.slots().len() ==> #[trigger] self.slots()[i].stream_id
                    != #[trigger] self.slots()[j].stream_id,
            0 <= k < self.slots().len(),
            self.slots()[k].stream_id == sid,
        ensures
            self.slot_index(sid) == Some(k),
    {
        let c = choose|i: int| 0 <= i < self.slots().len() && #[trigger] self.slots()[i].stream_id == sid;
        if c < k {
            assert(self.slots()[c].stream_id != self.slots()[k].stream_id);
        } else if c > k {
            assert(self.slots()[k].stream_id != self.slots()[c].stream_id);
        }
    }

    fn insert_sorted(store: &mut Vec<DownstreamChunk>, chunk: DownstreamChunk)
        requires
            sorted_by_seq(old(store)@),
        ensures
            final(store)@ == insert_chunk(old(store)@, chunk),
            sorted_by_seq(final(store)@),
    {
        let k = chunk.sequence_number;
        let n = store.len();
        let mut i: usize = 0;
        while i < n && store[i].sequence_number < k
            invariant
                n == store@.len(),
                i <= n,
                forall|j: int| 0 <= j < i ==> store@[j].sequence_number < k,
            decreases n - i,
        {
            i = i + 1;
        }
        proof {
            lemma_lower_bound_scan(store@, k, i as int);
            lemma_insert_sorted(store@, chunk);
        }
        if i < n && store[i].sequence_number == k {
            store.set(i, chunk);
        } else {
            store.insert(i, chunk);
        }
    }
}


/// A reorderer hands the first chunk of an upstream it has not seen out at once, whatever its
/// sequence number (a downstream may open on an upstream that is already sending), keeps
/// nothing of it, and then expects the number that follows it.
pub proof fn lemma_first_chunk_of_upstream_goes_out(
    a: DownReorderer,
    b: DownReorderer,
    chunk: DownstreamChunk,
    r: Result<Vec<DownstreamChunk>, Error>,
)
    requires
        a.wf(),
        a.slot_index(chunk.upstream.stream_id) is None,
        DownReorderer::reordered(a, b, chunk, r),
    ensures
        r matches Ok(v) && v@ == seq![chunk],
        a.is_enabled() ==> (b.slot_index(chunk.upstream.stream_id) matches Some(k)
            && b.slots()[k].next == next_seq(chunk.sequence_number) && b.slots()[k].store@.len()
            == 0),
{
    if a.is_enabled() {
        let n = chunk.sequence_number;
        let e = Seq::<DownstreamChunk>::empty();
        assert(lower_bound(e, n) == 0);
        let st = insert_chunk(e, chunk);
        assert(st =~= seq![chunk]);
        assert(lower_bound(st, n) == 0) by {
            assert(st[0].sequence_number >= n);
        }
        let rest = st.remove(0);
        assert(rest =~= e);
        assert(st.drop_first() =~= e);
        let strict = a.is_strict();
        let limit = a.limit();
        let d1 = drain_spec(strict, limit, next_seq(n), e);
        assert(d1 == (e, next_seq(n), e)) by {
            assert(lower_bound(e, next_seq(n)) == 0);
        }
        let d = drain_spec(strict, limit, n, st);
        assert(d.0 =~= seq![chunk] && d.1 == next_seq(n) && d.2 =~= e) by {
            assert(seq![st[0]] + d1.0 =~= seq![chunk]);
        }
    }
}

} // verus!
