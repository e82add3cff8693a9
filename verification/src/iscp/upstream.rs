use vstd::multiset::Multiset;
use vstd::prelude::*;
use vstd::std_specs::iter::IteratorSpec;

use std::collections::HashMap;

use crate::autogen::{
    self, points_view, DataIdOrAliasView, DataPoint, DataPointGroupView, StreamChunkView,
    UpstreamChunkView,
};
use crate::codes::{qos_value, QoS};
use crate::data_id::{DataId, DataIdView};
use crate::duration::Duration;
use crate::error::Error;
use crate::iscp::flush_policy::{flush_needed, FlushPolicy};
use crate::iscp::storage::UpstreamStorage;
use crate::iscp::misc::{be_value, parse_stream_id, stream_id_to_bytes};
use crate::iscp::storage::{acked_numbers, converted, fold_last, result_view};
use crate::iscp::types::{user_groups_view, DataPointGroup, UpstreamChunk, UpstreamChunkResult};
use crate::text::str_eq;

verus! {

/// The number of leading points of `s` whose elapsed time is at most `t`.
pub open spec fn upper_bound(s: Seq<(i64, Seq<u8>)>, t: i64) -> int
    decreases s.len(),
{
    if s.len() == 0 {
        0
    } else if s[0].0 > t {
        0
    } else {
        1 + upper_bound(s.drop_first(), t)
    }
}

/// `s` with `p` put right after the leading points whose elapsed time is at most its own.
pub open spec fn insert_by_time(s: Seq<(i64, Seq<u8>)>, p: (i64, Seq<u8>)) -> Seq<(i64, Seq<u8>)> {
    s.insert(upper_bound(s, p.0), p)
}

/// The points of `s` sorted by elapsed time, points of equal time kept in their order: each
/// point in turn goes after the sorted points before it whose time is at most its own.
pub open spec fn sort_by_time(s: Seq<(i64, Seq<u8>)>) -> Seq<(i64, Seq<u8>)>
    decreases s.len(),
{
    if s.len() == 0 {
        s
    } else {
        insert_by_time(sort_by_time(s.drop_last()), s.last())
    }
}

/// Whether the points of `s` come in order of elapsed time.
pub open spec fn sorted_by_time(s: Seq<(i64, Seq<u8>)>) -> bool {
    forall|i: int, j: int| 0 <= i < j < s.len() ==> #[trigger] s[i].0 <= #[trigger] s[j].0
}

proof fn lemma_upper_bound_scan(s: Seq<(i64, Seq<u8>)>, t: i64, i: int)
    requires
        0 <= i <= s.len(),
        forall|j: int| 0 <= j < i ==> s[j].0 <= t,
        i == s.len() || s[i].0 > t,
    ensures
        upper_bound(s, t) == i,
    decreases i,
{
    if i > 0 {
        lemma_upper_bound_scan(s.drop_first(), t, i - 1);
    }
}

proof fn lemma_upper_bound_range(s: Seq<(i64, Seq<u8>)>, t: i64)
    ensures
        0 <= upper_bound(s, t) <= s.len(),
        forall|j: int| 0 <= j < upper_bound(s, t) ==> s[j].0 <= t,
        upper_bound(s, t) < s.len() ==> s[upper_bound(s, t)].0 > t,
    decreases s.len(),
{
    if s.len() > 0 && s[0].0 <= t {
        lemma_upper_bound_range(s.drop_first(), t);
        assert forall|j: int| 0 <= j < upper_bound(s, t) implies s[j].0 <= t by {
            if j > 0 {
                assert(s[j] == s.drop_first()[j - 1]);
            }
        }
    }
}

proof fn lemma_insert_by_time_sorted(s: Seq<(i64, Seq<u8>)>, p: (i64, Seq<u8>))
    requires
        sorted_by_time(s),
    ensures
        sorted_by_time(insert_by_time(s, p)),
{
    lemma_upper_bound_range(s, p.0);
    let k = upper_bound(s, p.0);
    let r = insert_by_time(s, p);
    assert forall|i: int, j: int| 0 <= i < j < r.len() implies #[trigger] r[i].0 <= #[trigger] r[j].0 by {
        if j < k {
            assert(r[i] == s[i] && r[j] == s[j]);
        } else if j == k {
            assert(r[i] == s[i]);
        } else if i < k {
            assert(r[i] == s[i] && r[j] == s[j - 1]);
            assert(s[i].0 <= s[j - 1].0);
        } else if i == k {
            assert(r[j] == s[j - 1]);
            assert(s[k].0 > p.0);
            if j - 1 > k {
                assert(s[k].0 <= s[j - 1].0);
            }
        } else {
            assert(r[i] == s[i - 1] && r[j] == s[j - 1]);
        }
    }
}

/// Sorting by time puts the points in order of elapsed time.
pub proof fn lemma_sort_by_time_sorted(s: Seq<(i64, Seq<u8>)>)
    ensures
        sorted_by_time(sort_by_time(s)),
    decreases s.len(),
{
    if s.len() > 0 {
        lemma_sort_by_time_sorted(s.drop_last());
        lemma_insert_by_time_sorted(sort_by_time(s.drop_last()), s.last());
    }
}

/// Sorting by time neither loses nor adds a point: the sorted points are the same multiset.
pub proof fn lemma_sort_by_time_permutes(s: Seq<(i64, Seq<u8>)>)
    ensures
        sort_by_time(s).to_multiset() == s.to_multiset(),
    decreases s.len(),
{
    broadcast use vstd::seq_lib::group_to_multiset_ensures;

    if s.len() == 0 {
        assert(sort_by_time(s) == s);
    } else {
        let t = sort_by_time(s.drop_last());
        lemma_sort_by_time_permutes(s.drop_last());
        lemma_upper_bound_range(t, s.last().0);
        vstd::seq_lib::to_multiset_insert(t, upper_bound(t, s.last().0), s.last());
        assert(s =~= s.drop_last().push(s.last()));
        assert(s.to_multiset() == s.drop_last().to_multiset().insert(s.last()));
    }
}

/// The data points sorted by elapsed time, points of equal time kept in their order.
pub fn sort_points(v: Vec<DataPoint>) -> (r: Vec<DataPoint>)
    ensures
        points_view(r@) == sort_by_time(points_view(v@)),
{
    let ghost s = points_view(v@);
    let n = v.len();
    let mut rest = v;
    let mut out: Vec<DataPoint> = Vec::new();
    let mut k: usize = 0;
    while k < n
        invariant
            n == s.len(),
            k <= n,
            rest@.len() == n - k,
            points_view(rest@) == s.skip(k as int),
            out@.len() == k,
            points_view(out@) == sort_by_time(s.take(k as int)),
        decreases n - k,
    {
        let ghost before = points_view(out@);
        let d = rest.remove(0);
        proof {
            assert(points_view(rest@) =~= s.skip(k + 1)) by {
                assert forall|j: int| 0 <= j < rest@.len() implies #[trigger] points_view(rest@)[j]
                    == s.skip(k + 1)[j] by {
                    assert(points_view(rest@)[j] == rest@[j]@);
                    assert(s.skip(k as int)[j + 1] == s.skip(k + 1)[j]);
                }
            }
            assert(d@ == s[k as int]) by {
                assert(s.skip(k as int)[0] == s[k as int]);
            }
        }
        let m = out.len();
        let mut p: usize = 0;
        while p < m && out[p].elapsed_time <= d.elapsed_time
            invariant
                m == out@.len(),
                p <= m,
                before == points_view(out@),
                forall|j: int| 0 <= j < p ==> before[j].0 <= d.elapsed_time,
            decreases m - p,
        {
            proof {
                assert(before[p as int] == out@[p as int]@);
            }
            p = p + 1;
        }
        proof {
            if p < m {
                assert(before[p as int] == out@[p as int]@);
            }
            lemma_upper_bound_scan(before, d.elapsed_time, p as int);
        }
        let ghost o0 = out@;
        out.insert(p, d);
        proof {
            let t = s.take(k + 1);
            assert(t.drop_last() =~= s.take(k as int));
            assert(t.last() == s[k as int]);
            assert(points_view(out@) =~= before.insert(p as int, d@)) by {
                assert forall|j: int| 0 <= j < out@.len() implies #[trigger] points_view(out@)[j]
                    == before.insert(p as int, d@)[j] by {
                    if j < p {
                        assert(out@[j] == o0[j]);
                    } else if j > p {
                        assert(out@[j] == o0[j - 1]);
                    }
                }
            }
        }
        k = k + 1;
    }
    assert(s.take(n as int) =~= s);
    out
}

/// A key under which data points are gathered, compared by its plain values.
pub trait GroupKey: View + Sized {
    /// Whether the two keys have the same plain values.
    fn same_key(&self, other: &Self) -> (r: bool)
        ensures
            r == (self@ == other@),
    ;
}

impl GroupKey for DataId {
    fn same_key(&self, other: &Self) -> (r: bool) {
        str_eq(self.name.as_str(), other.name.as_str()) && str_eq(
            self.type_.as_str(),
            other.type_.as_str(),
        )
    }
}

impl GroupKey for autogen::DataIdOrAlias {
    fn same_key(&self, other: &Self) -> (r: bool) {
        match (self, other) {
            (autogen::DataIdOrAlias::DataId(a), autogen::DataIdOrAlias::DataId(b)) => a.same_key(b),
            (autogen::DataIdOrAlias::DataIdAlias(a), autogen::DataIdOrAlias::DataIdAlias(b)) => *a
                == *b,
            _ => false,
        }
    }
}

/// The keys of `ks` in order of first appearance, each once.
pub open spec fn distinct_keys<V>(ks: Seq<V>) -> Seq<V>
    decreases ks.len(),
{
    if ks.len() == 0 {
        Seq::empty()
    } else {
        let r = distinct_keys(ks.drop_last());
        if r.contains(ks.last()) {
            r
        } else {
            r.push(ks.last())
        }
    }
}

/// The keys of keyed groups.
pub open spec fn keys_of<V>(gs: Seq<(V, Seq<(i64, Seq<u8>)>)>) -> Seq<V> {
    gs.map_values(|g: (V, Seq<(i64, Seq<u8>)>)| g.0)
}

/// The points of all the groups filed under `k`, in order.
pub open spec fn points_under<V>(gs: Seq<(V, Seq<(i64, Seq<u8>)>)>, k: V) -> Seq<(i64, Seq<u8>)>
    decreases gs.len(),
{
    if gs.len() == 0 {
        Seq::empty()
    } else {
        let r = points_under(gs.drop_last(), k);
        if gs.last().0 == k {
            r + gs.last().1
        } else {
            r
        }
    }
}

/// Keyed groups gathered: one group per key, in order of first appearance, holding the points
/// of every group filed under that key, in order.
pub open spec fn gathered<V>(gs: Seq<(V, Seq<(i64, Seq<u8>)>)>) -> Seq<(V, Seq<(i64, Seq<u8>)>)> {
    let ks = distinct_keys(keys_of(gs));
    Seq::new(ks.len(), |i: int| (ks[i], points_under(gs, ks[i])))
}

/// Keyed groups gathered as `gathered` does, with the points of each group sorted by time.
pub open spec fn grouped<V>(gs: Seq<(V, Seq<(i64, Seq<u8>)>)>) -> Seq<(V, Seq<(i64, Seq<u8>)>)> {
    let ks = distinct_keys(keys_of(gs));
    Seq::new(ks.len(), |i: int| (ks[i], sort_by_time(points_under(gs, ks[i]))))
}

/// The plain values of keyed data points.
pub open spec fn keyed_view<K: View>(v: Seq<(K, Vec<DataPoint>)>) -> Seq<(K::V, Seq<(i64, Seq<u8>)>)> {
    v.map_values(|e: (K, Vec<DataPoint>)| (e.0@, points_view(e.1@)))
}

/// Every key of `ks` appears once among the distinct keys, and nothing else does.
pub proof fn lemma_distinct_keys<V>(ks: Seq<V>)
    ensures
        distinct_keys(ks).no_duplicates(),
        forall|k: V| distinct_keys(ks).contains(k) <==> ks.contains(k),
    decreases ks.len(),
{
    if ks.len() > 0 {
        lemma_distinct_keys(ks.drop_last());
        let r = distinct_keys(ks.drop_last());
        assert forall|k: V| distinct_keys(ks).contains(k) <==> ks.contains(k) by {
            if ks.contains(k) {
                let i = choose|i: int| 0 <= i < ks.len() && ks[i] == k;
                if i < ks.len() - 1 {
                    assert(ks.drop_last()[i] == k);
                    assert(ks.drop_last().contains(k));
                    assert(r.contains(k));
                    let t = choose|t: int| 0 <= t < r.len() && r[t] == k;
                    if !r.contains(ks.last()) {
                        assert(r.push(ks.last())[t] == k);
                    }
                } else if !r.contains(ks.last()) {
                    assert(r.push(ks.last())[r.len() as int] == k);
                }
                assert(distinct_keys(ks).contains(k));
            }
            if distinct_keys(ks).contains(k) {
                if r.contains(k) {
                    assert(ks.drop_last().contains(k));
                    let i = choose|i: int| 0 <= i < ks.drop_last().len() && ks.drop_last()[i] == k;
                    assert(ks[i] == k);
                } else {
                    let i = choose|i: int| 0 <= i < distinct_keys(ks).len() && distinct_keys(ks)[i] == k;
                    assert(i == r.len());
                    assert(ks[ks.len() - 1] == k);
                }
            }
        }
        if !r.contains(ks.last()) {
            assert forall|i: int, j: int| 0 <= i < j < r.push(ks.last()).len() implies r.push(ks.last())[i]
                != r.push(ks.last())[j] by {
                if j == r.len() {
                    assert(r[i] == r.push(ks.last())[i]);
                }
            }
        }
    }
}

/// A key under which no group is filed has no points.
pub proof fn lemma_points_under_absent<V>(gs: Seq<(V, Seq<(i64, Seq<u8>)>)>, k: V)
    requires
        !keys_of(gs).contains(k),
    ensures
        points_under(gs, k) == Seq::<(i64, Seq<u8>)>::empty(),
    decreases gs.len(),
{
    if gs.len() > 0 {
        assert(keys_of(gs)[gs.len() - 1] == gs.last().0);
        assert forall|i: int| 0 <= i < gs.drop_last().len() implies keys_of(gs.drop_last())[i] != k by {
            assert(keys_of(gs.drop_last())[i] == keys_of(gs)[i]);
        }
        lemma_points_under_absent(gs.drop_last(), k);
    }
}

proof fn lemma_gathered_present<V>(gs: Seq<(V, Seq<(i64, Seq<u8>)>)>, g: (V, Seq<(i64, Seq<u8>)>), j: int)
    requires
        0 <= j < distinct_keys(keys_of(gs)).len(),
        distinct_keys(keys_of(gs))[j] == g.0,
    ensures
        gathered(gs.push(g)) == gathered(gs).update(j, (g.0, gathered(gs)[j].1 + g.1)),
{
    let s = gs.push(g);
    assert(keys_of(s) =~= keys_of(gs).push(g.0));
    assert(keys_of(s).drop_last() =~= keys_of(gs));
    assert(s.drop_last() =~= gs);
    let ks = distinct_keys(keys_of(gs));
    lemma_distinct_keys(keys_of(gs));
    let old_g = gathered(gs);
    let new_g = gathered(s);
    assert(ks.contains(g.0));
    assert(distinct_keys(keys_of(s)) == ks);
    assert forall|i: int| 0 <= i < ks.len() implies #[trigger] new_g[i] == old_g.update(
        j,
        (g.0, old_g[j].1 + g.1),
    )[i] by {
        if i != j {
            assert(ks[i] != ks[j]);
        }
    }
    assert(new_g =~= old_g.update(j, (g.0, old_g[j].1 + g.1)));
}

proof fn lemma_gathered_absent<V>(gs: Seq<(V, Seq<(i64, Seq<u8>)>)>, g: (V, Seq<(i64, Seq<u8>)>))
    requires
        !distinct_keys(keys_of(gs)).contains(g.0),
    ensures
        gathered(gs.push(g)) == gathered(gs).push((g.0, g.1)),
{
    let s = gs.push(g);
    assert(keys_of(s) =~= keys_of(gs).push(g.0));
    assert(keys_of(s).drop_last() =~= keys_of(gs));
    assert(s.drop_last() =~= gs);
    let ks = distinct_keys(keys_of(gs));
    lemma_distinct_keys(keys_of(gs));
    let old_g = gathered(gs);
    let new_g = gathered(s);
    assert(distinct_keys(keys_of(s)) == ks.push(g.0));
    assert(!keys_of(gs).contains(g.0));
    lemma_points_under_absent(gs, g.0);
    assert(Seq::<(i64, Seq<u8>)>::empty() + g.1 =~= g.1);
    assert forall|i: int| 0 <= i < ks.len() implies #[trigger] new_g[i] == old_g[i] by {
        assert(ks[i] != g.0) by {
            assert(ks.contains(ks[i]));
        }
    }
    assert(new_g =~= old_g.push((g.0, g.1)));
}

/// Gathers keyed data points: one group per key, in order of first appearance, holding the
/// points of every group with that key, sorted by elapsed time (equal times kept in order).
pub fn group_points<K: GroupKey>(gs: Vec<(K, Vec<DataPoint>)>) -> (r: Vec<(K, Vec<DataPoint>)>)
    ensures
        keyed_view(r@) == grouped(keyed_view(gs@)),
{
    let ghost s = keyed_view(gs@);
    let n = gs.len();
    let mut rest = gs;
    let mut out: Vec<(K, Vec<DataPoint>)> = Vec::new();
    let mut k: usize = 0;
    while k < n
        invariant
            n == s.len(),
            k <= n,
            rest@.len() == n - k,
            keyed_view(rest@) == s.skip(k as int),
            keyed_view(out@) == gathered(s.take(k as int)),
            out@.len() == gathered(s.take(k as int)).len(),
        decreases n - k,
    {
        let ghost before = keyed_view(out@);
        let ghost prefix = s.take(k as int);
        let e = rest.remove(0);
        proof {
            assert(keyed_view(rest@) =~= s.skip(k + 1)) by {
                assert forall|j: int| 0 <= j < rest@.len() implies #[trigger] keyed_view(rest@)[j]
                    == s.skip(k + 1)[j] by {
                    assert(s.skip(k as int)[j + 1] == s.skip(k + 1)[j]);
                }
            }
            assert(s.skip(k as int)[0] == s[k as int]);
            assert(s.take(k + 1) =~= prefix.push(s[k as int]));
            lemma_distinct_keys(keys_of(prefix));
        }
        let ghost ev = (e.0@, points_view(e.1@));
        assert(ev == s[k as int]);
        let m = out.len();
        let mut j: usize = 0;
        while j < m && !out[j].0.same_key(&e.0)
            invariant
                m == out@.len(),
                j <= m,
                before == keyed_view(out@),
                forall|t: int| 0 <= t < j ==> before[t].0 != e.0@,
            decreases m - j,
        {
            proof {
                assert(before[j as int].0 == out@[j as int].0@);
            }
            j = j + 1;
        }
        let ks = Ghost(distinct_keys(keys_of(prefix)));
        if j < m {
            proof {
                assert(before[j as int].0 == out@[j as int].0@);
                assert(before[j as int].0 == ks@[j as int]);
                lemma_gathered_present(prefix, ev, j as int);
            }
            let mut entry = out.remove(j);
            let mut pts = e.1;
            entry.1.append(&mut pts);
            let ghost o1 = out@;
            out.insert(j, entry);
            proof {
                assert(keyed_view(out@) =~= before.update(j as int, (ev.0, before[j as int].1 + ev.1))) by {
                    assert forall|t: int| 0 <= t < out@.len() implies #[trigger] keyed_view(out@)[t]
                        == before.update(j as int, (ev.0, before[j as int].1 + ev.1))[t] by {
                        if t < j {
                            assert(out@[t] == o1[t]);
                        } else if t > j {
                            assert(out@[t] == o1[t - 1]);
                        } else {
                            assert(points_view(entry.1@) =~= before[j as int].1 + ev.1);
                        }
                    }
                }
            }
        } else {
            proof {
                assert forall|t: int| 0 <= t < ks@.len() implies ks@[t] != ev.0 by {
                    assert(before[t].0 == ks@[t]);
                }
                lemma_gathered_absent(prefix, ev);
            }
            out.push(e);
            proof {
                assert(keyed_view(out@) =~= before.push((ev.0, ev.1)));
            }
        }
        k = k + 1;
    }
    assert(s.take(n as int) =~= s);
    let ghost g = gathered(s);
    let m = out.len();
    let mut res: Vec<(K, Vec<DataPoint>)> = Vec::new();
    let mut i: usize = 0;
    while i < m
        invariant
            g == gathered(s),
            m == g.len(),
            i <= m,
            out@.len() == m - i,
            keyed_view(out@) == g.skip(i as int),
            res@.len() == i,
            keyed_view(res@) == grouped(s).take(i as int),
        decreases m - i,
    {
        let e = out.remove(0);
        proof {
            assert(keyed_view(out@) =~= g.skip(i + 1)) by {
                assert forall|j: int| 0 <= j < out@.len() implies #[trigger] keyed_view(out@)[j]
                    == g.skip(i + 1)[j] by {
                    assert(g.skip(i as int)[j + 1] == g.skip(i + 1)[j]);
                }
            }
            assert(g.skip(i as int)[0] == g[i as int]);
        }
        let sorted = sort_points(e.1);
        let ghost r0 = res@;
        res.push((e.0, sorted));
        proof {
            assert(grouped(s).len() == m);
            assert(grouped(s)[i as int] == (g[i as int].0, sort_by_time(g[i as int].1)));
            assert(keyed_view(res@)[i as int] == (e.0@, points_view(sorted@)));
            assert(keyed_view(res@) =~= grouped(s).take(i + 1)) by {
                assert forall|j: int| 0 <= j < i + 1 implies #[trigger] keyed_view(res@)[j]
                    == grouped(s).take(i + 1)[j] by {
                    if j < i {
                        assert(res@[j] == r0[j]);
                        assert(keyed_view(r0)[j] == grouped(s).take(i as int)[j]);
                    }
                }
            }
        }
        i = i + 1;
    }
    assert(grouped(s).take(m as int) =~= grouped(s));
    res
}

/// The first alias of `list` that stands for the data id `d`, if any.
pub open spec fn alias_in(list: Seq<(u32, DataIdView)>, d: DataIdView) -> Option<u32>
    decreases list.len(),
{
    if list.len() == 0 {
        None
    } else if list[0].1 == d {
        Some(list[0].0)
    } else {
        alias_in(list.drop_first(), d)
    }
}

/// What a group of data id `d` is filed under in a chunk: its alias when it has one, else
/// the data id itself.
pub open spec fn key_for(list: Seq<(u32, DataIdView)>, d: DataIdView) -> DataIdOrAliasView {
    match alias_in(list, d) {
        Some(a) => DataIdOrAliasView::DataIdAlias(a),
        None => DataIdOrAliasView::DataId(d),
    }
}

/// Buffered groups keyed for a chunk.
pub open spec fn keyed_by_alias(
    list: Seq<(u32, DataIdView)>,
    buf: Seq<(DataIdView, Seq<(i64, Seq<u8>)>)>,
) -> Seq<(DataIdOrAliasView, Seq<(i64, Seq<u8>)>)> {
    buf.map_values(|g: (DataIdView, Seq<(i64, Seq<u8>)>)| (key_for(list, g.0), g.1))
}

/// Keyed groups as the groups of a chunk on the wire.
pub open spec fn wire_groups(gs: Seq<(DataIdOrAliasView, Seq<(i64, Seq<u8>)>)>) -> Seq<
    DataPointGroupView,
> {
    gs.map_values(
        |g: (DataIdOrAliasView, Seq<(i64, Seq<u8>)>)|
            DataPointGroupView { data_points: g.1, data_id_or_alias: Some(g.0) },
    )
}

/// The number of data points that buffered groups hold.
pub open spec fn point_count(buf: Seq<(DataIdView, Seq<(i64, Seq<u8>)>)>) -> nat
    decreases buf.len(),
{
    if buf.len() == 0 {
        0
    } else {
        point_count(buf.drop_last()) + buf.last().1.len()
    }
}

/// The number of payload bytes that data points hold.
pub open spec fn payload_total(s: Seq<(i64, Seq<u8>)>) -> nat
    decreases s.len(),
{
    if s.len() == 0 {
        0
    } else {
        payload_total(s.drop_last()) + s.last().1.len()
    }
}

proof fn lemma_payload_total_prefix(s: Seq<(i64, Seq<u8>)>, i: int)
    requires
        0 <= i <= s.len(),
    ensures
        payload_total(s.take(i)) <= payload_total(s),
    decreases s.len() - i,
{
    if i < s.len() {
        lemma_payload_total_prefix(s, i + 1);
        assert(s.take(i + 1).drop_last() =~= s.take(i));
    } else {
        assert(s.take(i) =~= s);
    }
}

proof fn lemma_alias_scan(list: Seq<(u32, DataIdView)>, d: DataIdView, i: int)
    requires
        0 <= i <= list.len(),
        forall|t: int| 0 <= t < i ==> list[t].1 != d,
        i == list.len() || list[i].1 == d,
    ensures
        alias_in(list, d) == if i < list.len() {
            Some(list[i].0)
        } else {
            None::<u32>
        },
    decreases i,
{
    if i > 0 {
        lemma_alias_scan(list.drop_first(), d, i - 1);
    }
}

proof fn lemma_alias_in_found(list: Seq<(u32, DataIdView)>, d: DataIdView)
    ensures
        alias_in(list, d) matches Some(a) ==> exists|t: int|
            0 <= t < list.len() && #[trigger] list[t] == (a, d),
        alias_in(list, d) is None ==> forall|t: int| 0 <= t < list.len() ==> #[trigger] list[t].1 != d,
    decreases list.len(),
{
    if list.len() > 0 {
        lemma_alias_in_found(list.drop_first(), d);
        if list[0].1 == d {
            assert(list[0] == (list[0].0, d));
        } else {
            if let Some(a) = alias_in(list, d) {
                let t = choose|t: int| 0 <= t < list.drop_first().len() && #[trigger] list.drop_first()[t] == (a, d);
                assert(list[t + 1] == (a, d));
            } else {
                assert forall|t: int| 0 <= t < list.len() implies #[trigger] list[t].1 != d by {
                    if t > 0 {
                        assert(list[t] == list.drop_first()[t - 1]);
                    }
                }
            }
        }
    }
}

/// The groups of a chunk have distinct keys, and their keys are exactly the keys of the
/// groups they gather.
pub proof fn lemma_grouped_keys<V>(gs: Seq<(V, Seq<(i64, Seq<u8>)>)>)
    ensures
        keys_of(grouped(gs)).no_duplicates(),
        forall|k: V| keys_of(grouped(gs)).contains(k) <==> keys_of(gs).contains(k),
{
    let ks = distinct_keys(keys_of(gs));
    lemma_distinct_keys(keys_of(gs));
    assert(keys_of(grouped(gs)) =~= ks);
}

/// A group of a chunk holds, sorted by time, every point filed under its key, and no other.
pub proof fn lemma_grouped_points<V>(gs: Seq<(V, Seq<(i64, Seq<u8>)>)>, i: int)
    requires
        0 <= i < grouped(gs).len(),
    ensures
        sorted_by_time(grouped(gs)[i].1),
        grouped(gs)[i].1.to_multiset() == points_under(gs, grouped(gs)[i].0).to_multiset(),
{
    let p = points_under(gs, grouped(gs)[i].0);
    lemma_sort_by_time_sorted(p);
    lemma_sort_by_time_permutes(p);
}

/// All the points of keyed groups, in order.
pub open spec fn all_points<V>(gs: Seq<(V, Seq<(i64, Seq<u8>)>)>) -> Seq<(i64, Seq<u8>)>
    decreases gs.len(),
{
    if gs.len() == 0 {
        Seq::empty()
    } else {
        all_points(gs.drop_last()) + gs.last().1
    }
}

proof fn lemma_all_points_update<V>(x: Seq<(V, Seq<(i64, Seq<u8>)>)>, j: int, q: Seq<(i64, Seq<u8>)>)
    requires
        0 <= j < x.len(),
    ensures
        all_points(x.update(j, (x[j].0, x[j].1 + q))).to_multiset() == all_points(x).to_multiset().add(
            q.to_multiset(),
        ),
    decreases x.len(),
{
    broadcast use vstd::multiset::group_multiset_axioms;

    let y = x.update(j, (x[j].0, x[j].1 + q));
    if j == x.len() - 1 {
        assert(y.drop_last() =~= x.drop_last());
        vstd::seq_lib::lemma_multiset_commutative(all_points(x.drop_last()), x[j].1 + q);
        vstd::seq_lib::lemma_multiset_commutative(x[j].1, q);
        vstd::seq_lib::lemma_multiset_commutative(all_points(x.drop_last()), x[j].1);
        assert(all_points(y).to_multiset() =~= all_points(x).to_multiset().add(q.to_multiset()));
    } else {
        assert(y.drop_last() =~= x.drop_last().update(j, (x[j].0, x[j].1 + q)));
        assert(x.drop_last()[j] == x[j]);
        lemma_all_points_update(x.drop_last(), j, q);
        vstd::seq_lib::lemma_multiset_commutative(all_points(y.drop_last()), y.last().1);
        vstd::seq_lib::lemma_multiset_commutative(all_points(x.drop_last()), x.last().1);
        assert(all_points(y).to_multiset() =~= all_points(x).to_multiset().add(q.to_multiset()));
    }
}

proof fn lemma_all_points_gathered<V>(gs: Seq<(V, Seq<(i64, Seq<u8>)>)>)
    ensures
        all_points(gathered(gs)).to_multiset() == all_points(gs).to_multiset(),
    decreases gs.len(),
{
    broadcast use vstd::multiset::group_multiset_axioms;

    if gs.len() == 0 {
        assert(distinct_keys(keys_of(gs)) =~= Seq::<V>::empty());
        assert(gathered(gs) =~= Seq::<(V, Seq<(i64, Seq<u8>)>)>::empty());
    } else {
        let prefix = gs.drop_last();
        let g = gs.last();
        assert(gs =~= prefix.push(g));
        lemma_all_points_gathered(prefix);
        let ks = distinct_keys(keys_of(prefix));
        vstd::seq_lib::lemma_multiset_commutative(all_points(prefix), g.1);
        if ks.contains(g.0) {
            let j = choose|j: int| 0 <= j < ks.len() && ks[j] == g.0;
            lemma_gathered_present(prefix, g, j);
            assert(gathered(prefix)[j].0 == g.0);
            lemma_all_points_update(gathered(prefix), j, g.1);
        } else {
            lemma_gathered_absent(prefix, g);
            let x = gathered(prefix).push((g.0, g.1));
            assert(x.drop_last() =~= gathered(prefix));
            vstd::seq_lib::lemma_multiset_commutative(all_points(gathered(prefix)), g.1);
        }
    }
}

proof fn lemma_all_points_same_groups<V>(x: Seq<(V, Seq<(i64, Seq<u8>)>)>, y: Seq<(V, Seq<(i64, Seq<u8>)>)>)
    requires
        x.len() == y.len(),
        forall|i: int| 0 <= i < x.len() ==> #[trigger] x[i].1.to_multiset() == y[i].1.to_multiset(),
    ensures
        all_points(x).to_multiset() == all_points(y).to_multiset(),
    decreases x.len(),
{
    if x.len() > 0 {
        assert forall|i: int| 0 <= i < x.drop_last().len() implies #[trigger] x.drop_last()[i].1.to_multiset()
            == y.drop_last()[i].1.to_multiset() by {
            assert(x.drop_last()[i] == x[i] && y.drop_last()[i] == y[i]);
        }
        lemma_all_points_same_groups(x.drop_last(), y.drop_last());
        vstd::seq_lib::lemma_multiset_commutative(all_points(x.drop_last()), x.last().1);
        vstd::seq_lib::lemma_multiset_commutative(all_points(y.drop_last()), y.last().1);
        assert(x.last().1.to_multiset() == y.last().1.to_multiset()) by {
            assert(x[x.len() - 1].1.to_multiset() == y[x.len() - 1].1.to_multiset());
        }
    }
}

/// Gathering points into the groups of a chunk neither loses nor adds a point: the groups
/// hold, all together, the same multiset of points as the buffered groups.
pub proof fn lemma_grouped_keeps_points<V>(gs: Seq<(V, Seq<(i64, Seq<u8>)>)>)
    ensures
        all_points(grouped(gs)).to_multiset() == all_points(gs).to_multiset(),
{
    let g = gathered(gs);
    let h = grouped(gs);
    assert forall|i: int| 0 <= i < h.len() implies #[trigger] h[i].1.to_multiset() == g[i].1.to_multiset() by {
        lemma_sort_by_time_permutes(g[i].1);
    }
    lemma_all_points_same_groups(h, g);
    lemma_all_points_gathered(gs);
}

proof fn lemma_keyed_point_count(list: Seq<(u32, DataIdView)>, buf: Seq<(DataIdView, Seq<(i64, Seq<u8>)>)>)
    ensures
        all_points(keyed_by_alias(list, buf)).len() == point_count(buf),
    decreases buf.len(),
{
    if buf.len() > 0 {
        assert(keyed_by_alias(list, buf).drop_last() =~= keyed_by_alias(list, buf.drop_last()));
        lemma_keyed_point_count(list, buf.drop_last());
    }
}

/// The chunk taken from buffered groups holds exactly as many data points as the buffer did,
/// which is what the count of flushed data points grows by.
pub proof fn lemma_chunk_point_count(list: Seq<(u32, DataIdView)>, buf: Seq<(DataIdView, Seq<(i64, Seq<u8>)>)>)
    ensures
        all_points(grouped(keyed_by_alias(list, buf))).len() == point_count(buf),
{
    broadcast use vstd::seq_lib::group_to_multiset_ensures;

    let k = keyed_by_alias(list, buf);
    lemma_grouped_keeps_points(k);
    lemma_keyed_point_count(list, buf);
    assert(all_points(grouped(k)).to_multiset().len() == all_points(k).to_multiset().len());
}

/// The data points of buffered groups gathered by data id, for the user: one group per data
/// id, in order of first appearance, its points sorted by elapsed time.
pub fn callback_groups(dpgs: &Vec<DataPointGroup>) -> (r: Vec<DataPointGroup>)
    ensures
        user_groups_view(r@) == grouped(user_groups_view(dpgs@)),
{
    let mut pairs: Vec<(DataId, Vec<DataPoint>)> = Vec::new();
    let mut i: usize = 0;
    while i < dpgs.len()
        invariant
            i <= dpgs@.len(),
            pairs@.len() == i,
            keyed_view(pairs@) == user_groups_view(dpgs@).take(i as int),
        decreases dpgs@.len() - i,
    {
        let g = dpgs[i].clone();
        let ghost p0 = pairs@;
        pairs.push((g.data_id, g.data_points));
        proof {
            assert(keyed_view(pairs@) =~= user_groups_view(dpgs@).take(i + 1)) by {
                assert forall|j: int| 0 <= j < i + 1 implies #[trigger] keyed_view(pairs@)[j]
                    == user_groups_view(dpgs@).take(i + 1)[j] by {
                    if j < i {
                        assert(pairs@[j] == p0[j]);
                        assert(keyed_view(p0)[j] == user_groups_view(dpgs@).take(i as int)[j]);
                    }
                }
            }
        }
        i = i + 1;
    }
    assert(user_groups_view(dpgs@).take(dpgs@.len() as int) =~= user_groups_view(dpgs@));
    let grouped_pairs = group_points(pairs);
    let ghost gv = keyed_view(grouped_pairs@);
    let n = grouped_pairs.len();
    let mut rest = grouped_pairs;
    let mut out: Vec<DataPointGroup> = Vec::new();
    let mut k: usize = 0;
    while k < n
        invariant
            n == gv.len(),
            k <= n,
            rest@.len() == n - k,
            keyed_view(rest@) == gv.skip(k as int),
            out@.len() == k,
            user_groups_view(out@) == gv.take(k as int),
        decreases n - k,
    {
        let e = rest.remove(0);
        proof {
            assert(keyed_view(rest@) =~= gv.skip(k + 1)) by {
                assert forall|j: int| 0 <= j < rest@.len() implies #[trigger] keyed_view(rest@)[j]
                    == gv.skip(k + 1)[j] by {
                    assert(gv.skip(k as int)[j + 1] == gv.skip(k + 1)[j]);
                }
            }
            assert(gv.skip(k as int)[0] == gv[k as int]);
        }
        let ghost o0 = out@;
        out.push(DataPointGroup { data_id: e.0, data_points: e.1 });
        proof {
            assert(user_groups_view(out@) =~= gv.take(k + 1)) by {
                assert forall|j: int| 0 <= j < k + 1 implies #[trigger] user_groups_view(out@)[j]
                    == gv.take(k + 1)[j] by {
                    if j < k {
                        assert(out@[j] == o0[j]);
                        assert(user_groups_view(o0)[j] == gv.take(k as int)[j]);
                    }
                }
            }
        }
        k = k + 1;
    }
    assert(gv.take(n as int) =~= gv);
    out
}

/// Gathered keyed groups as the groups of a chunk on the wire.
fn to_wire_groups(v: Vec<(autogen::DataIdOrAlias, Vec<DataPoint>)>) -> (r: Vec<
    autogen::DataPointGroup,
>)
    ensures
        autogen::groups_view(r@) == wire_groups(keyed_view(v@)),
{
    let ghost gv = keyed_view(v@);
    let n = v.len();
    let mut rest = v;
    let mut out: Vec<autogen::DataPointGroup> = Vec::new();
    let mut k: usize = 0;
    while k < n
        invariant
            n == gv.len(),
            k <= n,
            rest@.len() == n - k,
            keyed_view(rest@) == gv.skip(k as int),
            out@.len() == k,
            autogen::groups_view(out@) == wire_groups(gv.take(k as int)),
        decreases n - k,
    {
        let e = rest.remove(0);
        proof {
            assert(keyed_view(rest@) =~= gv.skip(k + 1)) by {
                assert forall|j: int| 0 <= j < rest@.len() implies #[trigger] keyed_view(rest@)[j]
                    == gv.skip(k + 1)[j] by {
                    assert(gv.skip(k as int)[j + 1] == gv.skip(k + 1)[j]);
                }
            }
            assert(gv.skip(k as int)[0] == gv[k as int]);
        }
        let ghost o0 = out@;
        out.push(autogen::DataPointGroup { data_points: e.1, data_id_or_alias: Some(e.0) });
        proof {
            assert(autogen::groups_view(out@) =~= wire_groups(gv.take(k + 1))) by {
                assert forall|j: int| 0 <= j < k + 1 implies #[trigger] autogen::groups_view(out@)[j]
                    == wire_groups(gv.take(k + 1))[j] by {
                    if j < k {
                        assert(out@[j] == o0[j]);
                        assert(autogen::groups_view(o0)[j] == wire_groups(gv.take(k as int))[j]);
                    }
                }
            }
        }
        k = k + 1;
    }
    assert(gv.take(n as int) =~= gv);
    out
}

/// The settings of an upstream.
pub struct UpstreamConfig {
    /// The session the upstream belongs to.
    pub session_id: String,
    /// How often the broker acknowledges chunks.
    pub ack_interval: Duration,
    /// How long the upstream may be resumed after a disconnection; zero for never.
    pub expiry_interval: Duration,
    /// The data ids to ask aliases for.
    pub data_ids: Vec<DataId>,
    /// The QoS of the stream.
    pub qos: QoS,
    /// Whether the broker stores the data.
    pub persist: bool,
    /// When buffered data points are sent.
    pub flush_policy: FlushPolicy,
    /// How long closing waits for the last acknowledgement.
    pub close_timeout: Duration,
}

impl Default for UpstreamConfig {
    /// An unreliable, not persisted upstream of no session and no data ids, acknowledged every
    /// 100 ms, resumable for 60 s, flushed by the default policy, closing within 10 s.
    fn default() -> (r: UpstreamConfig)
        ensures
            r.session_id@ == Seq::<char>::empty(),
            r.ack_interval.wf() && r.ack_interval.total_nanos() == 100_000_000,
            r.expiry_interval.wf() && r.expiry_interval.total_nanos() == 60_000_000_000,
            r.data_ids@ == Seq::<DataId>::empty(),
            r.qos == QoS::Unreliable,
            !r.persist,
            r.flush_policy matches FlushPolicy::IntervalOnly { interval } && interval.wf()
                && interval.total_nanos() == 100_000_000,
            r.close_timeout.wf() && r.close_timeout.total_nanos() == 10_000_000_000,
    {
        UpstreamConfig {
            session_id: String::new(),
            ack_interval: Duration::from_millis(100),
            expiry_interval: Duration::from_secs(60),
            data_ids: Vec::new(),
            qos: QoS::Unreliable,
            persist: false,
            flush_policy: FlushPolicy::default(),
            close_timeout: Duration::from_secs(10),
        }
    }
}

/// The request that opens an upstream of the given settings: the acknowledgement interval in
/// whole milliseconds and the expiry interval in whole seconds must each fit in a `u32`, else
/// the settings are refused, the acknowledgement interval first.
pub fn open_request(config: &UpstreamConfig) -> (r: Result<autogen::UpstreamOpenRequest, Error>)
    ensures
        ({
            let ms = config.ack_interval.secs_part() as nat * 1000 + config.ack_interval.nanos_part() as nat / 1_000_000;
            let secs = config.expiry_interval.secs_part();
            &&& r is Ok <==> (ms <= u32::MAX && secs <= u32::MAX)
            &&& r matches Err(e) ==> e is InvalidValue
            &&& r matches Ok(req) ==> {
                &&& req.request_id == 0
                &&& req.session_id@ == config.session_id@
                &&& req.ack_interval == ms
                &&& req.expiry_interval == secs
                &&& req.data_ids@ == config.data_ids@
                &&& req.qos == qos_value(config.qos)
                &&& req.extension_fields == Some(
                    autogen::UpstreamOpenRequestExtensionFields { persist: config.persist },
                )
            }
        }),
{
    let ms = config.ack_interval.as_millis();
    if ms > u32::MAX as u128 {
        return Err(Error::invalid_value("ack_interval overflow"));
    }
    let secs = config.expiry_interval.as_secs();
    if secs > u32::MAX as u64 {
        return Err(Error::invalid_value("expiry_interval overflow"));
    }
    let mut data_ids: Vec<DataId> = Vec::new();
    let mut i: usize = 0;
    while i < config.data_ids.len()
        invariant
            i <= config.data_ids@.len(),
            data_ids@ == config.data_ids@.take(i as int),
        decreases config.data_ids@.len() - i,
    {
        data_ids.push(config.data_ids[i].clone());
        assert(config.data_ids@.take(i + 1) =~= config.data_ids@.take(i as int).push(config.data_ids@[i as int]));
        i = i + 1;
    }
    assert(config.data_ids@.take(config.data_ids@.len() as int) =~= config.data_ids@);
    Ok(
        autogen::UpstreamOpenRequest {
            request_id: 0,
            session_id: config.session_id.clone(),
            ack_interval: ms as u32,
            expiry_interval: secs as u32,
            data_ids,
            qos: config.qos.to_i32(),
            extension_fields: Some(
                autogen::UpstreamOpenRequestExtensionFields { persist: config.persist },
            ),
        },
    )
}

/// The request that resumes the upstream of the given stream id.
pub fn resume_request(stream_id: u128) -> (r: autogen::UpstreamResumeRequest)
    ensures
        r.request_id == 0,
        r.stream_id@.len() == 16,
        be_value(r.stream_id@) == stream_id,
{
    autogen::UpstreamResumeRequest { request_id: 0, stream_id: stream_id_to_bytes(stream_id) }
}

/// A picture of an upstream's state.
pub struct UpstreamState {
    /// The data id aliases the broker assigned.
    pub data_id_aliases: HashMap<u32, DataId>,
    /// The number of data points flushed, wrapping around.
    pub total_data_points: u64,
    /// The last issued sequence number, if a chunk was issued (never 0).
    pub last_issued_sequence_number: Option<u32>,
    /// The buffered data points.
    pub data_points_buffer: Vec<DataPointGroup>,
    /// The payload bytes buffered.
    pub buffer_payload_size: usize,
}

/// Options for closing an upstream.
#[derive(Clone, Copy, Debug, PartialEq, Eq, Structural)]
pub struct UpstreamCloseOptions {
    /// Whether the session closes with the upstream.
    pub close_session: bool,
}

impl Default for UpstreamCloseOptions {
    fn default() -> (r: UpstreamCloseOptions)
        ensures
            !r.close_session,
    {
        UpstreamCloseOptions { close_session: false }
    }
}

/// How far an upstream has come in closing.
#[derive(Clone, Copy, Debug, PartialEq, Eq, Structural)]
pub enum ClosePhase {
    /// Open: buffered data points are flushed when the flush policy calls for it.
    Open,
    /// Closing with these options: the last chunk's acknowledgement is awaited.
    Closing(Option<UpstreamCloseOptions>),
    /// The close request is out; nothing more is sent.
    Closed,
}

/// What happens to an upstream.
pub enum UpstreamEvent {
    /// The user asked for a flush, or the flush policy called for one.
    FlushRequested,
    /// The flush interval of the flush policy elapsed.
    FlushIntervalElapsed,
    /// The broker acknowledged chunks.
    Ack(autogen::UpstreamChunkAck),
    /// The user asked to close the upstream, with these options.
    CloseRequested(Option<UpstreamCloseOptions>),
    /// The close timeout elapsed while the last acknowledgement was awaited.
    CloseTimedOut,
}

/// What an upstream asks its driver to do, in order.
pub enum UpstreamAction {
    /// Send this chunk, and hand the chunk for the user to the user.
    SendChunk(autogen::UpstreamChunk, UpstreamChunk),
    /// Hand these results of acknowledged chunks to the user.
    DeliverResults(Vec<UpstreamChunkResult>),
    /// Wait, up to the close timeout, for the acknowledgement of this sequence number.
    AwaitLastAck(u32),
    /// Send this close request; the upstream is then closed.
    SendClose(autogen::UpstreamCloseRequest),
}

/// What an upstream keeps between writes and flushes: the data id aliases the broker gave,
/// the buffered data points, the counters, and the chunks it sent.
pub struct UpstreamFlusher {
    stream_id: u128,
    stream_id_alias: u32,
    data_id_aliases: HashMap<u32, DataId>,
    rev_data_id_aliases: Vec<(u32, DataId)>,
    total_data_points: u64,
    last_issued_sequence_number: u32,
    data_points_buffer: Vec<DataPointGroup>,
    buffer_payload_size: usize,
    storage: UpstreamStorage,
    phase: ClosePhase,
}

impl UpstreamFlusher {
    /// The stream id of the upstream.
    pub closed spec fn stream(&self) -> u128 {
        self.stream_id
    }

    /// The stream id alias the broker assigned.
    pub closed spec fn alias(&self) -> u32 {
        self.stream_id_alias
    }

    /// The data id aliases the broker assigned.
    pub closed spec fn aliases(&self) -> Map<u32, DataId> {
        self.data_id_aliases@
    }

    /// The data id aliases, in the order in which a data id's alias is looked up.
    pub closed spec fn alias_list(&self) -> Seq<(u32, DataIdView)> {
        self.rev_data_id_aliases@.map_values(|p: (u32, DataId)| (p.0, p.1@))
    }

    /// The number of data points flushed so far, wrapping around.
    pub closed spec fn total(&self) -> u64 {
        self.total_data_points
    }

    /// The last issued sequence number; 0 before the first chunk.
    pub closed spec fn last_issued(&self) -> u32 {
        self.last_issued_sequence_number
    }

    /// The buffered groups, in order of writing.
    pub closed spec fn buffer(&self) -> Seq<(DataIdView, Seq<(i64, Seq<u8>)>)> {
        user_groups_view(self.data_points_buffer@)
    }

    /// The payload bytes written since the last flush, wrapping around.
    pub closed spec fn payload_size(&self) -> usize {
        self.buffer_payload_size
    }

    /// The chunks kept for sending again.
    pub closed spec fn kept(&self) -> UpstreamStorage {
        self.storage
    }

    /// How far the upstream has come in closing.
    pub closed spec fn phase(&self) -> ClosePhase {
        self.phase
    }

    /// The well-formedness of a flusher: the lookup list holds exactly the data id aliases.
    pub open spec fn wf(&self) -> bool {
        &&& forall|t: int|
            0 <= t < self.alias_list().len() ==> self.aliases().contains_key(
                #[trigger] self.alias_list()[t].0,
            ) && self.aliases()[self.alias_list()[t].0]@ == self.alias_list()[t].1
        &&& forall|a: u32| #[trigger]
            self.aliases().contains_key(a) ==> exists|t: int|
                0 <= t < self.alias_list().len() && #[trigger] self.alias_list()[t] == (
                    a,
                    self.aliases()[a]@,
                )
    }

    /// A flusher for a newly opened upstream, with nothing buffered or sent yet.
    pub fn new(
        stream_id: u128,
        stream_id_alias: u32,
        data_id_aliases: HashMap<u32, DataId>,
        reliable: bool,
    ) -> (r: UpstreamFlusher)
        ensures
            r.wf(),
            r.stream() == stream_id,
            r.alias() == stream_id_alias,
            r.aliases() == data_id_aliases@,
            r.total() == 0,
            r.last_issued() == 0,
            r.buffer() == Seq::<(DataIdView, Seq<(i64, Seq<u8>)>)>::empty(),
            r.payload_size() == 0,
            r.kept().stream() == stream_id,
            r.kept().reliable() == reliable,
            r.kept().stored() == Map::<u32, autogen::UpstreamChunkView>::empty(),
            r.kept().last_received() is None,
            r.phase() == ClosePhase::Open,
    {
        broadcast use vstd::std_specs::hash::group_hash_axioms;

        let mut list: Vec<(u32, DataId)> = Vec::new();
        for (k, v) in it: data_id_aliases.iter()
            invariant
                it.seq() == vstd::std_specs::hash::spec_hash_map_iter(&data_id_aliases).remaining(),
                list@.len() == it.index(),
                forall|t: int|
                    0 <= t < it.index() ==> #[trigger] list@[t] == (*it.seq()[t].0, *it.seq()[t].1),
        {
            let ghost before = list@;
            list.push((*k, v.clone()));
            proof {
                assert forall|t: int| 0 <= t < it.index() + 1 implies #[trigger] list@[t] == (
                    *it.seq()[t].0,
                    *it.seq()[t].1,
                ) by {
                    if t < it.index() {
                        assert(list@[t] == before[t]);
                    }
                }
            }
        }
        let r = UpstreamFlusher {
            stream_id,
            stream_id_alias,
            data_id_aliases,
            rev_data_id_aliases: list,
            total_data_points: 0,
            last_issued_sequence_number: 0,
            data_points_buffer: Vec::new(),
            buffer_payload_size: 0,
            storage: UpstreamStorage::new(stream_id, reliable),
            phase: ClosePhase::Open,
        };
        proof {
            let v = vstd::std_specs::hash::spec_hash_map_iter(&r.data_id_aliases).remaining();
            assert(list@.len() == v.len());
            assert forall|t: int| 0 <= t < r.alias_list().len() implies r.aliases().contains_key(
                #[trigger] r.alias_list()[t].0,
            ) && r.aliases()[r.alias_list()[t].0]@ == r.alias_list()[t].1 by {
                assert(list@[t] == (*v[t].0, *v[t].1));
                assert(r.aliases().contains_key(*v[t].0));
            }
            assert forall|a: u32| #[trigger] r.aliases().contains_key(a) implies exists|t: int|
                0 <= t < r.alias_list().len() && #[trigger] r.alias_list()[t] == (
                    a,
                    r.aliases()[a]@,
                ) by {
                assert(v.contains((&a, &r.aliases()[a])));
                let t = choose|t: int| 0 <= t < v.len() && v[t] == (&a, &r.aliases()[a]);
                assert(list@[t] == (a, r.aliases()[a]));
                assert(r.alias_list()[t] == (a, r.aliases()[a]@));
            }
            assert(r.buffer() =~= Seq::<(DataIdView, Seq<(i64, Seq<u8>)>)>::empty());
        }
        r
    }

    proof fn lemma_wf_kept(a: &Self, b: &Self)
        requires
            a.wf(),
            a.aliases() == b.aliases(),
            a.alias_list() == b.alias_list(),
        ensures
            b.wf(),
    {
        assert forall|x: u32| #[trigger] b.aliases().contains_key(x) implies exists|t: int|
            0 <= t < b.alias_list().len() && #[trigger] b.alias_list()[t] == (x, b.aliases()[x]@) by {
            assert(a.aliases().contains_key(x));
            let t = choose|t: int| 0 <= t < a.alias_list().len() && #[trigger] a.alias_list()[t] == (x, a.aliases()[x]@);
            assert(b.alias_list()[t] == (x, b.aliases()[x]@));
        }
    }

    /// The key under which the data points of `data_id` go into a chunk: its alias when the
    /// broker gave it one, else the data id itself.
    fn key_of(&self, data_id: &DataId) -> (r: autogen::DataIdOrAlias)
        ensures
            r@ == key_for(self.alias_list(), data_id@),
    {
        let n = self.rev_data_id_aliases.len();
        let mut i: usize = 0;
        while i < n && !self.rev_data_id_aliases[i].1.same_key(data_id)
            invariant
                n == self.alias_list().len(),
                i <= n,
                forall|t: int| 0 <= t < i ==> self.alias_list()[t].1 != data_id@,
            decreases n - i,
        {
            proof {
                assert(self.alias_list()[i as int].1 == self.rev_data_id_aliases@[i as int].1@);
            }
            i = i + 1;
        }
        proof {
            if i < n {
                assert(self.alias_list()[i as int].1 == self.rev_data_id_aliases@[i as int].1@);
            }
            lemma_alias_scan(self.alias_list(), data_id@, i as int);
        }
        if i < n {
            autogen::DataIdOrAlias::DataIdAlias(self.rev_data_id_aliases[i].0)
        } else {
            autogen::DataIdOrAlias::DataId(data_id.clone())
        }
    }

    /// Buffers the data points of one data id and tells whether the flush policy now calls for
    /// a flush. The payload size buffered grows by the payload bytes written, wrapping around.
    pub fn write_data_points(
        &mut self,
        data_id: DataId,
        dps: Vec<DataPoint>,
        flush_policy: &FlushPolicy,
    ) -> (r: bool)
        requires
            old(self).wf(),
            payload_total(points_view(dps@)) <= usize::MAX,
        ensures
            final(self).wf(),
            final(self).phase() == old(self).phase(),
            final(self).stream() == old(self).stream(),
            final(self).alias() == old(self).alias(),
            final(self).aliases() == old(self).aliases(),
            final(self).alias_list() == old(self).alias_list(),
            final(self).total() == old(self).total(),
            final(self).last_issued() == old(self).last_issued(),
            final(self).kept() == old(self).kept(),
            final(self).buffer() == old(self).buffer().push((data_id@, points_view(dps@))),
            final(self).payload_size() == vstd::wrapping::usize_specs::wrapping_add(
                old(self).payload_size(),
                payload_total(points_view(dps@)) as usize,
            ),
            r == flush_needed(*flush_policy, final(self).payload_size()),
            *flush_policy == FlushPolicy::Immediately ==> r,
    {
        let ghost pv = points_view(dps@);
        let mut add_size: usize = 0;
        let mut i: usize = 0;
        while i < dps.len()
            invariant
                pv == points_view(dps@),
                payload_total(pv) <= usize::MAX,
                i <= dps@.len(),
                add_size == payload_total(pv.take(i as int)),
            decreases dps@.len() - i,
        {
            proof {
                assert(pv.take(i + 1).drop_last() =~= pv.take(i as int));
                lemma_payload_total_prefix(pv, i + 1);
            }
            add_size = add_size + dps[i].payload.len();
            i = i + 1;
        }
        assert(pv.take(dps@.len() as int) =~= pv);
        let ghost b0 = self.data_points_buffer@;
        self.data_points_buffer.push(DataPointGroup { data_id, data_points: dps });
        assert(self.buffer() =~= old(self).buffer().push((data_id@, pv)));
        self.buffer_payload_size = self.buffer_payload_size.wrapping_add(add_size);
        proof {
            Self::lemma_wf_kept(old(self), self);
        }
        flush_policy.need_flush(self.buffer_payload_size)
    }

    /// Takes the buffered data points as the next chunk. With nothing buffered, `None`. Else
    /// the chunk holds, under the next sequence number, one group per data id alias (or data
    /// id, for a data id without alias), in order of first appearance, its points sorted by
    /// elapsed time; with `with_callback`, the same points gathered by data id come along for
    /// the user. The payload size buffered drops to 0 either way, and the number of data
    /// points flushed grows by those taken, wrapping around.
    pub fn take_chunk(&mut self, with_callback: bool) -> (r: Option<
        (autogen::UpstreamChunk, Vec<DataPointGroup>),
    >)
        requires
            old(self).wf(),
            old(self).buffer().len() > 0 ==> old(self).last_issued() < u32::MAX,
        ensures
            final(self).wf(),
            final(self).phase() == old(self).phase(),
            final(self).stream() == old(self).stream(),
            final(self).alias() == old(self).alias(),
            final(self).aliases() == old(self).aliases(),
            final(self).alias_list() == old(self).alias_list(),
            final(self).kept() == old(self).kept(),
            final(self).buffer() == Seq::<(DataIdView, Seq<(i64, Seq<u8>)>)>::empty(),
            final(self).payload_size() == 0,
            old(self).buffer().len() == 0 ==> {
                &&& r is None
                &&& final(self).total() == old(self).total()
                &&& final(self).last_issued() == old(self).last_issued()
            },
            old(self).buffer().len() > 0 ==> {
                let seq = (old(self).last_issued() + 1) as u32;
                &&& r matches Some((chunk, cb)) && chunk@ == (UpstreamChunkView {
                    stream_id_alias: old(self).alias(),
                    stream_chunk: Some(
                        StreamChunkView {
                            sequence_number: seq,
                            data_point_groups: wire_groups(
                                grouped(keyed_by_alias(old(self).alias_list(), old(self).buffer())),
                            ),
                        },
                    ),
                    data_ids: Seq::empty(),
                }) && user_groups_view(cb@) == if with_callback {
                    grouped(old(self).buffer())
                } else {
                    Seq::empty()
                }
                &&& final(self).last_issued() == seq
                &&& final(self).total() as int == (old(self).total() + point_count(old(self).buffer()))
                    % 0x1_0000_0000_0000_0000
            },
    {
        self.buffer_payload_size = 0;
        let mut dpgs: Vec<DataPointGroup> = Vec::new();
        std::mem::swap(&mut dpgs, &mut self.data_points_buffer);
        proof {
            Self::lemma_wf_kept(old(self), self);
            assert(self.buffer() =~= Seq::<(DataIdView, Seq<(i64, Seq<u8>)>)>::empty());
        }
        if dpgs.len() == 0 {
            return None;
        }
        let cb = if with_callback {
            callback_groups(&dpgs)
        } else {
            Vec::new()
        };
        let ghost buf = user_groups_view(dpgs@);
        let ghost list = self.alias_list();
        let n = dpgs.len();
        let mut rest = dpgs;
        let mut keyed: Vec<(autogen::DataIdOrAlias, Vec<DataPoint>)> = Vec::new();
        let mut total = self.total_data_points;
        let mut k: usize = 0;
        while k < n
            invariant
                n == buf.len(),
                k <= n,
                list == self.alias_list(),
                rest@.len() == n - k,
                user_groups_view(rest@) == buf.skip(k as int),
                keyed@.len() == k,
                keyed_view(keyed@) == keyed_by_alias(list, buf.take(k as int)),
                total as int == (old(self).total() + point_count(buf.take(k as int)))
                    % 0x1_0000_0000_0000_0000,
            decreases n - k,
        {
            let g = rest.remove(0);
            let len = g.data_points.len();
            proof {
                assert(user_groups_view(rest@) =~= buf.skip(k + 1)) by {
                    assert forall|j: int| 0 <= j < rest@.len() implies #[trigger] user_groups_view(rest@)[j]
                        == buf.skip(k + 1)[j] by {
                        assert(buf.skip(k as int)[j + 1] == buf.skip(k + 1)[j]);
                    }
                }
                assert(buf.skip(k as int)[0] == buf[k as int]);
                assert(buf.take(k + 1).drop_last() =~= buf.take(k as int));
                assert(buf.take(k + 1).last() == buf[k as int]);
                let c = old(self).total() + point_count(buf.take(k as int));
                vstd::arithmetic::div_mod::lemma_add_mod_noop(c, len as int, 0x1_0000_0000_0000_0000);
                vstd::arithmetic::div_mod::lemma_small_mod(len as nat, 0x1_0000_0000_0000_0000);
            }
            total = total.wrapping_add(len as u64);
            let key = self.key_of(&g.data_id);
            let ghost k0 = keyed@;
            keyed.push((key, g.data_points));
            proof {
                assert(keyed_view(keyed@) =~= keyed_by_alias(list, buf.take(k + 1))) by {
                    assert forall|j: int| 0 <= j < k + 1 implies #[trigger] keyed_view(keyed@)[j]
                        == keyed_by_alias(list, buf.take(k + 1))[j] by {
                        if j < k {
                            assert(keyed@[j] == k0[j]);
                            assert(keyed_view(k0)[j] == keyed_by_alias(list, buf.take(k as int))[j]);
                        }
                    }
                }
            }
            k = k + 1;
        }
        assert(buf.take(n as int) =~= buf);
        let groups = group_points(keyed);
        let data_point_groups = to_wire_groups(groups);
        let sequence_number = self.last_issued_sequence_number + 1;
        self.last_issued_sequence_number = sequence_number;
        self.total_data_points = total;
        let chunk = autogen::UpstreamChunk {
            stream_id_alias: self.stream_id_alias,
            stream_chunk: Some(autogen::StreamChunk { sequence_number, data_point_groups }),
            data_ids: Vec::new(),
        };
        proof {
            Self::lemma_wf_kept(old(self), self);
            assert(chunk@.data_ids =~= Seq::<DataIdView>::empty());
            if !with_callback {
                assert(user_groups_view(cb@) =~= Seq::<(DataIdView, Seq<(i64, Seq<u8>)>)>::empty());
            }
        }
        Some((chunk, cb))
    }

    /// Flushes the buffered data points: takes them as the next chunk, which a reliable
    /// upstream keeps for sending again, and gives the chunk to send with the chunk for the
    /// user (whose groups are empty unless `with_callback`). With nothing buffered, `None`.
    pub fn flush(&mut self, with_callback: bool) -> (r: Option<(autogen::UpstreamChunk, UpstreamChunk)>)
        requires
            old(self).wf(),
            old(self).buffer().len() > 0 ==> old(self).last_issued() < u32::MAX,
        ensures
            final(self).wf(),
            final(self).phase() == old(self).phase(),
            final(self).stream() == old(self).stream(),
            final(self).alias() == old(self).alias(),
            final(self).aliases() == old(self).aliases(),
            final(self).alias_list() == old(self).alias_list(),
            final(self).buffer() == Seq::<(DataIdView, Seq<(i64, Seq<u8>)>)>::empty(),
            final(self).payload_size() == 0,
            final(self).kept().stream() == old(self).kept().stream(),
            final(self).kept().reliable() == old(self).kept().reliable(),
            final(self).kept().last_received() == old(self).kept().last_received(),
            old(self).buffer().len() == 0 ==> {
                &&& r is None
                &&& final(self).total() == old(self).total()
                &&& final(self).last_issued() == old(self).last_issued()
                &&& final(self).kept() == old(self).kept()
            },
            old(self).buffer().len() > 0 ==> {
                let seq = (old(self).last_issued() + 1) as u32;
                &&& r matches Some((chunk, user)) && chunk@ == (UpstreamChunkView {
                    stream_id_alias: old(self).alias(),
                    stream_chunk: Some(
                        StreamChunkView {
                            sequence_number: seq,
                            data_point_groups: wire_groups(
                                grouped(keyed_by_alias(old(self).alias_list(), old(self).buffer())),
                            ),
                        },
                    ),
                    data_ids: Seq::empty(),
                }) && user.sequence_number == seq && user_groups_view(user.data_point_groups@)
                    == if with_callback {
                    grouped(old(self).buffer())
                } else {
                    Seq::empty()
                } && final(self).kept().stored() == if old(self).kept().reliable() {
                    old(self).kept().stored().insert(seq, chunk@)
                } else {
                    old(self).kept().stored()
                }
                &&& final(self).last_issued() == seq
                &&& final(self).total() as int == (old(self).total() + point_count(old(self).buffer()))
                    % 0x1_0000_0000_0000_0000
            },
    {
        match self.take_chunk(with_callback) {
            None => None,
            Some((chunk, dpgs)) => {
                let sequence_number = self.last_issued_sequence_number;
                let copy = chunk.clone();
                self.storage.add_chunk(copy);
                proof {
                    Self::lemma_wf_kept(old(self), self);
                }
                Some((chunk, UpstreamChunk { sequence_number, data_point_groups: dpgs }))
            },
        }
    }

    /// Takes in an acknowledgement of chunks: a reliable upstream stops keeping the
    /// acknowledged chunks, and the results whose result code can be read are given back, in
    /// order, for the user.
    pub fn process_ack(&mut self, ack: &autogen::UpstreamChunkAck) -> (r: Vec<UpstreamChunkResult>)
        requires
            old(self).wf(),
        ensures
            final(self).wf(),
            final(self).phase() == old(self).phase(),
            final(self).stream() == old(self).stream(),
            final(self).alias() == old(self).alias(),
            final(self).aliases() == old(self).aliases(),
            final(self).alias_list() == old(self).alias_list(),
            final(self).buffer() == old(self).buffer(),
            final(self).payload_size() == old(self).payload_size(),
            final(self).total() == old(self).total(),
            final(self).last_issued() == old(self).last_issued(),
            final(self).kept().stream() == old(self).kept().stream(),
            final(self).kept().reliable() == old(self).kept().reliable(),
            final(self).kept().last_received() == fold_last(
                old(self).kept().last_received(),
                ack.results@,
            ),
            final(self).kept().stored() == if old(self).kept().reliable() {
                old(self).kept().stored().remove_keys(acked_numbers(ack.results@))
            } else {
                old(self).kept().stored()
            },
            r@.map_values(|v: UpstreamChunkResult| result_view(v)) == converted(ack.results@),
    {
        let r = self.storage.process_ack(ack);
        proof {
            Self::lemma_wf_kept(old(self), self);
        }
        r
    }

    /// The largest acknowledged sequence number.
    pub fn last_received_sequence_number(&self) -> (r: Option<u32>)
        ensures
            r == self.kept().last_received(),
    {
        self.storage.last_received_sequence_number()
    }

    /// The last issued sequence number; 0 before the first chunk.
    pub fn last_issued_sequence_number(&self) -> (r: u32)
        ensures
            r == self.last_issued(),
    {
        self.last_issued_sequence_number
    }

    /// Whether the sequence numbers have run out, so that the upstream must close.
    pub fn reached_max_sequence_number(&self) -> (r: bool)
        ensures
            r == (self.last_issued() == u32::MAX),
    {
        self.last_issued_sequence_number == u32::MAX
    }

    /// Whether the last issued chunk is acknowledged, which closing waits for.
    pub fn last_chunk_acked(&self) -> (r: bool)
        ensures
            r == (self.kept().last_received() == Some(self.last_issued())),
    {
        match self.storage.last_received_sequence_number() {
            Some(n) => n == self.last_issued_sequence_number,
            None => false,
        }
    }

    /// How far the upstream has come in closing.
    pub fn close_phase(&self) -> (r: ClosePhase)
        ensures
            r == self.phase(),
    {
        self.phase
    }

    /// The stream id of the upstream.
    pub fn stream_id(&self) -> (r: u128)
        ensures
            r == self.stream(),
    {
        self.stream_id
    }

    /// The stream id alias in use.
    pub fn stream_id_alias(&self) -> (r: u32)
        ensures
            r == self.alias(),
    {
        self.stream_id_alias
    }

    /// Takes the stream id alias that a resume assigned.
    pub fn set_stream_id_alias(&mut self, alias: u32)
        requires
            old(self).wf(),
        ensures
            final(self).wf(),
            final(self).phase() == old(self).phase(),
            final(self).alias() == alias,
            final(self).stream() == old(self).stream(),
            final(self).aliases() == old(self).aliases(),
            final(self).alias_list() == old(self).alias_list(),
            final(self).buffer() == old(self).buffer(),
            final(self).payload_size() == old(self).payload_size(),
            final(self).total() == old(self).total(),
            final(self).last_issued() == old(self).last_issued(),
            final(self).kept() == old(self).kept(),
    {
        self.stream_id_alias = alias;
        proof {
            Self::lemma_wf_kept(old(self), self);
        }
    }

    /// The sequence numbers of the chunks kept for sending again, in increasing order.
    pub fn kept_sequence_numbers(&self) -> (r: Vec<u32>)
        ensures
            r@.to_set() == self.kept().stored().dom(),
            forall|i: int, j: int| 0 <= i < j < r@.len() ==> r@[i] < r@[j],
    {
        self.storage.sequence_numbers()
    }

    /// The kept chunk of a sequence number, if any.
    pub fn kept_chunk(&self, sequence_number: u32) -> (r: Option<&autogen::UpstreamChunk>)
        ensures
            match r {
                Some(c) => self.kept().stored().contains_key(sequence_number) && c@
                    == self.kept().stored()[sequence_number],
                None => !self.kept().stored().contains_key(sequence_number),
            },
    {
        self.storage.chunk(sequence_number)
    }

    /// The request that closes this upstream: its stream id, the number of data points sent,
    /// the last sequence number, and the close options when given.
    pub fn close_request(&self, opts: Option<UpstreamCloseOptions>) -> (r: autogen::UpstreamCloseRequest)
        ensures
            r.request_id == 0,
            r.stream_id@.len() == 16,
            be_value(r.stream_id@) == self.stream(),
            r.total_data_points == self.total(),
            r.final_sequence_number == self.last_issued(),
            r.extension_fields == match opts {
                Some(o) => Some(autogen::UpstreamCloseRequestExtensionFields { close_session: o.close_session }),
                None => None,
            },
    {
        let extension_fields = match opts {
            Some(o) => Some(autogen::UpstreamCloseRequestExtensionFields { close_session: o.close_session }),
            None => None,
        };
        autogen::UpstreamCloseRequest {
            request_id: 0,
            stream_id: stream_id_to_bytes(self.stream_id),
            total_data_points: self.total_data_points,
            final_sequence_number: self.last_issued_sequence_number,
            extension_fields,
        }
    }

    /// Whether `req` is the request that closes this upstream with `opts`.
    pub open spec fn closes_with(
        &self,
        req: autogen::UpstreamCloseRequest,
        opts: Option<UpstreamCloseOptions>,
    ) -> bool {
        &&& req.request_id == 0
        &&& req.stream_id@.len() == 16
        &&& be_value(req.stream_id@) == self.stream()
        &&& req.total_data_points == self.total()
        &&& req.final_sequence_number == self.last_issued()
        &&& req.extension_fields == match opts {
            Some(o) => Some(
                autogen::UpstreamCloseRequestExtensionFields { close_session: o.close_session },
            ),
            None => None,
        }
    }

    /// Whether a chunk was issued whose acknowledgement has not come yet.
    pub open spec fn awaits_last_ack(&self) -> bool {
        self.last_issued() > 0 && self.kept().last_received() != Some(self.last_issued())
    }

    /// Whether a flush now takes a chunk: points are buffered and a sequence number is left.
    pub open spec fn flushes(&self) -> bool {
        self.buffer().len() > 0 && self.last_issued() < u32::MAX
    }

    /// The chunk that a flush takes from the buffer.
    pub open spec fn next_chunk(&self) -> UpstreamChunkView {
        UpstreamChunkView {
            stream_id_alias: self.alias(),
            stream_chunk: Some(
                StreamChunkView {
                    sequence_number: (self.last_issued() + 1) as u32,
                    data_point_groups: wire_groups(
                        grouped(keyed_by_alias(self.alias_list(), self.buffer())),
                    ),
                },
            ),
            data_ids: Seq::empty(),
        }
    }

    /// Whether `b` is `a` with at most its phase changed.
    pub open spec fn same_but_phase(a: Self, b: Self) -> bool {
        &&& b.stream() == a.stream()
        &&& b.alias() == a.alias()
        &&& b.aliases() == a.aliases()
        &&& b.alias_list() == a.alias_list()
        &&& b.total() == a.total()
        &&& b.last_issued() == a.last_issued()
        &&& b.buffer() == a.buffer()
        &&& b.payload_size() == a.payload_size()
        &&& b.kept() == a.kept()
    }

    /// Whether `b` is `a` flushed, its phase aside: with a sequence number left the buffer is
    /// emptied, and when points were buffered they became the next chunk, kept when reliable.
    pub open spec fn flushed(a: Self, b: Self) -> bool {
        &&& b.stream() == a.stream()
        &&& b.alias() == a.alias()
        &&& b.aliases() == a.aliases()
        &&& b.alias_list() == a.alias_list()
        &&& b.kept().stream() == a.kept().stream()
        &&& b.kept().reliable() == a.kept().reliable()
        &&& b.kept().last_received() == a.kept().last_received()
        &&& if a.last_issued() < u32::MAX {
            b.buffer() == Seq::<(DataIdView, Seq<(i64, Seq<u8>)>)>::empty() && b.payload_size() == 0
        } else {
            b.buffer() == a.buffer() && b.payload_size() == a.payload_size()
        }
        &&& if a.flushes() {
            &&& b.last_issued() == a.last_issued() + 1
            &&& b.total() as int == (a.total() + point_count(a.buffer())) % 0x1_0000_0000_0000_0000
            &&& b.kept().stored() == if a.kept().reliable() {
                a.kept().stored().insert(b.last_issued(), a.next_chunk())
            } else {
                a.kept().stored()
            }
        } else {
            b.last_issued() == a.last_issued() && b.total() == a.total() && b.kept() == a.kept()
        }
    }

    /// Whether `b` is `a` after taking in `ack`, its phase aside: the acknowledged chunks are
    /// no longer kept and the largest acknowledged sequence number moves on.
    pub open spec fn acked(a: Self, b: Self, ack: autogen::UpstreamChunkAck) -> bool {
        &&& b.stream() == a.stream()
        &&& b.alias() == a.alias()
        &&& b.aliases() == a.aliases()
        &&& b.alias_list() == a.alias_list()
        &&& b.total() == a.total()
        &&& b.last_issued() == a.last_issued()
        &&& b.buffer() == a.buffer()
        &&& b.payload_size() == a.payload_size()
        &&& b.kept().stream() == a.kept().stream()
        &&& b.kept().reliable() == a.kept().reliable()
        &&& b.kept().last_received() == fold_last(a.kept().last_received(), ack.results@)
        &&& b.kept().stored() == if a.kept().reliable() {
            a.kept().stored().remove_keys(acked_numbers(ack.results@))
        } else {
            a.kept().stored()
        }
    }

    /// Whether `act` is what closing with `opts` does in state `b`, and `b`'s phase follows
    /// it: while the last chunk's acknowledgement is due it is awaited, else the close
    /// request goes out.
    pub open spec fn close_begun(&self, opts: Option<UpstreamCloseOptions>, act: UpstreamAction) -> bool {
        if self.awaits_last_ack() {
            act == UpstreamAction::AwaitLastAck(self.last_issued()) && self.phase()
                == ClosePhase::Closing(opts)
        } else {
            (act matches UpstreamAction::SendClose(req) && self.closes_with(req, opts))
                && self.phase() == ClosePhase::Closed
        }
    }

    /// Begins closing with `opts`: awaits the last chunk's acknowledgement when it is due,
    /// else gives the close request.
    fn begin_close(&mut self, opts: Option<UpstreamCloseOptions>) -> (act: UpstreamAction)
        requires
            old(self).wf(),
        ensures
            final(self).wf(),
            Self::same_but_phase(*old(self), *final(self)),
            final(self).close_begun(opts, act),
    {
        let n = self.last_issued_sequence_number;
        if n > 0 && !self.last_chunk_acked() {
            self.phase = ClosePhase::Closing(opts);
            proof {
                Self::lemma_wf_kept(old(self), self);
            }
            UpstreamAction::AwaitLastAck(n)
        } else {
            let req = self.close_request(opts);
            self.phase = ClosePhase::Closed;
            proof {
                Self::lemma_wf_kept(old(self), self);
            }
            UpstreamAction::SendClose(req)
        }
    }

    /// Decides what an event does to the upstream and what its driver is to do, in order.
    /// While open, a flush request, a flush interval or a close request flushes the buffered
    /// points as the next chunk (with a sequence number left); a close request, or the last
    /// sequence number issued, then begins closing: the last chunk's acknowledgement is
    /// awaited when due, else the close request goes out. An acknowledgement is taken in and
    /// its results handed to the user; while closing, the one that acknowledges the last
    /// chunk, or the close timeout, sends the close request. Once closed, nothing happens.
    pub fn step(&mut self, event: UpstreamEvent, with_callback: bool) -> (r: Vec<UpstreamAction>)
        requires
            old(self).wf(),
        ensures
            final(self).wf(),
            match event {
                UpstreamEvent::Ack(ack) => old(self).phase() != ClosePhase::Closed ==> {
                    &&& Self::acked(*old(self), *final(self), ack)
                    &&& r@.len() >= 1
                    &&& r@[0] matches UpstreamAction::DeliverResults(res) && res@.map_values(
                        |v: UpstreamChunkResult| result_view(v),
                    ) == converted(ack.results@)
                    &&& match old(self).phase() {
                        ClosePhase::Closing(opts) => if final(self).kept().last_received() == Some(
                            final(self).last_issued(),
                        ) {
                            &&& r@.len() == 2
                            &&& r@[1] matches UpstreamAction::SendClose(req) && final(self).closes_with(req, opts)
                            &&& final(self).phase() == ClosePhase::Closed
                        } else {
                            r@.len() == 1 && final(self).phase() == old(self).phase()
                        },
                        _ => r@.len() == 1 && final(self).phase() == old(self).phase(),
                    }
                },
                UpstreamEvent::CloseTimedOut => match old(self).phase() {
                    ClosePhase::Closing(opts) => {
                        &&& Self::same_but_phase(*old(self), *final(self))
                        &&& r@.len() == 1
                        &&& r@[0] matches UpstreamAction::SendClose(req) && final(self).closes_with(req, opts)
                        &&& final(self).phase() == ClosePhase::Closed
                    },
                    _ => r@.len() == 0 && *final(self) == *old(self),
                },
                _ => old(self).phase() == ClosePhase::Open ==> {
                    let k: int = if old(self).flushes() { 1 } else { 0 };
                    let opts = match event {
                        UpstreamEvent::CloseRequested(o) => o,
                        _ => None,
                    };
                    &&& Self::flushed(*old(self), *final(self))
                    &&& old(self).flushes() ==> (r@[0] matches UpstreamAction::SendChunk(chunk, user)
                        && chunk@ == old(self).next_chunk() && user.sequence_number
                        == final(self).last_issued() && user_groups_view(user.data_point_groups@)
                        == if with_callback {
                        grouped(old(self).buffer())
                    } else {
                        Seq::empty()
                    })
                    &&& if event is CloseRequested || final(self).last_issued() == u32::MAX {
                        r@.len() == k + 1 && final(self).close_begun(opts, r@[k])
                    } else {
                        r@.len() == k && final(self).phase() == ClosePhase::Open
                    }
                },
            },
            match event {
                UpstreamEvent::Ack(_) => true,
                UpstreamEvent::CloseTimedOut => true,
                _ => old(self).phase() != ClosePhase::Open ==> r@.len() == 0 && *final(self)
                    == *old(self),
            },
            old(self).phase() == ClosePhase::Closed ==> r@.len() == 0 && *final(self) == *old(self),
    {
        let mut actions: Vec<UpstreamAction> = Vec::new();
        match self.phase {
            ClosePhase::Closed => actions,
            ClosePhase::Closing(opts) => match event {
                UpstreamEvent::Ack(ack) => {
                    let results = self.process_ack(&ack);
                    actions.push(UpstreamAction::DeliverResults(results));
                    if self.last_chunk_acked() {
                        let req = self.close_request(opts);
                        self.phase = ClosePhase::Closed;
                        proof {
                            Self::lemma_wf_kept(old(self), self);
                        }
                        actions.push(UpstreamAction::SendClose(req));
                    }
                    actions
                },
                UpstreamEvent::CloseTimedOut => {
                    let req = self.close_request(opts);
                    self.phase = ClosePhase::Closed;
                    proof {
                        Self::lemma_wf_kept(old(self), self);
                    }
                    actions.push(UpstreamAction::SendClose(req));
                    actions
                },
                _ => actions,
            },
            ClosePhase::Open => match event {
                UpstreamEvent::Ack(ack) => {
                    let results = self.process_ack(&ack);
                    actions.push(UpstreamAction::DeliverResults(results));
                    actions
                },
                UpstreamEvent::CloseTimedOut => actions,
                _ => {
                    if self.last_issued_sequence_number < u32::MAX {
                        match self.flush(with_callback) {
                            Some((chunk, user)) => {
                                actions.push(UpstreamAction::SendChunk(chunk, user));
                            },
                            None => {},
                        }
                    }
                    let opts = match event {
                        UpstreamEvent::CloseRequested(o) => Some(o),
                        _ => if self.last_issued_sequence_number == u32::MAX {
                            Some(None)
                        } else {
                            None
                        },
                    };
                    match opts {
                        Some(o) => {
                            let act = self.begin_close(o);
                            actions.push(act);
                        },
                        None => {},
                    }
                    actions
                },
            },
        }
    }

    /// A picture of the upstream state: aliases, counters and what is buffered.
    pub fn upstream_state(&self) -> (r: UpstreamState)
        ensures
            r.data_id_aliases@ == self.aliases(),
            r.total_data_points == self.total(),
            r.last_issued_sequence_number == if self.last_issued() == 0 {
                None
            } else {
                Some(self.last_issued())
            },
            user_groups_view(r.data_points_buffer@) == self.buffer(),
            r.buffer_payload_size == self.payload_size(),
    {
        let mut buffer: Vec<DataPointGroup> = Vec::new();
        let v = &self.data_points_buffer;
        let mut i: usize = 0;
        while i < v.len()
            invariant
                i <= v@.len(),
                buffer@.len() == i,
                user_groups_view(buffer@) == user_groups_view(v@.take(i as int)),
            decreases v@.len() - i,
        {
            let ghost b0 = buffer@;
            let c = v[i].clone();
            buffer.push(c);
            proof {
                assert(v@.take(i + 1) =~= v@.take(i as int).push(v@[i as int]));
                assert forall|j: int| 0 <= j < i + 1 implies #[trigger] user_groups_view(buffer@)[j]
                    == user_groups_view(v@.take(i + 1))[j] by {
                    if j < i {
                        assert(user_groups_view(buffer@)[j] == user_groups_view(b0)[j]);
                        assert(user_groups_view(b0)[j] == user_groups_view(v@.take(i as int))[j]);
                    }
                }
                assert(user_groups_view(buffer@) =~= user_groups_view(v@.take(i + 1)));
            }
            i = i + 1;
        }
        assert(v@.take(v@.len() as int) =~= v@);
        UpstreamState {
            data_id_aliases: self.data_id_aliases.clone(),
            total_data_points: self.total_data_points,
            last_issued_sequence_number: if self.last_issued_sequence_number == 0 {
                None
            } else {
                Some(self.last_issued_sequence_number)
            },
            data_points_buffer: buffer,
            buffer_payload_size: self.buffer_payload_size,
        }
    }

    /// The flusher of an upstream that the broker opened: its stream id read from the
    /// response's 16 bytes (other bytes are refused), its alias and data id aliases as
    /// assigned.
    pub fn opened(response: autogen::UpstreamOpenResponse, reliable: bool) -> (r: Result<
        UpstreamFlusher,
        Error,
    >)
        ensures
            r is Ok <==> response.assigned_stream_id@.len() == 16,
            r matches Err(e) ==> e is InvalidValue,
            r matches Ok(f) ==> {
                &&& f.wf()
                &&& f.stream() == be_value(response.assigned_stream_id@)
                &&& f.alias() == response.assigned_stream_id_alias
                &&& f.aliases() == response.data_id_aliases@
                &&& f.total() == 0
                &&& f.last_issued() == 0
                &&& f.buffer() == Seq::<(DataIdView, Seq<(i64, Seq<u8>)>)>::empty()
                &&& f.payload_size() == 0
                &&& f.kept().reliable() == reliable
                &&& f.kept().stored() == Map::<u32, autogen::UpstreamChunkView>::empty()
                &&& f.kept().last_received() is None
                &&& f.phase() == ClosePhase::Open
            },
    {
        let stream_id = match parse_stream_id(response.assigned_stream_id.as_slice()) {
            Ok(s) => s,
            Err(e) => {
                return Err(e);
            },
        };
        Ok(
            UpstreamFlusher::new(
                stream_id,
                response.assigned_stream_id_alias,
                response.data_id_aliases,
                reliable,
            ),
        )
    }

    /// The alias under which a data id's points go into a chunk is an alias the broker
    /// assigned to that data id; a data id goes under its own name only when the broker
    /// assigned it no alias.
    pub proof fn lemma_alias_names_data_id(&self, d: DataIdView)
        requires
            self.wf(),
        ensures
            alias_in(self.alias_list(), d) matches Some(a) ==> self.aliases().contains_key(a)
                && self.aliases()[a]@ == d,
            alias_in(self.alias_list(), d) is None ==> forall|a: u32|
                #[trigger] self.aliases().contains_key(a) ==> self.aliases()[a]@ != d,
    {
        lemma_alias_in_found(self.alias_list(), d);
        if let Some(a) = alias_in(self.alias_list(), d) {
            let t = choose|t: int| 0 <= t < self.alias_list().len() && #[trigger] self.alias_list()[t] == (a, d);
            assert(self.alias_list()[t].0 == a);
        } else {
            assert forall|a: u32| #[trigger] self.aliases().contains_key(a) implies self.aliases()[a]@ != d by {
                let t = choose|t: int| 0 <= t < self.alias_list().len() && #[trigger] self.alias_list()[t] == (a, self.aliases()[a]@);
                assert(self.alias_list()[t].1 != d);
            }
        }
    }
}

} // verus!
