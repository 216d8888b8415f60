//! The decisions of a trace run: which TTL to probe next, when to stop, and
//! how the collected probe results become the final hop map.
//!
//! The caller owns the sockets and the concurrency: it asks [`TraceRun::next_hop`]
//! for the next TTL, sends the probes of that TTL, hands every outcome back
//! through [`TraceRun::record`], and finally calls [`TraceRun::finish`].

use crate::engine::hop::{
    hop_lists, hop_reaches, reduce_final_result, reduced, TracerouteHop,
};
use crate::net::IpAddr;
use std::collections::BTreeMap;
use vstd::prelude::*;

verus! {

broadcast use {vstd::std_specs::btree::group_btree_axioms, vstd::laws_cmp::group_laws_cmp};

/// The number of probes that may be in flight at once: the configured
/// number, but at least one.
pub fn probe_capacity(parallel_requests: u16) -> (r: usize)
    ensures
        r == if parallel_requests == 0 { 1 } else { parallel_requests as int },
{
    if parallel_requests == 0 {
        1
    } else {
        parallel_requests as usize
    }
}

/// The hops of the pairs in `s` whose query index is `k`, in the order of `s`.
pub open spec fn hops_of_query(s: Seq<(u16, TracerouteHop)>, k: u16) -> Seq<TracerouteHop>
    decreases s.len(),
{
    if s.len() == 0 {
        Seq::empty()
    } else {
        let rest = hops_of_query(s.drop_last(), k);
        if s.last().0 == k {
            rest.push(s.last().1)
        } else {
            rest
        }
    }
}

/// The hops of `s` ordered by query index, for indices below `k`; pairs
/// with equal index keep their order in `s`.
pub open spec fn query_order(s: Seq<(u16, TracerouteHop)>, k: int) -> Seq<TracerouteHop>
    decreases k,
{
    if k <= 0 {
        Seq::empty()
    } else {
        query_order(s, k - 1) + hops_of_query(s, (k - 1) as u16)
    }
}

/// Every probe list of `m`, ordered by query index.
pub open spec fn ordered_lists(m: Map<u16, Seq<(u16, TracerouteHop)>>, queries: u16) -> Map<
    u16,
    Seq<TracerouteHop>,
> {
    m.map_values(|s: Seq<(u16, TracerouteHop)>| query_order(s, queries as int))
}

/// The pairs collected per TTL, as sequences.
pub open spec fn pair_lists(m: Map<u16, Vec<(u16, TracerouteHop)>>) -> Map<
    u16,
    Seq<(u16, TracerouteHop)>,
> {
    m.map_values(|v: Vec<(u16, TracerouteHop)>| v@)
}

/// Some collected probe got an answer from `dest`.
pub open spec fn some_probe_reaches(m: Map<u16, Seq<(u16, TracerouteHop)>>, dest: IpAddr) -> bool {
    exists|t: u16, i: int|
        m.contains_key(t) && 0 <= i < m[t].len() && #[trigger] hop_reaches(m[t][i].1, dest)
}

/// The hops of `pairs` ordered by query index, for indices below `queries`.
pub fn order_by_query(pairs: &Vec<(u16, TracerouteHop)>, queries: u16) -> (r: Vec<TracerouteHop>)
    ensures
        r@ == query_order(pairs@, queries as int),
{
    let mut out: Vec<TracerouteHop> = Vec::new();
    let mut k: u16 = 0;
    while k < queries
        invariant
            0 <= k <= queries,
            out@ == query_order(pairs@, k as int),
        decreases queries - k,
    {
        let ghost start = out@;
        let mut i: usize = 0;
        while i < pairs.len()
            invariant
                0 <= i <= pairs.len(),
                out@ == start + hops_of_query(pairs@.take(i as int), k),
            decreases pairs.len() - i,
        {
            let (q, hop) = pairs[i];
            assert(pairs@.take(i + 1).drop_last() =~= pairs@.take(i as int));
            if q == k {
                out.push(hop);
            }
            i = i + 1;
        }
        assert(pairs@.take(pairs@.len() as int) =~= pairs@);
        k = k + 1;
    }
    out
}

/// Every query index below `queries` occurs exactly once among the pairs,
/// and no other index occurs: each query of the TTL was recorded once.
pub open spec fn one_per_query(s: Seq<(u16, TracerouteHop)>, queries: u16) -> bool {
    &&& forall|i: int| 0 <= i < s.len() ==> #[trigger] s[i].0 < queries
    &&& forall|i: int, j: int| 0 <= i < j < s.len() ==> #[trigger] s[i].0 != #[trigger] s[j].0
    &&& forall|k: u16| k < queries ==> #[trigger] has_query(s, k)
}

/// Some pair has query index `k`.
pub open spec fn has_query(s: Seq<(u16, TracerouteHop)>, k: u16) -> bool {
    exists|i: int| 0 <= i < s.len() && #[trigger] s[i].0 == k
}

proof fn lemma_hops_of_absent(s: Seq<(u16, TracerouteHop)>, k: u16)
    requires
        forall|i: int| 0 <= i < s.len() ==> #[trigger] s[i].0 != k,
    ensures
        hops_of_query(s, k) == Seq::<TracerouteHop>::empty(),
    decreases s.len(),
{
    if s.len() > 0 {
        let p = s.drop_last();
        assert forall|i: int| 0 <= i < p.len() implies #[trigger] p[i].0 != k by {
            assert(p[i] == s[i]);
        }
        lemma_hops_of_absent(p, k);
        assert(s.last() == s[s.len() - 1]);
    }
}

proof fn lemma_hops_of_unique(s: Seq<(u16, TracerouteHop)>, k: u16, i: int)
    requires
        0 <= i < s.len(),
        s[i].0 == k,
        forall|a: int, b: int| 0 <= a < b < s.len() ==> #[trigger] s[a].0 != #[trigger] s[b].0,
    ensures
        hops_of_query(s, k) == seq![s[i].1],
    decreases s.len(),
{
    let p = s.drop_last();
    let n = s.len() - 1;
    assert(s.last() == s[n]);
    if i == n {
        assert forall|a: int| 0 <= a < p.len() implies #[trigger] p[a].0 != k by {
            assert(p[a] == s[a]);
            assert(s[a].0 != s[n].0);
        }
        lemma_hops_of_absent(p, k);
        assert(hops_of_query(s, k) =~= seq![s[i].1]);
    } else {
        assert(p[i] == s[i]);
        assert forall|a: int, b: int| 0 <= a < b < p.len() implies #[trigger] p[a].0
            != #[trigger] p[b].0 by {
            assert(p[a] == s[a] && p[b] == s[b]);
        }
        lemma_hops_of_unique(p, k, i);
        assert(s[i].0 != s[n].0);
    }
}

proof fn lemma_query_order_prefix(s: Seq<(u16, TracerouteHop)>, queries: u16, m: int)
    requires
        one_per_query(s, queries),
        0 <= m <= queries,
    ensures
        query_order(s, m).len() == m,
        forall|i: int|
            0 <= i < s.len() && s[i].0 < m ==> query_order(s, m)[#[trigger] s[i].0 as int]
                == s[i].1,
    decreases m,
{
    if m > 0 {
        lemma_query_order_prefix(s, queries, m - 1);
        let k = (m - 1) as u16;
        assert(k < queries);
        assert(has_query(s, k));
        let j = choose|j: int| 0 <= j < s.len() && #[trigger] s[j].0 == k;
        lemma_hops_of_unique(s, k, j);
        let prev = query_order(s, m - 1);
        assert(query_order(s, m) == prev + seq![s[j].1]);
        assert forall|i: int| 0 <= i < s.len() && s[i].0 < m implies query_order(
            s,
            m,
        )[#[trigger] s[i].0 as int] == s[i].1 by {
            if s[i].0 < m - 1 {
            } else {
                if i != j {
                    if i < j {
                        assert(s[i].0 != s[j].0);
                    } else {
                        assert(s[j].0 != s[i].0);
                    }
                }
            }
        }
    }
}

/// A TTL whose queries were each recorded once comes out of the ordering
/// with one result per query, result `k` being the one of query `k`; when
/// the reduction of a finished run keeps the TTL, it keeps that list.
pub proof fn lemma_complete_ttl_in_query_order(
    m: Map<u16, Seq<(u16, TracerouteHop)>>,
    queries: u16,
    t: u16,
    max_hops: u16,
    dest: IpAddr,
)
    requires
        m.contains_key(t),
        one_per_query(m[t], queries),
    ensures
        ordered_lists(m, queries).contains_key(t),
        ordered_lists(m, queries)[t].len() == queries,
        forall|i: int|
            0 <= i < m[t].len() ==> ordered_lists(m, queries)[t][#[trigger] m[t][i].0 as int]
                == m[t][i].1,
        reduced(ordered_lists(m, queries), max_hops, dest).contains_key(t) ==> reduced(
            ordered_lists(m, queries),
            max_hops,
            dest,
        )[t] == ordered_lists(m, queries)[t],
{
    lemma_query_order_prefix(m[t], queries, queries as int);
    assert(ordered_lists(m, queries)[t] == query_order(m[t], queries as int));
    assert forall|i: int| 0 <= i < m[t].len() implies ordered_lists(m, queries)[t][
        #[trigger] m[t][i].0 as int] == m[t][i].1 by {
        assert(m[t][i].0 < queries);
    }
}

/// Progress of one trace towards a destination.
pub struct TraceRun {
    destination: IpAddr,
    max_hops: u16,
    queries_per_hop: u16,
    next_ttl: u32,
    reached_destination: bool,
    preliminary: BTreeMap<u16, Vec<(u16, TracerouteHop)>>,
}

impl TraceRun {
    /// The destination of the trace.
    pub closed spec fn spec_destination(&self) -> IpAddr {
        self.destination
    }

    /// The largest TTL that may be probed.
    pub closed spec fn spec_max_hops(&self) -> u16 {
        self.max_hops
    }

    /// The number of probes sent per TTL.
    pub closed spec fn spec_queries_per_hop(&self) -> u16 {
        self.queries_per_hop
    }

    /// The TTL that the next call of `next_hop` hands out, if any.
    pub closed spec fn spec_next_ttl(&self) -> int {
        self.next_ttl as int
    }

    /// Whether a recorded probe got an answer from the destination.
    pub closed spec fn spec_reached(&self) -> bool {
        self.reached_destination
    }

    /// The (query index, outcome) pairs recorded so far, per TTL, in the
    /// order in which they were recorded.
    pub closed spec fn collected(&self) -> Map<u16, Seq<(u16, TracerouteHop)>> {
        pair_lists(self.preliminary@)
    }

    /// The run's invariant: TTLs are handed out from 1 upwards, results are
    /// only held for TTLs already handed out, and the reached flag tells
    /// whether one of them came from the destination.
    pub closed spec fn wf(&self) -> bool {
        &&& 1 <= self.next_ttl <= self.max_hops as int + 1
        &&& forall|t: u16| #[trigger]
            self.preliminary@.contains_key(t) ==> 1 <= t < self.next_ttl
        &&& forall|t: u16, i: int|
            self.preliminary@.contains_key(t) && 0 <= i < self.preliminary@[t]@.len()
                ==> #[trigger] self.preliminary@[t]@[i].0 < self.queries_per_hop
        &&& self.reached_destination == some_probe_reaches(
            pair_lists(self.preliminary@),
            self.destination,
        )
    }

    /// Starts a trace towards `destination` probing TTLs `1..=max_hops`
    /// with `queries_per_hop` probes each.
    pub fn new(destination: IpAddr, max_hops: u16, queries_per_hop: u16) -> (r: TraceRun)
        ensures
            r.wf(),
            r.spec_destination() == destination,
            r.spec_max_hops() == max_hops,
            r.spec_queries_per_hop() == queries_per_hop,
            r.spec_next_ttl() == 1,
            !r.spec_reached(),
            r.collected() == Map::<u16, Seq<(u16, TracerouteHop)>>::empty(),
    {
        let r = TraceRun {
            destination,
            max_hops,
            queries_per_hop,
            next_ttl: 1,
            reached_destination: false,
            preliminary: BTreeMap::new(),
        };
        assert(pair_lists(r.preliminary@) =~= Map::empty());
        r
    }

    /// Whether the destination has answered one of the recorded probes.
    pub fn reached_destination(&self) -> (r: bool)
        ensures
            r == self.spec_reached(),
    {
        self.reached_destination
    }

    /// Hands out the next TTL to probe: none once the destination has
    /// answered or every TTL up to `max_hops` has been handed out.
    pub fn next_hop(&mut self) -> (r: Option<u16>)
        requires
            old(self).wf(),
        ensures
            final(self).wf(),
            final(self).spec_destination() == old(self).spec_destination(),
            final(self).spec_max_hops() == old(self).spec_max_hops(),
            final(self).spec_queries_per_hop() == old(self).spec_queries_per_hop(),
            final(self).spec_reached() == old(self).spec_reached(),
            final(self).collected() == old(self).collected(),
            old(self).spec_reached() || old(self).spec_next_ttl() > old(self).spec_max_hops() ==> {
                &&& r is None
                &&& final(self).spec_next_ttl() == old(self).spec_next_ttl()
            },
            !old(self).spec_reached() && old(self).spec_next_ttl() <= old(self).spec_max_hops()
                ==> {
                &&& r == Some(old(self).spec_next_ttl() as u16)
                &&& final(self).spec_next_ttl() == old(self).spec_next_ttl() + 1
            },
    {
        if self.reached_destination || self.next_ttl > self.max_hops as u32 {
            None
        } else {
            let ttl = self.next_ttl as u16;
            self.next_ttl = self.next_ttl + 1;
            Some(ttl)
        }
    }

    /// Records the outcome of probe `query_idx` at TTL `ttl`.
    pub fn record(&mut self, ttl: u16, query_idx: u16, hop: TracerouteHop)
        requires
            old(self).wf(),
            1 <= ttl < old(self).spec_next_ttl(),
            query_idx < old(self).spec_queries_per_hop(),
        ensures
            final(self).wf(),
            final(self).spec_destination() == old(self).spec_destination(),
            final(self).spec_max_hops() == old(self).spec_max_hops(),
            final(self).spec_queries_per_hop() == old(self).spec_queries_per_hop(),
            final(self).spec_next_ttl() == old(self).spec_next_ttl(),
            final(self).spec_reached() == (old(self).spec_reached() || hop_reaches(
                hop,
                old(self).spec_destination(),
            )),
            final(self).collected() == old(self).collected().insert(
                ttl,
                if old(self).collected().contains_key(ttl) {
                    old(self).collected()[ttl].push((query_idx, hop))
                } else {
                    seq![(query_idx, hop)]
                },
            ),
    {
        let ghost old_lists = pair_lists(self.preliminary@);
        let reaches = match hop.address {
            Some(a) => hop.success && a == self.destination,
            None => false,
        };
        assert(reaches == hop_reaches(hop, self.destination));
        let mut list: Vec<(u16, TracerouteHop)> = match self.preliminary.remove(&ttl) {
            Some(v) => v,
            None => Vec::new(),
        };
        let ghost prior = list@;
        list.push((query_idx, hop));
        self.preliminary.insert(ttl, list);
        if reaches {
            self.reached_destination = true;
        }
        let ghost new_lists = pair_lists(self.preliminary@);
        assert(new_lists =~= old_lists.insert(ttl, prior.push((query_idx, hop))));
        assert(old_lists.contains_key(ttl) ==> prior == old_lists[ttl]);
        assert(!old_lists.contains_key(ttl) ==> prior == Seq::<(u16, TracerouteHop)>::empty());
        assert(self.reached_destination == some_probe_reaches(new_lists, self.destination)) by {
            let n = prior.len() as int;
            assert(new_lists[ttl][n] == (query_idx, hop));
            if reaches {
                assert(hop_reaches(new_lists[ttl][n].1, self.destination));
            }
            if some_probe_reaches(new_lists, self.destination) {
                let (t, i) = choose|t: u16, i: int|
                    new_lists.contains_key(t) && 0 <= i < new_lists[t].len()
                        && #[trigger] hop_reaches(new_lists[t][i].1, self.destination);
                if t == ttl && i == n {
                } else if t == ttl {
                    assert(old_lists.contains_key(t) && old_lists[t][i] == new_lists[t][i]);
                } else {
                    assert(old_lists[t] == new_lists[t]);
                }
            }
            if some_probe_reaches(old_lists, self.destination) {
                let (t, i) = choose|t: u16, i: int|
                    old_lists.contains_key(t) && 0 <= i < old_lists[t].len()
                        && #[trigger] hop_reaches(old_lists[t][i].1, self.destination);
                assert(new_lists.contains_key(t) && new_lists[t][i] == old_lists[t][i]);
            }
        }
    }

    /// The outcomes recorded so far, per TTL, ordered by query index, reduced
    /// to the TTLs up to the first one that reached the destination.
    pub fn finish(self) -> (r: BTreeMap<u16, Vec<TracerouteHop>>)
        requires
            self.wf(),
        ensures
            hop_lists(r@) == reduced(
                ordered_lists(self.collected(), self.spec_queries_per_hop()),
                self.spec_max_hops(),
                self.spec_destination(),
            ),
    {
        let ghost ordered = ordered_lists(self.collected(), self.queries_per_hop);
        let mut sorted: BTreeMap<u16, Vec<TracerouteHop>> = BTreeMap::new();
        let mut ttl: u32 = 1;
        while ttl <= self.max_hops as u32
            invariant
                1 <= ttl <= self.max_hops as int + 1,
                self.wf(),
                ordered == ordered_lists(self.collected(), self.queries_per_hop),
                hop_lists(sorted@) == ordered.restrict(Set::new(|t: u16| t < ttl)),
            decreases self.max_hops + 1 - ttl,
        {
            let key = ttl as u16;
            let ghost before = hop_lists(sorted@);
            match self.preliminary.get(&key) {
                Some(pairs) => {
                    let hops = order_by_query(pairs, self.queries_per_hop);
                    sorted.insert(key, hops);
                    assert(hop_lists(sorted@) =~= before.insert(key, hops@));
                },
                None => {},
            }
            ttl = ttl + 1;
            assert(hop_lists(sorted@) =~= ordered.restrict(Set::new(|t: u16| t < ttl)));
        }
        assert(hop_lists(sorted@) =~= ordered);
        reduce_final_result(sorted, self.max_hops, self.destination)
    }
}

} // verus!
