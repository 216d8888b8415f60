//! Hop measurements and the reduction of a trace to the hops that count.

use crate::duration::Duration;
use crate::net::IpAddr;
use std::collections::BTreeMap;
use vstd::prelude::*;

verus! {

broadcast use {vstd::std_specs::btree::group_btree_axioms, vstd::laws_cmp::group_laws_cmp};

/// Represents the measurement outcome for a single probe at a given TTL.
#[derive(Clone, Copy, Debug, PartialEq, Eq, Structural)]
pub struct TracerouteHop {
    pub success: bool,
    pub address: Option<IpAddr>,
    pub ttl: u16,
    pub rtt: Option<Duration>,
}

/// A probe that got an answer from `dest` itself.
pub open spec fn hop_reaches(hop: TracerouteHop, dest: IpAddr) -> bool {
    hop.success && hop.address == Some(dest)
}

/// Some probe of the list got an answer from `dest`.
pub open spec fn probes_reach(probes: Seq<TracerouteHop>, dest: IpAddr) -> bool {
    exists|i: int| 0 <= i < probes.len() && #[trigger] hop_reaches(probes[i], dest)
}

/// The probe lists of a hop map, as sequences.
pub open spec fn hop_lists(m: Map<u16, Vec<TracerouteHop>>) -> Map<u16, Seq<TracerouteHop>> {
    m.map_values(|v: Vec<TracerouteHop>| v@)
}

/// Every TTL from 1 up to (not including) `t` has probes and none of them
/// reached `dest`.
pub open spec fn passes_before(m: Map<u16, Seq<TracerouteHop>>, dest: IpAddr, t: int) -> bool {
    forall|s: u16| 1 <= s < t ==> #[trigger] m.contains_key(s) && !probes_reach(m[s], dest)
}

/// TTL `t` survives the reduction: it lies in `1..=max_hops`, has probes,
/// and every earlier TTL has probes that did not reach the destination.
pub open spec fn kept_ttl(m: Map<u16, Seq<TracerouteHop>>, max_hops: u16, dest: IpAddr, t: u16) -> bool {
    &&& 1 <= t <= max_hops
    &&& m.contains_key(t)
    &&& passes_before(m, dest, t as int)
}

/// The reduction of a hop map: the TTLs that survive, with their probes
/// unchanged.
pub open spec fn reduced(m: Map<u16, Seq<TracerouteHop>>, max_hops: u16, dest: IpAddr) -> Map<
    u16,
    Seq<TracerouteHop>,
> {
    m.restrict(Set::new(|t: u16| kept_ttl(m, max_hops, dest, t)))
}

/// Reduces preliminary hop measurements by discarding all probes subsequent
/// to reaching the destination.
///
/// Walking TTLs from 1 to `max_hops`, each TTL that has probes is kept with
/// its probes; the walk stops at the first TTL that has no probes, and after
/// the first TTL one of whose probes got an answer from `dest_ip`.
pub fn reduce_final_result(
    preliminary: BTreeMap<u16, Vec<TracerouteHop>>,
    max_hops: u16,
    dest_ip: IpAddr,
) -> (r: BTreeMap<u16, Vec<TracerouteHop>>)
    ensures
        hop_lists(r@) == reduced(hop_lists(preliminary@), max_hops, dest_ip),
{
    let ghost m = hop_lists(preliminary@);
    let mut final_results: BTreeMap<u16, Vec<TracerouteHop>> = BTreeMap::new();
    let mut ttl: u32 = 1;
    while ttl <= max_hops as u32
        invariant_except_break
            1 <= ttl <= max_hops + 1,
            m == hop_lists(preliminary@),
            passes_before(m, dest_ip, ttl as int),
            hop_lists(final_results@) == m.restrict(
                Set::new(|t: u16| 1 <= t < ttl && m.contains_key(t)),
            ),
        ensures
            m == hop_lists(preliminary@),
            hop_lists(final_results@) == reduced(m, max_hops, dest_ip),
        decreases max_hops + 1 - ttl,
    {
        let key: u16 = ttl as u16;
        let ghost before = hop_lists(final_results@);
        match preliminary.get(&key) {
            Some(probes) => {
                let mut recorded_probes: Vec<TracerouteHop> = Vec::new();
                let mut found_final = false;
                let mut i: usize = 0;
                while i < probes.len()
                    invariant
                        0 <= i <= probes.len(),
                        recorded_probes@ == probes@.subrange(0, i as int),
                        found_final == exists|j: int|
                            0 <= j < i && #[trigger] hop_reaches(probes@[j], dest_ip),
                    decreases probes.len() - i,
                {
                    let probe = probes[i];
                    let reaches = match probe.address {
                        Some(a) => probe.success && a == dest_ip,
                        None => false,
                    };
                    assert(reaches == hop_reaches(probes@[i as int], dest_ip));
                    if reaches {
                        found_final = true;
                    }
                    recorded_probes.push(probe);
                    i = i + 1;
                }
                assert(recorded_probes@ == probes@);
                assert(m.contains_key(key) && m[key] == probes@);
                assert(found_final == probes_reach(m[key], dest_ip));
                final_results.insert(key, recorded_probes);
                assert(hop_lists(final_results@) == before.insert(key, probes@));
                if found_final {
                    assert forall|t: u16|
                        kept_ttl(m, max_hops, dest_ip, t) <==> (1 <= t <= key
                            && m.contains_key(t)) by {
                        if 1 <= t <= key && m.contains_key(t) {
                            assert forall|s: u16| 1 <= s < t implies #[trigger] m.contains_key(s)
                                && !probes_reach(m[s], dest_ip) by {
                                assert(s < ttl);
                            }
                        }
                        if kept_ttl(m, max_hops, dest_ip, t) && t > key {
                            assert(m.contains_key(key) && !probes_reach(m[key], dest_ip));
                        }
                    }
                    assert(hop_lists(final_results@) =~= reduced(m, max_hops, dest_ip));
                    break;
                }
                assert forall|s: u16| 1 <= s < ttl + 1 implies #[trigger] m.contains_key(s)
                    && !probes_reach(m[s], dest_ip) by {
                    if s < ttl {
                    } else {
                        assert(s == key);
                    }
                }
            },
            None => {
                assert(!m.contains_key(key));
                assert forall|t: u16|
                    kept_ttl(m, max_hops, dest_ip, t) <==> (1 <= t < key && m.contains_key(t)) by {
                    if 1 <= t < key && m.contains_key(t) {
                        assert forall|s: u16| 1 <= s < t implies #[trigger] m.contains_key(s)
                            && !probes_reach(m[s], dest_ip) by {
                            assert(s < ttl);
                        }
                    }
                    if kept_ttl(m, max_hops, dest_ip, t) && t > key {
                        assert(m.contains_key(key));
                    }
                }
                assert(hop_lists(final_results@) =~= reduced(m, max_hops, dest_ip));
                break;
            },
        }
        ttl = ttl + 1;
        assert(hop_lists(final_results@) =~= m.restrict(
            Set::new(|t: u16| 1 <= t < ttl && m.contains_key(t)),
        ));
    }
    assert(hop_lists(final_results@) =~= reduced(m, max_hops, dest_ip));
    final_results
}

/// A prefix of TTLs that all passed stays a prefix that passed.
proof fn lemma_passes_before_prefix(m: Map<u16, Seq<TracerouteHop>>, dest: IpAddr, t: int, u: int)
    requires
        passes_before(m, dest, t),
        u <= t,
    ensures
        passes_before(m, dest, u),
{
    assert forall|s: u16| 1 <= s < u implies #[trigger] m.contains_key(s) && !probes_reach(
        m[s],
        dest,
    ) by {
        lemma_passes_before_at(m, dest, t, s);
    }
}

proof fn lemma_passes_before_at(m: Map<u16, Seq<TracerouteHop>>, dest: IpAddr, t: int, s: u16)
    requires
        passes_before(m, dest, t),
        1 <= s < t,
    ensures
        m.contains_key(s),
        !probes_reach(m[s], dest),
{
    let probes = m[s];
    assert(m.contains_key(s) && !probes_reach(probes, dest));
}

/// Reducing a reduced hop map changes nothing.
pub proof fn lemma_reduction_idempotent(m: Map<u16, Seq<TracerouteHop>>, max_hops: u16, dest: IpAddr)
    ensures
        reduced(reduced(m, max_hops, dest), max_hops, dest) == reduced(m, max_hops, dest),
{
    let r = reduced(m, max_hops, dest);
    assert forall|t: u16| kept_ttl(r, max_hops, dest, t) <==> kept_ttl(m, max_hops, dest, t) by {
        if kept_ttl(m, max_hops, dest, t) {
            assert forall|s: u16| 1 <= s < t implies #[trigger] r.contains_key(s) && !probes_reach(
                r[s],
                dest,
            ) by {
                lemma_passes_before_at(m, dest, t as int, s);
                lemma_passes_before_prefix(m, dest, t as int, s as int);
                assert(kept_ttl(m, max_hops, dest, s));
            }
        }
        if kept_ttl(r, max_hops, dest, t) {
            assert(r.contains_key(t));
        }
    }
    assert(reduced(r, max_hops, dest) =~= r);
}

/// The reduction keeps TTLs `1..=k` for some `k`, each with its probes
/// unchanged, and no TTL after one whose probes reached the destination.
pub proof fn lemma_reduction_shape(
    m: Map<u16, Seq<TracerouteHop>>,
    max_hops: u16,
    dest: IpAddr,
    t1: u16,
    t2: u16,
)
    requires
        1 <= t1 < t2,
        reduced(m, max_hops, dest).contains_key(t2),
    ensures
        reduced(m, max_hops, dest).contains_key(t1),
        reduced(m, max_hops, dest)[t1] == m[t1],
        reduced(m, max_hops, dest)[t2] == m[t2],
        !probes_reach(reduced(m, max_hops, dest)[t1], dest),
        t2 <= max_hops,
{
    assert(kept_ttl(m, max_hops, dest, t2));
    lemma_passes_before_at(m, dest, t2 as int, t1);
    lemma_passes_before_prefix(m, dest, t2 as int, t1 as int);
    assert(kept_ttl(m, max_hops, dest, t1));
}

/// Some probe of the hop map got an answer from `dest`.
pub open spec fn map_reaches(m: Map<u16, Seq<TracerouteHop>>, dest: IpAddr) -> bool {
    exists|t: u16| #[trigger] m.contains_key(t) && probes_reach(m[t], dest)
}

/// Whether some probe list reports an answer from `dest` itself.
fn list_reaches(probes: &Vec<TracerouteHop>, dest: IpAddr) -> (r: bool)
    ensures
        r == probes_reach(probes@, dest),
{
    let mut i: usize = 0;
    while i < probes.len()
        invariant
            0 <= i <= probes.len(),
            forall|j: int| 0 <= j < i ==> !#[trigger] hop_reaches(probes@[j], dest),
        decreases probes.len() - i,
    {
        let hop = probes[i];
        let reaches = match hop.address {
            Some(a) => hop.success && a == dest,
            None => false,
        };
        assert(reaches == hop_reaches(probes@[i as int], dest));
        if reaches {
            return true;
        }
        i = i + 1;
    }
    false
}

/// Whether the trace reached its destination: some probe at some TTL in
/// `1..=max_hops` got an answer from `dest` itself. A hop map that a trace
/// of at most `max_hops` hops produced holds no other TTLs.
pub fn trace_reached(hops: &BTreeMap<u16, Vec<TracerouteHop>>, max_hops: u16, dest: IpAddr) -> (r:
    bool)
    ensures
        r == map_reaches(hop_lists(hops@).restrict(Set::new(|t: u16| 1 <= t <= max_hops)), dest),
{
    let ghost m = hop_lists(hops@);
    let ghost window = m.restrict(Set::new(|t: u16| 1 <= t <= max_hops));
    let mut ttl: u32 = 1;
    while ttl <= max_hops as u32
        invariant
            1 <= ttl <= max_hops + 1,
            m == hop_lists(hops@),
            window == m.restrict(Set::new(|t: u16| 1 <= t <= max_hops)),
            forall|t: u16| 1 <= t < ttl && #[trigger] m.contains_key(t) ==> !probes_reach(m[t], dest),
        decreases max_hops + 1 - ttl,
    {
        let key = ttl as u16;
        match hops.get(&key) {
            Some(probes) => {
                if list_reaches(probes, dest) {
                    assert(window.contains_key(key) && probes_reach(window[key], dest));
                    return true;
                }
            },
            None => {},
        }
        ttl = ttl + 1;
    }
    assert(!map_reaches(window, dest));
    false
}

} // verus!
