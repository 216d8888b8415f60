//! The span contexts of the previous trace of each destination, kept so that
//! the next trace of the same destination can link back to it.

use crate::net::IpAddr;
use vstd::prelude::*;

verus! {

/// The entries of a cache as a map from destination to context.
pub open spec fn entries_map<C>(entries: Seq<(IpAddr, C)>) -> Map<IpAddr, C>
    decreases entries.len(),
{
    if entries.len() == 0 {
        Map::empty()
    } else {
        entries_map(entries.drop_last()).insert(entries.last().0, entries.last().1)
    }
}

/// No destination occurs twice.
pub open spec fn distinct_keys<C>(entries: Seq<(IpAddr, C)>) -> bool {
    forall|i: int, j: int|
        0 <= i < j < entries.len() ==> #[trigger] entries[i].0 != #[trigger] entries[j].0
}

/// Contexts of previous traces, keyed by destination address.
pub struct LinkCache<C> {
    entries: Vec<(IpAddr, C)>,
}

/// With distinct keys, the map holds key `entries[i].0` with value `entries[i].1`,
/// and exactly the keys that occur.
proof fn lemma_entries_map<C>(entries: Seq<(IpAddr, C)>)
    requires
        distinct_keys(entries),
    ensures
        forall|i: int|
            0 <= i < entries.len() ==> #[trigger] entries_map(entries).contains_key(entries[i].0)
                && entries_map(entries)[entries[i].0] == entries[i].1,
        forall|k: IpAddr|
            #[trigger] entries_map(entries).contains_key(k) ==> exists|i: int|
                0 <= i < entries.len() && entries[i].0 == k,
    decreases entries.len(),
{
    if entries.len() > 0 {
        let prev = entries.drop_last();
        lemma_entries_map(prev);
        let n = entries.len() - 1;
        assert forall|i: int| 0 <= i < entries.len() implies #[trigger] entries_map(
            entries,
        ).contains_key(entries[i].0) && entries_map(entries)[entries[i].0] == entries[i].1 by {
            if i < n {
                assert(prev[i] == entries[i]);
                assert(entries[i].0 != entries[n].0);
                assert(entries_map(prev).contains_key(prev[i].0));
            }
        }
        assert forall|k: IpAddr| #[trigger] entries_map(entries).contains_key(k) implies exists|
            i: int,
        | 0 <= i < entries.len() && entries[i].0 == k by {
            if k != entries[n].0 {
                assert(entries_map(prev).contains_key(k));
                let i = choose|i: int| 0 <= i < prev.len() && prev[i].0 == k;
                assert(prev[i] == entries[i]);
            } else {
                assert(entries[n].0 == k);
            }
        }
    }
}

impl<C> LinkCache<C> {
    /// The cached context of each destination.
    pub closed spec fn view_map(&self) -> Map<IpAddr, C> {
        entries_map(self.entries@)
    }

    /// The cache's invariant: each destination has one entry.
    pub closed spec fn wf(&self) -> bool {
        distinct_keys(self.entries@)
    }

    /// An empty cache.
    pub fn new() -> (r: LinkCache<C>)
        ensures
            r.wf(),
            r.view_map() == Map::<IpAddr, C>::empty(),
    {
        LinkCache { entries: Vec::new() }
    }

    fn position(&self, dest: IpAddr) -> (r: Option<usize>)
        requires
            self.wf(),
        ensures
            match r {
                Some(i) => i < self.entries@.len() && self.entries@[i as int].0 == dest,
                None => forall|i: int|
                    0 <= i < self.entries@.len() ==> #[trigger] self.entries@[i].0 != dest,
            },
    {
        let mut i: usize = 0;
        while i < self.entries.len()
            invariant
                0 <= i <= self.entries@.len(),
                forall|j: int| 0 <= j < i ==> #[trigger] self.entries@[j].0 != dest,
            decreases self.entries@.len() - i,
        {
            if self.entries[i].0 == dest {
                return Some(i);
            }
            i = i + 1;
        }
        None
    }

    /// The context of the previous trace of `dest`, if any.
    pub fn get(&self, dest: IpAddr) -> (r: Option<&C>)
        requires
            self.wf(),
        ensures
            match r {
                Some(c) => self.view_map().contains_key(dest) && self.view_map()[dest] == *c,
                None => !self.view_map().contains_key(dest),
            },
    {
        proof {
            lemma_entries_map(self.entries@);
        }
        match self.position(dest) {
            Some(i) => {
                proof {
                    assert(entries_map(self.entries@).contains_key(self.entries@[i as int].0));
                }
                Some(&self.entries[i].1)
            },
            None => None,
        }
    }

    /// Records `ctx` as the context of the latest trace of `dest`, replacing
    /// any earlier one.
    pub fn insert(&mut self, dest: IpAddr, ctx: C)
        requires
            old(self).wf(),
        ensures
            final(self).wf(),
            final(self).view_map() == old(self).view_map().insert(dest, ctx),
    {
        proof {
            lemma_entries_map(self.entries@);
        }
        let ghost before = self.entries@;
        match self.position(dest) {
            Some(i) => {
                let (_, _old_ctx) = self.entries.remove(i);
                let ghost removed = self.entries@;
                assert(removed =~= before.remove(i as int));
                self.entries.push((dest, ctx));
                proof {
                    let after = self.entries@;
                    assert(distinct_keys(after)) by {
                        assert forall|a: int, b: int|
                            0 <= a < b < after.len() implies #[trigger] after[a].0
                            != #[trigger] after[b].0 by {
                            if b == after.len() - 1 {
                                let orig = if a < i { a } else { a + 1 };
                                assert(after[a] == before[orig]);
                                assert(orig != i);
                            } else {
                                let oa = if a < i { a } else { a + 1 };
                                let ob = if b < i { b } else { b + 1 };
                                assert(after[a] == before[oa] && after[b] == before[ob]);
                            }
                        }
                    }
                    lemma_entries_map(after);
                    lemma_entries_map(removed);
                    assert(entries_map(after) =~= entries_map(before).insert(dest, ctx)) by {
                        assert forall|k: IpAddr| #[trigger] entries_map(after).contains_key(k)
                            <==> entries_map(before).insert(dest, ctx).contains_key(k) by {
                            if entries_map(before).contains_key(k) && k != dest {
                                let j = choose|j: int| 0 <= j < before.len() && before[j].0 == k;
                                let nj = if j < i { j } else { j - 1 };
                                assert(j != i);
                                assert(after[nj] == before[j]);
                            }
                            if entries_map(after).contains_key(k) && k != dest {
                                let j = choose|j: int| 0 <= j < after.len() && after[j].0 == k;
                                let oj = if j < i { j } else { j + 1 };
                                assert(after[j] == before[oj]);
                            }
                        }
                        assert forall|k: IpAddr| #[trigger] entries_map(after).contains_key(k)
                            implies entries_map(after)[k] == entries_map(before).insert(
                            dest,
                            ctx,
                        )[k] by {
                            let j = choose|j: int| 0 <= j < after.len() && after[j].0 == k;
                            if k != dest {
                                let oj = if j < i { j } else { j + 1 };
                                assert(after[j] == before[oj]);
                            }
                        }
                    }
                }
            },
            None => {
                self.entries.push((dest, ctx));
                proof {
                    let after = self.entries@;
                    assert(after.drop_last() =~= before);
                    assert(distinct_keys(after)) by {
                        assert forall|a: int, b: int|
                            0 <= a < b < after.len() implies #[trigger] after[a].0
                            != #[trigger] after[b].0 by {
                            if b == after.len() - 1 {
                                assert(after[a] == before[a]);
                            } else {
                                assert(after[a] == before[a] && after[b] == before[b]);
                            }
                        }
                    }
                }
            },
        }
    }
}

impl<C> LinkCache<C> {
    /// The context that a new trace of `dest` links back to: the cached one
    /// when linking is enabled, none otherwise.
    pub fn link_for(&self, enabled: bool, dest: IpAddr) -> (r: Option<&C>)
        requires
            self.wf(),
        ensures
            !enabled ==> r is None,
            enabled ==> match r {
                Some(c) => self.view_map().contains_key(dest) && self.view_map()[dest] == *c,
                None => !self.view_map().contains_key(dest),
            },
    {
        if enabled {
            self.get(dest)
        } else {
            None
        }
    }

    /// Keeps the context of a finished trace of `dest` for the next one,
    /// when linking is enabled and the trace produced a context.
    pub fn remember(&mut self, enabled: bool, dest: IpAddr, ctx: Option<C>)
        requires
            old(self).wf(),
        ensures
            final(self).wf(),
            final(self).view_map() == match ctx {
                Some(c) => if enabled {
                    old(self).view_map().insert(dest, c)
                } else {
                    old(self).view_map()
                },
                None => old(self).view_map(),
            },
    {
        if enabled {
            match ctx {
                Some(c) => self.insert(dest, c),
                None => {},
            }
        }
    }
}

/// What a cache gives back after an insert: the context just inserted for
/// its destination, and for every other destination what it gave before.
pub proof fn lemma_read_after_insert<C>(before: Map<IpAddr, C>, dest: IpAddr, ctx: C, other: IpAddr)
    ensures
        before.insert(dest, ctx).contains_key(dest),
        before.insert(dest, ctx)[dest] == ctx,
        other != dest ==> (before.insert(dest, ctx).contains_key(other) == before.contains_key(
            other,
        )),
        other != dest && before.contains_key(other) ==> before.insert(dest, ctx)[other]
            == before[other],
{
}

} // verus!
