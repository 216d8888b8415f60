//! Metadata baggage associated with a traceroute execution.

use crate::text::{decimal, decimal_text};
use vstd::prelude::*;

verus! {

/// Metadata baggage key-value pairs associated with the traceroute execution.
#[derive(Debug, Clone, PartialEq, Eq)]
pub struct TracerouteBaggage {
    /// Value of the `destination_hostname` entry.
    pub destination_hostname: String,
    /// Value of the `source` entry.
    pub source: String,
    /// Value of the `max_hops` entry.
    pub max_hops: String,
    /// Value of the `xid` entry.
    pub xid: String,
}

/// The baggage as a map from key to value.
pub open spec fn baggage_map(b: TracerouteBaggage) -> Map<Seq<char>, Seq<char>> {
    map![
        "destination_hostname"@ => b.destination_hostname@,
        "source"@ => b.source@,
        "max_hops"@ => b.max_hops@,
        "xid"@ => b.xid@,
    ]
}

/// The four keys are distinct (their lengths differ).
proof fn lemma_baggage_keys_distinct()
    ensures
        "destination_hostname"@ != "source"@,
        "destination_hostname"@ != "max_hops"@,
        "destination_hostname"@ != "xid"@,
        "source"@ != "max_hops"@,
        "source"@ != "xid"@,
        "max_hops"@ != "xid"@,
{
    reveal_strlit("destination_hostname");
    reveal_strlit("source");
    reveal_strlit("max_hops");
    reveal_strlit("xid");
    assert("destination_hostname"@.len() == 20);
    assert("source"@.len() == 6);
    assert("max_hops"@.len() == 8);
    assert("xid"@.len() == 3);
}

/// Constructs metadata baggage key-value pairs associated with the traceroute execution.
pub fn build_traceroute_baggage(dest: &str, source: &str, max_hops: u16, xid: &str) -> (r:
    TracerouteBaggage)
    ensures
        r.destination_hostname@ == dest@,
        r.source@ == source@,
        r.max_hops@ == decimal(max_hops as nat),
        r.xid@ == xid@,
{
    TracerouteBaggage {
        destination_hostname: String::from_str(dest),
        source: String::from_str(source),
        max_hops: decimal_text(max_hops as u64),
        xid: String::from_str(xid),
    }
}

impl TracerouteBaggage {
    /// The value of entry `key`, if the baggage has such an entry.
    pub fn get(&self, key: &str) -> (r: Option<&String>)
        ensures
            match r {
                Some(v) => baggage_map(*self).contains_key(key@) && baggage_map(*self)[key@]
                    == v@,
                None => !baggage_map(*self).contains_key(key@),
            },
    {
        proof {
            lemma_baggage_keys_distinct();
        }
        let k = String::from_str(key);
        if k == String::from_str("destination_hostname") {
            Some(&self.destination_hostname)
        } else if k == String::from_str("source") {
            Some(&self.source)
        } else if k == String::from_str("max_hops") {
            Some(&self.max_hops)
        } else if k == String::from_str("xid") {
            Some(&self.xid)
        } else {
            None
        }
    }

    /// The entries of the baggage as (key, value) pairs, in a fixed order.
    pub fn entries(&self) -> (r: Vec<(String, String)>)
        ensures
            r@.len() == 4,
            forall|i: int|
                0 <= i < 4 ==> #[trigger] baggage_map(*self).contains_key(r@[i].0@)
                    && baggage_map(*self)[r@[i].0@] == r@[i].1@,
            r@[0].0@ == "destination_hostname"@,
            r@[1].0@ == "source"@,
            r@[2].0@ == "max_hops"@,
            r@[3].0@ == "xid"@,
    {
        proof {
            lemma_baggage_keys_distinct();
        }
        let r = vec![
            (String::from_str("destination_hostname"), self.destination_hostname.clone()),
            (String::from_str("source"), self.source.clone()),
            (String::from_str("max_hops"), self.max_hops.clone()),
            (String::from_str("xid"), self.xid.clone()),
        ];
        r
    }
}

} // verus!
