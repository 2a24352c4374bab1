//! Deciding what to deliver and what a delivery attempt means for a record.
use vstd::prelude::*;

use crate::record::VulnInfo;
use crate::store::{has_key, keys_unique, record_for, with_pushed, Store};
use crate::record::VulnView;

verus! {

/// Every channel accepted the message.
pub open spec fn all_ok(results: Seq<bool>) -> bool {
    forall|i: int| 0 <= i < results.len() ==> #[trigger] results[i]
}

/// The table after a delivery attempt of the record with key `k`: it is
/// marked delivered when every channel succeeded, and left as it was otherwise.
pub open spec fn delivered(s: Seq<VulnView>, k: Seq<char>, results: Seq<bool>) -> Seq<VulnView> {
    if all_ok(results) {
        with_pushed(s, k, true)
    } else {
        s
    }
}

/// Whether every channel accepted the message.
pub fn all_delivered(results: &Vec<bool>) -> (r: bool)
    ensures
        r == all_ok(results@),
{
    let mut i: usize = 0;
    while i < results.len()
        invariant
            i <= results@.len(),
            forall|j: int| 0 <= j < i ==> #[trigger] results@[j],
        decreases results@.len() - i,
    {
        if !results[i] {
            return false;
        }
        i = i + 1;
    }
    true
}

/// Whether the record's CVE is looked up for extra links before delivery:
/// only where lookups are enabled and the record names a CVE.
pub fn should_enrich(record: &VulnInfo, enabled: bool) -> (r: bool)
    ensures
        r == (enabled && record.cve@.len() > 0),
{
    enabled && record.cve.unicode_len() > 0
}

/// The links of the two lookups for a CVE, pull requests first; a lookup that
/// failed adds nothing.
pub fn merge_poc_links(pulls: Result<Vec<String>, String>, repos: Result<Vec<String>, String>) -> (r:
    Vec<String>)
    ensures
        r@ == (match pulls {
            Ok(v) => v@,
            Err(_) => Seq::empty(),
        }) + (match repos {
            Ok(v) => v@,
            Err(_) => Seq::empty(),
        }),
{
    let mut res: Vec<String> = Vec::new();
    match pulls {
        Ok(v) => {
            let mut v = v;
            res.append(&mut v);
        },
        Err(_) => {},
    }
    match repos {
        Ok(v) => {
            let mut v = v;
            res.append(&mut v);
        },
        Err(_) => {},
    }
    assert(res@ =~= (match pulls {
        Ok(v) => v@,
        Err(_) => Seq::empty(),
    }) + (match repos {
        Ok(v) => v@,
        Err(_) => Seq::empty(),
    }));
    res
}

/// Applies the outcome of delivering the record with key `key` to every
/// channel (`results`, one entry per channel): the record is marked delivered
/// only if all succeeded. Returns whether it was marked.
pub fn record_delivery(store: &mut Store, key: &str, results: &Vec<bool>) -> (r: bool)
    requires
        old(store).wf(),
    ensures
        final(store).wf(),
        final(store)@ == delivered(old(store)@, key@, results@),
        r == (all_ok(results@) && has_key(old(store)@, key@)),
{
    if all_delivered(results) {
        store.set_pushed(key, true)
    } else {
        false
    }
}

/// A waiting record becomes delivered exactly when every channel succeeded;
/// so with one failing channel among several it stays undelivered and is
/// offered again on the next pass.
pub proof fn lemma_pushed_iff_all_ok(s: Seq<VulnView>, k: Seq<char>, results: Seq<bool>)
    requires
        keys_unique(s),
        has_key(s, k),
        !record_for(s, k).pushed,
    ensures
        has_key(delivered(s, k, results), k),
        record_for(delivered(s, k, results), k).pushed <==> all_ok(results),
        (results.len() >= 2 && exists|i: int| 0 <= i < results.len() && !results[i]) ==> !record_for(
            delivered(s, k, results),
            k,
        ).pushed,
{
    let t = delivered(s, k, results);
    let i = crate::store::key_index(s, k);
    assert(s[i].key == k);
    assert(t[i].key == k);
    assert(keys_unique(t)) by {
        assert forall|a: int, b: int|
            0 <= a < t.len() && 0 <= b < t.len() && #[trigger] t[a].key == #[trigger] t[b].key implies a
            == b by {
            assert(t[a].key == s[a].key);
            assert(t[b].key == s[b].key);
        }
    }
    crate::store::lemma_record_at(t, k, i);
    crate::store::lemma_record_at(s, k, i);
}

} // verus!
