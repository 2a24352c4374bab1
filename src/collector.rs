//! Gathering the batches of all sources and feeding them to the store.
use vstd::prelude::*;

use crate::reconcile::Outcome;
use crate::record::{VulnInfo, VulnView};
use crate::store::{reconcile_outcome, reconciled, views, Store};

verus! {

/// The advisories of one source's answer: its batch, or nothing if it failed.
pub open spec fn batch_views(b: Result<Vec<VulnInfo>, String>) -> Seq<VulnView> {
    match b {
        Ok(v) => views(v@),
        Err(_) => Seq::empty(),
    }
}

/// The advisories of all answers, source after source, failures skipped.
pub open spec fn collected(rs: Seq<Result<Vec<VulnInfo>, String>>) -> Seq<VulnView>
    decreases rs.len(),
{
    if rs.len() == 0 {
        Seq::empty()
    } else {
        collected(rs.drop_last()) + batch_views(rs.last())
    }
}

/// The table after every advisory of `raws` is reconciled into it, in order.
pub open spec fn reconciled_all(s: Seq<VulnView>, raws: Seq<VulnView>) -> Seq<VulnView>
    decreases raws.len(),
{
    if raws.len() == 0 {
        s
    } else {
        reconciled(reconciled_all(s, raws.drop_last()), raws.last())
    }
}

/// The keys whose reconciliation, in order, ended in `New` or `Changed`.
pub open spec fn notify_keys(s: Seq<VulnView>, raws: Seq<VulnView>) -> Seq<Seq<char>>
    decreases raws.len(),
{
    if raws.len() == 0 {
        Seq::empty()
    } else {
        let prev = notify_keys(s, raws.drop_last());
        if reconcile_outcome(reconciled_all(s, raws.drop_last()), raws.last())
            == Outcome::Unchanged {
            prev
        } else {
            prev.push(raws.last().key)
        }
    }
}

/// Joins the answers of all sources into one batch. A failed source adds
/// nothing and does not stop the others.
pub fn collect(results: Vec<Result<Vec<VulnInfo>, String>>) -> (r: Vec<VulnInfo>)
    ensures
        views(r@) == collected(results@),
{
    let ghost all = results@;
    assert(all.len() <= usize::MAX) by {
        let n = results.len();
    }
    let mut results = results;
    let mut out: Vec<VulnInfo> = Vec::new();
    let mut k: usize = 0;
    while results.len() > 0
        invariant
            k <= all.len(),
            all.len() <= usize::MAX,
            results@ == all.subrange(k as int, all.len() as int),
            views(out@) == collected(all.take(k as int)),
        decreases results@.len(),
    {
        let ghost before = out@;
        let answer = results.remove(0);
        assert(answer == all[k as int]);
        match answer {
            Ok(batch) => {
                let mut batch = batch;
                out.append(&mut batch);
            },
            Err(_) => {},
        }
        proof {
            let t = all.take(k + 1);
            assert(t.drop_last() =~= all.take(k as int));
            assert(t.last() == all[k as int]);
            assert(views(out@) =~= collected(all.take(k as int)) + batch_views(all[k as int]));
        }
        k = k + 1;
        assert(results@ =~= all.subrange(k as int, all.len() as int));
    }
    assert(all.take(all.len() as int) =~= all);
    out
}

/// Reconciles a batch one advisory at a time, so a key that occurs twice is
/// seen the second time with the effect of the first. Returns the keys that
/// ended in `New` or `Changed`, in order.
pub fn reconcile_all(store: &mut Store, raws: Vec<VulnInfo>) -> (r: Vec<String>)
    requires
        old(store).wf(),
    ensures
        final(store).wf(),
        final(store)@ == reconciled_all(old(store)@, views(raws@)),
        r@.map_values(|s: String| s@) == notify_keys(old(store)@, views(raws@)),
{
    let ghost s0 = store@;
    let ghost all = views(raws@);
    assert(all.len() <= usize::MAX) by {
        let n = raws.len();
    }
    let mut raws = raws;
    let mut keys: Vec<String> = Vec::new();
    let mut k: usize = 0;
    while raws.len() > 0
        invariant
            store.wf(),
            k <= all.len(),
            all.len() <= usize::MAX,
            views(raws@) == all.subrange(k as int, all.len() as int),
            store@ == reconciled_all(s0, all.take(k as int)),
            keys@.map_values(|s: String| s@) == notify_keys(s0, all.take(k as int)),
        decreases raws@.len(),
    {
        let ghost prev = raws@;
        assert(views(prev).len() == prev.len());
        assert(k < all.len());
        assert(all.subrange(k as int, all.len() as int)[0] == all[k as int]);
        assert(views(prev)[0] == all[k as int]);
        let raw = raws.remove(0);
        assert(raw@ == all[k as int]);
        let key = raw.unique_key.clone();
        let outcome = store.reconcile(raw);
        if outcome != Outcome::Unchanged {
            keys.push(key);
        }
        proof {
            let t = all.take(k + 1);
            assert(t.drop_last() =~= all.take(k as int));
            assert(t.last() == all[k as int]);
            assert(keys@.map_values(|s: String| s@) =~= notify_keys(s0, t));
        }
        k = k + 1;
        assert(raws@ =~= prev.subrange(1, prev.len() as int));
        assert(views(raws@) =~= views(prev).subrange(1, prev.len() as int));
        assert(views(raws@) =~= all.subrange(k as int, all.len() as int));
    }
    assert(all.take(all.len() as int) =~= all);
    keys
}

/// One collection and reconciliation step of a pass: joins the answers of the
/// sources and reconciles the batch; returns the keys to consider for
/// notification.
pub fn collect_and_reconcile(store: &mut Store, results: Vec<Result<Vec<VulnInfo>, String>>) -> (r:
    Vec<String>)
    requires
        old(store).wf(),
    ensures
        final(store).wf(),
        final(store)@ == reconciled_all(old(store)@, collected(results@)),
        r@.map_values(|s: String| s@) == notify_keys(old(store)@, collected(results@)),
{
    let batch = collect(results);
    reconcile_all(store, batch)
}

/// Every advisory of every source that answered is in the joined batch,
/// whatever the other sources did.
pub proof fn lemma_collect_keeps_answers(rs: Seq<Result<Vec<VulnInfo>, String>>)
    ensures
        forall|j: int, x: VulnView|
            0 <= j < rs.len() && #[trigger] batch_views(rs[j]).contains(x) ==> #[trigger] collected(
                rs,
            ).contains(x),
    decreases rs.len(),
{
    if rs.len() > 0 {
        let init = rs.drop_last();
        lemma_collect_keeps_answers(init);
        assert forall|j: int, x: VulnView|
            0 <= j < rs.len() && #[trigger] batch_views(rs[j]).contains(x) implies #[trigger] collected(
                rs,
            ).contains(x) by {
            let c = collected(rs);
            let p = collected(init);
            let b = batch_views(rs.last());
            assert(c == p + b);
            if j < rs.len() - 1 {
                assert(init[j] == rs[j]);
                assert(p.contains(x));
                let i = choose|i: int| 0 <= i < p.len() && p[i] == x;
                assert(c[i] == x);
            } else {
                let i = choose|i: int| 0 <= i < b.len() && b[i] == x;
                assert(c[p.len() + i] == x);
            }
        }
    }
}

} // verus!
