//! The keyed table of reconciled records.
use vstd::prelude::*;

use crate::reconcile::{
    created, has_new_tag, is_change, merge_outcome, merged, new_reasons, reconcile_record,
    severity_reason, Outcome, REASON_CREATED,
};
use crate::record::{pending, VulnInfo, VulnView};
use crate::text::{clone_strings, str_eq, strs};

verus! {

/// The views of a vector of records.
pub open spec fn views(v: Seq<VulnInfo>) -> Seq<VulnView> {
    v.map_values(|r: VulnInfo| r@)
}

/// No two records share a key.
pub open spec fn keys_unique(s: Seq<VulnView>) -> bool {
    forall|i: int, j: int|
        0 <= i < s.len() && 0 <= j < s.len() && #[trigger] s[i].key == #[trigger] s[j].key ==> i
            == j
}

/// Some record has key `k`.
pub open spec fn has_key(s: Seq<VulnView>, k: Seq<char>) -> bool {
    exists|i: int| 0 <= i < s.len() && #[trigger] s[i].key == k
}

/// The position of the record with key `k` (meaningful where `has_key`).
pub open spec fn key_index(s: Seq<VulnView>, k: Seq<char>) -> int {
    choose|i: int| 0 <= i < s.len() && #[trigger] s[i].key == k
}

/// The record with key `k` (meaningful where `has_key`).
pub open spec fn record_for(s: Seq<VulnView>, k: Seq<char>) -> VulnView {
    s[key_index(s, k)]
}

/// The table after `raw` is reconciled into it.
pub open spec fn reconciled(s: Seq<VulnView>, raw: VulnView) -> Seq<VulnView> {
    if has_key(s, raw.key) {
        let i = key_index(s, raw.key);
        s.update(i, merged(s[i], raw))
    } else {
        s.push(created(raw))
    }
}

/// What reconciling `raw` into the table does.
pub open spec fn reconcile_outcome(s: Seq<VulnView>, raw: VulnView) -> Outcome {
    if has_key(s, raw.key) {
        merge_outcome(record_for(s, raw.key), raw)
    } else {
        Outcome::New
    }
}

/// The records waiting for delivery, in table order.
pub open spec fn pending_of(s: Seq<VulnView>) -> Seq<VulnView> {
    s.filter(|r: VulnView| pending(r))
}

/// The table with the `pushed` flag of the record with key `k` set to `b`.
pub open spec fn with_pushed(s: Seq<VulnView>, k: Seq<char>, b: bool) -> Seq<VulnView> {
    if has_key(s, k) {
        let i = key_index(s, k);
        s.update(i, VulnView { pushed: b, ..s[i] })
    } else {
        s
    }
}

/// The table with the enrichment links of the record with key `k` replaced.
pub open spec fn with_links(s: Seq<VulnView>, k: Seq<char>, links: Seq<Seq<char>>) -> Seq<
    VulnView,
> {
    if has_key(s, k) {
        let i = key_index(s, k);
        s.update(i, VulnView { github_search: links, ..s[i] })
    } else {
        s
    }
}

/// The durable table of records, one per key. Records are never removed.
pub struct Store {
    records: Vec<VulnInfo>,
}

impl View for Store {
    type V = Seq<VulnView>;

    closed spec fn view(&self) -> Seq<VulnView> {
        views(self.records@)
    }
}

impl Store {
    /// Keys are unique across the table.
    pub open spec fn wf(&self) -> bool {
        keys_unique(self@)
    }

    /// An empty table.
    pub fn new() -> (r: Store)
        ensures
            r.wf(),
            r@ == Seq::<VulnView>::empty(),
    {
        let r = Store { records: Vec::new() };
        assert(r@ =~= Seq::<VulnView>::empty());
        r
    }

    /// The number of stored records.
    pub fn count(&self) -> (r: usize)
        ensures
            r == self@.len(),
    {
        self.records.len()
    }

    /// The position of the record with key `key`, if there is one.
    pub fn position(&self, key: &str) -> (r: Option<usize>)
        requires
            self.wf(),
        ensures
            r is None <==> !has_key(self@, key@),
            r is Some ==> r->0 == key_index(self@, key@) && r->0 < self@.len(),
    {
        let mut i: usize = 0;
        while i < self.records.len()
            invariant
                i <= self@.len(),
                self.wf(),
                self@.len() == self.records@.len(),
                forall|j: int| 0 <= j < i ==> self@[j].key != key@,
            decreases self.records@.len() - i,
        {
            if str_eq(self.records[i].unique_key.as_str(), key) {
                assert(self@[i as int].key == key@);
                let ghost k = key_index(self@, key@);
                assert(self@[k].key == key@);
                return Some(i);
            }
            i = i + 1;
        }
        None
    }

    /// A copy of the record with key `key`, if there is one.
    pub fn find_by_key(&self, key: &str) -> (r: Option<VulnInfo>)
        requires
            self.wf(),
        ensures
            r is None <==> !has_key(self@, key@),
            r is Some ==> r->0@ == record_for(self@, key@),
    {
        match self.position(key) {
            None => None,
            Some(i) => Some(self.records[i].duplicate()),
        }
    }

    /// Reconciles one collected advisory: a new key is stored with the reason
    /// "created"; a stored one is merged by the rule of `merged`.
    pub fn reconcile(&mut self, raw: VulnInfo) -> (r: Outcome)
        requires
            old(self).wf(),
        ensures
            final(self).wf(),
            final(self)@ == reconciled(old(self)@, raw@),
            r == reconcile_outcome(old(self)@, raw@),
    {
        let ghost s = self@;
        let ghost w = raw@;
        match self.position(raw.unique_key.as_str()) {
            None => {
                let (rec, out) = reconcile_record(None, raw);
                self.records.push(rec);
                assert(self@ =~= s.push(created(w)));
                assert(keys_unique(self@)) by {
                    assert forall|i: int, j: int|
                        0 <= i < self@.len() && 0 <= j < self@.len() && #[trigger] self@[i].key
                            == #[trigger] self@[j].key implies i == j by {
                        if i < s.len() && j == s.len() {
                            assert(s[i].key == w.key);
                        }
                        if j < s.len() && i == s.len() {
                            assert(s[j].key == w.key);
                        }
                    }
                }
                out
            },
            Some(i) => {
                let old_rec = self.records[i].duplicate();
                let (rec, out) = reconcile_record(Some(old_rec), raw);
                self.records.set(i, rec);
                assert(self@ =~= s.update(i as int, merged(s[i as int], w)));
                assert(keys_unique(self@)) by {
                    assert forall|a: int, b: int|
                        0 <= a < self@.len() && 0 <= b < self@.len() && #[trigger] self@[a].key
                            == #[trigger] self@[b].key implies a == b by {
                        assert(self@[a].key == s[a].key);
                        assert(self@[b].key == s[b].key);
                    }
                }
                out
            },
        }
    }

    /// Sets the `pushed` flag of the record with key `key`; false where no
    /// record has that key.
    pub fn set_pushed(&mut self, key: &str, pushed: bool) -> (r: bool)
        requires
            old(self).wf(),
        ensures
            final(self).wf(),
            r == has_key(old(self)@, key@),
            final(self)@ == with_pushed(old(self)@, key@, pushed),
    {
        let ghost s = self@;
        match self.position(key) {
            None => false,
            Some(i) => {
                let mut rec = self.records[i].duplicate();
                rec.pushed = pushed;
                self.records.set(i, rec);
                assert(self@ =~= with_pushed(s, key@, pushed));
                assert(keys_unique(self@)) by {
                    assert forall|a: int, b: int|
                        0 <= a < self@.len() && 0 <= b < self@.len() && #[trigger] self@[a].key
                            == #[trigger] self@[b].key implies a == b by {
                        assert(self@[a].key == s[a].key);
                        assert(self@[b].key == s[b].key);
                    }
                }
                true
            },
        }
    }

    /// Replaces the enrichment links of the record with key `key`; false where
    /// no record has that key.
    pub fn merge_enrichment(&mut self, key: &str, links: &Vec<String>) -> (r: bool)
        requires
            old(self).wf(),
        ensures
            final(self).wf(),
            r == has_key(old(self)@, key@),
            final(self)@ == with_links(old(self)@, key@, strs(links@)),
    {
        let ghost s = self@;
        match self.position(key) {
            None => false,
            Some(i) => {
                let mut rec = self.records[i].duplicate();
                rec.github_search = clone_strings(links);
                self.records.set(i, rec);
                assert(self@ =~= with_links(s, key@, strs(links@)));
                assert(keys_unique(self@)) by {
                    assert forall|a: int, b: int|
                        0 <= a < self@.len() && 0 <= b < self@.len() && #[trigger] self@[a].key
                            == #[trigger] self@[b].key implies a == b by {
                        assert(self@[a].key == s[a].key);
                        assert(self@[b].key == s[b].key);
                    }
                }
                true
            },
        }
    }

    /// Copies of the records waiting for delivery (worth notifying about and
    /// not yet delivered), in table order.
    pub fn pending_records(&self) -> (r: Vec<VulnInfo>)
        ensures
            views(r@) == pending_of(self@),
    {
        let mut r: Vec<VulnInfo> = Vec::new();
        let mut i: usize = 0;
        while i < self.records.len()
            invariant
                i <= self@.len(),
                self@.len() == self.records@.len(),
                views(r@) == pending_of(self@.take(i as int)),
            decreases self.records@.len() - i,
        {
            let ghost before = views(r@);
            let rec = &self.records[i];
            if rec.is_pending() {
                r.push(rec.duplicate());
            }
            proof {
                let t = self@.take(i + 1);
                assert(t.drop_last() =~= self@.take(i as int));
                reveal(Seq::filter);
                assert(views(r@) =~= pending_of(t));
            }
            i = i + 1;
        }
        assert(self@.take(self@.len() as int) =~= self@);
        r
    }
}

/// In a table with unique keys, the record found at a position is the record
/// for its key.
pub proof fn lemma_record_at(t: Seq<VulnView>, k: Seq<char>, i: int)
    requires
        keys_unique(t),
        0 <= i < t.len(),
        t[i].key == k,
    ensures
        has_key(t, k),
        key_index(t, k) == i,
        record_for(t, k) == t[i],
{
    let j = key_index(t, k);
    assert(t[j].key == k);
}

/// Reconciling keeps keys unique, keeps every stored key where it was, and
/// leaves a record for the reconciled key.
pub proof fn lemma_reconciled_keys(s: Seq<VulnView>, raw: VulnView)
    requires
        keys_unique(s),
    ensures
        keys_unique(reconciled(s, raw)),
        reconciled(s, raw).len() >= s.len(),
        forall|j: int| 0 <= j < s.len() ==> #[trigger] reconciled(s, raw)[j].key == s[j].key,
        has_key(reconciled(s, raw), raw.key),
{
    let t = reconciled(s, raw);
    if has_key(s, raw.key) {
        let i = key_index(s, raw.key);
        assert(t[i].key == raw.key);
        assert forall|a: int, b: int|
            0 <= a < t.len() && 0 <= b < t.len() && #[trigger] t[a].key == #[trigger] t[b].key implies a
            == b by {
            assert(t[a].key == s[a].key);
            assert(t[b].key == s[b].key);
        }
    } else {
        assert(t[s.len() as int].key == raw.key);
        assert forall|a: int, b: int|
            0 <= a < t.len() && 0 <= b < t.len() && #[trigger] t[a].key == #[trigger] t[b].key implies a
            == b by {
            if a < s.len() && b == s.len() {
                assert(s[a].key == raw.key);
            }
            if b < s.len() && a == s.len() {
                assert(s[b].key == raw.key);
            }
        }
    }
}

/// No list of tags adds a tag to itself.
pub proof fn lemma_no_new_tag_in_self(tags: Seq<Seq<char>>)
    ensures
        !has_new_tag(tags, tags),
{
    assert forall|i: int| 0 <= i < tags.len() implies tags.contains(#[trigger] tags[i]) by {
        assert(tags[i] == tags[i]);
    }
}

/// A key seen for the first time is stored with the single reason "created",
/// not yet delivered, and the outcome is `New`.
pub proof fn lemma_fresh_key_created(s: Seq<VulnView>, raw: VulnView)
    requires
        keys_unique(s),
        !has_key(s, raw.key),
    ensures
        reconcile_outcome(s, raw) == Outcome::New,
        has_key(reconciled(s, raw), raw.key),
        record_for(reconciled(s, raw), raw.key).reasons == seq![REASON_CREATED@],
        !record_for(reconciled(s, raw), raw.key).pushed,
{
    lemma_reconciled_keys(s, raw);
    lemma_record_at(reconciled(s, raw), raw.key, s.len() as int);
}

/// Reconciling the same advisory a second time changes nothing: the table,
/// and so the reasons and the `pushed` flag of its record, stay as the first
/// reconciliation left them, and the outcome is `Unchanged`.
pub proof fn lemma_reconcile_idempotent(s: Seq<VulnView>, raw: VulnView)
    requires
        keys_unique(s),
    ensures
        reconciled(reconciled(s, raw), raw) == reconciled(s, raw),
        reconcile_outcome(reconciled(s, raw), raw) == Outcome::Unchanged,
        record_for(reconciled(reconciled(s, raw), raw), raw.key).reasons == record_for(
            reconciled(s, raw),
            raw.key,
        ).reasons,
        record_for(reconciled(reconciled(s, raw), raw), raw.key).pushed == record_for(
            reconciled(s, raw),
            raw.key,
        ).pushed,
{
    let t = reconciled(s, raw);
    lemma_reconciled_keys(s, raw);
    let i = if has_key(s, raw.key) {
        key_index(s, raw.key)
    } else {
        s.len() as int
    };
    assert(t[i].key == raw.key);
    lemma_record_at(t, raw.key, i);
    let rec = t[i];
    lemma_no_new_tag_in_self(raw.tags);
    assert(!is_change(rec, raw));
    assert(new_reasons(rec, raw) =~= Seq::<Seq<char>>::empty());
    assert(rec.reasons + new_reasons(rec, raw) =~= rec.reasons);
    assert(merged(rec, raw) == rec);
    assert(reconciled(t, raw) =~= t);
}

/// When the severity of a stored record changes, the record waits for
/// delivery again and gets exactly one new reason right after its old ones,
/// "severity: {old} => {new}", naming both labels.
pub proof fn lemma_severity_change(s: Seq<VulnView>, raw: VulnView)
    requires
        keys_unique(s),
        has_key(s, raw.key),
        record_for(s, raw.key).severity != raw.severity,
    ensures
        reconcile_outcome(s, raw) == Outcome::Changed,
        ({
            let before = record_for(s, raw.key);
            let after = record_for(reconciled(s, raw), raw.key);
            &&& !after.pushed
            &&& after.severity == raw.severity
            &&& after.reasons.len() > before.reasons.len()
            &&& after.reasons.subrange(0, before.reasons.len() as int) == before.reasons
            &&& after.reasons[before.reasons.len() as int] == severity_reason(
                before.severity,
                raw.severity,
            )
        }),
{
    let t = reconciled(s, raw);
    let i = key_index(s, raw.key);
    lemma_reconciled_keys(s, raw);
    assert(t[i].key == raw.key);
    lemma_record_at(t, raw.key, i);
    let before = s[i];
    let after = t[i];
    assert(after.reasons =~= before.reasons + new_reasons(before, raw));
    assert(after.reasons.subrange(0, before.reasons.len() as int) =~= before.reasons);
}

/// Reasons only grow: after a reconciliation every stored record still has
/// all its earlier reasons, in order, at the front.
pub proof fn lemma_reasons_append_only(s: Seq<VulnView>, raw: VulnView, k: Seq<char>)
    requires
        keys_unique(s),
        has_key(s, k),
    ensures
        has_key(reconciled(s, raw), k),
        record_for(reconciled(s, raw), k).reasons.len() >= record_for(s, k).reasons.len(),
        record_for(reconciled(s, raw), k).reasons.subrange(
            0,
            record_for(s, k).reasons.len() as int,
        ) == record_for(s, k).reasons,
{
    let t = reconciled(s, raw);
    let i = key_index(s, k);
    lemma_reconciled_keys(s, raw);
    assert(t[i].key == k);
    lemma_record_at(t, k, i);
    let before = s[i];
    let after = t[i];
    if has_key(s, raw.key) && key_index(s, raw.key) == i {
        assert(after.reasons =~= before.reasons + new_reasons(before, raw));
    }
    assert(after.reasons.subrange(0, before.reasons.len() as int) =~= before.reasons);
}

} // verus!
