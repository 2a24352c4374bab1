//! The rule that merges a freshly collected advisory into the stored one.
use vstd::prelude::*;

use crate::record::{VulnInfo, VulnView};
use crate::severity::{severity_label, Severity};
use crate::text::{contains_str, strs};

verus! {

/// The reason recorded when a key is first seen.
pub const REASON_CREATED: &'static str = "created";

/// What reconciling one advisory did to the store.
#[derive(Clone, Copy, Debug, PartialEq, Eq, Structural)]
pub enum Outcome {
    /// The key was not stored yet; a record was created.
    New,
    /// The severity changed or a tag was added; the record waits for delivery again.
    Changed,
    /// Nothing that calls for a notification changed.
    Unchanged,
}

/// The items of a list joined by ", ".
pub open spec fn joined(s: Seq<Seq<char>>) -> Seq<char>
    decreases s.len(),
{
    if s.len() == 0 {
        Seq::empty()
    } else if s.len() == 1 {
        s[0]
    } else {
        joined(s.drop_last()) + ", "@ + s.last()
    }
}

/// A list written as "[a, b, c]".
pub open spec fn list_text(s: Seq<Seq<char>>) -> Seq<char> {
    "["@ + joined(s) + "]"@
}

/// "severity: {old} => {new}".
pub open spec fn severity_reason(old: Severity, new: Severity) -> Seq<char> {
    "severity: "@ + severity_label(old) + " => "@ + severity_label(new)
}

/// "tags: {old} => {new}".
pub open spec fn tags_reason(old: Seq<Seq<char>>, new: Seq<Seq<char>>) -> Seq<char> {
    "tags: "@ + list_text(old) + " => "@ + list_text(new)
}

/// Some tag of `new` is missing from `old`.
pub open spec fn has_new_tag(old: Seq<Seq<char>>, new: Seq<Seq<char>>) -> bool {
    exists|i: int| 0 <= i < new.len() && !old.contains(#[trigger] new[i])
}

pub open spec fn severity_changed(old: VulnView, raw: VulnView) -> bool {
    old.severity != raw.severity
}

pub open spec fn tags_changed(old: VulnView, raw: VulnView) -> bool {
    has_new_tag(old.tags, raw.tags)
}

/// The severity or the tags changed in a way that calls for a new notification.
pub open spec fn is_change(old: VulnView, raw: VulnView) -> bool {
    severity_changed(old, raw) || tags_changed(old, raw)
}

/// The reasons a reconciliation appends, severity first.
pub open spec fn new_reasons(old: VulnView, raw: VulnView) -> Seq<Seq<char>> {
    (if severity_changed(old, raw) {
        seq![severity_reason(old.severity, raw.severity)]
    } else {
        Seq::empty()
    }) + (if tags_changed(old, raw) {
        seq![tags_reason(old.tags, raw.tags)]
    } else {
        Seq::empty()
    })
}

/// The record stored for a key seen for the first time.
pub open spec fn created(raw: VulnView) -> VulnView {
    VulnView {
        key: raw.key,
        title: raw.title,
        description: raw.description,
        severity: raw.severity,
        cve: raw.cve,
        disclosure: raw.disclosure,
        references: raw.references,
        solutions: raw.solutions,
        from: raw.from,
        tags: raw.tags,
        reasons: seq![REASON_CREATED@],
        github_search: Seq::empty(),
        is_valuable: raw.is_valuable,
        pushed: false,
    }
}

/// The stored record after `raw` is merged into `old`. The descriptive
/// fields always take the latest values; severity and tags decide whether
/// a reason is appended and delivery starts over. The key, the CVE and the
/// enrichment links stay as stored.
pub open spec fn merged(old: VulnView, raw: VulnView) -> VulnView {
    let change = is_change(old, raw);
    VulnView {
        key: old.key,
        title: raw.title,
        description: raw.description,
        severity: raw.severity,
        cve: old.cve,
        disclosure: raw.disclosure,
        references: raw.references,
        solutions: raw.solutions,
        from: raw.from,
        tags: if change {
            raw.tags
        } else {
            old.tags
        },
        reasons: old.reasons + new_reasons(old, raw),
        github_search: old.github_search,
        is_valuable: raw.is_valuable,
        pushed: if change {
            false
        } else {
            old.pushed
        },
    }
}

/// The outcome of merging `raw` into `old`.
pub open spec fn merge_outcome(old: VulnView, raw: VulnView) -> Outcome {
    if is_change(old, raw) {
        Outcome::Changed
    } else {
        Outcome::Unchanged
    }
}

/// A list written as "[a, b, c]".
pub fn list_to_text(v: &Vec<String>) -> (r: String)
    ensures
        r@ == list_text(strs(v@)),
{
    let mut out = String::from_str("[");
    let mut i: usize = 0;
    while i < v.len()
        invariant
            i <= v@.len(),
            out@ == "["@ + joined(strs(v@).take(i as int)),
        decreases v@.len() - i,
    {
        let ghost before = strs(v@).take(i as int);
        if i > 0 {
            out.append(", ");
        }
        out.append(v[i].as_str());
        proof {
            let after = strs(v@).take(i + 1);
            assert(after.drop_last() =~= before);
            assert(after.last() == v@[i as int]@);
            if i == 0 {
                assert(before.len() == 0);
                assert(out@ =~= "["@ + after[0]);
            } else {
                assert(out@ =~= "["@ + joined(before) + ", "@ + after.last());
            }
        }
        i = i + 1;
    }
    assert(strs(v@).take(v@.len() as int) =~= strs(v@));
    out.append("]");
    out
}

/// "severity: {old} => {new}" as a string.
pub fn severity_reason_text(old: Severity, new: Severity) -> (r: String)
    ensures
        r@ == severity_reason(old, new),
{
    let mut s = String::from_str("severity: ");
    s.append(old.label());
    s.append(" => ");
    s.append(new.label());
    s
}

/// "tags: {old} => {new}" as a string.
pub fn tags_reason_text(old: &Vec<String>, new: &Vec<String>) -> (r: String)
    ensures
        r@ == tags_reason(strs(old@), strs(new@)),
{
    let mut s = String::from_str("tags: ");
    let o = list_to_text(old);
    s.append(o.as_str());
    s.append(" => ");
    let n = list_to_text(new);
    s.append(n.as_str());
    s
}

/// Whether `new` holds a tag that `old` lacks.
pub fn adds_tag(old: &Vec<String>, new: &Vec<String>) -> (r: bool)
    ensures
        r == has_new_tag(strs(old@), strs(new@)),
{
    let mut i: usize = 0;
    while i < new.len()
        invariant
            i <= new@.len(),
            forall|j: int| 0 <= j < i ==> strs(old@).contains(#[trigger] strs(new@)[j]),
        decreases new@.len() - i,
    {
        if !contains_str(old, &new[i]) {
            assert(!strs(old@).contains(strs(new@)[i as int]));
            return true;
        }
        i = i + 1;
    }
    false
}

/// The record to store for a key seen for the first time.
pub fn create_record(raw: VulnInfo) -> (r: VulnInfo)
    ensures
        r@ == created(raw@),
{
    let mut reasons: Vec<String> = Vec::new();
    reasons.push(String::from_str(REASON_CREATED));
    let r = VulnInfo {
        unique_key: raw.unique_key,
        title: raw.title,
        description: raw.description,
        severity: raw.severity,
        cve: raw.cve,
        disclosure: raw.disclosure,
        references: raw.references,
        solutions: raw.solutions,
        from: raw.from,
        tags: raw.tags,
        reasons,
        github_search: Vec::new(),
        is_valuable: raw.is_valuable,
        pushed: false,
    };
    assert(r@.reasons =~= seq![REASON_CREATED@]);
    assert(r@.github_search =~= Seq::<Seq<char>>::empty());
    r
}

/// Merges a freshly collected advisory into the stored record of the same
/// key, returning the record to store and whether it changed.
pub fn merge_record(old: VulnInfo, raw: VulnInfo) -> (r: (VulnInfo, Outcome))
    ensures
        r.0@ == merged(old@, raw@),
        r.1 == merge_outcome(old@, raw@),
{
    let ghost o = old@;
    let ghost w = raw@;
    let sev_changed = old.severity != raw.severity;
    let tag_changed = adds_tag(&old.tags, &raw.tags);
    let mut reasons = old.reasons;
    if sev_changed {
        reasons.push(severity_reason_text(old.severity, raw.severity));
    }
    if tag_changed {
        reasons.push(tags_reason_text(&old.tags, &raw.tags));
    }
    assert(strs(reasons@) =~= o.reasons + new_reasons(o, w));
    let change = sev_changed || tag_changed;
    let r = VulnInfo {
        unique_key: old.unique_key,
        title: raw.title,
        description: raw.description,
        severity: raw.severity,
        cve: old.cve,
        disclosure: raw.disclosure,
        references: raw.references,
        solutions: raw.solutions,
        from: raw.from,
        tags: if change {
            raw.tags
        } else {
            old.tags
        },
        reasons,
        github_search: old.github_search,
        is_valuable: raw.is_valuable,
        pushed: if change {
            false
        } else {
            old.pushed
        },
    };
    (r, if change {
        Outcome::Changed
    } else {
        Outcome::Unchanged
    })
}

/// Reconciles `raw` against the record stored under its key, if any:
/// the record to store and the outcome.
pub fn reconcile_record(existing: Option<VulnInfo>, raw: VulnInfo) -> (r: (VulnInfo, Outcome))
    ensures
        existing is None ==> r.0@ == created(raw@) && r.1 == Outcome::New,
        existing is Some ==> r.0@ == merged(existing->0@, raw@) && r.1 == merge_outcome(
            existing->0@,
            raw@,
        ),
{
    match existing {
        None => (create_record(raw), Outcome::New),
        Some(old) => merge_record(old, raw),
    }
}

} // verus!
