//! An advisory as a source reports it and as the store keeps it.
use vstd::prelude::*;

use crate::severity::{
    lemma_label_round_trip, severity_label, severity_of_label, Severity,
};
use crate::text::{clone_strings, strs};

verus! {

/// One advisory. A source fills the descriptive fields; `reasons`,
/// `github_search` and `pushed` belong to the stored record.
#[derive(Debug)]
pub struct VulnInfo {
    pub unique_key: String,
    pub title: String,
    pub description: String,
    pub severity: Severity,
    pub cve: String,
    pub disclosure: String,
    pub references: Vec<String>,
    pub solutions: String,
    pub from: String,
    pub tags: Vec<String>,
    pub reasons: Vec<String>,
    pub github_search: Vec<String>,
    pub is_valuable: bool,
    pub pushed: bool,
}

/// The mathematical content of a `VulnInfo`.
pub struct VulnView {
    pub key: Seq<char>,
    pub title: Seq<char>,
    pub description: Seq<char>,
    pub severity: Severity,
    pub cve: Seq<char>,
    pub disclosure: Seq<char>,
    pub references: Seq<Seq<char>>,
    pub solutions: Seq<char>,
    pub from: Seq<char>,
    pub tags: Seq<Seq<char>>,
    pub reasons: Seq<Seq<char>>,
    pub github_search: Seq<Seq<char>>,
    pub is_valuable: bool,
    pub pushed: bool,
}

impl View for VulnInfo {
    type V = VulnView;

    open spec fn view(&self) -> VulnView {
        VulnView {
            key: self.unique_key@,
            title: self.title@,
            description: self.description@,
            severity: self.severity,
            cve: self.cve@,
            disclosure: self.disclosure@,
            references: strs(self.references@),
            solutions: self.solutions@,
            from: self.from@,
            tags: strs(self.tags@),
            reasons: strs(self.reasons@),
            github_search: strs(self.github_search@),
            is_valuable: self.is_valuable,
            pushed: self.pushed,
        }
    }
}

impl VulnInfo {
    /// A field-for-field copy.
    pub fn duplicate(&self) -> (r: VulnInfo)
        ensures
            r@ == self@,
    {
        VulnInfo {
            unique_key: self.unique_key.clone(),
            title: self.title.clone(),
            description: self.description.clone(),
            severity: self.severity,
            cve: self.cve.clone(),
            disclosure: self.disclosure.clone(),
            references: clone_strings(&self.references),
            solutions: self.solutions.clone(),
            from: self.from.clone(),
            tags: clone_strings(&self.tags),
            reasons: clone_strings(&self.reasons),
            github_search: clone_strings(&self.github_search),
            is_valuable: self.is_valuable,
            pushed: self.pushed,
        }
    }

    /// Whether this record is waiting to be delivered: it is worth
    /// notifying about and its current state has not reached every channel.
    pub fn is_pending(&self) -> (r: bool)
        ensures
            r == pending(self@),
    {
        self.is_valuable && !self.pushed
    }
}

/// A record as a table row holds it: the severity as its label, and lists
/// that may be absent.
pub struct VulnRow {
    pub key: String,
    pub title: String,
    pub description: String,
    pub severtiy: String,
    pub cve: String,
    pub disclosure: String,
    pub solutions: String,
    pub references: Option<Vec<String>>,
    pub tags: Option<Vec<String>>,
    pub from: String,
    pub pushed: bool,
    pub reasons: Option<Vec<String>>,
    pub github_search: Option<Vec<String>>,
    pub is_valuable: bool,
}

/// The strings of an optional list; an absent list is empty.
pub open spec fn opt_strs(v: Option<Vec<String>>) -> Seq<Seq<char>> {
    match v {
        Some(l) => strs(l@),
        None => Seq::empty(),
    }
}

/// The record a row stands for.
pub open spec fn row_record(r: VulnRow) -> VulnView {
    VulnView {
        key: r.key@,
        title: r.title@,
        description: r.description@,
        severity: severity_of_label(r.severtiy@),
        cve: r.cve@,
        disclosure: r.disclosure@,
        references: opt_strs(r.references),
        solutions: r.solutions@,
        from: r.from@,
        tags: opt_strs(r.tags),
        reasons: opt_strs(r.reasons),
        github_search: opt_strs(r.github_search),
        is_valuable: r.is_valuable,
        pushed: r.pushed,
    }
}

fn list_or_empty(v: Option<Vec<String>>) -> (r: Vec<String>)
    ensures
        strs(r@) == opt_strs(v),
{
    match v {
        Some(l) => l,
        None => {
            let e: Vec<String> = Vec::new();
            assert(strs(e@) =~= Seq::<Seq<char>>::empty());
            e
        },
    }
}

impl VulnInfo {
    /// The record a stored row stands for: an unknown severity label reads as
    /// Low and an absent list as empty.
    pub fn from_row(v: VulnRow) -> (r: VulnInfo)
        ensures
            r@ == row_record(v),
    {
        let ghost g = v;
        let severity = Severity::from_label(v.severtiy.as_str());
        let references = list_or_empty(v.references);
        let tags = list_or_empty(v.tags);
        let reasons = list_or_empty(v.reasons);
        let github_search = list_or_empty(v.github_search);
        VulnInfo {
            unique_key: v.key,
            title: v.title,
            description: v.description,
            severity,
            cve: v.cve,
            disclosure: v.disclosure,
            references,
            solutions: v.solutions,
            from: v.from,
            tags,
            reasons,
            github_search,
            is_valuable: v.is_valuable,
            pushed: v.pushed,
        }
    }

    /// The row that stores this record.
    pub fn to_row(self) -> (r: VulnRow)
        ensures
            r.key@ == self@.key,
            r.severtiy@ == severity_label(self.severity),
            row_record(r) == self@,
    {
        proof {
            lemma_label_round_trip(self.severity);
        }
        VulnRow {
            key: self.unique_key,
            title: self.title,
            description: self.description,
            severtiy: self.severity.to_string(),
            cve: self.cve,
            disclosure: self.disclosure,
            solutions: self.solutions,
            references: Some(self.references),
            tags: Some(self.tags),
            from: self.from,
            pushed: self.pushed,
            reasons: Some(self.reasons),
            github_search: Some(self.github_search),
            is_valuable: self.is_valuable,
        }
    }
}

/// A record the notifier has to deliver.
pub open spec fn pending(r: VulnView) -> bool {
    r.is_valuable && !r.pushed
}

} // verus!
