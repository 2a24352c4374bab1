//! The severity scale of an advisory.
use vstd::prelude::*;

use crate::text::str_eq;

verus! {

/// How serious an advisory is, from least to most.
#[derive(Clone, Copy, Debug, PartialEq, Eq, Structural)]
pub enum Severity {
    Low,
    Medium,
    High,
    Critical,
}

/// The name under which a severity is shown and stored.
pub open spec fn severity_label(s: Severity) -> Seq<char> {
    match s {
        Severity::Low => "Low"@,
        Severity::Medium => "Medium"@,
        Severity::High => "High"@,
        Severity::Critical => "Critical"@,
    }
}

/// The position of a severity on the scale: Low is 0, Critical is 3.
pub open spec fn severity_rank(s: Severity) -> nat {
    match s {
        Severity::Low => 0,
        Severity::Medium => 1,
        Severity::High => 2,
        Severity::Critical => 3,
    }
}

/// The severity a stored label names; an unknown label reads as Low.
pub open spec fn severity_of_label(l: Seq<char>) -> Severity {
    if l == "Medium"@ {
        Severity::Medium
    } else if l == "High"@ {
        Severity::High
    } else if l == "Critical"@ {
        Severity::Critical
    } else {
        Severity::Low
    }
}

impl Severity {
    /// The label of this severity ("Low", "Medium", "High", "Critical").
    pub fn label(&self) -> (r: &'static str)
        ensures
            r@ == severity_label(*self),
    {
        match self {
            Severity::Low => "Low",
            Severity::Medium => "Medium",
            Severity::High => "High",
            Severity::Critical => "Critical",
        }
    }

    /// The label as an owned string.
    pub fn to_string(&self) -> (r: String)
        ensures
            r@ == severity_label(*self),
    {
        String::from_str(self.label())
    }

    /// Reads a stored label back; anything but the four labels degrades to Low.
    pub fn from_label(l: &str) -> (r: Severity)
        ensures
            r == severity_of_label(l@),
    {
        if str_eq(l, "Medium") {
            Severity::Medium
        } else if str_eq(l, "High") {
            Severity::High
        } else if str_eq(l, "Critical") {
            Severity::Critical
        } else {
            Severity::Low
        }
    }

    /// The position on the scale, Low being 0.
    pub fn rank(&self) -> (r: u8)
        ensures
            r as nat == severity_rank(*self),
    {
        match self {
            Severity::Low => 0,
            Severity::Medium => 1,
            Severity::High => 2,
            Severity::Critical => 3,
        }
    }
}

/// Reading back the label of a severity gives that severity.
pub proof fn lemma_label_round_trip(s: Severity)
    ensures
        severity_of_label(severity_label(s)) == s,
{
    reveal_strlit("Low");
    reveal_strlit("Medium");
    reveal_strlit("High");
    reveal_strlit("Critical");
    assert("Low"@.len() == 3);
    assert("Medium"@.len() == 6);
    assert("High"@.len() == 4);
    assert("Critical"@.len() == 8);
}

} // verus!
