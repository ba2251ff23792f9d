//! The health classification carried by a probe snapshot.

use vstd::prelude::*;
use crate::text::str_eq;

verus! {

/// The health reported by the diagnostic probe. A probe document whose
/// health field is absent, not a string, or not one of the recognized
/// literals classifies as `Unknown`.
#[derive(Clone, Copy, Debug, PartialEq, Eq, Structural)]
pub enum HealthLevel {
    Good,
    Warning,
    Critical,
    Unknown,
}

/// Classification of an optional raw health field value.
pub open spec fn spec_classify_health(field: Option<Seq<char>>) -> HealthLevel {
    match field {
        Some(s) => {
            if s == "good"@ {
                HealthLevel::Good
            } else if s == "warning"@ {
                HealthLevel::Warning
            } else if s == "critical"@ {
                HealthLevel::Critical
            } else {
                HealthLevel::Unknown
            }
        },
        None => HealthLevel::Unknown,
    }
}

/// Classify the raw health field extracted from a probe document.
pub fn classify_health(field: &Option<String>) -> (h: HealthLevel)
    ensures
        h == spec_classify_health(match *field {
            Some(ref s) => Some(s@),
            None => None,
        }),
{
    match field {
        Some(s) => {
            if str_eq(s.as_str(), "good") {
                HealthLevel::Good
            } else if str_eq(s.as_str(), "warning") {
                HealthLevel::Warning
            } else if str_eq(s.as_str(), "critical") {
                HealthLevel::Critical
            } else {
                HealthLevel::Unknown
            }
        },
        None => HealthLevel::Unknown,
    }
}

impl HealthLevel {
    /// The literal the probe reports for this level; `Unknown` renders as
    /// the fallback literal "unknown".
    pub fn as_text(&self) -> (r: &'static str)
        ensures
            *self == HealthLevel::Good ==> r@ == "good"@,
            *self == HealthLevel::Warning ==> r@ == "warning"@,
            *self == HealthLevel::Critical ==> r@ == "critical"@,
            *self == HealthLevel::Unknown ==> r@ == "unknown"@,
    {
        match self {
            HealthLevel::Good => "good",
            HealthLevel::Warning => "warning",
            HealthLevel::Critical => "critical",
            HealthLevel::Unknown => "unknown",
        }
    }
}

} // verus!
