//! What the library is asked to do, and the kinds of workflow and build it
//! knows.

use vstd::prelude::*;
use vstd::string::*;

pub mod create_issue_from_run;
pub mod issue_run;
pub mod locate_failure_log;

verus! {

/// Two issue bodies whose distance is below this count as the same report.
pub const LEVENSHTEIN_THRESHOLD: usize = 100;

/// The kind of workflow that a run belongs to.
#[derive(Copy, Clone, Debug, PartialEq, Eq, Structural)]
pub enum WorkflowKind {
    Yocto,
    Other,
}

impl WorkflowKind {
    /// The name of the kind.
    pub open spec fn name(self) -> Seq<char> {
        match self {
            WorkflowKind::Yocto => "Yocto"@,
            WorkflowKind::Other => "Other"@,
        }
    }

    /// The name of the kind.
    pub fn to_string(&self) -> (s: String)
        ensures
            s@ == self.name(),
    {
        match self {
            WorkflowKind::Yocto => String::from_str("Yocto"),
            WorkflowKind::Other => String::from_str("Other"),
        }
    }
}

/// The kind of build that a log comes from.
#[derive(Copy, Clone, Debug, PartialEq, Eq, Structural)]
pub enum BuildKind {
    Yocto,
    Other,
}

impl BuildKind {
    /// The name of the kind.
    pub open spec fn name(self) -> Seq<char> {
        match self {
            BuildKind::Yocto => "Yocto"@,
            BuildKind::Other => "Other"@,
        }
    }

    /// The name of the kind.
    pub fn to_string(&self) -> (s: String)
        ensures
            s@ == self.name(),
    {
        match self {
            BuildKind::Yocto => String::from_str("Yocto"),
            BuildKind::Other => String::from_str("Other"),
        }
    }
}

} // verus!
