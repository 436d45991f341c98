//! Dashboard diagnostics: their priorities, icons and descriptions.
use vstd::prelude::*;
use crate::text::{concat2, owned};
use crate::weather::icons::{Icon, IconContext};

verus! {

/// Priority levels for dashboard diagnostics (higher rank = higher priority).
#[derive(Debug, Clone, Copy, PartialEq, Eq, Structural)]
pub enum DiagnosticPriority {
    /// Incomplete data, yellow.
    Low,
    /// No internet, orange.
    Medium,
    /// API error, red.
    High,
}

impl DiagnosticPriority {
    /// 1 for low, 2 for medium, 3 for high.
    pub open spec fn spec_rank(self) -> nat {
        match self {
            DiagnosticPriority::Low => 1,
            DiagnosticPriority::Medium => 2,
            DiagnosticPriority::High => 3,
        }
    }

    /// The numeric level of the priority.
    pub fn rank(&self) -> (r: u8)
        ensures
            r as nat == self.spec_rank(),
    {
        match self {
            DiagnosticPriority::Low => 1,
            DiagnosticPriority::Medium => 2,
            DiagnosticPriority::High => 3,
        }
    }
}

/// Problems the dashboard reports while still rendering with what it has.
#[derive(Debug, Clone)]
pub enum DashboardError {
    NoInternet { details: String },
    ApiError { details: String },
    IncompleteData { details: String },
}

/// Icons of the diagnostics.
#[derive(Debug, Clone, Copy, PartialEq, Eq, Structural)]
pub enum DashboardErrorIconName {
    NoInternet,
    ApiError,
    IncompleteData,
}

impl DashboardErrorIconName {
    pub open spec fn name(self) -> Seq<char> {
        match self {
            DashboardErrorIconName::NoInternet => "code-orange.svg"@,
            DashboardErrorIconName::ApiError => "code-red.svg"@,
            DashboardErrorIconName::IncompleteData => "code-yellow.svg"@,
        }
    }

    pub fn as_str(&self) -> (r: &'static str)
        ensures
            r@ == self.name(),
    {
        match self {
            DashboardErrorIconName::NoInternet => "code-orange.svg",
            DashboardErrorIconName::ApiError => "code-red.svg",
            DashboardErrorIconName::IncompleteData => "code-yellow.svg",
        }
    }
}

/// Short and long human-readable descriptions of a diagnostic.
pub trait Description {
    spec fn spec_short_description(&self) -> Seq<char>;

    spec fn spec_long_description(&self) -> Seq<char>;

    fn short_description(&self) -> (r: &'static str)
        ensures
            r@ == self.spec_short_description(),
    ;

    fn long_description(&self) -> (r: String)
        ensures
            r@ == self.spec_long_description(),
    ;
}

impl DashboardError {
    /// The priority of each kind: API errors high, no internet medium,
    /// incomplete data low.
    pub open spec fn spec_priority(&self) -> DiagnosticPriority {
        match self {
            DashboardError::ApiError { .. } => DiagnosticPriority::High,
            DashboardError::NoInternet { .. } => DiagnosticPriority::Medium,
            DashboardError::IncompleteData { .. } => DiagnosticPriority::Low,
        }
    }

    /// The icon of each kind.
    pub open spec fn icon_of(&self) -> DashboardErrorIconName {
        match self {
            DashboardError::NoInternet { .. } => DashboardErrorIconName::NoInternet,
            DashboardError::ApiError { .. } => DashboardErrorIconName::ApiError,
            DashboardError::IncompleteData { .. } => DashboardErrorIconName::IncompleteData,
        }
    }

    /// The details given with the diagnostic.
    pub open spec fn details_of(&self) -> Seq<char> {
        match self {
            DashboardError::NoInternet { details } => details@,
            DashboardError::ApiError { details } => details@,
            DashboardError::IncompleteData { details } => details@,
        }
    }

    /// Returns the priority of this error for display purposes.
    /// Higher priority errors take precedence when multiple errors occur.
    pub fn priority(&self) -> (r: DiagnosticPriority)
        ensures
            r == self.spec_priority(),
    {
        match self {
            DashboardError::ApiError { .. } => DiagnosticPriority::High,
            DashboardError::NoInternet { .. } => DiagnosticPriority::Medium,
            DashboardError::IncompleteData { .. } => DiagnosticPriority::Low,
        }
    }

    /// The icon of this diagnostic.
    pub fn icon(&self) -> (r: DashboardErrorIconName)
        ensures
            r == self.icon_of(),
    {
        match self {
            DashboardError::NoInternet { .. } => DashboardErrorIconName::NoInternet,
            DashboardError::ApiError { .. } => DashboardErrorIconName::ApiError,
            DashboardError::IncompleteData { .. } => DashboardErrorIconName::IncompleteData,
        }
    }

    /// A copy of the diagnostic.
    pub fn duplicate(&self) -> (r: DashboardError)
        ensures
            r.spec_priority() == self.spec_priority(),
            r.details_of() == self.details_of(),
            r.icon_of() == self.icon_of(),
    {
        match self {
            DashboardError::NoInternet { details } => DashboardError::NoInternet { details: owned(details.as_str()) },
            DashboardError::ApiError { details } => DashboardError::ApiError { details: owned(details.as_str()) },
            DashboardError::IncompleteData { details } => DashboardError::IncompleteData { details: owned(details.as_str()) },
        }
    }
}

impl Description for DashboardError {
    open spec fn spec_short_description(&self) -> Seq<char> {
        match self {
            DashboardError::NoInternet { .. } => "API unreachable -> Stale Data"@,
            DashboardError::ApiError { .. } => "API error -> Stale Data"@,
            DashboardError::IncompleteData { .. } => "Incomplete Data"@,
        }
    }

    open spec fn spec_long_description(&self) -> Seq<char> {
        match self {
            DashboardError::NoInternet { details } =>
                "The application is unable to reach the API server. Details: "@ + details@,
            DashboardError::ApiError { details } =>
                "The API returned an error. Details: "@ + details@,
            DashboardError::IncompleteData { details } =>
                "Received Incomplete data. Details: "@ + details@,
        }
    }

    fn short_description(&self) -> (r: &'static str) {
        match self {
            DashboardError::NoInternet { .. } => "API unreachable -> Stale Data",
            DashboardError::ApiError { .. } => "API error -> Stale Data",
            DashboardError::IncompleteData { .. } => "Incomplete Data",
        }
    }

    fn long_description(&self) -> (r: String) {
        match self {
            DashboardError::NoInternet { details } => concat2(
                "The application is unable to reach the API server. Details: ",
                details.as_str(),
            ),
            DashboardError::ApiError { details } => concat2(
                "The API returned an error. Details: ",
                details.as_str(),
            ),
            DashboardError::IncompleteData { details } => concat2(
                "Received Incomplete data. Details: ",
                details.as_str(),
            ),
        }
    }
}

impl Icon for DashboardError {
    open spec fn icon_name_of(&self, ctx: &IconContext) -> Seq<char> {
        self.icon_of().name()
    }

    fn icon_name(&self, ctx: &IconContext) -> (r: String) {
        owned(self.icon().as_str())
    }
}

/// Errors of geohash encoding.
#[derive(Debug, Clone, Copy, PartialEq, Eq, Structural)]
pub enum GeohashError {
    /// The requested length is outside 1..=12.
    InvalidLength(usize),
}

/// The three diagnostics and how they show: an API error is high priority
/// (red icon), no internet medium (orange), incomplete data low (yellow),
/// and the higher the priority the higher the rank.
pub proof fn lemma_diagnostic_kinds(e: DashboardError)
    ensures
        e is ApiError ==> e.spec_priority().spec_rank() == 3 && e.icon_of().name() == "code-red.svg"@
            && e.spec_short_description() == "API error -> Stale Data"@,
        e is NoInternet ==> e.spec_priority().spec_rank() == 2 && e.icon_of().name() == "code-orange.svg"@
            && e.spec_short_description() == "API unreachable -> Stale Data"@,
        e is IncompleteData ==> e.spec_priority().spec_rank() == 1 && e.icon_of().name() == "code-yellow.svg"@
            && e.spec_short_description() == "Incomplete Data"@,
{
}

} // verus!
