//! Health check tool
//!
//! The decisions of the health check: which probes a request asks for,
//! the local memory check, and how single results aggregate into an
//! overall status. Probing the external services is the caller's
//! business; the results come back here to be judged.

use crate::utils::string::str_eq;
use crate::utils::time::instant_now;
use vstd::prelude::*;
use vstd::seq_lib::*;
use vstd::string::StringExecFns;

verus! {

/// Parameters of the health check tool.
pub struct HealthCheckTool {
    /// Which checks to perform: all, external, internal, docs_rs or crates_io
    pub check_type: Option<String>,
    /// Whether to report healthy checks too
    pub verbose: Option<bool>,
}

/// A single health check result.
pub struct HealthCheck {
    /// What was checked
    pub name: String,
    /// healthy, unhealthy or unknown
    pub status: String,
    /// How long the check took
    pub duration_ms: u64,
    /// A remark on a sound outcome
    pub message: Option<String>,
    /// What went wrong, if anything
    pub error: Option<String>,
}

/// The probes a health check can run.
pub enum CheckKind {
    /// Probe the documentation service
    DocsRs,
    /// Probe the package registry
    CratesIo,
    /// Check local memory use
    Memory,
    /// The request named no known check
    Unknown,
}

/// Which probes a check type asks for.
pub open spec fn spec_planned_checks(check_type: Seq<char>) -> Seq<CheckKind> {
    if check_type == "all"@ {
        seq![CheckKind::DocsRs, CheckKind::CratesIo, CheckKind::Memory]
    } else if check_type == "external"@ {
        seq![CheckKind::DocsRs, CheckKind::CratesIo]
    } else if check_type == "internal"@ {
        seq![CheckKind::Memory]
    } else if check_type == "docs_rs"@ {
        seq![CheckKind::DocsRs]
    } else if check_type == "crates_io"@ {
        seq![CheckKind::CratesIo]
    } else {
        seq![CheckKind::Unknown]
    }
}

/// Decide which probes a check type asks for.
pub fn plan_checks(check_type: &str) -> (r: Vec<CheckKind>)
    ensures
        r@ =~= spec_planned_checks(check_type@),
{
    let mut out: Vec<CheckKind> = Vec::new();
    if str_eq(check_type, "all") {
        out.push(CheckKind::DocsRs);
        out.push(CheckKind::CratesIo);
        out.push(CheckKind::Memory);
    } else if str_eq(check_type, "external") {
        out.push(CheckKind::DocsRs);
        out.push(CheckKind::CratesIo);
    } else if str_eq(check_type, "internal") {
        out.push(CheckKind::Memory);
    } else if str_eq(check_type, "docs_rs") {
        out.push(CheckKind::DocsRs);
    } else if str_eq(check_type, "crates_io") {
        out.push(CheckKind::CratesIo);
    } else {
        out.push(CheckKind::Unknown);
    }
    out
}

/// The result reported when the request named no known check.
pub fn unknown_check(check_type: &str) -> (r: HealthCheck)
    ensures
        r.name@ == "unknown_check"@,
        r.status@ == "unknown"@,
        r.duration_ms == 0,
        r.message is None,
        r.error matches Some(e) && e@ == "Unknown check type: "@ + check_type@,
{
    let mut e = String::from_str("Unknown check type: ");
    e.append(check_type);
    HealthCheck {
        name: String::from_str("unknown_check"),
        status: String::from_str("unknown"),
        duration_ms: 0,
        message: None,
        error: Some(e),
    }
}

/// Whether every check came back healthy.
pub open spec fn spec_all_healthy(checks: Seq<HealthCheck>) -> bool {
    forall|i: int| 0 <= i < checks.len() ==> (#[trigger] checks[i]).status@ == "healthy"@
}

/// Whether some check came back unhealthy.
pub open spec fn spec_any_unhealthy(checks: Seq<HealthCheck>) -> bool {
    exists|i: int| 0 <= i < checks.len() && (#[trigger] checks[i]).status@ == "unhealthy"@
}

/// The overall status the single results aggregate to: healthy only when
/// every check is healthy, unhealthy as soon as one is, and degraded in
/// between.
pub open spec fn spec_overall_status(checks: Seq<HealthCheck>) -> Seq<char> {
    if spec_all_healthy(checks) {
        "healthy"@
    } else if spec_any_unhealthy(checks) {
        "unhealthy"@
    } else {
        "degraded"@
    }
}

/// Aggregate the single results into the overall status.
pub fn overall_status(checks: &Vec<HealthCheck>) -> (r: String)
    ensures
        r@ == spec_overall_status(checks@),
{
    let n = checks.len();
    let mut all_healthy = true;
    let mut any_unhealthy = false;
    let mut i: usize = 0;
    while i < n
        invariant
            i <= n,
            n == checks@.len(),
            all_healthy == (forall|j: int|
                0 <= j < i ==> (#[trigger] checks@[j]).status@ == "healthy"@),
            any_unhealthy == (exists|j: int|
                0 <= j < i && (#[trigger] checks@[j]).status@ == "unhealthy"@),
        decreases n - i,
    {
        if !str_eq(checks[i].status.as_str(), "healthy") {
            all_healthy = false;
        }
        if str_eq(checks[i].status.as_str(), "unhealthy") {
            any_unhealthy = true;
        }
        i += 1;
    }
    if all_healthy {
        String::from_str("healthy")
    } else if any_unhealthy {
        String::from_str("unhealthy")
    } else {
        String::from_str("degraded")
    }
}

/// Predicate selecting the checks worth reporting in terse mode: those
/// that did not come back healthy.
pub open spec fn reportable_pred() -> spec_fn(HealthCheck) -> bool {
    |c: HealthCheck| c.status@ != "healthy"@
}

/// Keep the results a report shows: all of them when verbose, otherwise
/// only those with issues.
pub fn select_reported(checks: Vec<HealthCheck>, verbose: bool) -> (r: Vec<HealthCheck>)
    ensures
        verbose ==> r@ =~= checks@,
        !verbose ==> r@ =~= checks@.filter(reportable_pred()),
{
    if verbose {
        return checks;
    }
    let ghost orig = checks@;
    let ghost mut j: int = 0;
    let mut kept = checks;
    let mut i: usize = 0;
    while i < kept.len()
        invariant
            0 <= j <= orig.len(),
            i as int == orig.take(j).filter(reportable_pred()).len(),
            kept@ =~= orig.take(j).filter(reportable_pred()) + orig.skip(j),
        decreases kept@.len() - i,
    {
        proof {
            assert(j < orig.len());
            assert(kept@[i as int] == orig[j]);
            assert(orig.take(j + 1) =~= orig.take(j).push(orig[j]));
            orig.take(j).lemma_filter_push(orig[j], reportable_pred());
            assert(orig.skip(j) =~= seq![orig[j]] + orig.skip(j + 1));
        }
        if str_eq(kept[i].status.as_str(), "healthy") {
            kept.remove(i);
            proof {
                assert(kept@ =~= orig.take(j + 1).filter(reportable_pred()) + orig.skip(j + 1));
                j = j + 1;
            }
        } else {
            i += 1;
            proof {
                assert(kept@ =~= orig.take(j + 1).filter(reportable_pred()) + orig.skip(j + 1));
                j = j + 1;
            }
        }
    }
    proof {
        assert(orig.take(j) =~= orig);
    }
    kept
}

/// Health check tool implementation: remembers when it was created, so a
/// report can state the uptime.
pub struct HealthCheckToolImpl {
    /// When the tool came up
    pub start_time: std::time::Instant,
}

impl HealthCheckToolImpl {
    /// Create a new health check tool, up from now on.
    pub fn new() -> Self {
        HealthCheckToolImpl { start_time: instant_now() }
    }

    /// Check memory use. The local check always passes.
    pub fn check_memory() -> (r: HealthCheck)
        ensures
            r.name@ == "memory"@,
            r.status@ == "healthy"@,
            r.duration_ms == 0,
            r.message matches Some(m) && m@ == "Memory usage is normal"@,
            r.error is None,
    {
        HealthCheck {
            name: String::from_str("memory"),
            status: String::from_str("healthy"),
            duration_ms: 0,
            message: Some(String::from_str("Memory usage is normal")),
            error: None,
        }
    }
}

impl Default for HealthCheckToolImpl {
    fn default() -> Self {
        Self::new()
    }
}

} // verus!
