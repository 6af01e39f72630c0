//! The anti-tamper stage: turns a platform probe's raw readings into a verdict.
//!
//! The probe itself (debugger queries, a timed busy loop) is platform work
//! that runs outside this crate; on platforms without an implementation it
//! reports that it is not applicable rather than silently passing. What stands
//! here is the decision: which reading is fatal, and with which reserved
//! exit code. It is best-effort deterrence, not a security boundary.

use vstd::prelude::*;

verus! {

/// Default bound, in milliseconds, on the probe's fixed busy loop; a longer
/// run suggests single-step tracing. Tuned empirically, so it is a
/// configuration value rather than an invariant: callers pass it explicitly.
pub const DEFAULT_TIMING_THRESHOLD_MS: u64 = 5;

/// What a platform tamper probe reports.
#[derive(Clone, Copy, Debug, PartialEq, Eq, Structural)]
pub enum ProbeReport {
    /// The platform has no probe implementation.
    NotApplicable,
    /// The platform answered all three checks.
    Measured {
        /// A debugger is attached to the current process.
        debugger_attached: bool,
        /// A debugger is attached through a remote session.
        remote_debugger: bool,
        /// Wall-clock duration of the fixed busy loop, in milliseconds.
        elapsed_ms: u64,
    },
}

/// The verdict on a probe report.
#[derive(Clone, Copy, Debug, PartialEq, Eq, Structural)]
pub enum TamperVerdict {
    /// All checks answered and none fired.
    Clean,
    /// No probe on this platform; the launch proceeds, but the posture is
    /// explicit rather than a silent pass.
    NotApplicable,
    /// A debugger is attached to the process.
    DebuggerAttached,
    /// A remote-session debugger is attached.
    RemoteDebugger,
    /// The timed loop ran longer than the threshold.
    TimingAnomaly,
}

/// The verdict owed on a given report: the attached-debugger
/// check fires first, then the remote check, then the timing check.
pub open spec fn spec_verdict(report: ProbeReport, threshold_ms: u64) -> TamperVerdict {
    match report {
        ProbeReport::NotApplicable => TamperVerdict::NotApplicable,
        ProbeReport::Measured { debugger_attached, remote_debugger, elapsed_ms } => {
            if debugger_attached {
                TamperVerdict::DebuggerAttached
            } else if remote_debugger {
                TamperVerdict::RemoteDebugger
            } else if elapsed_ms > threshold_ms {
                TamperVerdict::TimingAnomaly
            } else {
                TamperVerdict::Clean
            }
        },
    }
}

/// A verdict is fatal exactly when one of the three checks fired.
pub open spec fn spec_is_fatal(verdict: TamperVerdict) -> bool {
    match verdict {
        TamperVerdict::Clean => false,
        TamperVerdict::NotApplicable => false,
        TamperVerdict::DebuggerAttached => true,
        TamperVerdict::RemoteDebugger => true,
        TamperVerdict::TimingAnomaly => true,
    }
}

/// Judge a probe report against the timing threshold.
pub fn evaluate_probe(report: &ProbeReport, threshold_ms: u64) -> (verdict: TamperVerdict)
    ensures
        verdict == spec_verdict(*report, threshold_ms),
{
    match report {
        ProbeReport::NotApplicable => TamperVerdict::NotApplicable,
        ProbeReport::Measured { debugger_attached, remote_debugger, elapsed_ms } => {
            if *debugger_attached {
                TamperVerdict::DebuggerAttached
            } else if *remote_debugger {
                TamperVerdict::RemoteDebugger
            } else if *elapsed_ms > threshold_ms {
                TamperVerdict::TimingAnomaly
            } else {
                TamperVerdict::Clean
            }
        },
    }
}

/// Whether a verdict must stop the launch before any trusted stage runs.
pub fn verdict_is_fatal(verdict: &TamperVerdict) -> (fatal: bool)
    ensures
        fatal == spec_is_fatal(*verdict),
{
    match verdict {
        TamperVerdict::DebuggerAttached => true,
        TamperVerdict::RemoteDebugger => true,
        TamperVerdict::TimingAnomaly => true,
        _ => false,
    }
}

} // verus!
