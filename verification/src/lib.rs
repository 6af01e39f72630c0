//! Verified core of a protected application launcher.
//!
//! The launcher bundles an embedded interpreter and an encrypted payload.
//! Before anything runs it must pass an anti-tamper gate, read a key from a
//! trailer appended to its own binary image, apply a pending binary patch to
//! the payload with a crash-safe replacement protocol, decrypt the payload,
//! and build an isolated launch environment for the interpreter.
//!
//! This crate holds the logic of that pipeline: every decision is a function
//! over plain values with a proved contract. The surrounding process work
//! (file reads, dialogs, the interpreter itself) hands values in and takes
//! values back.

use vstd::prelude::*;

pub mod crypto;
pub mod launch;
pub mod patcher;
pub mod pipeline;
pub mod tamper;
pub mod trailer;

verus! {

/// Failure classes of the loader pipeline. Every fatal failure becomes one
/// user-facing alert with a short, non-diagnostic title, and the process
/// exits with the reserved code that `error_exit_code` gives.
#[derive(Clone, Copy, Debug, PartialEq, Eq, Structural)]
pub enum LoaderError {
    /// The anti-tamper gate fired; the verdict says which check.
    TamperDetected(tamper::TamperVerdict),
    /// The binary image is shorter than a trailer, or the trailer could not
    /// be read.
    TooSmallOrMissing,
    /// The trailer is present but its magic marker does not match: the
    /// binary was never sealed.
    UnsealedBinary,
    /// No payload file exists at the launch path.
    MissingPayload,
    /// The payload is shorter than a nonce, so it cannot even be split.
    PayloadTooShort,
    /// Authenticated decryption refused the payload: tampered ciphertext,
    /// wrong key, or corrupted nonce.
    DecryptionFailed,
    /// The decrypted payload is not text in the interpreter's source
    /// encoding.
    EncodingError,
    /// The interpreter could not be brought up or the payload raised an
    /// unhandled error.
    RuntimeLaunchFailed,
}

/// The reserved process exit code for each failure class.
pub open spec fn spec_exit_code(e: LoaderError) -> u32 {
    match e {
        LoaderError::TamperDetected(v) => match v {
            tamper::TamperVerdict::DebuggerAttached => 0xDEAD,
            tamper::TamperVerdict::RemoteDebugger => 0xDEAB,
            tamper::TamperVerdict::TimingAnomaly => 0xDEAC,
            _ => 0xDEAD,
        },
        LoaderError::TooSmallOrMissing => 1,
        LoaderError::UnsealedBinary => 1,
        LoaderError::MissingPayload => 1,
        LoaderError::PayloadTooShort => 2,
        LoaderError::DecryptionFailed => 2,
        LoaderError::EncodingError => 2,
        LoaderError::RuntimeLaunchFailed => 3,
    }
}

/// Map a failure to its reserved, non-zero exit code: one distinct code per
/// anti-tamper class, `1` for discovery and trailer validation failures,
/// and other non-zero codes for decryption and runtime failures.
pub fn error_exit_code(e: &LoaderError) -> (code: u32)
    ensures
        code == spec_exit_code(*e),
        code != 0,
{
    match e {
        LoaderError::TamperDetected(v) => match v {
            tamper::TamperVerdict::DebuggerAttached => 0xDEAD,
            tamper::TamperVerdict::RemoteDebugger => 0xDEAB,
            tamper::TamperVerdict::TimingAnomaly => 0xDEAC,
            _ => 0xDEAD,
        },
        LoaderError::TooSmallOrMissing => 1,
        LoaderError::UnsealedBinary => 1,
        LoaderError::MissingPayload => 1,
        LoaderError::PayloadTooShort => 2,
        LoaderError::DecryptionFailed => 2,
        LoaderError::EncodingError => 2,
        LoaderError::RuntimeLaunchFailed => 3,
    }
}

/// The short alert title shown for a failure: generic wording that names no
/// key material, offset, or other detail useful to an attacker.
pub fn error_alert_title(e: &LoaderError) -> (title: &'static str)
    ensures
        (*e == LoaderError::MissingPayload) ==> title@ == "Shield: Discovery Error"@,
        (*e != LoaderError::MissingPayload) ==> title@ == "Security Alert"@,
{
    match e {
        LoaderError::MissingPayload => "Shield: Discovery Error",
        _ => "Security Alert",
    }
}

} // verus!
