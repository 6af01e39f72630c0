//! The loader pipeline: gate, discovery, trailer, patch, decrypt, plan.
//!
//! One launch attempt in its entirety, over the modeled inputs: the
//! probe's readings, the executable's own image bytes, and the payload
//! and patch files as an [`FsImage`]. Each stage's failure is fatal to
//! the launch except patching, which is recovered locally: the loader
//! proceeds with whatever payload is then on disk. The caller performs
//! the plan; this function decides everything up to it.

use vstd::prelude::*;

use crate::crypto::{decode_source, decrypt_payload, spec_decrypt_payload};
use crate::launch::{build_launch_plan, spec_plan_matches, LaunchPlan};
use crate::patcher::{apply_pending_patch, spec_patch_transition, FsImage};
use crate::tamper::{evaluate_probe, spec_is_fatal, spec_verdict, verdict_is_fatal, ProbeReport};
use crate::trailer::{read_trailer, spec_read_trailer};
use crate::LoaderError;

verus! {

/// The source text owed once the trailer yielded a key and the patch
/// transition settled the payload bytes: authenticated decryption, then
/// decoding as the interpreter's source encoding.
pub open spec fn spec_loader_source(key: Seq<u8>, payload: Seq<u8>) -> Result<
    Seq<char>,
    LoaderError,
> {
    match spec_decrypt_payload(key, payload) {
        Ok(plain) => if vstd::utf8::valid_utf8(plain) {
            Ok(vstd::utf8::decode_utf8(plain))
        } else {
            Err(LoaderError::EncodingError)
        },
        Err(e) => Err(e),
    }
}

/// Run one launch attempt: anti-tamper gate, payload discovery, trailer
/// read, pending-patch application, authenticated decryption, and the
/// launch plan for the interpreter.
///
/// A fatal gate verdict, a missing payload, or an unusable trailer stops
/// the run with the matching error before anything later executes, and
/// leaves every file untouched. After a good trailer the patch applier
/// makes its whole transition — committed, refused, or a no-op — and the
/// payload then on disk is decrypted with the trailer key; its plaintext
/// comes back in a plan pinned by `spec_plan_matches`.
pub fn run_loader(
    probe: &ProbeReport,
    threshold_ms: u64,
    image: &Vec<u8>,
    fs: &mut FsImage,
    rename_fault: bool,
    assets_dir: &String,
    base_archive: &String,
    path_sep: &String,
    payload_path: &String,
    args: &Vec<String>,
) -> (r: Result<LaunchPlan, LoaderError>)
    ensures
        spec_is_fatal(spec_verdict(*probe, threshold_ms)) ==> {
            &&& r is Err
            &&& r->Err_0 == LoaderError::TamperDetected(spec_verdict(*probe, threshold_ms))
            &&& final(fs)@ == old(fs)@
        },
        (!spec_is_fatal(spec_verdict(*probe, threshold_ms)) && old(fs)@.payload is None) ==> {
            &&& r is Err
            &&& r->Err_0 == LoaderError::MissingPayload
            &&& final(fs)@ == old(fs)@
        },
        (!spec_is_fatal(spec_verdict(*probe, threshold_ms)) && old(fs)@.payload is Some
            && spec_read_trailer(image@) is Err) ==> {
            &&& r is Err
            &&& r->Err_0 == spec_read_trailer(image@)->Err_0
            &&& final(fs)@ == old(fs)@
        },
        (!spec_is_fatal(spec_verdict(*probe, threshold_ms)) && old(fs)@.payload is Some
            && spec_read_trailer(image@) is Ok) ==> {
            &&& final(fs)@ == spec_patch_transition(old(fs)@, rename_fault)
            &&& (r is Ok <==> spec_loader_source(
                spec_read_trailer(image@)->Ok_0,
                spec_patch_transition(old(fs)@, rename_fault).payload->0,
            ) is Ok)
            &&& (r is Err ==> r->Err_0 == spec_loader_source(
                spec_read_trailer(image@)->Ok_0,
                spec_patch_transition(old(fs)@, rename_fault).payload->0,
            )->Err_0)
            &&& (r is Ok ==> spec_plan_matches(
                r->Ok_0,
                assets_dir@,
                base_archive@,
                path_sep@,
                payload_path@,
                args.deep_view(),
                spec_loader_source(
                    spec_read_trailer(image@)->Ok_0,
                    spec_patch_transition(old(fs)@, rename_fault).payload->0,
                )->Ok_0,
            ))
        },
{
    let verdict = evaluate_probe(probe, threshold_ms);
    if verdict_is_fatal(&verdict) {
        return Err(LoaderError::TamperDetected(verdict));
    }
    if fs.payload.is_none() {
        return Err(LoaderError::MissingPayload);
    }
    let key = match read_trailer(image) {
        Ok(k) => k,
        Err(e) => {
            return Err(e);
        },
    };
    // Patch failure is recovered locally: the loader goes on with whatever
    // payload now stands, so the outcome does not steer the run.
    apply_pending_patch(fs, rename_fault);
    let plain = match &fs.payload {
        Some(blob) => decrypt_payload(blob, &key),
        // Not reached: the patch transition keeps a present payload present.
        None => Err(LoaderError::MissingPayload),
    };
    match plain {
        Ok(plain_bytes) => match decode_source(&plain_bytes) {
            Ok(source) => Ok(
                build_launch_plan(assets_dir, base_archive, path_sep, payload_path, args, source),
            ),
            Err(e) => Err(e),
        },
        Err(e) => Err(e),
    }
}

} // verus!
