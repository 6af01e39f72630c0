//! Patch applier: binary-diff application with a crash-safe replacement
//! protocol.
//!
//! The applier works over [`FsImage`], a plain-bytes model of the three
//! file slots it may touch: the payload, the pending patch beside it, and
//! the temporary file of the replacement protocol. The protocol is the
//! one the on-disk applier follows: reconstruct the new payload, write it
//! to a temporary slot, commit it over the payload in a single rename,
//! and only then consume the patch. On any failure the payload keeps its
//! old bytes, the temporary slot is cleared, and the patch stays for a
//! retry on the next launch. Reconstruction itself is the `bsdiff` crate
//! behind one trusted wrapper.

use vstd::prelude::*;

use std::io::Cursor;

verus! {

/// The new file that `bsdiff` patching reconstructs from an old file and
/// a patch, or `None` when the patch is malformed for that old file. The
/// reconstruction is deterministic in the two byte strings; its format
/// would take pages to state, so the result only carries a name.
pub uninterp spec fn bspatch_of(base: Seq<u8>, diff: Seq<u8>) -> Option<Seq<u8>>;

/// Relies on `bsdiff::patch`: reconstruction reads the patch from a
/// cursor, is deterministic in the old bytes and the patch bytes, and
/// reports a malformed patch as an error rather than panicking.
#[verifier::external_body]
fn run_bspatch(base: &Vec<u8>, diff: &Vec<u8>) -> (r: Option<Vec<u8>>)
    ensures
        r is Some <==> bspatch_of(base@, diff@) is Some,
        r is Some ==> r->0@ == bspatch_of(base@, diff@)->0,
{
    let mut reader = Cursor::new(diff.as_slice());
    let mut reconstructed: Vec<u8> = Vec::new();
    match bsdiff::patch(base.as_slice(), &mut reader, &mut reconstructed) {
        Ok(()) => Some(reconstructed),
        Err(_) => None,
    }
}

/// Reconstruct the new payload from the old payload and a patch: the
/// compute half of patching, for a caller that performs the file steps
/// itself. `None` means the patch is malformed for this payload.
pub fn patched_payload(base: &Vec<u8>, diff: &Vec<u8>) -> (r: Option<Vec<u8>>)
    ensures
        r is Some <==> bspatch_of(base@, diff@) is Some,
        r is Some ==> r->0@ == bspatch_of(base@, diff@)->0,
{
    run_bspatch(base, diff)
}

/// The three file slots the patch applier may touch, as plain bytes.
/// `None` stands for an absent file.
pub struct FsImage {
    /// The payload file, `app.<ext>`.
    pub payload: Option<Vec<u8>>,
    /// The pending patch file beside it, `app.<ext>_patch`.
    pub patch: Option<Vec<u8>>,
    /// The temporary file of the replacement protocol.
    pub temp: Option<Vec<u8>>,
}

/// The mathematical shadow of [`FsImage`]: each slot as an optional byte
/// sequence.
pub ghost struct FsView {
    pub payload: Option<Seq<u8>>,
    pub patch: Option<Seq<u8>>,
    pub temp: Option<Seq<u8>>,
}

/// A file slot as an optional byte sequence.
pub open spec fn opt_bytes(slot: Option<Vec<u8>>) -> Option<Seq<u8>> {
    match slot {
        Some(v) => Some(v@),
        None => None,
    }
}

impl View for FsImage {
    type V = FsView;

    open spec fn view(&self) -> FsView {
        FsView {
            payload: opt_bytes(self.payload),
            patch: opt_bytes(self.patch),
            temp: opt_bytes(self.temp),
        }
    }
}

/// How one run of the applier ended.
#[derive(Clone, Copy, Debug, PartialEq, Eq, Structural)]
pub enum PatchOutcome {
    /// Payload or patch was absent: patching is optional, nothing was done.
    NothingPending,
    /// The new payload was committed and the patch consumed.
    Applied,
    /// Reconstruction or the commit failed; the old payload stands
    /// untouched and the patch stays for a retry. Never fatal to a launch.
    Failed,
}

/// The payload bytes that stand after one run of the applier over a
/// payload and an optional pending patch: the reconstruction when it
/// succeeds and the rename commits, the old bytes otherwise.
pub open spec fn spec_effective_payload(
    payload: Seq<u8>,
    patch: Option<Seq<u8>>,
    rename_fault: bool,
) -> Seq<u8> {
    match patch {
        Some(diff) => match bspatch_of(payload, diff) {
            Some(reconstructed) => if rename_fault {
                payload
            } else {
                reconstructed
            },
            None => payload,
        },
        None => payload,
    }
}

/// Whether one run of the applier consumes (deletes) the pending patch:
/// exactly when reconstruction succeeds and the rename commits.
pub open spec fn spec_patch_consumed(
    payload: Seq<u8>,
    patch: Option<Seq<u8>>,
    rename_fault: bool,
) -> bool {
    &&& patch is Some
    &&& bspatch_of(payload, patch->0) is Some
    &&& !rename_fault
}

/// The whole file-state transition of one applier run. When either file
/// is absent nothing moves; otherwise the payload holds the effective
/// bytes, the patch survives exactly when it was not consumed, and no
/// temporary file is left behind.
pub open spec fn spec_patch_transition(pre: FsView, rename_fault: bool) -> FsView {
    if pre.payload is None || pre.patch is None {
        pre
    } else {
        FsView {
            payload: Some(spec_effective_payload(pre.payload->0, pre.patch, rename_fault)),
            patch: if spec_patch_consumed(pre.payload->0, pre.patch, rename_fault) {
                None
            } else {
                pre.patch
            },
            temp: None,
        }
    }
}

/// Apply a pending patch to the payload with the crash-safe protocol.
///
/// `rename_fault` injects a failure of the commit step, modeling an
/// operating-system rename that does not go through; with it the old
/// payload stays byte-for-byte and the patch is kept for retry. The
/// contract is the whole transition: absent files make the run a no-op,
/// a malformed patch or a failed commit leaves payload and patch as they
/// were, and a committed run installs the reconstruction and consumes the
/// patch. In every case no temporary file survives the run.
pub fn apply_pending_patch(fs: &mut FsImage, rename_fault: bool) -> (outcome: PatchOutcome)
    ensures
        final(fs)@ == spec_patch_transition(old(fs)@, rename_fault),
        (outcome == PatchOutcome::NothingPending) <==> (old(fs)@.payload is None || old(fs)@.patch
            is None),
        (outcome == PatchOutcome::Applied) <==> (old(fs)@.payload is Some && old(fs)@.patch is Some
            && spec_patch_consumed(old(fs)@.payload->0, old(fs)@.patch, rename_fault)),
{
    if fs.payload.is_none() || fs.patch.is_none() {
        return PatchOutcome::NothingPending;
    }
    let reconstructed: Option<Vec<u8>> = match (&fs.payload, &fs.patch) {
        (Some(base), Some(diff)) => run_bspatch(base, diff),
        _ => None,
    };
    match reconstructed {
        None => {
            // Reconstruction failed: remove any temporary file, keep the
            // payload and the patch as they were.
            fs.temp = None;
            PatchOutcome::Failed
        },
        Some(fresh) => {
            // Write the new bytes to the temporary slot, then commit them
            // over the payload in a single rename.
            fs.temp = Some(fresh);
            if rename_fault {
                // The rename did not go through: the payload was never
                // touched; remove the temporary file, keep the patch.
                fs.temp = None;
                PatchOutcome::Failed
            } else {
                fs.payload = fs.temp.take();
                fs.patch = None;
                PatchOutcome::Applied
            }
        },
    }
}

} // verus!
