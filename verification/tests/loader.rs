// End-to-end tests of the loader core, run with the real outside crates:
// AES-256-GCM through the library's payload functions, and bsdiff patches
// generated with `bsdiff::diff` and applied through the library.

use secure_loader::crypto::{decode_source, decrypt_payload, encrypt_payload};
use secure_loader::patcher::{apply_pending_patch, FsImage, PatchOutcome};
use secure_loader::tamper::{evaluate_probe, verdict_is_fatal, ProbeReport, TamperVerdict};
use secure_loader::trailer::read_trailer;
use secure_loader::LoaderError;

fn test_key() -> Vec<u8> {
    (0u8..32u8).collect()
}

fn test_nonce() -> Vec<u8> {
    vec![9u8; 12]
}

/// An executable image of `body_len` junk bytes with `key || PYTRON_K`
/// appended.
fn sealed_image(body_len: usize, key: &[u8]) -> Vec<u8> {
    let mut image: Vec<u8> = (0..body_len).map(|i| (i % 251) as u8).collect();
    image.extend_from_slice(key);
    image.extend_from_slice(b"PYTRON_K");
    image
}

fn bsdiff_patch_bytes(old: &[u8], new: &[u8]) -> Vec<u8> {
    let mut diff: Vec<u8> = Vec::new();
    bsdiff::diff(old, new, &mut diff).expect("diff generation");
    diff
}

#[test]
fn trailer_read_is_idempotent() {
    let key = test_key();
    let image = sealed_image(100, &key);
    let first = read_trailer(&image).expect("sealed image");
    let second = read_trailer(&image).expect("sealed image");
    assert_eq!(first, second);
    assert_eq!(first, key);
}

#[test]
fn trailer_short_image_rejected() {
    let image: Vec<u8> = vec![0u8; 39];
    assert_eq!(read_trailer(&image), Err(LoaderError::TooSmallOrMissing));
    let empty: Vec<u8> = Vec::new();
    assert_eq!(read_trailer(&empty), Err(LoaderError::TooSmallOrMissing));
}

#[test]
fn trailer_corrupt_magic_rejected_at_every_byte() {
    let key = test_key();
    let image = sealed_image(64, &key);
    let n = image.len();
    for j in 32..40 {
        let mut altered = image.clone();
        altered[n - 40 + j] ^= 0xFF;
        assert_eq!(read_trailer(&altered), Err(LoaderError::UnsealedBinary));
    }
}

#[test]
fn trailer_exactly_forty_bytes_is_enough() {
    let key = test_key();
    let image = sealed_image(0, &key);
    assert_eq!(image.len(), 40);
    assert_eq!(read_trailer(&image), Ok(key));
}

#[test]
fn encrypt_then_decrypt_roundtrip() {
    let key = test_key();
    let nonce = test_nonce();
    let plain: Vec<u8> = b"arbitrary plaintext, long enough to matter".to_vec();
    let blob = encrypt_payload(&key, &nonce, &plain).expect("seal");
    assert_eq!(blob.len(), 12 + plain.len() + 16);
    assert_eq!(&blob[..12], nonce.as_slice());
    // The ciphertext area must not be the plaintext handed back unchanged.
    assert_ne!(&blob[12..12 + plain.len()], plain.as_slice());
    assert_eq!(decrypt_payload(&blob, &key), Ok(plain));
}

#[test]
fn decrypt_with_wrong_key_fails() {
    let key = test_key();
    let nonce = test_nonce();
    let plain: Vec<u8> = b"secret".to_vec();
    let blob = encrypt_payload(&key, &nonce, &plain).expect("seal");
    let mut other_key = key.clone();
    other_key[0] ^= 0x01;
    assert_eq!(decrypt_payload(&blob, &other_key), Err(LoaderError::DecryptionFailed));
}

#[test]
fn decrypt_with_any_bit_flipped_fails() {
    let key = test_key();
    let nonce = test_nonce();
    let plain: Vec<u8> = b"payload".to_vec();
    let blob = encrypt_payload(&key, &nonce, &plain).expect("seal");
    for pos in 0..blob.len() {
        let mut tampered = blob.clone();
        tampered[pos] ^= 0x01;
        assert_eq!(
            decrypt_payload(&tampered, &key),
            Err(LoaderError::DecryptionFailed),
            "flip at {pos}"
        );
    }
}

#[test]
fn decrypt_too_short_payload_fails() {
    let key = test_key();
    let blob: Vec<u8> = vec![0u8; 11];
    assert_eq!(decrypt_payload(&blob, &key), Err(LoaderError::PayloadTooShort));
    let empty: Vec<u8> = Vec::new();
    assert_eq!(decrypt_payload(&empty, &key), Err(LoaderError::PayloadTooShort));
}

#[test]
fn decode_source_accepts_utf8_and_decodes_it() {
    assert_eq!(decode_source(&b"print(1)".to_vec()), Ok(String::from("print(1)")));
    // A multi-byte encoding must come back as the characters it spells,
    // not as raw bytes.
    let accented: Vec<u8> = vec![0x63, 0x61, 0x66, 0xC3, 0xA9];
    assert_eq!(decode_source(&accented), Ok(String::from("caf\u{e9}")));
    assert_eq!(decode_source(&Vec::new()), Ok(String::new()));
}

#[test]
fn decode_source_rejects_non_utf8() {
    assert_eq!(decode_source(&vec![0xFFu8, 0x30]), Err(LoaderError::EncodingError));
    // A truncated multi-byte encoding is refused too.
    assert_eq!(decode_source(&vec![0xC3u8]), Err(LoaderError::EncodingError));
}

#[test]
fn patch_apply_installs_new_payload_and_consumes_patch() {
    let old_payload: Vec<u8> = b"the quick brown fox jumps over the lazy dog 0123456789".to_vec();
    let new_payload: Vec<u8> = b"the quick brown cat jumps over the lazy dog 0123456789!!".to_vec();
    let diff = bsdiff_patch_bytes(&old_payload, &new_payload);
    let mut fs = FsImage {
        payload: Some(old_payload),
        patch: Some(diff),
        temp: None,
    };
    let outcome = apply_pending_patch(&mut fs, false);
    assert_eq!(outcome, PatchOutcome::Applied);
    assert_eq!(fs.payload, Some(new_payload));
    assert_eq!(fs.patch, None);
    assert_eq!(fs.temp, None);
}

#[test]
fn patch_rename_fault_keeps_old_payload_and_patch() {
    let old_payload: Vec<u8> = b"original bytes that must survive a failed commit".to_vec();
    let new_payload: Vec<u8> = b"replacement bytes that must not land".to_vec();
    let diff = bsdiff_patch_bytes(&old_payload, &new_payload);
    let mut fs = FsImage {
        payload: Some(old_payload.clone()),
        patch: Some(diff.clone()),
        temp: None,
    };
    let outcome = apply_pending_patch(&mut fs, true);
    assert_eq!(outcome, PatchOutcome::Failed);
    assert_eq!(fs.payload, Some(old_payload));
    assert_eq!(fs.patch, Some(diff));
    assert_eq!(fs.temp, None);
}

#[test]
fn patch_absent_is_a_noop() {
    let payload: Vec<u8> = b"untouched".to_vec();
    let mut fs = FsImage {
        payload: Some(payload.clone()),
        patch: None,
        temp: None,
    };
    let outcome = apply_pending_patch(&mut fs, false);
    assert_eq!(outcome, PatchOutcome::NothingPending);
    assert_eq!(fs.payload, Some(payload));
    assert_eq!(fs.patch, None);
}

#[test]
fn patch_missing_payload_is_a_noop() {
    let diff: Vec<u8> = vec![1, 2, 3];
    let mut fs = FsImage {
        payload: None,
        patch: Some(diff.clone()),
        temp: None,
    };
    let outcome = apply_pending_patch(&mut fs, false);
    assert_eq!(outcome, PatchOutcome::NothingPending);
    assert_eq!(fs.payload, None);
    assert_eq!(fs.patch, Some(diff));
}

#[test]
fn patch_corrupt_patch_leaves_payload_untouched() {
    let payload: Vec<u8> = b"keep me exactly as I am".to_vec();
    // Three junk bytes: truncated before even one control block.
    let junk: Vec<u8> = vec![1, 2, 3];
    let mut fs = FsImage {
        payload: Some(payload.clone()),
        patch: Some(junk.clone()),
        temp: None,
    };
    let outcome = apply_pending_patch(&mut fs, false);
    assert_eq!(outcome, PatchOutcome::Failed);
    assert_eq!(fs.payload, Some(payload));
    assert_eq!(fs.patch, Some(junk));
    assert_eq!(fs.temp, None);
}

#[test]
fn patch_empty_patch_reconstructs_empty_payload() {
    // An empty patch is a complete, valid diff whose output is empty.
    let payload: Vec<u8> = b"whatever stood before".to_vec();
    let mut fs = FsImage {
        payload: Some(payload),
        patch: Some(Vec::new()),
        temp: None,
    };
    let outcome = apply_pending_patch(&mut fs, false);
    assert_eq!(outcome, PatchOutcome::Applied);
    assert_eq!(fs.payload, Some(Vec::new()));
    assert_eq!(fs.patch, None);
}

#[test]
fn patch_identical_payloads_roundtrip() {
    let payload: Vec<u8> = b"same before and after".to_vec();
    let diff = bsdiff_patch_bytes(&payload, &payload);
    let mut fs = FsImage {
        payload: Some(payload.clone()),
        patch: Some(diff),
        temp: None,
    };
    let outcome = apply_pending_patch(&mut fs, false);
    assert_eq!(outcome, PatchOutcome::Applied);
    assert_eq!(fs.payload, Some(payload));
    assert_eq!(fs.patch, None);
}

#[test]
fn patch_wrong_base_length_fails_cleanly() {
    let old_payload: Vec<u8> = b"a long shared run of bytes 0123456789 abcdefghij".to_vec();
    let new_payload: Vec<u8> = b"a long shared run of bytes 0123456789 abcdefghij plus tail".to_vec();
    let diff = bsdiff_patch_bytes(&old_payload, &new_payload);
    // Apply against an empty payload: the diff references old bytes that
    // are not there.
    let mut fs = FsImage {
        payload: Some(Vec::new()),
        patch: Some(diff.clone()),
        temp: None,
    };
    let outcome = apply_pending_patch(&mut fs, false);
    assert_eq!(outcome, PatchOutcome::Failed);
    assert_eq!(fs.payload, Some(Vec::new()));
    assert_eq!(fs.patch, Some(diff));
}

#[test]
fn tamper_gate_verdicts() {
    let clean = ProbeReport::Measured {
        debugger_attached: false,
        remote_debugger: false,
        elapsed_ms: 3,
    };
    assert_eq!(evaluate_probe(&clean, 5), TamperVerdict::Clean);
    assert!(!verdict_is_fatal(&TamperVerdict::Clean));

    let attached = ProbeReport::Measured {
        debugger_attached: true,
        remote_debugger: false,
        elapsed_ms: 0,
    };
    assert_eq!(evaluate_probe(&attached, 5), TamperVerdict::DebuggerAttached);

    let remote = ProbeReport::Measured {
        debugger_attached: false,
        remote_debugger: true,
        elapsed_ms: 0,
    };
    assert_eq!(evaluate_probe(&remote, 5), TamperVerdict::RemoteDebugger);

    let slow = ProbeReport::Measured {
        debugger_attached: false,
        remote_debugger: false,
        elapsed_ms: 6,
    };
    assert_eq!(evaluate_probe(&slow, 5), TamperVerdict::TimingAnomaly);
    assert_eq!(evaluate_probe(&slow, 6), TamperVerdict::Clean);

    assert_eq!(evaluate_probe(&ProbeReport::NotApplicable, 5), TamperVerdict::NotApplicable);
    assert!(!verdict_is_fatal(&TamperVerdict::NotApplicable));
    assert!(verdict_is_fatal(&TamperVerdict::DebuggerAttached));
    assert!(verdict_is_fatal(&TamperVerdict::RemoteDebugger));
    assert!(verdict_is_fatal(&TamperVerdict::TimingAnomaly));
}
