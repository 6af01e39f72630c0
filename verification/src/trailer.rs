//! Trailer reader: parses the fixed 40-byte footer appended to the
//! launcher's own binary image.
//!
//! Layout: bytes `[0..32)` of the trailer are a 256-bit symmetric key and
//! bytes `[32..40)` are the ASCII magic marker `PYTRON_K`. The image is
//! handed in as plain bytes; reading the running executable from disk is
//! process work outside this crate.

use vstd::prelude::*;

use crate::LoaderError;

verus! {

/// Total trailer length in bytes: key plus magic.
pub const TRAILER_LEN: usize = 40;

/// Length of the symmetric key at the head of the trailer.
pub const KEY_LEN: usize = 32;

/// Length of the magic marker at the tail of the trailer.
pub const MAGIC_LEN: usize = 8;

/// The magic marker: the ASCII bytes of `PYTRON_K`.
pub open spec fn spec_magic() -> Seq<u8> {
    seq![0x50u8, 0x59u8, 0x54u8, 0x52u8, 0x4fu8, 0x4eu8, 0x5fu8, 0x4bu8]
}

/// The last eight bytes of an image: where a sealed binary keeps the magic.
pub open spec fn spec_magic_of(image: Seq<u8>) -> Seq<u8>
    recommends
        image.len() >= TRAILER_LEN,
{
    image.subrange(image.len() - MAGIC_LEN, image.len() as int)
}

/// The 32 key bytes of an image's trailer.
pub open spec fn spec_trailer_key(image: Seq<u8>) -> Seq<u8>
    recommends
        image.len() >= TRAILER_LEN,
{
    image.subrange(image.len() - TRAILER_LEN, image.len() - MAGIC_LEN)
}

/// What reading the trailer of a given image must return: the key, or the
/// error that says why the image has no usable trailer.
pub open spec fn spec_read_trailer(image: Seq<u8>) -> Result<Seq<u8>, LoaderError> {
    if image.len() < TRAILER_LEN {
        Err(LoaderError::TooSmallOrMissing)
    } else if spec_magic_of(image) != spec_magic() {
        Err(LoaderError::UnsealedBinary)
    } else {
        Ok(spec_trailer_key(image))
    }
}

/// Read the trailer out of a binary image: fail with `TooSmallOrMissing`
/// when the image cannot hold one, with `UnsealedBinary` when the magic
/// does not match, and return the 32-byte key otherwise. The image is only
/// read, so the call may be repeated safely.
pub fn read_trailer(image: &Vec<u8>) -> (r: Result<Vec<u8>, LoaderError>)
    ensures
        r is Ok <==> spec_read_trailer(image@) is Ok,
        r is Ok ==> r->Ok_0@ == spec_read_trailer(image@)->Ok_0,
        r is Ok ==> r->Ok_0@.len() == KEY_LEN,
        r is Err ==> r->Err_0 == spec_read_trailer(image@)->Err_0,
{
    let n: usize = image.len();
    if n < TRAILER_LEN {
        return Err(LoaderError::TooSmallOrMissing);
    }
    let magic: [u8; 8] = [0x50u8, 0x59u8, 0x54u8, 0x52u8, 0x4fu8, 0x4eu8, 0x5fu8, 0x4bu8];
    proof {
        assert(magic@ =~= spec_magic());
    }
    let mut i: usize = 0;
    while i < MAGIC_LEN
        invariant
            n == image@.len(),
            n >= TRAILER_LEN,
            i <= MAGIC_LEN,
            magic@ =~= spec_magic(),
            forall|j: int| 0 <= j < i ==> image@[n - MAGIC_LEN + j] == spec_magic()[j],
        decreases MAGIC_LEN - i,
    {
        if image[n - MAGIC_LEN + i] != magic[i] {
            proof {
                assert(spec_magic_of(image@)[i as int] != spec_magic()[i as int]);
            }
            return Err(LoaderError::UnsealedBinary);
        }
        i = i + 1;
    }
    proof {
        assert(spec_magic_of(image@) =~= spec_magic());
    }
    let mut key: Vec<u8> = Vec::new();
    let mut k: usize = 0;
    while k < KEY_LEN
        invariant
            n == image@.len(),
            n >= TRAILER_LEN,
            k <= KEY_LEN,
            key@ =~= image@.subrange(n - TRAILER_LEN, n - TRAILER_LEN + k),
        decreases KEY_LEN - k,
    {
        key.push(image[n - TRAILER_LEN + k]);
        k = k + 1;
    }
    proof {
        assert(key@ =~= spec_trailer_key(image@));
    }
    Ok(key)
}

/// Law: reading the trailer is idempotent and free of side effects. The
/// result is a function of the image alone and the image is never written,
/// so a second read right after a first yields the identical key or error.
pub proof fn lemma_read_trailer_idempotent(
    image: Seq<u8>,
    first: Result<Seq<u8>, LoaderError>,
    second: Result<Seq<u8>, LoaderError>,
)
    requires
        first == spec_read_trailer(image),
        second == spec_read_trailer(image),
    ensures
        first == second,
{
}

/// Law: a 39-byte or shorter image cannot hold a trailer, and reading it
/// fails with `TooSmallOrMissing`.
pub proof fn lemma_short_image_rejected(image: Seq<u8>)
    requires
        image.len() < TRAILER_LEN,
    ensures
        spec_read_trailer(image) == Err::<Seq<u8>, LoaderError>(LoaderError::TooSmallOrMissing),
{
}

/// Law: altering any single byte of the magic marker — any of the trailer's
/// bytes `32..40` — of a sealed image makes the read fail with
/// `UnsealedBinary`.
pub proof fn lemma_corrupted_magic_rejected(image: Seq<u8>, j: int, b: u8)
    requires
        spec_read_trailer(image) is Ok,
        KEY_LEN <= j < TRAILER_LEN,
        b != image[image.len() - TRAILER_LEN + j],
    ensures
        spec_read_trailer(image.update(image.len() - TRAILER_LEN + j, b)) == Err::<
            Seq<u8>,
            LoaderError,
        >(LoaderError::UnsealedBinary),
{
    let n = image.len() as int;
    let altered = image.update(n - TRAILER_LEN + j, b);
    assert(altered.len() == image.len());
    assert(spec_magic_of(image) == spec_magic());
    assert(spec_magic()[j - KEY_LEN] == image[n - TRAILER_LEN + j]);
    assert(spec_magic_of(altered)[j - KEY_LEN] == b);
    assert(spec_magic_of(altered) != spec_magic());
}

} // verus!
