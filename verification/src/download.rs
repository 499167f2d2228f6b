//! Decision logic of the digest-verified downloader.

use vstd::prelude::*;
use vstd::string::StringSliceAdditionalSpecFns;
use crate::digest::{hex_digest_matches, spec_digest, digest_matches};
use crate::errors::Error;
use crate::types::HashType;

verus! {

/// What `ensure_download` decides to do after observing the destination.
#[derive(Clone, Copy, Debug, PartialEq, Eq, Structural)]
pub enum DownloadPlan {
    /// The destination already has the expected digest: do nothing.
    AlreadyPresent,
    /// Fetch the URL to a temp path in the same directory, then verify.
    Fetch,
}

/// Decide whether a download is needed.  `observed_digest` is the digest of
/// the destination under the requested algorithm, or `None` when the
/// destination is absent.
pub fn ensure_download_plan(observed_digest: &Option<Vec<u8>>, expected_hex: &str) -> (r:
    DownloadPlan)
    ensures
        r == DownloadPlan::AlreadyPresent <==> match *observed_digest {
            Some(d) => hex_digest_matches(expected_hex.spec_bytes(), d@),
            None => false,
        },
{
    match observed_digest {
        Some(d) => {
            if digest_matches(expected_hex, d) {
                DownloadPlan::AlreadyPresent
            } else {
                DownloadPlan::Fetch
            }
        },
        None => DownloadPlan::Fetch,
    }
}

/// Verify a fetched artifact before it is renamed into place.  On `Err` the
/// shell must delete the temp file and leave the destination untouched; on
/// `Ok` it renames the temp file onto the destination atomically.
pub fn verify_fetched(fetched_digest: &Vec<u8>, expected_hex: &str) -> (r: Result<(), Error>)
    ensures
        r is Ok <==> hex_digest_matches(expected_hex.spec_bytes(), fetched_digest@),
        r is Err ==> r == Err::<(), Error>(Error::DigestMismatch),
{
    if digest_matches(expected_hex, fetched_digest) {
        Ok(())
    } else {
        Err(Error::DigestMismatch)
    }
}

/// Model of one `ensure_download` run over the destination content
/// (`None` = absent): the state afterwards, and the outcome (`Ok(changed)`
/// or the error).
pub open spec fn download_after(
    dest: Option<Seq<u8>>,
    fetched: Seq<u8>,
    expected: Seq<u8>,
    h: HashType,
) -> (Option<Seq<u8>>, Result<bool, Error>) {
    match dest {
        Some(c) => if hex_digest_matches(expected, spec_digest(h, c)) {
            (dest, Ok(false))
        } else if hex_digest_matches(expected, spec_digest(h, fetched)) {
            (Some(fetched), Ok(true))
        } else {
            (dest, Err(Error::DigestMismatch))
        },
        None => if hex_digest_matches(expected, spec_digest(h, fetched)) {
            (Some(fetched), Ok(true))
        } else {
            (None, Err(Error::DigestMismatch))
        },
    }
}

/// With a correct digest the download produces a byte-identical file; with
/// an incorrect digest it fails with `DigestMismatch` and the destination is
/// untouched — in particular, an absent destination stays absent.
pub proof fn lemma_download_verified(
    dest: Option<Seq<u8>>,
    fetched: Seq<u8>,
    expected: Seq<u8>,
    h: HashType,
)
    ensures
        hex_digest_matches(expected, spec_digest(h, fetched)) && !(dest matches Some(c)
            && hex_digest_matches(expected, spec_digest(h, c))) ==> download_after(
            dest,
            fetched,
            expected,
            h,
        ) == (Some(fetched), Ok::<bool, Error>(true)),
        !hex_digest_matches(expected, spec_digest(h, fetched)) && !(dest matches Some(c)
            && hex_digest_matches(expected, spec_digest(h, c))) ==> download_after(
            dest,
            fetched,
            expected,
            h,
        ) == (dest, Err::<bool, Error>(Error::DigestMismatch)),
{
}

/// Downloading twice is idempotent: whatever the first run left, a second
/// run with the same expected digest reports `changed == false` or repeats
/// the same failure without altering state.
pub proof fn lemma_download_idempotent(
    dest: Option<Seq<u8>>,
    fetched: Seq<u8>,
    expected: Seq<u8>,
    h: HashType,
)
    ensures
        ({
            let (after, r) = download_after(dest, fetched, expected, h);
            download_after(after, fetched, expected, h) == (
                after,
                if r is Ok {
                    Ok::<bool, Error>(false)
                } else {
                    r
                },
            )
        }),
{
}

} // verus!
