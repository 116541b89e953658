//! The patch pipeline: locate the payload in a downloaded archive, apply it
//! to the base image, and name the output artifact.
//!
//! The patch-apply step goes through the `flips` crate (libbps) behind a
//! trusted wrapper; its outcome is named as a pure function of the two byte
//! buffers, so the whole pipeline has a deterministic contract.

use vstd::prelude::*;
use crate::archive::{
    PatchArchive, get_patch_from_zip, first_match, zip_parse_ok, zip_names, zip_entry_ok,
    zip_data, payload_stem,
};
use crate::text::{str_to_chars, chars_to_string, concat_chars};

verus! {

/// Why the opaque patch-apply capability rejected its inputs; the variants
/// mirror `flips::Error`.
#[derive(Clone, Copy, Debug, PartialEq, Eq, Structural)]
pub enum PatchApplyError {
    NotThis,
    ToOutput,
    Invalid,
    Scrambled,
    Identical,
    TooBig,
    OutOfMem,
    Canceled,
}

#[verifier::external_type_specification]
#[verifier::external_body]
pub struct ExFlipsError(flips::Error);

/// Relies on the shape of `flips::Error`: each variant maps to the
/// library's error.
#[verifier::external_body]
fn patch_apply_error_of(e: flips::Error) -> PatchApplyError {
    match e {
        flips::Error::NotThis => PatchApplyError::NotThis,
        flips::Error::ToOutput => PatchApplyError::ToOutput,
        flips::Error::Invalid => PatchApplyError::Invalid,
        flips::Error::Scrambled => PatchApplyError::Scrambled,
        flips::Error::Identical => PatchApplyError::Identical,
        flips::Error::TooBig => PatchApplyError::TooBig,
        flips::Error::OutOfMem => PatchApplyError::OutOfMem,
        flips::Error::Canceled => PatchApplyError::Canceled,
    }
}

/// Whether libbps accepts this patch against this source.
pub uninterp spec fn bps_apply_ok(patch: Seq<u8>, base: Seq<u8>) -> bool;

/// The bytes libbps produces for this patch and source.
pub uninterp spec fn bps_apply_out(patch: Seq<u8>, base: Seq<u8>) -> Seq<u8>;

/// Relies on `flips::BpsPatch::{new, apply}` (libbps): applying a BPS patch
/// to a source buffer computes a pure function of the two buffers — it
/// either succeeds with the patched output or reports why the inputs were
/// rejected.
#[verifier::external_body]
fn apply_bps(patch: &Vec<u8>, base: &Vec<u8>) -> (r: Result<Vec<u8>, PatchApplyError>)
    ensures
        r is Ok <==> bps_apply_ok(patch@, base@),
        r matches Ok(o) ==> o@ == bps_apply_out(patch@, base@),
{
    match flips::BpsPatch::new(patch.as_slice()).apply(base.as_slice()) {
        Ok(out) => Ok(out.as_ref().to_vec()),
        Err(e) => Err(patch_apply_error_of(e)),
    }
}

/// A base image carries a copier header exactly when its size is 512 bytes
/// past a multiple of the 32 KiB bank size.
pub open spec fn has_copier_header(b: Seq<u8>) -> bool {
    b.len() >= 512 && b.len() % 32768 == 512
}

/// The base image with a detected copier header removed.
pub open spec fn stripped_base(b: Seq<u8>) -> Seq<u8> {
    if has_copier_header(b) {
        b.skip(512)
    } else {
        b
    }
}

/// Removes the 512-byte copier header when the size check detects one;
/// otherwise the image is passed through unchanged.
pub fn strip_copier_header(base: Vec<u8>) -> (r: Vec<u8>)
    ensures
        r@ == stripped_base(base@),
{
    let n = base.len();
    if n >= 512 && n % 32768 == 512 {
        let mut r: Vec<u8> = Vec::new();
        let mut i: usize = 512;
        while i < n
            invariant
                512 <= i <= n,
                n == base@.len(),
                r@ == base@.subrange(512, i as int),
            decreases n - i,
        {
            r.push(base[i]);
            assert(base@.subrange(512, i + 1) =~= base@.subrange(512, i as int).push(
                base@[i as int],
            ));
            i = i + 1;
        }
        assert(base@.subrange(512, n as int) =~= base@.skip(512));
        r
    } else {
        base
    }
}

/// The fixed extension of the patch payload looked for inside an archive.
pub open spec fn bps_ext() -> Seq<char> {
    "bps"@
}

/// The fixed extension given to the output artifact.
pub open spec fn smc_ext() -> Seq<char> {
    ".smc"@
}

/// The output artifact's name: the caller's hint, or the payload's
/// discovered base name, with the fixed output extension appended.
pub open spec fn output_name_model(hint: Option<Seq<char>>, stem: Seq<char>) -> Seq<char> {
    (match hint {
        Some(h) => h,
        None => stem,
    }) + smc_ext()
}

/// Builds the output artifact's name from the hint and the discovered stem.
pub fn output_name(hint: &Option<Vec<char>>, stem: &Vec<char>) -> (r: Vec<char>)
    ensures
        r@ == output_name_model(
            match hint {
                Some(h) => Some(h@),
                None => None,
            },
            stem@,
        ),
{
    let ext = str_to_chars(".smc");
    match hint {
        Some(h) => concat_chars(h, &ext),
        None => concat_chars(stem, &ext),
    }
}

/// What the pipeline can report: success with the artifact, or one typed
/// failure naming the step that gave up.
#[derive(Clone, Copy, Debug, PartialEq, Eq, Structural)]
pub enum FailureKind {
    Network,
    Io,
    Parse,
    Archive,
    MissingPayload,
    PatchApply,
}

/// The terminal result of one pipeline invocation; never partially
/// populated.
pub enum PatchOutcome {
    Success { output_name: String, output_bytes: Vec<u8> },
    Failure { kind: FailureKind, detail: String },
}

/// The spec-level view of the caller's optional name hint.
pub open spec fn hint_view(h: Option<Vec<char>>) -> Option<Seq<char>> {
    match h {
        Some(v) => Some(v@),
        None => None,
    }
}

/// What `run_on_archive` must return for these inputs: the outcome is a
/// pure function of the archive bytes, the base bytes and the hint.
pub open spec fn expected_outcome(
    r: PatchOutcome,
    ab: Seq<u8>,
    bb: Seq<u8>,
    hint: Option<Seq<char>>,
) -> bool {
    if !zip_parse_ok(ab) {
        r matches PatchOutcome::Failure { kind: FailureKind::Archive, detail } && detail@
            == "archive could not be opened"@
    } else {
        match first_match(zip_names(ab), bps_ext()) {
            None => r matches PatchOutcome::Failure { kind: FailureKind::MissingPayload, detail }
                && detail@ == "no patch entry in archive"@,
            Some(i) => {
                if !zip_entry_ok(ab, i) {
                    r matches PatchOutcome::Failure { kind: FailureKind::Archive, detail }
                        && detail@ == "patch entry could not be read"@
                } else {
                    let patch = zip_data(ab, i);
                    let base = stripped_base(bb);
                    if !bps_apply_ok(patch, base) {
                        r matches PatchOutcome::Failure { kind: FailureKind::PatchApply, detail }
                            && detail@ == "patch was rejected against the base image"@
                    } else {
                        r matches PatchOutcome::Success { output_name, output_bytes }
                            && output_name@ == output_name_model(
                            hint,
                            payload_stem(zip_names(ab)[i]),
                        ) && output_bytes@ == bps_apply_out(patch, base)
                    }
                }
            },
        }
    }
}

/// Drives extract → strip → apply → name over an archive and base image
/// already held in memory, one best-effort attempt with no retries.  The
/// outcome is exactly `expected_outcome`: a deterministic function of the
/// inputs.  Fetching the archive, reading the base file and writing the
/// artifact stay with the caller, who maps their failures to the `Network`
/// and `Io` kinds.
pub fn run_on_archive(archive_bytes: Vec<u8>, base_bytes: Vec<u8>, hint: Option<Vec<char>>) -> (r:
    PatchOutcome)
    ensures
        expected_outcome(r, archive_bytes@, base_bytes@, hint_view(hint)),
{
    let mut archive = match PatchArchive::open(archive_bytes) {
        Ok(a) => a,
        Err(_) => {
            return PatchOutcome::Failure {
                kind: FailureKind::Archive,
                detail: "archive could not be opened".to_owned(),
            };
        },
    };
    let target = str_to_chars("bps");
    let payload = match get_patch_from_zip(&mut archive, &target) {
        Ok(Some(p)) => p,
        Ok(None) => {
            return PatchOutcome::Failure {
                kind: FailureKind::MissingPayload,
                detail: "no patch entry in archive".to_owned(),
            };
        },
        Err(_) => {
            return PatchOutcome::Failure {
                kind: FailureKind::Archive,
                detail: "patch entry could not be read".to_owned(),
            };
        },
    };
    let base = strip_copier_header(base_bytes);
    let output_bytes = match apply_bps(&payload.data, &base) {
        Ok(o) => o,
        Err(_) => {
            return PatchOutcome::Failure {
                kind: FailureKind::PatchApply,
                detail: "patch was rejected against the base image".to_owned(),
            };
        },
    };
    let name = output_name(&hint, &payload.base_name);
    PatchOutcome::Success { output_name: chars_to_string(&name), output_bytes }
}

/// Two outcomes agree when they are both failures of the same kind, or both
/// successes with the same artifact name and byte-identical output.
pub open spec fn outcome_agrees(r1: PatchOutcome, r2: PatchOutcome) -> bool {
    match (r1, r2) {
        (
            PatchOutcome::Success { output_name: n1, output_bytes: b1 },
            PatchOutcome::Success { output_name: n2, output_bytes: b2 },
        ) => n1@ == n2@ && b1@ == b2@,
        (
            PatchOutcome::Failure { kind: k1, .. },
            PatchOutcome::Failure { kind: k2, .. },
        ) => k1 == k2,
        _ => false,
    }
}

/// Invoked twice with identical inputs, the pipeline reports outcomes that
/// agree: the same failure kind, or on success the same artifact name and
/// byte-identical output both times.
pub proof fn lemma_run_deterministic(
    r1: PatchOutcome,
    r2: PatchOutcome,
    ab: Seq<u8>,
    bb: Seq<u8>,
    hint: Option<Seq<char>>,
)
    requires
        expected_outcome(r1, ab, bb, hint),
        expected_outcome(r2, ab, bb, hint),
    ensures
        outcome_agrees(r1, r2),
{
}

} // verus!
