//! Assessment of the bytes of a managed media file against the writer's evidence.
use vstd::prelude::*;

use crate::caf::{caf_verdict, has_caf_header, inspect_recoverable_pcm_caf, CafVerdict};
use crate::journal::{digest_hex, lower_hex, sha256_of};
use crate::store::StoreError;

verus! {

/// How the length of a media file must relate to the accepted evidence.
#[derive(Clone, Copy, Debug, Eq, PartialEq, Structural)]
pub enum MediaLengthRequirement {
    Exact(u64),
    AtLeast(u64),
}

pub open spec fn length_meets(length: nat, requirement: MediaLengthRequirement) -> bool {
    match requirement {
        MediaLengthRequirement::Exact(expected) => length == expected,
        MediaLengthRequirement::AtLeast(minimum) => length >= minimum,
    }
}

/// What Rust learns from the bytes of a media file.
pub struct MediaAssessment {
    pub byte_length: u64,
    pub digest_sha256: Option<String>,
    pub recoverable_sample_count: Option<u64>,
}

/// Whether `assessment` is the assessment of `contents`.
pub open spec fn assessment_of(assessment: MediaAssessment, contents: Seq<u8>, calculate_digest: bool) -> bool {
    &&& assessment.byte_length == contents.len()
    &&& match assessment.digest_sha256 {
        Some(digest) => calculate_digest && digest@ == lower_hex(sha256_of(contents)),
        None => !calculate_digest,
    }
    &&& match caf_verdict(contents) {
        CafVerdict::Recoverable(samples) => assessment.recoverable_sample_count == Some(samples as u64),
        CafVerdict::Unrecoverable => assessment.recoverable_sample_count is None,
        CafVerdict::Truncated => false,
    }
}

/// Checks the length and CAF header of `contents`, digests them when asked,
/// and counts the samples a recovery could keep.
pub fn assess_media_contents(
    contents: &[u8],
    requirement: MediaLengthRequirement,
    calculate_digest: bool,
) -> (assessment: Result<MediaAssessment, StoreError>)
    ensures
        match assessment {
            Ok(found) => {
                &&& length_meets(contents@.len(), requirement)
                &&& contents@.len() >= 8
                &&& has_caf_header(contents@)
                &&& assessment_of(found, contents@, calculate_digest)
            },
            Err(error) => {
                ||| (!(length_meets(contents@.len(), requirement) && contents@.len() >= 8) && error
                    == StoreError::IntegrityMismatch("media byte length violates the accepted writer evidence"))
                ||| (length_meets(contents@.len(), requirement) && contents@.len() >= 8 && !has_caf_header(
                    contents@,
                ) && error == StoreError::IntegrityMismatch("media header is not CAF"))
                ||| (length_meets(contents@.len(), requirement) && has_caf_header(contents@) && caf_verdict(
                    contents@,
                ) == CafVerdict::Truncated && error is Io)
            },
        },
{
    let length = contents.len();
    let meets = match requirement {
        MediaLengthRequirement::Exact(expected) => length as u64 == expected,
        MediaLengthRequirement::AtLeast(minimum) => length as u64 >= minimum,
    };
    if !meets || length < 8 {
        return Err(StoreError::IntegrityMismatch("media byte length violates the accepted writer evidence"));
    }
    if !(contents[0] == 0x63 && contents[1] == 0x61 && contents[2] == 0x66 && contents[3] == 0x66 && contents[4]
        == 0 && contents[5] == 1 && contents[6] == 0 && contents[7] == 0) {
        return Err(StoreError::IntegrityMismatch("media header is not CAF"));
    }
    let digest_sha256 = if calculate_digest {
        Some(digest_hex(contents))
    } else {
        None
    };
    let recoverable_sample_count = match inspect_recoverable_pcm_caf(contents) {
        Ok(count) => count,
        Err(error) => {
            return Err(error);
        },
    };
    Ok(MediaAssessment { byte_length: length as u64, digest_sha256, recoverable_sample_count })
}

/// A managed media file as validated on disk: the identity the store read
/// and what Rust learned from its bytes.
pub struct ValidatedMediaFile {
    pub byte_length: u64,
    pub device: u64,
    pub inode: u64,
    pub digest_sha256: Option<String>,
    pub recoverable_sample_count: Option<u64>,
}

} // verus!
