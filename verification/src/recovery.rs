//! Restart recovery: how each session's journal, projection and media are
//! classified, and which segments are promoted to reviewable playback.
use vstd::prelude::*;

use crate::decisions::{missing_string, missing_unsigned, number_field_of, text_field_of};
use crate::journal::{text_view, JournalValidation};
use crate::media::ValidatedMediaFile;
use crate::store::{
    lemma_reason_names, reason_name, RecoveredPlayableSession, RecoveryDisposition, RecoveryFinding,
    SessionInterruptionReason,
    StoreError, MEDIA_SAMPLE_RATE_HZ,
};
use crate::text::str_equal;
use crate::types::SessionId;

verus! {

// ---------------------------------------------------------------------------
// Journals.

/// The finding a journal verdict leads to directly, or `None` when the
/// journal is valid and holds its directory record, so recovery goes on.
pub open spec fn journal_disposition_of(validation: JournalValidation, has_directory_ready: bool) -> Option<
    RecoveryDisposition,
> {
    match validation {
        JournalValidation::Valid => if has_directory_ready { None } else { Some(RecoveryDisposition::MissingJournal) },
        JournalValidation::Truncated => Some(RecoveryDisposition::TruncatedJournal),
        JournalValidation::Malformed => Some(RecoveryDisposition::MalformedJournal),
        JournalValidation::IntegrityMismatch => Some(RecoveryDisposition::IntegrityMismatch),
        JournalValidation::UnsupportedVersion => Some(RecoveryDisposition::UnsupportedJournalVersion),
    }
}

pub fn journal_disposition(validation: JournalValidation, has_directory_ready: bool) -> (disposition: Option<
    RecoveryDisposition,
>)
    ensures
        disposition == journal_disposition_of(validation, has_directory_ready),
{
    match validation {
        JournalValidation::Valid => if has_directory_ready {
            None
        } else {
            Some(RecoveryDisposition::MissingJournal)
        },
        JournalValidation::Truncated => Some(RecoveryDisposition::TruncatedJournal),
        JournalValidation::Malformed => Some(RecoveryDisposition::MalformedJournal),
        JournalValidation::IntegrityMismatch => Some(RecoveryDisposition::IntegrityMismatch),
        JournalValidation::UnsupportedVersion => Some(RecoveryDisposition::UnsupportedJournalVersion),
    }
}

/// Whether any record kind is `session_directory_ready`.
pub fn journal_has_directory_ready(event_kinds: &Vec<String>) -> (ready: bool)
    ensures
        ready == exists|i: int| 0 <= i < event_kinds@.len() && (#[trigger] event_kinds@[i])@ == "session_directory_ready"@,
{
    let mut index: usize = 0;
    while index < event_kinds.len()
        invariant
            index <= event_kinds@.len(),
            forall|j: int| 0 <= j < index ==> (#[trigger] event_kinds@[j])@ != "session_directory_ready"@,
        decreases event_kinds@.len() - index,
    {
        if str_equal(event_kinds[index].as_str(), "session_directory_ready") {
            return true;
        }
        index = index + 1;
    }
    false
}

/// The finding of a valid journal before interruption is considered.
pub fn preparation_disposition(repaired_directory: bool) -> (disposition: RecoveryDisposition)
    ensures
        disposition == if repaired_directory {
            RecoveryDisposition::ProjectionRepaired
        } else {
            RecoveryDisposition::Prepared
        },
{
    if repaired_directory {
        RecoveryDisposition::ProjectionRepaired
    } else {
        RecoveryDisposition::Prepared
    }
}

// ---------------------------------------------------------------------------
// Segment evidence found in a valid journal.

/// What the journal's seal record says about the segment it names.
pub struct SealRecord {
    pub segment_id: Option<String>,
    pub relative_path: Option<String>,
    pub file_device: Option<u64>,
    pub file_inode: Option<u64>,
    pub final_byte_length: Option<u64>,
    pub digest_sha256: Option<String>,
}

/// Whether the seal record agrees with the opened segment; `Ok(Some(length))`
/// gives the sealed length the file must then have, `Ok(None)` means it disagrees.
pub open spec fn seal_record_agreement_of(
    record: SealRecord,
    segment_id: Seq<char>,
    relative_path: Seq<char>,
    device: u64,
    inode: u64,
) -> Result<Option<u64>, StoreError> {
    match text_field_of(record.segment_id, segment_id) {
        Err(error) => Err(error),
        Ok(false) => Ok(None),
        Ok(true) => match text_field_of(record.relative_path, relative_path) {
            Err(error) => Err(error),
            Ok(false) => Ok(None),
            Ok(true) => match number_field_of(record.file_device, device) {
                Err(error) => Err(error),
                Ok(false) => Ok(None),
                Ok(true) => match number_field_of(record.file_inode, inode) {
                    Err(error) => Err(error),
                    Ok(false) => Ok(None),
                    Ok(true) => match record.final_byte_length {
                        None => Err(missing_unsigned()),
                        Some(length) => Ok(Some(length)),
                    },
                },
            },
        },
    }
}

fn same_text_field(field: &Option<String>, expected: &str) -> (verdict: Result<bool, StoreError>)
    ensures
        verdict == text_field_of(*field, expected@),
{
    match field {
        None => Err(StoreError::IntegrityMismatch("journal payload is missing a string field")),
        Some(value) => Ok(str_equal(value.as_str(), expected)),
    }
}

fn same_number_field(field: Option<u64>, expected: u64) -> (verdict: Result<bool, StoreError>)
    ensures
        verdict == number_field_of(field, expected),
{
    match field {
        None => Err(StoreError::IntegrityMismatch("journal payload is missing an unsigned field")),
        Some(value) => Ok(value == expected),
    }
}

pub fn seal_record_agreement(
    record: &SealRecord,
    segment_id: &str,
    relative_path: &str,
    device: u64,
    inode: u64,
) -> (agreement: Result<Option<u64>, StoreError>)
    ensures
        agreement == seal_record_agreement_of(*record, segment_id@, relative_path@, device, inode),
{
    match same_text_field(&record.segment_id, segment_id) {
        Err(error) => {
            return Err(error);
        },
        Ok(false) => {
            return Ok(None);
        },
        Ok(true) => {},
    }
    match same_text_field(&record.relative_path, relative_path) {
        Err(error) => {
            return Err(error);
        },
        Ok(false) => {
            return Ok(None);
        },
        Ok(true) => {},
    }
    match same_number_field(record.file_device, device) {
        Err(error) => {
            return Err(error);
        },
        Ok(false) => {
            return Ok(None);
        },
        Ok(true) => {},
    }
    match same_number_field(record.file_inode, inode) {
        Err(error) => {
            return Err(error);
        },
        Ok(false) => {
            return Ok(None);
        },
        Ok(true) => {},
    }
    match record.final_byte_length {
        None => Err(StoreError::IntegrityMismatch("journal payload is missing an unsigned field")),
        Some(length) => Ok(Some(length)),
    }
}

/// What recovery does once a sealed segment's file has been checked.
#[derive(Clone, Copy, Debug, Eq, PartialEq, Structural)]
pub enum RecoveryStep {
    /// Recovery of this session ends with this finding.
    Done(RecoveryDisposition),
    /// Repair the database projection from the journal record, then report the repair.
    Project,
}

/// From whether the sealed file still validates, the digest it has, and the
/// segment's projected lifecycle.
pub open spec fn sealed_recovery_of(
    file_digest: Option<Seq<char>>,
    record_digest: Option<String>,
    segment_lifecycle: Seq<char>,
) -> Result<RecoveryStep, StoreError> {
    if file_digest is None {
        Ok(RecoveryStep::Done(RecoveryDisposition::InvalidMediaFile))
    } else if record_digest is None {
        Err(missing_string())
    } else if file_digest->0 != record_digest->0@ {
        Ok(RecoveryStep::Done(RecoveryDisposition::IntegrityMismatch))
    } else if segment_lifecycle == "sealed"@ {
        Ok(RecoveryStep::Done(RecoveryDisposition::SegmentSealedPrepared))
    } else if segment_lifecycle != "capturing"@ {
        Ok(RecoveryStep::Done(RecoveryDisposition::IntegrityMismatch))
    } else {
        Ok(RecoveryStep::Project)
    }
}

pub open spec fn digest_view(digest: Option<String>) -> Option<Seq<char>> {
    match digest {
        Some(d) => Some(d@),
        None => None,
    }
}

/// `file_digest` is the digest of the sealed file when it still validates at
/// its sealed length, `None` otherwise.
pub fn sealed_recovery_step(
    file_digest: &Option<String>,
    record_digest: &Option<String>,
    segment_lifecycle: &str,
) -> (step: Result<RecoveryStep, StoreError>)
    ensures
        step == sealed_recovery_of(digest_view(*file_digest), *record_digest, segment_lifecycle@),
{
    let digest = match file_digest {
        Some(digest) => digest,
        None => {
            return Ok(RecoveryStep::Done(RecoveryDisposition::InvalidMediaFile));
        },
    };
    let accepted = match record_digest {
        Some(accepted) => accepted,
        None => {
            return Err(StoreError::IntegrityMismatch("journal payload is missing a string field"));
        },
    };
    if !str_equal(digest.as_str(), accepted.as_str()) {
        return Ok(RecoveryStep::Done(RecoveryDisposition::IntegrityMismatch));
    }
    if str_equal(segment_lifecycle, "sealed") {
        return Ok(RecoveryStep::Done(RecoveryDisposition::SegmentSealedPrepared));
    }
    if !str_equal(segment_lifecycle, "capturing") {
        return Ok(RecoveryStep::Done(RecoveryDisposition::IntegrityMismatch));
    }
    Ok(RecoveryStep::Project)
}

/// What the journal's first-sample record says about the segment it names.
pub struct FirstSampleRecord {
    pub segment_id: Option<String>,
    pub relative_path: Option<String>,
    pub file_device: Option<u64>,
    pub file_inode: Option<u64>,
    pub first_sample_session_nanoseconds: Option<i64>,
    pub observed_byte_length: Option<u64>,
}

/// Whether the first-sample record agrees with the opened segment; `Ok(Some(length))`
/// gives the length the file must at least have, `Ok(None)` means it disagrees.
pub open spec fn first_sample_record_agreement_of(
    record: FirstSampleRecord,
    segment_id: Seq<char>,
    relative_path: Seq<char>,
    device: u64,
    inode: u64,
) -> Result<Option<u64>, StoreError> {
    match text_field_of(record.segment_id, segment_id) {
        Err(error) => Err(error),
        Ok(false) => Ok(None),
        Ok(true) => match text_field_of(record.relative_path, relative_path) {
            Err(error) => Err(error),
            Ok(false) => Ok(None),
            Ok(true) => match number_field_of(record.file_device, device) {
                Err(error) => Err(error),
                Ok(false) => Ok(None),
                Ok(true) => match number_field_of(record.file_inode, inode) {
                    Err(error) => Err(error),
                    Ok(false) => Ok(None),
                    Ok(true) => match record.first_sample_session_nanoseconds {
                        None => Err(StoreError::IntegrityMismatch("journal payload is missing a signed field")),
                        Some(offset) => if offset != 0 {
                            Ok(None)
                        } else {
                            match record.observed_byte_length {
                                None => Err(missing_unsigned()),
                                Some(length) => Ok(Some(length)),
                            }
                        },
                    },
                },
            },
        },
    }
}

pub fn first_sample_record_agreement(
    record: &FirstSampleRecord,
    segment_id: &str,
    relative_path: &str,
    device: u64,
    inode: u64,
) -> (agreement: Result<Option<u64>, StoreError>)
    ensures
        agreement == first_sample_record_agreement_of(*record, segment_id@, relative_path@, device, inode),
{
    match same_text_field(&record.segment_id, segment_id) {
        Err(error) => {
            return Err(error);
        },
        Ok(false) => {
            return Ok(None);
        },
        Ok(true) => {},
    }
    match same_text_field(&record.relative_path, relative_path) {
        Err(error) => {
            return Err(error);
        },
        Ok(false) => {
            return Ok(None);
        },
        Ok(true) => {},
    }
    match same_number_field(record.file_device, device) {
        Err(error) => {
            return Err(error);
        },
        Ok(false) => {
            return Ok(None);
        },
        Ok(true) => {},
    }
    match same_number_field(record.file_inode, inode) {
        Err(error) => {
            return Err(error);
        },
        Ok(false) => {
            return Ok(None);
        },
        Ok(true) => {},
    }
    match record.first_sample_session_nanoseconds {
        None => {
            return Err(StoreError::IntegrityMismatch("journal payload is missing a signed field"));
        },
        Some(offset) => if offset != 0 {
            return Ok(None);
        },
    }
    match record.observed_byte_length {
        None => Err(StoreError::IntegrityMismatch("journal payload is missing an unsigned field")),
        Some(length) => Ok(Some(length)),
    }
}

/// From whether the file still reaches the observed length and the segment's projected lifecycle.
pub open spec fn first_sample_recovery_of(file_valid: bool, segment_lifecycle: Seq<char>) -> RecoveryStep {
    if !file_valid {
        RecoveryStep::Done(RecoveryDisposition::InvalidMediaFile)
    } else if segment_lifecycle == "capturing"@ {
        RecoveryStep::Done(RecoveryDisposition::FirstSamplePrepared)
    } else if segment_lifecycle != "open"@ {
        RecoveryStep::Done(RecoveryDisposition::IntegrityMismatch)
    } else {
        RecoveryStep::Project
    }
}

pub fn first_sample_recovery_step(file_valid: bool, segment_lifecycle: &str) -> (step: RecoveryStep)
    ensures
        step == first_sample_recovery_of(file_valid, segment_lifecycle@),
{
    if !file_valid {
        return RecoveryStep::Done(RecoveryDisposition::InvalidMediaFile);
    }
    if str_equal(segment_lifecycle, "capturing") {
        return RecoveryStep::Done(RecoveryDisposition::FirstSamplePrepared);
    }
    if !str_equal(segment_lifecycle, "open") {
        return RecoveryStep::Done(RecoveryDisposition::IntegrityMismatch);
    }
    RecoveryStep::Project
}

/// The finding for an opened segment with neither first sample nor seal.
pub fn media_open_disposition(media_files_open: bool) -> (disposition: RecoveryDisposition)
    ensures
        disposition == if media_files_open {
            RecoveryDisposition::MediaOpenPrepared
        } else {
            RecoveryDisposition::MediaOpenProjectionRepaired
        },
{
    if media_files_open {
        RecoveryDisposition::MediaOpenPrepared
    } else {
        RecoveryDisposition::MediaOpenProjectionRepaired
    }
}

/// The finding for an authorized segment whose file was never accepted.
pub fn unaccepted_media_disposition(present: bool, valid: bool) -> (disposition: RecoveryDisposition)
    ensures
        disposition == if !present {
            RecoveryDisposition::MissingMediaFile
        } else if valid {
            RecoveryDisposition::MediaOpenAwaitingReceipt
        } else {
            RecoveryDisposition::InvalidMediaFile
        },
{
    if !present {
        RecoveryDisposition::MissingMediaFile
    } else if valid {
        RecoveryDisposition::MediaOpenAwaitingReceipt
    } else {
        RecoveryDisposition::InvalidMediaFile
    }
}

// ---------------------------------------------------------------------------
// The order in which a valid journal is recovered.

/// The last record of one kind for one segment in a journal, found from the
/// end: `Ok(None)` when there is none. A record of that kind without a
/// segment is an error.
pub struct RecordKey {
    pub event_kind: String,
    pub segment_id: Option<String>,
}

pub open spec fn last_record_for_segment_of(
    records: Seq<RecordKey>,
    end: int,
    event_kind: Seq<char>,
    segment_id: Seq<char>,
) -> Result<Option<int>, StoreError>
    decreases end,
{
    if end <= 0 {
        Ok(None)
    } else if records[end - 1].event_kind@ == event_kind {
        match records[end - 1].segment_id {
            None => Err(missing_string()),
            Some(id) => if id@ == segment_id {
                Ok(Some(end - 1))
            } else {
                last_record_for_segment_of(records, end - 1, event_kind, segment_id)
            },
        }
    } else {
        last_record_for_segment_of(records, end - 1, event_kind, segment_id)
    }
}

/// The position of the last record of `event_kind` for `segment_id`.
pub fn last_record_for_segment(records: &Vec<RecordKey>, event_kind: &str, segment_id: &str) -> (found: Result<
    Option<usize>,
    StoreError,
>)
    ensures
        match found {
            Ok(Some(index)) => last_record_for_segment_of(records@, records@.len() as int, event_kind@, segment_id@)
                == Ok::<Option<int>, StoreError>(Some(index as int)),
            Ok(None) => last_record_for_segment_of(records@, records@.len() as int, event_kind@, segment_id@)
                == Ok::<Option<int>, StoreError>(None),
            Err(error) => last_record_for_segment_of(records@, records@.len() as int, event_kind@, segment_id@)
                == Err::<Option<int>, StoreError>(error),
        },
{
    let mut end: usize = records.len();
    while end > 0
        invariant
            end <= records@.len(),
            last_record_for_segment_of(records@, records@.len() as int, event_kind@, segment_id@)
                == last_record_for_segment_of(records@, end as int, event_kind@, segment_id@),
        decreases end,
    {
        let record = &records[end - 1];
        if str_equal(record.event_kind.as_str(), event_kind) {
            match &record.segment_id {
                None => {
                    return Err(StoreError::IntegrityMismatch("journal payload is missing a string field"));
                },
                Some(id) => {
                    if str_equal(id.as_str(), segment_id) {
                        return Ok(Some(end - 1));
                    }
                },
            }
        }
        end = end - 1;
    }
    Ok(None)
}

/// What the recovery of a valid journal has learned so far. Each answer is
/// `None` until the store has found it out.
pub struct JournalRecoveryFacts {
    /// The directory projection was repaired from the journal.
    pub directory_repaired: bool,
    /// The journal holds a segment-open intent; the facts below concern the segment of the last one.
    pub has_open_intent: bool,
    pub has_opened_record: bool,
    pub has_seal_record: bool,
    pub has_first_sample_record: bool,
    /// The intent's segment is projected, repaired from the journal if it was not.
    pub intent_projected: bool,
    /// The finding for a file that was never accepted.
    pub unaccepted_media: Option<RecoveryDisposition>,
    /// `Some(None)` when the opened file still validates with its accepted
    /// identity, `Some(Some(finding))` when it does not.
    pub opened_media: Option<Option<RecoveryDisposition>>,
    /// The finding once the seal record has been checked and, if needed, projected.
    pub sealed_segment: Option<RecoveryDisposition>,
    /// Whether the session's media files were open before the media-open projection was repaired.
    pub media_files_open: Option<bool>,
    /// The finding once the first-sample record has been checked and, if needed, projected.
    pub first_sample: Option<RecoveryDisposition>,
}

/// What the store must find out (or repair) next.
#[derive(Clone, Copy, Debug, Eq, PartialEq, Structural)]
pub enum RecoveryQuestion {
    /// Project the intent's segment if it is not projected.
    ProjectIntent,
    /// Classify the never-accepted media file.
    UnacceptedMedia,
    /// Validate the opened file and compare its identity.
    OpenedMedia,
    /// Check the seal record against the file and project it if needed.
    SealedSegment,
    /// Read whether the media files are open, and repair the media-open projection if not.
    MediaOpenProjection,
    /// Check the first-sample record against the file and project it if needed.
    FirstSample,
}

/// The next step of recovering a valid journal.
#[derive(Clone, Copy, Debug, Eq, PartialEq, Structural)]
pub enum RecoveryAction {
    Ask(RecoveryQuestion),
    Finish(RecoveryDisposition),
}

/// The order of recovery: the last open intent; then whether its segment
/// was opened; for an opened segment, its file and identity; then a seal if
/// one was journaled, else the media-open projection and a first sample.
pub open spec fn journal_recovery_of(facts: JournalRecoveryFacts) -> RecoveryAction {
    if !facts.has_open_intent {
        RecoveryAction::Finish(
            if facts.directory_repaired {
                RecoveryDisposition::ProjectionRepaired
            } else {
                RecoveryDisposition::Prepared
            },
        )
    } else if !facts.intent_projected {
        RecoveryAction::Ask(RecoveryQuestion::ProjectIntent)
    } else if !facts.has_opened_record {
        match facts.unaccepted_media {
            None => RecoveryAction::Ask(RecoveryQuestion::UnacceptedMedia),
            Some(finding) => RecoveryAction::Finish(finding),
        }
    } else {
        match facts.opened_media {
            None => RecoveryAction::Ask(RecoveryQuestion::OpenedMedia),
            Some(Some(finding)) => RecoveryAction::Finish(finding),
            Some(None) => if facts.has_seal_record {
                match facts.sealed_segment {
                    None => RecoveryAction::Ask(RecoveryQuestion::SealedSegment),
                    Some(finding) => RecoveryAction::Finish(finding),
                }
            } else {
                match facts.media_files_open {
                    None => RecoveryAction::Ask(RecoveryQuestion::MediaOpenProjection),
                    Some(open) => if facts.has_first_sample_record {
                        match facts.first_sample {
                            None => RecoveryAction::Ask(RecoveryQuestion::FirstSample),
                            Some(finding) => RecoveryAction::Finish(finding),
                        }
                    } else {
                        RecoveryAction::Finish(
                            if open {
                                RecoveryDisposition::MediaOpenPrepared
                            } else {
                                RecoveryDisposition::MediaOpenProjectionRepaired
                            },
                        )
                    },
                }
            },
        }
    }
}

pub fn journal_recovery_step(facts: &JournalRecoveryFacts) -> (action: RecoveryAction)
    ensures
        action == journal_recovery_of(*facts),
{
    if !facts.has_open_intent {
        return RecoveryAction::Finish(preparation_disposition(facts.directory_repaired));
    }
    if !facts.intent_projected {
        return RecoveryAction::Ask(RecoveryQuestion::ProjectIntent);
    }
    if !facts.has_opened_record {
        return match facts.unaccepted_media {
            None => RecoveryAction::Ask(RecoveryQuestion::UnacceptedMedia),
            Some(finding) => RecoveryAction::Finish(finding),
        };
    }
    match facts.opened_media {
        None => RecoveryAction::Ask(RecoveryQuestion::OpenedMedia),
        Some(Some(finding)) => RecoveryAction::Finish(finding),
        Some(None) => {
            if facts.has_seal_record {
                return match facts.sealed_segment {
                    None => RecoveryAction::Ask(RecoveryQuestion::SealedSegment),
                    Some(finding) => RecoveryAction::Finish(finding),
                };
            }
            match facts.media_files_open {
                None => RecoveryAction::Ask(RecoveryQuestion::MediaOpenProjection),
                Some(open) => {
                    if facts.has_first_sample_record {
                        match facts.first_sample {
                            None => RecoveryAction::Ask(RecoveryQuestion::FirstSample),
                            Some(finding) => RecoveryAction::Finish(finding),
                        }
                    } else {
                        RecoveryAction::Finish(media_open_disposition(open))
                    }
                },
            }
        },
    }
}

/// The finding for an opened segment's file: `None` when it still validates
/// with the accepted identity; otherwise missing or invalid.
pub open spec fn opened_media_finding_of(file_valid: bool, file_present: bool, identity_matches: bool) -> Option<
    RecoveryDisposition,
> {
    if !file_valid {
        Some(
            if file_present {
                RecoveryDisposition::InvalidMediaFile
            } else {
                RecoveryDisposition::MissingMediaFile
            },
        )
    } else if !identity_matches {
        Some(RecoveryDisposition::InvalidMediaFile)
    } else {
        None
    }
}

pub fn opened_media_finding(file_valid: bool, file_present: bool, identity_matches: bool) -> (finding: Option<
    RecoveryDisposition,
>)
    ensures
        finding == opened_media_finding_of(file_valid, file_present, identity_matches),
{
    if !file_valid {
        if file_present {
            Some(RecoveryDisposition::InvalidMediaFile)
        } else {
            Some(RecoveryDisposition::MissingMediaFile)
        }
    } else if !identity_matches {
        Some(RecoveryDisposition::InvalidMediaFile)
    } else {
        None
    }
}

// ---------------------------------------------------------------------------
// The order of findings.

/// `a` comes no later than `b` in the lexicographic order of their characters.
pub open spec fn text_at_most(a: Seq<char>, b: Seq<char>) -> bool
    decreases a.len(),
{
    if a.len() == 0 {
        true
    } else if b.len() == 0 {
        false
    } else if a[0] != b[0] {
        (a[0] as int) < (b[0] as int)
    } else {
        text_at_most(a.drop_first(), b.drop_first())
    }
}

proof fn lemma_text_order_total(a: Seq<char>, b: Seq<char>)
    ensures
        text_at_most(a, b) || text_at_most(b, a),
    decreases a.len(),
{
    if a.len() > 0 && b.len() > 0 {
        if a[0] == b[0] {
            lemma_text_order_total(a.drop_first(), b.drop_first());
        } else {
            assert(a[0] as int != b[0] as int);
        }
    }
}

proof fn lemma_text_order_transitive(a: Seq<char>, b: Seq<char>, c: Seq<char>)
    requires
        text_at_most(a, b),
        text_at_most(b, c),
    ensures
        text_at_most(a, c),
    decreases a.len(),
{
    if a.len() > 0 && b.len() > 0 && c.len() > 0 && a[0] == b[0] && b[0] == c[0] {
        lemma_text_order_transitive(a.drop_first(), b.drop_first(), c.drop_first());
    }
}

fn text_at_most_exec(a: &str, b: &str) -> (at_most: bool)
    ensures
        at_most == text_at_most(a@, b@),
{
    let a_len = a.unicode_len();
    let b_len = b.unicode_len();
    let mut index: usize = 0;
    assert(a@.skip(0) =~= a@);
    assert(b@.skip(0) =~= b@);
    while index < a_len && index < b_len
        invariant
            a_len == a@.len(),
            b_len == b@.len(),
            index <= a_len,
            index <= b_len,
            text_at_most(a@, b@) == text_at_most(a@.skip(index as int), b@.skip(index as int)),
        decreases a_len - index,
    {
        let x = a.get_char(index);
        let y = b.get_char(index);
        assert(a@.skip(index as int)[0] == x);
        assert(b@.skip(index as int)[0] == y);
        if x != y {
            return (x as u32) < (y as u32);
        }
        assert(a@.skip(index as int).drop_first() =~= a@.skip(index + 1));
        assert(b@.skip(index as int).drop_first() =~= b@.skip(index + 1));
        index = index + 1;
    }
    index == a_len
}

/// Findings in the order of their session identifiers.
pub open spec fn findings_sorted(findings: Seq<RecoveryFinding>) -> bool {
    forall|i: int, j: int|
        0 <= i < j < findings.len() ==> text_at_most(
            (#[trigger] findings[i]).session_id.0@,
            (#[trigger] findings[j]).session_id.0@,
        )
}

/// The findings rearranged in the order of their session identifiers.
pub fn sort_findings(findings: Vec<RecoveryFinding>) -> (sorted: Vec<RecoveryFinding>)
    ensures
        findings_sorted(sorted@),
        sorted@.to_multiset() == findings@.to_multiset(),
{
    broadcast use vstd::multiset::group_multiset_axioms;

    let ghost all = findings@;
    let mut rest = findings;
    let mut sorted: Vec<RecoveryFinding> = Vec::new();
    proof {
        vstd::seq_lib::to_multiset_len(sorted@);
        vstd::multiset::lemma_multiset_empty_len(sorted@.to_multiset());
        assert(sorted@.to_multiset() =~= vstd::multiset::Multiset::empty());
        assert(sorted@.to_multiset().add(rest@.to_multiset()) =~= all.to_multiset());
    }
    while rest.len() > 0
        invariant
            findings_sorted(sorted@),
            sorted@.to_multiset().add(rest@.to_multiset()) == all.to_multiset(),
        decreases rest@.len(),
    {
        let ghost before = rest@;
        let item = match rest.pop() {
            Some(item) => item,
            None => {
                return sorted;
            },
        };
        proof {
            assert(before =~= rest@.push(item));
            vstd::seq_lib::to_multiset_build(rest@, item);
        }
        let mut position: usize = 0;
        while position < sorted.len() && text_at_most_exec(
            sorted[position].session_id.0.as_str(),
            item.session_id.0.as_str(),
        )
            invariant
                position <= sorted@.len(),
                forall|q: int| 0 <= q < position ==> text_at_most(sorted@[q].session_id.0@, item.session_id.0@),
            decreases sorted@.len() - position,
        {
            position = position + 1;
        }
        let ghost old_sorted = sorted@;
        proof {
            if position < old_sorted.len() {
                lemma_text_order_total(old_sorted[position as int].session_id.0@, item.session_id.0@);
                assert forall|q: int| position <= q < old_sorted.len() implies text_at_most(
                    item.session_id.0@,
                    old_sorted[q].session_id.0@,
                ) by {
                    if q > position {
                        lemma_text_order_transitive(
                            item.session_id.0@,
                            old_sorted[position as int].session_id.0@,
                            old_sorted[q].session_id.0@,
                        );
                    }
                }
            }
            vstd::seq_lib::to_multiset_insert(old_sorted, position as int, item);
        }
        sorted.insert(position, item);
        proof {
            let now = sorted@;
            assert forall|i: int, j: int| 0 <= i < j < now.len() implies text_at_most(
                (#[trigger] now[i]).session_id.0@,
                (#[trigger] now[j]).session_id.0@,
            ) by {
                let p = position as int;
                if i < p && j < p {
                    assert(now[i] == old_sorted[i] && now[j] == old_sorted[j]);
                } else if i < p && j == p {
                } else if i < p {
                    assert(now[i] == old_sorted[i] && now[j] == old_sorted[j - 1]);
                } else if i == p {
                    assert(now[j] == old_sorted[j - 1]);
                } else {
                    assert(now[i] == old_sorted[i - 1] && now[j] == old_sorted[j - 1]);
                }
            }
            assert(sorted@.to_multiset().add(rest@.to_multiset()) =~= all.to_multiset());
        }
    }
    proof {
        vstd::seq_lib::to_multiset_len(rest@);
        vstd::multiset::lemma_multiset_empty_len(rest@.to_multiset());
        assert(rest@.to_multiset() =~= vstd::multiset::Multiset::empty());
        assert(sorted@.to_multiset() =~= sorted@.to_multiset().add(rest@.to_multiset()));
    }
    sorted
}

// ---------------------------------------------------------------------------
// Interruption.

/// One `session_interrupted` record of a journal.
pub struct InterruptionRecord {
    pub sequence: u64,
    pub reason: Option<String>,
}

/// The finding once a journal's interruption records are weighed against the
/// projection; `base` is the finding without them.
pub open spec fn interruption_finding(base: RecoveryDisposition) -> RecoveryDisposition {
    match base {
        RecoveryDisposition::Prepared | RecoveryDisposition::ProjectionRepaired => RecoveryDisposition::InterruptedPrepared,
        RecoveryDisposition::MediaOpenPrepared | RecoveryDisposition::MediaOpenProjectionRepaired
        | RecoveryDisposition::MediaOpenAwaitingReceipt => RecoveryDisposition::InterruptedMediaOpen,
        RecoveryDisposition::FirstSamplePrepared | RecoveryDisposition::FirstSampleProjectionRepaired => {
            RecoveryDisposition::InterruptedFirstSample
        },
        RecoveryDisposition::SegmentSealedPrepared | RecoveryDisposition::SegmentSealProjectionRepaired => {
            RecoveryDisposition::InterruptedSegmentSealed
        },
        other => other,
    }
}

/// Interruption must be recorded once, as the journal's last record; a
/// journaled interruption the projection lacks is repaired.
pub open spec fn reconciliation_of(
    interruptions: Seq<InterruptionRecord>,
    record_count: u64,
    lifecycle: Seq<char>,
    base: RecoveryDisposition,
) -> Result<RecoveryStep, StoreError> {
    if interruptions.len() == 0 {
        Ok(RecoveryStep::Done(base))
    } else if interruptions.len() != 1 || interruptions[0].sequence != record_count {
        Ok(RecoveryStep::Done(RecoveryDisposition::IntegrityMismatch))
    } else if interruptions[0].reason is None {
        Err(missing_string())
    } else if forall|r: SessionInterruptionReason| reason_name(r) != interruptions[0].reason->0@ {
        Err(StoreError::IntegrityMismatch("session interruption reason is unsupported"))
    } else if lifecycle == "preparing"@ || lifecycle == "recording"@ {
        Ok(RecoveryStep::Project)
    } else if lifecycle != "interrupted"@ {
        Ok(RecoveryStep::Done(RecoveryDisposition::IntegrityMismatch))
    } else {
        Ok(RecoveryStep::Done(interruption_finding(base)))
    }
}

pub fn reconcile_interruption(
    interruptions: &Vec<InterruptionRecord>,
    record_count: u64,
    lifecycle: &str,
    base: RecoveryDisposition,
) -> (step: Result<RecoveryStep, StoreError>)
    ensures
        step == reconciliation_of(interruptions@, record_count, lifecycle@, base),
{
    if interruptions.len() == 0 {
        return Ok(RecoveryStep::Done(base));
    }
    if interruptions.len() != 1 || interruptions[0].sequence != record_count {
        return Ok(RecoveryStep::Done(RecoveryDisposition::IntegrityMismatch));
    }
    let reason = match &interruptions[0].reason {
        Some(reason) => reason,
        None => {
            return Err(StoreError::IntegrityMismatch("journal payload is missing a string field"));
        },
    };
    match SessionInterruptionReason::from_str(reason.as_str()) {
        Ok(_) => {},
        Err(error) => {
            return Err(error);
        },
    }
    if str_equal(lifecycle, "preparing") || str_equal(lifecycle, "recording") {
        return Ok(RecoveryStep::Project);
    }
    if !str_equal(lifecycle, "interrupted") {
        return Ok(RecoveryStep::Done(RecoveryDisposition::IntegrityMismatch));
    }
    let finding = match base {
        RecoveryDisposition::Prepared | RecoveryDisposition::ProjectionRepaired => RecoveryDisposition::InterruptedPrepared,
        RecoveryDisposition::MediaOpenPrepared | RecoveryDisposition::MediaOpenProjectionRepaired
        | RecoveryDisposition::MediaOpenAwaitingReceipt => RecoveryDisposition::InterruptedMediaOpen,
        RecoveryDisposition::FirstSamplePrepared | RecoveryDisposition::FirstSampleProjectionRepaired => {
            RecoveryDisposition::InterruptedFirstSample
        },
        RecoveryDisposition::SegmentSealedPrepared | RecoveryDisposition::SegmentSealProjectionRepaired => {
            RecoveryDisposition::InterruptedSegmentSealed
        },
        other => other,
    };
    Ok(RecoveryStep::Done(finding))
}

// ---------------------------------------------------------------------------
// Promotion of interrupted captures to reviewable playback.

/// A capturing segment of a session that may hold playable media.
pub struct RecoveryCandidate {
    pub session_id: String,
    pub source_id: String,
    pub track_id: String,
    pub segment_id: String,
    pub relative_path: String,
    pub file_device: u64,
    pub file_inode: u64,
}

/// The journaled plan for promoting one segment.
pub struct PlayableRecoveryPlan {
    pub source_id: String,
    pub track_id: String,
    pub segment_id: String,
    pub relative_path: String,
    pub sample_count: u64,
    pub final_byte_length: u64,
    pub digest_sha256: String,
    pub file_device: u64,
    pub file_inode: u64,
}

/// Whether `plan` promotes `candidate` with the evidence of `file`.
pub open spec fn plan_promotes(plan: PlayableRecoveryPlan, candidate: RecoveryCandidate, file: ValidatedMediaFile) -> bool {
    &&& plan.source_id == candidate.source_id
    &&& plan.track_id == candidate.track_id
    &&& plan.segment_id == candidate.segment_id
    &&& plan.relative_path == candidate.relative_path
    &&& file.recoverable_sample_count == Some(plan.sample_count)
    &&& plan.final_byte_length == file.byte_length
    &&& file.digest_sha256 == Some(plan.digest_sha256)
    &&& plan.file_device == file.device
    &&& plan.file_inode == file.inode
}

/// `Ok(None)` abandons the session's recovery: the file is missing, invalid,
/// replaced, or holds no whole samples.
pub open spec fn candidate_promotable(candidate: RecoveryCandidate, file: Option<ValidatedMediaFile>) -> bool {
    &&& file is Some
    &&& file->0.device == candidate.file_device
    &&& file->0.inode == candidate.file_inode
    &&& file->0.recoverable_sample_count is Some
}

/// Plans the promotion of one candidate, given its file as validated against
/// the first-sample length (`None` when it does not validate).
pub fn plan_candidate(candidate: RecoveryCandidate, file: Option<ValidatedMediaFile>) -> (plan: Result<
    Option<PlayableRecoveryPlan>,
    StoreError,
>)
    ensures
        match plan {
            Ok(Some(found)) => candidate_promotable(candidate, file) && plan_promotes(found, candidate, file->0),
            Ok(None) => !candidate_promotable(candidate, file),
            Err(error) => candidate_promotable(candidate, file) && file->0.digest_sha256 is None && error
                == StoreError::IntegrityMismatch("recovery digest is missing"),
        },
{
    let file = match file {
        Some(file) => file,
        None => {
            return Ok(None);
        },
    };
    if file.device != candidate.file_device || file.inode != candidate.file_inode {
        return Ok(None);
    }
    let sample_count = match file.recoverable_sample_count {
        Some(count) => count,
        None => {
            return Ok(None);
        },
    };
    let digest_sha256 = match file.digest_sha256 {
        Some(digest) => digest,
        None => {
            return Err(StoreError::IntegrityMismatch("recovery digest is missing"));
        },
    };
    Ok(
        Some(
            PlayableRecoveryPlan {
                source_id: candidate.source_id,
                track_id: candidate.track_id,
                segment_id: candidate.segment_id,
                relative_path: candidate.relative_path,
                sample_count,
                final_byte_length: file.byte_length,
                digest_sha256,
                file_device: file.device,
                file_inode: file.inode,
            },
        ),
    )
}

/// A journaled recovery plan as read back: each field, `None` when it is
/// missing or of another type, and how many fields the record holds.
pub struct RecordedRecoveryPlan {
    pub source_id: Option<String>,
    pub track_id: Option<String>,
    pub segment_id: Option<String>,
    pub relative_path: Option<String>,
    pub sample_count: Option<u64>,
    pub final_byte_length: Option<u64>,
    pub digest_sha256: Option<String>,
    pub file_device: Option<u64>,
    pub file_inode: Option<u64>,
    pub truncated_bytes: Option<u64>,
    pub field_count: usize,
}

/// The journaled plan is exactly `plan`: the same ten fields with the same
/// values, nothing truncated, and nothing else.
pub open spec fn recorded_plan_matches_of(plan: PlayableRecoveryPlan, recorded: RecordedRecoveryPlan) -> bool {
    &&& recorded.field_count == 10
    &&& text_view(recorded.source_id) == Some(plan.source_id@)
    &&& text_view(recorded.track_id) == Some(plan.track_id@)
    &&& text_view(recorded.segment_id) == Some(plan.segment_id@)
    &&& text_view(recorded.relative_path) == Some(plan.relative_path@)
    &&& recorded.sample_count == Some(plan.sample_count)
    &&& recorded.final_byte_length == Some(plan.final_byte_length)
    &&& text_view(recorded.digest_sha256) == Some(plan.digest_sha256@)
    &&& recorded.file_device == Some(plan.file_device)
    &&& recorded.file_inode == Some(plan.file_inode)
    &&& recorded.truncated_bytes == Some(0u64)
}

fn text_is(field: &Option<String>, expected: &String) -> (same: bool)
    ensures
        same == (text_view(*field) == Some(expected@)),
{
    match field {
        Some(value) => str_equal(value.as_str(), expected.as_str()),
        None => false,
    }
}

/// Whether a plan already journaled for a segment is the plan recovery would journal now.
pub fn recorded_plan_matches(plan: &PlayableRecoveryPlan, recorded: &RecordedRecoveryPlan) -> (same: bool)
    ensures
        same == recorded_plan_matches_of(*plan, *recorded),
{
    recorded.field_count == 10 && text_is(&recorded.source_id, &plan.source_id) && text_is(
        &recorded.track_id,
        &plan.track_id,
    ) && text_is(&recorded.segment_id, &plan.segment_id) && text_is(&recorded.relative_path, &plan.relative_path)
        && recorded.sample_count == Some(plan.sample_count) && recorded.final_byte_length == Some(
        plan.final_byte_length,
    ) && text_is(&recorded.digest_sha256, &plan.digest_sha256) && recorded.file_device == Some(plan.file_device)
        && recorded.file_inode == Some(plan.file_inode) && recorded.truncated_bytes == Some(0u64)
}

/// A session is promoted whole or not at all: every candidate's plan, in
/// order, when each was promotable; nothing otherwise.
pub fn session_recovery_plans(outcomes: Vec<Option<PlayableRecoveryPlan>>) -> (plans: Vec<PlayableRecoveryPlan>)
    ensures
        (forall|i: int| 0 <= i < outcomes@.len() ==> (#[trigger] outcomes@[i]) is Some) ==> {
            &&& plans@.len() == outcomes@.len()
            &&& forall|i: int| 0 <= i < plans@.len() ==> Some(#[trigger] plans@[i]) == outcomes@[i]
        },
        (exists|i: int| 0 <= i < outcomes@.len() && (#[trigger] outcomes@[i]) is None) ==> plans@.len() == 0,
{
    let ghost initial = outcomes@;
    let mut plans: Vec<PlayableRecoveryPlan> = Vec::new();
    let mut rest = outcomes;
    let count = rest.len();
    let mut index: usize = 0;
    while index < count
        invariant
            initial == outcomes@,
            count == initial.len(),
            rest@ == initial.skip(index as int),
            index <= count,
            plans@.len() == index,
            forall|i: int| 0 <= i < index ==> (#[trigger] initial[i]) is Some && Some(plans@[i]) == initial[i],
        decreases count - index,
    {
        let next = rest.remove(0);
        proof {
            assert(initial.skip(index as int)[0] == initial[index as int]);
            assert(initial.skip(index as int).remove(0) == initial.skip(index + 1));
        }
        match next {
            Some(plan) => {
                plans.push(plan);
            },
            None => {
                assert(initial[index as int] is None);
                return Vec::new();
            },
        }
        index = index + 1;
    }
    plans
}

// ---------------------------------------------------------------------------
// Reviewable sessions.

/// The projection of one sealed segment of a recovered session.
pub struct RecoveredSegmentRow {
    pub session_id: String,
    pub segment_id: String,
    pub relative_path: String,
    pub sample_count: u64,
    pub byte_length: u64,
    pub digest_sha256: String,
    pub file_device: u64,
    pub file_inode: u64,
    pub last_journal_sequence: u64,
}

pub open spec fn saturated_product(a: nat, b: nat) -> nat {
    if a * b > u64::MAX {
        u64::MAX as nat
    } else {
        a * b
    }
}

/// How long `sample_count` samples play at the writer's sample rate, in
/// nanoseconds (the sample total saturates at the largest representable value).
pub open spec fn duration_of(sample_count: u64) -> nat {
    saturated_product(sample_count as nat, 1_000_000_000) / (MEDIA_SAMPLE_RATE_HZ as nat)
}

pub fn playback_duration_nanoseconds(sample_count: u64) -> (duration: u64)
    ensures
        duration == duration_of(sample_count),
{
    let total = if sample_count > 18_446_744_073 {
        assert(sample_count * 1_000_000_000 > u64::MAX) by (nonlinear_arith)
            requires
                sample_count > 18_446_744_073,
        ;
        u64::MAX
    } else {
        assert(sample_count * 1_000_000_000 <= u64::MAX) by (nonlinear_arith)
            requires
                sample_count <= 18_446_744_073,
        ;
        sample_count * 1_000_000_000
    };
    total / 48_000
}

/// Whether `file` is still exactly the media the recovery accepted for `row`.
pub open spec fn still_accepted(row: RecoveredSegmentRow, file: ValidatedMediaFile) -> bool {
    &&& file.device == row.file_device
    &&& file.inode == row.file_inode
    &&& file.recoverable_sample_count == Some(row.sample_count)
    &&& match file.digest_sha256 {
        Some(digest) => digest@ == row.digest_sha256@,
        None => false,
    }
}

/// The reviewable session of a recovered segment, refused when its media
/// changed after acceptance; `absolute_path` is where its file lies.
pub fn recovered_session(row: RecoveredSegmentRow, file: &ValidatedMediaFile, absolute_path: String) -> (session:
    Result<RecoveredPlayableSession, StoreError>)
    ensures
        match session {
            Ok(found) => {
                &&& still_accepted(row, *file)
                &&& found.session_id == SessionId(row.session_id)
                &&& found.segment_id == row.segment_id
                &&& found.relative_path == row.relative_path
                &&& found.absolute_path == absolute_path
                &&& found.sample_count == row.sample_count
                &&& found.duration_nanoseconds == duration_of(row.sample_count)
                &&& found.byte_length == row.byte_length
                &&& found.digest_sha256 == row.digest_sha256
                &&& found.media_preserved
                &&& found.ready_for_review
                &&& !found.recording_started
                &&& found.last_journal_sequence == row.last_journal_sequence
            },
            Err(error) => !still_accepted(row, *file) && error == StoreError::IntegrityMismatch(
                "recovered playable media changed after acceptance",
            ),
        },
{
    let digest_matches = match &file.digest_sha256 {
        Some(digest) => str_equal(digest.as_str(), row.digest_sha256.as_str()),
        None => false,
    };
    if file.device != row.file_device || file.inode != row.file_inode || file.recoverable_sample_count != Some(
        row.sample_count,
    ) || !digest_matches {
        return Err(StoreError::IntegrityMismatch("recovered playable media changed after acceptance"));
    }
    let duration_nanoseconds = playback_duration_nanoseconds(row.sample_count);
    Ok(
        RecoveredPlayableSession {
            session_id: SessionId(row.session_id),
            segment_id: row.segment_id,
            relative_path: row.relative_path,
            absolute_path,
            sample_count: row.sample_count,
            duration_nanoseconds,
            byte_length: row.byte_length,
            digest_sha256: row.digest_sha256,
            media_preserved: true,
            ready_for_review: true,
            recording_started: false,
            last_journal_sequence: row.last_journal_sequence,
        },
    )
}


/// An interrupted session found again at restart keeps the phase its journal
/// reached: a single, final interruption record with a known reason, on a
/// session the projection already shows as interrupted, turns a prepared
/// finding into InterruptedPrepared, a media-open finding into
/// InterruptedMediaOpen, a first-sample finding into InterruptedFirstSample,
/// and a sealed finding into InterruptedSegmentSealed; so findings of two
/// different phases never become the same interrupted finding.
pub proof fn lemma_interruption_keeps_phase(
    interruptions: Seq<InterruptionRecord>,
    record_count: u64,
    reason: SessionInterruptionReason,
    base: RecoveryDisposition,
)
    requires
        interruptions.len() == 1,
        interruptions[0].sequence == record_count,
        interruptions[0].reason matches Some(text) && text@ == reason_name(reason),
    ensures
        (base == RecoveryDisposition::Prepared || base == RecoveryDisposition::ProjectionRepaired) ==> reconciliation_of(
            interruptions,
            record_count,
            "interrupted"@,
            base,
        ) == Ok::<RecoveryStep, StoreError>(RecoveryStep::Done(RecoveryDisposition::InterruptedPrepared)),
        (base == RecoveryDisposition::MediaOpenPrepared || base == RecoveryDisposition::MediaOpenProjectionRepaired
            || base == RecoveryDisposition::MediaOpenAwaitingReceipt) ==> reconciliation_of(
            interruptions,
            record_count,
            "interrupted"@,
            base,
        ) == Ok::<RecoveryStep, StoreError>(RecoveryStep::Done(RecoveryDisposition::InterruptedMediaOpen)),
        (base == RecoveryDisposition::FirstSamplePrepared || base == RecoveryDisposition::FirstSampleProjectionRepaired)
            ==> reconciliation_of(interruptions, record_count, "interrupted"@, base) == Ok::<RecoveryStep, StoreError>(
            RecoveryStep::Done(RecoveryDisposition::InterruptedFirstSample),
        ),
        (base == RecoveryDisposition::SegmentSealedPrepared || base
            == RecoveryDisposition::SegmentSealProjectionRepaired) ==> reconciliation_of(
            interruptions,
            record_count,
            "interrupted"@,
            base,
        ) == Ok::<RecoveryStep, StoreError>(RecoveryStep::Done(RecoveryDisposition::InterruptedSegmentSealed)),
{
    reveal_strlit("interrupted");
    reveal_strlit("preparing");
    reveal_strlit("recording");
    assert("interrupted"@[0] != "preparing"@[0]);
    assert("interrupted"@[0] != "recording"@[0]);
    assert(reason_name(reason) == interruptions[0].reason->0@);
}

/// Interrupted findings of different phases are different: whatever two
/// interruption records and bases recovery meets, a first-sample base and a
/// media-open base, or a first-sample base and a sealed base, never give the
/// same finding.
pub proof fn lemma_interrupted_phases_distinct(
    interruptions: Seq<InterruptionRecord>,
    record_count: u64,
    reason: SessionInterruptionReason,
    first_sample_base: RecoveryDisposition,
    other_base: RecoveryDisposition,
)
    requires
        interruptions.len() == 1,
        interruptions[0].sequence == record_count,
        interruptions[0].reason matches Some(text) && text@ == reason_name(reason),
        first_sample_base == RecoveryDisposition::FirstSamplePrepared || first_sample_base
            == RecoveryDisposition::FirstSampleProjectionRepaired,
        other_base != RecoveryDisposition::FirstSamplePrepared,
        other_base != RecoveryDisposition::FirstSampleProjectionRepaired,
        other_base != RecoveryDisposition::InterruptedFirstSample,
    ensures
        reconciliation_of(interruptions, record_count, "interrupted"@, first_sample_base) != reconciliation_of(
            interruptions,
            record_count,
            "interrupted"@,
            other_base,
        ),
{
    lemma_interruption_keeps_phase(interruptions, record_count, reason, first_sample_base);
    lemma_interruption_keeps_phase(interruptions, record_count, reason, other_base);
}


/// Without an interruption record the finding is the journal's own; an
/// interruption that is repeated or is not the journal's last record is an
/// integrity mismatch; and a single, final interruption with a known reason
/// on a session the projection still shows as preparing or recording asks
/// for the projection to be repaired.
pub proof fn lemma_interruption_must_be_final(
    interruptions: Seq<InterruptionRecord>,
    record_count: u64,
    lifecycle: Seq<char>,
    reason: SessionInterruptionReason,
    base: RecoveryDisposition,
)
    ensures
        interruptions.len() == 0 ==> reconciliation_of(interruptions, record_count, lifecycle, base) == Ok::<
            RecoveryStep,
            StoreError,
        >(RecoveryStep::Done(base)),
        interruptions.len() > 1 ==> reconciliation_of(interruptions, record_count, lifecycle, base) == Ok::<
            RecoveryStep,
            StoreError,
        >(RecoveryStep::Done(RecoveryDisposition::IntegrityMismatch)),
        interruptions.len() == 1 && interruptions[0].sequence != record_count ==> reconciliation_of(
            interruptions,
            record_count,
            lifecycle,
            base,
        ) == Ok::<RecoveryStep, StoreError>(RecoveryStep::Done(RecoveryDisposition::IntegrityMismatch)),
        interruptions.len() == 1 && interruptions[0].sequence == record_count && interruptions[0].reason is Some
            && interruptions[0].reason->0@ == reason_name(reason) && (lifecycle == "preparing"@ || lifecycle
            == "recording"@) ==> reconciliation_of(interruptions, record_count, lifecycle, base) == Ok::<
            RecoveryStep,
            StoreError,
        >(RecoveryStep::Project),
{
    if interruptions.len() == 1 && interruptions[0].sequence == record_count && interruptions[0].reason is Some
        && interruptions[0].reason->0@ == reason_name(reason) {
        assert(reason_name(reason) == interruptions[0].reason->0@);
    }
}

} // verus!
