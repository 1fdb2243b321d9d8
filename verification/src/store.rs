//! Durable store vocabulary: requests, evidence, findings and errors.
use vstd::prelude::*;

use crate::text::str_equal;
use crate::types::SessionId;

verus! {

/// Schema version of the durable library.
pub const SCHEMA_VERSION: u32 = 3;

/// Version of every journal record this store writes and accepts.
pub const JOURNAL_VERSION: u32 = 1;

/// Longest title accepted, in bytes.
pub const MAX_TITLE_BYTES: usize = 512;

/// Longest source display name accepted, in bytes.
pub const MAX_DISPLAY_NAME_BYTES: usize = 512;

/// Longest encoded journal record accepted, in bytes.
pub const MAX_JOURNAL_RECORD_BYTES: usize = 16384;

/// The only media format the writer produces.
pub const MEDIA_FORMAT_CAF_PCM_S16LE: &'static str = "caf-pcm-s16le";

/// The only sample rate the writer produces.
pub const MEDIA_SAMPLE_RATE_HZ: u32 = 48_000;

/// Why a store operation was refused.
#[derive(Debug)]
pub enum StoreError {
    InvalidManagedRoot(&'static str),
    InvalidRequest(&'static str),
    InvalidState(&'static str),
    IntegrityMismatch(&'static str),
    /// A storage I/O failure, with its description.
    Io(String),
    /// A database failure, with its description.
    Sqlite(String),
    /// A journal encoding failure, with its description.
    Json(String),
    JournalRecordTooLarge,
    InjectedInterruption,
}

/// How a store error describes itself.
pub open spec fn store_error_text(error: StoreError) -> Seq<char> {
    match error {
        StoreError::InvalidManagedRoot(reason) => "invalid managed root: "@ + reason@,
        StoreError::InvalidRequest(reason) => "invalid request: "@ + reason@,
        StoreError::InvalidState(reason) => "invalid state: "@ + reason@,
        StoreError::IntegrityMismatch(reason) => "integrity mismatch: "@ + reason@,
        StoreError::Io(description) => "storage I/O failed: "@ + description@,
        StoreError::Sqlite(description) => "SQLite operation failed: "@ + description@,
        StoreError::Json(description) => "journal encoding failed: "@ + description@,
        StoreError::JournalRecordTooLarge => "journal record exceeds size bound"@,
        StoreError::InjectedInterruption => "injected preparation interruption"@,
    }
}

impl StoreError {
    /// The error's description, as the store reports it.
    pub fn to_string(&self) -> (text: String)
        ensures
            text@ == store_error_text(*self),
    {
        let (prefix, detail): (&str, &str) = match self {
            StoreError::InvalidManagedRoot(reason) => ("invalid managed root: ", *reason),
            StoreError::InvalidRequest(reason) => ("invalid request: ", *reason),
            StoreError::InvalidState(reason) => ("invalid state: ", *reason),
            StoreError::IntegrityMismatch(reason) => ("integrity mismatch: ", *reason),
            StoreError::Io(description) => ("storage I/O failed: ", description.as_str()),
            StoreError::Sqlite(description) => ("SQLite operation failed: ", description.as_str()),
            StoreError::Json(description) => ("journal encoding failed: ", description.as_str()),
            StoreError::JournalRecordTooLarge => ("journal record exceeds size bound", ""),
            StoreError::InjectedInterruption => ("injected preparation interruption", ""),
        };
        let mut text = String::from_str(prefix);
        text.append(detail);
        proof {
            reveal_strlit("");
        }
        text
    }
}

/// Origin is persisted independently from user-visible naming.
#[derive(Clone, Copy, Debug, Eq, PartialEq, Structural)]
pub enum SessionOrigin {
    Capture,
    Import,
}

pub open spec fn origin_name(origin: SessionOrigin) -> Seq<char> {
    match origin {
        SessionOrigin::Capture => "capture"@,
        SessionOrigin::Import => "import"@,
    }
}

impl SessionOrigin {
    /// The persisted name of the origin.
    pub fn as_str(self) -> (name: &'static str)
        ensures
            name@ == origin_name(self),
    {
        match self {
            SessionOrigin::Capture => "capture",
            SessionOrigin::Import => "import",
        }
    }
}

/// Request to create durable intent for one future session.
#[derive(Clone, Debug, Eq, PartialEq)]
pub struct PrepareSessionRequest {
    pub title: String,
    pub origin: SessionOrigin,
}

/// Coarse evidence returned after both the journal and the database projection agree.
#[derive(Clone, Debug, Eq, PartialEq)]
pub struct PreparedSessionReceipt {
    pub session_id: SessionId,
    pub schema_version: u32,
    pub journal_version: u32,
    pub last_journal_sequence: u64,
    pub journal_durable: bool,
    pub database_projected: bool,
    pub media_files_open: bool,
}

impl PreparedSessionReceipt {
    /// Preparation alone is deliberately insufficient to report Recording.
    #[must_use]
    pub fn permits_recording(&self) -> (permits: bool)
        ensures
            permits == (self.journal_durable && self.media_files_open),
    {
        self.journal_durable && self.media_files_open
    }
}

#[derive(Clone, Copy, Debug, Eq, PartialEq, Structural)]
pub enum MediaSourceKind {
    Microphone,
    ApplicationAudio,
    SystemAudio,
}

pub open spec fn source_kind_name(kind: MediaSourceKind) -> Seq<char> {
    match kind {
        MediaSourceKind::Microphone => "microphone"@,
        MediaSourceKind::ApplicationAudio => "application_audio"@,
        MediaSourceKind::SystemAudio => "system_audio"@,
    }
}

/// Whether `name` is the persisted name of some kind.
pub open spec fn is_kind_name(name: Seq<char>) -> bool {
    name == "microphone"@ || name == "application_audio"@ || name == "system_audio"@
}

/// Distinct kinds have distinct names, and the names are exactly the kind names.
pub proof fn lemma_kind_names()
    ensures
        forall|a: MediaSourceKind, b: MediaSourceKind| source_kind_name(a) == source_kind_name(b) ==> a == b,
        forall|k: MediaSourceKind| is_kind_name(#[trigger] source_kind_name(k)),
{
    reveal_strlit("microphone");
    reveal_strlit("application_audio");
    reveal_strlit("system_audio");
    assert("microphone"@[0] != "application_audio"@[0]);
    assert("microphone"@[0] != "system_audio"@[0]);
    assert("application_audio"@[0] != "system_audio"@[0]);
}

/// The order in which persisted kinds sort (their names sort the same way).
pub open spec fn source_kind_rank(kind: MediaSourceKind) -> int {
    match kind {
        MediaSourceKind::ApplicationAudio => 0,
        MediaSourceKind::Microphone => 1,
        MediaSourceKind::SystemAudio => 2,
    }
}

impl MediaSourceKind {
    /// The persisted name of the kind.
    pub fn as_str(self) -> (name: &'static str)
        ensures
            name@ == source_kind_name(self),
    {
        match self {
            MediaSourceKind::Microphone => "microphone",
            MediaSourceKind::ApplicationAudio => "application_audio",
            MediaSourceKind::SystemAudio => "system_audio",
        }
    }

    /// Parses a persisted kind name.
    pub fn from_str(value: &str) -> (kind: Result<MediaSourceKind, StoreError>)
        ensures
            match kind {
                Ok(k) => source_kind_name(k) == value@,
                Err(error) => {
                    &&& forall|k: MediaSourceKind| source_kind_name(k) != value@
                    &&& !is_kind_name(value@)
                    &&& error == StoreError::IntegrityMismatch("required media source kind is unsupported")
                },
            },
    {
        if str_equal(value, "microphone") {
            Ok(MediaSourceKind::Microphone)
        } else if str_equal(value, "application_audio") {
            Ok(MediaSourceKind::ApplicationAudio)
        } else if str_equal(value, "system_audio") {
            Ok(MediaSourceKind::SystemAudio)
        } else {
            proof {
                assert forall|k: MediaSourceKind| source_kind_name(k) != value@ by {
                    match k {
                        MediaSourceKind::Microphone => {},
                        MediaSourceKind::ApplicationAudio => {},
                        MediaSourceKind::SystemAudio => {},
                    }
                }
            }
            Err(StoreError::IntegrityMismatch("required media source kind is unsupported"))
        }
    }
}

/// Durable declaration of the sources that must become active before Recording.
#[derive(Clone, Debug, Eq, PartialEq)]
pub struct RequiredSourcePlanEvidence {
    pub session_id: SessionId,
    pub required_sources: Vec<MediaSourceKind>,
    pub journal_durable: bool,
    pub recording_started: bool,
    pub last_journal_sequence: u64,
}

/// Coarse authority returned only when every declared source is durably capturing.
#[derive(Clone, Debug, Eq, PartialEq)]
pub struct RecordingStartedEvidence {
    pub session_id: SessionId,
    pub required_sources: Vec<MediaSourceKind>,
    pub active_sources: Vec<MediaSourceKind>,
    pub journal_durable: bool,
    pub media_files_open: bool,
    pub recording_started: bool,
    pub last_journal_sequence: u64,
}

/// Request for one Rust-authorized initial source segment.
#[derive(Clone, Debug, Eq, PartialEq)]
pub struct AuthorizeMediaOpenRequest {
    pub session_id: SessionId,
    pub source_kind: MediaSourceKind,
    pub source_display_name: String,
}

/// Coarse path and format authority passed to the native writer.
#[derive(Clone, Debug, Eq, PartialEq)]
pub struct MediaOpenAuthorization {
    pub session_id: SessionId,
    pub source_id: String,
    pub track_id: String,
    pub segment_id: String,
    pub open_token: String,
    pub writer_generation: u64,
    pub relative_path: String,
    pub absolute_path: String,
    pub media_format: String,
    pub sample_rate_hz: u32,
    pub channels: u16,
    pub mapped_start_nanoseconds: i64,
}

/// Coarse writer evidence. Audio buffers and frame-rate values never enter Rust.
#[derive(Clone, Debug, Eq, PartialEq)]
pub struct MediaOpenReceipt {
    pub session_id: SessionId,
    pub track_id: String,
    pub segment_id: String,
    pub open_token: String,
    pub writer_generation: u64,
    pub relative_path: String,
    pub media_format: String,
    pub sample_rate_hz: u32,
    pub channels: u16,
    pub initial_byte_length: u64,
}

/// Rust-validated evidence. This is still not a Recording transition.
#[derive(Clone, Debug, Eq, PartialEq)]
pub struct MediaOpenEvidence {
    pub session_id: SessionId,
    pub segment_id: String,
    pub journal_durable: bool,
    pub media_files_open: bool,
    pub recording_started: bool,
    pub last_journal_sequence: u64,
}

/// Coarse evidence that the writer durably wrote its first valid capture buffer.
#[derive(Clone, Debug, Eq, PartialEq)]
pub struct FirstSampleReceipt {
    pub session_id: SessionId,
    pub track_id: String,
    pub segment_id: String,
    pub open_token: String,
    pub writer_generation: u64,
    pub relative_path: String,
    pub first_sample_host_time: u64,
    pub first_sample_frame_count: u64,
    pub observed_byte_length: u64,
}

/// Rust-validated first-sample evidence; it deliberately does not start Recording.
#[derive(Clone, Debug, Eq, PartialEq)]
pub struct FirstSampleEvidence {
    pub session_id: SessionId,
    pub segment_id: String,
    pub first_sample_session_nanoseconds: i64,
    pub journal_durable: bool,
    pub media_files_open: bool,
    pub first_sample_durable: bool,
    pub recording_started: bool,
    pub last_journal_sequence: u64,
}

/// Bounded, content-free reason for preserving a partial capture as interrupted.
#[derive(Clone, Copy, Debug, Eq, PartialEq, Structural)]
pub enum SessionInterruptionReason {
    CaptureStartFailed,
    CaptureFailed,
    FirstSampleRejected,
    StopWithoutDurableSample,
    SegmentSealFailed,
}

pub open spec fn reason_name(reason: SessionInterruptionReason) -> Seq<char> {
    match reason {
        SessionInterruptionReason::CaptureStartFailed => "capture_start_failed"@,
        SessionInterruptionReason::CaptureFailed => "capture_failed"@,
        SessionInterruptionReason::FirstSampleRejected => "first_sample_rejected"@,
        SessionInterruptionReason::StopWithoutDurableSample => "stop_without_durable_sample"@,
        SessionInterruptionReason::SegmentSealFailed => "segment_seal_failed"@,
    }
}

/// Distinct reasons have distinct names.
pub proof fn lemma_reason_names()
    ensures
        forall|a: SessionInterruptionReason, b: SessionInterruptionReason| reason_name(a) == reason_name(b) ==> a == b,
{
    reveal_strlit("capture_start_failed");
    reveal_strlit("capture_failed");
    reveal_strlit("first_sample_rejected");
    reveal_strlit("stop_without_durable_sample");
    reveal_strlit("segment_seal_failed");
    assert("capture_start_failed"@[8] != "capture_failed"@[8]);
    assert("capture_start_failed"@[0] != "first_sample_rejected"@[0]);
    assert("capture_start_failed"@[0] != "stop_without_durable_sample"@[0]);
    assert("capture_start_failed"@[0] != "segment_seal_failed"@[0]);
    assert("capture_failed"@[0] != "first_sample_rejected"@[0]);
    assert("capture_failed"@[0] != "stop_without_durable_sample"@[0]);
    assert("capture_failed"@[0] != "segment_seal_failed"@[0]);
    assert("first_sample_rejected"@[0] != "stop_without_durable_sample"@[0]);
    assert("first_sample_rejected"@[0] != "segment_seal_failed"@[0]);
    assert("stop_without_durable_sample"@[1] != "segment_seal_failed"@[1]);
}

impl SessionInterruptionReason {
    /// The persisted name of the reason.
    pub fn as_str(self) -> (name: &'static str)
        ensures
            name@ == reason_name(self),
    {
        match self {
            SessionInterruptionReason::CaptureStartFailed => "capture_start_failed",
            SessionInterruptionReason::CaptureFailed => "capture_failed",
            SessionInterruptionReason::FirstSampleRejected => "first_sample_rejected",
            SessionInterruptionReason::StopWithoutDurableSample => "stop_without_durable_sample",
            SessionInterruptionReason::SegmentSealFailed => "segment_seal_failed",
        }
    }

    /// Parses a persisted reason name.
    pub fn from_str(value: &str) -> (reason: Result<SessionInterruptionReason, StoreError>)
        ensures
            match reason {
                Ok(r) => reason_name(r) == value@,
                Err(error) => {
                    &&& forall|r: SessionInterruptionReason| reason_name(r) != value@
                    &&& error == StoreError::IntegrityMismatch("session interruption reason is unsupported")
                },
            },
    {
        if str_equal(value, "capture_start_failed") {
            Ok(SessionInterruptionReason::CaptureStartFailed)
        } else if str_equal(value, "capture_failed") {
            Ok(SessionInterruptionReason::CaptureFailed)
        } else if str_equal(value, "first_sample_rejected") {
            Ok(SessionInterruptionReason::FirstSampleRejected)
        } else if str_equal(value, "stop_without_durable_sample") {
            Ok(SessionInterruptionReason::StopWithoutDurableSample)
        } else if str_equal(value, "segment_seal_failed") {
            Ok(SessionInterruptionReason::SegmentSealFailed)
        } else {
            proof {
                assert forall|r: SessionInterruptionReason| reason_name(r) != value@ by {
                    match r {
                        SessionInterruptionReason::CaptureStartFailed => {},
                        SessionInterruptionReason::CaptureFailed => {},
                        SessionInterruptionReason::FirstSampleRejected => {},
                        SessionInterruptionReason::StopWithoutDurableSample => {},
                        SessionInterruptionReason::SegmentSealFailed => {},
                    }
                }
            }
            Err(StoreError::IntegrityMismatch("session interruption reason is unsupported"))
        }
    }
}

#[derive(Clone, Debug, Eq, PartialEq)]
pub struct InterruptSessionRequest {
    pub session_id: SessionId,
    pub reason: SessionInterruptionReason,
}

#[derive(Clone, Debug, Eq, PartialEq)]
pub struct SessionInterruptionEvidence {
    pub session_id: SessionId,
    pub reason: SessionInterruptionReason,
    pub journal_durable: bool,
    pub session_interrupted: bool,
    pub recording_started: bool,
    pub last_journal_sequence: u64,
}

/// Coarse, content-free result for one source segment made playable after restart.
#[derive(Clone, Debug, Eq, PartialEq)]
pub struct RecoveredPlayableSession {
    pub session_id: SessionId,
    pub segment_id: String,
    pub relative_path: String,
    pub absolute_path: String,
    pub sample_count: u64,
    pub duration_nanoseconds: u64,
    pub byte_length: u64,
    pub digest_sha256: String,
    pub media_preserved: bool,
    pub ready_for_review: bool,
    pub recording_started: bool,
    pub last_journal_sequence: u64,
}

/// Coarse evidence produced only after the writer has stopped and closed the segment.
#[derive(Clone, Debug, Eq, PartialEq)]
pub struct SealSegmentReceipt {
    pub session_id: SessionId,
    pub track_id: String,
    pub segment_id: String,
    pub open_token: String,
    pub writer_generation: u64,
    pub relative_path: String,
    pub final_sample_host_time: u64,
    pub sample_count: u64,
    pub final_byte_length: u64,
}

#[derive(Clone, Debug, Eq, PartialEq)]
pub struct SealedSegmentEvidence {
    pub session_id: SessionId,
    pub segment_id: String,
    pub sample_count: u64,
    pub final_byte_length: u64,
    pub digest_sha256: String,
    pub segment_sealed: bool,
    pub recording_started: bool,
    pub last_journal_sequence: u64,
}

/// Recovery result for one nonterminal database row or managed directory.
#[derive(Clone, Copy, Debug, Eq, PartialEq, Structural)]
pub enum RecoveryDisposition {
    Prepared,
    ProjectionRepaired,
    MediaOpenPrepared,
    MediaOpenProjectionRepaired,
    MediaOpenAwaitingReceipt,
    FirstSamplePrepared,
    FirstSampleProjectionRepaired,
    SegmentSealedPrepared,
    SegmentSealProjectionRepaired,
    InterruptedPrepared,
    InterruptedMediaOpen,
    InterruptedFirstSample,
    InterruptedSegmentSealed,
    InterruptionProjectionRepaired,
    PlayableMediaRecovered,
    MissingMediaFile,
    InvalidMediaFile,
    MissingDirectory,
    MissingJournal,
    TruncatedJournal,
    MalformedJournal,
    IntegrityMismatch,
    UnsupportedJournalVersion,
    OrphanDirectory,
}

#[derive(Clone, Debug, Eq, PartialEq)]
pub struct RecoveryFinding {
    pub session_id: SessionId,
    pub disposition: RecoveryDisposition,
}

} // verus!
