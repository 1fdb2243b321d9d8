//! The coarse native control boundary: plain records that cross to the
//! platform shell, and the mappings between them and the core's types.
//! Media bytes, sample buffers and capture callbacks never cross it.
use vstd::prelude::*;

use crate::controller::{
    fixture_snapshots, CoarseFirstSampleReceipt, CoarseMediaOpenReceipt, FixtureSessionController,
    RecordingPreparationController, CORE_VERSION,
};
use crate::domain::{
    announcement, announcement_of, fixture_at, fixture_state, presentation_of, snapshot_of, str_view, string_view,
    transition, transition_error, Command, Fixture, Presentation, SessionSnapshot, TimerBehavior, TransitionError,
};
use crate::store::{
    AuthorizeMediaOpenRequest, FirstSampleEvidence, MediaOpenAuthorization, MediaOpenEvidence, MediaSourceKind,
    PreparedSessionReceipt, StoreError,
};
use crate::types::{
    Lifecycle, PermissionState, RecoveryStatus, SessionHealth, SessionId, SessionRecord, SourceActivity, SourceHealth,
    SourceKind, SourceRecord,
};

verus! {

/// Non-media state used to prove the native boundary.
#[derive(Clone, Debug, Eq, PartialEq)]
pub struct NativeStatus {
    pub product_name: String,
    pub core_version: String,
    pub persistence: String,
    pub capture: String,
    pub intelligence: String,
}

/// The capability posture the native boundary reports: its own product name
/// and the core's version, durable preparation as the only persistence it
/// vouches for, and no capture or intelligence across it.
pub fn native_status() -> (status: NativeStatus)
    ensures
        status.product_name@ == "Open Scribe"@,
        status.core_version@ == CORE_VERSION@,
        status.persistence@ == "Durable preparation only"@,
        status.capture@ == "Not implemented"@,
        status.intelligence@ == "Not implemented"@,
{
    NativeStatus {
        product_name: String::from_str("Open Scribe"),
        core_version: String::from_str(CORE_VERSION),
        persistence: String::from_str("Durable preparation only"),
        capture: String::from_str("Not implemented"),
        intelligence: String::from_str("Not implemented"),
    }
}

#[derive(Clone, Copy, Debug, Eq, PartialEq, Structural)]
pub enum NativeMediaSourceKind {
    Microphone,
    ApplicationAudio,
    SystemAudio,
}

pub open spec fn media_kind_of(kind: NativeMediaSourceKind) -> MediaSourceKind {
    match kind {
        NativeMediaSourceKind::Microphone => MediaSourceKind::Microphone,
        NativeMediaSourceKind::ApplicationAudio => MediaSourceKind::ApplicationAudio,
        NativeMediaSourceKind::SystemAudio => MediaSourceKind::SystemAudio,
    }
}

pub fn map_media_source_kind(kind: NativeMediaSourceKind) -> (mapped: MediaSourceKind)
    ensures
        mapped == media_kind_of(kind),
{
    match kind {
        NativeMediaSourceKind::Microphone => MediaSourceKind::Microphone,
        NativeMediaSourceKind::ApplicationAudio => MediaSourceKind::ApplicationAudio,
        NativeMediaSourceKind::SystemAudio => MediaSourceKind::SystemAudio,
    }
}

#[derive(Clone, Debug, Eq, PartialEq)]
pub struct NativePreparedSession {
    pub session_id: String,
    pub schema_version: u32,
    pub journal_version: u32,
    pub last_journal_sequence: u64,
    pub journal_durable: bool,
    pub media_files_open: bool,
    pub recording_started: bool,
}

#[derive(Clone, Debug, Eq, PartialEq)]
pub struct NativeMediaOpenAuthorization {
    pub session_id: String,
    pub source_id: String,
    pub track_id: String,
    pub segment_id: String,
    pub open_token: String,
    pub writer_generation: u64,
    pub relative_path: String,
    pub absolute_path: String,
    pub mapped_start_nanoseconds: i64,
}

#[derive(Clone, Debug, Eq, PartialEq)]
pub struct NativeMediaOpenReceipt {
    pub session_id: String,
    pub track_id: String,
    pub segment_id: String,
    pub open_token: String,
    pub writer_generation: u64,
    pub relative_path: String,
    pub initial_byte_length: u64,
}

#[derive(Clone, Debug, Eq, PartialEq)]
pub struct NativeMediaOpenEvidence {
    pub session_id: String,
    pub segment_id: String,
    pub journal_durable: bool,
    pub media_files_open: bool,
    pub recording_started: bool,
    pub last_journal_sequence: u64,
}

#[derive(Clone, Debug, Eq, PartialEq)]
pub struct NativeFirstSampleReceipt {
    pub session_id: String,
    pub track_id: String,
    pub segment_id: String,
    pub open_token: String,
    pub writer_generation: u64,
    pub relative_path: String,
    pub first_sample_host_time: u64,
    pub first_sample_frame_count: u64,
    pub observed_byte_length: u64,
}

#[derive(Clone, Debug, Eq, PartialEq)]
pub struct NativeFirstSampleEvidence {
    pub session_id: String,
    pub segment_id: String,
    pub first_sample_session_nanoseconds: i64,
    pub journal_durable: bool,
    pub media_files_open: bool,
    pub first_sample_durable: bool,
    pub recording_started: bool,
    pub last_journal_sequence: u64,
}

#[derive(Clone, Copy, Debug, Eq, PartialEq, Structural)]
pub enum NativeStorageError {
    InvalidManagedRoot,
    InvalidRequest,
    InvalidState,
    IntegrityMismatch,
    StorageFailure,
}

pub open spec fn storage_error_of(error: StoreError) -> NativeStorageError {
    match error {
        StoreError::InvalidManagedRoot(_) => NativeStorageError::InvalidManagedRoot,
        StoreError::InvalidRequest(_) => NativeStorageError::InvalidRequest,
        StoreError::InvalidState(_) => NativeStorageError::InvalidState,
        StoreError::IntegrityMismatch(_) => NativeStorageError::IntegrityMismatch,
        _ => NativeStorageError::StorageFailure,
    }
}

/// Collapses a store error into its coarse native class.
pub fn map_storage_error(error: StoreError) -> (mapped: NativeStorageError)
    ensures
        mapped == storage_error_of(error),
{
    match error {
        StoreError::InvalidManagedRoot(_) => NativeStorageError::InvalidManagedRoot,
        StoreError::InvalidRequest(_) => NativeStorageError::InvalidRequest,
        StoreError::InvalidState(_) => NativeStorageError::InvalidState,
        StoreError::IntegrityMismatch(_) => NativeStorageError::IntegrityMismatch,
        StoreError::Io(_) | StoreError::Sqlite(_) | StoreError::Json(_) | StoreError::JournalRecordTooLarge
        | StoreError::InjectedInterruption => NativeStorageError::StorageFailure,
    }
}

impl NativeStorageError {
    /// The user-facing description of the error.
    pub fn message(&self) -> (text: &'static str)
        ensures
            text@ == match *self {
                NativeStorageError::InvalidManagedRoot => "The storage root is invalid."@,
                NativeStorageError::InvalidRequest => "The preparation request is invalid."@,
                NativeStorageError::InvalidState => "The durable session is not in the required preparation state."@,
                NativeStorageError::IntegrityMismatch => "Media or journal evidence does not match Rust authority."@,
                NativeStorageError::StorageFailure => "The durable storage operation failed."@,
            },
    {
        match self {
            NativeStorageError::InvalidManagedRoot => "The storage root is invalid.",
            NativeStorageError::InvalidRequest => "The preparation request is invalid.",
            NativeStorageError::InvalidState => "The durable session is not in the required preparation state.",
            NativeStorageError::IntegrityMismatch => "Media or journal evidence does not match Rust authority.",
            NativeStorageError::StorageFailure => "The durable storage operation failed.",
        }
    }
}

/// The native face of the preparation authority.
pub struct NativeRecordingPreparation {
    controller: RecordingPreparationController,
}

impl NativeRecordingPreparation {
    /// Opens the authority over `managed_root`; an empty root is refused.
    pub fn open(managed_root: String) -> (preparation: Result<Self, NativeStorageError>)
        ensures
            match preparation {
                Ok(found) => managed_root@.len() > 0 && found.authority().root() == managed_root@,
                Err(error) => managed_root@.len() == 0 && error == NativeStorageError::InvalidManagedRoot,
            },
    {
        match RecordingPreparationController::open(managed_root) {
            Ok(controller) => Ok(NativeRecordingPreparation { controller }),
            Err(error) => Err(map_storage_error(error)),
        }
    }

    /// The preparation authority behind the native face.
    pub closed spec fn authority(&self) -> RecordingPreparationController {
        self.controller
    }

    pub fn controller(&self) -> (controller: &RecordingPreparationController)
        ensures
            *controller == self.authority(),
    {
        &self.controller
    }

    /// The native answer to a preparation: the store's receipt, or its error's class.
    pub fn prepare_session(&self, prepared: Result<PreparedSessionReceipt, StoreError>) -> (answer: Result<
        NativePreparedSession,
        NativeStorageError,
    >)
        ensures
            match prepared {
                Ok(receipt) => answer matches Ok(native) && {
                    &&& native.session_id == receipt.session_id.0
                    &&& native.schema_version == receipt.schema_version
                    &&& native.journal_version == receipt.journal_version
                    &&& native.last_journal_sequence == receipt.last_journal_sequence
                    &&& native.journal_durable == receipt.journal_durable
                    &&& native.media_files_open == receipt.media_files_open
                    &&& !native.recording_started
                },
                Err(error) => answer == Err::<NativePreparedSession, NativeStorageError>(storage_error_of(error)),
            },
    {
        match prepared {
            Ok(receipt) => Ok(
                NativePreparedSession {
                    session_id: receipt.session_id.0,
                    schema_version: receipt.schema_version,
                    journal_version: receipt.journal_version,
                    last_journal_sequence: receipt.last_journal_sequence,
                    journal_durable: receipt.journal_durable,
                    media_files_open: receipt.media_files_open,
                    recording_started: false,
                },
            ),
            Err(error) => Err(map_storage_error(error)),
        }
    }

    /// The store request for the first segment of a source.
    pub fn authorize_initial_media(
        &self,
        session_id: String,
        source_kind: NativeMediaSourceKind,
        source_display_name: String,
    ) -> (request: AuthorizeMediaOpenRequest)
        ensures
            request.session_id == SessionId(session_id),
            request.source_kind == media_kind_of(source_kind),
            request.source_display_name == source_display_name,
    {
        AuthorizeMediaOpenRequest {
            session_id: SessionId(session_id),
            source_kind: map_media_source_kind(source_kind),
            source_display_name,
        }
    }

    /// The core receipt for a native media-open receipt.
    pub fn accept_media_open(&self, receipt: NativeMediaOpenReceipt) -> (coarse: CoarseMediaOpenReceipt)
        ensures
            coarse.session_id == SessionId(receipt.session_id),
            coarse.track_id == receipt.track_id,
            coarse.segment_id == receipt.segment_id,
            coarse.open_token == receipt.open_token,
            coarse.writer_generation == receipt.writer_generation,
            coarse.relative_path == receipt.relative_path,
            coarse.initial_byte_length == receipt.initial_byte_length,
    {
        CoarseMediaOpenReceipt {
            session_id: SessionId(receipt.session_id),
            track_id: receipt.track_id,
            segment_id: receipt.segment_id,
            open_token: receipt.open_token,
            writer_generation: receipt.writer_generation,
            relative_path: receipt.relative_path,
            initial_byte_length: receipt.initial_byte_length,
        }
    }

    /// The core receipt for a native first-sample receipt.
    pub fn accept_first_sample(&self, receipt: NativeFirstSampleReceipt) -> (coarse: CoarseFirstSampleReceipt)
        ensures
            coarse.session_id == SessionId(receipt.session_id),
            coarse.track_id == receipt.track_id,
            coarse.segment_id == receipt.segment_id,
            coarse.open_token == receipt.open_token,
            coarse.writer_generation == receipt.writer_generation,
            coarse.relative_path == receipt.relative_path,
            coarse.first_sample_host_time == receipt.first_sample_host_time,
            coarse.first_sample_frame_count == receipt.first_sample_frame_count,
            coarse.observed_byte_length == receipt.observed_byte_length,
    {
        CoarseFirstSampleReceipt {
            session_id: SessionId(receipt.session_id),
            track_id: receipt.track_id,
            segment_id: receipt.segment_id,
            open_token: receipt.open_token,
            writer_generation: receipt.writer_generation,
            relative_path: receipt.relative_path,
            first_sample_host_time: receipt.first_sample_host_time,
            first_sample_frame_count: receipt.first_sample_frame_count,
            observed_byte_length: receipt.observed_byte_length,
        }
    }
}

/// The native face of a media authorization.
pub fn native_media_open_authorization(authorization: MediaOpenAuthorization) -> (native: NativeMediaOpenAuthorization)
    ensures
        native.session_id == authorization.session_id.0,
        native.source_id == authorization.source_id,
        native.track_id == authorization.track_id,
        native.segment_id == authorization.segment_id,
        native.open_token == authorization.open_token,
        native.writer_generation == authorization.writer_generation,
        native.relative_path == authorization.relative_path,
        native.absolute_path == authorization.absolute_path,
        native.mapped_start_nanoseconds == authorization.mapped_start_nanoseconds,
{
    NativeMediaOpenAuthorization {
        session_id: authorization.session_id.0,
        source_id: authorization.source_id,
        track_id: authorization.track_id,
        segment_id: authorization.segment_id,
        open_token: authorization.open_token,
        writer_generation: authorization.writer_generation,
        relative_path: authorization.relative_path,
        absolute_path: authorization.absolute_path,
        mapped_start_nanoseconds: authorization.mapped_start_nanoseconds,
    }
}

/// The native face of media-open evidence.
pub fn native_media_open_evidence(evidence: MediaOpenEvidence) -> (native: NativeMediaOpenEvidence)
    ensures
        native.session_id == evidence.session_id.0,
        native.segment_id == evidence.segment_id,
        native.journal_durable == evidence.journal_durable,
        native.media_files_open == evidence.media_files_open,
        native.recording_started == evidence.recording_started,
        native.last_journal_sequence == evidence.last_journal_sequence,
{
    NativeMediaOpenEvidence {
        session_id: evidence.session_id.0,
        segment_id: evidence.segment_id,
        journal_durable: evidence.journal_durable,
        media_files_open: evidence.media_files_open,
        recording_started: evidence.recording_started,
        last_journal_sequence: evidence.last_journal_sequence,
    }
}

/// The native face of first-sample evidence.
pub fn native_first_sample_evidence(evidence: FirstSampleEvidence) -> (native: NativeFirstSampleEvidence)
    ensures
        native.session_id == evidence.session_id.0,
        native.segment_id == evidence.segment_id,
        native.first_sample_session_nanoseconds == evidence.first_sample_session_nanoseconds,
        native.journal_durable == evidence.journal_durable,
        native.media_files_open == evidence.media_files_open,
        native.first_sample_durable == evidence.first_sample_durable,
        native.recording_started == evidence.recording_started,
        native.last_journal_sequence == evidence.last_journal_sequence,
{
    NativeFirstSampleEvidence {
        session_id: evidence.session_id.0,
        segment_id: evidence.segment_id,
        first_sample_session_nanoseconds: evidence.first_sample_session_nanoseconds,
        journal_durable: evidence.journal_durable,
        media_files_open: evidence.media_files_open,
        first_sample_durable: evidence.first_sample_durable,
        recording_started: evidence.recording_started,
        last_journal_sequence: evidence.last_journal_sequence,
    }
}


// ---------------------------------------------------------------------------
// Fixture sessions across the native boundary.

#[derive(Clone, Copy, Debug, Eq, PartialEq, Structural)]
pub enum NativeFixture {
    Idle,
    Ready,
    Starting,
    Recording,
    Paused,
    Finalizing,
    RecordingDegraded,
    PermissionRevoked,
    RecoveryRequired,
    Complete,
}

pub open spec fn fixture_of(fixture: NativeFixture) -> Fixture {
    match fixture {
        NativeFixture::Idle => Fixture::Idle,
        NativeFixture::Ready => Fixture::Ready,
        NativeFixture::Starting => Fixture::Starting,
        NativeFixture::Recording => Fixture::Recording,
        NativeFixture::Paused => Fixture::Paused,
        NativeFixture::Finalizing => Fixture::Finalizing,
        NativeFixture::RecordingDegraded => Fixture::RecordingDegraded,
        NativeFixture::PermissionRevoked => Fixture::PermissionRevoked,
        NativeFixture::RecoveryRequired => Fixture::RecoveryRequired,
        NativeFixture::Complete => Fixture::Complete,
    }
}

pub fn map_fixture(fixture: NativeFixture) -> (mapped: Fixture)
    ensures
        mapped == fixture_of(fixture),
{
    match fixture {
        NativeFixture::Idle => Fixture::Idle,
        NativeFixture::Ready => Fixture::Ready,
        NativeFixture::Starting => Fixture::Starting,
        NativeFixture::Recording => Fixture::Recording,
        NativeFixture::Paused => Fixture::Paused,
        NativeFixture::Finalizing => Fixture::Finalizing,
        NativeFixture::RecordingDegraded => Fixture::RecordingDegraded,
        NativeFixture::PermissionRevoked => Fixture::PermissionRevoked,
        NativeFixture::RecoveryRequired => Fixture::RecoveryRequired,
        NativeFixture::Complete => Fixture::Complete,
    }
}

#[derive(Clone, Copy, Debug, Eq, PartialEq, Structural)]
pub enum NativeCommandKind {
    Prepare,
    RequestStart,
    CancelStart,
    ConfirmRecording,
    Pause,
    Resume,
    BeginFinalizing,
    Complete,
    Interrupt,
    AdvanceTimer,
}

/// A command as the platform shell sends it: a kind and the evidence that some kinds carry.
#[derive(Clone, Copy, Debug, Eq, PartialEq, Structural)]
pub struct NativeCommand {
    pub kind: NativeCommandKind,
    pub journal_durable: bool,
    pub media_files_open: bool,
    pub media_safe: bool,
    pub elapsed_seconds: u64,
}

pub open spec fn command_of(command: NativeCommand) -> Command {
    match command.kind {
        NativeCommandKind::Prepare => Command::Prepare,
        NativeCommandKind::RequestStart => Command::RequestStart,
        NativeCommandKind::CancelStart => Command::CancelStart,
        NativeCommandKind::ConfirmRecording => Command::ConfirmRecording {
            journal_durable: command.journal_durable,
            media_files_open: command.media_files_open,
        },
        NativeCommandKind::Pause => Command::Pause,
        NativeCommandKind::Resume => Command::Resume,
        NativeCommandKind::BeginFinalizing => Command::BeginFinalizing { media_safe: command.media_safe },
        NativeCommandKind::Complete => Command::Complete,
        NativeCommandKind::Interrupt => Command::Interrupt,
        NativeCommandKind::AdvanceTimer => Command::AdvanceTimer(command.elapsed_seconds),
    }
}

pub fn map_command(command: NativeCommand) -> (mapped: Command)
    ensures
        mapped == command_of(command),
{
    match command.kind {
        NativeCommandKind::Prepare => Command::Prepare,
        NativeCommandKind::RequestStart => Command::RequestStart,
        NativeCommandKind::CancelStart => Command::CancelStart,
        NativeCommandKind::ConfirmRecording => Command::ConfirmRecording {
            journal_durable: command.journal_durable,
            media_files_open: command.media_files_open,
        },
        NativeCommandKind::Pause => Command::Pause,
        NativeCommandKind::Resume => Command::Resume,
        NativeCommandKind::BeginFinalizing => Command::BeginFinalizing { media_safe: command.media_safe },
        NativeCommandKind::Complete => Command::Complete,
        NativeCommandKind::Interrupt => Command::Interrupt,
        NativeCommandKind::AdvanceTimer => Command::AdvanceTimer(command.elapsed_seconds),
    }
}

#[derive(Clone, Debug, Eq, PartialEq)]
pub struct NativeSourceSnapshot {
    pub id: String,
    pub name: String,
    pub kind: String,
    pub activity: String,
    pub health: String,
    pub health_detail: Option<String>,
    pub permission: String,
    pub permission_recovery_hint: Option<String>,
}

#[derive(Clone, Debug, Eq, PartialEq)]
pub struct NativeSessionSnapshot {
    pub fixture: String,
    pub session_id: String,
    pub title: String,
    pub lifecycle: String,
    pub presentation: String,
    pub health: String,
    pub elapsed_seconds: u64,
    pub timer_behavior: String,
    pub timer_text: Option<String>,
    pub label: String,
    pub primary_symbol: Option<String>,
    pub fallback_symbol: Option<String>,
    pub accessibility_value: String,
    pub announcement: Option<String>,
    pub journal_durable: bool,
    pub media_files_open: bool,
    pub media_safe: bool,
    pub recovery_status: String,
    pub recovery_summary: Option<String>,
    pub sources: Vec<NativeSourceSnapshot>,
}

#[derive(Clone, Copy, Debug, Eq, PartialEq, Structural)]
pub enum NativeSessionError {
    IllegalTransition,
    DurabilityEvidenceMissing,
    MediaNotSafe,
}

pub open spec fn session_error_code(error: NativeSessionError) -> Seq<char> {
    match error {
        NativeSessionError::IllegalTransition => "illegal_transition"@,
        NativeSessionError::DurabilityEvidenceMissing => "durability_evidence_missing"@,
        NativeSessionError::MediaNotSafe => "media_not_safe"@,
    }
}

impl NativeSessionError {
    /// The stable code the platform shell matches on.
    #[must_use]
    pub fn code(&self) -> (code: &'static str)
        ensures
            code@ == session_error_code(*self),
    {
        match self {
            NativeSessionError::IllegalTransition => "illegal_transition",
            NativeSessionError::DurabilityEvidenceMissing => "durability_evidence_missing",
            NativeSessionError::MediaNotSafe => "media_not_safe",
        }
    }

    /// The user-facing description of the error.
    pub fn message(&self) -> (text: &'static str)
        ensures
            text@ == match *self {
                NativeSessionError::IllegalTransition =>
                    "The command is illegal for the current durable lifecycle and conditions."@,
                NativeSessionError::DurabilityEvidenceMissing =>
                    "Recording requires durable journal and open-media evidence."@,
                NativeSessionError::MediaNotSafe => "Finalization requires evidence that media is safe."@,
            },
    {
        match self {
            NativeSessionError::IllegalTransition =>
                "The command is illegal for the current durable lifecycle and conditions.",
            NativeSessionError::DurabilityEvidenceMissing =>
                "Recording requires durable journal and open-media evidence.",
            NativeSessionError::MediaNotSafe => "Finalization requires evidence that media is safe.",
        }
    }
}

pub open spec fn session_error_of(error: TransitionError) -> NativeSessionError {
    match error {
        TransitionError::IllegalTransition => NativeSessionError::IllegalTransition,
        TransitionError::DurabilityEvidenceMissing => NativeSessionError::DurabilityEvidenceMissing,
        TransitionError::MediaNotSafe => NativeSessionError::MediaNotSafe,
    }
}

pub fn map_transition_error(error: TransitionError) -> (mapped: NativeSessionError)
    ensures
        mapped == session_error_of(error),
{
    match error {
        TransitionError::IllegalTransition => NativeSessionError::IllegalTransition,
        TransitionError::DurabilityEvidenceMissing => NativeSessionError::DurabilityEvidenceMissing,
        TransitionError::MediaNotSafe => NativeSessionError::MediaNotSafe,
    }
}

// Stable lower-case names of the core's states.

pub open spec fn lifecycle_text(lifecycle: Lifecycle) -> Seq<char> {
    match lifecycle {
        Lifecycle::Idle => "idle"@,
        Lifecycle::Ready => "ready"@,
        Lifecycle::Recording => "recording"@,
        Lifecycle::Paused => "paused"@,
        Lifecycle::Finalizing => "finalizing"@,
        Lifecycle::ReadyForReview => "ready_for_review"@,
        Lifecycle::Interrupted => "interrupted"@,
    }
}

pub fn lifecycle_name(lifecycle: Lifecycle) -> (name: &'static str)
    ensures
        name@ == lifecycle_text(lifecycle),
{
    match lifecycle {
        Lifecycle::Idle => "idle",
        Lifecycle::Ready => "ready",
        Lifecycle::Recording => "recording",
        Lifecycle::Paused => "paused",
        Lifecycle::Finalizing => "finalizing",
        Lifecycle::ReadyForReview => "ready_for_review",
        Lifecycle::Interrupted => "interrupted",
    }
}

pub open spec fn presentation_text(presentation: Presentation) -> Seq<char> {
    match presentation {
        Presentation::Idle => "idle"@,
        Presentation::Ready => "ready"@,
        Presentation::Starting => "starting"@,
        Presentation::Recording => "recording"@,
        Presentation::Paused => "paused"@,
        Presentation::Finalizing => "finalizing"@,
        Presentation::RecordingDegraded => "recording_degraded"@,
        Presentation::PermissionRevoked => "permission_revoked"@,
        Presentation::RecoveryRequired => "recovery_required"@,
        Presentation::Complete => "complete"@,
    }
}

pub fn presentation_name(presentation: Presentation) -> (name: &'static str)
    ensures
        name@ == presentation_text(presentation),
{
    match presentation {
        Presentation::Idle => "idle",
        Presentation::Ready => "ready",
        Presentation::Starting => "starting",
        Presentation::Recording => "recording",
        Presentation::Paused => "paused",
        Presentation::Finalizing => "finalizing",
        Presentation::RecordingDegraded => "recording_degraded",
        Presentation::PermissionRevoked => "permission_revoked",
        Presentation::RecoveryRequired => "recovery_required",
        Presentation::Complete => "complete",
    }
}

pub open spec fn timer_text_of(timer: TimerBehavior) -> Seq<char> {
    match timer {
        TimerBehavior::Hidden => "hidden"@,
        TimerBehavior::Advancing => "advancing"@,
        TimerBehavior::Frozen => "frozen"@,
    }
}

pub fn timer_name(timer: TimerBehavior) -> (name: &'static str)
    ensures
        name@ == timer_text_of(timer),
{
    match timer {
        TimerBehavior::Hidden => "hidden",
        TimerBehavior::Advancing => "advancing",
        TimerBehavior::Frozen => "frozen",
    }
}

pub open spec fn health_text(health: SessionHealth) -> Seq<char> {
    match health {
        SessionHealth::Healthy => "healthy"@,
        SessionHealth::Degraded => "degraded"@,
    }
}

pub fn health_name(health: SessionHealth) -> (name: &'static str)
    ensures
        name@ == health_text(health),
{
    match health {
        SessionHealth::Healthy => "healthy",
        SessionHealth::Degraded => "degraded",
    }
}

pub open spec fn recovery_text(status: RecoveryStatus) -> Seq<char> {
    match status {
        RecoveryStatus::NotRequired => "not_required"@,
        RecoveryStatus::Required => "required"@,
        RecoveryStatus::Deferred => "deferred"@,
        RecoveryStatus::Recovered => "recovered"@,
    }
}

pub fn recovery_name(status: RecoveryStatus) -> (name: &'static str)
    ensures
        name@ == recovery_text(status),
{
    match status {
        RecoveryStatus::NotRequired => "not_required",
        RecoveryStatus::Required => "required",
        RecoveryStatus::Deferred => "deferred",
        RecoveryStatus::Recovered => "recovered",
    }
}

pub open spec fn source_kind_text(kind: SourceKind) -> Seq<char> {
    match kind {
        SourceKind::Microphone => "microphone"@,
        SourceKind::ApplicationAudio => "application_audio"@,
        SourceKind::SystemAudio => "system_audio"@,
    }
}

pub fn source_kind_name(kind: SourceKind) -> (name: &'static str)
    ensures
        name@ == source_kind_text(kind),
{
    match kind {
        SourceKind::Microphone => "microphone",
        SourceKind::ApplicationAudio => "application_audio",
        SourceKind::SystemAudio => "system_audio",
    }
}

pub open spec fn source_activity_text(activity: SourceActivity) -> Seq<char> {
    match activity {
        SourceActivity::Selected => "selected"@,
        SourceActivity::Active => "active"@,
        SourceActivity::Paused => "paused"@,
        SourceActivity::Failed => "failed"@,
    }
}

pub fn source_activity_name(activity: SourceActivity) -> (name: &'static str)
    ensures
        name@ == source_activity_text(activity),
{
    match activity {
        SourceActivity::Selected => "selected",
        SourceActivity::Active => "active",
        SourceActivity::Paused => "paused",
        SourceActivity::Failed => "failed",
    }
}

pub open spec fn source_health_text(health: SourceHealth) -> Seq<char> {
    match health {
        SourceHealth::Healthy => "healthy"@,
        SourceHealth::Failed => "failed"@,
    }
}

pub fn source_health_name(health: SourceHealth) -> (name: &'static str)
    ensures
        name@ == source_health_text(health),
{
    match health {
        SourceHealth::Healthy => "healthy",
        SourceHealth::Failed => "failed",
    }
}

pub open spec fn permission_text(permission: PermissionState) -> Seq<char> {
    match permission {
        PermissionState::NotRequested => "not_requested"@,
        PermissionState::Granted => "granted"@,
        PermissionState::Denied => "denied"@,
        PermissionState::Revoked => "revoked"@,
        PermissionState::Restricted => "restricted"@,
    }
}

pub fn permission_name(permission: PermissionState) -> (name: &'static str)
    ensures
        name@ == permission_text(permission),
{
    match permission {
        PermissionState::NotRequested => "not_requested",
        PermissionState::Granted => "granted",
        PermissionState::Denied => "denied",
        PermissionState::Revoked => "revoked",
        PermissionState::Restricted => "restricted",
    }
}

/// What the native record of one source holds.
pub open spec fn native_source_of(native: NativeSourceSnapshot, source: SourceRecord) -> bool {
    &&& native.id@ == source.id.0@
    &&& native.name@ == source.name@
    &&& native.kind@ == source_kind_text(source.kind)
    &&& native.activity@ == source_activity_text(source.activity)
    &&& native.health@ == source_health_text(source.health)
    &&& string_view(native.health_detail) == string_view(source.health_detail)
    &&& native.permission@ == permission_text(source.permission.state)
    &&& string_view(native.permission_recovery_hint) == string_view(source.permission.recovery_hint)
}

/// What the native record of a snapshot holds, its announcement aside. The
/// `fixture` field names the presentation.
pub open spec fn native_snapshot_of(native: NativeSessionSnapshot, snapshot: SessionSnapshot) -> bool {
    let session = snapshot.session;
    &&& native.fixture@ == presentation_text(snapshot.presentation)
    &&& native.session_id@ == session.id.0@
    &&& native.title@ == session.title@
    &&& native.lifecycle@ == lifecycle_text(session.lifecycle)
    &&& native.presentation@ == presentation_text(snapshot.presentation)
    &&& native.health@ == health_text(session.health)
    &&& native.elapsed_seconds == session.elapsed_seconds
    &&& native.timer_behavior@ == timer_text_of(snapshot.timer)
    &&& string_view(native.timer_text) == string_view(snapshot.timer_text)
    &&& native.label@ == snapshot.label@
    &&& string_view(native.primary_symbol) == str_view(snapshot.symbol.primary)
    &&& string_view(native.fallback_symbol) == str_view(snapshot.symbol.fallback)
    &&& native.accessibility_value@ == snapshot.accessibility_value@
    &&& native.journal_durable == session.durability.journal_durable
    &&& native.media_files_open == session.durability.media_files_open
    &&& native.media_safe == session.durability.media_safe
    &&& native.recovery_status@ == recovery_text(session.recovery.status)
    &&& string_view(native.recovery_summary) == string_view(session.recovery.preserved_evidence_summary)
    &&& native.sources@.len() == session.sources@.len()
    &&& forall|i: int|
        0 <= i < native.sources@.len() ==> native_source_of(#[trigger] native.sources@[i], session.sources@[i])
}

fn copy_text(text: &Option<String>) -> (copy: Option<String>)
    ensures
        string_view(copy) == string_view(*text),
{
    match text {
        Some(value) => Some(value.clone()),
        None => None,
    }
}

fn owned_symbol(symbol: Option<&'static str>) -> (owned: Option<String>)
    ensures
        string_view(owned) == str_view(symbol),
{
    match symbol {
        Some(name) => Some(String::from_str(name)),
        None => None,
    }
}

fn map_source(source: &SourceRecord) -> (native: NativeSourceSnapshot)
    ensures
        native_source_of(native, *source),
{
    NativeSourceSnapshot {
        id: source.id.0.clone(),
        name: source.name.clone(),
        kind: String::from_str(source_kind_name(source.kind)),
        activity: String::from_str(source_activity_name(source.activity)),
        health: String::from_str(source_health_name(source.health)),
        health_detail: copy_text(&source.health_detail),
        permission: String::from_str(permission_name(source.permission.state)),
        permission_recovery_hint: copy_text(&source.permission.recovery_hint),
    }
}

/// The native record of a snapshot, with no announcement.
pub fn map_snapshot(snapshot: &SessionSnapshot) -> (native: NativeSessionSnapshot)
    ensures
        native_snapshot_of(native, *snapshot),
        native.announcement is None,
{
    let session = &snapshot.session;
    let mut sources: Vec<NativeSourceSnapshot> = Vec::new();
    let mut index: usize = 0;
    while index < session.sources.len()
        invariant
            index <= session.sources@.len(),
            sources@.len() == index,
            forall|i: int| 0 <= i < index ==> native_source_of(#[trigger] sources@[i], session.sources@[i]),
        decreases session.sources@.len() - index,
    {
        sources.push(map_source(&session.sources[index]));
        index = index + 1;
    }
    NativeSessionSnapshot {
        fixture: String::from_str(presentation_name(snapshot.presentation)),
        session_id: session.id.0.clone(),
        title: session.title.clone(),
        lifecycle: String::from_str(lifecycle_name(session.lifecycle)),
        presentation: String::from_str(presentation_name(snapshot.presentation)),
        health: String::from_str(health_name(session.health)),
        elapsed_seconds: session.elapsed_seconds,
        timer_behavior: String::from_str(timer_name(snapshot.timer)),
        timer_text: copy_text(&snapshot.timer_text),
        label: snapshot.label.clone(),
        primary_symbol: owned_symbol(snapshot.symbol.primary),
        fallback_symbol: owned_symbol(snapshot.symbol.fallback),
        accessibility_value: snapshot.accessibility_value.clone(),
        announcement: None,
        journal_durable: session.durability.journal_durable,
        media_files_open: session.durability.media_files_open,
        media_safe: session.durability.media_safe,
        recovery_status: String::from_str(recovery_name(session.recovery.status)),
        recovery_summary: copy_text(&session.recovery.preserved_evidence_summary),
        sources,
    }
}

/// `native` is the starting snapshot of `fixture`, seen from the platform shell.
pub open spec fn native_start_of(native: NativeSessionSnapshot, fixture: Fixture) -> bool {
    &&& native.announcement is None
    &&& exists|session: SessionRecord, starting: bool, snapshot: SessionSnapshot|
        #![trigger fixture_state(fixture, session, starting), snapshot_of(snapshot, session, starting)]
        fixture_state(fixture, session, starting) && snapshot_of(snapshot, session, starting)
            && native_snapshot_of(native, snapshot)
}

/// Every fixture's starting snapshot, in declaration order.
#[must_use]
pub fn native_fixture_catalog() -> (catalog: Vec<NativeSessionSnapshot>)
    ensures
        catalog@.len() == 10,
        forall|i: int| 0 <= i < 10 ==> native_start_of(#[trigger] catalog@[i], fixture_at(i)),
{
    let snapshots = fixture_snapshots();
    let mut catalog: Vec<NativeSessionSnapshot> = Vec::new();
    let mut index: usize = 0;
    while index < 10
        invariant
            index <= 10,
            snapshots@.len() == 10,
            forall|i: int|
                0 <= i < 10 ==> {
                    &&& (#[trigger] snapshots@[i]).0 == fixture_at(i)
                    &&& exists|session: SessionRecord, starting: bool|
                        fixture_state(fixture_at(i), session, starting) && snapshot_of(snapshots@[i].1, session, starting)
                },
            catalog@.len() == index,
            forall|i: int| 0 <= i < index ==> native_start_of(#[trigger] catalog@[i], fixture_at(i)),
        decreases 10 - index,
    {
        let native = map_snapshot(&snapshots[index].1);
        proof {
            let snapshot = snapshots@[index as int].1;
            let (session, starting) = choose|session: SessionRecord, starting: bool|
                fixture_state(fixture_at(index as int), session, starting) && snapshot_of(snapshot, session, starting);
            assert(fixture_state(fixture_at(index as int), session, starting) && snapshot_of(
                snapshot,
                session,
                starting,
            ) && native_snapshot_of(native, snapshot));
        }
        catalog.push(native);
        index = index + 1;
    }
    catalog
}

/// The starting snapshot of one fixture.
#[must_use]
pub fn native_fixture(fixture: NativeFixture) -> (native: NativeSessionSnapshot)
    ensures
        native_start_of(native, fixture_of(fixture)),
{
    let fixture = map_fixture(fixture);
    let controller = FixtureSessionController::new(fixture);
    let snapshot = controller.snapshot();
    let native = map_snapshot(&snapshot);
    assert(fixture_state(fixture, controller.record(), controller.start_pending()) && snapshot_of(
        snapshot,
        controller.record(),
        controller.start_pending(),
    ) && native_snapshot_of(native, snapshot));
    native
}

/// What applying `command` to the fixture `fixture` answers across the boundary.
pub open spec fn native_command_outcome(
    fixture: Fixture,
    command: Command,
    result: Result<NativeSessionSnapshot, NativeSessionError>,
) -> bool {
    exists|session: SessionRecord, starting: bool|
        #![trigger fixture_state(fixture, session, starting)]
        fixture_state(fixture, session, starting) && match result {
            Ok(native) => {
                &&& transition_error(session, starting, command) is None
                &&& exists|after: SessionRecord, after_starting: bool, snapshot: SessionSnapshot|
                    #![trigger transition(session, starting, command, after, after_starting), snapshot_of(snapshot, after, after_starting)]
                    transition(session, starting, command, after, after_starting) && snapshot_of(
                        snapshot,
                        after,
                        after_starting,
                    ) && native_snapshot_of(native, snapshot) && string_view(native.announcement)
                        == announcement_of(presentation_of(session, starting), snapshot)
            },
            Err(error) => transition_error(session, starting, command) matches Some(refusal) && error
                == session_error_of(refusal),
        }
}

/// Applies one command to a fresh fixture session; the result carries the
/// announcement for the presentation change, if any.
pub fn native_apply_fixture_command(fixture: NativeFixture, command: NativeCommand) -> (result: Result<
    NativeSessionSnapshot,
    NativeSessionError,
>)
    ensures
        native_command_outcome(fixture_of(fixture), command_of(command), result),
{
    let fixture = map_fixture(fixture);
    let mut controller = FixtureSessionController::new(fixture);
    let ghost session = controller.record();
    let ghost starting = controller.start_pending();
    let previous = controller.snapshot();
    let command = map_command(command);
    match controller.apply(command) {
        Ok(snapshot) => {
            let spoken = announcement(&previous, &snapshot);
            let mut native = map_snapshot(&snapshot);
            native.announcement = spoken;
            assert(transition(session, starting, command, controller.record(), controller.start_pending())
                && snapshot_of(snapshot, controller.record(), controller.start_pending()) && native_snapshot_of(
                native,
                snapshot,
            ) && string_view(native.announcement) == announcement_of(presentation_of(session, starting), snapshot));
            assert(fixture_state(fixture, session, starting));
            Ok(native)
        },
        Err(error) => {
            assert(fixture_state(fixture, session, starting));
            Err(map_transition_error(error))
        },
    }
}

} // verus!
