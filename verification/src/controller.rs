//! The native session authority: deterministic fixture sessions and the
//! coarse capability posture.
use vstd::prelude::*;

use crate::domain::{
    applied, fixture_presentation, lemma_apply_deterministic, same_snapshot, same_state, fixture_at, fixture_catalog, fixture_state, snapshot_of, Command, Fixture,
    SessionMachine, SessionSnapshot, TransitionError,
};
use crate::decisions::{
    decide_media_authorization, decide_recording_start, decide_required_source_plan, joined_path,
    new_media_authorization, authorization_decision_of, canonical_uuid, first_segment_path, plan_decision_of,
    recording_decision_of, kinds_named, PlanDecision, RecordingDecision, SessionRow,
};
use crate::recovery::{session_recovery_plans, PlayableRecoveryPlan};
use crate::runtime::{library_of, row_error, runtime_library_snapshot_at, RuntimeLibrarySnapshot, RuntimeSessionRow};
use crate::store::{
    AuthorizeMediaOpenRequest, FirstSampleReceipt, InterruptSessionRequest, MediaOpenAuthorization, MediaOpenReceipt,
    MediaSourceKind, PrepareSessionRequest, PreparedSessionReceipt, SealSegmentReceipt, SessionInterruptionReason,
    SessionOrigin, StoreError, JOURNAL_VERSION, MEDIA_FORMAT_CAF_PCM_S16LE, MEDIA_SAMPLE_RATE_HZ, SCHEMA_VERSION,
};
use crate::types::{SessionId, SessionRecord};
use crate::validation::{canonical_plan, normalized_source_kinds, plan_verdict, request_verdict, validate_request};

verus! {

#[derive(Clone, Debug, Eq, PartialEq)]
pub struct FixtureSessionController {
    machine: SessionMachine,
}

impl FixtureSessionController {
    /// The session machine the controller drives.
    pub closed spec fn machine(&self) -> SessionMachine {
        self.machine
    }

    /// The durable record behind the controller.
    pub open spec fn record(&self) -> SessionRecord {
        self.machine().record()
    }

    /// Whether a start request is pending.
    pub open spec fn start_pending(&self) -> bool {
        self.machine().start_pending()
    }

    #[must_use]
    pub fn new(fixture: Fixture) -> (controller: Self)
        ensures
            fixture_state(fixture, controller.record(), controller.start_pending()),
    {
        FixtureSessionController { machine: SessionMachine::from_fixture(fixture) }
    }

    #[must_use]
    pub fn snapshot(&self) -> (snapshot: SessionSnapshot)
        ensures
            snapshot_of(snapshot, self.record(), self.start_pending()),
    {
        self.machine.snapshot()
    }

    /// Applies one command to the fixture session through its machine; a
    /// refused command changes nothing.
    pub fn apply(&mut self, command: Command) -> (result: Result<SessionSnapshot, TransitionError>)
        ensures
            applied(
                old(self).record(),
                old(self).start_pending(),
                command,
                result,
                final(self).record(),
                final(self).start_pending(),
            ),
    {
        self.machine.apply(command)
    }
}

/// Lockstep: a fixture controller and a session machine in the same state
/// answer every command alike and move to the same state, so driving both
/// with any sequence of commands keeps them in step.
pub proof fn lemma_controller_lockstep(
    controller: FixtureSessionController,
    machine: SessionMachine,
    command: Command,
    controller_result: Result<SessionSnapshot, TransitionError>,
    controller_after: FixtureSessionController,
    machine_result: Result<SessionSnapshot, TransitionError>,
    machine_after: SessionMachine,
)
    requires
        same_state(controller.record(), machine.record()),
        controller.start_pending() == machine.start_pending(),
        applied(
            controller.record(),
            controller.start_pending(),
            command,
            controller_result,
            controller_after.record(),
            controller_after.start_pending(),
        ),
        applied(
            machine.record(),
            machine.start_pending(),
            command,
            machine_result,
            machine_after.record(),
            machine_after.start_pending(),
        ),
    ensures
        controller_result is Ok <==> machine_result is Ok,
        controller_result is Err ==> controller_result == machine_result,
        controller_result is Ok ==> same_snapshot(controller_result->Ok_0, machine_result->Ok_0),
        same_state(controller_after.record(), machine_after.record()),
        controller_after.start_pending() == machine_after.start_pending(),
{
    lemma_apply_deterministic(
        controller.record(),
        machine.record(),
        machine.start_pending(),
        command,
        controller_result,
        controller_after.record(),
        controller_after.start_pending(),
        machine_result,
        machine_after.record(),
        machine_after.start_pending(),
    );
}

/// Every fixture with the snapshot it starts in.
#[must_use]
pub fn fixture_snapshots() -> (catalog: Vec<(Fixture, SessionSnapshot)>)
    ensures
        catalog@.len() == 10,
        forall|i: int|
            0 <= i < 10 ==> {
                &&& (#[trigger] catalog@[i]).0 == fixture_at(i)
                &&& exists|session: SessionRecord, starting: bool|
                    fixture_state(fixture_at(i), session, starting) && snapshot_of(catalog@[i].1, session, starting)
                &&& catalog@[i].1.presentation == fixture_presentation(fixture_at(i))
            },
{
    fixture_catalog()
}

/// The version of this core.
pub const CORE_VERSION: &'static str = "0.1.0";

/// Current non-media state owned by the Rust core.
#[derive(Clone, Debug, Eq, PartialEq)]
pub struct CoreStatus {
    pub product_name: &'static str,
    pub core_version: &'static str,
    pub persistence: &'static str,
    pub capture: &'static str,
    pub intelligence: &'static str,
}

/// Returns the current coarse capability posture without performing I/O.
#[must_use]
pub fn status_snapshot() -> (status: CoreStatus)
    ensures
        status.product_name@ == "Open Scribe"@,
        status.core_version@ == CORE_VERSION@,
        status.persistence@ == "Durable local audio and recovery"@,
        status.capture@ == "Development microphone + system audio"@,
        status.intelligence@ == "Not implemented"@,
{
    CoreStatus {
        product_name: "Open Scribe",
        core_version: CORE_VERSION,
        persistence: "Durable local audio and recovery",
        capture: "Development microphone + system audio",
        intelligence: "Not implemented",
    }
}

// ---------------------------------------------------------------------------
// The durable preparation authority.

pub struct CoarseMediaOpenReceipt {
    pub session_id: SessionId,
    pub track_id: String,
    pub segment_id: String,
    pub open_token: String,
    pub writer_generation: u64,
    pub relative_path: String,
    pub initial_byte_length: u64,
}

pub struct CoarseFirstSampleReceipt {
    pub session_id: SessionId,
    pub track_id: String,
    pub segment_id: String,
    pub open_token: String,
    pub writer_generation: u64,
    pub relative_path: String,
    pub first_sample_host_time: u64,
    pub first_sample_frame_count: u64,
    pub observed_byte_length: u64,
}

pub struct CoarseSealSegmentReceipt {
    pub session_id: SessionId,
    pub track_id: String,
    pub segment_id: String,
    pub open_token: String,
    pub writer_generation: u64,
    pub relative_path: String,
    pub final_sample_host_time: u64,
    pub final_sample_count: u64,
    pub final_byte_length: u64,
}

/// A validated request to prepare a session, with its canonical required-source plan.
pub struct SessionPreparation {
    pub request: PrepareSessionRequest,
    pub required_sources: Vec<MediaSourceKind>,
}

/// The directory under the managed root that holds one directory per session.
pub const SESSIONS_DIRECTORY: &'static str = "Sessions";

/// Native Rust authority used by the coarse preparation adapter: it holds the
/// managed root and decides every step of the durable store.
pub struct RecordingPreparationController {
    managed_root: String,
}

impl RecordingPreparationController {
    /// The managed root the authority governs.
    pub closed spec fn root(&self) -> Seq<char> {
        self.managed_root@
    }

    /// Accepts a managed root; an empty path is refused.
    pub fn open(managed_root: String) -> (controller: Result<Self, StoreError>)
        ensures
            match controller {
                Ok(found) => managed_root@.len() > 0 && found.root() == managed_root@,
                Err(error) => managed_root@.len() == 0 && error == StoreError::InvalidManagedRoot("path is empty"),
            },
    {
        if managed_root.as_str().unicode_len() == 0 {
            return Err(StoreError::InvalidManagedRoot("path is empty"));
        }
        Ok(RecordingPreparationController { managed_root })
    }

    pub fn managed_root(&self) -> (root: &str)
        ensures
            root@ == self.root(),
    {
        self.managed_root.as_str()
    }

    /// The directory of one session.
    pub fn session_directory(&self, session_id: &str) -> (directory: String)
        ensures
            directory@ == joined_path(joined_path(self.root(), SESSIONS_DIRECTORY@), session_id@),
    {
        let sessions = join_path(self.managed_root.as_str(), SESSIONS_DIRECTORY);
        join_path(sessions.as_str(), session_id)
    }

    /// A capture session titled `title`, planned with the microphone alone.
    pub fn prepare_session(&self, title: String) -> (preparation: Result<SessionPreparation, StoreError>)
        ensures
            match preparation {
                Ok(found) => {
                    &&& found.request.title == title
                    &&& found.request.origin == SessionOrigin::Capture
                    &&& request_verdict(found.request) is Ok
                    &&& found.required_sources@ == seq![MediaSourceKind::Microphone]
                },
                Err(error) => request_verdict(PrepareSessionRequest { title, origin: SessionOrigin::Capture })
                    == Err::<(), StoreError>(error),
            },
    {
        let mut sources: Vec<MediaSourceKind> = Vec::new();
        sources.push(MediaSourceKind::Microphone);
        let ghost planned = sources@;
        proof {
            assert(planned[0] == MediaSourceKind::Microphone);
            assert(planned.contains(MediaSourceKind::Microphone));
            assert(!planned.contains(MediaSourceKind::ApplicationAudio));
            assert(!planned.contains(MediaSourceKind::SystemAudio));
            assert(canonical_plan(planned) =~= seq![MediaSourceKind::Microphone]);
        }
        self.prepare_session_with_required_sources(title, sources)
    }

    /// A capture session titled `title` that must capture every kind in `required_sources`.
    pub fn prepare_session_with_required_sources(&self, title: String, required_sources: Vec<MediaSourceKind>) -> (preparation:
        Result<SessionPreparation, StoreError>)
        ensures
            match preparation {
                Ok(found) => {
                    &&& found.request.title == title
                    &&& found.request.origin == SessionOrigin::Capture
                    &&& request_verdict(found.request) is Ok
                    &&& plan_verdict(required_sources@) == Ok::<Seq<MediaSourceKind>, StoreError>(found.required_sources@)
                },
                Err(error) => {
                    ||| plan_verdict(required_sources@) == Err::<Seq<MediaSourceKind>, StoreError>(error)
                    ||| (plan_verdict(required_sources@) is Ok && request_verdict(
                        PrepareSessionRequest { title, origin: SessionOrigin::Capture },
                    ) == Err::<(), StoreError>(error))
                },
            },
    {
        let plan = match normalized_source_kinds(required_sources) {
            Ok(plan) => plan,
            Err(error) => {
                return Err(error);
            },
        };
        let request = PrepareSessionRequest { title, origin: SessionOrigin::Capture };
        match validate_request(&request) {
            Ok(()) => Ok(SessionPreparation { request, required_sources: plan }),
            Err(error) => Err(error),
        }
    }

    /// Decides a request to persist the required-source plan of a prepared session.
    pub fn plan_required_sources(
        &self,
        session_id: &SessionId,
        required_sources: Vec<MediaSourceKind>,
        session: Option<SessionRow>,
        existing_plan: &Vec<String>,
    ) -> (decision: Result<PlanDecision, StoreError>)
        ensures
            match decision {
                Ok(found) => plan_decision_of(session_id.0@, required_sources@, session, existing_plan@) == Ok::<
                    (Seq<MediaSourceKind>, bool),
                    StoreError,
                >((found.plan@, found.already_planned)),
                Err(error) => plan_decision_of(session_id.0@, required_sources@, session, existing_plan@) == Err::<
                    (Seq<MediaSourceKind>, bool),
                    StoreError,
                >(error),
            },
    {
        decide_required_source_plan(session_id, required_sources, session, existing_plan)
    }

    /// Decides whether a prepared session may enter Recording.
    pub fn confirm_recording(
        &self,
        required_names: &Vec<String>,
        active_names: &Vec<String>,
        session: Option<SessionRow>,
    ) -> (decision: Result<RecordingDecision, StoreError>)
        ensures
            match decision {
                Ok(found) => {
                    &&& recording_decision_of(required_names@, active_names@, session) == Ok::<bool, StoreError>(
                        found.already_recording,
                    )
                    &&& kinds_named(found.required_sources@, required_names@)
                    &&& found.active_sources@ == found.required_sources@
                },
                Err(error) => recording_decision_of(required_names@, active_names@, session) == Err::<
                    bool,
                    StoreError,
                >(error),
            },
    {
        decide_recording_start(required_names, active_names, session)
    }

    /// Authorizes the first segment of a required source, inside the session's directory.
    pub fn authorize_initial_media(
        &self,
        request: AuthorizeMediaOpenRequest,
        session: Option<SessionRow>,
        planned: bool,
        already_authorized: bool,
    ) -> (authorization: Result<MediaOpenAuthorization, StoreError>)
        ensures
            match authorization {
                Ok(found) => {
                    &&& authorization_decision_of(request, session, planned, already_authorized) is Ok
                    &&& found.session_id == request.session_id
                    &&& canonical_uuid(found.track_id@)
                    &&& canonical_uuid(found.segment_id@)
                    &&& canonical_uuid(found.open_token@)
                    &&& canonical_uuid(found.source_id@)
                    &&& found.writer_generation == 1
                    &&& found.relative_path@ == first_segment_path(found.track_id@)
                    &&& found.absolute_path@ == joined_path(
                        joined_path(joined_path(self.root(), SESSIONS_DIRECTORY@), request.session_id.0@),
                        found.relative_path@,
                    )
                    &&& found.media_format@ == MEDIA_FORMAT_CAF_PCM_S16LE@
                    &&& found.sample_rate_hz == MEDIA_SAMPLE_RATE_HZ
                    &&& found.channels == 1
                    &&& found.mapped_start_nanoseconds == 0
                },
                Err(error) => authorization_decision_of(request, session, planned, already_authorized) == Err::<
                    (),
                    StoreError,
                >(error),
            },
    {
        match decide_media_authorization(&request, session, planned, already_authorized) {
            Ok(()) => {},
            Err(error) => {
                return Err(error);
            },
        }
        let directory = self.session_directory(request.session_id.0.as_str());
        Ok(new_media_authorization(request, directory.as_str()))
    }

    /// The store receipt for a coarse media-open receipt: the writer's fixed format.
    pub fn accept_coarse_media_open(&self, receipt: CoarseMediaOpenReceipt) -> (store_receipt: MediaOpenReceipt)
        ensures
            store_receipt.session_id == receipt.session_id,
            store_receipt.track_id == receipt.track_id,
            store_receipt.segment_id == receipt.segment_id,
            store_receipt.open_token == receipt.open_token,
            store_receipt.writer_generation == receipt.writer_generation,
            store_receipt.relative_path == receipt.relative_path,
            store_receipt.media_format@ == MEDIA_FORMAT_CAF_PCM_S16LE@,
            store_receipt.sample_rate_hz == MEDIA_SAMPLE_RATE_HZ,
            store_receipt.channels == 1,
            store_receipt.initial_byte_length == receipt.initial_byte_length,
    {
        MediaOpenReceipt {
            session_id: receipt.session_id,
            track_id: receipt.track_id,
            segment_id: receipt.segment_id,
            open_token: receipt.open_token,
            writer_generation: receipt.writer_generation,
            relative_path: receipt.relative_path,
            media_format: String::from_str(MEDIA_FORMAT_CAF_PCM_S16LE),
            sample_rate_hz: MEDIA_SAMPLE_RATE_HZ,
            channels: 1,
            initial_byte_length: receipt.initial_byte_length,
        }
    }

    /// The store receipt for a coarse first-sample receipt.
    pub fn accept_coarse_first_sample(&self, receipt: CoarseFirstSampleReceipt) -> (store_receipt: FirstSampleReceipt)
        ensures
            store_receipt.session_id == receipt.session_id,
            store_receipt.track_id == receipt.track_id,
            store_receipt.segment_id == receipt.segment_id,
            store_receipt.open_token == receipt.open_token,
            store_receipt.writer_generation == receipt.writer_generation,
            store_receipt.relative_path == receipt.relative_path,
            store_receipt.first_sample_host_time == receipt.first_sample_host_time,
            store_receipt.first_sample_frame_count == receipt.first_sample_frame_count,
            store_receipt.observed_byte_length == receipt.observed_byte_length,
    {
        FirstSampleReceipt {
            session_id: receipt.session_id,
            track_id: receipt.track_id,
            segment_id: receipt.segment_id,
            open_token: receipt.open_token,
            writer_generation: receipt.writer_generation,
            relative_path: receipt.relative_path,
            first_sample_host_time: receipt.first_sample_host_time,
            first_sample_frame_count: receipt.first_sample_frame_count,
            observed_byte_length: receipt.observed_byte_length,
        }
    }

    /// The store receipt for a coarse segment seal: the final count is the sample count.
    pub fn seal_coarse_segment(&self, receipt: CoarseSealSegmentReceipt) -> (store_receipt: SealSegmentReceipt)
        ensures
            store_receipt.session_id == receipt.session_id,
            store_receipt.track_id == receipt.track_id,
            store_receipt.segment_id == receipt.segment_id,
            store_receipt.open_token == receipt.open_token,
            store_receipt.writer_generation == receipt.writer_generation,
            store_receipt.relative_path == receipt.relative_path,
            store_receipt.final_sample_host_time == receipt.final_sample_host_time,
            store_receipt.sample_count == receipt.final_sample_count,
            store_receipt.final_byte_length == receipt.final_byte_length,
    {
        SealSegmentReceipt {
            session_id: receipt.session_id,
            track_id: receipt.track_id,
            segment_id: receipt.segment_id,
            open_token: receipt.open_token,
            writer_generation: receipt.writer_generation,
            relative_path: receipt.relative_path,
            final_sample_host_time: receipt.final_sample_host_time,
            sample_count: receipt.final_sample_count,
            final_byte_length: receipt.final_byte_length,
        }
    }

    /// The store request to preserve a partial capture as interrupted.
    pub fn interrupt_session(&self, session_id: SessionId, reason: SessionInterruptionReason) -> (request:
        InterruptSessionRequest)
        ensures
            request.session_id == session_id,
            request.reason == reason,
    {
        InterruptSessionRequest { session_id, reason }
    }

    /// The segments to promote: a session's whole plan, or nothing when any of its candidates failed.
    pub fn recover_playable_sessions(&self, outcomes: Vec<Option<PlayableRecoveryPlan>>) -> (plans: Vec<
        PlayableRecoveryPlan,
    >)
        ensures
            (forall|i: int| 0 <= i < outcomes@.len() ==> (#[trigger] outcomes@[i]) is Some) ==> {
                &&& plans@.len() == outcomes@.len()
                &&& forall|i: int| 0 <= i < plans@.len() ==> Some(#[trigger] plans@[i]) == outcomes@[i]
            },
            (exists|i: int| 0 <= i < outcomes@.len() && (#[trigger] outcomes@[i]) is None) ==> plans@.len() == 0,
    {
        session_recovery_plans(outcomes)
    }

    /// The library as the live and library surfaces show it at `now_milliseconds`.
    pub fn runtime_library_snapshot(&self, rows: Vec<RuntimeSessionRow>, now_milliseconds: i64) -> (library: Result<
        RuntimeLibrarySnapshot,
        StoreError,
    >)
        ensures
            match library {
                Ok(found) => library_of(found, rows@, now_milliseconds),
                Err(error) => exists|i: int|
                    0 <= i < rows@.len() && #[trigger] row_error(rows@[i]) == Some(error) && forall|j: int|
                        0 <= j < i ==> (#[trigger] row_error(rows@[j])) is None,
            },
    {
        runtime_library_snapshot_at(rows, now_milliseconds)
    }
}

/// `relative` below `directory`.
pub fn join_path(directory: &str, relative: &str) -> (path: String)
    ensures
        path@ == joined_path(directory@, relative@),
{
    let mut path = String::from_str(directory);
    let length = directory.unicode_len();
    if length > 0 && directory.get_char(length - 1) != '/' {
        path.append("/");
    }
    path.append(relative);
    path
}

/// The receipt of a durably prepared session: the journal is durable, the
/// projection agrees, and no media is open yet.
pub fn prepared_session_receipt(session_id: SessionId, last_journal_sequence: u64) -> (receipt: PreparedSessionReceipt)
    ensures
        receipt.session_id == session_id,
        receipt.schema_version == SCHEMA_VERSION,
        receipt.journal_version == JOURNAL_VERSION,
        receipt.last_journal_sequence == last_journal_sequence,
        receipt.journal_durable,
        receipt.database_projected,
        !receipt.media_files_open,
{
    PreparedSessionReceipt {
        session_id,
        schema_version: SCHEMA_VERSION,
        journal_version: JOURNAL_VERSION,
        last_journal_sequence,
        journal_durable: true,
        database_projected: true,
        media_files_open: false,
    }
}

} // verus!
