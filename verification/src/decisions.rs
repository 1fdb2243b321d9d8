//! The decisions the durable store takes between reading its projection and
//! writing the journal: each turns what the store read into the step it
//! must take next, or the error it must return.
use vstd::prelude::*;

use crate::store::{
    SealSegmentReceipt, SealedSegmentEvidence, AuthorizeMediaOpenRequest, FirstSampleEvidence, FirstSampleReceipt, MediaOpenAuthorization, MediaOpenEvidence,
    MediaOpenReceipt, MEDIA_FORMAT_CAF_PCM_S16LE, MEDIA_SAMPLE_RATE_HZ, is_kind_name, lemma_kind_names, lemma_reason_names, source_kind_name, InterruptSessionRequest, MediaSourceKind, RecordingStartedEvidence,
    RequiredSourcePlanEvidence, SessionInterruptionEvidence, SessionInterruptionReason, StoreError, reason_name,
};
use crate::text::str_equal;
use crate::types::SessionId;
use crate::validation::{
    canonical_plan, first_sample_receipt_verdict, hyphenated_uuid, media_receipt_verdict, media_request_verdict,
    normalized_source_kinds, parses_as_uuid, plan_verdict, uuid_text, validate_first_sample_receipt_shape,
    validate_media_receipt_shape, validate_media_request, seal_receipt_verdict, validate_seal_receipt_shape,
};

verus! {

/// The projected state of one session row.
pub struct SessionRow {
    pub lifecycle: String,
    pub journal_durable: bool,
    pub media_files_open: bool,
}

// ---------------------------------------------------------------------------
// Persisted kind lists.

/// Whether `kinds` are the kinds that `names` spell, in order.
pub open spec fn kinds_named(kinds: Seq<MediaSourceKind>, names: Seq<String>) -> bool {
    &&& kinds.len() == names.len()
    &&& forall|i: int| 0 <= i < names.len() ==> source_kind_name(#[trigger] kinds[i]) == names[i]@
}

pub open spec fn name_views(names: Seq<String>) -> Seq<Seq<char>> {
    names.map_values(|name: String| name@)
}

pub open spec fn kind_names(kinds: Seq<MediaSourceKind>) -> Seq<Seq<char>> {
    kinds.map_values(|kind: MediaSourceKind| source_kind_name(kind))
}

/// Whether every name in `names` spells a kind.
pub open spec fn all_kinds_named(names: Seq<String>) -> bool {
    forall|i: int| 0 <= i < names.len() ==> is_kind_name((#[trigger] names[i])@)
}

/// Parses persisted kind names.
pub fn kinds_from_names(names: &Vec<String>) -> (kinds: Result<Vec<MediaSourceKind>, StoreError>)
    ensures
        match kinds {
            Ok(found) => kinds_named(found@, names@) && all_kinds_named(names@),
            Err(error) => !all_kinds_named(names@) && error == StoreError::IntegrityMismatch(
                "required media source kind is unsupported",
            ),
        },
{
    let mut kinds: Vec<MediaSourceKind> = Vec::new();
    let mut index: usize = 0;
    while index < names.len()
        invariant
            index <= names@.len(),
            kinds_named(kinds@, names@.take(index as int)),
            all_kinds_named(names@.take(index as int)),
        decreases names@.len() - index,
    {
        proof {
            lemma_kind_names();
            assert(names@.take(index + 1).drop_last() == names@.take(index as int));
        }
        match MediaSourceKind::from_str(names[index].as_str()) {
            Ok(kind) => {
                kinds.push(kind);
                assert(names@.take(index + 1)[index as int] == names@[index as int]);
            },
            Err(error) => {
                return Err(error);
            },
        }
        index = index + 1;
    }
    assert(names@.take(names@.len() as int) == names@);
    assert(all_kinds_named(names@)) by {
        lemma_kind_names();
        assert forall|i: int| 0 <= i < names@.len() implies is_kind_name((#[trigger] names@[i])@) by {
            assert(source_kind_name(kinds@[i]) == names@[i]@);
        }
    }
    Ok(kinds)
}

fn same_kinds(left: &Vec<MediaSourceKind>, right: &Vec<MediaSourceKind>) -> (same: bool)
    ensures
        same == (left@ == right@),
{
    if left.len() != right.len() {
        return false;
    }
    let mut index: usize = 0;
    while index < left.len()
        invariant
            left@.len() == right@.len(),
            index <= left@.len(),
            forall|j: int| 0 <= j < index ==> left@[j] == right@[j],
        decreases left@.len() - index,
    {
        if left[index] != right[index] {
            return false;
        }
        index = index + 1;
    }
    assert(left@ =~= right@);
    true
}

// ---------------------------------------------------------------------------
// Required-source plans.

/// The step a plan request leads to.
pub struct PlanDecision {
    /// The canonical plan.
    pub plan: Vec<MediaSourceKind>,
    /// The same plan is already durable: answer from it and write nothing.
    pub already_planned: bool,
}

/// How a plan request is answered, given the session row and the plan already persisted.
pub open spec fn plan_decision_of(
    session_id: Seq<char>,
    requested: Seq<MediaSourceKind>,
    session: Option<SessionRow>,
    existing: Seq<String>,
) -> Result<(Seq<MediaSourceKind>, bool), StoreError> {
    if !uuid_text(session_id) {
        Err(StoreError::InvalidRequest("session ID is not a UUID"))
    } else if plan_verdict(requested) is Err {
        Err(plan_verdict(requested)->Err_0)
    } else if session is None {
        Err(StoreError::InvalidState("session does not exist"))
    } else if session->0.lifecycle@ != "preparing"@ || !session->0.journal_durable {
        Err(StoreError::InvalidState("session is not awaiting a required-source plan"))
    } else if !all_kinds_named(existing) {
        Err(StoreError::IntegrityMismatch("required media source kind is unsupported"))
    } else if existing.len() == 0 {
        Ok((canonical_plan(requested), false))
    } else if name_views(existing) != kind_names(canonical_plan(requested)) {
        Err(StoreError::IntegrityMismatch("repeated required-source plan changed accepted scope"))
    } else {
        Ok((canonical_plan(requested), true))
    }
}

proof fn lemma_kinds_equal_names(kinds: Seq<MediaSourceKind>, names: Seq<String>, plan: Seq<MediaSourceKind>)
    requires
        kinds_named(kinds, names),
    ensures
        (kinds == plan) == (name_views(names) == kind_names(plan)),
{
    lemma_kind_names();
    let left = name_views(names);
    let right = kind_names(plan);
    if kinds == plan {
        assert forall|i: int| 0 <= i < left.len() implies left[i] == right[i] by {
            assert(source_kind_name(kinds[i]) == names[i]@);
        }
        assert(left =~= right);
    }
    if left == right {
        assert(left.len() == names.len());
        assert(right.len() == plan.len());
        assert forall|i: int| 0 <= i < kinds.len() implies kinds[i] == plan[i] by {
            assert(left[i] == right[i]);
            assert(left[i] == names[i]@);
            assert(right[i] == source_kind_name(plan[i]));
            assert(source_kind_name(kinds[i]) == source_kind_name(plan[i]));
        }
        assert(kinds =~= plan);
    }
}

/// Decides how to answer a request to persist a required-source plan.
pub fn decide_required_source_plan(
    session_id: &SessionId,
    required_sources: Vec<MediaSourceKind>,
    session: Option<SessionRow>,
    existing_plan: &Vec<String>,
) -> (decision: Result<PlanDecision, StoreError>)
    ensures
        match decision {
            Ok(found) => plan_decision_of(session_id.0@, required_sources@, session, existing_plan@) == Ok::<
                (Seq<MediaSourceKind>, bool),
                StoreError,
            >((found.plan@, found.already_planned)),
            Err(error) => plan_decision_of(session_id.0@, required_sources@, session, existing_plan@) == Err::<
                (Seq<MediaSourceKind>, bool),
                StoreError,
            >(error),
        },
{
    if !parses_as_uuid(session_id.0.as_str()) {
        return Err(StoreError::InvalidRequest("session ID is not a UUID"));
    }
    let plan = match normalized_source_kinds(required_sources) {
        Ok(plan) => plan,
        Err(error) => {
            return Err(error);
        },
    };
    let row = match session {
        Some(row) => row,
        None => {
            return Err(StoreError::InvalidState("session does not exist"));
        },
    };
    if !str_equal(row.lifecycle.as_str(), "preparing") || !row.journal_durable {
        return Err(StoreError::InvalidState("session is not awaiting a required-source plan"));
    }
    let existing = match kinds_from_names(existing_plan) {
        Ok(existing) => existing,
        Err(error) => {
            return Err(error);
        },
    };
    if existing.len() == 0 {
        return Ok(PlanDecision { plan, already_planned: false });
    }
    proof {
        lemma_kinds_equal_names(existing@, existing_plan@, plan@);
    }
    if !same_kinds(&existing, &plan) {
        return Err(StoreError::IntegrityMismatch("repeated required-source plan changed accepted scope"));
    }
    Ok(PlanDecision { plan, already_planned: true })
}

/// The evidence a durable plan answers with.
pub fn plan_evidence(session_id: SessionId, plan: Vec<MediaSourceKind>, last_journal_sequence: u64) -> (evidence:
    RequiredSourcePlanEvidence)
    ensures
        evidence.session_id == session_id,
        evidence.required_sources@ == plan@,
        evidence.journal_durable,
        !evidence.recording_started,
        evidence.last_journal_sequence == last_journal_sequence,
{
    RequiredSourcePlanEvidence {
        session_id,
        required_sources: plan,
        journal_durable: true,
        recording_started: false,
        last_journal_sequence,
    }
}

// ---------------------------------------------------------------------------
// Entering Recording.

/// The step a Recording confirmation leads to.
pub struct RecordingDecision {
    pub required_sources: Vec<MediaSourceKind>,
    pub active_sources: Vec<MediaSourceKind>,
    /// The session already records: answer and write nothing.
    pub already_recording: bool,
}

/// How a Recording confirmation is answered, from the persisted plan, the
/// kinds with durable first-sample evidence, and the session row.
pub open spec fn recording_decision_of(
    required: Seq<String>,
    active: Seq<String>,
    session: Option<SessionRow>,
) -> Result<bool, StoreError> {
    if !all_kinds_named(required) {
        Err(StoreError::IntegrityMismatch("required media source kind is unsupported"))
    } else if required.len() == 0 {
        Err(StoreError::InvalidState("required-source plan is missing"))
    } else if !all_kinds_named(active) {
        Err(StoreError::IntegrityMismatch("required media source kind is unsupported"))
    } else if name_views(active) != name_views(required) {
        Err(StoreError::InvalidState("not every required source has durable first-sample evidence"))
    } else if session is None {
        Err(StoreError::InvalidState("session does not exist"))
    } else if session->0.lifecycle@ == "recording"@ {
        Ok(true)
    } else if session->0.lifecycle@ != "preparing"@ || !session->0.journal_durable || !session->0.media_files_open {
        Err(StoreError::InvalidState("session durability is insufficient for Recording"))
    } else {
        Ok(false)
    }
}

proof fn lemma_same_names(kinds_a: Seq<MediaSourceKind>, a: Seq<String>, kinds_b: Seq<MediaSourceKind>, b: Seq<String>)
    requires
        kinds_named(kinds_a, a),
        kinds_named(kinds_b, b),
    ensures
        (kinds_a == kinds_b) == (name_views(a) == name_views(b)),
{
    lemma_kind_names();
    let left = name_views(a);
    let right = name_views(b);
    if kinds_a == kinds_b {
        assert forall|i: int| 0 <= i < left.len() implies left[i] == right[i] by {
            assert(source_kind_name(kinds_a[i]) == a[i]@);
            assert(source_kind_name(kinds_b[i]) == b[i]@);
        }
        assert(left =~= right);
    }
    if left == right {
        assert(left.len() == a.len());
        assert(right.len() == b.len());
        assert forall|i: int| 0 <= i < kinds_a.len() implies kinds_a[i] == kinds_b[i] by {
            assert(left[i] == right[i]);
            assert(left[i] == a[i]@);
            assert(right[i] == b[i]@);
            assert(source_kind_name(kinds_a[i]) == source_kind_name(kinds_b[i]));
        }
        assert(kinds_a =~= kinds_b);
    }
}

/// Decides whether the session may enter Recording.
pub fn decide_recording_start(
    required_names: &Vec<String>,
    active_names: &Vec<String>,
    session: Option<SessionRow>,
) -> (decision: Result<RecordingDecision, StoreError>)
    ensures
        match decision {
            Ok(found) => {
                &&& recording_decision_of(required_names@, active_names@, session) == Ok::<bool, StoreError>(
                    found.already_recording,
                )
                &&& kinds_named(found.required_sources@, required_names@)
                &&& found.active_sources@ == found.required_sources@
            },
            Err(error) => recording_decision_of(required_names@, active_names@, session) == Err::<bool, StoreError>(
                error,
            ),
        },
{
    let required_sources = match kinds_from_names(required_names) {
        Ok(kinds) => kinds,
        Err(error) => {
            return Err(error);
        },
    };
    if required_sources.len() == 0 {
        return Err(StoreError::InvalidState("required-source plan is missing"));
    }
    let active_sources = match kinds_from_names(active_names) {
        Ok(kinds) => kinds,
        Err(error) => {
            return Err(error);
        },
    };
    proof {
        lemma_same_names(active_sources@, active_names@, required_sources@, required_names@);
    }
    if !same_kinds(&active_sources, &required_sources) {
        return Err(StoreError::InvalidState("not every required source has durable first-sample evidence"));
    }
    let row = match session {
        Some(row) => row,
        None => {
            return Err(StoreError::InvalidState("session does not exist"));
        },
    };
    if str_equal(row.lifecycle.as_str(), "recording") {
        return Ok(RecordingDecision { required_sources, active_sources, already_recording: true });
    }
    if !str_equal(row.lifecycle.as_str(), "preparing") || !row.journal_durable || !row.media_files_open {
        return Err(StoreError::InvalidState("session durability is insufficient for Recording"));
    }
    Ok(RecordingDecision { required_sources, active_sources, already_recording: false })
}

/// Recording is entered only with a non-empty plan, first-sample evidence for
/// exactly the planned kinds, and a preparing session whose journal is durable
/// and whose media files are open; an answer that reports a session already
/// recording comes only from a session that records.
pub proof fn lemma_recording_requires_every_source(
    required: Seq<String>,
    active: Seq<String>,
    session: Option<SessionRow>,
)
    requires
        recording_decision_of(required, active, session) is Ok,
    ensures
        required.len() > 0,
        all_kinds_named(required),
        name_views(active) == name_views(required),
        session is Some,
        recording_decision_of(required, active, session) == Ok::<bool, StoreError>(false) ==> {
            &&& session->0.lifecycle@ == "preparing"@
            &&& session->0.journal_durable
            &&& session->0.media_files_open
        },
        recording_decision_of(required, active, session) == Ok::<bool, StoreError>(true) ==> session->0.lifecycle@
            == "recording"@,
{
}

/// The evidence Recording answers with.
pub fn recording_evidence(
    session_id: SessionId,
    decision: RecordingDecision,
    journal_durable: bool,
    media_files_open: bool,
    last_journal_sequence: u64,
) -> (evidence: RecordingStartedEvidence)
    ensures
        evidence.session_id == session_id,
        evidence.required_sources@ == decision.required_sources@,
        evidence.active_sources@ == decision.active_sources@,
        evidence.journal_durable == journal_durable,
        evidence.media_files_open == media_files_open,
        evidence.recording_started,
        evidence.last_journal_sequence == last_journal_sequence,
{
    RecordingStartedEvidence {
        session_id,
        required_sources: decision.required_sources,
        active_sources: decision.active_sources,
        journal_durable,
        media_files_open,
        recording_started: true,
        last_journal_sequence,
    }
}

// ---------------------------------------------------------------------------
// Interruption.

/// The last record of a valid session journal, as far as interruption needs it.
pub struct LastRecord {
    pub event_kind: String,
    /// The `reason` string of its payload, if it has one.
    pub reason: Option<String>,
    pub sequence: u64,
}

/// The step an interruption request leads to.
#[derive(Clone, Copy, Debug, Eq, PartialEq, Structural)]
pub enum InterruptionStep {
    /// The journal already holds this interruption; `project` asks to repair
    /// the database projection from it.
    Replay { project: bool },
    /// Journal the interruption, then project it.
    Append,
}

pub open spec fn awaiting_interruption(lifecycle: Seq<char>) -> bool {
    lifecycle == "preparing"@ || lifecycle == "recording"@
}

/// How an interruption request is answered, from the session row's lifecycle
/// and the last record of its journal (`None` when the journal is empty),
/// given that the journal is valid.
pub open spec fn interruption_decision_of(
    request: InterruptSessionRequest,
    lifecycle: Option<Seq<char>>,
    journal_valid: bool,
    last: Option<LastRecord>,
) -> Result<InterruptionStep, StoreError> {
    if !uuid_text(request.session_id.0@) {
        Err(StoreError::InvalidRequest("session ID is not a UUID"))
    } else if lifecycle is None {
        Err(StoreError::InvalidState("session does not exist"))
    } else if !journal_valid {
        Err(StoreError::IntegrityMismatch("session journal is invalid"))
    } else if last is None {
        Err(StoreError::IntegrityMismatch("session journal is empty"))
    } else if last->0.event_kind@ == "session_interrupted"@ {
        if last->0.reason is None {
            Err(StoreError::IntegrityMismatch("journal payload is missing a string field"))
        } else if forall|r: SessionInterruptionReason| reason_name(r) != last->0.reason->0@ {
            Err(StoreError::IntegrityMismatch("session interruption reason is unsupported"))
        } else if reason_name(request.reason) != last->0.reason->0@ {
            Err(StoreError::IntegrityMismatch("repeated interruption changed accepted evidence"))
        } else if awaiting_interruption(lifecycle->0) {
            Ok(InterruptionStep::Replay { project: true })
        } else if lifecycle->0 != "interrupted"@ {
            Err(StoreError::InvalidState("session is not awaiting interruption evidence"))
        } else {
            Ok(InterruptionStep::Replay { project: false })
        }
    } else if lifecycle->0 == "interrupted"@ {
        Err(StoreError::IntegrityMismatch("session projection has no interruption evidence"))
    } else if !awaiting_interruption(lifecycle->0) {
        Err(StoreError::InvalidState("session is not awaiting interruption evidence"))
    } else {
        Ok(InterruptionStep::Append)
    }
}

pub open spec fn text_of(text: Option<String>) -> Option<Seq<char>> {
    match text {
        Some(t) => Some(t@),
        None => None,
    }
}

/// Decides how to answer a request to mark a session interrupted.
pub fn decide_interruption(
    request: &InterruptSessionRequest,
    lifecycle: Option<String>,
    journal_valid: bool,
    last: Option<LastRecord>,
) -> (step: Result<InterruptionStep, StoreError>)
    ensures
        step == interruption_decision_of(*request, text_of(lifecycle), journal_valid, last),
{
    if !parses_as_uuid(request.session_id.0.as_str()) {
        return Err(StoreError::InvalidRequest("session ID is not a UUID"));
    }
    let lifecycle = match lifecycle {
        Some(lifecycle) => lifecycle,
        None => {
            return Err(StoreError::InvalidState("session does not exist"));
        },
    };
    if !journal_valid {
        return Err(StoreError::IntegrityMismatch("session journal is invalid"));
    }
    let last = match last {
        Some(last) => last,
        None => {
            return Err(StoreError::IntegrityMismatch("session journal is empty"));
        },
    };
    let awaiting = str_equal(lifecycle.as_str(), "preparing") || str_equal(lifecycle.as_str(), "recording");
    if str_equal(last.event_kind.as_str(), "session_interrupted") {
        let reason_text = match &last.reason {
            Some(reason) => reason,
            None => {
                return Err(StoreError::IntegrityMismatch("journal payload is missing a string field"));
            },
        };
        let accepted = match SessionInterruptionReason::from_str(reason_text.as_str()) {
            Ok(reason) => reason,
            Err(error) => {
                return Err(error);
            },
        };
        proof {
            lemma_reason_names();
        }
        if accepted != request.reason {
            return Err(StoreError::IntegrityMismatch("repeated interruption changed accepted evidence"));
        }
        if awaiting {
            return Ok(InterruptionStep::Replay { project: true });
        }
        if !str_equal(lifecycle.as_str(), "interrupted") {
            return Err(StoreError::InvalidState("session is not awaiting interruption evidence"));
        }
        return Ok(InterruptionStep::Replay { project: false });
    }
    if str_equal(lifecycle.as_str(), "interrupted") {
        return Err(StoreError::IntegrityMismatch("session projection has no interruption evidence"));
    }
    if !awaiting {
        return Err(StoreError::InvalidState("session is not awaiting interruption evidence"));
    }
    Ok(InterruptionStep::Append)
}

/// Repeating an accepted interruption changes nothing. Once the journal ends
/// with the interruption and the session row reads "interrupted", the same
/// request is answered from the journal alone; while the row still lags
/// behind, it is answered by repairing the row; and a request that names
/// another reason is refused, whatever the row says.
pub proof fn lemma_interruption_replay(
    request: InterruptSessionRequest,
    other: SessionInterruptionReason,
    lifecycle: Seq<char>,
    last: LastRecord,
)
    requires
        uuid_text(request.session_id.0@),
        last.event_kind@ == "session_interrupted"@,
        text_of(last.reason) == Some(reason_name(request.reason)),
    ensures
        interruption_decision_of(request, Some("interrupted"@), true, Some(last)) == Ok::<
            InterruptionStep,
            StoreError,
        >(InterruptionStep::Replay { project: false }),
        awaiting_interruption(lifecycle) ==> interruption_decision_of(request, Some(lifecycle), true, Some(last))
            == Ok::<InterruptionStep, StoreError>(InterruptionStep::Replay { project: true }),
        other != request.reason ==> interruption_decision_of(
            InterruptSessionRequest { reason: other, ..request },
            Some(lifecycle),
            true,
            Some(last),
        ) == Err::<InterruptionStep, StoreError>(
            StoreError::IntegrityMismatch("repeated interruption changed accepted evidence"),
        ),
{
    lemma_reason_names();
    reveal_strlit("interrupted");
    reveal_strlit("preparing");
    reveal_strlit("recording");
    assert("interrupted"@[0] != "preparing"@[0]);
    assert("interrupted"@[0] != "recording"@[0]);
    assert(reason_name(request.reason) == last.reason->0@);
}

/// The evidence an interruption answers with.
pub fn interruption_evidence(request: InterruptSessionRequest, last_journal_sequence: u64) -> (evidence:
    SessionInterruptionEvidence)
    ensures
        evidence.session_id == request.session_id,
        evidence.reason == request.reason,
        evidence.journal_durable,
        evidence.session_interrupted,
        !evidence.recording_started,
        evidence.last_journal_sequence == last_journal_sequence,
{
    SessionInterruptionEvidence {
        session_id: request.session_id,
        reason: request.reason,
        journal_durable: true,
        session_interrupted: true,
        recording_started: false,
        last_journal_sequence,
    }
}

// ---------------------------------------------------------------------------
// Media authorization.

/// The projected authorization row of one segment.
pub struct StoredMediaAuthorization {
    pub session_id: String,
    pub source_id: String,
    pub track_id: String,
    pub relative_path: String,
    pub media_format: String,
    pub lifecycle: String,
    pub open_token: String,
    pub writer_generation: u64,
    pub byte_length: Option<u64>,
    pub file_device: Option<u64>,
    pub file_inode: Option<u64>,
}

/// Whether a new segment may be authorized for `request`, given the session
/// row, whether its kind is in the plan, and whether it already has a source.
pub open spec fn authorization_decision_of(
    request: AuthorizeMediaOpenRequest,
    session: Option<SessionRow>,
    planned: bool,
    already_authorized: bool,
) -> Result<(), StoreError> {
    if media_request_verdict(request) is Err {
        media_request_verdict(request)
    } else if session is None {
        Err(StoreError::InvalidState("session does not exist"))
    } else if session->0.lifecycle@ != "preparing"@ || !session->0.journal_durable {
        Err(StoreError::InvalidState("session is not awaiting required media files"))
    } else if !planned {
        Err(StoreError::InvalidState("media source is not part of the required-source plan"))
    } else if already_authorized {
        Err(StoreError::InvalidState("media authorization already exists for this required source"))
    } else {
        Ok(())
    }
}

pub fn decide_media_authorization(
    request: &AuthorizeMediaOpenRequest,
    session: Option<SessionRow>,
    planned: bool,
    already_authorized: bool,
) -> (verdict: Result<(), StoreError>)
    ensures
        verdict == authorization_decision_of(*request, session, planned, already_authorized),
{
    match validate_media_request(request) {
        Ok(()) => {},
        Err(error) => {
            return Err(error);
        },
    }
    let row = match session {
        Some(row) => row,
        None => {
            return Err(StoreError::InvalidState("session does not exist"));
        },
    };
    if !str_equal(row.lifecycle.as_str(), "preparing") || !row.journal_durable {
        return Err(StoreError::InvalidState("session is not awaiting required media files"));
    }
    if !planned {
        return Err(StoreError::InvalidState("media source is not part of the required-source plan"));
    }
    if already_authorized {
        return Err(StoreError::InvalidState("media authorization already exists for this required source"));
    }
    Ok(())
}

/// A hyphenated identifier in lower case, as `uuid::Uuid` displays itself.
pub open spec fn canonical_uuid(text: Seq<char>) -> bool {
    &&& hyphenated_uuid(text)
    &&& forall|i: int| 0 <= i < text.len() ==> !('A' <= #[trigger] text[i] <= 'Z')
}

/// `uuid::Uuid::now_v7().to_string()`: a fresh time-ordered identifier; its
/// value depends on the clock and on chance, its text is always hyphenated lower case.
#[verifier::external_body]
pub(crate) fn new_identifier() -> (id: String)
    ensures
        canonical_uuid(id@),
{
    uuid::Uuid::now_v7().to_string()
}

/// `relative` below `directory`, as `Path::join` composes a relative path.
pub open spec fn joined_path(directory: Seq<char>, relative: Seq<char>) -> Seq<char> {
    if directory.len() == 0 || directory.last() == '/' {
        directory + relative
    } else {
        directory + "/"@ + relative
    }
}

/// The managed path of the first segment of a track.
pub open spec fn first_segment_path(track_id: Seq<char>) -> Seq<char> {
    "audio/"@ + track_id + "/000000-0.caf"@
}

/// Allocates the identities and managed path of the first segment of a new
/// source, inside the session directory `session_directory`.
pub fn new_media_authorization(request: AuthorizeMediaOpenRequest, session_directory: &str) -> (authorization:
    MediaOpenAuthorization)
    ensures
        authorization.session_id == request.session_id,
        canonical_uuid(authorization.source_id@),
        canonical_uuid(authorization.track_id@),
        canonical_uuid(authorization.segment_id@),
        canonical_uuid(authorization.open_token@),
        authorization.writer_generation == 1,
        authorization.relative_path@ == first_segment_path(authorization.track_id@),
        authorization.absolute_path@ == joined_path(session_directory@, authorization.relative_path@),
        authorization.media_format@ == MEDIA_FORMAT_CAF_PCM_S16LE@,
        authorization.sample_rate_hz == MEDIA_SAMPLE_RATE_HZ,
        authorization.channels == 1,
        authorization.mapped_start_nanoseconds == 0,
{
    let source_id = new_identifier();
    let track_id = new_identifier();
    let segment_id = new_identifier();
    let open_token = new_identifier();
    let mut relative_path = String::from_str("audio/");
    relative_path.append(track_id.as_str());
    relative_path.append("/000000-0.caf");
    let absolute_path = crate::controller::join_path(session_directory, relative_path.as_str());
    MediaOpenAuthorization {
        session_id: request.session_id,
        source_id,
        track_id,
        segment_id,
        open_token,
        writer_generation: 1,
        relative_path,
        absolute_path,
        media_format: String::from_str(MEDIA_FORMAT_CAF_PCM_S16LE),
        sample_rate_hz: MEDIA_SAMPLE_RATE_HZ,
        channels: 1,
        mapped_start_nanoseconds: 0,
    }
}

// ---------------------------------------------------------------------------
// Media-open receipts.

/// The step a media-open receipt leads to once it matches its authorization.
#[derive(Clone, Copy, Debug, Eq, PartialEq, Structural)]
pub enum MediaOpenStep {
    /// Already accepted: the file must still be the accepted one, at least as long.
    Replay { accepted_length: u64, device: u64, inode: u64 },
    /// Awaiting evidence: the file must be exactly the reported length.
    Accept,
}

pub open spec fn media_receipt_matches(receipt: MediaOpenReceipt, stored: StoredMediaAuthorization) -> bool {
    &&& stored.session_id@ == receipt.session_id.0@
    &&& stored.track_id@ == receipt.track_id@
    &&& stored.open_token@ == receipt.open_token@
    &&& stored.writer_generation == receipt.writer_generation
    &&& stored.relative_path@ == receipt.relative_path@
    &&& stored.media_format@ == receipt.media_format@
}

pub open spec fn media_open_decision_of(receipt: MediaOpenReceipt, stored: Option<StoredMediaAuthorization>) -> Result<
    MediaOpenStep,
    StoreError,
> {
    if media_receipt_verdict(receipt) is Err {
        Err(media_receipt_verdict(receipt)->Err_0)
    } else if stored is None {
        Err(StoreError::InvalidState("media authorization does not exist"))
    } else if !media_receipt_matches(receipt, stored->0) {
        Err(StoreError::IntegrityMismatch("writer receipt does not match Rust authorization"))
    } else if stored->0.lifecycle@ == "open"@ {
        if stored->0.byte_length is None {
            Err(StoreError::IntegrityMismatch("accepted media length is missing"))
        } else if stored->0.file_device is None {
            Err(StoreError::IntegrityMismatch("accepted media device is missing"))
        } else if stored->0.file_inode is None {
            Err(StoreError::IntegrityMismatch("accepted media inode is missing"))
        } else if receipt.initial_byte_length != stored->0.byte_length->0 {
            Err(StoreError::IntegrityMismatch("repeated receipt changed the accepted media length"))
        } else {
            Ok(
                MediaOpenStep::Replay {
                    accepted_length: stored->0.byte_length->0,
                    device: stored->0.file_device->0,
                    inode: stored->0.file_inode->0,
                },
            )
        }
    } else if stored->0.lifecycle@ != "opening"@ {
        Err(StoreError::InvalidState("segment is not awaiting media-open evidence"))
    } else {
        Ok(MediaOpenStep::Accept)
    }
}

pub fn decide_media_open(receipt: &MediaOpenReceipt, stored: &Option<StoredMediaAuthorization>) -> (step: Result<
    MediaOpenStep,
    StoreError,
>)
    ensures
        step == media_open_decision_of(*receipt, *stored),
{
    match validate_media_receipt_shape(receipt) {
        Ok(()) => {},
        Err(error) => {
            return Err(error);
        },
    }
    let stored = match stored {
        Some(stored) => stored,
        None => {
            return Err(StoreError::InvalidState("media authorization does not exist"));
        },
    };
    if !str_equal(stored.session_id.as_str(), receipt.session_id.0.as_str()) || !str_equal(
        stored.track_id.as_str(),
        receipt.track_id.as_str(),
    ) || !str_equal(stored.open_token.as_str(), receipt.open_token.as_str()) || stored.writer_generation
        != receipt.writer_generation || !str_equal(stored.relative_path.as_str(), receipt.relative_path.as_str())
        || !str_equal(stored.media_format.as_str(), receipt.media_format.as_str()) {
        return Err(StoreError::IntegrityMismatch("writer receipt does not match Rust authorization"));
    }
    if str_equal(stored.lifecycle.as_str(), "open") {
        let accepted_length = match stored.byte_length {
            Some(length) => length,
            None => {
                return Err(StoreError::IntegrityMismatch("accepted media length is missing"));
            },
        };
        let device = match stored.file_device {
            Some(device) => device,
            None => {
                return Err(StoreError::IntegrityMismatch("accepted media device is missing"));
            },
        };
        let inode = match stored.file_inode {
            Some(inode) => inode,
            None => {
                return Err(StoreError::IntegrityMismatch("accepted media inode is missing"));
            },
        };
        if receipt.initial_byte_length != accepted_length {
            return Err(StoreError::IntegrityMismatch("repeated receipt changed the accepted media length"));
        }
        return Ok(MediaOpenStep::Replay { accepted_length, device, inode });
    }
    if !str_equal(stored.lifecycle.as_str(), "opening") {
        return Err(StoreError::InvalidState("segment is not awaiting media-open evidence"));
    }
    Ok(MediaOpenStep::Accept)
}

/// The file on disk must still be the file whose identity was accepted.
pub fn same_media_identity(device: u64, inode: u64, expected_device: u64, expected_inode: u64) -> (verdict: Result<
    (),
    StoreError,
>)
    ensures
        verdict == if device == expected_device && inode == expected_inode {
            Ok::<(), StoreError>(())
        } else {
            Err(StoreError::IntegrityMismatch("accepted media file identity changed"))
        },
{
    if device != expected_device || inode != expected_inode {
        return Err(StoreError::IntegrityMismatch("accepted media file identity changed"));
    }
    Ok(())
}

/// The evidence a media-open receipt answers with; it never starts Recording.
pub fn media_open_evidence(
    session_id: SessionId,
    segment_id: String,
    media_files_open: bool,
    last_journal_sequence: u64,
) -> (evidence: MediaOpenEvidence)
    ensures
        evidence.session_id == session_id,
        evidence.segment_id == segment_id,
        evidence.journal_durable,
        evidence.media_files_open == media_files_open,
        !evidence.recording_started,
        evidence.last_journal_sequence == last_journal_sequence,
{
    MediaOpenEvidence {
        session_id,
        segment_id,
        journal_durable: true,
        media_files_open,
        recording_started: false,
        last_journal_sequence,
    }
}

// ---------------------------------------------------------------------------
// First-sample receipts.

/// What a first-sample receipt needs of the file before its lifecycle is considered.
#[derive(Clone, Copy, Debug, Eq, PartialEq, Structural)]
pub struct FirstSampleCheck {
    pub minimum_length: u64,
    pub device: u64,
    pub inode: u64,
}

pub open spec fn first_sample_receipt_matches(receipt: FirstSampleReceipt, stored: StoredMediaAuthorization) -> bool {
    &&& stored.session_id@ == receipt.session_id.0@
    &&& stored.track_id@ == receipt.track_id@
    &&& stored.open_token@ == receipt.open_token@
    &&& stored.writer_generation == receipt.writer_generation
    &&& stored.relative_path@ == receipt.relative_path@
}

pub open spec fn first_sample_decision_of(receipt: FirstSampleReceipt, stored: Option<StoredMediaAuthorization>) -> Result<
    FirstSampleCheck,
    StoreError,
> {
    if first_sample_receipt_verdict(receipt) is Err {
        Err(first_sample_receipt_verdict(receipt)->Err_0)
    } else if stored is None {
        Err(StoreError::InvalidState("media authorization does not exist"))
    } else if !first_sample_receipt_matches(receipt, stored->0) {
        Err(StoreError::IntegrityMismatch("first-sample receipt does not match Rust authorization"))
    } else if stored->0.byte_length is None {
        Err(StoreError::InvalidState("media-open evidence is missing"))
    } else if stored->0.file_device is None {
        Err(StoreError::IntegrityMismatch("accepted media device is missing"))
    } else if stored->0.file_inode is None {
        Err(StoreError::IntegrityMismatch("accepted media inode is missing"))
    } else if receipt.observed_byte_length <= stored->0.byte_length->0 {
        Err(StoreError::IntegrityMismatch("first-sample evidence did not grow the media file"))
    } else {
        Ok(
            FirstSampleCheck {
                minimum_length: receipt.observed_byte_length,
                device: stored->0.file_device->0,
                inode: stored->0.file_inode->0,
            },
        )
    }
}

pub fn decide_first_sample(receipt: &FirstSampleReceipt, stored: &Option<StoredMediaAuthorization>) -> (check: Result<
    FirstSampleCheck,
    StoreError,
>)
    ensures
        check == first_sample_decision_of(*receipt, *stored),
{
    match validate_first_sample_receipt_shape(receipt) {
        Ok(()) => {},
        Err(error) => {
            return Err(error);
        },
    }
    let stored = match stored {
        Some(stored) => stored,
        None => {
            return Err(StoreError::InvalidState("media authorization does not exist"));
        },
    };
    if !str_equal(stored.session_id.as_str(), receipt.session_id.0.as_str()) || !str_equal(
        stored.track_id.as_str(),
        receipt.track_id.as_str(),
    ) || !str_equal(stored.open_token.as_str(), receipt.open_token.as_str()) || stored.writer_generation
        != receipt.writer_generation || !str_equal(stored.relative_path.as_str(), receipt.relative_path.as_str()) {
        return Err(StoreError::IntegrityMismatch("first-sample receipt does not match Rust authorization"));
    }
    let accepted_length = match stored.byte_length {
        Some(length) => length,
        None => {
            return Err(StoreError::InvalidState("media-open evidence is missing"));
        },
    };
    let device = match stored.file_device {
        Some(device) => device,
        None => {
            return Err(StoreError::IntegrityMismatch("accepted media device is missing"));
        },
    };
    let inode = match stored.file_inode {
        Some(inode) => inode,
        None => {
            return Err(StoreError::IntegrityMismatch("accepted media inode is missing"));
        },
    };
    if receipt.observed_byte_length <= accepted_length {
        return Err(StoreError::IntegrityMismatch("first-sample evidence did not grow the media file"));
    }
    Ok(FirstSampleCheck { minimum_length: receipt.observed_byte_length, device, inode })
}

/// The accepted first-sample payload fields, each `None` when missing.
pub struct FirstSamplePayload {
    pub track_id: Option<String>,
    pub first_sample_host_time: Option<u64>,
    pub first_sample_frame_count: Option<u64>,
    pub observed_byte_length: Option<u64>,
}

pub open spec fn missing_unsigned() -> StoreError {
    StoreError::IntegrityMismatch("journal payload is missing an unsigned field")
}

pub open spec fn missing_string() -> StoreError {
    StoreError::IntegrityMismatch("journal payload is missing a string field")
}

/// A repeated first-sample receipt must restate the accepted evidence exactly.
pub open spec fn first_sample_replay_of(receipt: FirstSampleReceipt, accepted: FirstSamplePayload) -> Result<
    (),
    StoreError,
> {
    let changed = Err(StoreError::IntegrityMismatch("repeated first-sample receipt changed accepted evidence"));
    if accepted.first_sample_host_time is None {
        Err(missing_unsigned())
    } else if accepted.first_sample_host_time->0 != receipt.first_sample_host_time {
        changed
    } else if accepted.first_sample_frame_count is None {
        Err(missing_unsigned())
    } else if accepted.first_sample_frame_count->0 != receipt.first_sample_frame_count {
        changed
    } else if accepted.observed_byte_length is None {
        Err(missing_unsigned())
    } else if accepted.observed_byte_length->0 != receipt.observed_byte_length {
        changed
    } else {
        Ok(())
    }
}

pub fn check_first_sample_replay(receipt: &FirstSampleReceipt, accepted: &FirstSamplePayload) -> (verdict: Result<
    (),
    StoreError,
>)
    ensures
        verdict == first_sample_replay_of(*receipt, *accepted),
{
    let changed = StoreError::IntegrityMismatch("repeated first-sample receipt changed accepted evidence");
    match accepted.first_sample_host_time {
        None => {
            return Err(StoreError::IntegrityMismatch("journal payload is missing an unsigned field"));
        },
        Some(value) => if value != receipt.first_sample_host_time {
            return Err(changed);
        },
    }
    match accepted.first_sample_frame_count {
        None => {
            return Err(StoreError::IntegrityMismatch("journal payload is missing an unsigned field"));
        },
        Some(value) => if value != receipt.first_sample_frame_count {
            return Err(changed);
        },
    }
    match accepted.observed_byte_length {
        None => {
            return Err(StoreError::IntegrityMismatch("journal payload is missing an unsigned field"));
        },
        Some(value) => if value != receipt.observed_byte_length {
            return Err(changed);
        },
    }
    Ok(())
}

/// After the file checks: `Ok(true)` to answer a replay, `Ok(false)` to journal new evidence.
pub open spec fn first_sample_lifecycle_of(segment_lifecycle: Seq<char>, session: Option<SessionRow>) -> Result<
    bool,
    StoreError,
> {
    if segment_lifecycle == "capturing"@ {
        Ok(true)
    } else if segment_lifecycle != "open"@ {
        Err(StoreError::InvalidState("segment is not awaiting first-sample evidence"))
    } else if session is None {
        Err(StoreError::InvalidState("session does not exist"))
    } else if session->0.lifecycle@ != "preparing"@ || !session->0.journal_durable || !session->0.media_files_open {
        Err(StoreError::InvalidState("session is not ready for first-sample evidence"))
    } else {
        Ok(false)
    }
}

pub fn decide_first_sample_lifecycle(segment_lifecycle: &str, session: Option<SessionRow>) -> (replay: Result<
    bool,
    StoreError,
>)
    ensures
        replay == first_sample_lifecycle_of(segment_lifecycle@, session),
{
    if str_equal(segment_lifecycle, "capturing") {
        return Ok(true);
    }
    if !str_equal(segment_lifecycle, "open") {
        return Err(StoreError::InvalidState("segment is not awaiting first-sample evidence"));
    }
    let row = match session {
        Some(row) => row,
        None => {
            return Err(StoreError::InvalidState("session does not exist"));
        },
    };
    if !str_equal(row.lifecycle.as_str(), "preparing") || !row.journal_durable || !row.media_files_open {
        return Err(StoreError::InvalidState("session is not ready for first-sample evidence"));
    }
    Ok(false)
}

/// The evidence a first-sample receipt answers with; it never starts Recording.
pub fn first_sample_evidence(session_id: SessionId, segment_id: String, last_journal_sequence: u64) -> (evidence:
    FirstSampleEvidence)
    ensures
        evidence.session_id == session_id,
        evidence.segment_id == segment_id,
        evidence.first_sample_session_nanoseconds == 0,
        evidence.journal_durable,
        evidence.media_files_open,
        evidence.first_sample_durable,
        !evidence.recording_started,
        evidence.last_journal_sequence == last_journal_sequence,
{
    FirstSampleEvidence {
        session_id,
        segment_id,
        first_sample_session_nanoseconds: 0,
        journal_durable: true,
        media_files_open: true,
        first_sample_durable: true,
        recording_started: false,
        last_journal_sequence,
    }
}

// ---------------------------------------------------------------------------
// Segment-seal receipts.

/// The accepted identity of the file a seal receipt must still name.
#[derive(Clone, Copy, Debug, Eq, PartialEq, Structural)]
pub struct SealCheck {
    pub device: u64,
    pub inode: u64,
}

pub open spec fn seal_receipt_matches(receipt: SealSegmentReceipt, stored: StoredMediaAuthorization) -> bool {
    &&& stored.session_id@ == receipt.session_id.0@
    &&& stored.track_id@ == receipt.track_id@
    &&& stored.open_token@ == receipt.open_token@
    &&& stored.writer_generation == receipt.writer_generation
    &&& stored.relative_path@ == receipt.relative_path@
}

pub open spec fn seal_decision_of(receipt: SealSegmentReceipt, stored: Option<StoredMediaAuthorization>) -> Result<
    SealCheck,
    StoreError,
> {
    if seal_receipt_verdict(receipt) is Err {
        Err(seal_receipt_verdict(receipt)->Err_0)
    } else if stored is None {
        Err(StoreError::InvalidState("media authorization does not exist"))
    } else if !seal_receipt_matches(receipt, stored->0) {
        Err(StoreError::IntegrityMismatch("segment-seal receipt does not match Rust authorization"))
    } else if stored->0.file_device is None || stored->0.file_inode is None {
        Err(StoreError::InvalidState("media-open evidence is missing"))
    } else {
        Ok(SealCheck { device: stored->0.file_device->0, inode: stored->0.file_inode->0 })
    }
}

pub fn decide_segment_seal(receipt: &SealSegmentReceipt, stored: &Option<StoredMediaAuthorization>) -> (check: Result<
    SealCheck,
    StoreError,
>)
    ensures
        check == seal_decision_of(*receipt, *stored),
{
    match validate_seal_receipt_shape(receipt) {
        Ok(()) => {},
        Err(error) => {
            return Err(error);
        },
    }
    let stored = match stored {
        Some(stored) => stored,
        None => {
            return Err(StoreError::InvalidState("media authorization does not exist"));
        },
    };
    if !str_equal(stored.session_id.as_str(), receipt.session_id.0.as_str()) || !str_equal(
        stored.track_id.as_str(),
        receipt.track_id.as_str(),
    ) || !str_equal(stored.open_token.as_str(), receipt.open_token.as_str()) || stored.writer_generation
        != receipt.writer_generation || !str_equal(stored.relative_path.as_str(), receipt.relative_path.as_str()) {
        return Err(StoreError::IntegrityMismatch("segment-seal receipt does not match Rust authorization"));
    }
    match (stored.file_device, stored.file_inode) {
        (Some(device), Some(inode)) => Ok(SealCheck { device, inode }),
        _ => Err(StoreError::InvalidState("media-open evidence is missing")),
    }
}

/// A seal may not precede its first sample, in host time or in sample count.
pub open spec fn seal_timing_of(receipt: SealSegmentReceipt, first: Option<FirstSamplePayload>) -> Result<(), StoreError> {
    let precedes = Err(StoreError::IntegrityMismatch("segment-seal timing or sample total precedes the first sample"));
    if first is None {
        Err(StoreError::InvalidState("first-sample evidence is missing"))
    } else if first->0.track_id is None {
        Err(missing_string())
    } else if first->0.track_id->0@ != receipt.track_id@ {
        precedes
    } else if first->0.first_sample_host_time is None {
        Err(missing_unsigned())
    } else if receipt.final_sample_host_time < first->0.first_sample_host_time->0 {
        precedes
    } else if first->0.first_sample_frame_count is None {
        Err(missing_unsigned())
    } else if receipt.sample_count < first->0.first_sample_frame_count->0 {
        precedes
    } else {
        Ok(())
    }
}

pub fn check_seal_timing(receipt: &SealSegmentReceipt, first: &Option<FirstSamplePayload>) -> (verdict: Result<
    (),
    StoreError,
>)
    ensures
        verdict == seal_timing_of(*receipt, *first),
{
    let first = match first {
        Some(first) => first,
        None => {
            return Err(StoreError::InvalidState("first-sample evidence is missing"));
        },
    };
    let precedes = StoreError::IntegrityMismatch("segment-seal timing or sample total precedes the first sample");
    match &first.track_id {
        None => {
            return Err(StoreError::IntegrityMismatch("journal payload is missing a string field"));
        },
        Some(track) => if !str_equal(track.as_str(), receipt.track_id.as_str()) {
            return Err(precedes);
        },
    }
    match first.first_sample_host_time {
        None => {
            return Err(StoreError::IntegrityMismatch("journal payload is missing an unsigned field"));
        },
        Some(host_time) => if receipt.final_sample_host_time < host_time {
            return Err(precedes);
        },
    }
    match first.first_sample_frame_count {
        None => {
            return Err(StoreError::IntegrityMismatch("journal payload is missing an unsigned field"));
        },
        Some(frames) => if receipt.sample_count < frames {
            return Err(precedes);
        },
    }
    Ok(())
}

/// After the file checks: `Ok(true)` to answer a replay, `Ok(false)` to journal the seal.
pub open spec fn seal_lifecycle_of(segment_lifecycle: Seq<char>) -> Result<bool, StoreError> {
    if segment_lifecycle == "sealed"@ {
        Ok(true)
    } else if segment_lifecycle != "capturing"@ {
        Err(StoreError::InvalidState("segment is not awaiting seal evidence"))
    } else {
        Ok(false)
    }
}

pub fn decide_seal_lifecycle(segment_lifecycle: &str) -> (replay: Result<bool, StoreError>)
    ensures
        replay == seal_lifecycle_of(segment_lifecycle@),
{
    if str_equal(segment_lifecycle, "sealed") {
        return Ok(true);
    }
    if !str_equal(segment_lifecycle, "capturing") {
        return Err(StoreError::InvalidState("segment is not awaiting seal evidence"));
    }
    Ok(false)
}

/// The accepted seal payload fields, each `None` when missing.
pub struct SealPayload {
    pub track_id: Option<String>,
    pub open_token: Option<String>,
    pub relative_path: Option<String>,
    pub writer_generation: Option<u64>,
    pub final_sample_host_time: Option<u64>,
    pub sample_count: Option<u64>,
    pub final_byte_length: Option<u64>,
    pub digest_sha256: Option<String>,
}

pub open spec fn text_field_of(field: Option<String>, expected: Seq<char>) -> Result<bool, StoreError> {
    match field {
        None => Err(missing_string()),
        Some(value) => Ok(value@ == expected),
    }
}

pub open spec fn number_field_of(field: Option<u64>, expected: u64) -> Result<bool, StoreError> {
    match field {
        None => Err(missing_unsigned()),
        Some(value) => Ok(value == expected),
    }
}

/// `rest` when `check` holds; the check's error, or `failure`, otherwise.
pub open spec fn then_check(check: Result<bool, StoreError>, rest: Result<(), StoreError>, failure: StoreError) -> Result<
    (),
    StoreError,
> {
    match check {
        Err(error) => Err(error),
        Ok(holds) => if holds { rest } else { Err(failure) },
    }
}

pub open spec fn seal_changed() -> StoreError {
    StoreError::IntegrityMismatch("repeated segment-seal receipt changed accepted evidence")
}

/// A repeated seal receipt must restate the accepted seal exactly, and the
/// file must still carry the accepted digest; fields are compared in payload order.
pub open spec fn seal_replay_of(receipt: SealSegmentReceipt, digest: Seq<char>, sealed: Option<SealPayload>) -> Result<
    (),
    StoreError,
> {
    if sealed is None {
        Err(StoreError::InvalidState("segment-seal evidence is missing"))
    } else {
        let accepted = sealed->0;
        then_check(
            text_field_of(accepted.track_id, receipt.track_id@),
            then_check(
                text_field_of(accepted.open_token, receipt.open_token@),
                then_check(
                    text_field_of(accepted.relative_path, receipt.relative_path@),
                    then_check(
                        number_field_of(accepted.writer_generation, receipt.writer_generation),
                        then_check(
                            number_field_of(accepted.final_sample_host_time, receipt.final_sample_host_time),
                            then_check(
                                number_field_of(accepted.sample_count, receipt.sample_count),
                                then_check(
                                    number_field_of(accepted.final_byte_length, receipt.final_byte_length),
                                    then_check(text_field_of(accepted.digest_sha256, digest), Ok(()), seal_changed()),
                                    seal_changed(),
                                ),
                                seal_changed(),
                            ),
                            seal_changed(),
                        ),
                        seal_changed(),
                    ),
                    seal_changed(),
                ),
                seal_changed(),
            ),
            seal_changed(),
        )
    }
}

fn text_field(field: &Option<String>, expected: &str) -> (verdict: Result<bool, StoreError>)
    ensures
        verdict == text_field_of(*field, expected@),
{
    match field {
        None => Err(StoreError::IntegrityMismatch("journal payload is missing a string field")),
        Some(value) => Ok(str_equal(value.as_str(), expected)),
    }
}

fn number_field(field: Option<u64>, expected: u64) -> (verdict: Result<bool, StoreError>)
    ensures
        verdict == number_field_of(field, expected),
{
    match field {
        None => Err(StoreError::IntegrityMismatch("journal payload is missing an unsigned field")),
        Some(value) => Ok(value == expected),
    }
}

fn require(check: Result<bool, StoreError>) -> (verdict: Result<(), StoreError>)
    ensures
        verdict == then_check(check, Ok(()), seal_changed()),
{
    match check {
        Err(error) => Err(error),
        Ok(holds) => if holds {
            Ok(())
        } else {
            Err(StoreError::IntegrityMismatch("repeated segment-seal receipt changed accepted evidence"))
        },
    }
}

pub fn check_seal_replay(receipt: &SealSegmentReceipt, digest: &str, sealed: &Option<SealPayload>) -> (verdict: Result<
    (),
    StoreError,
>)
    ensures
        verdict == seal_replay_of(*receipt, digest@, *sealed),
{
    let accepted = match sealed {
        Some(accepted) => accepted,
        None => {
            return Err(StoreError::InvalidState("segment-seal evidence is missing"));
        },
    };
    if let Err(error) = require(text_field(&accepted.track_id, receipt.track_id.as_str())) {
        return Err(error);
    }
    if let Err(error) = require(text_field(&accepted.open_token, receipt.open_token.as_str())) {
        return Err(error);
    }
    if let Err(error) = require(text_field(&accepted.relative_path, receipt.relative_path.as_str())) {
        return Err(error);
    }
    if let Err(error) = require(number_field(accepted.writer_generation, receipt.writer_generation)) {
        return Err(error);
    }
    if let Err(error) = require(number_field(accepted.final_sample_host_time, receipt.final_sample_host_time)) {
        return Err(error);
    }
    if let Err(error) = require(number_field(accepted.sample_count, receipt.sample_count)) {
        return Err(error);
    }
    if let Err(error) = require(number_field(accepted.final_byte_length, receipt.final_byte_length)) {
        return Err(error);
    }
    require(text_field(&accepted.digest_sha256, digest))
}

/// The evidence a seal answers with; it never starts Recording.
pub fn sealed_segment_evidence(
    receipt: SealSegmentReceipt,
    digest_sha256: String,
    last_journal_sequence: u64,
) -> (evidence: SealedSegmentEvidence)
    ensures
        evidence.session_id == receipt.session_id,
        evidence.segment_id == receipt.segment_id,
        evidence.sample_count == receipt.sample_count,
        evidence.final_byte_length == receipt.final_byte_length,
        evidence.digest_sha256 == digest_sha256,
        evidence.segment_sealed,
        !evidence.recording_started,
        evidence.last_journal_sequence == last_journal_sequence,
{
    SealedSegmentEvidence {
        session_id: receipt.session_id,
        segment_id: receipt.segment_id,
        sample_count: receipt.sample_count,
        final_byte_length: receipt.final_byte_length,
        digest_sha256,
        segment_sealed: true,
        recording_started: false,
        last_journal_sequence,
    }
}


/// Whenever the seal-timing check accepts a receipt, the first sample is
/// known, belongs to the receipt's track, and the seal does not precede it:
/// its final host time is at least the first sample's host time and its
/// sample count at least the first sample's frame count.
pub proof fn lemma_seal_follows_first_sample(receipt: SealSegmentReceipt, first: Option<FirstSamplePayload>)
    requires
        seal_timing_of(receipt, first) is Ok,
    ensures
        first is Some,
        first->0.track_id matches Some(track) && track@ == receipt.track_id@,
        first->0.first_sample_host_time matches Some(host_time) && receipt.final_sample_host_time >= host_time,
        first->0.first_sample_frame_count matches Some(frames) && receipt.sample_count >= frames,
{
}

/// A first-sample decision succeeds only for a stored authorization with an
/// accepted media-open length, device and inode, and only when the receipt
/// reports a file that grew past that length; the check then asks the file
/// for at least the observed length under the accepted identity.
pub proof fn lemma_first_sample_grows_the_file(receipt: FirstSampleReceipt, stored: Option<StoredMediaAuthorization>)
    requires
        first_sample_decision_of(receipt, stored) is Ok,
    ensures
        stored is Some,
        stored->0.byte_length matches Some(accepted) && receipt.observed_byte_length > accepted,
        first_sample_decision_of(receipt, stored)->Ok_0.minimum_length == receipt.observed_byte_length,
        stored->0.byte_length->0 < first_sample_decision_of(receipt, stored)->Ok_0.minimum_length,
        stored->0.file_device == Some(first_sample_decision_of(receipt, stored)->Ok_0.device),
        stored->0.file_inode == Some(first_sample_decision_of(receipt, stored)->Ok_0.inode),
{
}

} // verus!
