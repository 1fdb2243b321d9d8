//! Deterministic session semantics: the lifecycle state machine, its
//! presentation, and the accessibility text derived from it.
use vstd::prelude::*;

use crate::text::{decimal, padded2, push_decimal, push_padded2, str_equal};
use crate::types::{
    DurabilityRecord, Lifecycle, PermissionRecord, PermissionState, RecoveryRecord, RecoveryStatus,
    SessionHealth, SessionId, SessionRecord, SourceActivity, SourceHealth, SourceId, SourceKind,
    SourceRecord,
};

verus! {

#[derive(Clone, Copy, Debug, Eq, PartialEq, Structural)]
pub enum Presentation {
    Idle,
    Ready,
    Starting,
    Recording,
    Paused,
    Finalizing,
    RecordingDegraded,
    PermissionRevoked,
    RecoveryRequired,
    Complete,
}

#[derive(Clone, Copy, Debug, Eq, PartialEq, Structural)]
pub enum TimerBehavior {
    Hidden,
    Advancing,
    Frozen,
}

#[derive(Clone, Debug, Eq, PartialEq)]
pub struct SymbolContract {
    pub primary: Option<&'static str>,
    pub fallback: Option<&'static str>,
}

#[derive(Clone, Debug, Eq, PartialEq)]
pub struct SessionSnapshot {
    pub session: SessionRecord,
    pub presentation: Presentation,
    pub label: String,
    pub timer: TimerBehavior,
    pub timer_text: Option<String>,
    pub symbol: SymbolContract,
    pub accessibility_value: String,
}

#[derive(Clone, Copy, Debug, Eq, PartialEq, Structural)]
pub enum Fixture {
    Idle,
    Ready,
    Starting,
    Recording,
    Paused,
    Finalizing,
    RecordingDegraded,
    PermissionRevoked,
    RecoveryRequired,
    Complete,
}

impl Fixture {
    pub const ALL: [Fixture; 10] = [
        Fixture::Idle,
        Fixture::Ready,
        Fixture::Starting,
        Fixture::Recording,
        Fixture::Paused,
        Fixture::Finalizing,
        Fixture::RecordingDegraded,
        Fixture::PermissionRevoked,
        Fixture::RecoveryRequired,
        Fixture::Complete,
    ];
}

#[derive(Clone, Debug, Eq, PartialEq)]
pub enum Command {
    Prepare,
    RequestStart,
    CancelStart,
    ConfirmRecording { journal_durable: bool, media_files_open: bool },
    Pause,
    Resume,
    BeginFinalizing { media_safe: bool },
    Complete,
    Interrupt,
    AdvanceTimer(u64),
}

#[derive(Clone, Copy, Debug, Eq, PartialEq, Structural)]
pub enum TransitionError {
    IllegalTransition,
    DurabilityEvidenceMissing,
    MediaNotSafe,
}

#[derive(Clone, Debug, Eq, PartialEq)]
pub struct SessionMachine {
    session: SessionRecord,
    starting: bool,
}

// ---------------------------------------------------------------------------
// Specification of the derived presentation.

pub open spec fn any_permission_revoked(sources: Seq<SourceRecord>) -> bool {
    exists|i: int| 0 <= i < sources.len() && #[trigger] sources[i].permission.state == PermissionState::Revoked
}

/// Which presentation a durable record shows, given whether a start request is pending.
pub open spec fn presentation_of(session: SessionRecord, starting: bool) -> Presentation {
    if session.recovery.status == RecoveryStatus::Required || session.lifecycle == Lifecycle::Interrupted {
        Presentation::RecoveryRequired
    } else if any_permission_revoked(session.sources@) {
        Presentation::PermissionRevoked
    } else if session.lifecycle == Lifecycle::Recording && session.health == SessionHealth::Degraded {
        Presentation::RecordingDegraded
    } else if starting {
        Presentation::Starting
    } else {
        match session.lifecycle {
            Lifecycle::Idle => Presentation::Idle,
            Lifecycle::Ready => Presentation::Ready,
            Lifecycle::Recording => Presentation::Recording,
            Lifecycle::Paused => Presentation::Paused,
            Lifecycle::Finalizing => Presentation::Finalizing,
            Lifecycle::ReadyForReview => Presentation::Complete,
            Lifecycle::Interrupted => Presentation::RecoveryRequired,
        }
    }
}

pub open spec fn timer_of(presentation: Presentation) -> TimerBehavior {
    match presentation {
        Presentation::Recording | Presentation::RecordingDegraded | Presentation::PermissionRevoked => TimerBehavior::Advancing,
        Presentation::Paused | Presentation::Finalizing | Presentation::Complete => TimerBehavior::Frozen,
        _ => TimerBehavior::Hidden,
    }
}

/// `HH:MM:SS`, each part zero-padded to at least two digits.
pub open spec fn duration_text(seconds: nat) -> Seq<char> {
    padded2(seconds / 3600) + seq![':'] + padded2((seconds % 3600) / 60) + seq![':'] + padded2(seconds % 60)
}

pub open spec fn text_or(text: Option<Seq<char>>, default: Seq<char>) -> Seq<char> {
    match text {
        Some(t) => t,
        None => default,
    }
}

pub open spec fn label_of(presentation: Presentation, timer_text: Option<Seq<char>>, source_count: nat) -> Seq<char> {
    match presentation {
        Presentation::Idle => "Idle"@,
        Presentation::Ready => "Ready · "@ + decimal(source_count) + " sources"@,
        Presentation::Starting => "Starting…"@,
        Presentation::Recording => "Recording · "@ + text_or(timer_text, "00:00:00"@),
        Presentation::Paused => "Paused · "@ + text_or(timer_text, "00:00:00"@),
        Presentation::Finalizing => "Finalizing"@,
        Presentation::RecordingDegraded => "Recording — degraded"@,
        Presentation::PermissionRevoked => "Permission revoked"@,
        Presentation::RecoveryRequired => "Recovery required"@,
        Presentation::Complete => "Complete"@,
    }
}

pub open spec fn str_view(s: Option<&'static str>) -> Option<Seq<char>> {
    match s {
        Some(t) => Some(t@),
        None => None,
    }
}

pub open spec fn string_view(s: Option<String>) -> Option<Seq<char>> {
    match s {
        Some(t) => Some(t@),
        None => None,
    }
}

/// The primary and fallback symbol names of each presentation.
pub open spec fn symbol_of(presentation: Presentation) -> (Option<Seq<char>>, Option<Seq<char>>) {
    match presentation {
        Presentation::Idle => (Some("waveform"@), Some("circle"@)),
        Presentation::Ready => (Some("waveform.circle"@), Some("waveform"@)),
        Presentation::Starting => (Some("ellipsis.circle"@), Some("ellipsis"@)),
        Presentation::Recording => (Some("record.circle.fill"@), Some("circle.fill"@)),
        Presentation::Paused => (Some("pause.circle.fill"@), Some("pause.fill"@)),
        Presentation::RecordingDegraded => (Some("exclamationmark.triangle.fill"@), Some("exclamationmark.triangle"@)),
        Presentation::RecoveryRequired => (Some("clock.arrow.circlepath"@), Some("clock"@)),
        _ => (None, None),
    }
}

/// Source names joined by `", "`.
pub open spec fn source_names(sources: Seq<SourceRecord>) -> Seq<char>
    decreases sources.len(),
{
    if sources.len() == 0 {
        Seq::empty()
    } else if sources.len() == 1 {
        sources[0].name@
    } else {
        source_names(sources.drop_last()) + ", "@ + sources.last().name@
    }
}

pub open spec fn failure_detail(source: SourceRecord) -> Seq<char> {
    if source.health == SourceHealth::Failed {
        " "@ + source.name@ + ": "@ + text_or(string_view(source.health_detail), "Source failed"@) + "."@
    } else {
        Seq::empty()
    }
}

/// One sentence per failed source, in source order.
pub open spec fn failure_details(sources: Seq<SourceRecord>) -> Seq<char>
    decreases sources.len(),
{
    if sources.len() == 0 {
        Seq::empty()
    } else {
        failure_details(sources.drop_last()) + failure_detail(sources.last())
    }
}

pub open spec fn accessibility_of(label: Seq<char>, sources: Seq<SourceRecord>) -> Seq<char> {
    label + ". Sources: "@ + source_names(sources) + "."@ + failure_details(sources)
}

/// What a snapshot of `session` (with a pending start request `starting`) holds.
pub open spec fn snapshot_of(snapshot: SessionSnapshot, session: SessionRecord, starting: bool) -> bool {
    let presentation = presentation_of(session, starting);
    let timer = timer_of(presentation);
    let timer_text = if timer == TimerBehavior::Hidden {
        None
    } else {
        Some(duration_text(session.elapsed_seconds as nat))
    };
    let label = label_of(presentation, timer_text, session.sources@.len());
    &&& snapshot.session.same_as(session)
    &&& snapshot.presentation == presentation
    &&& snapshot.timer == timer
    &&& string_view(snapshot.timer_text) == timer_text
    &&& snapshot.label@ == label
    &&& (str_view(snapshot.symbol.primary), str_view(snapshot.symbol.fallback)) == symbol_of(presentation)
    &&& snapshot.accessibility_value@ == accessibility_of(label, session.sources@)
}

// ---------------------------------------------------------------------------
// Derivation of snapshots.

fn any_revoked(sources: &Vec<SourceRecord>) -> (revoked: bool)
    ensures
        revoked == any_permission_revoked(sources@),
{
    let mut index: usize = 0;
    while index < sources.len()
        invariant
            index <= sources.len(),
            forall|j: int| 0 <= j < index ==> sources@[j].permission.state != PermissionState::Revoked,
        decreases sources.len() - index,
    {
        if sources[index].permission.state == PermissionState::Revoked {
            return true;
        }
        index = index + 1;
    }
    false
}

fn presentation_for(session: &SessionRecord, starting: bool) -> (presentation: Presentation)
    ensures
        presentation == presentation_of(*session, starting),
{
    if session.recovery.status == RecoveryStatus::Required || session.lifecycle == Lifecycle::Interrupted {
        return Presentation::RecoveryRequired;
    }
    if any_revoked(&session.sources) {
        return Presentation::PermissionRevoked;
    }
    if session.lifecycle == Lifecycle::Recording && session.health == SessionHealth::Degraded {
        return Presentation::RecordingDegraded;
    }
    if starting {
        return Presentation::Starting;
    }
    match session.lifecycle {
        Lifecycle::Idle => Presentation::Idle,
        Lifecycle::Ready => Presentation::Ready,
        Lifecycle::Recording => Presentation::Recording,
        Lifecycle::Paused => Presentation::Paused,
        Lifecycle::Finalizing => Presentation::Finalizing,
        Lifecycle::ReadyForReview => Presentation::Complete,
        Lifecycle::Interrupted => Presentation::RecoveryRequired,
    }
}

fn timer_for(presentation: Presentation) -> (timer: TimerBehavior)
    ensures
        timer == timer_of(presentation),
{
    match presentation {
        Presentation::Recording | Presentation::RecordingDegraded | Presentation::PermissionRevoked => TimerBehavior::Advancing,
        Presentation::Paused | Presentation::Finalizing | Presentation::Complete => TimerBehavior::Frozen,
        Presentation::Idle | Presentation::Ready | Presentation::Starting | Presentation::RecoveryRequired => TimerBehavior::Hidden,
    }
}

fn format_duration(seconds: u64) -> (text: String)
    ensures
        text@ == duration_text(seconds as nat),
{
    let hours = seconds / 3_600;
    let minutes = (seconds % 3_600) / 60;
    let remainder = seconds % 60;
    let mut text = String::new();
    push_padded2(&mut text, hours);
    text.append(":");
    proof {
        reveal_strlit(":");
    }
    push_padded2(&mut text, minutes);
    text.append(":");
    push_padded2(&mut text, remainder);
    text
}

fn label_for(presentation: Presentation, timer_text: &Option<String>, session: &SessionRecord) -> (label: String)
    ensures
        label@ == label_of(presentation, string_view(*timer_text), session.sources@.len()),
{
    match presentation {
        Presentation::Idle => String::from_str("Idle"),
        Presentation::Ready => {
            let mut label = String::from_str("Ready · ");
            push_decimal(&mut label, session.sources.len() as u64);
            label.append(" sources");
            label
        },
        Presentation::Starting => String::from_str("Starting…"),
        Presentation::Recording => {
            let mut label = String::from_str("Recording · ");
            match timer_text {
                Some(text) => label.append(text.as_str()),
                None => label.append("00:00:00"),
            }
            label
        },
        Presentation::Paused => {
            let mut label = String::from_str("Paused · ");
            match timer_text {
                Some(text) => label.append(text.as_str()),
                None => label.append("00:00:00"),
            }
            label
        },
        Presentation::Finalizing => String::from_str("Finalizing"),
        Presentation::RecordingDegraded => String::from_str("Recording — degraded"),
        Presentation::PermissionRevoked => String::from_str("Permission revoked"),
        Presentation::RecoveryRequired => String::from_str("Recovery required"),
        Presentation::Complete => String::from_str("Complete"),
    }
}

fn symbol_for(presentation: Presentation) -> (symbol: SymbolContract)
    ensures
        (str_view(symbol.primary), str_view(symbol.fallback)) == symbol_of(presentation),
{
    match presentation {
        Presentation::Idle => SymbolContract { primary: Some("waveform"), fallback: Some("circle") },
        Presentation::Ready => SymbolContract { primary: Some("waveform.circle"), fallback: Some("waveform") },
        Presentation::Starting => SymbolContract { primary: Some("ellipsis.circle"), fallback: Some("ellipsis") },
        Presentation::Recording => SymbolContract { primary: Some("record.circle.fill"), fallback: Some("circle.fill") },
        Presentation::Paused => SymbolContract { primary: Some("pause.circle.fill"), fallback: Some("pause.fill") },
        Presentation::RecordingDegraded => SymbolContract {
            primary: Some("exclamationmark.triangle.fill"),
            fallback: Some("exclamationmark.triangle"),
        },
        Presentation::RecoveryRequired => SymbolContract {
            primary: Some("clock.arrow.circlepath"),
            fallback: Some("clock"),
        },
        Presentation::PermissionRevoked | Presentation::Finalizing | Presentation::Complete => SymbolContract {
            primary: None,
            fallback: None,
        },
    }
}

fn source_summary(sources: &Vec<SourceRecord>) -> (summary: String)
    ensures
        summary@ == source_names(sources@),
{
    let mut summary = String::new();
    let mut index: usize = 0;
    while index < sources.len()
        invariant
            index <= sources.len(),
            summary@ == source_names(sources@.take(index as int)),
        decreases sources.len() - index,
    {
        let ghost before = sources@.take(index as int);
        let ghost after = sources@.take(index + 1);
        assert(after.drop_last() == before);
        if index > 0 {
            summary.append(", ");
        }
        summary.append(sources[index].name.as_str());
        index = index + 1;
    }
    assert(sources@.take(sources.len() as int) == sources@);
    summary
}

fn accessibility_value(label: &String, sources: &Vec<SourceRecord>) -> (value: String)
    ensures
        value@ == accessibility_of(label@, sources@),
{
    let mut value = label.clone();
    value.append(". Sources: ");
    let summary = source_summary(sources);
    value.append(summary.as_str());
    value.append(".");
    let ghost prefix = value@;
    let mut index: usize = 0;
    while index < sources.len()
        invariant
            index <= sources.len(),
            value@ == prefix + failure_details(sources@.take(index as int)),
        decreases sources.len() - index,
    {
        let ghost before = sources@.take(index as int);
        let ghost after = sources@.take(index + 1);
        assert(after.drop_last() == before);
        let source = &sources[index];
        if source.health == SourceHealth::Failed {
            value.append(" ");
            value.append(source.name.as_str());
            value.append(": ");
            match &source.health_detail {
                Some(detail) => value.append(detail.as_str()),
                None => value.append("Source failed"),
            }
            value.append(".");
        }
        index = index + 1;
    }
    assert(sources@.take(sources.len() as int) == sources@);
    value
}

fn snapshot_for(session: &SessionRecord, starting: bool) -> (snapshot: SessionSnapshot)
    ensures
        snapshot_of(snapshot, *session, starting),
{
    let presentation = presentation_for(session, starting);
    let timer = timer_for(presentation);
    let timer_text = if timer != TimerBehavior::Hidden {
        Some(format_duration(session.elapsed_seconds))
    } else {
        None
    };
    let label = label_for(presentation, &timer_text, session);
    let accessibility_value = accessibility_value(&label, &session.sources);
    SessionSnapshot {
        session: session.duplicate(),
        presentation,
        label,
        timer,
        timer_text,
        symbol: symbol_for(presentation),
        accessibility_value,
    }
}

// ---------------------------------------------------------------------------
// The lifecycle state machine.

/// Every healthy source takes `activity`; failed sources keep theirs.
pub open spec fn with_activity(sources: Seq<SourceRecord>, activity: SourceActivity) -> Seq<SourceRecord> {
    Seq::new(
        sources.len(),
        |i: int|
            if sources[i].health == SourceHealth::Healthy {
                SourceRecord { activity: activity, ..sources[i] }
            } else {
                sources[i]
            },
    )
}

/// The error a command meets in a given state, or `None` when it is legal.
pub open spec fn transition_error(session: SessionRecord, starting: bool, command: Command) -> Option<TransitionError> {
    let lifecycle = session.lifecycle;
    let illegal = Some(TransitionError::IllegalTransition);
    match command {
        Command::Prepare => if lifecycle == Lifecycle::Idle { None } else { illegal },
        Command::RequestStart => if lifecycle == Lifecycle::Ready && !starting { None } else { illegal },
        Command::CancelStart => if lifecycle == Lifecycle::Ready && starting { None } else { illegal },
        Command::ConfirmRecording { journal_durable, media_files_open } => {
            if lifecycle == Lifecycle::Ready && starting {
                if journal_durable && media_files_open {
                    None
                } else {
                    Some(TransitionError::DurabilityEvidenceMissing)
                }
            } else {
                illegal
            }
        },
        Command::Pause => if lifecycle == Lifecycle::Recording { None } else { illegal },
        Command::Resume => {
            if lifecycle == Lifecycle::Paused && session.durability.permits_recording() {
                None
            } else {
                illegal
            }
        },
        Command::BeginFinalizing { media_safe } => {
            if lifecycle == Lifecycle::Recording || lifecycle == Lifecycle::Paused {
                if media_safe {
                    None
                } else {
                    Some(TransitionError::MediaNotSafe)
                }
            } else {
                illegal
            }
        },
        Command::Complete => {
            if lifecycle == Lifecycle::Finalizing {
                if session.durability.media_safe {
                    None
                } else {
                    Some(TransitionError::MediaNotSafe)
                }
            } else {
                illegal
            }
        },
        Command::Interrupt => {
            if lifecycle == Lifecycle::Ready || lifecycle == Lifecycle::Recording || lifecycle
                == Lifecycle::Paused || lifecycle == Lifecycle::Finalizing {
                None
            } else {
                illegal
            }
        },
        Command::AdvanceTimer(_) => if lifecycle == Lifecycle::Recording { None } else { illegal },
    }
}

/// The state that a legal command leads to: `after` and `after_starting` are
/// the record and pending-start flag that follow `before` and `before_starting`.
pub open spec fn transition(
    before: SessionRecord,
    before_starting: bool,
    command: Command,
    after: SessionRecord,
    after_starting: bool,
) -> bool {
    let kept = {
        &&& after.id == before.id
        &&& after.title == before.title
        &&& after.health == before.health
    };
    let unchanged_recovery = after.recovery == before.recovery;
    kept && match command {
        Command::Prepare => {
            &&& after.lifecycle == Lifecycle::Ready
            &&& after_starting == before_starting
            &&& after.elapsed_seconds == before.elapsed_seconds
            &&& after.sources@ == before.sources@
            &&& after.durability == before.durability
            &&& unchanged_recovery
        },
        Command::RequestStart => {
            &&& after.lifecycle == before.lifecycle
            &&& after_starting
            &&& after.elapsed_seconds == before.elapsed_seconds
            &&& after.sources@ == before.sources@
            &&& after.durability == before.durability
            &&& unchanged_recovery
        },
        Command::CancelStart => {
            &&& after.lifecycle == before.lifecycle
            &&& !after_starting
            &&& after.elapsed_seconds == before.elapsed_seconds
            &&& after.sources@ == before.sources@
            &&& after.durability == before.durability
            &&& unchanged_recovery
        },
        Command::ConfirmRecording { journal_durable, media_files_open } => {
            &&& after.lifecycle == Lifecycle::Recording
            &&& !after_starting
            &&& after.elapsed_seconds == before.elapsed_seconds
            &&& after.sources@ == with_activity(before.sources@, SourceActivity::Active)
            &&& after.durability == DurabilityRecord { journal_durable, media_files_open, media_safe: false }
            &&& unchanged_recovery
        },
        Command::Pause => {
            &&& after.lifecycle == Lifecycle::Paused
            &&& after_starting == before_starting
            &&& after.elapsed_seconds == before.elapsed_seconds
            &&& after.sources@ == with_activity(before.sources@, SourceActivity::Paused)
            &&& after.durability == before.durability
            &&& unchanged_recovery
        },
        Command::Resume => {
            &&& after.lifecycle == Lifecycle::Recording
            &&& after_starting == before_starting
            &&& after.elapsed_seconds == before.elapsed_seconds
            &&& after.sources@ == with_activity(before.sources@, SourceActivity::Active)
            &&& after.durability == before.durability
            &&& unchanged_recovery
        },
        Command::BeginFinalizing { media_safe } => {
            &&& after.lifecycle == Lifecycle::Finalizing
            &&& after_starting == before_starting
            &&& after.elapsed_seconds == before.elapsed_seconds
            &&& after.sources@ == with_activity(before.sources@, SourceActivity::Paused)
            &&& after.durability == DurabilityRecord { media_safe: true, ..before.durability }
            &&& unchanged_recovery
        },
        Command::Complete => {
            &&& after.lifecycle == Lifecycle::ReadyForReview
            &&& after_starting == before_starting
            &&& after.elapsed_seconds == before.elapsed_seconds
            &&& after.sources@ == before.sources@
            &&& after.durability == before.durability
            &&& unchanged_recovery
        },
        Command::Interrupt => {
            &&& after.lifecycle == Lifecycle::Interrupted
            &&& !after_starting
            &&& after.elapsed_seconds == before.elapsed_seconds
            &&& after.sources@ == with_activity(before.sources@, SourceActivity::Paused)
            &&& after.durability == before.durability
            &&& after.recovery.status == RecoveryStatus::Required
            &&& string_view(after.recovery.preserved_evidence_summary) == Some(
                "Durable journal and available media segments"@,
            )
        },
        Command::AdvanceTimer(seconds) => {
            &&& after.lifecycle == before.lifecycle
            &&& after_starting == before_starting
            &&& after.elapsed_seconds == before.elapsed_seconds.saturating_add(seconds)
            &&& after.sources@ == before.sources@
            &&& after.durability == before.durability
            &&& unchanged_recovery
        },
    }
}

/// What applying `command` in the state `before`/`before_starting` answers
/// (`result`) and leaves (`after`/`after_starting`): a legal command makes
/// its transition and answers the snapshot of the new state; a refused one
/// answers its error and changes nothing.
pub open spec fn applied(
    before: SessionRecord,
    before_starting: bool,
    command: Command,
    result: Result<SessionSnapshot, TransitionError>,
    after: SessionRecord,
    after_starting: bool,
) -> bool {
    match result {
        Ok(snapshot) => {
            &&& transition_error(before, before_starting, command) is None
            &&& transition(before, before_starting, command, after, after_starting)
            &&& snapshot_of(snapshot, after, after_starting)
        },
        Err(error) => {
            &&& transition_error(before, before_starting, command) == Some(error)
            &&& after.same_as(before)
            &&& after_starting == before_starting
        },
    }
}

fn set_source_activity(sources: &mut Vec<SourceRecord>, activity: SourceActivity)
    ensures
        final(sources)@ == with_activity(old(sources)@, activity),
{
    let ghost initial = sources@;
    let mut index: usize = 0;
    while index < sources.len()
        invariant
            index <= sources.len(),
            sources@.len() == initial.len(),
            forall|j: int| 0 <= j < index ==> #[trigger] sources@[j] == with_activity(initial, activity)[j],
            forall|j: int| index <= j < sources@.len() ==> #[trigger] sources@[j] == initial[j],
        decreases sources.len() - index,
    {
        if sources[index].health == SourceHealth::Healthy {
            sources[index].activity = activity;
        }
        index = index + 1;
    }
    assert(sources@ == with_activity(initial, activity));
}

impl SessionMachine {
    /// The durable record the machine holds.
    pub closed spec fn record(&self) -> SessionRecord {
        self.session
    }

    /// Whether a start request is pending (a presentation state, never a lifecycle).
    pub closed spec fn start_pending(&self) -> bool {
        self.starting
    }

    #[must_use]
    pub fn snapshot(&self) -> (snapshot: SessionSnapshot)
        ensures
            snapshot_of(snapshot, self.record(), self.start_pending()),
    {
        snapshot_for(&self.session, self.starting)
    }

    /// Why `command` is refused in the current state, if it is.
    fn refusal(&self, command: &Command) -> (error: Option<TransitionError>)
        ensures
            error == transition_error(self.session, self.starting, *command),
    {
        let lifecycle = self.session.lifecycle;
        let illegal = Some(TransitionError::IllegalTransition);
        match command {
            Command::Prepare => if lifecycle == Lifecycle::Idle { None } else { illegal },
            Command::RequestStart => if lifecycle == Lifecycle::Ready && !self.starting { None } else { illegal },
            Command::CancelStart => if lifecycle == Lifecycle::Ready && self.starting { None } else { illegal },
            Command::ConfirmRecording { journal_durable, media_files_open } => {
                if lifecycle == Lifecycle::Ready && self.starting {
                    let durability = DurabilityRecord {
                        journal_durable: *journal_durable,
                        media_files_open: *media_files_open,
                        media_safe: false,
                    };
                    if durability.permits_recording() {
                        None
                    } else {
                        Some(TransitionError::DurabilityEvidenceMissing)
                    }
                } else {
                    illegal
                }
            },
            Command::Pause => if lifecycle == Lifecycle::Recording { None } else { illegal },
            Command::Resume => {
                if lifecycle == Lifecycle::Paused && self.session.durability.permits_recording() {
                    None
                } else {
                    illegal
                }
            },
            Command::BeginFinalizing { media_safe } => {
                if lifecycle == Lifecycle::Recording || lifecycle == Lifecycle::Paused {
                    if *media_safe {
                        None
                    } else {
                        Some(TransitionError::MediaNotSafe)
                    }
                } else {
                    illegal
                }
            },
            Command::Complete => {
                if lifecycle == Lifecycle::Finalizing {
                    if self.session.durability.media_safe {
                        None
                    } else {
                        Some(TransitionError::MediaNotSafe)
                    }
                } else {
                    illegal
                }
            },
            Command::Interrupt => {
                if lifecycle == Lifecycle::Ready || lifecycle == Lifecycle::Recording || lifecycle
                    == Lifecycle::Paused || lifecycle == Lifecycle::Finalizing {
                    None
                } else {
                    illegal
                }
            },
            Command::AdvanceTimer(_) => if lifecycle == Lifecycle::Recording { None } else { illegal },
        }
    }

    /// Applies one command. A refused command leaves the machine untouched.
    pub fn apply(&mut self, command: Command) -> (result: Result<SessionSnapshot, TransitionError>)
        ensures
            applied(
                old(self).record(),
                old(self).start_pending(),
                command,
                result,
                final(self).record(),
                final(self).start_pending(),
            ),
    {
        if let Some(error) = self.refusal(&command) {
            return Err(error);
        }
        match command {
            Command::Prepare => {
                self.session.lifecycle = Lifecycle::Ready;
            },
            Command::RequestStart => {
                self.starting = true;
            },
            Command::CancelStart => {
                self.starting = false;
            },
            Command::ConfirmRecording { journal_durable, media_files_open } => {
                self.session.durability = DurabilityRecord { journal_durable, media_files_open, media_safe: false };
                self.session.lifecycle = Lifecycle::Recording;
                self.starting = false;
                set_source_activity(&mut self.session.sources, SourceActivity::Active);
            },
            Command::Pause => {
                self.session.lifecycle = Lifecycle::Paused;
                set_source_activity(&mut self.session.sources, SourceActivity::Paused);
            },
            Command::Resume => {
                self.session.lifecycle = Lifecycle::Recording;
                set_source_activity(&mut self.session.sources, SourceActivity::Active);
            },
            Command::BeginFinalizing { media_safe: _ } => {
                self.session.durability.media_safe = true;
                self.session.lifecycle = Lifecycle::Finalizing;
                set_source_activity(&mut self.session.sources, SourceActivity::Paused);
            },
            Command::Complete => {
                self.session.lifecycle = Lifecycle::ReadyForReview;
            },
            Command::Interrupt => {
                self.starting = false;
                self.session.lifecycle = Lifecycle::Interrupted;
                self.session.recovery = RecoveryRecord {
                    status: RecoveryStatus::Required,
                    preserved_evidence_summary: Some(
                        String::from_str("Durable journal and available media segments"),
                    ),
                };
                set_source_activity(&mut self.session.sources, SourceActivity::Paused);
            },
            Command::AdvanceTimer(seconds) => {
                self.session.elapsed_seconds = self.session.elapsed_seconds.saturating_add(seconds);
            },
        }
        Ok(self.snapshot())
    }
}

// ---------------------------------------------------------------------------
// Deterministic fixtures.

/// A healthy source with granted permission and the given identity and activity.
pub open spec fn healthy_source(
    source: SourceRecord,
    id: Seq<char>,
    name: Seq<char>,
    kind: SourceKind,
    activity: SourceActivity,
) -> bool {
    &&& source.id.0@ == id
    &&& source.name@ == name
    &&& source.kind == kind
    &&& source.activity == activity
    &&& source.health == SourceHealth::Healthy
    &&& source.health_detail is None
    &&& source.permission.state == PermissionState::Granted
    &&& source.permission.recovery_hint is None
}

pub open spec fn microphone_is(source: SourceRecord, activity: SourceActivity) -> bool {
    healthy_source(source, "microphone"@, "Studio Microphone"@, SourceKind::Microphone, activity)
}

pub open spec fn application_is(source: SourceRecord, activity: SourceActivity) -> bool {
    healthy_source(source, "application"@, "FaceTime audio"@, SourceKind::ApplicationAudio, activity)
}

/// The application source after it has failed with `detail`, under `permission` and `hint`.
pub open spec fn application_failed(
    source: SourceRecord,
    detail: Seq<char>,
    permission: PermissionState,
    hint: Option<Seq<char>>,
) -> bool {
    &&& source.id.0@ == "application"@
    &&& source.name@ == "FaceTime audio"@
    &&& source.kind == SourceKind::ApplicationAudio
    &&& source.activity == SourceActivity::Failed
    &&& source.health == SourceHealth::Failed
    &&& string_view(source.health_detail) == Some(detail)
    &&& source.permission.state == permission
    &&& string_view(source.permission.recovery_hint) == hint
}

pub open spec fn capturing_durability() -> DurabilityRecord {
    DurabilityRecord { journal_durable: true, media_files_open: true, media_safe: false }
}

pub open spec fn sealed_durability() -> DurabilityRecord {
    DurabilityRecord { journal_durable: true, media_files_open: true, media_safe: true }
}

pub open spec fn no_durability() -> DurabilityRecord {
    DurabilityRecord { journal_durable: false, media_files_open: false, media_safe: false }
}

/// The state each deterministic fixture starts in.
pub open spec fn fixture_state(fixture: Fixture, session: SessionRecord, starting: bool) -> bool {
    let sources = session.sources@;
    let calm = session.health == SessionHealth::Healthy && session.recovery.status
        == RecoveryStatus::NotRequired && session.recovery.preserved_evidence_summary is None;
    let both = |activity: SourceActivity|
        microphone_is(sources[0], activity) && application_is(sources[1], activity);
    &&& session.id.0@ == "fixture-session-001"@
    &&& session.title@ == "Fixture session"@
    &&& session.elapsed_seconds == 754
    &&& sources.len() == 2
    &&& (fixture == Fixture::Starting) == starting
    &&& match fixture {
        Fixture::Idle => session.lifecycle == Lifecycle::Idle && calm && session.durability
            == no_durability() && both(SourceActivity::Selected),
        Fixture::Ready | Fixture::Starting => session.lifecycle == Lifecycle::Ready && calm
            && session.durability == no_durability() && both(SourceActivity::Selected),
        Fixture::Recording => session.lifecycle == Lifecycle::Recording && calm && session.durability
            == capturing_durability() && both(SourceActivity::Active),
        Fixture::Paused => session.lifecycle == Lifecycle::Paused && calm && session.durability
            == capturing_durability() && both(SourceActivity::Paused),
        Fixture::Finalizing => session.lifecycle == Lifecycle::Finalizing && calm && session.durability
            == sealed_durability() && both(SourceActivity::Paused),
        Fixture::RecordingDegraded => {
            &&& session.lifecycle == Lifecycle::Recording
            &&& session.health == SessionHealth::Degraded
            &&& session.recovery.status == RecoveryStatus::NotRequired
            &&& session.recovery.preserved_evidence_summary is None
            &&& session.durability == capturing_durability()
            &&& microphone_is(sources[0], SourceActivity::Active)
            &&& application_failed(sources[1], "Application audio stopped"@, PermissionState::Granted, None)
        },
        Fixture::PermissionRevoked => {
            &&& session.lifecycle == Lifecycle::Recording
            &&& session.health == SessionHealth::Degraded
            &&& session.recovery.status == RecoveryStatus::NotRequired
            &&& session.recovery.preserved_evidence_summary is None
            &&& session.durability == capturing_durability()
            &&& microphone_is(sources[0], SourceActivity::Active)
            &&& application_failed(
                sources[1],
                "Screen and system audio permission revoked"@,
                PermissionState::Revoked,
                Some("Open System Settings → Privacy & Security"@),
            )
        },
        Fixture::RecoveryRequired => {
            &&& session.lifecycle == Lifecycle::Interrupted
            &&& session.health == SessionHealth::Healthy
            &&& session.recovery.status == RecoveryStatus::Required
            &&& string_view(session.recovery.preserved_evidence_summary) == Some(
                "Journal and two media segments preserved"@,
            )
            &&& session.durability == capturing_durability()
            &&& both(SourceActivity::Paused)
        },
        Fixture::Complete => session.lifecycle == Lifecycle::ReadyForReview && calm
            && session.durability == sealed_durability() && both(SourceActivity::Paused),
    }
}

fn base_session() -> (session: SessionRecord)
    ensures
        fixture_state(Fixture::Idle, session, false),
{
    let mut sources: Vec<SourceRecord> = Vec::new();
    sources.push(
        SourceRecord {
            id: SourceId(String::from_str("microphone")),
            name: String::from_str("Studio Microphone"),
            kind: SourceKind::Microphone,
            activity: SourceActivity::Selected,
            health: SourceHealth::Healthy,
            health_detail: None,
            permission: PermissionRecord { state: PermissionState::Granted, recovery_hint: None },
        },
    );
    sources.push(
        SourceRecord {
            id: SourceId(String::from_str("application")),
            name: String::from_str("FaceTime audio"),
            kind: SourceKind::ApplicationAudio,
            activity: SourceActivity::Selected,
            health: SourceHealth::Healthy,
            health_detail: None,
            permission: PermissionRecord { state: PermissionState::Granted, recovery_hint: None },
        },
    );
    SessionRecord {
        id: SessionId(String::from_str("fixture-session-001")),
        title: String::from_str("Fixture session"),
        lifecycle: Lifecycle::Idle,
        health: SessionHealth::Healthy,
        elapsed_seconds: 754,
        sources,
        durability: DurabilityRecord { journal_durable: false, media_files_open: false, media_safe: false },
        recovery: RecoveryRecord { status: RecoveryStatus::NotRequired, preserved_evidence_summary: None },
    }
}

fn enter_recording(session: &mut SessionRecord)
    ensures
        final(session).lifecycle == Lifecycle::Recording,
        final(session).durability == capturing_durability(),
        final(session).sources@ == with_activity(old(session).sources@, SourceActivity::Active),
        final(session).id == old(session).id,
        final(session).title == old(session).title,
        final(session).health == old(session).health,
        final(session).elapsed_seconds == old(session).elapsed_seconds,
        final(session).recovery == old(session).recovery,
{
    session.lifecycle = Lifecycle::Recording;
    session.durability = DurabilityRecord { journal_durable: true, media_files_open: true, media_safe: false };
    set_source_activity(&mut session.sources, SourceActivity::Active);
}

/// The first source whose identity is `id`.
fn find_source(sources: &Vec<SourceRecord>, id: &str) -> (found: Option<usize>)
    ensures
        match found {
            Some(index) => index < sources@.len() && sources@[index as int].id.0@ == id@ && forall|j: int|
                0 <= j < index ==> #[trigger] sources@[j].id.0@ != id@,
            None => forall|j: int| 0 <= j < sources@.len() ==> #[trigger] sources@[j].id.0@ != id@,
        },
{
    let mut index: usize = 0;
    while index < sources.len()
        invariant
            index <= sources.len(),
            forall|j: int| 0 <= j < index ==> #[trigger] sources@[j].id.0@ != id@,
        decreases sources.len() - index,
    {
        if str_equal(sources[index].id.0.as_str(), id) {
            return Some(index);
        }
        index = index + 1;
    }
    None
}

/// Marks the first source named `id` as failed with `detail`.
fn fail_source(sources: &mut Vec<SourceRecord>, id: &str, detail: &str)
    ensures
        final(sources)@.len() == old(sources)@.len(),
        match find_first(old(sources)@, id@) {
            Some(index) => final(sources)@ == old(sources)@.update(
                index,
                SourceRecord {
                    activity: SourceActivity::Failed,
                    health: SourceHealth::Failed,
                    health_detail: final(sources)@[index].health_detail,
                    ..old(sources)@[index]
                },
            ) && string_view(final(sources)@[index].health_detail) == Some(detail@),
            None => final(sources)@ == old(sources)@,
        },
{
    let found = find_source(sources, id);
    proof {
        lemma_find_first(sources@, id@, found);
    }
    if let Some(index) = found {
        sources[index].activity = SourceActivity::Failed;
        sources[index].health = SourceHealth::Failed;
        sources[index].health_detail = Some(String::from_str(detail));
    }
}

/// The position of the first source whose identity is `id`.
pub open spec fn find_first(sources: Seq<SourceRecord>, id: Seq<char>) -> Option<int>
    decreases sources.len(),
{
    if sources.len() == 0 {
        None
    } else {
        match find_first(sources.drop_last(), id) {
            Some(index) => Some(index),
            None => if sources.last().id.0@ == id { Some(sources.len() - 1) } else { None },
        }
    }
}

proof fn lemma_find_first(sources: Seq<SourceRecord>, id: Seq<char>, found: Option<usize>)
    requires
        match found {
            Some(index) => index < sources.len() && sources[index as int].id.0@ == id && forall|j: int|
                0 <= j < index ==> #[trigger] sources[j].id.0@ != id,
            None => forall|j: int| 0 <= j < sources.len() ==> #[trigger] sources[j].id.0@ != id,
        },
    ensures
        find_first(sources, id) == match found {
            Some(index) => Some(index as int),
            None => None::<int>,
        },
    decreases sources.len(),
{
    if sources.len() > 0 {
        let shorter = sources.drop_last();
        match found {
            Some(index) => {
                if index < shorter.len() {
                    assert forall|j: int| 0 <= j < index implies #[trigger] shorter[j].id.0@ != id by {
                        assert(shorter[j] == sources[j]);
                    }
                    lemma_find_first(shorter, id, found);
                } else {
                    assert forall|j: int| 0 <= j < shorter.len() implies #[trigger] shorter[j].id.0@ != id by {
                        assert(shorter[j] == sources[j]);
                    }
                    lemma_find_first(shorter, id, None);
                }
            },
            None => {
                assert forall|j: int| 0 <= j < shorter.len() implies #[trigger] shorter[j].id.0@ != id by {
                    assert(shorter[j] == sources[j]);
                }
                lemma_find_first(shorter, id, None);
            },
        }
    }
}

proof fn lemma_application_is_second(sources: Seq<SourceRecord>)
    requires
        sources.len() == 2,
        sources[0].id.0@ == "microphone"@,
        sources[1].id.0@ == "application"@,
    ensures
        find_first(sources, "application"@) == Some(1int),
{
    reveal_strlit("microphone");
    reveal_strlit("application");
    assert(sources[0].id.0@[0] != "application"@[0]);
    let first = sources.drop_last();
    assert(first.len() == 1);
    assert(first.drop_last().len() == 0);
    assert(first.last() == sources[0]);
    assert(find_first(first.drop_last(), "application"@) is None);
    assert(first.last().id.0@ != "application"@);
    assert(find_first(first, "application"@) is None);
}

fn fixture_machine(fixture: Fixture) -> (machine: SessionMachine)
    ensures
        fixture_state(fixture, machine.session, machine.starting),
{
    let mut session = base_session();
    let mut starting = false;
    match fixture {
        Fixture::Idle => {},
        Fixture::Ready => {
            session.lifecycle = Lifecycle::Ready;
        },
        Fixture::Starting => {
            session.lifecycle = Lifecycle::Ready;
            starting = true;
        },
        Fixture::Recording => {
            enter_recording(&mut session);
        },
        Fixture::Paused => {
            enter_recording(&mut session);
            session.lifecycle = Lifecycle::Paused;
            set_source_activity(&mut session.sources, SourceActivity::Paused);
        },
        Fixture::Finalizing => {
            enter_recording(&mut session);
            session.lifecycle = Lifecycle::Finalizing;
            session.durability.media_safe = true;
            set_source_activity(&mut session.sources, SourceActivity::Paused);
        },
        Fixture::RecordingDegraded => {
            enter_recording(&mut session);
            session.health = SessionHealth::Degraded;
            proof {
                lemma_application_is_second(session.sources@);
            }
            fail_source(&mut session.sources, "application", "Application audio stopped");
        },
        Fixture::PermissionRevoked => {
            enter_recording(&mut session);
            session.health = SessionHealth::Degraded;
            let found = find_source(&session.sources, "application");
            proof {
                lemma_find_first(session.sources@, "application"@, found);
                lemma_application_is_second(session.sources@);
            }
            if let Some(index) = found {
                session.sources[index].permission = PermissionRecord {
                    state: PermissionState::Revoked,
                    recovery_hint: Some(String::from_str("Open System Settings → Privacy & Security")),
                };
                session.sources[index].activity = SourceActivity::Failed;
                session.sources[index].health = SourceHealth::Failed;
                session.sources[index].health_detail = Some(
                    String::from_str("Screen and system audio permission revoked"),
                );
            }
        },
        Fixture::RecoveryRequired => {
            enter_recording(&mut session);
            session.lifecycle = Lifecycle::Interrupted;
            session.recovery = RecoveryRecord {
                status: RecoveryStatus::Required,
                preserved_evidence_summary: Some(String::from_str("Journal and two media segments preserved")),
            };
            set_source_activity(&mut session.sources, SourceActivity::Paused);
        },
        Fixture::Complete => {
            enter_recording(&mut session);
            session.lifecycle = Lifecycle::ReadyForReview;
            session.durability.media_safe = true;
            set_source_activity(&mut session.sources, SourceActivity::Paused);
        },
    }
    SessionMachine { session, starting }
}

impl SessionMachine {
    #[must_use]
    pub fn from_fixture(fixture: Fixture) -> (machine: Self)
        ensures
            fixture_state(fixture, machine.record(), machine.start_pending()),
    {
        fixture_machine(fixture)
    }
}

/// The fixture at `index` of `Fixture::ALL`.
pub open spec fn fixture_at(index: int) -> Fixture {
    if index == 0 {
        Fixture::Idle
    } else if index == 1 {
        Fixture::Ready
    } else if index == 2 {
        Fixture::Starting
    } else if index == 3 {
        Fixture::Recording
    } else if index == 4 {
        Fixture::Paused
    } else if index == 5 {
        Fixture::Finalizing
    } else if index == 6 {
        Fixture::RecordingDegraded
    } else if index == 7 {
        Fixture::PermissionRevoked
    } else if index == 8 {
        Fixture::RecoveryRequired
    } else {
        Fixture::Complete
    }
}

/// Every fixture, in declaration order, with the snapshot it starts in.
#[must_use]
pub fn fixture_catalog() -> (catalog: Vec<(Fixture, SessionSnapshot)>)
    ensures
        catalog@.len() == 10,
        forall|i: int|
            0 <= i < 10 ==> {
                &&& (#[trigger] catalog@[i]).0 == fixture_at(i)
                &&& exists|session: SessionRecord, starting: bool|
                    fixture_state(fixture_at(i), session, starting) && snapshot_of(catalog@[i].1, session, starting)
                &&& catalog@[i].1.presentation == fixture_presentation(fixture_at(i))
            },
{
    let mut catalog: Vec<(Fixture, SessionSnapshot)> = Vec::new();
    let mut index: usize = 0;
    while index < 10
        invariant
            index <= 10,
            catalog@.len() == index,
            forall|i: int|
                0 <= i < index ==> {
                    &&& (#[trigger] catalog@[i]).0 == fixture_at(i)
                    &&& exists|session: SessionRecord, starting: bool|
                        fixture_state(fixture_at(i), session, starting) && snapshot_of(catalog@[i].1, session, starting)
                    &&& catalog@[i].1.presentation == fixture_presentation(fixture_at(i))
                },
        decreases 10 - index,
    {
        let fixture = Fixture::ALL[index];
        assert(fixture == fixture_at(index as int));
        let machine = SessionMachine::from_fixture(fixture);
        let snapshot = machine.snapshot();
        proof {
            lemma_fixture_presentation(fixture, machine.record(), machine.start_pending());
        }
        catalog.push((fixture, snapshot));
        index = index + 1;
    }
    catalog
}

/// The catalog's fixtures present as ten pairwise distinct states: the
/// `i`-th fixture presents as the state it is named after, and no two
/// positions share a presentation.
pub proof fn lemma_catalog_presentations_distinct()
    ensures
        forall|i: int, j: int|
            0 <= i < 10 && 0 <= j < 10 && i != j ==> #[trigger] fixture_presentation(fixture_at(i))
                != #[trigger] fixture_presentation(fixture_at(j)),
{
}

// ---------------------------------------------------------------------------
// Announcements.

/// The position of the first source that satisfies `wanted`.
pub open spec fn first_where(sources: Seq<SourceRecord>, wanted: spec_fn(SourceRecord) -> bool) -> Option<int>
    decreases sources.len(),
{
    if sources.len() == 0 {
        None
    } else {
        match first_where(sources.drop_last(), wanted) {
            Some(index) => Some(index),
            None => if wanted(sources.last()) { Some(sources.len() - 1) } else { None },
        }
    }
}

/// The name of the first source that satisfies `wanted`, or `default`.
pub open spec fn first_name_or(
    sources: Seq<SourceRecord>,
    wanted: spec_fn(SourceRecord) -> bool,
    default: Seq<char>,
) -> Seq<char> {
    match first_where(sources, wanted) {
        Some(index) => sources[index].name@,
        None => default,
    }
}

pub open spec fn is_failed(source: SourceRecord) -> bool {
    source.health == SourceHealth::Failed
}

pub open spec fn is_active(source: SourceRecord) -> bool {
    source.activity == SourceActivity::Active
}

pub open spec fn is_revoked(source: SourceRecord) -> bool {
    source.permission.state == PermissionState::Revoked
}

/// What a screen reader announces when the presentation moves from `previous` to `current`.
pub open spec fn announcement_of(previous: Presentation, current: SessionSnapshot) -> Option<Seq<char>> {
    let sources = current.session.sources@;
    let remaining = first_name_or(sources, |s: SourceRecord| is_active(s), "Remaining source"@);
    if previous == current.presentation {
        None
    } else {
        match current.presentation {
            Presentation::Recording => Some("Recording"@),
            Presentation::Paused => Some("Paused"@),
            Presentation::RecordingDegraded => Some(
                first_name_or(sources, |s: SourceRecord| is_failed(s), "A source"@) + " stopped. "@ + remaining
                    + " recording continues."@,
            ),
            Presentation::PermissionRevoked => Some(
                first_name_or(sources, |s: SourceRecord| is_revoked(s), "Source"@) + " permission revoked. "@
                    + remaining + " recording continues."@,
            ),
            Presentation::RecoveryRequired => Some("Recovery required for "@ + current.session.title@),
            _ => None,
        }
    }
}

proof fn lemma_first_where(sources: Seq<SourceRecord>, wanted: spec_fn(SourceRecord) -> bool, found: Option<usize>)
    requires
        match found {
            Some(index) => index < sources.len() && wanted(sources[index as int]) && forall|j: int|
                0 <= j < index ==> !wanted(#[trigger] sources[j]),
            None => forall|j: int| 0 <= j < sources.len() ==> !wanted(#[trigger] sources[j]),
        },
    ensures
        first_where(sources, wanted) == match found {
            Some(index) => Some(index as int),
            None => None::<int>,
        },
    decreases sources.len(),
{
    if sources.len() > 0 {
        let shorter = sources.drop_last();
        let shorter_found = match found {
            Some(index) => if index < shorter.len() { found } else { None },
            None => None,
        };
        assert forall|j: int| 0 <= j < shorter.len() implies #[trigger] shorter[j] == sources[j] by {}
        lemma_first_where(shorter, wanted, shorter_found);
    }
}

/// Which kind of source an announcement names.
enum Wanted {
    Failed,
    Active,
    Revoked,
}

spec fn wanted_fn(wanted: Wanted) -> spec_fn(SourceRecord) -> bool {
    match wanted {
        Wanted::Failed => |s: SourceRecord| is_failed(s),
        Wanted::Active => |s: SourceRecord| is_active(s),
        Wanted::Revoked => |s: SourceRecord| is_revoked(s),
    }
}

fn satisfies(source: &SourceRecord, wanted: &Wanted) -> (yes: bool)
    ensures
        yes == (wanted_fn(*wanted))(*source),
{
    match wanted {
        Wanted::Failed => source.health == SourceHealth::Failed,
        Wanted::Active => source.activity == SourceActivity::Active,
        Wanted::Revoked => source.permission.state == PermissionState::Revoked,
    }
}

fn push_first_name(out: &mut String, sources: &Vec<SourceRecord>, wanted: Wanted, default: &str)
    ensures
        final(out)@ == old(out)@ + first_name_or(sources@, wanted_fn(wanted), default@),
{
    let mut index: usize = 0;
    while index < sources.len()
        invariant
            index <= sources.len(),
            out@ == old(out)@,
            forall|j: int| 0 <= j < index ==> !(wanted_fn(wanted))(#[trigger] sources@[j]),
        decreases sources.len() - index,
    {
        if satisfies(&sources[index], &wanted) {
            proof {
                lemma_first_where(sources@, wanted_fn(wanted), Some(index));
            }
            out.append(sources[index].name.as_str());
            return;
        }
        index = index + 1;
    }
    proof {
        lemma_first_where(sources@, wanted_fn(wanted), None);
    }
    out.append(default);
}

/// The announcement for a presentation change, if the change deserves one.
#[must_use]
pub fn announcement(previous: &SessionSnapshot, current: &SessionSnapshot) -> (spoken: Option<String>)
    ensures
        string_view(spoken) == announcement_of(previous.presentation, *current),
{
    if previous.presentation == current.presentation {
        return None;
    }
    let sources = &current.session.sources;
    match current.presentation {
        Presentation::Recording => Some(String::from_str("Recording")),
        Presentation::Paused => Some(String::from_str("Paused")),
        Presentation::RecordingDegraded => {
            let mut text = String::new();
            push_first_name(&mut text, sources, Wanted::Failed, "A source");
            text.append(" stopped. ");
            push_first_name(&mut text, sources, Wanted::Active, "Remaining source");
            text.append(" recording continues.");
            proof {
                assert(wanted_fn(Wanted::Failed) == (|s: SourceRecord| is_failed(s)));
                assert(wanted_fn(Wanted::Active) == (|s: SourceRecord| is_active(s)));
            }
            Some(text)
        },
        Presentation::PermissionRevoked => {
            let mut text = String::new();
            push_first_name(&mut text, sources, Wanted::Revoked, "Source");
            text.append(" permission revoked. ");
            push_first_name(&mut text, sources, Wanted::Active, "Remaining source");
            text.append(" recording continues.");
            proof {
                assert(wanted_fn(Wanted::Revoked) == (|s: SourceRecord| is_revoked(s)));
                assert(wanted_fn(Wanted::Active) == (|s: SourceRecord| is_active(s)));
            }
            Some(text)
        },
        Presentation::RecoveryRequired => {
            let mut text = String::from_str("Recovery required for ");
            text.append(current.session.title.as_str());
            Some(text)
        },
        _ => None,
    }
}


// ---------------------------------------------------------------------------
// Laws of the state machine.

/// Every healthy source is active.
pub open spec fn healthy_sources_active(sources: Seq<SourceRecord>) -> bool {
    forall|i: int|
        0 <= i < sources.len() && (#[trigger] sources[i]).health == SourceHealth::Healthy ==> sources[i].activity
            == SourceActivity::Active
}

/// The invariant every reachable session keeps: a start request is only ever
/// pending on a Ready session; a session that records (or is paused) holds
/// both the durable-journal and open-media evidence; a recording session's
/// healthy sources are all active; and a session that is finalizing or ready
/// for review holds evidence that its media is safe.
pub open spec fn lifecycle_consistent(session: SessionRecord, starting: bool) -> bool {
    &&& starting ==> session.lifecycle == Lifecycle::Ready
    &&& session.lifecycle == Lifecycle::Recording ==> healthy_sources_active(session.sources@)
    &&& (session.lifecycle == Lifecycle::Recording || session.lifecycle == Lifecycle::Paused)
        ==> session.durability.permits_recording()
    &&& (session.lifecycle == Lifecycle::Finalizing || session.lifecycle == Lifecycle::ReadyForReview)
        ==> session.durability.media_safe
}

/// Every deterministic fixture starts in a consistent state.
pub proof fn lemma_fixtures_consistent(fixture: Fixture, session: SessionRecord, starting: bool)
    requires
        fixture_state(fixture, session, starting),
    ensures
        lifecycle_consistent(session, starting),
{
}

/// Every legal command keeps the invariant: Recording is never entered
/// without both kinds of durability evidence, and a start request never
/// outlives the Ready lifecycle.
pub proof fn lemma_transition_keeps_consistency(
    before: SessionRecord,
    before_starting: bool,
    command: Command,
    after: SessionRecord,
    after_starting: bool,
)
    requires
        lifecycle_consistent(before, before_starting),
        transition_error(before, before_starting, command) is None,
        transition(before, before_starting, command, after, after_starting),
    ensures
        lifecycle_consistent(after, after_starting),
{
    let sources = after.sources@;
    if after.lifecycle == Lifecycle::Recording {
        assert forall|i: int|
            0 <= i < sources.len() && (#[trigger] sources[i]).health == SourceHealth::Healthy implies sources[i].activity
            == SourceActivity::Active by {
            if !(command is AdvanceTimer) {
                assert(sources == with_activity(before.sources@, SourceActivity::Active));
            }
        }
    }
}

/// In a consistent state, "Starting" is only a presentation of a Ready
/// session, and the "Recording" presentation is only shown with both kinds
/// of durability evidence.
pub proof fn lemma_presentation_is_truthful(session: SessionRecord, starting: bool)
    requires
        lifecycle_consistent(session, starting),
    ensures
        presentation_of(session, starting) == Presentation::Starting ==> session.lifecycle == Lifecycle::Ready,
        presentation_of(session, starting) == Presentation::Recording ==> session.lifecycle == Lifecycle::Recording
            && session.durability.permits_recording(),
{
}

/// A timer tick changes only the elapsed time: the presentation stays, so
/// nothing is announced.
pub proof fn lemma_timer_tick_is_silent(
    before: SessionRecord,
    before_starting: bool,
    seconds: u64,
    after: SessionRecord,
    after_starting: bool,
    snapshot: SessionSnapshot,
)
    requires
        transition(before, before_starting, Command::AdvanceTimer(seconds), after, after_starting),
        snapshot_of(snapshot, after, after_starting),
    ensures
        presentation_of(after, after_starting) == presentation_of(before, before_starting),
        announcement_of(presentation_of(before, before_starting), snapshot) is None,
{
    assert(after.sources@ == before.sources@);
}

/// The presentation each fixture is named after.
pub open spec fn fixture_presentation(fixture: Fixture) -> Presentation {
    match fixture {
        Fixture::Idle => Presentation::Idle,
        Fixture::Ready => Presentation::Ready,
        Fixture::Starting => Presentation::Starting,
        Fixture::Recording => Presentation::Recording,
        Fixture::Paused => Presentation::Paused,
        Fixture::Finalizing => Presentation::Finalizing,
        Fixture::RecordingDegraded => Presentation::RecordingDegraded,
        Fixture::PermissionRevoked => Presentation::PermissionRevoked,
        Fixture::RecoveryRequired => Presentation::RecoveryRequired,
        Fixture::Complete => Presentation::Complete,
    }
}

/// Every fixture presents as the state it is named after, so no two fixtures
/// share a presentation.
pub proof fn lemma_fixture_presentation(fixture: Fixture, session: SessionRecord, starting: bool)
    requires
        fixture_state(fixture, session, starting),
    ensures
        presentation_of(session, starting) == fixture_presentation(fixture),
        forall|other: Fixture| fixture_presentation(other) == fixture_presentation(fixture) ==> other == fixture,
{
    let sources = session.sources@;
    if fixture == Fixture::PermissionRevoked {
        assert(sources[1].permission.state == PermissionState::Revoked);
        assert(any_permission_revoked(sources));
    } else {
        assert forall|i: int| 0 <= i < sources.len() implies #[trigger] sources[i].permission.state
            != PermissionState::Revoked by {
            assert(i == 0 || i == 1);
        }
        assert(!any_permission_revoked(sources));
    }
}

/// Pausing a consistent recording session and resuming it gives back the
/// same session: both commands are legal, the pause keeps the elapsed time,
/// and the resumed session has the sources, durability, elapsed time and
/// pending-start flag it had, so it is described by the same snapshots.
pub proof fn lemma_pause_resume_round_trip(
    before: SessionRecord,
    starting: bool,
    paused: SessionRecord,
    paused_starting: bool,
    resumed: SessionRecord,
    resumed_starting: bool,
)
    requires
        lifecycle_consistent(before, starting),
        before.lifecycle == Lifecycle::Recording,
        transition(before, starting, Command::Pause, paused, paused_starting),
        transition(paused, paused_starting, Command::Resume, resumed, resumed_starting),
    ensures
        transition_error(before, starting, Command::Pause) is None,
        paused.lifecycle == Lifecycle::Paused,
        paused.elapsed_seconds == before.elapsed_seconds,
        transition_error(paused, paused_starting, Command::Resume) is None,
        resumed.same_as(before),
        resumed_starting == starting,
        forall|snapshot: SessionSnapshot|
            snapshot_of(snapshot, resumed, resumed_starting) == snapshot_of(snapshot, before, starting),
{
    let sources = before.sources@;
    assert(with_activity(with_activity(sources, SourceActivity::Paused), SourceActivity::Active) =~= sources);
}

/// Two records hold the same state: equal fields, with the sources compared
/// as sequences and the preserved-evidence summary by its text.
pub open spec fn same_state(a: SessionRecord, b: SessionRecord) -> bool {
    &&& a.id == b.id
    &&& a.title == b.title
    &&& a.lifecycle == b.lifecycle
    &&& a.health == b.health
    &&& a.elapsed_seconds == b.elapsed_seconds
    &&& a.sources@ == b.sources@
    &&& a.durability == b.durability
    &&& a.recovery.status == b.recovery.status
    &&& string_view(a.recovery.preserved_evidence_summary) == string_view(b.recovery.preserved_evidence_summary)
}

/// Two snapshots show the same thing.
pub open spec fn same_snapshot(x: SessionSnapshot, y: SessionSnapshot) -> bool {
    &&& same_state(x.session, y.session)
    &&& x.presentation == y.presentation
    &&& x.timer == y.timer
    &&& string_view(x.timer_text) == string_view(y.timer_text)
    &&& x.label@ == y.label@
    &&& str_view(x.symbol.primary) == str_view(y.symbol.primary)
    &&& str_view(x.symbol.fallback) == str_view(y.symbol.fallback)
    &&& x.accessibility_value@ == y.accessibility_value@
}

/// The state machine is deterministic: from the same state, one command
/// gets the same answer and leads to the same state, and the snapshots it
/// answers show the same thing.
pub proof fn lemma_apply_deterministic(
    first_before: SessionRecord,
    second_before: SessionRecord,
    starting: bool,
    command: Command,
    first_result: Result<SessionSnapshot, TransitionError>,
    first_after: SessionRecord,
    first_after_starting: bool,
    second_result: Result<SessionSnapshot, TransitionError>,
    second_after: SessionRecord,
    second_after_starting: bool,
)
    requires
        same_state(first_before, second_before),
        applied(first_before, starting, command, first_result, first_after, first_after_starting),
        applied(second_before, starting, command, second_result, second_after, second_after_starting),
    ensures
        first_result is Ok <==> second_result is Ok,
        first_result is Err ==> first_result == second_result,
        first_result is Ok ==> same_snapshot(first_result->Ok_0, second_result->Ok_0),
        same_state(first_after, second_after),
        first_after_starting == second_after_starting,
{
    assert(transition_error(first_before, starting, command) == transition_error(second_before, starting, command));
    if first_result is Ok {
        let x = first_result->Ok_0;
        let y = second_result->Ok_0;
        assert(same_state(first_after, second_after));
        assert(presentation_of(first_after, first_after_starting) == presentation_of(
            second_after,
            second_after_starting,
        ));
        assert(same_state(x.session, y.session));
    }
}


/// A timer tick is legal only while the session records: in every other
/// lifecycle it is refused as illegal, whatever the pending-start flag and
/// the number of seconds.
pub proof fn lemma_timer_ticks_only_while_recording(session: SessionRecord, starting: bool, seconds: u64)
    ensures
        transition_error(session, starting, Command::AdvanceTimer(seconds)) is None <==> session.lifecycle
            == Lifecycle::Recording,
        session.lifecycle != Lifecycle::Recording ==> transition_error(
            session,
            starting,
            Command::AdvanceTimer(seconds),
        ) == Some(TransitionError::IllegalTransition),
{
}

/// A frozen timer stays frozen: a session that presents a frozen timer
/// (paused, finalizing or complete) keeps its elapsed seconds under every
/// legal command.
pub proof fn lemma_frozen_timer_keeps_elapsed(
    before: SessionRecord,
    before_starting: bool,
    command: Command,
    after: SessionRecord,
    after_starting: bool,
)
    requires
        timer_of(presentation_of(before, before_starting)) == TimerBehavior::Frozen,
        transition_error(before, before_starting, command) is None,
        transition(before, before_starting, command, after, after_starting),
    ensures
        after.elapsed_seconds == before.elapsed_seconds,
{
}

} // verus!
