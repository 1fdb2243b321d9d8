//! The read-only projection of the durable library shown by the live and
//! library surfaces: one current session and the saved sessions.
use vstd::prelude::*;

use crate::decisions::missing_string;
use crate::store::{
    is_kind_name, lemma_kind_names, lemma_reason_names, reason_name, source_kind_name, MediaSourceKind,
    SessionInterruptionReason, StoreError,
};
use crate::text::str_equal;
use crate::types::SessionId;

verus! {

/// One coarse, content-free source state for native presentation.
#[derive(Clone, Debug, Eq, PartialEq)]
pub struct RuntimeSourceSnapshot {
    pub kind: MediaSourceKind,
    pub display_name: String,
    pub lifecycle: String,
}

/// Rust-owned durable session projection for the native live and library surfaces.
#[derive(Clone, Debug, Eq, PartialEq)]
pub struct RuntimeSessionSnapshot {
    pub session_id: SessionId,
    pub title: String,
    pub lifecycle: String,
    pub health: String,
    pub elapsed_seconds: u64,
    pub journal_durable: bool,
    pub media_files_open: bool,
    pub interruption_reason: Option<SessionInterruptionReason>,
    pub recovered: bool,
    pub sources: Vec<RuntimeSourceSnapshot>,
}

/// One read-only authority snapshot shared by the native live and library surfaces.
#[derive(Clone, Debug, Eq, PartialEq)]
pub struct RuntimeLibrarySnapshot {
    pub current_session: Option<RuntimeSessionSnapshot>,
    pub saved_sessions: Vec<RuntimeSessionSnapshot>,
}

/// One required source of a session as projected.
pub struct RuntimeSourceRow {
    pub kind: String,
    pub display_name: String,
    pub lifecycle: String,
}

/// One non-deleted session as projected, most recently updated first.
pub struct RuntimeSessionRow {
    pub session_id: String,
    pub title: String,
    pub lifecycle: String,
    pub health: String,
    pub journal_durable: bool,
    pub media_files_open: bool,
    pub updated_at_ms: i64,
    /// When Recording was first entered, if it was.
    pub recording_started_at_ms: Option<i64>,
    /// The last interruption's payload: `None` without one, `Some(None)`
    /// when it lacks a reason, `Some(Some(reason))` otherwise.
    pub interruption_reason: Option<Option<String>>,
    pub recovered: bool,
    pub sources: Vec<RuntimeSourceRow>,
}

/// A source of an interrupted session that never sealed is shown as failed.
pub open spec fn shown_source_lifecycle(session_lifecycle: Seq<char>, source_lifecycle: Seq<char>) -> Seq<char> {
    if session_lifecycle == "interrupted"@ && source_lifecycle != "sealed"@ {
        "failed"@
    } else {
        source_lifecycle
    }
}

/// Whole seconds from the start of Recording to now (while recording) or to
/// the last update; zero before Recording.
pub open spec fn elapsed_of(row: RuntimeSessionRow, now_milliseconds: i64) -> nat {
    match row.recording_started_at_ms {
        None => 0,
        Some(started) => {
            let end = if row.lifecycle@ == "recording"@ {
                if now_milliseconds > started { now_milliseconds } else { started }
            } else {
                if row.updated_at_ms > started { row.updated_at_ms } else { started }
            };
            let span = if end - started > i64::MAX { i64::MAX as int } else { end - started };
            (span / 1000) as nat
        },
    }
}

/// Whether a row can be projected: its source kinds and interruption reason are known.
pub open spec fn row_error(row: RuntimeSessionRow) -> Option<StoreError> {
    if exists|i: int| 0 <= i < row.sources@.len() && !is_kind_name((#[trigger] row.sources@[i]).kind@) {
        Some(StoreError::IntegrityMismatch("required media source kind is unsupported"))
    } else {
        match row.interruption_reason {
            Some(None) => Some(missing_string()),
            Some(Some(reason)) => if forall|r: SessionInterruptionReason| reason_name(r) != reason@ {
                Some(StoreError::IntegrityMismatch("session interruption reason is unsupported"))
            } else {
                None
            },
            None => None,
        }
    }
}

/// Whether `snapshot` is the projection of `row` at `now_milliseconds`.
pub open spec fn session_snapshot_of(snapshot: RuntimeSessionSnapshot, row: RuntimeSessionRow, now_milliseconds: i64) -> bool {
    &&& snapshot.session_id.0 == row.session_id
    &&& snapshot.title == row.title
    &&& snapshot.lifecycle@ == row.lifecycle@
    &&& snapshot.health == row.health
    &&& snapshot.elapsed_seconds == elapsed_of(row, now_milliseconds)
    &&& snapshot.journal_durable == row.journal_durable
    &&& snapshot.media_files_open == row.media_files_open
    &&& match row.interruption_reason {
        Some(Some(reason)) => snapshot.interruption_reason matches Some(r) && reason_name(r) == reason@,
        _ => snapshot.interruption_reason is None,
    }
    &&& snapshot.recovered == row.recovered
    &&& snapshot.sources@.len() == row.sources@.len()
    &&& forall|i: int|
        0 <= i < row.sources@.len() ==> {
            &&& source_kind_name((#[trigger] snapshot.sources@[i]).kind) == row.sources@[i].kind@
            &&& snapshot.sources@[i].display_name == row.sources@[i].display_name
            &&& snapshot.sources@[i].lifecycle@ == shown_source_lifecycle(row.lifecycle@, row.sources@[i].lifecycle@)
        }
}

pub open spec fn is_saved(row: RuntimeSessionRow) -> bool {
    row.lifecycle@ == "ready_for_review"@
}

/// Lifecycles a session can be live in.
pub open spec fn is_live(row: RuntimeSessionRow) -> bool {
    let lifecycle = row.lifecycle@;
    lifecycle == "preparing"@ || lifecycle == "recording"@ || lifecycle == "paused"@ || lifecycle == "finalizing"@
        || lifecycle == "interrupted"@
}

fn project_sources(session_lifecycle: &str, rows: Vec<RuntimeSourceRow>) -> (sources: Result<
    Vec<RuntimeSourceSnapshot>,
    StoreError,
>)
    ensures
        match sources {
            Ok(found) => {
                &&& found@.len() == rows@.len()
                &&& forall|i: int| 0 <= i < rows@.len() ==> is_kind_name((#[trigger] rows@[i]).kind@)
                &&& forall|i: int|
                    0 <= i < rows@.len() ==> {
                        &&& source_kind_name((#[trigger] found@[i]).kind) == rows@[i].kind@
                        &&& found@[i].display_name == rows@[i].display_name
                        &&& found@[i].lifecycle@ == shown_source_lifecycle(session_lifecycle@, rows@[i].lifecycle@)
                    }
            },
            Err(error) => {
                &&& exists|i: int| 0 <= i < rows@.len() && !is_kind_name((#[trigger] rows@[i]).kind@)
                &&& error == StoreError::IntegrityMismatch("required media source kind is unsupported")
            },
        },
{
    let ghost initial = rows@;
    let interrupted = str_equal(session_lifecycle, "interrupted");
    let mut rest = rows;
    let count = rest.len();
    let mut sources: Vec<RuntimeSourceSnapshot> = Vec::new();
    let mut index: usize = 0;
    while index < count
        invariant
            initial == rows@,
            interrupted == (session_lifecycle@ == "interrupted"@),
            count == initial.len(),
            rest@ == initial.skip(index as int),
            index <= count,
            sources@.len() == index,
            forall|i: int| 0 <= i < index ==> is_kind_name((#[trigger] initial[i]).kind@),
            forall|i: int|
                0 <= i < index ==> {
                    &&& source_kind_name((#[trigger] sources@[i]).kind) == initial[i].kind@
                    &&& sources@[i].display_name == initial[i].display_name
                    &&& sources@[i].lifecycle@ == shown_source_lifecycle(session_lifecycle@, initial[i].lifecycle@)
                },
        decreases count - index,
    {
        let row = rest.remove(0);
        proof {
            assert(initial.skip(index as int)[0] == initial[index as int]);
            assert(initial.skip(index as int).remove(0) == initial.skip(index + 1));
            lemma_kind_names();
        }
        let kind = match MediaSourceKind::from_str(row.kind.as_str()) {
            Ok(kind) => kind,
            Err(error) => {
                return Err(error);
            },
        };
        let lifecycle = if interrupted && !str_equal(row.lifecycle.as_str(), "sealed") {
            String::from_str("failed")
        } else {
            row.lifecycle
        };
        sources.push(RuntimeSourceSnapshot { kind, display_name: row.display_name, lifecycle });
        index = index + 1;
    }
    Ok(sources)
}

fn elapsed_seconds(row: &RuntimeSessionRow, now_milliseconds: i64) -> (seconds: u64)
    ensures
        seconds == elapsed_of(*row, now_milliseconds),
{
    match row.recording_started_at_ms {
        None => 0,
        Some(started) => {
            let end = if str_equal(row.lifecycle.as_str(), "recording") {
                if now_milliseconds > started {
                    now_milliseconds
                } else {
                    started
                }
            } else {
                if row.updated_at_ms > started {
                    row.updated_at_ms
                } else {
                    started
                }
            };
            let wide = (end as i128) - (started as i128);
            let span: u64 = if wide > 0x7FFF_FFFF_FFFF_FFFF {
                0x7FFF_FFFF_FFFF_FFFF
            } else {
                wide as u64
            };
            span / 1000
        },
    }
}

/// Projects one session row, or returns why it cannot be projected.
pub fn project_session(row: RuntimeSessionRow, now_milliseconds: i64) -> (snapshot: Result<
    RuntimeSessionSnapshot,
    StoreError,
>)
    ensures
        match snapshot {
            Ok(found) => row_error(row) is None && session_snapshot_of(found, row, now_milliseconds),
            Err(error) => row_error(row) == Some(error),
        },
{
    let elapsed_seconds = elapsed_seconds(&row, now_milliseconds);
    let ghost whole = row;
    let RuntimeSessionRow {
        session_id,
        title,
        lifecycle,
        health,
        journal_durable,
        media_files_open,
        updated_at_ms: _,
        recording_started_at_ms: _,
        interruption_reason,
        recovered,
        sources,
    } = row;
    let sources = match project_sources(lifecycle.as_str(), sources) {
        Ok(sources) => sources,
        Err(error) => {
            return Err(error);
        },
    };
    let interruption_reason = match interruption_reason {
        None => None,
        Some(None) => {
            return Err(StoreError::IntegrityMismatch("journal payload is missing a string field"));
        },
        Some(Some(reason)) => match SessionInterruptionReason::from_str(reason.as_str()) {
            Ok(reason) => Some(reason),
            Err(error) => {
                return Err(error);
            },
        },
    };
    Ok(
        RuntimeSessionSnapshot {
            session_id: SessionId(session_id),
            title,
            lifecycle,
            health,
            elapsed_seconds,
            journal_durable,
            media_files_open,
            interruption_reason,
            recovered,
            sources,
        },
    )
}

/// Whether `library` projects `rows` (in order) at `now_milliseconds`: the
/// first live session is current, and every reviewable session is saved.
pub open spec fn library_of(library: RuntimeLibrarySnapshot, rows: Seq<RuntimeSessionRow>, now_milliseconds: i64) -> bool {
    &&& forall|i: int| 0 <= i < rows.len() ==> (#[trigger] row_error(rows[i])) is None
    &&& match library.current_session {
        Some(current) => exists|i: int|
            0 <= i < rows.len() && is_live(#[trigger] rows[i]) && (forall|j: int|
                0 <= j < i ==> !is_live(#[trigger] rows[j])) && session_snapshot_of(current, rows[i], now_milliseconds),
        None => forall|i: int| 0 <= i < rows.len() ==> !is_live(#[trigger] rows[i]),
    }
    &&& library.saved_sessions@.len() == saved_count(rows, rows.len() as int)
    &&& forall|i: int|
        0 <= i < rows.len() && is_saved(#[trigger] rows[i]) ==> session_snapshot_of(
            library.saved_sessions@[saved_count(rows, i) as int],
            rows[i],
            now_milliseconds,
        )
}

/// How many of the first `end` rows are saved sessions.
pub open spec fn saved_count(rows: Seq<RuntimeSessionRow>, end: int) -> nat
    decreases end,
{
    if end <= 0 {
        0
    } else {
        saved_count(rows, end - 1) + if is_saved(rows[end - 1]) {
            1nat
        } else {
            0nat
        }
    }
}

fn classify(lifecycle: &str) -> (class: (bool, bool))
    ensures
        class.0 == (lifecycle@ == "ready_for_review"@),
        class.1 == (lifecycle@ == "preparing"@ || lifecycle@ == "recording"@ || lifecycle@ == "paused"@ || lifecycle@
            == "finalizing"@ || lifecycle@ == "interrupted"@),
{
    let saved = str_equal(lifecycle, "ready_for_review");
    let live = str_equal(lifecycle, "preparing") || str_equal(lifecycle, "recording") || str_equal(lifecycle, "paused")
        || str_equal(lifecycle, "finalizing") || str_equal(lifecycle, "interrupted");
    (saved, live)
}

/// Projects every row, in order, into the current session and the saved sessions.
pub fn runtime_library_snapshot_at(rows: Vec<RuntimeSessionRow>, now_milliseconds: i64) -> (library: Result<
    RuntimeLibrarySnapshot,
    StoreError,
>)
    ensures
        match library {
            Ok(found) => library_of(found, rows@, now_milliseconds),
            Err(error) => exists|i: int|
                0 <= i < rows@.len() && #[trigger] row_error(rows@[i]) == Some(error) && forall|j: int|
                    0 <= j < i ==> (#[trigger] row_error(rows@[j])) is None,
        },
{
    let ghost initial = rows@;
    let mut rest = rows;
    let count = rest.len();
    let mut current_session: Option<RuntimeSessionSnapshot> = None;
    let mut saved_sessions: Vec<RuntimeSessionSnapshot> = Vec::new();
    let mut index: usize = 0;
    while index < count
        invariant
            initial == rows@,
            count == initial.len(),
            rest@ == initial.skip(index as int),
            index <= count,
            forall|i: int| 0 <= i < index ==> (#[trigger] row_error(initial[i])) is None,
            match current_session {
                Some(current) => exists|i: int|
                    0 <= i < index && is_live(#[trigger] initial[i]) && (forall|j: int|
                        0 <= j < i ==> !is_live(#[trigger] initial[j])) && session_snapshot_of(
                        current,
                        initial[i],
                        now_milliseconds,
                    ),
                None => forall|i: int| 0 <= i < index ==> !is_live(#[trigger] initial[i]),
            },
            saved_sessions@.len() == saved_count(initial, index as int),
            forall|i: int|
                0 <= i < index && is_saved(#[trigger] initial[i]) ==> session_snapshot_of(
                    saved_sessions@[saved_count(initial, i) as int],
                    initial[i],
                    now_milliseconds,
                ),
        decreases count - index,
    {
        let row = rest.remove(0);
        proof {
            assert(initial.skip(index as int)[0] == initial[index as int]);
            assert(initial.skip(index as int).remove(0) == initial.skip(index + 1));
        }
        let (saved, live) = classify(row.lifecycle.as_str());
        let snapshot = match project_session(row, now_milliseconds) {
            Ok(snapshot) => snapshot,
            Err(error) => {
                return Err(error);
            },
        };
        let ghost saved_before = saved_sessions@;
        let ghost current_before = current_session;
        let ghost this_row = initial[index as int];
        proof {
            lemma_saved_not_live(this_row);
        }
        if saved {
            saved_sessions.push(snapshot);
            proof {
                assert forall|i: int|
                    0 <= i < index + 1 && is_saved(#[trigger] initial[i]) implies session_snapshot_of(
                    saved_sessions@[saved_count(initial, i) as int],
                    initial[i],
                    now_milliseconds,
                ) by {
                    lemma_saved_count_grows(initial, i, index as int);
                    if i < index {
                        assert(saved_sessions@[saved_count(initial, i) as int] == saved_before[saved_count(initial, i) as int]);
                    }
                }
            }
        } else if live && current_session.is_none() {
            current_session = Some(snapshot);
            proof {
                assert(!is_saved(initial[index as int]));
                assert(is_live(this_row));
                assert(forall|j: int| 0 <= j < index ==> !is_live(#[trigger] initial[j]));
                assert(0 <= index < index + 1 && is_live(initial[index as int]) && (forall|j: int|
                    0 <= j < index ==> !is_live(#[trigger] initial[j])) && session_snapshot_of(
                    current_session->0,
                    initial[index as int],
                    now_milliseconds,
                ));
            }
        } else {
            proof {
                assert(!is_saved(initial[index as int]));
            }
        }
        proof {
            if current_before is Some {
                let w = choose|i: int|
                    0 <= i < index && is_live(#[trigger] initial[i]) && (forall|j: int|
                        0 <= j < i ==> !is_live(#[trigger] initial[j])) && session_snapshot_of(
                        current_before->0,
                        initial[i],
                        now_milliseconds,
                    );
                assert(current_session == current_before);
                assert(0 <= w < index + 1 && is_live(initial[w]));
            }
        }
        index = index + 1;
    }
    Ok(RuntimeLibrarySnapshot { current_session, saved_sessions })
}

/// A reviewable session is never live.
pub proof fn lemma_saved_not_live(row: RuntimeSessionRow)
    ensures
        is_saved(row) ==> !is_live(row),
{
    reveal_strlit("ready_for_review");
    reveal_strlit("preparing");
    reveal_strlit("recording");
    reveal_strlit("paused");
    reveal_strlit("finalizing");
    reveal_strlit("interrupted");
    if is_saved(row) {
        assert("ready_for_review"@[0] != "preparing"@[0]);
        assert("ready_for_review"@[2] != "recording"@[2]);
        assert("ready_for_review"@[0] != "paused"@[0]);
        assert("ready_for_review"@[0] != "finalizing"@[0]);
        assert("ready_for_review"@[0] != "interrupted"@[0]);
    }
}

proof fn lemma_saved_count_grows(rows: Seq<RuntimeSessionRow>, i: int, end: int)
    requires
        0 <= i <= end,
        is_saved(rows[i]),
    ensures
        i < end ==> saved_count(rows, i) < saved_count(rows, end),
    decreases end - i,
{
    if i < end {
        lemma_saved_count_grows(rows, i, end - 1);
    }
}


/// The elapsed time of a session that is not recording does not run with
/// the clock: it is the same at every `now`, zero before Recording was
/// entered, and otherwise the whole seconds from the start of Recording to
/// the last update (or zero when the last update precedes that start).
pub proof fn lemma_elapsed_stops_outside_recording(row: RuntimeSessionRow, now: i64, later: i64)
    requires
        row.lifecycle@ != "recording"@,
    ensures
        elapsed_of(row, now) == elapsed_of(row, later),
        row.recording_started_at_ms is None ==> elapsed_of(row, now) == 0,
        row.recording_started_at_ms is Some && row.recording_started_at_ms->0 <= row.updated_at_ms
            && row.updated_at_ms - row.recording_started_at_ms->0 <= i64::MAX ==> elapsed_of(row, now) == (
        row.updated_at_ms - row.recording_started_at_ms->0) / 1000,
        row.recording_started_at_ms is Some && row.updated_at_ms <= row.recording_started_at_ms->0 ==> elapsed_of(
            row,
            now,
        ) == 0,
{
}

/// While a session records, its elapsed time runs with the clock: at a
/// later `now` it is never smaller.
pub proof fn lemma_elapsed_runs_while_recording(row: RuntimeSessionRow, now: i64, later: i64)
    requires
        row.lifecycle@ == "recording"@,
        now <= later,
    ensures
        elapsed_of(row, now) <= elapsed_of(row, later),
{
    if let Some(started) = row.recording_started_at_ms {
        let end_now: int = if now > started { now as int } else { started as int };
        let end_later: int = if later > started { later as int } else { started as int };
        let span_now: int = if end_now - started > i64::MAX { i64::MAX as int } else { end_now - started };
        let span_later: int = if end_later - started > i64::MAX { i64::MAX as int } else { end_later - started };
        assert(span_now <= span_later);
        assert(span_now / 1000 <= span_later / 1000) by (nonlinear_arith)
            requires
                0 <= span_now <= span_later,
        ;
    }
}

} // verus!
