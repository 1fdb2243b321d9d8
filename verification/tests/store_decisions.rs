use open_scribe::controller::RecordingPreparationController;
use open_scribe::decisions::{
    check_first_sample_replay, check_seal_timing, decide_media_open, decide_segment_seal, FirstSamplePayload,
    MediaOpenStep, SessionRow, StoredMediaAuthorization,
};
use open_scribe::media::{assess_media_contents, MediaLengthRequirement, ValidatedMediaFile};
use open_scribe::native::{map_storage_error, NativeRecordingPreparation, NativeStorageError};
use open_scribe::recovery::{
    journal_recovery_step, last_record_for_segment, opened_media_finding, plan_candidate, recorded_plan_matches,
    recovered_session, sort_findings, JournalRecoveryFacts, RecordKey, RecordedRecoveryPlan, RecoveredSegmentRow,
    RecoveryAction, RecoveryCandidate, RecoveryQuestion,
};
use open_scribe::runtime::{runtime_library_snapshot_at, RuntimeSessionRow, RuntimeSourceRow};
use open_scribe::store::{
    AuthorizeMediaOpenRequest, FirstSampleReceipt, RecoveryDisposition, RecoveryFinding, MediaOpenReceipt, MediaSourceKind, SealSegmentReceipt, SessionInterruptionReason, StoreError,
};
use open_scribe::SessionId;

const SESSION: &str = "0190f1e2-3a4b-7c5d-8e6f-a1b2c3d4e5f6";
const TRACK: &str = "0190f1e2-3a4b-7c5d-8e6f-a1b2c3d4e5f7";
const SEGMENT: &str = "0190f1e2-3a4b-7c5d-8e6f-a1b2c3d4e5f8";
const TOKEN: &str = "0190f1e2-3a4b-7c5d-8e6f-a1b2c3d4e5f9";

fn relative_path() -> String {
    format!("audio/{TRACK}/000000-0.caf")
}

fn stored(lifecycle: &str, byte_length: Option<u64>) -> Option<StoredMediaAuthorization> {
    Some(StoredMediaAuthorization {
        session_id: SESSION.to_owned(),
        source_id: "source".to_owned(),
        track_id: TRACK.to_owned(),
        relative_path: relative_path(),
        media_format: "caf-pcm-s16le".to_owned(),
        lifecycle: lifecycle.to_owned(),
        open_token: TOKEN.to_owned(),
        writer_generation: 1,
        byte_length,
        file_device: byte_length.map(|_| 7),
        file_inode: byte_length.map(|_| 9),
    })
}

fn media_receipt(initial_byte_length: u64) -> MediaOpenReceipt {
    MediaOpenReceipt {
        session_id: SessionId(SESSION.to_owned()),
        track_id: TRACK.to_owned(),
        segment_id: SEGMENT.to_owned(),
        open_token: TOKEN.to_owned(),
        writer_generation: 1,
        relative_path: relative_path(),
        media_format: "caf-pcm-s16le".to_owned(),
        sample_rate_hz: 48_000,
        channels: 1,
        initial_byte_length,
    }
}

#[test]
fn store_errors_describe_themselves() {
    assert_eq!(StoreError::InvalidRequest("title is empty").to_string(), "invalid request: title is empty");
    assert_eq!(StoreError::Io("disk full".to_owned()).to_string(), "storage I/O failed: disk full");
    assert_eq!(StoreError::JournalRecordTooLarge.to_string(), "journal record exceeds size bound");
}

#[test]
fn media_open_receipts_are_accepted_once_and_replayed_exactly() {
    assert_eq!(decide_media_open(&media_receipt(44), &stored("opening", None)).unwrap(), MediaOpenStep::Accept);
    assert_eq!(
        decide_media_open(&media_receipt(44), &stored("open", Some(44))).unwrap(),
        MediaOpenStep::Replay { accepted_length: 44, device: 7, inode: 9 }
    );
    assert!(matches!(
        decide_media_open(&media_receipt(45), &stored("open", Some(44))),
        Err(StoreError::IntegrityMismatch("repeated receipt changed the accepted media length"))
    ));
    assert!(matches!(
        decide_media_open(&media_receipt(44), &None),
        Err(StoreError::InvalidState("media authorization does not exist"))
    ));
    let mut foreign = media_receipt(44);
    foreign.open_token = SEGMENT.to_owned();
    assert!(matches!(
        decide_media_open(&foreign, &stored("opening", None)),
        Err(StoreError::IntegrityMismatch("writer receipt does not match Rust authorization"))
    ));
    let mut wrong_format = media_receipt(44);
    wrong_format.sample_rate_hz = 44_100;
    assert!(matches!(decide_media_open(&wrong_format, &stored("opening", None)), Err(StoreError::InvalidRequest(_))));
}

fn first_sample_receipt() -> FirstSampleReceipt {
    FirstSampleReceipt {
        session_id: SessionId(SESSION.to_owned()),
        track_id: TRACK.to_owned(),
        segment_id: SEGMENT.to_owned(),
        open_token: TOKEN.to_owned(),
        writer_generation: 1,
        relative_path: relative_path(),
        first_sample_host_time: 42_000,
        first_sample_frame_count: 480,
        observed_byte_length: 1_004,
    }
}

#[test]
fn first_sample_replays_must_restate_the_accepted_evidence() {
    let accepted = FirstSamplePayload {
        track_id: Some(TRACK.to_owned()),
        first_sample_host_time: Some(42_000),
        first_sample_frame_count: Some(480),
        observed_byte_length: Some(1_004),
    };
    assert!(check_first_sample_replay(&first_sample_receipt(), &accepted).is_ok());
    let changed = FirstSamplePayload { first_sample_frame_count: Some(481), ..accepted };
    assert!(matches!(
        check_first_sample_replay(&first_sample_receipt(), &changed),
        Err(StoreError::IntegrityMismatch("repeated first-sample receipt changed accepted evidence"))
    ));
}

fn seal_receipt(sample_count: u64) -> SealSegmentReceipt {
    SealSegmentReceipt {
        session_id: SessionId(SESSION.to_owned()),
        track_id: TRACK.to_owned(),
        segment_id: SEGMENT.to_owned(),
        open_token: TOKEN.to_owned(),
        writer_generation: 1,
        relative_path: relative_path(),
        final_sample_host_time: 50_000,
        sample_count,
        final_byte_length: 2_000,
    }
}

#[test]
fn seals_may_not_precede_the_first_sample() {
    let first = Some(FirstSamplePayload {
        track_id: Some(TRACK.to_owned()),
        first_sample_host_time: Some(42_000),
        first_sample_frame_count: Some(480),
        observed_byte_length: Some(1_004),
    });
    assert!(check_seal_timing(&seal_receipt(960), &first).is_ok());
    assert!(matches!(
        check_seal_timing(&seal_receipt(100), &first),
        Err(StoreError::IntegrityMismatch("segment-seal timing or sample total precedes the first sample"))
    ));
    assert!(matches!(
        check_seal_timing(&seal_receipt(960), &None),
        Err(StoreError::InvalidState("first-sample evidence is missing"))
    ));
    let check = decide_segment_seal(&seal_receipt(960), &stored("capturing", Some(44))).unwrap();
    assert_eq!((check.device, check.inode), (7, 9));
    assert!(matches!(
        decide_segment_seal(&seal_receipt(960), &stored("opening", None)),
        Err(StoreError::InvalidState("media-open evidence is missing"))
    ));
}

fn caf_bytes(audio: &[u8]) -> Vec<u8> {
    let mut bytes = b"caff\x00\x01\x00\x00desc".to_vec();
    bytes.extend_from_slice(&32u64.to_be_bytes());
    bytes.extend_from_slice(&48_000f64.to_bits().to_be_bytes());
    bytes.extend_from_slice(b"lpcm");
    for value in [2u32, 2, 1, 1, 16] {
        bytes.extend_from_slice(&value.to_be_bytes());
    }
    bytes.extend_from_slice(b"data");
    bytes.extend_from_slice(&u64::MAX.to_be_bytes());
    bytes.extend_from_slice(&[0, 0, 0, 0]);
    bytes.extend_from_slice(audio);
    bytes
}

#[test]
fn media_assessment_checks_length_header_digest_and_samples() {
    let bytes = caf_bytes(&[1, 2, 3, 4]);
    let length = bytes.len() as u64;
    let assessment = assess_media_contents(&bytes, MediaLengthRequirement::Exact(length), true).unwrap();
    assert_eq!(assessment.byte_length, length);
    assert_eq!(assessment.recoverable_sample_count, Some(2));
    assert_eq!(assessment.digest_sha256.unwrap().len(), 64);
    let undigested = assess_media_contents(&bytes, MediaLengthRequirement::AtLeast(8), false).unwrap();
    assert_eq!(undigested.digest_sha256, None);
    assert!(matches!(
        assess_media_contents(&bytes, MediaLengthRequirement::Exact(length + 1), false),
        Err(StoreError::IntegrityMismatch("media byte length violates the accepted writer evidence"))
    ));
    assert!(matches!(
        assess_media_contents(b"RIFF0000WAVEfmt ", MediaLengthRequirement::AtLeast(8), false),
        Err(StoreError::IntegrityMismatch("media header is not CAF"))
    ));
}

fn candidate() -> RecoveryCandidate {
    RecoveryCandidate {
        session_id: SESSION.to_owned(),
        source_id: "source".to_owned(),
        track_id: TRACK.to_owned(),
        segment_id: SEGMENT.to_owned(),
        relative_path: relative_path(),
        file_device: 7,
        file_inode: 9,
    }
}

fn file(device: u64, samples: Option<u64>) -> ValidatedMediaFile {
    ValidatedMediaFile {
        byte_length: 1_000,
        device,
        inode: 9,
        digest_sha256: Some("d".repeat(64)),
        recoverable_sample_count: samples,
    }
}

#[test]
fn recovery_plans_only_the_same_playable_file() {
    let plan = plan_candidate(candidate(), Some(file(7, Some(480)))).unwrap().unwrap();
    assert_eq!(plan.sample_count, 480);
    assert_eq!(plan.final_byte_length, 1_000);
    assert_eq!(plan.segment_id, SEGMENT);
    assert!(plan_candidate(candidate(), Some(file(8, Some(480)))).unwrap().is_none());
    assert!(plan_candidate(candidate(), Some(file(7, None))).unwrap().is_none());
    assert!(plan_candidate(candidate(), None).unwrap().is_none());
}

#[test]
fn recovered_sessions_refuse_changed_media() {
    let row = || RecoveredSegmentRow {
        session_id: SESSION.to_owned(),
        segment_id: SEGMENT.to_owned(),
        relative_path: relative_path(),
        sample_count: 48_000,
        byte_length: 1_000,
        digest_sha256: "d".repeat(64),
        file_device: 7,
        file_inode: 9,
        last_journal_sequence: 12,
    };
    let session = recovered_session(row(), &file(7, Some(48_000)), "/root/x.caf".to_owned()).unwrap();
    assert_eq!(session.duration_nanoseconds, 1_000_000_000);
    assert!(session.ready_for_review && session.media_preserved && !session.recording_started);
    assert_eq!(session.last_journal_sequence, 12);
    assert!(matches!(
        recovered_session(row(), &file(7, Some(47_999)), "/root/x.caf".to_owned()),
        Err(StoreError::IntegrityMismatch("recovered playable media changed after acceptance"))
    ));
}

fn session_row(id: &str, lifecycle: &str, interruption: Option<Option<&str>>) -> RuntimeSessionRow {
    RuntimeSessionRow {
        session_id: id.to_owned(),
        title: format!("Session {id}"),
        lifecycle: lifecycle.to_owned(),
        health: "healthy".to_owned(),
        journal_durable: true,
        media_files_open: lifecycle == "recording",
        updated_at_ms: 20_000,
        recording_started_at_ms: Some(5_000),
        interruption_reason: interruption.map(|reason| reason.map(str::to_owned)),
        recovered: lifecycle == "ready_for_review",
        sources: vec![
            RuntimeSourceRow {
                kind: "microphone".to_owned(),
                display_name: "Mac microphone".to_owned(),
                lifecycle: "capturing".to_owned(),
            },
            RuntimeSourceRow {
                kind: "system_audio".to_owned(),
                display_name: "Mac system audio".to_owned(),
                lifecycle: "sealed".to_owned(),
            },
        ],
    }
}

#[test]
fn runtime_library_snapshot_projects_recording_timer_and_required_sources() {
    let library = runtime_library_snapshot_at(
        vec![
            session_row("c", "recording", None),
            session_row("b", "interrupted", Some(Some("capture_failed"))),
            session_row("a", "ready_for_review", None),
        ],
        65_999,
    )
    .unwrap();
    let current = library.current_session.unwrap();
    assert_eq!(current.session_id.0, "c");
    assert_eq!(current.elapsed_seconds, 60);
    assert_eq!(current.sources[0].kind, MediaSourceKind::Microphone);
    assert_eq!(current.sources[0].lifecycle, "capturing");
    assert_eq!(library.saved_sessions.len(), 1);
    assert_eq!(library.saved_sessions[0].elapsed_seconds, 15);
    assert!(library.saved_sessions[0].recovered);
}

#[test]
fn interrupted_sessions_show_unsealed_sources_as_failed() {
    let library =
        runtime_library_snapshot_at(vec![session_row("b", "interrupted", Some(Some("capture_failed")))], 0).unwrap();
    let current = library.current_session.unwrap();
    assert_eq!(current.interruption_reason, Some(SessionInterruptionReason::CaptureFailed));
    assert_eq!(current.sources[0].lifecycle, "failed");
    assert_eq!(current.sources[1].lifecycle, "sealed");
    assert!(runtime_library_snapshot_at(vec![session_row("b", "interrupted", Some(Some("power_loss")))], 0).is_err());
    assert!(runtime_library_snapshot_at(vec![session_row("b", "interrupted", Some(None))], 0).is_err());
}

#[test]
fn native_preparation_maps_store_results_to_coarse_records() {
    assert!(matches!(NativeRecordingPreparation::open(String::new()), Err(NativeStorageError::InvalidManagedRoot)));
    let native = NativeRecordingPreparation::open("/data/root".to_owned()).unwrap();
    let receipt = open_scribe::controller::prepared_session_receipt(SessionId(SESSION.to_owned()), 3);
    let prepared = native.prepare_session(Ok(receipt)).unwrap();
    assert_eq!(prepared.session_id, SESSION);
    assert_eq!(prepared.schema_version, 3);
    assert_eq!(prepared.last_journal_sequence, 3);
    assert!(prepared.journal_durable && !prepared.media_files_open && !prepared.recording_started);
    assert_eq!(
        native.prepare_session(Err(StoreError::InvalidRequest("title is empty"))).unwrap_err(),
        NativeStorageError::InvalidRequest
    );
    assert_eq!(map_storage_error(StoreError::Sqlite("locked".to_owned())), NativeStorageError::StorageFailure);
    assert_eq!(NativeStorageError::IntegrityMismatch.message(), "Media or journal evidence does not match Rust authority.");
}

#[test]
fn media_authorization_allocates_fresh_identities_under_the_session() {
    let controller = RecordingPreparationController::open("/data/root".to_owned()).unwrap();
    let request = || AuthorizeMediaOpenRequest {
        session_id: SessionId(SESSION.to_owned()),
        source_kind: MediaSourceKind::Microphone,
        source_display_name: "Synthetic microphone".to_owned(),
    };
    let preparing = || Some(SessionRow { lifecycle: "preparing".to_owned(), journal_durable: true, media_files_open: false });
    let first = controller.authorize_initial_media(request(), preparing(), true, false).unwrap();
    let second = controller.authorize_initial_media(request(), preparing(), true, false).unwrap();
    for id in [&first.source_id, &first.track_id, &first.segment_id, &first.open_token] {
        assert_eq!(id.len(), 36);
        assert!(uuid::Uuid::parse_str(id).is_ok());
        assert_eq!(id.to_lowercase(), **id);
    }
    assert_ne!(first.track_id, second.track_id);
    assert_eq!(first.relative_path, format!("audio/{}/000000-0.caf", first.track_id));
    assert_eq!(first.absolute_path, format!("/data/root/Sessions/{SESSION}/{}", first.relative_path));
    assert_eq!(first.writer_generation, 1);
    assert!(matches!(
        controller.authorize_initial_media(request(), preparing(), false, false),
        Err(StoreError::InvalidState("media source is not part of the required-source plan"))
    ));
    assert!(matches!(
        controller.authorize_initial_media(request(), preparing(), true, true),
        Err(StoreError::InvalidState("media authorization already exists for this required source"))
    ));
    let mut blank = request();
    blank.source_display_name = "   ".to_owned();
    assert!(matches!(
        controller.authorize_initial_media(blank, preparing(), true, false),
        Err(StoreError::InvalidRequest("source display name is empty"))
    ));
}

fn key(kind: &str, segment: Option<&str>) -> RecordKey {
    RecordKey { event_kind: kind.to_owned(), segment_id: segment.map(str::to_owned) }
}

#[test]
fn journal_records_are_found_from_the_end_by_segment() {
    let records = vec![
        key("session_directory_ready", None),
        key("segment_opened", Some("a")),
        key("segment_opened", Some("b")),
        key("segment_opened", Some("a")),
    ];
    assert_eq!(last_record_for_segment(&records, "segment_opened", "a").unwrap(), Some(3));
    assert_eq!(last_record_for_segment(&records, "segment_opened", "b").unwrap(), Some(2));
    assert_eq!(last_record_for_segment(&records, "segment_sealed", "a").unwrap(), None);
    let broken = vec![key("segment_opened", None), key("segment_opened", Some("c"))];
    assert_eq!(last_record_for_segment(&broken, "segment_opened", "c").unwrap(), Some(1));
    assert!(matches!(
        last_record_for_segment(&broken, "segment_opened", "z"),
        Err(StoreError::IntegrityMismatch("journal payload is missing a string field"))
    ));
}

fn facts() -> JournalRecoveryFacts {
    JournalRecoveryFacts {
        directory_repaired: false,
        has_open_intent: true,
        has_opened_record: true,
        has_seal_record: false,
        has_first_sample_record: true,
        intent_projected: false,
        unaccepted_media: None,
        opened_media: None,
        sealed_segment: None,
        media_files_open: None,
        first_sample: None,
    }
}

#[test]
fn journal_recovery_asks_in_order_and_finishes_with_the_last_finding() {
    let mut asked = facts();
    assert_eq!(journal_recovery_step(&asked), RecoveryAction::Ask(RecoveryQuestion::ProjectIntent));
    asked.intent_projected = true;
    assert_eq!(journal_recovery_step(&asked), RecoveryAction::Ask(RecoveryQuestion::OpenedMedia));
    asked.opened_media = Some(opened_media_finding(true, true, true));
    assert_eq!(journal_recovery_step(&asked), RecoveryAction::Ask(RecoveryQuestion::MediaOpenProjection));
    asked.media_files_open = Some(true);
    assert_eq!(journal_recovery_step(&asked), RecoveryAction::Ask(RecoveryQuestion::FirstSample));
    asked.first_sample = Some(RecoveryDisposition::FirstSamplePrepared);
    assert_eq!(journal_recovery_step(&asked), RecoveryAction::Finish(RecoveryDisposition::FirstSamplePrepared));

    let mut replaced = facts();
    replaced.intent_projected = true;
    replaced.opened_media = Some(opened_media_finding(true, true, false));
    assert_eq!(journal_recovery_step(&replaced), RecoveryAction::Finish(RecoveryDisposition::InvalidMediaFile));
    replaced.opened_media = Some(opened_media_finding(false, false, false));
    assert_eq!(journal_recovery_step(&replaced), RecoveryAction::Finish(RecoveryDisposition::MissingMediaFile));

    let mut sealed = facts();
    sealed.intent_projected = true;
    sealed.has_seal_record = true;
    sealed.opened_media = Some(None);
    assert_eq!(journal_recovery_step(&sealed), RecoveryAction::Ask(RecoveryQuestion::SealedSegment));

    let mut unopened = facts();
    unopened.has_opened_record = false;
    unopened.intent_projected = true;
    assert_eq!(journal_recovery_step(&unopened), RecoveryAction::Ask(RecoveryQuestion::UnacceptedMedia));

    let mut prepared = facts();
    prepared.has_open_intent = false;
    prepared.directory_repaired = true;
    assert_eq!(journal_recovery_step(&prepared), RecoveryAction::Finish(RecoveryDisposition::ProjectionRepaired));

    let mut opened_only = facts();
    opened_only.intent_projected = true;
    opened_only.has_first_sample_record = false;
    opened_only.opened_media = Some(None);
    opened_only.media_files_open = Some(false);
    assert_eq!(
        journal_recovery_step(&opened_only),
        RecoveryAction::Finish(RecoveryDisposition::MediaOpenProjectionRepaired)
    );
}

#[test]
fn findings_are_sorted_by_session_identifier() {
    let finding = |id: &str, disposition| RecoveryFinding { session_id: SessionId(id.to_owned()), disposition };
    let sorted = sort_findings(vec![
        finding("b", RecoveryDisposition::Prepared),
        finding("ab", RecoveryDisposition::OrphanDirectory),
        finding("a", RecoveryDisposition::MissingJournal),
        finding("c", RecoveryDisposition::TruncatedJournal),
    ]);
    let ids: Vec<&str> = sorted.iter().map(|finding| finding.session_id.0.as_str()).collect();
    assert_eq!(ids, vec!["a", "ab", "b", "c"]);
    assert_eq!(sorted[0].disposition, RecoveryDisposition::MissingJournal);
    assert!(sort_findings(Vec::new()).is_empty());
}

#[test]
fn a_journaled_recovery_plan_must_match_exactly() {
    let plan = plan_candidate(candidate(), Some(file(7, Some(480)))).unwrap().unwrap();
    let recorded = || RecordedRecoveryPlan {
        source_id: Some(plan.source_id.clone()),
        track_id: Some(plan.track_id.clone()),
        segment_id: Some(plan.segment_id.clone()),
        relative_path: Some(plan.relative_path.clone()),
        sample_count: Some(plan.sample_count),
        final_byte_length: Some(plan.final_byte_length),
        digest_sha256: Some(plan.digest_sha256.clone()),
        file_device: Some(plan.file_device),
        file_inode: Some(plan.file_inode),
        truncated_bytes: Some(0),
        field_count: 10,
    };
    assert!(recorded_plan_matches(&plan, &recorded()));
    assert!(!recorded_plan_matches(&plan, &RecordedRecoveryPlan { sample_count: Some(481), ..recorded() }));
    assert!(!recorded_plan_matches(&plan, &RecordedRecoveryPlan { field_count: 11, ..recorded() }));
    assert!(!recorded_plan_matches(&plan, &RecordedRecoveryPlan { truncated_bytes: Some(2), ..recorded() }));
}
