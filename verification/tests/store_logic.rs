use open_scribe::caf::inspect_recoverable_pcm_caf;
use open_scribe::controller::{join_path, RecordingPreparationController};
use open_scribe::decisions::{decide_interruption, decide_recording_start, InterruptionStep, LastRecord, SessionRow};
use open_scribe::journal::{
    digest_hex, journal_lines, to_lower_hex, validate_journal_chain, JournalLine, JournalValidation, RecordFacts,
};
use open_scribe::recovery::{playback_duration_nanoseconds, session_recovery_plans, PlayableRecoveryPlan};
use open_scribe::store::{
    InterruptSessionRequest, MediaSourceKind, PrepareSessionRequest, SessionInterruptionReason, SessionOrigin,
    StoreError,
};
use open_scribe::validation::{
    normalized_source_kinds, valid_media_relative_path, valid_relative_path, validate_request,
};
use open_scribe::SessionId;

const SESSION: &str = "0190f1e2-3a4b-7c5d-8e6f-a1b2c3d4e5f6";

fn caf(data_size: u64, audio: &[u8]) -> Vec<u8> {
    let mut bytes = b"caff\x00\x01\x00\x00".to_vec();
    bytes.extend_from_slice(b"desc");
    bytes.extend_from_slice(&32u64.to_be_bytes());
    bytes.extend_from_slice(&48_000f64.to_bits().to_be_bytes());
    bytes.extend_from_slice(b"lpcm");
    for value in [2u32, 2, 1, 1, 16] {
        bytes.extend_from_slice(&value.to_be_bytes());
    }
    bytes.extend_from_slice(b"data");
    bytes.extend_from_slice(&data_size.to_be_bytes());
    bytes.extend_from_slice(&[0, 0, 0, 0]);
    bytes.extend_from_slice(audio);
    bytes
}

#[test]
fn caf_with_sized_data_reports_whole_samples() {
    let bytes = caf(4 + 6, &[1, 2, 3, 4, 5, 6]);
    assert_eq!(inspect_recoverable_pcm_caf(&bytes).unwrap(), Some(3));
}

#[test]
fn caf_with_open_ended_data_counts_to_the_end() {
    let bytes = caf(u64::MAX, &[1, 2, 3, 4]);
    assert_eq!(inspect_recoverable_pcm_caf(&bytes).unwrap(), Some(2));
}

#[test]
fn caf_with_odd_audio_or_without_header_is_unrecoverable() {
    assert_eq!(inspect_recoverable_pcm_caf(&caf(u64::MAX, &[1, 2, 3])).unwrap(), None);
    assert_eq!(inspect_recoverable_pcm_caf(&caf(u64::MAX, &[])).unwrap(), None);
    let mut bytes = caf(u64::MAX, &[1, 2]);
    bytes[0] = b'x';
    assert_eq!(inspect_recoverable_pcm_caf(&bytes).unwrap(), None);
    assert_eq!(inspect_recoverable_pcm_caf(b"caff\x00\x01\x00\x00").unwrap(), None);
}

#[test]
fn caf_with_truncated_descriptor_is_an_io_failure() {
    let bytes = caf(u64::MAX, &[1, 2]);
    let truncated = &bytes[..30];
    assert!(matches!(inspect_recoverable_pcm_caf(truncated), Err(StoreError::Io(_))));
}

#[test]
fn digests_are_lower_case_sha256() {
    assert_eq!(digest_hex(b"abc"), "ba7816bf8f01cfea414140de5dae2223b00361a396177a9cb410ff61f20015ad");
    assert_eq!(digest_hex(b""), "e3b0c44298fc1c149afbf4c8996fb92427ae41e4649b934ca495991b7852b855");
    assert_eq!(to_lower_hex(&[0x00, 0xff, 0x1a]), "00ff1a");
}

#[test]
fn journal_lines_require_a_final_newline() {
    assert_eq!(journal_lines(b"a\nbc\n"), Some(vec![(0, 1), (2, 4)]));
    assert_eq!(journal_lines(b"a\n\nbc\n"), Some(vec![(0, 1), (3, 5)]));
    assert_eq!(journal_lines(b"a\nbc"), None);
    assert_eq!(journal_lines(b""), None);
}

fn record(sequence: u64, prior: Option<&str>, digest: &str) -> JournalLine {
    JournalLine::Parsed(RecordFacts {
        version: 1,
        sequence,
        session_id: SESSION.to_owned(),
        relative_path: None,
        prior_digest: prior.map(str::to_owned),
        record_digest: digest.to_owned(),
        body_digest: digest.to_owned(),
    })
}

#[test]
fn a_linked_journal_validates_and_a_broken_link_does_not() {
    let linked = vec![record(1, None, "d1"), record(2, Some("d1"), "d2"), record(3, Some("d2"), "d3")];
    assert_eq!(validate_journal_chain(&linked, SESSION), JournalValidation::Valid);

    let broken = vec![record(1, None, "d1"), record(2, Some("dx"), "d2")];
    assert_eq!(validate_journal_chain(&broken, SESSION), JournalValidation::IntegrityMismatch);

    let skipped = vec![record(1, None, "d1"), record(3, Some("d1"), "d3")];
    assert_eq!(validate_journal_chain(&skipped, SESSION), JournalValidation::IntegrityMismatch);

    let foreign = vec![record(1, None, "d1")];
    assert_eq!(validate_journal_chain(&foreign, "another"), JournalValidation::IntegrityMismatch);

    let damaged = vec![record(1, None, "d1"), JournalLine::Unparseable];
    assert_eq!(validate_journal_chain(&damaged, SESSION), JournalValidation::Malformed);

    let mut future = RecordFacts {
        version: 2,
        sequence: 1,
        session_id: SESSION.to_owned(),
        relative_path: None,
        prior_digest: None,
        record_digest: "d1".to_owned(),
        body_digest: "d1".to_owned(),
    };
    assert_eq!(
        validate_journal_chain(&vec![JournalLine::Parsed(future.clone_facts())], SESSION),
        JournalValidation::UnsupportedVersion
    );
    future.version = 1;
    future.body_digest = "other".to_owned();
    assert_eq!(
        validate_journal_chain(&vec![JournalLine::Parsed(future)], SESSION),
        JournalValidation::IntegrityMismatch
    );
}

trait CloneFacts {
    fn clone_facts(&self) -> RecordFacts;
}

impl CloneFacts for RecordFacts {
    fn clone_facts(&self) -> RecordFacts {
        RecordFacts {
            version: self.version,
            sequence: self.sequence,
            session_id: self.session_id.clone(),
            relative_path: self.relative_path.clone(),
            prior_digest: self.prior_digest.clone(),
            record_digest: self.record_digest.clone(),
            body_digest: self.body_digest.clone(),
        }
    }
}

#[test]
fn titles_must_be_present_and_bounded() {
    let ok = PrepareSessionRequest { title: "Weekly sync".to_owned(), origin: SessionOrigin::Capture };
    assert!(validate_request(&ok).is_ok());
    let blank = PrepareSessionRequest { title: " \t\n".to_owned(), origin: SessionOrigin::Capture };
    assert!(matches!(validate_request(&blank), Err(StoreError::InvalidRequest("title is empty"))));
    let long = PrepareSessionRequest { title: "é".repeat(257), origin: SessionOrigin::Import };
    assert!(matches!(validate_request(&long), Err(StoreError::InvalidRequest("title exceeds byte limit"))));
    let limit = PrepareSessionRequest { title: "é".repeat(256), origin: SessionOrigin::Import };
    assert!(validate_request(&limit).is_ok());
}

#[test]
fn source_plans_are_sorted_and_deduplicated() {
    let plan = normalized_source_kinds(vec![
        MediaSourceKind::SystemAudio,
        MediaSourceKind::Microphone,
        MediaSourceKind::SystemAudio,
    ])
    .unwrap();
    assert_eq!(plan, vec![MediaSourceKind::Microphone, MediaSourceKind::SystemAudio]);
    let again = normalized_source_kinds(plan.clone()).unwrap();
    assert_eq!(again, plan);
    assert!(matches!(normalized_source_kinds(vec![]), Err(StoreError::InvalidRequest(_))));
    assert!(matches!(normalized_source_kinds(vec![MediaSourceKind::Microphone; 4]), Err(StoreError::InvalidRequest(_))));
}

#[test]
fn kind_and_reason_names_round_trip() {
    for kind in [MediaSourceKind::Microphone, MediaSourceKind::ApplicationAudio, MediaSourceKind::SystemAudio] {
        assert_eq!(MediaSourceKind::from_str(kind.as_str()).unwrap(), kind);
    }
    assert_eq!(MediaSourceKind::ApplicationAudio.as_str(), "application_audio");
    assert!(MediaSourceKind::from_str("camera").is_err());
    for reason in [
        SessionInterruptionReason::CaptureStartFailed,
        SessionInterruptionReason::CaptureFailed,
        SessionInterruptionReason::FirstSampleRejected,
        SessionInterruptionReason::StopWithoutDurableSample,
        SessionInterruptionReason::SegmentSealFailed,
    ] {
        assert_eq!(SessionInterruptionReason::from_str(reason.as_str()).unwrap(), reason);
    }
    assert!(SessionInterruptionReason::from_str("power_loss").is_err());
}

#[test]
fn relative_paths_stay_inside_the_session() {
    assert!(valid_relative_path("audio/track/segment.caf"));
    assert!(valid_relative_path("./journal.jsonl"));
    assert!(valid_relative_path("a..b/c"));
    assert!(!valid_relative_path("/etc/passwd"));
    assert!(!valid_relative_path("audio/../../escape"));
    assert!(!valid_relative_path(".."));
    assert!(valid_media_relative_path("audio/track/segment.caf"));
    assert!(!valid_media_relative_path("audio/segment.caf"));
    assert!(!valid_media_relative_path("audio/track/segment.wav"));
    assert!(!valid_media_relative_path("video/track/segment.caf"));
    assert!(!valid_media_relative_path("audio/track/more/segment.caf"));
}

fn names(kinds: &[&str]) -> Vec<String> {
    kinds.iter().map(|kind| kind.to_string()).collect()
}

#[test]
fn recording_requires_every_planned_source() {
    let preparing = || Some(SessionRow { lifecycle: "preparing".to_owned(), journal_durable: true, media_files_open: true });
    let plan = names(&["microphone", "system_audio"]);

    let partial = decide_recording_start(&plan, &names(&["microphone"]), preparing());
    assert!(matches!(
        partial,
        Err(StoreError::InvalidState("not every required source has durable first-sample evidence"))
    ));

    let decision = decide_recording_start(&plan, &plan, preparing()).unwrap();
    assert!(!decision.already_recording);
    assert_eq!(decision.required_sources, vec![MediaSourceKind::Microphone, MediaSourceKind::SystemAudio]);

    let replay = decide_recording_start(
        &plan,
        &plan,
        Some(SessionRow { lifecycle: "recording".to_owned(), journal_durable: true, media_files_open: true }),
    )
    .unwrap();
    assert!(replay.already_recording);

    let closed = decide_recording_start(
        &plan,
        &plan,
        Some(SessionRow { lifecycle: "preparing".to_owned(), journal_durable: true, media_files_open: false }),
    );
    assert!(matches!(closed, Err(StoreError::InvalidState("session durability is insufficient for Recording"))));
    assert!(matches!(decide_recording_start(&names(&[]), &names(&[]), preparing()), Err(StoreError::InvalidState(_))));
    assert!(matches!(
        decide_recording_start(&names(&["camera"]), &names(&["camera"]), preparing()),
        Err(StoreError::IntegrityMismatch(_))
    ));
}

#[test]
fn interruption_replay_is_idempotent_and_rejects_a_changed_reason() {
    let request = InterruptSessionRequest {
        session_id: SessionId(SESSION.to_owned()),
        reason: SessionInterruptionReason::CaptureFailed,
    };
    let opened = LastRecord { event_kind: "media_open_accepted".to_owned(), reason: None, sequence: 4 };
    assert_eq!(
        decide_interruption(&request, Some("recording".to_owned()), true, Some(opened)).unwrap(),
        InterruptionStep::Append
    );

    let journaled = || LastRecord {
        event_kind: "session_interrupted".to_owned(),
        reason: Some("capture_failed".to_owned()),
        sequence: 5,
    };
    assert_eq!(
        decide_interruption(&request, Some("interrupted".to_owned()), true, Some(journaled())).unwrap(),
        InterruptionStep::Replay { project: false }
    );
    assert_eq!(
        decide_interruption(&request, Some("recording".to_owned()), true, Some(journaled())).unwrap(),
        InterruptionStep::Replay { project: true }
    );
    let changed = InterruptSessionRequest {
        session_id: SessionId(SESSION.to_owned()),
        reason: SessionInterruptionReason::SegmentSealFailed,
    };
    assert!(matches!(
        decide_interruption(&changed, Some("interrupted".to_owned()), true, Some(journaled())),
        Err(StoreError::IntegrityMismatch("repeated interruption changed accepted evidence"))
    ));
    let not_a_uuid = InterruptSessionRequest { session_id: SessionId("nope".to_owned()), reason: request.reason };
    assert!(matches!(
        decide_interruption(&not_a_uuid, Some("recording".to_owned()), true, None),
        Err(StoreError::InvalidRequest("session ID is not a UUID"))
    ));
    assert!(matches!(
        decide_interruption(&request, Some("recording".to_owned()), false, Some(journaled())),
        Err(StoreError::IntegrityMismatch("session journal is invalid"))
    ));
}

#[test]
fn playback_duration_uses_the_48k_clock_and_saturates() {
    assert_eq!(playback_duration_nanoseconds(48_000), 1_000_000_000);
    assert_eq!(playback_duration_nanoseconds(24), 500_000);
    assert_eq!(playback_duration_nanoseconds(u64::MAX), u64::MAX / 48_000);
}

fn plan(segment: &str) -> PlayableRecoveryPlan {
    PlayableRecoveryPlan {
        source_id: "source".to_owned(),
        track_id: "track".to_owned(),
        segment_id: segment.to_owned(),
        relative_path: "audio/track/segment.caf".to_owned(),
        sample_count: 2,
        final_byte_length: 72,
        digest_sha256: "digest".to_owned(),
        file_device: 1,
        file_inode: 2,
    }
}

#[test]
fn recovery_promotes_all_tracks_or_none() {
    let plans = session_recovery_plans(vec![Some(plan("a")), Some(plan("b"))]);
    assert_eq!(plans.len(), 2);
    assert_eq!(plans[0].segment_id, "a");
    assert_eq!(plans[1].segment_id, "b");
    assert!(session_recovery_plans(vec![Some(plan("a")), None]).is_empty());
}

#[test]
fn preparation_authority_requires_a_root_and_joins_paths() {
    assert!(matches!(RecordingPreparationController::open(String::new()), Err(StoreError::InvalidManagedRoot(_))));
    let controller = RecordingPreparationController::open("/data/root".to_owned()).unwrap();
    assert_eq!(controller.managed_root(), "/data/root");
    assert_eq!(controller.session_directory(SESSION), format!("/data/root/Sessions/{SESSION}"));
    assert_eq!(join_path("/a/", "b"), "/a/b");
    assert_eq!(join_path("/a", "b"), "/a/b");
}
