use open_scribe::native::{
    native_apply_fixture_command, native_fixture, native_fixture_catalog, NativeCommand, NativeCommandKind,
    NativeFixture,
};

#[test]
fn every_fixture_round_trips_as_a_coarse_native_snapshot() {
    let fixtures = native_fixture_catalog();
    let expected = [
        NativeFixture::Idle,
        NativeFixture::Ready,
        NativeFixture::Starting,
        NativeFixture::Recording,
        NativeFixture::Paused,
        NativeFixture::Finalizing,
        NativeFixture::RecordingDegraded,
        NativeFixture::PermissionRevoked,
        NativeFixture::RecoveryRequired,
        NativeFixture::Complete,
    ];

    assert_eq!(fixtures.len(), 10);
    assert!(fixtures.iter().all(|snapshot| !snapshot.label.is_empty()));
    assert!(fixtures.iter().all(|snapshot| snapshot.sources.len() == 2));
    for (fixture, catalog_snapshot) in expected.into_iter().zip(fixtures) {
        assert_eq!(native_fixture(fixture), catalog_snapshot);
    }
}

#[test]
fn starting_remains_ready_across_uniffi() {
    let snapshot = native_fixture(NativeFixture::Starting);

    assert_eq!(snapshot.lifecycle, "ready");
    assert_eq!(snapshot.presentation, "starting");
    assert_eq!(snapshot.timer_behavior, "hidden");
    assert!(!snapshot.journal_durable);
    assert!(!snapshot.media_files_open);
}

#[test]
fn illegal_native_command_fails_with_stable_code() {
    let error = native_apply_fixture_command(
        NativeFixture::Idle,
        NativeCommand {
            kind: NativeCommandKind::Pause,
            journal_durable: false,
            media_files_open: false,
            media_safe: false,
            elapsed_seconds: 0,
        },
    )
    .unwrap_err();

    assert_eq!(error.code(), "illegal_transition");
}

#[test]
fn recording_evidence_guard_survives_uniffi() {
    let error = native_apply_fixture_command(
        NativeFixture::Starting,
        NativeCommand {
            kind: NativeCommandKind::ConfirmRecording,
            journal_durable: true,
            media_files_open: false,
            media_safe: false,
            elapsed_seconds: 0,
        },
    )
    .unwrap_err();

    assert_eq!(error.code(), "durability_evidence_missing");
}

#[test]
fn confirmed_recording_is_announced_across_the_boundary() {
    let snapshot = native_apply_fixture_command(
        NativeFixture::Starting,
        NativeCommand {
            kind: NativeCommandKind::ConfirmRecording,
            journal_durable: true,
            media_files_open: true,
            media_safe: false,
            elapsed_seconds: 0,
        },
    )
    .unwrap();

    assert_eq!(snapshot.lifecycle, "recording");
    assert_eq!(snapshot.presentation, "recording");
    assert_eq!(snapshot.announcement.as_deref(), Some("Recording"));
    assert_eq!(snapshot.sources[0].activity, "active");
}

#[test]
fn native_timer_tick_is_silent() {
    let snapshot = native_apply_fixture_command(
        NativeFixture::Recording,
        NativeCommand {
            kind: NativeCommandKind::AdvanceTimer,
            journal_durable: false,
            media_files_open: false,
            media_safe: false,
            elapsed_seconds: 6,
        },
    )
    .unwrap();

    assert_eq!(snapshot.elapsed_seconds, 760);
    assert_eq!(snapshot.timer_text.as_deref(), Some("00:12:40"));
    assert_eq!(snapshot.announcement, None);
}

#[test]
fn permission_revoked_fixture_names_the_recovery_hint() {
    let snapshot = native_fixture(NativeFixture::PermissionRevoked);

    assert_eq!(snapshot.fixture, "permission_revoked");
    assert_eq!(snapshot.health, "degraded");
    assert_eq!(snapshot.sources[1].permission, "revoked");
    assert_eq!(snapshot.sources[1].activity, "failed");
    assert_eq!(
        snapshot.sources[1].permission_recovery_hint.as_deref(),
        Some("Open System Settings → Privacy & Security")
    );
}

#[test]
fn native_status_is_truthful_and_non_media() {
    let status = open_scribe::native::native_status();

    assert_eq!(status.product_name, "Open Scribe");
    assert_eq!(status.core_version, open_scribe::controller::status_snapshot().core_version);
    assert_eq!(status.persistence, "Durable preparation only");
    assert_eq!(status.capture, "Not implemented");
    assert_eq!(status.intelligence, "Not implemented");
}
