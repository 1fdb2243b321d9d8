use open_scribe::controller::{fixture_snapshots, status_snapshot, FixtureSessionController, CORE_VERSION};
use open_scribe::domain::{
    announcement, fixture_catalog, Command, Fixture, Presentation, SessionMachine, TimerBehavior, TransitionError,
};
use open_scribe::{Lifecycle, PermissionState, SessionHealth};

#[test]
fn core_refuses_recording_without_complete_durability_evidence() {
    let mut controller = FixtureSessionController::new(Fixture::Starting);

    let error = controller
        .apply(Command::ConfirmRecording { journal_durable: true, media_files_open: false })
        .unwrap_err();

    assert_eq!(error, TransitionError::DurabilityEvidenceMissing);
    assert_eq!(controller.snapshot().presentation, Presentation::Starting);
}

#[test]
fn core_exposes_every_deterministic_fixture() {
    assert_eq!(fixture_snapshots().len(), Fixture::ALL.len());
}

#[test]
fn status_snapshot_reports_bounded_dual_source_capture_without_intelligence() {
    let status = status_snapshot();

    assert_eq!(status.product_name, "Open Scribe");
    assert_eq!(status.core_version, CORE_VERSION);
    assert_eq!(status.core_version, "0.1.0");
    assert_eq!(status.persistence, "Durable local audio and recovery");
    assert_eq!(status.capture, "Development microphone + system audio");
    assert_eq!(status.intelligence, "Not implemented");
}

#[test]
fn starting_is_presentation_not_a_durable_lifecycle() {
    let mut machine = SessionMachine::from_fixture(Fixture::Ready);

    machine.apply(Command::RequestStart).unwrap();
    let snapshot = machine.snapshot();

    assert_eq!(snapshot.session.lifecycle, Lifecycle::Ready);
    assert_eq!(snapshot.presentation, Presentation::Starting);
    assert_eq!(snapshot.timer, TimerBehavior::Hidden);
}

#[test]
fn recording_requires_both_journal_and_media_open_evidence() {
    let mut machine = SessionMachine::from_fixture(Fixture::Ready);
    machine.apply(Command::RequestStart).unwrap();

    let error = machine
        .apply(Command::ConfirmRecording { journal_durable: true, media_files_open: false })
        .unwrap_err();

    assert_eq!(error, TransitionError::DurabilityEvidenceMissing);
    assert_eq!(machine.snapshot().session.lifecycle, Lifecycle::Ready);
    assert_eq!(machine.snapshot().presentation, Presentation::Starting);
}

#[test]
fn degraded_health_and_permission_loss_are_orthogonal_conditions() {
    let degraded = SessionMachine::from_fixture(Fixture::RecordingDegraded).snapshot();
    assert_eq!(degraded.session.lifecycle, Lifecycle::Recording);
    assert_eq!(degraded.session.health, SessionHealth::Degraded);

    let permission = SessionMachine::from_fixture(Fixture::PermissionRevoked).snapshot();
    assert_eq!(permission.session.lifecycle, Lifecycle::Recording);
    assert_eq!(permission.session.health, SessionHealth::Degraded);
    assert!(permission.session.sources.iter().any(|source| source.permission.state == PermissionState::Revoked));
}

#[test]
fn every_fixture_has_a_distinct_truthful_snapshot() {
    let catalog = fixture_catalog();
    assert_eq!(catalog.len(), Fixture::ALL.len());
    assert!(catalog.iter().all(|(_, snapshot)| !snapshot.label.is_empty()));
    assert_eq!(SessionMachine::from_fixture(Fixture::Recording).snapshot().label, "Recording · 00:12:34");
    assert_eq!(SessionMachine::from_fixture(Fixture::Ready).snapshot().label, "Ready · 2 sources");
}

#[test]
fn timer_ticks_do_not_generate_announcements() {
    let before = SessionMachine::from_fixture(Fixture::Recording).snapshot();
    let mut machine = SessionMachine::from_fixture(Fixture::Recording);
    let after = machine.apply(Command::AdvanceTimer(1)).unwrap();
    assert_eq!(announcement(&before, &after), None);
}

#[test]
fn pause_then_resume_gives_back_the_recording_snapshot() {
    for fixture in [Fixture::Recording, Fixture::RecordingDegraded, Fixture::PermissionRevoked] {
        let mut machine = SessionMachine::from_fixture(fixture);
        let old = machine.snapshot();
        let paused = machine.apply(Command::Pause).unwrap();
        assert_eq!(paused.session.lifecycle, Lifecycle::Paused);
        assert_eq!(paused.session.elapsed_seconds, old.session.elapsed_seconds);
        assert_eq!(machine.apply(Command::Resume).unwrap(), old);
        assert_eq!(machine.snapshot(), old);
    }
}

#[test]
fn fixture_controller_moves_in_lockstep_with_its_machine() {
    let commands = [
        Command::Pause,
        Command::Prepare,
        Command::RequestStart,
        Command::ConfirmRecording { journal_durable: true, media_files_open: false },
        Command::ConfirmRecording { journal_durable: true, media_files_open: true },
        Command::AdvanceTimer(5),
        Command::Pause,
        Command::Resume,
        Command::BeginFinalizing { media_safe: false },
        Command::BeginFinalizing { media_safe: true },
        Command::Complete,
        Command::Interrupt,
    ];
    for fixture in Fixture::ALL {
        let mut controller = FixtureSessionController::new(fixture);
        let mut machine = SessionMachine::from_fixture(fixture);
        assert_eq!(controller.snapshot(), machine.snapshot());
        for command in commands.iter() {
            assert_eq!(controller.apply(command.clone()), machine.apply(command.clone()));
            assert_eq!(controller.snapshot(), machine.snapshot());
        }
    }
}

#[test]
fn catalog_presentations_are_pairwise_distinct_and_named_after_their_fixtures() {
    let expected = [
        Presentation::Idle,
        Presentation::Ready,
        Presentation::Starting,
        Presentation::Recording,
        Presentation::Paused,
        Presentation::Finalizing,
        Presentation::RecordingDegraded,
        Presentation::PermissionRevoked,
        Presentation::RecoveryRequired,
        Presentation::Complete,
    ];
    let catalog = fixture_catalog();
    for (index, (fixture, snapshot)) in catalog.iter().enumerate() {
        assert_eq!(*fixture, Fixture::ALL[index]);
        assert_eq!(snapshot.presentation, expected[index]);
        assert_eq!(*snapshot, SessionMachine::from_fixture(*fixture).snapshot());
        for (other, (_, other_snapshot)) in catalog.iter().enumerate() {
            if other != index {
                assert_ne!(snapshot.presentation, other_snapshot.presentation);
            }
        }
    }
}
