use audio_switch::player::{PlaybackSnapshot, PlayerState, SwitchError};
use audio_switch::switch::{SwitchAction, SwitchEvent, SwitchSession, SwitchStage};

fn host() -> Vec<Option<String>> {
    vec![Some("Speakers".to_string()), Some("Headphones".to_string())]
}

fn playing_state() -> PlayerState {
    let mut s = PlayerState::new("Speakers".to_string());
    s.set_current_path(Some("song.mp3".to_string()));
    s
}

fn snapshot() -> PlaybackSnapshot {
    PlaybackSnapshot { is_playing: true, volume_bits: 0.8f32.to_bits() }
}

#[test]
fn session_switch_with_track_runs_every_step() {
    let mut state = playing_state();
    let (mut session, action) = SwitchSession::set_audio_device("Headphones".to_string(), Some(30.0f32.to_bits()));
    assert!(matches!(action, SwitchAction::ListDevices));
    let action = session.step(&mut state, SwitchEvent::DevicesListed(host()));
    assert!(matches!(action, SwitchAction::BuildStream { device_index: 1, exclusive_mode: false }));
    let action = session.step(&mut state, SwitchEvent::StreamBuilt);
    assert!(matches!(action, SwitchAction::SnapshotAndStopOldSink));
    let action = session.step(&mut state, SwitchEvent::OldSinkStopped(snapshot()));
    assert!(matches!(action, SwitchAction::BuildSink));
    assert_eq!(state.current_device_name, "Speakers");
    let commit = match session.step(&mut state, SwitchEvent::SinkBuilt) {
        SwitchAction::Install(c) => c,
        other => panic!("unexpected action {:?}", other),
    };
    assert_eq!(commit.restore, snapshot());
    assert_eq!(f32::from_bits(commit.restore.volume_bits), 0.8);
    assert_eq!(commit.new_generation, 1);
    assert_eq!(commit.released_generation, 0);
    assert_eq!(state.current_device_name, "Headphones");
    let req = match session.step(&mut state, SwitchEvent::Installed) {
        SwitchAction::Reload(r) => r,
        other => panic!("unexpected action {:?}", other),
    };
    assert_eq!(req.path, "song.mp3");
    assert_eq!(f32::from_bits(req.at_time.unwrap()), 30.0);
    let action = session.step(&mut state, SwitchEvent::Reloaded);
    assert!(matches!(action, SwitchAction::Finish(Ok(()))));
    assert_eq!(session.stage, SwitchStage::Finished);
    let d = state.get_current_audio_device(&host(), &Some("Speakers".to_string()), true).unwrap();
    assert_eq!(d.name, "Headphones");
}

#[test]
fn session_without_track_finishes_after_install() {
    let mut state = PlayerState::new("Speakers".to_string());
    let (mut session, _) = SwitchSession::set_audio_device("Speakers".to_string(), None);
    session.step(&mut state, SwitchEvent::DevicesListed(host()));
    session.step(&mut state, SwitchEvent::StreamBuilt);
    session.step(&mut state, SwitchEvent::OldSinkStopped(snapshot()));
    match session.step(&mut state, SwitchEvent::SinkBuilt) {
        SwitchAction::Install(c) => assert_eq!(c.reload, None),
        other => panic!("unexpected action {:?}", other),
    }
    let action = session.step(&mut state, SwitchEvent::Installed);
    assert!(matches!(action, SwitchAction::Finish(Ok(()))));
}

#[test]
fn session_enumeration_failure() {
    let mut state = playing_state();
    let (mut session, _) = SwitchSession::set_audio_device("Headphones".to_string(), None);
    let action = session.step(&mut state, SwitchEvent::EnumerationFailed("no host".to_string()));
    match action {
        SwitchAction::Finish(Err(e)) => assert_eq!(e, SwitchError::Enumeration("no host".to_string())),
        other => panic!("unexpected action {:?}", other),
    }
    assert_eq!(state.current_device_name, "Speakers");
}

#[test]
fn session_missing_device_leaves_state() {
    let mut state = playing_state();
    let (mut session, _) = SwitchSession::set_audio_device("Monitor".to_string(), None);
    match session.step(&mut state, SwitchEvent::DevicesListed(host())) {
        SwitchAction::Finish(Err(e)) => assert_eq!(e, SwitchError::DeviceNotFound("Monitor".to_string())),
        other => panic!("unexpected action {:?}", other),
    }
    assert_eq!(state.current_device_name, "Speakers");
    assert_eq!(state.current_path, Some("song.mp3".to_string()));
    assert_eq!(state.sink_generation, 0);
}

#[test]
fn session_stream_failure_leaves_state() {
    let mut state = playing_state();
    let (mut session, _) = SwitchSession::set_audio_device("Headphones".to_string(), None);
    session.step(&mut state, SwitchEvent::DevicesListed(host()));
    match session.step(&mut state, SwitchEvent::StreamFailed("busy".to_string())) {
        SwitchAction::Finish(Err(e)) => assert_eq!(e, SwitchError::StreamCreation("busy".to_string())),
        other => panic!("unexpected action {:?}", other),
    }
    assert_eq!(state.current_device_name, "Speakers");
    assert_eq!(state.sink_generation, 0);
}

#[test]
fn session_sink_failure_leaves_state() {
    let mut state = playing_state();
    let (mut session, _) = SwitchSession::set_audio_device("Headphones".to_string(), None);
    session.step(&mut state, SwitchEvent::DevicesListed(host()));
    session.step(&mut state, SwitchEvent::StreamBuilt);
    session.step(&mut state, SwitchEvent::OldSinkStopped(snapshot()));
    match session.step(&mut state, SwitchEvent::SinkFailed("no sink".to_string())) {
        SwitchAction::Finish(Err(e)) => assert_eq!(e, SwitchError::SinkCreation("no sink".to_string())),
        other => panic!("unexpected action {:?}", other),
    }
    assert_eq!(state.current_device_name, "Speakers");
    assert_eq!(state.sink_generation, 0);
}

#[test]
fn session_reload_failure_keeps_switch() {
    let mut state = playing_state();
    let (mut session, _) = SwitchSession::set_audio_device("Headphones".to_string(), None);
    session.step(&mut state, SwitchEvent::DevicesListed(host()));
    session.step(&mut state, SwitchEvent::StreamBuilt);
    session.step(&mut state, SwitchEvent::OldSinkStopped(snapshot()));
    session.step(&mut state, SwitchEvent::SinkBuilt);
    session.step(&mut state, SwitchEvent::Installed);
    match session.step(&mut state, SwitchEvent::ReloadFailed("decode".to_string())) {
        SwitchAction::Finish(Err(e)) => assert_eq!(e, SwitchError::PlaybackReload("decode".to_string())),
        other => panic!("unexpected action {:?}", other),
    }
    assert_eq!(state.current_device_name, "Headphones");
    assert_eq!(state.sink_generation, 1);
}

#[test]
fn session_ignores_out_of_turn_event() {
    let mut state = playing_state();
    let (mut session, _) = SwitchSession::set_audio_device("Headphones".to_string(), None);
    let action = session.step(&mut state, SwitchEvent::SinkBuilt);
    assert!(matches!(action, SwitchAction::Ignored));
    assert_eq!(session.stage, SwitchStage::ListingDevices);
    assert_eq!(state.current_device_name, "Speakers");
    assert_eq!(state.sink_generation, 0);
}

#[test]
fn session_uses_stored_preference() {
    let mut state = PlayerState::new("Speakers".to_string());
    state.toggle_exclusive_mode(true, None);
    let (mut session, _) = SwitchSession::set_audio_device("Speakers".to_string(), None);
    let action = session.step(&mut state, SwitchEvent::DevicesListed(host()));
    assert!(matches!(action, SwitchAction::BuildStream { device_index: 0, exclusive_mode: true }));
}

#[test]
fn session_toggle_rebuild_runs_as_switch_to_current_device() {
    let mut state = playing_state();
    let mut session = match state.toggle_exclusive_mode(true, Some(12.5f32.to_bits())) {
        audio_switch::player::ToggleOutcome::Rebuild(s) => s,
        other => panic!("unexpected outcome {:?}", other),
    };
    assert_eq!(session.device_name, "Speakers");
    let action = session.step(&mut state, SwitchEvent::DevicesListed(host()));
    assert!(matches!(action, SwitchAction::BuildStream { device_index: 0, exclusive_mode: true }));
    session.step(&mut state, SwitchEvent::StreamBuilt);
    session.step(&mut state, SwitchEvent::OldSinkStopped(PlaybackSnapshot { is_playing: false, volume_bits: 3 }));
    match session.step(&mut state, SwitchEvent::SinkBuilt) {
        SwitchAction::Install(c) => {
            assert_eq!(c.restore, PlaybackSnapshot { is_playing: false, volume_bits: 3 });
            assert_eq!(c.reload.unwrap().at_time, Some(12.5f32.to_bits()));
        }
        other => panic!("unexpected action {:?}", other),
    }
    assert!(state.exclusive_mode);
    assert_eq!(state.current_device_name, "Speakers");
}

#[test]
fn session_toggle_rebuild_failure_keeps_preference() {
    let mut state = playing_state();
    let mut session = match state.toggle_exclusive_mode(true, None) {
        audio_switch::player::ToggleOutcome::Rebuild(s) => s,
        other => panic!("unexpected outcome {:?}", other),
    };
    session.step(&mut state, SwitchEvent::DevicesListed(host()));
    match session.step(&mut state, SwitchEvent::StreamFailed("busy".to_string())) {
        SwitchAction::Finish(Err(e)) => assert_eq!(e, SwitchError::StreamCreation("busy".to_string())),
        other => panic!("unexpected action {:?}", other),
    }
    assert!(state.exclusive_mode);
    assert_eq!(state.sink_generation, 0);
    assert_eq!(state.current_path, Some("song.mp3".to_string()));
}
