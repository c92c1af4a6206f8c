use audio_bridge::backend::AudioBackend;
use audio_bridge::errors::AudioError;
use audio_bridge::events::{
    AudioEventDescription, AudioEventInstance, AudioPlaybackState, InstanceCommand, StopMode,
};
use audio_bridge::listener::{AudioListener, ListenerCommand};
use audio_bridge::loader::{
    start_loading_audio_backend, EngineReply, LoadOutcome,
};
use audio_bridge::spatial::Vec2Milli;

fn strings(names: &[&str]) -> Vec<String> {
    names.iter().map(|n| n.to_string()).collect()
}

#[test]
fn scenario_full_session() {
    // The bank directory exists and Master.bank defines one event. Loading
    // succeeds, the event resolves, and a started instance moves out of the
    // stopped state once the engine reports so on the next update.
    let mut loader = start_loading_audio_backend("./banks", strings(&["Master.bank"]));
    loader.apply(EngineReply::DiagnosticsConfigured);
    loader.apply(EngineReply::SystemPrepared { outcome: Ok(()) });
    loader.apply(EngineReply::DirectoryChecked { exists: true });
    loader.apply(EngineReply::SystemBuilt { outcome: Ok(()) });
    loader.apply(EngineReply::BankLoaded { outcome: Ok(()) });
    assert_eq!(loader.outcome(), LoadOutcome::Ready);

    let mut backend = loader.finish(vec![strings(&["event:/Weapons/Explosion"])]);
    let description = backend.get_event("event:/Weapons/Explosion").unwrap();
    assert_eq!(description.get_path(), "event:/Weapons/Explosion");

    let mut instance = description.create_instance();
    assert_eq!(instance.get_playback_state(), AudioPlaybackState::Stopped);
    assert_eq!(instance.start(), InstanceCommand::Start);

    backend.update();
    assert_eq!(backend.ticks(), 1);
    // The engine drives the transition during update; the layer records what
    // the engine reported and only reports that.
    instance.record_playback_state(AudioPlaybackState::Starting);
    assert_eq!(instance.get_playback_state(), AudioPlaybackState::Starting);
    instance.record_playback_state(AudioPlaybackState::Playing);
    assert_eq!(instance.get_playback_state(), AudioPlaybackState::Playing);

    assert_eq!(instance.release(), InstanceCommand::Release);
    backend.shutdown();
}

#[test]
fn unknown_event_path_is_a_not_found_error() {
    let backend = AudioBackend::from_bank_lists(vec![strings(&[
        "event:/Ambience/Country",
        "event:/UI/Cancel",
    ])]);
    let result = backend.get_event("event:/Weapons/Explosion");
    match result {
        Err(error) => {
            assert_eq!(
                error,
                AudioError::EventNotFound { path: String::from("event:/Weapons/Explosion") },
            );
            assert_eq!(error.message(), "event not found: event:/Weapons/Explosion");
        }
        Ok(_) => panic!("an undefined path must not resolve to a description"),
    }
}

#[test]
fn get_event_returns_the_first_match() {
    let backend = AudioBackend::from_bank_lists(vec![
        strings(&["event:/A", "event:/B"]),
        strings(&["event:/B"]),
    ]);
    let description = backend.get_event("event:/B").unwrap();
    assert_eq!(description.index(), 1);
    assert_eq!(description.get_path(), "event:/B");
}

#[test]
fn event_list_keeps_bank_order_then_intra_bank_order() {
    let backend = AudioBackend::from_bank_lists(vec![
        strings(&["event:/A", "event:/B"]),
        strings(&[]),
        strings(&["event:/C"]),
    ]);
    let list = backend.get_event_list();
    let paths: Vec<String> = list.iter().map(|d| d.get_path()).collect();
    assert_eq!(paths, strings(&["event:/A", "event:/B", "event:/C"]));
    for (i, description) in list.iter().enumerate() {
        assert_eq!(description.index(), i);
    }
}

#[test]
fn one_description_spawns_many_instances() {
    let backend = AudioBackend::from_bank_lists(vec![strings(&["event:/Weapons/Explosion"])]);
    let description = backend.get_event("event:/Weapons/Explosion").unwrap();
    let first = description.create_instance();
    let second = description.create_instance();
    assert_eq!(first.get_playback_state(), AudioPlaybackState::Stopped);
    assert_eq!(second.get_playback_state(), AudioPlaybackState::Stopped);
    // Fire and forget: start, then release at once, is a supported pattern.
    assert_eq!(first.start(), InstanceCommand::Start);
    assert_eq!(first.release(), InstanceCommand::Release);
    assert_eq!(second.release(), InstanceCommand::Release);
}

#[test]
fn stop_allows_fadeout_by_default() {
    let backend = AudioBackend::from_bank_lists(vec![strings(&["event:/Ambience/Country"])]);
    let instance = backend.get_event("event:/Ambience/Country").unwrap().create_instance();
    assert_eq!(instance.stop(), InstanceCommand::Stop { mode: StopMode::AllowFadeout });
    assert_eq!(
        instance.stop_with_mode(StopMode::Immediate),
        InstanceCommand::Stop { mode: StopMode::Immediate },
    );
}

#[test]
fn instance_attributes_go_through_the_transform() {
    let backend = AudioBackend::from_bank_lists(vec![strings(&["event:/Weapons/Explosion"])]);
    let mut instance = backend.get_event("event:/Weapons/Explosion").unwrap().create_instance();
    let command = instance.set_3d_attributes(
        Vec2Milli { x: 10_000, y: 0 },
        Vec2Milli { x: 0, y: 0 },
    );
    match command {
        InstanceCommand::SetAttributes { attributes } => {
            assert_eq!(attributes.position.x, -1_000_000);
            assert_eq!(attributes.position.y, 0);
            assert_eq!(attributes.position.z, 0);
        }
        other => panic!("expected a SetAttributes command, got {:?}", other),
    }
}

#[test]
fn backend_set_listeners_plans_the_sequence() {
    let backend = AudioBackend::from_bank_lists(vec![]);
    let listeners = vec![AudioListener {
        weight_milli: 1000,
        position: Vec2Milli { x: 0, y: 0 },
        velocity: Vec2Milli { x: 0, y: 0 },
    }];
    let commands = backend.set_listeners(&listeners);
    assert_eq!(commands.len(), 3);
    assert_eq!(commands[0], ListenerCommand::SetCount { count: 1 });
}

#[test]
fn set_parameter_carries_name_and_value() {
    let backend = AudioBackend::from_bank_lists(vec![]);
    let command = backend.set_parameter_by_name("Surface", 2500);
    assert_eq!(command.name, "Surface");
    assert_eq!(command.value_milli, 2500);
}
