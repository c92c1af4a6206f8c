use audio_bridge::listener::{
    plan_listener_update, AudioListener, ListenerCommand, MAX_LISTENERS,
};
use audio_bridge::spatial::{build_3d_attrs, Vec2Milli};

fn listener(weight_milli: i64, x: i64, y: i64) -> AudioListener {
    AudioListener {
        weight_milli,
        position: Vec2Milli { x, y },
        velocity: Vec2Milli { x: 0, y: 0 },
    }
}

#[test]
fn two_listener_sequence_in_index_order() {
    // Weights 1.0 and 0.5 at game positions (0, 0) and (100, 0): exactly two
    // attribute/weight update pairs after the count, index 0 then index 1.
    let listeners = vec![listener(1000, 0, 0), listener(500, 100_000, 0)];
    let commands = plan_listener_update(&listeners);
    let origin = Vec2Milli { x: 0, y: 0 };
    let expected = vec![
        ListenerCommand::SetCount { count: 2 },
        ListenerCommand::SetAttributes {
            index: 0,
            attributes: build_3d_attrs(Vec2Milli { x: 0, y: 0 }, origin),
        },
        ListenerCommand::SetWeight { index: 0, weight_milli: 1000 },
        ListenerCommand::SetAttributes {
            index: 1,
            attributes: build_3d_attrs(Vec2Milli { x: 100_000, y: 0 }, origin),
        },
        ListenerCommand::SetWeight { index: 1, weight_milli: 500 },
    ];
    assert_eq!(commands, expected);
}

#[test]
fn long_list_truncates_to_first_max() {
    let mut long = Vec::new();
    for i in 0..12 {
        long.push(listener(i as i64 * 10, i as i64 * 1000, 0));
    }
    let commands = plan_listener_update(&long);
    assert_eq!(commands.len(), 1 + 2 * MAX_LISTENERS);
    assert_eq!(commands[0], ListenerCommand::SetCount { count: MAX_LISTENERS });

    // The plan of the long list is exactly the plan of its first
    // MAX_LISTENERS entries: the tail plays no part.
    let prefix: Vec<AudioListener> = long[..MAX_LISTENERS].to_vec();
    let prefix_commands = plan_listener_update(&prefix);
    assert_eq!(commands, prefix_commands);
}

#[test]
fn empty_list_sets_count_zero() {
    let commands = plan_listener_update(&Vec::new());
    assert_eq!(commands, vec![ListenerCommand::SetCount { count: 0 }]);
}

#[test]
fn exactly_max_is_not_truncated() {
    let mut listeners = Vec::new();
    for i in 0..MAX_LISTENERS {
        listeners.push(listener(1000, i as i64, 0));
    }
    let commands = plan_listener_update(&listeners);
    assert_eq!(commands.len(), 1 + 2 * MAX_LISTENERS);
    assert_eq!(commands[0], ListenerCommand::SetCount { count: MAX_LISTENERS });
    assert_eq!(
        commands[1 + 2 * (MAX_LISTENERS - 1) + 1],
        ListenerCommand::SetWeight { index: MAX_LISTENERS - 1, weight_milli: 1000 },
    );
}
