use audio_bridge::session::{
    key_action, KeyAction, TickContext, DEMO_TICK_LIMIT, FIRE_PERIOD,
};

#[test]
fn key_map_matches_the_driver_menu() {
    assert_eq!(key_action('1'), KeyAction::FireAndForgetExplosion);
    assert_eq!(key_action('2'), KeyAction::StartAmbience);
    assert_eq!(key_action('3'), KeyAction::StopAmbience);
    assert_eq!(key_action('4'), KeyAction::StartCancel);
    assert_eq!(key_action('q'), KeyAction::Quit);
    assert_eq!(key_action('x'), KeyAction::Ignore);
    assert_eq!(key_action(' '), KeyAction::Ignore);
}

#[test]
fn first_tick_looks_up_events_and_fires() {
    let mut context = TickContext::new();
    let plan = context.advance();
    assert!(!plan.finished);
    assert!(plan.lookup_events);
    assert!(plan.fire_explosion);
    let second = context.advance();
    assert!(!second.finished);
    assert!(!second.lookup_events);
    assert!(!second.fire_explosion);
}

#[test]
fn demo_fires_once_per_period_and_then_finishes() {
    let mut context = TickContext::new();
    let mut fires: u64 = 0;
    let mut lookups: u64 = 0;
    let mut ticks: u64 = 0;
    loop {
        let plan = context.advance();
        if plan.finished {
            break;
        }
        ticks += 1;
        if plan.fire_explosion {
            fires += 1;
        }
        if plan.lookup_events {
            lookups += 1;
        }
    }
    assert_eq!(ticks, DEMO_TICK_LIMIT);
    assert_eq!(fires, DEMO_TICK_LIMIT / FIRE_PERIOD);
    assert_eq!(lookups, 1);
    // Once finished, the context stays finished.
    assert!(context.advance().finished);
}
