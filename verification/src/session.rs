//! The reference driver's decisions, as verified functions.
//!
//! The interactive driver maps key presses to audio actions; the timed demo
//! driver fires a sound at a fixed cadence and ends after a fixed number of
//! ticks. The shell owns the keyboard, the clock and the engine; everything
//! it decides per tick comes from here, and the hosted driver's loop state
//! (frame counter, whether the event handles are cached) is one explicit
//! context value instead of ambient globals.

use vstd::prelude::*;

verus! {

/// One tick in every this many fires the demo explosion.
pub const FIRE_PERIOD: u64 = 100;

/// How many ticks the timed demo runs before it finishes.
pub const DEMO_TICK_LIMIT: u64 = 300;

/// What one key press asks of the session.
#[derive(Clone, Copy, Debug, PartialEq, Eq, Structural)]
pub enum KeyAction {
    /// Create an explosion instance, start it and release it at once.
    FireAndForgetExplosion,
    /// Start (or restart) the looping ambience instance.
    StartAmbience,
    /// Request a stop of the looping ambience instance.
    StopAmbience,
    /// Start (or restart) the cancel-sound instance.
    StartCancel,
    /// Leave the driver loop and shut the session down.
    Quit,
    /// Any other key: do nothing.
    Ignore,
}

/// The key map of the interactive driver.
pub open spec fn spec_key_action(key: char) -> KeyAction {
    if key == '1' {
        KeyAction::FireAndForgetExplosion
    } else if key == '2' {
        KeyAction::StartAmbience
    } else if key == '3' {
        KeyAction::StopAmbience
    } else if key == '4' {
        KeyAction::StartCancel
    } else if key == 'q' {
        KeyAction::Quit
    } else {
        KeyAction::Ignore
    }
}

/// Maps one key press to the action the driver performs.
pub fn key_action(key: char) -> (action: KeyAction)
    ensures
        action == spec_key_action(key),
{
    if key == '1' {
        KeyAction::FireAndForgetExplosion
    } else if key == '2' {
        KeyAction::StartAmbience
    } else if key == '3' {
        KeyAction::StopAmbience
    } else if key == '4' {
        KeyAction::StartCancel
    } else if key == 'q' {
        KeyAction::Quit
    } else {
        KeyAction::Ignore
    }
}

/// What the timed demo driver does on one tick.
#[derive(Clone, Copy, Debug, PartialEq, Eq, Structural)]
pub struct TickPlan {
    /// The run is over: schedule no further tick and shut down.
    pub finished: bool,
    /// Resolve and cache the event descriptions this tick.
    pub lookup_events: bool,
    /// Fire one explosion: create an instance, start it, release it.
    pub fire_explosion: bool,
}

/// The timed demo driver's loop state: the frame counter and whether the
/// event handles are cached, threaded through each tick.
pub struct TickContext {
    frame: u64,
    events_cached: bool,
}

impl TickContext {
    /// How many ticks have been planned.
    pub closed spec fn spec_frame(&self) -> u64 {
        self.frame
    }

    /// Whether an event lookup has been planned already.
    pub closed spec fn spec_events_cached(&self) -> bool {
        self.events_cached
    }

    /// A fresh context: no tick planned, nothing cached.
    pub fn new() -> (context: TickContext)
        ensures
            context.spec_frame() == 0,
            !context.spec_events_cached(),
    {
        TickContext { frame: 0, events_cached: false }
    }

    /// Plans one tick. The run finishes once `DEMO_TICK_LIMIT` ticks have
    /// been planned; until then, the first tick looks the events up and every
    /// `FIRE_PERIOD`-th tick (the first included) fires the explosion.
    pub fn advance(&mut self) -> (plan: TickPlan)
        ensures
            plan.finished == (old(self).spec_frame() >= DEMO_TICK_LIMIT),
            plan.finished ==> *final(self) == *old(self) && !plan.lookup_events
                && !plan.fire_explosion,
            !plan.finished ==> {
                &&& final(self).spec_frame() == old(self).spec_frame() + 1
                &&& final(self).spec_events_cached()
                &&& plan.lookup_events == !old(self).spec_events_cached()
                &&& plan.fire_explosion == (old(self).spec_frame() % FIRE_PERIOD == 0)
            },
    {
        if self.frame >= DEMO_TICK_LIMIT {
            TickPlan { finished: true, lookup_events: false, fire_explosion: false }
        } else {
            let lookup_events = !self.events_cached;
            let fire_explosion = self.frame % FIRE_PERIOD == 0;
            self.frame = self.frame + 1;
            self.events_cached = true;
            TickPlan { finished: false, lookup_events, fire_explosion }
        }
    }
}

} // verus!
