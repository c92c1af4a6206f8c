//! Event descriptions and event instances.
//!
//! An event description is an immutable capability identifying a named
//! playable sound event; it is obtained from the backend (enumerated or looked
//! up by path) and may spawn any number of instances. An event instance is a
//! mutable handle to one playable occurrence. Its playback state is a
//! read-only projection of engine-internal state: the engine drives the
//! transitions during update, this layer only records and reports what the
//! engine last reported.
//!
//! `release` consumes the instance by value: the ownership transfer makes any
//! later start, stop or query of a released instance a compile-time error, so
//! no tombstone flag is needed.
//!
//! Instance operations return the engine command they stand for; the
//! application shell executes each command against its engine twin of the
//! handle.

use vstd::prelude::*;

use crate::spatial::{build_3d_attrs, coord_in_range, spec_3d_attrs, Attributes3d, Vec2Milli};

verus! {

/// The engine's five playback states of an event instance.
#[derive(Clone, Copy, Debug, PartialEq, Eq, Structural)]
pub enum AudioPlaybackState {
    Playing,
    Sustaining,
    Stopped,
    Starting,
    Stopping,
}

/// How a stop request treats a sound that is still audible.
#[derive(Clone, Copy, Debug, PartialEq, Eq, Structural)]
pub enum StopMode {
    /// Cut the sound off at once.
    Immediate,
    /// Let the engine apply its authored fade-out.
    AllowFadeout,
}

/// One engine command on an event instance.
#[derive(Clone, Copy, Debug, PartialEq, Eq, Structural)]
pub enum InstanceCommand {
    /// Begin playback, or restart it from the beginning if already playing.
    Start,
    /// Request a stop with the given mode.
    Stop { mode: StopMode },
    /// Hand the instance's 3D attributes to the engine.
    SetAttributes { attributes: Attributes3d },
    /// Schedule the instance for cleanup; if it is still playing, cleanup
    /// happens once playback completes naturally.
    Release,
}

/// An immutable capability identifying one named playable sound event.
pub struct EventDescription {
    path: String,
    index: usize,
}

/// A mutable handle to one playable occurrence of an event.
pub struct EventInstance {
    description_path: String,
    state: AudioPlaybackState,
    attributes: Option<Attributes3d>,
}

/// The capability contract of an event description: it knows its canonical
/// path and can spawn any number of fresh instances.
pub trait AudioEventDescription: Sized {
    /// The canonical path this description is looked up under.
    spec fn spec_path(&self) -> Seq<char>;

    /// Returns the canonical path.
    fn get_path(&self) -> (path: String)
        ensures
            path@ == self.spec_path(),
    ;

    /// Allocates a new playable instance of this event. The fresh instance
    /// reports the stopped state and carries no 3D attributes until given
    /// some.
    fn create_instance(&self) -> (instance: EventInstance)
        ensures
            instance.spec_description_path() == self.spec_path(),
            instance.spec_state() == AudioPlaybackState::Stopped,
            instance.spec_attributes() is None,
    ;
}

/// The capability contract of an event instance. `release` takes the instance
/// by value: after it, no further operation on the handle can even be
/// written.
pub trait AudioEventInstance: Sized {
    /// The path of the description this instance was created from.
    spec fn spec_description_path(&self) -> Seq<char>;

    /// The playback state the engine last reported for this instance.
    spec fn spec_state(&self) -> AudioPlaybackState;

    /// The 3D attributes last fed to the engine, if any.
    spec fn spec_attributes(&self) -> Option<Attributes3d>;

    /// Consumes the instance: an ownership transfer, not a mutation. The
    /// handle is gone afterwards; the engine cleans the occurrence up once
    /// playback completes.
    fn release(self) -> (command: InstanceCommand)
        ensures
            command == InstanceCommand::Release,
    ;

    /// Begins playback, or restarts it from the beginning when the instance
    /// is already playing.
    fn start(&self) -> (command: InstanceCommand)
        ensures
            command == InstanceCommand::Start,
    ;

    /// Requests a stop, letting the engine apply its authored fade-out.
    fn stop(&self) -> (command: InstanceCommand)
        ensures
            command == (InstanceCommand::Stop { mode: StopMode::AllowFadeout }),
    ;

    /// Feeds a 2D position/velocity pair through the coordinate transform and
    /// records the resulting 3D attributes on the instance.
    fn set_3d_attributes(&mut self, position: Vec2Milli, velocity: Vec2Milli) -> (command:
        InstanceCommand)
        requires
            coord_in_range(position),
            coord_in_range(velocity),
        ensures
            command == (InstanceCommand::SetAttributes {
                attributes: spec_3d_attrs(position, velocity),
            }),
            final(self).spec_attributes() == Some(spec_3d_attrs(position, velocity)),
            final(self).spec_description_path() == old(self).spec_description_path(),
            final(self).spec_state() == old(self).spec_state(),
    ;

    /// Reports the playback state the engine last reported.
    fn get_playback_state(&self) -> (state: AudioPlaybackState)
        ensures
            state == self.spec_state(),
    ;
}

impl EventDescription {
    /// The position of this event in the backend's enumeration order.
    pub closed spec fn spec_index(&self) -> int {
        self.index as int
    }

    /// Builds the capability; only the backend, which knows the enumeration,
    /// does this.
    pub(crate) fn new(path: String, index: usize) -> (description: EventDescription)
        ensures
            description.spec_path() == path@,
            description.spec_index() == index as int,
    {
        EventDescription { path, index }
    }

    /// The position of this event in the backend's enumeration order.
    pub fn index(&self) -> (index: usize)
        ensures
            index as int == self.spec_index(),
    {
        self.index
    }
}

impl AudioEventDescription for EventDescription {
    closed spec fn spec_path(&self) -> Seq<char> {
        self.path@
    }

    fn get_path(&self) -> (path: String) {
        self.path.clone()
    }

    fn create_instance(&self) -> (instance: EventInstance) {
        EventInstance {
            description_path: self.path.clone(),
            state: AudioPlaybackState::Stopped,
            attributes: None,
        }
    }
}

impl EventInstance {
    /// Records the playback state the engine reported for this instance after
    /// an update tick. The layer never invents a transition itself.
    pub fn record_playback_state(&mut self, state: AudioPlaybackState)
        ensures
            final(self).spec_state() == state,
            final(self).spec_description_path() == old(self).spec_description_path(),
            final(self).spec_attributes() == old(self).spec_attributes(),
    {
        self.state = state;
    }

    /// Requests a stop with a caller-chosen mode.
    pub fn stop_with_mode(&self, mode: StopMode) -> (command: InstanceCommand)
        ensures
            command == (InstanceCommand::Stop { mode }),
    {
        InstanceCommand::Stop { mode }
    }
}

impl AudioEventInstance for EventInstance {
    closed spec fn spec_description_path(&self) -> Seq<char> {
        self.description_path@
    }

    closed spec fn spec_state(&self) -> AudioPlaybackState {
        self.state
    }

    closed spec fn spec_attributes(&self) -> Option<Attributes3d> {
        self.attributes
    }

    fn release(self) -> (command: InstanceCommand) {
        InstanceCommand::Release
    }

    fn start(&self) -> (command: InstanceCommand) {
        InstanceCommand::Start
    }

    fn stop(&self) -> (command: InstanceCommand) {
        InstanceCommand::Stop { mode: StopMode::AllowFadeout }
    }

    fn set_3d_attributes(&mut self, position: Vec2Milli, velocity: Vec2Milli) -> (command:
        InstanceCommand) {
        let attributes = build_3d_attrs(position, velocity);
        self.attributes = Some(attributes);
        InstanceCommand::SetAttributes { attributes }
    }

    fn get_playback_state(&self) -> (state: AudioPlaybackState) {
        self.state
    }
}

} // verus!
