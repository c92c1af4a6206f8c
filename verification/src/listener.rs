//! Spatial listener management.
//!
//! The active listener set is replaced wholesale on each update: the caller
//! hands over the full list and the layer plans the exact command sequence the
//! engine must receive. A list longer than the engine-defined maximum is
//! truncated to the first `MAX_LISTENERS` entries, never rejected. The plan
//! first sets the listener count, then, for each surviving listener at its
//! index in order, its 3D attributes and its weight.

use vstd::prelude::*;

use crate::spatial::{
    build_3d_attrs, coord_in_range, spec_3d_attrs, Attributes3d, Vec2Milli,
};

verus! {

/// The engine-defined maximum number of concurrent spatial listeners.
pub const MAX_LISTENERS: usize = 8;

/// One spatial audio listener: a blend weight (fixed point, 1000 stands for
/// 1.0) and a 2D game-space position and velocity.
#[derive(Clone, Copy, Debug, PartialEq, Eq, Structural)]
pub struct AudioListener {
    pub weight_milli: i64,
    pub position: Vec2Milli,
    pub velocity: Vec2Milli,
}

/// One engine command of a listener-set replacement.
#[derive(Clone, Copy, Debug, PartialEq, Eq, Structural)]
pub enum ListenerCommand {
    /// Set the number of active listeners.
    SetCount { count: usize },
    /// Set the 3D attributes of the listener at `index`.
    SetAttributes { index: usize, attributes: Attributes3d },
    /// Set the blend weight of the listener at `index`.
    SetWeight { index: usize, weight_milli: i64 },
}

/// Whether a listener's coordinates are within the transform's exact range.
pub open spec fn listener_in_range(l: AudioListener) -> bool {
    coord_in_range(l.position) && coord_in_range(l.velocity)
}

/// How many listeners of a list of length `len` survive truncation.
pub open spec fn spec_surviving_count(len: nat) -> nat {
    if len <= MAX_LISTENERS as nat {
        len
    } else {
        MAX_LISTENERS as nat
    }
}

/// The exact command sequence that replaces the active listener set with the
/// surviving prefix of `listeners`: one `SetCount`, then, for each surviving
/// listener at its index in order, its `SetAttributes` and then its
/// `SetWeight`.
pub open spec fn spec_listener_plan(
    listeners: Seq<AudioListener>,
    commands: Seq<ListenerCommand>,
) -> bool {
    let n = spec_surviving_count(listeners.len());
    &&& commands.len() == 1 + 2 * n
    &&& commands[0] == (ListenerCommand::SetCount { count: n as usize })
    &&& forall|i: int|
        0 <= i < n ==> commands[1 + 2 * i] == (ListenerCommand::SetAttributes {
            index: i as usize,
            attributes: spec_3d_attrs(listeners[i].position, listeners[i].velocity),
        })
    &&& forall|i: int|
        0 <= i < n ==> commands[2 + 2 * i] == (ListenerCommand::SetWeight {
            index: i as usize,
            weight_milli: listeners[i].weight_milli,
        })
}

/// Plans the engine command sequence that replaces the active listener set.
///
/// The input is truncated (not rejected) to the engine maximum: only the
/// first `spec_surviving_count` listeners are used, and the plan always
/// succeeds. The sequence is one `SetCount` followed by, for each surviving
/// listener in index order, its `SetAttributes` (fed through the coordinate
/// transform) and then its `SetWeight`.
pub fn plan_listener_update(listeners: &Vec<AudioListener>) -> (commands: Vec<ListenerCommand>)
    requires
        forall|i: int|
            0 <= i < spec_surviving_count(listeners@.len()) ==> listener_in_range(
                #[trigger] listeners@[i],
            ),
    ensures
        spec_listener_plan(listeners@, commands@),
{
    let count = if listeners.len() <= MAX_LISTENERS {
        listeners.len()
    } else {
        MAX_LISTENERS
    };
    let mut commands: Vec<ListenerCommand> = Vec::new();
    commands.push(ListenerCommand::SetCount { count });
    let mut i: usize = 0;
    while i < count
        invariant
            count == spec_surviving_count(listeners@.len()),
            count <= listeners@.len(),
            i <= count,
            forall|k: int|
                0 <= k < count ==> listener_in_range(#[trigger] listeners@[k]),
            commands@.len() == 1 + 2 * i,
            commands@[0] == (ListenerCommand::SetCount { count: count }),
            forall|k: int|
                0 <= k < i ==> commands@[1 + 2 * k] == (ListenerCommand::SetAttributes {
                    index: k as usize,
                    attributes: spec_3d_attrs(listeners@[k].position, listeners@[k].velocity),
                }),
            forall|k: int|
                0 <= k < i ==> commands@[2 + 2 * k] == (ListenerCommand::SetWeight {
                    index: k as usize,
                    weight_milli: listeners@[k].weight_milli,
                }),
        decreases count - i,
    {
        let listener = listeners[i];
        let attributes = build_3d_attrs(listener.position, listener.velocity);
        commands.push(ListenerCommand::SetAttributes { index: i, attributes });
        commands.push(ListenerCommand::SetWeight { index: i, weight_milli: listener.weight_milli });
        i = i + 1;
    }
    commands
}

/// Truncation is harmless: a list longer than the engine maximum plans
/// exactly what its first `MAX_LISTENERS` entries plan, so the dropped tail
/// plays no part in any command and the plan never fails on an over-long
/// list.
pub proof fn lemma_truncation_uses_prefix(long: Seq<AudioListener>, commands: Seq<ListenerCommand>)
    requires
        long.len() > MAX_LISTENERS,
    ensures
        spec_listener_plan(long, commands) <==> spec_listener_plan(
            long.subrange(0, MAX_LISTENERS as int),
            commands,
        ),
{
    let prefix = long.subrange(0, MAX_LISTENERS as int);
    assert(spec_surviving_count(long.len()) == spec_surviving_count(prefix.len()));
    assert(forall|i: int| 0 <= i < MAX_LISTENERS ==> long[i] == prefix[i]);
}

} // verus!
