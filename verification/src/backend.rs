//! The live session handle.
//!
//! Exactly one backend exists per session. It is produced by a loader once the
//! engine has finished initializing, and it models the loaded session: the
//! full event enumeration in bank-load order then intra-bank order. Every
//! event description handed out is derived from that enumeration, so a path no
//! loaded bank defines can never yield a usable description.
//!
//! The backend is consumed by `shutdown`: an ownership transfer, after which
//! no operation on it or on anything derived from it can even be written.

use vstd::prelude::*;

use crate::errors::AudioError;
use crate::events::{AudioEventDescription, EventDescription};
use crate::listener::{
    listener_in_range, plan_listener_update, spec_listener_plan, spec_surviving_count,
    AudioListener, ListenerCommand,
};

verus! {

/// A global (non-instance-scoped) continuous parameter change, ready to hand
/// to the engine. The value is fixed point: 1000 stands for 1.0.
#[derive(Debug, PartialEq, Eq)]
pub struct ParameterCommand {
    pub name: String,
    pub value_milli: i64,
}

/// The live session: the engine handle's verified model.
pub struct AudioBackend {
    event_paths: Vec<String>,
    ticks: u64,
}

impl AudioBackend {
    /// The canonical paths of every event across every loaded bank, in
    /// bank-load order then intra-bank order.
    pub closed spec fn events(&self) -> Seq<Seq<char>> {
        self.event_paths.deep_view()
    }

    /// How many update ticks have been driven on this session.
    pub closed spec fn spec_ticks(&self) -> u64 {
        self.ticks
    }

    /// Wraps the engine's enumeration as the session model. The caller hands
    /// over one path list per loaded bank, in bank-load order; the session's
    /// enumeration is their concatenation, so bank order and intra-bank order
    /// are both kept.
    pub fn from_bank_lists(bank_event_paths: Vec<Vec<String>>) -> (backend: AudioBackend)
        ensures
            backend.events() == bank_event_paths.deep_view().flatten(),
            backend.spec_ticks() == 0,
    {
        let ghost all: Seq<Seq<Seq<char>>> = bank_event_paths.deep_view();
        let mut event_paths: Vec<String> = Vec::new();
        let mut i: usize = 0;
        while i < bank_event_paths.len()
            invariant
                all == bank_event_paths.deep_view(),
                i <= bank_event_paths@.len(),
                event_paths.deep_view() == all.take(i as int).flatten(),
            decreases bank_event_paths@.len() - i,
        {
            let bank = &bank_event_paths[i];
            let ghost before: Seq<Seq<char>> = event_paths.deep_view();
            let mut j: usize = 0;
            while j < bank.len()
                invariant
                    all == bank_event_paths.deep_view(),
                    i < bank_event_paths@.len(),
                    bank == bank_event_paths@[i as int],
                    j <= bank@.len(),
                    before == all.take(i as int).flatten(),
                    event_paths.deep_view() == before + all[i as int].take(j as int),
                decreases bank@.len() - j,
            {
                let ghost pre = event_paths@;
                let ghost pre_dv = event_paths.deep_view();
                let cloned = bank[j].clone();
                let ghost cv = cloned@;
                event_paths.push(cloned);
                proof {
                    let dv = event_paths.deep_view();
                    let rhs = before + all[i as int].take(j as int + 1);
                    assert(event_paths@ == pre.push(cloned));
                    assert(all[i as int] == bank.deep_view());
                    assert(all[i as int].len() == bank@.len());
                    assert(all[i as int][j as int] == bank@[j as int]@);
                    assert(cv == bank@[j as int]@);
                    assert(pre_dv.len() == pre.len());
                    assert(pre.len() == before.len() + j);
                    assert(dv.len() == pre.len() + 1);
                    assert(rhs.len() == before.len() + j + 1);
                    assert forall|k: int| 0 <= k < dv.len() implies dv[k] == rhs[k] by {
                        if k < pre.len() {
                            assert(event_paths@[k] == pre[k]);
                            assert(dv[k] == event_paths@[k].deep_view());
                            assert(pre_dv[k] == pre[k].deep_view());
                            assert(pre_dv[k] == (before + all[i as int].take(j as int))[k]);
                        } else {
                            assert(event_paths@[k] == cloned);
                            assert(dv[k] == cv);
                        }
                    }
                    assert(dv =~= rhs);
                }
                j = j + 1;
            }
            proof {
                assert(all[i as int].take(bank@.len() as int) =~= all[i as int]);
                all.take(i as int).lemma_flatten_push(all[i as int]);
                assert(all.take(i as int).push(all[i as int]) =~= all.take(i as int + 1));
                assert(event_paths.deep_view() =~= all.take(i as int + 1).flatten());
            }
            i = i + 1;
        }
        proof {
            assert(all.take(bank_event_paths@.len() as int) =~= all);
        }
        AudioBackend { event_paths, ticks: 0 }
    }

    /// Resolves a path to an event description: the description of the first
    /// enumerated event with that path, or a not-found error naming the path
    /// if, and only if, no loaded bank defines it. Never panics and never
    /// yields a description for an unknown path.
    pub fn get_event(&self, path: &str) -> (result: Result<EventDescription, AudioError>)
        ensures
            result is Ok <==> self.events().contains(path@),
            result matches Ok(description) ==> {
                &&& description.spec_path() == path@
                &&& 0 <= description.spec_index() < self.events().len()
                &&& self.events()[description.spec_index()] == path@
                &&& forall|j: int|
                    0 <= j < description.spec_index() ==> self.events()[j] != path@
            },
            result matches Err(error) ==> error matches AudioError::EventNotFound {
                path: missing,
            } && missing@ == path@,
    {
        let needle: String = path.to_owned();
        let mut i: usize = 0;
        while i < self.event_paths.len()
            invariant
                needle@ == path@,
                i <= self.event_paths@.len(),
                self.events() == self.event_paths.deep_view(),
                forall|j: int| 0 <= j < i ==> self.events()[j] != path@,
            decreases self.event_paths@.len() - i,
        {
            if self.event_paths[i] == needle {
                let description = EventDescription::new(self.event_paths[i].clone(), i);
                proof {
                    assert(self.events()[i as int] == path@);
                    assert(self.events().contains(path@));
                }
                return Ok(description);
            }
            i = i + 1;
        }
        assert(!self.events().contains(path@)) by {
            assert(forall|j: int| 0 <= j < self.events().len() ==> self.events()[j] != path@);
        }
        Err(AudioError::EventNotFound { path: needle })
    }

    /// Enumerates every event across every loaded bank, in the session's
    /// enumeration order: one description per event, each carrying its path
    /// and its position.
    pub fn get_event_list(&self) -> (descriptions: Vec<EventDescription>)
        ensures
            descriptions@.len() == self.events().len(),
            forall|i: int|
                0 <= i < self.events().len() ==> (#[trigger] descriptions@[i]).spec_path()
                    == self.events()[i] && descriptions@[i].spec_index() == i,
    {
        let mut descriptions: Vec<EventDescription> = Vec::new();
        let mut i: usize = 0;
        while i < self.event_paths.len()
            invariant
                i <= self.event_paths@.len(),
                self.events() == self.event_paths.deep_view(),
                descriptions@.len() == i,
                forall|j: int|
                    0 <= j < i ==> (#[trigger] descriptions@[j]).spec_path() == self.events()[j]
                        && descriptions@[j].spec_index() == j,
            decreases self.event_paths@.len() - i,
        {
            descriptions.push(EventDescription::new(self.event_paths[i].clone(), i));
            i = i + 1;
        }
        descriptions
    }

    /// Replaces the active listener set: plans the exact engine command
    /// sequence, truncating the input to the engine maximum instead of
    /// rejecting it.
    pub fn set_listeners(&self, listeners: &Vec<AudioListener>) -> (commands: Vec<ListenerCommand>)
        requires
            forall|i: int|
                0 <= i < spec_surviving_count(listeners@.len()) ==> listener_in_range(
                    #[trigger] listeners@[i],
                ),
        ensures
            spec_listener_plan(listeners@, commands@),
    {
        plan_listener_update(listeners)
    }

    /// Prepares a global parameter change for the engine. Whether the name is
    /// known is the engine's call: an unknown name comes back from the engine
    /// as a failed call, which the shell reports, never retries.
    pub fn set_parameter_by_name(&self, name: &str, value_milli: i64) -> (command:
        ParameterCommand)
        ensures
            command.name@ == name@,
            command.value_milli == value_milli,
    {
        ParameterCommand { name: name.to_owned(), value_milli }
    }

    /// How many update ticks have been driven on this session.
    pub fn ticks(&self) -> (ticks: u64)
        ensures
            ticks == self.spec_ticks(),
    {
        self.ticks
    }

    /// Drives one tick of the engine's internal scheduler. The shell performs
    /// the engine call at a regular cadence; the session counts the ticks.
    pub fn update(&mut self)
        requires
            old(self).spec_ticks() < u64::MAX,
        ensures
            final(self).spec_ticks() == old(self).spec_ticks() + 1,
            final(self).events() == old(self).events(),
    {
        self.ticks = self.ticks + 1;
    }

    /// Consumes the backend: an ownership transfer, terminal. The shell
    /// releases the engine system; no operation on this session can be
    /// written afterwards.
    pub fn shutdown(self) {
    }
}

} // verus!
