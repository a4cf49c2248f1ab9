//! Watchers of the actors of a world, and the frame profile.
use vstd::prelude::*;
use core::marker::PhantomData;

verus! {

/// Watches the game objects whose component is an actor of type `T`.
#[derive(Debug)]
pub struct ActorWatcher<T> {
    pub marker: PhantomData<T>,
}

impl<T> ActorWatcher<T> {
    /// A watcher of the actors of type `T`.
    pub fn new() -> (r: ActorWatcher<T>)
        ensures
            r.marker == PhantomData::<T>,
    {
        ActorWatcher { marker: PhantomData }
    }
}

/// Ends the profile of a frame. Profiling is not built in, so nothing was
/// recorded and there is nothing to clear.
pub fn clear() {
}

/// Where a watcher's frame step stands.
#[derive(Debug, Clone, Copy, PartialEq, Eq, Structural)]
pub enum WatchPhase {
    /// New actors are being started, batch after batch.
    Starting,
    /// Every new actor has been started; the watcher waits to learn which
    /// actors are still alive.
    Checking,
    /// The live actors are being stepped, in order.
    Stepping,
    /// The frame step is over.
    Finished,
}

/// What a watcher asks its caller to do next in a frame step.
#[derive(Debug, Clone, Copy, PartialEq, Eq, Structural)]
pub enum WatchAction {
    /// Start the actor (its start may register new actors).
    Start(u64),
    /// Report, for each watched actor, whether it is still alive.
    CheckAlive,
    /// Step the actor.
    Step(u64),
    /// Nothing more this frame.
    Done,
}

/// The actors among `actors` whose flag is set, in order.
pub open spec fn alive_actors(actors: Seq<u64>, flags: Seq<bool>) -> Seq<u64>
    decreases actors.len(),
{
    if actors.len() == 0 || flags.len() != actors.len() {
        Seq::empty()
    } else {
        alive_actors(actors.drop_last(), flags.drop_last()) + if flags.last() {
            seq![actors.last()]
        } else {
            Seq::empty()
        }
    }
}

/// One frame step of a watcher over its actors (by their handles): the
/// actors registered since the last step are started, batch by batch (a
/// start may register more), each batch joining the watched actors once it
/// is started; then the watched actors that are still alive are stepped, in
/// the order in which they joined.
#[derive(Debug)]
pub struct WatchStep {
    pub new_actors: Vec<u64>,
    pub actors: Vec<u64>,
    pub starting: Vec<u64>,
    pub next_start: usize,
    pub stepping: Vec<u64>,
    pub next_step: usize,
    pub phase: WatchPhase,
}

impl WatchStep {
    /// Counters within their lists; outside the starting phase no batch is
    /// being started, and before the stepping phase nothing is stepped.
    pub open spec fn wf(&self) -> bool {
        &&& self.next_start <= self.starting@.len()
        &&& self.next_step <= self.stepping@.len()
        &&& self.phase != WatchPhase::Starting ==> self.starting@.len() == 0
        &&& (self.phase == WatchPhase::Starting || self.phase == WatchPhase::Checking) ==> self.stepping@.len() == 0
    }

    /// The frame step of a watcher with the registered actors `new_actors`
    /// and the watched actors `actors`.
    pub fn new(new_actors: Vec<u64>, actors: Vec<u64>) -> (r: WatchStep)
        ensures
            r.wf(),
            r.new_actors@ == new_actors@,
            r.actors@ == actors@,
            r.starting@.len() == 0,
            r.stepping@.len() == 0,
            r.phase == WatchPhase::Starting,
    {
        WatchStep { new_actors, actors, starting: Vec::new(), next_start: 0, stepping: Vec::new(), next_step: 0, phase: WatchPhase::Starting }
    }

    /// Registers a new actor, to be started in the current batch round or, once
    /// the actors are being stepped, in the next frame step.
    pub fn register(&mut self, a: u64)
        requires
            old(self).wf(),
        ensures
            final(self).wf(),
            final(self).new_actors@ == old(self).new_actors@.push(a),
            final(self).actors@ == old(self).actors@,
            final(self).starting@ == old(self).starting@,
            final(self).next_start == old(self).next_start,
            final(self).stepping@ == old(self).stepping@,
            final(self).next_step == old(self).next_step,
            final(self).phase == old(self).phase,
    {
        self.new_actors.push(a);
    }

    /// What to do next. While starting: the next actor of the batch; once the
    /// batch is started it joins the watched actors, and the registered actors
    /// become the next batch; when none are left, the caller is asked which
    /// actors are alive. While stepping: the next live actor, then `Done`.
    pub fn next_action(&mut self) -> (r: WatchAction)
        requires
            old(self).wf(),
        ensures
            final(self).wf(),
            match old(self).phase {
                WatchPhase::Starting => if old(self).next_start < old(self).starting@.len() {
                    r == WatchAction::Start(old(self).starting@[old(self).next_start as int])
                        && final(self).next_start == old(self).next_start + 1
                        && final(self).starting@ == old(self).starting@
                        && final(self).new_actors@ == old(self).new_actors@
                        && final(self).actors@ == old(self).actors@
                        && final(self).phase == WatchPhase::Starting
                } else if old(self).new_actors@.len() > 0 {
                    r == WatchAction::Start(old(self).new_actors@[0])
                        && final(self).actors@ == old(self).actors@ + old(self).starting@
                        && final(self).starting@ == old(self).new_actors@
                        && final(self).next_start == 1
                        && final(self).new_actors@.len() == 0
                        && final(self).phase == WatchPhase::Starting
                } else {
                    r == WatchAction::CheckAlive
                        && final(self).actors@ == old(self).actors@ + old(self).starting@
                        && final(self).starting@.len() == 0
                        && final(self).new_actors@.len() == 0
                        && final(self).phase == WatchPhase::Checking
                },
                WatchPhase::Checking => r == WatchAction::CheckAlive && *final(self) == *old(self),
                WatchPhase::Stepping => if old(self).next_step < old(self).stepping@.len() {
                    r == WatchAction::Step(old(self).stepping@[old(self).next_step as int])
                        && final(self).next_step == old(self).next_step + 1
                        && final(self).stepping@ == old(self).stepping@
                        && final(self).new_actors@ == old(self).new_actors@
                        && final(self).actors@ == old(self).actors@
                        && final(self).phase == WatchPhase::Stepping
                } else {
                    r == WatchAction::Done
                        && final(self).new_actors@ == old(self).new_actors@
                        && final(self).actors@ == old(self).actors@
                        && final(self).phase == WatchPhase::Finished
                },
                WatchPhase::Finished => r == WatchAction::Done && *final(self) == *old(self),
            },
    {
        match self.phase {
            WatchPhase::Starting => {
                if self.next_start < self.starting.len() {
                    let a = self.starting[self.next_start];
                    self.next_start = self.next_start + 1;
                    return WatchAction::Start(a);
                }
                let mut batch: Vec<u64> = Vec::new();
                std::mem::swap(&mut batch, &mut self.starting);
                self.actors.append(&mut batch);
                self.next_start = 0;
                if self.new_actors.len() > 0 {
                    std::mem::swap(&mut self.starting, &mut self.new_actors);
                    let a = self.starting[0];
                    self.next_start = 1;
                    WatchAction::Start(a)
                } else {
                    self.phase = WatchPhase::Checking;
                    WatchAction::CheckAlive
                }
            },
            WatchPhase::Checking => WatchAction::CheckAlive,
            WatchPhase::Stepping => {
                if self.next_step < self.stepping.len() {
                    let a = self.stepping[self.next_step];
                    self.next_step = self.next_step + 1;
                    WatchAction::Step(a)
                } else {
                    self.stepping = Vec::new();
                    self.next_step = 0;
                    self.phase = WatchPhase::Finished;
                    WatchAction::Done
                }
            },
            WatchPhase::Finished => WatchAction::Done,
        }
    }

    /// Takes, for each watched actor in order, whether it is still alive:
    /// the live ones are the ones to step, in that order.
    pub fn set_alive(&mut self, alive: &Vec<bool>)
        requires
            old(self).wf(),
            old(self).phase == WatchPhase::Checking,
            alive@.len() == old(self).actors@.len(),
        ensures
            final(self).wf(),
            final(self).stepping@ == alive_actors(old(self).actors@, alive@),
            final(self).next_step == 0,
            final(self).phase == WatchPhase::Stepping,
            final(self).new_actors@ == old(self).new_actors@,
            final(self).actors@ == old(self).actors@,
            final(self).starting@ == old(self).starting@,
    {
        let mut live: Vec<u64> = Vec::new();
        let mut i: usize = 0;
        while i < self.actors.len()
            invariant
                i <= self.actors.len(),
                alive@.len() == self.actors@.len(),
                live@ == alive_actors(self.actors@.subrange(0, i as int), alive@.subrange(0, i as int)),
            decreases self.actors.len() - i,
        {
            proof {
                let a2 = self.actors@.subrange(0, i + 1);
                let f2 = alive@.subrange(0, i + 1);
                assert(a2.drop_last() =~= self.actors@.subrange(0, i as int));
                assert(f2.drop_last() =~= alive@.subrange(0, i as int));
            }
            if alive[i] {
                live.push(self.actors[i]);
            }
            i = i + 1;
        }
        assert(self.actors@.subrange(0, self.actors@.len() as int) =~= self.actors@);
        assert(alive@.subrange(0, alive@.len() as int) =~= alive@);
        self.stepping = live;
        self.next_step = 0;
        self.phase = WatchPhase::Stepping;
    }
}

} // verus!
