//! The simulation loop as a state machine.
//!
//! A tick is five stages in a fixed order: rebuild the spatial index,
//! integrate, apply the boundary, resolve collisions, publish. The work of a
//! stage that needs arithmetic, an index or a lock is the caller's; the
//! simulation is told of each piece of it by an [`Event`], checks that it
//! comes in its turn and fits the store, applies it, and answers with the
//! [`Action`] that is due next.

use vstd::prelude::*;
use crate::maths::Vec2;
use crate::node::Node;
use crate::physics::VerletPhysicsProperties;
use crate::scalar::Scalar;
use crate::store::all_spanned;
use crate::store::constrain_all;
use crate::store::constrained_all;
use crate::store::integrate_all;
use crate::store::integrated_all;
use crate::store::repel_all;
use crate::store::repelled_all;
use crate::store::spanned;
use crate::store::translate_all;
use crate::store::translated_all;

verus! {

/// The part of a tick that the simulation is waiting to hear of.
#[derive(Clone, Copy, Debug, PartialEq, Eq, Structural)]
pub enum Stage {
    Rebuild,
    Integrate,
    Constrain,
    Resolve,
    Publish,
}

/// What becomes of a particle at the edge of the domain. One simulation keeps
/// to one of the two.
#[derive(Clone, Copy, Debug, PartialEq, Eq, Structural)]
pub enum Boundary {
    /// The centre is held inside the domain drawn in by the radius.
    Clamp,
    /// The particle leaves on one side and enters on the other.
    Wrap,
}

/// What the caller is to do next.
#[derive(Clone, Copy, Debug, PartialEq, Eq, Structural)]
pub enum Action {
    /// Build the spatial index afresh from the positions of the store.
    Rebuild,
    /// Propose a next position for every particle.
    Integrate,
    /// Work out, for every particle, the rectangle that holds its centre.
    Clamp,
    /// Work out, for every particle, where the wrapping boundary puts it.
    Wrap,
    /// Go through the store in its order and report the pairs that the index
    /// yields for each particle, then report the end of them.
    Resolve,
    /// Hand a snapshot to the presentation layer.
    Publish,
    /// Nothing: the simulation has been stopped.
    Halt,
}

/// A piece of work done outside, reported to the simulation.
pub enum Event {
    /// The spatial index has been rebuilt.
    Rebuilt,
    /// The proposed next position of every particle, in the store's order.
    Integrated(Vec<Vec2>),
    /// For every particle, in the store's order, the two corners of the
    /// rectangle in which its centre may lie.
    Clamped(Vec<(Vec2, Vec2)>),
    /// For every particle, in the store's order, the position and the
    /// previous position that the wrapping boundary gives it.
    Wrapped(Vec<(Vec2, Vec2)>),
    /// One pair that the index yielded for particle `first`: the distance of
    /// the centres, the sum of the radii, and where the two particles would
    /// just touch. Pairs are reported in the store's order of their first
    /// particle.
    Pair { first: usize, second: usize, dist: Scalar, reach: Scalar, first_to: Vec2, second_to: Vec2 },
    /// The index has no more pairs for this tick.
    Resolved,
    /// The snapshot has been handed over.
    Published,
    /// The owner asks the simulation to end.
    Stop,
}

/// Why an event was turned away. The simulation is then as it was.
#[derive(Clone, Copy, Debug, PartialEq, Eq, Structural)]
pub enum Rejected {
    /// The simulation has been stopped.
    Terminated,
    /// The event belongs to another stage or to the other boundary, or it is
    /// a pair whose first particle stands before that of an earlier pair.
    OutOfTurn,
    /// The event does not hold one entry for every particle.
    Misaligned,
    /// Some rectangle of the event has a first corner beyond its second.
    Inverted,
}

/// Counts ticks, or frames, between two reports of their rate.
#[derive(Clone, Copy, Debug)]
pub struct RateCounter {
    pub count: u32,
}

impl RateCounter {
    pub fn new() -> (c: RateCounter)
        ensures
            c.count == 0,
    {
        RateCounter { count: 0 }
    }

    /// Counts one tick. `window_over` says that the time between two reports
    /// has passed: the count so far is then returned for the report, and
    /// counting starts again with this tick. The count stops at the largest
    /// number it can hold.
    pub fn tick(&mut self, window_over: bool) -> (report: Option<u32>)
        ensures
            report == if window_over {
                Some(old(self).count)
            } else {
                None
            },
            window_over ==> final(self).count == 1,
            !window_over && old(self).count < u32::MAX ==> final(self).count == old(self).count + 1,
            !window_over && old(self).count == u32::MAX ==> final(self).count == u32::MAX,
    {
        let mut report: Option<u32> = None;
        if window_over {
            report = Some(self.count);
            self.count = 0;
        }
        if self.count < u32::MAX {
            self.count = self.count + 1;
        }
        report
    }
}

pub struct Simulation {
    pub nodes: Vec<Node>,
    pub props: VerletPhysicsProperties,
    pub boundary: Boundary,
    pub stage: Stage,
    pub running: bool,
    /// While collisions are resolved: the first particle of the last pair
    /// taken in this tick that named one of the store, zero before any.
    pub cursor: usize,
    /// Ticks since the rate was last reported.
    pub sim_steps: RateCounter,
}

impl Simulation {
    /// Between two ticks: the only time at which particles may be added,
    /// removed, anchored or pushed from outside.
    pub open spec fn idle(&self) -> bool {
        self.stage == Stage::Rebuild
    }

    /// What the caller is to do next.
    pub open spec fn awaited(&self) -> Action {
        if !self.running {
            Action::Halt
        } else {
            match self.stage {
                Stage::Rebuild => Action::Rebuild,
                Stage::Integrate => Action::Integrate,
                Stage::Constrain => match self.boundary {
                    Boundary::Clamp => Action::Clamp,
                    Boundary::Wrap => Action::Wrap,
                },
                Stage::Resolve => Action::Resolve,
                Stage::Publish => Action::Publish,
            }
        }
    }

    /// The stage that follows the boundary: collisions are resolved only
    /// where they are switched on.
    pub open spec fn past_boundary(&self) -> Stage {
        if self.props.collisions_on {
            Stage::Resolve
        } else {
            Stage::Publish
        }
    }

    /// Why `event` is turned away, or `None` if it is taken.
    pub open spec fn verdict(&self, event: Event) -> Option<Rejected> {
        if !self.running {
            Some(Rejected::Terminated)
        } else {
            match event {
                Event::Stop => None,
                Event::Rebuilt => if self.stage == Stage::Rebuild {
                    None
                } else {
                    Some(Rejected::OutOfTurn)
                },
                Event::Integrated(nexts) => if self.stage != Stage::Integrate {
                    Some(Rejected::OutOfTurn)
                } else if nexts@.len() != self.nodes@.len() {
                    Some(Rejected::Misaligned)
                } else {
                    None
                },
                Event::Clamped(bounds) => if self.stage != Stage::Constrain || self.boundary
                    != Boundary::Clamp {
                    Some(Rejected::OutOfTurn)
                } else if bounds@.len() != self.nodes@.len() {
                    Some(Rejected::Misaligned)
                } else if !all_spanned(bounds@) {
                    Some(Rejected::Inverted)
                } else {
                    None
                },
                Event::Wrapped(places) => if self.stage != Stage::Constrain || self.boundary
                    != Boundary::Wrap {
                    Some(Rejected::OutOfTurn)
                } else if places@.len() != self.nodes@.len() {
                    Some(Rejected::Misaligned)
                } else {
                    None
                },
                Event::Pair { first, .. } => if self.stage == Stage::Resolve && first
                    >= self.cursor {
                    None
                } else {
                    Some(Rejected::OutOfTurn)
                },
                Event::Resolved => if self.stage == Stage::Resolve {
                    None
                } else {
                    Some(Rejected::OutOfTurn)
                },
                Event::Published => if self.stage == Stage::Publish {
                    None
                } else {
                    Some(Rejected::OutOfTurn)
                },
            }
        }
    }

    /// The store after `event` was taken.
    pub open spec fn nodes_after(&self, event: Event) -> Seq<Node> {
        match event {
            Event::Integrated(nexts) => integrated_all(self.nodes@, nexts@),
            Event::Clamped(bounds) => constrained_all(self.nodes@, bounds@),
            Event::Wrapped(places) => translated_all(self.nodes@, places@),
            Event::Pair { first, second, dist, reach, first_to, second_to } => Node::resolved(
                self.nodes@,
                first as int,
                second as int,
                dist,
                reach,
                first_to,
                second_to,
            ),
            _ => self.nodes@,
        }
    }

    /// The stage after `event` was taken.
    pub open spec fn stage_after(&self, event: Event) -> Stage {
        match event {
            Event::Rebuilt => Stage::Integrate,
            Event::Integrated(_) => Stage::Constrain,
            Event::Clamped(_) => self.past_boundary(),
            Event::Wrapped(_) => self.past_boundary(),
            Event::Pair { .. } => Stage::Resolve,
            Event::Resolved => Stage::Publish,
            Event::Published => Stage::Rebuild,
            Event::Stop => self.stage,
        }
    }

    /// The cursor after `event` was taken: it is set back when a tick comes to
    /// the resolver, and follows the pairs from then on.
    pub open spec fn cursor_after(&self, event: Event) -> usize {
        match event {
            Event::Clamped(_) => 0,
            Event::Wrapped(_) => 0,
            Event::Pair { first, .. } => if first < self.nodes@.len() {
                first
            } else {
                self.cursor
            },
            _ => self.cursor,
        }
    }

    /// A running simulation with an empty store, between two ticks.
    pub fn new(props: VerletPhysicsProperties, boundary: Boundary) -> (sim: Simulation)
        ensures
            sim.nodes@ == Seq::<Node>::empty(),
            sim.props == props,
            sim.boundary == boundary,
            sim.stage == Stage::Rebuild,
            sim.running,
            sim.cursor == 0,
            sim.sim_steps.count == 0,
    {
        Simulation {
            nodes: Vec::new(),
            props,
            boundary,
            stage: Stage::Rebuild,
            running: true,
            cursor: 0,
            sim_steps: RateCounter::new(),
        }
    }

    pub fn next_action(&self) -> (action: Action)
        ensures
            action == self.awaited(),
    {
        if !self.running {
            Action::Halt
        } else {
            match self.stage {
                Stage::Rebuild => Action::Rebuild,
                Stage::Integrate => Action::Integrate,
                Stage::Constrain => match self.boundary {
                    Boundary::Clamp => Action::Clamp,
                    Boundary::Wrap => Action::Wrap,
                },
                Stage::Resolve => Action::Resolve,
                Stage::Publish => Action::Publish,
            }
        }
    }

    fn after_boundary(&self) -> (stage: Stage)
        ensures
            stage == self.past_boundary(),
    {
        if self.props.collisions_on {
            Stage::Resolve
        } else {
            Stage::Publish
        }
    }

    /// Takes one event. An event that comes out of turn, does not fit the
    /// store, or reaches a stopped simulation is turned away and changes
    /// nothing. Any other is applied to the store, the stage moves on, and
    /// the answer is what the caller is to do next. The number of particles,
    /// the properties and the boundary never change.
    pub fn update(&mut self, event: Event) -> (answer: Result<Action, Rejected>)
        ensures
            final(self).props == old(self).props,
            final(self).boundary == old(self).boundary,
            final(self).sim_steps == old(self).sim_steps,
            final(self).nodes@.len() == old(self).nodes@.len(),
            match old(self).verdict(event) {
                Some(reason) => {
                    &&& answer == Err::<Action, Rejected>(reason)
                    &&& final(self).nodes@ == old(self).nodes@
                    &&& final(self).stage == old(self).stage
                    &&& final(self).running == old(self).running
                    &&& final(self).cursor == old(self).cursor
                },
                None => {
                    &&& answer == Ok::<Action, Rejected>(final(self).awaited())
                    &&& final(self).nodes@ == old(self).nodes_after(event)
                    &&& final(self).stage == old(self).stage_after(event)
                    &&& final(self).running == !(event is Stop)
                    &&& final(self).cursor == old(self).cursor_after(event)
                },
            },
    {
        if !self.running {
            return Err(Rejected::Terminated);
        }
        match event {
            Event::Stop => {
                self.running = false;
            },
            Event::Rebuilt => {
                if self.stage != Stage::Rebuild {
                    return Err(Rejected::OutOfTurn);
                }
                self.stage = Stage::Integrate;
            },
            Event::Integrated(nexts) => {
                if self.stage != Stage::Integrate {
                    return Err(Rejected::OutOfTurn);
                }
                if nexts.len() != self.nodes.len() {
                    return Err(Rejected::Misaligned);
                }
                integrate_all(&mut self.nodes, &nexts);
                self.stage = Stage::Constrain;
            },
            Event::Clamped(bounds) => {
                if self.stage != Stage::Constrain || self.boundary != Boundary::Clamp {
                    return Err(Rejected::OutOfTurn);
                }
                if bounds.len() != self.nodes.len() {
                    return Err(Rejected::Misaligned);
                }
                if !spanned(&bounds) {
                    return Err(Rejected::Inverted);
                }
                constrain_all(&mut self.nodes, &bounds);
                self.stage = self.after_boundary();
                self.cursor = 0;
            },
            Event::Wrapped(places) => {
                if self.stage != Stage::Constrain || self.boundary != Boundary::Wrap {
                    return Err(Rejected::OutOfTurn);
                }
                if places.len() != self.nodes.len() {
                    return Err(Rejected::Misaligned);
                }
                translate_all(&mut self.nodes, &places);
                self.stage = self.after_boundary();
                self.cursor = 0;
            },
            Event::Pair { first, second, dist, reach, first_to, second_to } => {
                if self.stage != Stage::Resolve || first < self.cursor {
                    return Err(Rejected::OutOfTurn);
                }
                if first < self.nodes.len() {
                    self.cursor = first;
                }
                let _ = Node::collision_check(
                    &mut self.nodes,
                    first,
                    second,
                    dist,
                    reach,
                    first_to,
                    second_to,
                );
            },
            Event::Resolved => {
                if self.stage != Stage::Resolve {
                    return Err(Rejected::OutOfTurn);
                }
                self.stage = Stage::Publish;
            },
            Event::Published => {
                if self.stage != Stage::Publish {
                    return Err(Rejected::OutOfTurn);
                }
                self.stage = Stage::Rebuild;
            },
        }
        Ok(self.next_action())
    }

    /// Adds a particle at rest at `(x, y)` behind those that the store holds
    /// and returns its index. During a tick nothing is added.
    pub fn spawn(&mut self, x: Scalar, y: Scalar) -> (index: Option<usize>)
        ensures
            final(self).props == old(self).props,
            final(self).boundary == old(self).boundary,
            final(self).stage == old(self).stage,
            final(self).running == old(self).running,
            final(self).cursor == old(self).cursor,
            final(self).sim_steps == old(self).sim_steps,
            old(self).idle() ==> {
                &&& index == Some(old(self).nodes@.len() as usize)
                &&& final(self).nodes@.len() == old(self).nodes@.len() + 1
                &&& final(self).nodes@.drop_last() == old(self).nodes@
                &&& final(self).nodes@.last().pos == Vec2(x, y)
                &&& final(self).nodes@.last().old_pos == Vec2(x, y)
                &&& final(self).nodes@.last().movable()
            },
            !old(self).idle() ==> index.is_none() && final(self).nodes@ == old(self).nodes@,
    {
        if self.stage != Stage::Rebuild {
            return None;
        }
        let index = self.nodes.len();
        self.nodes.push(Node::new(x, y));
        assert(self.nodes@.drop_last() == old(self).nodes@);
        Some(index)
    }

    /// Takes particle `index` out of the store and hands it back. During a
    /// tick, or for an index that the store does not hold, nothing changes.
    pub fn remove(&mut self, index: usize) -> (gone: Option<Node>)
        ensures
            final(self).props == old(self).props,
            final(self).boundary == old(self).boundary,
            final(self).stage == old(self).stage,
            final(self).running == old(self).running,
            final(self).cursor == old(self).cursor,
            final(self).sim_steps == old(self).sim_steps,
            old(self).idle() && index < old(self).nodes@.len() ==> {
                &&& gone == Some(old(self).nodes@[index as int])
                &&& final(self).nodes@ == old(self).nodes@.remove(index as int)
            },
            !(old(self).idle() && index < old(self).nodes@.len()) ==> {
                &&& gone.is_none()
                &&& final(self).nodes@ == old(self).nodes@
            },
    {
        if self.stage != Stage::Rebuild {
            return None;
        }
        crate::store::remove(&mut self.nodes, index)
    }

    /// Anchors particle `index`, or sets it free, and says whether it did.
    /// During a tick, or for an index that the store does not hold, nothing
    /// changes.
    pub fn set_anchor(&mut self, index: usize, anchor: bool) -> (done: bool)
        ensures
            final(self).props == old(self).props,
            final(self).boundary == old(self).boundary,
            final(self).stage == old(self).stage,
            final(self).running == old(self).running,
            final(self).cursor == old(self).cursor,
            final(self).sim_steps == old(self).sim_steps,
            done == (old(self).idle() && index < old(self).nodes@.len()),
            done ==> final(self).nodes@ == old(self).nodes@.update(
                index as int,
                Node { anchor: anchor, ..old(self).nodes@[index as int] },
            ),
            !done ==> final(self).nodes@ == old(self).nodes@,
    {
        if self.stage != Stage::Rebuild {
            return false;
        }
        crate::store::set_anchor(&mut self.nodes, index, anchor)
    }

    /// A repelling impulse: offers `tos[i]` to particle `i` and says whether
    /// it did. During a tick, or with another number of proposals than the
    /// store has particles, nothing changes.
    pub fn repel(&mut self, tos: &Vec<Vec2>) -> (done: bool)
        ensures
            final(self).props == old(self).props,
            final(self).boundary == old(self).boundary,
            final(self).stage == old(self).stage,
            final(self).running == old(self).running,
            final(self).cursor == old(self).cursor,
            final(self).sim_steps == old(self).sim_steps,
            done == (old(self).idle() && tos@.len() == old(self).nodes@.len()),
            done ==> final(self).nodes@ == repelled_all(old(self).nodes@, tos@),
            !done ==> final(self).nodes@ == old(self).nodes@,
    {
        if self.stage != Stage::Rebuild || tos.len() != self.nodes.len() {
            return false;
        }
        repel_all(&mut self.nodes, tos);
        true
    }
}

/// An anchored particle comes through every event where it stood: no event
/// that the simulation takes changes its position or previous position,
/// unless the clamping boundary finds its centre outside its rectangle, or
/// the wrapping boundary is told to carry it elsewhere.
pub proof fn lemma_event_spares_anchored(sim: Simulation, event: Event, i: int)
    requires
        0 <= i < sim.nodes@.len(),
        sim.nodes@[i].anchor,
        sim.verdict(event).is_none(),
        event matches Event::Clamped(bounds) ==> sim.nodes@[i].pos.within(
            bounds@[i].0,
            bounds@[i].1,
        ),
        event matches Event::Wrapped(places) ==> places@[i] == (
            sim.nodes@[i].pos,
            sim.nodes@[i].old_pos,
        ),
    ensures
        sim.nodes_after(event).len() == sim.nodes@.len(),
        sim.nodes_after(event)[i].pos == sim.nodes@[i].pos,
        sim.nodes_after(event)[i].old_pos == sim.nodes@[i].old_pos,
        sim.nodes_after(event)[i].anchor,
{
}

/// A tick runs through its stages in one order: from every stage there is
/// one stage that an accepted event other than a pair or a stop leads to.
pub proof fn lemma_stages_in_order(sim: Simulation, event: Event)
    requires
        sim.verdict(event).is_none(),
        !(event is Stop),
        !(event is Pair),
    ensures
        sim.stage_after(event) == match sim.stage {
            Stage::Rebuild => Stage::Integrate,
            Stage::Integrate => Stage::Constrain,
            Stage::Constrain => sim.past_boundary(),
            Stage::Resolve => Stage::Publish,
            Stage::Publish => Stage::Rebuild,
        },
{
}

} // verus!
