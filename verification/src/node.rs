//! A particle, and the rules by which the engine lets it move.
//!
//! A particle keeps its position and the position it had one tick earlier;
//! the difference of the two is its velocity. The arithmetic that proposes a
//! new position is the caller's. What is decided here is whether a proposal is
//! taken, and which of the two stored positions it touches.

use vstd::prelude::*;
use crate::maths::Vec2;
use crate::scalar::Scalar;

verus! {

/// The pattern of one.
pub const ONE_BITS: u32 = 0x3f80_0000;

/// The pattern of twenty, the radius of a new particle.
pub const DEFAULT_RADIUS_BITS: u32 = 0x41a0_0000;

/// The pattern of one hundred: both coordinates of the place to which the
/// first particle of a coincident pair is sent.
pub const FIRST_REFUGE_BITS: u32 = 0x42c8_0000;

/// The pattern of two hundred: both coordinates of the place to which the
/// second particle of a coincident pair is sent.
pub const SECOND_REFUGE_BITS: u32 = 0x4348_0000;

/// The pattern of three tenths, below which the green and blue of a
/// particle's fill colour are not allowed to fall.
pub const COLOUR_FLOOR_BITS: u32 = 0x3e99_999a;

/// One particle. Its velocity is not stored: it is the way from `old_pos`
/// to `pos`.
#[derive(Clone, Copy, Debug, PartialEq, Eq)]
pub struct Node {
    pub pos: Vec2,
    pub old_pos: Vec2,
    pub radius: Scalar,
    pub mass: Scalar,
    /// Set once the position is found not to be finite; a particle so marked
    /// is left alone until the flag is cleared from outside.
    pub dont_update: bool,
    pub anchor: bool,
    pub colour: (Scalar, Scalar, Scalar),
}

/// How two particles lie to each other, judged by the distance of their
/// centres and the sum of their radii.
#[derive(Clone, Copy, Debug, PartialEq, Eq, Structural)]
pub enum Contact {
    /// Further apart than the radii reach, or the distance is not a number.
    Apart,
    /// The centres are the same point.
    Coincident,
    /// Touching or overlapping, the centres distinct.
    Overlap,
}

/// On which side, if any, a particle's extent leaves the domain along one axis.
#[derive(Clone, Copy, Debug, PartialEq, Eq, Structural)]
pub enum Crossing {
    Inside,
    /// Past the upper edge: the particle re-enters from the lower one.
    Above,
    /// Past the lower edge: the particle re-enters from the upper one.
    Below,
}

/// One thing that the engine may do to a particle between two boundary passes.
pub enum Motion {
    /// The integrator offers a next position.
    Integrate { next: Vec2 },
    /// The resolver meets the particle in a pair.
    Resolve { contact: Contact, refuge: Vec2, to: Vec2 },
    /// A repelling impulse offers a position.
    Repel { to: Vec2 },
}

/// Where the first particle of a coincident pair is sent.
pub open spec fn first_refuge() -> Vec2 {
    Vec2(Scalar { bits: FIRST_REFUGE_BITS }, Scalar { bits: FIRST_REFUGE_BITS })
}

/// Where the second particle of a coincident pair is sent.
pub open spec fn second_refuge() -> Vec2 {
    Vec2(Scalar { bits: SECOND_REFUGE_BITS }, Scalar { bits: SECOND_REFUGE_BITS })
}

impl Node {
    /// What the collision arithmetic needs of a particle: a radius and a mass
    /// that are numbers above zero.
    pub open spec fn well_formed(self) -> bool {
        (Scalar { bits: 0 }).below(self.radius) && (Scalar { bits: 0 }).below(self.mass)
    }

    /// A particle that the integrator and the resolver may move.
    pub open spec fn movable(self) -> bool {
        !self.anchor && !self.dont_update
    }

    /// The particle moved to `pos`, the place it leaves remembered as its
    /// previous position.
    pub open spec fn moved_to(self, pos: Vec2) -> Node {
        Node { old_pos: self.pos, pos: pos, ..self }
    }

    /// The particle set down at `pos`, its previous position untouched.
    pub open spec fn placed_at(self, pos: Vec2) -> Node {
        Node { pos: pos, ..self }
    }

    /// The particle after the integrator was offered `next` for it.
    pub open spec fn integrated(self, next: Vec2) -> Node {
        let frozen = self.dont_update || !self.pos.finite();
        if frozen || self.anchor {
            Node { dont_update: frozen, ..self }
        } else {
            self.moved_to(next)
        }
    }

    /// The particle with its centre clamped to the rectangle `[min, max]`.
    pub open spec fn constrained(self, min: Vec2, max: Vec2) -> Node {
        self.placed_at(self.pos.clamped(min, max))
    }

    /// The particle after a repelling impulse offered `to` for it.
    pub open spec fn repelled(self, to: Vec2) -> Node {
        if self.movable() {
            self.placed_at(to)
        } else {
            self
        }
    }

    /// The particle after the resolver met it in a pair lying as `contact`
    /// says: `refuge` is where it goes if the pair is coincident, `to` where
    /// it goes if the pair overlaps.
    pub open spec fn corrected(self, contact: Contact, refuge: Vec2, to: Vec2) -> Node {
        if !self.movable() {
            self
        } else {
            match contact {
                Contact::Apart => self,
                Contact::Coincident => self.moved_to(refuge),
                Contact::Overlap => self.placed_at(to),
            }
        }
    }

    /// How a pair lies whose centres are `dist` apart and whose radii add up
    /// to `reach`.
    pub open spec fn contact_of(dist: Scalar, reach: Scalar) -> Contact {
        if dist.zero() {
            Contact::Coincident
        } else if dist.at_most(reach) {
            Contact::Overlap
        } else {
            Contact::Apart
        }
    }

    /// Where an extent from `low` to `high` leaves the interval `[min, max]`.
    pub open spec fn crossing_of(low: Scalar, high: Scalar, min: Scalar, max: Scalar) -> Crossing {
        if max.below(high) {
            Crossing::Above
        } else if low.below(min) {
            Crossing::Below
        } else {
            Crossing::Inside
        }
    }

    /// The store after the resolver looked at the pair `(first, second)`.
    /// A pair of one particle with itself, or one that names a particle the
    /// store does not hold, changes nothing.
    pub open spec fn resolved(
        s: Seq<Node>,
        first: int,
        second: int,
        dist: Scalar,
        reach: Scalar,
        first_to: Vec2,
        second_to: Vec2,
    ) -> Seq<Node> {
        if first == second || !(0 <= first < s.len()) || !(0 <= second < s.len()) {
            s
        } else {
            let contact = Node::contact_of(dist, reach);
            s.update(first, s[first].corrected(contact, first_refuge(), first_to)).update(
                second,
                s[second].corrected(contact, second_refuge(), second_to),
            )
        }
    }

    /// The particle after one motion.
    pub open spec fn after(self, motion: Motion) -> Node {
        match motion {
            Motion::Integrate { next } => self.integrated(next),
            Motion::Resolve { contact, refuge, to } => self.corrected(contact, refuge, to),
            Motion::Repel { to } => self.repelled(to),
        }
    }

    /// The particle after a run of motions, the first of them first.
    pub open spec fn after_all(self, motions: Seq<Motion>) -> Node
        decreases motions.len(),
    {
        if motions.len() == 0 {
            self
        } else {
            self.after(motions[0]).after_all(motions.drop_first())
        }
    }

    /// A particle at rest at `(x, y)`: free to move, of radius twenty, mass
    /// one and white colour.
    pub fn new(x: Scalar, y: Scalar) -> (n: Node)
        ensures
            n.pos == Vec2(x, y),
            n.old_pos == Vec2(x, y),
            n.radius.bits == DEFAULT_RADIUS_BITS,
            n.mass.bits == ONE_BITS,
            !n.dont_update,
            !n.anchor,
            n.colour == (Scalar { bits: ONE_BITS }, Scalar { bits: ONE_BITS }, Scalar { bits: ONE_BITS }),
            n.well_formed(),
    {
        proof {
            crate::scalar::lemma_units_increase(0, DEFAULT_RADIUS_BITS as int);
            crate::scalar::lemma_units_increase(0, ONE_BITS as int);
        }
        Node {
            pos: Vec2(x, y),
            old_pos: Vec2(x, y),
            radius: Scalar { bits: DEFAULT_RADIUS_BITS },
            dont_update: false,
            anchor: false,
            mass: Scalar { bits: ONE_BITS },
            colour: (Scalar { bits: ONE_BITS }, Scalar { bits: ONE_BITS }, Scalar { bits: ONE_BITS }),
        }
    }

    pub fn is_well_formed(&self) -> (b: bool)
        ensures
            b == self.well_formed(),
    {
        let zero = Scalar { bits: 0 };
        zero.lt(self.radius) && zero.lt(self.mass)
    }

    pub fn is_movable(&self) -> (b: bool)
        ensures
            b == self.movable(),
    {
        !self.anchor && !self.dont_update
    }

    /// Moves the particle, so that the move counts as velocity on the next tick.
    pub fn update_pos(&mut self, pos: Vec2)
        ensures
            *final(self) == old(self).moved_to(pos),
    {
        self.old_pos = self.pos;
        self.pos = pos;
    }

    /// Moves the particle without a trace in its velocity.
    pub fn update_pos_no_vel(&mut self, pos: Vec2)
        ensures
            *final(self) == old(self).placed_at(pos),
    {
        self.pos = pos;
    }

    /// Pushes the particle to `to`, unless it is anchored or frozen.
    pub fn repel(&mut self, to: Vec2)
        ensures
            *final(self) == old(self).repelled(to),
    {
        if self.anchor || self.dont_update {
            return;
        }
        self.pos = to;
    }

    /// One step of the integrator. `next` is the position that the caller's
    /// arithmetic proposes. A particle whose position is not finite is frozen
    /// first; a frozen or anchored particle stays where it is; any other
    /// moves to `next` and remembers where it was. Says whether it moved.
    pub fn update(&mut self, next: Vec2) -> (moved: bool)
        ensures
            *final(self) == old(self).integrated(next),
            moved == (old(self).movable() && old(self).pos.finite()),
    {
        if !self.pos.is_finite() {
            self.dont_update = true;
        }
        if self.dont_update || self.anchor {
            return false;
        }
        self.old_pos = self.pos;
        self.pos = next;
        true
    }

    /// The clamping boundary: brings the centre back into `[min, max]`, the
    /// domain drawn in by the radius on every side. The previous position is
    /// left as it is, so that the particle loses what velocity it had towards
    /// the wall.
    pub fn constrain(&mut self, min: Vec2, max: Vec2)
        requires
            min.at_most(max),
        ensures
            *final(self) == old(self).constrained(min, max),
            old(self).pos.ordered() ==> final(self).pos.within(min, max),
    {
        self.pos = self.pos.clamp(min, max);
    }

    /// The wrapping boundary, along one axis: says on which side the extent
    /// from `low` to `high` has left `[min, max]`.
    pub fn crossing(low: Scalar, high: Scalar, min: Scalar, max: Scalar) -> (c: Crossing)
        ensures
            c == Node::crossing_of(low, high, min, max),
    {
        if high.gt(max) {
            Crossing::Above
        } else if low.lt(min) {
            Crossing::Below
        } else {
            Crossing::Inside
        }
    }

    /// Carries the particle across the domain: both stored positions are
    /// replaced, so that what velocity it had it keeps.
    pub fn translate(&mut self, pos: Vec2, old_pos: Vec2)
        ensures
            *final(self) == (Node { pos: pos, old_pos: old_pos, ..*old(self) }),
    {
        self.pos = pos;
        self.old_pos = old_pos;
    }

    /// Whether the particle rests on the floor, the largest `y` that the
    /// clamping boundary allows its centre.
    pub fn rests_on(&self, floor: Scalar) -> (b: bool)
        ensures
            b == floor.at_most(self.pos.1),
    {
        self.pos.1.ge(floor)
    }

    /// Judges a pair by the distance `dist` of its centres and the sum
    /// `reach` of its radii.
    pub fn contact(dist: Scalar, reach: Scalar) -> (c: Contact)
        ensures
            c == Node::contact_of(dist, reach),
    {
        if dist.is_zero() {
            Contact::Coincident
        } else if dist.le(reach) {
            Contact::Overlap
        } else {
            Contact::Apart
        }
    }

    /// The resolver's step for one pair of the store. `dist` is the distance
    /// of the two centres, `reach` the sum of the two radii, and `first_to`
    /// and `second_to` are where the caller's arithmetic would put the two so
    /// that they just touch.
    ///
    /// Coincident particles are sent apart to two fixed places, each by a
    /// move that counts as velocity. Overlapping ones are set down at the
    /// proposed places, with no trace in their velocity. An anchored or frozen
    /// particle is never moved. Returns how the pair was found to lie, or
    /// `None` for a pair that was passed over.
    pub fn collision_check(
        nodes: &mut Vec<Node>,
        first: usize,
        second: usize,
        dist: Scalar,
        reach: Scalar,
        first_to: Vec2,
        second_to: Vec2,
    ) -> (found: Option<Contact>)
        ensures
            final(nodes)@ == Node::resolved(
                old(nodes)@,
                first as int,
                second as int,
                dist,
                reach,
                first_to,
                second_to,
            ),
            first == second || first >= old(nodes).len() || second >= old(nodes).len()
                ==> found.is_none(),
            first != second && first < old(nodes).len() && second < old(nodes).len()
                ==> found == Some(Node::contact_of(dist, reach)),
    {
        if first == second || first >= nodes.len() || second >= nodes.len() {
            return None;
        }
        let contact = Node::contact(dist, reach);
        let a = Node::correct(nodes[first], contact, Node::refuge(FIRST_REFUGE_BITS), first_to);
        let b = Node::correct(nodes[second], contact, Node::refuge(SECOND_REFUGE_BITS), second_to);
        nodes.set(first, a);
        nodes.set(second, b);
        Some(contact)
    }

    fn refuge(bits: u32) -> (v: Vec2)
        ensures
            v == Vec2(Scalar { bits }, Scalar { bits }),
    {
        Vec2(Scalar { bits }, Scalar { bits })
    }

    fn correct(node: Node, contact: Contact, refuge: Vec2, to: Vec2) -> (r: Node)
        ensures
            r == node.corrected(contact, refuge, to),
    {
        let mut r = node;
        if r.is_movable() {
            match contact {
                Contact::Apart => {},
                Contact::Coincident => {
                    r.update_pos(refuge);
                },
                Contact::Overlap => {
                    r.update_pos_no_vel(to);
                },
            }
        }
        r
    }

    /// The colour in which the particle is filled: its own, with green and
    /// blue raised to three tenths where they fall short of it.
    pub fn fill_colour(&self) -> (c: (Scalar, Scalar, Scalar))
        ensures
            c == (
                self.colour.0,
                self.colour.1.larger(Scalar { bits: COLOUR_FLOOR_BITS }),
                self.colour.2.larger(Scalar { bits: COLOUR_FLOOR_BITS }),
            ),
    {
        let floor = Scalar { bits: COLOUR_FLOOR_BITS };
        (self.colour.0, self.colour.1.max(floor), self.colour.2.max(floor))
    }
}

/// No motion touches what a particle is: after any run of motions it has the
/// radius, mass, colour and anchoring it had, and once frozen it stays frozen.
pub proof fn lemma_motions_keep_identity(node: Node, motions: Seq<Motion>)
    ensures
        node.after_all(motions).radius == node.radius,
        node.after_all(motions).mass == node.mass,
        node.after_all(motions).colour == node.colour,
        node.after_all(motions).anchor == node.anchor,
        node.dont_update ==> node.after_all(motions).dont_update,
        node.well_formed() ==> node.after_all(motions).well_formed(),
    decreases motions.len(),
{
    if motions.len() > 0 {
        lemma_motions_keep_identity(node.after(motions[0]), motions.drop_first());
    }
}

/// An anchored particle stays where it is: whatever the integrator, the
/// resolver and repelling impulses offer it, and however often, its position
/// and its previous position are the ones it had.
pub proof fn lemma_anchor_holds(node: Node, motions: Seq<Motion>)
    requires
        node.anchor,
    ensures
        node.after_all(motions).pos == node.pos,
        node.after_all(motions).old_pos == node.old_pos,
    decreases motions.len(),
{
    if motions.len() > 0 {
        lemma_anchor_holds(node.after(motions[0]), motions.drop_first());
    }
}

/// So does a frozen one.
pub proof fn lemma_frozen_holds(node: Node, motions: Seq<Motion>)
    requires
        node.dont_update,
    ensures
        node.after_all(motions).pos == node.pos,
        node.after_all(motions).old_pos == node.old_pos,
    decreases motions.len(),
{
    if motions.len() > 0 {
        lemma_frozen_holds(node.after(motions[0]), motions.drop_first());
    }
}

/// The resolver keeps the store's length and touches no particle but the two
/// of the pair; of those it moves none that is anchored or frozen.
pub proof fn lemma_resolver_spares(
    s: Seq<Node>,
    first: int,
    second: int,
    dist: Scalar,
    reach: Scalar,
    first_to: Vec2,
    second_to: Vec2,
    k: int,
)
    requires
        0 <= k < s.len(),
    ensures
        Node::resolved(s, first, second, dist, reach, first_to, second_to).len() == s.len(),
        k != first && k != second || !s[k].movable() ==> Node::resolved(
            s,
            first,
            second,
            dist,
            reach,
            first_to,
            second_to,
        )[k] == s[k],
{
}

/// Two particles on one point: after the resolver's step for the pair each
/// free one stands at its own fixed place, which is finite, its previous
/// position is the shared point, and it is still free to move.
pub proof fn lemma_coincident_pair_parts(
    s: Seq<Node>,
    first: int,
    second: int,
    dist: Scalar,
    reach: Scalar,
    first_to: Vec2,
    second_to: Vec2,
)
    requires
        0 <= first < s.len(),
        0 <= second < s.len(),
        first != second,
        dist.zero(),
    ensures
        ({
            let r = Node::resolved(s, first, second, dist, reach, first_to, second_to);
            &&& s[first].movable() ==> r[first] == s[first].moved_to(first_refuge())
                && r[first].pos.finite() && r[first].movable()
            &&& s[second].movable() ==> r[second] == s[second].moved_to(second_refuge())
                && r[second].pos.finite() && r[second].movable()
            &&& first_refuge() != second_refuge()
        }),
{
}

/// Two free particles that overlap, their centres distinct: after the
/// resolver's step for the pair each stands exactly where the caller proposed,
/// and keeps the previous position it had, so that the step adds no velocity.
pub proof fn lemma_overlapping_pair_touches(
    s: Seq<Node>,
    first: int,
    second: int,
    dist: Scalar,
    reach: Scalar,
    first_to: Vec2,
    second_to: Vec2,
)
    requires
        0 <= first < s.len(),
        0 <= second < s.len(),
        first != second,
        s[first].movable(),
        s[second].movable(),
        !dist.zero(),
        dist.at_most(reach),
    ensures
        ({
            let r = Node::resolved(s, first, second, dist, reach, first_to, second_to);
            &&& r[first] == s[first].placed_at(first_to)
            &&& r[second] == s[second].placed_at(second_to)
            &&& r[first].old_pos == s[first].old_pos
            &&& r[second].old_pos == s[second].old_pos
        }),
{
}

/// A pair whose centres are distinct, and further apart than its radii reach,
/// is left as it is, wherever the caller would have put the two.
pub proof fn lemma_separated_pair_rests(
    s: Seq<Node>,
    first: int,
    second: int,
    dist: Scalar,
    reach: Scalar,
    first_to: Vec2,
    second_to: Vec2,
)
    requires
        !dist.zero(),
        reach.below(dist),
    ensures
        Node::resolved(s, first, second, dist, reach, first_to, second_to) == s,
{
    if !(first == second || !(0 <= first < s.len()) || !(0 <= second < s.len())) {
        assert(Node::contact_of(dist, reach) == Contact::Apart);
        assert(Node::resolved(s, first, second, dist, reach, first_to, second_to) =~= s);
    }
}

/// The clamping boundary holds: whatever position a particle has, unless a
/// coordinate of it is NaN, the clamped particle's centre lies in `[min, max]`,
/// and nothing but its position has changed.
pub proof fn lemma_constrained_within(node: Node, min: Vec2, max: Vec2)
    requires
        min.at_most(max),
        node.pos.ordered(),
    ensures
        node.constrained(min, max).pos.within(min, max),
        node.constrained(min, max) == node.placed_at(node.constrained(min, max).pos),
        node.pos.within(min, max) ==> node.constrained(min, max) == node,
{
}

} // verus!
