//! The particle store: particles in a row, each known by its place in it.
//!
//! Every pass over the store takes what the caller's arithmetic proposes for
//! each particle, in the store's order, and leaves the order and the number
//! of particles as they were.

use vstd::prelude::*;
use crate::maths::Vec2;
use crate::node::Node;
use crate::scalar::Scalar;

verus! {

/// How many particles a cell of the spatial index may hold before it is split.
pub const BUCKET_CAPACITY: usize = 50;

/// The pattern of twenty, the side below which a cell is not split further.
pub const MIN_CELL_BITS: u32 = 0x41a0_0000;

/// How often, at most, a cell of the index is split.
pub const MAX_DEPTH: usize = 1000;

/// What the presentation layer is shown of one particle.
#[derive(Clone, Copy, Debug, PartialEq, Eq)]
pub struct Sprite {
    pub pos: Vec2,
    pub radius: Scalar,
    pub colour: (Scalar, Scalar, Scalar),
}

/// What is shown of `node`.
pub open spec fn sprite_of(node: Node) -> Sprite {
    Sprite { pos: node.pos, radius: node.radius, colour: node.colour }
}

/// Every pair of corners spans a rectangle: the first is at most the second.
pub open spec fn all_spanned(bounds: Seq<(Vec2, Vec2)>) -> bool {
    forall|i: int| 0 <= i < bounds.len() ==> (#[trigger] bounds[i]).0.at_most(bounds[i].1)
}

/// The store after the integrator went over it with the proposals `nexts`.
pub open spec fn integrated_all(s: Seq<Node>, nexts: Seq<Vec2>) -> Seq<Node> {
    Seq::new(s.len(), |i: int| s[i].integrated(nexts[i]))
}

/// The store after the clamping boundary went over it, `bounds[i]` holding
/// the two corners for the centre of particle `i`.
pub open spec fn constrained_all(s: Seq<Node>, bounds: Seq<(Vec2, Vec2)>) -> Seq<Node> {
    Seq::new(s.len(), |i: int| s[i].constrained(bounds[i].0, bounds[i].1))
}

/// The store after the wrapping boundary went over it, `places[i]` holding the
/// position and the previous position of particle `i`.
pub open spec fn translated_all(s: Seq<Node>, places: Seq<(Vec2, Vec2)>) -> Seq<Node> {
    Seq::new(s.len(), |i: int| Node { pos: places[i].0, old_pos: places[i].1, ..s[i] })
}

/// The store after a repelling impulse went over it with the proposals `tos`.
pub open spec fn repelled_all(s: Seq<Node>, tos: Seq<Vec2>) -> Seq<Node> {
    Seq::new(s.len(), |i: int| s[i].repelled(tos[i]))
}

/// The positions of the store, in its order: what the spatial index is built from.
pub fn positions(nodes: &Vec<Node>) -> (points: Vec<Vec2>)
    ensures
        points@ == nodes@.map_values(|n: Node| n.pos),
{
    let mut points: Vec<Vec2> = Vec::new();
    let mut i: usize = 0;
    while i < nodes.len()
        invariant
            i <= nodes.len(),
            points@ == nodes@.take(i as int).map_values(|n: Node| n.pos),
        decreases nodes.len() - i,
    {
        points.push(nodes[i].pos);
        i += 1;
        assert(nodes@.take(i as int) == nodes@.take(i - 1).push(nodes@[i - 1]));
    }
    assert(nodes@.take(i as int) == nodes@);
    points
}

/// What the presentation layer is handed: position, radius and colour of
/// every particle, in the store's order.
pub fn snapshot(nodes: &Vec<Node>) -> (sprites: Vec<Sprite>)
    ensures
        sprites@ == nodes@.map_values(|n: Node| sprite_of(n)),
{
    let mut sprites: Vec<Sprite> = Vec::new();
    let mut i: usize = 0;
    while i < nodes.len()
        invariant
            i <= nodes.len(),
            sprites@ == nodes@.take(i as int).map_values(|n: Node| sprite_of(n)),
        decreases nodes.len() - i,
    {
        let n = nodes[i];
        sprites.push(Sprite { pos: n.pos, radius: n.radius, colour: n.colour });
        i += 1;
        assert(nodes@.take(i as int) == nodes@.take(i - 1).push(nodes@[i - 1]));
    }
    assert(nodes@.take(i as int) == nodes@);
    sprites
}

/// Whether every pair of corners in `bounds` spans a rectangle.
pub fn spanned(bounds: &Vec<(Vec2, Vec2)>) -> (b: bool)
    ensures
        b == all_spanned(bounds@),
{
    let mut i: usize = 0;
    while i < bounds.len()
        invariant
            i <= bounds.len(),
            all_spanned(bounds@.take(i as int)),
        decreases bounds.len() - i,
    {
        let pair = bounds[i];
        if !(pair.0.0.le(pair.1.0) && pair.0.1.le(pair.1.1)) {
            return false;
        }
        i += 1;
    }
    assert(bounds@.take(i as int) == bounds@);
    true
}

/// The integrator's pass: offers `nexts[i]` to particle `i`.
pub fn integrate_all(nodes: &mut Vec<Node>, nexts: &Vec<Vec2>)
    requires
        nexts.len() == old(nodes).len(),
    ensures
        final(nodes)@ == integrated_all(old(nodes)@, nexts@),
{
    let n = nodes.len();
    let mut i: usize = 0;
    while i < n
        invariant
            i <= n,
            n == nodes.len(),
            n == old(nodes).len(),
            n == nexts.len(),
            forall|k: int| 0 <= k < i ==> nodes@[k] == old(nodes)@[k].integrated(nexts@[k]),
            forall|k: int| i <= k < n ==> nodes@[k] == old(nodes)@[k],
        decreases n - i,
    {
        let mut node = nodes[i];
        node.update(nexts[i]);
        nodes.set(i, node);
        i += 1;
    }
}

/// The clamping boundary's pass: clamps the centre of particle `i` to the
/// rectangle that `bounds[i]` spans.
pub fn constrain_all(nodes: &mut Vec<Node>, bounds: &Vec<(Vec2, Vec2)>)
    requires
        bounds.len() == old(nodes).len(),
        all_spanned(bounds@),
    ensures
        final(nodes)@ == constrained_all(old(nodes)@, bounds@),
{
    let n = nodes.len();
    let mut i: usize = 0;
    while i < n
        invariant
            i <= n,
            n == nodes.len(),
            n == old(nodes).len(),
            n == bounds.len(),
            all_spanned(bounds@),
            forall|k: int|
                0 <= k < i ==> nodes@[k] == old(nodes)@[k].constrained(bounds@[k].0, bounds@[k].1),
            forall|k: int| i <= k < n ==> nodes@[k] == old(nodes)@[k],
        decreases n - i,
    {
        let mut node = nodes[i];
        let pair = bounds[i];
        node.constrain(pair.0, pair.1);
        nodes.set(i, node);
        i += 1;
    }
}

/// The wrapping boundary's pass: gives particle `i` the position and the
/// previous position that `places[i]` holds.
pub fn translate_all(nodes: &mut Vec<Node>, places: &Vec<(Vec2, Vec2)>)
    requires
        places.len() == old(nodes).len(),
    ensures
        final(nodes)@ == translated_all(old(nodes)@, places@),
{
    let n = nodes.len();
    let mut i: usize = 0;
    while i < n
        invariant
            i <= n,
            n == nodes.len(),
            n == old(nodes).len(),
            n == places.len(),
            forall|k: int|
                0 <= k < i ==> nodes@[k] == (Node {
                    pos: places@[k].0,
                    old_pos: places@[k].1,
                    ..old(nodes)@[k]
                }),
            forall|k: int| i <= k < n ==> nodes@[k] == old(nodes)@[k],
        decreases n - i,
    {
        let mut node = nodes[i];
        let pair = places[i];
        node.translate(pair.0, pair.1);
        nodes.set(i, node);
        i += 1;
    }
}

/// A repelling impulse's pass: offers `tos[i]` to particle `i`.
pub fn repel_all(nodes: &mut Vec<Node>, tos: &Vec<Vec2>)
    requires
        tos.len() == old(nodes).len(),
    ensures
        final(nodes)@ == repelled_all(old(nodes)@, tos@),
{
    let n = nodes.len();
    let mut i: usize = 0;
    while i < n
        invariant
            i <= n,
            n == nodes.len(),
            n == old(nodes).len(),
            n == tos.len(),
            forall|k: int| 0 <= k < i ==> nodes@[k] == old(nodes)@[k].repelled(tos@[k]),
            forall|k: int| i <= k < n ==> nodes@[k] == old(nodes)@[k],
        decreases n - i,
    {
        let mut node = nodes[i];
        node.repel(tos[i]);
        nodes.set(i, node);
        i += 1;
    }
}

/// Takes particle `index` out of the store and hands it back; those behind
/// it move up by one. An index that the store does not hold changes nothing.
pub fn remove(nodes: &mut Vec<Node>, index: usize) -> (gone: Option<Node>)
    ensures
        index < old(nodes).len() ==> {
            &&& gone == Some(old(nodes)@[index as int])
            &&& final(nodes)@ == old(nodes)@.remove(index as int)
        },
        index >= old(nodes).len() ==> gone.is_none() && final(nodes)@ == old(nodes)@,
{
    if index < nodes.len() {
        Some(nodes.remove(index))
    } else {
        None
    }
}

/// Anchors particle `index`, or sets it free. Says whether the store holds
/// such a particle; if not, nothing changes.
pub fn set_anchor(nodes: &mut Vec<Node>, index: usize, anchor: bool) -> (found: bool)
    ensures
        found == (index < old(nodes).len()),
        found ==> final(nodes)@ == old(nodes)@.update(
            index as int,
            Node { anchor: anchor, ..old(nodes)@[index as int] },
        ),
        !found ==> final(nodes)@ == old(nodes)@,
{
    if index < nodes.len() {
        let mut node = nodes[index];
        node.anchor = anchor;
        nodes.set(index, node);
        true
    } else {
        false
    }
}

/// After the clamping boundary's pass every particle whose position held no
/// NaN has its centre inside its rectangle, and the pass has changed nothing
/// but positions.
pub proof fn lemma_constrained_all_within(s: Seq<Node>, bounds: Seq<(Vec2, Vec2)>, i: int)
    requires
        bounds.len() == s.len(),
        all_spanned(bounds),
        0 <= i < s.len(),
    ensures
        constrained_all(s, bounds).len() == s.len(),
        constrained_all(s, bounds)[i] == s[i].placed_at(constrained_all(s, bounds)[i].pos),
        s[i].pos.ordered() ==> constrained_all(s, bounds)[i].pos.within(bounds[i].0, bounds[i].1),
{
    assert(bounds[i].0.at_most(bounds[i].1));
}

/// The integrator's pass and a repelling impulse's pass leave every anchored
/// particle's position and previous position as they were.
pub proof fn lemma_passes_spare_anchored(s: Seq<Node>, proposals: Seq<Vec2>, i: int)
    requires
        0 <= i < s.len(),
        s[i].anchor,
    ensures
        integrated_all(s, proposals)[i].pos == s[i].pos,
        integrated_all(s, proposals)[i].old_pos == s[i].old_pos,
        integrated_all(s, proposals)[i].anchor,
        repelled_all(s, proposals)[i] == s[i],
{
}

} // verus!
