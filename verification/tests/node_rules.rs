use verlet::maths::Vec2;
use verlet::node::Contact;
use verlet::node::Crossing;
use verlet::node::Node;
use verlet::scalar::Scalar;

fn s(x: f32) -> Scalar {
    Scalar::from_bits(x.to_bits())
}

fn v(x: f32, y: f32) -> Vec2 {
    Vec2(s(x), s(y))
}

fn f(x: Scalar) -> f32 {
    f32::from_bits(x.to_bits())
}

#[test]
fn a_new_particle_rests_where_it_was_put() {
    let n = Node::new(s(3.5), s(-7.25));
    assert_eq!(n.pos, v(3.5, -7.25));
    assert_eq!(n.old_pos, v(3.5, -7.25));
    assert_eq!(f(n.radius), 20.0);
    assert_eq!(f(n.mass), 1.0);
    assert!(!n.dont_update);
    assert!(!n.anchor);
    assert_eq!((f(n.colour.0), f(n.colour.1), f(n.colour.2)), (1.0, 1.0, 1.0));
    assert!(n.is_movable());
    assert!(n.is_well_formed());
}

#[test]
fn a_particle_without_radius_or_mass_is_not_well_formed() {
    let mut n = Node::new(s(0.0), s(0.0));
    n.radius = s(0.0);
    assert!(!n.is_well_formed());
    n.radius = s(-1.0);
    assert!(!n.is_well_formed());
    n.radius = s(f32::NAN);
    assert!(!n.is_well_formed());
    n.radius = s(1.0);
    n.mass = s(0.0);
    assert!(!n.is_well_formed());
    n.mass = s(2.0);
    assert!(n.is_well_formed());
}

#[test]
fn vec2_clamp_works_component_by_component() {
    let p = v(-5.0, 900.0);
    assert_eq!(p.clamp(v(20.0, 20.0), v(700.0, 700.0)), v(20.0, 700.0));
    assert_eq!(v(30.0, 40.0).clamp(v(20.0, 20.0), v(700.0, 700.0)), v(30.0, 40.0));
    assert_eq!(Vec2::zero(), v(0.0, 0.0));
    assert_eq!(Vec2::new(s(1.0), s(2.0)), v(1.0, 2.0));
    assert!(v(1.0, 2.0).is_finite());
    assert!(!v(1.0, f32::INFINITY).is_finite());
    assert!(!v(f32::NAN, 2.0).is_finite());
}

#[test]
fn update_pos_remembers_the_place_left() {
    let mut n = Node::new(s(1.0), s(2.0));
    n.update_pos(v(3.0, 4.0));
    assert_eq!(n.pos, v(3.0, 4.0));
    assert_eq!(n.old_pos, v(1.0, 2.0));
}

#[test]
fn update_pos_no_vel_leaves_the_previous_position() {
    let mut n = Node::new(s(1.0), s(2.0));
    n.update_pos_no_vel(v(3.0, 4.0));
    assert_eq!(n.pos, v(3.0, 4.0));
    assert_eq!(n.old_pos, v(1.0, 2.0));
    n.update_pos_no_vel(v(5.0, 6.0));
    assert_eq!(n.old_pos, v(1.0, 2.0));
}

#[test]
fn the_integrator_moves_a_free_particle() {
    let mut n = Node::new(s(1.0), s(2.0));
    assert!(n.update(v(1.5, 2.5)));
    assert_eq!(n.pos, v(1.5, 2.5));
    assert_eq!(n.old_pos, v(1.0, 2.0));
    assert!(!n.dont_update);
}

#[test]
fn the_integrator_leaves_an_anchored_particle() {
    let mut n = Node::new(s(1.0), s(2.0));
    n.anchor = true;
    let before = n;
    assert!(!n.update(v(1.5, 2.5)));
    assert_eq!(n, before);
}

#[test]
fn the_integrator_leaves_a_frozen_particle() {
    let mut n = Node::new(s(1.0), s(2.0));
    n.dont_update = true;
    let before = n;
    assert!(!n.update(v(1.5, 2.5)));
    assert_eq!(n, before);
}

#[test]
fn the_integrator_freezes_a_particle_that_is_nowhere() {
    for bad in [f32::NAN, f32::INFINITY, f32::NEG_INFINITY] {
        let mut n = Node::new(s(bad), s(2.0));
        assert!(!n.update(v(1.5, 2.5)));
        assert!(n.dont_update);
        assert_eq!(n.pos.0.to_bits(), bad.to_bits());
        assert_eq!(n.old_pos.0.to_bits(), bad.to_bits());

        let mut m = Node::new(s(1.0), s(bad));
        assert!(!m.update(v(1.5, 2.5)));
        assert!(m.dont_update);
        assert!(!m.update(v(1.5, 2.5)));
        assert_eq!(m.pos.1.to_bits(), bad.to_bits());
    }
}

#[test]
fn the_integrator_moves_a_particle_at_the_origin() {
    let mut n = Node::new(s(0.0), s(0.0));
    assert!(n.update(v(0.0, 0.009)));
    assert!(!n.dont_update);
    assert_eq!(n.pos, v(0.0, 0.009));
}

#[test]
fn constrain_brings_a_particle_back_inside() {
    let lo = v(20.0, 20.0);
    let hi = v(700.0, 700.0);
    for (x, y) in [(-1.0e6f32, 1.0e6f32), (0.0, 0.0), (19.999, 700.001), (f32::NEG_INFINITY, f32::INFINITY), (350.0, 350.0)] {
        let mut n = Node::new(s(x), s(y));
        n.constrain(lo, hi);
        let (px, py) = (f(n.pos.0), f(n.pos.1));
        assert!(20.0 <= px && px <= 700.0);
        assert!(20.0 <= py && py <= 700.0);
        assert_eq!(n.old_pos, v(x, y));
    }
}

#[test]
fn constrain_gives_exact_positions() {
    let mut n = Node::new(s(-3.0), s(800.0));
    n.constrain(v(20.0, 20.0), v(700.0, 700.0));
    assert_eq!(n.pos, v(20.0, 700.0));
    let mut m = Node::new(s(30.0), s(40.0));
    m.constrain(v(20.0, 20.0), v(700.0, 700.0));
    assert_eq!(m.pos, v(30.0, 40.0));
}

#[test]
fn constrain_moves_an_anchored_particle_too() {
    let mut n = Node::new(s(-3.0), s(30.0));
    n.anchor = true;
    n.constrain(v(20.0, 20.0), v(700.0, 700.0));
    assert_eq!(n.pos, v(20.0, 30.0));
}

#[test]
fn constrain_leaves_a_nan_coordinate() {
    let mut n = Node::new(s(f32::NAN), s(800.0));
    n.constrain(v(20.0, 20.0), v(700.0, 700.0));
    assert!(n.pos.0.is_nan());
    assert_eq!(f(n.pos.1), 700.0);
}

#[test]
fn repel_pushes_only_a_free_particle() {
    let mut n = Node::new(s(1.0), s(2.0));
    n.repel(v(9.0, 9.0));
    assert_eq!(n.pos, v(9.0, 9.0));
    assert_eq!(n.old_pos, v(1.0, 2.0));

    let mut a = Node::new(s(1.0), s(2.0));
    a.anchor = true;
    a.repel(v(9.0, 9.0));
    assert_eq!(a.pos, v(1.0, 2.0));

    let mut z = Node::new(s(1.0), s(2.0));
    z.dont_update = true;
    z.repel(v(9.0, 9.0));
    assert_eq!(z.pos, v(1.0, 2.0));
}

#[test]
fn crossing_names_the_edge_that_was_passed() {
    assert_eq!(Node::crossing(s(10.0), s(50.0), s(0.0), s(720.0)), Crossing::Inside);
    assert_eq!(Node::crossing(s(0.0), s(720.0), s(0.0), s(720.0)), Crossing::Inside);
    assert_eq!(Node::crossing(s(690.0), s(730.0), s(0.0), s(720.0)), Crossing::Above);
    assert_eq!(Node::crossing(s(-5.0), s(35.0), s(0.0), s(720.0)), Crossing::Below);
    assert_eq!(Node::crossing(s(-5.0), s(735.0), s(0.0), s(720.0)), Crossing::Above);
    assert_eq!(Node::crossing(s(f32::NAN), s(f32::NAN), s(0.0), s(720.0)), Crossing::Inside);
}

#[test]
fn translate_replaces_both_positions() {
    let mut n = Node::new(s(730.0), s(5.0));
    n.old_pos = v(729.0, 5.0);
    n.translate(v(10.0, 5.0), v(9.0, 5.0));
    assert_eq!(n.pos, v(10.0, 5.0));
    assert_eq!(n.old_pos, v(9.0, 5.0));
    assert_eq!(f(n.radius), 20.0);
}

#[test]
fn a_particle_rests_on_the_floor_from_the_floor_line_on() {
    let n = Node::new(s(5.0), s(700.0));
    assert!(n.rests_on(s(700.0)));
    assert!(n.rests_on(s(699.0)));
    assert!(!n.rests_on(s(700.5)));
    assert!(!n.rests_on(s(f32::NAN)));
}

#[test]
fn contact_is_judged_by_distance_and_reach() {
    assert_eq!(Node::contact(s(0.0), s(40.0)), Contact::Coincident);
    assert_eq!(Node::contact(s(-0.0), s(40.0)), Contact::Coincident);
    assert_eq!(Node::contact(s(0.0), s(-1.0)), Contact::Coincident);
    assert_eq!(Node::contact(s(1.0e-45), s(40.0)), Contact::Overlap);
    assert_eq!(Node::contact(s(39.0), s(40.0)), Contact::Overlap);
    assert_eq!(Node::contact(s(40.0), s(40.0)), Contact::Overlap);
    assert_eq!(Node::contact(s(40.000004), s(40.0)), Contact::Apart);
    assert_eq!(Node::contact(s(f32::NAN), s(40.0)), Contact::Apart);
    assert_eq!(Node::contact(s(5.0), s(f32::NAN)), Contact::Apart);
    assert_eq!(Node::contact(s(f32::INFINITY), s(f32::INFINITY)), Contact::Overlap);
}

#[test]
fn coincident_particles_are_sent_to_the_two_fixed_places() {
    let mut nodes = vec![Node::new(s(5.0), s(6.0)), Node::new(s(50.0), s(60.0)), Node::new(s(5.0), s(6.0))];
    let found = Node::collision_check(&mut nodes, 0, 2, s(0.0), s(40.0), v(f32::NAN, f32::NAN), v(f32::NAN, f32::NAN));
    assert_eq!(found, Some(Contact::Coincident));
    assert_eq!(nodes[0].pos, v(100.0, 100.0));
    assert_eq!(nodes[0].old_pos, v(5.0, 6.0));
    assert_eq!(nodes[2].pos, v(200.0, 200.0));
    assert_eq!(nodes[2].old_pos, v(5.0, 6.0));
    assert_eq!(nodes[1], Node::new(s(50.0), s(60.0)));
    assert!(nodes[0].pos.is_finite() && nodes[2].pos.is_finite());
    assert!(nodes[0].update(v(101.0, 101.0)));
    assert!(nodes[2].update(v(201.0, 201.0)));
}

#[test]
fn overlapping_particles_are_set_down_where_they_touch() {
    let mut nodes = vec![Node::new(s(0.0), s(0.0)), Node::new(s(30.0), s(0.0))];
    let found = Node::collision_check(&mut nodes, 0, 1, s(30.0), s(40.0), v(-5.0, 0.0), v(35.0, 0.0));
    assert_eq!(found, Some(Contact::Overlap));
    assert_eq!(nodes[0].pos, v(-5.0, 0.0));
    assert_eq!(nodes[0].old_pos, v(0.0, 0.0));
    assert_eq!(nodes[1].pos, v(35.0, 0.0));
    assert_eq!(nodes[1].old_pos, v(30.0, 0.0));
}

#[test]
fn separated_particles_are_left_alone() {
    let mut nodes = vec![Node::new(s(0.0), s(0.0)), Node::new(s(41.0), s(0.0))];
    let before = nodes.clone();
    let found = Node::collision_check(&mut nodes, 0, 1, s(41.0), s(40.0), v(-5.0, 0.0), v(35.0, 0.0));
    assert_eq!(found, Some(Contact::Apart));
    assert_eq!(nodes, before);
}

#[test]
fn the_resolver_moves_no_anchored_or_frozen_particle() {
    let mut nodes = vec![Node::new(s(0.0), s(0.0)), Node::new(s(30.0), s(0.0)), Node::new(s(0.0), s(0.0))];
    nodes[0].anchor = true;
    nodes[2].dont_update = true;
    let anchored = nodes[0];
    let frozen = nodes[2];
    Node::collision_check(&mut nodes, 0, 1, s(30.0), s(40.0), v(-5.0, 0.0), v(40.0, 0.0));
    assert_eq!(nodes[0], anchored);
    assert_eq!(nodes[1].pos, v(40.0, 0.0));
    Node::collision_check(&mut nodes, 0, 2, s(0.0), s(40.0), v(1.0, 1.0), v(2.0, 2.0));
    assert_eq!(nodes[0], anchored);
    assert_eq!(nodes[2], frozen);
    Node::collision_check(&mut nodes, 2, 1, s(0.0), s(40.0), v(1.0, 1.0), v(2.0, 2.0));
    assert_eq!(nodes[2], frozen);
    assert_eq!(nodes[1].pos, v(200.0, 200.0));
    assert_eq!(nodes[1].old_pos, v(40.0, 0.0));
}

#[test]
fn a_pair_of_one_particle_or_with_a_stale_index_is_passed_over() {
    let mut nodes = vec![Node::new(s(0.0), s(0.0)), Node::new(s(30.0), s(0.0))];
    let before = nodes.clone();
    assert_eq!(Node::collision_check(&mut nodes, 1, 1, s(0.0), s(40.0), v(1.0, 1.0), v(2.0, 2.0)), None);
    assert_eq!(Node::collision_check(&mut nodes, 0, 2, s(0.0), s(40.0), v(1.0, 1.0), v(2.0, 2.0)), None);
    assert_eq!(Node::collision_check(&mut nodes, 7, 0, s(3.0), s(40.0), v(1.0, 1.0), v(2.0, 2.0)), None);
    assert_eq!(Node::collision_check(&mut nodes, usize::MAX, usize::MAX, s(3.0), s(40.0), v(1.0, 1.0), v(2.0, 2.0)), None);
    assert_eq!(nodes, before);
}

#[test]
fn the_fill_colour_keeps_green_and_blue_above_three_tenths() {
    let mut n = Node::new(s(0.0), s(0.0));
    n.colour = (s(0.1), s(0.1), s(0.9));
    let c = n.fill_colour();
    assert_eq!((f(c.0), f(c.1), f(c.2)), (0.1, 0.3, 0.9));
    n.colour = (s(0.0), s(0.3), s(f32::NAN));
    let d = n.fill_colour();
    assert_eq!((f(d.0), f(d.1), f(d.2)), (0.0, 0.3, 0.3));
}
