//! End-to-end tests of the preparation step: defaulting, pose precedence,
//! the epsilon floor, delta aggregation, bounding-volume maintenance and
//! idempotence, on concrete fixed-point values.

use physics_prepare::fxp::{FX_EPSILON, FX_SCALE};
use physics_prepare::geom::{Rot2, Vec2};
use physics_prepare::shape::Shape;
use physics_prepare::step::prepare_step;
use physics_prepare::world::World;

const DT: i64 = 10_000; // 0.01 s

#[test]
fn new_body_defaults_to_origin_and_identity() {
    let mut w = World::new();
    let id = w.spawn();
    w.spawn_body(id);
    prepare_step(&mut w, DT);
    let e = &w.entities[id];
    assert_eq!(e.pos, Some(Vec2 { x: 0, y: 0 }));
    assert_eq!(e.rot, Some(Rot2 { c: FX_SCALE, s: 0 }));
    assert_eq!(e.prev_pos, e.pos);
    assert_eq!(e.prev_rot, e.rot);
    assert!(e.transform.is_none());
}

#[test]
fn new_body_fills_all_kinematic_fields() {
    let mut w = World::new();
    let id = w.spawn();
    w.spawn_body(id);
    prepare_step(&mut w, DT);
    let e = &w.entities[id];
    assert_eq!(e.lin_vel, Some(Vec2 { x: 0, y: 0 }));
    assert_eq!(e.ang_vel, Some(0));
    assert_eq!(e.pre_solve_lin_vel, Some(Vec2 { x: 0, y: 0 }));
    assert_eq!(e.pre_solve_ang_vel, Some(0));
    assert_eq!(e.force, Some(Vec2 { x: 0, y: 0 }));
    assert_eq!(e.torque, Some(0));
    assert_eq!(e.restitution, Some(300_000));
    assert_eq!(e.friction, Some(300_000));
    assert_eq!(e.time_sleeping, Some(0));
    assert_eq!(e.local_com, Some(Vec2 { x: 0, y: 0 }));
}

#[test]
fn authored_position_is_mirrored_into_transform() {
    let mut w = World::new();
    let id = w.spawn();
    w.spawn_body(id);
    let p = Vec2 { x: 3_000_000, y: -2_000_000 };
    w.set_pos(id, p);
    prepare_step(&mut w, DT);
    let e = &w.entities[id];
    assert_eq!(e.pos, Some(p));
    assert_eq!(e.prev_pos, Some(p));
    let t = e.transform.unwrap();
    assert_eq!(t.translation, p);
    assert_eq!(t.rotation, Rot2 { c: FX_SCALE, s: 0 });
}

#[test]
fn transform_is_pose_source_when_nothing_authored() {
    let mut w = World::new();
    let id = w.spawn();
    w.spawn_body(id);
    let p = Vec2 { x: 1_500_000, y: 2_500_000 };
    w.set_transform(
        id,
        physics_prepare::geom::Transform2 { translation: p, rotation: Rot2 { c: 0, s: FX_SCALE } },
    );
    prepare_step(&mut w, DT);
    let e = &w.entities[id];
    assert_eq!(e.pos, Some(p));
    assert_eq!(e.prev_pos, Some(p));
    assert_eq!(e.rot, Some(Rot2 { c: 0, s: FX_SCALE }));
    // the transform is the source, not a mirror: it stays untouched
    assert_eq!(e.transform.unwrap().translation, p);
}

#[test]
fn authored_zero_mass_is_clamped_to_epsilon_with_finite_inverse() {
    let mut w = World::new();
    let id = w.spawn();
    w.spawn_body(id);
    w.set_mass(id, 0);
    prepare_step(&mut w, DT);
    let e = &w.entities[id];
    assert_eq!(e.mass, Some(FX_EPSILON));
    // 1 / epsilon, finite and exact in fixed point
    assert_eq!(e.inv_mass, Some(1_000_000_000_000));
}

#[test]
fn dual_default_mass_and_inverse() {
    // Both mass and inverse mass absent: the inverse is derived from the
    // pre-defaulting snapshot (absent, so the epsilon-floored inverse of
    // zero), not from the just-inserted default; the clamp then raises the
    // defaulted mass itself to the floor.
    let mut w = World::new();
    let id = w.spawn();
    w.spawn_body(id);
    prepare_step(&mut w, DT);
    let e = &w.entities[id];
    assert_eq!(e.mass, Some(FX_EPSILON));
    assert_eq!(e.inv_mass, Some(1_000_000_000_000));
    assert_eq!(e.inertia, Some(0));
    assert_eq!(e.inv_inertia, Some(1_000_000_000_000));
}

#[test]
fn authored_mass_recomputes_inverse() {
    let mut w = World::new();
    let id = w.spawn();
    w.spawn_body(id);
    w.set_mass(id, 5_000_000); // 5 units
    w.set_inv_mass(id, 999); // stale authored inverse, overwritten
    prepare_step(&mut w, DT);
    let e = &w.entities[id];
    assert_eq!(e.mass, Some(5_000_000));
    assert_eq!(e.inv_mass, Some(200_000)); // exactly 1/5
}

#[test]
fn collider_contribution_is_added_once() {
    let mut w = World::new();
    let id = w.spawn();
    w.spawn_body(id);
    w.set_mass(id, 5_000_000);
    // a 1x1 unit rectangle at unit density contributes mass 1
    w.attach_shape(id, Shape { half_x: 500_000, half_y: 500_000 });
    prepare_step(&mut w, DT);
    let e = &w.entities[id];
    assert_eq!(e.mass, Some(6_000_000));
    assert_eq!(e.inv_mass, Some(200_000)); // from the authored 5, step one
    let c = e.collider_props.unwrap();
    assert_eq!(c.mass, 1_000_000);
    assert_eq!(c.density, FX_SCALE);
    assert_eq!(e.prev_collider_props, e.collider_props);
}

#[test]
fn shape_change_applies_delta_not_resum() {
    let mut w = World::new();
    let id = w.spawn();
    w.spawn_body(id);
    w.set_mass(id, 5_000_000);
    w.attach_shape(id, Shape { half_x: 500_000, half_y: 500_000 }); // contributes 1
    prepare_step(&mut w, DT);
    assert_eq!(w.entities[id].mass, Some(6_000_000));
    // author a new baseline mass and a bigger shape (contributes 4)
    w.set_mass(id, 7_000_000);
    w.set_shape(id, Shape { half_x: 1_000_000, half_y: 1_000_000 });
    prepare_step(&mut w, DT);
    let e = &w.entities[id];
    // delta: 7 - 1 + 4 = 10; a full re-sum would have produced 11
    assert_eq!(e.mass, Some(10_000_000));
    assert_eq!(e.inv_mass, Some(142_857)); // floor(1/7)
    assert_eq!(e.prev_collider_props.unwrap().mass, 4_000_000);
}

#[test]
fn attachment_order_does_not_matter() {
    // body and shape in the same step
    let mut w1 = World::new();
    let a = w1.spawn();
    w1.spawn_body(a);
    w1.attach_shape(a, Shape { half_x: 500_000, half_y: 500_000 });
    prepare_step(&mut w1, DT);
    // shape first, body one step later
    let mut w2 = World::new();
    let b = w2.spawn();
    w2.attach_shape(b, Shape { half_x: 500_000, half_y: 500_000 });
    prepare_step(&mut w2, DT);
    w2.spawn_body(b);
    prepare_step(&mut w2, DT);
    assert_eq!(w1.entities[a].mass, w2.entities[b].mass);
    assert_eq!(w1.entities[a].mass, Some(1_000_000));
    assert_eq!(w1.entities[a].inv_mass, w2.entities[b].inv_mass);
    assert_eq!(w1.entities[a].prev_collider_props, w2.entities[b].prev_collider_props);
}

#[test]
fn margin_scenario_ten_units_per_second() {
    // dt 0.01 s, linear speed 10 units/s, no spin:
    // margin = 2 * 0.01 * 10 = 0.2 units on every half-extent axis
    let mut w = World::new();
    let id = w.spawn();
    w.spawn_body(id);
    w.attach_shape(id, Shape { half_x: 500_000, half_y: 500_000 });
    w.set_lin_vel(id, Vec2 { x: 10_000_000, y: 0 });
    prepare_step(&mut w, DT);
    let aabb = w.entities[id].aabb.unwrap();
    assert_eq!(aabb.min, Vec2 { x: -700_000, y: -700_000 });
    assert_eq!(aabb.max, Vec2 { x: 700_000, y: 700_000 });
}

#[test]
fn zero_speed_gives_bare_bounds() {
    let mut w = World::new();
    let id = w.spawn();
    w.spawn_body(id);
    w.set_pos(id, Vec2 { x: 2_000_000, y: 1_000_000 });
    w.attach_shape(id, Shape { half_x: 500_000, half_y: 500_000 });
    prepare_step(&mut w, DT);
    let aabb = w.entities[id].aabb.unwrap();
    assert_eq!(aabb.min, Vec2 { x: 1_500_000, y: 500_000 });
    assert_eq!(aabb.max, Vec2 { x: 2_500_000, y: 1_500_000 });
}

#[test]
fn margin_is_monotone_in_speed() {
    let speeds: [i64; 3] = [0, 5_000_000, 10_000_000];
    let mut last_max_x: i64 = i64::MIN;
    let mut idx: usize = 0;
    while idx < speeds.len() {
        let mut w = World::new();
        let id = w.spawn();
        w.spawn_body(id);
        w.attach_shape(id, Shape { half_x: 500_000, half_y: 500_000 });
        w.set_lin_vel(id, Vec2 { x: speeds[idx], y: 0 });
        prepare_step(&mut w, DT);
        let max_x = w.entities[id].aabb.unwrap().max.x;
        assert!(max_x >= last_max_x);
        last_max_x = max_x;
        idx += 1;
    }
    assert_eq!(last_max_x, 700_000);
}

#[test]
fn rotated_shape_swaps_world_extents() {
    let mut w = World::new();
    let id = w.spawn();
    w.spawn_body(id);
    w.set_rot(id, Rot2 { c: 0, s: FX_SCALE }); // a quarter turn
    w.attach_shape(id, Shape { half_x: 500_000, half_y: 250_000 });
    prepare_step(&mut w, DT);
    let aabb = w.entities[id].aabb.unwrap();
    assert_eq!(aabb.min, Vec2 { x: -250_000, y: -500_000 });
    assert_eq!(aabb.max, Vec2 { x: 250_000, y: 500_000 });
}

#[test]
fn second_step_without_changes_is_identity() {
    let mut w = World::new();
    let id = w.spawn();
    w.spawn_body(id);
    w.set_pos(id, Vec2 { x: 1_000_000, y: 0 });
    w.set_lin_vel(id, Vec2 { x: 2_000_000, y: 0 });
    w.attach_shape(id, Shape { half_x: 500_000, half_y: 500_000 });
    prepare_step(&mut w, DT);
    let snapshot = w.entities[id];
    prepare_step(&mut w, DT);
    // bit-identical: the change filters kept every pass from firing
    assert_eq!(w.entities[id], snapshot);
}

#[test]
fn initial_collider_bounds_come_from_local_extents() {
    // a bare collider with no body: the defaulting pass gives it bounds
    // from the shape's own extents and unit-density mass properties
    let mut w = World::new();
    let id = w.spawn();
    w.attach_shape(id, Shape { half_x: 300_000, half_y: 400_000 });
    prepare_step(&mut w, DT);
    let e = &w.entities[id];
    let aabb = e.aabb.unwrap();
    assert_eq!(aabb.min, Vec2 { x: -300_000, y: -400_000 });
    assert_eq!(aabb.max, Vec2 { x: 300_000, y: 400_000 });
    let c = e.collider_props.unwrap();
    // area = 0.6 x 0.8 = 0.48, density 1
    assert_eq!(c.mass, 480_000);
}
