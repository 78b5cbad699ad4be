//! The library's guarantees, stated and proved once and for all: pose
//! defaulting and mirroring, the epsilon floor on aggregate mass, step
//! idempotence, delta-based aggregation, and margin monotonicity.

use vstd::prelude::*;
use crate::fxp::{
    FX_EPSILON, MAX_INV, fmul, lemma_fmul_bound, lemma_fmul_mono, lemma_recip_floor_bounds,
    lemma_sqrt_floor_unique, recip_floor,
};
use crate::geom::{Vec2, rot2_identity, vec2_zero};
use crate::shape::{Shape, contrib_of, lemma_contrib_bounds, wf_shape};
use crate::passes::{
    aabb_at, aabb_gate, has_collider, margin_of, mass_gate, prepare_entity, t_aabb, t_body,
    t_clear, t_collider, t_mass, t_massprops,
};
use crate::world::{Ent, wf_entity};

verus! {

/// No pass fired and nothing was marked: the step has no dirty bit to react
/// to.
pub open spec fn flags_clear(e: Ent) -> bool {
    &&& !e.added_body
    &&& !e.added_shape
    &&& !e.changed_pos
    &&& !e.changed_rot
    &&& !e.changed_lin_vel
    &&& !e.changed_ang_vel
    &&& !e.changed_mass
    &&& !e.changed_inv_mass
    &&& !e.changed_inertia
    &&& !e.changed_inv_inertia
    &&& !e.changed_shape
    &&& !e.changed_collider_props
}

/// A newly created body with no authored pose and no transform ends the
/// step at the origin with the identity orientation, and both previous-step
/// snapshots equal the current values.
#[verifier::rlimit(100)]
pub proof fn lemma_default_pose_origin(e: Ent, dt: i64)
    requires
        wf_entity(e),
        e.added_body,
        e.pos is None,
        e.rot is None,
        e.transform is None,
    ensures
        prepare_entity(e, dt).pos == Some(vec2_zero()),
        prepare_entity(e, dt).rot == Some(rot2_identity()),
        prepare_entity(e, dt).prev_pos == prepare_entity(e, dt).pos,
        prepare_entity(e, dt).prev_rot == prepare_entity(e, dt).rot,
{
}

/// A body with an authored position and no transform has the transform
/// mirror that position after defaulting, and the previous-position
/// snapshot seeded to it.
#[verifier::rlimit(100)]
pub proof fn lemma_authored_pos_mirrored(e: Ent, dt: i64)
    requires
        wf_entity(e),
        e.added_body,
        e.pos is Some,
        e.transform is None,
    ensures
        prepare_entity(e, dt).transform is Some,
        prepare_entity(e, dt).transform.unwrap().translation == e.pos.unwrap(),
        prepare_entity(e, dt).prev_pos == e.pos,
        prepare_entity(e, dt).pos == e.pos,
{
}

/// The epsilon floor: whenever mass aggregation fires, the resulting mass
/// and inverse mass are at least the epsilon floor — never zero, negative
/// or unbounded.
#[verifier::rlimit(100)]
pub proof fn lemma_mass_floor(e: Ent)
    requires
        wf_entity(e),
        mass_gate(e),
    ensures
        t_massprops(e).mass is Some,
        t_massprops(e).inv_mass is Some,
        t_massprops(e).mass.unwrap() >= FX_EPSILON,
        t_massprops(e).inv_mass.unwrap() >= FX_EPSILON,
{
    lemma_recip_floor_bounds(e.mass.unwrap() as int);
    if has_collider(e) {
        lemma_contrib_bounds(e.shape.unwrap(), e.collider_props.unwrap().density);
    }
}

/// Every newly created body leaves its first step with mass and inverse
/// mass at or above the epsilon floor.
#[verifier::rlimit(100)]
pub proof fn lemma_new_body_mass_floor(e: Ent, dt: i64)
    requires
        wf_entity(e),
        e.added_body,
        // a field authored at creation carries its creation dirty bit
        e.mass is Some ==> e.changed_mass,
        e.inv_mass is Some ==> e.changed_inv_mass,
        e.inertia is Some ==> e.changed_inertia,
        e.inv_inertia is Some ==> e.changed_inv_inertia,
    ensures
        prepare_entity(e, dt).mass is Some,
        prepare_entity(e, dt).inv_mass is Some,
        prepare_entity(e, dt).mass.unwrap() >= FX_EPSILON,
        prepare_entity(e, dt).inv_mass.unwrap() >= FX_EPSILON,
{
    let e3 = t_collider(t_mass(t_body(e)));
    let e4 = t_aabb(e3, dt);
    crate::passes::lemma_t_body_wf(e);
    crate::passes::lemma_t_mass_wf(t_body(e));
    crate::passes::lemma_t_collider_wf(t_mass(t_body(e)));
    crate::passes::lemma_t_aabb_wf(e3, dt);
    assert(mass_gate(e4));
    lemma_mass_floor(e4);
}

/// Mass authored at or above the epsilon floor is authoritative: when the
/// maintenance pass sees it changed and no collider contributes, the mass
/// is kept and the inverse mass is recomputed as its exact epsilon-floored
/// fixed-point inverse.
#[verifier::rlimit(100)]
pub proof fn lemma_authored_mass_inverse(e: Ent)
    requires
        wf_entity(e),
        mass_gate(e),
        e.changed_mass,
        e.mass.unwrap() >= FX_EPSILON,
        // within the invertible range: above it the inverse would itself be
        // clamped up to the epsilon floor
        e.mass.unwrap() <= MAX_INV,
        !has_collider(e),
    ensures
        t_massprops(e).mass == e.mass,
        t_massprops(e).inv_mass == Some(recip_floor(e.mass.unwrap() as int) as i64),
{
    lemma_recip_floor_bounds(e.mass.unwrap() as int);
    vstd::arithmetic::div_mod::lemma_div_non_zero(1_000_000_000_000, e.mass.unwrap() as int);
    assert((crate::fxp::FX_SCALE as int) * (crate::fxp::FX_SCALE as int) == 1_000_000_000_000)
        by (nonlinear_arith);
}

/// An entity with no dirty bits is left untouched by the whole step: the
/// change filters make a quiet step free.
#[verifier::rlimit(100)]
pub proof fn lemma_step_identity_when_clean(e: Ent, dt: i64)
    requires
        flags_clear(e),
    ensures
        prepare_entity(e, dt) == e,
{
    assert(t_body(e) == e);
    assert(t_mass(e) == e);
    assert(t_collider(e) == e);
    assert(t_aabb(e, dt) == e);
    assert(t_massprops(e) == e);
    assert(t_clear(e) =~= e);
}

/// Idempotence: a step ends with every dirty bit cleared, so running the
/// step again — bounding-volume maintenance included — changes nothing;
/// in particular the bounds of the second run are identical to the first.
pub proof fn lemma_prepare_idempotent(e: Ent, dt: i64, dt2: i64)
    ensures
        prepare_entity(prepare_entity(e, dt), dt2) == prepare_entity(e, dt),
{
    assert(flags_clear(prepare_entity(e, dt)));
    lemma_step_identity_when_clean(prepare_entity(e, dt), dt2);
}

/// Delta correctness: starting from a steady state whose snapshot already
/// equals the current shape's contribution, changing the shape so that its
/// mass contribution goes from m1 to m2 moves the aggregate mass across the
/// two steps to exactly (aggregate before) − m1 + m2 — no re-sum, and the
/// snapshot ends at the fresh contribution.
#[verifier::rlimit(100)]
pub proof fn lemma_delta_aggregation(e: Ent, s2: Shape, dt: i64)
    requires
        wf_entity(e),
        mass_gate(e),
        has_collider(e),
        wf_shape(s2),
        !e.changed_mass,
        // steady state: the snapshot is the current shape's contribution
        e.prev_collider_props == Some(
            contrib_of(e.shape.unwrap(), e.collider_props.unwrap().density),
        ),
        // the clamp does not intrude in either step
        e.mass.unwrap() >= FX_EPSILON,
        e.mass.unwrap() - contrib_of(e.shape.unwrap(), e.collider_props.unwrap().density).mass
            + contrib_of(s2, e.collider_props.unwrap().density).mass >= FX_EPSILON,
        !e.added_body,
        !e.added_shape,
    ensures
        ({
            // step one: maintenance fires, contribution still m1
            let r1 = t_clear(t_massprops(e));
            // between the steps the host swaps the shape in
            let e2 = Ent { shape: Some(s2), changed_shape: true, ..r1 };
            let r2 = t_massprops(e2);
            let d = e.collider_props.unwrap().density;
            let m1 = contrib_of(e.shape.unwrap(), d).mass;
            let m2 = contrib_of(s2, d).mass;
            // after step one the aggregate is unchanged; after step two it
            // has moved by exactly m2 - m1
            r1.mass == e.mass && r2.mass == Some((e.mass.unwrap() - m1 + m2) as i64)
                && r2.prev_collider_props == Some(contrib_of(s2, d))
        }),
{
    let d = e.collider_props.unwrap().density;
    lemma_contrib_bounds(e.shape.unwrap(), d);
    lemma_contrib_bounds(s2, d);
    let r1 = t_clear(t_massprops(e));
    assert(r1.mass == e.mass);
    assert(r1.collider_props == Some(contrib_of(e.shape.unwrap(), d)));
    let e2 = Ent { shape: Some(s2), changed_shape: true, ..r1 };
    assert(mass_gate(e2) && has_collider(e2));
    assert(e2.collider_props.unwrap().density == d);
}

/// Margin monotonicity: for a fixed non-negative step duration, the safety
/// margin is non-decreasing in the combined speed, never negative, and
/// exactly zero at zero speed.
pub proof fn lemma_margin_monotone(dt: int, s1: int, s2: int)
    requires
        0 <= dt,
        0 <= s1 <= s2,
    ensures
        margin_of(dt, s1) <= margin_of(dt, s2),
        0 <= margin_of(dt, s1),
        margin_of(dt, 0) == 0,
{
    lemma_fmul_mono(2 * dt, s1, s2);
    lemma_fmul_bound(2 * dt, s1, 2 * dt, s1);
    assert(fmul(2 * dt, 0) == 0);
}

/// At zero speed the margin vanishes and the maintained bounds degrade to
/// the shape's bare pose-dependent extents about the body's position.
#[verifier::rlimit(100)]
pub proof fn lemma_zero_speed_bare_bounds(e: Ent, dt: i64)
    requires
        wf_entity(e),
        aabb_gate(e),
        e.lin_vel == Some(vec2_zero()),
        e.ang_vel == Some(0i64),
        0 <= dt,
    ensures
        t_aabb(e, dt).aabb == Some(aabb_at(e.shape.unwrap(), e.pos.unwrap(), e.rot.unwrap(), 0)),
{
    lemma_sqrt_floor_unique(0, 0);
    assert(fmul(2 * (dt as int), 0) == 0);
}

} // verus!
