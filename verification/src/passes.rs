//! The per-entity preparation passes, each given first as a mathematical
//! transition on the entity record and then as a verified executable that
//! implements that transition exactly.
//!
//! Tier one (defaulting) fills absent fields of newly created bodies and
//! newly attached collider shapes; tier two (maintenance) incrementally
//! refreshes the collider's world-space bounds and the body's aggregate mass
//! properties, gated on the dirty bits so an unchanged entity is left
//! untouched.

use vstd::prelude::*;
use crate::fxp::{
    FX_EPSILON, FX_SCALE, MAX_AUTHORED, MAX_EXTENT, fmul, fx_abs, fx_isqrt, fx_mul, fx_recip,
    lemma_fmul_bound, lemma_recip_floor_bounds, lemma_sqrt_floor_le, recip_floor, sabs,
    sqrt_floor,
};
use crate::geom::{Aabb, Rot2, Transform2, Vec2, rot2_identity, vec2_zero};
use crate::shape::{
    MassContribution, Shape, contrib_of, contrib_zero, lemma_contrib_bounds, mass_contribution_of,
};
use crate::world::{Ent, wf_entity};

verus! {

/// Restitution coefficient given to a body that authored none.
pub const DEFAULT_RESTITUTION: i64 = 300_000;

/// Friction coefficient given to a body that authored none.
pub const DEFAULT_FRICTION: i64 = 300_000;

/// The position a new body ends up with: the authored physical position if
/// there is one, else the generic transform's translation, else the origin.
pub open spec fn pos_final(e: Ent) -> Vec2 {
    if e.pos is Some {
        e.pos.unwrap()
    } else if e.transform is Some {
        e.transform.unwrap().translation
    } else {
        vec2_zero()
    }
}

/// The orientation a new body ends up with, by the same precedence.
pub open spec fn rot_final(e: Ent) -> Rot2 {
    if e.rot is Some {
        e.rot.unwrap()
    } else if e.transform is Some {
        e.transform.unwrap().rotation
    } else {
        rot2_identity()
    }
}

/// Body defaulting: for a newly created body, settle the pose precedence,
/// seed the previous-step snapshots, and fill every absent kinematic and
/// material field. Authored fields are never replaced; when the physical
/// pose is authored the generic transform is overwritten to mirror it.
pub open spec fn t_body(e: Ent) -> Ent {
    if !e.added_body {
        e
    } else {
        let p = pos_final(e);
        let r = rot_final(e);
        Ent {
            pos: Some(p),
            rot: Some(r),
            prev_pos: Some(p),
            prev_rot: Some(r),
            transform: if e.pos is Some || e.rot is Some {
                Some(Transform2 { translation: p, rotation: r })
            } else {
                e.transform
            },
            lin_vel: if e.lin_vel is Some {
                e.lin_vel
            } else {
                Some(vec2_zero())
            },
            ang_vel: if e.ang_vel is Some {
                e.ang_vel
            } else {
                Some(0)
            },
            pre_solve_lin_vel: if e.pre_solve_lin_vel is Some {
                e.pre_solve_lin_vel
            } else {
                Some(vec2_zero())
            },
            pre_solve_ang_vel: if e.pre_solve_ang_vel is Some {
                e.pre_solve_ang_vel
            } else {
                Some(0)
            },
            force: if e.force is Some {
                e.force
            } else {
                Some(vec2_zero())
            },
            torque: if e.torque is Some {
                e.torque
            } else {
                Some(0)
            },
            restitution: if e.restitution is Some {
                e.restitution
            } else {
                Some(DEFAULT_RESTITUTION)
            },
            friction: if e.friction is Some {
                e.friction
            } else {
                Some(DEFAULT_FRICTION)
            },
            time_sleeping: if e.time_sleeping is Some {
                e.time_sleeping
            } else {
                Some(0)
            },
            changed_pos: e.changed_pos || e.pos is None,
            changed_rot: e.changed_rot || e.rot is None,
            changed_lin_vel: e.changed_lin_vel || e.lin_vel is None,
            changed_ang_vel: e.changed_ang_vel || e.ang_vel is None,
            ..e
        }
    }
}

/// Mass defaulting: for an entity that is a new body or just gained a
/// collider shape, fill absent mass fields. Both inverses are derived from
/// the pass's initial snapshot of mass and inertia, not from the defaults
/// just inserted, and a missing mass also resets the inverse mass.
pub open spec fn t_mass(e: Ent) -> Ent {
    if !(e.added_body || e.added_shape) {
        e
    } else {
        Ent {
            mass: if e.mass is Some {
                e.mass
            } else {
                Some(0)
            },
            inv_mass: if e.inv_mass is None {
                Some(recip_floor(e.mass.unwrap_or(0) as int) as i64)
            } else if e.mass is None {
                Some(0)
            } else {
                e.inv_mass
            },
            inertia: if e.inertia is Some {
                e.inertia
            } else {
                Some(0)
            },
            inv_inertia: if e.inv_inertia is None {
                Some(recip_floor(e.inertia.unwrap_or(0) as int) as i64)
            } else if e.inertia is None {
                Some(0)
            } else {
                e.inv_inertia
            },
            local_com: if e.local_com is Some {
                e.local_com
            } else {
                Some(vec2_zero())
            },
            changed_mass: e.changed_mass || e.mass is None,
            changed_inv_mass: e.changed_inv_mass || e.inv_mass is None || e.mass is None,
            changed_inertia: e.changed_inertia || e.inertia is None,
            changed_inv_inertia: e.changed_inv_inertia || e.inv_inertia is None || e.inertia
                is None,
            ..e
        }
    }
}

/// Collider defaulting: a newly attached shape gets, where absent, a
/// bounding box from its own local extents, mass properties at unit
/// density, and the neutral previous-step snapshot, so the first
/// aggregation adds the full contribution without subtracting a phantom
/// prior one.
pub open spec fn t_collider(e: Ent) -> Ent {
    if !(e.added_shape && e.shape is Some) {
        e
    } else {
        let s = e.shape.unwrap();
        Ent {
            aabb: if e.aabb is Some {
                e.aabb
            } else {
                Some(
                    Aabb {
                        min: Vec2 {
                            x: (-(s.half_x as int)) as i64,
                            y: (-(s.half_y as int)) as i64,
                        },
                        max: Vec2 { x: s.half_x, y: s.half_y },
                    },
                )
            },
            collider_props: if e.collider_props is Some {
                e.collider_props
            } else {
                Some(contrib_of(s, FX_SCALE))
            },
            prev_collider_props: if e.prev_collider_props is Some {
                e.prev_collider_props
            } else {
                Some(contrib_zero())
            },
            changed_collider_props: e.changed_collider_props || e.collider_props is None,
            ..e
        }
    }
}

/// Whether bounding-volume maintenance fires for the entity this step.
pub open spec fn aabb_gate(e: Ent) -> bool {
    &&& e.changed_pos || e.changed_rot || e.changed_lin_vel || e.changed_ang_vel
    &&& e.shape is Some
    &&& e.aabb is Some
    &&& e.pos is Some
    &&& e.rot is Some
}

/// The linear speed of a velocity vector: the rounded-down length.
pub open spec fn lin_speed(v: Vec2) -> int {
    sqrt_floor(v.x * v.x + v.y * v.y)
}

/// Linear speed plus angular speed magnitude.
pub open spec fn combined_speed(e: Ent) -> int {
    (if e.lin_vel is Some {
        lin_speed(e.lin_vel.unwrap())
    } else {
        0
    }) + (if e.ang_vel is Some {
        sabs(e.ang_vel.unwrap() as int)
    } else {
        0
    })
}

/// The safety margin: twice the step duration times the combined speed, so
/// the box stays conservative for the whole upcoming step even under sudden
/// acceleration.
pub open spec fn margin_of(dt: int, speed: int) -> int {
    fmul(2 * dt, speed)
}

/// The rectangle's world-space half-extent along x at the given rotation.
pub open spec fn world_half_x(s: Shape, r: Rot2) -> int {
    fmul(s.half_x as int, sabs(r.c as int)) + fmul(s.half_y as int, sabs(r.s as int))
}

/// The rectangle's world-space half-extent along y at the given rotation.
pub open spec fn world_half_y(s: Shape, r: Rot2) -> int {
    fmul(s.half_x as int, sabs(r.s as int)) + fmul(s.half_y as int, sabs(r.c as int))
}

/// The bounds written by the maintenance pass: the pose-dependent
/// half-extents inflated by the margin on every axis, centred on the body's
/// position.
pub open spec fn aabb_at(s: Shape, p: Vec2, r: Rot2, margin: int) -> Aabb {
    Aabb {
        min: Vec2 {
            x: (p.x - (world_half_x(s, r) + margin)) as i64,
            y: (p.y - (world_half_y(s, r) + margin)) as i64,
        },
        max: Vec2 {
            x: (p.x + (world_half_x(s, r) + margin)) as i64,
            y: (p.y + (world_half_y(s, r) + margin)) as i64,
        },
    }
}

/// Bounding-volume maintenance: when the pose or a velocity changed, the
/// collider's box is recomputed at the current pose and inflated by the
/// velocity-scaled margin; otherwise the entity is untouched.
pub open spec fn t_aabb(e: Ent, dt: i64) -> Ent {
    if !aabb_gate(e) {
        e
    } else {
        Ent {
            aabb: Some(
                aabb_at(
                    e.shape.unwrap(),
                    e.pos.unwrap(),
                    e.rot.unwrap(),
                    margin_of(dt as int, combined_speed(e)),
                ),
            ),
            ..e
        }
    }
}

/// Whether mass-aggregation maintenance fires for the entity this step.
pub open spec fn mass_gate(e: Ent) -> bool {
    &&& e.changed_mass || e.changed_inv_mass || e.changed_inertia || e.changed_inv_inertia
        || e.changed_shape || e.changed_collider_props
    &&& e.mass is Some
    &&& e.inv_mass is Some
    &&& e.inertia is Some
    &&& e.inv_inertia is Some
    &&& e.local_com is Some
}

/// Whether the entity carries a complete collider.
pub open spec fn has_collider(e: Ent) -> bool {
    e.shape is Some && e.collider_props is Some && e.prev_collider_props is Some
}

/// Mass-aggregation maintenance, in the load-bearing order: recompute the
/// inverse mass from an authored mass change; subtract the previous
/// snapshot; recompute the collider's contribution from its shape at its
/// configured density; overwrite the snapshot and add the fresh value; and
/// clamp mass and inverse mass to the epsilon floor.
pub open spec fn t_massprops(e: Ent) -> Ent {
    if !mass_gate(e) {
        e
    } else {
        let inv1: int = if e.changed_mass && e.mass.unwrap() >= FX_EPSILON {
            recip_floor(e.mass.unwrap() as int)
        } else {
            e.inv_mass.unwrap() as int
        };
        let prev = if has_collider(e) {
            e.prev_collider_props.unwrap()
        } else {
            contrib_zero()
        };
        let fresh = if has_collider(e) {
            contrib_of(e.shape.unwrap(), e.collider_props.unwrap().density)
        } else {
            contrib_zero()
        };
        let m3: int = e.mass.unwrap() - prev.mass + fresh.mass;
        let in3: int = e.inertia.unwrap() - prev.inertia + fresh.inertia;
        let cx: int = e.local_com.unwrap().x - prev.com.x + fresh.com.x;
        let cy: int = e.local_com.unwrap().y - prev.com.y + fresh.com.y;
        let m4: int = if m3 < FX_EPSILON {
            FX_EPSILON as int
        } else {
            m3
        };
        let inv4: int = if inv1 < FX_EPSILON {
            FX_EPSILON as int
        } else {
            inv1
        };
        Ent {
            mass: Some(m4 as i64),
            inv_mass: Some(inv4 as i64),
            inertia: Some(in3 as i64),
            local_com: Some(Vec2 { x: cx as i64, y: cy as i64 }),
            collider_props: if has_collider(e) {
                Some(fresh)
            } else {
                e.collider_props
            },
            prev_collider_props: if has_collider(e) {
                Some(fresh)
            } else {
                e.prev_collider_props
            },
            ..e
        }
    }
}

/// End of step: every dirty bit is cleared, so a steady-state entity costs
/// nothing next step.
pub open spec fn t_clear(e: Ent) -> Ent {
    Ent {
        added_body: false,
        added_shape: false,
        changed_pos: false,
        changed_rot: false,
        changed_lin_vel: false,
        changed_ang_vel: false,
        changed_mass: false,
        changed_inv_mass: false,
        changed_inertia: false,
        changed_inv_inertia: false,
        changed_shape: false,
        changed_collider_props: false,
        ..e
    }
}

/// One full preparation step for one entity: the three defaulting passes,
/// then bounding-volume maintenance, then mass aggregation, then the dirty
/// bits are cleared.
pub open spec fn prepare_entity(e: Ent, dt: i64) -> Ent {
    t_clear(t_massprops(t_aabb(t_collider(t_mass(t_body(e))), dt)))
}

/// Body defaulting for one entity (see [`t_body`]).
#[verifier::rlimit(100)]
pub fn default_body(e: Ent) -> (r: Ent)
    requires
        wf_entity(e),
    ensures
        r == t_body(e),
{
    if !e.added_body {
        return e;
    }
    let p: Vec2 = match e.pos {
        Some(p0) => p0,
        None => match e.transform {
            Some(t) => t.translation,
            None => Vec2::zero(),
        },
    };
    let rr: Rot2 = match e.rot {
        Some(r0) => r0,
        None => match e.transform {
            Some(t) => t.rotation,
            None => Rot2::identity(),
        },
    };
    Ent {
        pos: Some(p),
        rot: Some(rr),
        prev_pos: Some(p),
        prev_rot: Some(rr),
        transform: if e.pos.is_some() || e.rot.is_some() {
            Some(Transform2 { translation: p, rotation: rr })
        } else {
            e.transform
        },
        lin_vel: if e.lin_vel.is_some() {
            e.lin_vel
        } else {
            Some(Vec2::zero())
        },
        ang_vel: if e.ang_vel.is_some() {
            e.ang_vel
        } else {
            Some(0)
        },
        pre_solve_lin_vel: if e.pre_solve_lin_vel.is_some() {
            e.pre_solve_lin_vel
        } else {
            Some(Vec2::zero())
        },
        pre_solve_ang_vel: if e.pre_solve_ang_vel.is_some() {
            e.pre_solve_ang_vel
        } else {
            Some(0)
        },
        force: if e.force.is_some() {
            e.force
        } else {
            Some(Vec2::zero())
        },
        torque: if e.torque.is_some() {
            e.torque
        } else {
            Some(0)
        },
        restitution: if e.restitution.is_some() {
            e.restitution
        } else {
            Some(DEFAULT_RESTITUTION)
        },
        friction: if e.friction.is_some() {
            e.friction
        } else {
            Some(DEFAULT_FRICTION)
        },
        time_sleeping: if e.time_sleeping.is_some() {
            e.time_sleeping
        } else {
            Some(0)
        },
        changed_pos: e.changed_pos || e.pos.is_none(),
        changed_rot: e.changed_rot || e.rot.is_none(),
        changed_lin_vel: e.changed_lin_vel || e.lin_vel.is_none(),
        changed_ang_vel: e.changed_ang_vel || e.ang_vel.is_none(),
        ..e
    }
}

/// Mass defaulting for one entity (see [`t_mass`]).
#[verifier::rlimit(100)]
pub fn default_mass_props(e: Ent) -> (r: Ent)
    requires
        wf_entity(e),
    ensures
        r == t_mass(e),
{
    if !(e.added_body || e.added_shape) {
        return e;
    }
    let m0: i64 = match e.mass {
        Some(m) => m,
        None => 0,
    };
    let i0: i64 = match e.inertia {
        Some(i) => i,
        None => 0,
    };
    Ent {
        mass: if e.mass.is_some() {
            e.mass
        } else {
            Some(0)
        },
        inv_mass: if e.inv_mass.is_none() {
            Some(fx_recip(m0))
        } else if e.mass.is_none() {
            Some(0)
        } else {
            e.inv_mass
        },
        inertia: if e.inertia.is_some() {
            e.inertia
        } else {
            Some(0)
        },
        inv_inertia: if e.inv_inertia.is_none() {
            Some(fx_recip(i0))
        } else if e.inertia.is_none() {
            Some(0)
        } else {
            e.inv_inertia
        },
        local_com: if e.local_com.is_some() {
            e.local_com
        } else {
            Some(Vec2::zero())
        },
        changed_mass: e.changed_mass || e.mass.is_none(),
        changed_inv_mass: e.changed_inv_mass || e.inv_mass.is_none() || e.mass.is_none(),
        changed_inertia: e.changed_inertia || e.inertia.is_none(),
        changed_inv_inertia: e.changed_inv_inertia || e.inv_inertia.is_none()
            || e.inertia.is_none(),
        ..e
    }
}

/// Collider defaulting for one entity (see [`t_collider`]).
#[verifier::rlimit(100)]
pub fn default_collider(e: Ent) -> (r: Ent)
    requires
        wf_entity(e),
    ensures
        r == t_collider(e),
{
    if !(e.added_shape && e.shape.is_some()) {
        return e;
    }
    let s: Shape = e.shape.unwrap();
    Ent {
        aabb: if e.aabb.is_some() {
            e.aabb
        } else {
            Some(
                Aabb {
                    min: Vec2 { x: -s.half_x, y: -s.half_y },
                    max: Vec2 { x: s.half_x, y: s.half_y },
                },
            )
        },
        collider_props: if e.collider_props.is_some() {
            e.collider_props
        } else {
            Some(mass_contribution_of(&s, FX_SCALE))
        },
        prev_collider_props: if e.prev_collider_props.is_some() {
            e.prev_collider_props
        } else {
            Some(MassContribution { mass: 0, inertia: 0, com: Vec2::zero(), density: 0 })
        },
        changed_collider_props: e.changed_collider_props || e.collider_props.is_none(),
        ..e
    }
}

/// Bounding-volume maintenance for one entity (see [`t_aabb`]).
#[verifier::rlimit(100)]
pub fn refresh_aabb(e: Ent, dt: i64) -> (r: Ent)
    requires
        wf_entity(e),
        0 <= dt <= MAX_AUTHORED,
    ensures
        r == t_aabb(e, dt),
{
    let fire: bool = (e.changed_pos || e.changed_rot || e.changed_lin_vel || e.changed_ang_vel)
        && e.shape.is_some() && e.aabb.is_some() && e.pos.is_some() && e.rot.is_some();
    if !fire {
        return e;
    }
    let s: Shape = e.shape.unwrap();
    let p: Vec2 = e.pos.unwrap();
    let rot: Rot2 = e.rot.unwrap();
    let lin_len: i64 = match e.lin_vel {
        Some(v) => {
            proof {
                assert(0 <= v.x * v.x <= 1_000_000_000_000_000_000 && 0 <= v.y * v.y
                    <= 1_000_000_000_000_000_000) by (nonlinear_arith)
                    requires
                        -MAX_AUTHORED <= v.x <= MAX_AUTHORED,
                        -MAX_AUTHORED <= v.y <= MAX_AUTHORED,
                ;
            }
            let xx: i64 = v.x * v.x;
            let yy: i64 = v.y * v.y;
            let sq: i64 = xx + yy;
            let len: u64 = fx_isqrt(sq as u64);
            proof {
                assert(2_000_000_000_000_000_000 < 1_414_213_563 * 1_414_213_563)
                    by (nonlinear_arith);
                lemma_sqrt_floor_le(sq as int, 1_414_213_562);
            }
            len as i64
        },
        None => 0,
    };
    let ang_len: i64 = match e.ang_vel {
        Some(a) => fx_abs(a),
        None => 0,
    };
    let speed: i64 = lin_len + ang_len;
    proof {
        lemma_fmul_bound(2 * dt as int, speed as int, 2_000_000_000, 2_414_213_562);
        assert(2_000_000_000int * 2_414_213_562 / (FX_SCALE as int) == 4_828_427_124_000)
            by (nonlinear_arith);
        lemma_fmul_bound(s.half_x as int, sabs(rot.c as int), MAX_EXTENT as int, FX_SCALE as int);
        lemma_fmul_bound(s.half_y as int, sabs(rot.s as int), MAX_EXTENT as int, FX_SCALE as int);
        lemma_fmul_bound(s.half_x as int, sabs(rot.s as int), MAX_EXTENT as int, FX_SCALE as int);
        lemma_fmul_bound(s.half_y as int, sabs(rot.c as int), MAX_EXTENT as int, FX_SCALE as int);
        assert((MAX_EXTENT as int) * (FX_SCALE as int) / (FX_SCALE as int) == 100_000_000int)
            by (nonlinear_arith);
    }
    let margin: i64 = fx_mul(2 * dt, speed);
    let he_x: i64 = fx_mul(s.half_x, fx_abs(rot.c)) + fx_mul(s.half_y, fx_abs(rot.s));
    let he_y: i64 = fx_mul(s.half_x, fx_abs(rot.s)) + fx_mul(s.half_y, fx_abs(rot.c));
    let ext_x: i64 = he_x + margin;
    let ext_y: i64 = he_y + margin;
    Ent {
        aabb: Some(
            Aabb {
                min: Vec2 { x: p.x - ext_x, y: p.y - ext_y },
                max: Vec2 { x: p.x + ext_x, y: p.y + ext_y },
            },
        ),
        ..e
    }
}

/// Mass-aggregation maintenance for one entity (see [`t_massprops`]).
#[verifier::rlimit(100)]
pub fn refresh_mass_props(e: Ent) -> (r: Ent)
    requires
        wf_entity(e),
    ensures
        r == t_massprops(e),
{
    let fire: bool = (e.changed_mass || e.changed_inv_mass || e.changed_inertia
        || e.changed_inv_inertia || e.changed_shape || e.changed_collider_props)
        && e.mass.is_some() && e.inv_mass.is_some() && e.inertia.is_some()
        && e.inv_inertia.is_some() && e.local_com.is_some();
    if !fire {
        return e;
    }
    let m: i64 = e.mass.unwrap();
    let inv1: i64 = if e.changed_mass && m >= FX_EPSILON {
        fx_recip(m)
    } else {
        e.inv_mass.unwrap()
    };
    let inv4: i64 = if inv1 < FX_EPSILON {
        FX_EPSILON
    } else {
        inv1
    };
    if e.shape.is_some() && e.collider_props.is_some() && e.prev_collider_props.is_some() {
        let s: Shape = e.shape.unwrap();
        let cp: MassContribution = e.collider_props.unwrap();
        let prev: MassContribution = e.prev_collider_props.unwrap();
        let fresh: MassContribution = mass_contribution_of(&s, cp.density);
        let m3: i64 = m - prev.mass + fresh.mass;
        let in3: i64 = e.inertia.unwrap() - prev.inertia + fresh.inertia;
        let c0: Vec2 = e.local_com.unwrap();
        let cx: i64 = c0.x - prev.com.x + fresh.com.x;
        let cy: i64 = c0.y - prev.com.y + fresh.com.y;
        let m4: i64 = if m3 < FX_EPSILON {
            FX_EPSILON
        } else {
            m3
        };
        Ent {
            mass: Some(m4),
            inv_mass: Some(inv4),
            inertia: Some(in3),
            local_com: Some(Vec2 { x: cx, y: cy }),
            collider_props: Some(fresh),
            prev_collider_props: Some(fresh),
            ..e
        }
    } else {
        let m4: i64 = if m < FX_EPSILON {
            FX_EPSILON
        } else {
            m
        };
        let c0: Vec2 = e.local_com.unwrap();
        let in0: i64 = e.inertia.unwrap();
        Ent {
            mass: Some(m4),
            inv_mass: Some(inv4),
            inertia: Some(in0),
            local_com: Some(Vec2 { x: c0.x, y: c0.y }),
            ..e
        }
    }
}

/// Clears every dirty bit at the end of the step (see [`t_clear`]).
#[verifier::rlimit(100)]
pub fn clear_step_flags(e: Ent) -> (r: Ent)
    ensures
        r == t_clear(e),
{
    Ent {
        added_body: false,
        added_shape: false,
        changed_pos: false,
        changed_rot: false,
        changed_lin_vel: false,
        changed_ang_vel: false,
        changed_mass: false,
        changed_inv_mass: false,
        changed_inertia: false,
        changed_inv_inertia: false,
        changed_shape: false,
        changed_collider_props: false,
        ..e
    }
}

/// Body defaulting preserves well-formedness.
#[verifier::rlimit(100)]
pub proof fn lemma_t_body_wf(e: Ent)
    requires
        wf_entity(e),
    ensures
        wf_entity(t_body(e)),
{
}

/// Mass defaulting preserves well-formedness.
#[verifier::rlimit(100)]
pub proof fn lemma_t_mass_wf(e: Ent)
    requires
        wf_entity(e),
    ensures
        wf_entity(t_mass(e)),
{
    lemma_recip_floor_bounds(e.mass.unwrap_or(0) as int);
    lemma_recip_floor_bounds(e.inertia.unwrap_or(0) as int);
}

/// Collider defaulting preserves well-formedness.
#[verifier::rlimit(100)]
pub proof fn lemma_t_collider_wf(e: Ent)
    requires
        wf_entity(e),
    ensures
        wf_entity(t_collider(e)),
{
    if e.added_shape && e.shape is Some {
        lemma_contrib_bounds(e.shape.unwrap(), FX_SCALE);
    }
}

/// Bounding-volume maintenance preserves well-formedness.
#[verifier::rlimit(100)]
pub proof fn lemma_t_aabb_wf(e: Ent, dt: i64)
    requires
        wf_entity(e),
    ensures
        wf_entity(t_aabb(e, dt)),
{
}

/// Mass aggregation preserves well-formedness: the fresh contribution is in
/// bounds, and mass minus snapshot is unchanged by subtract-then-add.
#[verifier::rlimit(100)]
pub proof fn lemma_t_massprops_wf(e: Ent)
    requires
        wf_entity(e),
    ensures
        wf_entity(t_massprops(e)),
{
    if mass_gate(e) {
        lemma_recip_floor_bounds(e.mass.unwrap() as int);
        if has_collider(e) {
            lemma_contrib_bounds(e.shape.unwrap(), e.collider_props.unwrap().density);
        }
    }
}

/// Clearing the dirty bits preserves well-formedness.
#[verifier::rlimit(100)]
pub proof fn lemma_t_clear_wf(e: Ent)
    requires
        wf_entity(e),
    ensures
        wf_entity(t_clear(e)),
{
}

/// The whole per-entity step preserves well-formedness.
pub proof fn lemma_prepare_entity_wf(e: Ent, dt: i64)
    requires
        wf_entity(e),
    ensures
        wf_entity(prepare_entity(e, dt)),
{
    lemma_t_body_wf(e);
    lemma_t_mass_wf(t_body(e));
    lemma_t_collider_wf(t_mass(t_body(e)));
    lemma_t_aabb_wf(t_collider(t_mass(t_body(e))), dt);
    lemma_t_massprops_wf(t_aabb(t_collider(t_mass(t_body(e))), dt));
    lemma_t_clear_wf(t_massprops(t_aabb(t_collider(t_mass(t_body(e))), dt)));
}

} // verus!
