//! The component store: one record per entity, each physical attribute an
//! optional field, with per-component dirty bits standing in for the host
//! substrate's change detection.

use vstd::prelude::*;
use crate::fxp::{MAX_AUTHORED, MAX_CONTRIB_INERTIA, MAX_CONTRIB_MASS, MAX_EXTENT, MAX_INV, sabs};
use crate::geom::{Rot2, Transform2, Vec2, wf_rot, wf_scalar, wf_transform, wf_vec};
use crate::shape::{MassContribution, Shape, contrib_zero, wf_contrib, wf_shape};

verus! {

/// One simulated entity: every attribute a body or collider can carry, each
/// absent until authored or defaulted, plus the dirty bits the maintenance
/// passes are gated on.
#[verifier::ext_equal]
#[derive(Clone, Copy, PartialEq, Eq, Debug)]
pub struct Ent {
    /// Whether the entity is a simulated rigid body.
    pub body: bool,
    /// The generic spatial transform, distinct from the physical pose.
    pub transform: Option<Transform2>,
    pub pos: Option<Vec2>,
    pub rot: Option<Rot2>,
    pub prev_pos: Option<Vec2>,
    pub prev_rot: Option<Rot2>,
    pub lin_vel: Option<Vec2>,
    pub ang_vel: Option<i64>,
    pub pre_solve_lin_vel: Option<Vec2>,
    pub pre_solve_ang_vel: Option<i64>,
    pub force: Option<Vec2>,
    pub torque: Option<i64>,
    pub restitution: Option<i64>,
    pub friction: Option<i64>,
    pub time_sleeping: Option<i64>,
    /// Aggregate mass of the body.
    pub mass: Option<i64>,
    pub inv_mass: Option<i64>,
    /// Aggregate moment of inertia of the body.
    pub inertia: Option<i64>,
    pub inv_inertia: Option<i64>,
    /// Local centre-of-mass offset of the body.
    pub local_com: Option<Vec2>,
    pub shape: Option<Shape>,
    pub aabb: Option<crate::geom::Aabb>,
    /// The collider's current mass-property contribution.
    pub collider_props: Option<MassContribution>,
    /// The contribution as of the end of the last maintenance pass: the
    /// subtrahend that undoes the stale contribution before a fresh one is
    /// added.
    pub prev_collider_props: Option<MassContribution>,
    // Dirty bits, set by authoring and by the defaulting inserts, cleared at
    // the end of every step.
    pub added_body: bool,
    pub added_shape: bool,
    pub changed_pos: bool,
    pub changed_rot: bool,
    pub changed_lin_vel: bool,
    pub changed_ang_vel: bool,
    pub changed_mass: bool,
    pub changed_inv_mass: bool,
    pub changed_inertia: bool,
    pub changed_inv_inertia: bool,
    pub changed_shape: bool,
    pub changed_collider_props: bool,
}

/// The previous-snapshot contribution, taking absence as the neutral value.
pub open spec fn prev_contrib_or_zero(e: Ent) -> MassContribution {
    if e.prev_collider_props is Some {
        e.prev_collider_props.unwrap()
    } else {
        contrib_zero()
    }
}

/// An aggregate mass never drifts further from its snapshot than one full
/// contribution plus one authored value below, or one authored value above.
pub open spec fn wf_agg_mass(m: int, pm: int) -> bool {
    -(MAX_CONTRIB_MASS + MAX_AUTHORED) <= m - pm <= MAX_AUTHORED
}

pub open spec fn wf_agg_inertia(i: int, pi: int) -> bool {
    -(MAX_CONTRIB_INERTIA + MAX_AUTHORED) <= i - pi <= MAX_AUTHORED
}

pub open spec fn wf_agg_com(c: Vec2, pc: Vec2) -> bool {
    sabs(c.x - pc.x) <= MAX_AUTHORED + MAX_EXTENT && sabs(c.y - pc.y) <= MAX_AUTHORED
        + MAX_EXTENT
}

pub open spec fn wf_inv(v: int) -> bool {
    -MAX_INV <= v <= MAX_INV
}

/// Well-formedness of one entity: every present attribute within the bounds
/// the passes preserve.
pub open spec fn wf_entity(e: Ent) -> bool {
    &&& (e.transform matches Some(t) ==> wf_transform(t))
    &&& (e.pos matches Some(v) ==> wf_vec(v))
    &&& (e.rot matches Some(r) ==> wf_rot(r))
    &&& (e.prev_pos matches Some(v) ==> wf_vec(v))
    &&& (e.prev_rot matches Some(r) ==> wf_rot(r))
    &&& (e.lin_vel matches Some(v) ==> wf_vec(v))
    &&& (e.ang_vel matches Some(a) ==> wf_scalar(a as int))
    &&& (e.pre_solve_lin_vel matches Some(v) ==> wf_vec(v))
    &&& (e.pre_solve_ang_vel matches Some(a) ==> wf_scalar(a as int))
    &&& (e.force matches Some(v) ==> wf_vec(v))
    &&& (e.torque matches Some(a) ==> wf_scalar(a as int))
    &&& (e.restitution matches Some(a) ==> wf_scalar(a as int))
    &&& (e.friction matches Some(a) ==> wf_scalar(a as int))
    &&& (e.time_sleeping matches Some(a) ==> wf_scalar(a as int))
    &&& (e.shape matches Some(s) ==> wf_shape(s))
    &&& (e.collider_props matches Some(c) ==> wf_contrib(c))
    &&& (e.prev_collider_props matches Some(c) ==> wf_contrib(c))
    &&& (e.mass matches Some(m) ==> wf_agg_mass(m as int, prev_contrib_or_zero(e).mass as int))
    &&& (e.inv_mass matches Some(v) ==> wf_inv(v as int))
    &&& (e.inertia matches Some(i) ==> wf_agg_inertia(
        i as int,
        prev_contrib_or_zero(e).inertia as int,
    ))
    &&& (e.inv_inertia matches Some(v) ==> wf_inv(v as int))
    &&& (e.local_com matches Some(c) ==> wf_agg_com(c, prev_contrib_or_zero(e).com))
}

/// An entity with nothing authored and nothing marked dirty.
pub open spec fn empty_entity() -> Ent {
    Ent {
        body: false,
        transform: None,
        pos: None,
        rot: None,
        prev_pos: None,
        prev_rot: None,
        lin_vel: None,
        ang_vel: None,
        pre_solve_lin_vel: None,
        pre_solve_ang_vel: None,
        force: None,
        torque: None,
        restitution: None,
        friction: None,
        time_sleeping: None,
        mass: None,
        inv_mass: None,
        inertia: None,
        inv_inertia: None,
        local_com: None,
        shape: None,
        aabb: None,
        collider_props: None,
        prev_collider_props: None,
        added_body: false,
        added_shape: false,
        changed_pos: false,
        changed_rot: false,
        changed_lin_vel: false,
        changed_ang_vel: false,
        changed_mass: false,
        changed_inv_mass: false,
        changed_inertia: false,
        changed_inv_inertia: false,
        changed_shape: false,
        changed_collider_props: false,
    }
}

/// The component store the passes run over.
pub struct World {
    pub entities: Vec<Ent>,
}

pub open spec fn wf_world(w: World) -> bool {
    forall|i: int| 0 <= i < w.entities@.len() ==> wf_entity(#[trigger] w.entities@[i])
}

impl World {
    pub fn new() -> (w: World)
        ensures
            w.entities@.len() == 0,
            wf_world(w),
    {
        World { entities: Vec::new() }
    }

    /// Creates an empty entity and returns its id.
    pub fn spawn(&mut self) -> (id: usize)
        requires
            old(self).entities@.len() < usize::MAX,
        ensures
            id == old(self).entities@.len(),
            final(self).entities@ == old(self).entities@.push(empty_entity()),
            wf_world(*old(self)) ==> wf_world(*final(self)),
    {
        let id: usize = self.entities.len();
        let e = Ent {
            body: false,
            transform: None,
            pos: None,
            rot: None,
            prev_pos: None,
            prev_rot: None,
            lin_vel: None,
            ang_vel: None,
            pre_solve_lin_vel: None,
            pre_solve_ang_vel: None,
            force: None,
            torque: None,
            restitution: None,
            friction: None,
            time_sleeping: None,
            mass: None,
            inv_mass: None,
            inertia: None,
            inv_inertia: None,
            local_com: None,
            shape: None,
            aabb: None,
            collider_props: None,
            prev_collider_props: None,
            added_body: false,
            added_shape: false,
            changed_pos: false,
            changed_rot: false,
            changed_lin_vel: false,
            changed_ang_vel: false,
            changed_mass: false,
            changed_inv_mass: false,
            changed_inertia: false,
            changed_inv_inertia: false,
            changed_shape: false,
            changed_collider_props: false,
        };
        self.entities.push(e);
        proof {
            assert(self.entities@[id as int] == empty_entity());
            assert(forall|i: int|
                0 <= i < old(self).entities@.len() ==> self.entities@[i] == old(
                    self,
                ).entities@[i]);
        }
        id
    }

    /// Marks the entity as a rigid body created this step.
    #[verifier::rlimit(100)]
    pub fn spawn_body(&mut self, id: usize)
        requires
            id < old(self).entities@.len(),
            wf_world(*old(self)),
        ensures
            final(self).entities@.len() == old(self).entities@.len(),
            final(self).entities@[id as int] == (Ent {
                body: true,
                added_body: true,
                ..old(self).entities@[id as int]
            }),
            forall|i: int|
                0 <= i < old(self).entities@.len() && i != id ==> final(self).entities@[i] == old(
                    self,
                ).entities@[i],
            wf_world(*final(self)),
    {
        let mut e = self.entities[id];
        e.body = true;
        e.added_body = true;
        self.entities.set(id, e);
    }

    /// Authors the generic spatial transform.
    #[verifier::rlimit(100)]
    pub fn set_transform(&mut self, id: usize, v: Transform2)
        requires
            id < old(self).entities@.len(),
            wf_transform(v),
            wf_world(*old(self)),
        ensures
            final(self).entities@.len() == old(self).entities@.len(),
            final(self).entities@[id as int] == (Ent { transform: Some(v), ..old(self).entities@[id as int] }),
            forall|i: int|
                0 <= i < old(self).entities@.len() && i != id ==> final(self).entities@[i] == old(
                    self,
                ).entities@[i],
            wf_world(*final(self)),
    {
        let mut e = self.entities[id];
        e.transform = Some(v);
        self.entities.set(id, e);
    }

    /// Authors the physical position and marks it changed.
    #[verifier::rlimit(100)]
    pub fn set_pos(&mut self, id: usize, v: Vec2)
        requires
            id < old(self).entities@.len(),
            wf_vec(v),
            wf_world(*old(self)),
        ensures
            final(self).entities@.len() == old(self).entities@.len(),
            final(self).entities@[id as int] == (Ent { pos: Some(v), changed_pos: true, ..old(self).entities@[id as int] }),
            forall|i: int|
                0 <= i < old(self).entities@.len() && i != id ==> final(self).entities@[i] == old(
                    self,
                ).entities@[i],
            wf_world(*final(self)),
    {
        let mut e = self.entities[id];
        e.pos = Some(v);
        e.changed_pos = true;
        self.entities.set(id, e);
    }

    /// Authors the physical orientation and marks it changed.
    #[verifier::rlimit(100)]
    pub fn set_rot(&mut self, id: usize, v: Rot2)
        requires
            id < old(self).entities@.len(),
            wf_rot(v),
            wf_world(*old(self)),
        ensures
            final(self).entities@.len() == old(self).entities@.len(),
            final(self).entities@[id as int] == (Ent { rot: Some(v), changed_rot: true, ..old(self).entities@[id as int] }),
            forall|i: int|
                0 <= i < old(self).entities@.len() && i != id ==> final(self).entities@[i] == old(
                    self,
                ).entities@[i],
            wf_world(*final(self)),
    {
        let mut e = self.entities[id];
        e.rot = Some(v);
        e.changed_rot = true;
        self.entities.set(id, e);
    }

    /// Authors the linear velocity and marks it changed.
    #[verifier::rlimit(100)]
    pub fn set_lin_vel(&mut self, id: usize, v: Vec2)
        requires
            id < old(self).entities@.len(),
            wf_vec(v),
            wf_world(*old(self)),
        ensures
            final(self).entities@.len() == old(self).entities@.len(),
            final(self).entities@[id as int] == (Ent { lin_vel: Some(v), changed_lin_vel: true, ..old(self).entities@[id as int] }),
            forall|i: int|
                0 <= i < old(self).entities@.len() && i != id ==> final(self).entities@[i] == old(
                    self,
                ).entities@[i],
            wf_world(*final(self)),
    {
        let mut e = self.entities[id];
        e.lin_vel = Some(v);
        e.changed_lin_vel = true;
        self.entities.set(id, e);
    }

    /// Authors the angular velocity and marks it changed.
    #[verifier::rlimit(100)]
    pub fn set_ang_vel(&mut self, id: usize, v: i64)
        requires
            id < old(self).entities@.len(),
            wf_scalar(v as int),
            wf_world(*old(self)),
        ensures
            final(self).entities@.len() == old(self).entities@.len(),
            final(self).entities@[id as int] == (Ent { ang_vel: Some(v), changed_ang_vel: true, ..old(self).entities@[id as int] }),
            forall|i: int|
                0 <= i < old(self).entities@.len() && i != id ==> final(self).entities@[i] == old(
                    self,
                ).entities@[i],
            wf_world(*final(self)),
    {
        let mut e = self.entities[id];
        e.ang_vel = Some(v);
        e.changed_ang_vel = true;
        self.entities.set(id, e);
    }

    /// Authors the external force accumulator.
    #[verifier::rlimit(100)]
    pub fn set_force(&mut self, id: usize, v: Vec2)
        requires
            id < old(self).entities@.len(),
            wf_vec(v),
            wf_world(*old(self)),
        ensures
            final(self).entities@.len() == old(self).entities@.len(),
            final(self).entities@[id as int] == (Ent { force: Some(v), ..old(self).entities@[id as int] }),
            forall|i: int|
                0 <= i < old(self).entities@.len() && i != id ==> final(self).entities@[i] == old(
                    self,
                ).entities@[i],
            wf_world(*final(self)),
    {
        let mut e = self.entities[id];
        e.force = Some(v);
        self.entities.set(id, e);
    }

    /// Authors the external torque accumulator.
    #[verifier::rlimit(100)]
    pub fn set_torque(&mut self, id: usize, v: i64)
        requires
            id < old(self).entities@.len(),
            wf_scalar(v as int),
            wf_world(*old(self)),
        ensures
            final(self).entities@.len() == old(self).entities@.len(),
            final(self).entities@[id as int] == (Ent { torque: Some(v), ..old(self).entities@[id as int] }),
            forall|i: int|
                0 <= i < old(self).entities@.len() && i != id ==> final(self).entities@[i] == old(
                    self,
                ).entities@[i],
            wf_world(*final(self)),
    {
        let mut e = self.entities[id];
        e.torque = Some(v);
        self.entities.set(id, e);
    }

    /// Authors the restitution coefficient.
    #[verifier::rlimit(100)]
    pub fn set_restitution(&mut self, id: usize, v: i64)
        requires
            id < old(self).entities@.len(),
            wf_scalar(v as int),
            wf_world(*old(self)),
        ensures
            final(self).entities@.len() == old(self).entities@.len(),
            final(self).entities@[id as int] == (Ent { restitution: Some(v), ..old(self).entities@[id as int] }),
            forall|i: int|
                0 <= i < old(self).entities@.len() && i != id ==> final(self).entities@[i] == old(
                    self,
                ).entities@[i],
            wf_world(*final(self)),
    {
        let mut e = self.entities[id];
        e.restitution = Some(v);
        self.entities.set(id, e);
    }

    /// Authors the friction coefficient.
    #[verifier::rlimit(100)]
    pub fn set_friction(&mut self, id: usize, v: i64)
        requires
            id < old(self).entities@.len(),
            wf_scalar(v as int),
            wf_world(*old(self)),
        ensures
            final(self).entities@.len() == old(self).entities@.len(),
            final(self).entities@[id as int] == (Ent { friction: Some(v), ..old(self).entities@[id as int] }),
            forall|i: int|
                0 <= i < old(self).entities@.len() && i != id ==> final(self).entities@[i] == old(
                    self,
                ).entities@[i],
            wf_world(*final(self)),
    {
        let mut e = self.entities[id];
        e.friction = Some(v);
        self.entities.set(id, e);
    }

    /// Authors the sleep timer.
    #[verifier::rlimit(100)]
    pub fn set_time_sleeping(&mut self, id: usize, v: i64)
        requires
            id < old(self).entities@.len(),
            wf_scalar(v as int),
            wf_world(*old(self)),
        ensures
            final(self).entities@.len() == old(self).entities@.len(),
            final(self).entities@[id as int] == (Ent { time_sleeping: Some(v), ..old(self).entities@[id as int] }),
            forall|i: int|
                0 <= i < old(self).entities@.len() && i != id ==> final(self).entities@[i] == old(
                    self,
                ).entities@[i],
            wf_world(*final(self)),
    {
        let mut e = self.entities[id];
        e.time_sleeping = Some(v);
        self.entities.set(id, e);
    }

    /// Authors the body's mass and marks it changed.
    #[verifier::rlimit(100)]
    pub fn set_mass(&mut self, id: usize, v: i64)
        requires
            id < old(self).entities@.len(),
            wf_scalar(v as int),
            wf_world(*old(self)),
        ensures
            final(self).entities@.len() == old(self).entities@.len(),
            final(self).entities@[id as int] == (Ent { mass: Some(v), changed_mass: true, ..old(self).entities@[id as int] }),
            forall|i: int|
                0 <= i < old(self).entities@.len() && i != id ==> final(self).entities@[i] == old(
                    self,
                ).entities@[i],
            wf_world(*final(self)),
    {
        let mut e = self.entities[id];
        e.mass = Some(v);
        e.changed_mass = true;
        self.entities.set(id, e);
    }

    /// Authors the body's inverse mass and marks it changed.
    #[verifier::rlimit(100)]
    pub fn set_inv_mass(&mut self, id: usize, v: i64)
        requires
            id < old(self).entities@.len(),
            wf_scalar(v as int),
            wf_world(*old(self)),
        ensures
            final(self).entities@.len() == old(self).entities@.len(),
            final(self).entities@[id as int] == (Ent { inv_mass: Some(v), changed_inv_mass: true, ..old(self).entities@[id as int] }),
            forall|i: int|
                0 <= i < old(self).entities@.len() && i != id ==> final(self).entities@[i] == old(
                    self,
                ).entities@[i],
            wf_world(*final(self)),
    {
        let mut e = self.entities[id];
        e.inv_mass = Some(v);
        e.changed_inv_mass = true;
        self.entities.set(id, e);
    }

    /// Authors the body's inertia and marks it changed.
    #[verifier::rlimit(100)]
    pub fn set_inertia(&mut self, id: usize, v: i64)
        requires
            id < old(self).entities@.len(),
            wf_scalar(v as int),
            wf_world(*old(self)),
        ensures
            final(self).entities@.len() == old(self).entities@.len(),
            final(self).entities@[id as int] == (Ent { inertia: Some(v), changed_inertia: true, ..old(self).entities@[id as int] }),
            forall|i: int|
                0 <= i < old(self).entities@.len() && i != id ==> final(self).entities@[i] == old(
                    self,
                ).entities@[i],
            wf_world(*final(self)),
    {
        let mut e = self.entities[id];
        e.inertia = Some(v);
        e.changed_inertia = true;
        self.entities.set(id, e);
    }

    /// Authors the body's inverse inertia and marks it changed.
    #[verifier::rlimit(100)]
    pub fn set_inv_inertia(&mut self, id: usize, v: i64)
        requires
            id < old(self).entities@.len(),
            wf_scalar(v as int),
            wf_world(*old(self)),
        ensures
            final(self).entities@.len() == old(self).entities@.len(),
            final(self).entities@[id as int] == (Ent { inv_inertia: Some(v), changed_inv_inertia: true, ..old(self).entities@[id as int] }),
            forall|i: int|
                0 <= i < old(self).entities@.len() && i != id ==> final(self).entities@[i] == old(
                    self,
                ).entities@[i],
            wf_world(*final(self)),
    {
        let mut e = self.entities[id];
        e.inv_inertia = Some(v);
        e.changed_inv_inertia = true;
        self.entities.set(id, e);
    }

    /// Authors the local centre-of-mass offset.
    #[verifier::rlimit(100)]
    pub fn set_local_com(&mut self, id: usize, v: Vec2)
        requires
            id < old(self).entities@.len(),
            wf_vec(v),
            wf_world(*old(self)),
        ensures
            final(self).entities@.len() == old(self).entities@.len(),
            final(self).entities@[id as int] == (Ent { local_com: Some(v), ..old(self).entities@[id as int] }),
            forall|i: int|
                0 <= i < old(self).entities@.len() && i != id ==> final(self).entities@[i] == old(
                    self,
                ).entities@[i],
            wf_world(*final(self)),
    {
        let mut e = self.entities[id];
        e.local_com = Some(v);
        self.entities.set(id, e);
    }

    /// Attaches a collider shape, marking it newly added and changed.
    #[verifier::rlimit(100)]
    pub fn attach_shape(&mut self, id: usize, v: Shape)
        requires
            id < old(self).entities@.len(),
            wf_shape(v),
            wf_world(*old(self)),
        ensures
            final(self).entities@.len() == old(self).entities@.len(),
            final(self).entities@[id as int] == (Ent { shape: Some(v), added_shape: true, changed_shape: true, ..old(self).entities@[id as int] }),
            forall|i: int|
                0 <= i < old(self).entities@.len() && i != id ==> final(self).entities@[i] == old(
                    self,
                ).entities@[i],
            wf_world(*final(self)),
    {
        let mut e = self.entities[id];
        e.shape = Some(v);
        e.added_shape = true;
        e.changed_shape = true;
        self.entities.set(id, e);
    }

    /// Replaces the collider's shape in place and marks it changed.
    #[verifier::rlimit(100)]
    pub fn set_shape(&mut self, id: usize, v: Shape)
        requires
            id < old(self).entities@.len(),
            wf_shape(v),
            wf_world(*old(self)),
        ensures
            final(self).entities@.len() == old(self).entities@.len(),
            final(self).entities@[id as int] == (Ent {
                shape: Some(v),
                changed_shape: true,
                ..old(self).entities@[id as int]
            }),
            forall|i: int|
                0 <= i < old(self).entities@.len() && i != id ==> final(self).entities@[i] == old(
                    self,
                ).entities@[i],
            wf_world(*final(self)),
    {
        let mut e = self.entities[id];
        e.shape = Some(v);
        e.changed_shape = true;
        self.entities.set(id, e);
    }

    /// Authors the collider's mass properties and marks them changed.
    #[verifier::rlimit(100)]
    pub fn set_collider_props(&mut self, id: usize, v: MassContribution)
        requires
            id < old(self).entities@.len(),
            wf_contrib(v),
            wf_world(*old(self)),
        ensures
            final(self).entities@.len() == old(self).entities@.len(),
            final(self).entities@[id as int] == (Ent { collider_props: Some(v), changed_collider_props: true, ..old(self).entities@[id as int] }),
            forall|i: int|
                0 <= i < old(self).entities@.len() && i != id ==> final(self).entities@[i] == old(
                    self,
                ).entities@[i],
            wf_world(*final(self)),
    {
        let mut e = self.entities[id];
        e.collider_props = Some(v);
        e.changed_collider_props = true;
        self.entities.set(id, e);
    }
}

} // verus!
