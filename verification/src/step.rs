//! The per-step schedule: each pass applied over the whole store, in the
//! load-bearing order — defaulting first, then bounding-volume maintenance,
//! then mass aggregation, then the dirty bits are cleared.

use vstd::prelude::*;
use vstd::pervasive::VecAdditionalExecFns;
use crate::fxp::MAX_AUTHORED;
use crate::passes::{
    clear_step_flags, default_body, default_collider, default_mass_props, lemma_prepare_entity_wf,
    lemma_t_aabb_wf, lemma_t_body_wf, lemma_t_clear_wf, lemma_t_collider_wf, lemma_t_mass_wf,
    lemma_t_massprops_wf, prepare_entity, refresh_aabb, refresh_mass_props, t_aabb, t_body,
    t_clear, t_collider, t_mass, t_massprops,
};
use crate::world::{World, wf_entity, wf_world};

verus! {

/// Body defaulting over every entity (see [`t_body`]).
pub fn init_rigid_bodies(w: &mut World)
    requires
        wf_world(*old(w)),
    ensures
        final(w).entities@.len() == old(w).entities@.len(),
        forall|i: int|
            0 <= i < old(w).entities@.len() ==> final(w).entities@[i] == t_body(
                #[trigger] old(w).entities@[i],
            ),
        wf_world(*final(w)),
{
    let n: usize = w.entities.len();
    let mut idx: usize = 0;
    while idx < n
        invariant
            idx <= n,
            n == w.entities@.len(),
            w.entities@.len() == old(w).entities@.len(),
            wf_world(*old(w)),
            forall|i: int|
                0 <= i < idx ==> w.entities@[i] == t_body(#[trigger] old(w).entities@[i]),
            forall|i: int| idx <= i < n ==> w.entities@[i] == old(w).entities@[i],
            forall|i: int| 0 <= i < idx ==> wf_entity(#[trigger] w.entities@[i]),
        decreases n - idx,
    {
        let e = w.entities[idx];
        let e2 = default_body(e);
        proof {
            lemma_t_body_wf(e);
        }
        w.entities.set(idx, e2);
        idx = idx + 1;
    }
}

/// Mass defaulting over every entity (see [`t_mass`]).
pub fn init_mass_props(w: &mut World)
    requires
        wf_world(*old(w)),
    ensures
        final(w).entities@.len() == old(w).entities@.len(),
        forall|i: int|
            0 <= i < old(w).entities@.len() ==> final(w).entities@[i] == t_mass(
                #[trigger] old(w).entities@[i],
            ),
        wf_world(*final(w)),
{
    let n: usize = w.entities.len();
    let mut idx: usize = 0;
    while idx < n
        invariant
            idx <= n,
            n == w.entities@.len(),
            w.entities@.len() == old(w).entities@.len(),
            wf_world(*old(w)),
            forall|i: int|
                0 <= i < idx ==> w.entities@[i] == t_mass(#[trigger] old(w).entities@[i]),
            forall|i: int| idx <= i < n ==> w.entities@[i] == old(w).entities@[i],
            forall|i: int| 0 <= i < idx ==> wf_entity(#[trigger] w.entities@[i]),
        decreases n - idx,
    {
        let e = w.entities[idx];
        let e2 = default_mass_props(e);
        proof {
            lemma_t_mass_wf(e);
        }
        w.entities.set(idx, e2);
        idx = idx + 1;
    }
}

/// Collider defaulting over every entity (see [`t_collider`]).
pub fn init_colliders(w: &mut World)
    requires
        wf_world(*old(w)),
    ensures
        final(w).entities@.len() == old(w).entities@.len(),
        forall|i: int|
            0 <= i < old(w).entities@.len() ==> final(w).entities@[i] == t_collider(
                #[trigger] old(w).entities@[i],
            ),
        wf_world(*final(w)),
{
    let n: usize = w.entities.len();
    let mut idx: usize = 0;
    while idx < n
        invariant
            idx <= n,
            n == w.entities@.len(),
            w.entities@.len() == old(w).entities@.len(),
            wf_world(*old(w)),
            forall|i: int|
                0 <= i < idx ==> w.entities@[i] == t_collider(#[trigger] old(w).entities@[i]),
            forall|i: int| idx <= i < n ==> w.entities@[i] == old(w).entities@[i],
            forall|i: int| 0 <= i < idx ==> wf_entity(#[trigger] w.entities@[i]),
        decreases n - idx,
    {
        let e = w.entities[idx];
        let e2 = default_collider(e);
        proof {
            lemma_t_collider_wf(e);
        }
        w.entities.set(idx, e2);
        idx = idx + 1;
    }
}

/// Bounding-volume maintenance over every entity (see [`t_aabb`]).
pub fn update_aabb(w: &mut World, dt: i64)
    requires
        wf_world(*old(w)),
        0 <= dt <= MAX_AUTHORED,
    ensures
        final(w).entities@.len() == old(w).entities@.len(),
        forall|i: int|
            0 <= i < old(w).entities@.len() ==> final(w).entities@[i] == t_aabb(
                #[trigger] old(w).entities@[i],
                dt,
            ),
        wf_world(*final(w)),
{
    let n: usize = w.entities.len();
    let mut idx: usize = 0;
    while idx < n
        invariant
            idx <= n,
            n == w.entities@.len(),
            w.entities@.len() == old(w).entities@.len(),
            wf_world(*old(w)),
            0 <= dt <= MAX_AUTHORED,
            forall|i: int|
                0 <= i < idx ==> w.entities@[i] == t_aabb(#[trigger] old(w).entities@[i], dt),
            forall|i: int| idx <= i < n ==> w.entities@[i] == old(w).entities@[i],
            forall|i: int| 0 <= i < idx ==> wf_entity(#[trigger] w.entities@[i]),
        decreases n - idx,
    {
        let e = w.entities[idx];
        let e2 = refresh_aabb(e, dt);
        proof {
            lemma_t_aabb_wf(e, dt);
        }
        w.entities.set(idx, e2);
        idx = idx + 1;
    }
}

/// Mass-aggregation maintenance over every entity (see [`t_massprops`]).
pub fn update_mass_props(w: &mut World)
    requires
        wf_world(*old(w)),
    ensures
        final(w).entities@.len() == old(w).entities@.len(),
        forall|i: int|
            0 <= i < old(w).entities@.len() ==> final(w).entities@[i] == t_massprops(
                #[trigger] old(w).entities@[i],
            ),
        wf_world(*final(w)),
{
    let n: usize = w.entities.len();
    let mut idx: usize = 0;
    while idx < n
        invariant
            idx <= n,
            n == w.entities@.len(),
            w.entities@.len() == old(w).entities@.len(),
            wf_world(*old(w)),
            forall|i: int|
                0 <= i < idx ==> w.entities@[i] == t_massprops(#[trigger] old(w).entities@[i]),
            forall|i: int| idx <= i < n ==> w.entities@[i] == old(w).entities@[i],
            forall|i: int| 0 <= i < idx ==> wf_entity(#[trigger] w.entities@[i]),
        decreases n - idx,
    {
        let e = w.entities[idx];
        let e2 = refresh_mass_props(e);
        proof {
            lemma_t_massprops_wf(e);
        }
        w.entities.set(idx, e2);
        idx = idx + 1;
    }
}

/// Clears every entity's dirty bits (see [`t_clear`]).
pub fn clear_changes(w: &mut World)
    requires
        wf_world(*old(w)),
    ensures
        final(w).entities@.len() == old(w).entities@.len(),
        forall|i: int|
            0 <= i < old(w).entities@.len() ==> final(w).entities@[i] == t_clear(
                #[trigger] old(w).entities@[i],
            ),
        wf_world(*final(w)),
{
    let n: usize = w.entities.len();
    let mut idx: usize = 0;
    while idx < n
        invariant
            idx <= n,
            n == w.entities@.len(),
            w.entities@.len() == old(w).entities@.len(),
            wf_world(*old(w)),
            forall|i: int|
                0 <= i < idx ==> w.entities@[i] == t_clear(#[trigger] old(w).entities@[i]),
            forall|i: int| idx <= i < n ==> w.entities@[i] == old(w).entities@[i],
            forall|i: int| 0 <= i < idx ==> wf_entity(#[trigger] w.entities@[i]),
        decreases n - idx,
    {
        let e = w.entities[idx];
        let e2 = clear_step_flags(e);
        proof {
            lemma_t_clear_wf(e);
        }
        w.entities.set(idx, e2);
        idx = idx + 1;
    }
}

/// One full preparation step over the store: after it, every entity is
/// exactly [`prepare_entity`] of its previous state and carries no dirty
/// bits, so a second step with no intervening authoring changes nothing.
pub fn prepare_step(w: &mut World, dt: i64)
    requires
        wf_world(*old(w)),
        0 <= dt <= MAX_AUTHORED,
    ensures
        final(w).entities@.len() == old(w).entities@.len(),
        forall|i: int|
            0 <= i < old(w).entities@.len() ==> final(w).entities@[i] == prepare_entity(
                #[trigger] old(w).entities@[i],
                dt,
            ),
        wf_world(*final(w)),
{
    let ghost w0 = w.entities@;
    init_rigid_bodies(w);
    init_mass_props(w);
    init_colliders(w);
    update_aabb(w, dt);
    update_mass_props(w);
    clear_changes(w);
    proof {
        assert forall|i: int| 0 <= i < w0.len() implies w.entities@[i] == prepare_entity(
            #[trigger] w0[i],
            dt,
        ) by {
            assert(w.entities@[i] == t_clear(
                t_massprops(t_aabb(t_collider(t_mass(t_body(w0[i]))), dt)),
            ));
        }
    }
}

} // verus!
