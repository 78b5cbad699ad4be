//! Collider shapes and the mass properties a shape contributes to its body.

use vstd::prelude::*;
use crate::fxp::{
    FX_SCALE, MAX_AUTHORED, MAX_CONTRIB_INERTIA, MAX_CONTRIB_MASS, MAX_EXTENT, fmul, fx_mul,
    lemma_fmul_bound, sabs,
};
use crate::geom::Vec2;
use vstd::arithmetic::div_mod::lemma_div_is_ordered;
use vstd::arithmetic::div_mod::lemma_div_is_ordered_by_denominator;

verus! {

/// A collider shape: an origin-centred rectangle given by its half-extents.
#[derive(Clone, Copy, PartialEq, Eq, Debug)]
pub struct Shape {
    pub half_x: i64,
    pub half_y: i64,
}

/// The mass properties a collider contributes to its owning body, together
/// with the density they were computed at.
#[derive(Clone, Copy, PartialEq, Eq, Debug)]
pub struct MassContribution {
    pub mass: i64,
    pub inertia: i64,
    pub com: Vec2,
    pub density: i64,
}

pub open spec fn wf_shape(s: Shape) -> bool {
    0 <= s.half_x <= MAX_EXTENT && 0 <= s.half_y <= MAX_EXTENT
}

pub open spec fn wf_contrib(c: MassContribution) -> bool {
    &&& 0 <= c.mass <= MAX_CONTRIB_MASS
    &&& 0 <= c.inertia <= MAX_CONTRIB_INERTIA
    &&& sabs(c.com.x as int) <= MAX_EXTENT
    &&& sabs(c.com.y as int) <= MAX_EXTENT
    &&& 0 <= c.density <= MAX_AUTHORED
}

/// The neutral contribution: subtracting it undoes nothing.
pub open spec fn contrib_zero() -> MassContribution {
    MassContribution { mass: 0, inertia: 0, com: Vec2 { x: 0, y: 0 }, density: 0 }
}

/// The area of a rectangle of the given half-extents.
pub open spec fn shape_area(s: Shape) -> int {
    fmul(4 * s.half_x, s.half_y as int)
}

/// The mass of the shape at the given density.
pub open spec fn shape_mass(s: Shape, density: int) -> int {
    fmul(density, shape_area(s))
}

/// The moment of inertia of the rectangle about its centre:
/// mass times the sum of the squared half-extents, over three.
pub open spec fn shape_inertia(s: Shape, density: int) -> int {
    fmul(shape_mass(s, density), fmul(s.half_x as int, s.half_x as int) + fmul(
        s.half_y as int,
        s.half_y as int,
    )) / 3
}

/// The full mass-property record the shape contributes at a density.
pub open spec fn contrib_of(s: Shape, density: i64) -> MassContribution {
    MassContribution {
        mass: shape_mass(s, density as int) as i64,
        inertia: shape_inertia(s, density as int) as i64,
        com: Vec2 { x: 0, y: 0 },
        density: density,
    }
}

/// Within the well-formedness bounds the contribution's fields are exactly
/// the mathematical shape mass and inertia, and are themselves well formed.
pub proof fn lemma_contrib_bounds(s: Shape, density: i64)
    requires
        wf_shape(s),
        0 <= density <= MAX_AUTHORED,
    ensures
        wf_contrib(contrib_of(s, density)),
        contrib_of(s, density).mass == shape_mass(s, density as int),
        contrib_of(s, density).inertia == shape_inertia(s, density as int),
        0 <= shape_area(s) <= 40_000_000_000,
        0 <= shape_mass(s, density as int) <= MAX_CONTRIB_MASS,
        0 <= shape_inertia(s, density as int) <= MAX_CONTRIB_INERTIA,
        0 <= fmul(s.half_x as int, s.half_x as int) + fmul(s.half_y as int, s.half_y as int)
            <= 20_000_000_000,
        0 <= fmul(
            shape_mass(s, density as int),
            fmul(s.half_x as int, s.half_x as int) + fmul(s.half_y as int, s.half_y as int),
        ) <= MAX_CONTRIB_INERTIA,
{
    lemma_fmul_bound(4 * s.half_x, s.half_y as int, 4 * MAX_EXTENT, MAX_EXTENT as int);
    assert(4 * (MAX_EXTENT as int) * (MAX_EXTENT as int) / (FX_SCALE as int)
        == 40_000_000_000) by (nonlinear_arith);
    lemma_fmul_bound(density as int, shape_area(s), MAX_AUTHORED as int, 40_000_000_000);
    assert((MAX_AUTHORED as int) * 40_000_000_000 / (FX_SCALE as int)
        == MAX_CONTRIB_MASS) by (nonlinear_arith);
    lemma_fmul_bound(s.half_x as int, s.half_x as int, MAX_EXTENT as int, MAX_EXTENT as int);
    lemma_fmul_bound(s.half_y as int, s.half_y as int, MAX_EXTENT as int, MAX_EXTENT as int);
    assert((MAX_EXTENT as int) * (MAX_EXTENT as int) / (FX_SCALE as int)
        == 10_000_000_000) by (nonlinear_arith);
    let ex2: int = fmul(s.half_x as int, s.half_x as int) + fmul(s.half_y as int, s.half_y as int);
    lemma_fmul_bound(shape_mass(s, density as int), ex2, MAX_CONTRIB_MASS as int, 20_000_000_000);
    assert((MAX_CONTRIB_MASS as int) * 20_000_000_000 / (FX_SCALE as int)
        == MAX_CONTRIB_INERTIA) by (nonlinear_arith);
    let pre: int = fmul(shape_mass(s, density as int), ex2);
    lemma_div_is_ordered(0, pre, 3);
    lemma_div_is_ordered_by_denominator(pre, 1, 3);
}

/// Computes the mass properties the shape contributes at the given density:
/// density times area for the mass, the rectangle's moment of inertia, and
/// the centre of mass at the shape's own origin.
pub fn mass_contribution_of(s: &Shape, density: i64) -> (c: MassContribution)
    requires
        wf_shape(*s),
        0 <= density <= MAX_AUTHORED,
    ensures
        c == contrib_of(*s, density),
        wf_contrib(c),
{
    proof {
        lemma_contrib_bounds(*s, density);
    }
    let area: i64 = fx_mul(4 * s.half_x, s.half_y);
    let m: i64 = fx_mul(density, area);
    let ex2: i64 = fx_mul(s.half_x, s.half_x) + fx_mul(s.half_y, s.half_y);
    let pre: i64 = fx_mul(m, ex2);
    let inertia: i64 = ((pre as u64) / 3) as i64;
    MassContribution { mass: m, inertia, com: Vec2::zero(), density }
}

} // verus!
