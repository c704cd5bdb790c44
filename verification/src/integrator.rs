use vstd::prelude::*;
use crate::num::div_floor;
use crate::point::{Point3, SCALE};

verus! {

// The Lorenz parameters are fixed: sigma = 10, rho = 25, beta = 8/3, with
// Euler step scale dt = 1/100. In fixed-point form a product of two
// coordinates carries the scale twice, so it is divided by SCALE once, and
// beta enters as the flooring quotient by 3.

/// The x-derivative, `sigma * (y - x)`, in fixed-point units.
pub open spec fn spec_dx(p: Point3) -> int {
    10 * (p.y - p.x)
}

/// The y-derivative, `x * (rho - z) - y`, in fixed-point units.
pub open spec fn spec_dy(p: Point3) -> int {
    (p.x * (25 * SCALE - p.z)) / (SCALE as int) - p.y
}

/// The z-derivative, `x * y - beta * z`, in fixed-point units.
pub open spec fn spec_dz(p: Point3) -> int {
    (p.x * p.y) / (SCALE as int) - (8 * p.z) / 3
}

/// A coordinate clamped to the representable fixed-point range. The Lorenz
/// system is chaotic and a trajectory may grow without bound; a diverged
/// coordinate saturates instead of aborting the simulation.
pub open spec fn clamp_coord(v: int) -> i64 {
    if v < i64::MIN {
        i64::MIN
    } else if v > i64::MAX {
        i64::MAX
    } else {
        v as i64
    }
}

/// One explicit-Euler step of the Lorenz system from `p`: each coordinate
/// moves by one hundredth of its derivative, every division rounding toward
/// negative infinity.
pub open spec fn spec_advance(p: Point3) -> Point3 {
    Point3 {
        x: clamp_coord(p.x + spec_dx(p) / 100),
        y: clamp_coord(p.y + spec_dy(p) / 100),
        z: clamp_coord(p.z + spec_dz(p) / 100),
    }
}

/// The numerical integrator: a pure map from a point to its successor under
/// one fixed-size explicit-Euler step of the Lorenz equations.
pub struct LorenzIntegrator;

impl LorenzIntegrator {
    /// Advance one point by one Euler step. Defined for every input; a
    /// coordinate that leaves the representable range saturates.
    pub fn advance(p: Point3) -> (next: Point3)
        ensures
            next == spec_advance(p),
    {
        let x = p.x as i128;
        let y = p.y as i128;
        let z = p.z as i128;
        let scale = SCALE as i128;
        let rho = 25 * scale;

        proof {
            assert(i128::MIN < x * (rho - z) < i128::MAX) by (nonlinear_arith)
                requires
                    -0x8000_0000_0000_0000 <= x <= 0x7fff_ffff_ffff_ffff,
                    -0x8000_0000_0000_0000 <= z <= 0x7fff_ffff_ffff_ffff,
                    rho == 250_000_000,
            ;
            assert(i128::MIN < x * y < i128::MAX) by (nonlinear_arith)
                requires
                    -0x8000_0000_0000_0000 <= x <= 0x7fff_ffff_ffff_ffff,
                    -0x8000_0000_0000_0000 <= y <= 0x7fff_ffff_ffff_ffff,
            ;
        }
        let dx = 10 * (y - x);
        let dy = div_floor(x * (rho - z), scale) - y;
        let dz = div_floor(x * y, scale) - div_floor(8 * z, 3);

        let nx = clamp_to_coord(x + div_floor(dx, 100));
        let ny = clamp_to_coord(y + div_floor(dy, 100));
        let nz = clamp_to_coord(z + div_floor(dz, 100));
        Point3 { x: nx, y: ny, z: nz }
    }
}

/// The integrator is pure: the successor of a point is a function of that
/// point alone, so advancing identical inputs yields identical outputs.
pub proof fn lemma_advance_deterministic(p: Point3, r1: Point3, r2: Point3)
    requires
        r1 == spec_advance(p),
        r2 == spec_advance(p),
    ensures
        r1 == r2,
{
}

/// Saturate a wide intermediate value back into a fixed-point coordinate.
fn clamp_to_coord(v: i128) -> (r: i64)
    ensures
        r == clamp_coord(v as int),
{
    if v < i64::MIN as i128 {
        i64::MIN
    } else if v > i64::MAX as i128 {
        i64::MAX
    } else {
        v as i64
    }
}

} // verus!
