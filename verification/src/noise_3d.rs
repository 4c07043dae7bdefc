//! Integer core of 3D permutation-table gradient noise.
//!
//! The 3D variant hashes the 8 corners of a lattice cube and selects
//! gradients by the low 4 bits of each hash: two of the coordinates are
//! picked as summands, each possibly negated. As in the 4D case, the
//! floating-point interpolation around this core is left to the embedding
//! layer.

use vstd::prelude::*;

use crate::noise::{is_perm_table, table_at};

verus! {

/// The lattice-corner hash of the 3D cell at `(ix, iy, iz)` for the corner
/// offset `(dx, dy, dz)`: three chained table lookups, innermost on the
/// `x` coordinate.
pub open spec fn lattice_hash_3d(
    t: Seq<i32>,
    ix: int,
    iy: int,
    iz: int,
    dx: int,
    dy: int,
    dz: int,
) -> int {
    table_at(t, table_at(t, table_at(t, ix + dx) + iy + dy) + iz + dz)
}

/// Two consecutive table entries: the hash pair of one lattice step.
pub fn permutate(perm: &Vec<i32>, iw: i32) -> (r: (i32, i32))
    requires
        0 <= iw,
        iw + 1 < perm@.len(),
    ensures
        r.0 == perm@[iw as int],
        r.1 == perm@[iw as int + 1],
{
    (perm[iw as usize], perm[iw as usize + 1])
}

/// The 8 corner hashes of one 3D lattice cell, ordered with the `x` offset
/// varying fastest and the `z` offset slowest.
pub fn corner_hashes(perm: &Vec<i32>, ix: i32, iy: i32, iz: i32) -> (r: [i32; 8])
    requires
        is_perm_table(perm@),
        0 <= ix < 256,
        0 <= iy < 256,
        0 <= iz < 256,
    ensures
        r@[0] == lattice_hash_3d(perm@, ix as int, iy as int, iz as int, 0, 0, 0),
        r@[1] == lattice_hash_3d(perm@, ix as int, iy as int, iz as int, 1, 0, 0),
        r@[2] == lattice_hash_3d(perm@, ix as int, iy as int, iz as int, 0, 1, 0),
        r@[3] == lattice_hash_3d(perm@, ix as int, iy as int, iz as int, 1, 1, 0),
        r@[4] == lattice_hash_3d(perm@, ix as int, iy as int, iz as int, 0, 0, 1),
        r@[5] == lattice_hash_3d(perm@, ix as int, iy as int, iz as int, 1, 0, 1),
        r@[6] == lattice_hash_3d(perm@, ix as int, iy as int, iz as int, 0, 1, 1),
        r@[7] == lattice_hash_3d(perm@, ix as int, iy as int, iz as int, 1, 1, 1),
{
    let (a0, a1) = permutate(perm, ix);

    let (a00, a10) = permutate(perm, a0 + iy);
    let (a01, a11) = permutate(perm, a1 + iy);

    let (a000, a100) = permutate(perm, a00 + iz);
    let (a001, a101) = permutate(perm, a01 + iz);
    let (a010, a110) = permutate(perm, a10 + iz);
    let (a011, a111) = permutate(perm, a11 + iz);

    [a000, a001, a010, a011, a100, a101, a110, a111]
}

/// The coordinate a 3D gradient reads for its first summand.
#[derive(Debug, PartialEq, Eq, Clone, Copy, Structural)]
pub enum GradAxis {
    X,
    Y,
    Z,
}

/// First summand of the gradient selected by `hash`: `x` for hashes whose
/// low 4 bits are below 8, else `y`.
pub open spec fn grad3_u_axis(hash: i32) -> GradAxis {
    if hash & 15 < 8 {
        GradAxis::X
    } else {
        GradAxis::Y
    }
}

/// Second summand of the gradient selected by `hash`: `y` for low hashes,
/// `x` for 12 and 14, else `z`.
pub open spec fn grad3_v_axis(hash: i32) -> GradAxis {
    let h = hash & 15;
    if h < 4 {
        GradAxis::Y
    } else if h == 12 || h == 14 {
        GradAxis::X
    } else {
        GradAxis::Z
    }
}

/// Whether the first summand is negated (bit 0 of the hash).
pub open spec fn grad3_u_negated(hash: i32) -> bool {
    hash & 1 != 0
}

/// Whether the second summand is negated (bit 1 of the hash).
pub open spec fn grad3_v_negated(hash: i32) -> bool {
    hash & 2 != 0
}

/// The two summand axes of the gradient selected by `hash`, each with its
/// sign: `(u axis, u negated, v axis, v negated)`. The gradient value is
/// the sum of the two chosen coordinates after negation.
pub fn grad3_selectors(hash: i32) -> (r: (GradAxis, bool, GradAxis, bool))
    ensures
        r.0 == grad3_u_axis(hash),
        r.1 == grad3_u_negated(hash),
        r.2 == grad3_v_axis(hash),
        r.3 == grad3_v_negated(hash),
{
    let h = hash & 15;
    let u_axis = if h < 8 {
        GradAxis::X
    } else {
        GradAxis::Y
    };
    let v_axis = if h < 4 {
        GradAxis::Y
    } else if h == 12 || h == 14 {
        GradAxis::X
    } else {
        GradAxis::Z
    };
    (u_axis, hash & 1 != 0, v_axis, hash & 2 != 0)
}

} // verus!
