//! Integer core of 4D permutation-table gradient noise.
//!
//! Gradient noise hashes the corners of the lattice cell around a sample
//! point through a doubled permutation table and turns each hash into one
//! of 32 gradient directions. Everything up to that point is integer
//! arithmetic and is verified here; the surrounding floating-point
//! interpolation is left to the embedding layer.

use vstd::prelude::*;

verus! {

/// An owned permutation table, the hash source of one noise generator.
/// Immutable after creation; several of these can be combined into a
/// layered generator for octave summation.
pub struct NoiseState {
    pub perm: Vec<i32>,
}

impl NoiseState {
    /// Whether the table has the shape the noise functions expect.
    pub open spec fn well_formed(&self) -> bool {
        is_perm_table(self.perm@)
    }

    /// Take ownership of a permutation table. The contents are not
    /// validated, exactly as the noise functions document: feeding a
    /// malformed table to them is ruled out by their preconditions.
    pub fn new(perm: Vec<i32>) -> (r: Self)
        ensures
            r.perm == perm,
    {
        NoiseState { perm }
    }
}

/// A permutation table as the noise functions expect it: 512 entries, each
/// in `0..=255` (logically a 256-entry permutation written twice, so that
/// an index of `entry + coordinate + 1` never leaves the table).
pub open spec fn is_perm_table(t: Seq<i32>) -> bool {
    &&& t.len() == 512
    &&& forall|i: int| 0 <= i < t.len() ==> 0 <= #[trigger] t[i] < 256
}

/// Table entry `i`, as a mathematical integer.
pub open spec fn table_at(t: Seq<i32>, i: int) -> int {
    t[i] as int
}

/// The lattice-corner hash of the 4D cell at `(ix, iy, iz, iw)` for the
/// corner offset `(dx, dy, dz, dw)`: four chained table lookups, innermost
/// on the `w` coordinate.
pub open spec fn lattice_hash_4d(
    t: Seq<i32>,
    ix: int,
    iy: int,
    iz: int,
    iw: int,
    dx: int,
    dy: int,
    dz: int,
    dw: int,
) -> int {
    table_at(
        t,
        table_at(t, table_at(t, table_at(t, iw + dw) + iz + dz) + iy + dy) + ix + dx,
    )
}

/// Wrap an integer lattice coordinate onto the table's index range.
pub fn wrap_lattice(i: i32) -> (r: i32)
    ensures
        r == i & 255,
        0 <= r < 256,
{
    let r = i & 255;
    assert(i & 255 == r && 0 <= r < 256) by (bit_vector)
        requires
            r == i & 255,
    ;
    r
}

/// Two consecutive table entries: the hash pair of one lattice step.
pub fn permutate(perm: &Vec<i32>, iw: i32) -> (r: (i32, i32))
    requires
        0 <= iw,
        iw + 1 < perm@.len(),
    ensures
        r.0 == perm@[iw as int],
        r.1 == perm@[iw as int + 1],
{
    (perm[iw as usize], perm[iw as usize + 1])
}

/// The 16 corner hashes of one 4D lattice cell, ordered with the `x`
/// offset varying fastest and the `w` offset slowest.
pub fn corner_hashes(perm: &Vec<i32>, ix: i32, iy: i32, iz: i32, iw: i32) -> (r: [i32; 16])
    requires
        is_perm_table(perm@),
        0 <= ix < 256,
        0 <= iy < 256,
        0 <= iz < 256,
        0 <= iw < 256,
    ensures
        r@[0] == lattice_hash_4d(perm@, ix as int, iy as int, iz as int, iw as int, 0, 0, 0, 0),
        r@[1] == lattice_hash_4d(perm@, ix as int, iy as int, iz as int, iw as int, 1, 0, 0, 0),
        r@[2] == lattice_hash_4d(perm@, ix as int, iy as int, iz as int, iw as int, 0, 1, 0, 0),
        r@[3] == lattice_hash_4d(perm@, ix as int, iy as int, iz as int, iw as int, 1, 1, 0, 0),
        r@[4] == lattice_hash_4d(perm@, ix as int, iy as int, iz as int, iw as int, 0, 0, 1, 0),
        r@[5] == lattice_hash_4d(perm@, ix as int, iy as int, iz as int, iw as int, 1, 0, 1, 0),
        r@[6] == lattice_hash_4d(perm@, ix as int, iy as int, iz as int, iw as int, 0, 1, 1, 0),
        r@[7] == lattice_hash_4d(perm@, ix as int, iy as int, iz as int, iw as int, 1, 1, 1, 0),
        r@[8] == lattice_hash_4d(perm@, ix as int, iy as int, iz as int, iw as int, 0, 0, 0, 1),
        r@[9] == lattice_hash_4d(perm@, ix as int, iy as int, iz as int, iw as int, 1, 0, 0, 1),
        r@[10] == lattice_hash_4d(perm@, ix as int, iy as int, iz as int, iw as int, 0, 1, 0, 1),
        r@[11] == lattice_hash_4d(perm@, ix as int, iy as int, iz as int, iw as int, 1, 1, 0, 1),
        r@[12] == lattice_hash_4d(perm@, ix as int, iy as int, iz as int, iw as int, 0, 0, 1, 1),
        r@[13] == lattice_hash_4d(perm@, ix as int, iy as int, iz as int, iw as int, 1, 0, 1, 1),
        r@[14] == lattice_hash_4d(perm@, ix as int, iy as int, iz as int, iw as int, 0, 1, 1, 1),
        r@[15] == lattice_hash_4d(perm@, ix as int, iy as int, iz as int, iw as int, 1, 1, 1, 1),
{
    let (a0, a1) = permutate(perm, iw);

    let (a00, a01) = permutate(perm, a0 + iz);
    let (a10, a11) = permutate(perm, a1 + iz);

    let (a000, a001) = permutate(perm, a00 + iy);
    let (a010, a011) = permutate(perm, a01 + iy);
    let (a100, a101) = permutate(perm, a10 + iy);
    let (a110, a111) = permutate(perm, a11 + iy);

    let (a0000, a0001) = permutate(perm, a000 + ix);
    let (a0010, a0011) = permutate(perm, a001 + ix);
    let (a0100, a0101) = permutate(perm, a010 + ix);
    let (a0110, a0111) = permutate(perm, a011 + ix);
    let (a1000, a1001) = permutate(perm, a100 + ix);
    let (a1010, a1011) = permutate(perm, a101 + ix);
    let (a1100, a1101) = permutate(perm, a110 + ix);
    let (a1110, a1111) = permutate(perm, a111 + ix);

    [
        a0000, a0001, a0010, a0011,
        a0100, a0101, a0110, a0111,
        a1000, a1001, a1010, a1011,
        a1100, a1101, a1110, a1111,
    ]
}

/// Component `c` (0 = x .. 3 = w) of the 4D gradient direction selected by
/// a corner hash. The five low bits of the hash pick one of 32 directions:
/// bits 3..4 place the single zero component, and the remaining three
/// components are `1`, negated where the matching bit of the three low
/// bits is set.
pub open spec fn grad4_component(hash: i32, c: int) -> int {
    let h = hash & 31;
    let p = h / 8;
    if c == p {
        0
    } else {
        let rank = if c < p {
            c
        } else {
            c - 1
        };
        let bit: i32 = if rank == 0 {
            4
        } else if rank == 1 {
            2
        } else {
            1
        };
        if h & bit != 0 {
            -1
        } else {
            1
        }
    }
}

fn grad4_component_exec(h: i32, c: i32) -> (r: i32)
    requires
        0 <= h < 32,
        0 <= c < 4,
    ensures
        r == grad4_component(h, c as int),
{
    assert(h & 31 == h) by (bit_vector)
        requires
            0 <= h < 32,
    ;
    let p = h / 8;
    if c == p {
        0
    } else {
        let rank = if c < p {
            c
        } else {
            c - 1
        };
        let bit: i32 = if rank == 0 {
            4
        } else if rank == 1 {
            2
        } else {
            1
        };
        if h & bit != 0 {
            -1
        } else {
            1
        }
    }
}

/// The four components of the gradient direction selected by `hash`.
pub fn grad4_components(hash: i32) -> (r: (i32, i32, i32, i32))
    ensures
        r.0 == grad4_component(hash, 0),
        r.1 == grad4_component(hash, 1),
        r.2 == grad4_component(hash, 2),
        r.3 == grad4_component(hash, 3),
{
    let h = hash & 31;
    assert(0 <= h < 32 && h & 31 == h) by (bit_vector)
        requires
            h == hash & 31,
    ;
    proof {
        assert forall|c: int| 0 <= c < 4 implies grad4_component(hash, c) == grad4_component(
            h,
            c,
        ) by {
            assert((hash & 31) & 31 == hash & 31) by (bit_vector);
        }
    }
    (
        grad4_component_exec(h, 0),
        grad4_component_exec(h, 1),
        grad4_component_exec(h, 2),
        grad4_component_exec(h, 3),
    )
}

} // verus!
