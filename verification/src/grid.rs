//! Dense voxel grids and the procedural sphere builder.
//!
//! A grid is a linearly addressed array of packed 24-bit RGB colors, one per
//! integer coordinate. The canonical linear index of `(x, y, z)` in a grid
//! with extents `(dx, dy, dz)` is `x * dy * dz + y * dz + z`; every producer
//! in this crate uses this convention.

use vstd::prelude::*;

verus! {

/// Packed color of the inner band of the procedural sphere.
pub const INNER_BAND_COLOR: u32 = 0xff6b21;

/// Packed color of the outer band of the procedural sphere.
pub const OUTER_BAND_COLOR: u32 = 0xffc821;

/// Canonical linear index of coordinate `(x, y, z)` in a grid whose y-extent
/// is `dy` and whose z-extent is `dz`: `x` varies slowest, `z` fastest.
pub open spec fn cell_index(dy: int, dz: int, x: int, y: int, z: int) -> int {
    x * dy * dz + y * dz + z
}

/// Strict lexicographic order on coordinates, in the traversal order of the
/// canonical index (`x` outermost, `z` innermost).
pub open spec fn coord_lt(a: int, b: int, c: int, x: int, y: int, z: int) -> bool {
    a < x || (a == x && b < y) || (a == x && b == y && c < z)
}

/// A dense, linearly addressed grid of packed voxel colors.
pub struct VoxelGrid {
    /// Grid extents.
    pub dims: (u32, u32, u32),
    /// Packed 24-bit RGB colors (zero = empty), in canonical index order.
    pub cells: Vec<u32>,
}

impl VoxelGrid {
    /// The cell count always matches the extents.
    pub open spec fn wf(self) -> bool {
        self.cells@.len() == self.dims.0 as int * self.dims.1 as int * self.dims.2 as int
    }
}

/// The canonical index of an in-range coordinate lies within the grid.
pub proof fn lemma_cell_index_bounds(dy: int, dz: int, x: int, y: int, z: int, dx: int)
    requires
        0 <= x < dx,
        0 <= y < dy,
        0 <= z < dz,
    ensures
        0 <= cell_index(dy, dz, x, y, z) < dx * dy * dz,
{
    assert(0 <= x * dy * dz + y * dz + z < dx * dy * dz) by (nonlinear_arith)
        requires
            0 <= x < dx,
            0 <= y < dy,
            0 <= z < dz,
    ;
}

/// The canonical index respects the traversal order: a coordinate that comes
/// earlier lexicographically has a smaller index.
pub proof fn lemma_cell_index_lt(dy: int, dz: int, a: int, b: int, c: int, x: int, y: int, z: int)
    requires
        0 <= a,
        0 <= b < dy,
        0 <= c < dz,
        0 <= x,
        0 <= y,
        0 <= z,
        coord_lt(a, b, c, x, y, z),
    ensures
        cell_index(dy, dz, a, b, c) < cell_index(dy, dz, x, y, z),
{
    assert(a * dy * dz + b * dz + c < x * dy * dz + y * dz + z) by (nonlinear_arith)
        requires
            0 <= a,
            0 <= b < dy,
            0 <= c < dz,
            0 <= x,
            0 <= y,
            0 <= z,
            a < x || (a == x && b < y) || (a == x && b == y && c < z),
    ;
}

/// Unsigned distance of coordinate `v` from the grid center `grid_size / 2`
/// (the integer-division midpoint, so even grid sizes are asymmetric).
pub open spec fn center_offset(grid_size: u32, v: u32) -> int {
    let c = grid_size as int / 2;
    if v as int >= c {
        v as int - c
    } else {
        c - v as int
    }
}

/// Squared Euclidean offset of `(x, y, z)` from the grid center.
pub open spec fn center_sq_dist(grid_size: u32, x: u32, y: u32, z: u32) -> int {
    center_offset(grid_size, x) * center_offset(grid_size, x) + center_offset(grid_size, y)
        * center_offset(grid_size, y) + center_offset(grid_size, z) * center_offset(grid_size, z)
}

/// A sphere voxel is filled exactly when its squared Euclidean offset from
/// the center is strictly under `radius^2` (the boundary at exactly `radius`
/// is excluded).
pub open spec fn sphere_filled(grid_size: u32, radius: u32, x: u32, y: u32, z: u32) -> bool {
    center_sq_dist(grid_size, x, y, z) < (radius as int) * (radius as int)
}

/// Banding threshold `floor(radius * 1.4)`.
pub open spec fn band_limit(radius: u32) -> int {
    (radius as int) * 14 / 10
}

/// Color of a sphere cell for a choice of band colors: empty cells are
/// zero; a filled cell whose offset component sum is within the banding
/// threshold gets `inner`, any other filled cell gets `outer`.
pub open spec fn sphere_cell_colors(
    grid_size: u32,
    radius: u32,
    inner: u32,
    outer: u32,
    x: u32,
    y: u32,
    z: u32,
) -> u32 {
    if sphere_filled(grid_size, radius, x, y, z) {
        if center_offset(grid_size, x) + center_offset(grid_size, y) + center_offset(
            grid_size,
            z,
        ) <= band_limit(radius) {
            inner
        } else {
            outer
        }
    } else {
        0
    }
}

/// Color of a banded sphere cell, with the two fixed band colors.
pub open spec fn sphere_cell(grid_size: u32, radius: u32, x: u32, y: u32, z: u32) -> u32 {
    sphere_cell_colors(grid_size, radius, INNER_BAND_COLOR, OUTER_BAND_COLOR, x, y, z)
}

/// Color of a cell of the uniform sphere variant: the single color `fill`
/// on every filled voxel, with no banding.
pub open spec fn uniform_sphere_cell(
    grid_size: u32,
    radius: u32,
    fill: u32,
    x: u32,
    y: u32,
    z: u32,
) -> u32 {
    if sphere_filled(grid_size, radius, x, y, z) {
        fill
    } else {
        0
    }
}

/// Occupancy law: a sphere cell is non-zero exactly when
/// `(x-c)^2 + (y-c)^2 + (z-c)^2 < radius^2` for `c = grid_size / 2`.
pub proof fn lemma_sphere_cell_occupancy(grid_size: u32, radius: u32, x: u32, y: u32, z: u32)
    ensures
        sphere_cell(grid_size, radius, x, y, z) != 0 <==> center_sq_dist(grid_size, x, y, z) < (
        radius as int) * (radius as int),
{
}

/// Walks the whole cube grid and writes `sphere_cell_colors` of every
/// coordinate at its canonical linear index.
fn build_sphere_voxels(grid_size: u32, radius: u32, inner: u32, outer: u32) -> (v: Vec<u32>)
    requires
        grid_size as int * grid_size as int * grid_size as int <= u32::MAX as int,
    ensures
        v@.len() == grid_size as int * grid_size as int * grid_size as int,
        forall|x: u32, y: u32, z: u32|
            x < grid_size && y < grid_size && z < grid_size ==> v@[#[trigger] cell_index(
                grid_size as int,
                grid_size as int,
                x as int,
                y as int,
                z as int,
            )] == sphere_cell_colors(grid_size, radius, inner, outer, x, y, z),
{
    let gs = grid_size;
    let ghost gsi = gs as int;
    let mut v: Vec<u32> = Vec::new();
    let mut x: u32 = 0;
    while x < gs
        invariant
            x <= gs,
            v@.len() == cell_index(gsi, gsi, x as int, 0, 0),
            gsi == gs as int,
            forall|a: u32, b: u32, c: u32|
                a < gs && b < gs && c < gs && coord_lt(a as int, b as int, c as int, x as int, 0, 0)
                    ==> v@[#[trigger] cell_index(gsi, gsi, a as int, b as int, c as int)]
                    == sphere_cell_colors(gs, radius, inner, outer, a, b, c),
        decreases gs - x,
    {
        let mut y: u32 = 0;
        while y < gs
            invariant
                x < gs,
                y <= gs,
                v@.len() == cell_index(gsi, gsi, x as int, y as int, 0),
                gsi == gs as int,
                forall|a: u32, b: u32, c: u32|
                    a < gs && b < gs && c < gs && coord_lt(
                        a as int,
                        b as int,
                        c as int,
                        x as int,
                        y as int,
                        0,
                    ) ==> v@[#[trigger] cell_index(gsi, gsi, a as int, b as int, c as int)]
                        == sphere_cell_colors(gs, radius, inner, outer, a, b, c),
            decreases gs - y,
        {
            let mut z: u32 = 0;
            while z < gs
                invariant
                    x < gs,
                    y < gs,
                    z <= gs,
                    v@.len() == cell_index(gsi, gsi, x as int, y as int, z as int),
                    gsi == gs as int,
                    forall|a: u32, b: u32, c: u32|
                        a < gs && b < gs && c < gs && coord_lt(
                            a as int,
                            b as int,
                            c as int,
                            x as int,
                            y as int,
                            z as int,
                        ) ==> v@[#[trigger] cell_index(gsi, gsi, a as int, b as int, c as int)]
                            == sphere_cell_colors(gs, radius, inner, outer, a, b, c),
                decreases gs - z,
            {
                let half = gs / 2;
                let dx = if x >= half {
                    x - half
                } else {
                    half - x
                };
                let dy = if y >= half {
                    y - half
                } else {
                    half - y
                };
                let dz = if z >= half {
                    z - half
                } else {
                    half - z
                };
                proof {
                    assert(dx as int * dx as int + dy as int * dy as int + dz as int * dz as int
                        <= u128::MAX && radius as int * radius as int <= u128::MAX)
                        by (nonlinear_arith)
                        requires
                            dx <= u32::MAX,
                            dy <= u32::MAX,
                            dz <= u32::MAX,
                            radius <= u32::MAX,
                    ;
                }
                let d2 = (dx as u128) * (dx as u128) + (dy as u128) * (dy as u128) + (dz as u128)
                    * (dz as u128);
                let r2 = (radius as u128) * (radius as u128);
                let val: u32 = if d2 < r2 {
                    let offset_sum = dx as u64 + dy as u64 + dz as u64;
                    let limit = radius as u64 * 14 / 10;
                    if offset_sum <= limit {
                        inner
                    } else {
                        outer
                    }
                } else {
                    0
                };
                assert(val == sphere_cell_colors(gs, radius, inner, outer, x, y, z));
                let ghost prev = v@;
                v.push(val);
                proof {
                    assert forall|a: u32, b: u32, c: u32|
                        a < gs && b < gs && c < gs && coord_lt(
                            a as int,
                            b as int,
                            c as int,
                            x as int,
                            y as int,
                            z as int + 1,
                        ) implies v@[#[trigger] cell_index(gsi, gsi, a as int, b as int, c as int)]
                        == sphere_cell_colors(gs, radius, inner, outer, a, b, c) by {
                        lemma_cell_index_bounds(gsi, gsi, a as int, b as int, c as int, gsi);
                        if coord_lt(a as int, b as int, c as int, x as int, y as int, z as int) {
                            lemma_cell_index_lt(
                                gsi,
                                gsi,
                                a as int,
                                b as int,
                                c as int,
                                x as int,
                                y as int,
                                z as int,
                            );
                            assert(v@[cell_index(gsi, gsi, a as int, b as int, c as int)]
                                == prev[cell_index(gsi, gsi, a as int, b as int, c as int)]);
                        } else {
                            assert(a == x && b == y && c == z);
                        }
                    }
                }
                z = z + 1;
            }
            proof {
                assert((y as int + 1) * gsi == y as int * gsi + gsi) by (nonlinear_arith);
            }
            y = y + 1;
        }
        proof {
            assert(((x as int + 1) * gsi) * gsi == (x as int * gsi) * gsi + gsi * gsi)
                by (nonlinear_arith);
        }
        x = x + 1;
    }
    v
}

/// Builds the dense cube grid of the banded sphere: cell `(x, y, z)` of the
/// result holds `sphere_cell(grid_size, radius, x, y, z)` at the canonical
/// linear index. A zero `radius` or zero `grid_size` gives an all-zero or
/// empty grid.
pub fn create_sphere_voxels(grid_size: u32, radius: u32) -> (v: Vec<u32>)
    requires
        grid_size as int * grid_size as int * grid_size as int <= u32::MAX as int,
    ensures
        v@.len() == grid_size as int * grid_size as int * grid_size as int,
        forall|x: u32, y: u32, z: u32|
            x < grid_size && y < grid_size && z < grid_size ==> v@[#[trigger] cell_index(
                grid_size as int,
                grid_size as int,
                x as int,
                y as int,
                z as int,
            )] == sphere_cell(grid_size, radius, x, y, z),
{
    build_sphere_voxels(grid_size, radius, INNER_BAND_COLOR, OUTER_BAND_COLOR)
}

/// The simpler generator variant: every filled voxel of the sphere gets the
/// single color `fill`, with no banding.
pub fn create_uniform_sphere_voxels(grid_size: u32, radius: u32, fill: u32) -> (v: Vec<u32>)
    requires
        grid_size as int * grid_size as int * grid_size as int <= u32::MAX as int,
    ensures
        v@.len() == grid_size as int * grid_size as int * grid_size as int,
        forall|x: u32, y: u32, z: u32|
            x < grid_size && y < grid_size && z < grid_size ==> v@[#[trigger] cell_index(
                grid_size as int,
                grid_size as int,
                x as int,
                y as int,
                z as int,
            )] == uniform_sphere_cell(grid_size, radius, fill, x, y, z),
{
    build_sphere_voxels(grid_size, radius, fill, fill)
}

} // verus!
