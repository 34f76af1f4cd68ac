//! Importing a sparse MagicaVoxel model into a dense voxel grid.
//!
//! A parsed model holds a size, a sparse voxel list (position and palette
//! index) and a 256-entry RGB palette. The importer walks only the interior
//! coordinate range of the model — the outer one-voxel shell, and on the z
//! axis the outer two, is deliberately dropped — resolves each present
//! voxel's palette color, packs it as `(r << 16) | (g << 8) | b`, and writes
//! it at the canonical linear index of the grid, whose y and z extents are
//! swapped relative to the model to match the grid's up-axis convention.
//!
//! The `.vox` container itself is parsed by the `vox_format` crate. Its
//! chunk walker does unchecked `u32` offset arithmetic on lengths read from
//! the file, so before handing bytes to it the importer runs a verified
//! framing scan that walks the same chunk structure with checked
//! arithmetic; only bytes that keep the parser's walk inside `u32` reach
//! the parser.

use crate::grid::{
    cell_index, coord_lt, lemma_cell_index_bounds, lemma_cell_index_lt, VoxelGrid,
};
use vstd::bytes::{spec_u32_from_le_bytes, u32_from_le_bytes};
use vstd::prelude::*;
use vstd::slice::slice_subrange;

verus! {

/// An RGB palette color.
#[derive(Clone, Copy, Debug, PartialEq, Eq, Structural)]
pub struct Rgb {
    pub r: u8,
    pub g: u8,
    pub b: u8,
}

/// One voxel of a sparse model: a position and a palette index.
#[derive(Clone, Copy, Debug, PartialEq, Eq, Structural)]
pub struct SparseVoxel {
    pub x: u32,
    pub y: u32,
    pub z: u32,
    pub color_index: u8,
}

/// A sparse voxel model: most cells are absent and treated as empty.
pub struct SparseVoxelModel {
    /// Model extents per axis.
    pub size: (u32, u32, u32),
    /// The present voxels; a position lookup takes the first match.
    pub voxels: Vec<SparseVoxel>,
    /// The 256-entry palette that `color_index` resolves into.
    pub palette: Vec<Rgb>,
}

/// Why an import failed.
#[derive(Clone, Copy, Debug, PartialEq, Eq, Structural)]
pub enum ImportError {
    /// The bytes are not a well-formed `.vox` file.
    Malformed,
    /// The file holds no model.
    NoModel,
    /// The model's cell count exceeds what a dense grid can hold.
    TooLarge,
}

impl SparseVoxelModel {
    /// The palette always holds exactly 256 colors.
    pub open spec fn wf(self) -> bool {
        self.palette@.len() == 256
    }

    /// The number of cells of the dense grid this model maps to.
    pub open spec fn cell_count(self) -> int {
        self.size.0 as int * self.size.1 as int * self.size.2 as int
    }
}

/// A 24-bit color packed into the low bits of a 32-bit word.
pub open spec fn pack_rgb_spec(c: Rgb) -> u32 {
    ((c.r as u32) << 16) | ((c.g as u32) << 8) | (c.b as u32)
}

/// Packs a palette color as `(r << 16) | (g << 8) | b`.
pub fn pack_rgb(c: Rgb) -> (v: u32)
    ensures
        v == pack_rgb_spec(c),
{
    ((c.r as u32) << 16) | ((c.g as u32) << 8) | (c.b as u32)
}

/// The palette index of the first voxel of `voxels` at `(x, y, z)`, if any.
pub open spec fn first_voxel_color(voxels: Seq<SparseVoxel>, x: u32, y: u32, z: u32) -> Option<u8>
    decreases voxels.len(),
{
    if voxels.len() == 0 {
        None
    } else if voxels[0].x == x && voxels[0].y == y && voxels[0].z == z {
        Some(voxels[0].color_index)
    } else {
        first_voxel_color(voxels.drop_first(), x, y, z)
    }
}

/// The interior coordinate range the importer iterates: `[1, size - 1)` on
/// the x and y axes and `[1, size - 2)` on the z axis. Everything outside it
/// — the model's outer shell — is left empty.
pub open spec fn interior_coord(size: (u32, u32, u32), x: u32, y: u32, z: u32) -> bool {
    &&& 1 <= x as int && (x as int) < size.0 as int - 1
    &&& 1 <= y as int && (y as int) < size.1 as int - 1
    &&& 1 <= z as int && (z as int) < size.2 as int - 2
}

/// The color the imported grid holds for source coordinate `(x, y, z)`:
/// the packed palette color of the first voxel there, if the coordinate is
/// interior and a voxel is present, and zero otherwise.
pub open spec fn model_cell(m: SparseVoxelModel, x: u32, y: u32, z: u32) -> u32 {
    if interior_coord(m.size, x, y, z) {
        match first_voxel_color(m.voxels@, x, y, z) {
            Some(ci) => pack_rgb_spec(m.palette@[ci as int]),
            None => 0,
        }
    } else {
        0
    }
}

/// Interior-only policy: a source coordinate on the model's outer shell —
/// any axis at `0`, x or y at `size - 1`, or z at `size - 2` or above — is
/// always empty in the imported grid, whatever the model holds there.
pub proof fn lemma_import_interior_only(m: SparseVoxelModel, x: u32, y: u32, z: u32)
    requires
        x == 0 || x as int >= m.size.0 as int - 1 || y == 0 || y as int >= m.size.1 as int - 1
            || z == 0 || z as int >= m.size.2 as int - 2,
    ensures
        model_cell(m, x, y, z) == 0,
{
}

/// Finds the palette index of the first voxel at `(x, y, z)`.
fn find_voxel_color(voxels: &Vec<SparseVoxel>, x: u32, y: u32, z: u32) -> (r: Option<u8>)
    ensures
        r == first_voxel_color(voxels@, x, y, z),
{
    let n = voxels.len();
    let mut i: usize = 0;
    proof {
        assert(voxels@.skip(0) =~= voxels@);
    }
    while i < n
        invariant
            i <= n,
            n == voxels@.len(),
            first_voxel_color(voxels@, x, y, z) == first_voxel_color(
                voxels@.skip(i as int),
                x,
                y,
                z,
            ),
        decreases n - i,
    {
        let vx = voxels[i];
        proof {
            assert(voxels@.skip(i as int)[0] == voxels@[i as int]);
            assert(voxels@.skip(i as int).drop_first() =~= voxels@.skip(i as int + 1));
        }
        if vx.x == x && vx.y == y && vx.z == z {
            return Some(vx.color_index);
        }
        i = i + 1;
    }
    proof {
        assert(voxels@.skip(n as int) =~= Seq::<SparseVoxel>::empty());
    }
    None
}

/// Builds the dense grid of a sparse model. The grid's y and z extents are
/// the model's swapped — `dims == (size.0, size.2, size.1)` — and source
/// coordinate `(x, y, z)` lands at grid coordinate `(x, z, y)`; each cell
/// holds exactly `model_cell` of its source coordinate.
pub fn model_to_grid(m: &SparseVoxelModel) -> (g: VoxelGrid)
    requires
        m.wf(),
        m.cell_count() <= u32::MAX as int,
    ensures
        g.dims == (m.size.0, m.size.2, m.size.1),
        g.wf(),
        forall|x: u32, y: u32, z: u32|
            x < m.size.0 && y < m.size.1 && z < m.size.2 ==> g.cells@[#[trigger] cell_index(
                m.size.2 as int,
                m.size.1 as int,
                x as int,
                z as int,
                y as int,
            )] == model_cell(*m, x, y, z),
{
    let (sx, sy, sz) = (m.size.0, m.size.1, m.size.2);
    let ghost szi = sz as int;
    let ghost syi = sy as int;
    let mut cells: Vec<u32> = Vec::new();
    let mut x: u32 = 0;
    while x < sx
        invariant
            x <= sx,
            m.wf(),
            (sx, sy, sz) == m.size,
            szi == sz as int,
            syi == sy as int,
            cells@.len() == cell_index(szi, syi, x as int, 0, 0),
            forall|a: u32, b: u32, c: u32|
                a < sx && b < sz && c < sy && coord_lt(a as int, b as int, c as int, x as int, 0, 0)
                    ==> cells@[#[trigger] cell_index(szi, syi, a as int, b as int, c as int)] == model_cell(
                    *m,
                    a,
                    c,
                    b,
                ),
        decreases sx - x,
    {
        let mut z: u32 = 0;
        while z < sz
            invariant
                x < sx,
                z <= sz,
                m.wf(),
                (sx, sy, sz) == m.size,
                szi == sz as int,
                syi == sy as int,
                cells@.len() == cell_index(szi, syi, x as int, z as int, 0),
                forall|a: u32, b: u32, c: u32|
                    a < sx && b < sz && c < sy && coord_lt(
                        a as int,
                        b as int,
                        c as int,
                        x as int,
                        z as int,
                        0,
                    ) ==> cells@[#[trigger] cell_index(szi, syi, a as int, b as int, c as int)] == model_cell(
                        *m,
                        a,
                        c,
                        b,
                    ),
            decreases sz - z,
        {
            let mut y: u32 = 0;
            while y < sy
                invariant
                    x < sx,
                    z < sz,
                    y <= sy,
                    m.wf(),
                    (sx, sy, sz) == m.size,
                    szi == sz as int,
                    syi == sy as int,
                    cells@.len() == cell_index(szi, syi, x as int, z as int, y as int),
                    forall|a: u32, b: u32, c: u32|
                        a < sx && b < sz && c < sy && coord_lt(
                            a as int,
                            b as int,
                            c as int,
                            x as int,
                            z as int,
                            y as int,
                        ) ==> cells@[#[trigger] cell_index(szi, syi, a as int, b as int, c as int)]
                            == model_cell(*m, a, c, b),
                decreases sy - y,
            {
                let is_interior = x >= 1 && x + 1 < sx && y >= 1 && y + 1 < sy && z >= 1 && (z
                    as u64) + 2 < (sz as u64);
                let val: u32 = if is_interior {
                    match find_voxel_color(&m.voxels, x, y, z) {
                        Some(ci) => pack_rgb(m.palette[ci as usize]),
                        None => 0,
                    }
                } else {
                    0
                };
                assert(val == model_cell(*m, x, y, z));
                let ghost prev = cells@;
                cells.push(val);
                proof {
                    assert forall|a: u32, b: u32, c: u32|
                        a < sx && b < sz && c < sy && coord_lt(
                            a as int,
                            b as int,
                            c as int,
                            x as int,
                            z as int,
                            y as int + 1,
                        ) implies cells@[#[trigger] cell_index(szi, syi, a as int, b as int, c as int)]
                        == model_cell(*m, a, c, b) by {
                        lemma_cell_index_bounds(szi, syi, a as int, b as int, c as int, sx as int);
                        if coord_lt(a as int, b as int, c as int, x as int, z as int, y as int) {
                            lemma_cell_index_lt(
                                szi,
                                syi,
                                a as int,
                                b as int,
                                c as int,
                                x as int,
                                z as int,
                                y as int,
                            );
                            assert(cells@[cell_index(szi, syi, a as int, b as int, c as int)]
                                == prev[cell_index(szi, syi, a as int, b as int, c as int)]);
                        } else {
                            assert(a == x && b == z && c == y);
                        }
                    }
                }
                y = y + 1;
            }
            proof {
                assert((z as int + 1) * syi == z as int * syi + syi) by (nonlinear_arith);
            }
            z = z + 1;
        }
        proof {
            assert(((x as int + 1) * szi) * syi == (x as int * szi) * syi + szi * syi)
                by (nonlinear_arith);
        }
        x = x + 1;
    }
    proof {
        assert(sx as int * szi * syi == sx as int * syi * szi) by (nonlinear_arith);
    }
    VoxelGrid { dims: (sx, sz, sy), cells }
}

/// The little-endian 32-bit word at offset `i` of `bytes`.
pub open spec fn le_word(bytes: Seq<u8>, i: int) -> int {
    spec_u32_from_le_bytes(bytes.subrange(i, i + 4)) as int
}

/// Walks the child chunks of the `.vox` container the way the parser does —
/// each chunk header holds a content length and a children length, and the
/// walk advances by `content + children + 12` — and holds exactly when
/// every offset of that walk stays within `u32`. A header that cannot be
/// read in full stops the parser with a clean end-of-file error and is
/// therefore in bounds.
pub open spec fn chunk_walk_ok(bytes: Seq<u8>, off: int, end: int) -> bool
    decreases end - off,
{
    if off >= end {
        true
    } else if off + 12 > bytes.len() {
        true
    } else {
        let step = le_word(bytes, off + 4) + le_word(bytes, off + 8) + 12;
        if step <= u32::MAX && off + step <= u32::MAX {
            if off + step >= end {
                true
            } else {
                chunk_walk_ok(bytes, off + step, end)
            }
        } else {
            false
        }
    }
}

/// The file signature the parser demands before it walks any chunk: the
/// magic `VOX `, file version 150, and the root chunk id `MAIN`.
pub open spec fn has_vox_signature(bytes: Seq<u8>) -> bool {
    &&& bytes[0] == 0x56u8
    &&& bytes[1] == 0x4fu8
    &&& bytes[2] == 0x58u8
    &&& bytes[3] == 0x20u8
    &&& le_word(bytes, 4) == 150
    &&& bytes[8] == 0x4du8
    &&& bytes[9] == 0x41u8
    &&& bytes[10] == 0x49u8
    &&& bytes[11] == 0x4eu8
}

/// Holds exactly when the `.vox` parser, run on `bytes`, returns — a model
/// list or an error — instead of overflowing its `u32` chunk arithmetic:
/// the file is rejected or exhausted before the chunk walk begins, or the
/// root chunk's extent and the walk over its children stay within `u32`.
pub open spec fn vox_framing_ok(bytes: Seq<u8>) -> bool {
    &&& bytes.len() <= u32::MAX
    &&& {
        ||| bytes.len() < 20
        ||| !has_vox_signature(bytes)
        ||| {
            let content = le_word(bytes, 12);
            let children = le_word(bytes, 16);
            &&& 20 + content <= u32::MAX
            &&& 20 + content + children <= u32::MAX
            &&& chunk_walk_ok(bytes, 20 + content, 20 + content + children)
        }
    }
}

/// Reads the little-endian word at `i`.
fn read_le_word(bytes: &[u8], i: usize) -> (w: u32)
    requires
        i + 4 <= bytes@.len(),
    ensures
        w as int == le_word(bytes@, i as int),
{
    let n = bytes.len();
    proof {
        assert(i + 4 <= n);
    }
    u32_from_le_bytes(slice_subrange(bytes, i, i + 4))
}

/// Checks, without parsing, that the chunk framing of `bytes` keeps the
/// `.vox` parser's offset arithmetic inside `u32`: the precondition under
/// which the parser is handed the bytes.
pub fn check_vox_framing(bytes: &[u8]) -> (ok: bool)
    ensures
        ok == vox_framing_ok(bytes@),
{
    if bytes.len() > u32::MAX as usize {
        return false;
    }
    if bytes.len() < 20 {
        return true;
    }
    if !(bytes[0] == 0x56 && bytes[1] == 0x4f && bytes[2] == 0x58 && bytes[3] == 0x20) {
        return true;
    }
    if read_le_word(bytes, 4) != 150 {
        return true;
    }
    if !(bytes[8] == 0x4d && bytes[9] == 0x41 && bytes[10] == 0x49 && bytes[11] == 0x4e) {
        return true;
    }
    let content = read_le_word(bytes, 12) as u64;
    let children = read_le_word(bytes, 16) as u64;
    if 20 + content > u32::MAX as u64 || 20 + content + children > u32::MAX as u64 {
        return false;
    }
    let mut off: u64 = 20 + content;
    let end: u64 = 20 + content + children;
    while off < end
        invariant
            off <= u32::MAX as u64,
            end <= u32::MAX as u64,
            bytes@.len() <= u32::MAX,
            vox_framing_ok(bytes@) == chunk_walk_ok(bytes@, off as int, end as int),
        decreases end - off,
    {
        if off + 12 > bytes.len() as u64 {
            return true;
        }
        let at = off as usize;
        let step = read_le_word(bytes, at + 4) as u64 + read_le_word(bytes, at + 8) as u64 + 12;
        if step > u32::MAX as u64 || off + step > u32::MAX as u64 {
            return false;
        }
        if off + step >= end {
            return true;
        }
        off = off + step;
    }
    true
}

/// What the `.vox` parser returns for `bytes`, converted to the library's
/// sparse model: the first model entry and the 256-color palette, or the
/// error — a function of the bytes alone.
pub uninterp spec fn vox_parse(bytes: Seq<u8>) -> Result<SparseVoxelModel, ImportError>;

/// Relies on `vox_format::from_slice`: it parses the MagicaVoxel `.vox`
/// binary format into a list of models and a palette that always holds
/// exactly 256 colors, and its result depends on the bytes alone. The
/// framing precondition keeps the parser's chunk-offset arithmetic inside
/// `u32`, under which its walk returns instead of panicking or looping.
#[verifier::external_body]
fn parse_vox_slice(bytes: &[u8]) -> (r: Result<SparseVoxelModel, ImportError>)
    requires
        vox_framing_ok(bytes@),
    ensures
        r == vox_parse(bytes@),
        r matches Ok(m) ==> m.wf(),
{
    let data = vox_format::from_slice(bytes).map_err(|_| ImportError::Malformed)?;
    let model = data.models.get(0).ok_or(ImportError::NoModel)?;
    let voxels = model.voxels.iter().map(
        |v| SparseVoxel { x: v.point.x as u8 as u32, y: v.point.y as u8 as u32, z: v.point.z as u8 as u32, color_index: v.color_index.0 },
    ).collect();
    let palette = data.palette.colors.iter().map(|c| Rgb { r: c.r, g: c.g, b: c.b }).collect();
    Ok(SparseVoxelModel { size: (model.size.x, model.size.y, model.size.z), voxels, palette })
}

/// Imports the first model of a `.vox` file held in `bytes` as a dense
/// grid — exactly `model_to_grid` of what the parser returns. It fails
/// hard, with no fallback or empty grid substituted: on bytes whose chunk
/// framing would overflow the parser, on bytes the parser rejects (with
/// the parser's error), on a file without a model, and on a model whose
/// cell count exceeds what a dense grid can hold; on every other input it
/// succeeds.
pub fn import_voxel_grid(bytes: &[u8]) -> (r: Result<VoxelGrid, ImportError>)
    ensures
        !vox_framing_ok(bytes@) ==> r == Err::<VoxelGrid, ImportError>(ImportError::Malformed),
        vox_framing_ok(bytes@) ==> (vox_parse(bytes@) matches Err(e) ==> r == Err::<
            VoxelGrid,
            ImportError,
        >(e)),
        vox_framing_ok(bytes@) ==> (vox_parse(bytes@) matches Ok(m) ==> {
            &&& m.cell_count() > u32::MAX as int ==> r == Err::<VoxelGrid, ImportError>(
                ImportError::TooLarge,
            )
            &&& m.cell_count() <= u32::MAX as int ==> r is Ok
        }),
        r matches Ok(g) ==> (vox_parse(bytes@) matches Ok(m) && {
            &&& vox_framing_ok(bytes@)
            &&& g.dims == (m.size.0, m.size.2, m.size.1)
            &&& g.wf()
            &&& forall|x: u32, y: u32, z: u32|
                x < m.size.0 && y < m.size.1 && z < m.size.2 ==> g.cells@[#[trigger] cell_index(
                    m.size.2 as int,
                    m.size.1 as int,
                    x as int,
                    z as int,
                    y as int,
                )] == model_cell(m, x, y, z)
        }),
{
    if !check_vox_framing(bytes) {
        return Err(ImportError::Malformed);
    }
    let m = match parse_vox_slice(bytes) {
        Ok(m) => m,
        Err(e) => {
            return Err(e);
        },
    };
    proof {
        assert(m.size.0 as int * m.size.1 as int <= u128::MAX && m.size.0 as int * m.size.1 as int
            * m.size.2 as int <= u128::MAX) by (nonlinear_arith)
            requires
                m.size.0 <= u32::MAX,
                m.size.1 <= u32::MAX,
                m.size.2 <= u32::MAX,
        ;
    }
    let total = (m.size.0 as u128) * (m.size.1 as u128) * (m.size.2 as u128);
    if total > u32::MAX as u128 {
        return Err(ImportError::TooLarge);
    }
    Ok(model_to_grid(&m))
}

} // verus!
