//! Packing a dense voxel grid into a GPU-consumable byte buffer.
//!
//! The layout is fixed: four bytes per cell, little-endian, in linear cell
//! order. Decoding the buffer four bytes at a time reproduces the cell
//! sequence exactly.

use vstd::bytes::{
    lemma_auto_spec_u32_to_from_le_bytes, spec_u32_from_le_bytes, spec_u32_to_le_bytes,
    u32_from_le_bytes, u32_to_le_bytes,
};
use vstd::prelude::*;
use vstd::slice::slice_subrange;

verus! {

/// The bytes of a cell sequence: each cell contributes its little-endian
/// 4-byte encoding, in linear order.
pub open spec fn packed_bytes(cells: Seq<u32>) -> Seq<u8>
    decreases cells.len(),
{
    if cells.len() == 0 {
        Seq::empty()
    } else {
        packed_bytes(cells.drop_last()) + spec_u32_to_le_bytes(cells.last())
    }
}

/// The cells read back from a packed buffer, four bytes at a time,
/// little-endian, in linear order.
pub open spec fn unpacked_cells(bytes: Seq<u8>) -> Seq<u32>
    decreases bytes.len(),
{
    if bytes.len() < 4 {
        Seq::empty()
    } else {
        unpacked_cells(bytes.take(bytes.len() - 4)).push(
            spec_u32_from_le_bytes(bytes.skip(bytes.len() - 4)),
        )
    }
}

/// A packed buffer holds exactly four bytes per cell.
pub proof fn lemma_packed_bytes_len(cells: Seq<u32>)
    ensures
        packed_bytes(cells).len() == 4 * cells.len(),
    decreases cells.len(),
{
    lemma_auto_spec_u32_to_from_le_bytes();
    if cells.len() > 0 {
        lemma_packed_bytes_len(cells.drop_last());
    }
}

/// Byte layout: the bytes `[4*i .. 4*i + 4)` of a packed buffer are the
/// little-endian encoding of cell `i`.
pub proof fn lemma_packed_bytes_chunk(cells: Seq<u32>, i: int)
    requires
        0 <= i < cells.len(),
    ensures
        packed_bytes(cells).subrange(4 * i, 4 * i + 4) == spec_u32_to_le_bytes(cells[i]),
    decreases cells.len(),
{
    lemma_auto_spec_u32_to_from_le_bytes();
    lemma_packed_bytes_len(cells);
    lemma_packed_bytes_len(cells.drop_last());
    if i == cells.len() - 1 {
        assert(packed_bytes(cells).subrange(4 * i, 4 * i + 4) =~= spec_u32_to_le_bytes(
            cells.last(),
        ));
    } else {
        lemma_packed_bytes_chunk(cells.drop_last(), i);
        assert(packed_bytes(cells).subrange(4 * i, 4 * i + 4) =~= packed_bytes(
            cells.drop_last(),
        ).subrange(4 * i, 4 * i + 4));
    }
}

/// Round-trip law: packing a cell sequence and then decoding the buffer four
/// bytes at a time, little-endian, in linear order reproduces the original
/// cell sequence exactly — including the empty sequence, whose buffer is
/// empty.
pub proof fn lemma_pack_unpack_roundtrip(cells: Seq<u32>)
    ensures
        unpacked_cells(packed_bytes(cells)) == cells,
    decreases cells.len(),
{
    lemma_auto_spec_u32_to_from_le_bytes();
    lemma_packed_bytes_len(cells);
    if cells.len() == 0 {
        assert(unpacked_cells(packed_bytes(cells)) =~= cells);
    } else {
        lemma_pack_unpack_roundtrip(cells.drop_last());
        lemma_packed_bytes_len(cells.drop_last());
        let b = packed_bytes(cells);
        assert(b.take(b.len() - 4) =~= packed_bytes(cells.drop_last()));
        assert(b.skip(b.len() - 4) =~= spec_u32_to_le_bytes(cells.last()));
        assert(unpacked_cells(b) =~= cells);
    }
}

/// Serializes a grid's cells into the packed byte layout: four bytes per
/// cell, little-endian, in linear order.
pub fn voxels_to_data(volume: Vec<u32>) -> (data: Vec<u8>)
    ensures
        data@ == packed_bytes(volume@),
        data@.len() == 4 * volume@.len(),
        forall|i: int|
            0 <= i < volume@.len() ==> data@.subrange(4 * i, 4 * i + 4) == spec_u32_to_le_bytes(
                volume@[i],
            ),
{
    let n = volume.len();
    let mut data: Vec<u8> = Vec::new();
    let mut i: usize = 0;
    while i < n
        invariant
            i <= n,
            n == volume@.len(),
            data@ == packed_bytes(volume@.take(i as int)),
            data@.len() == 4 * i,
        decreases n - i,
    {
        let mut chunk = u32_to_le_bytes(volume[i]);
        data.append(&mut chunk);
        proof {
            lemma_auto_spec_u32_to_from_le_bytes();
            assert(volume@.take(i as int + 1).drop_last() =~= volume@.take(i as int));
        }
        i = i + 1;
    }
    proof {
        assert(volume@.take(n as int) =~= volume@);
        assert forall|j: int| 0 <= j < volume@.len() implies data@.subrange(4 * j, 4 * j + 4)
            == spec_u32_to_le_bytes(volume@[j]) by {
            lemma_packed_bytes_chunk(volume@, j);
        }
    }
    data
}

/// Decodes a packed buffer back into its cell sequence, four bytes at a
/// time, little-endian, in linear order.
pub fn data_to_voxels(data: &[u8]) -> (cells: Vec<u32>)
    requires
        data@.len() % 4 == 0,
    ensures
        cells@ == unpacked_cells(data@),
        data@.len() == 4 * cells@.len(),
{
    let n = data.len() / 4;
    let mut cells: Vec<u32> = Vec::new();
    let mut i: usize = 0;
    while i < n
        invariant
            i <= n,
            n <= usize::MAX / 4,
            data@.len() == 4 * n,
            cells@ == unpacked_cells(data@.take(4 * i as int)),
            cells@.len() == i,
        decreases n - i,
    {
        let chunk = slice_subrange(data, 4 * i, 4 * i + 4);
        let v = u32_from_le_bytes(chunk);
        cells.push(v);
        proof {
            let t = data@.take(4 * (i as int) + 4);
            assert(t.take(t.len() - 4) =~= data@.take(4 * i as int));
            assert(t.skip(t.len() - 4) =~= data@.subrange(4 * (i as int), 4 * (i as int) + 4));
        }
        i = i + 1;
    }
    proof {
        assert(data@.take(4 * n as int) =~= data@);
    }
    cells
}

} // verus!
