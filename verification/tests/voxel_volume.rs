use vox_format::types::{Color, ColorIndex, Model, Point, Vector, Voxel};
use voxel_volume::create_sphere_voxels;
use voxel_volume::grid::{INNER_BAND_COLOR, OUTER_BAND_COLOR};
use voxel_volume::material::{AlphaMode, PipelineDescriptor, VoxelVolumeMaterial};
use voxel_volume::model::{
    check_vox_framing, import_voxel_grid, model_to_grid, ImportError, Rgb, SparseVoxel,
};
use voxel_volume::pack::data_to_voxels;
use voxel_volume::voxels_to_data;
use voxel_volume::SparseVoxelModel;

fn sphere_index(grid_size: u32, x: u32, y: u32, z: u32) -> usize {
    (x * grid_size * grid_size + y * grid_size + z) as usize
}

fn expected_sphere_cell(grid_size: u32, radius: u32, x: u32, y: u32, z: u32) -> u32 {
    let c = grid_size / 2;
    let dx = (if x >= c { x - c } else { c - x }) as u64;
    let dy = (if y >= c { y - c } else { c - y }) as u64;
    let dz = (if z >= c { z - c } else { c - z }) as u64;
    if dx * dx + dy * dy + dz * dz < (radius as u64) * (radius as u64) {
        if dx + dy + dz <= (radius as u64) * 14 / 10 {
            INNER_BAND_COLOR
        } else {
            OUTER_BAND_COLOR
        }
    } else {
        0
    }
}

#[test]
fn sphere_matches_occupancy_rule() {
    let gs = 8;
    let r = 3;
    let v = create_sphere_voxels(gs, r);
    assert_eq!(v.len(), 512);
    for x in 0..gs {
        for y in 0..gs {
            for z in 0..gs {
                assert_eq!(
                    v[sphere_index(gs, x, y, z)],
                    expected_sphere_cell(gs, r, x, y, z)
                );
            }
        }
    }
}

#[test]
fn sphere_zero_radius_is_all_zero() {
    let v = create_sphere_voxels(4, 0);
    assert_eq!(v.len(), 64);
    assert!(v.iter().all(|&c| c == 0));
}

#[test]
fn sphere_zero_grid_is_empty() {
    let v = create_sphere_voxels(0, 5);
    assert!(v.is_empty());
}

#[test]
fn sphere_center_cell_is_inner_band() {
    let v = create_sphere_voxels(16, 7);
    assert_eq!(v[sphere_index(16, 8, 8, 8)], INNER_BAND_COLOR);
}

#[test]
fn end_to_end_sphere_pack() {
    let v = create_sphere_voxels(16, 7);
    assert_eq!(v.len(), 16 * 16 * 16);
    let center = v[sphere_index(16, 8, 8, 8)];
    let corner = v[sphere_index(16, 0, 0, 0)];
    assert_ne!(center, 0);
    assert_eq!(corner, 0);
    let data = voxels_to_data(v);
    assert_eq!(data.len(), 16384);
}

#[test]
fn pack_layout_is_little_endian() {
    let data = voxels_to_data(vec![0x11223344, 0x006b2100]);
    assert_eq!(data, vec![0x44, 0x33, 0x22, 0x11, 0x00, 0x21, 0x6b, 0x00]);
}

#[test]
fn pack_unpack_round_trip() {
    let cells = vec![0u32, 1, 0xdeadbeef, u32::MAX, 0x006b2100, 7];
    let data = voxels_to_data(cells.clone());
    assert_eq!(data.len(), 4 * cells.len());
    let back = data_to_voxels(&data);
    assert_eq!(back, cells);
    for (i, &cell) in cells.iter().enumerate() {
        let mut chunk = [0u8; 4];
        chunk.copy_from_slice(&data[4 * i..4 * i + 4]);
        assert_eq!(u32::from_le_bytes(chunk), cell);
    }
}

#[test]
fn pack_empty_grid_is_empty_buffer() {
    let data = voxels_to_data(vec![]);
    assert!(data.is_empty());
    assert!(data_to_voxels(&data).is_empty());
}

fn test_palette() -> Vec<Rgb> {
    let mut palette = vec![Rgb { r: 0, g: 0, b: 0 }; 256];
    palette[7] = Rgb {
        r: 0x6b,
        g: 0x21,
        b: 0x00,
    };
    palette[9] = Rgb { r: 171, g: 33, b: 0 };
    palette
}

fn model_index(size: (u32, u32, u32), x: u32, y: u32, z: u32) -> usize {
    (x * size.2 * size.1 + z * size.1 + y) as usize
}

#[test]
fn import_packs_palette_colors() {
    let m = SparseVoxelModel {
        size: (5, 5, 5),
        voxels: vec![
            SparseVoxel {
                x: 2,
                y: 2,
                z: 1,
                color_index: 7,
            },
            SparseVoxel {
                x: 1,
                y: 1,
                z: 2,
                color_index: 9,
            },
        ],
        palette: test_palette(),
    };
    let g = model_to_grid(&m);
    assert_eq!(g.dims, (5, 5, 5));
    assert_eq!(g.cells.len(), 125);
    assert_eq!(g.cells[model_index(m.size, 2, 2, 1)], 0x006b2100);
    assert_eq!(g.cells[model_index(m.size, 1, 1, 2)], 0x00ab2100);
}

#[test]
fn import_drops_outer_shell() {
    let boundary = [
        (0, 2, 1),
        (4, 2, 1),
        (2, 0, 1),
        (2, 4, 1),
        (2, 2, 0),
        (2, 2, 3),
        (2, 2, 4),
    ];
    let voxels = boundary
        .iter()
        .map(|&(x, y, z)| SparseVoxel {
            x,
            y,
            z,
            color_index: 7,
        })
        .collect();
    let m = SparseVoxelModel {
        size: (5, 5, 5),
        voxels,
        palette: test_palette(),
    };
    let g = model_to_grid(&m);
    assert_eq!(g.cells.len(), 125);
    assert!(g.cells.iter().all(|&c| c == 0));
}

#[test]
fn import_swaps_y_and_z_extents() {
    let m = SparseVoxelModel {
        size: (4, 6, 5),
        voxels: vec![SparseVoxel {
            x: 1,
            y: 3,
            z: 1,
            color_index: 9,
        }],
        palette: test_palette(),
    };
    let g = model_to_grid(&m);
    assert_eq!(g.dims, (4, 5, 6));
    assert_eq!(g.cells.len(), 120);
    assert_eq!(g.cells[model_index(m.size, 1, 3, 1)], 0x00ab2100);
}

#[test]
fn import_first_matching_voxel_wins() {
    let m = SparseVoxelModel {
        size: (5, 5, 5),
        voxels: vec![
            SparseVoxel {
                x: 2,
                y: 2,
                z: 1,
                color_index: 7,
            },
            SparseVoxel {
                x: 2,
                y: 2,
                z: 1,
                color_index: 9,
            },
        ],
        palette: test_palette(),
    };
    let g = model_to_grid(&m);
    assert_eq!(g.cells[model_index(m.size, 2, 2, 1)], 0x006b2100);
}

#[test]
fn import_from_vox_bytes() {
    let mut data = vox_format::data::VoxData::default();
    data.models.push(Model {
        size: Vector::new(5, 5, 5),
        voxels: vec![Voxel::new(Point::new(2, 2, 1), ColorIndex(7))],
    });
    data.palette.colors[7] = Color {
        r: 0x6b,
        g: 0x21,
        b: 0x00,
        a: 0xff,
    };
    let bytes = vox_format::writer::to_vec(&data).unwrap();
    let g = import_voxel_grid(&bytes).unwrap();
    assert_eq!(g.dims, (5, 5, 5));
    assert_eq!(g.cells[model_index((5, 5, 5), 2, 2, 1)], 0x006b2100);
}

#[test]
fn import_rejects_garbage() {
    let r = import_voxel_grid(b"definitely not a vox file");
    assert!(matches!(r, Err(ImportError::Malformed)));
}

#[test]
fn import_rejects_file_without_model() {
    let data = vox_format::data::VoxData::default();
    let bytes = vox_format::writer::to_vec(&data).unwrap();
    let r = import_voxel_grid(&bytes);
    assert!(matches!(r, Err(ImportError::NoModel)));
}

#[test]
fn import_rejects_oversized_model() {
    let mut data = vox_format::data::VoxData::default();
    data.models.push(Model {
        size: Vector::new(0x10000, 0x10000, 0x10000),
        voxels: vec![],
    });
    let bytes = vox_format::writer::to_vec(&data).unwrap();
    let r = import_voxel_grid(&bytes);
    assert!(matches!(r, Err(ImportError::TooLarge)));
}

fn opaque_descriptor() -> PipelineDescriptor {
    PipelineDescriptor {
        label: Some("opaque_mesh_pipeline".to_string()),
        vertex_entry_point: "vertex".to_string(),
        fragment_entry_point: Some("fragment".to_string()),
    }
}

#[test]
fn specialize_rewrites_opaque_variant() {
    let mut d = opaque_descriptor();
    VoxelVolumeMaterial::specialize(&mut d);
    assert_eq!(d.vertex_entry_point, "main");
    assert_eq!(d.fragment_entry_point.as_deref(), Some("main"));
    assert_eq!(d.label.as_deref(), Some("opaque_mesh_pipeline"));
}

#[test]
fn specialize_is_idempotent() {
    let mut once = opaque_descriptor();
    VoxelVolumeMaterial::specialize(&mut once);
    let mut twice = opaque_descriptor();
    VoxelVolumeMaterial::specialize(&mut twice);
    VoxelVolumeMaterial::specialize(&mut twice);
    assert_eq!(once.vertex_entry_point, twice.vertex_entry_point);
    assert_eq!(once.fragment_entry_point, twice.fragment_entry_point);
    assert_eq!(once.label, twice.label);
}

#[test]
fn specialize_leaves_other_variants_alone() {
    let mut d = PipelineDescriptor {
        label: Some("shadow_pipeline".to_string()),
        vertex_entry_point: "vertex".to_string(),
        fragment_entry_point: Some("fragment".to_string()),
    };
    VoxelVolumeMaterial::specialize(&mut d);
    assert_eq!(d.vertex_entry_point, "vertex");
    assert_eq!(d.fragment_entry_point.as_deref(), Some("fragment"));

    let mut unlabeled = PipelineDescriptor {
        label: None,
        vertex_entry_point: "vertex".to_string(),
        fragment_entry_point: None,
    };
    VoxelVolumeMaterial::specialize(&mut unlabeled);
    assert_eq!(unlabeled.vertex_entry_point, "vertex");
    assert_eq!(unlabeled.fragment_entry_point, None);
}

#[test]
fn material_reports_shaders_and_alpha_mode() {
    assert_eq!(
        VoxelVolumeMaterial::vertex_shader(),
        "shaders/voxel_volume_material.vert"
    );
    assert_eq!(
        VoxelVolumeMaterial::fragment_shader(),
        "shaders/voxel_volume_material.frag"
    );
    let material = VoxelVolumeMaterial { size: (16, 16, 16) };
    assert_eq!(material.alpha_mode(), AlphaMode::Opaque);
}

#[test]
fn uniform_sphere_fills_without_banding() {
    let gs = 8;
    let r = 3;
    let fill = 0x123456;
    let v = voxel_volume::create_uniform_sphere_voxels(gs, r, fill);
    let banded = create_sphere_voxels(gs, r);
    assert_eq!(v.len(), 512);
    for i in 0..v.len() {
        if banded[i] != 0 {
            assert_eq!(v[i], fill);
        } else {
            assert_eq!(v[i], 0);
        }
    }
}

fn vox_root_header(content_len: u32, children_len: u32) -> Vec<u8> {
    let mut bytes = Vec::new();
    bytes.extend_from_slice(b"VOX ");
    bytes.extend_from_slice(&150u32.to_le_bytes());
    bytes.extend_from_slice(b"MAIN");
    bytes.extend_from_slice(&content_len.to_le_bytes());
    bytes.extend_from_slice(&children_len.to_le_bytes());
    bytes
}

#[test]
fn import_rejects_overflowing_root_chunk() {
    // A root chunk whose content length would overflow the parser's
    // children-offset arithmetic.
    let bytes = vox_root_header(u32::MAX, 0);
    assert!(matches!(
        import_voxel_grid(&bytes),
        Err(ImportError::Malformed)
    ));
}

#[test]
fn import_rejects_overflowing_child_chunk() {
    // A child chunk whose total length wraps around u32, which would leave
    // the parser's chunk walk stuck at the same offset.
    let mut bytes = vox_root_header(0, 24);
    bytes.extend_from_slice(b"AAAA");
    bytes.extend_from_slice(&(u32::MAX - 11).to_le_bytes());
    bytes.extend_from_slice(&0u32.to_le_bytes());
    assert!(matches!(
        import_voxel_grid(&bytes),
        Err(ImportError::Malformed)
    ));
}

#[test]
fn framing_scan_separates_clean_from_overflowing_files() {
    // Too short for any chunk arithmetic: the parser fails cleanly.
    assert!(check_vox_framing(b""));
    assert!(check_vox_framing(b"VOX "));
    // A written file always frames cleanly.
    let bytes = vox_format::writer::to_vec(&vox_format::data::VoxData::default()).unwrap();
    assert!(check_vox_framing(&bytes));
    // An overflowing root extent does not.
    assert!(!check_vox_framing(&vox_root_header(u32::MAX, 0)));
}
