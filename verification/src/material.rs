//! The volume material descriptor and its pipeline specializer.
//!
//! The authored volume shaders use a single fixed entry-point name, `main`,
//! for every stage, rather than the render backend's default per-stage
//! names. The specializer therefore rewrites the entry points of exactly
//! one pipeline variant — the one labeled as the standard opaque-mesh
//! pipeline — and leaves every other variant untouched.

use vstd::prelude::*;

verus! {

broadcast use vstd::string::group_string_axioms;

/// The alpha compositing mode of the volume material: always fully opaque
/// (no blending; transparency, if any, is a shader-internal concern).
#[derive(Clone, Copy, Debug, PartialEq, Eq, Structural)]
pub enum AlphaMode {
    Opaque,
}

/// What the specializer reads and rewrites of a render pipeline descriptor
/// under construction: its variant label and its stage entry-point names.
pub struct PipelineDescriptor {
    /// The backend's label of the pipeline variant being built.
    pub label: Option<String>,
    /// Entry-point name of the vertex stage.
    pub vertex_entry_point: String,
    /// Entry-point name of the fragment stage, if the variant has one.
    pub fragment_entry_point: Option<String>,
}

/// The mathematical image of a pipeline descriptor.
#[verifier::ext_equal]
pub struct PipelineDescriptorView {
    pub label: Option<Seq<char>>,
    pub vertex_entry_point: Seq<char>,
    pub fragment_entry_point: Option<Seq<char>>,
}

impl View for PipelineDescriptor {
    type V = PipelineDescriptorView;

    open spec fn view(&self) -> PipelineDescriptorView {
        PipelineDescriptorView {
            label: self.label.deep_view(),
            vertex_entry_point: self.vertex_entry_point@,
            fragment_entry_point: self.fragment_entry_point.deep_view(),
        }
    }
}

/// The label of the pipeline variant used for opaque meshes, the only
/// variant the specializer rewrites.
pub open spec fn opaque_mesh_label() -> Seq<char> {
    "opaque_mesh_pipeline"@
}

/// The entry-point name the authored shaders use for every stage.
pub open spec fn shader_entry_point() -> Seq<char> {
    "main"@
}

/// What one application of the specializer does to a descriptor: on the
/// opaque-mesh variant both stage entry points become `main`, on any other
/// variant nothing changes.
pub open spec fn specialize_spec(d: PipelineDescriptorView) -> PipelineDescriptorView {
    if d.label == Some(opaque_mesh_label()) {
        PipelineDescriptorView {
            vertex_entry_point: shader_entry_point(),
            fragment_entry_point: Some(shader_entry_point()),
            ..d
        }
    } else {
        d
    }
}

/// Idempotence law: specializing a descriptor twice yields exactly what
/// specializing it once yields.
pub proof fn lemma_specialize_idempotent(d: PipelineDescriptorView)
    ensures
        specialize_spec(specialize_spec(d)) == specialize_spec(d),
{
    assert(specialize_spec(specialize_spec(d)) =~= specialize_spec(d));
}

/// The per-instance configuration of a rendered volume: the grid extents
/// bound to the box mesh. The packed voxel buffer itself is uploaded to and
/// owned by the render backend.
pub struct VoxelVolumeMaterial {
    /// Grid extents, read once per frame into shader-visible bindings.
    pub size: (u32, u32, u32),
}

impl VoxelVolumeMaterial {
    /// Path of the vertex-stage shader program.
    pub fn vertex_shader() -> (r: &'static str)
        ensures
            r@ == "shaders/voxel_volume_material.vert"@,
    {
        "shaders/voxel_volume_material.vert"
    }

    /// Path of the fragment-stage shader program.
    pub fn fragment_shader() -> (r: &'static str)
        ensures
            r@ == "shaders/voxel_volume_material.frag"@,
    {
        "shaders/voxel_volume_material.frag"
    }

    /// The material composites fully opaque.
    pub fn alpha_mode(&self) -> (r: AlphaMode)
        ensures
            r == AlphaMode::Opaque,
    {
        AlphaMode::Opaque
    }

    /// Rewrites the stage entry points of the opaque-mesh pipeline variant
    /// to the shaders' `main` convention; any other variant is left
    /// unchanged. The opaque-mesh variant always carries a fragment stage.
    pub fn specialize(descriptor: &mut PipelineDescriptor)
        requires
            old(descriptor)@.label == Some(opaque_mesh_label()) ==> old(
                descriptor,
            ).fragment_entry_point is Some,
        ensures
            final(descriptor)@ == specialize_spec(old(descriptor)@),
    {
        let target = "opaque_mesh_pipeline".to_string();
        let is_opaque = match &descriptor.label {
            Some(l) => *l == target,
            None => false,
        };
        if is_opaque {
            descriptor.vertex_entry_point = "main".to_string();
            descriptor.fragment_entry_point = Some("main".to_string());
        }
        assert(descriptor@ =~= specialize_spec(old(descriptor)@));
    }
}

} // verus!
