//! The resource-binding builder: from a shader, an ordered list of uniform
//! buffers and an ordered list of textures to the three bind sets and the
//! pipeline state that draw with them.

use crate::camera::camera::{Camera, FrameMatrices};
use crate::camera::uniforms::CameraUniforms;
use crate::materials::bind_group::{
    required_entries, required_group, texture_entries, texture_group, uniform_entries,
    uniform_group, BindGroupEntry, BindGroupKind, BufferId,
};
use crate::geometry::mesh::{Vertex, VertexBufferLayout};
use crate::materials::utils::{create_buffer, labelled, Buffer};
use crate::render_pass::{RenderCommand, RenderPass, UniformData};
use crate::texture::Texture;
use crate::transform::{TransformGraph, TransformUniforms};
use vstd::prelude::*;

verus! {

/// How polygons are rasterised.
#[derive(Clone, Copy, Debug, PartialEq, Eq, Structural)]
pub enum PolygonMode {
    Fill,
    Line,
    Point,
}

/// A side of a polygon.
#[derive(Clone, Copy, Debug, PartialEq, Eq, Structural)]
pub enum Face {
    Front,
    Back,
}

/// Comparison of the depth test.
#[derive(Clone, Copy, Debug, PartialEq, Eq, Structural)]
pub enum CompareFunction {
    Less,
    LessEqual,
    Greater,
    GreaterEqual,
    Always,
}

/// Format of a render target.
#[derive(Clone, Copy, Debug, PartialEq, Eq, Structural)]
pub enum TextureFormat {
    /// The format that the surface is configured with.
    Surface,
    /// Depth in at least 24 bits.
    Depth24Plus,
    /// Depth in 32 bits.
    Depth32Float,
}

/// How the vertices of a draw make up primitives.
#[derive(Clone, Copy, Debug, PartialEq, Eq, Structural)]
pub enum PrimitiveTopology {
    PointList,
    LineList,
    LineStrip,
    TriangleList,
    TriangleStrip,
}

/// How a fragment combines with what the target holds.
#[derive(Clone, Copy, Debug, PartialEq, Eq, Structural)]
pub enum BlendState {
    /// The fragment replaces what is there.
    Replace,
    /// The fragment is laid over what is there by its alpha.
    AlphaBlending,
}

/// The write mask that lets all four channels through: red, green, blue and
/// alpha, one bit each.
pub const COLOR_WRITES_ALL: u32 = 0xF;

/// The colour target of a pipeline.
#[derive(Clone, Copy, Debug, PartialEq, Eq, Structural)]
pub struct ColorTargetState {
    pub format: TextureFormat,
    pub blend: BlendState,
    pub write_mask: u32,
}

/// The state compiled into a pipeline besides its bind sets and its vertex
/// layout: the entry points of the two shader stages, how primitives are
/// assembled and rasterised, the colour target and the depth test.
#[derive(Clone, Copy, Debug, PartialEq, Eq)]
pub struct PipelineState {
    pub vertex_entry_point: &'static str,
    pub fragment_entry_point: &'static str,
    pub topology: PrimitiveTopology,
    pub polygon_mode: PolygonMode,
    pub cull_mode: Option<Face>,
    pub color_target: ColorTargetState,
    pub depth_format: TextureFormat,
    pub depth_write_enabled: bool,
    pub depth_compare: CompareFunction,
}

impl PipelineState {
    /// The state for a polygon mode and a culling choice. The vertex stage
    /// enters at `vs_main`, the fragment stage at `fs_main`; triangles come
    /// as a list; back faces are culled or nothing is; fragments replace the
    /// colour of the surface in all channels; depth is tested less-or-equal,
    /// written, and kept in at least 24 bits.
    pub open spec fn of(polygon_mode: PolygonMode, back_face_culling: bool) -> PipelineState {
        PipelineState {
            vertex_entry_point: "vs_main",
            fragment_entry_point: "fs_main",
            topology: PrimitiveTopology::TriangleList,
            polygon_mode,
            cull_mode: if back_face_culling {
                Some(Face::Back)
            } else {
                None
            },
            color_target: ColorTargetState {
                format: TextureFormat::Surface,
                blend: BlendState::Replace,
                write_mask: COLOR_WRITES_ALL,
            },
            depth_format: TextureFormat::Depth24Plus,
            depth_write_enabled: true,
            depth_compare: CompareFunction::LessEqual,
        }
    }

    pub fn new(polygon_mode: PolygonMode, back_face_culling: bool) -> (state: PipelineState)
        ensures
            state == Self::of(polygon_mode, back_face_culling),
    {
        PipelineState {
            vertex_entry_point: "vs_main",
            fragment_entry_point: "fs_main",
            topology: PrimitiveTopology::TriangleList,
            polygon_mode,
            cull_mode: if back_face_culling {
                Some(Face::Back)
            } else {
                None
            },
            color_target: ColorTargetState {
                format: TextureFormat::Surface,
                blend: BlendState::Replace,
                write_mask: COLOR_WRITES_ALL,
            },
            depth_format: TextureFormat::Depth24Plus,
            depth_write_enabled: true,
            depth_compare: CompareFunction::LessEqual,
        }
    }
}

/// The commands that bind a pipeline: its two own blocks are uploaded, then
/// the pipeline and its three bind sets are set in their fixed order.
pub open spec fn pipeline_commands(
    transform_uniforms: TransformUniforms,
    camera_uniforms: CameraUniforms,
) -> Seq<RenderCommand> {
    seq![
        RenderCommand::WriteBuffer {
            buffer: BufferId::Transform,
            data: UniformData::Transform(transform_uniforms),
        },
        RenderCommand::WriteBuffer {
            buffer: BufferId::Camera,
            data: UniformData::Camera(camera_uniforms),
        },
        RenderCommand::SetPipeline,
        RenderCommand::SetBindGroup { index: 0, group: BindGroupKind::Required },
        RenderCommand::SetBindGroup { index: 1, group: BindGroupKind::Uniform },
        RenderCommand::SetBindGroup { index: 2, group: BindGroupKind::Texture },
    ]
}

/// The debug labels of the objects of a pipeline.
pub struct PipelineLabels {
    pub shader: String,
    pub required_bind_group_layout: String,
    pub required_bind_group: String,
    pub uniform_bind_group_layout: String,
    pub uniform_bind_group: String,
    pub texture_bind_group_layout: String,
    pub texture_bind_group: String,
    pub pipeline_layout: String,
    pub pipeline: String,
}

impl PipelineLabels {
    /// The labels under two prefixes: `tight` stands directly before the
    /// label of the shader module, `spaced` before the others.
    pub open spec fn prefixed(&self, tight: Seq<char>, spaced: Seq<char>) -> bool {
        &&& self.shader@ == tight + "Shader"@
        &&& self.required_bind_group_layout@ == spaced + "Required Bind Group Layout"@
        &&& self.required_bind_group@ == spaced + "Transform Bind Group"@
        &&& self.uniform_bind_group_layout@ == spaced + "Uniform Bind Group Layout"@
        &&& self.uniform_bind_group@ == spaced + "Uniform Bind Group"@
        &&& self.texture_bind_group_layout@ == spaced + "Texture Bind Group Layout"@
        &&& self.texture_bind_group@ == spaced + "Texture Bind Group"@
        &&& self.pipeline_layout@ == spaced + "Render Pipeline Layout"@
        &&& self.pipeline@ == spaced + "Render Pipeline"@
    }

    /// The two sets of labels read the same.
    pub open spec fn same(&self, other: &PipelineLabels) -> bool {
        &&& self.shader@ == other.shader@
        &&& self.required_bind_group_layout@ == other.required_bind_group_layout@
        &&& self.required_bind_group@ == other.required_bind_group@
        &&& self.uniform_bind_group_layout@ == other.uniform_bind_group_layout@
        &&& self.uniform_bind_group@ == other.uniform_bind_group@
        &&& self.texture_bind_group_layout@ == other.texture_bind_group_layout@
        &&& self.texture_bind_group@ == other.texture_bind_group@
        &&& self.pipeline_layout@ == other.pipeline_layout@
        &&& self.pipeline@ == other.pipeline@
    }

    pub fn new(tight: &str, spaced: &str) -> (labels: PipelineLabels)
        ensures
            labels.prefixed(tight@, spaced@),
    {
        PipelineLabels {
            shader: labelled(tight, "Shader"),
            required_bind_group_layout: labelled(spaced, "Required Bind Group Layout"),
            required_bind_group: labelled(spaced, "Transform Bind Group"),
            uniform_bind_group_layout: labelled(spaced, "Uniform Bind Group Layout"),
            uniform_bind_group: labelled(spaced, "Uniform Bind Group"),
            texture_bind_group_layout: labelled(spaced, "Texture Bind Group Layout"),
            texture_bind_group: labelled(spaced, "Texture Bind Group"),
            pipeline_layout: labelled(spaced, "Render Pipeline Layout"),
            pipeline: labelled(spaced, "Render Pipeline"),
        }
    }
}

/// A compiled pipeline: the shader it names, its two own uniform blocks with
/// their buffers, its three bind sets, the layout of its vertices, its state
/// and the labels of its objects. All but the contents of the two blocks is
/// fixed at construction.
pub struct MaterialPipeline {
    pub shader_file: String,
    pub labels: PipelineLabels,
    pub vertex_layout: VertexBufferLayout,
    pub transform_uniforms: TransformUniforms,
    pub transform_uniforms_buffer: Buffer,
    pub camera_uniforms: CameraUniforms,
    pub camera_uniforms_buffer: Buffer,
    pub required_bind_group: Vec<BindGroupEntry>,
    pub uniform_bind_group: Vec<BindGroupEntry>,
    pub texture_bind_group: Vec<BindGroupEntry>,
    pub pipeline: PipelineState,
}

impl MaterialPipeline {
    /// The pipeline is the one built for this shader, these many uniform
    /// buffers and these textures, in this order.
    pub open spec fn built_from(
        &self,
        shader_file: Seq<char>,
        nb_uniforms: nat,
        textures: Seq<Texture>,
        polygon_mode: PolygonMode,
        back_face_culling: bool,
    ) -> bool {
        &&& self.shader_file@ == shader_file
        &&& self.transform_uniforms_buffer.size == 4 * TransformUniforms::WORDS
        &&& self.transform_uniforms._padding == 0
        &&& self.camera_uniforms_buffer.size == 4 * CameraUniforms::WORDS
        &&& self.camera_uniforms._padding == 0
        &&& self.required_bind_group@ == required_group()
        &&& self.uniform_bind_group@ == uniform_group(nb_uniforms)
        &&& self.texture_bind_group@ == texture_group(textures)
        &&& self.vertex_layout.for_vertices()
        &&& self.pipeline == PipelineState::of(polygon_mode, back_face_culling)
    }

    /// The objects of the pipeline are labelled under the two prefixes:
    /// `tight` stands directly before the labels of the shader module and of
    /// the camera buffer, `spaced` before the others.
    pub open spec fn labelled_by(&self, tight: Seq<char>, spaced: Seq<char>) -> bool {
        &&& self.labels.prefixed(tight, spaced)
        &&& self.transform_uniforms_buffer.label@ == spaced + "Transform Buffer"@
        &&& self.camera_uniforms_buffer.label@ == tight + "Camera Buffer"@
    }

    /// Nothing but the contents of the two own blocks differs from `other`.
    pub open spec fn same_bindings(&self, other: &MaterialPipeline) -> bool {
        &&& self.shader_file@ == other.shader_file@
        &&& self.labels.same(&other.labels)
        &&& self.vertex_layout.same(&other.vertex_layout)
        &&& self.transform_uniforms._padding == other.transform_uniforms._padding
        &&& self.camera_uniforms._padding == other.camera_uniforms._padding
        &&& self.transform_uniforms_buffer.label@ == other.transform_uniforms_buffer.label@
        &&& self.transform_uniforms_buffer.size == other.transform_uniforms_buffer.size
        &&& self.camera_uniforms_buffer.label@ == other.camera_uniforms_buffer.label@
        &&& self.camera_uniforms_buffer.size == other.camera_uniforms_buffer.size
        &&& self.required_bind_group@ == other.required_bind_group@
        &&& self.uniform_bind_group@ == other.uniform_bind_group@
        &&& self.texture_bind_group@ == other.texture_bind_group@
        &&& self.pipeline == other.pipeline
    }

    /// The two own blocks show `transform` and `active_camera` as `frame` has
    /// them.
    pub open spec fn shows(
        &self,
        transform: usize,
        active_camera: &Camera,
        transforms: &TransformGraph,
        frame: &FrameMatrices,
    ) -> bool {
        &&& self.transform_uniforms.position == transforms.node(transform as int).position
        &&& self.transform_uniforms.world_matrix == frame.world@[transform as int]
        &&& self.transform_uniforms.normal_matrix == frame.normal@[transform as int]
        &&& self.camera_uniforms.proj_view == frame.view_projection
        &&& self.camera_uniforms.position == transforms.node(
            active_camera.transform as int,
        ).position
    }

    /// Builds the three bind sets, the vertex layout and the pipeline state,
    /// with plain labels. The order of `uniforms` and of `textures` is the
    /// order of the slots, which the shader has to expect.
    pub fn new(
        shader_file: &str,
        uniforms: &Vec<Buffer>,
        textures: &Vec<Texture>,
        polygon_mode: PolygonMode,
        back_face_culling: bool,
    ) -> (pipeline: MaterialPipeline)
        requires
            uniforms@.len() <= u32::MAX,
            2 * textures@.len() <= u32::MAX,
        ensures
            pipeline.built_from(
                shader_file@,
                uniforms@.len(),
                textures@,
                polygon_mode,
                back_face_culling,
            ),
            pipeline.labelled_by(Seq::empty(), Seq::empty()),
            pipeline.transform_uniforms_buffer.label@ == "Transform Buffer"@,
            pipeline.camera_uniforms_buffer.label@ == "Camera Buffer"@,
            pipeline.transform_uniforms.layout() == Seq::new(36, |k: int| 0u32),
            pipeline.camera_uniforms.layout() == Seq::new(20, |k: int| 0u32),
    {
        proof {
            reveal_strlit("");
            assert(""@ =~= Seq::<char>::empty());
            assert(Seq::<char>::empty() + "Transform Buffer"@ =~= "Transform Buffer"@);
            assert(Seq::<char>::empty() + "Camera Buffer"@ =~= "Camera Buffer"@);
        }
        Self::with_labels(shader_file, "", "", uniforms, textures, polygon_mode, back_face_culling)
    }

    /// As [`MaterialPipeline::new`], with the labels under two prefixes:
    /// `tight` stands directly before the labels of the shader module and of
    /// the camera buffer, `spaced` before the others.
    pub fn with_labels(
        shader_file: &str,
        tight: &str,
        spaced: &str,
        uniforms: &Vec<Buffer>,
        textures: &Vec<Texture>,
        polygon_mode: PolygonMode,
        back_face_culling: bool,
    ) -> (pipeline: MaterialPipeline)
        requires
            uniforms@.len() <= u32::MAX,
            2 * textures@.len() <= u32::MAX,
        ensures
            pipeline.built_from(
                shader_file@,
                uniforms@.len(),
                textures@,
                polygon_mode,
                back_face_culling,
            ),
            pipeline.labelled_by(tight@, spaced@),
            pipeline.transform_uniforms.layout() == Seq::new(36, |k: int| 0u32),
            pipeline.camera_uniforms.layout() == Seq::new(20, |k: int| 0u32),
    {
        let transform_label = labelled(spaced, "Transform Buffer");
        let camera_label = labelled(tight, "Camera Buffer");
        MaterialPipeline {
            shader_file: shader_file.to_string(),
            labels: PipelineLabels::new(tight, spaced),
            vertex_layout: Vertex::desc(),
            transform_uniforms: TransformUniforms::default(),
            transform_uniforms_buffer: create_buffer(
                transform_label.as_str(),
                TransformUniforms::WORDS,
            ),
            camera_uniforms: CameraUniforms::default(),
            camera_uniforms_buffer: create_buffer(camera_label.as_str(), CameraUniforms::WORDS),
            required_bind_group: required_entries(),
            uniform_bind_group: uniform_entries(uniforms.len()),
            texture_bind_group: texture_entries(textures),
            pipeline: PipelineState::new(polygon_mode, back_face_culling),
        }
    }

    /// Refreshes the transform and camera blocks and records their upload,
    /// then the pipeline and the three bind sets: per-draw data, material
    /// uniforms, textures.
    pub fn bind(
        &mut self,
        render_pass: &mut RenderPass,
        transform: usize,
        active_camera: &Camera,
        transforms: &TransformGraph,
        frame: &FrameMatrices,
    )
        requires
            transforms.well_formed(),
            frame.covers(transforms),
            transform < transforms.len(),
            active_camera.transform < transforms.len(),
        ensures
            final(self).same_bindings(old(self)),
            final(self).shows(transform, active_camera, transforms, frame),
            final(render_pass).commands@ == old(render_pass).commands@ + pipeline_commands(
                final(self).transform_uniforms,
                final(self).camera_uniforms,
            ),
    {
        self.transform_uniforms.update(
            transforms.transform(transform),
            &frame.world[transform],
            &frame.normal[transform],
        );
        render_pass.write_buffer(BufferId::Transform, UniformData::Transform(self.transform_uniforms));

        self.camera_uniforms.update(active_camera, transforms, frame);
        render_pass.write_buffer(BufferId::Camera, UniformData::Camera(self.camera_uniforms));

        render_pass.set_pipeline();
        render_pass.set_bind_group(BindGroupKind::Required.index(), BindGroupKind::Required);
        render_pass.set_bind_group(BindGroupKind::Uniform.index(), BindGroupKind::Uniform);
        render_pass.set_bind_group(BindGroupKind::Texture.index(), BindGroupKind::Texture);
        assert(render_pass.commands@ =~= old(render_pass).commands@ + pipeline_commands(
            self.transform_uniforms,
            self.camera_uniforms,
        ));
    }
}

} // verus!
