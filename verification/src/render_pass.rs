//! The commands of one frame, recorded in order. The host replays them on the
//! GPU: buffer writes go to the queue, the others to the render pass.

use crate::camera::uniforms::CameraUniforms;
use crate::lights::directional_light::DirectionalLightUniform;
use crate::lights::point_light::{array_layout, array_words, PointLightUniforms};
use crate::materials::bind_group::{BindGroupKind, BufferId};
use crate::materials::blinn_phong::BlinnPhongUniforms;
use crate::materials::material_pipeline::TextureFormat;
use crate::materials::pbr::PbrUniforms;
use crate::materials::phong::PhongUniforms;
use crate::materials::terrain::TerrainUniforms;
use crate::scalar::{cast_words, in_memory};
use crate::settings::MAX_POINT_LIGHTS;
use crate::transform::TransformUniforms;
use vstd::prelude::*;

verus! {

/// The contents of a buffer write.
#[derive(Clone, Copy, Debug, PartialEq, Eq)]
pub enum UniformData {
    Transform(TransformUniforms),
    Camera(CameraUniforms),
    DirectionalLight(DirectionalLightUniform),
    PointLights([PointLightUniforms; MAX_POINT_LIGHTS]),
    PointLightCount(u32),
    BlinnPhong(BlinnPhongUniforms),
    Pbr(PbrUniforms),
    Phong(PhongUniforms),
    Terrain(TerrainUniforms),
}

impl UniformData {
    /// The block word by word, in the order the shader reads it.
    pub open spec fn layout(self) -> Seq<u32> {
        match self {
            UniformData::Transform(u) => u.layout(),
            UniformData::Camera(u) => u.layout(),
            UniformData::DirectionalLight(u) => u.layout(),
            UniformData::PointLights(slots) => array_layout(slots),
            UniformData::PointLightCount(n) => seq![n],
            UniformData::BlinnPhong(u) => u.layout(),
            UniformData::Pbr(u) => u.layout(),
            UniformData::Phong(u) => u.layout(),
            UniformData::Terrain(u) => u.layout(),
        }
    }

    pub fn words(&self) -> (w: Vec<u32>)
        ensures
            w@ == self.layout(),
    {
        match self {
            UniformData::Transform(u) => u.words(),
            UniformData::Camera(u) => u.words(),
            UniformData::DirectionalLight(u) => u.words(),
            UniformData::PointLights(slots) => array_words(slots),
            UniformData::PointLightCount(n) => {
                let w: Vec<u32> = vec![*n];
                assert(w@ =~= seq![*n]);
                w
            },
            UniformData::BlinnPhong(u) => u.words(),
            UniformData::Pbr(u) => u.words(),
            UniformData::Phong(u) => u.words(),
            UniformData::Terrain(u) => u.words(),
        }
    }

    /// The bytes to upload: the words of the block as the memory of the
    /// machine holds them.
    pub fn bytes(&self) -> (b: Vec<u8>)
        ensures
            b@.len() == 4 * self.layout().len(),
            in_memory(self.layout(), b@),
    {
        let words = self.words();
        cast_words(words.as_slice())
    }
}

/// One step of a frame.
#[derive(Clone, Copy, Debug, PartialEq, Eq)]
pub enum RenderCommand {
    /// Create a depth buffer of the size of the surface, in the given format.
    CreateDepthTexture { width: u32, height: u32, format: TextureFormat },
    /// Begin the pass, clearing colour and depth.
    BeginRenderPass { clear_color: [u64; 4], clear_depth: u32 },
    /// The commands up to the next `SelectMesh` address the resources of the
    /// mesh with this handle.
    SelectMesh { mesh: usize },
    /// Upload `data` to `buffer` of the selected mesh's pipeline, from offset 0.
    WriteBuffer { buffer: BufferId, data: UniformData },
    /// Make the selected mesh's pipeline current.
    SetPipeline,
    /// Bind one of the pipeline's bind sets at `index`.
    SetBindGroup { index: u32, group: BindGroupKind },
    /// Bind the whole vertex buffer of the selected mesh at `slot`.
    SetVertexBuffer { slot: u32 },
    /// Bind the whole index buffer of the selected mesh, 32-bit indices.
    SetIndexBuffer,
    /// Draw one instance over the indices `0..index_count`.
    DrawIndexed { index_count: u32 },
    /// End the pass and submit it.
    Submit,
    /// Present the frame.
    Present,
}

/// Recorder of the commands of a frame.
pub struct RenderPass {
    pub commands: Vec<RenderCommand>,
}

impl RenderPass {
    pub fn new() -> (pass: RenderPass)
        ensures
            pass.commands@ == Seq::<RenderCommand>::empty(),
    {
        RenderPass { commands: Vec::new() }
    }

    /// Records `command` after those recorded so far.
    pub fn record(&mut self, command: RenderCommand)
        ensures
            final(self).commands@ == old(self).commands@.push(command),
    {
        self.commands.push(command);
    }

    pub fn write_buffer(&mut self, buffer: BufferId, data: UniformData)
        ensures
            final(self).commands@ == old(self).commands@.push(
                RenderCommand::WriteBuffer { buffer, data },
            ),
    {
        self.commands.push(RenderCommand::WriteBuffer { buffer, data });
    }

    pub fn set_pipeline(&mut self)
        ensures
            final(self).commands@ == old(self).commands@.push(RenderCommand::SetPipeline),
    {
        self.commands.push(RenderCommand::SetPipeline);
    }

    pub fn set_bind_group(&mut self, index: u32, group: BindGroupKind)
        ensures
            final(self).commands@ == old(self).commands@.push(
                RenderCommand::SetBindGroup { index, group },
            ),
    {
        self.commands.push(RenderCommand::SetBindGroup { index, group });
    }

    pub fn set_vertex_buffer(&mut self, slot: u32)
        ensures
            final(self).commands@ == old(self).commands@.push(
                RenderCommand::SetVertexBuffer { slot },
            ),
    {
        self.commands.push(RenderCommand::SetVertexBuffer { slot });
    }

    pub fn set_index_buffer(&mut self)
        ensures
            final(self).commands@ == old(self).commands@.push(RenderCommand::SetIndexBuffer),
    {
        self.commands.push(RenderCommand::SetIndexBuffer);
    }

    pub fn draw_indexed(&mut self, index_count: u32)
        ensures
            final(self).commands@ == old(self).commands@.push(
                RenderCommand::DrawIndexed { index_count },
            ),
    {
        self.commands.push(RenderCommand::DrawIndexed { index_count });
    }
}

} // verus!
