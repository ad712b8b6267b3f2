use crate::camera::camera::{Camera, FrameMatrices};
use crate::materials::bind_group::BufferId;
use crate::materials::material_pipeline::{pipeline_commands, MaterialPipeline, PolygonMode};
use crate::materials::utils::{create_buffer, Buffer};
use crate::render_pass::{RenderCommand, RenderPass, UniformData};
use crate::scalar::{HALF, ONE, ZERO};
use crate::transform::TransformGraph;
use vstd::prelude::*;

verus! {

/// GPU layout of the parameters of the unlit materials: the direction of the
/// light at byte 0, the position of the eye at byte 12, the maximal height
/// of a terrain at byte 28 and the radius of a spherical terrain at byte 32,
/// padded to twelve words.
#[derive(Clone, Copy, Debug, PartialEq, Eq)]
pub struct TerrainUniforms {
    pub light_dir: [u32; 3],
    pub camera_position: [u32; 3],
    pub _padding: u32,
    pub max_height: u32,
    pub sphere_radius: u32,
    pub _padding2: [u32; 3],
}

impl TerrainUniforms {
    /// Number of 32-bit words of the block.
    pub const WORDS: usize = 12;

    /// The block word by word, in the order the shader reads it.
    pub open spec fn layout(self) -> Seq<u32> {
        self.light_dir@ + self.camera_position@ + seq![
            self._padding,
            self.max_height,
            self.sphere_radius,
        ] + self._padding2@
    }

    /// The block of a material for the given height and radius: the light
    /// shines along (1, 1, 0.5) and the eye is at the origin.
    pub open spec fn of(self, max_height: u32, sphere_radius: u32) -> bool {
        &&& self.light_dir@ == seq![ONE, ONE, HALF]
        &&& self.camera_position@ == seq![ZERO, ZERO, ZERO]
        &&& self._padding == 0
        &&& self.max_height == max_height
        &&& self.sphere_radius == sphere_radius
        &&& self._padding2@ == seq![0u32, 0u32, 0u32]
    }

    pub fn new(max_height: u32, sphere_radius: u32) -> (u: TerrainUniforms)
        ensures
            u.of(max_height, sphere_radius),
    {
        TerrainUniforms {
            light_dir: [ONE, ONE, HALF],
            camera_position: [ZERO, ZERO, ZERO],
            _padding: 0,
            max_height,
            sphere_radius,
            _padding2: [0, 0, 0],
        }
    }

    pub fn words(&self) -> (w: Vec<u32>)
        ensures
            w@ == self.layout(),
            w@.len() == Self::WORDS,
    {
        let w: Vec<u32> = vec![
            self.light_dir[0],
            self.light_dir[1],
            self.light_dir[2],
            self.camera_position[0],
            self.camera_position[1],
            self.camera_position[2],
            self._padding,
            self.max_height,
            self.sphere_radius,
            self._padding2[0],
            self._padding2[1],
            self._padding2[2],
        ];
        assert(w@ =~= self.layout());
        w
    }
}

/// An unlit material without textures: a shader and one block of
/// parameters, under the same binding protocol as the lit materials. Its
/// pipeline is compiled the first time the material is bound; polygons are
/// filled and no face is culled.
pub struct TerrainMaterial {
    pub shader_file: String,
    pub material_pipeline: Option<MaterialPipeline>,
    pub fragment_uniforms: TerrainUniforms,
    pub fragment_uniform_buffer: Buffer,
}

impl TerrainMaterial {
    /// The material as it is made: of the given shader, with the parameters
    /// for the given height and radius in a buffer of their size, not yet
    /// compiled.
    pub open spec fn is_new(&self, shader_file: Seq<char>, max_height: u32, sphere_radius: u32) -> bool {
        &&& self.shader_file@ == shader_file
        &&& self.material_pipeline is None
        &&& self.fragment_uniforms.of(max_height, sphere_radius)
        &&& self.fragment_uniform_buffer.label@ == "Fragment Uniform Buffer"@
        &&& self.fragment_uniform_buffer.size == 4 * TerrainUniforms::WORDS
    }

    /// Everything but the pipeline is as in `other`.
    pub open spec fn same_configuration(&self, other: &TerrainMaterial) -> bool {
        &&& self.shader_file@ == other.shader_file@
        &&& self.fragment_uniforms == other.fragment_uniforms
        &&& self.fragment_uniform_buffer.label@ == other.fragment_uniform_buffer.label@
        &&& self.fragment_uniform_buffer.size == other.fragment_uniform_buffer.size
    }

    /// The pipeline is the one that compiling `source` gives.
    pub open spec fn compiled_from(&self, source: &TerrainMaterial) -> bool {
        self.material_pipeline matches Some(pipeline) && pipeline.built_from(
            source.shader_file@,
            1,
            Seq::empty(),
            PolygonMode::Fill,
            false,
        ) && pipeline.labelled_by(Seq::empty(), Seq::empty())
    }

    /// The material after a bind of `before`: the configuration is kept; the
    /// pipeline is the one `before` had, or, if it had none, the one compiled
    /// from `before`; the pipeline's blocks show the frame.
    pub open spec fn bound_from(
        &self,
        before: &TerrainMaterial,
        transform: usize,
        active_camera: &Camera,
        transforms: &TransformGraph,
        frame: &FrameMatrices,
    ) -> bool {
        &&& self.same_configuration(before)
        &&& match before.material_pipeline {
            Some(pipeline) => self.material_pipeline matches Some(kept) && kept.same_bindings(
                &pipeline,
            ),
            None => self.compiled_from(before),
        }
        &&& self.material_pipeline matches Some(pipeline) && pipeline.shows(
            transform,
            active_camera,
            transforms,
            frame,
        )
    }

    /// The commands of one bind: the block of parameters is uploaded, then
    /// the pipeline is bound.
    pub open spec fn bind_commands(&self) -> Seq<RenderCommand> {
        seq![
            RenderCommand::WriteBuffer {
                buffer: BufferId::Uniform(0),
                data: UniformData::Terrain(self.fragment_uniforms),
            },
        ] + pipeline_commands(
            self.material_pipeline->0.transform_uniforms,
            self.material_pipeline->0.camera_uniforms,
        )
    }

    /// A material of the given shader and parameters, not yet compiled.
    pub fn new(shader_file: &str, fragment_uniforms: TerrainUniforms) -> (material: TerrainMaterial)
        ensures
            material.shader_file@ == shader_file@,
            material.material_pipeline is None,
            material.fragment_uniforms == fragment_uniforms,
            material.fragment_uniform_buffer.label@ == "Fragment Uniform Buffer"@,
            material.fragment_uniform_buffer.size == 4 * TerrainUniforms::WORDS,
    {
        TerrainMaterial {
            shader_file: shader_file.to_string(),
            material_pipeline: None,
            fragment_uniforms,
            fragment_uniform_buffer: create_buffer(
                "Fragment Uniform Buffer",
                TerrainUniforms::WORDS,
            ),
        }
    }

    /// The uniform buffers in the order of their slots: the one block of
    /// parameters.
    pub fn uniform_buffers(&self) -> (buffers: Vec<Buffer>)
        ensures
            buffers@.len() == 1,
            buffers@[0].size == self.fragment_uniform_buffer.size,
            buffers@[0].label@ == self.fragment_uniform_buffer.label@,
    {
        vec![self.fragment_uniform_buffer.duplicate()]
    }

    /// Compiles the pipeline from the material as it is now, replacing any
    /// earlier one.
    pub fn compile(&mut self)
        ensures
            final(self).compiled_from(old(self)),
            final(self).same_configuration(old(self)),
    {
        let uniforms = self.uniform_buffers();
        let textures = Vec::new();
        self.material_pipeline = Some(
            MaterialPipeline::new(
                self.shader_file.as_str(),
                &uniforms,
                &textures,
                PolygonMode::Fill,
                false,
            ),
        );
    }

    /// Binds the material for one draw. The first bind compiles the
    /// pipeline; later binds reuse it. Every bind records the upload of the
    /// parameters.
    pub fn bind(
        &mut self,
        render_pass: &mut RenderPass,
        transform: usize,
        active_camera: &Camera,
        transforms: &TransformGraph,
        frame: &FrameMatrices,
    )
        requires
            transforms.well_formed(),
            frame.covers(transforms),
            transform < transforms.len(),
            active_camera.transform < transforms.len(),
        ensures
            final(self).bound_from(old(self), transform, active_camera, transforms, frame),
            final(render_pass).commands@ == old(render_pass).commands@ + final(self).bind_commands(),
    {
        if self.material_pipeline.is_none() {
            self.compile();
        }
        render_pass.write_buffer(BufferId::Uniform(0), UniformData::Terrain(self.fragment_uniforms));
        match &mut self.material_pipeline {
            Some(pipeline) => {
                pipeline.bind(render_pass, transform, active_camera, transforms, frame);
            },
            None => {},
        }
        assert(render_pass.commands@ =~= old(render_pass).commands@ + self.bind_commands());
    }
}

} // verus!
