use crate::camera::camera::{Camera, FrameMatrices};
use crate::materials::material_pipeline::{pipeline_commands, MaterialPipeline, PolygonMode};
use crate::materials::utils::{labelled, Buffer};
use crate::render_pass::RenderPass;
use crate::texture::Texture;
use crate::transform::TransformGraph;
use vstd::prelude::*;

verus! {

/// A named pipeline: the binding protocol of [`MaterialPipeline`], with the
/// name carried into the labels of its objects.
pub struct Shader {
    pub name: String,
    pub pipeline: MaterialPipeline,
}

impl Shader {
    /// The shader is the one built under this name for this shader file,
    /// these many uniform buffers and these textures, in this order.
    pub open spec fn built_from(
        &self,
        name: Seq<char>,
        shader_file: Seq<char>,
        nb_uniforms: nat,
        textures: Seq<Texture>,
        polygon_mode: PolygonMode,
        back_face_culling: bool,
    ) -> bool {
        &&& self.name@ == name
        &&& self.pipeline.built_from(
            shader_file,
            nb_uniforms,
            textures,
            polygon_mode,
            back_face_culling,
        )
        &&& self.pipeline.labelled_by(name, name + " "@)
    }

    /// Nothing but the contents of the two own blocks differs from `other`.
    pub open spec fn same_bindings(&self, other: &Shader) -> bool {
        &&& self.name@ == other.name@
        &&& self.pipeline.same_bindings(&other.pipeline)
    }

    /// Builds the three bind sets and the pipeline state. The order of
    /// `uniforms` and of `textures` is the order of the slots, which the
    /// shader has to expect.
    pub fn new(
        name: &str,
        shader_file: &str,
        uniforms: &Vec<Buffer>,
        textures: &Vec<Texture>,
        polygon_mode: PolygonMode,
        back_face_culling: bool,
    ) -> (shader: Shader)
        requires
            uniforms@.len() <= u32::MAX,
            2 * textures@.len() <= u32::MAX,
        ensures
            shader.built_from(
                name@,
                shader_file@,
                uniforms@.len(),
                textures@,
                polygon_mode,
                back_face_culling,
            ),
            shader.pipeline.transform_uniforms.layout() == Seq::new(36, |k: int| 0u32),
            shader.pipeline.camera_uniforms.layout() == Seq::new(20, |k: int| 0u32),
    {
        let spaced = labelled(name, " ");
        Shader {
            name: name.to_string(),
            pipeline: MaterialPipeline::with_labels(
                shader_file,
                name,
                spaced.as_str(),
                uniforms,
                textures,
                polygon_mode,
                back_face_culling,
            ),
        }
    }

    /// Refreshes the transform and camera blocks and records their upload,
    /// then the pipeline and the three bind sets: per-draw data, material
    /// uniforms, textures.
    pub fn bind(
        &mut self,
        render_pass: &mut RenderPass,
        transform: usize,
        active_camera: &Camera,
        transforms: &TransformGraph,
        frame: &FrameMatrices,
    )
        requires
            transforms.well_formed(),
            frame.covers(transforms),
            transform < transforms.len(),
            active_camera.transform < transforms.len(),
        ensures
            final(self).same_bindings(old(self)),
            final(self).pipeline.shows(transform, active_camera, transforms, frame),
            final(render_pass).commands@ == old(render_pass).commands@ + pipeline_commands(
                final(self).pipeline.transform_uniforms,
                final(self).pipeline.camera_uniforms,
            ),
    {
        self.pipeline.bind(render_pass, transform, active_camera, transforms, frame);
    }
}

} // verus!
