use crate::camera::camera::{Camera, FrameMatrices};
use crate::lights::directional_light::DirectionalLight;
use crate::lights::point_light::{lights_placed, PointLight};
use crate::materials::blinn_phong::BlinnPhongMaterial;
use crate::materials::material_pipeline::MaterialPipeline;
use crate::materials::pbr::PbrMaterial;
use crate::materials::phong::PhongMaterial;
use crate::materials::terrain::{TerrainMaterial, TerrainUniforms};
use crate::materials::utils::Buffer;
use crate::render_pass::{RenderCommand, RenderPass};
use crate::scalar::ZERO;
use crate::transform::TransformGraph;
use vstd::prelude::*;

verus! {

/// The shading models. They differ in the uniform fields and textures they
/// declare and in the shader they name; they share the binding protocol.
pub enum Material {
    Phong(PhongMaterial),
    BlinnPhong(BlinnPhongMaterial),
    Pbr(PbrMaterial),
    Terrain(TerrainMaterial),
}

/// The shader of the default material.
pub open spec fn default_shader() -> Seq<char> {
    "shader/default.wgsl"@
}

/// The shader of the flat terrain.
pub open spec fn flat_terrain_shader() -> Seq<char> {
    "shader/flat_terrain.wgsl"@
}

/// The shader of the spherical terrain.
pub open spec fn sphere_terrain_shader() -> Seq<char> {
    "shader/sphere_terrain.wgsl"@
}

impl Material {
    /// Whether the pipeline has been compiled, that is, whether the material
    /// has been bound before.
    pub open spec fn compiled(&self) -> bool {
        match self {
            Material::Phong(m) => m.material_pipeline is Some,
            Material::BlinnPhong(m) => m.material_pipeline is Some,
            Material::Pbr(m) => m.material_pipeline is Some,
            Material::Terrain(m) => m.material_pipeline is Some,
        }
    }

    /// The compiled pipeline, if the material has been bound before.
    pub open spec fn pipeline_of(&self) -> Option<MaterialPipeline> {
        match self {
            Material::Phong(m) => m.material_pipeline,
            Material::BlinnPhong(m) => match m.material_pipeline {
                Some(shader) => Some(shader.pipeline),
                None => None,
            },
            Material::Pbr(m) => match m.material_pipeline {
                Some(shader) => Some(shader.pipeline),
                None => None,
            },
            Material::Terrain(m) => m.material_pipeline,
        }
    }

    /// The uniform buffers that the material declares, in the order of their
    /// slots: for a lit material the directional light, the point-light
    /// array, the number of point lights and the material's parameters; for
    /// an unlit one its block of parameters.
    pub open spec fn declared_buffers(&self) -> Seq<Buffer> {
        match self {
            Material::Phong(m) => seq![
                m.light_uniforms_buffer,
                m.point_light_buffer,
                m.nb_point_lights_buffer,
                m.phong_uniforms_buffer,
            ],
            Material::BlinnPhong(m) => seq![
                m.light_uniforms_buffer,
                m.point_light_buffer,
                m.nb_point_lights_buffer,
                m.phong_uniforms_buffer,
            ],
            Material::Pbr(m) => seq![
                m.directional_light_uniforms_buffer,
                m.point_light_buffer,
                m.nb_point_lights_buffer,
                m.pbr_uniforms_buffer,
            ],
            Material::Terrain(m) => seq![m.fragment_uniform_buffer],
        }
    }

    /// Number of uniform buffers that the material declares.
    pub open spec fn nb_uniforms(&self) -> nat {
        match self {
            Material::Terrain(_) => 1,
            _ => 4,
        }
    }

    /// The material after a bind of `before`, by shading model.
    pub open spec fn bound_from(
        &self,
        before: &Material,
        transform: usize,
        active_camera: &Camera,
        point_lights: Seq<PointLight>,
        directional_light: &DirectionalLight,
        transforms: &TransformGraph,
        frame: &FrameMatrices,
    ) -> bool {
        match (self, before) {
            (Material::Phong(after), Material::Phong(b)) => after.bound_from(
                b,
                transform,
                active_camera,
                point_lights,
                directional_light,
                transforms,
                frame,
            ),
            (Material::BlinnPhong(after), Material::BlinnPhong(b)) => after.bound_from(
                b,
                transform,
                active_camera,
                point_lights,
                directional_light,
                transforms,
                frame,
            ),
            (Material::Pbr(after), Material::Pbr(b)) => after.bound_from(
                b,
                transform,
                active_camera,
                point_lights,
                directional_light,
                transforms,
                frame,
            ),
            (Material::Terrain(after), Material::Terrain(b)) => after.bound_from(
                b,
                transform,
                active_camera,
                transforms,
                frame,
            ),
            _ => false,
        }
    }

    /// The commands of one bind, by shading model.
    pub open spec fn bind_commands(&self, nb_point_lights: u32) -> Seq<RenderCommand> {
        match self {
            Material::Phong(m) => m.bind_commands(nb_point_lights),
            Material::BlinnPhong(m) => m.bind_commands(nb_point_lights),
            Material::Pbr(m) => m.bind_commands(nb_point_lights),
            Material::Terrain(m) => m.bind_commands(),
        }
    }

    pub fn is_compiled(&self) -> (b: bool)
        ensures
            b == self.compiled(),
    {
        match self {
            Material::Phong(m) => m.material_pipeline.is_some(),
            Material::BlinnPhong(m) => m.material_pipeline.is_some(),
            Material::Pbr(m) => m.material_pipeline.is_some(),
            Material::Terrain(m) => m.material_pipeline.is_some(),
        }
    }

    /// The compiled pipeline, for the host to create its GPU objects from.
    pub fn pipeline(&self) -> (pipeline: Option<&MaterialPipeline>)
        ensures
            pipeline is Some == self.compiled(),
            pipeline matches Some(p) ==> self.pipeline_of() == Some(*p),
    {
        match self {
            Material::Phong(m) => m.material_pipeline.as_ref(),
            Material::BlinnPhong(m) => match &m.material_pipeline {
                Some(shader) => Some(&shader.pipeline),
                None => None,
            },
            Material::Pbr(m) => match &m.material_pipeline {
                Some(shader) => Some(&shader.pipeline),
                None => None,
            },
            Material::Terrain(m) => m.material_pipeline.as_ref(),
        }
    }

    /// The uniform buffers of the material in the order of their slots, for
    /// the host to allocate.
    pub fn uniform_buffers(&self) -> (buffers: Vec<Buffer>)
        ensures
            buffers@.len() == self.nb_uniforms(),
            buffers@.len() == self.declared_buffers().len(),
            forall|i: int|
                0 <= i < buffers@.len() ==> (#[trigger] buffers@[i]).label@
                    == self.declared_buffers()[i].label@ && buffers@[i].size
                    == self.declared_buffers()[i].size,
    {
        match self {
            Material::Phong(m) => m.uniform_buffers(),
            Material::BlinnPhong(m) => m.uniform_buffers(),
            Material::Pbr(m) => m.uniform_buffers(),
            Material::Terrain(m) => m.uniform_buffers(),
        }
    }

    /// The default material: unlit, with the default shader.
    pub fn new_default() -> (material: Material)
        ensures
            material matches Material::Terrain(m) && m.is_new(default_shader(), ZERO, ZERO),
    {
        Material::Terrain(TerrainMaterial::new("shader/default.wgsl", TerrainUniforms::new(ZERO, ZERO)))
    }

    /// The material of a flat terrain whose heights reach `max_height`.
    pub fn new_2d_terrain(max_height: u32) -> (material: Material)
        ensures
            material matches Material::Terrain(m) && m.is_new(
                flat_terrain_shader(),
                max_height,
                ZERO,
            ),
    {
        Material::Terrain(
            TerrainMaterial::new("shader/flat_terrain.wgsl", TerrainUniforms::new(max_height, ZERO)),
        )
    }

    /// The material of a terrain on a sphere of radius `sphere_radius` whose
    /// heights reach `max_height`.
    pub fn new_sphere_terrain(sphere_radius: u32, max_height: u32) -> (material: Material)
        ensures
            material matches Material::Terrain(m) && m.is_new(
                sphere_terrain_shader(),
                max_height,
                sphere_radius,
            ),
    {
        Material::Terrain(
            TerrainMaterial::new(
                "shader/sphere_terrain.wgsl",
                TerrainUniforms::new(max_height, sphere_radius),
            ),
        )
    }

    /// Binds the material for one draw, compiling its pipeline if this is the
    /// first time.
    pub fn bind(
        &mut self,
        render_pass: &mut RenderPass,
        transform: usize,
        active_camera: &Camera,
        point_lights: &Vec<PointLight>,
        directional_light: &DirectionalLight,
        transforms: &TransformGraph,
        frame: &FrameMatrices,
    )
        requires
            transforms.well_formed(),
            frame.covers(transforms),
            transform < transforms.len(),
            active_camera.transform < transforms.len(),
            lights_placed(point_lights@, frame.world@),
        ensures
            final(self).bound_from(
                old(self),
                transform,
                active_camera,
                point_lights@,
                directional_light,
                transforms,
                frame,
            ),
            final(self).compiled(),
            final(render_pass).commands@ == old(render_pass).commands@ + final(self).bind_commands(
                point_lights@.len() as u32,
            ),
    {
        match self {
            Material::Phong(m) => m.bind(
                render_pass,
                transform,
                active_camera,
                point_lights,
                directional_light,
                transforms,
                frame,
            ),
            Material::BlinnPhong(m) => m.bind(
                render_pass,
                transform,
                active_camera,
                point_lights,
                directional_light,
                transforms,
                frame,
            ),
            Material::Pbr(m) => m.bind(
                render_pass,
                transform,
                active_camera,
                point_lights,
                directional_light,
                transforms,
                frame,
            ),
            Material::Terrain(m) => m.bind(render_pass, transform, active_camera, transforms, frame),
        }
    }
}

} // verus!
