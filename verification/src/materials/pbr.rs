use crate::camera::camera::{Camera, FrameMatrices};
use crate::lights::directional_light::{DirectionalLight, DirectionalLightUniform};
use crate::lights::point_light::{lights_placed, PointLight, PointLightUniforms};
use crate::materials::bind_group::{texture_group, BindGroupEntry, BindingResource, BufferId};
use crate::materials::material_pipeline::{pipeline_commands, PolygonMode};
use crate::materials::shader::Shader;
use crate::materials::utils::{
    create_array_buffer, create_buffer, labelled, light_commands, lights_shown, upload_lights,
    Buffer,
};
use crate::render_pass::{RenderCommand, RenderPass, UniformData};
use crate::scalar::{FOUR_FIFTHS, ONE, ONE_FIFTH, ZERO};
use crate::settings::MAX_POINT_LIGHTS;
use crate::texture::Texture;
use crate::transform::TransformGraph;
use vstd::prelude::*;

verus! {

/// GPU layout of the physically-based parameters: albedo and ambient colour,
/// metallic and roughness factors, each followed by the flag of its texture.
#[derive(Clone, Copy, Debug, PartialEq, Eq)]
pub struct PbrUniforms {
    pub albedo_color: [u32; 3],
    pub has_albedo_texture: u32,
    pub ambient_color: [u32; 3],
    pub has_ambient_texture: u32,
    pub metallic: u32,
    pub has_metallic_texture: u32,
    pub roughness: u32,
    pub has_roughness_texture: u32,
}

impl PbrUniforms {
    /// Number of 32-bit words of the block.
    pub const WORDS: usize = 12;

    /// The block word by word, in the order the shader reads it.
    pub open spec fn layout(self) -> Seq<u32> {
        self.albedo_color@ + seq![self.has_albedo_texture] + self.ambient_color@ + seq![
            self.has_ambient_texture,
            self.metallic,
            self.has_metallic_texture,
            self.roughness,
            self.has_roughness_texture,
        ]
    }

    pub fn words(&self) -> (w: Vec<u32>)
        ensures
            w@ == self.layout(),
            w@.len() == Self::WORDS,
    {
        let w: Vec<u32> = vec![
            self.albedo_color[0],
            self.albedo_color[1],
            self.albedo_color[2],
            self.has_albedo_texture,
            self.ambient_color[0],
            self.ambient_color[1],
            self.ambient_color[2],
            self.has_ambient_texture,
            self.metallic,
            self.has_metallic_texture,
            self.roughness,
            self.has_roughness_texture,
        ];
        assert(w@ =~= self.layout());
        w
    }
}

impl Default for PbrUniforms {
    /// White albedo, no ambient colour, metallic 0.2, roughness 0.8, no
    /// texture.
    fn default() -> (u: PbrUniforms)
        ensures
            u.albedo_color@ == seq![ONE, ONE, ONE],
            u.ambient_color@ == seq![ZERO, ZERO, ZERO],
            u.metallic == ONE_FIFTH,
            u.roughness == FOUR_FIFTHS,
            u.has_albedo_texture == 0,
            u.has_ambient_texture == 0,
            u.has_metallic_texture == 0,
            u.has_roughness_texture == 0,
    {
        PbrUniforms {
            albedo_color: [ONE, ONE, ONE],
            has_albedo_texture: 0,
            ambient_color: [ZERO, ZERO, ZERO],
            has_ambient_texture: 0,
            metallic: ONE_FIFTH,
            has_metallic_texture: 0,
            roughness: FOUR_FIFTHS,
            has_roughness_texture: 0,
        }
    }
}

/// The shader that the physically-based material names.
pub open spec fn pbr_shader() -> Seq<char> {
    "../shader/blinn_phong.wgsl"@
}

/// A physically-based material: its parameters, its four texture handles, the
/// uniform blocks of the lights, and the pipeline that is compiled the first
/// time the material is bound. What the pipeline binds is fixed then: a
/// texture, polygon mode or culling choice set later changes the material
/// but not the compiled pipeline.
pub struct PbrMaterial {
    pub name: String,
    pub material_pipeline: Option<Shader>,
    pub directional_light_uniforms: DirectionalLightUniform,
    pub directional_light_uniforms_buffer: Buffer,
    pub point_light_uniforms: [PointLightUniforms; MAX_POINT_LIGHTS],
    pub point_light_buffer: Buffer,
    pub nb_point_lights_buffer: Buffer,
    pub pbr_uniforms: PbrUniforms,
    pub pbr_uniforms_buffer: Buffer,
    pub diffuse_texture: Texture,
    pub ambient_texture: Texture,
    pub specular_texture: Texture,
    pub normal_map: Texture,
    pub polygon_mode: PolygonMode,
    pub back_face_culling: bool,
}

impl PbrMaterial {
    /// The textures in the order of their slots.
    pub open spec fn textures(&self) -> Seq<Texture> {
        seq![self.diffuse_texture, self.ambient_texture, self.specular_texture, self.normal_map]
    }

    /// Everything but the pipeline and the uniform blocks of the lights is as
    /// in `other`.
    pub open spec fn same_configuration(&self, other: &PbrMaterial) -> bool {
        &&& self.name@ == other.name@
        &&& self.directional_light_uniforms_buffer.label@ == other.directional_light_uniforms_buffer.label@
        &&& self.directional_light_uniforms_buffer.size == other.directional_light_uniforms_buffer.size
        &&& self.point_light_buffer.label@ == other.point_light_buffer.label@
        &&& self.point_light_buffer.size == other.point_light_buffer.size
        &&& self.nb_point_lights_buffer.label@ == other.nb_point_lights_buffer.label@
        &&& self.nb_point_lights_buffer.size == other.nb_point_lights_buffer.size
        &&& self.pbr_uniforms == other.pbr_uniforms
        &&& self.pbr_uniforms_buffer.label@ == other.pbr_uniforms_buffer.label@
        &&& self.pbr_uniforms_buffer.size == other.pbr_uniforms_buffer.size
        &&& self.textures() == other.textures()
        &&& self.polygon_mode == other.polygon_mode
        &&& self.back_face_culling == other.back_face_culling
    }

    /// The pipeline is the one that compiling `source` gives.
    pub open spec fn compiled_from(&self, source: &PbrMaterial) -> bool {
        self.material_pipeline matches Some(shader) && shader.built_from(
            source.name@ + " MaterialPipeline"@,
            pbr_shader(),
            4,
            source.textures(),
            source.polygon_mode,
            source.back_face_culling,
        )
    }

    /// The material after a bind of `before`: the configuration is kept; the
    /// pipeline is the one `before` had, or, if it had none, the one compiled
    /// from `before`; the uniform blocks show the frame.
    pub open spec fn bound_from(
        &self,
        before: &PbrMaterial,
        transform: usize,
        active_camera: &Camera,
        point_lights: Seq<PointLight>,
        directional_light: &DirectionalLight,
        transforms: &TransformGraph,
        frame: &FrameMatrices,
    ) -> bool {
        &&& self.same_configuration(before)
        &&& match before.material_pipeline {
            Some(shader) => self.material_pipeline matches Some(kept) && kept.same_bindings(
                &shader,
            ),
            None => self.compiled_from(before),
        }
        &&& self.material_pipeline matches Some(shader) && shader.pipeline.shows(
            transform,
            active_camera,
            transforms,
            frame,
        )
        &&& lights_shown(
            before.directional_light_uniforms,
            before.point_light_uniforms,
            directional_light,
            point_lights,
            frame.world@,
            self.directional_light_uniforms,
            self.point_light_uniforms,
        )
    }

    /// The commands of one bind: the four uniform blocks are uploaded in the
    /// order of their slots, then the pipeline is bound.
    pub open spec fn bind_commands(&self, nb_point_lights: u32) -> Seq<RenderCommand> {
        light_commands(self.directional_light_uniforms, self.point_light_uniforms, nb_point_lights) + seq![
            RenderCommand::WriteBuffer {
                buffer: BufferId::Uniform(3),
                data: UniformData::Pbr(self.pbr_uniforms),
            },
        ] + pipeline_commands(
            self.material_pipeline->0.pipeline.transform_uniforms,
            self.material_pipeline->0.pipeline.camera_uniforms,
        )
    }

    /// A material with default parameters and the placeholder texture in
    /// every slot, filled polygons and back-face culling, not yet compiled.
    pub fn new(name: &str, empty_texture: Texture) -> (material: PbrMaterial)
        ensures
            material.name@ == name@,
            material.material_pipeline is None,
            material.directional_light_uniforms_buffer.label@ == name@ + " DirectionalLight Buffer"@,
            material.directional_light_uniforms_buffer.size == 4 * DirectionalLightUniform::WORDS,
            material.point_light_buffer.label@ == name@ + " PointLights Array Buffer"@,
            material.point_light_buffer.size == 4 * PointLightUniforms::WORDS * MAX_POINT_LIGHTS,
            material.nb_point_lights_buffer.label@ == name@ + " Number of Point Lights Buffer"@,
            material.nb_point_lights_buffer.size == 4,
            material.pbr_uniforms_buffer.label@ == name@ + " Phong Buffer"@,
            material.pbr_uniforms_buffer.size == 4 * PbrUniforms::WORDS,
            material.pbr_uniforms.albedo_color@ == seq![ONE, ONE, ONE],
            material.pbr_uniforms.ambient_color@ == seq![ZERO, ZERO, ZERO],
            material.pbr_uniforms.metallic == ONE_FIFTH,
            material.pbr_uniforms.roughness == FOUR_FIFTHS,
            material.pbr_uniforms.has_albedo_texture == 0,
            material.pbr_uniforms.has_ambient_texture == 0,
            material.pbr_uniforms.has_metallic_texture == 0,
            material.pbr_uniforms.has_roughness_texture == 0,
            material.textures() == seq![empty_texture, empty_texture, empty_texture, empty_texture],
            material.polygon_mode == PolygonMode::Fill,
            material.back_face_culling,
    {
        let light_label = labelled(name, " DirectionalLight Buffer");
        let point_label = labelled(name, " PointLights Array Buffer");
        let count_label = labelled(name, " Number of Point Lights Buffer");
        let phong_label = labelled(name, " Phong Buffer");
        PbrMaterial {
            name: name.to_string(),
            material_pipeline: None,
            directional_light_uniforms: DirectionalLightUniform::default(),
            directional_light_uniforms_buffer: create_buffer(
                light_label.as_str(),
                DirectionalLightUniform::WORDS,
            ),
            point_light_uniforms: [PointLightUniforms::default();MAX_POINT_LIGHTS],
            point_light_buffer: create_array_buffer(
                point_label.as_str(),
                PointLightUniforms::WORDS,
                MAX_POINT_LIGHTS as u32,
            ),
            nb_point_lights_buffer: create_buffer(count_label.as_str(), 1),
            pbr_uniforms: PbrUniforms::default(),
            pbr_uniforms_buffer: create_buffer(phong_label.as_str(), PbrUniforms::WORDS),
            diffuse_texture: empty_texture,
            ambient_texture: empty_texture,
            specular_texture: empty_texture,
            normal_map: empty_texture,
            polygon_mode: PolygonMode::Fill,
            back_face_culling: true,
        }
    }

    /// The uniform buffers in the order of their slots: directional light,
    /// point-light array, point-light count, material parameters.
    pub fn uniform_buffers(&self) -> (buffers: Vec<Buffer>)
        ensures
            buffers@.len() == 4,
            buffers@[0].size == self.directional_light_uniforms_buffer.size,
            buffers@[1].size == self.point_light_buffer.size,
            buffers@[2].size == self.nb_point_lights_buffer.size,
            buffers@[3].size == self.pbr_uniforms_buffer.size,
            buffers@[0].label@ == self.directional_light_uniforms_buffer.label@,
            buffers@[1].label@ == self.point_light_buffer.label@,
            buffers@[2].label@ == self.nb_point_lights_buffer.label@,
            buffers@[3].label@ == self.pbr_uniforms_buffer.label@,
    {
        vec![
            self.directional_light_uniforms_buffer.duplicate(),
            self.point_light_buffer.duplicate(),
            self.nb_point_lights_buffer.duplicate(),
            self.pbr_uniforms_buffer.duplicate(),
        ]
    }

    /// Compiles the pipeline from the material as it is now, replacing any
    /// earlier one.
    pub fn compile(&mut self)
        ensures
            final(self).compiled_from(old(self)),
            final(self).same_configuration(old(self)),
            final(self).directional_light_uniforms == old(self).directional_light_uniforms,
            final(self).point_light_uniforms == old(self).point_light_uniforms,
    {
        let name = labelled(self.name.as_str(), " MaterialPipeline");
        let uniforms = self.uniform_buffers();
        let textures: Vec<Texture> = vec![
            self.diffuse_texture,
            self.ambient_texture,
            self.specular_texture,
            self.normal_map,
        ];
        assert(textures@ =~= self.textures());
        self.material_pipeline = Some(
            Shader::new(
                name.as_str(),
                "../shader/blinn_phong.wgsl",
                &uniforms,
                &textures,
                self.polygon_mode,
                self.back_face_culling,
            ),
        );
    }

    /// Binds the material for one draw. The first bind compiles the pipeline
    /// from the material as it is then; later binds reuse it. Every bind
    /// refreshes the uniform blocks and records their upload: the directional
    /// light, the first [`MAX_POINT_LIGHTS`] point lights, the number of
    /// point lights in the scene, which is not capped, and the material's
    /// parameters.
    pub fn bind(
        &mut self,
        render_pass: &mut RenderPass,
        transform: usize,
        active_camera: &Camera,
        point_lights: &Vec<PointLight>,
        directional_light: &DirectionalLight,
        transforms: &TransformGraph,
        frame: &FrameMatrices,
    )
        requires
            transforms.well_formed(),
            frame.covers(transforms),
            transform < transforms.len(),
            active_camera.transform < transforms.len(),
            lights_placed(point_lights@, frame.world@),
        ensures
            final(self).bound_from(
                old(self),
                transform,
                active_camera,
                point_lights@,
                directional_light,
                transforms,
                frame,
            ),
            final(render_pass).commands@ == old(render_pass).commands@ + final(self).bind_commands(
                point_lights@.len() as u32,
            ),
    {
        if self.material_pipeline.is_none() {
            self.compile();
        }
        let nb_point_lights = upload_lights(
            render_pass,
            &mut self.directional_light_uniforms,
            &mut self.point_light_uniforms,
            directional_light,
            point_lights,
            &frame.world,
        );
        render_pass.write_buffer(BufferId::Uniform(3), UniformData::Pbr(self.pbr_uniforms));
        match &mut self.material_pipeline {
            Some(shader) => {
                shader.bind(render_pass, transform, active_camera, transforms, frame);
            },
            None => {},
        }
        assert(render_pass.commands@ =~= old(render_pass).commands@ + self.bind_commands(
            point_lights@.len() as u32,
        ));
    }

    /// Sets the albedo texture, which takes the first texture slot, and
    /// raises its flag.
    pub fn set_albedo_texture(&mut self, texture: Texture)
        ensures
            *final(self) == (PbrMaterial {
                diffuse_texture: texture,
                pbr_uniforms: PbrUniforms { has_albedo_texture: 1, ..old(self).pbr_uniforms },
                ..*old(self)
            }),
    {
        self.diffuse_texture = texture;
        self.pbr_uniforms.has_albedo_texture = 1;
    }

    pub fn set_albedo_color(&mut self, r: u32, g: u32, b: u32)
        ensures
            final(self).pbr_uniforms.albedo_color@ == seq![r, g, b],
            *final(self) == (PbrMaterial {
                pbr_uniforms: PbrUniforms {
                    albedo_color: final(self).pbr_uniforms.albedo_color,
                    ..old(self).pbr_uniforms
                },
                ..*old(self)
            }),
    {
        self.pbr_uniforms.albedo_color = [r, g, b];
    }

    /// Sets the ambient texture and raises its flag.
    pub fn set_ambient_texture(&mut self, texture: Texture)
        ensures
            *final(self) == (PbrMaterial {
                ambient_texture: texture,
                pbr_uniforms: PbrUniforms { has_ambient_texture: 1, ..old(self).pbr_uniforms },
                ..*old(self)
            }),
    {
        self.ambient_texture = texture;
        self.pbr_uniforms.has_ambient_texture = 1;
    }

    pub fn set_ambient_color(&mut self, r: u32, g: u32, b: u32)
        ensures
            final(self).pbr_uniforms.ambient_color@ == seq![r, g, b],
            *final(self) == (PbrMaterial {
                pbr_uniforms: PbrUniforms {
                    ambient_color: final(self).pbr_uniforms.ambient_color,
                    ..old(self).pbr_uniforms
                },
                ..*old(self)
            }),
    {
        self.pbr_uniforms.ambient_color = [r, g, b];
    }

    pub fn set_polygon_mode(&mut self, polygon_mode: PolygonMode)
        ensures
            *final(self) == (PbrMaterial { polygon_mode, ..*old(self) }),
    {
        self.polygon_mode = polygon_mode;
    }

    pub fn set_back_face_culling(&mut self, back_face_culling: bool)
        ensures
            *final(self) == (PbrMaterial { back_face_culling, ..*old(self) }),
    {
        self.back_face_culling = back_face_culling;
    }
}

/// What a pipeline binds is fixed by the first bind. Take a material that
/// was never bound, give it the albedo texture `first`, bind it, then give it
/// the albedo texture `second` and the albedo colour `color`, and bind it
/// again. The pipeline still binds `first` in the first slot, while the
/// second bind uploads the new colour.
pub proof fn lemma_textures_fixed_at_first_bind(
    fresh: PbrMaterial,
    first: Texture,
    first_bound: PbrMaterial,
    second: Texture,
    color: [u32; 3],
    second_bound: PbrMaterial,
    transform: usize,
    active_camera: Camera,
    point_lights: Seq<PointLight>,
    directional_light: DirectionalLight,
    transforms: TransformGraph,
    frame: FrameMatrices,
)
    requires
        fresh.material_pipeline is None,
        first_bound.bound_from(
            &(PbrMaterial {
                diffuse_texture: first,
                pbr_uniforms: PbrUniforms {
                    has_albedo_texture: 1,
                    ..fresh.pbr_uniforms
                },
                ..fresh
            }),
            transform,
            &active_camera,
            point_lights,
            &directional_light,
            &transforms,
            &frame,
        ),
        second_bound.bound_from(
            &(PbrMaterial {
                diffuse_texture: second,
                pbr_uniforms: PbrUniforms {
                    albedo_color: color,
                    ..first_bound.pbr_uniforms
                },
                ..first_bound
            }),
            transform,
            &active_camera,
            point_lights,
            &directional_light,
            &transforms,
            &frame,
        ),
    ensures
        second_bound.diffuse_texture == second,
        second_bound.material_pipeline matches Some(shader)
            && shader.pipeline.texture_bind_group@ == texture_group(
            seq![first, fresh.ambient_texture, fresh.specular_texture, fresh.normal_map],
        ) && shader.pipeline.texture_bind_group@[0] == (BindGroupEntry {
            binding: 0,
            resource: BindingResource::TextureView(first),
        }),
        second_bound.pbr_uniforms.albedo_color == color,
        second_bound.bind_commands(point_lights.len() as u32)[3] == (RenderCommand::WriteBuffer {
            buffer: BufferId::Uniform(3),
            data: UniformData::Pbr(
                PbrUniforms {
                    albedo_color: color,
                    has_albedo_texture: 1,
                    ..fresh.pbr_uniforms
                },
            ),
        }),
{
    let configured = PbrMaterial {
        diffuse_texture: first,
        pbr_uniforms: PbrUniforms { has_albedo_texture: 1, ..fresh.pbr_uniforms },
        ..fresh
    };
    assert(first_bound.compiled_from(&configured));
    assert(configured.textures() =~= seq![
        first,
        fresh.ambient_texture,
        fresh.specular_texture,
        fresh.normal_map,
    ]);
    assert(first_bound.pbr_uniforms == configured.pbr_uniforms);
}

} // verus!
