use crate::camera::camera::{Camera, FrameMatrices};
use crate::lights::directional_light::{DirectionalLight, DirectionalLightUniform};
use crate::lights::point_light::{lights_placed, PointLight, PointLightUniforms};
use crate::materials::bind_group::{texture_group, BindGroupEntry, BindingResource, BufferId};
use crate::materials::material_pipeline::{pipeline_commands, PolygonMode};
use crate::materials::shader::Shader;
use crate::materials::utils::{
    create_array_buffer, create_buffer, labelled, light_commands, lights_shown, upload_lights,
    Buffer,
};
use crate::render_pass::{RenderCommand, RenderPass, UniformData};
use crate::scalar::{ONE, ZERO};
use crate::settings::MAX_POINT_LIGHTS;
use crate::texture::Texture;
use crate::transform::TransformGraph;
use vstd::prelude::*;

verus! {

/// GPU layout of the Blinn-Phong parameters: three colours, each followed by
/// the flag of its texture, the flag of the normal map, and padding to
/// sixteen words.
#[derive(Clone, Copy, Debug, PartialEq, Eq)]
pub struct BlinnPhongUniforms {
    pub diffuse_color: [u32; 3],
    pub has_diffuse_texture: u32,
    pub ambient_color: [u32; 3],
    pub has_ambient_texture: u32,
    pub specular_color: [u32; 3],
    pub has_specular_texture: u32,
    pub has_normal_map: u32,
    pub _padding: [u32; 3],
}

impl BlinnPhongUniforms {
    /// Number of 32-bit words of the block.
    pub const WORDS: usize = 16;

    /// The block word by word, in the order the shader reads it.
    pub open spec fn layout(self) -> Seq<u32> {
        self.diffuse_color@ + seq![self.has_diffuse_texture] + self.ambient_color@ + seq![
            self.has_ambient_texture,
        ] + self.specular_color@ + seq![self.has_specular_texture, self.has_normal_map]
            + self._padding@
    }

    pub fn words(&self) -> (w: Vec<u32>)
        ensures
            w@ == self.layout(),
            w@.len() == Self::WORDS,
    {
        let w: Vec<u32> = vec![
            self.diffuse_color[0],
            self.diffuse_color[1],
            self.diffuse_color[2],
            self.has_diffuse_texture,
            self.ambient_color[0],
            self.ambient_color[1],
            self.ambient_color[2],
            self.has_ambient_texture,
            self.specular_color[0],
            self.specular_color[1],
            self.specular_color[2],
            self.has_specular_texture,
            self.has_normal_map,
            self._padding[0],
            self._padding[1],
            self._padding[2],
        ];
        assert(w@ =~= self.layout());
        w
    }
}

impl Default for BlinnPhongUniforms {
    /// White diffuse and specular colours, no ambient colour, no texture.
    fn default() -> (u: BlinnPhongUniforms)
        ensures
            u.diffuse_color@ == seq![ONE, ONE, ONE],
            u.ambient_color@ == seq![ZERO, ZERO, ZERO],
            u.specular_color@ == seq![ONE, ONE, ONE],
            u.has_diffuse_texture == 0,
            u.has_ambient_texture == 0,
            u.has_specular_texture == 0,
            u.has_normal_map == 0,
            u._padding@ == seq![0u32, 0u32, 0u32],
    {
        BlinnPhongUniforms {
            diffuse_color: [ONE, ONE, ONE],
            has_diffuse_texture: 0,
            ambient_color: [ZERO, ZERO, ZERO],
            has_ambient_texture: 0,
            specular_color: [ONE, ONE, ONE],
            has_specular_texture: 0,
            has_normal_map: 0,
            _padding: [0, 0, 0],
        }
    }
}

/// The shader that the Blinn-Phong material names.
pub open spec fn blinn_phong_shader() -> Seq<char> {
    "../shader/blinn_phong.wgsl"@
}

/// A Blinn-Phong material: its parameters, its four texture handles, the
/// uniform blocks of the lights, and the pipeline that is compiled the first
/// time the material is bound. What the pipeline binds is fixed then: a
/// texture, polygon mode or culling choice set later changes the material
/// but not the compiled pipeline.
pub struct BlinnPhongMaterial {
    pub name: String,
    pub material_pipeline: Option<Shader>,
    pub light_uniforms: DirectionalLightUniform,
    pub light_uniforms_buffer: Buffer,
    pub point_light_uniforms: [PointLightUniforms; MAX_POINT_LIGHTS],
    pub point_light_buffer: Buffer,
    pub nb_point_lights_buffer: Buffer,
    pub phong_uniforms: BlinnPhongUniforms,
    pub phong_uniforms_buffer: Buffer,
    pub diffuse_texture: Texture,
    pub ambient_texture: Texture,
    pub specular_texture: Texture,
    pub normal_map: Texture,
    pub polygon_mode: PolygonMode,
    pub back_face_culling: bool,
}

impl BlinnPhongMaterial {
    /// The textures in the order of their slots.
    pub open spec fn textures(&self) -> Seq<Texture> {
        seq![self.diffuse_texture, self.ambient_texture, self.specular_texture, self.normal_map]
    }

    /// Everything but the pipeline and the uniform blocks of the lights is as
    /// in `other`.
    pub open spec fn same_configuration(&self, other: &BlinnPhongMaterial) -> bool {
        &&& self.name@ == other.name@
        &&& self.light_uniforms_buffer.label@ == other.light_uniforms_buffer.label@
        &&& self.light_uniforms_buffer.size == other.light_uniforms_buffer.size
        &&& self.point_light_buffer.label@ == other.point_light_buffer.label@
        &&& self.point_light_buffer.size == other.point_light_buffer.size
        &&& self.nb_point_lights_buffer.label@ == other.nb_point_lights_buffer.label@
        &&& self.nb_point_lights_buffer.size == other.nb_point_lights_buffer.size
        &&& self.phong_uniforms == other.phong_uniforms
        &&& self.phong_uniforms_buffer.label@ == other.phong_uniforms_buffer.label@
        &&& self.phong_uniforms_buffer.size == other.phong_uniforms_buffer.size
        &&& self.textures() == other.textures()
        &&& self.polygon_mode == other.polygon_mode
        &&& self.back_face_culling == other.back_face_culling
    }

    /// The pipeline is the one that compiling `source` gives.
    pub open spec fn compiled_from(&self, source: &BlinnPhongMaterial) -> bool {
        self.material_pipeline matches Some(shader) && shader.built_from(
            source.name@ + " MaterialPipeline"@,
            blinn_phong_shader(),
            4,
            source.textures(),
            source.polygon_mode,
            source.back_face_culling,
        )
    }

    /// The material after a bind of `before`: the configuration is kept; the
    /// pipeline is the one `before` had, or, if it had none, the one compiled
    /// from `before`; the uniform blocks show the frame.
    pub open spec fn bound_from(
        &self,
        before: &BlinnPhongMaterial,
        transform: usize,
        active_camera: &Camera,
        point_lights: Seq<PointLight>,
        directional_light: &DirectionalLight,
        transforms: &TransformGraph,
        frame: &FrameMatrices,
    ) -> bool {
        &&& self.same_configuration(before)
        &&& match before.material_pipeline {
            Some(shader) => self.material_pipeline matches Some(kept) && kept.same_bindings(
                &shader,
            ),
            None => self.compiled_from(before),
        }
        &&& self.material_pipeline matches Some(shader) && shader.pipeline.shows(
            transform,
            active_camera,
            transforms,
            frame,
        )
        &&& lights_shown(
            before.light_uniforms,
            before.point_light_uniforms,
            directional_light,
            point_lights,
            frame.world@,
            self.light_uniforms,
            self.point_light_uniforms,
        )
    }

    /// The commands of one bind: the four uniform blocks are uploaded in the
    /// order of their slots, then the pipeline is bound.
    pub open spec fn bind_commands(&self, nb_point_lights: u32) -> Seq<RenderCommand> {
        light_commands(self.light_uniforms, self.point_light_uniforms, nb_point_lights) + seq![
            RenderCommand::WriteBuffer {
                buffer: BufferId::Uniform(3),
                data: UniformData::BlinnPhong(self.phong_uniforms),
            },
        ] + pipeline_commands(
            self.material_pipeline->0.pipeline.transform_uniforms,
            self.material_pipeline->0.pipeline.camera_uniforms,
        )
    }

    /// A material with default parameters and the placeholder texture in
    /// every slot, filled polygons and back-face culling, not yet compiled.
    pub fn new(name: &str, empty_texture: Texture) -> (material: BlinnPhongMaterial)
        ensures
            material.name@ == name@,
            material.material_pipeline is None,
            material.light_uniforms_buffer.label@ == name@ + " DirectionalLight Buffer"@,
            material.light_uniforms_buffer.size == 4 * DirectionalLightUniform::WORDS,
            material.point_light_buffer.label@ == name@ + " PointLights Array Buffer"@,
            material.point_light_buffer.size == 4 * PointLightUniforms::WORDS * MAX_POINT_LIGHTS,
            material.nb_point_lights_buffer.label@ == name@ + " Number of Point Lights Buffer"@,
            material.nb_point_lights_buffer.size == 4,
            material.phong_uniforms_buffer.label@ == name@ + " Phong Buffer"@,
            material.phong_uniforms_buffer.size == 4 * BlinnPhongUniforms::WORDS,
            material.phong_uniforms.diffuse_color@ == seq![ONE, ONE, ONE],
            material.phong_uniforms.ambient_color@ == seq![ZERO, ZERO, ZERO],
            material.phong_uniforms.specular_color@ == seq![ONE, ONE, ONE],
            material.phong_uniforms.has_diffuse_texture == 0,
            material.phong_uniforms.has_ambient_texture == 0,
            material.phong_uniforms.has_specular_texture == 0,
            material.phong_uniforms.has_normal_map == 0,
            material.textures() == seq![empty_texture, empty_texture, empty_texture, empty_texture],
            material.polygon_mode == PolygonMode::Fill,
            material.back_face_culling,
    {
        let light_label = labelled(name, " DirectionalLight Buffer");
        let point_label = labelled(name, " PointLights Array Buffer");
        let count_label = labelled(name, " Number of Point Lights Buffer");
        let phong_label = labelled(name, " Phong Buffer");
        BlinnPhongMaterial {
            name: name.to_string(),
            material_pipeline: None,
            light_uniforms: DirectionalLightUniform::default(),
            light_uniforms_buffer: create_buffer(
                light_label.as_str(),
                DirectionalLightUniform::WORDS,
            ),
            point_light_uniforms: [PointLightUniforms::default();MAX_POINT_LIGHTS],
            point_light_buffer: create_array_buffer(
                point_label.as_str(),
                PointLightUniforms::WORDS,
                MAX_POINT_LIGHTS as u32,
            ),
            nb_point_lights_buffer: create_buffer(count_label.as_str(), 1),
            phong_uniforms: BlinnPhongUniforms::default(),
            phong_uniforms_buffer: create_buffer(phong_label.as_str(), BlinnPhongUniforms::WORDS),
            diffuse_texture: empty_texture,
            ambient_texture: empty_texture,
            specular_texture: empty_texture,
            normal_map: empty_texture,
            polygon_mode: PolygonMode::Fill,
            back_face_culling: true,
        }
    }

    /// The uniform buffers in the order of their slots: directional light,
    /// point-light array, point-light count, material parameters.
    pub fn uniform_buffers(&self) -> (buffers: Vec<Buffer>)
        ensures
            buffers@.len() == 4,
            buffers@[0].size == self.light_uniforms_buffer.size,
            buffers@[1].size == self.point_light_buffer.size,
            buffers@[2].size == self.nb_point_lights_buffer.size,
            buffers@[3].size == self.phong_uniforms_buffer.size,
            buffers@[0].label@ == self.light_uniforms_buffer.label@,
            buffers@[1].label@ == self.point_light_buffer.label@,
            buffers@[2].label@ == self.nb_point_lights_buffer.label@,
            buffers@[3].label@ == self.phong_uniforms_buffer.label@,
    {
        vec![
            self.light_uniforms_buffer.duplicate(),
            self.point_light_buffer.duplicate(),
            self.nb_point_lights_buffer.duplicate(),
            self.phong_uniforms_buffer.duplicate(),
        ]
    }

    /// Compiles the pipeline from the material as it is now, replacing any
    /// earlier one.
    pub fn compile(&mut self)
        ensures
            final(self).compiled_from(old(self)),
            final(self).same_configuration(old(self)),
            final(self).light_uniforms == old(self).light_uniforms,
            final(self).point_light_uniforms == old(self).point_light_uniforms,
    {
        let name = labelled(self.name.as_str(), " MaterialPipeline");
        let uniforms = self.uniform_buffers();
        let textures: Vec<Texture> = vec![
            self.diffuse_texture,
            self.ambient_texture,
            self.specular_texture,
            self.normal_map,
        ];
        assert(textures@ =~= self.textures());
        self.material_pipeline = Some(
            Shader::new(
                name.as_str(),
                "../shader/blinn_phong.wgsl",
                &uniforms,
                &textures,
                self.polygon_mode,
                self.back_face_culling,
            ),
        );
    }

    /// Binds the material for one draw. The first bind compiles the pipeline
    /// from the material as it is then; later binds reuse it. Every bind
    /// refreshes the uniform blocks and records their upload: the directional
    /// light, the first [`MAX_POINT_LIGHTS`] point lights, the number of
    /// point lights in the scene, which is not capped, and the material's
    /// parameters.
    pub fn bind(
        &mut self,
        render_pass: &mut RenderPass,
        transform: usize,
        active_camera: &Camera,
        point_lights: &Vec<PointLight>,
        directional_light: &DirectionalLight,
        transforms: &TransformGraph,
        frame: &FrameMatrices,
    )
        requires
            transforms.well_formed(),
            frame.covers(transforms),
            transform < transforms.len(),
            active_camera.transform < transforms.len(),
            lights_placed(point_lights@, frame.world@),
        ensures
            final(self).bound_from(
                old(self),
                transform,
                active_camera,
                point_lights@,
                directional_light,
                transforms,
                frame,
            ),
            final(render_pass).commands@ == old(render_pass).commands@ + final(self).bind_commands(
                point_lights@.len() as u32,
            ),
    {
        if self.material_pipeline.is_none() {
            self.compile();
        }
        let nb_point_lights = upload_lights(
            render_pass,
            &mut self.light_uniforms,
            &mut self.point_light_uniforms,
            directional_light,
            point_lights,
            &frame.world,
        );
        render_pass.write_buffer(BufferId::Uniform(3), UniformData::BlinnPhong(self.phong_uniforms));
        match &mut self.material_pipeline {
            Some(shader) => {
                shader.bind(render_pass, transform, active_camera, transforms, frame);
            },
            None => {},
        }
        assert(render_pass.commands@ =~= old(render_pass).commands@ + self.bind_commands(
            point_lights@.len() as u32,
        ));
    }

    /// Sets the diffuse texture and raises its flag.
    pub fn set_diffuse_texture(&mut self, texture: Texture)
        ensures
            *final(self) == (BlinnPhongMaterial {
                diffuse_texture: texture,
                phong_uniforms: BlinnPhongUniforms {
                    has_diffuse_texture: 1,
                    ..old(self).phong_uniforms
                },
                ..*old(self)
            }),
    {
        self.diffuse_texture = texture;
        self.phong_uniforms.has_diffuse_texture = 1;
    }

    pub fn set_diffuse_color(&mut self, r: u32, g: u32, b: u32)
        ensures
            final(self).phong_uniforms.diffuse_color@ == seq![r, g, b],
            *final(self) == (BlinnPhongMaterial {
                phong_uniforms: BlinnPhongUniforms {
                    diffuse_color: final(self).phong_uniforms.diffuse_color,
                    ..old(self).phong_uniforms
                },
                ..*old(self)
            }),
    {
        self.phong_uniforms.diffuse_color = [r, g, b];
    }

    /// Sets the ambient texture and raises its flag.
    pub fn set_ambient_texture(&mut self, texture: Texture)
        ensures
            *final(self) == (BlinnPhongMaterial {
                ambient_texture: texture,
                phong_uniforms: BlinnPhongUniforms {
                    has_ambient_texture: 1,
                    ..old(self).phong_uniforms
                },
                ..*old(self)
            }),
    {
        self.ambient_texture = texture;
        self.phong_uniforms.has_ambient_texture = 1;
    }

    pub fn set_ambient_color(&mut self, r: u32, g: u32, b: u32)
        ensures
            final(self).phong_uniforms.ambient_color@ == seq![r, g, b],
            *final(self) == (BlinnPhongMaterial {
                phong_uniforms: BlinnPhongUniforms {
                    ambient_color: final(self).phong_uniforms.ambient_color,
                    ..old(self).phong_uniforms
                },
                ..*old(self)
            }),
    {
        self.phong_uniforms.ambient_color = [r, g, b];
    }

    /// Sets the specular texture and raises its flag.
    pub fn set_specular_texture(&mut self, texture: Texture)
        ensures
            *final(self) == (BlinnPhongMaterial {
                specular_texture: texture,
                phong_uniforms: BlinnPhongUniforms {
                    has_specular_texture: 1,
                    ..old(self).phong_uniforms
                },
                ..*old(self)
            }),
    {
        self.specular_texture = texture;
        self.phong_uniforms.has_specular_texture = 1;
    }

    pub fn set_specular_color(&mut self, r: u32, g: u32, b: u32)
        ensures
            final(self).phong_uniforms.specular_color@ == seq![r, g, b],
            *final(self) == (BlinnPhongMaterial {
                phong_uniforms: BlinnPhongUniforms {
                    specular_color: final(self).phong_uniforms.specular_color,
                    ..old(self).phong_uniforms
                },
                ..*old(self)
            }),
    {
        self.phong_uniforms.specular_color = [r, g, b];
    }

    /// Sets the normal map and raises its flag.
    pub fn set_normal_map(&mut self, texture: Texture)
        ensures
            *final(self) == (BlinnPhongMaterial {
                normal_map: texture,
                phong_uniforms: BlinnPhongUniforms {
                    has_normal_map: 1,
                    ..old(self).phong_uniforms
                },
                ..*old(self)
            }),
    {
        self.normal_map = texture;
        self.phong_uniforms.has_normal_map = 1;
    }

    pub fn set_polygon_mode(&mut self, polygon_mode: PolygonMode)
        ensures
            *final(self) == (BlinnPhongMaterial { polygon_mode, ..*old(self) }),
    {
        self.polygon_mode = polygon_mode;
    }

    pub fn set_back_face_culling(&mut self, back_face_culling: bool)
        ensures
            *final(self) == (BlinnPhongMaterial { back_face_culling, ..*old(self) }),
    {
        self.back_face_culling = back_face_culling;
    }
}

/// What a pipeline binds is fixed by the first bind. Take a material that
/// was never bound, give it the diffuse texture `first`, bind it, then give it
/// the diffuse texture `second` and the diffuse colour `color`, and bind it
/// again. The pipeline still binds `first` in the diffuse slot, while the
/// second bind uploads the new colour.
pub proof fn lemma_textures_fixed_at_first_bind(
    fresh: BlinnPhongMaterial,
    first: Texture,
    first_bound: BlinnPhongMaterial,
    second: Texture,
    color: [u32; 3],
    second_bound: BlinnPhongMaterial,
    transform: usize,
    active_camera: Camera,
    point_lights: Seq<PointLight>,
    directional_light: DirectionalLight,
    transforms: TransformGraph,
    frame: FrameMatrices,
)
    requires
        fresh.material_pipeline is None,
        first_bound.bound_from(
            &(BlinnPhongMaterial {
                diffuse_texture: first,
                phong_uniforms: BlinnPhongUniforms {
                    has_diffuse_texture: 1,
                    ..fresh.phong_uniforms
                },
                ..fresh
            }),
            transform,
            &active_camera,
            point_lights,
            &directional_light,
            &transforms,
            &frame,
        ),
        second_bound.bound_from(
            &(BlinnPhongMaterial {
                diffuse_texture: second,
                phong_uniforms: BlinnPhongUniforms {
                    diffuse_color: color,
                    ..first_bound.phong_uniforms
                },
                ..first_bound
            }),
            transform,
            &active_camera,
            point_lights,
            &directional_light,
            &transforms,
            &frame,
        ),
    ensures
        second_bound.diffuse_texture == second,
        second_bound.material_pipeline matches Some(shader)
            && shader.pipeline.texture_bind_group@ == texture_group(
            seq![first, fresh.ambient_texture, fresh.specular_texture, fresh.normal_map],
        ) && shader.pipeline.texture_bind_group@[0] == (BindGroupEntry {
            binding: 0,
            resource: BindingResource::TextureView(first),
        }),
        second_bound.phong_uniforms.diffuse_color == color,
        second_bound.bind_commands(point_lights.len() as u32)[3] == (RenderCommand::WriteBuffer {
            buffer: BufferId::Uniform(3),
            data: UniformData::BlinnPhong(
                BlinnPhongUniforms {
                    diffuse_color: color,
                    has_diffuse_texture: 1,
                    ..fresh.phong_uniforms
                },
            ),
        }),
{
    let configured = BlinnPhongMaterial {
        diffuse_texture: first,
        phong_uniforms: BlinnPhongUniforms { has_diffuse_texture: 1, ..fresh.phong_uniforms },
        ..fresh
    };
    assert(first_bound.compiled_from(&configured));
    assert(configured.textures() =~= seq![
        first,
        fresh.ambient_texture,
        fresh.specular_texture,
        fresh.normal_map,
    ]);
    assert(first_bound.phong_uniforms == configured.phong_uniforms);
}

} // verus!
