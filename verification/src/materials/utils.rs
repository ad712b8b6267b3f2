use crate::lights::directional_light::{DirectionalLight, DirectionalLightUniform};
use crate::lights::point_light::{
    lights_placed, pack_point_lights, packed, PointLight, PointLightUniforms,
};
use crate::materials::bind_group::BufferId;
use crate::render_pass::{RenderCommand, RenderPass, UniformData};
use crate::scalar::Matrix;
use crate::settings::MAX_POINT_LIGHTS;
use vstd::prelude::*;

verus! {

/// Number of bytes of one 32-bit word.
pub const WORD_BYTES: u64 = 4;

/// A uniform buffer that the host allocates for later writes: its debug label
/// and its size in bytes.
pub struct Buffer {
    pub label: String,
    pub size: u64,
}

impl Buffer {
    /// A buffer with the same label and size.
    pub fn duplicate(&self) -> (copy: Buffer)
        ensures
            copy.label@ == self.label@,
            copy.size == self.size,
    {
        Buffer { label: self.label.clone(), size: self.size }
    }
}

/// The uploads of the light blocks: the directional light at slot 0, the
/// point-light array at slot 1, the number of point lights at slot 2.
pub open spec fn light_commands(
    light_uniforms: DirectionalLightUniform,
    point_light_uniforms: [PointLightUniforms; MAX_POINT_LIGHTS],
    nb_point_lights: u32,
) -> Seq<RenderCommand> {
    seq![
        RenderCommand::WriteBuffer {
            buffer: BufferId::Uniform(0),
            data: UniformData::DirectionalLight(light_uniforms),
        },
        RenderCommand::WriteBuffer {
            buffer: BufferId::Uniform(1),
            data: UniformData::PointLights(point_light_uniforms),
        },
        RenderCommand::WriteBuffer {
            buffer: BufferId::Uniform(2),
            data: UniformData::PointLightCount(nb_point_lights),
        },
    ]
}

/// The light blocks after a bind: the directional block shows the light, the
/// point-light array holds the lights below the cap.
pub open spec fn lights_shown(
    light_before: DirectionalLightUniform,
    slots_before: [PointLightUniforms; MAX_POINT_LIGHTS],
    directional_light: &DirectionalLight,
    point_lights: Seq<PointLight>,
    world: Seq<Matrix>,
    light_after: DirectionalLightUniform,
    slots_after: [PointLightUniforms; MAX_POINT_LIGHTS],
) -> bool {
    &&& light_after.color == directional_light.color
    &&& light_after.intensity == directional_light.intensity
    &&& light_after.direction == directional_light.direction
    &&& light_after._padding == light_before._padding
    &&& light_after._padding2 == light_before._padding2
    &&& packed(slots_before, point_lights, world, slots_after)
}

/// Refreshes the light blocks of a material and records their upload. The
/// number that is uploaded is the number of point lights in the scene, also
/// where that is more than the array holds.
pub fn upload_lights(
    render_pass: &mut RenderPass,
    light_uniforms: &mut DirectionalLightUniform,
    point_light_uniforms: &mut [PointLightUniforms; MAX_POINT_LIGHTS],
    directional_light: &DirectionalLight,
    point_lights: &Vec<PointLight>,
    world: &Vec<Matrix>,
) -> (nb_point_lights: u32)
    requires
        lights_placed(point_lights@, world@),
    ensures
        nb_point_lights == point_lights@.len() as u32,
        lights_shown(
            *old(light_uniforms),
            *old(point_light_uniforms),
            directional_light,
            point_lights@,
            world@,
            *final(light_uniforms),
            *final(point_light_uniforms),
        ),
        final(render_pass).commands@ == old(render_pass).commands@ + light_commands(
            *final(light_uniforms),
            *final(point_light_uniforms),
            nb_point_lights,
        ),
{
    light_uniforms.update(directional_light);
    render_pass.write_buffer(BufferId::Uniform(0), UniformData::DirectionalLight(*light_uniforms));
    pack_point_lights(point_light_uniforms, point_lights, world);
    render_pass.write_buffer(BufferId::Uniform(1), UniformData::PointLights(*point_light_uniforms));
    let nb_point_lights: u32 = #[verifier::truncate]
    (point_lights.len() as u32);
    render_pass.write_buffer(BufferId::Uniform(2), UniformData::PointLightCount(nb_point_lights));
    assert(render_pass.commands@ =~= old(render_pass).commands@ + light_commands(
        *light_uniforms,
        *point_light_uniforms,
        nb_point_lights,
    ));
    nb_point_lights
}

/// `name` followed by `suffix`.
pub fn labelled(name: &str, suffix: &str) -> (label: String)
    ensures
        label@ == name@ + suffix@,
{
    let mut label = name.to_string();
    label.append(suffix);
    label
}

/// A buffer for one block of `words` 32-bit words.
pub fn create_buffer(name: &str, words: usize) -> (buffer: Buffer)
    requires
        words * WORD_BYTES <= u64::MAX,
    ensures
        buffer.label@ == name@,
        buffer.size == words * WORD_BYTES,
{
    create_array_buffer(name, words, 1)
}

/// A buffer for `nb_elements` blocks of `words` 32-bit words each.
pub fn create_array_buffer(name: &str, words: usize, nb_elements: u32) -> (buffer: Buffer)
    requires
        words * WORD_BYTES * nb_elements <= u64::MAX,
    ensures
        buffer.label@ == name@,
        buffer.size == words * WORD_BYTES * nb_elements,
{
    assert(words * WORD_BYTES <= words * WORD_BYTES * nb_elements || nb_elements == 0)
        by (nonlinear_arith)
        requires
            words >= 0,
            nb_elements >= 0,
    ;
    let element_size: u64 = if nb_elements == 0 {
        0
    } else {
        words as u64 * WORD_BYTES
    };
    Buffer { label: name.to_string(), size: element_size * (nb_elements as u64) }
}

} // verus!
