use gilgamesh::camera::camera::{Camera, FrameMatrices};
use gilgamesh::camera::uniforms::CameraUniforms;
use gilgamesh::lights::directional_light::DirectionalLight;
use gilgamesh::lights::point_light::PointLight;
use gilgamesh::materials::bind_group::{
    required_entries, texture_entries, uniform_entries, BindGroupEntry, BindGroupKind,
    BindingResource, BufferId,
};
use gilgamesh::materials::blinn_phong::{BlinnPhongMaterial, BlinnPhongUniforms};
use gilgamesh::materials::material::Material;
use gilgamesh::materials::material_pipeline::{
    BlendState, ColorTargetState, CompareFunction, Face, MaterialPipeline, PipelineLabels,
    PipelineState, PolygonMode, PrimitiveTopology, TextureFormat, COLOR_WRITES_ALL,
};
use gilgamesh::materials::pbr::{PbrMaterial, PbrUniforms};
use gilgamesh::materials::phong::{PhongMaterial, PhongUniforms};
use gilgamesh::materials::shader::Shader;
use gilgamesh::materials::terrain::{TerrainMaterial, TerrainUniforms};
use gilgamesh::materials::uniform_buffer::UniformBuffer;
use gilgamesh::materials::utils::{create_array_buffer, create_buffer};
use gilgamesh::render_pass::{RenderCommand, RenderPass, UniformData};
use gilgamesh::scalar::identity_matrix;
use gilgamesh::texture::Texture;
use gilgamesh::transform::{Transform, TransformGraph, TransformUniforms};

fn w(x: f32) -> u32 {
    x.to_bits()
}

struct World {
    transforms: TransformGraph,
    camera: Camera,
    mesh: usize,
    frame: FrameMatrices,
    sun: DirectionalLight,
    point_lights: Vec<PointLight>,
}

fn world(nb_lights: usize) -> World {
    let mut transforms = TransformGraph::new();
    let camera = Camera::new(&mut transforms, w(1.25));
    transforms.transform_mut(camera.transform).set_position(w(0.0), w(0.0), w(10.0));
    let mesh = transforms.add(Transform::new());
    transforms.transform_mut(mesh).set_position(w(6.0), w(0.0), w(0.0));
    let mut point_lights = Vec::new();
    for i in 0..nb_lights {
        let mut light = PointLight::new(&mut transforms);
        light.intensity = w(i as f32);
        point_lights.push(light);
    }
    let n = transforms.nb_transforms();
    let mut world_matrices = Vec::new();
    let mut normal_matrices = Vec::new();
    for i in 0..n {
        let mut m = identity_matrix();
        m[12] = w(i as f32);
        world_matrices.push(m);
        let mut k = identity_matrix();
        k[0] = w(100.0 + i as f32);
        normal_matrices.push(k);
    }
    let mut view_projection = identity_matrix();
    view_projection[5] = w(42.0);
    World {
        transforms,
        camera,
        mesh,
        frame: FrameMatrices { view_projection, world: world_matrices, normal: normal_matrices },
        sun: DirectionalLight::default(),
        point_lights,
    }
}

fn bind_blinn_phong(material: &mut BlinnPhongMaterial, wd: &World) -> Vec<RenderCommand> {
    let mut pass = RenderPass::new();
    material.bind(
        &mut pass,
        wd.mesh,
        &wd.camera,
        &wd.point_lights,
        &wd.sun,
        &wd.transforms,
        &wd.frame,
    );
    pass.commands
}

#[test]
fn uniform_buffer_starts_from_default() {
    let buffer: UniformBuffer<u32> = UniformBuffer::new("Phong Buffer");
    assert_eq!(buffer.label(), "Phong Buffer");
    assert_eq!(*buffer.init_value(), 0);
    let flags: UniformBuffer<(bool, u8)> = UniformBuffer::new("");
    assert_eq!(flags.label(), "");
    assert_eq!(*flags.init_value(), (false, 0));
}

#[test]
fn buffers_are_sized_in_bytes() {
    let one = create_buffer("Camera Buffer", CameraUniforms::WORDS);
    assert_eq!(one.label, "Camera Buffer");
    assert_eq!(one.size, 80);
    let many = create_array_buffer("PointLights Array Buffer", 9, 4);
    assert_eq!(many.label, "PointLights Array Buffer");
    assert_eq!(many.size, 144);
    assert_eq!(create_array_buffer("none", 9, 0).size, 0);
    assert_eq!(create_buffer("count", 1).size, 4);
    let copy = many.duplicate();
    assert_eq!(copy.label, many.label);
    assert_eq!(copy.size, many.size);
}

#[test]
fn required_set_holds_transform_then_camera() {
    assert_eq!(
        required_entries(),
        vec![
            BindGroupEntry { binding: 0, resource: BindingResource::Buffer(BufferId::Transform) },
            BindGroupEntry { binding: 1, resource: BindingResource::Buffer(BufferId::Camera) },
        ]
    );
}

#[test]
fn uniform_set_binds_buffer_i_at_slot_i() {
    assert_eq!(uniform_entries(0), vec![]);
    let entries = uniform_entries(3);
    assert_eq!(entries.len(), 3);
    for i in 0..3 {
        assert_eq!(
            entries[i],
            BindGroupEntry {
                binding: i as u32,
                resource: BindingResource::Buffer(BufferId::Uniform(i)),
            }
        );
    }
}

#[test]
fn texture_set_binds_view_and_sampler_at_consecutive_slots() {
    let textures = vec![Texture::new(7), Texture::new(3), Texture::new(7)];
    let entries = texture_entries(&textures);
    assert_eq!(
        entries,
        vec![
            BindGroupEntry { binding: 0, resource: BindingResource::TextureView(Texture::new(7)) },
            BindGroupEntry { binding: 1, resource: BindingResource::Sampler(Texture::new(7)) },
            BindGroupEntry { binding: 2, resource: BindingResource::TextureView(Texture::new(3)) },
            BindGroupEntry { binding: 3, resource: BindingResource::Sampler(Texture::new(3)) },
            BindGroupEntry { binding: 4, resource: BindingResource::TextureView(Texture::new(7)) },
            BindGroupEntry { binding: 5, resource: BindingResource::Sampler(Texture::new(7)) },
        ]
    );
    assert_eq!(texture_entries(&Vec::new()), vec![]);
    assert_eq!(
        Texture::new(9).create_bind_group_entries(4),
        [
            BindGroupEntry { binding: 4, resource: BindingResource::TextureView(Texture::new(9)) },
            BindGroupEntry { binding: 5, resource: BindingResource::Sampler(Texture::new(9)) },
        ]
    );
    assert_eq!(Texture::new_empty(), Texture::new(0));
}

#[test]
fn bind_sets_are_bound_in_a_fixed_order() {
    assert_eq!(BindGroupKind::Required.index(), 0);
    assert_eq!(BindGroupKind::Uniform.index(), 1);
    assert_eq!(BindGroupKind::Texture.index(), 2);
}

#[test]
fn pipeline_state_follows_the_culling_choice() {
    let culled = PipelineState::new(PolygonMode::Fill, true);
    assert_eq!(culled.cull_mode, Some(Face::Back));
    assert_eq!(culled.polygon_mode, PolygonMode::Fill);
    assert_eq!(culled.depth_compare, CompareFunction::LessEqual);
    assert_eq!(culled.depth_format, TextureFormat::Depth24Plus);
    assert!(culled.depth_write_enabled);
    let open = PipelineState::new(PolygonMode::Line, false);
    assert_eq!(open.cull_mode, None);
    assert_eq!(open.polygon_mode, PolygonMode::Line);
    assert_eq!(open.depth_compare, CompareFunction::LessEqual);
}

#[test]
fn material_pipeline_is_built_from_its_lists() {
    let uniforms = vec![create_buffer("a", 9), create_buffer("b", 1)];
    let textures = vec![Texture::new(1), Texture::new(2)];
    let p = MaterialPipeline::new("../shader/phong.wgsl", &uniforms, &textures, PolygonMode::Point, false);
    assert_eq!(p.shader_file, "../shader/phong.wgsl");
    assert_eq!(p.transform_uniforms_buffer.label, "Transform Buffer");
    assert_eq!(p.transform_uniforms_buffer.size, 144);
    assert_eq!(p.camera_uniforms_buffer.label, "Camera Buffer");
    assert_eq!(p.camera_uniforms_buffer.size, 80);
    assert_eq!(p.required_bind_group, required_entries());
    assert_eq!(p.uniform_bind_group, uniform_entries(2));
    assert_eq!(p.texture_bind_group, texture_entries(&textures));
    assert_eq!(p.pipeline, PipelineState::new(PolygonMode::Point, false));
    assert_eq!(p.transform_uniforms, TransformUniforms::default());
    assert_eq!(p.camera_uniforms, CameraUniforms::default());
}

#[test]
fn shader_carries_its_name_into_the_labels() {
    let uniforms = vec![create_buffer("a", 9)];
    let textures = vec![Texture::new(5)];
    let s = Shader::new("Earth", "../shader/blinn_phong.wgsl", &uniforms, &textures, PolygonMode::Fill, true);
    assert_eq!(s.name, "Earth");
    assert_eq!(s.pipeline.shader_file, "../shader/blinn_phong.wgsl");
    assert_eq!(s.pipeline.transform_uniforms_buffer.label, "Earth Transform Buffer");
    assert_eq!(s.pipeline.camera_uniforms_buffer.label, "EarthCamera Buffer");
    assert_eq!(s.pipeline.uniform_bind_group, uniform_entries(1));
    assert_eq!(s.pipeline.texture_bind_group, texture_entries(&textures));
    assert_eq!(s.pipeline.pipeline.cull_mode, Some(Face::Back));
}

#[test]
fn shader_bind_uploads_then_binds() {
    let wd = world(0);
    let mut s = Shader::new("S", "f", &Vec::new(), &Vec::new(), PolygonMode::Fill, true);
    let mut pass = RenderPass::new();
    s.bind(&mut pass, wd.mesh, &wd.camera, &wd.transforms, &wd.frame);
    let mut transform_block = TransformUniforms::default();
    transform_block.position = [w(6.0), w(0.0), w(0.0)];
    transform_block.world_matrix = wd.frame.world[wd.mesh];
    transform_block.normal_matrix = wd.frame.normal[wd.mesh];
    let mut camera_block = CameraUniforms::default();
    camera_block.proj_view = wd.frame.view_projection;
    camera_block.position = [w(0.0), w(0.0), w(10.0)];
    assert_eq!(
        pass.commands,
        vec![
            RenderCommand::WriteBuffer {
                buffer: BufferId::Transform,
                data: UniformData::Transform(transform_block),
            },
            RenderCommand::WriteBuffer {
                buffer: BufferId::Camera,
                data: UniformData::Camera(camera_block),
            },
            RenderCommand::SetPipeline,
            RenderCommand::SetBindGroup { index: 0, group: BindGroupKind::Required },
            RenderCommand::SetBindGroup { index: 1, group: BindGroupKind::Uniform },
            RenderCommand::SetBindGroup { index: 2, group: BindGroupKind::Texture },
        ]
    );
    assert_eq!(s.pipeline.transform_uniforms, transform_block);
    assert_eq!(s.pipeline.camera_uniforms, camera_block);
}

#[test]
fn camera_uniform_layout() {
    let mut u = CameraUniforms::default();
    assert_eq!(u.words(), vec![0; 20]);
    let wd = world(0);
    u.update(&wd.camera, &wd.transforms, &wd.frame);
    let words = u.words();
    assert_eq!(words.len(), CameraUniforms::WORDS);
    assert_eq!(&words[0..16], &wd.frame.view_projection);
    assert_eq!(&words[16..19], &[w(0.0), w(0.0), w(10.0)]);
    assert_eq!(words[19], 0);
}

#[test]
fn new_blinn_phong_material_is_not_compiled() {
    let empty = Texture::new_empty();
    let m = BlinnPhongMaterial::new("Earth", empty);
    assert_eq!(m.name, "Earth");
    assert!(m.material_pipeline.is_none());
    assert_eq!(m.light_uniforms_buffer.label, "Earth DirectionalLight Buffer");
    assert_eq!(m.light_uniforms_buffer.size, 36);
    assert_eq!(m.point_light_buffer.label, "Earth PointLights Array Buffer");
    assert_eq!(m.point_light_buffer.size, 144);
    assert_eq!(m.nb_point_lights_buffer.label, "Earth Number of Point Lights Buffer");
    assert_eq!(m.nb_point_lights_buffer.size, 4);
    assert_eq!(m.phong_uniforms_buffer.label, "Earth Phong Buffer");
    assert_eq!(m.phong_uniforms_buffer.size, 64);
    assert_eq!(m.phong_uniforms, BlinnPhongUniforms::default());
    assert_eq!(m.diffuse_texture, empty);
    assert_eq!(m.ambient_texture, empty);
    assert_eq!(m.specular_texture, empty);
    assert_eq!(m.normal_map, empty);
    assert_eq!(m.polygon_mode, PolygonMode::Fill);
    assert!(m.back_face_culling);
    let buffers = m.uniform_buffers();
    assert_eq!(buffers.len(), 4);
    assert_eq!(buffers[0].size, 36);
    assert_eq!(buffers[1].size, 144);
    assert_eq!(buffers[2].size, 4);
    assert_eq!(buffers[3].size, 64);
    assert_eq!(buffers[3].label, "Earth Phong Buffer");
}

#[test]
fn blinn_phong_uniform_layout() {
    let u = BlinnPhongUniforms::default();
    assert_eq!(
        u.words(),
        vec![
            w(1.0), w(1.0), w(1.0), 0,
            w(0.0), w(0.0), w(0.0), 0,
            w(1.0), w(1.0), w(1.0), 0,
            0, 0, 0, 0,
        ]
    );
    assert_eq!(BlinnPhongUniforms::WORDS, 16);
    let mut m = BlinnPhongMaterial::new("m", Texture::new_empty());
    m.set_diffuse_color(w(0.5), w(0.2), w(1.0));
    m.set_ambient_color(w(0.1), w(0.1), w(0.1));
    m.set_specular_color(w(0.0), w(0.0), w(0.0));
    m.set_ambient_texture(Texture::new(2));
    m.set_normal_map(Texture::new(3));
    assert_eq!(
        m.phong_uniforms.words(),
        vec![
            w(0.5), w(0.2), w(1.0), 0,
            w(0.1), w(0.1), w(0.1), 1,
            w(0.0), w(0.0), w(0.0), 0,
            1, 0, 0, 0,
        ]
    );
    assert_eq!(m.ambient_texture, Texture::new(2));
    assert_eq!(m.normal_map, Texture::new(3));
    m.set_specular_texture(Texture::new(4));
    m.set_diffuse_texture(Texture::new(5));
    assert_eq!(m.phong_uniforms.has_specular_texture, 1);
    assert_eq!(m.phong_uniforms.has_diffuse_texture, 1);
    m.set_polygon_mode(PolygonMode::Line);
    m.set_back_face_culling(false);
    assert_eq!(m.polygon_mode, PolygonMode::Line);
    assert!(!m.back_face_culling);
}

#[test]
fn first_bind_compiles_the_pipeline() {
    let wd = world(1);
    let mut m = BlinnPhongMaterial::new("Earth", Texture::new_empty());
    m.set_diffuse_texture(Texture::new(11));
    m.set_polygon_mode(PolygonMode::Line);
    m.set_back_face_culling(false);
    bind_blinn_phong(&mut m, &wd);
    let shader = m.material_pipeline.as_ref().unwrap();
    assert_eq!(shader.name, "Earth MaterialPipeline");
    assert_eq!(shader.pipeline.shader_file, "../shader/blinn_phong.wgsl");
    assert_eq!(shader.pipeline.uniform_bind_group, uniform_entries(4));
    assert_eq!(
        shader.pipeline.texture_bind_group,
        texture_entries(&vec![Texture::new(11), Texture::new(0), Texture::new(0), Texture::new(0)])
    );
    assert_eq!(shader.pipeline.pipeline, PipelineState::new(PolygonMode::Line, false));
    assert_eq!(
        shader.pipeline.transform_uniforms_buffer.label,
        "Earth MaterialPipeline Transform Buffer"
    );
}

#[test]
fn textures_are_fixed_at_first_bind_but_colors_are_not() {
    let wd = world(0);
    let t1 = Texture::new(1);
    let t2 = Texture::new(2);
    let mut m = BlinnPhongMaterial::new("m", Texture::new_empty());
    m.set_diffuse_texture(t1);
    let first = bind_blinn_phong(&mut m, &wd);
    m.set_diffuse_texture(t2);
    m.set_diffuse_color(w(0.5), w(0.2), w(1.0));
    m.set_polygon_mode(PolygonMode::Line);
    let second = bind_blinn_phong(&mut m, &wd);

    assert_eq!(m.diffuse_texture, t2);
    let shader = m.material_pipeline.as_ref().unwrap();
    assert_eq!(
        shader.pipeline.texture_bind_group[0],
        BindGroupEntry { binding: 0, resource: BindingResource::TextureView(t1) }
    );
    assert_eq!(
        shader.pipeline.texture_bind_group[1],
        BindGroupEntry { binding: 1, resource: BindingResource::Sampler(t1) }
    );
    assert_eq!(shader.pipeline.pipeline.polygon_mode, PolygonMode::Fill);

    let color_of = |commands: &Vec<RenderCommand>| match commands[3] {
        RenderCommand::WriteBuffer {
            buffer: BufferId::Uniform(3),
            data: UniformData::BlinnPhong(u),
        } => u.diffuse_color,
        _ => panic!("the fourth command uploads the material parameters"),
    };
    assert_eq!(color_of(&first), [w(1.0), w(1.0), w(1.0)]);
    assert_eq!(color_of(&second), [w(0.5), w(0.2), w(1.0)]);
}

#[test]
fn bind_uploads_four_blocks_then_binds_the_pipeline() {
    let wd = world(2);
    let mut m = BlinnPhongMaterial::new("m", Texture::new_empty());
    let commands = bind_blinn_phong(&mut m, &wd);
    assert_eq!(commands.len(), 10);
    let mut sun_block = gilgamesh::lights::directional_light::DirectionalLightUniform::default();
    sun_block.update(&wd.sun);
    assert_eq!(
        commands[0],
        RenderCommand::WriteBuffer {
            buffer: BufferId::Uniform(0),
            data: UniformData::DirectionalLight(sun_block),
        }
    );
    match commands[1] {
        RenderCommand::WriteBuffer { buffer: BufferId::Uniform(1), data: UniformData::PointLights(slots) } => {
            assert_eq!(slots[0].intensity, w(0.0));
            assert_eq!(slots[0].position, [w(2.0), w(0.0), w(0.0)]);
            assert_eq!(slots[1].intensity, w(1.0));
            assert_eq!(slots[1].position, [w(3.0), w(0.0), w(0.0)]);
            assert_eq!(slots[2], gilgamesh::lights::point_light::PointLightUniforms::default());
        }
        _ => panic!("the second command uploads the point lights"),
    }
    assert_eq!(
        commands[2],
        RenderCommand::WriteBuffer {
            buffer: BufferId::Uniform(2),
            data: UniformData::PointLightCount(2),
        }
    );
    assert_eq!(
        commands[3],
        RenderCommand::WriteBuffer {
            buffer: BufferId::Uniform(3),
            data: UniformData::BlinnPhong(BlinnPhongUniforms::default()),
        }
    );
    assert!(matches!(commands[4], RenderCommand::WriteBuffer { buffer: BufferId::Transform, .. }));
    assert!(matches!(commands[5], RenderCommand::WriteBuffer { buffer: BufferId::Camera, .. }));
    assert_eq!(commands[6], RenderCommand::SetPipeline);
    assert_eq!(commands[7], RenderCommand::SetBindGroup { index: 0, group: BindGroupKind::Required });
    assert_eq!(commands[8], RenderCommand::SetBindGroup { index: 1, group: BindGroupKind::Uniform });
    assert_eq!(commands[9], RenderCommand::SetBindGroup { index: 2, group: BindGroupKind::Texture });
}

#[test]
fn six_lights_upload_four_slots_and_the_count_six() {
    let wd = world(6);
    let mut m = BlinnPhongMaterial::new("m", Texture::new_empty());
    let commands = bind_blinn_phong(&mut m, &wd);
    match commands[1] {
        RenderCommand::WriteBuffer { buffer: BufferId::Uniform(1), data: UniformData::PointLights(slots) } => {
            assert_eq!(slots.len(), 4);
            for i in 0..4 {
                assert_eq!(slots[i].intensity, w(i as f32));
                assert_eq!(slots[i].position, [w(2.0 + i as f32), w(0.0), w(0.0)]);
            }
        }
        _ => panic!("the second command uploads the point lights"),
    }
    assert_eq!(
        commands[2],
        RenderCommand::WriteBuffer {
            buffer: BufferId::Uniform(2),
            data: UniformData::PointLightCount(6),
        }
    );
}

#[test]
fn pbr_material_defaults_and_setters() {
    let u = PbrUniforms::default();
    assert_eq!(
        u.words(),
        vec![w(1.0), w(1.0), w(1.0), 0, w(0.0), w(0.0), w(0.0), 0, w(0.2), 0, w(0.8), 0]
    );
    assert_eq!(PbrUniforms::WORDS, 12);
    let mut m = PbrMaterial::new("Sun", Texture::new_empty());
    assert_eq!(m.pbr_uniforms, u);
    assert_eq!(m.pbr_uniforms_buffer.label, "Sun Phong Buffer");
    assert_eq!(m.pbr_uniforms_buffer.size, 48);
    assert_eq!(m.directional_light_uniforms_buffer.label, "Sun DirectionalLight Buffer");
    m.set_albedo_texture(Texture::new(8));
    m.set_albedo_color(w(0.9), w(0.8), w(0.7));
    m.set_ambient_texture(Texture::new(9));
    m.set_ambient_color(w(0.1), w(0.2), w(0.3));
    m.set_polygon_mode(PolygonMode::Point);
    m.set_back_face_culling(false);
    assert_eq!(m.diffuse_texture, Texture::new(8));
    assert_eq!(m.ambient_texture, Texture::new(9));
    assert_eq!(m.pbr_uniforms.has_albedo_texture, 1);
    assert_eq!(m.pbr_uniforms.has_ambient_texture, 1);
    assert_eq!(m.pbr_uniforms.albedo_color, [w(0.9), w(0.8), w(0.7)]);
    assert_eq!(m.pbr_uniforms.ambient_color, [w(0.1), w(0.2), w(0.3)]);

    let wd = world(0);
    let mut pass = RenderPass::new();
    m.bind(&mut pass, wd.mesh, &wd.camera, &wd.point_lights, &wd.sun, &wd.transforms, &wd.frame);
    assert_eq!(pass.commands.len(), 10);
    assert_eq!(
        pass.commands[3],
        RenderCommand::WriteBuffer { buffer: BufferId::Uniform(3), data: UniformData::Pbr(m.pbr_uniforms) }
    );
    let shader = m.material_pipeline.as_ref().unwrap();
    assert_eq!(shader.name, "Sun MaterialPipeline");
    assert_eq!(shader.pipeline.shader_file, "../shader/blinn_phong.wgsl");
    assert_eq!(shader.pipeline.pipeline, PipelineState::new(PolygonMode::Point, false));
    assert_eq!(
        shader.pipeline.texture_bind_group[0],
        BindGroupEntry { binding: 0, resource: BindingResource::TextureView(Texture::new(8)) }
    );
    m.set_albedo_texture(Texture::new(1));
    let mut again = RenderPass::new();
    m.bind(&mut again, wd.mesh, &wd.camera, &wd.point_lights, &wd.sun, &wd.transforms, &wd.frame);
    assert_eq!(
        m.material_pipeline.as_ref().unwrap().pipeline.texture_bind_group[0],
        BindGroupEntry { binding: 0, resource: BindingResource::TextureView(Texture::new(8)) }
    );
}

#[test]
fn phong_material_defaults_and_bind() {
    let u = PhongUniforms::default();
    assert_eq!(
        u.words(),
        vec![w(1.0), w(1.0), w(1.0), 0, w(0.0), w(0.0), w(0.0), 0, w(1.0), w(1.0), w(1.0), 0, 0]
    );
    assert_eq!(PhongUniforms::WORDS, 13);
    let mut m = PhongMaterial::new(Texture::new_empty());
    assert!(m.material_pipeline.is_none());
    assert_eq!(m.light_uniforms_buffer.label, "DirectionalLight Buffer");
    assert_eq!(m.point_light_buffer.label, "PointLights Array Buffer");
    assert_eq!(m.nb_point_lights_buffer.label, "Number of Point Lights Buffer");
    assert_eq!(m.phong_uniforms_buffer.label, "Phong Buffer");
    assert_eq!(m.phong_uniforms_buffer.size, 52);
    m.set_diffuse_texture(Texture::new(4));
    m.set_specular_color(w(0.3), w(0.3), w(0.3));
    let wd = world(0);
    let mut pass = RenderPass::new();
    m.bind(&mut pass, wd.mesh, &wd.camera, &wd.point_lights, &wd.sun, &wd.transforms, &wd.frame);
    let pipeline = m.material_pipeline.as_ref().unwrap();
    assert_eq!(pipeline.shader_file, "../shader/phong.wgsl");
    assert_eq!(pipeline.pipeline, PipelineState::new(PolygonMode::Fill, true));
    assert_eq!(pipeline.transform_uniforms_buffer.label, "Transform Buffer");
    assert_eq!(
        pipeline.texture_bind_group[0],
        BindGroupEntry { binding: 0, resource: BindingResource::TextureView(Texture::new(4)) }
    );
    assert_eq!(
        pass.commands[3],
        RenderCommand::WriteBuffer { buffer: BufferId::Uniform(3), data: UniformData::Phong(m.phong_uniforms) }
    );
    m.set_diffuse_texture(Texture::new(5));
    m.set_ambient_texture(Texture::new(6));
    m.set_specular_texture(Texture::new(7));
    m.set_normal_map(Texture::new(8));
    m.set_diffuse_color(w(0.1), w(0.1), w(0.1));
    m.set_ambient_color(w(0.2), w(0.2), w(0.2));
    let mut again = RenderPass::new();
    m.bind(&mut again, wd.mesh, &wd.camera, &wd.point_lights, &wd.sun, &wd.transforms, &wd.frame);
    assert_eq!(
        m.material_pipeline.as_ref().unwrap().texture_bind_group,
        texture_entries(&vec![Texture::new(4), Texture::new(0), Texture::new(0), Texture::new(0)])
    );
    match again.commands[3] {
        RenderCommand::WriteBuffer { data: UniformData::Phong(u), .. } => {
            assert_eq!(u.diffuse_color, [w(0.1); 3]);
            assert_eq!(u.ambient_color, [w(0.2); 3]);
            assert_eq!(u.has_normal_map, 1);
        }
        _ => panic!("the fourth command uploads the material parameters"),
    }
}

#[test]
fn compile_replaces_the_pipeline() {
    let mut m = BlinnPhongMaterial::new("m", Texture::new_empty());
    m.set_diffuse_texture(Texture::new(1));
    m.compile();
    m.set_diffuse_texture(Texture::new(2));
    m.compile();
    assert_eq!(
        m.material_pipeline.as_ref().unwrap().pipeline.texture_bind_group[0],
        BindGroupEntry { binding: 0, resource: BindingResource::TextureView(Texture::new(2)) }
    );
}

#[test]
fn material_dispatches_by_shading_model() {
    let wd = world(0);
    let mut m = Material::Pbr(PbrMaterial::new("Sun", Texture::new_empty()));
    assert!(!m.is_compiled());
    let mut pass = RenderPass::new();
    m.bind(&mut pass, wd.mesh, &wd.camera, &wd.point_lights, &wd.sun, &wd.transforms, &wd.frame);
    assert!(m.is_compiled());
    assert!(matches!(
        pass.commands[3],
        RenderCommand::WriteBuffer { data: UniformData::Pbr(_), .. }
    ));
    let mut p = Material::Phong(PhongMaterial::new(Texture::new_empty()));
    let mut pass = RenderPass::new();
    p.bind(&mut pass, wd.mesh, &wd.camera, &wd.point_lights, &wd.sun, &wd.transforms, &wd.frame);
    assert!(matches!(
        pass.commands[3],
        RenderCommand::WriteBuffer { data: UniformData::Phong(_), .. }
    ));
    let mut b = Material::BlinnPhong(BlinnPhongMaterial::new("b", Texture::new_empty()));
    let mut pass = RenderPass::new();
    b.bind(&mut pass, wd.mesh, &wd.camera, &wd.point_lights, &wd.sun, &wd.transforms, &wd.frame);
    assert!(matches!(
        pass.commands[3],
        RenderCommand::WriteBuffer { data: UniformData::BlinnPhong(_), .. }
    ));
}

#[test]
fn uniform_bytes_are_the_words_in_memory() {
    let data = UniformData::PointLightCount(0x0102_0304);
    assert_eq!(data.words(), vec![0x0102_0304]);
    let bytes = data.bytes();
    assert_eq!(bytes, 0x0102_0304u32.to_ne_bytes().to_vec());
    assert!(bytes == vec![4, 3, 2, 1] || bytes == vec![1, 2, 3, 4]);

    let block = UniformData::BlinnPhong(BlinnPhongUniforms::default());
    let words = block.words();
    let bytes = block.bytes();
    assert_eq!(bytes.len(), 64);
    let mut expected = Vec::new();
    for word in words {
        expected.extend_from_slice(&word.to_ne_bytes());
    }
    assert_eq!(bytes, expected);
}

#[test]
fn every_block_fits_its_buffer() {
    let wd = world(3);
    let mut m = BlinnPhongMaterial::new("m", Texture::new_empty());
    let commands = bind_blinn_phong(&mut m, &wd);
    let buffers = m.uniform_buffers();
    let shader = m.material_pipeline.as_ref().unwrap();
    for command in commands {
        if let RenderCommand::WriteBuffer { buffer, data } = command {
            let size = match buffer {
                BufferId::Transform => shader.pipeline.transform_uniforms_buffer.size,
                BufferId::Camera => shader.pipeline.camera_uniforms_buffer.size,
                BufferId::Uniform(i) => buffers[i].size,
            };
            assert_eq!(data.bytes().len() as u64, size);
        }
    }
}

#[test]
fn terrain_uniform_layout() {
    let u = TerrainUniforms::new(w(3.0), w(5.0));
    assert_eq!(
        u.words(),
        vec![w(1.0), w(1.0), w(0.5), w(0.0), w(0.0), w(0.0), 0, w(3.0), w(5.0), 0, 0, 0]
    );
    assert_eq!(TerrainUniforms::WORDS, 12);
    let bytes = UniformData::Terrain(u).bytes();
    assert_eq!(&bytes[28..32], &3.0f32.to_ne_bytes());
    assert_eq!(&bytes[32..36], &5.0f32.to_ne_bytes());
    assert_eq!(bytes.len(), 48);
}

#[test]
fn unlit_materials_name_their_shaders() {
    match Material::new_default() {
        Material::Terrain(m) => {
            assert_eq!(m.shader_file, "shader/default.wgsl");
            assert_eq!(m.fragment_uniforms, TerrainUniforms::new(w(0.0), w(0.0)));
            assert!(m.material_pipeline.is_none());
        }
        _ => panic!("the default material is unlit"),
    }
    match Material::new_2d_terrain(w(3.0)) {
        Material::Terrain(m) => {
            assert_eq!(m.shader_file, "shader/flat_terrain.wgsl");
            assert_eq!(m.fragment_uniforms, TerrainUniforms::new(w(3.0), w(0.0)));
            assert_eq!(m.fragment_uniform_buffer.size, 48);
            assert_eq!(m.fragment_uniform_buffer.label, "Fragment Uniform Buffer");
        }
        _ => panic!("the terrain material is unlit"),
    }
    match Material::new_sphere_terrain(w(10.0), w(0.5)) {
        Material::Terrain(m) => {
            assert_eq!(m.shader_file, "shader/sphere_terrain.wgsl");
            assert_eq!(m.fragment_uniforms.sphere_radius, w(10.0));
            assert_eq!(m.fragment_uniforms.max_height, w(0.5));
        }
        _ => panic!("the terrain material is unlit"),
    }
}

#[test]
fn unlit_material_binds_one_block_and_no_texture() {
    let wd = world(2);
    let mut m = Material::new_2d_terrain(w(3.0));
    assert_eq!(m.uniform_buffers().len(), 1);
    assert!(m.pipeline().is_none());
    let mut pass = RenderPass::new();
    m.bind(&mut pass, wd.mesh, &wd.camera, &wd.point_lights, &wd.sun, &wd.transforms, &wd.frame);
    assert_eq!(pass.commands.len(), 7);
    assert_eq!(
        pass.commands[0],
        RenderCommand::WriteBuffer {
            buffer: BufferId::Uniform(0),
            data: UniformData::Terrain(TerrainUniforms::new(w(3.0), w(0.0))),
        }
    );
    assert!(matches!(pass.commands[1], RenderCommand::WriteBuffer { buffer: BufferId::Transform, .. }));
    assert_eq!(pass.commands[3], RenderCommand::SetPipeline);
    let pipeline = m.pipeline().unwrap();
    assert_eq!(pipeline.shader_file, "shader/flat_terrain.wgsl");
    assert_eq!(pipeline.uniform_bind_group, uniform_entries(1));
    assert_eq!(pipeline.texture_bind_group, vec![]);
    assert_eq!(pipeline.pipeline, PipelineState::new(PolygonMode::Fill, false));

    let mut direct = TerrainMaterial::new("shader/default.wgsl", TerrainUniforms::new(0, 0));
    direct.compile();
    assert!(direct.material_pipeline.is_some());
}

#[test]
fn pipeline_state_names_its_entry_points_and_its_target() {
    for (mode, culling) in [(PolygonMode::Fill, true), (PolygonMode::Point, false)] {
        let state = PipelineState::new(mode, culling);
        assert_eq!(state.vertex_entry_point, "vs_main");
        assert_eq!(state.fragment_entry_point, "fs_main");
        assert_eq!(state.topology, PrimitiveTopology::TriangleList);
        assert_eq!(
            state.color_target,
            ColorTargetState {
                format: TextureFormat::Surface,
                blend: BlendState::Replace,
                write_mask: COLOR_WRITES_ALL,
            }
        );
        assert_eq!(COLOR_WRITES_ALL, 15);
        assert!(state.depth_write_enabled);
    }
}

#[test]
fn pipeline_carries_the_layout_of_its_vertices() {
    let p = MaterialPipeline::new("f", &Vec::new(), &Vec::new(), PolygonMode::Fill, true);
    assert_eq!(p.vertex_layout.array_stride, 56);
    assert_eq!(p.vertex_layout.step_mode, gilgamesh::geometry::mesh::VertexStepMode::Vertex);
    let offsets: Vec<u64> = p.vertex_layout.attributes.iter().map(|a| a.offset).collect();
    assert_eq!(offsets, vec![0, 12, 24, 36, 48]);
    let locations: Vec<u32> = p.vertex_layout.attributes.iter().map(|a| a.shader_location).collect();
    assert_eq!(locations, vec![0, 1, 2, 3, 4]);
}

#[test]
fn plain_pipeline_has_plain_labels() {
    let p = MaterialPipeline::new("f", &Vec::new(), &Vec::new(), PolygonMode::Fill, true);
    assert_eq!(p.labels.shader, "Shader");
    assert_eq!(p.labels.required_bind_group_layout, "Required Bind Group Layout");
    assert_eq!(p.labels.required_bind_group, "Transform Bind Group");
    assert_eq!(p.labels.uniform_bind_group_layout, "Uniform Bind Group Layout");
    assert_eq!(p.labels.uniform_bind_group, "Uniform Bind Group");
    assert_eq!(p.labels.texture_bind_group_layout, "Texture Bind Group Layout");
    assert_eq!(p.labels.texture_bind_group, "Texture Bind Group");
    assert_eq!(p.labels.pipeline_layout, "Render Pipeline Layout");
    assert_eq!(p.labels.pipeline, "Render Pipeline");
    assert_eq!(p.transform_uniforms_buffer.label, "Transform Buffer");
    assert_eq!(p.camera_uniforms_buffer.label, "Camera Buffer");
}

#[test]
fn shader_labels_carry_its_name() {
    let s = Shader::new("Earth", "f", &Vec::new(), &Vec::new(), PolygonMode::Fill, true);
    let labels = &s.pipeline.labels;
    assert_eq!(labels.shader, "EarthShader");
    assert_eq!(labels.required_bind_group_layout, "Earth Required Bind Group Layout");
    assert_eq!(labels.required_bind_group, "Earth Transform Bind Group");
    assert_eq!(labels.uniform_bind_group_layout, "Earth Uniform Bind Group Layout");
    assert_eq!(labels.uniform_bind_group, "Earth Uniform Bind Group");
    assert_eq!(labels.texture_bind_group_layout, "Earth Texture Bind Group Layout");
    assert_eq!(labels.texture_bind_group, "Earth Texture Bind Group");
    assert_eq!(labels.pipeline_layout, "Earth Render Pipeline Layout");
    assert_eq!(labels.pipeline, "Earth Render Pipeline");
    let direct = PipelineLabels::new("a", "b ");
    assert_eq!(direct.shader, "aShader");
    assert_eq!(direct.pipeline, "b Render Pipeline");
    assert_eq!(gilgamesh::materials::utils::labelled("Sun", " Phong Buffer"), "Sun Phong Buffer");
    assert_eq!(gilgamesh::materials::utils::labelled("", ""), "");
}

#[test]
fn a_material_hands_out_its_buffers_in_slot_order() {
    let empty = Texture::new_empty();
    let described = |m: &Material| -> Vec<(String, u64)> {
        m.uniform_buffers().into_iter().map(|b| (b.label, b.size)).collect()
    };
    let own = |label: &str, size: u64| (label.to_string(), size);
    assert_eq!(
        described(&Material::BlinnPhong(BlinnPhongMaterial::new("b", empty))),
        vec![
            own("b DirectionalLight Buffer", 36),
            own("b PointLights Array Buffer", 144),
            own("b Number of Point Lights Buffer", 4),
            own("b Phong Buffer", 64),
        ]
    );
    assert_eq!(
        described(&Material::Pbr(PbrMaterial::new("p", empty))),
        vec![
            own("p DirectionalLight Buffer", 36),
            own("p PointLights Array Buffer", 144),
            own("p Number of Point Lights Buffer", 4),
            own("p Phong Buffer", 48),
        ]
    );
    assert_eq!(
        described(&Material::Phong(PhongMaterial::new(empty))),
        vec![
            own("DirectionalLight Buffer", 36),
            own("PointLights Array Buffer", 144),
            own("Number of Point Lights Buffer", 4),
            own("Phong Buffer", 52),
        ]
    );
    assert_eq!(
        described(&Material::new_2d_terrain(w(1.0))),
        vec![own("Fragment Uniform Buffer", 48)]
    );
    let mut renamed = BlinnPhongMaterial::new("b", empty);
    renamed.point_light_buffer.label = "other".to_string();
    renamed.point_light_buffer.size = 8;
    assert_eq!(described(&Material::BlinnPhong(renamed))[1], own("other", 8));
}

#[test]
fn lit_materials_declare_four_uniform_buffers() {
    let empty = Texture::new_empty();
    assert_eq!(Material::Phong(PhongMaterial::new(empty)).uniform_buffers().len(), 4);
    assert_eq!(Material::Pbr(PbrMaterial::new("p", empty)).uniform_buffers().len(), 4);
    let m = Material::BlinnPhong(BlinnPhongMaterial::new("b", empty));
    let buffers = m.uniform_buffers();
    assert_eq!(buffers.len(), 4);
    assert_eq!(buffers[1].label, "b PointLights Array Buffer");
}
