use gilgamesh::camera::camera::{Camera, FrameMatrices};
use gilgamesh::engine::{
    ControlFlow, Engine, EventOutcome, FrameAction, RenderError, SurfaceConfiguration,
    SurfaceError,
};
use gilgamesh::geometry::mesh::Mesh;
use gilgamesh::geometry::vertex_data::VertexData;
use gilgamesh::input::event::{
    ElementState, Event, MouseButton, PhysicalSize, VirtualKeyCode, WindowEvent,
};
use gilgamesh::input::mouse::Mouse;
use gilgamesh::lights::debug::show_point_light_debug_mesh;
use gilgamesh::lights::light::Light;
use gilgamesh::lights::point_light::PointLight;
use gilgamesh::materials::bind_group::{BindGroupKind, BufferId};
use gilgamesh::materials::material::Material;
use gilgamesh::materials::material_pipeline::TextureFormat;
use gilgamesh::render_pass::{RenderCommand, RenderPass, UniformData};
use gilgamesh::scalar::identity_matrix;
use gilgamesh::scene::Scene;
use gilgamesh::texture::Texture;
use gilgamesh::transform::Transform;
use gilgamesh::transform::Transformable;

fn w(x: f32) -> u32 {
    x.to_bits()
}

fn triangle() -> VertexData {
    VertexData {
        positions: vec![[w(0.0), w(0.0), w(0.0)], [w(1.0), w(0.0), w(0.0)], [w(0.0), w(1.0), w(0.0)]],
        colors: vec![[w(1.0); 3]; 3],
        normals: vec![[w(0.0), w(0.0), w(1.0)]; 3],
        tangents: vec![[w(1.0), w(0.0), w(0.0)]; 3],
        indices: vec![0, 1, 2],
        uvs: vec![[w(0.0), w(0.0)], [w(1.0), w(0.0)], [w(0.0), w(1.0)]],
    }
}

fn named_mesh(scene: &mut Scene, name: &str) -> Mesh {
    Mesh::from_vertex_data(name, triangle(), &mut scene.transforms, Texture::new_empty())
}

fn frame_for(scene: &Scene) -> FrameMatrices {
    let n = scene.transforms.nb_transforms();
    let mut world = Vec::new();
    for i in 0..n {
        let mut m = identity_matrix();
        m[12] = w(i as f32);
        world.push(m);
    }
    FrameMatrices { view_projection: identity_matrix(), world, normal: vec![identity_matrix(); n] }
}

fn scene_with_camera() -> Scene {
    let mut scene = Scene::new();
    let camera = Camera::new(&mut scene.transforms, w(1.25));
    scene.set_active_camera(camera);
    scene
}

#[test]
fn new_scene_is_empty() {
    let scene = Scene::new();
    assert!(scene.active_camera.is_none());
    assert!(scene.meshes.is_empty());
    assert!(scene.point_lights.is_empty());
    assert_eq!(scene.transforms.nb_transforms(), 0);
    assert_eq!(scene.mouse, Mouse::new());
    assert_eq!(scene.directional_light, gilgamesh::lights::directional_light::DirectionalLight::default());
}

#[test]
fn mesh_handles_are_stable() {
    let mut scene = Scene::new();
    let first = named_mesh(&mut scene, "first");
    let i = scene.add_mesh(first);
    assert_eq!(i, 0);
    for k in 0..50 {
        let later = named_mesh(&mut scene, "later");
        assert_eq!(scene.add_mesh(later), k + 1);
    }
    assert_eq!(scene.meshes[i].name, "first");
    assert_eq!(scene.meshes[i].transform, 0);
    assert_eq!(scene.meshes.len(), 51);
}

#[test]
fn point_light_handles_are_stable() {
    let mut scene = Scene::new();
    let mut red = PointLight::new(&mut scene.transforms);
    red.set_color(w(1.0), w(0.0), w(0.0));
    let i = scene.add_point_light(red);
    assert_eq!(i, 0);
    for k in 0..9 {
        let other = PointLight::new(&mut scene.transforms);
        assert_eq!(scene.add_point_light(other), k + 1);
    }
    assert_eq!(scene.point_lights[i].color(), [w(1.0), w(0.0), w(0.0)]);
    assert_eq!(scene.point_lights.len(), 10);
}

#[test]
fn camera_starts_with_its_defaults() {
    let scene = scene_with_camera();
    let camera = scene.active_camera.unwrap();
    assert_eq!(camera.fov, w(70.0));
    assert_eq!(camera.z_near, w(0.1));
    assert_eq!(camera.z_far, w(100.0));
    assert_eq!(camera.aspect_ratio, w(1.25));
    assert_eq!(camera.transform_rc(), 0);
    assert_eq!(*scene.transforms.transform(0), Transform::new());
}

#[test]
fn resize_sets_the_aspect_ratio() {
    let mut scene = scene_with_camera();
    scene.resize(PhysicalSize { width: 800, height: 400 }, w(2.0));
    assert_eq!(scene.active_camera.unwrap().aspect_ratio, w(2.0));
    scene.resize(PhysicalSize { width: 800, height: 0 }, w(f32::INFINITY));
    assert_eq!(scene.active_camera.unwrap().aspect_ratio, w(2.0));
    scene.resize(PhysicalSize { width: 500, height: 500 }, w(1.0));
    assert_eq!(scene.active_camera.unwrap().aspect_ratio, w(1.0));
    let mut empty = Scene::new();
    empty.resize(PhysicalSize { width: 800, height: 400 }, w(2.0));
    assert!(empty.active_camera.is_none());
}

#[test]
fn control_places_the_camera() {
    let mut scene = scene_with_camera();
    let mesh = named_mesh(&mut scene, "m");
    scene.add_mesh(mesh);
    scene.listen_to_control(None);
    assert_eq!(*scene.transforms.transform(0), Transform::new());
    let mut placement = Transform::new();
    placement.set_position(w(0.0), w(0.0), w(10.0));
    scene.listen_to_control(Some(placement));
    assert_eq!(*scene.transforms.transform(0), placement);
    assert_eq!(*scene.transforms.transform(1), Transform::new());
    let mut empty = Scene::new();
    empty.listen_to_control(Some(placement));
    assert_eq!(empty.transforms.nb_transforms(), 0);
}

#[test]
fn events_update_the_mouse() {
    let mut mouse = Mouse::default();
    assert_eq!(mouse.position, [w(0.0); 2]);
    assert!(!mouse.left_button_pressed);
    mouse.listen_to_event(&WindowEvent::CursorMoved {
        position: [w(10.0), w(20.0)],
        delta: [w(10.0), w(20.0)],
    });
    assert_eq!(mouse.position, [w(10.0), w(20.0)]);
    assert_eq!(mouse.delta, [w(10.0), w(20.0)]);
    mouse.listen_to_event(&WindowEvent::MouseInput {
        state: ElementState::Pressed,
        button: MouseButton::Left,
    });
    assert!(mouse.left_button_pressed);
    assert_eq!(mouse.position, [w(10.0), w(20.0)]);
    assert_eq!(mouse.delta, [w(0.0), w(0.0)]);
    mouse.listen_to_event(&WindowEvent::MouseInput {
        state: ElementState::Pressed,
        button: MouseButton::Right,
    });
    assert!(mouse.left_button_pressed);
    assert!(!mouse.right_button_pressed);
    assert!(!mouse.middle_button_pressed);
    mouse.listen_to_event(&WindowEvent::MouseInput {
        state: ElementState::Released,
        button: MouseButton::Other(4),
    });
    assert!(mouse.left_button_pressed);
    mouse.listen_to_event(&WindowEvent::MouseInput {
        state: ElementState::Released,
        button: MouseButton::Left,
    });
    assert!(!mouse.left_button_pressed);
    mouse.listen_to_event(&WindowEvent::Other);
    assert_eq!(mouse.position, [w(10.0), w(20.0)]);
}

#[test]
fn scene_manages_events() {
    let mut scene = scene_with_camera();
    let key = scene.manage_event(&WindowEvent::KeyboardInput {
        state: ElementState::Pressed,
        virtual_keycode: Some(VirtualKeyCode::Other(30)),
    });
    assert_eq!(key, Some(VirtualKeyCode::Other(30)));
    let key = scene.manage_event(&WindowEvent::KeyboardInput {
        state: ElementState::Released,
        virtual_keycode: Some(VirtualKeyCode::Other(30)),
    });
    assert_eq!(key, None);
    let key = scene.manage_event(&WindowEvent::KeyboardInput {
        state: ElementState::Pressed,
        virtual_keycode: None,
    });
    assert_eq!(key, None);

    let key = scene.manage_event(&WindowEvent::Resized {
        size: PhysicalSize { width: 300, height: 100 },
        aspect_ratio: w(3.0),
    });
    assert_eq!(key, None);
    assert_eq!(scene.active_camera.unwrap().aspect_ratio, w(3.0));
    scene.manage_event(&WindowEvent::ScaleFactorChanged {
        new_inner_size: PhysicalSize { width: 100, height: 200 },
        aspect_ratio: w(0.5),
    });
    assert_eq!(scene.active_camera.unwrap().aspect_ratio, w(0.5));
    scene.manage_event(&WindowEvent::Resized {
        size: PhysicalSize { width: 100, height: 0 },
        aspect_ratio: w(9.0),
    });
    assert_eq!(scene.active_camera.unwrap().aspect_ratio, w(0.5));

    scene.manage_event(&WindowEvent::MouseWheel {
        lines: w(1.0),
        zoomed_position: [w(0.0), w(0.0), w(9.9)],
    });
    assert_eq!(scene.transforms.transform(0).position, [w(0.0), w(0.0), w(9.9)]);
    assert_eq!(scene.transforms.transform(0).scaling, [w(1.0); 3]);

    scene.manage_event(&WindowEvent::CursorMoved {
        position: [w(5.0), w(6.0)],
        delta: [w(5.0), w(6.0)],
    });
    assert_eq!(scene.mouse.position, [w(5.0), w(6.0)]);

    let mut empty = Scene::new();
    empty.manage_event(&WindowEvent::MouseWheel {
        lines: w(1.0),
        zoomed_position: [w(0.0), w(0.0), w(9.9)],
    });
    assert!(empty.active_camera.is_none());
}

#[test]
fn engine_classifies_render_results() {
    assert_eq!(Engine::after_render(&Ok(())), FrameAction::Continue);
    assert_eq!(
        Engine::after_render(&Err(RenderError::Surface(SurfaceError::Lost))),
        FrameAction::Resize
    );
    assert_eq!(
        Engine::after_render(&Err(RenderError::Surface(SurfaceError::OutOfMemory))),
        FrameAction::Exit
    );
    assert_eq!(
        Engine::after_render(&Err(RenderError::Surface(SurfaceError::Timeout))),
        FrameAction::Report
    );
    assert_eq!(
        Engine::after_render(&Err(RenderError::Surface(SurfaceError::Outdated))),
        FrameAction::Report
    );
    assert_eq!(Engine::after_render(&Err(RenderError::NoActiveCamera)), FrameAction::Report);
    assert_eq!(Engine::after_render(&Err(RenderError::InvalidFrame)), FrameAction::Report);
}

#[test]
fn engine_resizes_only_to_sizes_with_an_area() {
    let mut engine = Engine::new(1000, 800);
    assert_eq!(engine.config, SurfaceConfiguration { width: 1000, height: 800 });
    assert_eq!(engine.get_delta_time(), w(0.0));
    assert_eq!(engine.get_elapsed_time(), w(0.0));
    assert!(engine.resize(PhysicalSize { width: 640, height: 480 }));
    assert_eq!(engine.config, SurfaceConfiguration { width: 640, height: 480 });
    assert!(!engine.resize(PhysicalSize { width: 0, height: 480 }));
    assert!(!engine.resize(PhysicalSize { width: 640, height: 0 }));
    assert_eq!(engine.config, SurfaceConfiguration { width: 640, height: 480 });
    assert!(engine.manage_event(&WindowEvent::Resized {
        size: PhysicalSize { width: 1, height: 2 },
        aspect_ratio: w(0.5),
    }));
    assert_eq!(engine.config, SurfaceConfiguration { width: 1, height: 2 });
    assert!(engine.manage_event(&WindowEvent::ScaleFactorChanged {
        new_inner_size: PhysicalSize { width: 3, height: 4 },
        aspect_ratio: w(0.75),
    }));
    assert_eq!(engine.config, SurfaceConfiguration { width: 3, height: 4 });
    assert!(!engine.manage_event(&WindowEvent::CloseRequested));
    assert!(!engine.manage_event(&WindowEvent::Resized {
        size: PhysicalSize { width: 0, height: 0 },
        aspect_ratio: w(f32::NAN),
    }));
    assert_eq!(engine.config, SurfaceConfiguration { width: 3, height: 4 });
    engine.advance(w(1.5), w(0.016));
    assert_eq!(engine.get_elapsed_time(), w(1.5));
    assert_eq!(engine.get_delta_time(), w(0.016));
}

#[test]
fn engine_closes_on_request_or_escape() {
    assert!(Engine::should_close(&WindowEvent::CloseRequested));
    assert!(Engine::should_close(&WindowEvent::KeyboardInput {
        state: ElementState::Pressed,
        virtual_keycode: Some(VirtualKeyCode::Escape),
    }));
    assert!(!Engine::should_close(&WindowEvent::KeyboardInput {
        state: ElementState::Released,
        virtual_keycode: Some(VirtualKeyCode::Escape),
    }));
    assert!(!Engine::should_close(&WindowEvent::KeyboardInput {
        state: ElementState::Pressed,
        virtual_keycode: Some(VirtualKeyCode::Other(1)),
    }));
    assert!(!Engine::should_close(&WindowEvent::Other));
}

#[test]
fn engine_steers_the_event_loop() {
    let mut engine = Engine::new(1000, 800);
    let mut scene = scene_with_camera();
    let idle = EventOutcome { control_flow: ControlFlow::Poll, key_pressed: None, surface_resized: false };
    assert_eq!(
        engine.on_event(&mut scene, &Event::MainEventsCleared),
        EventOutcome { control_flow: ControlFlow::RequestRedraw, ..idle }
    );
    assert_eq!(
        engine.on_event(&mut scene, &Event::RedrawRequested),
        EventOutcome { control_flow: ControlFlow::Render, ..idle }
    );
    assert_eq!(engine.on_event(&mut scene, &Event::Other), idle);
    assert_eq!(
        engine.on_event(&mut scene, &Event::Window(WindowEvent::CloseRequested)),
        EventOutcome { control_flow: ControlFlow::Exit, ..idle }
    );
    let escape = Event::Window(WindowEvent::KeyboardInput {
        state: ElementState::Pressed,
        virtual_keycode: Some(VirtualKeyCode::Escape),
    });
    assert_eq!(
        engine.on_event(&mut scene, &escape),
        EventOutcome {
            control_flow: ControlFlow::Exit,
            key_pressed: Some(VirtualKeyCode::Escape),
            surface_resized: false,
        }
    );
    let resized = Event::Window(WindowEvent::Resized {
        size: PhysicalSize { width: 200, height: 100 },
        aspect_ratio: w(2.0),
    });
    assert_eq!(engine.on_event(&mut scene, &resized), EventOutcome { surface_resized: true, ..idle });
    assert_eq!(engine.config, SurfaceConfiguration { width: 200, height: 100 });
    assert_eq!(scene.active_camera.unwrap().aspect_ratio, w(2.0));
    let flat = Event::Window(WindowEvent::Resized {
        size: PhysicalSize { width: 0, height: 100 },
        aspect_ratio: w(0.0),
    });
    assert_eq!(engine.on_event(&mut scene, &flat), idle);
    assert_eq!(engine.config, SurfaceConfiguration { width: 200, height: 100 });
    assert_eq!(scene.active_camera.unwrap().aspect_ratio, w(0.0));
}

#[test]
fn a_lost_surface_resizes_scene_and_engine() {
    let mut engine = Engine::new(1000, 800);
    let mut scene = scene_with_camera();
    let size = PhysicalSize { width: 640, height: 320 };
    let lost = Err(RenderError::Surface(SurfaceError::Lost));
    assert_eq!(engine.finish_frame(&mut scene, &lost, size, w(2.0)), FrameAction::Resize);
    assert_eq!(engine.config, SurfaceConfiguration { width: 640, height: 320 });
    assert_eq!(scene.active_camera.unwrap().aspect_ratio, w(2.0));

    let other = PhysicalSize { width: 10, height: 10 };
    assert_eq!(engine.finish_frame(&mut scene, &Ok(()), other, w(1.0)), FrameAction::Continue);
    let oom = Err(RenderError::Surface(SurfaceError::OutOfMemory));
    assert_eq!(engine.finish_frame(&mut scene, &oom, other, w(1.0)), FrameAction::Exit);
    let timeout = Err(RenderError::Surface(SurfaceError::Timeout));
    assert_eq!(engine.finish_frame(&mut scene, &timeout, other, w(1.0)), FrameAction::Report);
    assert_eq!(engine.config, SurfaceConfiguration { width: 640, height: 320 });
    assert_eq!(scene.active_camera.unwrap().aspect_ratio, w(2.0));
}

#[test]
fn a_failed_acquisition_leaves_the_scene_alone() {
    let mut scene = scene_with_camera();
    let mesh = named_mesh(&mut scene, "m");
    scene.add_mesh(mesh);
    let frame = frame_for(&scene);
    let engine = Engine::new(1000, 800);
    for e in [SurfaceError::Timeout, SurfaceError::Outdated, SurfaceError::Lost, SurfaceError::OutOfMemory] {
        match scene.render(&engine, &frame, Err(e)) {
            Err(RenderError::Surface(got)) => assert_eq!(got, e),
            _ => panic!("the surface error is handed on"),
        }
        assert!(!scene.meshes[0].material.is_compiled());
    }
}

#[test]
fn a_scene_without_camera_is_not_drawn() {
    let mut scene = Scene::new();
    let mesh = named_mesh(&mut scene, "m");
    scene.add_mesh(mesh);
    let frame = frame_for(&scene);
    let engine = Engine::new(1000, 800);
    assert!(matches!(scene.render(&engine, &frame, Ok(())), Err(RenderError::NoActiveCamera)));
    assert!(!scene.meshes[0].material.is_compiled());
    assert!(!scene.is_drawable(&frame));
}

#[test]
fn a_frame_that_does_not_fit_is_refused() {
    let mut scene = scene_with_camera();
    let mesh = named_mesh(&mut scene, "m");
    scene.add_mesh(mesh);
    let engine = Engine::new(1000, 800);

    let mut short = frame_for(&scene);
    short.world.pop();
    assert!(matches!(scene.render(&engine, &short, Ok(())), Err(RenderError::InvalidFrame)));
    let mut short = frame_for(&scene);
    short.normal.pop();
    assert!(matches!(scene.render(&engine, &short, Ok(())), Err(RenderError::InvalidFrame)));

    let frame = frame_for(&scene);
    assert!(scene.is_drawable(&frame));
    scene.meshes[0].transform = 17;
    assert!(matches!(scene.render(&engine, &frame, Ok(())), Err(RenderError::InvalidFrame)));
    scene.meshes[0].transform = 1;
    scene.point_lights.push(PointLight { color: [0; 3], intensity: 0, transform: 5 });
    assert!(matches!(scene.render(&engine, &frame, Ok(())), Err(RenderError::InvalidFrame)));
    scene.point_lights.clear();
    scene.active_camera.as_mut().unwrap().transform = 2;
    assert!(matches!(scene.render(&engine, &frame, Ok(())), Err(RenderError::InvalidFrame)));
    assert!(!scene.meshes[0].material.is_compiled());
    scene.active_camera.as_mut().unwrap().transform = 0;
    assert!(scene.render(&engine, &frame, Ok(())).is_ok());
}

#[test]
fn an_empty_scene_draws_an_empty_frame() {
    let mut scene = scene_with_camera();
    let frame = frame_for(&scene);
    let engine = Engine::new(1000, 800);
    let pass = scene.render(&engine, &frame, Ok(())).unwrap();
    assert_eq!(
        pass.commands,
        vec![
            RenderCommand::CreateDepthTexture {
                width: 1000,
                height: 800,
                format: TextureFormat::Depth24Plus,
            },
            RenderCommand::BeginRenderPass {
                clear_color: [0.1f64.to_bits(), 0.1f64.to_bits(), 0.2f64.to_bits(), 1.0f64.to_bits()],
                clear_depth: w(1.0),
            },
            RenderCommand::Submit,
            RenderCommand::Present,
        ]
    );
}

#[test]
fn every_mesh_is_drawn_once_in_handle_order() {
    let mut scene = scene_with_camera();
    for name in ["a", "b", "c"] {
        let mesh = named_mesh(&mut scene, name);
        scene.add_mesh(mesh);
    }
    for _ in 0..6 {
        let light = PointLight::new(&mut scene.transforms);
        scene.add_point_light(light);
    }
    let frame = frame_for(&scene);
    let mut engine = Engine::new(1000, 800);
    engine.resize(PhysicalSize { width: 320, height: 200 });
    let pass = scene.render(&engine, &frame, Ok(())).unwrap();
    let commands = pass.commands;
    assert_eq!(commands.len(), 2 + 3 * 14 + 2);
    assert_eq!(
        commands[0],
        RenderCommand::CreateDepthTexture {
            width: 320,
            height: 200,
            format: TextureFormat::Depth24Plus,
        }
    );
    for i in 0..3 {
        let base = 2 + 14 * i;
        assert_eq!(commands[base], RenderCommand::SelectMesh { mesh: i });
        assert_eq!(
            commands[base + 3],
            RenderCommand::WriteBuffer {
                buffer: BufferId::Uniform(2),
                data: UniformData::PointLightCount(6),
            }
        );
        match commands[base + 5] {
            RenderCommand::WriteBuffer {
                buffer: BufferId::Transform,
                data: UniformData::Transform(u),
            } => assert_eq!(u.world_matrix, frame.world[i + 1]),
            _ => panic!("the transform block is uploaded"),
        }
        assert_eq!(commands[base + 7], RenderCommand::SetPipeline);
        assert_eq!(
            commands[base + 10],
            RenderCommand::SetBindGroup { index: 2, group: BindGroupKind::Texture }
        );
        assert_eq!(commands[base + 11], RenderCommand::SetVertexBuffer { slot: 0 });
        assert_eq!(commands[base + 12], RenderCommand::SetIndexBuffer);
        assert_eq!(commands[base + 13], RenderCommand::DrawIndexed { index_count: 3 });
        assert!(scene.meshes[i].material.is_compiled());
    }
    assert_eq!(commands[44], RenderCommand::Submit);
    assert_eq!(commands[45], RenderCommand::Present);
}

#[test]
fn a_second_frame_reuses_the_pipelines() {
    let mut scene = scene_with_camera();
    let mesh = named_mesh(&mut scene, "m");
    scene.add_mesh(mesh);
    let frame = frame_for(&scene);
    let engine = Engine::new(1000, 800);
    scene.render(&engine, &frame, Ok(())).unwrap();
    if let Material::Phong(m) = &mut scene.meshes[0].material {
        m.set_diffuse_texture(Texture::new(3));
    }
    scene.render(&engine, &frame, Ok(())).unwrap();
    match &scene.meshes[0].material {
        Material::Phong(m) => {
            assert_eq!(m.diffuse_texture, Texture::new(3));
            let pipeline = m.material_pipeline.as_ref().unwrap();
            assert_eq!(
                pipeline.texture_bind_group[0].resource,
                gilgamesh::materials::bind_group::BindingResource::TextureView(Texture::new(0))
            );
        }
        _ => panic!("a mesh starts with a Phong material"),
    }
}

#[test]
fn render_pass_records_in_order() {
    let mut pass = RenderPass::new();
    assert!(pass.commands.is_empty());
    pass.set_pipeline();
    pass.set_bind_group(1, BindGroupKind::Uniform);
    pass.set_vertex_buffer(0);
    pass.set_index_buffer();
    pass.draw_indexed(36);
    pass.write_buffer(BufferId::Uniform(2), UniformData::PointLightCount(1));
    pass.record(RenderCommand::Present);
    assert_eq!(
        pass.commands,
        vec![
            RenderCommand::SetPipeline,
            RenderCommand::SetBindGroup { index: 1, group: BindGroupKind::Uniform },
            RenderCommand::SetVertexBuffer { slot: 0 },
            RenderCommand::SetIndexBuffer,
            RenderCommand::DrawIndexed { index_count: 36 },
            RenderCommand::WriteBuffer {
                buffer: BufferId::Uniform(2),
                data: UniformData::PointLightCount(1),
            },
            RenderCommand::Present,
        ]
    );
}

#[test]
fn debug_mesh_follows_its_light() {
    let mut scene = Scene::new();
    let mut light = PointLight::new(&mut scene.transforms);
    light.set_color(w(1.0), w(1.0), w(0.0));
    let handle = show_point_light_debug_mesh(&light, &mut scene, triangle(), Texture::new(0));
    let light_handle = scene.add_point_light(light);
    assert_eq!(handle, 0);
    assert_eq!(light_handle, 0);
    let mesh = &scene.meshes[handle];
    assert_eq!(mesh.name, "PointLightDebugMesh");
    assert_eq!(mesh.transform_rc(), 1);
    assert_eq!(scene.transforms.parent(1), Some(0));
    assert_eq!(scene.transforms.world_chain(1), Some(vec![1, 0]));
    assert_eq!(scene.transforms.transform(1).scaling, [w(0.5); 3]);
    match &mesh.material {
        Material::BlinnPhong(m) => {
            assert_eq!(m.name, "PointLightDebugMaterial");
            assert_eq!(m.phong_uniforms.ambient_color, [w(1.0), w(1.0), w(0.0)]);
            assert_eq!(m.phong_uniforms.diffuse_color, [w(0.0); 3]);
            assert_eq!(m.phong_uniforms.specular_color, [w(0.0); 3]);
            assert!(m.material_pipeline.is_none());
        }
        _ => panic!("the marker has a Blinn-Phong material"),
    }
}

#[test]
fn debug_mesh_of_a_stray_light_stays_at_the_origin() {
    let mut scene = Scene::new();
    let stray = PointLight { color: [w(1.0); 3], intensity: w(1.0), transform: 40 };
    let handle = show_point_light_debug_mesh(&stray, &mut scene, triangle(), Texture::new(0));
    assert_eq!(scene.transforms.parent(scene.meshes[handle].transform), None);
    assert_eq!(scene.transforms.transform(scene.meshes[handle].transform).scaling, [w(0.5); 3]);
}

#[test]
fn an_object_reaches_its_transform_through_the_hierarchy() {
    let mut scene = scene_with_camera();
    let mesh = named_mesh(&mut scene, "m");
    let camera = scene.active_camera.unwrap();
    mesh.transform_mut(&mut scene.transforms).set_position(w(1.0), w(2.0), w(3.0));
    camera.transform_mut(&mut scene.transforms).set_rotation(w(0.5), w(0.0), w(0.0));
    assert_eq!(mesh.transform(&scene.transforms).position, [w(1.0), w(2.0), w(3.0)]);
    assert_eq!(camera.transform(&scene.transforms).rotation, [w(0.5), w(0.0), w(0.0)]);
    assert_eq!(camera.transform(&scene.transforms).position, [w(0.0); 3]);
    let light = PointLight::new(&mut scene.transforms);
    assert_eq!(*light.transform(&scene.transforms), Transform::new());
}
