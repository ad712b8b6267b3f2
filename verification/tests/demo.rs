use gilgamesh::demo_scene_1;
use gilgamesh::demo_scene_2;
use gilgamesh::engine::SurfaceConfiguration;
use gilgamesh::geometry::primitive::PrimitiveMesh;
use gilgamesh::geometry::vertex_data::VertexData;
use gilgamesh::lights::light::Light;
use gilgamesh::materials::material::Material;
use gilgamesh::texture::Texture;
use gilgamesh::transform::Transformable;

fn w(x: f32) -> u32 {
    x.to_bits()
}

fn sphere(tag: u32) -> VertexData {
    VertexData {
        positions: vec![[tag, 0, 0], [0, tag, 0], [0, 0, tag]],
        colors: vec![[w(1.0); 3]; 3],
        normals: vec![[tag, 0, 0], [0, tag, 0], [0, 0, tag]],
        tangents: vec![[0; 3]; 3],
        indices: vec![0, 1, 2],
        uvs: vec![[0; 2]; 3],
    }
}

fn assets(plane_vertices: usize) -> demo_scene_1::Assets {
    demo_scene_1::Assets {
        light_sphere_1: sphere(1),
        light_sphere_2: sphere(2),
        light_sphere_3: sphere(3),
        light_sphere_4: sphere(4),
        sun_sphere: sphere(5),
        earth_sphere: sphere(6),
        plane_positions: vec![[0; 3]; plane_vertices],
        plane_uvs: vec![[0; 2]; plane_vertices],
        sun_texture: Texture::new(1),
        earth_diffuse_texture: Texture::new(2),
        earth_specular_texture: Texture::new(3),
        empty_texture: Texture::new(0),
        aspect_ratio: w(1.25),
    }
}

#[test]
fn solar_system_is_set_up() {
    let demo = demo_scene_1::run(assets(100)).unwrap();
    assert_eq!(demo.engine.config, SurfaceConfiguration { width: 1000, height: 800 });
    let scene = &demo.scene;
    assert_eq!(scene.directional_light.intensity(), w(0.0));
    assert_eq!(demo.point_lights, [0, 1, 2, 3]);
    assert_eq!((demo.sun, demo.earth, demo.plane), (4, 5, 6));
    assert_eq!(scene.meshes.len(), 7);
    assert_eq!(scene.point_lights.len(), 4);
    assert_eq!(scene.transforms.nb_transforms(), 12);

    let colors = [
        [w(1.0), w(0.0), w(0.0)],
        [w(0.0), w(0.0), w(1.0)],
        [w(0.0), w(1.0), w(0.0)],
        [w(1.0), w(1.0), w(0.0)],
    ];
    for i in 0..4 {
        let light = &scene.point_lights[demo.point_lights[i]];
        assert_eq!(light.color(), colors[i]);
        assert_eq!(light.intensity(), w(0.2));
        assert_eq!(light.transform_rc(), 2 * i + 1);
        let marker = &scene.meshes[i];
        assert_eq!(marker.name, "PointLightDebugMesh");
        assert_eq!(marker.vertex_data.positions, sphere(i as u32 + 1).positions);
        assert_eq!(scene.transforms.parent(marker.transform), Some(light.transform));
        assert_eq!(scene.transforms.transform(marker.transform).scaling, [w(0.5); 3]);
        match &marker.material {
            Material::BlinnPhong(m) => assert_eq!(m.phong_uniforms.ambient_color, colors[i]),
            _ => panic!("the marker has a Blinn-Phong material"),
        }
    }

    let sun = &scene.meshes[demo.sun];
    assert_eq!(sun.name, "Sun");
    assert_eq!(sun.vertex_data.positions, sphere(5).positions);
    match &sun.material {
        Material::Pbr(m) => {
            assert_eq!(m.name, "SunMaterial");
            assert_eq!(m.diffuse_texture, Texture::new(1));
            assert_eq!(m.pbr_uniforms.has_albedo_texture, 1);
        }
        _ => panic!("the sun has a physically-based material"),
    }
    let earth = &scene.meshes[demo.earth];
    assert_eq!(earth.name, "Earth");
    match &earth.material {
        Material::BlinnPhong(m) => {
            assert_eq!(m.name, "EarthMaterial");
            assert_eq!(m.diffuse_texture, Texture::new(2));
            assert_eq!(m.specular_texture, Texture::new(3));
            assert_eq!(m.normal_map, Texture::new(0));
            assert_eq!(m.phong_uniforms.has_diffuse_texture, 1);
            assert_eq!(m.phong_uniforms.has_specular_texture, 1);
            assert_eq!(m.phong_uniforms.has_normal_map, 0);
        }
        _ => panic!("the earth has a Blinn-Phong material"),
    }
    assert_eq!(scene.transforms.parent(earth.transform), Some(sun.transform));

    let camera = scene.active_camera.unwrap();
    assert_eq!(camera.aspect_ratio, w(1.25));
    assert_eq!(scene.transforms.world_chain(camera.transform), Some(vec![0, 10, 9]));

    let plane = &scene.meshes[demo.plane];
    assert_eq!(plane.name, "Plane");
    assert_eq!(plane.vertex_data.indices, PrimitiveMesh::grid_indices(10));
    assert_eq!(scene.transforms.transform(plane.transform).position, [w(0.0), w(-5.0), w(0.0)]);
    assert_eq!(scene.transforms.parent(plane.transform), None);
}

#[test]
fn solar_system_wants_a_plane_of_a_hundred_vertices() {
    assert!(demo_scene_1::run(assets(99)).is_none());
    assert!(demo_scene_1::run(assets(101)).is_none());
    let mut uneven = assets(100);
    uneven.plane_uvs.pop();
    assert!(demo_scene_1::run(uneven).is_none());
}

#[test]
fn sinc_terrain_is_set_up() {
    let n = 128 * 128;
    let positions = vec![[w(1.0), w(2.0), w(3.0)]; n];
    let normals = vec![[w(0.0), w(1.0), w(0.0)]; n];
    let demo = demo_scene_2::run(positions.clone(), normals.clone(), w(1.25), Texture::new(0)).unwrap();
    assert_eq!(demo.engine.config, SurfaceConfiguration { width: 1000, height: 800 });
    assert_eq!(demo_scene_2::MAX_HEIGHT, w(3.0));
    assert_eq!(demo.terrain, 0);
    let scene = &demo.scene;
    assert_eq!(scene.meshes.len(), 1);
    assert!(scene.point_lights.is_empty());
    assert_eq!(scene.transforms.nb_transforms(), 2);
    let camera = scene.active_camera.unwrap();
    assert_eq!(camera.transform, 0);
    assert_eq!(camera.aspect_ratio, w(1.25));
    let mesh = &scene.meshes[0];
    assert_eq!(mesh.name, "sinc");
    assert_eq!(mesh.transform, 1);
    assert_eq!(mesh.vertex_data.positions, positions);
    assert_eq!(mesh.vertex_data.normals, normals);
    assert_eq!(mesh.vertex_data.indices.len(), 6 * 127 * 127);
    assert_eq!(mesh.vertex_data.indices, PrimitiveMesh::grid_indices(128));
    match &mesh.material {
        Material::BlinnPhong(m) => {
            assert_eq!(m.name, "sincMaterial");
            assert_eq!(m.phong_uniforms.diffuse_color, [w(0.5), w(0.2), w(1.0)]);
            assert!(m.material_pipeline.is_none());
        }
        _ => panic!("the terrain has a Blinn-Phong material"),
    }
}

#[test]
fn sinc_terrain_wants_one_position_and_normal_per_vertex() {
    let n = 128 * 128;
    assert!(demo_scene_2::run(vec![[0; 3]; n - 1], vec![[0; 3]; n], w(1.0), Texture::new(0)).is_none());
    assert!(demo_scene_2::run(vec![[0; 3]; n], vec![[0; 3]; n + 1], w(1.0), Texture::new(0)).is_none());
    assert!(demo_scene_2::run(vec![], vec![], w(1.0), Texture::new(0)).is_none());
}
