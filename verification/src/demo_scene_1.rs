//! A small solar system: a textured sun, an earth that orbits it with the
//! camera in tow, a ground plane, and four coloured point lights, each shown
//! by a small sphere.

use crate::camera::camera::Camera;
use crate::engine::{Engine, SurfaceConfiguration};
use crate::geometry::mesh::Mesh;
use crate::geometry::primitive::PrimitiveMesh;
use crate::geometry::vertex_data::VertexData;
use crate::lights::debug::show_point_light_debug_mesh;
use crate::lights::light::Light;
use crate::lights::point_light::PointLight;
use crate::materials::blinn_phong::BlinnPhongMaterial;
use crate::materials::material::Material;
use crate::materials::pbr::PbrMaterial;
use crate::scalar::{MINUS_FIVE, ONE, ONE_FIFTH, ZERO};
use crate::scene::Scene;
use crate::texture::Texture;
use crate::transform::Transformable;
use vstd::prelude::*;

verus! {

/// Width of the window of the demo.
pub const WIDTH: u32 = 1000;

/// Height of the window of the demo.
pub const HEIGHT: u32 = 800;

/// Number of vertices along a side of the ground plane.
pub const PLANE_SUBDIVISIONS: u32 = 10;

/// What the host brings to the demo: the geometry that takes scalar
/// arithmetic and the textures it loaded.
pub struct Assets {
    /// A sphere for each of the four light markers.
    pub light_sphere_1: VertexData,
    pub light_sphere_2: VertexData,
    pub light_sphere_3: VertexData,
    pub light_sphere_4: VertexData,
    /// The sphere of the sun.
    pub sun_sphere: VertexData,
    /// The sphere of the earth.
    pub earth_sphere: VertexData,
    /// Positions and texture coordinates of the ground plane, a grid of
    /// [`PLANE_SUBDIVISIONS`] vertices a side.
    pub plane_positions: Vec<[u32; 3]>,
    pub plane_uvs: Vec<[u32; 2]>,
    pub sun_texture: Texture,
    pub earth_diffuse_texture: Texture,
    pub earth_specular_texture: Texture,
    pub empty_texture: Texture,
    /// Width of the window over its height.
    pub aspect_ratio: u32,
}

/// The demo, ready for the frame loop: the engine, the scene, and the
/// handles that the before-render hook of the host animates.
pub struct Demo {
    pub engine: Engine,
    pub scene: Scene,
    pub point_lights: [usize; 4],
    pub sun: usize,
    pub earth: usize,
    pub plane: usize,
}

/// The colours of the four point lights: red, blue, green, yellow.
pub open spec fn light_colors() -> Seq<Seq<u32>> {
    seq![seq![ONE, ZERO, ZERO], seq![ZERO, ZERO, ONE], seq![ZERO, ONE, ZERO], seq![ONE, ONE, ZERO]]
}

/// Adds a point light of the given colour and of intensity 0.2 to the scene,
/// with its marker, and returns the handle of the light.
fn add_light(scene: &mut Scene, r: u32, g: u32, b: u32, sphere: VertexData, empty_texture: Texture) -> (handle:
    usize)
    requires
        old(scene).transforms.well_formed(),
    ensures
        handle == old(scene).point_lights@.len(),
        final(scene).point_lights@.len() == old(scene).point_lights@.len() + 1,
        forall|i: int|
            0 <= i < old(scene).point_lights@.len() ==> #[trigger] final(scene).point_lights@[i]
                == old(scene).point_lights@[i],
        final(scene).point_lights@[handle as int].color@ == seq![r, g, b],
        final(scene).point_lights@[handle as int].intensity == ONE_FIFTH,
        final(scene).point_lights@[handle as int].transform == old(scene).transforms.len(),
        final(scene).meshes@.len() == old(scene).meshes@.len() + 1,
        forall|i: int|
            0 <= i < old(scene).meshes@.len() ==> #[trigger] final(scene).meshes@[i] == old(scene).meshes@[i],
        final(scene).meshes@[old(scene).meshes@.len() as int].transform == old(scene).transforms.len() + 1,
        final(scene).meshes@[old(scene).meshes@.len() as int].vertex_data == sphere,
        final(scene).active_camera == old(scene).active_camera,
        final(scene).directional_light == old(scene).directional_light,
        final(scene).mouse == old(scene).mouse,
        final(scene).transforms.well_formed(),
        final(scene).transforms.len() == old(scene).transforms.len() + 2,
        final(scene).transforms.parent_of(old(scene).transforms.len() as int) is None,
        final(scene).transforms.parent_of(old(scene).transforms.len() as int + 1) == Some(
            old(scene).transforms.len() as usize,
        ),
        forall|i: int|
            0 <= i < old(scene).transforms.len() ==> #[trigger] final(scene).transforms.node(i)
                == old(scene).transforms.node(i),
        forall|i: int|
            0 <= i < old(scene).transforms.len() ==> #[trigger] final(scene).transforms.parent_of(i)
                == old(scene).transforms.parent_of(i),
        forall|i: int|
            0 <= i < old(scene).transforms.len() ==> #[trigger] final(scene).transforms.ancestry(i)
                == old(scene).transforms.ancestry(i),
{
    let mut point_light = PointLight::new(&mut scene.transforms);
    point_light.set_color(r, g, b);
    point_light.set_intensity(ONE_FIFTH);
    show_point_light_debug_mesh(&point_light, scene, sphere, empty_texture);
    scene.add_point_light(point_light)
}

/// Sets the demo up from what the host brings. The host gives the camera an
/// orbit control of radius 2, installs the hook that turns the sun and moves
/// the lights, and starts the frame loop.
///
/// `None` if the ground plane does not have one position and one texture
/// coordinate for each of its vertices.
pub fn run(assets: Assets) -> (demo: Option<Demo>)
    ensures
        demo is Some <==> assets.plane_positions@.len() == PLANE_SUBDIVISIONS * PLANE_SUBDIVISIONS
            && assets.plane_uvs@.len() == PLANE_SUBDIVISIONS * PLANE_SUBDIVISIONS,
        demo matches Some(d) ==> {
            &&& d.engine.config == (SurfaceConfiguration { width: WIDTH, height: HEIGHT })
            &&& d.scene.directional_light.intensity == ZERO
            &&& d.scene.active_camera matches Some(camera) && camera.transform == 0
                && camera.aspect_ratio == assets.aspect_ratio
            &&& d.scene.point_lights@.len() == 4
            &&& d.point_lights@ == seq![0usize, 1, 2, 3]
            &&& forall|i: int|
                0 <= i < 4 ==> {
                    &&& (#[trigger] d.scene.point_lights@[i]).color@ == light_colors()[i]
                    &&& d.scene.point_lights@[i].intensity == ONE_FIFTH
                    &&& d.scene.point_lights@[i].transform == 2 * i + 1
                    &&& d.scene.meshes@[i].transform == 2 * i + 2
                    &&& d.scene.transforms.parent_of(2 * i + 1) is None
                    &&& d.scene.transforms.parent_of(2 * i + 2) == Some((2 * i + 1) as usize)
                }
            &&& d.scene.meshes@.len() == 7
            &&& d.sun == 4
            &&& d.earth == 5
            &&& d.plane == 6
            &&& d.scene.meshes@[4].name@ == "Sun"@
            &&& d.scene.meshes@[4].vertex_data == assets.sun_sphere
            &&& d.scene.meshes@[4].transform == 9
            &&& d.scene.meshes@[4].material matches Material::Pbr(m) && m.name@ == "SunMaterial"@
                && m.diffuse_texture == assets.sun_texture && m.pbr_uniforms.has_albedo_texture
                == 1 && m.material_pipeline is None
            &&& d.scene.meshes@[5].name@ == "Earth"@
            &&& d.scene.meshes@[5].vertex_data == assets.earth_sphere
            &&& d.scene.meshes@[5].transform == 10
            &&& d.scene.meshes@[5].material matches Material::BlinnPhong(m) && m.name@
                == "EarthMaterial"@ && m.diffuse_texture == assets.earth_diffuse_texture
                && m.specular_texture == assets.earth_specular_texture
                && m.phong_uniforms.has_diffuse_texture == 1
                && m.phong_uniforms.has_specular_texture == 1 && m.material_pipeline is None
            &&& d.scene.meshes@[6].name@ == "Plane"@
            &&& d.scene.meshes@[6].transform == 11
            &&& d.scene.meshes@[6].vertex_data.positions == assets.plane_positions
            &&& d.scene.meshes@[6].vertex_data.uvs == assets.plane_uvs
            &&& d.scene.meshes@[6].vertex_data.complete()
            &&& d.scene.meshes@[6].vertex_data.indexed()
            &&& d.scene.transforms.well_formed()
            &&& d.scene.transforms.len() == 12
            &&& d.scene.transforms.parent_of(9) is None
            &&& d.scene.transforms.parent_of(10) == Some(9usize)
            &&& d.scene.transforms.parent_of(0) == Some(10usize)
            &&& d.scene.transforms.parent_of(11) is None
            &&& d.scene.transforms.ancestry(0) == seq![0usize, 10, 9]
            &&& d.scene.transforms.node(11).position@ == seq![ZERO, MINUS_FIVE, ZERO]
        },
{
    let Assets {
        light_sphere_1,
        light_sphere_2,
        light_sphere_3,
        light_sphere_4,
        sun_sphere,
        earth_sphere,
        plane_positions,
        plane_uvs,
        sun_texture,
        earth_diffuse_texture,
        earth_specular_texture,
        empty_texture,
        aspect_ratio,
    } = assets;
    let engine = Engine::new(WIDTH, HEIGHT);
    let mut scene = Scene::new();
    let camera = Camera::new(&mut scene.transforms, aspect_ratio);

    scene.directional_light.set_intensity(ZERO);

    let point_light1_idx = add_light(&mut scene, ONE, ZERO, ZERO, light_sphere_1, empty_texture);
    let point_light2_idx = add_light(&mut scene, ZERO, ZERO, ONE, light_sphere_2, empty_texture);
    let point_light3_idx = add_light(&mut scene, ZERO, ONE, ZERO, light_sphere_3, empty_texture);
    let point_light4_idx = add_light(&mut scene, ONE, ONE, ZERO, light_sphere_4, empty_texture);

    let mut sun = Mesh::from_vertex_data("Sun", sun_sphere, &mut scene.transforms, empty_texture);
    let mut sun_material = PbrMaterial::new("SunMaterial", empty_texture);
    sun_material.set_albedo_texture(sun_texture);
    sun.set_material(Material::Pbr(sun_material));
    let sun_transform = sun.transform_rc();
    let sun_idx = scene.add_mesh(sun);

    let mut earth = Mesh::from_vertex_data(
        "Earth",
        earth_sphere,
        &mut scene.transforms,
        empty_texture,
    );
    let ghost with_earth = scene.transforms;
    proof {
        with_earth.lemma_ancestry_unfold(sun_transform as int);
        with_earth.lemma_ancestry_unfold(earth.transform as int);
        assert(with_earth.ancestry(sun_transform as int) =~= seq![sun_transform]);
    }
    let earth_linked = scene.transforms.set_parent(earth.transform_rc(), Some(sun_transform));
    let mut earth_material = BlinnPhongMaterial::new("EarthMaterial", empty_texture);
    earth_material.set_diffuse_texture(earth_diffuse_texture);
    earth_material.set_specular_texture(earth_specular_texture);
    earth.set_material(Material::BlinnPhong(earth_material));

    let ghost with_orbit = scene.transforms;
    proof {
        assert(with_orbit.ancestry(earth.transform as int) =~= seq![earth.transform, sun_transform]);
    }
    let camera_linked = scene.transforms.set_parent(camera.transform_rc(), Some(earth.transform_rc()));
    let earth_idx = scene.add_mesh(earth);

    let plane = match PrimitiveMesh::plane(
        "Plane",
        PLANE_SUBDIVISIONS,
        plane_positions,
        plane_uvs,
        &mut scene.transforms,
        empty_texture,
    ) {
        Some(plane) => plane,
        None => {
            return None;
        },
    };
    let plane_transform = scene.transforms.transform_mut(plane.transform_rc());
    plane_transform.set_position(ZERO, MINUS_FIVE, ZERO);
    let plane_idx = scene.add_mesh(plane);

    scene.set_active_camera(camera);
    let point_lights = [point_light1_idx, point_light2_idx, point_light3_idx, point_light4_idx];
    assert(point_lights@ =~= seq![0usize, 1, 2, 3]);
    proof {
        assert(scene.transforms.ancestry(0) =~= seq![0usize, 10, 9]);
    }
    Some(Demo { engine, scene, point_lights, sun: sun_idx, earth: earth_idx, plane: plane_idx })
}

} // verus!
