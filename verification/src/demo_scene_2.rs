//! A terrain in the shape of the sinc function under an orbiting camera.

use crate::camera::camera::Camera;
use crate::engine::{Engine, SurfaceConfiguration};
use crate::geometry::primitive::{grid_index, grid_len};
use crate::geometry::procedural::ProceduralMesh;
use crate::materials::blinn_phong::BlinnPhongMaterial;
use crate::materials::material::Material;
use crate::scalar::{HALF, ONE, ONE_FIFTH, THREE};
use crate::scene::Scene;
use crate::texture::Texture;
use vstd::prelude::*;

verus! {

/// Width of the window of the demo.
pub const WIDTH: u32 = 1000;

/// Height of the window of the demo.
pub const HEIGHT: u32 = 800;

/// The height that the terrain reaches: the bit pattern of `3.0`.
pub const MAX_HEIGHT: u32 = THREE;

/// Number of vertices along a side of the terrain.
pub const NB_SUBDIVISIONS: u32 = 128;

/// The demo, ready for the frame loop: the engine, the scene, and the handle
/// of the terrain.
pub struct Demo {
    pub engine: Engine,
    pub scene: Scene,
    pub terrain: usize,
}

/// Sets the demo up from the terrain's positions and normals, which the host
/// computed over a grid of [`NB_SUBDIVISIONS`] vertices a side, and from the
/// aspect ratio of the window. The host gives the camera an orbit control of
/// radius 10 and starts the frame loop.
///
/// `None` if there is not one position and one normal for each vertex.
pub fn run(
    positions: Vec<[u32; 3]>,
    normals: Vec<[u32; 3]>,
    aspect_ratio: u32,
    empty_texture: Texture,
) -> (demo: Option<Demo>)
    ensures
        demo is Some <==> positions@.len() == NB_SUBDIVISIONS * NB_SUBDIVISIONS && normals@.len()
            == NB_SUBDIVISIONS * NB_SUBDIVISIONS,
        demo matches Some(d) ==> {
            &&& d.engine.config == (SurfaceConfiguration { width: WIDTH, height: HEIGHT })
            &&& d.scene.transforms.well_formed()
            &&& d.scene.transforms.len() == 2
            &&& d.scene.transforms.parent_of(0) is None
            &&& d.scene.transforms.parent_of(1) is None
            &&& d.scene.transforms.node(0).identity()
            &&& d.scene.transforms.node(1).identity()
            &&& d.scene.active_camera matches Some(camera) && camera.transform == 0
                && camera.aspect_ratio == aspect_ratio
            &&& d.scene.point_lights@.len() == 0
            &&& d.scene.meshes@.len() == 1
            &&& d.terrain == 0
            &&& d.scene.meshes@[0].name@ == "sinc"@
            &&& d.scene.meshes@[0].transform == 1
            &&& d.scene.meshes@[0].vertex_data.positions == positions
            &&& d.scene.meshes@[0].vertex_data.normals == normals
            &&& d.scene.meshes@[0].vertex_data.complete()
            &&& d.scene.meshes@[0].vertex_data.indexed()
            &&& d.scene.meshes@[0].vertex_data.indices@.len() == grid_len(NB_SUBDIVISIONS as int)
            &&& forall|k: int|
                0 <= k < d.scene.meshes@[0].vertex_data.indices@.len() ==> (
                #[trigger] d.scene.meshes@[0].vertex_data.indices@[k]) == grid_index(
                    NB_SUBDIVISIONS as int,
                    k,
                )
            &&& d.scene.meshes@[0].material matches Material::BlinnPhong(m) && {
                &&& m.name@ == "sincMaterial"@
                &&& m.material_pipeline is None
                &&& m.phong_uniforms.diffuse_color@ == seq![HALF, ONE_FIFTH, ONE]
                &&& m.textures() == seq![empty_texture, empty_texture, empty_texture, empty_texture]
            }
        },
{
    let engine = Engine::new(WIDTH, HEIGHT);
    let mut scene = Scene::new();
    let camera = Camera::new(&mut scene.transforms, aspect_ratio);
    scene.set_active_camera(camera);

    let mut mesh = match ProceduralMesh::terrain(
        "sinc",
        NB_SUBDIVISIONS,
        positions,
        normals,
        MAX_HEIGHT,
        &mut scene.transforms,
    ) {
        Some(mesh) => mesh,
        None => {
            return None;
        },
    };
    let mut material = BlinnPhongMaterial::new("sincMaterial", empty_texture);
    material.set_diffuse_color(HALF, ONE_FIFTH, ONE);
    mesh.set_material(Material::BlinnPhong(material));
    let terrain = scene.add_mesh(mesh);
    Some(Demo { engine, scene, terrain })
}

} // verus!
