use crate::geometry::mesh::Mesh;
use crate::geometry::vertex_data::VertexData;
use crate::lights::point_light::PointLight;
use crate::materials::blinn_phong::BlinnPhongMaterial;
use crate::materials::material::Material;
use crate::scalar::{HALF, ZERO};
use crate::scene::Scene;
use crate::texture::Texture;
use vstd::prelude::*;

verus! {

/// Makes a point light visible: adds a mesh of the given geometry, a sphere
/// by custom, to the scene, half the size, parented to the light's transform,
/// that glows in the light's colour and reflects nothing. Returns the handle
/// of the mesh.
///
/// If the light's transform is not in the hierarchy of the scene, the mesh
/// stays where it was made, at the origin.
pub fn show_point_light_debug_mesh(
    point_light: &PointLight,
    scene: &mut Scene,
    sphere: VertexData,
    empty_texture: Texture,
) -> (handle: usize)
    requires
        old(scene).transforms.well_formed(),
    ensures
        handle == old(scene).meshes@.len(),
        final(scene).meshes@.len() == old(scene).meshes@.len() + 1,
        forall|i: int|
            0 <= i < old(scene).meshes@.len() ==> #[trigger] final(scene).meshes@[i] == old(scene).meshes@[i],
        final(scene).active_camera == old(scene).active_camera,
        final(scene).directional_light == old(scene).directional_light,
        final(scene).point_lights == old(scene).point_lights,
        final(scene).mouse == old(scene).mouse,
        final(scene).transforms.well_formed(),
        final(scene).transforms.len() == old(scene).transforms.len() + 1,
        forall|i: int|
            0 <= i < old(scene).transforms.len() ==> #[trigger] final(scene).transforms.node(i)
                == old(scene).transforms.node(i),
        forall|i: int|
            0 <= i < old(scene).transforms.len() ==> #[trigger] final(scene).transforms.parent_of(i)
                == old(scene).transforms.parent_of(i),
        forall|i: int|
            0 <= i < old(scene).transforms.len() ==> #[trigger] final(scene).transforms.ancestry(i)
                == old(scene).transforms.ancestry(i),
        ({
            let mesh = final(scene).meshes@[handle as int];
            let placed = final(scene).transforms.node(mesh.transform as int);
            &&& mesh.name@ == "PointLightDebugMesh"@
            &&& mesh.vertex_data == sphere
            &&& mesh.transform == old(scene).transforms.len()
            &&& placed.scaling@ == seq![HALF, HALF, HALF]
            &&& placed.position@ == seq![ZERO, ZERO, ZERO]
            &&& placed.rotation@ == seq![ZERO, ZERO, ZERO]
            &&& final(scene).transforms.parent_of(mesh.transform as int) == if point_light.transform
                < old(scene).transforms.len() {
                Some(point_light.transform)
            } else {
                None
            }
            &&& point_light.transform < old(scene).transforms.len() ==> final(scene).transforms.ancestry(mesh.transform as int) == seq![mesh.transform] + old(scene).transforms.ancestry(point_light.transform as int)
            &&& mesh.material matches Material::BlinnPhong(m) && {
                &&& m.name@ == "PointLightDebugMaterial"@
                &&& m.material_pipeline is None
                &&& m.phong_uniforms.ambient_color@ == point_light.color@
                &&& m.phong_uniforms.diffuse_color@ == seq![ZERO, ZERO, ZERO]
                &&& m.phong_uniforms.specular_color@ == seq![ZERO, ZERO, ZERO]
                &&& m.textures() == seq![empty_texture, empty_texture, empty_texture, empty_texture]
            }
        }),
{
    let mut mesh = Mesh::from_vertex_data(
        "PointLightDebugMesh",
        sphere,
        &mut scene.transforms,
        empty_texture,
    );
    let ghost grown = scene.transforms;
    proof {
        assert forall|i: int| 0 <= i < old(scene).transforms.len() implies !(
        #[trigger] grown.ancestry(i)).contains(mesh.transform) by {
            old(scene).transforms.lemma_ancestry_bounds(i);
        }
    }
    let linked = scene.transforms.set_parent(mesh.transform, Some(point_light.transform));
    let transform = scene.transforms.transform_mut(mesh.transform);
    transform.set_scaling(HALF, HALF, HALF);
    let color = point_light.color;
    let mut material = BlinnPhongMaterial::new("PointLightDebugMaterial", empty_texture);
    material.set_ambient_color(color[0], color[1], color[2]);
    material.set_diffuse_color(ZERO, ZERO, ZERO);
    material.set_specular_color(ZERO, ZERO, ZERO);
    mesh.set_material(Material::BlinnPhong(material));
    assert(material.phong_uniforms.ambient_color@ =~= point_light.color@);
    scene.add_mesh(mesh)
}

} // verus!
