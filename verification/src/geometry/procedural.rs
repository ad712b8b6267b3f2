use crate::geometry::mesh::Mesh;
use crate::geometry::primitive::{grid_index, grid_len, PrimitiveMesh};
use crate::geometry::vertex_data::VertexData;
use crate::materials::material::{flat_terrain_shader, sphere_terrain_shader, Material};
use crate::scalar::{THREE_FIFTHS, ZERO};
use crate::transform::{Transform, TransformGraph};
use vstd::prelude::*;

verus! {

/// Builders of procedural shapes. The host evaluates the height function and
/// computes positions and normals; the builders add the attributes that are
/// the same for every vertex, the triangles of a grid, and the material.
pub struct ProceduralMesh {}

/// The vertex data of a procedural shape holds the given positions and
/// normals; every vertex is light grey and has neither texture coordinates
/// nor a tangent.
pub open spec fn procedural_data(
    data: &VertexData,
    positions: Vec<[u32; 3]>,
    normals: Vec<[u32; 3]>,
) -> bool {
    &&& data.positions == positions
    &&& data.normals == normals
    &&& data.complete()
    &&& forall|i: int|
        0 <= i < data.colors@.len() ==> (#[trigger] data.colors@[i])@ == seq![
            THREE_FIFTHS,
            THREE_FIFTHS,
            THREE_FIFTHS,
        ]
    &&& forall|i: int| 0 <= i < data.uvs@.len() ==> (#[trigger] data.uvs@[i])@ == seq![ZERO, ZERO]
    &&& forall|i: int|
        0 <= i < data.tangents@.len() ==> (#[trigger] data.tangents@[i])@ == seq![
            ZERO,
            ZERO,
            ZERO,
        ]
}

/// A mesh was made on a new root transform of the hierarchy, which is
/// otherwise as it was.
pub open spec fn placed_on_new_root(
    mesh: &Mesh,
    before: &TransformGraph,
    after: &TransformGraph,
) -> bool {
    &&& after.well_formed()
    &&& mesh.transform == before.len()
    &&& after.len() == before.len() + 1
    &&& after.node(mesh.transform as int).identity()
    &&& after.parent_of(mesh.transform as int) is None
    &&& forall|i: int| 0 <= i < before.len() ==> #[trigger] after.node(i) == before.node(i)
    &&& forall|i: int| 0 <= i < before.len() ==> #[trigger] after.parent_of(i) == before.parent_of(i)
    &&& forall|i: int| 0 <= i < before.len() ==> #[trigger] after.ancestry(i) == before.ancestry(i)
}

impl ProceduralMesh {
    /// The vertex data of a procedural shape from what the host computed.
    fn vertex_data(positions: Vec<[u32; 3]>, normals: Vec<[u32; 3]>, indices: Vec<u32>) -> (data:
        VertexData)
        requires
            normals@.len() == positions@.len(),
        ensures
            procedural_data(&data, positions, normals),
            data.indices == indices,
    {
        let nb_vertices: usize = positions.len();
        let mut colors: Vec<[u32; 3]> = Vec::new();
        let mut uvs: Vec<[u32; 2]> = Vec::new();
        let mut tangents: Vec<[u32; 3]> = Vec::new();
        let mut i: usize = 0;
        while i < nb_vertices
            invariant
                i <= nb_vertices,
                colors@.len() == i,
                uvs@.len() == i,
                tangents@.len() == i,
                forall|k: int|
                    0 <= k < i ==> (#[trigger] colors@[k])@ == seq![
                        THREE_FIFTHS,
                        THREE_FIFTHS,
                        THREE_FIFTHS,
                    ],
                forall|k: int| 0 <= k < i ==> (#[trigger] uvs@[k])@ == seq![ZERO, ZERO],
                forall|k: int| 0 <= k < i ==> (#[trigger] tangents@[k])@ == seq![ZERO, ZERO, ZERO],
            decreases nb_vertices - i,
        {
            let color: [u32; 3] = [THREE_FIFTHS, THREE_FIFTHS, THREE_FIFTHS];
            let uv: [u32; 2] = [ZERO, ZERO];
            let tangent: [u32; 3] = [ZERO, ZERO, ZERO];
            assert(color@ =~= seq![THREE_FIFTHS, THREE_FIFTHS, THREE_FIFTHS]);
            assert(uv@ =~= seq![ZERO, ZERO]);
            assert(tangent@ =~= seq![ZERO, ZERO, ZERO]);
            colors.push(color);
            uvs.push(uv);
            tangents.push(tangent);
            i += 1;
        }
        VertexData { positions, colors, normals, tangents, indices, uvs }
    }

    /// A terrain over a square grid with `nb_subdivisions` vertices a side,
    /// whose heights reach `max_height`, as a mesh on a new root transform
    /// with the material of a flat terrain. `None`, and nothing added to
    /// `transforms`, if there is not one position and one normal for each of
    /// the `nb_subdivisions`² vertices.
    pub fn terrain(
        name: &str,
        nb_subdivisions: u32,
        positions: Vec<[u32; 3]>,
        normals: Vec<[u32; 3]>,
        max_height: u32,
        transforms: &mut TransformGraph,
    ) -> (mesh: Option<Mesh>)
        requires
            nb_subdivisions >= 1,
            grid_len(nb_subdivisions as int) <= u32::MAX,
            old(transforms).well_formed(),
        ensures
            final(transforms).well_formed(),
            mesh is Some <==> positions@.len() == nb_subdivisions * nb_subdivisions
                && normals@.len() == nb_subdivisions * nb_subdivisions,
            mesh is None ==> *final(transforms) == *old(transforms),
            mesh matches Some(m) ==> {
                &&& m.name@ == name@
                &&& placed_on_new_root(&m, old(transforms), final(transforms))
                &&& procedural_data(&m.vertex_data, positions, normals)
                &&& m.vertex_data.indices@.len() == grid_len(nb_subdivisions as int)
                &&& forall|k: int|
                    0 <= k < m.vertex_data.indices@.len() ==> (#[trigger] m.vertex_data.indices@[k])
                        == grid_index(nb_subdivisions as int, k)
                &&& m.vertex_data.indexed()
                &&& m.material matches Material::Terrain(t) && t.is_new(
                    flat_terrain_shader(),
                    max_height,
                    ZERO,
                )
            },
    {
        proof {
            assert(nb_subdivisions * nb_subdivisions <= u32::MAX) by (nonlinear_arith)
                requires
                    6 * ((nb_subdivisions - 1) * (nb_subdivisions - 1)) <= u32::MAX,
                    nb_subdivisions >= 1,
            ;
        }
        let nb_vertices: usize = (nb_subdivisions * nb_subdivisions) as usize;
        if positions.len() != nb_vertices || normals.len() != nb_vertices {
            return None;
        }
        let indices = PrimitiveMesh::grid_indices(nb_subdivisions);
        let vertex_data = Self::vertex_data(positions, normals, indices);
        let transform = transforms.add(Transform::new());
        Some(
            Mesh {
                name: name.to_string(),
                transform,
                vertex_data,
                material: Material::new_2d_terrain(max_height),
            },
        )
    }

    /// A terrain on a sphere of radius `sphere_radius` whose heights reach
    /// `max_height`, from the positions, normals and triangles of its
    /// tessellation, as a mesh on a new root transform with the material of
    /// a spherical terrain. `None`, and nothing added to `transforms`, if
    /// there is not one normal for each position or a triangle names a
    /// vertex that is not there.
    pub fn sphere(
        name: &str,
        positions: Vec<[u32; 3]>,
        normals: Vec<[u32; 3]>,
        indices: Vec<u32>,
        sphere_radius: u32,
        max_height: u32,
        transforms: &mut TransformGraph,
    ) -> (mesh: Option<Mesh>)
        requires
            old(transforms).well_formed(),
        ensures
            final(transforms).well_formed(),
            mesh is Some <==> normals@.len() == positions@.len() && forall|k: int|
                0 <= k < indices@.len() ==> (#[trigger] indices@[k]) < positions@.len(),
            mesh is None ==> *final(transforms) == *old(transforms),
            mesh matches Some(m) ==> {
                &&& m.name@ == name@
                &&& placed_on_new_root(&m, old(transforms), final(transforms))
                &&& procedural_data(&m.vertex_data, positions, normals)
                &&& m.vertex_data.indices == indices
                &&& m.vertex_data.indexed()
                &&& m.material matches Material::Terrain(t) && t.is_new(
                    sphere_terrain_shader(),
                    max_height,
                    sphere_radius,
                )
            },
    {
        if normals.len() != positions.len() {
            return None;
        }
        let vertex_data = Self::vertex_data(positions, normals, indices);
        if !vertex_data.is_indexed() {
            return None;
        }
        let transform = transforms.add(Transform::new());
        Some(
            Mesh {
                name: name.to_string(),
                transform,
                vertex_data,
                material: Material::new_sphere_terrain(sphere_radius, max_height),
            },
        )
    }
}

} // verus!
