use crate::camera::camera::{Camera, FrameMatrices};
use crate::geometry::vertex_data::VertexData;
use crate::lights::directional_light::DirectionalLight;
use crate::lights::point_light::{lights_placed, PointLight};
use crate::materials::material::Material;
use crate::materials::phong::PhongMaterial;
use crate::render_pass::{RenderCommand, RenderPass};
use crate::scalar::{cast_words, in_memory, push_words};
use crate::texture::Texture;
use crate::transform::{Transform, TransformGraph, Transformable};
use vstd::prelude::*;

verus! {

/// One vertex as the vertex buffer holds it: fourteen words.
#[derive(Clone, Copy, Debug, PartialEq, Eq)]
pub struct Vertex {
    pub position: [u32; 3],
    pub color: [u32; 3],
    pub normal: [u32; 3],
    pub tangent: [u32; 3],
    pub uv: [u32; 2],
}

/// Format of a vertex attribute: two or three scalars.
#[derive(Clone, Copy, Debug, PartialEq, Eq, Structural)]
pub enum VertexFormat {
    Float32x2,
    Float32x3,
}

impl VertexFormat {
    /// Size of the attribute in bytes.
    pub open spec fn size_of(self) -> u64 {
        match self {
            VertexFormat::Float32x2 => 8,
            VertexFormat::Float32x3 => 12,
        }
    }

    pub fn size(&self) -> (n: u64)
        ensures
            n == self.size_of(),
    {
        match self {
            VertexFormat::Float32x2 => 8,
            VertexFormat::Float32x3 => 12,
        }
    }
}

/// One attribute of the vertex layout: where the shader finds it, and where
/// it lies in a vertex.
#[derive(Clone, Copy, Debug, PartialEq, Eq, Structural)]
pub struct VertexAttribute {
    pub format: VertexFormat,
    pub offset: u64,
    pub shader_location: u32,
}

/// How often the vertex buffer advances.
#[derive(Clone, Copy, Debug, PartialEq, Eq, Structural)]
pub enum VertexStepMode {
    /// Once per vertex.
    Vertex,
    /// Once per instance.
    Instance,
}

/// Layout of a vertex buffer.
pub struct VertexBufferLayout {
    pub array_stride: u64,
    pub step_mode: VertexStepMode,
    pub attributes: Vec<VertexAttribute>,
}

impl VertexBufferLayout {
    /// The layout of a buffer of [`Vertex`] values: stepped once per vertex,
    /// the stride the size of a vertex, attribute `i` at shader location
    /// `i`, the attributes following one another without gaps.
    pub open spec fn for_vertices(&self) -> bool {
        &&& self.array_stride == 56
        &&& self.step_mode == VertexStepMode::Vertex
        &&& self.attributes@ == vertex_attributes()
    }

    /// The two layouts are the same.
    pub open spec fn same(&self, other: &VertexBufferLayout) -> bool {
        &&& self.array_stride == other.array_stride
        &&& self.step_mode == other.step_mode
        &&& self.attributes@ == other.attributes@
    }
}

/// The formats of the attributes of a [`Vertex`], in the order of its fields.
pub open spec fn vertex_formats() -> Seq<VertexFormat> {
    seq![
        VertexFormat::Float32x3,
        VertexFormat::Float32x3,
        VertexFormat::Float32x3,
        VertexFormat::Float32x3,
        VertexFormat::Float32x2,
    ]
}

/// The attributes of a [`Vertex`]: attribute `i` has the format of field
/// `i`, lies behind the fields before it, and is found by the shader at
/// location `i`.
pub open spec fn vertex_attributes() -> Seq<VertexAttribute> {
    Seq::new(
        5,
        |i: int|
            VertexAttribute {
                format: vertex_formats()[i],
                offset: bytes_before(vertex_formats(), i as nat) as u64,
                shader_location: i as u32,
            },
    )
}

/// Bytes taken by the first `n` of `formats`.
pub open spec fn bytes_before(formats: Seq<VertexFormat>, n: nat) -> nat
    decreases n,
{
    if n == 0 || n > formats.len() {
        0
    } else {
        bytes_before(formats, (n - 1) as nat) + formats[n - 1].size_of() as nat
    }
}

impl Vertex {
    /// Number of 32-bit words of a vertex.
    pub const WORDS: usize = 14;

    /// The vertex word by word.
    pub open spec fn layout(self) -> Seq<u32> {
        self.position@ + self.color@ + self.normal@ + self.tangent@ + self.uv@
    }

    /// The layout of a buffer of vertices: attribute `i` is at shader
    /// location `i`, the attributes follow one another without gaps, and the
    /// stride is the size of a vertex.
    pub fn desc() -> (layout: VertexBufferLayout)
        ensures
            layout.for_vertices(),
            layout.array_stride == 4 * Self::WORDS,
            layout.array_stride == bytes_before(vertex_formats(), 5),
            layout.attributes@.len() == 5,
            forall|i: int|
                0 <= i < 5 ==> #[trigger] layout.attributes@[i] == (VertexAttribute {
                    format: vertex_formats()[i],
                    offset: bytes_before(vertex_formats(), i as nat) as u64,
                    shader_location: i as u32,
                }),
    {
        let formats: [VertexFormat; 5] = [
            VertexFormat::Float32x3,
            VertexFormat::Float32x3,
            VertexFormat::Float32x3,
            VertexFormat::Float32x3,
            VertexFormat::Float32x2,
        ];
        assert(formats@ =~= vertex_formats());
        let mut attributes: Vec<VertexAttribute> = Vec::new();
        let mut offset: u64 = 0;
        let mut i: usize = 0;
        while i < 5
            invariant
                i <= 5,
                formats@ == vertex_formats(),
                offset == bytes_before(vertex_formats(), i as nat),
                offset <= 12 * i,
                attributes@.len() == i,
                forall|k: int|
                    0 <= k < i ==> #[trigger] attributes@[k] == (VertexAttribute {
                        format: vertex_formats()[k],
                        offset: bytes_before(vertex_formats(), k as nat) as u64,
                        shader_location: k as u32,
                    }),
            decreases 5 - i,
        {
            let format = formats[i];
            attributes.push(VertexAttribute { format, offset, shader_location: i as u32 });
            offset = offset + format.size();
            i += 1;
        }
        assert(bytes_before(vertex_formats(), 5) == 56) by {
            reveal_with_fuel(bytes_before, 6);
        }
        assert(attributes@ =~= vertex_attributes());
        VertexBufferLayout { array_stride: offset, step_mode: VertexStepMode::Vertex, attributes }
    }
}

/// The vertex of index `i`, gathered from the attribute lists.
pub open spec fn vertex_at(vertex_data: &VertexData, i: int) -> Vertex {
    Vertex {
        position: vertex_data.positions@[i],
        color: vertex_data.colors@[i],
        normal: vertex_data.normals@[i],
        tangent: vertex_data.tangents@[i],
        uv: vertex_data.uvs@[i],
    }
}

/// Interleaves the attribute lists into the contents of the vertex buffer.
pub fn zip_vertex_data(vertex_data: &VertexData) -> (data: Vec<Vertex>)
    requires
        vertex_data.complete(),
    ensures
        data@.len() == vertex_data.positions@.len(),
        forall|i: int| 0 <= i < data@.len() ==> #[trigger] data@[i] == vertex_at(vertex_data, i),
{
    let nb_vertices: usize = vertex_data.positions.len();
    let mut data: Vec<Vertex> = Vec::with_capacity(nb_vertices);
    let mut i: usize = 0;
    while i < nb_vertices
        invariant
            i <= nb_vertices,
            nb_vertices == vertex_data.positions@.len(),
            vertex_data.complete(),
            data@.len() == i,
            forall|k: int| 0 <= k < i ==> #[trigger] data@[k] == vertex_at(vertex_data, k),
        decreases nb_vertices - i,
    {
        data.push(
            Vertex {
                position: vertex_data.positions[i],
                color: vertex_data.colors[i],
                normal: vertex_data.normals[i],
                tangent: vertex_data.tangents[i],
                uv: vertex_data.uvs[i],
            },
        );
        i += 1;
    }
    data
}

/// The contents of the vertex buffer word by word: the vertices one after
/// another.
pub open spec fn vertex_layout(vertex_data: &VertexData) -> Seq<u32> {
    Seq::new(
        14 * vertex_data.positions@.len(),
        |k: int| vertex_at(vertex_data, k / 14).layout()[k % 14],
    )
}

/// The words of the vertex buffer.
pub fn vertex_words(vertex_data: &VertexData) -> (w: Vec<u32>)
    requires
        vertex_data.complete(),
    ensures
        w@ == vertex_layout(vertex_data),
{
    let nb_vertices: usize = vertex_data.positions.len();
    let mut w: Vec<u32> = Vec::new();
    let mut i: usize = 0;
    while i < nb_vertices
        invariant
            i <= nb_vertices,
            nb_vertices == vertex_data.positions@.len(),
            vertex_data.complete(),
            w@.len() == 14 * i,
            forall|k: int|
                0 <= k < w@.len() ==> #[trigger] w@[k] == vertex_at(vertex_data, k / 14).layout()[k
                    % 14],
        decreases nb_vertices - i,
    {
        let ghost before = w@;
        push_words(&mut w, vertex_data.positions[i].as_slice());
        push_words(&mut w, vertex_data.colors[i].as_slice());
        push_words(&mut w, vertex_data.normals[i].as_slice());
        push_words(&mut w, vertex_data.tangents[i].as_slice());
        push_words(&mut w, vertex_data.uvs[i].as_slice());
        assert(w@ =~= before + vertex_at(vertex_data, i as int).layout());
        assert forall|k: int| 0 <= k < w@.len() implies #[trigger] w@[k] == vertex_at(
            vertex_data,
            k / 14,
        ).layout()[k % 14] by {
            if k >= before.len() {
                assert(k / 14 == i as int && k % 14 == k - 14 * i);
            }
        }
        i += 1;
    }
    assert(w@ =~= vertex_layout(vertex_data));
    w
}

/// Geometry with a place in the hierarchy and a material.
pub struct Mesh {
    pub name: String,
    pub transform: usize,
    pub vertex_data: VertexData,
    pub material: Material,
}

impl Mesh {
    /// The commands of one draw of the mesh: its material is bound, then its
    /// vertex and index buffers, then all its indices are drawn once.
    pub open spec fn render_commands(&self, nb_point_lights: u32) -> Seq<RenderCommand> {
        self.material.bind_commands(nb_point_lights) + seq![
            RenderCommand::SetVertexBuffer { slot: 0 },
            RenderCommand::SetIndexBuffer,
            RenderCommand::DrawIndexed { index_count: self.vertex_data.indices@.len() as u32 },
        ]
    }

    /// The mesh after a draw of `before`: only the material has changed, as
    /// binding changes it.
    pub open spec fn rendered_from(
        &self,
        before: &Mesh,
        active_camera: &Camera,
        directional_light: &DirectionalLight,
        point_lights: Seq<PointLight>,
        transforms: &TransformGraph,
        frame: &FrameMatrices,
    ) -> bool {
        &&& self.name@ == before.name@
        &&& self.transform == before.transform
        &&& self.vertex_data == before.vertex_data
        &&& self.material.bound_from(
            &before.material,
            before.transform,
            active_camera,
            point_lights,
            directional_light,
            transforms,
            frame,
        )
    }

    /// A mesh of the given geometry on a new root transform of `transforms`,
    /// with a Phong material of default parameters.
    pub fn from_vertex_data(
        name: &str,
        vertex_data: VertexData,
        transforms: &mut TransformGraph,
        empty_texture: Texture,
    ) -> (mesh: Mesh)
        requires
            old(transforms).well_formed(),
        ensures
            final(transforms).well_formed(),
            final(transforms).len() == old(transforms).len() + 1,
            mesh.name@ == name@,
            mesh.transform == old(transforms).len(),
            mesh.vertex_data == vertex_data,
            mesh.material matches Material::Phong(m) && m.material_pipeline is None && m.textures()
                == seq![empty_texture, empty_texture, empty_texture, empty_texture],
            final(transforms).node(mesh.transform as int).identity(),
            final(transforms).parent_of(mesh.transform as int) is None,
            forall|i: int|
                0 <= i < old(transforms).len() ==> #[trigger] final(transforms).node(i) == old(transforms).node(i),
            forall|i: int|
                0 <= i < old(transforms).len() ==> #[trigger] final(transforms).parent_of(i)
                    == old(transforms).parent_of(i),
            forall|i: int|
                0 <= i < old(transforms).len() ==> #[trigger] final(transforms).ancestry(i) == old(transforms).ancestry(i),
    {
        let transform = transforms.add(Transform::new());
        Mesh {
            name: name.to_string(),
            transform,
            vertex_data,
            material: Material::Phong(PhongMaterial::new(empty_texture)),
        }
    }

    /// The contents of the vertex buffer that the host creates for the mesh:
    /// the interleaved vertices as the memory of the machine holds them.
    /// `None` if some vertex lacks an attribute.
    pub fn vertex_buffer_contents(&self) -> (contents: Option<Vec<u8>>)
        ensures
            contents is Some <==> self.vertex_data.complete(),
            contents matches Some(bytes) ==> in_memory(vertex_layout(&self.vertex_data), bytes@),
    {
        if !self.vertex_data.is_complete() {
            return None;
        }
        let words = vertex_words(&self.vertex_data);
        Some(cast_words(words.as_slice()))
    }

    /// The contents of the index buffer that the host creates for the mesh:
    /// the indices as the memory of the machine holds them.
    pub fn index_buffer_contents(&self) -> (contents: Vec<u8>)
        ensures
            in_memory(self.vertex_data.indices@, contents@),
    {
        cast_words(self.vertex_data.indices.as_slice())
    }

    pub fn material(&mut self) -> (material: &mut Material)
        ensures
            *material == old(self).material,
            *final(self) == (Mesh { material: *final(material), ..*old(self) }),
    {
        &mut self.material
    }

    pub fn set_material(&mut self, material: Material)
        ensures
            *final(self) == (Mesh { material, ..*old(self) }),
    {
        self.material = material;
    }

    /// Records one draw of the mesh: binds the material with the mesh's
    /// transform, the camera and the lights, sets the vertex and index
    /// buffers, and draws the whole index range once.
    pub fn render(
        &mut self,
        render_pass: &mut RenderPass,
        active_camera: &Camera,
        directional_light: &DirectionalLight,
        point_lights: &Vec<PointLight>,
        transforms: &TransformGraph,
        frame: &FrameMatrices,
    )
        requires
            transforms.well_formed(),
            frame.covers(transforms),
            old(self).transform < transforms.len(),
            active_camera.transform < transforms.len(),
            lights_placed(point_lights@, frame.world@),
        ensures
            final(self).rendered_from(
                old(self),
                active_camera,
                directional_light,
                point_lights@,
                transforms,
                frame,
            ),
            final(self).material.compiled(),
            final(render_pass).commands@ == old(render_pass).commands@ + final(self).render_commands(point_lights@.len() as u32),
    {
        let transform = self.transform_rc();
        self.material.bind(
            render_pass,
            transform,
            active_camera,
            point_lights,
            directional_light,
            transforms,
            frame,
        );
        render_pass.set_vertex_buffer(0);
        render_pass.set_index_buffer();
        let index_count: u32 = #[verifier::truncate]
        (self.vertex_data.indices.len() as u32);
        render_pass.draw_indexed(index_count);
        assert(render_pass.commands@ =~= old(render_pass).commands@ + self.render_commands(
            point_lights@.len() as u32,
        ));
    }
}

impl Transformable for Mesh {
    open spec fn transform_of(&self) -> usize {
        self.transform
    }

    fn transform_rc(&self) -> (id: usize) {
        self.transform
    }
}

} // verus!
