use crate::geometry::mesh::Mesh;
use crate::geometry::vertex_data::VertexData;
use crate::scalar::{CORNER, HALF, MINUS_CORNER, MINUS_HALF, ONE, ZERO};
use crate::texture::Texture;
use crate::transform::TransformGraph;
use vstd::arithmetic::div_mod::lemma_fundamental_div_mod_converse;
use vstd::prelude::*;

verus! {

/// Builders of the primitive shapes. The host computes what takes scalar
/// arithmetic, the positions and texture coordinates; the builders add the
/// triangles and the attributes that are the same for every vertex.
pub struct PrimitiveMesh {}

/// The six indices of the two triangles of the cell at row `x` and column
/// `y` of a grid with `n` vertices a side, the vertex at row `r` and column
/// `c` having index `r n + c`.
pub open spec fn cell_indices(n: int, x: int, y: int) -> Seq<int> {
    seq![
        (x + 1) * n + y,
        x * n + y,
        x * n + y + 1,
        (x + 1) * n + y,
        x * n + y + 1,
        (x + 1) * n + y + 1,
    ]
}

/// The `k`-th index of a grid with `n` vertices a side: the cells row by
/// row, six indices each.
pub open spec fn grid_index(n: int, k: int) -> int {
    cell_indices(n, (k / 6) / (n - 1), (k / 6) % (n - 1))[k % 6]
}

/// Number of indices of a grid with `n` vertices a side.
pub open spec fn grid_len(n: int) -> int {
    6 * ((n - 1) * (n - 1))
}

proof fn lemma_cell_position(m: int, x: int, y: int, c: int)
    requires
        m > 0,
        0 <= x,
        0 <= y < m,
        0 <= c < 6,
    ensures
        (6 * (x * m + y) + c) / 6 == x * m + y,
        (6 * (x * m + y) + c) % 6 == c,
        (x * m + y) / m == x,
        (x * m + y) % m == y,
{
    lemma_fundamental_div_mod_converse(6 * (x * m + y) + c, 6, x * m + y, c);
    lemma_fundamental_div_mod_converse(x * m + y, m, x, y);
}

proof fn lemma_cell_bounds(n: int, x: int, y: int)
    requires
        n >= 2,
        0 <= x < n - 1,
        0 <= y < n - 1,
    ensures
        0 <= x * n + y,
        (x + 1) * n + y + 1 < n * n,
        x * n + y + 1 < (x + 1) * n + y + 1,
        x * (n - 1) + y < (n - 1) * (n - 1),
{
    assert(0 <= x * n) by (nonlinear_arith)
        requires
            0 <= x,
            n >= 2,
    ;
    assert((x + 1) * n <= (n - 1) * n) by (nonlinear_arith)
        requires
            x + 1 <= n - 1,
            n >= 2,
    ;
    assert((n - 1) * n + (n - 1) < n * n) by (nonlinear_arith)
        requires
            n >= 2,
    ;
    assert(x * n + n == (x + 1) * n) by (nonlinear_arith);
    assert(x * (n - 1) + (n - 1) <= (n - 1) * (n - 1)) by (nonlinear_arith)
        requires
            0 <= x < n - 1,
    ;
}

/// Whether vertex `i` of the cube lies on the positive side along `axis`.
pub open spec fn cube_side(i: int, axis: int) -> bool {
    if axis == 0 {
        i % 4 == 1 || i % 4 == 2
    } else if axis == 1 {
        i % 4 >= 2
    } else {
        i >= 4
    }
}

/// Position of vertex `i` of the cube of side 1 around the origin.
pub open spec fn cube_position(i: int) -> Seq<u32> {
    Seq::new(3, |axis: int| if cube_side(i, axis) { HALF } else { MINUS_HALF })
}

/// Normal at vertex `i` of the cube: along the diagonal through the vertex.
pub open spec fn cube_normal(i: int) -> Seq<u32> {
    Seq::new(3, |axis: int| if cube_side(i, axis) { CORNER } else { MINUS_CORNER })
}

/// Texture coordinates of vertex `i` of the cube.
pub open spec fn cube_uv(i: int) -> Seq<u32> {
    Seq::new(2, |axis: int| if cube_side(i, axis) { ONE } else { ZERO })
}

/// Colours of the vertices of the cube.
pub open spec fn cube_colors() -> Seq<Seq<u32>> {
    seq![
        seq![ONE, ZERO, ZERO],
        seq![ZERO, ONE, ZERO],
        seq![ZERO, ZERO, ONE],
        seq![ONE, ONE, ZERO],
        seq![ONE, ZERO, ONE],
        seq![ZERO, ONE, ONE],
        seq![ONE, ONE, ONE],
        seq![ZERO, ZERO, ZERO],
    ]
}

/// The twelve triangles of the cube: front, right, back, left, top, bottom.
pub open spec fn cube_indices() -> Seq<u32> {
    seq![
        0, 1, 2, 0, 2, 3,
        1, 5, 6, 1, 6, 2,
        5, 4, 7, 5, 7, 6,
        4, 0, 3, 4, 3, 7,
        3, 2, 6, 3, 6, 7,
        4, 5, 1, 4, 1, 0,
    ]
}

/// The twenty triangles of the icosahedron over its twelve vertices.
pub open spec fn icosahedron_indices() -> Seq<u32> {
    seq![
        0, 11, 5, 0, 5, 1, 0, 1, 7, 0, 7, 10, 0, 10, 11,
        1, 5, 9, 5, 11, 4, 11, 10, 2, 10, 7, 6, 7, 1, 8,
        3, 9, 4, 3, 4, 2, 3, 2, 6, 3, 6, 8, 3, 8, 9,
        4, 9, 5, 2, 4, 11, 6, 2, 10, 8, 6, 7, 9, 8, 1,
    ]
}

/// The `k`-th index after one subdivision of the triangles `indices` over
/// `nb_vertices` vertices. Triangle `t` with the corners `i0`, `i1`, `i2`
/// gets three new vertices, `i01`, `i12` and `i20`, numbered from
/// `nb_vertices + 3 t`, in the middle of its edges, and becomes four
/// triangles: one at each corner and one in the middle.
pub open spec fn subdivided_index(indices: Seq<u32>, nb_vertices: int, k: int) -> int {
    let t = k / 12;
    let c = k % 12;
    let i0 = indices[3 * t] as int;
    let i1 = indices[3 * t + 1] as int;
    let i2 = indices[3 * t + 2] as int;
    let i01 = nb_vertices + 3 * t;
    let i12 = i01 + 1;
    let i20 = i01 + 2;
    if c == 0 {
        i0
    } else if c == 3 {
        i1
    } else if c == 6 {
        i2
    } else if c == 1 || c == 5 || c == 9 {
        i01
    } else if c == 4 || c == 8 || c == 10 {
        i12
    } else {
        i20
    }
}

/// The triangles after one subdivision.
pub open spec fn subdivided(indices: Seq<u32>, nb_vertices: int) -> Seq<u32> {
    Seq::new(4 * indices.len(), |k: int| subdivided_index(indices, nb_vertices, k) as u32)
}

/// The two ends of the edge whose middle is the `j`-th new vertex of one
/// subdivision of the triangles `indices`.
pub open spec fn edge_of(indices: Seq<u32>, j: int) -> (u32, u32) {
    let t = j / 3;
    let e = j % 3;
    if e == 0 {
        (indices[3 * t], indices[3 * t + 1])
    } else if e == 1 {
        (indices[3 * t + 1], indices[3 * t + 2])
    } else {
        (indices[3 * t + 2], indices[3 * t])
    }
}

/// The edges whose middles are the new vertices of one subdivision.
pub open spec fn edges_of(indices: Seq<u32>) -> Seq<(u32, u32)> {
    Seq::new(indices.len(), |j: int| edge_of(indices, j))
}

/// The triangles of the icosahedron subdivided `n` times.
pub open spec fn ico_indices(n: nat) -> Seq<u32>
    decreases n,
{
    if n == 0 {
        icosahedron_indices()
    } else {
        subdivided(ico_indices((n - 1) as nat), ico_vertices((n - 1) as nat) as int)
    }
}

/// The number of vertices of the icosahedron subdivided `n` times: each
/// subdivision adds three for each triangle.
pub open spec fn ico_vertices(n: nat) -> nat
    decreases n,
{
    if n == 0 {
        12
    } else {
        ico_vertices((n - 1) as nat) + ico_indices((n - 1) as nat).len()
    }
}

/// The edges whose middles are the vertices from the twelfth on of the
/// icosahedron subdivided `n` times, in the order of the vertices.
pub open spec fn ico_edges(n: nat) -> Seq<(u32, u32)>
    decreases n,
{
    if n == 0 {
        Seq::empty()
    } else {
        ico_edges((n - 1) as nat) + edges_of(ico_indices((n - 1) as nat))
    }
}

/// More subdivisions never give fewer vertices.
pub proof fn lemma_ico_vertices_grow(a: nat, b: nat)
    requires
        a <= b,
    ensures
        ico_vertices(a) <= ico_vertices(b),
    decreases b,
{
    if a < b {
        lemma_ico_vertices_grow(a, (b - 1) as nat);
    }
}

/// An icosphere without its positions: the triangles, and for each vertex
/// from the twelfth on the two earlier vertices between which it lies. The
/// host places vertex `12 + j` in the middle of the edge `midpoints[j]`,
/// pushed out to the unit sphere.
pub struct IcoTopology {
    pub indices: Vec<u32>,
    pub midpoints: Vec<(u32, u32)>,
}

impl IcoTopology {
    /// Number of vertices.
    pub open spec fn nb_vertices(&self) -> nat {
        12 + self.midpoints@.len()
    }

    /// Every triangle joins three vertices of the sphere, and every vertex
    /// from the twelfth on lies between two vertices that come before it.
    pub open spec fn well_formed(&self) -> bool {
        &&& self.indices@.len() % 3 == 0
        &&& forall|k: int|
            0 <= k < self.indices@.len() ==> (#[trigger] self.indices@[k]) < self.nb_vertices()
        &&& forall|j: int|
            0 <= j < self.midpoints@.len() ==> (#[trigger] self.midpoints@[j]).0 < 12 + j
                && self.midpoints@[j].1 < 12 + j
    }
}

impl PrimitiveMesh {
    /// The icosahedron subdivided `nb_subdivisions` times, without its
    /// positions. `None` if it has more vertices than 32-bit indices can
    /// address.
    pub fn ico_sphere_topology(nb_subdivisions: u32) -> (topology: Option<IcoTopology>)
        ensures
            topology is Some <==> ico_vertices(nb_subdivisions as nat) <= u32::MAX,
            topology matches Some(t) ==> {
                &&& t.indices@ == ico_indices(nb_subdivisions as nat)
                &&& t.midpoints@ == ico_edges(nb_subdivisions as nat)
                &&& t.nb_vertices() == ico_vertices(nb_subdivisions as nat)
                &&& t.well_formed()
            },
    {
        let mut indices: Vec<u32> = vec![
            0, 11, 5, 0, 5, 1, 0, 1, 7, 0, 7, 10, 0, 10, 11,
            1, 5, 9, 5, 11, 4, 11, 10, 2, 10, 7, 6, 7, 1, 8,
            3, 9, 4, 3, 4, 2, 3, 2, 6, 3, 6, 8, 3, 8, 9,
            4, 9, 5, 2, 4, 11, 6, 2, 10, 8, 6, 7, 9, 8, 1,
        ];
        assert(indices@ =~= icosahedron_indices());
        let mut midpoints: Vec<(u32, u32)> = Vec::new();
        let mut nb_vertices: u32 = 12;
        let mut level: u32 = 0;
        while level < nb_subdivisions
            invariant
                level <= nb_subdivisions,
                indices@ == ico_indices(level as nat),
                midpoints@ == ico_edges(level as nat),
                nb_vertices == ico_vertices(level as nat),
                nb_vertices == 12 + midpoints@.len(),
                indices@.len() % 3 == 0,
                forall|k: int| 0 <= k < indices@.len() ==> (#[trigger] indices@[k]) < nb_vertices,
                forall|j: int|
                    0 <= j < midpoints@.len() ==> (#[trigger] midpoints@[j]).0 < 12 + j
                        && midpoints@[j].1 < 12 + j,
            decreases nb_subdivisions - level,
        {
            if indices.len() > (u32::MAX - nb_vertices) as usize {
                proof {
                    lemma_ico_vertices_grow((level + 1) as nat, nb_subdivisions as nat);
                }
                return None;
            }
            let nb_triangles: usize = indices.len() / 3;
            let ghost earlier = midpoints@;
            let mut new_indices: Vec<u32> = Vec::new();
            let mut t: usize = 0;
            while t < nb_triangles
                invariant
                    t <= nb_triangles,
                    nb_triangles * 3 == indices@.len(),
                    indices@.len() + nb_vertices <= u32::MAX,
                    nb_vertices == 12 + earlier.len(),
                    forall|k: int| 0 <= k < indices@.len() ==> (#[trigger] indices@[k]) < nb_vertices,
                    new_indices@.len() == 12 * t,
                    forall|k: int|
                        0 <= k < new_indices@.len() ==> (#[trigger] new_indices@[k])
                            == subdivided_index(indices@, nb_vertices as int, k),
                    forall|k: int|
                        0 <= k < new_indices@.len() ==> (#[trigger] new_indices@[k]) < nb_vertices
                            + 3 * t,
                    midpoints@.len() == earlier.len() + 3 * t,
                    forall|j: int| 0 <= j < earlier.len() ==> #[trigger] midpoints@[j] == earlier[j],
                    forall|j: int|
                        0 <= j < 3 * t ==> #[trigger] midpoints@[earlier.len() + j] == edge_of(
                            indices@,
                            j,
                        ),
                    forall|j: int|
                        0 <= j < midpoints@.len() ==> (#[trigger] midpoints@[j]).0 < 12 + j
                            && midpoints@[j].1 < 12 + j,
                decreases nb_triangles - t,
            {
                let i0: u32 = indices[3 * t];
                let i1: u32 = indices[3 * t + 1];
                let i2: u32 = indices[3 * t + 2];
                let i01: u32 = nb_vertices + (3 * t) as u32;
                let i12: u32 = i01 + 1;
                let i20: u32 = i12 + 1;
                let ghost indices_before = new_indices@;
                let ghost midpoints_before = midpoints@;

                midpoints.push((i0, i1));
                midpoints.push((i1, i2));
                midpoints.push((i2, i0));

                new_indices.push(i0);
                new_indices.push(i01);
                new_indices.push(i20);

                new_indices.push(i1);
                new_indices.push(i12);
                new_indices.push(i01);

                new_indices.push(i2);
                new_indices.push(i20);
                new_indices.push(i12);

                new_indices.push(i01);
                new_indices.push(i12);
                new_indices.push(i20);

                proof {
                    assert forall|k: int| 0 <= k < new_indices@.len() implies (
                    #[trigger] new_indices@[k]) == subdivided_index(
                        indices@,
                        nb_vertices as int,
                        k,
                    ) && new_indices@[k] < nb_vertices + 3 * (t + 1) by {
                        if k >= indices_before.len() {
                            assert(k / 12 == t as int && k % 12 == k - 12 * t);
                        } else {
                            assert(new_indices@[k] == indices_before[k]);
                        }
                    }
                    assert forall|j: int| 0 <= j < 3 * (t + 1) implies #[trigger] midpoints@[earlier.len()
                        + j] == edge_of(indices@, j) by {
                        if j >= 3 * t {
                            assert(j / 3 == t as int && j % 3 == j - 3 * t);
                        } else {
                            assert(midpoints@[earlier.len() + j] == midpoints_before[earlier.len()
                                + j]);
                        }
                    }
                    assert forall|j: int| 0 <= j < midpoints@.len() implies (
                    #[trigger] midpoints@[j]).0 < 12 + j && midpoints@[j].1 < 12 + j by {
                        if j < midpoints_before.len() {
                            assert(midpoints@[j] == midpoints_before[j]);
                        }
                    }
                    assert forall|j: int| 0 <= j < earlier.len() implies #[trigger] midpoints@[j]
                        == earlier[j] by {
                        assert(midpoints@[j] == midpoints_before[j]);
                    }
                }
                t += 1;
            }
            proof {
                assert(new_indices@ =~= subdivided(indices@, nb_vertices as int));
                let joined = earlier + edges_of(indices@);
                assert(midpoints@.len() == joined.len());
                assert forall|j: int| 0 <= j < joined.len() implies midpoints@[j] == joined[j] by {
                    if j >= earlier.len() {
                        let inner = j - earlier.len();
                        assert(midpoints@[earlier.len() + inner] == edge_of(indices@, inner));
                    }
                }
                assert(midpoints@ =~= joined);
            }
            nb_vertices = nb_vertices + indices.len() as u32;
            indices = new_indices;
            level += 1;
        }
        Some(IcoTopology { indices, midpoints })
    }

    /// The vertex data of the cube of side 1 around the origin, but for its
    /// tangents, which are zero and which the host computes from the
    /// positions and texture coordinates.
    pub fn cube_data() -> (data: VertexData)
        ensures
            data.complete(),
            data.indexed(),
            data.positions@.len() == 8,
            data.indices@ == cube_indices(),
            forall|i: int|
                0 <= i < 8 ==> {
                    &&& (#[trigger] data.positions@[i])@ == cube_position(i)
                    &&& data.normals@[i]@ == cube_normal(i)
                    &&& data.uvs@[i]@ == cube_uv(i)
                    &&& data.colors@[i]@ == cube_colors()[i]
                    &&& data.tangents@[i]@ == seq![ZERO, ZERO, ZERO]
                },
    {
        let positions: Vec<[u32; 3]> = vec![
            [MINUS_HALF, MINUS_HALF, MINUS_HALF],
            [HALF, MINUS_HALF, MINUS_HALF],
            [HALF, HALF, MINUS_HALF],
            [MINUS_HALF, HALF, MINUS_HALF],
            [MINUS_HALF, MINUS_HALF, HALF],
            [HALF, MINUS_HALF, HALF],
            [HALF, HALF, HALF],
            [MINUS_HALF, HALF, HALF],
        ];
        let normals: Vec<[u32; 3]> = vec![
            [MINUS_CORNER, MINUS_CORNER, MINUS_CORNER],
            [CORNER, MINUS_CORNER, MINUS_CORNER],
            [CORNER, CORNER, MINUS_CORNER],
            [MINUS_CORNER, CORNER, MINUS_CORNER],
            [MINUS_CORNER, MINUS_CORNER, CORNER],
            [CORNER, MINUS_CORNER, CORNER],
            [CORNER, CORNER, CORNER],
            [MINUS_CORNER, CORNER, CORNER],
        ];
        let indices: Vec<u32> = vec![
            0, 1, 2, 0, 2, 3,
            1, 5, 6, 1, 6, 2,
            5, 4, 7, 5, 7, 6,
            4, 0, 3, 4, 3, 7,
            3, 2, 6, 3, 6, 7,
            4, 5, 1, 4, 1, 0,
        ];
        let uvs: Vec<[u32; 2]> = vec![
            [ZERO, ZERO],
            [ONE, ZERO],
            [ONE, ONE],
            [ZERO, ONE],
            [ZERO, ZERO],
            [ONE, ZERO],
            [ONE, ONE],
            [ZERO, ONE],
        ];
        let colors: Vec<[u32; 3]> = vec![
            [ONE, ZERO, ZERO],
            [ZERO, ONE, ZERO],
            [ZERO, ZERO, ONE],
            [ONE, ONE, ZERO],
            [ONE, ZERO, ONE],
            [ZERO, ONE, ONE],
            [ONE, ONE, ONE],
            [ZERO, ZERO, ZERO],
        ];
        let tangents: Vec<[u32; 3]> = vec![
            [ZERO, ZERO, ZERO],
            [ZERO, ZERO, ZERO],
            [ZERO, ZERO, ZERO],
            [ZERO, ZERO, ZERO],
            [ZERO, ZERO, ZERO],
            [ZERO, ZERO, ZERO],
            [ZERO, ZERO, ZERO],
            [ZERO, ZERO, ZERO],
        ];
        proof {
            assert(indices@ =~= cube_indices());
            assert forall|i: int| 0 <= i < 8 implies {
                &&& (#[trigger] positions@[i])@ == cube_position(i)
                &&& normals@[i]@ == cube_normal(i)
                &&& uvs@[i]@ == cube_uv(i)
                &&& colors@[i]@ == cube_colors()[i]
                &&& tangents@[i]@ == seq![ZERO, ZERO, ZERO]
            } by {
                assert(positions@[i]@ =~= cube_position(i));
                assert(normals@[i]@ =~= cube_normal(i));
                assert(uvs@[i]@ =~= cube_uv(i));
                assert(colors@[i]@ =~= cube_colors()[i]);
                assert(tangents@[i]@ =~= seq![ZERO, ZERO, ZERO]);
            }
        }
        VertexData { positions, colors, normals, tangents, indices, uvs }
    }

    /// The triangles of a square grid with `nb_subdivisions` vertices a
    /// side: two for each cell, cell after cell along each row.
    pub fn grid_indices(nb_subdivisions: u32) -> (indices: Vec<u32>)
        requires
            nb_subdivisions >= 1,
            grid_len(nb_subdivisions as int) <= u32::MAX,
        ensures
            indices@.len() == grid_len(nb_subdivisions as int),
            forall|k: int|
                0 <= k < indices@.len() ==> (#[trigger] indices@[k]) == grid_index(
                    nb_subdivisions as int,
                    k,
                ),
            forall|k: int|
                0 <= k < indices@.len() ==> (#[trigger] indices@[k]) < nb_subdivisions
                    * nb_subdivisions,
    {
        let n: u32 = nb_subdivisions;
        let m: u32 = n - 1;
        let mut indices: Vec<u32> = Vec::new();
        let mut x: u32 = 0;
        while x < m
            invariant
                n == nb_subdivisions,
                m == n - 1,
                n >= 1,
                grid_len(n as int) <= u32::MAX,
                x <= m,
                indices@.len() == 6 * (x * m),
                forall|k: int|
                    0 <= k < indices@.len() ==> (#[trigger] indices@[k]) == grid_index(n as int, k),
                forall|k: int| 0 <= k < indices@.len() ==> (#[trigger] indices@[k]) < n * n,
            decreases m - x,
        {
            let mut y: u32 = 0;
            while y < m
                invariant
                    n == nb_subdivisions,
                    m == n - 1,
                    n >= 2,
                    grid_len(n as int) <= u32::MAX,
                    x < m,
                    y <= m,
                    indices@.len() == 6 * (x * m + y),
                    forall|k: int|
                        0 <= k < indices@.len() ==> (#[trigger] indices@[k]) == grid_index(
                            n as int,
                            k,
                        ),
                    forall|k: int| 0 <= k < indices@.len() ==> (#[trigger] indices@[k]) < n * n,
                decreases m - y,
            {
                proof {
                    lemma_cell_bounds(n as int, x as int, y as int);
                    assert(n * n <= u32::MAX) by (nonlinear_arith)
                        requires
                            6 * ((n - 1) * (n - 1)) <= u32::MAX,
                            n >= 2,
                    ;
                }
                let ghost before = indices@;
                let low: u32 = x * n + y;
                let high: u32 = (x + 1) * n + y;
                indices.push(high);
                indices.push(low);
                indices.push(low + 1);
                indices.push(high);
                indices.push(low + 1);
                indices.push(high + 1);
                proof {
                    let cell = cell_indices(n as int, x as int, y as int);
                    assert forall|k: int| 0 <= k < indices@.len() implies (#[trigger] indices@[k])
                        == grid_index(n as int, k) && indices@[k] < n * n by {
                        if k >= before.len() {
                            let c = k - before.len();
                            lemma_cell_position(m as int, x as int, y as int, c);
                            assert(indices@[k] == cell[c]);
                        } else {
                            assert(indices@[k] == before[k]);
                        }
                    }
                    assert(6 * (x * m + y) + 6 == 6 * (x * m + (y + 1))) by (nonlinear_arith);
                }
                y += 1;
            }
            proof {
                assert(x * m + m == (x + 1) * m) by (nonlinear_arith);
            }
            x += 1;
        }
        indices
    }

    /// The vertex data of a flat grid in the plane `y = 0`, from the
    /// positions and texture coordinates of its vertices, row by row: the
    /// normals point up, the tangents along `x`, the colour is white.
    /// `None` if there is not one position and one texture coordinate for
    /// each of the `nb_subdivisions`² vertices.
    pub fn plane_data(nb_subdivisions: u32, positions: Vec<[u32; 3]>, uvs: Vec<[u32; 2]>) -> (data:
        Option<VertexData>)
        requires
            nb_subdivisions >= 1,
            grid_len(nb_subdivisions as int) <= u32::MAX,
        ensures
            data is Some <==> positions@.len() == nb_subdivisions * nb_subdivisions && uvs@.len()
                == nb_subdivisions * nb_subdivisions,
            data matches Some(d) ==> {
                &&& d.positions == positions
                &&& d.uvs == uvs
                &&& d.complete()
                &&& d.indexed()
                &&& d.indices@.len() == grid_len(nb_subdivisions as int)
                &&& forall|k: int|
                    0 <= k < d.indices@.len() ==> (#[trigger] d.indices@[k]) == grid_index(
                        nb_subdivisions as int,
                        k,
                    )
                &&& forall|i: int|
                    0 <= i < d.normals@.len() ==> (#[trigger] d.normals@[i])@ == seq![ZERO, ONE, ZERO]
                &&& forall|i: int|
                    0 <= i < d.tangents@.len() ==> (#[trigger] d.tangents@[i])@ == seq![
                        ONE,
                        ZERO,
                        ZERO,
                    ]
                &&& forall|i: int|
                    0 <= i < d.colors@.len() ==> (#[trigger] d.colors@[i])@ == seq![ONE, ONE, ONE]
            },
    {
        proof {
            assert(nb_subdivisions * nb_subdivisions <= u32::MAX) by (nonlinear_arith)
                requires
                    6 * ((nb_subdivisions - 1) * (nb_subdivisions - 1)) <= u32::MAX,
                    nb_subdivisions >= 1,
            ;
        }
        let nb_vertices: usize = (nb_subdivisions * nb_subdivisions) as usize;
        if positions.len() != nb_vertices || uvs.len() != nb_vertices {
            return None;
        }
        let indices = Self::grid_indices(nb_subdivisions);
        let mut normals: Vec<[u32; 3]> = Vec::new();
        let mut tangents: Vec<[u32; 3]> = Vec::new();
        let mut colors: Vec<[u32; 3]> = Vec::new();
        let mut i: usize = 0;
        while i < nb_vertices
            invariant
                i <= nb_vertices,
                normals@.len() == i,
                tangents@.len() == i,
                colors@.len() == i,
                forall|k: int| 0 <= k < i ==> (#[trigger] normals@[k])@ == seq![ZERO, ONE, ZERO],
                forall|k: int| 0 <= k < i ==> (#[trigger] tangents@[k])@ == seq![ONE, ZERO, ZERO],
                forall|k: int| 0 <= k < i ==> (#[trigger] colors@[k])@ == seq![ONE, ONE, ONE],
            decreases nb_vertices - i,
        {
            let normal: [u32; 3] = [ZERO, ONE, ZERO];
            let tangent: [u32; 3] = [ONE, ZERO, ZERO];
            let color: [u32; 3] = [ONE, ONE, ONE];
            assert(normal@ =~= seq![ZERO, ONE, ZERO]);
            assert(tangent@ =~= seq![ONE, ZERO, ZERO]);
            assert(color@ =~= seq![ONE, ONE, ONE]);
            normals.push(normal);
            tangents.push(tangent);
            colors.push(color);
            i += 1;
        }
        Some(VertexData { positions, colors, normals, tangents, indices, uvs })
    }

    /// A flat grid as a mesh on a new root transform, with the default
    /// material. `None`, and nothing added to `transforms`, if there is not
    /// one position and one texture coordinate for each vertex.
    pub fn plane(
        name: &str,
        nb_subdivisions: u32,
        positions: Vec<[u32; 3]>,
        uvs: Vec<[u32; 2]>,
        transforms: &mut TransformGraph,
        empty_texture: Texture,
    ) -> (mesh: Option<Mesh>)
        requires
            nb_subdivisions >= 1,
            grid_len(nb_subdivisions as int) <= u32::MAX,
            old(transforms).well_formed(),
        ensures
            final(transforms).well_formed(),
            mesh is Some <==> positions@.len() == nb_subdivisions * nb_subdivisions && uvs@.len()
                == nb_subdivisions * nb_subdivisions,
            mesh is None ==> *final(transforms) == *old(transforms),
            mesh matches Some(m) ==> {
                &&& m.name@ == name@
                &&& m.transform == old(transforms).len()
                &&& final(transforms).len() == old(transforms).len() + 1
                &&& final(transforms).node(m.transform as int).identity()
                &&& final(transforms).parent_of(m.transform as int) is None
                &&& m.vertex_data.positions == positions
                &&& m.vertex_data.uvs == uvs
                &&& m.vertex_data.complete()
                &&& m.vertex_data.indexed()
                &&& m.vertex_data.indices@.len() == grid_len(nb_subdivisions as int)
                &&& forall|k: int|
                    0 <= k < m.vertex_data.indices@.len() ==> (#[trigger] m.vertex_data.indices@[k])
                        == grid_index(nb_subdivisions as int, k)
                &&& forall|i: int|
                    0 <= i < old(transforms).len() ==> #[trigger] final(transforms).node(i) == old(transforms).node(i)
                &&& forall|i: int|
                    0 <= i < old(transforms).len() ==> #[trigger] final(transforms).parent_of(i)
                        == old(transforms).parent_of(i)
                &&& forall|i: int|
                    0 <= i < old(transforms).len() ==> #[trigger] final(transforms).ancestry(i)
                        == old(transforms).ancestry(i)
            },
    {
        match Self::plane_data(nb_subdivisions, positions, uvs) {
            Some(data) => Some(Mesh::from_vertex_data(name, data, transforms, empty_texture)),
            None => None,
        }
    }
}

} // verus!
