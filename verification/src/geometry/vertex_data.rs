use vstd::prelude::*;

verus! {

/// The attributes of the vertices of a mesh, one entry per vertex in each
/// list, and the indices of its triangles, three per triangle.
#[derive(Debug)]
pub struct VertexData {
    pub positions: Vec<[u32; 3]>,
    pub colors: Vec<[u32; 3]>,
    pub normals: Vec<[u32; 3]>,
    pub tangents: Vec<[u32; 3]>,
    pub indices: Vec<u32>,
    pub uvs: Vec<[u32; 2]>,
}

impl VertexData {
    /// Every vertex has each attribute.
    pub open spec fn complete(&self) -> bool {
        &&& self.colors@.len() == self.positions@.len()
        &&& self.normals@.len() == self.positions@.len()
        &&& self.tangents@.len() == self.positions@.len()
        &&& self.uvs@.len() == self.positions@.len()
    }

    /// Every index names a vertex.
    pub open spec fn indexed(&self) -> bool {
        forall|k: int| 0 <= k < self.indices@.len() ==> (#[trigger] self.indices@[k]) < self.positions@.len()
    }

    pub fn is_complete(&self) -> (b: bool)
        ensures
            b == self.complete(),
    {
        let n: usize = self.positions.len();
        self.colors.len() == n && self.normals.len() == n && self.tangents.len() == n
            && self.uvs.len() == n
    }

    pub fn is_indexed(&self) -> (b: bool)
        ensures
            b == self.indexed(),
    {
        let n: usize = self.positions.len();
        let mut k: usize = 0;
        while k < self.indices.len()
            invariant
                k <= self.indices@.len(),
                n == self.positions@.len(),
                forall|j: int| 0 <= j < k ==> (#[trigger] self.indices@[j]) < n,
            decreases self.indices@.len() - k,
        {
            if self.indices[k] as usize >= n {
                return false;
            }
            k += 1;
        }
        true
    }
}

impl Default for VertexData {
    fn default() -> (d: VertexData)
        ensures
            d.positions@.len() == 0,
            d.indices@.len() == 0,
            d.complete(),
            d.indexed(),
    {
        VertexData {
            positions: Vec::new(),
            colors: Vec::new(),
            normals: Vec::new(),
            tangents: Vec::new(),
            indices: Vec::new(),
            uvs: Vec::new(),
        }
    }
}

} // verus!
