//! Transform nodes and the parent-linked hierarchy that owns them.
//!
//! Scalars are carried as IEEE-754 single-precision bit patterns: this crate
//! stores and moves them, the host program does the arithmetic. A node's world
//! matrix is the product of the local matrices along its ancestry, taken from
//! the root down; [`TransformGraph::world_chain`] hands out that ancestry.

use crate::scalar::{push_words, Matrix, ONE, ZERO};
use vstd::prelude::*;

verus! {

/// Position, Euler rotation (radians) and scale of one node.
#[derive(Clone, Copy, Debug, PartialEq, Eq)]
pub struct Transform {
    pub position: [u32; 3],
    pub rotation: [u32; 3],
    pub scaling: [u32; 3],
}

impl Transform {
    /// The identity placement: at the origin, unrotated, with unit scale.
    pub open spec fn identity(self) -> bool {
        &&& self.position@ == seq![ZERO, ZERO, ZERO]
        &&& self.rotation@ == seq![ZERO, ZERO, ZERO]
        &&& self.scaling@ == seq![ONE, ONE, ONE]
    }

    pub fn new() -> (t: Transform)
        ensures
            t.identity(),
    {
        Transform {
            position: [ZERO, ZERO, ZERO],
            rotation: [ZERO, ZERO, ZERO],
            scaling: [ONE, ONE, ONE],
        }
    }

    pub fn set_position(&mut self, x: u32, y: u32, z: u32)
        ensures
            final(self).position@ == seq![x, y, z],
            final(self).rotation == old(self).rotation,
            final(self).scaling == old(self).scaling,
    {
        self.position = [x, y, z];
    }

    pub fn set_rotation(&mut self, x: u32, y: u32, z: u32)
        ensures
            final(self).rotation@ == seq![x, y, z],
            final(self).position == old(self).position,
            final(self).scaling == old(self).scaling,
    {
        self.rotation = [x, y, z];
    }

    pub fn set_scaling(&mut self, x: u32, y: u32, z: u32)
        ensures
            final(self).scaling@ == seq![x, y, z],
            final(self).position == old(self).position,
            final(self).rotation == old(self).rotation,
    {
        self.scaling = [x, y, z];
    }
}

impl Default for Transform {
    fn default() -> (t: Transform)
        ensures
            t.identity(),
    {
        Transform::new()
    }
}

/// GPU layout of a transform: its position padded to four words, its world
/// matrix and its normal matrix.
#[derive(Clone, Copy, Debug, PartialEq, Eq)]
pub struct TransformUniforms {
    pub position: [u32; 3],
    pub _padding: u32,
    pub world_matrix: Matrix,
    pub normal_matrix: Matrix,
}

impl TransformUniforms {
    /// Number of 32-bit words of the block.
    pub const WORDS: usize = 36;

    /// Copies the position of `transform` and the two matrices that the host
    /// computed for it; the padding stays.
    pub fn update(&mut self, transform: &Transform, world_matrix: &Matrix, normal_matrix: &Matrix)
        ensures
            final(self).position == transform.position,
            final(self).world_matrix == *world_matrix,
            final(self).normal_matrix == *normal_matrix,
            final(self)._padding == old(self)._padding,
    {
        self.position = transform.position;
        self.world_matrix = *world_matrix;
        self.normal_matrix = *normal_matrix;
    }

    /// The block word by word, in the order the shader reads it.
    pub open spec fn layout(self) -> Seq<u32> {
        self.position@ + seq![self._padding] + self.world_matrix@ + self.normal_matrix@
    }

    pub fn words(&self) -> (w: Vec<u32>)
        ensures
            w@ == self.layout(),
            w@.len() == Self::WORDS,
    {
        let mut w: Vec<u32> = Vec::new();
        push_words(&mut w, self.position.as_slice());
        w.push(self._padding);
        push_words(&mut w, self.world_matrix.as_slice());
        push_words(&mut w, self.normal_matrix.as_slice());
        assert(w@ =~= self.layout());
        w
    }
}

impl Default for TransformUniforms {
    fn default() -> (u: TransformUniforms)
        ensures
            u.layout() == Seq::new(36, |k: int| 0u32),
            u._padding == 0,
    {
        let u = TransformUniforms {
            position: [0, 0, 0],
            _padding: 0,
            world_matrix: [0;16],
            normal_matrix: [0;16],
        };
        assert(u.layout() =~= Seq::new(36, |k: int| 0u32));
        u
    }
}

/// Why a parent link was refused.
#[derive(Clone, Copy, Debug, PartialEq, Eq, Structural)]
pub enum HierarchyError {
    /// The child or the parent is not a node of the graph.
    UnknownTransform,
    /// The child is the parent itself or one of its ancestors.
    Cycle,
}

/// Ancestry of `id` in a forest given by `parents`: the node itself, then its
/// parent, and so on up to its root. `rank` strictly decreases toward the root.
pub open spec fn ancestry_of(parents: Seq<Option<usize>>, rank: Seq<nat>, id: int) -> Seq<usize>
    decreases rank[id],
    when forest(parents, rank) && 0 <= id < parents.len()
{
    match parents[id] {
        Some(p) => seq![id as usize] + ancestry_of(parents, rank, p as int),
        None => seq![id as usize],
    }
}

/// `parents` links every node to a node of strictly smaller rank, so following
/// the links always ends at a root.
pub open spec fn forest(parents: Seq<Option<usize>>, rank: Seq<nat>) -> bool {
    &&& rank.len() == parents.len()
    &&& forall|i: int|
        0 <= i < parents.len() ==> match #[trigger] parents[i] {
            Some(p) => p < parents.len() && rank[p as int] < rank[i],
            None => true,
        }
}

/// Ancestries only depend on the links they follow: two forests that agree on
/// the parent of every node but `except` give the same ancestry to each node
/// that does not have `except` among its ancestors.
pub proof fn lemma_ancestry_local(
    parents: Seq<Option<usize>>,
    rank: Seq<nat>,
    parents2: Seq<Option<usize>>,
    rank2: Seq<nat>,
    except: Option<usize>,
    id: int,
)
    requires
        forest(parents, rank),
        forest(parents2, rank2),
        parents.len() <= parents2.len(),
        0 <= id < parents.len(),
        forall|j: int|
            0 <= j < parents.len() && except != Some(j as usize) ==> parents2[j] == parents[j],
        except matches Some(c) ==> !ancestry_of(parents, rank, id).contains(c),
    ensures
        ancestry_of(parents2, rank2, id) == ancestry_of(parents, rank, id),
    decreases rank[id],
{
    let here = seq![id as usize];
    assert(here[0] == id as usize);
    match parents[id] {
        Some(p) => {
            let rest = ancestry_of(parents, rank, p as int);
            assert(ancestry_of(parents, rank, id) == here + rest);
            assert((here + rest)[0] == id as usize);
            assert(except != Some(id as usize));
            assert(parents2[id] == parents[id]);
            if let Some(c) = except {
                if rest.contains(c) {
                    let k = choose|k: int| 0 <= k < rest.len() && rest[k] == c;
                    assert((here + rest)[k + 1] == c);
                }
            }
            lemma_ancestry_local(parents, rank, parents2, rank2, except, p as int);
        },
        None => {
            assert(ancestry_of(parents, rank, id) == here);
            assert(except != Some(id as usize));
            assert(parents2[id] == parents[id]);
        },
    }
}

/// Every node of an ancestry is a node of the forest, and the ancestry starts
/// at the node it was asked for.
pub proof fn lemma_ancestry_in_range(parents: Seq<Option<usize>>, rank: Seq<nat>, id: int)
    requires
        forest(parents, rank),
        0 <= id < parents.len(),
    ensures
        ancestry_of(parents, rank, id).len() >= 1,
        ancestry_of(parents, rank, id)[0] == id as usize,
        forall|k: int|
            0 <= k < ancestry_of(parents, rank, id).len() ==> (#[trigger] ancestry_of(
                parents,
                rank,
                id,
            )[k]) < parents.len(),
    decreases rank[id],
{
    match parents[id] {
        Some(p) => {
            lemma_ancestry_in_range(parents, rank, p as int);
            let rest = ancestry_of(parents, rank, p as int);
            assert(ancestry_of(parents, rank, id) == seq![id as usize] + rest);
            assert forall|k: int| 0 <= k < ancestry_of(parents, rank, id).len() implies (
            #[trigger] ancestry_of(parents, rank, id)[k]) < parents.len() by {
                if k > 0 {
                    assert(ancestry_of(parents, rank, id)[k] == rest[k - 1]);
                }
            }
        },
        None => {},
    }
}

/// An arena of transforms addressed by stable indices, each with an optional
/// parent. The parent links always form a forest.
pub struct TransformGraph {
    nodes: Vec<Transform>,
    parents: Vec<Option<usize>>,
    rank: Ghost<Seq<nat>>,
}

impl TransformGraph {
    /// Number of nodes.
    pub closed spec fn len(&self) -> nat {
        self.nodes@.len()
    }

    /// The transform stored at `id`.
    pub closed spec fn node(&self, id: int) -> Transform {
        self.nodes@[id]
    }

    /// The parent link of `id`.
    pub closed spec fn parent_of(&self, id: int) -> Option<usize> {
        self.parents@[id]
    }

    /// The parent links form a forest over the stored nodes.
    pub closed spec fn well_formed(&self) -> bool {
        &&& self.parents@.len() == self.nodes@.len()
        &&& forest(self.parents@, self.rank@)
    }

    /// The node `id`, then its parent, and so on up to its root.
    pub closed spec fn ancestry(&self, id: int) -> Seq<usize> {
        ancestry_of(self.parents@, self.rank@, id)
    }

    /// An ancestry is the node followed by the ancestry of its parent, if it
    /// has one.
    pub proof fn lemma_ancestry_unfold(&self, id: int)
        requires
            self.well_formed(),
            0 <= id < self.len(),
        ensures
            self.parent_of(id) matches Some(p) ==> p < self.len() && self.ancestry(id) == seq![
                id as usize,
            ] + self.ancestry(p as int),
            self.parent_of(id) is None ==> self.ancestry(id) == seq![id as usize],
    {
    }

    /// An ancestry starts at its node and stays inside the graph.
    pub proof fn lemma_ancestry_bounds(&self, id: int)
        requires
            self.well_formed(),
            0 <= id < self.len(),
        ensures
            self.ancestry(id).len() >= 1,
            self.ancestry(id)[0] == id as usize,
            forall|k: int|
                0 <= k < self.ancestry(id).len() ==> (#[trigger] self.ancestry(id)[k]) < self.len(),
    {
        lemma_ancestry_in_range(self.parents@, self.rank@, id);
    }

    pub fn new() -> (g: TransformGraph)
        ensures
            g.well_formed(),
            g.len() == 0,
    {
        TransformGraph { nodes: Vec::new(), parents: Vec::new(), rank: Ghost(Seq::empty()) }
    }

    /// Number of nodes.
    pub fn nb_transforms(&self) -> (n: usize)
        ensures
            n == self.len(),
    {
        self.nodes.len()
    }

    /// Stores `transform` as a new root and returns its index. Existing nodes
    /// keep their index, their transform, their parent and their ancestry.
    pub fn add(&mut self, transform: Transform) -> (id: usize)
        requires
            old(self).well_formed(),
        ensures
            final(self).well_formed(),
            id == old(self).len(),
            final(self).len() == old(self).len() + 1,
            final(self).node(id as int) == transform,
            final(self).parent_of(id as int) is None,
            final(self).ancestry(id as int) == seq![id],
            forall|i: int|
                0 <= i < old(self).len() ==> #[trigger] final(self).node(i) == old(self).node(i),
            forall|i: int|
                0 <= i < old(self).len() ==> #[trigger] final(self).parent_of(i) == old(self).parent_of(i),
            forall|i: int|
                0 <= i < old(self).len() ==> #[trigger] final(self).ancestry(i) == old(self).ancestry(i),
    {
        let id: usize = self.nodes.len();
        self.nodes.push(transform);
        self.parents.push(None);
        proof {
            self.rank@ = self.rank@.push(0);
            assert(forest(self.parents@, self.rank@));
            assert forall|i: int| 0 <= i < old(self).len() implies #[trigger] self.ancestry(i)
                == old(self).ancestry(i) by {
                lemma_ancestry_local(
                    old(self).parents@,
                    old(self).rank@,
                    self.parents@,
                    self.rank@,
                    None,
                    i,
                );
            }
        }
        id
    }

    /// The parent of `id`, if `id` is a node and has one.
    pub fn parent(&self, id: usize) -> (p: Option<usize>)
        requires
            self.well_formed(),
        ensures
            p == if id < self.len() {
                self.parent_of(id as int)
            } else {
                None
            },
    {
        if id < self.parents.len() {
            self.parents[id]
        } else {
            None
        }
    }

    pub fn transform(&self, id: usize) -> (t: &Transform)
        requires
            self.well_formed(),
            id < self.len(),
        ensures
            *t == self.node(id as int),
    {
        &self.nodes[id]
    }

    /// Mutable access to the transform at `id`; the hierarchy is untouched.
    pub fn transform_mut(&mut self, id: usize) -> (t: &mut Transform)
        requires
            old(self).well_formed(),
            id < old(self).len(),
        ensures
            *t == old(self).node(id as int),
            final(self).well_formed(),
            final(self).len() == old(self).len(),
            final(self).node(id as int) == *final(t),
            forall|i: int|
                0 <= i < old(self).len() && i != id ==> #[trigger] final(self).node(i) == old(self).node(i),
            forall|i: int|
                0 <= i < old(self).len() ==> #[trigger] final(self).parent_of(i) == old(self).parent_of(i),
            forall|i: int|
                0 <= i < old(self).len() ==> #[trigger] final(self).ancestry(i) == old(self).ancestry(i),
    {
        &mut self.nodes[id]
    }

    /// Whether `ancestor` is `id` itself or lies above it in the hierarchy.
    pub fn is_ancestor(&self, ancestor: usize, id: usize) -> (found: bool)
        requires
            self.well_formed(),
            id < self.len(),
        ensures
            found == self.ancestry(id as int).contains(ancestor),
    {
        let mut cur: usize = id;
        let mut found: bool = false;
        loop
            invariant_except_break
                self.well_formed(),
                cur < self.len(),
                self.ancestry(id as int).contains(ancestor) == self.ancestry(cur as int).contains(
                    ancestor,
                ),
            ensures
                found == self.ancestry(id as int).contains(ancestor),
            decreases self.rank@[cur as int],
        {
            let ghost here = seq![cur];
            assert(here[0] == cur);
            if cur == ancestor {
                proof {
                    lemma_ancestry_in_range(self.parents@, self.rank@, cur as int);
                }
                found = true;
                break ;
            }
            match self.parents[cur] {
                Some(p) => {
                    proof {
                        let rest = self.ancestry(p as int);
                        assert(self.ancestry(cur as int) == here + rest);
                        if rest.contains(ancestor) {
                            let k = choose|k: int| 0 <= k < rest.len() && rest[k] == ancestor;
                            assert((here + rest)[k + 1] == ancestor);
                        }
                        if (here + rest).contains(ancestor) {
                            let k = choose|k: int|
                                0 <= k < (here + rest).len() && (here + rest)[k] == ancestor;
                            assert(k > 0);
                            assert(rest[k - 1] == ancestor);
                        }
                    }
                    cur = p;
                },
                None => {
                    proof {
                        assert(self.ancestry(cur as int) == here);
                        if here.contains(ancestor) {
                            let k = choose|k: int| 0 <= k < here.len() && here[k] == ancestor;
                            assert(here[k] == cur);
                        }
                    }
                    found = false;
                    break ;
                },
            }
        }
        found
    }

    /// Links `child` under `parent`, or makes it a root when `parent` is
    /// `None`. A link that would close a cycle is refused and changes nothing.
    pub fn set_parent(&mut self, child: usize, parent: Option<usize>) -> (r: Result<
        (),
        HierarchyError,
    >)
        requires
            old(self).well_formed(),
        ensures
            final(self).well_formed(),
            final(self).len() == old(self).len(),
            forall|i: int|
                0 <= i < old(self).len() ==> #[trigger] final(self).node(i) == old(self).node(i),
            r == old(self).link_outcome(child, parent),
            r is Err ==> *final(self) == *old(self),
            r is Ok ==> final(self).parent_of(child as int) == parent,
            r is Ok ==> forall|i: int|
                0 <= i < old(self).len() && i != child ==> #[trigger] final(self).parent_of(i)
                    == old(self).parent_of(i),
            r is Ok ==> final(self).ancestry(child as int) == match parent {
                Some(p) => seq![child] + old(self).ancestry(p as int),
                None => seq![child],
            },
            r is Ok ==> forall|i: int|
                0 <= i < old(self).len() && !old(self).ancestry(i).contains(child)
                    ==> #[trigger] final(self).ancestry(i) == old(self).ancestry(i),
    {
        if child >= self.nodes.len() {
            return Err(HierarchyError::UnknownTransform);
        }
        match parent {
            Some(p) => {
                if p >= self.nodes.len() {
                    return Err(HierarchyError::UnknownTransform);
                }
                if self.is_ancestor(child, p) {
                    return Err(HierarchyError::Cycle);
                }
                self.parents[child] = Some(p);
                proof {
                    let old_parents = old(self).parents@;
                    let old_rank = old(self).rank@;
                    let lift = old_rank[p as int] + 1;
                    let new_rank = Seq::new(
                        old_rank.len(),
                        |i: int|
                            if ancestry_of(old_parents, old_rank, i).contains(child) {
                                old_rank[i] + lift
                            } else {
                                old_rank[i]
                            },
                    );
                    self.rank@ = new_rank;
                    lemma_ancestry_in_range(old_parents, old_rank, child as int);
                    assert forall|i: int| 0 <= i < self.parents@.len() implies match #[trigger] self.parents@[i] {
                        Some(q) => q < self.parents@.len() && new_rank[q as int] < new_rank[i],
                        None => true,
                    } by {
                        if i != child {
                            if let Some(q) = old_parents[i] {
                                let here = seq![i as usize];
                                let rest = ancestry_of(old_parents, old_rank, q as int);
                                assert(ancestry_of(old_parents, old_rank, i) == here + rest);
                                lemma_ancestry_in_range(old_parents, old_rank, i);
                                if rest.contains(child) {
                                    let k = choose|k: int| 0 <= k < rest.len() && rest[k] == child;
                                    assert((here + rest)[k + 1] == child);
                                }
                                if (here + rest).contains(child) {
                                    let k = choose|k: int|
                                        0 <= k < (here + rest).len() && (here + rest)[k] == child;
                                    assert(k > 0);
                                    assert(rest[k - 1] == child);
                                }
                            }
                        }
                    }
                    assert(forest(self.parents@, self.rank@));
                    assert forall|i: int|
                        0 <= i < old(self).len() && !old(self).ancestry(i).contains(
                            child,
                        ) implies #[trigger] self.ancestry(i) == old(self).ancestry(i) by {
                        lemma_ancestry_local(
                            old_parents,
                            old_rank,
                            self.parents@,
                            self.rank@,
                            Some(child),
                            i,
                        );
                    }
                    assert(self.ancestry(p as int) == old(self).ancestry(p as int));
                }
                Ok(())
            },
            None => {
                self.parents[child] = None;
                proof {
                    let old_parents = old(self).parents@;
                    let old_rank = old(self).rank@;
                    assert(forest(self.parents@, self.rank@));
                    assert forall|i: int|
                        0 <= i < old(self).len() && !old(self).ancestry(i).contains(
                            child,
                        ) implies #[trigger] self.ancestry(i) == old(self).ancestry(i) by {
                        lemma_ancestry_local(
                            old_parents,
                            old_rank,
                            self.parents@,
                            self.rank@,
                            Some(child),
                            i,
                        );
                    }
                }
                Ok(())
            },
        }
    }

    /// What [`TransformGraph::set_parent`] answers for a requested link.
    pub open spec fn link_outcome(&self, child: usize, parent: Option<usize>) -> Result<
        (),
        HierarchyError,
    > {
        if child >= self.len() {
            Err(HierarchyError::UnknownTransform)
        } else {
            match parent {
                Some(p) => if p >= self.len() {
                    Err(HierarchyError::UnknownTransform)
                } else if self.ancestry(p as int).contains(child) {
                    Err(HierarchyError::Cycle)
                } else {
                    Ok(())
                },
                None => Ok(()),
            }
        }
    }

    /// The nodes whose local matrices make up the world matrix of `id`: `id`
    /// first, its root last. `None` when `id` is not a node.
    pub fn world_chain(&self, id: usize) -> (chain: Option<Vec<usize>>)
        requires
            self.well_formed(),
        ensures
            id >= self.len() ==> chain is None,
            id < self.len() ==> (chain matches Some(v) && v@ == self.ancestry(id as int)),
    {
        if id >= self.nodes.len() {
            return None;
        }
        let mut out: Vec<usize> = Vec::new();
        let mut cur: usize = id;
        loop
            invariant_except_break
                self.well_formed(),
                id < self.len(),
                cur < self.len(),
                out@ + self.ancestry(cur as int) == self.ancestry(id as int),
            ensures
                out@ == self.ancestry(id as int),
            decreases self.rank@[cur as int],
        {
            let ghost before = out@;
            let ghost here = seq![cur];
            out.push(cur);
            match self.parents[cur] {
                Some(p) => {
                    proof {
                        let rest = self.ancestry(p as int);
                        assert(self.ancestry(cur as int) == here + rest);
                        assert(before.push(cur) + rest =~= before + (here + rest));
                    }
                    cur = p;
                },
                None => {
                    proof {
                        assert(self.ancestry(cur as int) == here);
                        assert(before.push(cur) =~= before + here);
                    }
                    break ;
                },
            }
        }
        Some(out)
    }
}

/// What has a place in the hierarchy: a mesh, a light, a camera.
pub trait Transformable {
    /// The handle of the transform that places this object.
    spec fn transform_of(&self) -> usize;

    /// The handle of the transform that places this object; other
    /// transforms take it as their parent.
    fn transform_rc(&self) -> (id: usize)
        ensures
            id == self.transform_of(),
    ;

    /// The transform that places this object.
    fn transform<'a>(&self, transforms: &'a TransformGraph) -> (t: &'a Transform)
        requires
            transforms.well_formed(),
            self.transform_of() < transforms.len(),
        ensures
            *t == transforms.node(self.transform_of() as int),
    {
        transforms.transform(self.transform_rc())
    }

    /// Mutable access to the transform that places this object; the
    /// hierarchy is untouched.
    fn transform_mut<'a>(&self, transforms: &'a mut TransformGraph) -> (t: &'a mut Transform)
        requires
            old(transforms).well_formed(),
            self.transform_of() < old(transforms).len(),
        ensures
            *t == old(transforms).node(self.transform_of() as int),
            final(transforms).well_formed(),
            final(transforms).len() == old(transforms).len(),
            final(transforms).node(self.transform_of() as int) == *final(t),
            forall|i: int|
                0 <= i < old(transforms).len() && i != self.transform_of() ==> #[trigger] final(transforms).node(i) == old(transforms).node(i),
            forall|i: int|
                0 <= i < old(transforms).len() ==> #[trigger] final(transforms).parent_of(i)
                    == old(transforms).parent_of(i),
            forall|i: int|
                0 <= i < old(transforms).len() ==> #[trigger] final(transforms).ancestry(i) == old(transforms).ancestry(i),
    {
        transforms.transform_mut(self.transform_rc())
    }
}

/// World-matrix composition order: with `c` parented to `b` and `b` to `a`,
/// the ancestry of `c` is `c`, `b`, then the whole ancestry of `a`; an
/// unparented node is its own ancestry.
pub proof fn lemma_world_chain_composition(g: TransformGraph, a: usize, b: usize, c: usize)
    requires
        g.well_formed(),
        c < g.len(),
        g.parent_of(c as int) == Some(b),
        g.parent_of(b as int) == Some(a),
    ensures
        g.ancestry(c as int) == seq![c, b] + g.ancestry(a as int),
        g.ancestry(c as int) == seq![c] + g.ancestry(b as int),
        forall|r: int|
            0 <= r < g.len() && g.parent_of(r) is None ==> #[trigger] g.ancestry(r) == seq![
                r as usize,
            ],
{
    g.lemma_ancestry_unfold(c as int);
    g.lemma_ancestry_unfold(b as int);
    assert(seq![c] + (seq![b] + g.ancestry(a as int)) =~= seq![c, b] + g.ancestry(a as int));
    assert forall|r: int| 0 <= r < g.len() && g.parent_of(r) is None implies #[trigger] g.ancestry(
        r,
    ) == seq![r as usize] by {
        g.lemma_ancestry_unfold(r);
    }
}

} // verus!
