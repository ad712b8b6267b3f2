//! Bind sets: which resource a shader finds at which slot.

use crate::texture::Texture;
use vstd::prelude::*;

verus! {

/// One of the buffers behind a compiled pipeline.
#[derive(Clone, Copy, Debug, PartialEq, Eq, Structural)]
pub enum BufferId {
    /// The pipeline's own transform block.
    Transform,
    /// The pipeline's own camera block.
    Camera,
    /// The uniform buffer that the material passed at this position.
    Uniform(usize),
}

/// What a slot of a bind set exposes.
#[derive(Clone, Copy, Debug, PartialEq, Eq, Structural)]
pub enum BindingResource {
    /// A whole uniform buffer.
    Buffer(BufferId),
    /// The sampled view of a texture.
    TextureView(Texture),
    /// The sampler of a texture.
    Sampler(Texture),
}

/// A slot of a bind set; the matching layout entry has the same slot, is
/// visible to every shader stage and has the type of the resource.
#[derive(Clone, Copy, Debug, PartialEq, Eq, Structural)]
pub struct BindGroupEntry {
    pub binding: u32,
    pub resource: BindingResource,
}

/// The three bind sets of a pipeline, in the order they are bound.
#[derive(Clone, Copy, Debug, PartialEq, Eq, Structural)]
pub enum BindGroupKind {
    /// Transform and camera: data that changes with every draw.
    Required,
    /// The material's uniform buffers.
    Uniform,
    /// The material's textures and samplers.
    Texture,
}

impl BindGroupKind {
    /// The index at which the set is bound.
    pub open spec fn index_of(self) -> u32 {
        match self {
            BindGroupKind::Required => 0,
            BindGroupKind::Uniform => 1,
            BindGroupKind::Texture => 2,
        }
    }

    pub fn index(&self) -> (i: u32)
        ensures
            i == self.index_of(),
    {
        match self {
            BindGroupKind::Required => 0,
            BindGroupKind::Uniform => 1,
            BindGroupKind::Texture => 2,
        }
    }
}

/// The set of per-draw data: the transform block at slot 0, the camera block
/// at slot 1.
pub open spec fn required_group() -> Seq<BindGroupEntry> {
    seq![
        BindGroupEntry { binding: 0, resource: BindingResource::Buffer(BufferId::Transform) },
        BindGroupEntry { binding: 1, resource: BindingResource::Buffer(BufferId::Camera) },
    ]
}

/// The set of `n` uniform buffers: buffer `i` at slot `i`.
pub open spec fn uniform_group(n: nat) -> Seq<BindGroupEntry> {
    Seq::new(
        n,
        |i: int|
            BindGroupEntry {
                binding: i as u32,
                resource: BindingResource::Buffer(BufferId::Uniform(i as usize)),
            },
    )
}

/// The set of the given textures: texture `i` has its view at slot `2 i` and
/// its sampler at slot `2 i + 1`.
pub open spec fn texture_group(textures: Seq<Texture>) -> Seq<BindGroupEntry> {
    Seq::new(
        2 * textures.len(),
        |k: int|
            if k % 2 == 0 {
                BindGroupEntry {
                    binding: k as u32,
                    resource: BindingResource::TextureView(textures[k / 2]),
                }
            } else {
                BindGroupEntry { binding: k as u32, resource: BindingResource::Sampler(textures[k / 2]) }
            },
    )
}

pub fn required_entries() -> (entries: Vec<BindGroupEntry>)
    ensures
        entries@ == required_group(),
{
    let entries: Vec<BindGroupEntry> = vec![
        BindGroupEntry { binding: 0, resource: BindingResource::Buffer(BufferId::Transform) },
        BindGroupEntry { binding: 1, resource: BindingResource::Buffer(BufferId::Camera) },
    ];
    assert(entries@ =~= required_group());
    entries
}

pub fn uniform_entries(n: usize) -> (entries: Vec<BindGroupEntry>)
    requires
        n <= u32::MAX,
    ensures
        entries@ == uniform_group(n as nat),
{
    let mut entries: Vec<BindGroupEntry> = Vec::new();
    let mut i: usize = 0;
    while i < n
        invariant
            i <= n <= u32::MAX,
            entries@ == uniform_group(i as nat),
        decreases n - i,
    {
        entries.push(
            BindGroupEntry { binding: i as u32, resource: BindingResource::Buffer(BufferId::Uniform(i)) },
        );
        assert(entries@ =~= uniform_group((i + 1) as nat));
        i += 1;
    }
    entries
}

pub fn texture_entries(textures: &Vec<Texture>) -> (entries: Vec<BindGroupEntry>)
    requires
        2 * textures@.len() <= u32::MAX,
    ensures
        entries@ == texture_group(textures@),
{
    let mut entries: Vec<BindGroupEntry> = Vec::new();
    let mut i: usize = 0;
    while i < textures.len()
        invariant
            i <= textures@.len(),
            2 * textures@.len() <= u32::MAX,
            entries@ == texture_group(textures@.subrange(0, i as int)),
        decreases textures@.len() - i,
    {
        let pair = textures[i].create_bind_group_entries(2 * (i as u32));
        entries.push(pair[0]);
        entries.push(pair[1]);
        assert(entries@ =~= texture_group(textures@.subrange(0, i + 1)));
        i += 1;
    }
    assert(textures@.subrange(0, i as int) =~= textures@);
    entries
}

} // verus!
