use crate::materials::bind_group::{BindGroupEntry, BindingResource};
use vstd::prelude::*;

verus! {

/// Handle of a texture that the host decoded and uploaded, with its sampler.
/// Handle `0` is the 1×1 placeholder that every material starts with.
#[derive(Clone, Copy, Debug, PartialEq, Eq, Structural)]
pub struct Texture {
    pub id: u32,
}

impl Texture {
    /// The handle that the host gave to an uploaded texture.
    pub fn new(id: u32) -> (t: Texture)
        ensures
            t.id == id,
    {
        Texture { id }
    }

    /// The placeholder texture.
    pub fn new_empty() -> (t: Texture)
        ensures
            t.id == 0,
    {
        Texture { id: 0 }
    }

    /// The two entries a texture takes in a bind set: its view at `binding`
    /// and its sampler at the next slot.
    pub open spec fn entries_at(self, binding: u32) -> Seq<BindGroupEntry> {
        seq![
            BindGroupEntry { binding, resource: BindingResource::TextureView(self) },
            BindGroupEntry {
                binding: (binding + 1) as u32,
                resource: BindingResource::Sampler(self),
            },
        ]
    }

    pub fn create_bind_group_entries(&self, binding: u32) -> (entries: [BindGroupEntry; 2])
        requires
            binding < u32::MAX,
        ensures
            entries@ == self.entries_at(binding),
    {
        let entries = [
            BindGroupEntry { binding, resource: BindingResource::TextureView(*self) },
            BindGroupEntry { binding: binding + 1, resource: BindingResource::Sampler(*self) },
        ];
        assert(entries@ =~= self.entries_at(binding));
        entries
    }
}

} // verus!
