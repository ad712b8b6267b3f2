use crate::scalar::{Matrix, HUNDRED, ONE_TENTH, SEVENTY};
use crate::transform::{Transform, TransformGraph, Transformable};
use vstd::prelude::*;

verus! {

/// The matrices that the host computed for one frame, by transform index:
/// a world matrix and a normal matrix for every node of the hierarchy, and
/// the combined view-projection matrix of the active camera.
pub struct FrameMatrices {
    pub view_projection: Matrix,
    pub world: Vec<Matrix>,
    pub normal: Vec<Matrix>,
}

impl FrameMatrices {
    /// There is a world matrix and a normal matrix for each node of
    /// `transforms`.
    pub open spec fn covers(&self, transforms: &TransformGraph) -> bool {
        &&& self.world@.len() == transforms.len()
        &&& self.normal@.len() == transforms.len()
    }

    pub fn is_for(&self, transforms: &TransformGraph) -> (b: bool)
        requires
            transforms.well_formed(),
        ensures
            b == self.covers(transforms),
    {
        self.world.len() == transforms.nb_transforms() && self.normal.len() == transforms.nb_transforms()
    }
}

/// View and projection state around a transform of the hierarchy. The camera
/// looks from its transform's position toward the world origin.
#[derive(Clone, Copy, Debug, PartialEq, Eq)]
pub struct Camera {
    pub transform: usize,
    pub aspect_ratio: u32,
    pub fov: u32,
    pub z_near: u32,
    pub z_far: u32,
}

impl Camera {
    /// A camera on a new root transform of `transforms`, with a field of view
    /// of 70 degrees and a depth range from 0.1 to 100.
    pub fn new(transforms: &mut TransformGraph, aspect_ratio: u32) -> (camera: Camera)
        requires
            old(transforms).well_formed(),
        ensures
            final(transforms).well_formed(),
            final(transforms).len() == old(transforms).len() + 1,
            camera.transform == old(transforms).len(),
            camera.aspect_ratio == aspect_ratio,
            camera.fov == SEVENTY,
            camera.z_near == ONE_TENTH,
            camera.z_far == HUNDRED,
            final(transforms).node(camera.transform as int).identity(),
            final(transforms).parent_of(camera.transform as int) is None,
            forall|i: int|
                0 <= i < old(transforms).len() ==> #[trigger] final(transforms).node(i) == old(transforms).node(i),
            forall|i: int|
                0 <= i < old(transforms).len() ==> #[trigger] final(transforms).parent_of(i)
                    == old(transforms).parent_of(i),
            forall|i: int|
                0 <= i < old(transforms).len() ==> #[trigger] final(transforms).ancestry(i) == old(transforms).ancestry(i),
    {
        let transform = transforms.add(Transform::new());
        Camera { transform, aspect_ratio, fov: SEVENTY, z_near: ONE_TENTH, z_far: HUNDRED }
    }

    /// Writes the placement that the control strategy produced, if one is
    /// attached, into the camera's transform. Without one the camera stays
    /// where it is.
    pub fn listen_to_control(&self, transforms: &mut TransformGraph, placement: Option<Transform>)
        requires
            old(transforms).well_formed(),
            self.transform < old(transforms).len(),
        ensures
            final(transforms).well_formed(),
            final(transforms).len() == old(transforms).len(),
            final(transforms).node(self.transform as int) == match placement {
                Some(p) => p,
                None => old(transforms).node(self.transform as int),
            },
            forall|i: int|
                0 <= i < old(transforms).len() && i != self.transform ==> #[trigger] final(transforms).node(i) == old(transforms).node(i),
            forall|i: int|
                0 <= i < old(transforms).len() ==> #[trigger] final(transforms).parent_of(i)
                    == old(transforms).parent_of(i),
            forall|i: int|
                0 <= i < old(transforms).len() ==> #[trigger] final(transforms).ancestry(i) == old(transforms).ancestry(i),
    {
        if let Some(p) = placement {
            let transform = transforms.transform_mut(self.transform);
            *transform = p;
        }
    }
}

impl Transformable for Camera {
    open spec fn transform_of(&self) -> usize {
        self.transform
    }

    fn transform_rc(&self) -> (id: usize) {
        self.transform
    }
}

} // verus!
