use crate::camera::camera::{Camera, FrameMatrices};
use crate::scalar::{push_words, Matrix};
use crate::transform::TransformGraph;
use vstd::prelude::*;

verus! {

/// GPU layout of the camera: its view-projection matrix and its position
/// padded to four words.
#[derive(Clone, Copy, Debug, PartialEq, Eq)]
pub struct CameraUniforms {
    pub proj_view: Matrix,
    pub position: [u32; 3],
    pub _padding: u32,
}

impl CameraUniforms {
    /// Number of 32-bit words of the block.
    pub const WORDS: usize = 20;

    /// Copies the view-projection matrix of the frame and the position of
    /// the camera's transform; the padding stays.
    pub fn update(&mut self, camera: &Camera, transforms: &TransformGraph, frame: &FrameMatrices)
        requires
            transforms.well_formed(),
            camera.transform < transforms.len(),
        ensures
            final(self).proj_view == frame.view_projection,
            final(self).position == transforms.node(camera.transform as int).position,
            final(self)._padding == old(self)._padding,
    {
        self.proj_view = frame.view_projection;
        self.position = transforms.transform(camera.transform).position;
    }

    /// The block word by word, in the order the shader reads it.
    pub open spec fn layout(self) -> Seq<u32> {
        self.proj_view@ + self.position@ + seq![self._padding]
    }

    pub fn words(&self) -> (w: Vec<u32>)
        ensures
            w@ == self.layout(),
            w@.len() == Self::WORDS,
    {
        let mut w: Vec<u32> = Vec::new();
        push_words(&mut w, self.proj_view.as_slice());
        push_words(&mut w, self.position.as_slice());
        w.push(self._padding);
        assert(w@ =~= self.layout());
        w
    }
}

impl Default for CameraUniforms {
    fn default() -> (u: CameraUniforms)
        ensures
            u.layout() == Seq::new(20, |k: int| 0u32),
            u._padding == 0,
    {
        let u = CameraUniforms { proj_view: [0;16], position: [0, 0, 0], _padding: 0 };
        assert(u.layout() =~= Seq::new(20, |k: int| 0u32));
        u
    }
}

} // verus!
