use vstd::prelude::*;

verus! {

/// What every light source offers: a colour and an intensity.
pub trait Light {
    /// The colour as the light holds it.
    spec fn color_of(&self) -> [u32; 3];

    /// The intensity as the light holds it.
    spec fn intensity_of(&self) -> u32;

    fn color(&self) -> (c: [u32; 3])
        ensures
            c == self.color_of(),
    ;

    fn set_color(&mut self, r: u32, g: u32, b: u32)
        ensures
            final(self).color_of()@ == seq![r, g, b],
            final(self).intensity_of() == old(self).intensity_of(),
    ;

    fn intensity(&self) -> (i: u32)
        ensures
            i == self.intensity_of(),
    ;

    fn set_intensity(&mut self, intensity: u32)
        ensures
            final(self).intensity_of() == intensity,
            final(self).color_of() == old(self).color_of(),
    ;
}

} // verus!
