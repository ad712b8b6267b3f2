use crate::lights::light::Light;
use crate::scalar::{DIAGONAL, MINUS_DIAGONAL, ONE, ZERO};
use vstd::prelude::*;

verus! {

/// The scene's single light at infinity.
#[derive(Clone, Copy, Debug, PartialEq, Eq)]
pub struct DirectionalLight {
    pub color: [u32; 3],
    pub intensity: u32,
    pub direction: [u32; 3],
}

/// GPU layout of a directional light: nine words, the vectors padded to four.
#[derive(Clone, Copy, Debug, PartialEq, Eq)]
pub struct DirectionalLightUniform {
    pub color: [u32; 3],
    pub _padding: u32,
    pub direction: [u32; 3],
    pub _padding2: u32,
    pub intensity: u32,
}

impl DirectionalLightUniform {
    /// Number of 32-bit words of the block.
    pub const WORDS: usize = 9;

    /// Copies colour, intensity and direction of `light`; the padding stays.
    pub fn update(&mut self, light: &DirectionalLight)
        ensures
            final(self).color == light.color,
            final(self).intensity == light.intensity,
            final(self).direction == light.direction,
            final(self)._padding == old(self)._padding,
            final(self)._padding2 == old(self)._padding2,
    {
        self.color = light.color;
        self.intensity = light.intensity;
        self.direction = light.direction;
    }

    /// The block word by word, in the order the shader reads it.
    pub open spec fn layout(self) -> Seq<u32> {
        self.color@ + seq![self._padding] + self.direction@ + seq![self._padding2, self.intensity]
    }

    pub fn words(&self) -> (w: Vec<u32>)
        ensures
            w@ == self.layout(),
            w@.len() == Self::WORDS,
    {
        let w: Vec<u32> = vec![
            self.color[0],
            self.color[1],
            self.color[2],
            self._padding,
            self.direction[0],
            self.direction[1],
            self.direction[2],
            self._padding2,
            self.intensity,
        ];
        assert(w@ =~= self.layout());
        w
    }
}

impl Default for DirectionalLightUniform {
    fn default() -> (u: DirectionalLightUniform)
        ensures
            u.layout() == Seq::new(9, |k: int| 0u32),
    {
        let u = DirectionalLightUniform {
            color: [0, 0, 0],
            _padding: 0,
            direction: [0, 0, 0],
            _padding2: 0,
            intensity: 0,
        };
        assert(u.layout() =~= Seq::new(9, |k: int| 0u32));
        u
    }
}

impl DirectionalLight {
    /// The light a scene starts under: white, of full intensity, shining
    /// down along the diagonal of the x-y plane.
    pub open spec fn is_default(self) -> bool {
        &&& self.color@ == seq![ONE, ONE, ONE]
        &&& self.intensity == ONE
        &&& self.direction@ == seq![DIAGONAL, MINUS_DIAGONAL, ZERO]
    }
}

impl Default for DirectionalLight {
    /// White, full intensity, shining down along the diagonal of the x-y plane.
    fn default() -> (l: DirectionalLight)
        ensures
            l.is_default(),
    {
        DirectionalLight {
            color: [ONE, ONE, ONE],
            intensity: ONE,
            direction: [DIAGONAL, MINUS_DIAGONAL, ZERO],
        }
    }
}

impl Light for DirectionalLight {
    open spec fn color_of(&self) -> [u32; 3] {
        self.color
    }

    open spec fn intensity_of(&self) -> u32 {
        self.intensity
    }

    fn color(&self) -> (c: [u32; 3]) {
        self.color
    }

    fn set_color(&mut self, r: u32, g: u32, b: u32)
        ensures
            final(self).direction == old(self).direction,
    {
        self.color = [r, g, b];
    }

    fn intensity(&self) -> (i: u32) {
        self.intensity
    }

    fn set_intensity(&mut self, intensity: u32)
        ensures
            final(self).direction == old(self).direction,
    {
        self.intensity = intensity;
    }
}

} // verus!
