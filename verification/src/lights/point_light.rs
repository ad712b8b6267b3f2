use crate::lights::light::Light;
use crate::scalar::{translation, translation_of, Matrix, ONE};
use crate::settings::MAX_POINT_LIGHTS;
use crate::transform::{Transform, TransformGraph, Transformable};
use vstd::prelude::*;

verus! {

/// A light at a point of space, placed by a transform of the hierarchy.
#[derive(Clone, Copy, Debug, PartialEq, Eq)]
pub struct PointLight {
    pub color: [u32; 3],
    pub intensity: u32,
    pub transform: usize,
}

/// GPU layout of one point light: nine words, the vectors padded to four.
#[derive(Clone, Copy, Debug, PartialEq, Eq)]
pub struct PointLightUniforms {
    pub color: [u32; 3],
    pub _padding1: u32,
    pub position: [u32; 3],
    pub _padding2: u32,
    pub intensity: u32,
}

impl PointLightUniforms {
    /// Number of 32-bit words of one slot.
    pub const WORDS: usize = 9;

    /// This slot shows `light` at `position`, with the padding of `before`.
    pub open spec fn holds(
        self,
        light: PointLight,
        position: Seq<u32>,
        before: PointLightUniforms,
    ) -> bool {
        &&& self.color == light.color
        &&& self.intensity == light.intensity
        &&& self.position@ == position
        &&& self._padding1 == before._padding1
        &&& self._padding2 == before._padding2
    }

    /// Copies colour and intensity of `point_light` and its world position,
    /// the translation part of `world_matrix`; the padding stays.
    pub fn update(&mut self, point_light: &PointLight, world_matrix: &Matrix)
        ensures
            final(self).holds(*point_light, translation_of(*world_matrix), *old(self)),
    {
        self.color = point_light.color;
        self.intensity = point_light.intensity;
        self.position = translation(world_matrix);
    }

    /// The slot word by word, in the order the shader reads it.
    pub open spec fn layout(self) -> Seq<u32> {
        self.color@ + seq![self._padding1] + self.position@ + seq![self._padding2, self.intensity]
    }

    pub fn words(&self) -> (w: Vec<u32>)
        ensures
            w@ == self.layout(),
            w@.len() == Self::WORDS,
    {
        let w: Vec<u32> = vec![
            self.color[0],
            self.color[1],
            self.color[2],
            self._padding1,
            self.position[0],
            self.position[1],
            self.position[2],
            self._padding2,
            self.intensity,
        ];
        assert(w@ =~= self.layout());
        w
    }
}

impl Default for PointLightUniforms {
    fn default() -> (u: PointLightUniforms)
        ensures
            u.layout() == Seq::new(9, |k: int| 0u32),
    {
        let u = PointLightUniforms {
            color: [0, 0, 0],
            _padding1: 0,
            position: [0, 0, 0],
            _padding2: 0,
            intensity: 0,
        };
        assert(u.layout() =~= Seq::new(9, |k: int| 0u32));
        u
    }
}

/// How many point lights reach the GPU when `count` are in the scene.
pub open spec fn uploaded(count: nat) -> nat {
    if count <= MAX_POINT_LIGHTS as nat {
        count
    } else {
        MAX_POINT_LIGHTS as nat
    }
}

/// Every light is placed by a transform that has a world matrix in `world`.
pub open spec fn lights_placed(point_lights: Seq<PointLight>, world: Seq<Matrix>) -> bool {
    forall|i: int| 0 <= i < point_lights.len() ==> (#[trigger] point_lights[i]).transform < world.len()
}

/// The uniform array after packing: slot `i` holds light `i` for every `i`
/// below the cap and below the number of lights; the other slots are as they
/// were.
pub open spec fn packed(
    before: [PointLightUniforms; MAX_POINT_LIGHTS],
    point_lights: Seq<PointLight>,
    world: Seq<Matrix>,
    after: [PointLightUniforms; MAX_POINT_LIGHTS],
) -> bool {
    forall|i: int|
        0 <= i < MAX_POINT_LIGHTS ==> if i < point_lights.len() {
            (#[trigger] after@[i]).holds(
                point_lights[i],
                translation_of(world[point_lights[i].transform as int]),
                before@[i],
            )
        } else {
            after@[i] == before@[i]
        }
}

/// Packs the first [`MAX_POINT_LIGHTS`] lights into `slots`, in insertion
/// order, and returns how many were packed. Lights beyond the cap are left
/// out; slots beyond the lights are not touched.
pub fn pack_point_lights(
    slots: &mut [PointLightUniforms; MAX_POINT_LIGHTS],
    point_lights: &Vec<PointLight>,
    world: &Vec<Matrix>,
) -> (nb_packed: usize)
    requires
        lights_placed(point_lights@, world@),
    ensures
        nb_packed == uploaded(point_lights@.len()),
        packed(*old(slots), point_lights@, world@, *final(slots)),
{
    let nb_packed: usize = if point_lights.len() <= MAX_POINT_LIGHTS {
        point_lights.len()
    } else {
        MAX_POINT_LIGHTS
    };
    let mut i: usize = 0;
    while i < nb_packed
        invariant
            i <= nb_packed,
            nb_packed == uploaded(point_lights@.len()),
            lights_placed(point_lights@, world@),
            forall|k: int|
                0 <= k < MAX_POINT_LIGHTS ==> if k < i {
                    (#[trigger] slots@[k]).holds(
                        point_lights@[k],
                        translation_of(world@[point_lights@[k].transform as int]),
                        old(slots)@[k],
                    )
                } else {
                    slots@[k] == old(slots)@[k]
                },
        decreases nb_packed - i,
    {
        let light = point_lights[i];
        let mut slot = slots[i];
        slot.update(&light, &world[light.transform]);
        slots[i] = slot;
        i += 1;
    }
    nb_packed
}

/// The whole uniform array word by word: the slots one after another.
pub open spec fn array_layout(slots: [PointLightUniforms; MAX_POINT_LIGHTS]) -> Seq<u32> {
    Seq::new(
        (MAX_POINT_LIGHTS * PointLightUniforms::WORDS) as nat,
        |k: int| slots@[k / 9].layout()[k % 9],
    )
}

/// The words of the whole uniform array, ready for upload.
pub fn array_words(slots: &[PointLightUniforms; MAX_POINT_LIGHTS]) -> (w: Vec<u32>)
    ensures
        w@ == array_layout(*slots),
{
    let mut w: Vec<u32> = Vec::new();
    let mut i: usize = 0;
    while i < MAX_POINT_LIGHTS
        invariant
            i <= MAX_POINT_LIGHTS,
            w@.len() == i * 9,
            forall|k: int| 0 <= k < w@.len() ==> #[trigger] w@[k] == slots@[k / 9].layout()[k % 9],
        decreases MAX_POINT_LIGHTS - i,
    {
        let mut slot_words = slots[i].words();
        let ghost before = w@;
        let ghost added = slot_words@;
        w.append(&mut slot_words);
        assert forall|k: int| 0 <= k < w@.len() implies #[trigger] w@[k] == slots@[k / 9].layout()[k
            % 9] by {
            if k >= before.len() {
                assert(w@[k] == added[k - before.len()]);
                assert(k / 9 == i as int && k % 9 == k - i * 9);
            }
        }
        i += 1;
    }
    assert(w@ =~= array_layout(*slots));
    w
}

impl PointLight {
    /// A white light of full intensity on a new root transform of `transforms`.
    pub fn new(transforms: &mut TransformGraph) -> (l: PointLight)
        requires
            old(transforms).well_formed(),
        ensures
            final(transforms).well_formed(),
            final(transforms).len() == old(transforms).len() + 1,
            l.transform == old(transforms).len(),
            l.color@ == seq![ONE, ONE, ONE],
            l.intensity == ONE,
            final(transforms).node(l.transform as int).identity(),
            final(transforms).parent_of(l.transform as int) is None,
            forall|i: int|
                0 <= i < old(transforms).len() ==> #[trigger] final(transforms).node(i) == old(transforms).node(i),
            forall|i: int|
                0 <= i < old(transforms).len() ==> #[trigger] final(transforms).parent_of(i)
                    == old(transforms).parent_of(i),
            forall|i: int|
                0 <= i < old(transforms).len() ==> #[trigger] final(transforms).ancestry(i) == old(transforms).ancestry(i),
    {
        let transform = transforms.add(Transform::new());
        PointLight { color: [ONE, ONE, ONE], intensity: ONE, transform }
    }
}

impl Light for PointLight {
    open spec fn color_of(&self) -> [u32; 3] {
        self.color
    }

    open spec fn intensity_of(&self) -> u32 {
        self.intensity
    }

    fn color(&self) -> (c: [u32; 3]) {
        self.color
    }

    fn set_color(&mut self, r: u32, g: u32, b: u32)
        ensures
            final(self).transform == old(self).transform,
    {
        self.color = [r, g, b];
    }

    fn intensity(&self) -> (i: u32) {
        self.intensity
    }

    fn set_intensity(&mut self, intensity: u32)
        ensures
            final(self).transform == old(self).transform,
    {
        self.intensity = intensity;
    }
}

impl Transformable for PointLight {
    open spec fn transform_of(&self) -> usize {
        self.transform
    }

    fn transform_rc(&self) -> (id: usize) {
        self.transform
    }
}

} // verus!
