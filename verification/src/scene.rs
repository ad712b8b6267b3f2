//! The scene: the object graph and the plan of each frame.

use crate::camera::camera::{Camera, FrameMatrices};
use crate::engine::{Engine, RenderError, SurfaceConfiguration, SurfaceError};
use crate::geometry::mesh::Mesh;
use crate::input::event::{ElementState, PhysicalSize, VirtualKeyCode, WindowEvent};
use crate::input::mouse::Mouse;
use crate::lights::directional_light::DirectionalLight;
use crate::lights::point_light::{lights_placed, PointLight};
use crate::materials::material_pipeline::TextureFormat;
use crate::render_pass::{RenderCommand, RenderPass};
use crate::settings::{CLEAR_ALPHA, CLEAR_BLUE, CLEAR_DEPTH, CLEAR_DIM};
use crate::transform::{Transform, TransformGraph};
use vstd::prelude::*;

verus! {

/// The object graph: the active camera, the meshes, the lights, and the
/// hierarchy of transforms that places them. Meshes and point lights are
/// addressed by the index they were added at, which never changes.
pub struct Scene {
    pub active_camera: Option<Camera>,
    pub meshes: Vec<Mesh>,
    pub directional_light: DirectionalLight,
    pub point_lights: Vec<PointLight>,
    pub transforms: TransformGraph,
    pub mouse: Mouse,
}

/// The draws of the first `upto` meshes: each mesh is selected by its handle,
/// then drawn.
pub open spec fn draws(meshes: Seq<Mesh>, nb_point_lights: u32, upto: nat) -> Seq<RenderCommand>
    decreases upto,
{
    if upto == 0 || upto > meshes.len() {
        Seq::empty()
    } else {
        draws(meshes, nb_point_lights, (upto - 1) as nat) + seq![
            RenderCommand::SelectMesh { mesh: (upto - 1) as usize },
        ] + meshes[upto - 1].render_commands(nb_point_lights)
    }
}

/// The commands of a frame: a depth buffer of the size of the surface and of
/// the format that the pipelines test depth in, one pass that clears colour
/// and depth and draws every mesh in the order of the handles, submission
/// and presentation.
pub open spec fn frame_commands(
    config: SurfaceConfiguration,
    meshes: Seq<Mesh>,
    nb_point_lights: u32,
) -> Seq<RenderCommand> {
    seq![
        RenderCommand::CreateDepthTexture {
            width: config.width,
            height: config.height,
            format: TextureFormat::Depth24Plus,
        },
        RenderCommand::BeginRenderPass {
            clear_color: [CLEAR_DIM, CLEAR_DIM, CLEAR_BLUE, CLEAR_ALPHA],
            clear_depth: CLEAR_DEPTH,
        },
    ] + draws(meshes, nb_point_lights, meshes.len()) + seq![
        RenderCommand::Submit,
        RenderCommand::Present,
    ]
}

/// The draws of the first `upto` meshes do not depend on the meshes after
/// them.
pub proof fn lemma_draws_prefix(a: Seq<Mesh>, b: Seq<Mesh>, nb_point_lights: u32, upto: nat)
    requires
        upto <= a.len(),
        upto <= b.len(),
        forall|k: int| 0 <= k < upto ==> a[k] == b[k],
    ensures
        draws(a, nb_point_lights, upto) == draws(b, nb_point_lights, upto),
    decreases upto,
{
    if upto > 0 {
        lemma_draws_prefix(a, b, nb_point_lights, (upto - 1) as nat);
    }
}

/// Handles are stable: the handle that adding a mesh returned still
/// addresses that mesh after any number of later additions.
pub proof fn lemma_handles_stable<T>(before: Seq<T>, added: T, later: Seq<T>)
    ensures
        (before.push(added) + later)[before.len() as int] == added,
        forall|i: int| 0 <= i < before.len() ==> (before.push(added) + later)[i] == before[i],
{
}

impl Scene {
    /// The key that `event` reports as pressed, if any.
    pub open spec fn key_pressed(event: WindowEvent) -> Option<VirtualKeyCode> {
        match event {
            WindowEvent::KeyboardInput { state: ElementState::Pressed, virtual_keycode } => virtual_keycode,
            _ => None,
        }
    }

    /// The aspect ratio that `event` brings to the camera: that of a new
    /// window size with a positive height.
    pub open spec fn aspect_ratio_in(event: WindowEvent) -> Option<u32> {
        match event {
            WindowEvent::Resized { size, aspect_ratio } => if size.height > 0 {
                Some(aspect_ratio)
            } else {
                None
            },
            WindowEvent::ScaleFactorChanged { new_inner_size, aspect_ratio } => if new_inner_size.height
                > 0 {
                Some(aspect_ratio)
            } else {
                None
            },
            _ => None,
        }
    }

    /// The scene after `event`. The mouse follows the event. A new window
    /// size gives the active camera its aspect ratio. A turn of the wheel
    /// moves the transform of the active camera to the zoomed position.
    /// Nothing else changes.
    pub open spec fn after_event(&self, before: &Scene, event: WindowEvent) -> bool {
        &&& self.mouse.after(before.mouse, event)
        &&& self.meshes == before.meshes
        &&& self.directional_light == before.directional_light
        &&& self.point_lights == before.point_lights
        &&& self.active_camera == match (before.active_camera, Self::aspect_ratio_in(event)) {
            (Some(camera), Some(aspect_ratio)) => Some(Camera { aspect_ratio, ..camera }),
            _ => before.active_camera,
        }
        &&& self.transforms.well_formed()
        &&& self.transforms.len() == before.transforms.len()
        &&& forall|i: int|
            0 <= i < before.transforms.len() ==> #[trigger] self.transforms.parent_of(i)
                == before.transforms.parent_of(i)
        &&& forall|i: int|
            0 <= i < before.transforms.len() ==> #[trigger] self.transforms.ancestry(i)
                == before.transforms.ancestry(i)
        &&& forall|i: int|
            0 <= i < before.transforms.len() ==> #[trigger] self.transforms.node(i) == (
            match (event, before.active_camera) {
                (WindowEvent::MouseWheel { lines, zoomed_position }, Some(camera)) => if i
                    == camera.transform {
                    Transform { position: zoomed_position, ..before.transforms.node(i) }
                } else {
                    before.transforms.node(i)
                },
                _ => before.transforms.node(i),
            })
    }

    /// The frame can be drawn: there is a camera, `frame` has a world and a
    /// normal matrix for every transform, and the camera, every mesh and
    /// every point light name a transform of the hierarchy.
    pub open spec fn drawable(&self, frame: &FrameMatrices) -> bool {
        &&& self.active_camera matches Some(camera) && camera.transform < self.transforms.len()
        &&& frame.covers(&self.transforms)
        &&& forall|i: int|
            0 <= i < self.meshes@.len() ==> (#[trigger] self.meshes@[i]).transform
                < self.transforms.len()
        &&& lights_placed(self.point_lights@, frame.world@)
    }

    /// Why a frame is not drawn, if it is not: the surface gave no frame,
    /// the scene has no camera, or the frame does not fit the scene.
    pub open spec fn refusal(
        &self,
        frame: &FrameMatrices,
        surface: Result<(), SurfaceError>,
    ) -> Option<RenderError> {
        match surface {
            Err(e) => Some(RenderError::Surface(e)),
            Ok(_) => if self.active_camera is None {
                Some(RenderError::NoActiveCamera)
            } else if !self.drawable(frame) {
                Some(RenderError::InvalidFrame)
            } else {
                None
            },
        }
    }

    /// An empty scene under the default directional light.
    pub fn new() -> (scene: Scene)
        ensures
            scene.active_camera is None,
            scene.meshes@.len() == 0,
            scene.directional_light.is_default(),
            scene.point_lights@.len() == 0,
            scene.transforms.well_formed(),
            scene.transforms.len() == 0,
            scene.mouse.at_rest(),
    {
        Scene {
            active_camera: None,
            meshes: Vec::new(),
            directional_light: DirectionalLight::default(),
            point_lights: Vec::new(),
            transforms: TransformGraph::new(),
            mouse: Mouse::new(),
        }
    }

    pub fn set_active_camera(&mut self, camera: Camera)
        ensures
            *final(self) == (Scene { active_camera: Some(camera), ..*old(self) }),
    {
        self.active_camera = Some(camera);
    }

    /// Adds a mesh and returns its handle. The handles of the meshes that
    /// are there do not change.
    pub fn add_mesh(&mut self, mesh: Mesh) -> (handle: usize)
        ensures
            handle == old(self).meshes@.len(),
            final(self).meshes@ == old(self).meshes@.push(mesh),
            final(self).active_camera == old(self).active_camera,
            final(self).directional_light == old(self).directional_light,
            final(self).point_lights == old(self).point_lights,
            final(self).transforms == old(self).transforms,
            final(self).mouse == old(self).mouse,
    {
        self.meshes.push(mesh);
        self.meshes.len() - 1
    }

    /// Adds a point light and returns its handle. The handles of the lights
    /// that are there do not change.
    pub fn add_point_light(&mut self, point_light: PointLight) -> (handle: usize)
        ensures
            handle == old(self).point_lights@.len(),
            final(self).point_lights@ == old(self).point_lights@.push(point_light),
            final(self).active_camera == old(self).active_camera,
            final(self).directional_light == old(self).directional_light,
            final(self).meshes == old(self).meshes,
            final(self).transforms == old(self).transforms,
            final(self).mouse == old(self).mouse,
    {
        self.point_lights.push(point_light);
        self.point_lights.len() - 1
    }

    /// Gives the active camera the aspect ratio of a new window size, unless
    /// the height is zero or there is no camera.
    pub fn resize(&mut self, new_size: PhysicalSize, aspect_ratio: u32)
        ensures
            *final(self) == (Scene {
                active_camera: match old(self).active_camera {
                    Some(camera) if new_size.height > 0 => Some(Camera { aspect_ratio, ..camera }),
                    _ => old(self).active_camera,
                },
                ..*old(self)
            }),
    {
        if new_size.height > 0 {
            match &mut self.active_camera {
                Some(camera) => {
                    camera.aspect_ratio = aspect_ratio;
                },
                None => {},
            }
        }
    }

    /// Lets the control strategy of the active camera place it: `placement`
    /// is what the strategy made of the input, or `None` if the camera has
    /// no strategy. Without a camera nothing happens.
    pub fn listen_to_control(&mut self, placement: Option<Transform>)
        requires
            old(self).transforms.well_formed(),
        ensures
            final(self).transforms.well_formed(),
            final(self).transforms.len() == old(self).transforms.len(),
            final(self).active_camera == old(self).active_camera,
            final(self).meshes == old(self).meshes,
            final(self).directional_light == old(self).directional_light,
            final(self).point_lights == old(self).point_lights,
            final(self).mouse == old(self).mouse,
            forall|i: int|
                0 <= i < old(self).transforms.len() ==> #[trigger] final(self).transforms.parent_of(
                    i,
                ) == old(self).transforms.parent_of(i),
            forall|i: int|
                0 <= i < old(self).transforms.len() ==> #[trigger] final(self).transforms.ancestry(
                    i,
                ) == old(self).transforms.ancestry(i),
            forall|i: int|
                0 <= i < old(self).transforms.len() ==> #[trigger] final(self).transforms.node(i)
                    == (match (old(self).active_camera, placement) {
                    (Some(camera), Some(p)) => if i == camera.transform {
                        p
                    } else {
                        old(self).transforms.node(i)
                    },
                    _ => old(self).transforms.node(i),
                }),
    {
        match self.active_camera {
            Some(camera) => {
                if camera.transform < self.transforms.nb_transforms() {
                    camera.listen_to_control(&mut self.transforms, placement);
                }
            },
            None => {},
        }
    }

    /// Takes a window event: updates the mouse, resizes the camera, zooms.
    /// Returns the key that was pressed, if the event is a key press, for
    /// the host to hand to its keyboard hooks.
    pub fn manage_event(&mut self, event: &WindowEvent) -> (key: Option<VirtualKeyCode>)
        requires
            old(self).transforms.well_formed(),
        ensures
            key == Self::key_pressed(*event),
            final(self).after_event(old(self), *event),
    {
        self.mouse.listen_to_event(event);
        let key = match event {
            WindowEvent::KeyboardInput { state: ElementState::Pressed, virtual_keycode } => *virtual_keycode,
            _ => None,
        };
        match event {
            WindowEvent::Resized { size, aspect_ratio } => {
                self.resize(*size, *aspect_ratio);
            },
            WindowEvent::ScaleFactorChanged { new_inner_size, aspect_ratio } => {
                self.resize(*new_inner_size, *aspect_ratio);
            },
            WindowEvent::MouseWheel { lines, zoomed_position } => {
                match self.active_camera {
                    Some(camera) => {
                        if camera.transform < self.transforms.nb_transforms() {
                            let transform = self.transforms.transform_mut(camera.transform);
                            transform.position = *zoomed_position;
                        }
                    },
                    None => {},
                }
            },
            _ => {},
        }
        key
    }

    /// Whether the frame can be drawn.
    pub fn is_drawable(&self, frame: &FrameMatrices) -> (b: bool)
        requires
            self.transforms.well_formed(),
        ensures
            b == self.drawable(frame),
    {
        let nb_transforms: usize = self.transforms.nb_transforms();
        match self.active_camera {
            Some(camera) => {
                if camera.transform >= nb_transforms {
                    return false;
                }
            },
            None => {
                return false;
            },
        }
        if !frame.is_for(&self.transforms) {
            return false;
        }
        let mut i: usize = 0;
        while i < self.meshes.len()
            invariant
                i <= self.meshes@.len(),
                nb_transforms == self.transforms.len(),
                forall|k: int| 0 <= k < i ==> (#[trigger] self.meshes@[k]).transform < nb_transforms,
            decreases self.meshes@.len() - i,
        {
            if self.meshes[i].transform >= nb_transforms {
                return false;
            }
            i += 1;
        }
        let mut j: usize = 0;
        while j < self.point_lights.len()
            invariant
                j <= self.point_lights@.len(),
                nb_transforms == self.transforms.len(),
                frame.world@.len() == nb_transforms,
                forall|k: int|
                    0 <= k < j ==> (#[trigger] self.point_lights@[k]).transform < nb_transforms,
            decreases self.point_lights@.len() - j,
        {
            if self.point_lights[j].transform >= nb_transforms {
                return false;
            }
            j += 1;
        }
        true
    }

    /// Plans one frame, once the host has run the control strategy and the
    /// before-render hooks, computed the matrices of the frame, and tried to
    /// acquire a frame from the surface, with the outcome `surface`.
    ///
    /// A refused frame leaves the scene as it is. Otherwise every mesh is
    /// drawn once, in the order of the handles; each material is compiled if
    /// this is its first draw.
    pub fn render(
        &mut self,
        engine: &Engine,
        frame: &FrameMatrices,
        surface: Result<(), SurfaceError>,
    ) -> (r: Result<RenderPass, RenderError>)
        requires
            old(self).transforms.well_formed(),
        ensures
            match r {
                Err(e) => old(self).refusal(frame, surface) == Some(e) && *final(self) == *old(self),
                Ok(render_pass) => {
                    &&& old(self).refusal(frame, surface) is None
                    &&& final(self).active_camera == old(self).active_camera
                    &&& final(self).directional_light == old(self).directional_light
                    &&& final(self).point_lights == old(self).point_lights
                    &&& final(self).transforms == old(self).transforms
                    &&& final(self).mouse == old(self).mouse
                    &&& final(self).meshes@.len() == old(self).meshes@.len()
                    &&& forall|i: int|
                        0 <= i < old(self).meshes@.len() ==> (#[trigger] final(self).meshes@[i]).rendered_from(
                            &old(self).meshes@[i],
                            &old(self).active_camera->0,
                            &old(self).directional_light,
                            old(self).point_lights@,
                            &old(self).transforms,
                            frame,
                        )
                    &&& render_pass.commands@ == frame_commands(
                        engine.config,
                        final(self).meshes@,
                        old(self).point_lights@.len() as u32,
                    )
                },
            },
    {
        if let Err(e) = surface {
            return Err(RenderError::Surface(e));
        }
        let camera = match self.active_camera {
            Some(camera) => camera,
            None => {
                return Err(RenderError::NoActiveCamera);
            },
        };
        if !self.is_drawable(frame) {
            return Err(RenderError::InvalidFrame);
        }
        let mut render_pass = RenderPass::new();
        render_pass.record(
            RenderCommand::CreateDepthTexture {
                width: engine.config.width,
                height: engine.config.height,
                format: TextureFormat::Depth24Plus,
            },
        );
        render_pass.record(
            RenderCommand::BeginRenderPass {
                clear_color: [CLEAR_DIM, CLEAR_DIM, CLEAR_BLUE, CLEAR_ALPHA],
                clear_depth: CLEAR_DEPTH,
            },
        );
        let ghost head = render_pass.commands@;
        let ghost nb_point_lights = self.point_lights@.len() as u32;
        let nb_meshes: usize = self.meshes.len();
        let mut i: usize = 0;
        while i < nb_meshes
            invariant
                i <= nb_meshes,
                nb_meshes == old(self).meshes@.len(),
                self.meshes@.len() == nb_meshes,
                old(self).drawable(frame),
                old(self).transforms.well_formed(),
                old(self).active_camera == Some(camera),
                self.active_camera == old(self).active_camera,
                self.directional_light == old(self).directional_light,
                self.point_lights == old(self).point_lights,
                self.transforms == old(self).transforms,
                self.mouse == old(self).mouse,
                nb_point_lights == old(self).point_lights@.len() as u32,
                forall|k: int|
                    0 <= k < i ==> (#[trigger] self.meshes@[k]).rendered_from(
                        &old(self).meshes@[k],
                        &camera,
                        &old(self).directional_light,
                        old(self).point_lights@,
                        &old(self).transforms,
                        frame,
                    ),
                forall|k: int| i <= k < nb_meshes ==> #[trigger] self.meshes@[k] == old(self).meshes@[k],
                render_pass.commands@ == head + draws(self.meshes@, nb_point_lights, i as nat),
            decreases nb_meshes - i,
        {
            let ghost before = self.meshes@;
            let ghost recorded = render_pass.commands@;
            render_pass.record(RenderCommand::SelectMesh { mesh: i });
            self.meshes[i].render(
                &mut render_pass,
                &camera,
                &self.directional_light,
                &self.point_lights,
                &self.transforms,
                frame,
            );
            proof {
                lemma_draws_prefix(before, self.meshes@, nb_point_lights, i as nat);
                assert(render_pass.commands@ =~= head + draws(
                    self.meshes@,
                    nb_point_lights,
                    (i + 1) as nat,
                ));
            }
            i += 1;
        }
        render_pass.record(RenderCommand::Submit);
        render_pass.record(RenderCommand::Present);
        assert(render_pass.commands@ =~= frame_commands(
            engine.config,
            self.meshes@,
            nb_point_lights,
        ));
        Ok(render_pass)
    }
}

} // verus!
