//! The view: what the renderer knows of the surface and the scene, and
//! what it decides at each resize, each tick and each frame.
//!
//! The view owns no GPU object. Its methods say what is to be done, as
//! lists of commands, and the caller does it.

use crate::draw_shape::{DrawShape, DrawShapePipeline, PipelineDescriptor};
use crate::frame::{frame_commands, push_draw_pass, Command, LoadOp, PipelineRef, SKY_VERTICES};
use crate::frame::{draw_count, occurrences, shape_passes, sky_pass};
use crate::camera::Projection;
use crate::surface::{
    PresentMode,
    Recovery,
    RenderError,
    SurfaceCapabilities,
    SurfaceConfiguration,
    SurfaceError,
};
use std::collections::VecDeque;
use vstd::prelude::*;

verus! {

/// The size of the surface in physical pixels.
#[derive(Debug, Clone, Copy, PartialEq, Eq, Structural)]
pub struct SurfaceSize {
    pub width: u32,
    pub height: u32,
}

/// The switches that the keyboard toggles.
#[derive(Debug, Clone, Copy, PartialEq, Eq, Structural)]
pub struct Keys {
    /// Whether the scene's rotation advances.
    pub rotation: bool,
}

impl Default for Keys {
    fn default() -> (keys: Keys)
        ensures
            !keys.rotation,
    {
        Keys { rotation: false }
    }
}

/// One thing to do at a tick, before the frame is drawn.
#[derive(Debug, Clone, Copy, PartialEq, Eq, Structural)]
pub enum UpdateStep {
    /// Advance the rotation by the tick's duration and write its uniform.
    AdvanceRotation,
    /// Apply the input gathered since the last tick to the camera.
    MoveCamera,
    /// Combine the camera with the projection and write the camera uniform.
    WriteCameraUniform,
    /// Apply the overlay's settings to the auxiliary texture.
    UpdateTexture,
}

/// What a frame came to.
#[derive(Debug)]
pub struct Frame {
    /// The class of the failure, if the surface handed out no texture.
    pub error: Option<RenderError>,
    /// What is to be done, in order.
    pub commands: Vec<Command>,
}

/// The state of the renderer.
#[derive(Debug)]
pub struct RenderView {
    /// The last size at which the surface was configured.
    pub size: SurfaceSize,
    pub config: SurfaceConfiguration,
    pub projection: Projection,
    pub mouse_pressed: bool,
    /// The shapes of the scene, in the order in which they are drawn.
    pub draw_shapes: VecDeque<DrawShapePipeline>,
    pub keys: Keys,
    pub skybox_pipeline: PipelineDescriptor,
    /// Whether an overlay is drawn over the scene.
    pub overlay: bool,
    pub egui_repaint: bool,
}

/// The commands of a resize: the surface is configured at the new size if
/// that size has an area, and left alone otherwise.
pub open spec fn resize_commands(new_size: SurfaceSize) -> Seq<Command> {
    if new_size.width > 0 && new_size.height > 0 {
        seq![Command::Configure { width: new_size.width, height: new_size.height }]
    } else {
        Seq::empty()
    }
}

/// The things to do at a tick: the rotation advances only while it is
/// switched on; the camera and the texture are brought up to date always.
pub open spec fn update_steps(keys: Keys) -> Seq<UpdateStep> {
    if keys.rotation {
        seq![
            UpdateStep::AdvanceRotation,
            UpdateStep::MoveCamera,
            UpdateStep::WriteCameraUniform,
            UpdateStep::UpdateTexture,
        ]
    } else {
        seq![UpdateStep::MoveCamera, UpdateStep::WriteCameraUniform, UpdateStep::UpdateTexture]
    }
}

impl RenderView {
    /// The surface is configured at the view's size, the projection's
    /// aspect is in lowest terms, and every pipeline fits its shape and the
    /// surface.
    pub open spec fn wf(self) -> bool {
        &&& self.config.width == self.size.width
        &&& self.config.height == self.size.height
        &&& self.projection.wf()
        &&& self.skybox_pipeline.is_for_sky(self.config)
        &&& forall|i: int|
            0 <= i < self.draw_shapes@.len() ==> (#[trigger] self.draw_shapes@[i]).pipeline.is_for_shape(
                self.config,
                self.draw_shapes@[i].shape,
            )
    }

    /// The view after a resize. A size with an area becomes the view's
    /// size and the size of the surface; any size is handed on to the
    /// projection.
    pub open spec fn spec_resized(self, new_size: SurfaceSize) -> RenderView {
        let projection = self.projection.spec_resized(new_size.width, new_size.height);
        if new_size.width > 0 && new_size.height > 0 {
            RenderView {
                size: new_size,
                config: SurfaceConfiguration {
                    width: new_size.width,
                    height: new_size.height,
                    ..self.config
                },
                projection,
                ..self
            }
        } else {
            RenderView { projection, ..self }
        }
    }

    /// The view after a frame for which the surface answered `acquired`:
    /// a lost surface is recovered, anything else leaves the view as it is.
    pub open spec fn spec_rendered(self, acquired: Result<(), SurfaceError>) -> RenderView {
        match acquired {
            Err(error) if error.spec_classify().spec_recovery() == Recovery::Reconfigure => {
                self.spec_resized(self.size)
            },
            _ => self,
        }
    }

    /// The failure of a frame for which the surface answered `acquired`,
    /// by its class.
    pub open spec fn spec_frame_error(acquired: Result<(), SurfaceError>) -> Option<RenderError> {
        match acquired {
            Ok(()) => None,
            Err(error) => Some(error.spec_classify()),
        }
    }

    /// What a frame does for which the surface answered `acquired`. With a
    /// texture in hand the frame is drawn, submitted and presented. Without
    /// one nothing is drawn: a lost surface is configured again, an
    /// outdated or late one is left alone, and so is the surface of a
    /// device out of memory.
    pub open spec fn spec_frame_commands(self, acquired: Result<(), SurfaceError>) -> Seq<Command> {
        match acquired {
            Ok(()) => frame_commands(self.draw_shapes@, self.overlay),
            Err(error) => match error.spec_classify().spec_recovery() {
                Recovery::Reconfigure => resize_commands(self.size),
                Recovery::Skip => Seq::empty(),
                Recovery::Fatal => Seq::empty(),
            },
        }
    }

    /// Sets up the view for a window of the given size and a surface with
    /// the given capabilities. The scene is empty, the rotation is off and
    /// no mouse button is held.
    pub fn new(
        width: u32,
        height: u32,
        capabilities: SurfaceCapabilities,
        overlay: bool,
    ) -> (view: Result<RenderView, RenderError>)
        ensures
            capabilities.formats == 0 || capabilities.alpha_modes == 0 <==> view
                == Err::<RenderView, RenderError>(RenderError::DeviceInit),
            view.is_ok() || view == Err::<RenderView, RenderError>(RenderError::DeviceInit),
            view matches Ok(v) ==> {
                &&& v.wf()
                &&& v.size == SurfaceSize { width, height }
                &&& v.config == SurfaceConfiguration {
                    format: 0,
                    alpha_mode: 0,
                    width,
                    height,
                    present_mode: PresentMode::Fifo,
                }
                &&& v.projection == Projection::spec_new(width, height)
                &&& !v.mouse_pressed
                &&& v.draw_shapes@ == Seq::<DrawShapePipeline>::empty()
                &&& !v.keys.rotation
                &&& v.overlay == overlay
                &&& !v.egui_repaint
            },
    {
        let config = match SurfaceConfiguration::negotiate(capabilities, width, height) {
            Ok(config) => config,
            Err(error) => {
                return Err(error);
            },
        };
        Ok(
            RenderView {
                size: SurfaceSize { width, height },
                config,
                projection: Projection::new(width, height),
                mouse_pressed: false,
                draw_shapes: VecDeque::new(),
                keys: Keys::default(),
                skybox_pipeline: PipelineDescriptor::sky(&config),
                overlay,
                egui_repaint: false,
            },
        )
    }

    /// Adds a shape to the end of the scene, with a pipeline built for it.
    /// The shapes before it stay as they are, and so does the rest of the
    /// view.
    pub fn push_shape(&mut self, shape: DrawShape)
        ensures
            final(self).draw_shapes@.len() == old(self).draw_shapes@.len() + 1,
            final(self).draw_shapes@.drop_last() == old(self).draw_shapes@,
            final(self).draw_shapes@.last().shape == shape,
            final(self).draw_shapes@.last().pipeline.is_for_shape(old(self).config, shape),
            final(self).size == old(self).size,
            final(self).config == old(self).config,
            final(self).projection == old(self).projection,
            final(self).mouse_pressed == old(self).mouse_pressed,
            final(self).keys == old(self).keys,
            final(self).skybox_pipeline == old(self).skybox_pipeline,
            final(self).overlay == old(self).overlay,
            final(self).egui_repaint == old(self).egui_repaint,
            old(self).wf() ==> final(self).wf(),
    {
        let built = DrawShapePipeline::new(&self.config, shape);
        self.draw_shapes.push_back(built);
        assert(self.draw_shapes@.drop_last() =~= old(self).draw_shapes@);
    }

    /// Follows a change of the window's size. A size with an area is
    /// stored and the surface configured at it; a size without one, as of
    /// a minimised window, leaves the surface alone. The projection is told
    /// of the new size in either case.
    pub fn resize(&mut self, new_size: SurfaceSize) -> (commands: Vec<Command>)
        ensures
            *final(self) == old(self).spec_resized(new_size),
            commands@ == resize_commands(new_size),
            old(self).wf() ==> final(self).wf(),
    {
        let mut commands: Vec<Command> = Vec::new();
        if new_size.width > 0 && new_size.height > 0 {
            self.size = new_size;
            self.config.width = new_size.width;
            self.config.height = new_size.height;
            commands.push(Command::Configure { width: new_size.width, height: new_size.height });
        }
        self.projection.resize(new_size.width, new_size.height);
        commands
    }

    /// Builds the surface again at the last size it was configured at, as
    /// a resize to that size does.
    pub fn recover(&mut self) -> (commands: Vec<Command>)
        ensures
            *final(self) == old(self).spec_resized(old(self).size),
            commands@ == resize_commands(old(self).size),
            old(self).wf() ==> final(self).wf(),
    {
        let size = self.size;
        self.resize(size)
    }

    /// Says what a tick has to bring up to date, in order. All of it is
    /// written before the frame's commands are submitted.
    pub fn update(&self) -> (steps: Vec<UpdateStep>)
        ensures
            steps@ == update_steps(self.keys),
    {
        let mut steps: Vec<UpdateStep> = Vec::new();
        if self.keys.rotation {
            steps.push(UpdateStep::AdvanceRotation);
        }
        steps.push(UpdateStep::MoveCamera);
        steps.push(UpdateStep::WriteCameraUniform);
        steps.push(UpdateStep::UpdateTexture);
        steps
    }

    /// Decides what the frame does, given whether the surface handed out
    /// its next texture. A failure is reported by its class, together with
    /// the commands of its recovery, which hold no draw; a fatal one is left
    /// to the caller.
    pub fn render(&mut self, acquired: Result<(), SurfaceError>) -> (frame: Frame)
        ensures
            *final(self) == old(self).spec_rendered(acquired),
            frame.error == Self::spec_frame_error(acquired),
            frame.commands@ == old(self).spec_frame_commands(acquired),
            old(self).wf() ==> final(self).wf(),
    {
        match acquired {
            Ok(()) => Frame { error: None, commands: self.draw_frame() },
            Err(error) => {
                let class = error.classify();
                let commands = match class.recovery() {
                    Recovery::Reconfigure => self.recover(),
                    Recovery::Skip => Vec::new(),
                    Recovery::Fatal => Vec::new(),
                };
                Frame { error: Some(class), commands }
            },
        }
    }

    /// Lists the commands of a frame on an acquired texture.
    pub fn draw_frame(&self) -> (commands: Vec<Command>)
        ensures
            commands@ == frame_commands(self.draw_shapes@, self.overlay),
    {
        let mut commands: Vec<Command> = Vec::new();
        push_draw_pass(&mut commands, LoadOp::Clear, PipelineRef::Sky, SKY_VERTICES);
        let n: usize = self.draw_shapes.len();
        let mut i: usize = 0;
        assert(self.draw_shapes@.take(0) =~= Seq::<DrawShapePipeline>::empty());
        while i < n
            invariant
                n == self.draw_shapes@.len(),
                i <= n,
                commands@ == sky_pass() + shape_passes(self.draw_shapes@.take(i as int)),
            decreases n - i,
        {
            let vertex_count: u32 = self.draw_shapes[i].shape.vertex_count;
            push_draw_pass(&mut commands, LoadOp::Load, PipelineRef::Shape(i), vertex_count);
            proof {
                let shapes = self.draw_shapes@;
                let before = shapes.take(i as int);
                let after = shapes.take(i + 1);
                assert(after.drop_last() =~= before);
                assert(after.last() == shapes[i as int]);
            }
            i = i + 1;
        }
        assert(self.draw_shapes@.take(n as int) =~= self.draw_shapes@);
        if self.overlay {
            commands.push(Command::BeginPass { load: LoadOp::Load });
            commands.push(Command::DrawOverlay);
            commands.push(Command::EndPass);
        }
        commands.push(Command::Submit);
        commands.push(Command::Present);
        assert(commands@ =~= frame_commands(self.draw_shapes@, self.overlay));
        commands
    }
}

/// A resize to a size without an area, as of a minimised window, leaves
/// the surface alone: nothing is configured, and the view keeps its size
/// and the surface's configuration. The projection is told all the same,
/// and the next resize to a size with an area configures the surface at
/// that size and gives the projection that size's aspect.
pub proof fn lemma_resize_without_area(view: RenderView, empty: SurfaceSize, next: SurfaceSize)
    requires
        empty.width == 0 || empty.height == 0,
        next.width > 0 && next.height > 0,
    ensures
        resize_commands(empty) == Seq::<Command>::empty(),
        view.spec_resized(empty).size == view.size,
        view.spec_resized(empty).config == view.config,
        view.spec_resized(empty).projection == view.projection.spec_resized(
            empty.width,
            empty.height,
        ),
        resize_commands(next) == seq![Command::Configure { width: next.width, height: next.height }],
        view.spec_resized(empty).spec_resized(next).size == next,
        view.spec_resized(empty).spec_resized(next).config.width == next.width,
        view.spec_resized(empty).spec_resized(next).config.height == next.height,
        view.spec_resized(empty).spec_resized(next).projection == Projection::spec_new(
            next.width,
            next.height,
        ),
{
}

/// Recovering twice is recovering once, and a view that has just been
/// resized to a size with an area is left as it is by a recovery: losing
/// the surface any number of times in a row does no more to the view than
/// losing it once.
pub proof fn lemma_recovery_settles(view: RenderView, new_size: SurfaceSize)
    ensures
        view.spec_resized(view.size).spec_resized(view.spec_resized(view.size).size)
            == view.spec_resized(view.size),
        view.spec_rendered(Err(SurfaceError::Lost)).spec_rendered(Err(SurfaceError::Lost))
            == view.spec_rendered(Err(SurfaceError::Lost)),
        new_size.width > 0 && new_size.height > 0 ==> view.spec_resized(new_size).spec_rendered(
            Err(SurfaceError::Lost),
        ) == view.spec_resized(new_size),
{
}

/// A frame without a texture draws nothing, submits nothing and presents
/// nothing. A lost surface is configured once, at the view's size, if that
/// size has an area; no other failure configures it or changes the view.
/// The only failure that ends the program is a device out of memory.
pub proof fn lemma_failed_frame(view: RenderView, error: SurfaceError)
    ensures
        draw_count(view.spec_frame_commands(Err(error))) == 0,
        occurrences(view.spec_frame_commands(Err(error)), Command::Submit) == 0,
        occurrences(view.spec_frame_commands(Err(error)), Command::Present) == 0,
        view.spec_frame_commands(Err(error)) == if error == SurfaceError::Lost {
            resize_commands(view.size)
        } else {
            Seq::<Command>::empty()
        },
        error != SurfaceError::Lost ==> view.spec_rendered(Err(error)) == view,
        RenderView::spec_frame_error(Err(error)) matches Some(class) && (class.spec_is_fatal()
            <==> error == SurfaceError::OutOfMemory),
{
    reveal_with_fuel(draw_count, 2);
    reveal_with_fuel(occurrences, 2);
    let commands = resize_commands(view.size);
    if commands.len() > 0 {
        assert(commands.drop_last().len() == 0);
    }
}

/// A frame with a texture reports no failure and changes nothing in the
/// view.
pub proof fn lemma_drawn_frame_keeps_view(view: RenderView)
    ensures
        view.spec_rendered(Ok(())) == view,
        RenderView::spec_frame_error(Ok(())).is_none(),
        view.spec_frame_commands(Ok(())) == frame_commands(view.draw_shapes@, view.overlay),
{
}

} // verus!
