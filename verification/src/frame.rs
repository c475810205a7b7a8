//! The commands that make up one frame.
//!
//! A frame whose texture has been acquired is encoded, submitted and
//! presented, in this order. It is a list of commands for the GPU, in the
//! order in which they are recorded: the sky first, on a cleared target;
//! then each shape in the caller's order, each in a pass of its own that
//! keeps what the target holds; then the overlay, if there is one; and at
//! the end one submission and one presentation. Nothing tests depth, so the
//! order of the passes is the order of the layers.

use crate::bind::BindSlot;
use crate::draw_shape::DrawShapePipeline;
use vstd::prelude::*;

verus! {

/// What a pass does with the target's contents when it begins.
#[derive(Debug, Clone, Copy, PartialEq, Eq, Structural)]
pub enum LoadOp {
    /// The target is cleared to the default colour.
    Clear,
    /// The target keeps what earlier passes drew.
    Load,
}

/// A pipeline of the view.
#[derive(Debug, Clone, Copy, PartialEq, Eq, Structural)]
pub enum PipelineRef {
    /// The pipeline of the sky.
    Sky,
    /// The pipeline of the shape at this place in the view's list.
    Shape(usize),
}

/// One command for the surface, the command recorder or the queue.
#[derive(Debug, Clone, Copy, PartialEq, Eq, Structural)]
pub enum Command {
    /// Configure the surface at this size.
    Configure { width: u32, height: u32 },
    /// Begin a render pass on the frame's texture.
    BeginPass { load: LoadOp },
    /// Set the bind group of a slot, at the slot's position.
    SetBindGroup { slot: BindSlot },
    /// Set the pipeline.
    SetPipeline { pipeline: PipelineRef },
    /// Draw without indices.
    Draw { first_vertex: u32, vertex_count: u32, first_instance: u32, instance_count: u32 },
    /// Draw the overlay's primitives.
    DrawOverlay,
    /// End the render pass.
    EndPass,
    /// Finish the recorder and submit its command buffer to the queue.
    Submit,
    /// Present the frame's texture.
    Present,
}

/// The sky is one triangle that covers the screen.
pub const SKY_VERTICES: u32 = 3;

/// The number of commands of a pass that draws.
pub const DRAW_PASS_LEN: usize = 8;

/// The number of commands of the overlay's pass.
pub const OVERLAY_PASS_LEN: usize = 3;

/// A pass that draws `vertex_count` vertices once with a pipeline: all
/// four bind groups are set in slot order, then the pipeline, then comes
/// the draw.
pub open spec fn draw_pass(load: LoadOp, pipeline: PipelineRef, vertex_count: u32) -> Seq<
    Command,
> {
    seq![
        Command::BeginPass { load },
        Command::SetBindGroup { slot: BindSlot::Rotation },
        Command::SetBindGroup { slot: BindSlot::Camera },
        Command::SetBindGroup { slot: BindSlot::Skybox },
        Command::SetBindGroup { slot: BindSlot::Texture },
        Command::SetPipeline { pipeline },
        Command::Draw { first_vertex: 0, vertex_count, first_instance: 0, instance_count: 1 },
        Command::EndPass,
    ]
}

/// The pass of the sky: it clears the target and draws the triangle.
pub open spec fn sky_pass() -> Seq<Command> {
    draw_pass(LoadOp::Clear, PipelineRef::Sky, SKY_VERTICES)
}

/// The pass of the shape at place `index`.
pub open spec fn shape_pass(shapes: Seq<DrawShapePipeline>, index: int) -> Seq<Command>
    recommends
        0 <= index < shapes.len(),
{
    draw_pass(LoadOp::Load, PipelineRef::Shape(index as usize), shapes[index].shape.vertex_count)
}

/// The passes of the shapes, one after the other in the list's order.
pub open spec fn shape_passes(shapes: Seq<DrawShapePipeline>) -> Seq<Command>
    decreases shapes.len(),
{
    if shapes.len() == 0 {
        Seq::empty()
    } else {
        shape_passes(shapes.drop_last()) + shape_pass(shapes, shapes.len() - 1)
    }
}

/// The pass of the overlay: it keeps the target and draws on top.
pub open spec fn overlay_pass(overlay: bool) -> Seq<Command> {
    if overlay {
        seq![Command::BeginPass { load: LoadOp::Load }, Command::DrawOverlay, Command::EndPass]
    } else {
        Seq::empty()
    }
}

/// The end of every frame: one submission, then one presentation.
pub open spec fn frame_end() -> Seq<Command> {
    seq![Command::Submit, Command::Present]
}

/// The commands of a frame that draws the sky, the given shapes and, if
/// asked for, the overlay.
pub open spec fn frame_commands(shapes: Seq<DrawShapePipeline>, overlay: bool) -> Seq<Command> {
    sky_pass() + shape_passes(shapes) + overlay_pass(overlay) + frame_end()
}

/// How often a command occurs in a list.
pub open spec fn occurrences(commands: Seq<Command>, command: Command) -> nat
    decreases commands.len(),
{
    if commands.len() == 0 {
        0
    } else {
        occurrences(commands.drop_last(), command) + if commands.last() == command {
            1nat
        } else {
            0nat
        }
    }
}

/// How many draws of the scene a list of commands holds.
pub open spec fn draw_count(commands: Seq<Command>) -> nat
    decreases commands.len(),
{
    if commands.len() == 0 {
        0
    } else {
        draw_count(commands.drop_last()) + if commands.last() is Draw {
            1nat
        } else {
            0nat
        }
    }
}

/// Appends a drawing pass to a list of commands.
pub fn push_draw_pass(
    commands: &mut Vec<Command>,
    load: LoadOp,
    pipeline: PipelineRef,
    vertex_count: u32,
)
    ensures
        final(commands)@ == old(commands)@ + draw_pass(load, pipeline, vertex_count),
{
    commands.push(Command::BeginPass { load });
    commands.push(Command::SetBindGroup { slot: BindSlot::Rotation });
    commands.push(Command::SetBindGroup { slot: BindSlot::Camera });
    commands.push(Command::SetBindGroup { slot: BindSlot::Skybox });
    commands.push(Command::SetBindGroup { slot: BindSlot::Texture });
    commands.push(Command::SetPipeline { pipeline });
    commands.push(
        Command::Draw { first_vertex: 0, vertex_count, first_instance: 0, instance_count: 1 },
    );
    commands.push(Command::EndPass);
    assert(commands@ =~= old(commands)@ + draw_pass(load, pipeline, vertex_count));
}

/// The passes of the shapes take eight commands each.
pub proof fn lemma_shape_passes_len(shapes: Seq<DrawShapePipeline>)
    ensures
        shape_passes(shapes).len() == DRAW_PASS_LEN * shapes.len(),
    decreases shapes.len(),
{
    if shapes.len() > 0 {
        lemma_shape_passes_len(shapes.drop_last());
    }
}

/// The pass of each shape stands at the shape's place among the passes:
/// the shapes are drawn in the order of the list, each with its own
/// pipeline and its own number of vertices.
pub proof fn lemma_shape_pass_at(shapes: Seq<DrawShapePipeline>, index: int)
    requires
        0 <= index < shapes.len(),
    ensures
        shape_passes(shapes).subrange(DRAW_PASS_LEN * index, DRAW_PASS_LEN * (index + 1))
            == shape_pass(shapes, index),
    decreases shapes.len(),
{
    lemma_shape_passes_len(shapes);
    let shorter = shapes.drop_last();
    lemma_shape_passes_len(shorter);
    if index == shapes.len() - 1 {
        assert(shape_passes(shapes).subrange(DRAW_PASS_LEN * index, DRAW_PASS_LEN * (index + 1))
            =~= shape_pass(shapes, index));
    } else {
        lemma_shape_pass_at(shorter, index);
        assert(shape_pass(shorter, index) == shape_pass(shapes, index));
        assert(shape_passes(shapes).subrange(DRAW_PASS_LEN * index, DRAW_PASS_LEN * (index + 1))
            =~= shape_passes(shorter).subrange(
            DRAW_PASS_LEN * index,
            DRAW_PASS_LEN * (index + 1),
        ));
    }
}

/// Occurrences add up over lists laid end to end.
pub proof fn lemma_occurrences_add(first: Seq<Command>, second: Seq<Command>, command: Command)
    ensures
        occurrences(first + second, command) == occurrences(first, command) + occurrences(
            second,
            command,
        ),
    decreases second.len(),
{
    if second.len() == 0 {
        assert(first + second =~= first);
    } else {
        lemma_occurrences_add(first, second.drop_last(), command);
        assert((first + second).drop_last() =~= first + second.drop_last());
    }
}

/// Draws add up over lists laid end to end.
pub proof fn lemma_draw_count_add(first: Seq<Command>, second: Seq<Command>)
    ensures
        draw_count(first + second) == draw_count(first) + draw_count(second),
    decreases second.len(),
{
    if second.len() == 0 {
        assert(first + second =~= first);
    } else {
        lemma_draw_count_add(first, second.drop_last());
        assert((first + second).drop_last() =~= first + second.drop_last());
    }
}

/// A drawing pass holds one draw and neither a submission nor a
/// presentation, and it clears the target only if it is told to.
pub proof fn lemma_draw_pass_counts(load: LoadOp, pipeline: PipelineRef, vertex_count: u32)
    ensures
        draw_count(draw_pass(load, pipeline, vertex_count)) == 1,
        occurrences(draw_pass(load, pipeline, vertex_count), Command::Submit) == 0,
        occurrences(draw_pass(load, pipeline, vertex_count), Command::Present) == 0,
        occurrences(
            draw_pass(load, pipeline, vertex_count),
            Command::BeginPass { load: LoadOp::Clear },
        ) == if load == LoadOp::Clear {
            1nat
        } else {
            0nat
        },
{
    let pass = draw_pass(load, pipeline, vertex_count);
    reveal_with_fuel(draw_count, 9);
    reveal_with_fuel(occurrences, 9);
    let front7 = pass.drop_last();
    let front6 = front7.drop_last();
    let front5 = front6.drop_last();
    let front4 = front5.drop_last();
    let front3 = front4.drop_last();
    let front2 = front3.drop_last();
    let front1 = front2.drop_last();
    let front0 = front1.drop_last();
    assert(front0.len() == 0);
}

/// The passes of the shapes hold one draw for each shape and neither a
/// submission nor a presentation, and none of them clears the target.
pub proof fn lemma_shape_passes_counts(shapes: Seq<DrawShapePipeline>)
    ensures
        draw_count(shape_passes(shapes)) == shapes.len(),
        occurrences(shape_passes(shapes), Command::Submit) == 0,
        occurrences(shape_passes(shapes), Command::Present) == 0,
        occurrences(shape_passes(shapes), Command::BeginPass { load: LoadOp::Clear }) == 0,
    decreases shapes.len(),
{
    if shapes.len() > 0 {
        let shorter = shapes.drop_last();
        let last = shape_pass(shapes, shapes.len() - 1);
        lemma_shape_passes_counts(shorter);
        lemma_draw_pass_counts(
            LoadOp::Load,
            PipelineRef::Shape((shapes.len() - 1) as usize),
            shapes[shapes.len() - 1].shape.vertex_count,
        );
        lemma_draw_count_add(shape_passes(shorter), last);
        lemma_occurrences_add(shape_passes(shorter), last, Command::Submit);
        lemma_occurrences_add(shape_passes(shorter), last, Command::Present);
        lemma_occurrences_add(
            shape_passes(shorter),
            last,
            Command::BeginPass { load: LoadOp::Clear },
        );
    }
}

/// The overlay's pass holds no draw of the scene, no submission and no
/// presentation, and it does not clear the target.
pub proof fn lemma_overlay_pass_counts(overlay: bool)
    ensures
        draw_count(overlay_pass(overlay)) == 0,
        occurrences(overlay_pass(overlay), Command::Submit) == 0,
        occurrences(overlay_pass(overlay), Command::Present) == 0,
        occurrences(overlay_pass(overlay), Command::BeginPass { load: LoadOp::Clear }) == 0,
{
    let pass = overlay_pass(overlay);
    reveal_with_fuel(draw_count, 4);
    reveal_with_fuel(occurrences, 4);
    if overlay {
        let front2 = pass.drop_last();
        let front1 = front2.drop_last();
        let front0 = front1.drop_last();
        assert(front0.len() == 0);
    }
}

/// Every frame begins with the same pass, however many shapes follow and
/// whether or not there is an overlay: the target is cleared and the sky
/// drawn with three vertices from vertex 0, once, from instance 0.
pub proof fn lemma_sky_pass_is_fixed(shapes: Seq<DrawShapePipeline>, overlay: bool)
    ensures
        frame_commands(shapes, overlay).take(DRAW_PASS_LEN as int) == sky_pass(),
        frame_commands(shapes, overlay)[0] == (Command::BeginPass { load: LoadOp::Clear }),
        frame_commands(shapes, overlay)[5] == (Command::SetPipeline { pipeline: PipelineRef::Sky }),
        frame_commands(shapes, overlay)[6] == (Command::Draw {
            first_vertex: 0,
            vertex_count: 3,
            first_instance: 0,
            instance_count: 1,
        }),
{
    assert(frame_commands(shapes, overlay).take(DRAW_PASS_LEN as int) =~= sky_pass());
}

/// After the sky, the frame holds the pass of each shape at the shape's
/// place: that pass keeps the target, uses the shape's pipeline and draws
/// the shape's vertices once.
pub proof fn lemma_frame_shape_pass(shapes: Seq<DrawShapePipeline>, overlay: bool, index: int)
    requires
        0 <= index < shapes.len(),
    ensures
        frame_commands(shapes, overlay).subrange(
            DRAW_PASS_LEN * (index + 1),
            DRAW_PASS_LEN * (index + 2),
        ) == shape_pass(shapes, index),
{
    lemma_shape_passes_len(shapes);
    lemma_shape_pass_at(shapes, index);
    assert(frame_commands(shapes, overlay).subrange(
        DRAW_PASS_LEN * (index + 1),
        DRAW_PASS_LEN * (index + 2),
    ) =~= shape_passes(shapes).subrange(DRAW_PASS_LEN * index, DRAW_PASS_LEN * (index + 1)));
}

/// A frame holds one draw for the sky and one for each shape, one
/// submission and one presentation, and these two are its last commands.
/// The target is cleared once, by the frame's first command.
pub proof fn lemma_frame_counts(shapes: Seq<DrawShapePipeline>, overlay: bool)
    ensures
        occurrences(frame_commands(shapes, overlay), Command::BeginPass { load: LoadOp::Clear })
            == 1,
        frame_commands(shapes, overlay)[0] == (Command::BeginPass { load: LoadOp::Clear }),
        frame_commands(shapes, overlay).len() == DRAW_PASS_LEN * (shapes.len() + 1) + (if overlay {
            OVERLAY_PASS_LEN as int
        } else {
            0
        }) + 2,
        draw_count(frame_commands(shapes, overlay)) == shapes.len() + 1,
        occurrences(frame_commands(shapes, overlay), Command::Submit) == 1,
        occurrences(frame_commands(shapes, overlay), Command::Present) == 1,
        frame_commands(shapes, overlay).last() == Command::Present,
        frame_commands(shapes, overlay)[frame_commands(shapes, overlay).len() - 2]
            == Command::Submit,
{
    let sky = sky_pass();
    let mid = shape_passes(shapes);
    let over = overlay_pass(overlay);
    let end = frame_end();
    lemma_shape_passes_len(shapes);
    lemma_draw_pass_counts(LoadOp::Clear, PipelineRef::Sky, SKY_VERTICES);
    lemma_shape_passes_counts(shapes);
    lemma_overlay_pass_counts(overlay);
    let clear = Command::BeginPass { load: LoadOp::Clear };
    assert(draw_count(end) == 0 && occurrences(end, Command::Submit) == 1 && occurrences(
        end,
        Command::Present,
    ) == 1 && occurrences(end, clear) == 0) by {
        reveal_with_fuel(draw_count, 3);
        reveal_with_fuel(occurrences, 3);
        let rest1 = end.drop_last();
        let rest0 = rest1.drop_last();
        assert(rest0.len() == 0);
    }
    lemma_draw_count_add(sky, mid);
    lemma_draw_count_add(sky + mid, over);
    lemma_draw_count_add(sky + mid + over, end);
    lemma_occurrences_add(sky, mid, Command::Submit);
    lemma_occurrences_add(sky + mid, over, Command::Submit);
    lemma_occurrences_add(sky + mid + over, end, Command::Submit);
    lemma_occurrences_add(sky, mid, Command::Present);
    lemma_occurrences_add(sky + mid, over, Command::Present);
    lemma_occurrences_add(sky + mid + over, end, Command::Present);
    lemma_occurrences_add(sky, mid, clear);
    lemma_occurrences_add(sky + mid, over, clear);
    lemma_occurrences_add(sky + mid + over, end, clear);
}

/// With an overlay, the last pass of the frame is the overlay's: it keeps
/// the target, and the submission follows it.
pub proof fn lemma_frame_overlay_is_last(shapes: Seq<DrawShapePipeline>)
    ensures
        frame_commands(shapes, true).subrange(
            frame_commands(shapes, true).len() - 2 - OVERLAY_PASS_LEN,
            frame_commands(shapes, true).len() - 2,
        ) == overlay_pass(true),
        frame_commands(shapes, false) == sky_pass() + shape_passes(shapes) + frame_end(),
{
    lemma_shape_passes_len(shapes);
    let frame = frame_commands(shapes, true);
    assert(frame.subrange(frame.len() - 2 - OVERLAY_PASS_LEN, frame.len() - 2) =~= overlay_pass(
        true,
    ));
    assert(frame_commands(shapes, false) =~= sky_pass() + shape_passes(shapes) + frame_end());
}

} // verus!
