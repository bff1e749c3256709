//! The commands that make up one frame.
//!
//! A frame is described as data: the short list of commands that a renderer
//! carries out, in order, to put one picture on the screen. Every frame of
//! the program is the same list.

use vstd::prelude::*;
use crate::triangle::{
    get_index_buffer, get_shader_program, get_vertex_buffer, triangle_program, triangle_vertices,
    NoIndices, PrimitiveType, Program, ProgramView, Vertex, VertexBuffer,
};

verus! {

/// A colour with transparency. Each channel is in thousandths of full
/// intensity: 0 is none of it, 1000 is all of it.
#[derive(Clone, Copy, Debug, PartialEq, Eq, Structural)]
pub struct Rgba {
    pub red: i32,
    pub green: i32,
    pub blue: i32,
    pub alpha: i32,
}

/// Everything that one draw call hands to the graphics pipeline. It takes no
/// uniform inputs.
#[derive(Clone, Debug, PartialEq, Eq)]
pub struct DrawCall {
    /// The vertices to draw.
    pub vertex_buffer: VertexBuffer,
    /// The index source, which also says how the vertices are grouped.
    pub indices: NoIndices,
    /// The shaders that the vertices run through.
    pub program: Program,
}

/// The mathematical content of a [`DrawCall`].
pub struct DrawCallView {
    pub vertices: Seq<Vertex>,
    pub indices: NoIndices,
    pub program: ProgramView,
}

impl View for DrawCall {
    type V = DrawCallView;

    open spec fn view(&self) -> DrawCallView {
        DrawCallView {
            vertices: self.vertex_buffer@,
            indices: self.indices,
            program: self.program@,
        }
    }
}

/// One step of rendering a frame.
#[derive(Clone, Debug, PartialEq, Eq)]
pub enum FrameCommand {
    /// Take the back buffer of the window as the target of what follows.
    Acquire,
    /// Fill the whole target with one colour.
    Clear(Rgba),
    /// Rasterize geometry onto the target.
    Draw(DrawCall),
    /// Swap the target onto the screen, which ends the frame.
    Present,
}

/// The mathematical content of a [`FrameCommand`].
pub enum FrameCommandView {
    Acquire,
    Clear(Rgba),
    Draw(DrawCallView),
    Present,
}

impl View for FrameCommand {
    type V = FrameCommandView;

    open spec fn view(&self) -> FrameCommandView {
        match self {
            FrameCommand::Acquire => FrameCommandView::Acquire,
            FrameCommand::Clear(color) => FrameCommandView::Clear(*color),
            FrameCommand::Draw(call) => FrameCommandView::Draw(call@),
            FrameCommand::Present => FrameCommandView::Present,
        }
    }
}

/// The commands of one frame, in the order in which they are carried out.
#[derive(Clone, Debug, PartialEq, Eq)]
pub struct Frame {
    pub commands: Vec<FrameCommand>,
}

impl View for Frame {
    type V = Seq<FrameCommandView>;

    open spec fn view(&self) -> Seq<FrameCommandView> {
        Seq::new(self.commands@.len(), |i: int| self.commands@[i]@)
    }
}

/// The colour behind the triangle: opaque blue, (0, 0, 1, 1).
pub open spec fn background() -> Rgba {
    Rgba { red: 0, green: 0, blue: 1000, alpha: 1000 }
}

/// The one draw call of the program: the three corners of the triangle, read
/// as a list of triangles without an index buffer, through the fixed pair of
/// shaders.
pub open spec fn triangle_draw_call() -> DrawCallView {
    DrawCallView {
        vertices: triangle_vertices(),
        indices: NoIndices(PrimitiveType::TrianglesList),
        program: triangle_program(),
    }
}

/// The frame that the program shows: acquire the target, clear it to the
/// background colour, draw the triangle, present.
pub open spec fn frame_script() -> Seq<FrameCommandView> {
    seq![
        FrameCommandView::Acquire,
        FrameCommandView::Clear(background()),
        FrameCommandView::Draw(triangle_draw_call()),
        FrameCommandView::Present,
    ]
}

/// The draw calls among `commands`, in order.
pub open spec fn draw_calls(commands: Seq<FrameCommandView>) -> Seq<DrawCallView>
    decreases commands.len(),
{
    if commands.len() == 0 {
        Seq::empty()
    } else {
        let earlier = draw_calls(commands.drop_last());
        match commands.last() {
            FrameCommandView::Draw(call) => earlier.push(call),
            _ => earlier,
        }
    }
}

/// Whether each draw call in `commands` comes directly after the target has
/// been cleared to `color`.
pub open spec fn cleared_before_each_draw(commands: Seq<FrameCommandView>, color: Rgba) -> bool {
    forall|i: int|
        0 <= i < commands.len() && #[trigger] commands[i] is Draw ==> i > 0 && commands[i - 1]
            == FrameCommandView::Clear(color)
}

/// The colour that the target is cleared to before the triangle is drawn.
pub fn clear_color() -> (color: Rgba)
    ensures
        color == background(),
{
    Rgba { red: 0, green: 0, blue: 1000, alpha: 1000 }
}

/// Assembles the draw call for the triangle.
pub fn draw_call() -> (call: DrawCall)
    ensures
        call@ == triangle_draw_call(),
{
    DrawCall {
        vertex_buffer: get_vertex_buffer(),
        indices: get_index_buffer(),
        program: get_shader_program(),
    }
}

/// Lays out one frame.
pub fn draw() -> (frame: Frame)
    ensures
        frame@ == frame_script(),
{
    let mut commands: Vec<FrameCommand> = Vec::new();
    commands.push(FrameCommand::Acquire);
    commands.push(FrameCommand::Clear(clear_color()));
    commands.push(FrameCommand::Draw(draw_call()));
    commands.push(FrameCommand::Present);
    Frame { commands }
}

/// The frame holds exactly one draw call, that of the triangle, and the target
/// is cleared to the background colour directly before it. The frame begins
/// by acquiring the target and ends by presenting it.
pub proof fn lemma_frame_script_shape()
    ensures
        draw_calls(frame_script()) == seq![triangle_draw_call()],
        cleared_before_each_draw(frame_script(), background()),
        frame_script().first() == FrameCommandView::Acquire,
        frame_script().last() == FrameCommandView::Present,
{
    reveal_with_fuel(draw_calls, 5);
}

} // verus!
