//! The static geometry and the shader sources.
//!
//! Positions are kept in fixed point: a coordinate `n` stands for the real
//! number `n / 1000`, so that every value the shape uses is held exactly.

use vstd::prelude::*;

verus! {

/// One unit of normalized device coordinates in the fixed-point scale of
/// [`Vertex`]. The visible area spans `-UNIT..=UNIT` on both axes, with the
/// origin at the centre of the window.
pub const UNIT: i32 = 1000;

/// A vertex of the shape: a 2D position in normalized device coordinates,
/// each component in thousandths of a unit.
#[derive(Clone, Copy, Debug, PartialEq, Eq, Structural)]
pub struct Vertex {
    pub x: i32,
    pub y: i32,
}

/// How consecutive vertices are grouped into primitives.
#[derive(Clone, Copy, Debug, PartialEq, Eq, Structural)]
pub enum PrimitiveType {
    /// Each vertex is a point of its own.
    Points,
    /// Every two vertices form a line.
    LinesList,
    /// Each vertex forms a line with the next one.
    LineStrip,
    /// Like `LineStrip`, and the last vertex is joined to the first.
    LineLoop,
    /// Every three vertices form a triangle.
    TrianglesList,
    /// Each vertex forms a triangle with the two before it.
    TriangleStrip,
    /// Each vertex forms a triangle with the one before it and the first.
    TriangleFan,
}

/// Marks a draw call that has no index buffer: the primitives are built from
/// the vertices in the order in which the vertex buffer holds them.
#[derive(Clone, Copy, Debug, PartialEq, Eq, Structural)]
pub struct NoIndices(pub PrimitiveType);

/// The contents of a vertex buffer: the vertices that are copied to the video
/// card, in the order in which they are drawn.
#[derive(Clone, Debug, PartialEq, Eq)]
pub struct VertexBuffer {
    pub vertices: Vec<Vertex>,
}

impl View for VertexBuffer {
    type V = Seq<Vertex>;

    open spec fn view(&self) -> Seq<Vertex> {
        self.vertices@
    }
}

/// A shader program in source form: the GLSL text of each of its stages.
#[derive(Clone, Copy, Debug, PartialEq, Eq)]
pub struct Program {
    pub vertex_shader: &'static str,
    pub fragment_shader: &'static str,
    /// The geometry stage, which a program need not have.
    pub geometry_shader: Option<&'static str>,
}

/// The mathematical content of a [`Program`].
pub struct ProgramView {
    pub vertex_shader: Seq<char>,
    pub fragment_shader: Seq<char>,
    pub geometry_shader: Option<Seq<char>>,
}

impl View for Program {
    type V = ProgramView;

    open spec fn view(&self) -> ProgramView {
        ProgramView {
            vertex_shader: self.vertex_shader@,
            fragment_shader: self.fragment_shader@,
            geometry_shader: match self.geometry_shader {
                Some(source) => Some(source@),
                None => None,
            },
        }
    }
}

/// The three corners of the triangle, in the order in which they are drawn:
/// (-0.5, -0.5), (0.0, 0.5) and (0.5, -0.25).
pub open spec fn triangle_vertices() -> Seq<Vertex> {
    seq![
        Vertex { x: -500i32, y: -500i32 },
        Vertex { x: 0, y: 500 },
        Vertex { x: 500, y: -250i32 },
    ]
}

/// The program that draws the triangle: the two fixed shaders, and no
/// geometry stage.
pub open spec fn triangle_program() -> ProgramView {
    ProgramView {
        vertex_shader: VERTEX_SHADER@,
        fragment_shader: FRAGMENT_SHADER@,
        geometry_shader: None,
    }
}

impl Vertex {
    /// Whether the vertex lies in the visible area, borders included.
    pub open spec fn in_clip_space(self) -> bool {
        -UNIT <= self.x <= UNIT && -UNIT <= self.y <= UNIT
    }
}

/// Source of the vertex shader, which hands each position on unchanged.
pub const VERTEX_SHADER: &'static str = r#"
        #version 140

        // This tells the shader that we expect a position variable to be passed to it. We say it's a vec2 because our Vertex struct
        // holds a Vec struct with 2 values in it, our x & y co-ordinates.
        in vec2 position;

        // The main function is called once per vertex, and for each vertex the position value will be equal to the 2d vertex array, e.g. [0.5, -0.5]
        // This function then does some conversion to screen space. In this case, it's doing no calculation at all, and will just draw it at
        // whatever pixel position corresponds to the float co-ordinates.
        void main() {
            gl_Position = vec4(position, 0.0, 1.0);
        }
    "#;

/// Source of the fragment shader, which colours every fragment opaque red.
pub const FRAGMENT_SHADER: &'static str = r#"
        #version 140

        // Out is like a return statement. This shader will return a colour.
        out vec4 color;

        void main() {
            color = vec4(1.0, 0.0, 0.0, 1.0);
        }
    "#;

/// The vertices of the triangle.
pub fn get_triangle_vertices() -> (vertices: Vec<Vertex>)
    ensures
        vertices@ == triangle_vertices(),
        forall|i: int| 0 <= i < vertices@.len() ==> (#[trigger] vertices@[i]).in_clip_space(),
{
    let vertex1 = Vertex { x: -500, y: -500 };
    let vertex2 = Vertex { x: 0, y: 500 };
    let vertex3 = Vertex { x: 500, y: -250 };
    let mut vertices: Vec<Vertex> = Vec::new();
    vertices.push(vertex1);
    vertices.push(vertex2);
    vertices.push(vertex3);
    vertices
}

/// The GLSL source of the vertex shader.
pub fn vertex_shader() -> (source: &'static str)
    ensures
        source@ == VERTEX_SHADER@,
{
    VERTEX_SHADER
}

/// The GLSL source of the fragment shader.
pub fn fragment_shader() -> (source: &'static str)
    ensures
        source@ == FRAGMENT_SHADER@,
{
    FRAGMENT_SHADER
}

/// The vertex buffer of the draw call: the three vertices of the triangle.
pub fn get_vertex_buffer() -> (buffer: VertexBuffer)
    ensures
        buffer@ == triangle_vertices(),
{
    VertexBuffer { vertices: get_triangle_vertices() }
}

/// The index source of the draw call: none, the vertices being read as a list
/// of triangles.
pub fn get_index_buffer() -> (indices: NoIndices)
    ensures
        indices == NoIndices(PrimitiveType::TrianglesList),
{
    NoIndices(PrimitiveType::TrianglesList)
}

/// The shader program of the draw call: the vertex shader and the fragment
/// shader, without a geometry shader.
pub fn get_shader_program() -> (program: Program)
    ensures
        program@ == triangle_program(),
{
    Program {
        vertex_shader: vertex_shader(),
        fragment_shader: fragment_shader(),
        geometry_shader: None,
    }
}

} // verus!
