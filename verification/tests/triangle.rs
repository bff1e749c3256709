use drawing_a_triangle::triangle::{
    fragment_shader, get_index_buffer, get_shader_program, get_triangle_vertices,
    get_vertex_buffer, vertex_shader, NoIndices, PrimitiveType, Program, Vertex, VertexBuffer,
    FRAGMENT_SHADER, UNIT, VERTEX_SHADER,
};

fn as_float(coordinate: i32) -> f32 {
    coordinate as f32 / UNIT as f32
}

#[test]
fn triangle_has_three_vertices() {
    assert_eq!(get_triangle_vertices().len(), 3);
}

#[test]
fn triangle_vertices_are_the_fixed_corners() {
    assert_eq!(
        get_triangle_vertices(),
        vec![
            Vertex { x: -500, y: -500 },
            Vertex { x: 0, y: 500 },
            Vertex { x: 500, y: -250 },
        ]
    );
}

#[test]
fn triangle_vertices_read_as_floats() {
    let positions: Vec<[f32; 2]> =
        get_triangle_vertices().iter().map(|v| [as_float(v.x), as_float(v.y)]).collect();
    assert_eq!(positions, vec![[-0.5, -0.5], [0.0, 0.5], [0.5, -0.25]]);
}

#[test]
fn triangle_vertices_do_not_change_between_calls() {
    let first = get_triangle_vertices();
    for _ in 0..100 {
        assert_eq!(get_triangle_vertices(), first);
    }
}

#[test]
fn triangle_lies_in_clip_space() {
    for v in get_triangle_vertices() {
        assert!(-UNIT <= v.x && v.x <= UNIT);
        assert!(-UNIT <= v.y && v.y <= UNIT);
    }
}

#[test]
fn unit_is_a_thousand() {
    assert_eq!(UNIT, 1000);
}

#[test]
fn index_buffer_is_a_triangle_list_without_indices() {
    assert_eq!(get_index_buffer(), NoIndices(PrimitiveType::TrianglesList));
    assert_ne!(get_index_buffer(), NoIndices(PrimitiveType::TriangleStrip));
    assert_ne!(get_index_buffer(), NoIndices(PrimitiveType::TriangleFan));
}

#[test]
fn vertex_shader_text() {
    let expected = "
        #version 140

        // This tells the shader that we expect a position variable to be passed to it. We say it's a vec2 because our Vertex struct
        // holds a Vec struct with 2 values in it, our x & y co-ordinates.
        in vec2 position;

        // The main function is called once per vertex, and for each vertex the position value will be equal to the 2d vertex array, e.g. [0.5, -0.5]
        // This function then does some conversion to screen space. In this case, it's doing no calculation at all, and will just draw it at
        // whatever pixel position corresponds to the float co-ordinates.
        void main() {
            gl_Position = vec4(position, 0.0, 1.0);
        }
    ";
    assert_eq!(vertex_shader(), expected);
    assert_eq!(VERTEX_SHADER, expected);
}

#[test]
fn fragment_shader_text() {
    let expected = "
        #version 140

        // Out is like a return statement. This shader will return a colour.
        out vec4 color;

        void main() {
            color = vec4(1.0, 0.0, 0.0, 1.0);
        }
    ";
    assert_eq!(fragment_shader(), expected);
    assert_eq!(FRAGMENT_SHADER, expected);
}

#[test]
fn vertex_shader_passes_the_position_through() {
    let source = vertex_shader();
    assert!(source.contains("#version 140"));
    assert!(source.contains("in vec2 position;"));
    assert!(source.contains("gl_Position = vec4(position, 0.0, 1.0);"));
}

#[test]
fn fragment_shader_writes_opaque_red() {
    let source = fragment_shader();
    assert!(source.contains("#version 140"));
    assert!(source.contains("out vec4 color;"));
    assert!(source.contains("color = vec4(1.0, 0.0, 0.0, 1.0);"));
    assert_eq!(source.matches("vec4(").count(), 1);
}

#[test]
fn shaders_differ() {
    assert_ne!(vertex_shader(), fragment_shader());
}

#[test]
fn vertex_buffer_holds_the_triangle() {
    assert_eq!(
        get_vertex_buffer(),
        VertexBuffer {
            vertices: vec![
                Vertex { x: -500, y: -500 },
                Vertex { x: 0, y: 500 },
                Vertex { x: 500, y: -250 },
            ],
        }
    );
    assert_eq!(get_vertex_buffer().vertices, get_triangle_vertices());
}

#[test]
fn shader_program_has_two_stages() {
    assert_eq!(
        get_shader_program(),
        Program {
            vertex_shader: VERTEX_SHADER,
            fragment_shader: FRAGMENT_SHADER,
            geometry_shader: None,
        }
    );
    assert_eq!(get_shader_program().vertex_shader, vertex_shader());
    assert_eq!(get_shader_program().fragment_shader, fragment_shader());
}
