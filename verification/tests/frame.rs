use drawing_a_triangle::frame::{clear_color, draw, draw_call, Frame, FrameCommand, Rgba};
use drawing_a_triangle::triangle::{
    fragment_shader, get_shader_program, get_triangle_vertices, get_vertex_buffer, vertex_shader,
    NoIndices, PrimitiveType, Vertex,
};

fn blue() -> Rgba {
    Rgba { red: 0, green: 0, blue: 1000, alpha: 1000 }
}

fn draws(frame: &Frame) -> Vec<usize> {
    let mut found = Vec::new();
    for (i, command) in frame.commands.iter().enumerate() {
        if matches!(command, FrameCommand::Draw(_)) {
            found.push(i);
        }
    }
    found
}

#[test]
fn clear_color_is_opaque_blue() {
    assert_eq!(clear_color(), blue());
    let channels: Vec<f32> = [clear_color().red, clear_color().green, clear_color().blue, clear_color().alpha]
        .iter()
        .map(|c| *c as f32 / 1000.0)
        .collect();
    assert_eq!(channels, vec![0.0, 0.0, 1.0, 1.0]);
}

#[test]
fn draw_call_holds_the_triangle() {
    let call = draw_call();
    assert_eq!(
        call.vertex_buffer.vertices,
        vec![
            Vertex { x: -500, y: -500 },
            Vertex { x: 0, y: 500 },
            Vertex { x: 500, y: -250 },
        ]
    );
    assert_eq!(call.vertex_buffer.vertices, get_triangle_vertices());
    assert_eq!(call.vertex_buffer, get_vertex_buffer());
    assert_eq!(call.indices, NoIndices(PrimitiveType::TrianglesList));
    assert_eq!(call.program, get_shader_program());
    assert_eq!(call.program.vertex_shader, vertex_shader());
    assert_eq!(call.program.fragment_shader, fragment_shader());
    assert_eq!(call.program.geometry_shader, None);
}

#[test]
fn frame_is_acquire_clear_draw_present() {
    let frame = draw();
    assert_eq!(
        frame.commands,
        vec![
            FrameCommand::Acquire,
            FrameCommand::Clear(blue()),
            FrameCommand::Draw(draw_call()),
            FrameCommand::Present,
        ]
    );
}

#[test]
fn frame_has_one_draw_call() {
    assert_eq!(draws(&draw()), vec![2]);
}

#[test]
fn frame_clears_to_blue_right_before_drawing() {
    let frame = draw();
    for i in draws(&frame) {
        assert!(i > 0);
        assert_eq!(frame.commands[i - 1], FrameCommand::Clear(blue()));
    }
}

#[test]
fn frame_clears_once() {
    let frame = draw();
    let clears = frame.commands.iter().filter(|c| matches!(c, FrameCommand::Clear(_))).count();
    assert_eq!(clears, 1);
}

#[test]
fn frame_starts_by_acquiring_and_ends_by_presenting() {
    let frame = draw();
    assert_eq!(frame.commands.first(), Some(&FrameCommand::Acquire));
    assert_eq!(frame.commands.last(), Some(&FrameCommand::Present));
}

#[test]
fn frames_are_all_alike() {
    let first = draw();
    for _ in 0..100 {
        assert_eq!(draw(), first);
    }
}
