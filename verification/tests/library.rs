use shader_canvas::errors::GraphicsError;
use shader_canvas::errors::ShaderStage;
use shader_canvas::frame::frame_actions;
use shader_canvas::frame::GpuAction;
use shader_canvas::frame::ONE_BITS;
use shader_canvas::geometry::triangle_vertices;
use shader_canvas::geometry::vertex_bytes;
use shader_canvas::geometry::vertex_count;
use shader_canvas::geometry::HALF_BITS;
use shader_canvas::geometry::NEG_HALF_BITS;
use shader_canvas::geometry::TRIANGLE_COORDINATE_COUNT;
use shader_canvas::geometry::ZERO_BITS;
use shader_canvas::shaders::compile_failure_message;
use shader_canvas::shaders::fragment_shader_source;
use shader_canvas::shaders::link_failure_message;
use shader_canvas::shaders::object_creation_failure_message;
use shader_canvas::shaders::position_attribute_name;
use shader_canvas::shaders::time_uniform_name;
use shader_canvas::shaders::vertex_shader_source;
use shader_canvas::shaders::FRAGMENT_SHADER_TYPE;
use shader_canvas::shaders::VERTEX_SHADER_TYPE;

const EXPECTED_VERTEX_SOURCE: &str = r##"#version 300 es
 
        in vec2 position;
    
        out vec2 Position;
    
        void main()
        {
          gl_Position = vec4(position, 0.0, 1.0);
        }
        "##;

const EXPECTED_FRAGMENT_SOURCE: &str = r##"#version 300 es
        precision highp float;

        uniform float u_time;
        
        in vec2 Position;
    
        out vec4 outColor;
    
        void main()
        {
          float x = Position.x;
          float y = Position.y;
          vec3 modColour = (0.5*sin(u_time + x*y)+0.5)*vec3(1.0, 1.0, 1.0);
          outColor = vec4(modColour, 1.0);
        }
        "##;

#[test]
fn vertex_source_is_fixed() {
    assert_eq!(vertex_shader_source(), EXPECTED_VERTEX_SOURCE);
    assert_eq!(vertex_shader_source(), vertex_shader_source());
}

#[test]
fn fragment_source_is_fixed() {
    assert_eq!(fragment_shader_source(), EXPECTED_FRAGMENT_SOURCE);
    assert_eq!(fragment_shader_source(), fragment_shader_source());
}

#[test]
fn fragment_source_holds_the_color_formula() {
    let source = fragment_shader_source();
    assert!(source.contains("uniform float u_time;"));
    assert!(source.contains("(0.5*sin(u_time + x*y)+0.5)"));
}

#[test]
fn vertex_source_declares_the_position_attribute() {
    assert!(vertex_shader_source().contains("in vec2 position;"));
    assert_eq!(position_attribute_name(), "position");
    assert_eq!(time_uniform_name(), "u_time");
}

#[test]
fn gl_shader_type_enumerants() {
    assert_eq!(VERTEX_SHADER_TYPE, 0x8B31);
    assert_eq!(FRAGMENT_SHADER_TYPE, 0x8B30);
}

#[test]
fn coordinate_bit_patterns_are_the_documented_values() {
    assert_eq!(ZERO_BITS, 0.0f32.to_bits());
    assert_eq!(HALF_BITS, 0.5f32.to_bits());
    assert_eq!(NEG_HALF_BITS, (-0.5f32).to_bits());
    assert_eq!(ONE_BITS, 1.0f32.to_bits());
}

#[test]
fn triangle_mesh_is_the_three_fixed_vertices() {
    let expected: Vec<u32> = [0.0f32, 0.5, 0.5, -0.5, -0.5, -0.5]
        .iter()
        .map(|c| c.to_bits())
        .collect();
    assert_eq!(triangle_vertices(), expected);
    assert_eq!(triangle_vertices().len(), TRIANGLE_COORDINATE_COUNT);
}

#[test]
fn vertex_count_is_half_the_coordinate_count() {
    assert_eq!(vertex_count(TRIANGLE_COORDINATE_COUNT), 3);
    assert_eq!(vertex_count(0), 0);
    assert_eq!(vertex_count(2), 1);
}

#[test]
fn vertex_bytes_are_the_little_endian_coordinates() {
    let words = triangle_vertices();
    let bytes = vertex_bytes(&words);
    let mut expected: Vec<u8> = Vec::new();
    for c in [0.0f32, 0.5, 0.5, -0.5, -0.5, -0.5] {
        expected.extend_from_slice(&c.to_le_bytes());
    }
    assert_eq!(bytes, expected);
    assert_eq!(bytes.len(), 24);
}

#[test]
fn vertex_bytes_of_nothing_is_empty() {
    let bytes = vertex_bytes(&Vec::new());
    assert!(bytes.is_empty());
}

#[test]
fn compile_failure_falls_back_to_the_fixed_text() {
    let m = compile_failure_message(None);
    assert_eq!(m, "Unknown error creating shader");
}

#[test]
fn compile_failure_hands_back_the_log() {
    let m = compile_failure_message(Some(String::from("ERROR: 0:1: syntax error")));
    assert_eq!(m, "ERROR: 0:1: syntax error");
}

#[test]
fn link_failure_falls_back_to_the_fixed_text() {
    let m = link_failure_message(None);
    assert_eq!(m, "Unknown error creating program object");
}

#[test]
fn link_failure_hands_back_the_log() {
    let m = link_failure_message(Some(String::from("varying mismatch")));
    assert_eq!(m, "varying mismatch");
}

#[test]
fn object_creation_failure_text_is_fixed() {
    assert_eq!(object_creation_failure_message(), "Unable to create shader object");
}

#[test]
fn error_messages_per_variant() {
    assert_eq!(
        GraphicsError::SurfaceNotFound.message(),
        "Canvas surface not found"
    );
    assert_eq!(
        GraphicsError::ContextUnavailable.message(),
        "WebGL 2 context unavailable"
    );
    assert_eq!(
        GraphicsError::BufferAllocationFailed.message(),
        "Failed to create buffer"
    );
    assert_eq!(
        GraphicsError::VertexArrayAllocationFailed.message(),
        "Could not create vertex array object"
    );
    let compile = GraphicsError::ShaderCompileError {
        stage: ShaderStage::Vertex,
        log: String::from("bad token"),
    };
    assert_eq!(compile.message(), "bad token");
    let link = GraphicsError::ProgramLinkError {
        log: String::from("no main"),
    };
    assert_eq!(link.message(), "no main");
}

#[test]
fn shader_stages_are_distinct() {
    assert_ne!(ShaderStage::Vertex, ShaderStage::Fragment);
}

fn frame_for_milliseconds(time_ms: f64) -> (u32, Vec<GpuAction>) {
    let seconds_bits = ((time_ms / 1000.0) as f32).to_bits();
    (seconds_bits, frame_actions(seconds_bits))
}

#[test]
fn frame_sets_the_time_uniform_to_seconds() {
    for (time_ms, seconds) in [(0.0f64, 0.0f32), (1000.0, 1.0), (2500.0, 2.5)] {
        let (seconds_bits, actions) = frame_for_milliseconds(time_ms);
        assert_eq!(seconds_bits, seconds.to_bits());
        match &actions[2] {
            GpuAction::SetTimeUniform { seconds_bits: b } => assert_eq!(*b, seconds.to_bits()),
            other => panic!("expected the time uniform command, found {:?}", other),
        }
    }
}

#[test]
fn frame_clears_to_opaque_black() {
    let (_, actions) = frame_for_milliseconds(125.0);
    match &actions[0] {
        GpuAction::SetClearColor { red_bits, green_bits, blue_bits, alpha_bits } => {
            assert_eq!(*red_bits, 0.0f32.to_bits());
            assert_eq!(*green_bits, 0.0f32.to_bits());
            assert_eq!(*blue_bits, 0.0f32.to_bits());
            assert_eq!(*alpha_bits, 1.0f32.to_bits());
        }
        other => panic!("expected the clear color command, found {:?}", other),
    }
    assert!(matches!(actions[1], GpuAction::ClearColorBuffer));
}

#[test]
fn frame_always_draws_three_vertices_as_triangles() {
    for time_ms in [0.0f64, 16.7, 1000.0, 123456.0] {
        let (_, actions) = frame_for_milliseconds(time_ms);
        assert_eq!(actions.len(), 4);
        match &actions[3] {
            GpuAction::DrawTriangles { first, count } => {
                assert_eq!(*first, 0);
                assert_eq!(*count, 3);
            }
            other => panic!("expected the draw command, found {:?}", other),
        }
    }
}

#[test]
fn frames_never_touch_the_vertex_buffer() {
    for time_ms in [0.0f64, 500.0, 1000.0, 2500.0] {
        let (_, actions) = frame_for_milliseconds(time_ms);
        for action in &actions {
            assert!(!matches!(action, GpuAction::UploadVertexData { .. }));
        }
    }
    let upload = GpuAction::UploadVertexData { bytes: vec![1, 2, 3] };
    assert!(matches!(upload, GpuAction::UploadVertexData { .. }));
}

#[test]
fn color_factor_stays_inside_unit_interval() {
    // The fragment formula 0.5*sin(u_time + x*y) + 0.5 over sample inputs.
    for u_time in [0.0f32, 1.0, 2.5, 100.0] {
        for xy in [0.0f32, 0.25, -0.25] {
            let color_factor = 0.5 * (u_time + xy).sin() + 0.5;
            assert!((0.0..=1.0).contains(&color_factor));
        }
    }
}
