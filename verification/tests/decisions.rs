use shader_canvas::errors::GraphicsError;
use shader_canvas::errors::ShaderStage;
use shader_canvas::outcomes::buffer_outcome;
use shader_canvas::outcomes::compilation_error;
use shader_canvas::outcomes::context_outcome;
use shader_canvas::outcomes::link_error;
use shader_canvas::outcomes::object_creation_outcome;
use shader_canvas::outcomes::program_outcome;
use shader_canvas::outcomes::shader_outcome;
use shader_canvas::outcomes::surface_outcome;
use shader_canvas::outcomes::vertex_array_outcome;

#[test]
fn resolved_surface_is_handed_through() {
    assert_eq!(surface_outcome::<u32>(Some(7)).unwrap(), 7);
}

#[test]
fn unresolved_surface_is_surface_not_found() {
    let r: Result<u32, GraphicsError> = surface_outcome(None);
    assert!(matches!(r, Err(GraphicsError::SurfaceNotFound)));
}

#[test]
fn acquired_context_is_handed_through() {
    assert_eq!(context_outcome::<u32>(Some(7)).unwrap(), 7);
}

#[test]
fn missing_context_is_context_unavailable() {
    let r: Result<u32, GraphicsError> = context_outcome(None);
    assert!(matches!(r, Err(GraphicsError::ContextUnavailable)));
}

#[test]
fn created_buffer_is_handed_through() {
    assert_eq!(buffer_outcome::<u32>(Some(7)).unwrap(), 7);
}

#[test]
fn failed_buffer_creation_is_buffer_allocation_failed() {
    let r: Result<u32, GraphicsError> = buffer_outcome(None);
    assert!(matches!(r, Err(GraphicsError::BufferAllocationFailed)));
    assert_eq!(r.unwrap_err().message(), "Failed to create buffer");
}

#[test]
fn created_vertex_array_is_handed_through() {
    assert_eq!(vertex_array_outcome::<u32>(Some(7)).unwrap(), 7);
}

#[test]
fn failed_vertex_array_creation_is_vertex_array_allocation_failed() {
    let r: Result<u32, GraphicsError> = vertex_array_outcome(None);
    assert!(matches!(r, Err(GraphicsError::VertexArrayAllocationFailed)));
    assert_eq!(r.unwrap_err().message(), "Could not create vertex array object");
}

#[test]
fn created_object_is_handed_through() {
    assert_eq!(object_creation_outcome(Some(7u32)), Ok(7u32));
}

#[test]
fn failed_object_creation_reports_the_fixed_text() {
    let r: Result<u32, String> = object_creation_outcome(None);
    assert_eq!(r, Err(String::from("Unable to create shader object")));
}

#[test]
fn true_compile_status_hands_the_shader_back() {
    let r = shader_outcome(7u32, Some(true), None);
    assert_eq!(r, Ok(7u32));
    let r = shader_outcome(7u32, Some(true), Some(String::from("warning: unused")));
    assert_eq!(r, Ok(7u32));
}

#[test]
fn false_compile_status_reports_the_log() {
    let r = shader_outcome(7u32, Some(false), Some(String::from("bad token")));
    assert_eq!(r, Err(String::from("bad token")));
}

#[test]
fn absent_compile_status_reports_the_fallback() {
    let r = shader_outcome(7u32, None, None);
    assert_eq!(r, Err(String::from("Unknown error creating shader")));
    let r = shader_outcome(7u32, Some(false), None);
    assert_eq!(r, Err(String::from("Unknown error creating shader")));
}

#[test]
fn true_link_status_hands_the_program_back() {
    let r = program_outcome(7u32, Some(true), None);
    assert_eq!(r, Ok(7u32));
}

#[test]
fn false_link_status_reports_the_log() {
    let r = program_outcome(7u32, Some(false), Some(String::from("no main")));
    assert_eq!(r, Err(String::from("no main")));
}

#[test]
fn absent_link_status_reports_the_fallback() {
    let r = program_outcome(7u32, None, None);
    assert_eq!(r, Err(String::from("Unknown error creating program object")));
    let r = program_outcome(7u32, Some(false), None);
    assert_eq!(r, Err(String::from("Unknown error creating program object")));
}

#[test]
fn compilation_error_keeps_stage_and_log() {
    let e = compilation_error(ShaderStage::Fragment, String::from("bad token"));
    match e {
        GraphicsError::ShaderCompileError { stage, log } => {
            assert_eq!(stage, ShaderStage::Fragment);
            assert_eq!(log, "bad token");
        }
        other => panic!("expected a shader compile error, found {:?}", other),
    }
}

#[test]
fn link_error_keeps_the_log() {
    let e = link_error(String::from("varying mismatch"));
    match e {
        GraphicsError::ProgramLinkError { log } => assert_eq!(log, "varying mismatch"),
        other => panic!("expected a program link error, found {:?}", other),
    }
}
