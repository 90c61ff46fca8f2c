use vstd::prelude::*;
use crate::errors::GraphicsError;
use crate::errors::ShaderStage;
use crate::shaders::compile_failure_message;
use crate::shaders::default_compile_log;
use crate::shaders::default_link_log;
use crate::shaders::link_failure_message;
use crate::shaders::object_creation_failure_message;

verus! {

// The decisions of the construction sequence, one per step. Each step of
// construction hands its browser-reported outcome to one of these, and the
// contract states exactly which value or which error comes back for every
// outcome; the construction routine itself only routes values between the
// trusted calls and these functions.

/// Decision of the surface-resolution steps: the resolved value when there
/// is one, `SurfaceNotFound` when the window, the document, the element or
/// the canvas cast came back empty.
pub fn surface_outcome<T>(found: Option<T>) -> (r: Result<T, GraphicsError>)
    ensures
        found matches Some(v) ==> r == Ok::<T, GraphicsError>(v),
        found is None ==> r == Err::<T, GraphicsError>(GraphicsError::SurfaceNotFound),
{
    match found {
        Some(v) => Ok(v),
        None => Err(GraphicsError::SurfaceNotFound),
    }
}

/// Decision of the context-acquisition step: the context when one was
/// handed out, `ContextUnavailable` otherwise.
pub fn context_outcome<T>(acquired: Option<T>) -> (r: Result<T, GraphicsError>)
    ensures
        acquired matches Some(v) ==> r == Ok::<T, GraphicsError>(v),
        acquired is None ==> r == Err::<T, GraphicsError>(GraphicsError::ContextUnavailable),
{
    match acquired {
        Some(v) => Ok(v),
        None => Err(GraphicsError::ContextUnavailable),
    }
}

/// Decision of the buffer-allocation step: the buffer object when one was
/// created, `BufferAllocationFailed` otherwise.
pub fn buffer_outcome<T>(created: Option<T>) -> (r: Result<T, GraphicsError>)
    ensures
        created matches Some(v) ==> r == Ok::<T, GraphicsError>(v),
        created is None ==> r == Err::<T, GraphicsError>(GraphicsError::BufferAllocationFailed),
{
    match created {
        Some(v) => Ok(v),
        None => Err(GraphicsError::BufferAllocationFailed),
    }
}

/// Decision of the vertex-array-allocation step: the vertex array object
/// when one was created, `VertexArrayAllocationFailed` otherwise.
pub fn vertex_array_outcome<T>(created: Option<T>) -> (r: Result<T, GraphicsError>)
    ensures
        created matches Some(v) ==> r == Ok::<T, GraphicsError>(v),
        created is None ==> r == Err::<T, GraphicsError>(
            GraphicsError::VertexArrayAllocationFailed,
        ),
{
    match created {
        Some(v) => Ok(v),
        None => Err(GraphicsError::VertexArrayAllocationFailed),
    }
}

/// Decision of a shader- or program-object creation step: the object when
/// one was created, the fixed creation-failure text otherwise. The program
/// path reuses the shader wording verbatim; that reuse is observable
/// behavior and is kept.
pub fn object_creation_outcome<T>(created: Option<T>) -> (r: Result<T, String>)
    ensures
        created matches Some(v) ==> r == Ok::<T, String>(v),
        created is None ==> (r matches Err(m) && m@ == "Unable to create shader object"@),
{
    match created {
        Some(v) => Ok(v),
        None => Err(object_creation_failure_message()),
    }
}

/// Decision of the compile step, over the values read back from the
/// context: the shader object exactly when the compile status is the
/// boolean true; otherwise the info log verbatim, or the fixed compile
/// fallback when the log is absent.
pub fn shader_outcome<T>(shader: T, status: Option<bool>, log: Option<String>) -> (r: Result<
    T,
    String,
>)
    ensures
        status == Some(true) ==> r == Ok::<T, String>(shader),
        status != Some(true) ==> (r matches Err(m) && (log matches Some(l) ==> m@ == l@) && (
        log is None ==> m@ == default_compile_log())),
{
    let compiled = match status {
        Some(true) => true,
        _ => false,
    };
    if compiled {
        Ok(shader)
    } else {
        Err(compile_failure_message(log))
    }
}

/// Decision of the link step, shaped as `shader_outcome`: the program
/// object exactly when the link status is the boolean true; otherwise the
/// program info log verbatim, or the fixed link fallback when it is absent.
pub fn program_outcome<T>(program: T, status: Option<bool>, log: Option<String>) -> (r: Result<
    T,
    String,
>)
    ensures
        status == Some(true) ==> r == Ok::<T, String>(program),
        status != Some(true) ==> (r matches Err(m) && (log matches Some(l) ==> m@ == l@) && (
        log is None ==> m@ == default_link_log())),
{
    let linked = match status {
        Some(true) => true,
        _ => false,
    };
    if linked {
        Ok(program)
    } else {
        Err(link_failure_message(log))
    }
}

/// The construction error carrying a compile failure: the stage it happened
/// in and the failure text, unchanged.
pub fn compilation_error(stage: ShaderStage, log: String) -> (e: GraphicsError)
    ensures
        e matches GraphicsError::ShaderCompileError { stage: s, log: l } && s == stage && l@
            == log@,
{
    GraphicsError::ShaderCompileError { stage, log }
}

/// The construction error carrying a link failure: the failure text,
/// unchanged.
pub fn link_error(log: String) -> (e: GraphicsError)
    ensures
        e matches GraphicsError::ProgramLinkError { log: l } && l@ == log@,
{
    GraphicsError::ProgramLinkError { log }
}

} // verus!
