use vstd::prelude::*;

verus! {

/// The two programmable pipeline stages a shader object can belong to.
#[derive(Clone, Copy, Debug, PartialEq, Eq, Structural)]
pub enum ShaderStage {
    Vertex,
    Fragment,
}

/// Everything that can go wrong while constructing a `WebGlCanvas`.
///
/// Construction fails fast: the first failing step aborts with the matching
/// variant and nothing further is attempted. Compile and link failures carry
/// the diagnostic log that the rendering context reported.
#[derive(Debug)]
pub enum GraphicsError {
    /// No element with the requested id exists, or the element found is not a
    /// canvas, or no browser window or document is available at all.
    SurfaceNotFound,
    /// The canvas exists but refused to hand out a WebGL 2 rendering context.
    ContextUnavailable,
    /// A shader failed to compile (or its shader object could not be created).
    ShaderCompileError { stage: ShaderStage, log: String },
    /// The two compiled shaders failed to link (or the program object could
    /// not be created).
    ProgramLinkError { log: String },
    /// The context could not allocate a buffer object for the vertex data.
    BufferAllocationFailed,
    /// The context could not allocate a vertex array object.
    VertexArrayAllocationFailed,
}

impl GraphicsError {
    /// The text that `message` returns for each variant.
    pub open spec fn message_spec(&self) -> Seq<char> {
        match self {
            GraphicsError::SurfaceNotFound => "Canvas surface not found"@,
            GraphicsError::ContextUnavailable => "WebGL 2 context unavailable"@,
            GraphicsError::ShaderCompileError { stage: _, log } => log@,
            GraphicsError::ProgramLinkError { log } => log@,
            GraphicsError::BufferAllocationFailed => "Failed to create buffer"@,
            GraphicsError::VertexArrayAllocationFailed => "Could not create vertex array object"@,
        }
    }

    /// A description of the failure. Compile and link errors hand back the
    /// GPU-reported diagnostic log itself; the allocation failures use the
    /// same fixed description strings the construction steps are specified
    /// with.
    pub fn message(&self) -> (m: String)
        ensures
            m@ == self.message_spec(),
    {
        match self {
            GraphicsError::SurfaceNotFound => String::from_str("Canvas surface not found"),
            GraphicsError::ContextUnavailable => String::from_str("WebGL 2 context unavailable"),
            GraphicsError::ShaderCompileError { stage: _, log } => log.clone(),
            GraphicsError::ProgramLinkError { log } => log.clone(),
            GraphicsError::BufferAllocationFailed => String::from_str("Failed to create buffer"),
            GraphicsError::VertexArrayAllocationFailed => (
                String::from_str("Could not create vertex array object")
            ),
        }
    }
}

} // verus!
