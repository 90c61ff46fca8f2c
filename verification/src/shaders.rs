use vstd::prelude::*;

verus! {

/// Value of the GL enumerant `VERTEX_SHADER` (`WebGl2RenderingContext::VERTEX_SHADER`).
pub const VERTEX_SHADER_TYPE: u32 = 35633;

/// Value of the GL enumerant `FRAGMENT_SHADER` (`WebGl2RenderingContext::FRAGMENT_SHADER`).
pub const FRAGMENT_SHADER_TYPE: u32 = 35632;

/// Value of the GL enumerant `FLOAT` (`WebGl2RenderingContext::FLOAT`), the
/// component type of the position attribute.
pub const FLOAT_COMPONENT_TYPE: u32 = 5126;

/// The fixed vertex stage source: forwards the 2-D `position` attribute to
/// the clip-space output position with z = 0 and w = 1.
pub open spec fn vertex_shader_source_spec() -> Seq<char> {
    r##"#version 300 es
 
        in vec2 position;
    
        out vec2 Position;
    
        void main()
        {
          gl_Position = vec4(position, 0.0, 1.0);
        }
        "##@
}

/// The fixed vertex stage source text, reproduced byte for byte.
pub fn vertex_shader_source() -> (s: &'static str)
    ensures
        s@ == vertex_shader_source_spec(),
{
    r##"#version 300 es
 
        in vec2 position;
    
        out vec2 Position;
    
        void main()
        {
          gl_Position = vec4(position, 0.0, 1.0);
        }
        "##
}

/// The fixed fragment stage source: modulates an all-white color by
/// 0.5*sin(u_time + x*y) + 0.5, a value always inside [0, 1].
pub open spec fn fragment_shader_source_spec() -> Seq<char> {
    r##"#version 300 es
        precision highp float;

        uniform float u_time;
        
        in vec2 Position;
    
        out vec4 outColor;
    
        void main()
        {
          float x = Position.x;
          float y = Position.y;
          vec3 modColour = (0.5*sin(u_time + x*y)+0.5)*vec3(1.0, 1.0, 1.0);
          outColor = vec4(modColour, 1.0);
        }
        "##@
}

/// The fixed fragment stage source text, reproduced byte for byte.
pub fn fragment_shader_source() -> (s: &'static str)
    ensures
        s@ == fragment_shader_source_spec(),
{
    r##"#version 300 es
        precision highp float;

        uniform float u_time;
        
        in vec2 Position;
    
        out vec4 outColor;
    
        void main()
        {
          float x = Position.x;
          float y = Position.y;
          vec3 modColour = (0.5*sin(u_time + x*y)+0.5)*vec3(1.0, 1.0, 1.0);
          outColor = vec4(modColour, 1.0);
        }
        "##
}

/// Name of the sole live vertex attribute in the linked program.
pub fn position_attribute_name() -> (s: &'static str)
    ensures
        s@ == "position"@,
{
    "position"
}

/// Name of the clock uniform the fragment stage reads.
pub fn time_uniform_name() -> (s: &'static str)
    ensures
        s@ == "u_time"@,
{
    "u_time"
}

/// Error text for a failed shader *object* creation. The program-object
/// creation path reports the same text verbatim; that reuse is part of the
/// observable behavior and is kept.
pub fn object_creation_failure_message() -> (m: String)
    ensures
        m@ == "Unable to create shader object"@,
{
    String::from_str("Unable to create shader object")
}

/// Fallback text when a failed compile comes with no info log.
pub open spec fn default_compile_log() -> Seq<char> {
    "Unknown error creating shader"@
}

/// Fallback text when a failed link comes with no info log.
pub open spec fn default_link_log() -> Seq<char> {
    "Unknown error creating program object"@
}

/// The error text for a shader whose compile status came back false: the
/// info log read back from the context, or the fixed fallback when the log
/// is absent.
pub fn compile_failure_message(log: Option<String>) -> (m: String)
    ensures
        log matches Some(l) ==> m@ == l@,
        log is None ==> m@ == default_compile_log(),
{
    match log {
        Some(l) => l,
        None => String::from_str("Unknown error creating shader"),
    }
}

/// The error text for a program whose link status came back false, formed
/// the same way as `compile_failure_message`.
pub fn link_failure_message(log: Option<String>) -> (m: String)
    ensures
        log matches Some(l) ==> m@ == l@,
        log is None ==> m@ == default_link_log(),
{
    match log {
        Some(l) => l,
        None => String::from_str("Unknown error creating program object"),
    }
}

} // verus!
