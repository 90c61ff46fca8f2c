use vstd::prelude::*;
use crate::errors::GraphicsError;
use crate::errors::ShaderStage;
use crate::frame::frame_action_spec;
use crate::frame::frame_actions;
use crate::frame::GpuAction;
use crate::geometry::triangle_vertex_bits;
use crate::geometry::triangle_vertices;
use crate::geometry::vertex_bytes;
use crate::outcomes::buffer_outcome;
use crate::outcomes::compilation_error;
use crate::outcomes::context_outcome;
use crate::outcomes::link_error;
use crate::outcomes::object_creation_outcome;
use crate::outcomes::program_outcome;
use crate::outcomes::shader_outcome;
use crate::outcomes::surface_outcome;
use crate::outcomes::vertex_array_outcome;
use crate::shaders::FLOAT_COMPONENT_TYPE;
use crate::shaders::FRAGMENT_SHADER_TYPE;
use crate::shaders::VERTEX_SHADER_TYPE;
use crate::shaders::fragment_shader_source;
use crate::shaders::position_attribute_name;
use crate::shaders::time_uniform_name;
use crate::shaders::vertex_shader_source;
use crate::webgl::attach_shader;
use crate::webgl::attrib_location;
use crate::webgl::bind_array_buffer;
use crate::webgl::bind_vertex_array;
use crate::webgl::buffer_static_draw_data;
use crate::webgl::browser_window;
use crate::webgl::canvas_webgl2_context;
use crate::webgl::compile_shader_object;
use crate::webgl::create_buffer;
use crate::webgl::create_program;
use crate::webgl::create_shader;
use crate::webgl::create_vertex_array;
use crate::webgl::element_as_canvas;
use crate::webgl::element_by_id;
use crate::webgl::enable_vertex_attrib_array;
use crate::webgl::link_program_object;
use crate::webgl::program_info_log;
use crate::webgl::program_link_status;
use crate::webgl::set_shader_source;
use crate::webgl::shader_compile_status;
use crate::webgl::shader_info_log;
use crate::webgl::uniform_location;
use crate::webgl::use_program;
use crate::webgl::vertex_attrib_pointer;
use crate::webgl::window_document;

verus! {

/// A canvas element bound to a WebGL 2 context with the fixed shader
/// program compiled, linked and current, and the fixed triangle mesh
/// uploaded. Constructed once by `new`; afterwards the host asks for one
/// frame command plan per animation tick and performs it against `context`.
pub struct WebGlCanvas {
    /// The drawing surface the context was acquired from.
    pub canvas: web_sys::HtmlCanvasElement,
    /// The WebGL 2 rendering context every command goes to.
    pub context: web_sys::WebGl2RenderingContext,
    /// The compiled vertex shader object.
    pub vert_shader: web_sys::WebGlShader,
    /// The compiled fragment shader object.
    pub frag_shader: web_sys::WebGlShader,
    /// The linked program, made current during construction.
    pub program: web_sys::WebGlProgram,
    /// The coordinates of the uploaded mesh, as bit patterns. Written once
    /// here and never mutated: `new` takes them from `triangle_vertices`
    /// and nothing else touches them.
    pub vertices: Vec<u32>,
}

impl WebGlCanvas {
    /// A constructed canvas always holds exactly the fixed triangle mesh.
    pub open spec fn wf(&self) -> bool {
        self.vertices@ == triangle_vertex_bits()
    }

    /// Builds the whole pipeline from a canvas element id, failing fast
    /// with the specific error of the first step that the browser refuses:
    /// resolve the surface, acquire the context, compile both shaders, link
    /// and activate the program, upload the mesh as static draw data, and
    /// configure the single 2-D position attribute. Every outcome is the
    /// browser's decision; the mapping from each step's outcome to what is
    /// returned is stated on the decision functions this routes through
    /// (`surface_outcome`, `context_outcome`, `shader_outcome` and the
    /// rest), and on success the mesh invariant holds.
    pub fn new(canvas_id: &str) -> (r: Result<WebGlCanvas, GraphicsError>)
        ensures
            r matches Ok(c) ==> c.wf(),
    {
        let window = match surface_outcome(browser_window()) {
            Ok(w) => w,
            Err(e) => {
                return Err(e);
            },
        };
        let document = match surface_outcome(window_document(&window)) {
            Ok(d) => d,
            Err(e) => {
                return Err(e);
            },
        };
        let element = match surface_outcome(element_by_id(&document, canvas_id)) {
            Ok(e) => e,
            Err(e) => {
                return Err(e);
            },
        };
        let canvas = match surface_outcome(element_as_canvas(element)) {
            Ok(c) => c,
            Err(e) => {
                return Err(e);
            },
        };
        let context = match context_outcome(canvas_webgl2_context(&canvas)) {
            Ok(c) => c,
            Err(e) => {
                return Err(e);
            },
        };
        let vert_shader = match compile_shader(
            &context,
            ShaderStage::Vertex,
            vertex_shader_source(),
        ) {
            Ok(s) => s,
            Err(log) => {
                return Err(compilation_error(ShaderStage::Vertex, log));
            },
        };
        let frag_shader = match compile_shader(
            &context,
            ShaderStage::Fragment,
            fragment_shader_source(),
        ) {
            Ok(s) => s,
            Err(log) => {
                return Err(compilation_error(ShaderStage::Fragment, log));
            },
        };
        let program = match link_program(&context, &vert_shader, &frag_shader) {
            Ok(p) => p,
            Err(log) => {
                return Err(link_error(log));
            },
        };
        use_program(&context, &program);
        let vertices = triangle_vertices();
        let position_attribute_location = attrib_location(
            &context,
            &program,
            position_attribute_name(),
        );
        let buffer = match buffer_outcome(create_buffer(&context)) {
            Ok(b) => b,
            Err(e) => {
                return Err(e);
            },
        };
        bind_array_buffer(&context, &buffer);
        let bytes = vertex_bytes(&vertices);
        buffer_static_draw_data(&context, &bytes);
        let vao = match vertex_array_outcome(create_vertex_array(&context)) {
            Ok(v) => v,
            Err(e) => {
                return Err(e);
            },
        };
        bind_vertex_array(&context, &vao);
        let index = attribute_index(position_attribute_location);
        vertex_attrib_pointer(&context, index, 2, FLOAT_COMPONENT_TYPE, false, 0, 0);
        enable_vertex_attrib_array(&context, index);
        bind_vertex_array(&context, &vao);
        Ok(WebGlCanvas { canvas, context, vert_shader, frag_shader, program, vertices })
    }

    /// One frame at the time uniform value with bit pattern `seconds_bits`:
    /// clear to opaque black, set `u_time`, draw the fixed mesh as a
    /// triangle list, the draw count being half its coordinate count. The
    /// two context calls of a frame that take single-precision values keep
    /// the frame itself out of verified code, so the frame is returned as
    /// its command plan, built by `frame_actions`, and the host performs it
    /// against `context`.
    pub fn render(&self, seconds_bits: u32) -> (actions: Vec<GpuAction>)
        ensures
            actions@ == frame_action_spec(seconds_bits),
    {
        frame_actions(seconds_bits)
    }

    /// Looks up the `u_time` uniform in the linked program. Its presence is
    /// a compile-time contract of the fixed fragment source, so the host
    /// treats `None` as fatal rather than as a recoverable error.
    pub fn time_uniform_location(&self) -> Option<web_sys::WebGlUniformLocation> {
        uniform_location(&self.context, &self.program, time_uniform_name())
    }
}

/// The attribute location as the unsigned index the configuration calls
/// take: the same two's-complement wrap the GL binding's raw cast performs,
/// so a location of -1 (attribute absent) is passed through unchecked, as
/// the GL API tolerates.
fn attribute_index(location: i32) -> (index: u32)
    ensures
        location >= 0 ==> index == location,
        location < 0 ==> index == location + 0x1_0000_0000,
{
    if location >= 0 {
        location as u32
    } else {
        ((location as i64) + 0x1_0000_0000) as u32
    }
}

/// Creates a shader object for the stage, hands it the source text,
/// compiles it, and reads the compile status and info log back. What comes
/// back is the browser's decision; which result each combination of
/// read-back values yields is stated exactly on `object_creation_outcome`
/// (a failed creation returns the fixed creation text) and on
/// `shader_outcome` (the shader iff the status is the boolean true, else
/// the log or its fixed fallback), and this function only routes the
/// trusted calls' results through those two.
pub fn compile_shader(
    context: &web_sys::WebGl2RenderingContext,
    stage: ShaderStage,
    source: &str,
) -> Result<web_sys::WebGlShader, String> {
    let shader_type: u32 = match stage {
        ShaderStage::Vertex => VERTEX_SHADER_TYPE,
        ShaderStage::Fragment => FRAGMENT_SHADER_TYPE,
    };
    let shader = match object_creation_outcome(create_shader(context, shader_type)) {
        Ok(s) => s,
        Err(m) => {
            return Err(m);
        },
    };
    set_shader_source(context, &shader, source);
    compile_shader_object(context, &shader);
    let status = shader_compile_status(context, &shader);
    let log = shader_info_log(context, &shader);
    shader_outcome(shader, status, log)
}

/// Creates a program object, attaches the two compiled shaders, links, and
/// reads the link status and info log back. As with `compile_shader`, the
/// outcomes are the browser's; the result for each combination of
/// read-back values is stated exactly on `object_creation_outcome` (whose
/// creation text the program path reuses verbatim, as specified) and on
/// `program_outcome`, and this function only routes the trusted calls'
/// results through those two.
pub fn link_program(
    context: &web_sys::WebGl2RenderingContext,
    vert_shader: &web_sys::WebGlShader,
    frag_shader: &web_sys::WebGlShader,
) -> Result<web_sys::WebGlProgram, String> {
    let program = match object_creation_outcome(create_program(context)) {
        Ok(p) => p,
        Err(m) => {
            return Err(m);
        },
    };
    attach_shader(context, &program, vert_shader);
    attach_shader(context, &program, frag_shader);
    link_program_object(context, &program);
    let status = program_link_status(context, &program);
    let log = program_info_log(context, &program);
    program_outcome(program, status, log)
}

} // verus!
