use vstd::prelude::*;
use wasm_bindgen::JsCast;

verus! {

// The browser types the pipeline runs against. Each is opaque here: the
// library stores and passes the handles, and every operation on them goes
// through one of the trusted wrappers below.
#[verifier::external_type_specification]
#[verifier::external_body]
pub struct ExWindow(web_sys::Window);

#[verifier::external_type_specification]
#[verifier::external_body]
pub struct ExDocument(web_sys::Document);

#[verifier::external_type_specification]
#[verifier::external_body]
pub struct ExElement(web_sys::Element);

#[verifier::external_type_specification]
#[verifier::external_body]
pub struct ExHtmlCanvasElement(web_sys::HtmlCanvasElement);

#[verifier::external_type_specification]
#[verifier::external_body]
pub struct ExWebGl2RenderingContext(web_sys::WebGl2RenderingContext);

#[verifier::external_type_specification]
#[verifier::external_body]
pub struct ExWebGlShader(web_sys::WebGlShader);

#[verifier::external_type_specification]
#[verifier::external_body]
pub struct ExWebGlProgram(web_sys::WebGlProgram);

#[verifier::external_type_specification]
#[verifier::external_body]
pub struct ExWebGlBuffer(web_sys::WebGlBuffer);

#[verifier::external_type_specification]
#[verifier::external_body]
pub struct ExWebGlVertexArrayObject(web_sys::WebGlVertexArrayObject);

#[verifier::external_type_specification]
#[verifier::external_body]
pub struct ExWebGlUniformLocation(web_sys::WebGlUniformLocation);

/// Relies on web_sys::window: the global window, absent outside a browser.
#[verifier::external_body]
pub(crate) fn browser_window() -> Option<web_sys::Window> {
    web_sys::window()
}

/// Relies on web_sys::Window::document: the document of that window, if any.
#[verifier::external_body]
pub(crate) fn window_document(window: &web_sys::Window) -> Option<web_sys::Document> {
    window.document()
}

/// Relies on web_sys::Document::get_element_by_id: the element with that id,
/// if the document has one.
#[verifier::external_body]
pub(crate) fn element_by_id(
    document: &web_sys::Document,
    element_id: &str,
) -> Option<web_sys::Element> {
    document.get_element_by_id(element_id)
}

/// Relies on wasm_bindgen::JsCast::dyn_into: the element as a canvas when it
/// is one, `None` when the checked cast refuses it.
#[verifier::external_body]
pub(crate) fn element_as_canvas(element: web_sys::Element) -> Option<web_sys::HtmlCanvasElement> {
    element.dyn_into::<web_sys::HtmlCanvasElement>().ok()
}

/// Relies on web_sys::HtmlCanvasElement::get_context with the "webgl2"
/// context id, and on the JsCast checked cast of the object it hands back.
/// `None` when the call fails, when the canvas has no such context, or when
/// what came back is not a WebGL 2 rendering context.
#[verifier::external_body]
pub(crate) fn canvas_webgl2_context(
    canvas: &web_sys::HtmlCanvasElement,
) -> Option<web_sys::WebGl2RenderingContext> {
    match canvas.get_context("webgl2") {
        Ok(Some(object)) => object.dyn_into::<web_sys::WebGl2RenderingContext>().ok(),
        _ => None,
    }
}

/// Relies on web_sys::WebGl2RenderingContext::create_shader: a new shader
/// object of the given GL shader type, or `None` when creation fails.
#[verifier::external_body]
pub(crate) fn create_shader(
    context: &web_sys::WebGl2RenderingContext,
    shader_type: u32,
) -> Option<web_sys::WebGlShader> {
    context.create_shader(shader_type)
}

/// Relies on web_sys::WebGl2RenderingContext::shader_source: stores the
/// source text on the shader object.
#[verifier::external_body]
pub(crate) fn set_shader_source(
    context: &web_sys::WebGl2RenderingContext,
    shader: &web_sys::WebGlShader,
    source: &str,
) {
    context.shader_source(shader, source)
}

/// Relies on web_sys::WebGl2RenderingContext::compile_shader: compiles the
/// stored source of the shader object.
#[verifier::external_body]
pub(crate) fn compile_shader_object(
    context: &web_sys::WebGl2RenderingContext,
    shader: &web_sys::WebGlShader,
) {
    context.compile_shader(shader)
}

/// Relies on web_sys::WebGl2RenderingContext::get_shader_parameter with
/// COMPILE_STATUS, and on wasm_bindgen::JsValue::as_bool to read the flag;
/// `None` when what came back is not a boolean.
#[verifier::external_body]
pub(crate) fn shader_compile_status(
    context: &web_sys::WebGl2RenderingContext,
    shader: &web_sys::WebGlShader,
) -> Option<bool> {
    context.get_shader_parameter(shader, web_sys::WebGl2RenderingContext::COMPILE_STATUS).as_bool()
}

/// Relies on web_sys::WebGl2RenderingContext::get_shader_info_log: the
/// diagnostic log of the shader object, if the context has one.
#[verifier::external_body]
pub(crate) fn shader_info_log(
    context: &web_sys::WebGl2RenderingContext,
    shader: &web_sys::WebGlShader,
) -> Option<String> {
    context.get_shader_info_log(shader)
}

/// Relies on web_sys::WebGl2RenderingContext::create_program: a new program
/// object, or `None` when creation fails.
#[verifier::external_body]
pub(crate) fn create_program(
    context: &web_sys::WebGl2RenderingContext,
) -> Option<web_sys::WebGlProgram> {
    context.create_program()
}

/// Relies on web_sys::WebGl2RenderingContext::attach_shader: attaches the
/// shader object to the program object.
#[verifier::external_body]
pub(crate) fn attach_shader(
    context: &web_sys::WebGl2RenderingContext,
    program: &web_sys::WebGlProgram,
    shader: &web_sys::WebGlShader,
) {
    context.attach_shader(program, shader)
}

/// Relies on web_sys::WebGl2RenderingContext::link_program: links the
/// attached shaders of the program object.
#[verifier::external_body]
pub(crate) fn link_program_object(
    context: &web_sys::WebGl2RenderingContext,
    program: &web_sys::WebGlProgram,
) {
    context.link_program(program)
}

/// Relies on web_sys::WebGl2RenderingContext::get_program_parameter with
/// LINK_STATUS, and on wasm_bindgen::JsValue::as_bool to read the flag;
/// `None` when what came back is not a boolean.
#[verifier::external_body]
pub(crate) fn program_link_status(
    context: &web_sys::WebGl2RenderingContext,
    program: &web_sys::WebGlProgram,
) -> Option<bool> {
    context.get_program_parameter(program, web_sys::WebGl2RenderingContext::LINK_STATUS).as_bool()
}

/// Relies on web_sys::WebGl2RenderingContext::get_program_info_log: the
/// diagnostic log of the program object, if the context has one.
#[verifier::external_body]
pub(crate) fn program_info_log(
    context: &web_sys::WebGl2RenderingContext,
    program: &web_sys::WebGlProgram,
) -> Option<String> {
    context.get_program_info_log(program)
}

/// Relies on web_sys::WebGl2RenderingContext::use_program: makes the program
/// the current one.
#[verifier::external_body]
pub(crate) fn use_program(
    context: &web_sys::WebGl2RenderingContext,
    program: &web_sys::WebGlProgram,
) {
    context.use_program(Some(program))
}

/// Relies on web_sys::WebGl2RenderingContext::get_attrib_location: the
/// location of the named attribute in the linked program, -1 when absent.
/// The caller passes the value on without an existence check, as the GL API
/// tolerates.
#[verifier::external_body]
pub(crate) fn attrib_location(
    context: &web_sys::WebGl2RenderingContext,
    program: &web_sys::WebGlProgram,
    name: &str,
) -> i32 {
    context.get_attrib_location(program, name)
}

/// Relies on web_sys::WebGl2RenderingContext::create_buffer: a new buffer
/// object, or `None` when creation fails.
#[verifier::external_body]
pub(crate) fn create_buffer(
    context: &web_sys::WebGl2RenderingContext,
) -> Option<web_sys::WebGlBuffer> {
    context.create_buffer()
}

/// Relies on web_sys::WebGl2RenderingContext::bind_buffer with ARRAY_BUFFER:
/// makes the buffer the bound array buffer.
#[verifier::external_body]
pub(crate) fn bind_array_buffer(
    context: &web_sys::WebGl2RenderingContext,
    buffer: &web_sys::WebGlBuffer,
) {
    context.bind_buffer(web_sys::WebGl2RenderingContext::ARRAY_BUFFER, Some(buffer))
}

/// Relies on web_sys::WebGl2RenderingContext::buffer_data_with_u8_array with
/// ARRAY_BUFFER and STATIC_DRAW: uploads a copy of the bytes into the bound
/// array buffer as static draw data.
#[verifier::external_body]
pub(crate) fn buffer_static_draw_data(
    context: &web_sys::WebGl2RenderingContext,
    bytes: &Vec<u8>,
) {
    context.buffer_data_with_u8_array(
        web_sys::WebGl2RenderingContext::ARRAY_BUFFER,
        bytes.as_slice(),
        web_sys::WebGl2RenderingContext::STATIC_DRAW,
    )
}

/// Relies on web_sys::WebGl2RenderingContext::create_vertex_array: a new
/// vertex array object, or `None` when creation fails.
#[verifier::external_body]
pub(crate) fn create_vertex_array(
    context: &web_sys::WebGl2RenderingContext,
) -> Option<web_sys::WebGlVertexArrayObject> {
    context.create_vertex_array()
}

/// Relies on web_sys::WebGl2RenderingContext::bind_vertex_array: makes the
/// vertex array object the bound one.
#[verifier::external_body]
pub(crate) fn bind_vertex_array(
    context: &web_sys::WebGl2RenderingContext,
    vertex_array: &web_sys::WebGlVertexArrayObject,
) {
    context.bind_vertex_array(Some(vertex_array))
}

/// Relies on web_sys::WebGl2RenderingContext::vertex_attrib_pointer_with_i32:
/// configures how the attribute at `index` reads the bound array buffer.
#[verifier::external_body]
pub(crate) fn vertex_attrib_pointer(
    context: &web_sys::WebGl2RenderingContext,
    index: u32,
    size: i32,
    component_type: u32,
    normalized: bool,
    stride: i32,
    offset: i32,
) {
    context.vertex_attrib_pointer_with_i32(index, size, component_type, normalized, stride, offset)
}

/// Relies on web_sys::WebGl2RenderingContext::enable_vertex_attrib_array:
/// enables the attribute at `index`.
#[verifier::external_body]
pub(crate) fn enable_vertex_attrib_array(
    context: &web_sys::WebGl2RenderingContext,
    index: u32,
) {
    context.enable_vertex_attrib_array(index)
}

/// Relies on web_sys::WebGl2RenderingContext::get_uniform_location: the
/// location of the named uniform in the linked program, `None` when absent.
#[verifier::external_body]
pub(crate) fn uniform_location(
    context: &web_sys::WebGl2RenderingContext,
    program: &web_sys::WebGlProgram,
    name: &str,
) -> Option<web_sys::WebGlUniformLocation> {
    context.get_uniform_location(program, name)
}

} // verus!
