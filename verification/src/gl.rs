//! Trusted boundary to the graphics context.
//!
//! Every call into the rendering context goes through one of the wrappers
//! below. A context answers allocation and status queries at its own
//! discretion (a lost context refuses everything), so the wrappers promise
//! nothing of those answers; the verified callers state what holds of every
//! outcome.

use vstd::prelude::*;
use web_sys::WebGlBuffer;
use web_sys::WebGlProgram;
use web_sys::WebGlRenderingContext;
use web_sys::WebGlShader;
use web_sys::WebGlUniformLocation;

verus! {

/// The rendering context capability object of web_sys.
#[verifier::external_type_specification]
#[verifier::external_body]
pub struct ExWebGlRenderingContext(WebGlRenderingContext);

/// A linked GPU program handle of web_sys.
#[verifier::external_type_specification]
#[verifier::external_body]
pub struct ExWebGlProgram(WebGlProgram);

/// A per-stage shader object handle of web_sys.
#[verifier::external_type_specification]
#[verifier::external_body]
pub struct ExWebGlShader(WebGlShader);

/// An opaque uniform location handle of web_sys.
#[verifier::external_type_specification]
#[verifier::external_body]
pub struct ExWebGlUniformLocation(WebGlUniformLocation);

/// A GPU buffer object handle of web_sys.
#[verifier::external_type_specification]
#[verifier::external_body]
pub struct ExWebGlBuffer(WebGlBuffer);

/// Stage kind selector for a vertex shader object,
/// equal to `WebGlRenderingContext::VERTEX_SHADER`.
pub const VERTEX_SHADER_KIND: u32 = 35633;

/// Stage kind selector for a fragment shader object,
/// equal to `WebGlRenderingContext::FRAGMENT_SHADER`.
pub const FRAGMENT_SHADER_KIND: u32 = 35632;

/// Binding target for vertex attribute data,
/// equal to `WebGlRenderingContext::ARRAY_BUFFER`.
pub const ARRAY_BUFFER_TARGET: u32 = 34962;

/// Binding target for index data,
/// equal to `WebGlRenderingContext::ELEMENT_ARRAY_BUFFER`.
pub const ELEMENT_ARRAY_BUFFER_TARGET: u32 = 34963;

/// Vertex component type tag for 32-bit floats,
/// equal to `WebGlRenderingContext::FLOAT`.
pub const FLOAT_COMPONENT_TYPE: u32 = 5126;

/// Relies on web_sys::WebGlRenderingContext::create_program: asks the context
/// for a new program object; `None` when the context cannot allocate one.
#[verifier::external_body]
pub(crate) fn gl_create_program(gl: &WebGlRenderingContext) -> Option<WebGlProgram> {
    gl.create_program()
}

/// Relies on web_sys::WebGlRenderingContext::create_shader: asks the context
/// for a new shader object of the given stage kind; `None` when the context
/// cannot allocate one.
#[verifier::external_body]
pub(crate) fn gl_create_shader(gl: &WebGlRenderingContext, kind: u32) -> Option<WebGlShader> {
    gl.create_shader(kind)
}

/// Relies on web_sys::WebGlRenderingContext::shader_source: sets the shader
/// object's source text.
#[verifier::external_body]
pub(crate) fn gl_shader_source(gl: &WebGlRenderingContext, shader: &WebGlShader, src: &Vec<u8>) {
    gl.shader_source(shader, String::from_utf8_lossy(src).as_ref())
}

/// Relies on web_sys::WebGlRenderingContext::compile_shader: compiles the
/// shader object's source.
#[verifier::external_body]
pub(crate) fn gl_compile_shader(gl: &WebGlRenderingContext, shader: &WebGlShader) {
    gl.compile_shader(shader)
}

/// Relies on web_sys::WebGlRenderingContext::get_shader_parameter with the
/// compile-status selector, which answers a boolean; a non-boolean answer
/// counts as failure.
#[verifier::external_body]
pub(crate) fn gl_get_compile_status(gl: &WebGlRenderingContext, shader: &WebGlShader) -> bool {
    gl.get_shader_parameter(shader, WebGlRenderingContext::COMPILE_STATUS)
        .as_bool()
        .unwrap_or(false)
}

/// Relies on web_sys::WebGlRenderingContext::get_shader_info_log: reads the
/// shader object's diagnostic log; an absent log comes back empty.
#[verifier::external_body]
pub(crate) fn gl_get_shader_info_log(gl: &WebGlRenderingContext, shader: &WebGlShader) -> String {
    gl.get_shader_info_log(shader).unwrap_or_default()
}

/// Relies on web_sys::WebGlRenderingContext::delete_shader: releases a
/// per-stage shader object.
#[verifier::external_body]
pub(crate) fn gl_delete_shader(gl: &WebGlRenderingContext, shader: &WebGlShader) {
    gl.delete_shader(Some(shader))
}

/// Relies on web_sys::WebGlRenderingContext::attach_shader: attaches a
/// compiled stage object to a program.
#[verifier::external_body]
pub(crate) fn gl_attach_shader(
    gl: &WebGlRenderingContext,
    program: &WebGlProgram,
    shader: &WebGlShader,
) {
    gl.attach_shader(program, shader)
}

/// Relies on web_sys::WebGlRenderingContext::link_program: links the
/// program's attached stages.
#[verifier::external_body]
pub(crate) fn gl_link_program(gl: &WebGlRenderingContext, program: &WebGlProgram) {
    gl.link_program(program)
}

/// Relies on web_sys::WebGlRenderingContext::validate_program: validates the
/// linked program.
#[verifier::external_body]
pub(crate) fn gl_validate_program(gl: &WebGlRenderingContext, program: &WebGlProgram) {
    gl.validate_program(program)
}

/// Relies on web_sys::WebGlRenderingContext::get_program_parameter with the
/// link-status selector, which answers a boolean; a non-boolean answer counts
/// as failure.
#[verifier::external_body]
pub(crate) fn gl_get_link_status(gl: &WebGlRenderingContext, program: &WebGlProgram) -> bool {
    gl.get_program_parameter(program, WebGlRenderingContext::LINK_STATUS)
        .as_bool()
        .unwrap_or(false)
}

/// Relies on web_sys::WebGlRenderingContext::get_program_info_log: reads the
/// program's diagnostic log; an absent log comes back empty.
#[verifier::external_body]
pub(crate) fn gl_get_program_info_log(gl: &WebGlRenderingContext, program: &WebGlProgram) -> String {
    gl.get_program_info_log(program).unwrap_or_default()
}

/// Relies on web_sys::WebGlRenderingContext::get_attrib_location: resolves an
/// attribute name to the driver-assigned location, `-1` when the program
/// declares no live attribute of that name.
#[verifier::external_body]
pub(crate) fn gl_get_attrib_location(
    gl: &WebGlRenderingContext,
    program: &WebGlProgram,
    name: &Vec<u8>,
) -> i32 {
    gl.get_attrib_location(program, String::from_utf8_lossy(name).as_ref())
}

/// Relies on web_sys::WebGlRenderingContext::get_uniform_location: resolves a
/// uniform name to its opaque location handle, `None` when the program
/// declares no live uniform of that name.
#[verifier::external_body]
pub(crate) fn gl_get_uniform_location(
    gl: &WebGlRenderingContext,
    program: &WebGlProgram,
    name: &Vec<u8>,
) -> Option<WebGlUniformLocation> {
    gl.get_uniform_location(program, String::from_utf8_lossy(name).as_ref())
}

/// Relies on web_sys::WebGlRenderingContext::use_program: makes the program
/// the context's active program.
#[verifier::external_body]
pub(crate) fn gl_use_program(gl: &WebGlRenderingContext, program: &WebGlProgram) {
    gl.use_program(Some(program))
}

/// Relies on web_sys::WebGlRenderingContext::create_buffer: asks the context
/// for a new buffer object; `None` when the context cannot allocate one.
#[verifier::external_body]
pub(crate) fn gl_create_buffer(gl: &WebGlRenderingContext) -> Option<WebGlBuffer> {
    gl.create_buffer()
}

/// Relies on web_sys::WebGlRenderingContext::bind_buffer: binds the buffer
/// object to the given target binding point.
#[verifier::external_body]
pub(crate) fn gl_bind_buffer(gl: &WebGlRenderingContext, target: u32, buffer: &WebGlBuffer) {
    gl.bind_buffer(target, Some(buffer))
}

/// Relies on web_sys::WebGlRenderingContext::buffer_data_with_u8_array:
/// uploads the given bytes into the buffer bound to the target, tagged with
/// the usage hint.
#[verifier::external_body]
pub(crate) fn gl_buffer_data(gl: &WebGlRenderingContext, target: u32, data: &Vec<u8>, usage: u32) {
    gl.buffer_data_with_u8_array(target, data.as_slice(), usage)
}

/// Relies on web_sys::WebGlRenderingContext::vertex_attrib_pointer_with_i32:
/// describes the vertex layout at the given attribute location.
#[verifier::external_body]
pub(crate) fn gl_vertex_attrib_pointer(
    gl: &WebGlRenderingContext,
    index: u32,
    size: i32,
    type_: u32,
    normalized: bool,
    stride: i32,
    offset: i32,
) {
    gl.vertex_attrib_pointer_with_i32(index, size, type_, normalized, stride, offset)
}

/// Relies on web_sys::WebGlRenderingContext::enable_vertex_attrib_array:
/// enables the vertex attribute array at the given location.
#[verifier::external_body]
pub(crate) fn gl_enable_vertex_attrib_array(gl: &WebGlRenderingContext, index: u32) {
    gl.enable_vertex_attrib_array(index)
}

} // verus!
