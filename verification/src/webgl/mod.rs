//! Handles of WebGL objects and the GL constants.
pub mod glenum;

use vstd::prelude::*;
use crate::text::{append_str, decimal, push_decimal, string_of};

verus! {

/// Whether the target speaks OpenGL ES (the web) rather than desktop OpenGL.
pub const IS_GL_ES: bool = false;

/// A rendering context, by its reference.
#[derive(Debug, PartialEq, Eq, Structural)]
pub struct GLContext {
    pub reference: u32,
}

impl GLContext {
    /// The reference of the context.
    pub fn into_reference(self) -> (r: u32)
        ensures
            r == self.reference,
    {
        self.reference
    }
}

/// The WebGL rendering context.
#[derive(Debug)]
pub struct WebGLRenderingContext {
    pub common: GLContext,
}

impl WebGLRenderingContext {
    /// The underlying context.
    pub fn context(&self) -> (r: &GLContext)
        ensures
            *r == self.common,
    {
        &self.common
    }
}

/// A buffer object.
#[derive(Debug)]
pub struct WebGLBuffer(pub u32);

/// A shader object.
#[derive(Debug)]
pub struct WebGLShader(pub u32);

/// A program object.
#[derive(Debug, PartialEq, Eq, Structural)]
pub struct WebGLProgram(pub u32);

/// A texture object.
#[derive(Debug, PartialEq, Eq, Structural)]
pub struct WebGLTexture(pub u32);

/// A vertex array object.
#[derive(Debug)]
pub struct WebGLVertexArray(pub u32);

/// The location of a uniform of a program, with the uniform's name.
#[derive(Debug)]
pub struct WebGLUniformLocation {
    pub reference: u32,
    pub name: String,
}

/// A frame buffer object.
#[derive(Debug)]
pub struct WebGLFrameBuffer(pub u32);

impl WebGLBuffer {
    /// The reference of the object.
    pub fn reference(&self) -> (r: u32)
        ensures
            r == self.0,
    {
        self.0
    }
}

impl WebGLShader {
    /// The reference of the object.
    pub fn reference(&self) -> (r: u32)
        ensures
            r == self.0,
    {
        self.0
    }
}

impl WebGLProgram {
    /// The reference of the object.
    pub fn reference(&self) -> (r: u32)
        ensures
            r == self.0,
    {
        self.0
    }
}

impl WebGLTexture {
    /// The reference of the object.
    pub fn reference(&self) -> (r: u32)
        ensures
            r == self.0,
    {
        self.0
    }
}

impl WebGLVertexArray {
    /// The reference of the object.
    pub fn reference(&self) -> (r: u32)
        ensures
            r == self.0,
    {
        self.0
    }
}

impl WebGLUniformLocation {
    /// The reference of the location.
    pub fn location(&self) -> (r: u32)
        ensures
            r == self.reference,
    {
        self.reference
    }
}

impl WebGLFrameBuffer {
    /// The reference of the object.
    pub fn reference(&self) -> (r: u32)
        ensures
            r == self.0,
    {
        self.0
    }
}

/// The name of a GL error code: invalid enum, value or operation, out of
/// memory, stack overflow or underflow; any other code is an unknown error.
pub open spec fn gl_error_name(code: u32) -> Seq<char> {
    if code == 0x0500 {
        "invalid enum"@
    } else if code == 0x0502 {
        "invalid operation"@
    } else if code == 0x0501 {
        "invalid value"@
    } else if code == 0x0505 {
        "out of memory"@
    } else if code == 0x0503 {
        "stack overflow"@
    } else if code == 0x0504 {
        "stack underflow"@
    } else {
        "unknown error"@
    }
}

/// The name of the GL error code `code`.
pub fn gl_error_text(code: u32) -> (r: &'static str)
    ensures
        r@ == gl_error_name(code),
{
    if code == 0x0500 {
        "invalid enum"
    } else if code == 0x0502 {
        "invalid operation"
    } else if code == 0x0501 {
        "invalid value"
    } else if code == 0x0505 {
        "out of memory"
    } else if code == 0x0503 {
        "stack overflow"
    } else if code == 0x0504 {
        "stack underflow"
    } else {
        "unknown error"
    }
}

/// The report of the GL error `code` raised after the step `msg`.
pub open spec fn gl_error_report(msg: Seq<char>, code: u32) -> Seq<char> {
    "GLError: "@ + msg + " "@ + decimal(code as nat) + " ("@ + gl_error_name(code) + ")"@
}

/// The report of the GL error `code` raised after the step `msg`:
/// `GLError: <msg> <code> (<name>)`.
pub fn gl_error_message(msg: &str, code: u32) -> (r: String)
    ensures
        r@ == gl_error_report(msg@, code),
{
    let mut v: Vec<char> = Vec::new();
    append_str(&mut v, "GLError: ");
    append_str(&mut v, msg);
    append_str(&mut v, " ");
    push_decimal(&mut v, code as usize);
    append_str(&mut v, " (");
    append_str(&mut v, gl_error_text(code));
    append_str(&mut v, ")");
    assert(v@ =~= gl_error_report(msg@, code));
    string_of(&v)
}

} // verus!
