//! Shader sources, preprocessed for the target GL.
use vstd::prelude::*;
use core::marker::PhantomData;
use crate::text::{append_str, append_string, chars_of, has_tag, string_of, tag_at};
use crate::webgl::IS_GL_ES;
use crate::glsl::preprocessor::expand::PreprocessError;
use crate::glsl::preprocessor::process::{pairs_view, preprocess, spec_preprocess};

verus! {

/// The stage a shader runs at.
#[derive(Debug, Clone, Copy, PartialEq, Eq, Structural)]
pub enum ShaderKind {
    Vertex,
    Fragment,
}

/// A type that names a shader stage.
pub trait ShaderKindProvider {
    /// The stage named by the type.
    spec fn provided_kind() -> ShaderKind;

    /// The stage named by the type.
    fn kind() -> (r: ShaderKind)
        ensures
            r == Self::provided_kind(),
    ;
}

/// The vertex stage.
#[derive(Debug)]
pub struct ShaderKindVs {}

impl ShaderKindProvider for ShaderKindVs {
    open spec fn provided_kind() -> ShaderKind {
        ShaderKind::Vertex
    }

    fn kind() -> (r: ShaderKind) {
        ShaderKind::Vertex
    }
}

/// The fragment stage.
#[derive(Debug)]
pub struct ShaderKindFs {}

impl ShaderKindProvider for ShaderKindFs {
    open spec fn provided_kind() -> ShaderKind {
        ShaderKind::Fragment
    }

    fn kind() -> (r: ShaderKind) {
        ShaderKind::Fragment
    }
}

/// The line that asks for GLSL ES 3.00 when a source starts with it.
pub open spec fn es3_marker() -> Seq<char> {
    "#define USE_GLSL_300ES"@
}

/// The text put before a preprocessed source of the stage `kind`: the version
/// line for desktop GL; on GL ES, the version line when the source asks for
/// GLSL ES 3.00, and for fragment shaders a default float precision.
pub open spec fn shader_prefix(kind: ShaderKind, gl_es: bool, s: Seq<char>) -> Seq<char> {
    if !gl_es {
        "#version 150\n"@
    } else {
        let es3 = has_tag(s, 0, es3_marker());
        match kind {
            ShaderKind::Vertex => if es3 {
                "#version 300 es\n"@
            } else {
                Seq::empty()
            },
            ShaderKind::Fragment => if es3 {
                "#version 300 es\n"@ + "precision highp float;\n"@
            } else {
                "precision highp float;\n"@
            },
        }
    }
}

/// The macros predefined for shaders: `GL_ES` (empty) on GL ES.
pub open spec fn shader_predefs(gl_es: bool) -> Seq<(Seq<char>, Seq<char>)> {
    if gl_es {
        seq![("GL_ES"@, Seq::empty())]
    } else {
        Seq::empty()
    }
}

/// A shader source after preprocessing, with its prefix for the target GL.
#[derive(Debug)]
pub struct PreprocessedShaderCode(String);

impl View for PreprocessedShaderCode {
    type V = Seq<char>;

    closed spec fn view(&self) -> Seq<char> {
        self.0@
    }
}

fn shader_predef_pairs() -> (r: Vec<(String, String)>)
    ensures
        pairs_view(r@) == shader_predefs(IS_GL_ES),
{
    let mut r: Vec<(String, String)> = Vec::new();
    if IS_GL_ES {
        let mut k: Vec<char> = Vec::new();
        append_str(&mut k, "GL_ES");
        r.push((string_of(&k), String::new()));
    }
    assert(pairs_view(r@) =~= shader_predefs(IS_GL_ES));
    r
}

fn push_prefix(v: &mut Vec<char>, kind: ShaderKind, s: &str)
    ensures
        final(v)@ == old(v)@ + shader_prefix(kind, IS_GL_ES, s@),
{
    if !IS_GL_ES {
        append_str(v, "#version 150\n");
    } else {
        let sv = chars_of(s);
        let es3 = tag_at(&sv, 0, "#define USE_GLSL_300ES");
        match kind {
            ShaderKind::Vertex => {
                if es3 {
                    append_str(v, "#version 300 es\n");
                } else {
                    assert(old(v)@ + Seq::<char>::empty() =~= old(v)@);
                }
            },
            ShaderKind::Fragment => {
                if es3 {
                    append_str(v, "#version 300 es\n");
                    append_str(v, "precision highp float;\n");
                    assert(v@ =~= old(v)@ + ("#version 300 es\n"@ + "precision highp float;\n"@));
                } else {
                    append_str(v, "precision highp float;\n");
                }
            },
        }
    }
}

impl PreprocessedShaderCode {
    /// The preprocessed text.
    pub fn as_string(&self) -> (r: &String)
        ensures
            r@ == self@,
    {
        &self.0
    }

    /// Preprocesses the source `s` of the stage `kind` (read from
    /// `filename`) with the target's predefined macros, and puts the target's
    /// prefix before it.
    pub fn new(kind: ShaderKind, filename: &str, s: &str) -> (r: Result<PreprocessedShaderCode, PreprocessError>)
        requires
            spec_preprocess(s@, shader_predefs(IS_GL_ES)) is Some,
        ensures
            match spec_preprocess(s@, shader_predefs(IS_GL_ES)) {
                Some(Ok(out)) => r matches Ok(c) && c@ == shader_prefix(kind, IS_GL_ES, s@) + out,
                Some(Err(msg)) => r matches Err(e) && e.0@ == msg,
                None => false,
            },
    {
        let predefs = shader_predef_pairs();
        match preprocess(s, &predefs) {
            Ok(out) => {
                let mut v: Vec<char> = Vec::new();
                push_prefix(&mut v, kind, s);
                append_string(&mut v, &out);
                assert(v@ =~= shader_prefix(kind, IS_GL_ES, s@) + out@);
                Ok(PreprocessedShaderCode(string_of(&v)))
            },
            Err(e) => Err(e),
        }
    }
}

/// A shader of the stage named by `T`, with the file it was read from.
#[derive(Debug)]
pub struct Shader<T: ShaderKindProvider> {
    pub code: PreprocessedShaderCode,
    pub filename: String,
    pub phantom: PhantomData<T>,
}

impl<T: ShaderKindProvider> Shader<T> {
    /// The shader of the source `s` read from `filename`; the source must
    /// preprocess without error.
    pub fn new(filename: &str, s: &str) -> (r: Shader<T>)
        requires
            spec_preprocess(s@, shader_predefs(IS_GL_ES)) matches Some(Ok(_)),
        ensures
            r.filename@ == filename@,
            match spec_preprocess(s@, shader_predefs(IS_GL_ES)) {
                Some(Ok(out)) => r.code@ == shader_prefix(T::provided_kind(), IS_GL_ES, s@) + out,
                _ => false,
            },
    {
        let code = match PreprocessedShaderCode::new(T::kind(), filename, s) {
            Ok(c) => c,
            Err(_) => {
                proof {
                    assert(false);
                }
                PreprocessedShaderCode(String::new())
            },
        };
        Shader { filename: string_of(&chars_of(filename)), code, phantom: PhantomData }
    }

    /// The shader of an already preprocessed source.
    pub fn from_preprocessed(filename: &str, code: PreprocessedShaderCode) -> (r: Shader<T>)
        ensures
            r.filename@ == filename@,
            r.code@ == code@,
    {
        Shader { filename: string_of(&chars_of(filename)), code, phantom: PhantomData }
    }
}

} // verus!
