//! The numeric constants of the WebGL API, grouped by the call they are
//! passed to; each group is an enum whose `value` is the GL constant.
use vstd::prelude::*;

verus! {

/// Constants passed to WebGLRenderingContext.vertexAttribPointer()
#[derive(Debug, Clone, Copy, PartialEq, Eq, Structural)]
pub enum AttributeSize {
    One,
    Two,
    Three,
    Four,
}

impl AttributeSize {
    /// The GL constant of the variant.
    pub open spec fn code(self) -> u32 {
        match self {
            AttributeSize::One => 1,
            AttributeSize::Two => 2,
            AttributeSize::Three => 3,
            AttributeSize::Four => 4,
        }
    }

    /// The GL constant passed to the API for this variant.
    pub fn value(self) -> (r: u32)
        ensures
            r == self.code(),
    {
        match self {
            AttributeSize::One => 1,
            AttributeSize::Two => 2,
            AttributeSize::Three => 3,
            AttributeSize::Four => 4,
        }
    }
}

/// Constants passed to WebGLRenderingContext.createShader()
#[derive(Debug, Clone, Copy, PartialEq, Eq, Structural)]
pub enum ShaderKind {
    /// Passed to createShader to define a fragment shader.
    Fragment,
    /// Passed to createShader to define a vertex shader
    Vertex,
}

impl ShaderKind {
    /// The GL constant of the variant.
    pub open spec fn code(self) -> u32 {
        match self {
            ShaderKind::Fragment => 0x8B30,
            ShaderKind::Vertex => 0x8B31,
        }
    }

    /// The GL constant passed to the API for this variant.
    pub fn value(self) -> (r: u32)
        ensures
            r == self.code(),
    {
        match self {
            ShaderKind::Fragment => 0x8B30,
            ShaderKind::Vertex => 0x8B31,
        }
    }
}

/// Constants passed to WebGLRenderingContext.createShader()
#[derive(Debug, Clone, Copy, PartialEq, Eq, Structural)]
pub enum ShaderParameter {
    /// Passed to getShaderParamter to get the status of the compilation. Returns false if the shader was not compiled. You can then query getShaderInfoLog to find the exact error
    CompileStatus,
    /// Passed to getShaderParamter to determine if a shader was deleted via deleteShader. Returns true if it was, false otherwise.
    DeleteStatus,
    /// Passed to getProgramParameter after calling linkProgram to determine if a program was linked correctly. Returns false if there were errors. Use getProgramInfoLog to find the exact error.
    LinkStatus,
    /// Passed to getProgramParameter after calling validateProgram to determine if it is valid. Returns false if errors were found.
    ValidateStatus,
    /// Passed to getProgramParameter after calling attachShader to determine if the shader was attached correctly. Returns false if errors occurred.
    AttachedShaders,
    /// Passed to getProgramParameter to get the number of attributes active in a program.
    ActiveAttributes,
    /// Passed to getProgramParamter to get the number of uniforms active in a program.
    ActiveUniforms,
    /// The maximum number of entries possible in the vertex attribute list.
    MaxVertexAttribs,
    MaxVertexUniformVectors,
    MaxVaryingVectors,
    MaxCombinedTextureImageUnits,
    MaxVertexTextureImageUnits,
    /// Implementation dependent number of maximum texture units. At least 8.
    MaxTextureImageUnits,
    MaxFragmentUniformVectors,
    ShaderType,
    ShadingLanguageVersion,
    CurrentProgram,
}

impl ShaderParameter {
    /// The GL constant of the variant.
    pub open spec fn code(self) -> u32 {
        match self {
            ShaderParameter::CompileStatus => 0x8B81,
            ShaderParameter::DeleteStatus => 0x8B80,
            ShaderParameter::LinkStatus => 0x8B82,
            ShaderParameter::ValidateStatus => 0x8B83,
            ShaderParameter::AttachedShaders => 0x8B85,
            ShaderParameter::ActiveAttributes => 0x8B89,
            ShaderParameter::ActiveUniforms => 0x8B86,
            ShaderParameter::MaxVertexAttribs => 0x8869,
            ShaderParameter::MaxVertexUniformVectors => 0x8DFB,
            ShaderParameter::MaxVaryingVectors => 0x8DFC,
            ShaderParameter::MaxCombinedTextureImageUnits => 0x8B4D,
            ShaderParameter::MaxVertexTextureImageUnits => 0x8B4C,
            ShaderParameter::MaxTextureImageUnits => 0x8872,
            ShaderParameter::MaxFragmentUniformVectors => 0x8DFD,
            ShaderParameter::ShaderType => 0x8B4F,
            ShaderParameter::ShadingLanguageVersion => 0x8B8C,
            ShaderParameter::CurrentProgram => 0x8B8D,
        }
    }

    /// The GL constant passed to the API for this variant.
    pub fn value(self) -> (r: u32)
        ensures
            r == self.code(),
    {
        match self {
            ShaderParameter::CompileStatus => 0x8B81,
            ShaderParameter::DeleteStatus => 0x8B80,
            ShaderParameter::LinkStatus => 0x8B82,
            ShaderParameter::ValidateStatus => 0x8B83,
            ShaderParameter::AttachedShaders => 0x8B85,
            ShaderParameter::ActiveAttributes => 0x8B89,
            ShaderParameter::ActiveUniforms => 0x8B86,
            ShaderParameter::MaxVertexAttribs => 0x8869,
            ShaderParameter::MaxVertexUniformVectors => 0x8DFB,
            ShaderParameter::MaxVaryingVectors => 0x8DFC,
            ShaderParameter::MaxCombinedTextureImageUnits => 0x8B4D,
            ShaderParameter::MaxVertexTextureImageUnits => 0x8B4C,
            ShaderParameter::MaxTextureImageUnits => 0x8872,
            ShaderParameter::MaxFragmentUniformVectors => 0x8DFD,
            ShaderParameter::ShaderType => 0x8B4F,
            ShaderParameter::ShadingLanguageVersion => 0x8B8C,
            ShaderParameter::CurrentProgram => 0x8B8D,
        }
    }
}

/// Passed to bindBuffer or bufferData to specify the type of buffer being used.
#[derive(Debug, Clone, Copy, PartialEq, Eq, Structural)]
pub enum BufferKind {
    Array,
    ElementArray,
}

impl BufferKind {
    /// The GL constant of the variant.
    pub open spec fn code(self) -> u32 {
        match self {
            BufferKind::Array => 0x8892,
            BufferKind::ElementArray => 0x8893,
        }
    }

    /// The GL constant passed to the API for this variant.
    pub fn value(self) -> (r: u32)
        ensures
            r == self.code(),
    {
        match self {
            BufferKind::Array => 0x8892,
            BufferKind::ElementArray => 0x8893,
        }
    }
}

#[derive(Debug, Clone, Copy, PartialEq, Eq, Structural)]
pub enum DrawMode {
    /// Passed to bufferData as a hint about whether the contents of the buffer are likely to be used often and not change often.
    Static,
    /// Passed to bufferData as a hint about whether the contents of the buffer are likely to be used often and change often.
    Dynamic,
    /// Passed to bufferData as a hint about whether the contents of the buffer are likely to not be used often.
    Stream,
}

impl DrawMode {
    /// The GL constant of the variant.
    pub open spec fn code(self) -> u32 {
        match self {
            DrawMode::Static => 0x88E4,
            DrawMode::Dynamic => 0x88E8,
            DrawMode::Stream => 0x88E0,
        }
    }

    /// The GL constant passed to the API for this variant.
    pub fn value(self) -> (r: u32)
        ensures
            r == self.code(),
    {
        match self {
            DrawMode::Static => 0x88E4,
            DrawMode::Dynamic => 0x88E8,
            DrawMode::Stream => 0x88E0,
        }
    }
}

#[derive(Debug, Clone, Copy, PartialEq, Eq, Structural)]
pub enum BufferParameter {
    /// Passed to getBufferParameter to get a buffer's size.
    Size,
    /// Passed to getBufferParameter to get the hint for the buffer passed in when it was created.
    Usage,
}

impl BufferParameter {
    /// The GL constant of the variant.
    pub open spec fn code(self) -> u32 {
        match self {
            BufferParameter::Size => 0x8764,
            BufferParameter::Usage => 0x8765,
        }
    }

    /// The GL constant passed to the API for this variant.
    pub fn value(self) -> (r: u32)
        ensures
            r == self.code(),
    {
        match self {
            BufferParameter::Size => 0x8764,
            BufferParameter::Usage => 0x8765,
        }
    }
}

#[derive(Debug, Clone, Copy, PartialEq, Eq, Structural)]
pub enum DataType {
    I8,
    U8,
    I16,
    U16,
    I32,
    U32,
    Float,
}

impl DataType {
    /// The GL constant of the variant.
    pub open spec fn code(self) -> u32 {
        match self {
            DataType::I8 => 0x1400,
            DataType::U8 => 0x1401,
            DataType::I16 => 0x1402,
            DataType::U16 => 0x1403,
            DataType::I32 => 0x1404,
            DataType::U32 => 0x1405,
            DataType::Float => 0x1406,
        }
    }

    /// The GL constant passed to the API for this variant.
    pub fn value(self) -> (r: u32)
        ensures
            r == self.code(),
    {
        match self {
            DataType::I8 => 0x1400,
            DataType::U8 => 0x1401,
            DataType::I16 => 0x1402,
            DataType::U16 => 0x1403,
            DataType::I32 => 0x1404,
            DataType::U32 => 0x1405,
            DataType::Float => 0x1406,
        }
    }
}

#[derive(Debug, Clone, Copy, PartialEq, Eq, Structural)]
pub enum Flag {
    /// Passed to enable/disable to turn on/off blending. Can also be used with getParameter to find the current blending method.
    Blend,
    /// Passed to enable/disable to turn on/off the depth test. Can also be used with getParameter to query the depth test.
    DepthTest,
    /// Passed to enable/disable to turn on/off dithering. Can also be used with getParameter to find the current dithering method.
    Dither,
    /// Passed to enable/disable to turn on/off the polygon offset. Useful for rendering hidden-line images, decals, and or solids with highlighted edges. Can also be used with getParameter to query the scissor test.
    PolygonOffsetFill,
    /// Passed to enable/disable to turn on/off the alpha to coverage. Used in multi-sampling alpha channels.
    SampleAlphaToCoverage,
    /// Passed to enable/disable to turn on/off the sample coverage. Used in multi-sampling.
    SampleCoverage,
    /// Passed to enable/disable to turn on/off the scissor test. Can also be used with getParameter to query the scissor test.
    ScissorTest,
    /// Passed to enable/disable to turn on/off the stencil test. Can also be used with getParameter to query the stencil test.
    StencilTest,
}

impl Flag {
    /// The GL constant of the variant.
    pub open spec fn code(self) -> u32 {
        match self {
            Flag::Blend => 0x0BE2,
            Flag::DepthTest => 0x0B71,
            Flag::Dither => 0x0BD0,
            Flag::PolygonOffsetFill => 0x8037,
            Flag::SampleAlphaToCoverage => 0x809E,
            Flag::SampleCoverage => 0x80A0,
            Flag::ScissorTest => 0x0C11,
            Flag::StencilTest => 0x0B90,
        }
    }

    /// The GL constant passed to the API for this variant.
    pub fn value(self) -> (r: u32)
        ensures
            r == self.code(),
    {
        match self {
            Flag::Blend => 0x0BE2,
            Flag::DepthTest => 0x0B71,
            Flag::Dither => 0x0BD0,
            Flag::PolygonOffsetFill => 0x8037,
            Flag::SampleAlphaToCoverage => 0x809E,
            Flag::SampleCoverage => 0x80A0,
            Flag::ScissorTest => 0x0C11,
            Flag::StencilTest => 0x0B90,
        }
    }
}

#[derive(Debug, Clone, Copy, PartialEq, Eq, Structural)]
pub enum BufferBit {
    /// Passed to clear to clear the current depth buffer.
    Depth,
    /// Passed to clear to clear the current stencil buffer.
    Stencil,
    /// Passed to clear to clear the current color buffer.
    Color,
}

impl BufferBit {
    /// The GL constant of the variant.
    pub open spec fn code(self) -> u32 {
        match self {
            BufferBit::Depth => 0x00000100,
            BufferBit::Stencil => 0x00000400,
            BufferBit::Color => 0x00004000,
        }
    }

    /// The GL constant passed to the API for this variant.
    pub fn value(self) -> (r: u32)
        ensures
            r == self.code(),
    {
        match self {
            BufferBit::Depth => 0x00000100,
            BufferBit::Stencil => 0x00000400,
            BufferBit::Color => 0x00004000,
        }
    }
}

/// Passed to drawElements or drawArrays to draw primitives.
#[derive(Debug, Clone, Copy, PartialEq, Eq, Structural)]
pub enum Primitives {
    /// Passed to drawElements or drawArrays to draw single points.
    Points,
    /// Passed to drawElements or drawArrays to draw lines. Each vertex connects to the one after it.
    Lines,
    /// Passed to drawElements or drawArrays to draw lines. Each set of two vertices is treated as a separate line segment.
    LineLoop,
    /// Passed to drawElements or drawArrays to draw a connected group of line segments from the first vertex to the last.
    LineStrip,
    /// Passed to drawElements or drawArrays to draw triangles. Each set of three vertices creates a separate triangle.
    Triangles,
    /// Passed to drawElements or drawArrays to draw a connected group of triangles.
    TriangleStrip,
    /// Passed to drawElements or drawArrays to draw a connected group of triangles. Each vertex connects to the previous and the first vertex in the fan.
    TriangleFan,
}

impl Primitives {
    /// The GL constant of the variant.
    pub open spec fn code(self) -> u32 {
        match self {
            Primitives::Points => 0x0000,
            Primitives::Lines => 0x0001,
            Primitives::LineLoop => 0x0002,
            Primitives::LineStrip => 0x0003,
            Primitives::Triangles => 0x0004,
            Primitives::TriangleStrip => 0x0005,
            Primitives::TriangleFan => 0x0006,
        }
    }

    /// The GL constant passed to the API for this variant.
    pub fn value(self) -> (r: u32)
        ensures
            r == self.code(),
    {
        match self {
            Primitives::Points => 0x0000,
            Primitives::Lines => 0x0001,
            Primitives::LineLoop => 0x0002,
            Primitives::LineStrip => 0x0003,
            Primitives::Triangles => 0x0004,
            Primitives::TriangleStrip => 0x0005,
            Primitives::TriangleFan => 0x0006,
        }
    }
}

/// Constants passed to WebGLRenderingContext.blendFunc() or WebGLRenderingContext.blendFuncSeparate() to specify the blending mode (for both, RBG and alpha, or separately).
#[derive(Debug, Clone, Copy, PartialEq, Eq, Structural)]
pub enum BlendMode {
    /// Passed to blendFunc or blendFuncSeparate to turn off a component.
    Zero,
    /// Passed to blendFunc or blendFuncSeparate to turn on a component.
    One,
    /// Passed to blendFunc or blendFuncSeparate to multiply a component by the source elements color.
    SrcColor,
    /// Passed to blendFunc or blendFuncSeparate to multiply a component by one minus the source elements color.
    OneMinusSrcColor,
    /// Passed to blendFunc or blendFuncSeparate to multiply a component by the source's alpha.
    SrcAlpha,
    /// Passed to blendFunc or blendFuncSeparate to multiply a component by one minus the source's alpha.
    OneMinusSrcAlpha,
    /// Passed to blendFunc or blendFuncSeparate to multiply a component by the destination's alpha.
    DstAlpha,
    /// Passed to blendFunc or blendFuncSeparate to multiply a component by one minus the destination's alpha.
    OneMinusDstAlpha,
    /// Passed to blendFunc or blendFuncSeparate to multiply a component by the destination's color.
    DstColor,
    /// Passed to blendFunc or blendFuncSeparate to multiply a component by one minus the destination's color.
    OneMinusDstColor,
    /// Passed to blendFunc or blendFuncSeparate to multiply a component by the minimum of source's alpha or one minus the destination's alpha.
    SrcAlphaSaturate,
    /// Passed to blendFunc or blendFuncSeparate to specify a constant color blend function.
    ConstantColor,
    /// Passed to blendFunc or blendFuncSeparate to specify one minus a constant color blend function.
    OneMinusConstantColor,
    /// Passed to blendFunc or blendFuncSeparate to specify a constant alpha blend function.
    ConstantAlpha,
    /// Passed to blendFunc or blendFuncSeparate to specify one minus a constant alpha blend function.
    OneMinusConstantAlpha,
}

impl BlendMode {
    /// The GL constant of the variant.
    pub open spec fn code(self) -> u32 {
        match self {
            BlendMode::Zero => 0,
            BlendMode::One => 1,
            BlendMode::SrcColor => 0x0300,
            BlendMode::OneMinusSrcColor => 0x0301,
            BlendMode::SrcAlpha => 0x0302,
            BlendMode::OneMinusSrcAlpha => 0x0303,
            BlendMode::DstAlpha => 0x0304,
            BlendMode::OneMinusDstAlpha => 0x0305,
            BlendMode::DstColor => 0x0306,
            BlendMode::OneMinusDstColor => 0x0307,
            BlendMode::SrcAlphaSaturate => 0x0308,
            BlendMode::ConstantColor => 0x8001,
            BlendMode::OneMinusConstantColor => 0x8002,
            BlendMode::ConstantAlpha => 0x8003,
            BlendMode::OneMinusConstantAlpha => 0x8004,
        }
    }

    /// The GL constant passed to the API for this variant.
    pub fn value(self) -> (r: u32)
        ensures
            r == self.code(),
    {
        match self {
            BlendMode::Zero => 0,
            BlendMode::One => 1,
            BlendMode::SrcColor => 0x0300,
            BlendMode::OneMinusSrcColor => 0x0301,
            BlendMode::SrcAlpha => 0x0302,
            BlendMode::OneMinusSrcAlpha => 0x0303,
            BlendMode::DstAlpha => 0x0304,
            BlendMode::OneMinusDstAlpha => 0x0305,
            BlendMode::DstColor => 0x0306,
            BlendMode::OneMinusDstColor => 0x0307,
            BlendMode::SrcAlphaSaturate => 0x0308,
            BlendMode::ConstantColor => 0x8001,
            BlendMode::OneMinusConstantColor => 0x8002,
            BlendMode::ConstantAlpha => 0x8003,
            BlendMode::OneMinusConstantAlpha => 0x8004,
        }
    }
}

/// Constants passed to WebGLRenderingContext.blendEquation()
/// or WebGLRenderingContext.blendEquationSeparate() to control
/// how the blending is calculated (for both, RBG and alpha, or separately).
#[derive(Debug, Clone, Copy, PartialEq, Eq, Structural)]
pub enum BlendEquation {
    /// Passed to blendEquation or blendEquationSeparate to set an addition blend function.
    FuncAdd,
    /// Passed to blendEquation or blendEquationSeparate to specify a subtraction blend function (source - destination).
    FuncSubstract,
    /// Passed to blendEquation or blendEquationSeparate to specify a reverse subtraction blend function (destination - source).
    FuncReverseSubtract,
}

impl BlendEquation {
    /// The GL constant of the variant.
    pub open spec fn code(self) -> u32 {
        match self {
            BlendEquation::FuncAdd => 0x8006,
            BlendEquation::FuncSubstract => 0x800A,
            BlendEquation::FuncReverseSubtract => 0x800B,
        }
    }

    /// The GL constant passed to the API for this variant.
    pub fn value(self) -> (r: u32)
        ensures
            r == self.code(),
    {
        match self {
            BlendEquation::FuncAdd => 0x8006,
            BlendEquation::FuncSubstract => 0x800A,
            BlendEquation::FuncReverseSubtract => 0x800B,
        }
    }
}

/// Constants passed to WebGLRenderingContext.getParameter() to specify what information to return.
#[derive(Debug, Clone, Copy, PartialEq, Eq, Structural)]
pub enum Parameter {
    /// Passed to getParameter to get the current RGB blend function. same as BlendEquationRgb
    BlendEquation,
    /// Passed to getParameter to get the current alpha blend function. Same as BLEND_EQUATION
    BlendEquationAlpha,
    /// Passed to getParameter to get the current destination RGB blend function.
    BlendDstRgb,
    /// Passed to getParameter to get the current destination RGB blend function.
    BlendSrcRgb,
    /// Passed to getParameter to get the current destination alpha blend function.
    BlendDstAlpha,
    /// Passed to getParameter to get the current source alpha blend function.
    BlendSrcAlpha,
    /// Passed to getParameter to return a the current blend color.
    BlendColor,
    /// Passed to getParameter to get the array buffer binding.
    ArrayBufferBinding,
    /// Passed to getParameter to get the current element array buffer.
    ElementArrayBufferBinding,
    /// Passed to getParameter to get the current lineWidth (set by the lineWidth method).
    LineWidth,
    /// Passed to getParameter to get the current size of a point drawn with gl.POINTS
    AliasedPointSizeRange,
    /// Passed to getParameter to get the range of available widths for a line. Returns a length-2 array with the lo value at 0, and hight at 1.
    AliasedLineWidthRange,
    /// Passed to getParameter to get the current value of cullFace. Should return FRONT, BACK, or FRONT_AND_BACK
    CullFaceMode,
    /// Passed to getParameter to determine the current value of frontFace. Should return CW or CCW.
    FrontFace,
    /// Passed to getParameter to return a length-2 array of floats giving the current depth range.
    DepthRange,
    /// Passed to getParameter to determine if the depth write mask is enabled.
    DepthWritemask,
    /// Passed to getParameter to determine the current depth clear value.
    DepthClearValue,
    /// Passed to getParameter to get the current depth function. Returns NEVER, ALWAYS, LESS, EQUAL, LEQUAL, GREATER, GEQUAL, or NOTEQUAL.
    DepthFunc,
    /// Passed to getParameter to get the value the stencil will be cleared to.
    StencilClearValue,
    /// Passed to getParameter to get the current stencil function. Returns NEVER, ALWAYS, LESS, EQUAL, LEQUAL, GREATER, GEQUAL, or NOTEQUAL.
    StencilFunc,
    /// Passed to getParameter to get the current stencil fail function. Should return KEEP, REPLACE, INCR, DECR, INVERT, INCR_WRAP, or DECR_WRAP.
    StencilFail,
    /// Passed to getParameter to get the current stencil fail function should the depth buffer test fail. Should return KEEP, REPLACE, INCR, DECR, INVERT, INCR_WRAP, or DECR_WRAP.
    StencilPassDepthFail,
    /// Passed to getParameter to get the current stencil fail function should the depth buffer test pass. Should return KEEP, REPLACE, INCR, DECR, INVERT, INCR_WRAP, or DECR_WRAP.
    StencilPassDepthPass,
    /// Passed to getParameter to get the reference value used for stencil tests.
    StencilRef,
    StencilValueMask,
    StencilWritemask,
    StencilBackFunc,
    StencilBackFail,
    StencilBackPassDepthFail,
    StencilBackPassDepthPass,
    StencilBackRef,
    StencilBackValueMask,
    StencilBackWritemask,
    /// Returns an Int32Array with four elements for the current viewport dimensions.
    Viewport,
    /// Returns an Int32Array with four elements for the current scissor box dimensions.
    ScissorBox,
    ColorClearValue,
    ColorWritemask,
    UnpackAlignment,
    PackAlignment,
    MaxTextureSize,
    MaxViewportDims,
    SubpixelBits,
    RedBits,
    GreenBits,
    BlueBits,
    AlphaBits,
    DepthBits,
    StencilBits,
    PolygonOffsetUnits,
    PolygonOffsetFactor,
    TextureBinding2d,
    SampleBuffers,
    Samples,
    SampleCoverageValue,
    SampleCoverageInvert,
    CompressedTextureFormats,
    Vendor,
    Renderer,
    Version,
    ImplementationColorReadType,
    ImplementationColorReadFormat,
    BrowserDefaultWebgl,
    TextureBindingCubeMap,
    MaxCubeMapTextureSize,
}

impl Parameter {
    /// The GL constant of the variant.
    pub open spec fn code(self) -> u32 {
        match self {
            Parameter::BlendEquation => 0x8009,
            Parameter::BlendEquationAlpha => 0x883D,
            Parameter::BlendDstRgb => 0x80C8,
            Parameter::BlendSrcRgb => 0x80C9,
            Parameter::BlendDstAlpha => 0x80CA,
            Parameter::BlendSrcAlpha => 0x80CB,
            Parameter::BlendColor => 0x8005,
            Parameter::ArrayBufferBinding => 0x8894,
            Parameter::ElementArrayBufferBinding => 0x8895,
            Parameter::LineWidth => 0x0B21,
            Parameter::AliasedPointSizeRange => 0x846D,
            Parameter::AliasedLineWidthRange => 0x846E,
            Parameter::CullFaceMode => 0x0B45,
            Parameter::FrontFace => 0x0B46,
            Parameter::DepthRange => 0x0B70,
            Parameter::DepthWritemask => 0x0B72,
            Parameter::DepthClearValue => 0x0B73,
            Parameter::DepthFunc => 0x0B74,
            Parameter::StencilClearValue => 0x0B91,
            Parameter::StencilFunc => 0x0B92,
            Parameter::StencilFail => 0x0B94,
            Parameter::StencilPassDepthFail => 0x0B95,
            Parameter::StencilPassDepthPass => 0x0B96,
            Parameter::StencilRef => 0x0B97,
            Parameter::StencilValueMask => 0x0B93,
            Parameter::StencilWritemask => 0x0B98,
            Parameter::StencilBackFunc => 0x8800,
            Parameter::StencilBackFail => 0x8801,
            Parameter::StencilBackPassDepthFail => 0x8802,
            Parameter::StencilBackPassDepthPass => 0x8803,
            Parameter::StencilBackRef => 0x8CA3,
            Parameter::StencilBackValueMask => 0x8CA4,
            Parameter::StencilBackWritemask => 0x8CA5,
            Parameter::Viewport => 0x0BA2,
            Parameter::ScissorBox => 0x0C10,
            Parameter::ColorClearValue => 0x0C22,
            Parameter::ColorWritemask => 0x0C23,
            Parameter::UnpackAlignment => 0x0CF5,
            Parameter::PackAlignment => 0x0D05,
            Parameter::MaxTextureSize => 0x0D33,
            Parameter::MaxViewportDims => 0x0D3A,
            Parameter::SubpixelBits => 0x0D50,
            Parameter::RedBits => 0x0D52,
            Parameter::GreenBits => 0x0D53,
            Parameter::BlueBits => 0x0D54,
            Parameter::AlphaBits => 0x0D55,
            Parameter::DepthBits => 0x0D56,
            Parameter::StencilBits => 0x0D57,
            Parameter::PolygonOffsetUnits => 0x2A00,
            Parameter::PolygonOffsetFactor => 0x8038,
            Parameter::TextureBinding2d => 0x8069,
            Parameter::SampleBuffers => 0x80A8,
            Parameter::Samples => 0x80A9,
            Parameter::SampleCoverageValue => 0x80AA,
            Parameter::SampleCoverageInvert => 0x80AB,
            Parameter::CompressedTextureFormats => 0x86A3,
            Parameter::Vendor => 0x1F00,
            Parameter::Renderer => 0x1F01,
            Parameter::Version => 0x1F02,
            Parameter::ImplementationColorReadType => 0x8B9A,
            Parameter::ImplementationColorReadFormat => 0x8B9B,
            Parameter::BrowserDefaultWebgl => 0x9244,
            Parameter::TextureBindingCubeMap => 0x8514,
            Parameter::MaxCubeMapTextureSize => 0x851C,
        }
    }

    /// The GL constant passed to the API for this variant.
    pub fn value(self) -> (r: u32)
        ensures
            r == self.code(),
    {
        match self {
            Parameter::BlendEquation => 0x8009,
            Parameter::BlendEquationAlpha => 0x883D,
            Parameter::BlendDstRgb => 0x80C8,
            Parameter::BlendSrcRgb => 0x80C9,
            Parameter::BlendDstAlpha => 0x80CA,
            Parameter::BlendSrcAlpha => 0x80CB,
            Parameter::BlendColor => 0x8005,
            Parameter::ArrayBufferBinding => 0x8894,
            Parameter::ElementArrayBufferBinding => 0x8895,
            Parameter::LineWidth => 0x0B21,
            Parameter::AliasedPointSizeRange => 0x846D,
            Parameter::AliasedLineWidthRange => 0x846E,
            Parameter::CullFaceMode => 0x0B45,
            Parameter::FrontFace => 0x0B46,
            Parameter::DepthRange => 0x0B70,
            Parameter::DepthWritemask => 0x0B72,
            Parameter::DepthClearValue => 0x0B73,
            Parameter::DepthFunc => 0x0B74,
            Parameter::StencilClearValue => 0x0B91,
            Parameter::StencilFunc => 0x0B92,
            Parameter::StencilFail => 0x0B94,
            Parameter::StencilPassDepthFail => 0x0B95,
            Parameter::StencilPassDepthPass => 0x0B96,
            Parameter::StencilRef => 0x0B97,
            Parameter::StencilValueMask => 0x0B93,
            Parameter::StencilWritemask => 0x0B98,
            Parameter::StencilBackFunc => 0x8800,
            Parameter::StencilBackFail => 0x8801,
            Parameter::StencilBackPassDepthFail => 0x8802,
            Parameter::StencilBackPassDepthPass => 0x8803,
            Parameter::StencilBackRef => 0x8CA3,
            Parameter::StencilBackValueMask => 0x8CA4,
            Parameter::StencilBackWritemask => 0x8CA5,
            Parameter::Viewport => 0x0BA2,
            Parameter::ScissorBox => 0x0C10,
            Parameter::ColorClearValue => 0x0C22,
            Parameter::ColorWritemask => 0x0C23,
            Parameter::UnpackAlignment => 0x0CF5,
            Parameter::PackAlignment => 0x0D05,
            Parameter::MaxTextureSize => 0x0D33,
            Parameter::MaxViewportDims => 0x0D3A,
            Parameter::SubpixelBits => 0x0D50,
            Parameter::RedBits => 0x0D52,
            Parameter::GreenBits => 0x0D53,
            Parameter::BlueBits => 0x0D54,
            Parameter::AlphaBits => 0x0D55,
            Parameter::DepthBits => 0x0D56,
            Parameter::StencilBits => 0x0D57,
            Parameter::PolygonOffsetUnits => 0x2A00,
            Parameter::PolygonOffsetFactor => 0x8038,
            Parameter::TextureBinding2d => 0x8069,
            Parameter::SampleBuffers => 0x80A8,
            Parameter::Samples => 0x80A9,
            Parameter::SampleCoverageValue => 0x80AA,
            Parameter::SampleCoverageInvert => 0x80AB,
            Parameter::CompressedTextureFormats => 0x86A3,
            Parameter::Vendor => 0x1F00,
            Parameter::Renderer => 0x1F01,
            Parameter::Version => 0x1F02,
            Parameter::ImplementationColorReadType => 0x8B9A,
            Parameter::ImplementationColorReadFormat => 0x8B9B,
            Parameter::BrowserDefaultWebgl => 0x9244,
            Parameter::TextureBindingCubeMap => 0x8514,
            Parameter::MaxCubeMapTextureSize => 0x851C,
        }
    }
}

/// Constants passed to WebGLRenderingContext.getVertexAttrib().
#[derive(Debug, Clone, Copy, PartialEq, Eq, Structural)]
pub enum VertexAttrib {
    /// Passed to getVertexAttrib to read back the current vertex attribute.
    Current,
    ArrayEnabled,
    ArraySize,
    ArrayStride,
    ArrayType,
    ArrayNormalized,
    ArrayPointer,
    ArrayBufferBinding,
}

impl VertexAttrib {
    /// The GL constant of the variant.
    pub open spec fn code(self) -> u32 {
        match self {
            VertexAttrib::Current => 0x8626,
            VertexAttrib::ArrayEnabled => 0x8622,
            VertexAttrib::ArraySize => 0x8623,
            VertexAttrib::ArrayStride => 0x8624,
            VertexAttrib::ArrayType => 0x8625,
            VertexAttrib::ArrayNormalized => 0x886A,
            VertexAttrib::ArrayPointer => 0x8645,
            VertexAttrib::ArrayBufferBinding => 0x889F,
        }
    }

    /// The GL constant passed to the API for this variant.
    pub fn value(self) -> (r: u32)
        ensures
            r == self.code(),
    {
        match self {
            VertexAttrib::Current => 0x8626,
            VertexAttrib::ArrayEnabled => 0x8622,
            VertexAttrib::ArraySize => 0x8623,
            VertexAttrib::ArrayStride => 0x8624,
            VertexAttrib::ArrayType => 0x8625,
            VertexAttrib::ArrayNormalized => 0x886A,
            VertexAttrib::ArrayPointer => 0x8645,
            VertexAttrib::ArrayBufferBinding => 0x889F,
        }
    }
}

/// Constants passed to WebGLRenderingContext.cullFace().
#[derive(Debug, Clone, Copy, PartialEq, Eq, Structural)]
pub enum Culling {
    /// Passed to enable/disable to turn on/off culling. Can also be used with getParameter to find the current culling method.
    CullFace,
    /// Passed to cullFace to specify that only front faces should be drawn.
    Front,
    /// Passed to cullFace to specify that only back faces should be drawn.
    Back,
    /// Passed to cullFace to specify that front and back faces should be drawn.
    FrontAndBack,
}

impl Culling {
    /// The GL constant of the variant.
    pub open spec fn code(self) -> u32 {
        match self {
            Culling::CullFace => 0x0B44,
            Culling::Front => 0x0404,
            Culling::Back => 0x0405,
            Culling::FrontAndBack => 0x0408,
        }
    }

    /// The GL constant passed to the API for this variant.
    pub fn value(self) -> (r: u32)
        ensures
            r == self.code(),
    {
        match self {
            Culling::CullFace => 0x0B44,
            Culling::Front => 0x0404,
            Culling::Back => 0x0405,
            Culling::FrontAndBack => 0x0408,
        }
    }
}

/// Constants returned from WebGLRenderingContext.getError().
#[derive(Debug, Clone, Copy, PartialEq, Eq, Structural)]
pub enum Error {
    /// Returned from getError.
    NoError,
    /// Returned from getError.
    InvalidEnum,
    /// Returned from getError.
    InvalidValue,
    /// Returned from getError.
    InvalidOperation,
    /// Returned from getError.
    OutOfMemory,
    /// Returned from getError.
    ContextLostWebgl,
}

impl Error {
    /// The GL constant of the variant.
    pub open spec fn code(self) -> u32 {
        match self {
            Error::NoError => 0,
            Error::InvalidEnum => 0x0500,
            Error::InvalidValue => 0x0501,
            Error::InvalidOperation => 0x0502,
            Error::OutOfMemory => 0x0505,
            Error::ContextLostWebgl => 0x9242,
        }
    }

    /// The GL constant passed to the API for this variant.
    pub fn value(self) -> (r: u32)
        ensures
            r == self.code(),
    {
        match self {
            Error::NoError => 0,
            Error::InvalidEnum => 0x0500,
            Error::InvalidValue => 0x0501,
            Error::InvalidOperation => 0x0502,
            Error::OutOfMemory => 0x0505,
            Error::ContextLostWebgl => 0x9242,
        }
    }
}

/// Constants passed to WebGLRenderingContext.frontFace().
#[derive(Debug, Clone, Copy, PartialEq, Eq, Structural)]
pub enum FrontFaceDirection {
    /// Passed to frontFace to specify the front face of a polygon is drawn in the clockwise direction
    CW,
    /// Passed to frontFace to specify the front face of a polygon is drawn in the counter clockwise direction
    CCW,
}

impl FrontFaceDirection {
    /// The GL constant of the variant.
    pub open spec fn code(self) -> u32 {
        match self {
            FrontFaceDirection::CW => 0x0900,
            FrontFaceDirection::CCW => 0x0901,
        }
    }

    /// The GL constant passed to the API for this variant.
    pub fn value(self) -> (r: u32)
        ensures
            r == self.code(),
    {
        match self {
            FrontFaceDirection::CW => 0x0900,
            FrontFaceDirection::CCW => 0x0901,
        }
    }
}

/// Constants passed to WebGLRenderingContext.depthFunc().
#[derive(Debug, Clone, Copy, PartialEq, Eq, Structural)]
pub enum DepthTest {
    /// Passed to depthFunction or stencilFunction to specify depth or stencil tests will never pass. i.e. Nothing will be drawn.
    Never,
    /// Passed to depthFunction or stencilFunction to specify depth or stencil tests will always pass. i.e. Pixels will be drawn in the order they are drawn.
    Always,
    /// Passed to depthFunction or stencilFunction to specify depth or stencil tests will pass if the new depth value is less than the stored value.
    Less,
    /// Passed to depthFunction or stencilFunction to specify depth or stencil tests will pass if the new depth value is equals to the stored value.
    Equal,
    /// Passed to depthFunction or stencilFunction to specify depth or stencil tests will pass if the new depth value is less than or equal to the stored value.
    Lequal,
    /// Passed to depthFunction or stencilFunction to specify depth or stencil tests will pass if the new depth value is greater than the stored value.
    Greater,
    /// Passed to depthFunction or stencilFunction to specify depth or stencil tests will pass if the new depth value is greater than or equal to the stored value.
    Gequal,
    /// Passed to depthFunction or stencilFunction to specify depth or stencil tests will pass if the new depth value is not equal to the stored value.
    Notequal,
}

impl DepthTest {
    /// The GL constant of the variant.
    pub open spec fn code(self) -> u32 {
        match self {
            DepthTest::Never => 0x0200,
            DepthTest::Always => 0x0207,
            DepthTest::Less => 0x0201,
            DepthTest::Equal => 0x0202,
            DepthTest::Lequal => 0x0203,
            DepthTest::Greater => 0x0204,
            DepthTest::Gequal => 0x0206,
            DepthTest::Notequal => 0x0205,
        }
    }

    /// The GL constant passed to the API for this variant.
    pub fn value(self) -> (r: u32)
        ensures
            r == self.code(),
    {
        match self {
            DepthTest::Never => 0x0200,
            DepthTest::Always => 0x0207,
            DepthTest::Less => 0x0201,
            DepthTest::Equal => 0x0202,
            DepthTest::Lequal => 0x0203,
            DepthTest::Greater => 0x0204,
            DepthTest::Gequal => 0x0206,
            DepthTest::Notequal => 0x0205,
        }
    }
}

/// Constants passed to WebGLRenderingContext.stencilFunc().
#[derive(Debug, Clone, Copy, PartialEq, Eq, Structural)]
pub enum StencilTest {
    /// Passed to depthFunction or stencilFunction to specify depth or stencil tests will never pass. i.e. Nothing will be drawn.
    Never,
    /// Passed to depthFunction or stencilFunction to specify depth or stencil tests will always pass. i.e. Pixels will be drawn in the order they are drawn.
    Always,
    /// Passed to depthFunction or stencilFunction to specify depth or stencil tests will pass if the new depth value is less than the stored value.
    Less,
    /// Passed to depthFunction or stencilFunction to specify depth or stencil tests will pass if the new depth value is equals to the stored value.
    Equal,
    /// Passed to depthFunction or stencilFunction to specify depth or stencil tests will pass if the new depth value is less than or equal to the stored value.
    Lequal,
    /// Passed to depthFunction or stencilFunction to specify depth or stencil tests will pass if the new depth value is greater than the stored value.
    Greater,
    /// Passed to depthFunction or stencilFunction to specify depth or stencil tests will pass if the new depth value is greater than or equal to the stored value.
    Gequal,
    /// Passed to depthFunction or stencilFunction to specify depth or stencil tests will pass if the new depth value is not equal to the stored value.
    Notequal,
}

impl StencilTest {
    /// The GL constant of the variant.
    pub open spec fn code(self) -> u32 {
        match self {
            StencilTest::Never => 0x0200,
            StencilTest::Always => 0x0207,
            StencilTest::Less => 0x0201,
            StencilTest::Equal => 0x0202,
            StencilTest::Lequal => 0x0203,
            StencilTest::Greater => 0x0204,
            StencilTest::Gequal => 0x0206,
            StencilTest::Notequal => 0x0205,
        }
    }

    /// The GL constant passed to the API for this variant.
    pub fn value(self) -> (r: u32)
        ensures
            r == self.code(),
    {
        match self {
            StencilTest::Never => 0x0200,
            StencilTest::Always => 0x0207,
            StencilTest::Less => 0x0201,
            StencilTest::Equal => 0x0202,
            StencilTest::Lequal => 0x0203,
            StencilTest::Greater => 0x0204,
            StencilTest::Gequal => 0x0206,
            StencilTest::Notequal => 0x0205,
        }
    }
}

/// Constants passed to WebGLRenderingContext.stencilOp().
#[derive(Debug, Clone, Copy, PartialEq, Eq, Structural)]
pub enum StencilAction {
    Keep,
    Replace,
    Incr,
    Decr,
    Invert,
    IncrWrap,
    DecrWrap,
}

impl StencilAction {
    /// The GL constant of the variant.
    pub open spec fn code(self) -> u32 {
        match self {
            StencilAction::Keep => 0x1E00,
            StencilAction::Replace => 0x1E01,
            StencilAction::Incr => 0x1E02,
            StencilAction::Decr => 0x1E03,
            StencilAction::Invert => 0x150A,
            StencilAction::IncrWrap => 0x8507,
            StencilAction::DecrWrap => 0x8508,
        }
    }

    /// The GL constant passed to the API for this variant.
    pub fn value(self) -> (r: u32)
        ensures
            r == self.code(),
    {
        match self {
            StencilAction::Keep => 0x1E00,
            StencilAction::Replace => 0x1E01,
            StencilAction::Incr => 0x1E02,
            StencilAction::Decr => 0x1E03,
            StencilAction::Invert => 0x150A,
            StencilAction::IncrWrap => 0x8507,
            StencilAction::DecrWrap => 0x8508,
        }
    }
}

#[derive(Debug, Clone, Copy, PartialEq, Eq, Structural)]
pub enum PixelType {
    UnsignedByte,
    UnsignedShort4444,
    UnsignedShort5551,
    UnsignedShort565,
}

impl PixelType {
    /// The GL constant of the variant.
    pub open spec fn code(self) -> u32 {
        match self {
            PixelType::UnsignedByte => 0x1401,
            PixelType::UnsignedShort4444 => 0x8033,
            PixelType::UnsignedShort5551 => 0x8034,
            PixelType::UnsignedShort565 => 0x8363,
        }
    }

    /// The GL constant passed to the API for this variant.
    pub fn value(self) -> (r: u32)
        ensures
            r == self.code(),
    {
        match self {
            PixelType::UnsignedByte => 0x1401,
            PixelType::UnsignedShort4444 => 0x8033,
            PixelType::UnsignedShort5551 => 0x8034,
            PixelType::UnsignedShort565 => 0x8363,
        }
    }
}

#[derive(Debug, Clone, Copy, PartialEq, Eq, Structural)]
pub enum PixelFormat {
    DepthComponent,
    Alpha,
    Rgb,
    Rgba,
    Luminance,
    LuminanceAlpha,
}

impl PixelFormat {
    /// The GL constant of the variant.
    pub open spec fn code(self) -> u32 {
        match self {
            PixelFormat::DepthComponent => 0x1902,
            PixelFormat::Alpha => 0x1906,
            PixelFormat::Rgb => 0x1907,
            PixelFormat::Rgba => 0x1908,
            PixelFormat::Luminance => 0x1909,
            PixelFormat::LuminanceAlpha => 0x190A,
        }
    }

    /// The GL constant passed to the API for this variant.
    pub fn value(self) -> (r: u32)
        ensures
            r == self.code(),
    {
        match self {
            PixelFormat::DepthComponent => 0x1902,
            PixelFormat::Alpha => 0x1906,
            PixelFormat::Rgb => 0x1907,
            PixelFormat::Rgba => 0x1908,
            PixelFormat::Luminance => 0x1909,
            PixelFormat::LuminanceAlpha => 0x190A,
        }
    }
}

/// Constants passed to WebGLRenderingContext.hint()
#[derive(Debug, Clone, Copy, PartialEq, Eq, Structural)]
pub enum Hint {
    /// There is no preference for this behavior.
    DontCare,
    /// The most efficient behavior should be used.
    Fastest,
    /// The most correct or the highest quality option should be used.
    Nicest,
    /// Hint for the quality of filtering when generating mipmap images with WebGLRenderingContext.generateMipmap().
    GenerateMipmapHint,
}

impl Hint {
    /// The GL constant of the variant.
    pub open spec fn code(self) -> u32 {
        match self {
            Hint::DontCare => 0x1100,
            Hint::Fastest => 0x1101,
            Hint::Nicest => 0x1102,
            Hint::GenerateMipmapHint => 0x8192,
        }
    }

    /// The GL constant passed to the API for this variant.
    pub fn value(self) -> (r: u32)
        ensures
            r == self.code(),
    {
        match self {
            Hint::DontCare => 0x1100,
            Hint::Fastest => 0x1101,
            Hint::Nicest => 0x1102,
            Hint::GenerateMipmapHint => 0x8192,
        }
    }
}

/// WebGLRenderingContext.texParameter[fi]() or WebGLRenderingContext.bindTexture() "target" parameter
#[derive(Debug, Clone, Copy, PartialEq, Eq, Structural)]
pub enum TextureKind {
    Texture2d,
    TextureCubeMap,
}

impl TextureKind {
    /// The GL constant of the variant.
    pub open spec fn code(self) -> u32 {
        match self {
            TextureKind::Texture2d => 0x0DE1,
            TextureKind::TextureCubeMap => 0x8513,
        }
    }

    /// The GL constant passed to the API for this variant.
    pub fn value(self) -> (r: u32)
        ensures
            r == self.code(),
    {
        match self {
            TextureKind::Texture2d => 0x0DE1,
            TextureKind::TextureCubeMap => 0x8513,
        }
    }
}

/// WebGLRenderingContext.texParameter[fi]() "pname" parameter
#[derive(Debug, Clone, Copy, PartialEq, Eq, Structural)]
pub enum TextureParameter {
    TextureMagFilter,
    TextureMinFilter,
    TextureWrapS,
    TextureWrapT,
    BorderColor,
    /// WebGL 2.0 only
    TextureWrapR,
}

impl TextureParameter {
    /// The GL constant of the variant.
    pub open spec fn code(self) -> u32 {
        match self {
            TextureParameter::TextureMagFilter => 0x2800,
            TextureParameter::TextureMinFilter => 0x2801,
            TextureParameter::TextureWrapS => 0x2802,
            TextureParameter::TextureWrapT => 0x2803,
            TextureParameter::BorderColor => 0x1004,
            TextureParameter::TextureWrapR => 32882,
        }
    }

    /// The GL constant passed to the API for this variant.
    pub fn value(self) -> (r: u32)
        ensures
            r == self.code(),
    {
        match self {
            TextureParameter::TextureMagFilter => 0x2800,
            TextureParameter::TextureMinFilter => 0x2801,
            TextureParameter::TextureWrapS => 0x2802,
            TextureParameter::TextureWrapT => 0x2803,
            TextureParameter::BorderColor => 0x1004,
            TextureParameter::TextureWrapR => 32882,
        }
    }
}

/// WebGLRenderingContext.texImage2D() "target" parameter
#[derive(Debug, Clone, Copy, PartialEq, Eq, Structural)]
pub enum TextureBindPoint {
    Texture2d,
    TextureCubeMapPositiveX,
    TextureCubeMapNegativeX,
    TextureCubeMapPositiveY,
    TextureCubeMapNegativeY,
    TextureCubeMapPositiveZ,
    TextureCubeMapNegativeZ,
}

impl TextureBindPoint {
    /// The GL constant of the variant.
    pub open spec fn code(self) -> u32 {
        match self {
            TextureBindPoint::Texture2d => 0x0DE1,
            TextureBindPoint::TextureCubeMapPositiveX => 0x8515,
            TextureBindPoint::TextureCubeMapNegativeX => 0x8516,
            TextureBindPoint::TextureCubeMapPositiveY => 0x8517,
            TextureBindPoint::TextureCubeMapNegativeY => 0x8518,
            TextureBindPoint::TextureCubeMapPositiveZ => 0x8519,
            TextureBindPoint::TextureCubeMapNegativeZ => 0x851A,
        }
    }

    /// The GL constant passed to the API for this variant.
    pub fn value(self) -> (r: u32)
        ensures
            r == self.code(),
    {
        match self {
            TextureBindPoint::Texture2d => 0x0DE1,
            TextureBindPoint::TextureCubeMapPositiveX => 0x8515,
            TextureBindPoint::TextureCubeMapNegativeX => 0x8516,
            TextureBindPoint::TextureCubeMapPositiveY => 0x8517,
            TextureBindPoint::TextureCubeMapNegativeY => 0x8518,
            TextureBindPoint::TextureCubeMapPositiveZ => 0x8519,
            TextureBindPoint::TextureCubeMapNegativeZ => 0x851A,
        }
    }
}

/// WebGLRenderingContext.texParameter[fi]() "param" parameter
#[derive(Debug, Clone, Copy, PartialEq, Eq, Structural)]
pub enum TextureMagFilter {
    Nearest,
    Linear,
}

impl TextureMagFilter {
    /// The GL constant of the variant.
    pub open spec fn code(self) -> u32 {
        match self {
            TextureMagFilter::Nearest => 0x2600,
            TextureMagFilter::Linear => 0x2601,
        }
    }

    /// The GL constant passed to the API for this variant.
    pub fn value(self) -> (r: u32)
        ensures
            r == self.code(),
    {
        match self {
            TextureMagFilter::Nearest => 0x2600,
            TextureMagFilter::Linear => 0x2601,
        }
    }
}

/// WebGLRenderingContext.texParameter[fi]() "param" parameter
#[derive(Debug, Clone, Copy, PartialEq, Eq, Structural)]
pub enum TextureMinFilter {
    Nearest,
    Linear,
    NearestMipmapNearest,
    LinearMipmapNearest,
    NearestMipmapLinear,
    LinearMipmapLinear,
}

impl TextureMinFilter {
    /// The GL constant of the variant.
    pub open spec fn code(self) -> u32 {
        match self {
            TextureMinFilter::Nearest => 0x2600,
            TextureMinFilter::Linear => 0x2601,
            TextureMinFilter::NearestMipmapNearest => 0x2700,
            TextureMinFilter::LinearMipmapNearest => 0x2701,
            TextureMinFilter::NearestMipmapLinear => 0x2702,
            TextureMinFilter::LinearMipmapLinear => 0x2703,
        }
    }

    /// The GL constant passed to the API for this variant.
    pub fn value(self) -> (r: u32)
        ensures
            r == self.code(),
    {
        match self {
            TextureMinFilter::Nearest => 0x2600,
            TextureMinFilter::Linear => 0x2601,
            TextureMinFilter::NearestMipmapNearest => 0x2700,
            TextureMinFilter::LinearMipmapNearest => 0x2701,
            TextureMinFilter::NearestMipmapLinear => 0x2702,
            TextureMinFilter::LinearMipmapLinear => 0x2703,
        }
    }
}

/// WebGLRenderingContext.texParameter[fi]() "param" parameter
#[derive(Debug, Clone, Copy, PartialEq, Eq, Structural)]
pub enum TextureWrap {
    Repeat,
    ClampToEdge,
    MirroredRepeat,
}

impl TextureWrap {
    /// The GL constant of the variant.
    pub open spec fn code(self) -> u32 {
        match self {
            TextureWrap::Repeat => 0x2901,
            TextureWrap::ClampToEdge => 0x812F,
            TextureWrap::MirroredRepeat => 0x8370,
        }
    }

    /// The GL constant passed to the API for this variant.
    pub fn value(self) -> (r: u32)
        ensures
            r == self.code(),
    {
        match self {
            TextureWrap::Repeat => 0x2901,
            TextureWrap::ClampToEdge => 0x812F,
            TextureWrap::MirroredRepeat => 0x8370,
        }
    }
}

/// Constants passed to WebGLRenderingContext.hint()
#[derive(Debug, Clone, Copy, PartialEq, Eq, Structural)]
pub enum Buffers {
    Framebuffer,
    Renderbuffer,
    Rgba4,
    Rgb5A1,
    Rgb565,
    DepthComponent16,
    StencilIndex,
    StencilIndex8,
    DepthStencil,
    RenderbufferWidth,
    RenderbufferHeight,
    RenderbufferInternalFormat,
    RenderbufferRedSize,
    RenderbufferGreenSize,
    RenderbufferBlueSize,
    RenderbufferAlphaSize,
    RenderbufferDepthSize,
    RenderbufferStencilSize,
    FramebufferAttachmentObjectType,
    FramebufferAttachmentObjectName,
    FramebufferAttachmentTextureLevel,
    FramebufferAttachmentTextureCubeMapFace,
    ColorAttachment0,
    DepthAttachment,
    StencilAttachment,
    DepthStencilAttachment,
    NoBuffer,
    FramebufferComplete,
    FramebufferIncompleteAttachment,
    FramebufferIncompleteMissingAttachment,
    FramebufferIncompleteDimensions,
    FramebufferUnsupported,
    FramebufferBinding,
    RenderbufferBinding,
    MaxRenderbufferSize,
    InvalidFramebufferOperation,
}

impl Buffers {
    /// The GL constant of the variant.
    pub open spec fn code(self) -> u32 {
        match self {
            Buffers::Framebuffer => 0x8D40,
            Buffers::Renderbuffer => 0x8D41,
            Buffers::Rgba4 => 0x8056,
            Buffers::Rgb5A1 => 0x8057,
            Buffers::Rgb565 => 0x8D62,
            Buffers::DepthComponent16 => 0x81A5,
            Buffers::StencilIndex => 0x1901,
            Buffers::StencilIndex8 => 0x8D48,
            Buffers::DepthStencil => 0x84F9,
            Buffers::RenderbufferWidth => 0x8D42,
            Buffers::RenderbufferHeight => 0x8D43,
            Buffers::RenderbufferInternalFormat => 0x8D44,
            Buffers::RenderbufferRedSize => 0x8D50,
            Buffers::RenderbufferGreenSize => 0x8D51,
            Buffers::RenderbufferBlueSize => 0x8D52,
            Buffers::RenderbufferAlphaSize => 0x8D53,
            Buffers::RenderbufferDepthSize => 0x8D54,
            Buffers::RenderbufferStencilSize => 0x8D55,
            Buffers::FramebufferAttachmentObjectType => 0x8CD0,
            Buffers::FramebufferAttachmentObjectName => 0x8CD1,
            Buffers::FramebufferAttachmentTextureLevel => 0x8CD2,
            Buffers::FramebufferAttachmentTextureCubeMapFace => 0x8CD3,
            Buffers::ColorAttachment0 => 0x8CE0,
            Buffers::DepthAttachment => 0x8D00,
            Buffers::StencilAttachment => 0x8D20,
            Buffers::DepthStencilAttachment => 0x821A,
            Buffers::NoBuffer => 0,
            Buffers::FramebufferComplete => 0x8CD5,
            Buffers::FramebufferIncompleteAttachment => 0x8CD6,
            Buffers::FramebufferIncompleteMissingAttachment => 0x8CD7,
            Buffers::FramebufferIncompleteDimensions => 0x8CD9,
            Buffers::FramebufferUnsupported => 0x8CDD,
            Buffers::FramebufferBinding => 0x8CA6,
            Buffers::RenderbufferBinding => 0x8CA7,
            Buffers::MaxRenderbufferSize => 0x84E8,
            Buffers::InvalidFramebufferOperation => 0x0506,
        }
    }

    /// The GL constant passed to the API for this variant.
    pub fn value(self) -> (r: u32)
        ensures
            r == self.code(),
    {
        match self {
            Buffers::Framebuffer => 0x8D40,
            Buffers::Renderbuffer => 0x8D41,
            Buffers::Rgba4 => 0x8056,
            Buffers::Rgb5A1 => 0x8057,
            Buffers::Rgb565 => 0x8D62,
            Buffers::DepthComponent16 => 0x81A5,
            Buffers::StencilIndex => 0x1901,
            Buffers::StencilIndex8 => 0x8D48,
            Buffers::DepthStencil => 0x84F9,
            Buffers::RenderbufferWidth => 0x8D42,
            Buffers::RenderbufferHeight => 0x8D43,
            Buffers::RenderbufferInternalFormat => 0x8D44,
            Buffers::RenderbufferRedSize => 0x8D50,
            Buffers::RenderbufferGreenSize => 0x8D51,
            Buffers::RenderbufferBlueSize => 0x8D52,
            Buffers::RenderbufferAlphaSize => 0x8D53,
            Buffers::RenderbufferDepthSize => 0x8D54,
            Buffers::RenderbufferStencilSize => 0x8D55,
            Buffers::FramebufferAttachmentObjectType => 0x8CD0,
            Buffers::FramebufferAttachmentObjectName => 0x8CD1,
            Buffers::FramebufferAttachmentTextureLevel => 0x8CD2,
            Buffers::FramebufferAttachmentTextureCubeMapFace => 0x8CD3,
            Buffers::ColorAttachment0 => 0x8CE0,
            Buffers::DepthAttachment => 0x8D00,
            Buffers::StencilAttachment => 0x8D20,
            Buffers::DepthStencilAttachment => 0x821A,
            Buffers::NoBuffer => 0,
            Buffers::FramebufferComplete => 0x8CD5,
            Buffers::FramebufferIncompleteAttachment => 0x8CD6,
            Buffers::FramebufferIncompleteMissingAttachment => 0x8CD7,
            Buffers::FramebufferIncompleteDimensions => 0x8CD9,
            Buffers::FramebufferUnsupported => 0x8CDD,
            Buffers::FramebufferBinding => 0x8CA6,
            Buffers::RenderbufferBinding => 0x8CA7,
            Buffers::MaxRenderbufferSize => 0x84E8,
            Buffers::InvalidFramebufferOperation => 0x0506,
        }
    }
}

/// Constants passed to WebGLRenderingContext.hint()
#[derive(Debug, Clone, Copy, PartialEq, Eq, Structural)]
pub enum PixelStorageMode {
    UnpackFlipYWebgl,
    UnpackPremultiplyAlphaWebgl,
    UnpackColorspaceConversionWebgl,
    /// Packing of pixel data into memory.
    /// Can be 1, 2, 4, 8 defaults to 4
    PackAlignment,
    /// Unpacking of pixel data from memory
    /// Can be 1, 2, 4, 8 defaults to 4
    UnpackAlignment,
}

impl PixelStorageMode {
    /// The GL constant of the variant.
    pub open spec fn code(self) -> u32 {
        match self {
            PixelStorageMode::UnpackFlipYWebgl => 0x9240,
            PixelStorageMode::UnpackPremultiplyAlphaWebgl => 0x9241,
            PixelStorageMode::UnpackColorspaceConversionWebgl => 0x9243,
            PixelStorageMode::PackAlignment => 0x0D05,
            PixelStorageMode::UnpackAlignment => 0x0CF5,
        }
    }

    /// The GL constant passed to the API for this variant.
    pub fn value(self) -> (r: u32)
        ensures
            r == self.code(),
    {
        match self {
            PixelStorageMode::UnpackFlipYWebgl => 0x9240,
            PixelStorageMode::UnpackPremultiplyAlphaWebgl => 0x9241,
            PixelStorageMode::UnpackColorspaceConversionWebgl => 0x9243,
            PixelStorageMode::PackAlignment => 0x0D05,
            PixelStorageMode::UnpackAlignment => 0x0CF5,
        }
    }
}

///
#[derive(Debug, Clone, Copy, PartialEq, Eq, Structural)]
pub enum ShaderPrecision {
    LowFloat,
    MediumFloat,
    HighFloat,
    LowInt,
    MediumInt,
    HighInt,
}

impl ShaderPrecision {
    /// The GL constant of the variant.
    pub open spec fn code(self) -> u32 {
        match self {
            ShaderPrecision::LowFloat => 0x8DF0,
            ShaderPrecision::MediumFloat => 0x8DF1,
            ShaderPrecision::HighFloat => 0x8DF2,
            ShaderPrecision::LowInt => 0x8DF3,
            ShaderPrecision::MediumInt => 0x8DF4,
            ShaderPrecision::HighInt => 0x8DF5,
        }
    }

    /// The GL constant passed to the API for this variant.
    pub fn value(self) -> (r: u32)
        ensures
            r == self.code(),
    {
        match self {
            ShaderPrecision::LowFloat => 0x8DF0,
            ShaderPrecision::MediumFloat => 0x8DF1,
            ShaderPrecision::HighFloat => 0x8DF2,
            ShaderPrecision::LowInt => 0x8DF3,
            ShaderPrecision::MediumInt => 0x8DF4,
            ShaderPrecision::HighInt => 0x8DF5,
        }
    }
}

/// Constants passed to WebGLRenderingContext.hint()
#[derive(Debug, Clone, Copy, PartialEq, Eq, Structural)]
pub enum UniformType {
    FloatVec2,
    FloatVec3,
    FloatVec4,
    IntVec2,
    IntVec3,
    IntVec4,
    Bool,
    BoolVec2,
    BoolVec3,
    BoolVec4,
    FloatMat2,
    FloatMat3,
    FloatMat4,
    Sampler2d,
    SamplerCube,
}

impl UniformType {
    /// The GL constant of the variant.
    pub open spec fn code(self) -> u32 {
        match self {
            UniformType::FloatVec2 => 0x8B50,
            UniformType::FloatVec3 => 0x8B51,
            UniformType::FloatVec4 => 0x8B52,
            UniformType::IntVec2 => 0x8B53,
            UniformType::IntVec3 => 0x8B54,
            UniformType::IntVec4 => 0x8B55,
            UniformType::Bool => 0x8B56,
            UniformType::BoolVec2 => 0x8B57,
            UniformType::BoolVec3 => 0x8B58,
            UniformType::BoolVec4 => 0x8B59,
            UniformType::FloatMat2 => 0x8B5A,
            UniformType::FloatMat3 => 0x8B5B,
            UniformType::FloatMat4 => 0x8B5C,
            UniformType::Sampler2d => 0x8B5E,
            UniformType::SamplerCube => 0x8B60,
        }
    }

    /// The GL constant passed to the API for this variant.
    pub fn value(self) -> (r: u32)
        ensures
            r == self.code(),
    {
        match self {
            UniformType::FloatVec2 => 0x8B50,
            UniformType::FloatVec3 => 0x8B51,
            UniformType::FloatVec4 => 0x8B52,
            UniformType::IntVec2 => 0x8B53,
            UniformType::IntVec3 => 0x8B54,
            UniformType::IntVec4 => 0x8B55,
            UniformType::Bool => 0x8B56,
            UniformType::BoolVec2 => 0x8B57,
            UniformType::BoolVec3 => 0x8B58,
            UniformType::BoolVec4 => 0x8B59,
            UniformType::FloatMat2 => 0x8B5A,
            UniformType::FloatMat3 => 0x8B5B,
            UniformType::FloatMat4 => 0x8B5C,
            UniformType::Sampler2d => 0x8B5E,
            UniformType::SamplerCube => 0x8B60,
        }
    }
}

///
#[derive(Debug, Clone, Copy, PartialEq, Eq, Structural)]
pub enum TextureCompression {
    /// A DXT1-compressed image in an RGB image format.
    RgbDxt1,
    /// A DXT1-compressed image in an RGB image format with a simple on/off alpha value.
    RgbaDxt1,
    ///	A DXT3-compressed image in an RGBA image format.
    /// Compared to a 32-bit RGBA texture, it offers 4:1 compression.
    RgbaDxt3,
    /// A DXT5-compressed image in an RGBA image format.
    /// It also provides a 4:1 compression,
    /// but differs to the DXT3 compression in how the alpha compression is done.
    RgbaDxt5,
}

impl TextureCompression {
    /// The GL constant of the variant.
    pub open spec fn code(self) -> u32 {
        match self {
            TextureCompression::RgbDxt1 => 0x83F0,
            TextureCompression::RgbaDxt1 => 0x83F1,
            TextureCompression::RgbaDxt3 => 0x83F2,
            TextureCompression::RgbaDxt5 => 0x83F3,
        }
    }

    /// The GL constant passed to the API for this variant.
    pub fn value(self) -> (r: u32)
        ensures
            r == self.code(),
    {
        match self {
            TextureCompression::RgbDxt1 => 0x83F0,
            TextureCompression::RgbaDxt1 => 0x83F1,
            TextureCompression::RgbaDxt3 => 0x83F2,
            TextureCompression::RgbaDxt5 => 0x83F3,
        }
    }
}

} // verus!
