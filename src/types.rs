//! Enumerations shared with the native library, and their native numbering.
use vstd::prelude::*;

verus! {

/// Autoselect adapter.
pub const PCI_ID_NONE: u16 = 0x0000;

/// Software rasterizer.
pub const PCI_ID_SOFTWARE_RASTERIZER: u16 = 0x0001;

/// AMD adapter.
pub const PCI_ID_AMD: u16 = 0x1002;

/// Intel adapter.
pub const PCI_ID_INTEL: u16 = 0x8086;

/// nVidia adapter.
pub const PCI_ID_NVIDIA: u16 = 0x10de;

/// Renderer backend type.
#[derive(PartialEq, Eq, Structural, Debug, Copy, Clone)]
pub enum RendererType {
    /// No rendering.
    Noop,
    /// Direct3D 9.0.
    Direct3D9,
    /// Direct3D 11.0.
    Direct3D11,
    /// Direct3D 12.0.
    Direct3D12,
    /// GNM.
    GNM,
    /// Metal.
    Metal,
    /// OpenGLES.
    OpenGLES,
    /// OpenGL.
    OpenGL,
    /// Vulkan.
    Vulkan,
    /// Use the most platform appropriate renderer.
    Default,
}

impl RendererType {
    /// The native library's number for this renderer; `Default` is the native count.
    pub open spec fn code(self) -> i32 {
        match self {
            RendererType::Noop => 0,
            RendererType::Direct3D9 => 1,
            RendererType::Direct3D11 => 2,
            RendererType::Direct3D12 => 3,
            RendererType::GNM => 4,
            RendererType::Metal => 5,
            RendererType::OpenGLES => 6,
            RendererType::OpenGL => 7,
            RendererType::Vulkan => 8,
            RendererType::Default => 9,
        }
    }

    /// The native library's number for this renderer.
    pub fn native_code(self) -> (r: i32)
        ensures
            r == self.code(),
    {
        match self {
            RendererType::Noop => 0,
            RendererType::Direct3D9 => 1,
            RendererType::Direct3D11 => 2,
            RendererType::Direct3D12 => 3,
            RendererType::GNM => 4,
            RendererType::Metal => 5,
            RendererType::OpenGLES => 6,
            RendererType::OpenGL => 7,
            RendererType::Vulkan => 8,
            RendererType::Default => 9,
        }
    }

    /// The renderer that the native library reports by `code`, if `code` names one.
    pub fn from_native(code: i32) -> (r: Option<RendererType>)
        ensures
            r.is_some() <==> 0 <= code <= 9,
            r matches Some(t) ==> t.code() == code,
    {
        match code {
            0 => Some(RendererType::Noop),
            1 => Some(RendererType::Direct3D9),
            2 => Some(RendererType::Direct3D11),
            3 => Some(RendererType::Direct3D12),
            4 => Some(RendererType::GNM),
            5 => Some(RendererType::Metal),
            6 => Some(RendererType::OpenGLES),
            7 => Some(RendererType::OpenGL),
            8 => Some(RendererType::Vulkan),
            9 => Some(RendererType::Default),
            _ => None,
        }
    }
}

/// Outcome of one pump of the render thread.
#[derive(PartialEq, Eq, Structural, Debug, Copy, Clone)]
pub enum RenderFrame {
    /// No context is available. This usually means the main thread has exited.
    NoContext,
    /// The render was performed.
    Render,
    /// The render timed out.
    Timeout,
    /// The renderer is exiting.
    Exiting,
}

impl RenderFrame {
    pub open spec fn code(self) -> i32 {
        match self {
            RenderFrame::NoContext => 0,
            RenderFrame::Render => 1,
            RenderFrame::Timeout => 2,
            RenderFrame::Exiting => 3,
        }
    }

    /// Reads the status that the native frame pump returned, if `code` names one.
    pub fn from_native(code: i32) -> (r: Option<RenderFrame>)
        ensures
            r.is_some() <==> 0 <= code <= 3,
            r matches Some(f) ==> f.code() == code,
    {
        match code {
            0 => Some(RenderFrame::NoContext),
            1 => Some(RenderFrame::Render),
            2 => Some(RenderFrame::Timeout),
            3 => Some(RenderFrame::Exiting),
            _ => None,
        }
    }
}

/// Vertex attribute.
#[derive(PartialEq, Eq, Structural, Debug, Copy, Clone)]
pub enum Attrib {
    /// Position.
    Position,
    /// Normal.
    Normal,
    /// Tangent.
    Tangent,
    /// Bitangent.
    Bitangent,
    /// Color 0.
    Color0,
    /// Color 1.
    Color1,
    /// Index list.
    Indices,
    /// Bone weight.
    Weight,
    /// Texture coordinate 0.
    TexCoord0,
    /// Texture coordinate 1.
    TexCoord1,
    /// Texture coordinate 2.
    TexCoord2,
    /// Texture coordinate 3.
    TexCoord3,
    /// Texture coordinate 4.
    TexCoord4,
    /// Texture coordinate 5.
    TexCoord5,
    /// Texture coordinate 6.
    TexCoord6,
    /// Texture coordinate 7.
    TexCoord7,
}

impl Attrib {
    /// The native library's number for this attribute (its colors 2 and 3 are not exposed here).
    pub open spec fn code(self) -> i32 {
        match self {
            Attrib::Position => 0,
            Attrib::Normal => 1,
            Attrib::Tangent => 2,
            Attrib::Bitangent => 3,
            Attrib::Color0 => 4,
            Attrib::Color1 => 5,
            Attrib::Indices => 8,
            Attrib::Weight => 9,
            Attrib::TexCoord0 => 10,
            Attrib::TexCoord1 => 11,
            Attrib::TexCoord2 => 12,
            Attrib::TexCoord3 => 13,
            Attrib::TexCoord4 => 14,
            Attrib::TexCoord5 => 15,
            Attrib::TexCoord6 => 16,
            Attrib::TexCoord7 => 17,
        }
    }

    /// The native library's number for this attribute.
    pub fn native_code(self) -> (r: i32)
        ensures
            r == self.code(),
    {
        match self {
            Attrib::Position => 0,
            Attrib::Normal => 1,
            Attrib::Tangent => 2,
            Attrib::Bitangent => 3,
            Attrib::Color0 => 4,
            Attrib::Color1 => 5,
            Attrib::Indices => 8,
            Attrib::Weight => 9,
            Attrib::TexCoord0 => 10,
            Attrib::TexCoord1 => 11,
            Attrib::TexCoord2 => 12,
            Attrib::TexCoord3 => 13,
            Attrib::TexCoord4 => 14,
            Attrib::TexCoord5 => 15,
            Attrib::TexCoord6 => 16,
            Attrib::TexCoord7 => 17,
        }
    }
}

/// Vertex attribute type.
#[derive(PartialEq, Eq, Structural, Debug, Copy, Clone)]
pub enum AttribType {
    /// Unsigned 8-bit integer; if the parameter is `true`, the value is normalized.
    Uint8(bool),
    /// Signed 8-bit integer; if the parameter is `true`, the value is normalized.
    Int8(bool),
    /// Unsigned 10-bit integer; if the parameter is `true`, the value is normalized.
    Uint10(bool),
    /// Signed 10-bit integer; if the parameter is `true`, the value is normalized.
    Int10(bool),
    /// Unsigned 16-bit integer; if the parameter is `true`, the value is normalized.
    Uint16(bool),
    /// Signed 16-bit integer; if the parameter is `true`, the value is normalized.
    Int16(bool),
    /// 16-bit float.
    Half,
    /// 32-bit float.
    Float,
}

/// Texture format type. Compressed formats come first, then `Unknown`, the uncompressed
/// color formats, `UnknownDepth` and the depth formats.
#[derive(PartialEq, Eq, Structural, Debug, Copy, Clone)]
pub enum TextureFormat {
    BC1,
    BC2,
    BC3,
    BC4,
    BC5,
    BC6H,
    BC7,
    ETC1,
    ETC2,
    ETC2A,
    ETC2A1,
    PTC12,
    PTC14,
    PTC12A,
    PTC14A,
    PTC22,
    PTC24,
    ATC,
    ATCE,
    ATCI,
    ASTC4x4,
    ASTC5x5,
    ASTC6x6,
    ASTC8x5,
    ASTC8x6,
    ASTC10x5,
    Unknown,
    R1,
    A8,
    R8,
    R8I,
    R8U,
    R8S,
    R16,
    R16I,
    R16U,
    R16F,
    R16S,
    R32I,
    R32U,
    R32F,
    RG8,
    RG8I,
    RG8U,
    RG8S,
    RG16,
    RG16I,
    RG16U,
    RG16F,
    RG16S,
    RG32I,
    RG32U,
    RG32F,
    RGB8,
    RGB8I,
    RGB8U,
    RGB8S,
    RGB9E5F,
    BGRA8,
    RGBA8,
    RGBA8I,
    RGBA8U,
    RGBA8S,
    RGBA16,
    RGBA16I,
    RGBA16U,
    RGBA16F,
    RGBA16S,
    RGBA32I,
    RGBA32U,
    RGBA32F,
    R5G6B5,
    RGBA4,
    RGB5A1,
    RGB10A2,
    RG11B10F,
    UnknownDepth,
    D16,
    D24,
    D24S8,
    D32,
    D16F,
    D24F,
    D32F,
    D0S8,
}

impl TextureFormat {
    /// The native library's number for this format: its position in the list above.
    pub open spec fn code(self) -> i32 {
        match self {
            TextureFormat::BC1 => 0,
            TextureFormat::BC2 => 1,
            TextureFormat::BC3 => 2,
            TextureFormat::BC4 => 3,
            TextureFormat::BC5 => 4,
            TextureFormat::BC6H => 5,
            TextureFormat::BC7 => 6,
            TextureFormat::ETC1 => 7,
            TextureFormat::ETC2 => 8,
            TextureFormat::ETC2A => 9,
            TextureFormat::ETC2A1 => 10,
            TextureFormat::PTC12 => 11,
            TextureFormat::PTC14 => 12,
            TextureFormat::PTC12A => 13,
            TextureFormat::PTC14A => 14,
            TextureFormat::PTC22 => 15,
            TextureFormat::PTC24 => 16,
            TextureFormat::ATC => 17,
            TextureFormat::ATCE => 18,
            TextureFormat::ATCI => 19,
            TextureFormat::ASTC4x4 => 20,
            TextureFormat::ASTC5x5 => 21,
            TextureFormat::ASTC6x6 => 22,
            TextureFormat::ASTC8x5 => 23,
            TextureFormat::ASTC8x6 => 24,
            TextureFormat::ASTC10x5 => 25,
            TextureFormat::Unknown => 26,
            TextureFormat::R1 => 27,
            TextureFormat::A8 => 28,
            TextureFormat::R8 => 29,
            TextureFormat::R8I => 30,
            TextureFormat::R8U => 31,
            TextureFormat::R8S => 32,
            TextureFormat::R16 => 33,
            TextureFormat::R16I => 34,
            TextureFormat::R16U => 35,
            TextureFormat::R16F => 36,
            TextureFormat::R16S => 37,
            TextureFormat::R32I => 38,
            TextureFormat::R32U => 39,
            TextureFormat::R32F => 40,
            TextureFormat::RG8 => 41,
            TextureFormat::RG8I => 42,
            TextureFormat::RG8U => 43,
            TextureFormat::RG8S => 44,
            TextureFormat::RG16 => 45,
            TextureFormat::RG16I => 46,
            TextureFormat::RG16U => 47,
            TextureFormat::RG16F => 48,
            TextureFormat::RG16S => 49,
            TextureFormat::RG32I => 50,
            TextureFormat::RG32U => 51,
            TextureFormat::RG32F => 52,
            TextureFormat::RGB8 => 53,
            TextureFormat::RGB8I => 54,
            TextureFormat::RGB8U => 55,
            TextureFormat::RGB8S => 56,
            TextureFormat::RGB9E5F => 57,
            TextureFormat::BGRA8 => 58,
            TextureFormat::RGBA8 => 59,
            TextureFormat::RGBA8I => 60,
            TextureFormat::RGBA8U => 61,
            TextureFormat::RGBA8S => 62,
            TextureFormat::RGBA16 => 63,
            TextureFormat::RGBA16I => 64,
            TextureFormat::RGBA16U => 65,
            TextureFormat::RGBA16F => 66,
            TextureFormat::RGBA16S => 67,
            TextureFormat::RGBA32I => 68,
            TextureFormat::RGBA32U => 69,
            TextureFormat::RGBA32F => 70,
            TextureFormat::R5G6B5 => 71,
            TextureFormat::RGBA4 => 72,
            TextureFormat::RGB5A1 => 73,
            TextureFormat::RGB10A2 => 74,
            TextureFormat::RG11B10F => 75,
            TextureFormat::UnknownDepth => 76,
            TextureFormat::D16 => 77,
            TextureFormat::D24 => 78,
            TextureFormat::D24S8 => 79,
            TextureFormat::D32 => 80,
            TextureFormat::D16F => 81,
            TextureFormat::D24F => 82,
            TextureFormat::D32F => 83,
            TextureFormat::D0S8 => 84,
        }
    }

    /// The native library's number for this format.
    pub fn native_code(self) -> (r: i32)
        ensures
            r == self.code(),
    {
        match self {
            TextureFormat::BC1 => 0,
            TextureFormat::BC2 => 1,
            TextureFormat::BC3 => 2,
            TextureFormat::BC4 => 3,
            TextureFormat::BC5 => 4,
            TextureFormat::BC6H => 5,
            TextureFormat::BC7 => 6,
            TextureFormat::ETC1 => 7,
            TextureFormat::ETC2 => 8,
            TextureFormat::ETC2A => 9,
            TextureFormat::ETC2A1 => 10,
            TextureFormat::PTC12 => 11,
            TextureFormat::PTC14 => 12,
            TextureFormat::PTC12A => 13,
            TextureFormat::PTC14A => 14,
            TextureFormat::PTC22 => 15,
            TextureFormat::PTC24 => 16,
            TextureFormat::ATC => 17,
            TextureFormat::ATCE => 18,
            TextureFormat::ATCI => 19,
            TextureFormat::ASTC4x4 => 20,
            TextureFormat::ASTC5x5 => 21,
            TextureFormat::ASTC6x6 => 22,
            TextureFormat::ASTC8x5 => 23,
            TextureFormat::ASTC8x6 => 24,
            TextureFormat::ASTC10x5 => 25,
            TextureFormat::Unknown => 26,
            TextureFormat::R1 => 27,
            TextureFormat::A8 => 28,
            TextureFormat::R8 => 29,
            TextureFormat::R8I => 30,
            TextureFormat::R8U => 31,
            TextureFormat::R8S => 32,
            TextureFormat::R16 => 33,
            TextureFormat::R16I => 34,
            TextureFormat::R16U => 35,
            TextureFormat::R16F => 36,
            TextureFormat::R16S => 37,
            TextureFormat::R32I => 38,
            TextureFormat::R32U => 39,
            TextureFormat::R32F => 40,
            TextureFormat::RG8 => 41,
            TextureFormat::RG8I => 42,
            TextureFormat::RG8U => 43,
            TextureFormat::RG8S => 44,
            TextureFormat::RG16 => 45,
            TextureFormat::RG16I => 46,
            TextureFormat::RG16U => 47,
            TextureFormat::RG16F => 48,
            TextureFormat::RG16S => 49,
            TextureFormat::RG32I => 50,
            TextureFormat::RG32U => 51,
            TextureFormat::RG32F => 52,
            TextureFormat::RGB8 => 53,
            TextureFormat::RGB8I => 54,
            TextureFormat::RGB8U => 55,
            TextureFormat::RGB8S => 56,
            TextureFormat::RGB9E5F => 57,
            TextureFormat::BGRA8 => 58,
            TextureFormat::RGBA8 => 59,
            TextureFormat::RGBA8I => 60,
            TextureFormat::RGBA8U => 61,
            TextureFormat::RGBA8S => 62,
            TextureFormat::RGBA16 => 63,
            TextureFormat::RGBA16I => 64,
            TextureFormat::RGBA16U => 65,
            TextureFormat::RGBA16F => 66,
            TextureFormat::RGBA16S => 67,
            TextureFormat::RGBA32I => 68,
            TextureFormat::RGBA32U => 69,
            TextureFormat::RGBA32F => 70,
            TextureFormat::R5G6B5 => 71,
            TextureFormat::RGBA4 => 72,
            TextureFormat::RGB5A1 => 73,
            TextureFormat::RGB10A2 => 74,
            TextureFormat::RG11B10F => 75,
            TextureFormat::UnknownDepth => 76,
            TextureFormat::D16 => 77,
            TextureFormat::D24 => 78,
            TextureFormat::D24S8 => 79,
            TextureFormat::D32 => 80,
            TextureFormat::D16F => 81,
            TextureFormat::D24F => 82,
            TextureFormat::D32F => 83,
            TextureFormat::D0S8 => 84,
        }
    }
}

/// Errors reported while configuring or starting the native library.
#[derive(PartialEq, Eq, Structural, Debug, Copy, Clone)]
pub enum BgfxError {
    /// An invalid display was provided in the platform data.
    InvalidDisplay,
    /// An invalid window was provided in the platform data.
    InvalidWindow,
    /// Initialization failed.
    InitFailed,
}

/// Identifies a view, the native grouping of draw submissions.
pub type ViewId = u16;

} // verus!
