//! A verified session model over the bgfx rendering library.
//!
//! Each operation of a session is recorded, in order, as a [`NativeCall`]; the caller hands the
//! recorded calls to the native library. The session tracks which resource handles are live, so
//! that every native resource is released exactly once.
//!
//! Platform data is checked before it is applied, initialization yields the session, resources
//! are created from memory blocks and released by consuming them, and vertex layouts are built by
//! a staged builder whose attribute encoding follows a fixed table.
pub mod flags;
pub mod platform;
pub mod session;
pub mod types;
pub mod vertex;

pub use flags::{BufferFlags, ClearFlags, DebugFlags, ResetFlags, StateFlags};
pub use platform::{Init, InitLimits, PlatformData, Resolution};
pub use session::{init, Bgfx, IndexBuffer, Memory, NativeCall, Program, Shader, VertexBuffer};
pub use types::{
    Attrib, AttribType, BgfxError, RenderFrame, RendererType, TextureFormat, ViewId, PCI_ID_AMD,
    PCI_ID_INTEL, PCI_ID_NONE, PCI_ID_NVIDIA, PCI_ID_SOFTWARE_RASTERIZER,
};
pub use vertex::{AttribBase, AttribEncoding, DeclEntry, VertexDecl, VertexDeclBuilder};
