//! Option sets passed to the native library as packed bit masks.
use vstd::prelude::*;

verus! {

/// No flags.
pub const BUFFER_NONE: u16 = 0x0000;

/// Buffer is read by compute shaders.
pub const BUFFER_COMPUTE_READ: u16 = 0x0100;

/// Buffer is written by compute shaders.
pub const BUFFER_COMPUTE_WRITE: u16 = 0x0200;

/// Buffer holds draw-indirect commands.
pub const BUFFER_DRAW_INDIRECT: u16 = 0x0400;

/// Buffer may be resized.
pub const BUFFER_ALLOW_RESIZE: u16 = 0x0800;

/// Index buffer holds 32-bit indices.
pub const BUFFER_INDEX32: u16 = 0x1000;

/// Buffer creation flags.
#[derive(PartialEq, Eq, Structural, Debug, Copy, Clone)]
pub struct BufferFlags {
    bits: u16,
}

impl BufferFlags {
    /// The packed bit mask.
    pub closed spec fn view(self) -> u16 {
        self.bits
    }

    /// The packed bit mask handed to the native library.
    pub fn bits(self) -> (r: u16)
        ensures
            r == self@,
    {
        self.bits
    }

    /// The set whose bit mask is `bits` (see the constants of this module).
    pub fn from_bits(bits: u16) -> (r: BufferFlags)
        ensures
            r@ == bits,
    {
        BufferFlags { bits }
    }

    /// The empty set.
    pub fn empty() -> (r: BufferFlags)
        ensures
            r@ == 0,
    {
        BufferFlags { bits: 0 }
    }

    /// The flags of either set.
    pub fn union(self, other: BufferFlags) -> (r: BufferFlags)
        ensures
            r@ == self@ | other@,
    {
        BufferFlags { bits: self.bits | other.bits }
    }

    /// Whether every flag of `other` is in this set.
    pub fn contains(self, other: BufferFlags) -> (r: bool)
        ensures
            r == (self@ & other@ == other@),
    {
        self.bits & other.bits == other.bits
    }
}

/// Clear nothing.
pub const CLEAR_NONE: u16 = 0x0000;

/// Clear the color buffer.
pub const CLEAR_COLOR: u16 = 0x0001;

/// Clear the depth buffer.
pub const CLEAR_DEPTH: u16 = 0x0002;

/// Clear the stencil buffer.
pub const CLEAR_STENCIL: u16 = 0x0004;

/// View clear flags.
#[derive(PartialEq, Eq, Structural, Debug, Copy, Clone)]
pub struct ClearFlags {
    bits: u16,
}

impl ClearFlags {
    /// The packed bit mask.
    pub closed spec fn view(self) -> u16 {
        self.bits
    }

    /// The packed bit mask handed to the native library.
    pub fn bits(self) -> (r: u16)
        ensures
            r == self@,
    {
        self.bits
    }

    /// The set whose bit mask is `bits` (see the constants of this module).
    pub fn from_bits(bits: u16) -> (r: ClearFlags)
        ensures
            r@ == bits,
    {
        ClearFlags { bits }
    }

    /// The empty set.
    pub fn empty() -> (r: ClearFlags)
        ensures
            r@ == 0,
    {
        ClearFlags { bits: 0 }
    }

    /// The flags of either set.
    pub fn union(self, other: ClearFlags) -> (r: ClearFlags)
        ensures
            r@ == self@ | other@,
    {
        ClearFlags { bits: self.bits | other.bits }
    }

    /// Whether every flag of `other` is in this set.
    pub fn contains(self, other: ClearFlags) -> (r: bool)
        ensures
            r == (self@ & other@ == other@),
    {
        self.bits & other.bits == other.bits
    }
}

/// No debugging.
pub const DEBUG_NONE: u32 = 0x00000000;

/// Wireframe rendering.
pub const DEBUG_WIREFRAME: u32 = 0x00000001;

/// Skip draw calls: an infinitely fast hardware test.
pub const DEBUG_IFH: u32 = 0x00000002;

/// Show statistics.
pub const DEBUG_STATS: u32 = 0x00000004;

/// Show the debug text overlay.
pub const DEBUG_TEXT: u32 = 0x00000008;

/// Debug flags.
#[derive(PartialEq, Eq, Structural, Debug, Copy, Clone)]
pub struct DebugFlags {
    bits: u32,
}

impl DebugFlags {
    /// The packed bit mask.
    pub closed spec fn view(self) -> u32 {
        self.bits
    }

    /// The packed bit mask handed to the native library.
    pub fn bits(self) -> (r: u32)
        ensures
            r == self@,
    {
        self.bits
    }

    /// The set whose bit mask is `bits` (see the constants of this module).
    pub fn from_bits(bits: u32) -> (r: DebugFlags)
        ensures
            r@ == bits,
    {
        DebugFlags { bits }
    }

    /// The empty set.
    pub fn empty() -> (r: DebugFlags)
        ensures
            r@ == 0,
    {
        DebugFlags { bits: 0 }
    }

    /// The flags of either set.
    pub fn union(self, other: DebugFlags) -> (r: DebugFlags)
        ensures
            r@ == self@ | other@,
    {
        DebugFlags { bits: self.bits | other.bits }
    }

    /// Whether every flag of `other` is in this set.
    pub fn contains(self, other: DebugFlags) -> (r: bool)
        ensures
            r == (self@ & other@ == other@),
    {
        self.bits & other.bits == other.bits
    }
}

/// No flags.
pub const RESET_NONE: u32 = 0x00000000;

/// Fullscreen mode.
pub const RESET_FULLSCREEN: u32 = 0x00000001;

/// 2x multisampling.
pub const RESET_MSAA_X2: u32 = 0x00000010;

/// 4x multisampling.
pub const RESET_MSAA_X4: u32 = 0x00000020;

/// 8x multisampling.
pub const RESET_MSAA_X8: u32 = 0x00000030;

/// 16x multisampling.
pub const RESET_MSAA_X16: u32 = 0x00000040;

/// Vertical sync.
pub const RESET_VSYNC: u32 = 0x00000080;

/// Maximal anisotropic filtering.
pub const RESET_MAXANISOTROPY: u32 = 0x00000100;

/// Begin screen capture.
pub const RESET_CAPTURE: u32 = 0x00000200;

/// Device reset flags.
#[derive(PartialEq, Eq, Structural, Debug, Copy, Clone)]
pub struct ResetFlags {
    bits: u32,
}

impl ResetFlags {
    /// The packed bit mask.
    pub closed spec fn view(self) -> u32 {
        self.bits
    }

    /// The packed bit mask handed to the native library.
    pub fn bits(self) -> (r: u32)
        ensures
            r == self@,
    {
        self.bits
    }

    /// The set whose bit mask is `bits` (see the constants of this module).
    pub fn from_bits(bits: u32) -> (r: ResetFlags)
        ensures
            r@ == bits,
    {
        ResetFlags { bits }
    }

    /// The empty set.
    pub fn empty() -> (r: ResetFlags)
        ensures
            r@ == 0,
    {
        ResetFlags { bits: 0 }
    }

    /// The flags of either set.
    pub fn union(self, other: ResetFlags) -> (r: ResetFlags)
        ensures
            r@ == self@ | other@,
    {
        ResetFlags { bits: self.bits | other.bits }
    }

    /// Whether every flag of `other` is in this set.
    pub fn contains(self, other: ResetFlags) -> (r: bool)
        ensures
            r == (self@ & other@ == other@),
    {
        self.bits & other.bits == other.bits
    }
}

/// No state.
pub const STATE_NONE: u64 = 0x0000000000000000;

/// Write the red channel.
pub const STATE_WRITE_R: u64 = 0x0000000000000001;

/// Write the green channel.
pub const STATE_WRITE_G: u64 = 0x0000000000000002;

/// Write the blue channel.
pub const STATE_WRITE_B: u64 = 0x0000000000000004;

/// Write the alpha channel.
pub const STATE_WRITE_A: u64 = 0x0000000000000008;

/// Write the color channels.
pub const STATE_WRITE_RGB: u64 = 0x0000000000000007;

/// Write depth.
pub const STATE_WRITE_Z: u64 = 0x0000004000000000;

/// Depth test: less.
pub const STATE_DEPTH_TEST_LESS: u64 = 0x0000000000000010;

/// Depth test: less or equal.
pub const STATE_DEPTH_TEST_LEQUAL: u64 = 0x0000000000000020;

/// Depth test: always pass.
pub const STATE_DEPTH_TEST_ALWAYS: u64 = 0x0000000000000080;

/// Cull clockwise triangles.
pub const STATE_CULL_CW: u64 = 0x0000001000000000;

/// Cull counter-clockwise triangles.
pub const STATE_CULL_CCW: u64 = 0x0000002000000000;

/// Primitive type: triangle strip.
pub const STATE_PT_TRISTRIP: u64 = 0x0001000000000000;

/// Primitive type: lines.
pub const STATE_PT_LINES: u64 = 0x0002000000000000;

/// Primitive type: points.
pub const STATE_PT_POINTS: u64 = 0x0004000000000000;

/// Multisample antialiasing.
pub const STATE_MSAA: u64 = 0x0100000000000000;

/// Color, alpha and depth writes, depth test less, clockwise culling, MSAA.
pub const STATE_DEFAULT: u64 = 0x010000500000001f;

/// Render state flags.
#[derive(PartialEq, Eq, Structural, Debug, Copy, Clone)]
pub struct StateFlags {
    bits: u64,
}

impl StateFlags {
    /// The packed bit mask.
    pub closed spec fn view(self) -> u64 {
        self.bits
    }

    /// The packed bit mask handed to the native library.
    pub fn bits(self) -> (r: u64)
        ensures
            r == self@,
    {
        self.bits
    }

    /// The set whose bit mask is `bits` (see the constants of this module).
    pub fn from_bits(bits: u64) -> (r: StateFlags)
        ensures
            r@ == bits,
    {
        StateFlags { bits }
    }

    /// The empty set.
    pub fn empty() -> (r: StateFlags)
        ensures
            r@ == 0,
    {
        StateFlags { bits: 0 }
    }

    /// The flags of either set.
    pub fn union(self, other: StateFlags) -> (r: StateFlags)
        ensures
            r@ == self@ | other@,
    {
        StateFlags { bits: self.bits | other.bits }
    }

    /// Whether every flag of `other` is in this set.
    pub fn contains(self, other: StateFlags) -> (r: bool)
        ensures
            r == (self@ & other@ == other@),
    {
        self.bits & other.bits == other.bits
    }
}

} // verus!
