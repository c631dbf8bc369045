//! Vertex layout declarations: the attribute type table and the staged builder.
use vstd::prelude::*;

use crate::types::{Attrib, AttribType, RendererType};

verus! {

/// The native base types of a vertex attribute.
#[derive(PartialEq, Eq, Structural, Debug, Copy, Clone)]
pub enum AttribBase {
    /// 8-bit integer.
    Uint8,
    /// 10-bit integer.
    Uint10,
    /// 16-bit integer.
    Int16,
    /// 16-bit float.
    Half,
    /// 32-bit float.
    Float,
}

impl AttribBase {
    pub open spec fn code(self) -> i32 {
        match self {
            AttribBase::Uint8 => 0,
            AttribBase::Uint10 => 1,
            AttribBase::Int16 => 2,
            AttribBase::Half => 3,
            AttribBase::Float => 4,
        }
    }

    /// The native library's number for this base type.
    pub fn native_code(self) -> (r: i32)
        ensures
            r == self.code(),
    {
        match self {
            AttribBase::Uint8 => 0,
            AttribBase::Uint10 => 1,
            AttribBase::Int16 => 2,
            AttribBase::Half => 3,
            AttribBase::Float => 4,
        }
    }
}

/// How an attribute type is handed to the native layout: its base type, whether the values
/// are normalized, and whether they are read as signed integers.
#[derive(PartialEq, Eq, Structural, Debug, Copy, Clone)]
pub struct AttribEncoding {
    pub base: AttribBase,
    pub normalized: bool,
    pub as_int: bool,
}

/// The encoding table of attribute types.
pub open spec fn encoding(kind: AttribType) -> AttribEncoding {
    match kind {
        AttribType::Uint8(n) => AttribEncoding { base: AttribBase::Uint8, normalized: n, as_int: false },
        AttribType::Int8(n) => AttribEncoding { base: AttribBase::Uint8, normalized: n, as_int: true },
        AttribType::Uint10(n) => AttribEncoding { base: AttribBase::Uint10, normalized: n, as_int: false },
        AttribType::Int10(n) => AttribEncoding { base: AttribBase::Uint10, normalized: n, as_int: true },
        AttribType::Uint16(n) => AttribEncoding { base: AttribBase::Int16, normalized: n, as_int: false },
        AttribType::Int16(n) => AttribEncoding { base: AttribBase::Int16, normalized: n, as_int: true },
        AttribType::Half => AttribEncoding { base: AttribBase::Half, normalized: false, as_int: false },
        AttribType::Float => AttribEncoding { base: AttribBase::Float, normalized: false, as_int: false },
    }
}

impl AttribType {
    /// Encodes this type for the native layout.
    pub fn encode(self) -> (e: AttribEncoding)
        ensures
            e == encoding(self),
    {
        let mut normalized = false;
        let mut as_int = false;
        let base = match self {
            AttribType::Uint8(n) => {
                normalized = n;
                AttribBase::Uint8
            },
            AttribType::Int8(n) => {
                normalized = n;
                as_int = true;
                AttribBase::Uint8
            },
            AttribType::Uint10(n) => {
                normalized = n;
                AttribBase::Uint10
            },
            AttribType::Int10(n) => {
                normalized = n;
                as_int = true;
                AttribBase::Uint10
            },
            AttribType::Uint16(n) => {
                normalized = n;
                AttribBase::Int16
            },
            AttribType::Int16(n) => {
                normalized = n;
                as_int = true;
                AttribBase::Int16
            },
            AttribType::Half => AttribBase::Half,
            AttribType::Float => AttribBase::Float,
        };
        AttribEncoding { base, normalized, as_int }
    }
}

/// The bit width of the integer types, `None` for the float types.
pub open spec fn int_bits(kind: AttribType) -> Option<nat> {
    match kind {
        AttribType::Uint8(_) | AttribType::Int8(_) => Some(8),
        AttribType::Uint10(_) | AttribType::Int10(_) => Some(10),
        AttribType::Uint16(_) | AttribType::Int16(_) => Some(16),
        AttribType::Half | AttribType::Float => None,
    }
}

/// Whether an attribute type is one of the signed integer types.
pub open spec fn is_signed(kind: AttribType) -> bool {
    kind is Int8 || kind is Int10 || kind is Int16
}

/// The normalization that an attribute type asks for; float types carry none.
pub open spec fn asks_normalized(kind: AttribType) -> bool {
    match kind {
        AttribType::Uint8(n) | AttribType::Int8(n) | AttribType::Uint10(n)
        | AttribType::Int10(n) | AttribType::Uint16(n) | AttribType::Int16(n) => n,
        AttribType::Half | AttribType::Float => false,
    }
}

/// The native base type for each bit width, and for each float type.
pub open spec fn base_of(kind: AttribType) -> AttribBase {
    match int_bits(kind) {
        Some(bits) => if bits == 8 {
            AttribBase::Uint8
        } else if bits == 10 {
            AttribBase::Uint10
        } else {
            AttribBase::Int16
        },
        None => if kind is Half {
            AttribBase::Half
        } else {
            AttribBase::Float
        },
    }
}

/// Every attribute type is encoded by its width, its signedness and its normalization flag:
/// signed and unsigned integer types of one width share a base type and differ only in the
/// signed flag, and the float types are never normalized nor signed.
pub proof fn lemma_encoding_table(kind: AttribType)
    ensures
        encoding(kind).base == base_of(kind),
        encoding(kind).as_int == is_signed(kind),
        encoding(kind).normalized == asks_normalized(kind),
        int_bits(kind) is None ==> !encoding(kind).normalized && !encoding(kind).as_int,
{
}

/// One step of a vertex layout: an attribute, or a gap of some bytes.
#[derive(PartialEq, Eq, Structural, Debug, Copy, Clone)]
pub enum DeclEntry {
    Attribute { attrib: Attrib, count: u8, encoding: AttribEncoding },
    Skip { bytes: u8 },
}

/// The entry that adding `attrib` with `count` elements of type `kind` appends.
pub open spec fn attribute_entry(attrib: Attrib, count: u8, kind: AttribType) -> DeclEntry {
    DeclEntry::Attribute { attrib, count, encoding: encoding(kind) }
}

/// Describes the structure of a vertex: the steps of its layout, in order.
pub struct VertexDecl {
    renderer: RendererType,
    entries: Vec<DeclEntry>,
}

/// Builder for `VertexDecl` instances. `end` consumes it, so a finished layout is never changed.
pub struct VertexDeclBuilder {
    renderer: RendererType,
    entries: Vec<DeclEntry>,
}

impl VertexDecl {
    pub closed spec fn renderer(&self) -> RendererType {
        self.renderer
    }

    pub closed spec fn entries(&self) -> Seq<DeclEntry> {
        self.entries@
    }

    /// Starts a vertex declaration for `renderer`, or for the no-op renderer when none is given.
    pub fn new(renderer: Option<RendererType>) -> (b: VertexDeclBuilder)
        ensures
            b.renderer() == renderer.unwrap_or(RendererType::Noop),
            b.entries() == Seq::<DeclEntry>::empty(),
    {
        VertexDeclBuilder { renderer: renderer.unwrap_or(RendererType::Noop), entries: Vec::new() }
    }

    /// The renderer this layout was declared for.
    pub fn renderer_type(&self) -> (r: RendererType)
        ensures
            r == self.renderer(),
    {
        self.renderer
    }

    /// The steps of this layout, in order.
    pub fn steps(&self) -> (r: &[DeclEntry])
        ensures
            r@ == self.entries(),
    {
        self.entries.as_slice()
    }
}

impl VertexDeclBuilder {
    pub closed spec fn renderer(&self) -> RendererType {
        self.renderer
    }

    pub closed spec fn entries(&self) -> Seq<DeclEntry> {
        self.entries@
    }

    /// Adds an attribute of `count` elements of type `kind`.
    pub fn add(self, attrib: Attrib, count: u8, kind: AttribType) -> (r: VertexDeclBuilder)
        ensures
            r.renderer() == self.renderer(),
            r.entries() == self.entries().push(attribute_entry(attrib, count, kind)),
    {
        let mut b = self;
        let encoding = kind.encode();
        b.entries.push(DeclEntry::Attribute { attrib, count, encoding });
        b
    }

    /// Indicates a gap of `bytes` bytes in the vertex structure.
    pub fn skip(self, bytes: u8) -> (r: VertexDeclBuilder)
        ensures
            r.renderer() == self.renderer(),
            r.entries() == self.entries().push(DeclEntry::Skip { bytes }),
    {
        let mut b = self;
        b.entries.push(DeclEntry::Skip { bytes });
        b
    }

    /// Finalizes the construction of the `VertexDecl`.
    pub fn end(self) -> (d: VertexDecl)
        ensures
            d.renderer() == self.renderer(),
            d.entries() == self.entries(),
    {
        VertexDecl { renderer: self.renderer, entries: self.entries }
    }
}

/// A layout built from a fresh builder by adding three attributes and ending holds exactly those
/// three attributes, in the order they were added, each encoded by the table.
pub proof fn lemma_three_attributes(
    start: VertexDeclBuilder,
    a: (Attrib, u8, AttribType),
    b: (Attrib, u8, AttribType),
    c: (Attrib, u8, AttribType),
    decl: VertexDecl,
)
    requires
        start.entries() == Seq::<DeclEntry>::empty(),
        decl.entries() == start.entries().push(attribute_entry(a.0, a.1, a.2)).push(
            attribute_entry(b.0, b.1, b.2),
        ).push(attribute_entry(c.0, c.1, c.2)),
    ensures
        decl.entries().len() == 3,
        decl.entries()[0] == (DeclEntry::Attribute {
            attrib: a.0,
            count: a.1,
            encoding: AttribEncoding {
                base: base_of(a.2),
                normalized: asks_normalized(a.2),
                as_int: is_signed(a.2),
            },
        }),
        decl.entries()[1] == (DeclEntry::Attribute {
            attrib: b.0,
            count: b.1,
            encoding: AttribEncoding {
                base: base_of(b.2),
                normalized: asks_normalized(b.2),
                as_int: is_signed(b.2),
            },
        }),
        decl.entries()[2] == (DeclEntry::Attribute {
            attrib: c.0,
            count: c.1,
            encoding: AttribEncoding {
                base: base_of(c.2),
                normalized: asks_normalized(c.2),
                as_int: is_signed(c.2),
            },
        }),
{
    lemma_encoding_table(a.2);
    lemma_encoding_table(b.2);
    lemma_encoding_table(c.2);
}

} // verus!
