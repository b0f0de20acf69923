//! Vertex format: the semantics table shared by geometry and shader programs,
//! the wire encoding of each attribute, and the vertex record itself.
//!
//! Floating-point attribute components are held as IEEE-754 binary32 bit
//! patterns (`u32`), exactly as they are laid out in a vertex buffer.

use vstd::prelude::*;
use vstd::pervasive::unreached;
use vstd::string::StringExecFns;
use crate::tess::{Geometry, GeometryBuffer, GeometryBuilder, Mode, VertexStore};

verus! {

/// Whether an integral attribute is rescaled to `[0, 1]` (or `[-1, 1]`) when a
/// shader reads it.
#[derive(Clone, Copy, Debug, PartialEq, Eq, Structural)]
pub enum Normalized {
    Yes,
    No,
}

/// Scalar type of the components of a vertex attribute.
#[derive(Clone, Copy, Debug, PartialEq, Eq, Structural)]
pub enum VertexAttribType {
    Integral(Normalized),
    Unsigned(Normalized),
    Floating,
    Boolean,
}

/// Number of components of a vertex attribute.
#[derive(Clone, Copy, Debug, PartialEq, Eq, Structural)]
pub enum VertexAttribDim {
    Dim1,
    Dim2,
    Dim3,
    Dim4,
}

/// Wire representation of one vertex attribute.
#[derive(Clone, Copy, Debug, PartialEq, Eq, Structural)]
pub struct VertexAttribDesc {
    /// Scalar type of each component.
    pub ty: VertexAttribType,
    /// Number of components.
    pub dim: VertexAttribDim,
    /// Size in bytes of one component.
    pub unit_size: usize,
    /// Alignment in bytes of one component.
    pub align: usize,
}

impl VertexAttribDesc {
    /// The same encoding with integral components marked as normalized.
    /// Floating and boolean encodings are unchanged.
    pub open spec fn normalized(self) -> VertexAttribDesc {
        VertexAttribDesc {
            ty: match self.ty {
                VertexAttribType::Integral(_) => VertexAttribType::Integral(Normalized::Yes),
                VertexAttribType::Unsigned(_) => VertexAttribType::Unsigned(Normalized::Yes),
                VertexAttribType::Floating => VertexAttribType::Floating,
                VertexAttribType::Boolean => VertexAttribType::Boolean,
            },
            dim: self.dim,
            unit_size: self.unit_size,
            align: self.align,
        }
    }

    /// Marks integral components as normalized.
    pub fn normalize(self) -> (res: VertexAttribDesc)
        ensures
            res == self.normalized(),
    {
        let ty = match self.ty {
            VertexAttribType::Integral(_) => VertexAttribType::Integral(Normalized::Yes),
            VertexAttribType::Unsigned(_) => VertexAttribType::Unsigned(Normalized::Yes),
            VertexAttribType::Floating => VertexAttribType::Floating,
            VertexAttribType::Boolean => VertexAttribType::Boolean,
        };
        VertexAttribDesc { ty, dim: self.dim, unit_size: self.unit_size, align: self.align }
    }
}

/// The closed set of vertex attributes known to both geometry and shaders.
#[derive(Clone, Copy, Debug, PartialEq, Eq, Structural)]
pub enum VertexSemantics {
    /// 2D position, read as `position` by vertex shaders.
    Position,
    /// RGB color, read as `color` by vertex shaders.
    Color,
}

/// Number of attributes in the semantics table.
pub const ATTR_COUNT: usize = 2;

impl VertexSemantics {
    /// Slot index of the attribute.
    pub open spec fn slot(self) -> nat {
        match self {
            VertexSemantics::Position => 0,
            VertexSemantics::Color => 1,
        }
    }

    /// Name under which shaders read the attribute.
    pub open spec fn label(self) -> Seq<char> {
        match self {
            VertexSemantics::Position => "position"@,
            VertexSemantics::Color => "color"@,
        }
    }

    /// Encoding of the attribute as stored in a vertex buffer.
    pub open spec fn encoding(self) -> VertexAttribDesc {
        match self {
            VertexSemantics::Position => VertexAttribDesc {
                ty: VertexAttribType::Floating,
                dim: VertexAttribDim::Dim2,
                unit_size: 4,
                align: 4,
            },
            VertexSemantics::Color => VertexAttribDesc {
                ty: VertexAttribType::Unsigned(Normalized::Yes),
                dim: VertexAttribDim::Dim3,
                unit_size: 1,
                align: 1,
            },
        }
    }

    /// The attribute stored in slot `i`, if any.
    pub open spec fn at_slot(i: nat) -> Option<VertexSemantics> {
        if i == 0 {
            Some(VertexSemantics::Position)
        } else if i == 1 {
            Some(VertexSemantics::Color)
        } else {
            None
        }
    }

    /// The attribute that shaders read under `name`, if any.
    pub open spec fn named(name: Seq<char>) -> Option<VertexSemantics> {
        if name == VertexSemantics::Position.label() {
            Some(VertexSemantics::Position)
        } else if name == VertexSemantics::Color.label() {
            Some(VertexSemantics::Color)
        } else {
            None
        }
    }

    /// Slot index of the attribute.
    pub fn index(&self) -> (i: usize)
        ensures
            i == self.slot(),
            i < ATTR_COUNT,
    {
        match self {
            VertexSemantics::Position => 0,
            VertexSemantics::Color => 1,
        }
    }

    /// Name under which shaders read the attribute.
    pub fn name(&self) -> (s: &'static str)
        ensures
            s@ == self.label(),
    {
        match self {
            VertexSemantics::Position => "position",
            VertexSemantics::Color => "color",
        }
    }

    /// Encoding of the attribute as stored in a vertex buffer.
    pub fn attrib_desc(&self) -> (d: VertexAttribDesc)
        ensures
            d == self.encoding(),
    {
        match self {
            VertexSemantics::Position => VertexAttribDesc {
                ty: VertexAttribType::Floating,
                dim: VertexAttribDim::Dim2,
                unit_size: 4,
                align: 4,
            },
            VertexSemantics::Color => VertexAttribDesc {
                ty: VertexAttribType::Unsigned(Normalized::No),
                dim: VertexAttribDim::Dim3,
                unit_size: 1,
                align: 1,
            }.normalize(),
        }
    }

    /// The attribute stored in slot `i`, if any.
    pub fn from_index(i: usize) -> (res: Option<VertexSemantics>)
        ensures
            res == VertexSemantics::at_slot(i as nat),
    {
        if i == 0 {
            Some(VertexSemantics::Position)
        } else if i == 1 {
            Some(VertexSemantics::Color)
        } else {
            None
        }
    }

    /// The attribute that shaders read under `name`, if any.
    pub fn parse(name: &str) -> (res: Option<VertexSemantics>)
        ensures
            res == VertexSemantics::named(name@),
    {
        let name = String::from_str(name);
        let position = String::from_str("position");
        let color = String::from_str("color");
        if name == position {
            Some(VertexSemantics::Position)
        } else if name == color {
            Some(VertexSemantics::Color)
        } else {
            None
        }
    }
}

/// Slot indices are unique: two attributes sharing a slot are the same
/// attribute, and every attribute is found again from its slot.
pub proof fn lemma_slots_unique(a: VertexSemantics, b: VertexSemantics)
    ensures
        a.slot() == b.slot() ==> a == b,
        a.slot() < ATTR_COUNT,
        VertexSemantics::at_slot(a.slot()) == Some(a),
{
}

/// Names are unique: two attributes sharing a name are the same attribute,
/// and every attribute is found again from its name.
pub proof fn lemma_names_unique(a: VertexSemantics, b: VertexSemantics)
    ensures
        a.label() == b.label() ==> a == b,
        VertexSemantics::named(a.label()) == Some(a),
{
    reveal_strlit("position");
    reveal_strlit("color");
    assert("position"@.len() != "color"@.len());
}

/// 2D position of a vertex. Each component is the bit pattern of an IEEE-754
/// binary32 number.
#[derive(Clone, Copy, Debug, PartialEq, Eq)]
pub struct VertexPosition {
    pub repr: [u32; 2],
}

impl VertexPosition {
    pub fn new(repr: [u32; 2]) -> (res: VertexPosition)
        ensures
            res.repr == repr,
    {
        VertexPosition { repr }
    }
}

/// RGB color of a vertex, one byte per channel, read by shaders as a
/// normalized value.
#[derive(Clone, Copy, Debug, PartialEq, Eq)]
pub struct VertexRGB {
    pub repr: [u8; 3],
}

impl VertexRGB {
    pub fn new(repr: [u8; 3]) -> (res: VertexRGB)
        ensures
            res.repr == repr,
    {
        VertexRGB { repr }
    }
}

/// Description of one attribute of a vertex type: where it is bound, under
/// which name, and how it is encoded.
#[derive(Clone, Copy, Debug, PartialEq, Eq)]
pub struct VertexBufferDesc {
    /// Slot index of the attribute.
    pub index: usize,
    /// Name under which shaders read the attribute.
    pub name: &'static str,
    /// Encoding of the attribute.
    pub attrib_desc: VertexAttribDesc,
}

impl VertexBufferDesc {
    /// Whether this entry describes `sem` exactly as the semantics table does.
    pub open spec fn describes(self, sem: VertexSemantics) -> bool {
        &&& self.index == sem.slot()
        &&& self.name@ == sem.label()
        &&& self.attrib_desc == sem.encoding()
    }

    /// The table entry of `sem`.
    pub fn new(sem: VertexSemantics) -> (res: VertexBufferDesc)
        ensures
            res.describes(sem),
    {
        VertexBufferDesc { index: sem.index(), name: sem.name(), attrib_desc: sem.attrib_desc() }
    }
}

/// One vertex: a position and a color.
#[derive(Clone, Copy, Debug, PartialEq, Eq)]
pub struct Vertex {
    pub position: VertexPosition,
    pub color: VertexRGB,
}

impl Vertex {
    pub fn new(position: VertexPosition, color: VertexRGB) -> (res: Vertex)
        ensures
            res.position == position,
            res.color == color,
    {
        Vertex { position, color }
    }

    /// The attributes of a vertex, in field order: entry `i` describes the
    /// attribute bound to slot `i`.
    pub fn vertex_desc() -> (res: Vec<VertexBufferDesc>)
        ensures
            res@.len() == ATTR_COUNT,
            res@[0].describes(VertexSemantics::Position),
            res@[1].describes(VertexSemantics::Color),
    {
        let mut desc: Vec<VertexBufferDesc> = Vec::new();
        desc.push(VertexBufferDesc::new(VertexSemantics::Position));
        desc.push(VertexBufferDesc::new(VertexSemantics::Color));
        desc
    }
}

/// Bit pattern of the binary32 number `0.0`.
pub const F32_ZERO: u32 = 0x0000_0000;

/// Bit pattern of the binary32 number `-0.0`.
pub const F32_NEG_ZERO: u32 = 0x8000_0000;

/// Bit pattern of the binary32 number `0.5`.
pub const F32_HALF: u32 = 0x3F00_0000;

/// Bit pattern of the binary32 number `-0.5`.
pub const F32_NEG_HALF: u32 = 0xBF00_0000;

/// Bit pattern of the binary32 number `1.0`.
pub const F32_ONE: u32 = 0x3F80_0000;

/// Bit pattern of the binary32 number `-1.0`.
pub const F32_NEG_ONE: u32 = 0xBF80_0000;

/// A vertex given by its five components.
pub open spec fn vertex_of(x: u32, y: u32, r: u8, g: u8, b: u8) -> Vertex {
    Vertex { position: VertexPosition { repr: [x, y] }, color: VertexRGB { repr: [r, g, b] } }
}

/// The vertices of the single triangle: red, green and blue corners.
pub open spec fn triangle_vertices() -> Seq<Vertex> {
    seq![
        vertex_of(F32_NEG_HALF, F32_NEG_HALF, 125, 0, 0),
        vertex_of(F32_HALF, F32_NEG_HALF, 0, 125, 0),
        vertex_of(F32_ZERO, F32_HALF, 0, 0, 125),
    ]
}

/// The position array of the two-triangle mesh.
pub open spec fn quad_positions() -> Seq<VertexPosition> {
    seq![
        VertexPosition { repr: [F32_ONE, F32_NEG_ONE] },
        VertexPosition { repr: [F32_ONE, F32_ONE] },
        VertexPosition { repr: [F32_NEG_ONE, F32_NEG_ONE] },
        VertexPosition { repr: [F32_NEG_ONE, F32_ONE] },
        VertexPosition { repr: [F32_ZERO, F32_NEG_ZERO] },
    ]
}

/// The color array of the two-triangle mesh.
pub open spec fn quad_colors() -> Seq<VertexRGB> {
    seq![
        VertexRGB { repr: [0, 255, 0] },
        VertexRGB { repr: [0, 0, 255] },
        VertexRGB { repr: [255, 0, 0] },
        VertexRGB { repr: [255, 51, 255] },
        VertexRGB { repr: [51, 255, 255] },
        VertexRGB { repr: [51, 51, 255] },
    ]
}

/// The indices of the two-triangle mesh.
pub open spec fn quad_indices() -> Seq<u8> {
    seq![0u8, 1u8, 2u8, 3u8, 4u8, 0u8]
}

/// The two-triangle mesh: deinterleaved arrays addressed through indices.
pub open spec fn quad_geometry() -> Geometry {
    Geometry {
        store: VertexStore::Deinterleaved { positions: quad_positions(), colors: quad_colors() },
        indices: quad_indices(),
        mode: Mode::Triangle,
    }
}

/// The single-triangle mesh: three interleaved vertices, no indices.
pub open spec fn triangle_geometry() -> Geometry {
    Geometry {
        store: VertexStore::Interleaved { vertices: triangle_vertices() },
        indices: Seq::empty(),
        mode: Mode::Triangle,
    }
}

/// Builds the two-triangle mesh from deinterleaved arrays and indices.
pub fn get_mesh_2() -> (res: GeometryBuffer)
    ensures
        res@ == quad_geometry(),
        res@.primitive_count() == 2,
{
    let mut positions: Vec<VertexPosition> = Vec::new();
    positions.push(VertexPosition::new([F32_ONE, F32_NEG_ONE]));
    positions.push(VertexPosition::new([F32_ONE, F32_ONE]));
    positions.push(VertexPosition::new([F32_NEG_ONE, F32_NEG_ONE]));
    positions.push(VertexPosition::new([F32_NEG_ONE, F32_ONE]));
    positions.push(VertexPosition::new([F32_ZERO, F32_NEG_ZERO]));
    let mut colors: Vec<VertexRGB> = Vec::new();
    colors.push(VertexRGB::new([0, 255, 0]));
    colors.push(VertexRGB::new([0, 0, 255]));
    colors.push(VertexRGB::new([255, 0, 0]));
    colors.push(VertexRGB::new([255, 51, 255]));
    colors.push(VertexRGB::new([51, 255, 255]));
    colors.push(VertexRGB::new([51, 51, 255]));
    let mut indices: Vec<u8> = Vec::new();
    indices.push(0);
    indices.push(1);
    indices.push(2);
    indices.push(3);
    indices.push(4);
    indices.push(0);
    assert(positions@ =~= quad_positions());
    assert(colors@ =~= quad_colors());
    assert(indices@ =~= quad_indices());
    let builder = GeometryBuilder::new().set_indices(indices).set_positions(positions).set_colors(
        colors,
    ).set_mode(Mode::Triangle);
    match builder.build() {
        Ok(buffer) => buffer,
        Err(_) => unreached(),
    }
}

/// Builds the single-triangle mesh from interleaved vertices.
pub fn get_mesh() -> (res: GeometryBuffer)
    ensures
        res@ == triangle_geometry(),
        res@.primitive_count() == 1,
        res@.primitive(0) == triangle_vertices(),
{
    let mut vertices: Vec<Vertex> = Vec::new();
    vertices.push(
        Vertex::new(VertexPosition::new([F32_NEG_HALF, F32_NEG_HALF]), VertexRGB::new([125, 0, 0])),
    );
    vertices.push(
        Vertex::new(VertexPosition::new([F32_HALF, F32_NEG_HALF]), VertexRGB::new([0, 125, 0])),
    );
    vertices.push(
        Vertex::new(VertexPosition::new([F32_ZERO, F32_HALF]), VertexRGB::new([0, 0, 125])),
    );
    assert(vertices@ =~= triangle_vertices());
    let builder = GeometryBuilder::new().set_vertices(vertices).set_mode(Mode::Triangle);
    match builder.build() {
        Ok(buffer) => buffer,
        Err(_) => unreached(),
    }
}

} // verus!
