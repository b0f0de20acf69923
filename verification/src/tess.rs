//! Geometry: vertex data in one of two layouts, optional indices and a
//! primitive mode, validated once by a builder and immutable afterwards.

use vstd::prelude::*;
use crate::mesh::{Vertex, VertexPosition, VertexRGB};

verus! {

/// How the vertex stream of a draw is assembled into primitives.
#[derive(Clone, Copy, Debug, PartialEq, Eq)]
pub enum Mode {
    /// Every vertex is a point.
    Point,
    /// Every two vertices form a line.
    Line,
    /// Every vertex after the first extends a line from the previous one.
    LineStrip,
    /// Every three vertices form a triangle; no vertex is shared.
    Triangle,
    /// Every vertex after the second forms a triangle with the first vertex
    /// and the previous one.
    TriangleFan,
    /// Every vertex after the second forms a triangle with the previous two.
    TriangleStrip,
    /// Every `n` vertices form a patch.
    Patch(usize),
}

impl Mode {
    /// Number of vertices that make up one primitive.
    pub open spec fn arity(self) -> nat {
        match self {
            Mode::Point => 1,
            Mode::Line => 2,
            Mode::LineStrip => 2,
            Mode::Triangle => 3,
            Mode::TriangleFan => 3,
            Mode::TriangleStrip => 3,
            Mode::Patch(n) => n as nat,
        }
    }

    /// Number of primitives assembled from a stream of `n` vertices.
    pub open spec fn primitives(self, n: nat) -> nat {
        match self {
            Mode::Point => n,
            Mode::Line => n / 2,
            Mode::LineStrip => if n >= 2 { (n - 1) as nat } else { 0 },
            Mode::Triangle => n / 3,
            Mode::TriangleFan => if n >= 3 { (n - 2) as nat } else { 0 },
            Mode::TriangleStrip => if n >= 3 { (n - 2) as nat } else { 0 },
            Mode::Patch(size) => if size == 0 { 0 } else { n / (size as nat) },
        }
    }

    /// Position in the vertex stream of corner `j` of primitive `k`.
    pub open spec fn corner(self, k: nat, j: nat) -> nat {
        match self {
            Mode::Point => k,
            Mode::Line => 2 * k + j,
            Mode::LineStrip => k + j,
            Mode::Triangle => 3 * k + j,
            Mode::TriangleFan => if j == 0 { 0 } else { k + j },
            Mode::TriangleStrip => k + j,
            Mode::Patch(size) => (size as nat) * k + j,
        }
    }

    /// Every corner of every assembled primitive lies inside the stream.
    pub proof fn lemma_corner_in_stream(self, n: nat, k: nat, j: nat)
        requires
            k < self.primitives(n),
            j < self.arity(),
        ensures
            self.corner(k, j) < n,
    {
        if let Mode::Patch(size) = self {
            let s = size as nat;
            assert(s * k + j < n) by (nonlinear_arith)
                requires
                    s > 0,
                    k < n / s,
                    j < s,
            {
                assert(s * (k + 1) <= s * (n / s));
                assert(s * (n / s) <= n);
            }
        }
    }

    /// Number of vertices that make up one primitive.
    pub fn vertices_per_primitive(&self) -> (r: usize)
        ensures
            r == self.arity(),
    {
        match self {
            Mode::Point => 1,
            Mode::Line => 2,
            Mode::LineStrip => 2,
            Mode::Triangle => 3,
            Mode::TriangleFan => 3,
            Mode::TriangleStrip => 3,
            Mode::Patch(n) => *n,
        }
    }

    /// Number of primitives assembled from a stream of `n` vertices.
    pub fn primitive_count(&self, n: usize) -> (r: usize)
        ensures
            r == self.primitives(n as nat),
    {
        match self {
            Mode::Point => n,
            Mode::Line => n / 2,
            Mode::LineStrip => if n >= 2 { n - 1 } else { 0 },
            Mode::Triangle => n / 3,
            Mode::TriangleFan => if n >= 3 { n - 2 } else { 0 },
            Mode::TriangleStrip => if n >= 3 { n - 2 } else { 0 },
            Mode::Patch(size) => if *size == 0 { 0 } else { n / *size },
        }
    }

    /// Position in a stream of `n` vertices of corner `j` of primitive `k`,
    /// or `None` where the stream has no such primitive or corner.
    pub fn corner_index(&self, n: usize, k: usize, j: usize) -> (r: Option<usize>)
        ensures
            r is Some <==> k < self.primitives(n as nat) && j < self.arity(),
            r matches Some(c) ==> c == self.corner(k as nat, j as nat) && c < n,
    {
        if k >= self.primitive_count(n) || j >= self.vertices_per_primitive() {
            return None;
        }
        proof {
            self.lemma_corner_in_stream(n as nat, k as nat, j as nat);
        }
        let c = match self {
            Mode::Point => k,
            Mode::Line => 2 * k + j,
            Mode::LineStrip => k + j,
            Mode::Triangle => 3 * k + j,
            Mode::TriangleFan => if j == 0 { 0 } else { k + j },
            Mode::TriangleStrip => k + j,
            Mode::Patch(size) => {
                *size * k + j
            },
        };
        Some(c)
    }
}

/// Why a geometry could not be built.
#[derive(Clone, Copy, Debug, PartialEq, Eq)]
pub enum BuildError {
    /// The index at position `at` addresses a vertex that some attribute
    /// array does not hold: `index >= limit`, where `limit` is the length of
    /// the shortest attribute array.
    IndexOutOfBounds { at: usize, index: u8, limit: usize },
    /// Without indices every attribute array is read in step, and the arrays
    /// differ in length.
    LengthMismatch { positions: usize, colors: usize },
}

/// Vertex data as a mathematical value.
pub enum VertexStore {
    /// One array of whole vertices.
    Interleaved { vertices: Seq<Vertex> },
    /// One array per attribute.
    Deinterleaved { positions: Seq<VertexPosition>, colors: Seq<VertexRGB> },
}

impl VertexStore {
    /// Number of leading slots at which every attribute is present.
    pub open spec fn addressable(self) -> nat {
        match self {
            VertexStore::Interleaved { vertices } => vertices.len(),
            VertexStore::Deinterleaved { positions, colors } => if positions.len() <= colors.len() {
                positions.len()
            } else {
                colors.len()
            },
        }
    }

    /// Whether all attribute arrays have the same length.
    pub open spec fn coherent(self) -> bool {
        match self {
            VertexStore::Interleaved { vertices } => true,
            VertexStore::Deinterleaved { positions, colors } => positions.len() == colors.len(),
        }
    }

    /// The vertex held at slot `i`.
    pub open spec fn vertex(self, i: int) -> Vertex
        recommends
            0 <= i < self.addressable(),
    {
        match self {
            VertexStore::Interleaved { vertices } => vertices[i],
            VertexStore::Deinterleaved { positions, colors } => Vertex {
                position: positions[i],
                color: colors[i],
            },
        }
    }

    /// The position array of a deinterleaved store; empty otherwise.
    pub open spec fn positions(self) -> Seq<VertexPosition> {
        match self {
            VertexStore::Interleaved { vertices } => Seq::empty(),
            VertexStore::Deinterleaved { positions, colors } => positions,
        }
    }

    /// The color array of a deinterleaved store; empty otherwise.
    pub open spec fn colors(self) -> Seq<VertexRGB> {
        match self {
            VertexStore::Interleaved { vertices } => Seq::empty(),
            VertexStore::Deinterleaved { positions, colors } => colors,
        }
    }
}

/// A geometry as a mathematical value: what a builder has accumulated, and
/// what a built buffer holds.
pub struct Geometry {
    pub store: VertexStore,
    /// Slots to draw, in order. Empty means that every slot is drawn once, in
    /// storage order.
    pub indices: Seq<u8>,
    pub mode: Mode,
}

impl Geometry {
    /// Whether every index addresses a slot that every attribute array holds.
    pub open spec fn indices_in_range(self) -> bool {
        forall|i: int| 0 <= i < self.indices.len() ==> (#[trigger] self.indices[i]) < self.store.addressable()
    }

    /// Whether a buffer may hold this geometry.
    pub open spec fn valid(self) -> bool {
        if self.indices.len() == 0 {
            self.store.coherent()
        } else {
            self.indices_in_range()
        }
    }

    /// Length of the vertex stream of one draw.
    pub open spec fn vertex_count(self) -> nat {
        if self.indices.len() == 0 {
            self.store.addressable()
        } else {
            self.indices.len()
        }
    }

    /// The slot read for position `i` of the vertex stream.
    pub open spec fn slot(self, i: int) -> int {
        if self.indices.len() == 0 {
            i
        } else {
            self.indices[i] as int
        }
    }

    /// The vertex at position `i` of the vertex stream.
    pub open spec fn element(self, i: int) -> Vertex
        recommends
            0 <= i < self.vertex_count(),
    {
        self.store.vertex(self.slot(i))
    }

    /// Number of primitives that one draw assembles.
    pub open spec fn primitive_count(self) -> nat {
        self.mode.primitives(self.vertex_count())
    }

    /// The vertices of primitive `k`, corner by corner.
    pub open spec fn primitive(self, k: nat) -> Seq<Vertex>
        recommends
            k < self.primitive_count(),
    {
        Seq::new(self.mode.arity(), |j: int| self.element(self.mode.corner(k, j as nat) as int))
    }

    /// In a valid geometry every position of the vertex stream reads a slot
    /// that every attribute array holds.
    pub proof fn lemma_stream_in_range(self, i: int)
        requires
            self.valid(),
            0 <= i < self.vertex_count(),
        ensures
            0 <= self.slot(i) < self.store.addressable(),
    {
    }
}

/// In a valid geometry every index is strictly less than the length of every
/// attribute array.
pub proof fn lemma_indices_address_every_array(g: Geometry, i: int)
    requires
        g.valid(),
        0 <= i < g.indices.len(),
    ensures
        match g.store {
            VertexStore::Interleaved { vertices } => g.indices[i] < vertices.len(),
            VertexStore::Deinterleaved { positions, colors } => g.indices[i] < positions.len()
                && g.indices[i] < colors.len(),
        },
{
}

/// Vertex data in one of the two layouts.
#[derive(Debug, PartialEq, Eq)]
pub enum VertexData {
    /// One array of whole vertices.
    Interleaved { vertices: Vec<Vertex> },
    /// One array per attribute.
    Deinterleaved { positions: Vec<VertexPosition>, colors: Vec<VertexRGB> },
}

impl View for VertexData {
    type V = VertexStore;

    open spec fn view(&self) -> VertexStore {
        match self {
            VertexData::Interleaved { vertices } => VertexStore::Interleaved { vertices: vertices@ },
            VertexData::Deinterleaved { positions, colors } => VertexStore::Deinterleaved {
                positions: positions@,
                colors: colors@,
            },
        }
    }
}

impl VertexData {
    /// Number of leading slots at which every attribute is present.
    pub fn addressable(&self) -> (n: usize)
        ensures
            n == self@.addressable(),
    {
        match self {
            VertexData::Interleaved { vertices } => vertices.len(),
            VertexData::Deinterleaved { positions, colors } => if positions.len() <= colors.len() {
                positions.len()
            } else {
                colors.len()
            },
        }
    }

    /// The vertex held at slot `i`, or `None` where some attribute array has
    /// no such slot.
    pub fn vertex(&self, i: usize) -> (res: Option<Vertex>)
        ensures
            res is Some <==> i < self@.addressable(),
            res matches Some(v) ==> v == self@.vertex(i as int),
    {
        match self {
            VertexData::Interleaved { vertices } => if i < vertices.len() {
                Some(vertices[i])
            } else {
                None
            },
            VertexData::Deinterleaved { positions, colors } => if i < positions.len() && i
                < colors.len() {
                Some(Vertex { position: positions[i], color: colors[i] })
            } else {
                None
            },
        }
    }
}

/// Accumulates vertex data, indices and a mode; `build` validates them all at
/// once.
#[derive(Debug)]
pub struct GeometryBuilder {
    data: VertexData,
    indices: Vec<u8>,
    mode: Mode,
}

impl View for GeometryBuilder {
    type V = Geometry;

    closed spec fn view(&self) -> Geometry {
        Geometry { store: self.data@, indices: self.indices@, mode: self.mode }
    }
}

impl GeometryBuilder {
    /// A builder with no vertices, no indices and mode `Point`.
    pub fn new() -> (res: GeometryBuilder)
        ensures
            res@ == (Geometry {
                store: VertexStore::Interleaved { vertices: Seq::empty() },
                indices: Seq::empty(),
                mode: Mode::Point,
            }),
    {
        GeometryBuilder {
            data: VertexData::Interleaved { vertices: Vec::new() },
            indices: Vec::new(),
            mode: Mode::Point,
        }
    }

    /// Replaces the mode.
    pub fn set_mode(self, mode: Mode) -> (res: GeometryBuilder)
        ensures
            res@ == (Geometry { mode, ..self@ }),
    {
        GeometryBuilder { data: self.data, indices: self.indices, mode }
    }

    /// Replaces the indices. An empty list means a draw without indices.
    pub fn set_indices(self, indices: Vec<u8>) -> (res: GeometryBuilder)
        ensures
            res@ == (Geometry { indices: indices@, ..self@ }),
    {
        GeometryBuilder { data: self.data, indices, mode: self.mode }
    }

    /// Replaces the vertex data by one interleaved array.
    pub fn set_vertices(self, vertices: Vec<Vertex>) -> (res: GeometryBuilder)
        ensures
            res@ == (Geometry { store: VertexStore::Interleaved { vertices: vertices@ }, ..self@ }),
    {
        GeometryBuilder {
            data: VertexData::Interleaved { vertices },
            indices: self.indices,
            mode: self.mode,
        }
    }

    /// Replaces the position array. The layout becomes deinterleaved; a color
    /// array set before is kept.
    pub fn set_positions(self, positions: Vec<VertexPosition>) -> (res: GeometryBuilder)
        ensures
            res@ == (Geometry {
                store: VertexStore::Deinterleaved { positions: positions@, colors: self@.store.colors() },
                ..self@
            }),
    {
        let colors = match self.data {
            VertexData::Interleaved { vertices } => Vec::new(),
            VertexData::Deinterleaved { positions: _, colors } => colors,
        };
        GeometryBuilder {
            data: VertexData::Deinterleaved { positions, colors },
            indices: self.indices,
            mode: self.mode,
        }
    }

    /// Replaces the color array. The layout becomes deinterleaved; a position
    /// array set before is kept.
    pub fn set_colors(self, colors: Vec<VertexRGB>) -> (res: GeometryBuilder)
        ensures
            res@ == (Geometry {
                store: VertexStore::Deinterleaved { positions: self@.store.positions(), colors: colors@ },
                ..self@
            }),
    {
        let positions = match self.data {
            VertexData::Interleaved { vertices } => Vec::new(),
            VertexData::Deinterleaved { positions, colors: _ } => positions,
        };
        GeometryBuilder {
            data: VertexData::Deinterleaved { positions, colors },
            indices: self.indices,
            mode: self.mode,
        }
    }

    /// Validates what was accumulated and turns it into a buffer.
    ///
    /// The build succeeds exactly when the geometry is valid, and the buffer
    /// then holds it unchanged. With indices, the error names the first index
    /// that some attribute array cannot serve; without, the two lengths that
    /// differ.
    pub fn build(self) -> (res: Result<GeometryBuffer, BuildError>)
        ensures
            res is Ok <==> self@.valid(),
            res matches Ok(buffer) ==> buffer@ == self@,
            res matches Err(BuildError::IndexOutOfBounds { at, index, limit }) ==> {
                &&& at < self@.indices.len()
                &&& index == self@.indices[at as int]
                &&& limit == self@.store.addressable()
                &&& index >= limit
                &&& forall|j: int| 0 <= j < at ==> (#[trigger] self@.indices[j]) < limit
            },
            res matches Err(BuildError::LengthMismatch { positions, colors }) ==> {
                &&& self@.indices.len() == 0
                &&& self@.store is Deinterleaved
                &&& positions == self@.store.positions().len()
                &&& colors == self@.store.colors().len()
                &&& positions != colors
            },
    {
        if self.indices.len() == 0 {
            if let VertexData::Deinterleaved { positions, colors } = &self.data {
                if positions.len() != colors.len() {
                    return Err(
                        BuildError::LengthMismatch {
                            positions: positions.len(),
                            colors: colors.len(),
                        },
                    );
                }
            }
        } else {
            let limit = self.data.addressable();
            let mut at: usize = 0;
            while at < self.indices.len()
                invariant
                    at <= self.indices.len(),
                    limit == self.data@.addressable(),
                    forall|j: int| 0 <= j < at ==> (#[trigger] self.indices@[j]) < limit,
                decreases self.indices.len() - at,
            {
                let index = self.indices[at];
                if index as usize >= limit {
                    return Err(BuildError::IndexOutOfBounds { at, index, limit });
                }
                at += 1;
            }
        }
        Ok(GeometryBuffer { data: self.data, indices: self.indices, mode: self.mode })
    }
}

/// A valid geometry, ready to be uploaded and drawn. It cannot be changed:
/// new geometry is a new buffer.
#[derive(Debug, PartialEq, Eq)]
pub struct GeometryBuffer {
    data: VertexData,
    indices: Vec<u8>,
    mode: Mode,
}

impl View for GeometryBuffer {
    type V = Geometry;

    closed spec fn view(&self) -> Geometry {
        Geometry { store: self.data@, indices: self.indices@, mode: self.mode }
    }
}

impl GeometryBuffer {
    #[verifier::type_invariant]
    spec fn well_formed(self) -> bool {
        self@.valid()
    }

    /// The vertex data, in the layout it was built with.
    pub fn data(&self) -> (res: &VertexData)
        ensures
            res@ == self@.store,
            self@.valid(),
    {
        proof {
            use_type_invariant(self);
        }
        &self.data
    }

    /// The indices; empty for a draw without indices.
    pub fn indices(&self) -> (res: &Vec<u8>)
        ensures
            res@ == self@.indices,
            self@.valid(),
    {
        proof {
            use_type_invariant(self);
        }
        &self.indices
    }

    /// The primitive mode.
    pub fn mode(&self) -> (res: Mode)
        ensures
            res == self@.mode,
    {
        self.mode
    }

    /// Length of the vertex stream of one draw.
    pub fn vertex_count(&self) -> (n: usize)
        ensures
            n == self@.vertex_count(),
    {
        if self.indices.len() == 0 {
            self.data.addressable()
        } else {
            self.indices.len()
        }
    }

    /// Number of primitives that one draw assembles.
    pub fn primitive_count(&self) -> (n: usize)
        ensures
            n == self@.primitive_count(),
    {
        self.mode.primitive_count(self.vertex_count())
    }

    /// The vertex at position `i` of the vertex stream, or `None` past its
    /// end.
    pub fn element(&self, i: usize) -> (res: Option<Vertex>)
        ensures
            res is Some <==> i < self@.vertex_count(),
            res matches Some(v) ==> v == self@.element(i as int),
    {
        proof {
            use_type_invariant(self);
        }
        if self.indices.len() == 0 {
            self.data.vertex(i)
        } else if i < self.indices.len() {
            let slot = self.indices[i] as usize;
            self.data.vertex(slot)
        } else {
            None
        }
    }

    /// The vertices of primitive `k`, corner by corner, or `None` where the
    /// draw assembles no such primitive.
    pub fn primitive(&self, k: usize) -> (res: Option<Vec<Vertex>>)
        ensures
            res is Some <==> k < self@.primitive_count(),
            res matches Some(corners) ==> corners@ == self@.primitive(k as nat),
    {
        let n = self.vertex_count();
        if k >= self.mode.primitive_count(n) {
            return None;
        }
        let arity = self.mode.vertices_per_primitive();
        let mut corners: Vec<Vertex> = Vec::new();
        let mut j: usize = 0;
        while j < arity
            invariant
                j <= arity,
                arity == self@.mode.arity(),
                n == self@.vertex_count(),
                k < self@.mode.primitives(n as nat),
                corners@.len() == j,
                forall|c: int| 0 <= c < j ==> #[trigger] corners@[c] == self@.element(
                    self@.mode.corner(k as nat, c as nat) as int,
                ),
            decreases arity - j,
        {
            if let Some(at) = self.mode.corner_index(n, k, j) {
                if let Some(vertex) = self.element(at) {
                    corners.push(vertex);
                }
            }
            j += 1;
        }
        assert(corners@ =~= self@.primitive(k as nat));
        Some(corners)
    }
}

} // verus!
