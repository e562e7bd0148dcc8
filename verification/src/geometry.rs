//! Static geometry: the vertex record and its layout, the index data and the
//! draw count that follows from it.

use vstd::prelude::*;

verus! {

/// Three single-precision numbers, each held as its IEEE-754 bit pattern.
/// Nothing here computes with them; a host turns the bits back into
/// numbers.
#[derive(Clone, Copy, Debug, PartialEq, Eq, Structural)]
pub struct Float32x3 {
    pub x: u32,
    pub y: u32,
    pub z: u32,
}

/// Two single-precision numbers, each held as its IEEE-754 bit pattern.
#[derive(Clone, Copy, Debug, PartialEq, Eq, Structural)]
pub struct Float32x2 {
    pub x: u32,
    pub y: u32,
}

/// One vertex: a position and a texture coordinate.
#[derive(Clone, Copy, Debug, PartialEq, Eq, Structural)]
pub struct Vertex {
    pub position: Float32x3,
    pub tex_coords: Float32x2,
}

/// The shape of one vertex attribute.
#[derive(Clone, Copy, Debug, PartialEq, Eq, Structural)]
pub enum VertexFormat {
    Float32x2,
    Float32x3,
}

impl VertexFormat {
    /// Bytes that an attribute of this format occupies.
    pub open spec fn spec_size(&self) -> u64 {
        match self {
            VertexFormat::Float32x2 => 8,
            VertexFormat::Float32x3 => 12,
        }
    }

    /// Bytes that an attribute of this format occupies.
    #[verifier::when_used_as_spec(spec_size)]
    pub fn size(&self) -> (bytes: u64)
        ensures
            bytes == self.spec_size(),
    {
        match self {
            VertexFormat::Float32x2 => 8,
            VertexFormat::Float32x3 => 12,
        }
    }
}

/// Whether a vertex buffer advances per vertex or per instance.
#[derive(Clone, Copy, Debug, PartialEq, Eq, Structural)]
pub enum VertexStepMode {
    Vertex,
    Instance,
}

/// Where one attribute lies inside a vertex record and which shader input
/// it feeds.
#[derive(Clone, Copy, Debug, PartialEq, Eq, Structural)]
pub struct VertexAttribute {
    pub format: VertexFormat,
    pub offset: u64,
    pub shader_location: u32,
}

/// How a vertex buffer is read.
#[derive(Clone, Debug, PartialEq, Eq)]
pub struct VertexBufferLayout {
    pub array_stride: u64,
    pub step_mode: VertexStepMode,
    pub attributes: Vec<VertexAttribute>,
}

/// Bytes of one vertex record.
pub const VERTEX_SIZE: u64 = 20;

/// The attributes of a vertex record: the position first, the texture
/// coordinate behind it.
pub open spec fn vertex_attributes() -> Seq<VertexAttribute> {
    seq![
        VertexAttribute { format: VertexFormat::Float32x3, offset: 0, shader_location: 0 },
        VertexAttribute { format: VertexFormat::Float32x2, offset: 12, shader_location: 1 },
    ]
}

/// The attributes lie back to back from offset 0, feed the shader inputs
/// 0, 1, 2 and so on, and fill `stride` bytes.
pub open spec fn tightly_packed(attributes: Seq<VertexAttribute>, stride: int) -> bool
    decreases attributes.len(),
{
    if attributes.len() == 0 {
        stride == 0
    } else {
        let last = attributes.last();
        &&& last.shader_location == attributes.len() - 1
        &&& last.offset + last.format.size() == stride
        &&& tightly_packed(attributes.drop_last(), last.offset as int)
    }
}

impl VertexBufferLayout {
    /// This layout reads vertex records as `Vertex::desc` describes them.
    pub open spec fn reads_vertices(&self) -> bool {
        &&& self.array_stride == VERTEX_SIZE
        &&& self.step_mode == VertexStepMode::Vertex
        &&& self.attributes@ == vertex_attributes()
    }

    /// Whether this layout is the one of `Vertex::desc`.
    pub fn is_vertex_layout(&self) -> (same: bool)
        ensures
            same == self.reads_vertices(),
    {
        if self.array_stride != VERTEX_SIZE || self.attributes.len() != 2 {
            return false;
        }
        let per_vertex = match self.step_mode {
            VertexStepMode::Vertex => true,
            VertexStepMode::Instance => false,
        };
        let position = self.attributes[0];
        let tex_coords = self.attributes[1];
        let position_fits = match position.format {
            VertexFormat::Float32x3 => position.offset == 0 && position.shader_location == 0,
            VertexFormat::Float32x2 => false,
        };
        let tex_coords_fit = match tex_coords.format {
            VertexFormat::Float32x2 => tex_coords.offset == 12 && tex_coords.shader_location == 1,
            VertexFormat::Float32x3 => false,
        };
        proof {
            if per_vertex && position_fits && tex_coords_fit {
                assert(self.attributes@ =~= vertex_attributes());
            }
        }
        per_vertex && position_fits && tex_coords_fit
    }
}

impl Vertex {
    /// How a buffer of vertices is read: one record of `VERTEX_SIZE` bytes
    /// per vertex, the position at offset 0 for shader input 0, the texture
    /// coordinate at offset 12 for shader input 1.
    pub fn desc() -> (layout: VertexBufferLayout)
        ensures
            layout.reads_vertices(),
            layout.array_stride == 20,
            layout.attributes@.len() == 2,
    {
        let mut attributes: Vec<VertexAttribute> = Vec::new();
        attributes.push(
            VertexAttribute { format: VertexFormat::Float32x3, offset: 0, shader_location: 0 },
        );
        attributes.push(
            VertexAttribute {
                format: VertexFormat::Float32x2,
                offset: VertexFormat::Float32x3.size(),
                shader_location: 1,
            },
        );
        assert(attributes@ =~= vertex_attributes());
        VertexBufferLayout { array_stride: VERTEX_SIZE, step_mode: VertexStepMode::Vertex, attributes }
    }
}

/// The attributes of a vertex record leave no gap and fill the record.
pub proof fn lemma_vertex_record_is_packed()
    ensures
        tightly_packed(vertex_attributes(), VERTEX_SIZE as int),
{
    let first = vertex_attributes().drop_last();
    assert(first.last() == vertex_attributes()[0]);
    reveal_with_fuel(tightly_packed, 3);
}

/// How a buffer may be used, as a set of bits with the GPU interface's bit
/// values.
#[derive(Clone, Copy, Debug, PartialEq, Eq, Structural)]
pub struct BufferUsages {
    pub bits: u32,
}

/// The buffer holds indices.
pub const BUFFER_USAGE_INDEX: u32 = 16;

/// The buffer holds vertices.
pub const BUFFER_USAGE_VERTEX: u32 = 32;

/// Width of the indices in an index buffer.
#[derive(Clone, Copy, Debug, PartialEq, Eq, Structural)]
pub enum IndexFormat {
    Uint16,
    Uint32,
}

/// Bytes of one index element.
pub const INDEX_SIZE: usize = 2;

/// The low byte of every value followed by its high byte.
pub open spec fn little_endian_bytes(values: Seq<u16>) -> Seq<u8> {
    Seq::new(
        2 * values.len(),
        |i: int|
            if i % 2 == 0 {
                (values[i / 2] % 256) as u8
            } else {
                (values[i / 2] / 256) as u8
            },
    )
}

/// The high byte of every value followed by its low byte.
pub open spec fn big_endian_bytes(values: Seq<u16>) -> Seq<u8> {
    Seq::new(
        2 * values.len(),
        |i: int|
            if i % 2 == 0 {
                (values[i / 2] / 256) as u8
            } else {
                (values[i / 2] % 256) as u8
            },
    )
}

/// Calls `bytemuck::cast_slice` to read 16-bit indices as the bytes they
/// occupy in memory. The cast to bytes cannot fail: bytes need no alignment
/// and every length in bytes is whole. There are two bytes per index, in
/// the byte order of the machine, which is one of two.
#[verifier::external_body]
fn index_data<'a>(indices: &'a [u16]) -> (bytes: &'a [u8])
    ensures
        bytes@ == little_endian_bytes(indices@) || bytes@ == big_endian_bytes(indices@),
{
    bytemuck::cast_slice(indices)
}

/// The indices form whole triangles, their number fits a draw call, and
/// every index names a vertex.
pub open spec fn valid_geometry(vertex_count: nat, indices: Seq<u16>) -> bool {
    &&& indices.len() <= u32::MAX
    &&& indices.len() % 3 == 0
    &&& forall|i: int| 0 <= i < indices.len() ==> (#[trigger] indices[i] as nat) < vertex_count
}

/// `position` is the first place in `indices` that names no vertex.
pub open spec fn first_out_of_range(vertex_count: nat, indices: Seq<u16>, position: int) -> bool {
    &&& 0 <= position < indices.len()
    &&& indices[position] as nat >= vertex_count
    &&& forall|j: int| 0 <= j < position ==> (#[trigger] indices[j] as nat) < vertex_count
}

/// Why vertex and index data do not make a triangle list.
#[derive(Clone, Copy, Debug, PartialEq, Eq, Structural)]
pub enum GeometryError {
    /// More indices than one draw call can count.
    TooManyIndices,
    /// The number of indices is not a multiple of three.
    IncompleteTriangle,
    /// The index at `position` is not below the number of vertices; no
    /// earlier index is at fault.
    IndexOutOfRange { position: usize },
}

/// Vertex and index data of a triangle list, fixed once made.
pub struct GeometryBuffer {
    vertices: Vec<Vertex>,
    indices: Vec<u16>,
}

impl GeometryBuffer {
    #[verifier::type_invariant]
    spec fn inv(self) -> bool {
        valid_geometry(self.vertices@.len(), self.indices@)
    }

    /// The vertex data.
    pub closed spec fn vertices(&self) -> Seq<Vertex> {
        self.vertices@
    }

    /// The index data.
    pub closed spec fn indices(&self) -> Seq<u16> {
        self.indices@
    }

    /// The data is a valid triangle list.
    pub open spec fn wf(&self) -> bool {
        valid_geometry(self.vertices().len(), self.indices())
    }

    /// Bytes that the index data occupies.
    pub open spec fn spec_index_byte_len(&self) -> nat {
        INDEX_SIZE as nat * self.indices().len()
    }

    /// Takes vertex and index data, provided they make a triangle list. The
    /// first fault found is reported: too many indices, then a number of
    /// indices that leaves a triangle open, then the first index that names
    /// no vertex.
    pub fn create(vertices: Vec<Vertex>, indices: Vec<u16>) -> (made: Result<
        GeometryBuffer,
        GeometryError,
    >)
        ensures
            match made {
                Ok(geometry) => {
                    &&& valid_geometry(vertices@.len(), indices@)
                    &&& geometry.wf()
                    &&& geometry.vertices() == vertices@
                    &&& geometry.indices() == indices@
                },
                Err(GeometryError::TooManyIndices) => indices.len() > u32::MAX,
                Err(GeometryError::IncompleteTriangle) => {
                    &&& indices.len() <= u32::MAX
                    &&& indices.len() % 3 != 0
                },
                Err(GeometryError::IndexOutOfRange { position }) => {
                    &&& indices.len() <= u32::MAX
                    &&& indices.len() % 3 == 0
                    &&& first_out_of_range(vertices@.len(), indices@, position as int)
                },
            },
    {
        if indices.len() > u32::MAX as usize {
            return Err(GeometryError::TooManyIndices);
        }
        if indices.len() % 3 != 0 {
            return Err(GeometryError::IncompleteTriangle);
        }
        let mut i: usize = 0;
        while i < indices.len()
            invariant
                i <= indices.len(),
                indices.len() <= u32::MAX,
                indices.len() % 3 == 0,
                forall|j: int| 0 <= j < i ==> (#[trigger] indices[j] as nat) < vertices@.len(),
            decreases indices.len() - i,
        {
            if indices[i] as usize >= vertices.len() {
                return Err(GeometryError::IndexOutOfRange { position: i });
            }
            i += 1;
        }
        Ok(GeometryBuffer { vertices, indices })
    }

    /// The vertex data, in the order given.
    pub fn vertex_data(&self) -> (data: &Vec<Vertex>)
        ensures
            data@ == self.vertices(),
    {
        &self.vertices
    }

    /// The index data, in the order given.
    pub fn index_values(&self) -> (data: &Vec<u16>)
        ensures
            data@ == self.indices(),
            self.wf(),
    {
        proof {
            use_type_invariant(self);
        }
        &self.indices
    }

    /// How many vertices there are.
    pub fn vertex_count(&self) -> (count: usize)
        ensures
            count == self.vertices().len(),
    {
        self.vertices.len()
    }

    /// The bytes of the index buffer: the indices as they lie in memory.
    pub fn index_bytes(&self) -> (bytes: &[u8])
        ensures
            bytes@ == little_endian_bytes(self.indices()) || bytes@ == big_endian_bytes(
                self.indices(),
            ),
            bytes@.len() == self.spec_index_byte_len(),
    {
        index_data(self.indices.as_slice())
    }

    /// Bytes of the index buffer.
    pub fn index_byte_len(&self) -> (len: usize)
        ensures
            len == self.spec_index_byte_len(),
            len == INDEX_SIZE * self.indices().len(),
    {
        self.index_bytes().len()
    }

    /// How the vertex buffer is used.
    pub fn vertex_usage(&self) -> (usage: BufferUsages)
        ensures
            usage.bits == BUFFER_USAGE_VERTEX,
    {
        BufferUsages { bits: BUFFER_USAGE_VERTEX }
    }

    /// How the index buffer is used.
    pub fn index_usage(&self) -> (usage: BufferUsages)
        ensures
            usage.bits == BUFFER_USAGE_INDEX,
    {
        BufferUsages { bits: BUFFER_USAGE_INDEX }
    }

    /// Width of the indices.
    pub fn index_format(&self) -> (format: IndexFormat)
        ensures
            format == IndexFormat::Uint16,
    {
        IndexFormat::Uint16
    }

    /// The number of indices to draw: the index buffer's length in bytes
    /// over the size of one index. It follows the data and is kept nowhere.
    pub fn draw_index_count(&self) -> (count: u32)
        ensures
            count == self.spec_index_byte_len() / INDEX_SIZE as nat,
            count == self.indices().len(),
            count % 3 == 0,
    {
        proof {
            use_type_invariant(self);
        }
        let bytes = self.index_byte_len();
        (bytes / INDEX_SIZE) as u32
    }
}

/// The texture coordinate and position of the pentagon's corners, in the
/// order A, B, C, D, E.
pub open spec fn pentagon_vertices() -> Seq<Vertex> {
    seq![
        Vertex {
            position: Float32x3 { x: 0xBDB1_D0D5, y: 0x3EFC_1C5C, z: 0 },
            tex_coords: Float32x2 { x: 0x3ED3_8BCB, y: 0x3BF8_E900 },
        },
        Vertex {
            position: Float32x3 { x: 0xBEFD_8236, y: 0x3D8E_835A, z: 0 },
            tex_coords: Float32x2 { x: 0x3B9F_7280, y: 0x3EDC_5F2A },
        },
        Vertex {
            position: Float32x3 { x: 0xBE60_7229, y: 0xBEE6_175F, z: 0 },
            tex_coords: Float32x2 { x: 0x3E8F_C6EC, y: 0x3F73_0BB0 },
        },
        Vertex {
            position: Float32x3 { x: 0x3EB8_26AA, y: 0xBEB1_D51F, z: 0 },
            tex_coords: Float32x2 { x: 0x3F5C_1355, y: 0x3F58_EA8F },
        },
        Vertex {
            position: Float32x3 { x: 0x3EE2_08D8, y: 0x3E70_5E9C, z: 0 },
            tex_coords: Float32x2 { x: 0x3F71_046C, y: 0x3E87_D0B2 },
        },
    ]
}

/// The pentagon as a fan of three triangles around corner E.
pub open spec fn pentagon_indices() -> Seq<u16> {
    seq![0u16, 1u16, 4u16, 1u16, 2u16, 4u16, 2u16, 3u16, 4u16]
}

/// The five corners of the pentagon.
pub fn pentagon_vertex_data() -> (vertices: Vec<Vertex>)
    ensures
        vertices@ == pentagon_vertices(),
{
    let mut vertices: Vec<Vertex> = Vec::new();
    vertices.push(
        Vertex {
            position: Float32x3 { x: 0xBDB1_D0D5, y: 0x3EFC_1C5C, z: 0 },
            tex_coords: Float32x2 { x: 0x3ED3_8BCB, y: 0x3BF8_E900 },
        },
    );
    vertices.push(
        Vertex {
            position: Float32x3 { x: 0xBEFD_8236, y: 0x3D8E_835A, z: 0 },
            tex_coords: Float32x2 { x: 0x3B9F_7280, y: 0x3EDC_5F2A },
        },
    );
    vertices.push(
        Vertex {
            position: Float32x3 { x: 0xBE60_7229, y: 0xBEE6_175F, z: 0 },
            tex_coords: Float32x2 { x: 0x3E8F_C6EC, y: 0x3F73_0BB0 },
        },
    );
    vertices.push(
        Vertex {
            position: Float32x3 { x: 0x3EB8_26AA, y: 0xBEB1_D51F, z: 0 },
            tex_coords: Float32x2 { x: 0x3F5C_1355, y: 0x3F58_EA8F },
        },
    );
    vertices.push(
        Vertex {
            position: Float32x3 { x: 0x3EE2_08D8, y: 0x3E70_5E9C, z: 0 },
            tex_coords: Float32x2 { x: 0x3F71_046C, y: 0x3E87_D0B2 },
        },
    );
    assert(vertices@ =~= pentagon_vertices());
    vertices
}

/// The nine indices of the pentagon's three triangles.
pub fn pentagon_index_data() -> (indices: Vec<u16>)
    ensures
        indices@ == pentagon_indices(),
{
    let mut indices: Vec<u16> = Vec::new();
    indices.push(0);
    indices.push(1);
    indices.push(4);
    indices.push(1);
    indices.push(2);
    indices.push(4);
    indices.push(2);
    indices.push(3);
    indices.push(4);
    assert(indices@ =~= pentagon_indices());
    indices
}

/// The pentagon is a valid triangle list.
pub proof fn lemma_pentagon_is_valid()
    ensures
        valid_geometry(pentagon_vertices().len(), pentagon_indices()),
        pentagon_vertices().len() == 5,
        pentagon_indices().len() == 9,
{
}

/// The geometry of the pentagon: five vertices, and nine indices in
/// eighteen bytes.
pub fn pentagon() -> (geometry: GeometryBuffer)
    ensures
        geometry.wf(),
        geometry.vertices() == pentagon_vertices(),
        geometry.indices() == pentagon_indices(),
        geometry.vertices().len() == 5,
        geometry.indices().len() == 9,
        geometry.spec_index_byte_len() == 18,
{
    let vertices = pentagon_vertex_data();
    let indices = pentagon_index_data();
    proof {
        lemma_pentagon_is_valid();
    }
    GeometryBuffer { vertices, indices }
}

} // verus!
