//! The triangle's vertex data, the layout that the vertex shader reads it
//! with, and the bytes that fill the vertex buffer.
//!
//! A component is an IEEE-754 single-precision value, held here by its bit
//! pattern, which is also what the GPU reads from the buffer.
use vstd::prelude::*;

verus! {

/// Bit pattern of the single-precision value zero.
pub const ZERO: u32 = 0x0000_0000;

/// Bit pattern of the single-precision value one.
pub const ONE: u32 = 0x3f80_0000;

/// Bit pattern of the single-precision value one half.
pub const HALF: u32 = 0x3f00_0000;

/// Bit pattern of the single-precision value minus one half.
pub const MINUS_HALF: u32 = 0xbf00_0000;

/// One corner of the triangle: a position in clip space and an RGB color,
/// each component given by its single-precision bit pattern.
#[derive(Clone, Copy, Debug)]
pub struct Vertex {
    pub position: [u32; 3],
    pub color: [u32; 3],
}

/// The three corners that are drawn, in order: a red top corner, a green
/// bottom-left corner and a blue bottom-right corner.
pub open spec fn triangle() -> Seq<Vertex> {
    seq![
        Vertex { position: [ZERO, HALF, ZERO], color: [ONE, ZERO, ZERO] },
        Vertex { position: [MINUS_HALF, MINUS_HALF, ZERO], color: [ZERO, ONE, ZERO] },
        Vertex { position: [HALF, MINUS_HALF, ZERO], color: [ZERO, ZERO, ONE] },
    ]
}

/// The triangle's vertices, in drawing order.
pub fn vertices() -> (r: Vec<Vertex>)
    ensures
        r@ == triangle(),
{
    let r = vec![
        Vertex { position: [ZERO, HALF, ZERO], color: [ONE, ZERO, ZERO] },
        Vertex { position: [MINUS_HALF, MINUS_HALF, ZERO], color: [ZERO, ONE, ZERO] },
        Vertex { position: [HALF, MINUS_HALF, ZERO], color: [ZERO, ZERO, ONE] },
    ];
    assert(r@ =~= triangle());
    r
}

/// The words of one vertex as they lie in memory: position, then color.
pub open spec fn vertex_words(v: Vertex) -> Seq<u32> {
    v.position@ + v.color@
}

/// The words of a sequence of vertices, one vertex after the other.
pub open spec fn flatten(vs: Seq<Vertex>) -> Seq<u32>
    decreases vs.len(),
{
    if vs.len() == 0 {
        seq![]
    } else {
        flatten(vs.drop_last()) + vertex_words(vs.last())
    }
}

/// Every vertex takes six words.
pub proof fn lemma_flatten_len(vs: Seq<Vertex>)
    ensures
        flatten(vs).len() == 6 * vs.len(),
    decreases vs.len(),
{
    if vs.len() > 0 {
        lemma_flatten_len(vs.drop_last());
    }
}

/// The words of `vs`, one vertex after the other.
pub fn to_words(vs: &Vec<Vertex>) -> (r: Vec<u32>)
    ensures
        r@ == flatten(vs@),
{
    let mut out: Vec<u32> = Vec::new();
    let mut i: usize = 0;
    while i < vs.len()
        invariant
            i <= vs@.len(),
            out@ == flatten(vs@.subrange(0, i as int)),
        decreases vs@.len() - i,
    {
        let v = vs[i];
        out.push(v.position[0]);
        out.push(v.position[1]);
        out.push(v.position[2]);
        out.push(v.color[0]);
        out.push(v.color[1]);
        out.push(v.color[2]);
        proof {
            let next = vs@.subrange(0, i + 1);
            assert(next.drop_last() =~= vs@.subrange(0, i as int));
            assert(next.last() == v);
            assert(vertex_words(v) =~= seq![
                v.position[0], v.position[1], v.position[2],
                v.color[0], v.color[1], v.color[2],
            ]);
            assert(out@ =~= flatten(next));
        }
        i = i + 1;
    }
    assert(vs@.subrange(0, vs@.len() as int) =~= vs@);
    out
}

/// The four bytes of `w`, least significant first.
pub open spec fn le_bytes(w: u32) -> Seq<u8> {
    seq![
        (w % 0x100) as u8,
        ((w / 0x100) % 0x100) as u8,
        ((w / 0x1_0000) % 0x100) as u8,
        (w / 0x100_0000) as u8,
    ]
}

/// The four bytes of `w`, most significant first.
pub open spec fn be_bytes(w: u32) -> Seq<u8> {
    seq![
        (w / 0x100_0000) as u8,
        ((w / 0x1_0000) % 0x100) as u8,
        ((w / 0x100) % 0x100) as u8,
        (w % 0x100) as u8,
    ]
}

/// The bytes of `ws`, word after word, each word least significant byte
/// first when `little` holds and most significant byte first otherwise.
pub open spec fn encode(ws: Seq<u32>, little: bool) -> Seq<u8>
    decreases ws.len(),
{
    if ws.len() == 0 {
        seq![]
    } else {
        encode(ws.drop_last(), little) + if little {
            le_bytes(ws.last())
        } else {
            be_bytes(ws.last())
        }
    }
}

/// Every word takes four bytes, in either byte order.
pub proof fn lemma_encode_len(ws: Seq<u32>, little: bool)
    ensures
        encode(ws, little).len() == 4 * ws.len(),
    decreases ws.len(),
{
    if ws.len() > 0 {
        lemma_encode_len(ws.drop_last(), little);
    }
}

/// Whether `bytes` is `ws` in memory on a machine of either byte order.
pub open spec fn is_native_encoding(bytes: Seq<u8>, ws: Seq<u32>) -> bool {
    bytes == encode(ws, true) || bytes == encode(ws, false)
}

/// Relies on bytemuck::cast_slice from `u32` to `u8`: it hands back the
/// memory of the words as bytes, so each word in the machine's byte order,
/// which is one order for all of them. The cast never fails, since a byte
/// has alignment one and divides every length.
#[verifier::external_body]
fn words_as_bytes(words: &[u32]) -> (r: Vec<u8>)
    ensures
        is_native_encoding(r@, words@),
{
    bytemuck::cast_slice::<u32, u8>(words).to_vec()
}

/// The contents of a vertex buffer that holds `vs`: the vertices' words,
/// in the machine's byte order.
pub fn vertex_buffer_contents(vs: &Vec<Vertex>) -> (r: Vec<u8>)
    ensures
        is_native_encoding(r@, flatten(vs@)),
        r@.len() == Vertex::stride() * vs@.len(),
{
    let words = to_words(vs);
    let r = words_as_bytes(words.as_slice());
    proof {
        lemma_buffer_fits_layout(vs@, r@);
    }
    r
}

/// How the vertex shader reads one attribute.
#[derive(Clone, Copy, Debug, PartialEq, Eq, Structural)]
pub enum VertexFormat {
    /// Three single-precision values.
    Float32x3,
}

impl VertexFormat {
    /// Bytes that one value of this format takes.
    pub open spec fn spec_size(self) -> nat {
        match self {
            VertexFormat::Float32x3 => 12,
        }
    }

    /// Bytes that one value of this format takes.
    pub fn size(self) -> (r: u64)
        ensures
            r == self.spec_size(),
    {
        match self {
            VertexFormat::Float32x3 => 12,
        }
    }
}

/// Whether the buffer advances once per vertex or once per instance.
#[derive(Clone, Copy, Debug, PartialEq, Eq, Structural)]
pub enum VertexStepMode {
    Vertex,
    Instance,
}

/// One attribute of a vertex: where it starts within the vertex, which
/// shader input receives it, and its format.
#[derive(Clone, Copy, Debug, PartialEq, Eq, Structural)]
pub struct VertexAttribute {
    pub offset: u64,
    pub shader_location: u32,
    pub format: VertexFormat,
}

/// How a vertex buffer is laid out: the distance from one vertex to the
/// next, the step mode, and the attributes within a vertex.
#[derive(Clone, Debug)]
pub struct VertexBufferLayout {
    pub array_stride: u64,
    pub step_mode: VertexStepMode,
    pub attributes: Vec<VertexAttribute>,
}

/// The attributes of a `Vertex`: the position at shader input 0, then the
/// color, right after it, at shader input 1.
pub open spec fn vertex_attributes() -> Seq<VertexAttribute> {
    seq![
        VertexAttribute { offset: 0, shader_location: 0, format: VertexFormat::Float32x3 },
        VertexAttribute { offset: 12, shader_location: 1, format: VertexFormat::Float32x3 },
    ]
}

/// Whether the attributes lie one right after the other from the start of
/// the vertex, fill it exactly, and feed shader inputs 0, 1, 2, ...
pub open spec fn is_packed(layout: VertexBufferLayout) -> bool {
    let attrs = layout.attributes@;
    &&& attrs.len() > 0
    &&& attrs[0].offset == 0
    &&& forall|i: int| 0 <= i < attrs.len() ==> #[trigger] attrs[i].shader_location == i
    &&& forall|i: int|
        0 <= i < attrs.len() - 1 ==> #[trigger] attrs[i + 1].offset == attrs[i].offset
            + attrs[i].format.spec_size()
    &&& layout.array_stride == attrs.last().offset + attrs.last().format.spec_size()
}

impl Vertex {
    /// Bytes from one vertex to the next in the buffer.
    pub open spec fn stride() -> nat {
        24
    }

    /// The layout of a buffer of vertices, one step per vertex.
    pub fn desc() -> (r: VertexBufferLayout)
        ensures
            r.array_stride == Vertex::stride(),
            r.step_mode == VertexStepMode::Vertex,
            r.attributes@ == vertex_attributes(),
            is_packed(r),
    {
        let position = VertexAttribute {
            offset: 0,
            shader_location: 0,
            format: VertexFormat::Float32x3,
        };
        let color = VertexAttribute {
            offset: position.format.size(),
            shader_location: 1,
            format: VertexFormat::Float32x3,
        };
        let r = VertexBufferLayout {
            array_stride: color.offset + color.format.size(),
            step_mode: VertexStepMode::Vertex,
            attributes: vec![position, color],
        };
        assert(r.attributes@ =~= vertex_attributes());
        r
    }
}

/// A buffer filled from `vs` holds exactly one stride of bytes for each
/// vertex, so the draw call's vertex count matches the buffer.
pub proof fn lemma_buffer_fits_layout(vs: Seq<Vertex>, bytes: Seq<u8>)
    requires
        is_native_encoding(bytes, flatten(vs)),
    ensures
        bytes.len() == Vertex::stride() * vs.len(),
{
    lemma_flatten_len(vs);
    lemma_encode_len(flatten(vs), true);
    lemma_encode_len(flatten(vs), false);
}

} // verus!
