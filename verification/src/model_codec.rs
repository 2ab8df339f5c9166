//! The binary model file format: a little-endian `u32` vertex count and
//! index count, the vertex records (position, normal and texture coordinates
//! as raw 32-bit fields), then the `u32` indices. No header tag, no version,
//! no endianness marker — the byte layout is fixed, so encoding and decoding
//! invert each other bit for bit.

use vstd::prelude::*;

verus! {

/// One vertex record of a model file. Each field holds the raw bit pattern
/// of one 32-bit field of the file (position x, y, z; normal x, y, z;
/// texture u, v); interpreting them as floating-point values is the
/// renderer's business.
#[derive(Clone, Copy, Debug, PartialEq, Eq, Structural)]
pub struct Vertex {
    pub px: u32,
    pub py: u32,
    pub pz: u32,
    pub nx: u32,
    pub ny: u32,
    pub nz: u32,
    pub tu: u32,
    pub tv: u32,
}

/// The four little-endian bytes of a 32-bit word.
pub open spec fn spec_le32(x: u32) -> Seq<u8> {
    seq![
        (x % 256) as u8,
        ((x / 256) % 256) as u8,
        ((x / 65536) % 256) as u8,
        ((x / 16777216) % 256) as u8,
    ]
}

/// The 32-bit word stored little-endian at an offset of a byte sequence.
pub open spec fn spec_u32_at(b: Seq<u8>, off: int) -> u32
    recommends
        0 <= off,
        off + 4 <= b.len(),
{
    (b[off] + 256 * (b[off + 1] as int) + 65536 * (b[off + 2] as int) + 16777216 * (b[off
        + 3] as int)) as u32
}

/// The 32 bytes of one vertex record: its eight fields, little-endian, in
/// file order.
pub open spec fn spec_vertex_bytes(v: Vertex) -> Seq<u8> {
    spec_le32(v.px) + spec_le32(v.py) + spec_le32(v.pz) + spec_le32(v.nx) + spec_le32(v.ny)
        + spec_le32(v.nz) + spec_le32(v.tu) + spec_le32(v.tv)
}

/// The vertex record at an offset of a byte sequence.
pub open spec fn spec_vertex_at(b: Seq<u8>, off: int) -> Vertex
    recommends
        0 <= off,
        off + 32 <= b.len(),
{
    Vertex {
        px: spec_u32_at(b, off),
        py: spec_u32_at(b, off + 4),
        pz: spec_u32_at(b, off + 8),
        nx: spec_u32_at(b, off + 12),
        ny: spec_u32_at(b, off + 16),
        nz: spec_u32_at(b, off + 20),
        tu: spec_u32_at(b, off + 24),
        tv: spec_u32_at(b, off + 28),
    }
}

/// The concatenated bytes of a run of vertex records.
pub open spec fn spec_vertices_bytes(vs: Seq<Vertex>) -> Seq<u8>
    decreases vs.len(),
{
    if vs.len() == 0 {
        Seq::<u8>::empty()
    } else {
        spec_vertices_bytes(vs.drop_last()) + spec_vertex_bytes(vs.last())
    }
}

/// The concatenated little-endian bytes of a run of indices.
pub open spec fn spec_indices_bytes(is: Seq<u32>) -> Seq<u8>
    decreases is.len(),
{
    if is.len() == 0 {
        Seq::<u8>::empty()
    } else {
        spec_indices_bytes(is.drop_last()) + spec_le32(is.last())
    }
}

/// The whole encoded model: both counts, the vertex records, the indices.
pub open spec fn spec_model_bytes(vs: Seq<Vertex>, is: Seq<u32>) -> Seq<u8> {
    spec_le32(vs.len() as u32) + spec_le32(is.len() as u32) + spec_vertices_bytes(vs)
        + spec_indices_bytes(is)
}

/// A run of vertex records occupies 32 bytes per record.
pub proof fn lemma_vertices_bytes_len(vs: Seq<Vertex>)
    ensures
        spec_vertices_bytes(vs).len() == 32 * vs.len(),
    decreases vs.len(),
{
    if vs.len() > 0 {
        lemma_vertices_bytes_len(vs.drop_last());
    }
}

/// A run of indices occupies 4 bytes per index.
pub proof fn lemma_indices_bytes_len(is: Seq<u32>)
    ensures
        spec_indices_bytes(is).len() == 4 * is.len(),
    decreases is.len(),
{
    if is.len() > 0 {
        lemma_indices_bytes_len(is.drop_last());
    }
}

/// Within a run of vertex records, the bytes of the k-th record start at
/// byte 32 k.
pub proof fn lemma_vertices_bytes_index(vs: Seq<Vertex>, k: int, j: int)
    requires
        0 <= k < vs.len(),
        0 <= j < 32,
    ensures
        spec_vertices_bytes(vs)[32 * k + j] == spec_vertex_bytes(vs[k])[j],
    decreases vs.len(),
{
    lemma_vertices_bytes_len(vs);
    lemma_vertices_bytes_len(vs.drop_last());
    if k == vs.len() - 1 {
    } else {
        lemma_vertices_bytes_index(vs.drop_last(), k, j);
    }
}

/// Within a run of indices, the bytes of the k-th index start at byte 4 k.
pub proof fn lemma_indices_bytes_index(is: Seq<u32>, k: int, j: int)
    requires
        0 <= k < is.len(),
        0 <= j < 4,
    ensures
        spec_indices_bytes(is)[4 * k + j] == spec_le32(is[k])[j],
    decreases is.len(),
{
    lemma_indices_bytes_len(is);
    lemma_indices_bytes_len(is.drop_last());
    if k == is.len() - 1 {
    } else {
        lemma_indices_bytes_index(is.drop_last(), k, j);
    }
}

/// Reading the four little-endian bytes of a word back gives the word.
pub proof fn lemma_le32_round_trip(x: u32)
    ensures
        spec_u32_at(spec_le32(x), 0) == x,
{
    assert(x % 256u32 + 256u32 * ((x / 256u32) % 256u32) + 65536u32 * ((x / 65536u32) % 256u32)
        + 16777216u32 * ((x / 16777216u32) % 256u32) == x) by (bit_vector);
}

/// Reading a word out of a longer sequence sees only its four bytes.
pub proof fn lemma_u32_at_subrange(b: Seq<u8>, off: int, x: u32)
    requires
        0 <= off,
        off + 4 <= b.len(),
        forall|j: int| 0 <= j < 4 ==> b[off + j] == spec_le32(x)[j],
    ensures
        spec_u32_at(b, off) == x,
{
    lemma_le32_round_trip(x);
}

/// Appends the four little-endian bytes of a word.
fn push_le32(out: &mut Vec<u8>, x: u32)
    ensures
        final(out)@ =~= old(out)@ + spec_le32(x),
{
    proof {
        assert(x & 0xFFu32 == x % 256u32 && (x >> 8u32) & 0xFFu32 == (x / 256u32) % 256u32 && (x
            >> 16u32) & 0xFFu32 == (x / 65536u32) % 256u32 && (x >> 24u32) & 0xFFu32 == (x
            / 16777216u32) % 256u32 && x % 256u32 < 256u32 && (x / 256u32) % 256u32 < 256u32 && (x
            / 65536u32) % 256u32 < 256u32 && (x / 16777216u32) % 256u32 < 256u32) by (bit_vector);
    }
    out.push((x & 0xFF) as u8);
    out.push(((x >> 8) & 0xFF) as u8);
    out.push(((x >> 16) & 0xFF) as u8);
    out.push(((x >> 24) & 0xFF) as u8);
}

/// The word stored little-endian at the given offset.
fn read_le32(bytes: &Vec<u8>, off: usize) -> (r: u32)
    requires
        off + 4 <= bytes@.len(),
    ensures
        r == spec_u32_at(bytes@, off as int),
{
    let n = bytes.len();
    let b0: u32 = bytes[off] as u32;
    let b1: u32 = bytes[off + 1] as u32;
    let b2: u32 = bytes[off + 2] as u32;
    let b3: u32 = bytes[off + 3] as u32;
    proof {
        assert(b0 | (b1 << 8u32) | (b2 << 16u32) | (b3 << 24u32) == (b0 + 256u32 * b1 + 65536u32
            * b2 + 16777216u32 * b3) as u32) by (bit_vector)
            requires
                b0 < 256u32 && b1 < 256u32 && b2 < 256u32 && b3 < 256u32,
        ;
    }
    b0 | (b1 << 8) | (b2 << 16) | (b3 << 24)
}

/// Encodes vertices and indices into the model file byte layout.
#[verifier::rlimit(60)]
pub fn encode_model(vertices: &Vec<Vertex>, indices: &Vec<u32>) -> (out: Vec<u8>)
    requires
        vertices@.len() < 0x100000000,
        indices@.len() < 0x100000000,
    ensures
        out@ =~= spec_model_bytes(vertices@, indices@),
{
    let mut out: Vec<u8> = Vec::new();
    push_le32(&mut out, vertices.len() as u32);
    push_le32(&mut out, indices.len() as u32);

    let vn = vertices.len();
    for k in 0..vn
        invariant
            vn == vertices@.len(),
            vertices@.len() < 0x100000000,
            indices@.len() < 0x100000000,
            out@ =~= spec_le32(vertices@.len() as u32) + spec_le32(indices@.len() as u32)
                + spec_vertices_bytes(vertices@.take(k as int)),
    {
        let v = vertices[k];
        push_le32(&mut out, v.px);
        push_le32(&mut out, v.py);
        push_le32(&mut out, v.pz);
        push_le32(&mut out, v.nx);
        push_le32(&mut out, v.ny);
        push_le32(&mut out, v.nz);
        push_le32(&mut out, v.tu);
        push_le32(&mut out, v.tv);
        proof {
            assert(vertices@.take(k + 1).drop_last() =~= vertices@.take(k as int));
            assert(vertices@.take(k + 1).last() == v);
        }
    }
    proof {
        assert(vertices@.take(vn as int) =~= vertices@);
    }

    let tn = indices.len();
    for k in 0..tn
        invariant
            vn == vertices@.len(),
            tn == indices@.len(),
            vertices@.len() < 0x100000000,
            indices@.len() < 0x100000000,
            out@ =~= spec_le32(vertices@.len() as u32) + spec_le32(indices@.len() as u32)
                + spec_vertices_bytes(vertices@) + spec_indices_bytes(indices@.take(k as int)),
    {
        push_le32(&mut out, indices[k]);
        proof {
            assert(indices@.take(k + 1).drop_last() =~= indices@.take(k as int));
            assert(indices@.take(k + 1).last() == indices@[k as int]);
        }
    }
    proof {
        assert(indices@.take(tn as int) =~= indices@);
    }
    out
}

/// Decodes a model file: the two counts, then that many vertex records and
/// indices. Succeeds exactly when the data is long enough for its own
/// counts; bytes after the model are ignored, as the loader ignores them.
#[verifier::rlimit(60)]
pub fn decode_model(bytes: &Vec<u8>) -> (r: Option<(Vec<Vertex>, Vec<u32>)>)
    ensures
        ({
            let n = bytes@.len() as int;
            if n < 8 {
                r is None
            } else {
                let vc = spec_u32_at(bytes@, 0) as int;
                let ic = spec_u32_at(bytes@, 4) as int;
                if n < 8 + 32 * vc + 4 * ic {
                    r is None
                } else {
                    match r {
                        Option::None => false,
                        Option::Some((vs, is)) => {
                            &&& vs@.len() == vc
                            &&& is@.len() == ic
                            &&& forall|k: int|
                                0 <= k < vc ==> vs@[k] == spec_vertex_at(bytes@, 8 + 32 * k)
                            &&& forall|k: int|
                                0 <= k < ic ==> is@[k] == spec_u32_at(bytes@, 8 + 32 * vc + 4 * k)
                        },
                    }
                }
            }
        }),
{
    if bytes.len() < 8 {
        return None;
    }
    let vc = read_le32(bytes, 0);
    let ic = read_le32(bytes, 4);
    let needed: u64 = 8u64 + 32u64 * (vc as u64) + 4u64 * (ic as u64);
    if (bytes.len() as u64) < needed {
        return None;
    }

    let mut vertices: Vec<Vertex> = Vec::new();
    let mut indices: Vec<u32> = Vec::new();
    let nlen = bytes.len();

    for k in 0..(vc as usize)
        invariant
            nlen == bytes@.len(),
            bytes@.len() as int >= 8 + 32 * (vc as int) + 4 * (ic as int),
            vc == spec_u32_at(bytes@, 0),
            ic == spec_u32_at(bytes@, 4),
            vertices@.len() == k,
            forall|t: int| 0 <= t < k ==> vertices@[t] == spec_vertex_at(bytes@, 8 + 32 * t),
    {
        let base: usize = 8 + 32 * k;
        let v = Vertex {
            px: read_le32(bytes, base),
            py: read_le32(bytes, base + 4),
            pz: read_le32(bytes, base + 8),
            nx: read_le32(bytes, base + 12),
            ny: read_le32(bytes, base + 16),
            nz: read_le32(bytes, base + 20),
            tu: read_le32(bytes, base + 24),
            tv: read_le32(bytes, base + 28),
        };
        vertices.push(v);
    }

    for k in 0..(ic as usize)
        invariant
            nlen == bytes@.len(),
            bytes@.len() as int >= 8 + 32 * (vc as int) + 4 * (ic as int),
            vc == spec_u32_at(bytes@, 0),
            ic == spec_u32_at(bytes@, 4),
            indices@.len() == k,
            forall|t: int|
                0 <= t < k ==> indices@[t] == spec_u32_at(bytes@, 8 + 32 * (vc as int) + 4 * t),
    {
        let base: usize = 8 + 32 * (vc as usize) + 4 * k;
        indices.push(read_le32(bytes, base));
    }

    Some((vertices, indices))
}

/// A vertex read back from its own 32 bytes, wherever they sit in a longer
/// sequence, is the vertex.
#[verifier::spinoff_prover]
proof fn lemma_vertex_at_of_bytes(b: Seq<u8>, off: int, v: Vertex)
    requires
        0 <= off,
        off + 32 <= b.len(),
        forall|j: int| 0 <= j < 32 ==> b[off + j] == spec_vertex_bytes(v)[j],
    ensures
        spec_vertex_at(b, off) == v,
{
    assert forall|j: int| 0 <= j < 4 implies b[off + j] == spec_le32(v.px)[j] by {
        assert(spec_vertex_bytes(v)[j] == spec_le32(v.px)[j]);
    }
    assert forall|j: int| 0 <= j < 4 implies b[off + 4 + j] == spec_le32(v.py)[j] by {
        assert(spec_vertex_bytes(v)[4 + j] == spec_le32(v.py)[j]);
        assert(b[off + (4 + j)] == spec_vertex_bytes(v)[4 + j]);
    }
    assert forall|j: int| 0 <= j < 4 implies b[off + 8 + j] == spec_le32(v.pz)[j] by {
        assert(spec_vertex_bytes(v)[8 + j] == spec_le32(v.pz)[j]);
        assert(b[off + (8 + j)] == spec_vertex_bytes(v)[8 + j]);
    }
    assert forall|j: int| 0 <= j < 4 implies b[off + 12 + j] == spec_le32(v.nx)[j] by {
        assert(spec_vertex_bytes(v)[12 + j] == spec_le32(v.nx)[j]);
        assert(b[off + (12 + j)] == spec_vertex_bytes(v)[12 + j]);
    }
    assert forall|j: int| 0 <= j < 4 implies b[off + 16 + j] == spec_le32(v.ny)[j] by {
        assert(spec_vertex_bytes(v)[16 + j] == spec_le32(v.ny)[j]);
        assert(b[off + (16 + j)] == spec_vertex_bytes(v)[16 + j]);
    }
    assert forall|j: int| 0 <= j < 4 implies b[off + 20 + j] == spec_le32(v.nz)[j] by {
        assert(spec_vertex_bytes(v)[20 + j] == spec_le32(v.nz)[j]);
        assert(b[off + (20 + j)] == spec_vertex_bytes(v)[20 + j]);
    }
    assert forall|j: int| 0 <= j < 4 implies b[off + 24 + j] == spec_le32(v.tu)[j] by {
        assert(spec_vertex_bytes(v)[24 + j] == spec_le32(v.tu)[j]);
        assert(b[off + (24 + j)] == spec_vertex_bytes(v)[24 + j]);
    }
    assert forall|j: int| 0 <= j < 4 implies b[off + 28 + j] == spec_le32(v.tv)[j] by {
        assert(spec_vertex_bytes(v)[28 + j] == spec_le32(v.tv)[j]);
        assert(b[off + (28 + j)] == spec_vertex_bytes(v)[28 + j]);
    }
    lemma_u32_at_subrange(b, off, v.px);
    lemma_u32_at_subrange(b, off + 4, v.py);
    lemma_u32_at_subrange(b, off + 8, v.pz);
    lemma_u32_at_subrange(b, off + 12, v.nx);
    lemma_u32_at_subrange(b, off + 16, v.ny);
    lemma_u32_at_subrange(b, off + 20, v.nz);
    lemma_u32_at_subrange(b, off + 24, v.tu);
    lemma_u32_at_subrange(b, off + 28, v.tv);
}

/// The model byte layout inverts exactly: every count, vertex field and
/// index read back from an encoded model is the value that was encoded.
#[verifier::rlimit(100)]
#[verifier::spinoff_prover]
pub proof fn lemma_model_bytes_round_trip(vs: Seq<Vertex>, is: Seq<u32>)
    requires
        vs.len() < 0x100000000,
        is.len() < 0x100000000,
    ensures
        ({
            let b = spec_model_bytes(vs, is);
            &&& b.len() == 8 + 32 * vs.len() + 4 * is.len()
            &&& spec_u32_at(b, 0) as int == vs.len()
            &&& spec_u32_at(b, 4) as int == is.len()
            &&& forall|k: int| 0 <= k < vs.len() ==> spec_vertex_at(b, 8 + 32 * k) == vs[k]
            &&& forall|k: int|
                0 <= k < is.len() ==> spec_u32_at(b, 8 + 32 * vs.len() + 4 * k) == is[k]
        }),
{
    let b = spec_model_bytes(vs, is);
    lemma_vertices_bytes_len(vs);
    lemma_indices_bytes_len(is);
    lemma_le32_round_trip(vs.len() as u32);
    lemma_le32_round_trip(is.len() as u32);
    assert(spec_u32_at(b, 0) as int == vs.len()) by {
        lemma_u32_at_subrange(b, 0, vs.len() as u32);
    }
    assert(spec_u32_at(b, 4) as int == is.len()) by {
        lemma_u32_at_subrange(b, 4, is.len() as u32);
    }
    assert forall|k: int| 0 <= k < vs.len() implies spec_vertex_at(b, 8 + 32 * k) == vs[k] by {
        assert forall|j: int| 0 <= j < 32 implies b[8 + 32 * k + j] == spec_vertex_bytes(vs[k])[j] by {
            lemma_vertices_bytes_index(vs, k, j);
        }
        lemma_vertex_at_of_bytes(b, 8 + 32 * k, vs[k]);
    }
    assert forall|k: int|
        0 <= k < is.len() implies spec_u32_at(b, 8 + 32 * vs.len() + 4 * k) == is[k] by {
        assert forall|j: int| 0 <= j < 4 implies b[8 + 32 * vs.len() + 4 * k + j] == spec_le32(
            is[k],
        )[j] by {
            lemma_indices_bytes_index(is, k, j);
        }
        lemma_le32_round_trip(is[k]);
        lemma_u32_at_subrange(b, 8 + 32 * vs.len() + 4 * k, is[k]);
    }
}

} // verus!
