//! The GPU interop boundary.
//!
//! Two serialization adapters translate host records into the byte layout the
//! GPU kernel expects: a fixed-record adapter for the per-frame globals, and a
//! variable-length adapter for an ordered sequence of uniform elements
//! prefixed by an explicit element count.  Scalars are packed tightly,
//! two-component vectors are aligned to an 8-byte boundary, four-component
//! slots to a 16-byte boundary, and the fixed record is padded to the
//! alignment of its largest member.  Field order and padding must match the
//! kernel's declared layout exactly; the decoding spec and the round-trip
//! proof pin the layout down on this side.

use vstd::prelude::*;
use crate::bigfloat::ReducedComplex;
use crate::orbit::ReferenceOrbit;

verus! {

/// The little-endian bytes of a 32-bit value.
pub open spec fn u32_le(x: u32) -> Seq<u8> {
    seq![
        (x & 0xff) as u8,
        ((x >> 8) & 0xff) as u8,
        ((x >> 16) & 0xff) as u8,
        ((x >> 24) & 0xff) as u8,
    ]
}

/// Four bytes of alignment padding.
pub open spec fn pad4() -> Seq<u8> {
    seq![0u8, 0u8, 0u8, 0u8]
}

/// A two-component vector: the two bit patterns, tightly packed.
pub open spec fn vec2_bytes(v: ReducedComplex) -> Seq<u8> {
    u32_le(v.re_bits) + u32_le(v.im_bits)
}

/// One coefficient in its four-wide slot: the real and imaginary lanes
/// followed by two padding lanes demanded by vector alignment.
pub open spec fn vec4_slot(v: ReducedComplex) -> Seq<u8> {
    vec2_bytes(v) + pad4() + pad4()
}

/// The 32-bit value read back from four little-endian bytes.
pub open spec fn u32_from_le(b0: u8, b1: u8, b2: u8, b3: u8) -> u32 {
    (b0 as u32) | ((b1 as u32) << 8) | ((b2 as u32) << 16) | ((b3 as u32) << 24)
}

/// A value whose serialized form is pinned byte for byte.
pub trait Storable {
    /// The exact bytes this value serializes to.
    spec fn bytes_spec(&self) -> Seq<u8>;

    /// What must hold of the value for serialization (machine limits only).
    spec fn storable_wf(&self) -> bool;

    /// Serializes the value; always succeeds on well-formed input.
    fn into_bytes(&self) -> (r: Vec<u8>)
        requires
            self.storable_wf(),
        ensures
            r@ == self.bytes_spec(),
    ;
}

/// The per-frame globals record consumed by the GPU kernel, every lane held
/// as the bit pattern of its single-precision value.
#[derive(Clone, Copy, PartialEq, Eq, Structural, Debug)]
pub struct Globals {
    pub time_bits: u32,
    pub scale_bits: u32,
    pub radius_bits: u32,
    pub center: ReducedComplex,
    pub orbit_offset: ReducedComplex,
    pub coeff_a: ReducedComplex,
    pub coeff_b: ReducedComplex,
    pub coeff_c: ReducedComplex,
    pub coeff_d: ReducedComplex,
}

/// The fixed record layout: three tightly packed scalars, padding up to the
/// 8-byte boundary of the first vector, the two offset vectors, and the four
/// coefficients in 16-byte slots; 96 bytes in all.
pub open spec fn globals_bytes(g: Globals) -> Seq<u8> {
    u32_le(g.time_bits) + u32_le(g.scale_bits) + u32_le(g.radius_bits) + pad4() + vec2_bytes(
        g.center,
    ) + vec2_bytes(g.orbit_offset) + vec4_slot(g.coeff_a) + vec4_slot(g.coeff_b) + vec4_slot(
        g.coeff_c,
    ) + vec4_slot(g.coeff_d)
}

/// The fields read back from a 96-byte record under the declared layout.
pub open spec fn decoded_globals(b: Seq<u8>) -> Globals {
    Globals {
        time_bits: u32_from_le(b[0], b[1], b[2], b[3]),
        scale_bits: u32_from_le(b[4], b[5], b[6], b[7]),
        radius_bits: u32_from_le(b[8], b[9], b[10], b[11]),
        center: ReducedComplex {
            re_bits: u32_from_le(b[16], b[17], b[18], b[19]),
            im_bits: u32_from_le(b[20], b[21], b[22], b[23]),
        },
        orbit_offset: ReducedComplex {
            re_bits: u32_from_le(b[24], b[25], b[26], b[27]),
            im_bits: u32_from_le(b[28], b[29], b[30], b[31]),
        },
        coeff_a: ReducedComplex {
            re_bits: u32_from_le(b[32], b[33], b[34], b[35]),
            im_bits: u32_from_le(b[36], b[37], b[38], b[39]),
        },
        coeff_b: ReducedComplex {
            re_bits: u32_from_le(b[48], b[49], b[50], b[51]),
            im_bits: u32_from_le(b[52], b[53], b[54], b[55]),
        },
        coeff_c: ReducedComplex {
            re_bits: u32_from_le(b[64], b[65], b[66], b[67]),
            im_bits: u32_from_le(b[68], b[69], b[70], b[71]),
        },
        coeff_d: ReducedComplex {
            re_bits: u32_from_le(b[80], b[81], b[82], b[83]),
            im_bits: u32_from_le(b[84], b[85], b[86], b[87]),
        },
    }
}

/// Appends the little-endian bytes of `x`.
fn push_u32_le(v: &mut Vec<u8>, x: u32)
    ensures
        final(v)@ == old(v)@ + u32_le(x),
{
    assert((x & 0xff) < 256 && ((x >> 8) & 0xff) < 256 && ((x >> 16) & 0xff) < 256 && ((x >> 24)
        & 0xff) < 256) by (bit_vector);
    v.push((x & 0xff) as u8);
    v.push(((x >> 8) & 0xff) as u8);
    v.push(((x >> 16) & 0xff) as u8);
    v.push(((x >> 24) & 0xff) as u8);
    proof {
        assert(v@ =~= old(v)@ + u32_le(x));
    }
}

/// Appends four bytes of padding.
fn push_pad4(v: &mut Vec<u8>)
    ensures
        final(v)@ == old(v)@ + pad4(),
{
    v.push(0u8);
    v.push(0u8);
    v.push(0u8);
    v.push(0u8);
    proof {
        assert(v@ =~= old(v)@ + pad4());
    }
}

/// Appends a tightly packed two-component vector.
fn push_vec2(v: &mut Vec<u8>, p: ReducedComplex)
    ensures
        final(v)@ == old(v)@ + vec2_bytes(p),
{
    push_u32_le(v, p.re_bits);
    push_u32_le(v, p.im_bits);
    proof {
        assert(v@ =~= old(v)@ + vec2_bytes(p));
    }
}

/// Appends a coefficient in its four-wide slot.
fn push_vec4_slot(v: &mut Vec<u8>, p: ReducedComplex)
    ensures
        final(v)@ == old(v)@ + vec4_slot(p),
{
    push_vec2(v, p);
    push_pad4(v);
    push_pad4(v);
    proof {
        assert(v@ =~= old(v)@ + vec4_slot(p));
    }
}

impl Storable for Globals {
    open spec fn bytes_spec(&self) -> Seq<u8> {
        globals_bytes(*self)
    }

    open spec fn storable_wf(&self) -> bool {
        true
    }

    /// The fixed-record adapter.
    fn into_bytes(&self) -> (r: Vec<u8>) {
        let mut v: Vec<u8> = Vec::new();
        push_u32_le(&mut v, self.time_bits);
        push_u32_le(&mut v, self.scale_bits);
        push_u32_le(&mut v, self.radius_bits);
        push_pad4(&mut v);
        push_vec2(&mut v, self.center);
        push_vec2(&mut v, self.orbit_offset);
        push_vec4_slot(&mut v, self.coeff_a);
        push_vec4_slot(&mut v, self.coeff_b);
        push_vec4_slot(&mut v, self.coeff_c);
        push_vec4_slot(&mut v, self.coeff_d);
        proof {
            assert(v@ =~= globals_bytes(*self));
        }
        v
    }
}

/// Reads back the 32-bit value at `off`.
fn read_u32_le(v: &Vec<u8>, off: usize) -> (r: u32)
    requires
        off + 4 <= v@.len(),
    ensures
        r == u32_from_le(v@[off as int], v@[off + 1], v@[off + 2], v@[off + 3]),
{
    let n = v.len();
    let b0 = v[off];
    let b1 = v[off + 1];
    let b2 = v[off + 2];
    let b3 = v[off + 3];
    (b0 as u32) | ((b1 as u32) << 8) | ((b2 as u32) << 16) | ((b3 as u32) << 24)
}

/// Reinterprets a byte buffer under the declared record layout; succeeds
/// exactly on buffers of the record's size.
pub fn unpack_globals(v: &Vec<u8>) -> (r: Option<Globals>)
    ensures
        match r {
            Some(g) => v@.len() == 96 && g == decoded_globals(v@),
            None => v@.len() != 96,
        },
{
    if v.len() != 96 {
        return None;
    }
    Some(
        Globals {
            time_bits: read_u32_le(v, 0),
            scale_bits: read_u32_le(v, 4),
            radius_bits: read_u32_le(v, 8),
            center: ReducedComplex { re_bits: read_u32_le(v, 16), im_bits: read_u32_le(v, 20) },
            orbit_offset: ReducedComplex {
                re_bits: read_u32_le(v, 24),
                im_bits: read_u32_le(v, 28),
            },
            coeff_a: ReducedComplex { re_bits: read_u32_le(v, 32), im_bits: read_u32_le(v, 36) },
            coeff_b: ReducedComplex { re_bits: read_u32_le(v, 48), im_bits: read_u32_le(v, 52) },
            coeff_c: ReducedComplex { re_bits: read_u32_le(v, 64), im_bits: read_u32_le(v, 68) },
            coeff_d: ReducedComplex { re_bits: read_u32_le(v, 80), im_bits: read_u32_le(v, 84) },
        },
    )
}

/// Reading four little-endian bytes of a value gives the value back.
pub proof fn lemma_u32_le_roundtrip(x: u32)
    ensures
        u32_from_le(
            (x & 0xff) as u8,
            ((x >> 8) & 0xff) as u8,
            ((x >> 16) & 0xff) as u8,
            ((x >> 24) & 0xff) as u8,
        ) == x,
{
    assert((((x & 0xff) as u8) as u32) | ((((x >> 8) & 0xff) as u8) as u32) << 8 | ((((x >> 16)
        & 0xff) as u8) as u32) << 16 | ((((x >> 24) & 0xff) as u8) as u32) << 24 == x)
        by (bit_vector);
}

/// The packed record is 96 bytes — the 92 bytes of aligned field sizes plus
/// the 4 bytes of alignment padding before the first vector — and
/// reinterpreting those bytes under the declared layout reproduces every
/// field's original value exactly.
#[verifier::rlimit(100)]
pub proof fn lemma_globals_roundtrip(g: Globals)
    ensures
        globals_bytes(g).len() == 96,
        decoded_globals(globals_bytes(g)) == g,
{
    assert(globals_bytes(g).len() == 96);
    lemma_u32_le_roundtrip(g.time_bits);
    lemma_u32_le_roundtrip(g.scale_bits);
    lemma_u32_le_roundtrip(g.radius_bits);
    lemma_u32_le_roundtrip(g.center.re_bits);
    lemma_u32_le_roundtrip(g.center.im_bits);
    lemma_u32_le_roundtrip(g.orbit_offset.re_bits);
    lemma_u32_le_roundtrip(g.orbit_offset.im_bits);
    lemma_u32_le_roundtrip(g.coeff_a.re_bits);
    lemma_u32_le_roundtrip(g.coeff_a.im_bits);
    lemma_u32_le_roundtrip(g.coeff_b.re_bits);
    lemma_u32_le_roundtrip(g.coeff_b.im_bits);
    lemma_u32_le_roundtrip(g.coeff_c.re_bits);
    lemma_u32_le_roundtrip(g.coeff_c.im_bits);
    lemma_u32_le_roundtrip(g.coeff_d.re_bits);
    lemma_u32_le_roundtrip(g.coeff_d.im_bits);
    assert(decoded_globals(globals_bytes(g)) == g);
}

/// The bit pattern of single-precision one.
pub const ONE_BITS: u32 = 0x3F800000;

/// The bit pattern of single-precision negative one.
pub const NEG_ONE_BITS: u32 = 0xBF800000;

/// A full-screen-quad vertex: a three-component position and a two-component
/// texture coordinate, every lane held as its single-precision bit pattern
/// and packed tightly in this order.
#[derive(Clone, Copy, PartialEq, Eq, Structural, Debug)]
pub struct Vertex {
    pub x_bits: u32,
    pub y_bits: u32,
    pub z_bits: u32,
    pub u_bits: u32,
    pub v_bits: u32,
}

/// The 20 tightly packed bytes of one vertex.
pub open spec fn vertex_bytes(v: Vertex) -> Seq<u8> {
    u32_le(v.x_bits) + u32_le(v.y_bits) + u32_le(v.z_bits) + u32_le(v.u_bits) + u32_le(v.v_bits)
}

/// The flat bytes of a vertex list.
pub open spec fn vertices_bytes(vs: Seq<Vertex>) -> Seq<u8>
    decreases vs.len(),
{
    if vs.len() == 0 {
        Seq::empty()
    } else {
        vertices_bytes(vs.drop_last()) + vertex_bytes(vs.last())
    }
}

/// The four corners of the full-screen quad, counter-clockwise from the top
/// left, with texture coordinates (0,1), (0,0), (1,0), (1,1).
pub fn quad_vertices() -> (r: Vec<Vertex>)
    ensures
        r@ == seq![
            Vertex { x_bits: NEG_ONE_BITS, y_bits: ONE_BITS, z_bits: 0, u_bits: 0, v_bits: ONE_BITS },
            Vertex { x_bits: NEG_ONE_BITS, y_bits: NEG_ONE_BITS, z_bits: 0, u_bits: 0, v_bits: 0 },
            Vertex { x_bits: ONE_BITS, y_bits: NEG_ONE_BITS, z_bits: 0, u_bits: ONE_BITS, v_bits: 0 },
            Vertex { x_bits: ONE_BITS, y_bits: ONE_BITS, z_bits: 0, u_bits: ONE_BITS, v_bits: ONE_BITS },
        ],
{
    let mut v: Vec<Vertex> = Vec::new();
    v.push(Vertex { x_bits: NEG_ONE_BITS, y_bits: ONE_BITS, z_bits: 0, u_bits: 0, v_bits: ONE_BITS });
    v.push(Vertex { x_bits: NEG_ONE_BITS, y_bits: NEG_ONE_BITS, z_bits: 0, u_bits: 0, v_bits: 0 });
    v.push(Vertex { x_bits: ONE_BITS, y_bits: NEG_ONE_BITS, z_bits: 0, u_bits: ONE_BITS, v_bits: 0 });
    v.push(Vertex { x_bits: ONE_BITS, y_bits: ONE_BITS, z_bits: 0, u_bits: ONE_BITS, v_bits: ONE_BITS });
    proof {
        assert(v@ =~= seq![
            Vertex { x_bits: NEG_ONE_BITS, y_bits: ONE_BITS, z_bits: 0, u_bits: 0, v_bits: ONE_BITS },
            Vertex { x_bits: NEG_ONE_BITS, y_bits: NEG_ONE_BITS, z_bits: 0, u_bits: 0, v_bits: 0 },
            Vertex { x_bits: ONE_BITS, y_bits: NEG_ONE_BITS, z_bits: 0, u_bits: ONE_BITS, v_bits: 0 },
            Vertex { x_bits: ONE_BITS, y_bits: ONE_BITS, z_bits: 0, u_bits: ONE_BITS, v_bits: ONE_BITS },
        ]);
    }
    v
}

/// The index sequence of the quad's two counter-clockwise triangles.
pub fn quad_indices() -> (r: Vec<u32>)
    ensures
        r@ == seq![0u32, 1u32, 2u32, 2u32, 3u32, 0u32],
{
    let mut v: Vec<u32> = Vec::new();
    v.push(0);
    v.push(1);
    v.push(2);
    v.push(2);
    v.push(3);
    v.push(0);
    proof {
        assert(v@ =~= seq![0u32, 1u32, 2u32, 2u32, 3u32, 0u32]);
    }
    v
}

/// Serializes a vertex list for the vertex buffer: 20 tightly packed bytes
/// per vertex, no header and no padding.
pub fn vertex_buffer_bytes(vs: &Vec<Vertex>) -> (r: Vec<u8>)
    ensures
        r@ == vertices_bytes(vs@),
{
    let mut v: Vec<u8> = Vec::new();
    let mut i: usize = 0;
    while i < vs.len()
        invariant
            i <= vs@.len(),
            v@ == vertices_bytes(vs@.subrange(0, i as int)),
        decreases vs@.len() - i,
    {
        let vx = vs[i];
        push_u32_le(&mut v, vx.x_bits);
        push_u32_le(&mut v, vx.y_bits);
        push_u32_le(&mut v, vx.z_bits);
        push_u32_le(&mut v, vx.u_bits);
        push_u32_le(&mut v, vx.v_bits);
        proof {
            let pre = vs@.subrange(0, i as int);
            let post = vs@.subrange(0, i + 1);
            assert(post.drop_last() =~= pre);
            assert(post.last() == vs@[i as int]);
            assert(v@ =~= vertices_bytes(post));
        }
        i = i + 1;
    }
    proof {
        assert(vs@.subrange(0, vs@.len() as int) =~= vs@);
    }
    v
}

/// The element bytes of an ordered sequence of two-component points.
pub open spec fn points_bytes(pts: Seq<ReducedComplex>) -> Seq<u8>
    decreases pts.len(),
{
    if pts.len() == 0 {
        Seq::empty()
    } else {
        points_bytes(pts.drop_last()) + vec2_bytes(pts.last())
    }
}

/// The variable-length buffer layout: the element count, padding up to the
/// 8-byte element alignment, then the tightly packed elements.
pub open spec fn orbit_buffer_bytes(pts: Seq<ReducedComplex>) -> Seq<u8> {
    u32_le(pts.len() as u32) + pad4() + points_bytes(pts)
}

/// The element bytes take 8 bytes per point.
pub proof fn lemma_points_bytes_len(pts: Seq<ReducedComplex>)
    ensures
        points_bytes(pts).len() == 8 * pts.len(),
    decreases pts.len(),
{
    if pts.len() > 0 {
        lemma_points_bytes_len(pts.drop_last());
    }
}

impl Storable for ReferenceOrbit {
    open spec fn bytes_spec(&self) -> Seq<u8> {
        orbit_buffer_bytes(self.points@)
    }

    open spec fn storable_wf(&self) -> bool {
        self.points@.len() <= u32::MAX
    }

    /// The variable-length adapter, applied to the reference orbit.
    fn into_bytes(&self) -> (r: Vec<u8>) {
        let mut v: Vec<u8> = Vec::new();
        push_u32_le(&mut v, self.points.len() as u32);
        push_pad4(&mut v);
        let mut i: usize = 0;
        while i < self.points.len()
            invariant
                i <= self.points@.len(),
                self.points@.len() <= u32::MAX,
                v@ == u32_le(self.points@.len() as u32) + pad4() + points_bytes(
                    self.points@.subrange(0, i as int),
                ),
            decreases self.points@.len() - i,
        {
            push_vec2(&mut v, self.points[i]);
            proof {
                let pre = self.points@.subrange(0, i as int);
                let post = self.points@.subrange(0, i + 1);
                assert(post.drop_last() =~= pre);
                assert(post.last() == self.points@[i as int]);
                assert(v@ =~= u32_le(self.points@.len() as u32) + pad4() + points_bytes(post));
            }
            i = i + 1;
        }
        proof {
            assert(self.points@.subrange(0, self.points@.len() as int) =~= self.points@);
        }
        v
    }
}

} // verus!
