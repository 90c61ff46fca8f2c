use vstd::prelude::*;

verus! {

/// IEEE-754 single-precision bit pattern of the coordinate value zero.
pub const ZERO_BITS: u32 = 0x0000_0000;

/// IEEE-754 single-precision bit pattern of the coordinate value one half.
pub const HALF_BITS: u32 = 0x3F00_0000;

/// IEEE-754 single-precision bit pattern of the coordinate value minus one half.
pub const NEG_HALF_BITS: u32 = 0xBF00_0000;

/// Number of 32-bit coordinates in the fixed mesh: 3 vertices, 2 coordinates each.
pub const TRIANGLE_COORDINATE_COUNT: usize = 6;

/// The fixed triangle mesh in normalized device coordinates, stored as the
/// bit patterns of its six single-precision coordinates, x before y:
/// (0.0, 0.5), (0.5, -0.5), (-0.5, -0.5). It is uploaded once as static
/// draw data and never changed afterwards.
pub open spec fn triangle_vertex_bits() -> Seq<u32> {
    seq![ZERO_BITS, HALF_BITS, HALF_BITS, NEG_HALF_BITS, NEG_HALF_BITS, NEG_HALF_BITS]
}

/// Builds the fixed triangle mesh.
pub fn triangle_vertices() -> (v: Vec<u32>)
    ensures
        v@ == triangle_vertex_bits(),
{
    let mut v: Vec<u32> = Vec::new();
    v.push(ZERO_BITS);
    v.push(HALF_BITS);
    v.push(HALF_BITS);
    v.push(NEG_HALF_BITS);
    v.push(NEG_HALF_BITS);
    v.push(NEG_HALF_BITS);
    proof {
        assert(v@ =~= triangle_vertex_bits());
    }
    v
}

/// Number of vertices described by a tightly packed list of 2-D coordinates:
/// two coordinates per vertex.
pub fn vertex_count(coordinate_count: usize) -> (n: usize)
    ensures
        n == coordinate_count / 2,
{
    coordinate_count / 2
}

/// The four little-endian bytes of one 32-bit word, least significant first.
pub open spec fn le_bytes_of_word(w: u32) -> Seq<u8> {
    seq![
        (w & 0xFF) as u8,
        ((w >> 8) & 0xFF) as u8,
        ((w >> 16) & 0xFF) as u8,
        ((w >> 24) & 0xFF) as u8,
    ]
}

/// All words flattened to little-endian bytes, in order.
pub open spec fn le_bytes_of_words(ws: Seq<u32>) -> Seq<u8>
    decreases ws.len(),
{
    if ws.len() == 0 {
        Seq::empty()
    } else {
        le_bytes_of_word(ws[0]) + le_bytes_of_words(ws.drop_first())
    }
}

/// Appending one word appends exactly its four little-endian bytes.
proof fn lemma_le_bytes_of_words_push(ws: Seq<u32>, w: u32)
    ensures
        le_bytes_of_words(ws.push(w)) =~= le_bytes_of_words(ws) + le_bytes_of_word(w),
    decreases ws.len(),
{
    if ws.len() == 0 {
        assert(ws.push(w)[0] == w);
        assert(ws.push(w).drop_first() =~= Seq::<u32>::empty());
        assert(le_bytes_of_words(Seq::<u32>::empty()) =~= Seq::<u8>::empty());
        assert(le_bytes_of_words(ws) =~= Seq::<u8>::empty());
        assert(le_bytes_of_words(ws.push(w)) =~= le_bytes_of_word(w) + Seq::<u8>::empty());
    } else {
        lemma_le_bytes_of_words_push(ws.drop_first(), w);
        assert(ws.push(w)[0] == ws[0]);
        assert(ws.push(w).drop_first() =~= ws.drop_first().push(w));
    }
}

/// Serializes the coordinate words into the byte layout the array buffer
/// upload takes: each 32-bit word as four little-endian bytes.
pub fn vertex_bytes(words: &Vec<u32>) -> (b: Vec<u8>)
    ensures
        b@ == le_bytes_of_words(words@),
{
    let mut b: Vec<u8> = Vec::new();
    let mut i: usize = 0;
    while i < words.len()
        invariant
            i <= words.len(),
            b@ == le_bytes_of_words(words@.take(i as int)),
        decreases words.len() - i,
    {
        let w = words[i];
        proof {
            assert((w & 0xFF) < 256 && ((w >> 8) & 0xFF) < 256 && ((w >> 16) & 0xFF) < 256
                && ((w >> 24) & 0xFF) < 256) by (bit_vector);
        }
        b.push((w & 0xFF) as u8);
        b.push(((w >> 8) & 0xFF) as u8);
        b.push(((w >> 16) & 0xFF) as u8);
        b.push(((w >> 24) & 0xFF) as u8);
        proof {
            lemma_le_bytes_of_words_push(words@.take(i as int), w);
            assert(words@.take(i as int).push(w) =~= words@.take(i as int + 1));
            assert(b@ =~= le_bytes_of_words(words@.take(i as int)) + le_bytes_of_word(w));
        }
        i = i + 1;
    }
    proof {
        assert(words@.take(words@.len() as int) =~= words@);
    }
    b
}

} // verus!
