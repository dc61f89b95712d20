//! The data the demos hand to the driver besides their shaders: the bytes of
//! index buffers, the contents of the blob demos' uniform block, and the
//! textures and indices of the textured demo.
use vstd::prelude::*;
use crate::glcall::GlCall;
use crate::glenum::{
    GLint, GLuint, CLAMP_TO_EDGE, LINEAR, TEXTURE_2D, TEXTURE_MAG_FILTER, TEXTURE_MIN_FILTER,
    TEXTURE_WRAP_S, TEXTURE_WRAP_T,
};

verus! {

/// The four bytes of `w`, least significant first unless `big_endian`.
pub open spec fn word_bytes(w: u32, big_endian: bool) -> Seq<u8> {
    let b0 = (w % 256) as u8;
    let b1 = ((w / 256) % 256) as u8;
    let b2 = ((w / 65536) % 256) as u8;
    let b3 = (w / 16777216) as u8;
    if big_endian {
        seq![b3, b2, b1, b0]
    } else {
        seq![b0, b1, b2, b3]
    }
}

/// The bytes of the words `ws`, one after the other.
pub open spec fn words_bytes(ws: Seq<u32>, big_endian: bool) -> Seq<u8>
    decreases ws.len(),
{
    if ws.len() == 0 {
        Seq::empty()
    } else {
        words_bytes(ws.drop_last(), big_endian) + word_bytes(ws.last(), big_endian)
    }
}

/// Four bytes per word.
pub proof fn lemma_words_bytes_len(ws: Seq<u32>, big_endian: bool)
    ensures
        words_bytes(ws, big_endian).len() == 4 * ws.len(),
    decreases ws.len(),
{
    if ws.len() > 0 {
        lemma_words_bytes_len(ws.drop_last(), big_endian);
    }
}

/// `buf` with the bytes from `at` on replaced by `bs`.
pub open spec fn put_bytes(buf: Seq<u8>, at: int, bs: Seq<u8>) -> Seq<u8> {
    buf.take(at) + bs + buf.skip(at + bs.len())
}

pub(crate) fn push_word(buf: &mut Vec<u8>, w: u32, big_endian: bool)
    ensures
        final(buf)@ == old(buf)@ + word_bytes(w, big_endian),
{
    let b0 = (w % 256) as u8;
    let b1 = ((w / 256) % 256) as u8;
    let b2 = ((w / 65536) % 256) as u8;
    let b3 = (w / 16777216) as u8;
    if big_endian {
        buf.push(b3);
        buf.push(b2);
        buf.push(b1);
        buf.push(b0);
    } else {
        buf.push(b0);
        buf.push(b1);
        buf.push(b2);
        buf.push(b3);
    }
}

/// The bytes of the 32-bit words `ws` in the given byte order: what an
/// index buffer of `u32` indices, or a run of `f32` values given by their
/// bits, holds.
pub fn u32_bytes(ws: &[u32], big_endian: bool) -> (r: Vec<u8>)
    ensures
        r@ == words_bytes(ws@, big_endian),
        r@.len() == 4 * ws@.len(),
{
    let mut r: Vec<u8> = Vec::new();
    let mut i: usize = 0;
    while i < ws.len()
        invariant
            i <= ws@.len(),
            r@ == words_bytes(ws@.take(i as int), big_endian),
        decreases ws@.len() - i,
    {
        push_word(&mut r, ws[i], big_endian);
        proof {
            assert(ws@.take(i + 1).drop_last() =~= ws@.take(i as int));
        }
        i = i + 1;
    }
    proof {
        assert(ws@.take(ws@.len() as int) =~= ws@);
        lemma_words_bytes_len(ws@, big_endian);
    }
    r
}

fn put_bytes_at(buf: &mut Vec<u8>, at: usize, bs: &Vec<u8>)
    requires
        at + bs@.len() <= old(buf)@.len(),
    ensures
        final(buf)@ == put_bytes(old(buf)@, at as int, bs@),
{
    let ghost start = buf@;
    let n = buf.len();
    let mut i: usize = 0;
    while i < bs.len()
        invariant
            start.len() == n,
            at + bs@.len() <= start.len(),
            i <= bs@.len(),
            buf@.len() == start.len(),
            forall|k: int| 0 <= k < at ==> buf@[k] == start[k],
            forall|k: int| at <= k < at + i ==> buf@[k] == bs@[k - at],
            forall|k: int| at + i <= k < start.len() ==> buf@[k] == start[k],
        decreases bs@.len() - i,
    {
        buf.set(at + i, bs[i]);
        i = i + 1;
    }
    proof {
        assert(buf@ =~= put_bytes(start, at as int, bs@));
    }
}

/// The bits of the `f32` value 1.0.
pub const F32_ONE_BITS: u32 = 0x3F80_0000u32;

/// The bits of the `f32` value 0.75.
pub const F32_THREE_QUARTERS_BITS: u32 = 0x3F40_0000u32;

/// The bits of the `f32` value 0.25.
pub const F32_QUARTER_BITS: u32 = 0x3E80_0000u32;

/// The bits of the `f32` value nearest 0.45.
pub const F32_0_45_BITS: u32 = 0x3EE6_6666u32;

/// The `InnerColor` of the blob: opaque light yellow.
pub open spec fn blob_inner_color() -> Seq<u32> {
    seq![F32_ONE_BITS, F32_ONE_BITS, F32_THREE_QUARTERS_BITS, F32_ONE_BITS]
}

/// The `OuterColor` of the blob: all zero.
pub open spec fn blob_outer_color() -> Seq<u32> {
    seq![0u32, 0u32, 0u32, 0u32]
}

/// Whether a uniform block of `size` bytes holds the two colours at the
/// first two offsets and the two radii at the last two.
pub open spec fn blob_block_fits(size: int, offsets: Seq<i32>) -> bool {
    &&& size > 0
    &&& offsets.len() == 4
    &&& 0 <= offsets[0] && offsets[0] + 16 <= size
    &&& 0 <= offsets[1] && offsets[1] + 16 <= size
    &&& 0 <= offsets[2] && offsets[2] + 4 <= size
    &&& 0 <= offsets[3] && offsets[3] + 4 <= size
}

/// The `BlobSettings` block of `size` bytes: all zero, then the inner colour,
/// the outer colour, the inner radius 0.25 and the outer radius 0.45 written
/// in turn at the four offsets.
pub open spec fn blob_block(size: nat, offsets: Seq<i32>, big_endian: bool) -> Seq<u8> {
    let zero = Seq::new(size, |k: int| 0u8);
    let with_inner = put_bytes(zero, offsets[0] as int, words_bytes(blob_inner_color(), big_endian));
    let with_outer = put_bytes(
        with_inner,
        offsets[1] as int,
        words_bytes(blob_outer_color(), big_endian),
    );
    let with_radius = put_bytes(with_outer, offsets[2] as int, word_bytes(F32_QUARTER_BITS, big_endian));
    put_bytes(with_radius, offsets[3] as int, word_bytes(F32_0_45_BITS, big_endian))
}

/// The contents of the `BlobSettings` uniform block, given the block size
/// and the member offsets that the driver reports (inner colour, outer
/// colour, inner radius, outer radius), for a machine of the given byte
/// order.  `None` when the block is empty or a member would not fit in it.
pub fn blob_settings_block(block_size: GLint, offsets: &[GLint; 4], big_endian: bool) -> (r: Option<
    Vec<u8>,
>)
    ensures
        r is Some <==> blob_block_fits(block_size as int, offsets@),
        r matches Some(v) ==> v@ == blob_block(block_size as nat, offsets@, big_endian),
{
    if block_size <= 0 {
        return None;
    }
    let o0 = offsets[0];
    let o1 = offsets[1];
    let o2 = offsets[2];
    let o3 = offsets[3];
    if o0 < 0 || o1 < 0 || o2 < 0 || o3 < 0 || o0 > block_size - 16 || o1 > block_size - 16
        || o2 > block_size - 4 || o3 > block_size - 4 {
        return None;
    }
    let size = block_size as usize;
    let mut buf: Vec<u8> = Vec::new();
    let mut i: usize = 0;
    while i < size
        invariant
            i <= size,
            buf@ == Seq::new(i as nat, |k: int| 0u8),
        decreases size - i,
    {
        buf.push(0u8);
        proof {
            assert(buf@ =~= Seq::new((i + 1) as nat, |k: int| 0u8));
        }
        i = i + 1;
    }
    let inner: [u32; 4] = [F32_ONE_BITS, F32_ONE_BITS, F32_THREE_QUARTERS_BITS, F32_ONE_BITS];
    let outer: [u32; 4] = [0u32, 0u32, 0u32, 0u32];
    let radius_inner: [u32; 1] = [F32_QUARTER_BITS];
    let radius_outer: [u32; 1] = [F32_0_45_BITS];
    let inner_bytes = u32_bytes(&inner, big_endian);
    let outer_bytes = u32_bytes(&outer, big_endian);
    let inner_radius_bytes = u32_bytes(&radius_inner, big_endian);
    let outer_radius_bytes = u32_bytes(&radius_outer, big_endian);
    proof {
        assert(inner@ =~= blob_inner_color());
        assert(outer@ =~= blob_outer_color());
        assert(radius_inner@.drop_last() =~= Seq::<u32>::empty());
        assert(radius_outer@.drop_last() =~= Seq::<u32>::empty());
        assert(inner_radius_bytes@ =~= word_bytes(F32_QUARTER_BITS, big_endian));
        assert(outer_radius_bytes@ =~= word_bytes(F32_0_45_BITS, big_endian));
    }
    put_bytes_at(&mut buf, o0 as usize, &inner_bytes);
    put_bytes_at(&mut buf, o1 as usize, &outer_bytes);
    put_bytes_at(&mut buf, o2 as usize, &inner_radius_bytes);
    put_bytes_at(&mut buf, o3 as usize, &outer_radius_bytes);
    Some(buf)
}

/// Whether the byte range of `n` bytes at `at` holds `k`.
pub open spec fn holds(at: int, n: int, k: int) -> bool {
    at <= k < at + n
}

/// Whether the two colours (sixteen bytes each) and the two radii (four
/// bytes each) at `offsets` take disjoint bytes.
pub open spec fn blob_members_disjoint(offsets: Seq<i32>) -> bool {
    let r = seq![(offsets[0] as int, 16int), (offsets[1] as int, 16int), (offsets[2] as int, 4int), (offsets[3] as int, 4int)];
    forall|i: int, j: int|
        0 <= i < j < 4 ==> r[i].0 + r[i].1 <= r[j].0 || r[j].0 + r[j].1 <= r[i].0
}

proof fn lemma_put_bytes(buf: Seq<u8>, at: int, bs: Seq<u8>)
    requires
        0 <= at,
        at + bs.len() <= buf.len(),
    ensures
        put_bytes(buf, at, bs).len() == buf.len(),
        forall|k: int|
            0 <= k < buf.len() ==> #[trigger] put_bytes(buf, at, bs)[k] == if holds(at, bs.len() as int, k) {
                bs[k - at]
            } else {
                buf[k]
            },
{
    let p = put_bytes(buf, at, bs);
    assert forall|k: int| 0 <= k < buf.len() implies #[trigger] p[k] == if holds(at, bs.len() as int, k) {
        bs[k - at]
    } else {
        buf[k]
    } by {
        if k < at {
            assert(p[k] == buf.take(at)[k]);
        } else if k < at + bs.len() {
            assert(p[k] == (buf.take(at) + bs)[k]);
        } else {
            assert(p[k] == buf.skip(at + bs.len())[k - at - bs.len()]);
        }
    }
}

/// The layout of the `BlobSettings` block when its members do not overlap:
/// the inner colour, the outer colour and the two radii each sit at their
/// offset, and every other byte is zero.
pub proof fn lemma_blob_block_layout(size: nat, offsets: Seq<i32>, big_endian: bool)
    requires
        blob_block_fits(size as int, offsets),
        blob_members_disjoint(offsets),
    ensures
        blob_block(size, offsets, big_endian).len() == size,
        blob_block(size, offsets, big_endian).subrange(offsets[0] as int, offsets[0] + 16)
            == words_bytes(blob_inner_color(), big_endian),
        blob_block(size, offsets, big_endian).subrange(offsets[1] as int, offsets[1] + 16)
            == words_bytes(blob_outer_color(), big_endian),
        blob_block(size, offsets, big_endian).subrange(offsets[2] as int, offsets[2] + 4)
            == word_bytes(F32_QUARTER_BITS, big_endian),
        blob_block(size, offsets, big_endian).subrange(offsets[3] as int, offsets[3] + 4)
            == word_bytes(F32_0_45_BITS, big_endian),
        forall|k: int|
            0 <= k < size && !holds(offsets[0] as int, 16, k) && !holds(offsets[1] as int, 16, k)
                && !holds(offsets[2] as int, 4, k) && !holds(offsets[3] as int, 4, k)
                ==> #[trigger] blob_block(size, offsets, big_endian)[k] == 0u8,
{
    let inner = words_bytes(blob_inner_color(), big_endian);
    let outer = words_bytes(blob_outer_color(), big_endian);
    let r_in = word_bytes(F32_QUARTER_BITS, big_endian);
    let r_out = word_bytes(F32_0_45_BITS, big_endian);
    lemma_words_bytes_len(blob_inner_color(), big_endian);
    lemma_words_bytes_len(blob_outer_color(), big_endian);
    let (o0, o1, o2, o3) = (offsets[0] as int, offsets[1] as int, offsets[2] as int, offsets[3] as int);
    let zero = Seq::new(size, |k: int| 0u8);
    let a = put_bytes(zero, o0, inner);
    lemma_put_bytes(zero, o0, inner);
    let b = put_bytes(a, o1, outer);
    lemma_put_bytes(a, o1, outer);
    let c = put_bytes(b, o2, r_in);
    lemma_put_bytes(b, o2, r_in);
    let d = put_bytes(c, o3, r_out);
    lemma_put_bytes(c, o3, r_out);
    assert(d == blob_block(size, offsets, big_endian));
    let r = seq![(o0, 16int), (o1, 16int), (o2, 4int), (o3, 4int)];
    assert(r[0] == (o0, 16int) && r[1] == (o1, 16int) && r[2] == (o2, 4int) && r[3] == (o3, 4int));
    assert(o0 + 16 <= o1 || o1 + 16 <= o0) by {
        assert(r[0].0 + r[0].1 <= r[1].0 || r[1].0 + r[1].1 <= r[0].0);
    }
    assert(o0 + 16 <= o2 || o2 + 4 <= o0) by {
        assert(r[0].0 + r[0].1 <= r[2].0 || r[2].0 + r[2].1 <= r[0].0);
    }
    assert(o0 + 16 <= o3 || o3 + 4 <= o0) by {
        assert(r[0].0 + r[0].1 <= r[3].0 || r[3].0 + r[3].1 <= r[0].0);
    }
    assert(o1 + 16 <= o2 || o2 + 4 <= o1) by {
        assert(r[1].0 + r[1].1 <= r[2].0 || r[2].0 + r[2].1 <= r[1].0);
    }
    assert(o1 + 16 <= o3 || o3 + 4 <= o1) by {
        assert(r[1].0 + r[1].1 <= r[3].0 || r[3].0 + r[3].1 <= r[1].0);
    }
    assert(o2 + 4 <= o3 || o3 + 4 <= o2) by {
        assert(r[2].0 + r[2].1 <= r[3].0 || r[3].0 + r[3].1 <= r[2].0);
    }
    assert(d.subrange(o0, o0 + 16) =~= inner) by {
        assert forall|j: int| 0 <= j < 16 implies #[trigger] d.subrange(o0, o0 + 16)[j] == inner[j] by {
            let k = o0 + j;
            assert(d[k] == c[k] && c[k] == b[k] && b[k] == a[k] && a[k] == inner[k - o0]);
        }
    }
    assert(d.subrange(o1, o1 + 16) =~= outer) by {
        assert forall|j: int| 0 <= j < 16 implies #[trigger] d.subrange(o1, o1 + 16)[j] == outer[j] by {
            let k = o1 + j;
            assert(d[k] == c[k] && c[k] == b[k] && b[k] == outer[k - o1]);
        }
    }
    assert(d.subrange(o2, o2 + 4) =~= r_in) by {
        assert forall|j: int| 0 <= j < 4 implies #[trigger] d.subrange(o2, o2 + 4)[j] == r_in[j] by {
            let k = o2 + j;
            assert(d[k] == c[k] && c[k] == r_in[k - o2]);
        }
    }
    assert(d.subrange(o3, o3 + 4) =~= r_out) by {
        assert forall|j: int| 0 <= j < 4 implies #[trigger] d.subrange(o3, o3 + 4)[j] == r_out[j] by {
            let k = o3 + j;
            assert(d[k] == r_out[k - o3]);
        }
    }
    assert forall|k: int|
        0 <= k < size && !holds(o0, 16, k) && !holds(o1, 16, k) && !holds(o2, 4, k) && !holds(o3, 4, k)
        implies #[trigger] d[k] == 0u8 by {
        assert(d[k] == c[k] && c[k] == b[k] && b[k] == a[k] && a[k] == zero[k]);
    }
}

/// The texture parameters the textured demo sets on each texture it loads:
/// clamped at the edges, linear filtering.
pub open spec fn misc_tex_param_calls() -> Seq<GlCall> {
    seq![
        GlCall::TexParameteri { target: TEXTURE_2D, pname: TEXTURE_WRAP_S, param: CLAMP_TO_EDGE as GLint },
        GlCall::TexParameteri { target: TEXTURE_2D, pname: TEXTURE_WRAP_T, param: CLAMP_TO_EDGE as GLint },
        GlCall::TexParameteri { target: TEXTURE_2D, pname: TEXTURE_MIN_FILTER, param: LINEAR as GLint },
        GlCall::TexParameteri { target: TEXTURE_2D, pname: TEXTURE_MAG_FILTER, param: LINEAR as GLint },
    ]
}

/// Sets the wrapping and filtering of the bound 2D texture.
pub fn set_misc_tex_params(cmds: &mut Vec<GlCall>)
    ensures
        final(cmds)@ == old(cmds)@ + misc_tex_param_calls(),
{
    let clamp = CLAMP_TO_EDGE as GLint;
    let linear = LINEAR as GLint;
    cmds.push(GlCall::TexParameteri { target: TEXTURE_2D, pname: TEXTURE_WRAP_S, param: clamp });
    cmds.push(GlCall::TexParameteri { target: TEXTURE_2D, pname: TEXTURE_WRAP_T, param: clamp });
    cmds.push(GlCall::TexParameteri { target: TEXTURE_2D, pname: TEXTURE_MIN_FILTER, param: linear });
    cmds.push(GlCall::TexParameteri { target: TEXTURE_2D, pname: TEXTURE_MAG_FILTER, param: linear });
    proof {
        assert(final(cmds)@ =~= old(cmds)@ + misc_tex_param_calls());
    }
}

/// How many texture objects the textured demo creates.
pub const TEXTURED_TEXTURE_COUNT: usize = 5usize;

/// The texture unit the `texKitten` sampler reads.
pub const KITTEN_UNIT: GLuint = 0u32;

/// The texture unit the `texPuppy` sampler reads.
pub const PUPPY_UNIT: GLuint = 1u32;

/// One image of the textured demo: the texture unit made active, the
/// texture object it is loaded into, and the bitmap file.
pub struct ImageSlot {
    pub unit: GLuint,
    pub texture: usize,
    pub path: &'static str,
}

/// The images of the textured demo, in the order they are loaded.
pub open spec fn textured_image_plan() -> Seq<(GLuint, usize, Seq<char>)> {
    seq![
        (0u32, 1usize, "paris.bmp"@),
        (1u32, 2usize, "bertin.bmp"@),
        (2u32, 3usize, "kitten.bmp"@),
        (3u32, 4usize, "puppy.bmp"@),
    ]
}

/// The images of the textured demo: unit `k` gets texture `k + 1`.
pub fn textured_images() -> (r: Vec<ImageSlot>)
    ensures
        r@.map_values(|s: ImageSlot| (s.unit, s.texture, s.path@)) == textured_image_plan(),
        forall|k: int| 0 <= k < r@.len() ==> r@[k].texture < TEXTURED_TEXTURE_COUNT,
{
    let r = vec![
        ImageSlot { unit: 0, texture: 1, path: "paris.bmp" },
        ImageSlot { unit: 1, texture: 2, path: "bertin.bmp" },
        ImageSlot { unit: 2, texture: 3, path: "kitten.bmp" },
        ImageSlot { unit: 3, texture: 4, path: "puppy.bmp" },
    ];
    proof {
        assert(r@.map_values(|s: ImageSlot| (s.unit, s.texture, s.path@)) =~= textured_image_plan());
    }
    r
}

/// The indices of the textured demo: two quads of two triangles each, the
/// right one first.
pub open spec fn textured_element_plan() -> Seq<GLuint> {
    seq![4u32, 5, 6, 6, 7, 4, 0, 1, 2, 2, 3, 0]
}

/// The indices of the textured demo.
pub fn textured_elements() -> (r: Vec<GLuint>)
    ensures
        r@ == textured_element_plan(),
{
    let r: Vec<GLuint> = vec![4, 5, 6, 6, 7, 4, 0, 1, 2, 2, 3, 0];
    proof {
        assert(r@ =~= textured_element_plan());
    }
    r
}

} // verus!
