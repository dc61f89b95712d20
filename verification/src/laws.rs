//! Properties of the library that span several of its operations.
use vstd::prelude::*;
use crate::buffers::{draw_call_for, half_word_bytes, index_bytes, TextureUnit};
use crate::demo::{demo_for, Demo};
use crate::demo_data::word_bytes;
use crate::glenum::{BGRA, RGBA, UNSIGNED_BYTE, UNSIGNED_INT_8_8_8_8, UNSIGNED_INT_8_8_8_8_REV};
use crate::pixel_format::{gl_format_type, has_gl_equivalent, SdlPixelFormat};
use crate::text::seq_join;
use crate::demo::{loop_step_for, redraw_count, EventLoop, LoopEvent, LoopStep};
use crate::glcall::GlCall;
use crate::glenum::{GLenum, GLint, GLsizei, GLuint, MAX_COMBINED_TEXTURE_IMAGE_UNITS, TRIANGLES};
use crate::glsl::{Mat4, Sampler2D, ToGLSLType, ToGLSLType2, UniformArg, Vec2, Vec3, Vec4, scalar_bytes};
use crate::shader_builder::{decl_line, newline, pushed};

verus! {

/// The text the driver compiles from a list of source strings: the strings
/// one after the other.
pub open spec fn source_text(lines: Seq<Seq<char>>) -> Seq<char>
    decreases lines.len(),
{
    if lines.len() == 0 {
        Seq::empty()
    } else {
        source_text(lines.drop_last()) + lines.last()
    }
}

/// The text of `ls` with a line break after each line.
pub open spec fn terminated_text(ls: Seq<Seq<char>>) -> Seq<char>
    decreases ls.len(),
{
    if ls.len() == 0 {
        Seq::empty()
    } else {
        terminated_text(ls.drop_last()) + ls.last() + newline()
    }
}

/// Appending lists of source strings appends their texts.
pub proof fn lemma_source_text_append(a: Seq<Seq<char>>, b: Seq<Seq<char>>)
    ensures
        source_text(a + b) == source_text(a) + source_text(b),
    decreases b.len(),
{
    if b.len() == 0 {
        assert(a + b =~= a);
        assert(source_text(a) + source_text(b) =~= source_text(a));
    } else {
        lemma_source_text_append(a, b.drop_last());
        assert((a + b).drop_last() =~= a + b.drop_last());
        assert((a + b).last() == b.last());
        assert(source_text(a) + source_text(b) =~= source_text(a) + source_text(b.drop_last())
            + b.last());
    }
}

/// Whatever a builder is asked to add, its source text grows by exactly
/// those lines, each ended by a line break: lines pushed one by one read as
/// separate lines of the shader.
pub proof fn lemma_pushed_lines_text(old_lines: Seq<Seq<char>>, ls: Seq<Seq<char>>)
    ensures
        source_text(old_lines + pushed(ls)) == source_text(old_lines) + terminated_text(ls),
    decreases ls.len(),
{
    lemma_source_text_append(old_lines, pushed(ls));
    lemma_pushed_text(ls);
}

/// The text of the pushed form of `ls` is `ls` with line breaks.
pub proof fn lemma_pushed_text(ls: Seq<Seq<char>>)
    ensures
        source_text(pushed(ls)) == terminated_text(ls),
    decreases ls.len(),
{
    if ls.len() == 0 {
    } else {
        lemma_pushed_text(ls.drop_last());
        lemma_source_text_append(pushed(ls.drop_last()), seq![ls.last(), newline()]);
        let two = seq![ls.last(), newline()];
        assert(two.drop_last() =~= seq![ls.last()]);
        assert(seq![ls.last()].drop_last() =~= Seq::<Seq<char>>::empty());
        assert(source_text(Seq::<Seq<char>>::empty()) == Seq::<char>::empty());
        assert(Seq::<char>::empty() + ls.last() =~= ls.last());
        assert(source_text(seq![ls.last()]) =~= ls.last());
        assert(source_text(two) =~= ls.last() + newline());
        assert(terminated_text(ls) =~= terminated_text(ls.drop_last()) + (ls.last() + newline()));
    }
}

/// The shape of every builder's lines: the header first, then pairs of a
/// pushed line and its line break, so the count is odd and every line at an
/// even position after the header is a line break.  Each builder of the
/// library holds it as its type invariant, and `ShaderBuilder::lines`
/// reports it.
pub open spec fn builder_shape(header: Seq<char>, lines: Seq<Seq<char>>) -> bool {
    &&& lines.len() % 2 == 1
    &&& lines[0] == header
    &&& forall|k: int| 1 <= k && 2 * k < lines.len() ==> #[trigger] lines[2 * k] == newline()
}

/// Pushing lines one by one puts each at an even offset and a line break
/// right after it.
pub proof fn lemma_pushed_layout(ls: Seq<Seq<char>>)
    ensures
        pushed(ls).len() == 2 * ls.len(),
        forall|j: int| 0 <= j < ls.len() ==> #[trigger] pushed(ls)[2 * j] == ls[j],
        forall|j: int| 0 <= j < ls.len() ==> #[trigger] pushed(ls)[2 * j + 1] == newline(),
    decreases ls.len(),
{
    if ls.len() > 0 {
        let init = ls.drop_last();
        lemma_pushed_layout(init);
        let p = pushed(init);
        let q = pushed(ls);
        assert(q == p + seq![ls.last(), newline()]);
        assert forall|j: int| 0 <= j < ls.len() implies #[trigger] q[2 * j] == ls[j] by {
            if j < ls.len() - 1 {
                assert(q[2 * j] == p[2 * j]);
                assert(p[2 * j] == init[j]);
            } else {
                assert(q[2 * j] == ls.last());
            }
        }
        assert forall|j: int| 0 <= j < ls.len() implies #[trigger] q[2 * j + 1] == newline() by {
            if j < ls.len() - 1 {
                assert(q[2 * j + 1] == p[2 * j + 1]);
            } else {
                assert(q[2 * j + 1] == newline());
            }
        }
    }
}

/// A new builder has the shape: its lines are its header alone.
pub proof fn lemma_new_builder_shape(header: Seq<char>)
    ensures
        builder_shape(header, seq![header]),
{
}

/// Every builder operation keeps the shape: each either resets the lines to
/// the header (`clear`) or appends the pushed form of some lines (`push` and
/// `then` append `pushed(seq![line])`, the declaring and defining operations
/// append the pushed form of their lines).
pub proof fn lemma_builder_shape_kept(header: Seq<char>, lines: Seq<Seq<char>>, ls: Seq<Seq<char>>)
    requires
        builder_shape(header, lines),
    ensures
        builder_shape(header, lines + pushed(ls)),
        builder_shape(header, seq![header]),
        forall|line: Seq<char>| #[trigger] pushed(seq![line]) == seq![line, newline()],
{
    lemma_pushed_layout(ls);
    let all = lines + pushed(ls);
    assert forall|k: int| 1 <= k && 2 * k < all.len() implies #[trigger] all[2 * k] == newline() by {
        if 2 * k >= lines.len() {
            let i = 2 * k - lines.len();
            let j = (i - 1) / 2;
            assert(i == 2 * j + 1);
            assert(pushed(ls)[2 * j] == ls[j]);
            assert(pushed(ls)[2 * j + 1] == newline());
            assert(all[2 * k] == pushed(ls)[i]);
        }
    }
    assert forall|line: Seq<char>| #[trigger] pushed(seq![line]) == seq![line, newline()] by {
        reveal_with_fuel(pushed, 2);
        assert(seq![line].drop_last() =~= Seq::<Seq<char>>::empty());
        assert(pushed(seq![line]) =~= seq![line, newline()]);
    }
}

/// A builder's first line stays its header: every operation either resets
/// the lines to the header alone or appends after the existing lines.
pub proof fn lemma_header_stays_first(
    header: Seq<char>,
    old_lines: Seq<Seq<char>>,
    added: Seq<Seq<char>>,
)
    requires
        old_lines.len() >= 1,
        old_lines[0] == header,
    ensures
        (old_lines + added).len() >= 1,
        (old_lines + added)[0] == header,
        seq![header][0] == header,
{
}

/// An output declared with `out_global` and the input declared for it with
/// `in_global` carry the same declaration `qualifiers type name;` and differ
/// only in the storage qualifier put in front of it.
pub proof fn lemma_in_out_declarations_match(qualifiers: Seq<char>, ty: Seq<char>, name: Seq<char>)
    ensures
        decl_line("out "@ + qualifiers, ty, name) == "out "@ + decl_line(qualifiers, ty, name),
        decl_line("in "@ + qualifiers, ty, name) == "in "@ + decl_line(qualifiers, ty, name),
{
    assert(decl_line("out "@ + qualifiers, ty, name) =~= "out "@ + decl_line(qualifiers, ty, name));
    assert(decl_line("in "@ + qualifiers, ty, name) =~= "in "@ + decl_line(qualifiers, ty, name));
}

/// The GLSL types the library defines are tightly packed: one value takes
/// as many bytes as its components, at four bytes each.
pub proof fn lemma_packed_types_are_tight()
    ensures
        Sampler2D::spec_stride() == Sampler2D::spec_count() * scalar_bytes(),
        Vec2::spec_stride() == Vec2::spec_count() * scalar_bytes(),
        Vec3::spec_stride() == Vec3::spec_count() * scalar_bytes(),
        Vec4::spec_stride() == Vec4::spec_count() * scalar_bytes(),
        Mat4::spec_stride() == Mat4::spec_count() * scalar_bytes(),
{
}

/// An element buffer filled with `count` indices of type `type_` draws
/// exactly those indices, as triangles.
pub proof fn lemma_draw_uses_recorded_fill(name: GLuint, type_: GLenum, count: GLsizei)
    ensures
        draw_call_for(name, Some((type_, count))) == (GlCall::DrawElements {
            mode: TRIANGLES,
            count,
            type_,
            offset: name as usize,
        }),
{
}

/// A sampler set from a texture unit reads from the unit that the same
/// value makes active: the uniform receives the unit's number unchanged,
/// and `active` selects `TEXTURE0` plus that number.
pub proof fn lemma_sampler_and_active_unit_agree(u: TextureUnit, location: GLint)
    requires
        u.spec_idx() < MAX_COMBINED_TEXTURE_IMAGE_UNITS,
    ensures
        u.uniform_call(location) == (GlCall::Uniform1i { location, v0: u.spec_idx() as GLint }),
        u.spec_idx() as GLint as int == u.spec_idx() as int,
{
}

/// The position of the first event in `es` that stops the event loop, or
/// the length of `es` when none does.
pub open spec fn first_stop(es: Seq<(LoopEvent, bool)>) -> nat
    decreases es.len(),
{
    if es.len() == 0 {
        0
    } else if loop_step_for(es[0].0, es[0].1) == LoopStep::Stop {
        0
    } else {
        1 + first_stop(es.drop_first())
    }
}

/// Events that all let the loop go on, then one that stops it: the stopping
/// one is the first.
proof fn lemma_first_stop(pre: Seq<(LoopEvent, bool)>, last: Option<(LoopEvent, bool)>)
    requires
        forall|i: int| 0 <= i < pre.len() ==> loop_step_for(#[trigger] pre[i].0, pre[i].1) == LoopStep::Process,
        last matches Some(x) ==> loop_step_for(x.0, x.1) == LoopStep::Stop,
    ensures
        first_stop(match last {
            Some(x) => pre.push(x),
            None => pre,
        }) == pre.len(),
    decreases pre.len(),
{
    let all = match last {
        Some(x) => pre.push(x),
        None => pre,
    };
    if pre.len() > 0 {
        let rest = pre.drop_first();
        assert forall|i: int| 0 <= i < rest.len() implies loop_step_for(#[trigger] rest[i].0, rest[i].1)
            == LoopStep::Process by {
            assert(rest[i] == pre[i + 1]);
        }
        lemma_first_stop(rest, last);
        let rest_all = match last {
            Some(x) => rest.push(x),
            None => rest,
        };
        assert(all.drop_first() =~= rest_all);
        assert(all[0] == pre[0]);
        assert(loop_step_for(pre[0].0, pre[0].1) == LoopStep::Process);
    } else {
        match last {
            Some(x) => {
                assert(all[0] == x);
            },
            None => {},
        }
    }
}

/// A run of the event loop hands the demo exactly the events it looked at
/// before the first one that stops it (a quit request, a released Escape
/// key, or any event once time is up), in the order it looked at them, and
/// never that event or any later one: a stopped run looked at nothing after
/// the event it stopped on.  The window is swapped once per `Redraw`
/// answer and never otherwise.
pub proof fn lemma_event_loop_run(l: EventLoop)
    requires
        l.inv(),
    ensures
        l.spec_handled() == l.spec_offered().take(l.spec_handled().len() as int),
        l.spec_handled().len() <= first_stop(l.spec_offered()),
        l.spec_stopped() ==> l.spec_handled().len() == first_stop(l.spec_offered())
            && l.spec_offered().len() == first_stop(l.spec_offered()) + 1,
        !l.spec_stopped() ==> first_stop(l.spec_offered()) == l.spec_offered().len(),
        !l.spec_stopped() && l.spec_pending() is None ==> l.spec_handled() == l.spec_offered(),
        l.spec_results().len() == l.spec_handled().len(),
        l.spec_swaps() == redraw_count(l.spec_results()),
{
    let h = l.spec_handled();
    let o = l.spec_offered();
    assert(o.take(h.len() as int) =~= h);
    if l.spec_stopped() {
        assert(o.drop_last() =~= h);
        lemma_first_stop(h, Some(o.last()));
        assert(h.push(o.last()) =~= o);
    } else {
        match l.spec_pending() {
            Some(p) => {
                let hp = h.push(p);
                assert forall|i: int| 0 <= i < hp.len() implies loop_step_for(#[trigger] hp[i].0, hp[i].1)
                    == LoopStep::Process by {
                    if i < h.len() {
                        assert(hp[i] == h[i]);
                    }
                }
                lemma_first_stop(hp, None);
            },
            None => {
                lemma_first_stop(h, None);
            },
        }
    }
}

/// Joining puts the separator between every two neighbours and nowhere
/// else: no parts join to nothing, one part joins to itself, and joining
/// two non-empty lists one after the other is joining each with one
/// separator between them.  So `n` arguments get `n - 1` separators.
pub proof fn lemma_join_separates_neighbours(
    a: Seq<Seq<char>>,
    b: Seq<Seq<char>>,
    x: Seq<char>,
    sep: Seq<char>,
)
    ensures
        seq_join(Seq::empty(), sep) == Seq::<char>::empty(),
        seq_join(seq![x], sep) == x,
        a.len() > 0 && b.len() > 0 ==> seq_join(a + b, sep) == seq_join(a, sep) + sep + seq_join(b, sep),
    decreases b.len(),
{
    if a.len() > 0 && b.len() > 0 {
        let ab = a + b;
        assert(ab.len() >= 2);
        if b.len() == 1 {
            assert(ab.drop_last() =~= a);
            assert(ab.last() == b[0]);
            assert(seq_join(b, sep) == b[0]);
        } else {
            let b1 = b.drop_last();
            lemma_join_separates_neighbours(a, b1, x, sep);
            assert(ab.drop_last() =~= a + b1);
            assert(ab.last() == b.last());
            assert(seq_join(ab, sep) == seq_join(a + b1, sep) + sep + b.last());
            assert(seq_join(b, sep) == seq_join(b1, sep) + sep + b.last());
            assert(seq_join(ab, sep) =~= seq_join(a, sep) + sep + seq_join(b, sep));
        }
    }
}

/// The two bytes of a `u16` index read back as the index: low byte first
/// in little-endian order, high byte first in big-endian order.
pub proof fn lemma_half_word_bytes_read_back(v: u16, big_endian: bool)
    ensures
        half_word_bytes(v, big_endian).len() == 2,
        !big_endian ==> half_word_bytes(v, big_endian)[0] + 256 * half_word_bytes(v, big_endian)[1] == v,
        big_endian ==> half_word_bytes(v, big_endian)[1] + 256 * half_word_bytes(v, big_endian)[0] == v,
{
    assert(((v % 256) as u8) == v % 256 && ((v / 256) as u8) == v / 256 && v == (v % 256) + 256 * (v
        / 256)) by (bit_vector);
}

/// The four bytes of a `u32` word read back as the word: least significant
/// first in little-endian order, most significant first in big-endian
/// order.
pub proof fn lemma_word_bytes_read_back(w: u32, big_endian: bool)
    ensures
        word_bytes(w, big_endian).len() == 4,
        !big_endian ==> word_bytes(w, big_endian)[0] + 256 * word_bytes(w, big_endian)[1] + 65536
            * word_bytes(w, big_endian)[2] + 16777216 * word_bytes(w, big_endian)[3] == w,
        big_endian ==> word_bytes(w, big_endian)[3] + 256 * word_bytes(w, big_endian)[2] + 65536
            * word_bytes(w, big_endian)[1] + 16777216 * word_bytes(w, big_endian)[0] == w,
{
    assert(((w % 256) as u8) == w % 256 && (((w / 256) % 256) as u8) == (w / 256) % 256 && (((w
        / 65536) % 256) as u8) == (w / 65536) % 256 && ((w / 16777216) as u8) == w / 16777216 && w == (w % 256) + 256 * ((w / 256) % 256) + 65536 * ((w / 65536) % 256) + 16777216 * (w
        / 16777216)) by (bit_vector);
}

/// An index buffer of `u8` indices holds the indices themselves.
pub proof fn lemma_u8_indices_read_back(init: Seq<u8>, big_endian: bool)
    ensures
        index_bytes(init, big_endian) == init,
    decreases init.len(),
{
    if init.len() > 0 {
        lemma_u8_indices_read_back(init.drop_last(), big_endian);
        assert(init.drop_last().push(init.last()) =~= init);
        assert(index_bytes(init, big_endian) =~= init);
    }
}

/// The bytes of `u16` indices, read back two by two in the same byte order,
/// are the indices, in order.
pub proof fn lemma_u16_indices_read_back(init: Seq<u16>, big_endian: bool)
    ensures
        index_bytes(init, big_endian).len() == 2 * init.len(),
        forall|i: int|
            0 <= i < init.len() ==> #[trigger] init[i] == if big_endian {
                index_bytes(init, big_endian)[2 * i + 1] + 256 * index_bytes(init, big_endian)[2 * i]
            } else {
                index_bytes(init, big_endian)[2 * i] + 256 * index_bytes(init, big_endian)[2 * i + 1]
            },
    decreases init.len(),
{
    if init.len() > 0 {
        let pre = init.drop_last();
        lemma_u16_indices_read_back(pre, big_endian);
        lemma_half_word_bytes_read_back(init.last(), big_endian);
        let b = index_bytes(init, big_endian);
        let bp = index_bytes(pre, big_endian);
        let e = half_word_bytes(init.last(), big_endian);
        assert(b == bp + e);
        assert forall|i: int| 0 <= i < init.len() implies #[trigger] init[i] == if big_endian {
            b[2 * i + 1] + 256 * b[2 * i]
        } else {
            b[2 * i] + 256 * b[2 * i + 1]
        } by {
            if i < init.len() - 1 {
                assert(init[i] == pre[i]);
                assert(b[2 * i] == bp[2 * i]);
                assert(b[2 * i + 1] == bp[2 * i + 1]);
            } else {
                assert(b[2 * i] == e[0]);
                assert(b[2 * i + 1] == e[1]);
            }
        }
    }
}

/// The bytes of `u32` indices, read back four by four in the same byte
/// order, are the indices, in order.
pub proof fn lemma_u32_indices_read_back(init: Seq<u32>, big_endian: bool)
    ensures
        index_bytes(init, big_endian).len() == 4 * init.len(),
        forall|i: int|
            0 <= i < init.len() ==> #[trigger] init[i] == if big_endian {
                index_bytes(init, big_endian)[4 * i + 3] + 256 * index_bytes(init, big_endian)[4 * i + 2]
                    + 65536 * index_bytes(init, big_endian)[4 * i + 1] + 16777216 * index_bytes(
                    init,
                    big_endian,
                )[4 * i]
            } else {
                index_bytes(init, big_endian)[4 * i] + 256 * index_bytes(init, big_endian)[4 * i + 1]
                    + 65536 * index_bytes(init, big_endian)[4 * i + 2] + 16777216 * index_bytes(
                    init,
                    big_endian,
                )[4 * i + 3]
            },
    decreases init.len(),
{
    if init.len() > 0 {
        let pre = init.drop_last();
        lemma_u32_indices_read_back(pre, big_endian);
        lemma_word_bytes_read_back(init.last(), big_endian);
        let b = index_bytes(init, big_endian);
        let bp = index_bytes(pre, big_endian);
        let e = word_bytes(init.last(), big_endian);
        assert(b == bp + e);
        assert forall|i: int| 0 <= i < init.len() implies #[trigger] init[i] == if big_endian {
            b[4 * i + 3] + 256 * b[4 * i + 2] + 65536 * b[4 * i + 1] + 16777216 * b[4 * i]
        } else {
            b[4 * i] + 256 * b[4 * i + 1] + 65536 * b[4 * i + 2] + 16777216 * b[4 * i + 3]
        } by {
            if i < init.len() - 1 {
                assert(init[i] == pre[i]);
                assert(b[4 * i] == bp[4 * i]);
                assert(b[4 * i + 1] == bp[4 * i + 1]);
                assert(b[4 * i + 2] == bp[4 * i + 2]);
                assert(b[4 * i + 3] == bp[4 * i + 3]);
            } else {
                assert(b[4 * i] == e[0]);
                assert(b[4 * i + 1] == e[1]);
                assert(b[4 * i + 2] == e[2]);
                assert(b[4 * i + 3] == e[3]);
            }
        }
    }
}

/// The value of a decimal digit character.
pub open spec fn digit_value(c: char) -> int {
    c as int - '0' as int
}

/// Each GLSL type's component count is what its GLSL name says: `vecN`
/// has `N` floats, `mat4` four columns of four, a sampler is one value;
/// and its packed stride is four bytes per component.
pub proof fn lemma_component_counts_follow_names()
    ensures
        Vec2::glsl_type_name().take(3) == seq!['v', 'e', 'c'] && Vec2::spec_count() == digit_value(
            Vec2::glsl_type_name().last(),
        ),
        Vec3::glsl_type_name().take(3) == seq!['v', 'e', 'c'] && Vec3::spec_count() == digit_value(
            Vec3::glsl_type_name().last(),
        ),
        Vec4::glsl_type_name().take(3) == seq!['v', 'e', 'c'] && Vec4::spec_count() == digit_value(
            Vec4::glsl_type_name().last(),
        ),
        Mat4::glsl_type_name().take(3) == seq!['m', 'a', 't'] && Mat4::spec_count() == digit_value(
            Mat4::glsl_type_name().last(),
        ) * digit_value(Mat4::glsl_type_name().last()),
        Sampler2D::glsl_type_name().take(7) == seq!['s', 'a', 'm', 'p', 'l', 'e', 'r']
            && Sampler2D::spec_count() == 1,
        Vec2::spec_stride() == Vec2::spec_count() * scalar_bytes(),
        Vec3::spec_stride() == Vec3::spec_count() * scalar_bytes(),
        Vec4::spec_stride() == Vec4::spec_count() * scalar_bytes(),
        Mat4::spec_stride() == Mat4::spec_count() * scalar_bytes(),
        Sampler2D::spec_stride() == Sampler2D::spec_count() * scalar_bytes(),
{
    assert(Vec2::glsl_type_name().take(3) =~= seq!['v', 'e', 'c']);
    assert(Vec3::glsl_type_name().take(3) =~= seq!['v', 'e', 'c']);
    assert(Vec4::glsl_type_name().take(3) =~= seq!['v', 'e', 'c']);
    assert(Mat4::glsl_type_name().take(3) =~= seq!['m', 'a', 't']);
    assert(digit_value(Mat4::glsl_type_name().last()) == 4);
    assert(Sampler2D::glsl_type_name().take(7) =~= seq!['s', 'a', 'm', 'p', 'l', 'e', 'r']);
}

/// The three GL (format, type) pairs the converter produces each belong to
/// an accepted SDL format (BGRA8888 read byte by byte, RGBA8888 as packed
/// `8_8_8_8`, ARGB8888 as reversed `8_8_8_8`), every accepted format gets
/// one of them, and no two accepted formats share one.
pub proof fn lemma_accepted_formats_cover_gl_pairs(f: SdlPixelFormat, g: SdlPixelFormat)
    ensures
        exists|a: SdlPixelFormat| has_gl_equivalent(a) && gl_format_type(a) == (BGRA, UNSIGNED_BYTE),
        exists|a: SdlPixelFormat|
            has_gl_equivalent(a) && gl_format_type(a) == (RGBA, UNSIGNED_INT_8_8_8_8),
        exists|a: SdlPixelFormat|
            has_gl_equivalent(a) && gl_format_type(a) == (BGRA, UNSIGNED_INT_8_8_8_8_REV),
        has_gl_equivalent(f) ==> gl_format_type(f) == (BGRA, UNSIGNED_BYTE) || gl_format_type(f) == (
            RGBA,
            UNSIGNED_INT_8_8_8_8,
        ) || gl_format_type(f) == (BGRA, UNSIGNED_INT_8_8_8_8_REV),
        has_gl_equivalent(f) && has_gl_equivalent(g) && f != g ==> gl_format_type(f)
            != gl_format_type(g),
{
    assert(has_gl_equivalent(SdlPixelFormat::BGRA8888));
    assert(has_gl_equivalent(SdlPixelFormat::RGBA8888));
    assert(has_gl_equivalent(SdlPixelFormat::ARGB8888));
    assert(gl_format_type(SdlPixelFormat::BGRA8888) == (BGRA, UNSIGNED_BYTE));
    assert(gl_format_type(SdlPixelFormat::RGBA8888) == (RGBA, UNSIGNED_INT_8_8_8_8));
    assert(gl_format_type(SdlPixelFormat::ARGB8888) == (BGRA, UNSIGNED_INT_8_8_8_8_REV));
}

/// `gl` and `hello` select their demo whatever follows them on the command
/// line, and only the four demo names select anything.
pub proof fn lemma_demo_selection(variant: Seq<char>, arg0: Option<Seq<char>>)
    ensures
        demo_for("gl"@, arg0) == Some(Demo::Gl),
        demo_for("hello"@, arg0) == Some(Demo::Hello),
        demo_for(variant, arg0) is Some ==> variant == "gl"@ || variant == "hello"@ || variant
            == "glsl-cookbook"@ || variant == "gl-superbible"@,
        demo_for("glsl-cookbook"@, arg0) is Some <==> arg0 == Some("1"@) || arg0 == Some("2"@)
            || arg0 == Some("3"@),
        demo_for("gl-superbible"@, arg0) is Some <==> arg0 == Some("1"@) || arg0 == Some("2"@)
            || arg0 == Some("3"@) || arg0 == Some("4"@),
{
    reveal_strlit("gl");
    reveal_strlit("hello");
    reveal_strlit("glsl-cookbook");
    reveal_strlit("gl-superbible");
    assert("hello"@ != "gl"@) by {
        assert("hello"@.len() != "gl"@.len());
    }
    assert("glsl-cookbook"@ != "gl"@ && "glsl-cookbook"@ != "hello"@) by {
        assert("glsl-cookbook"@.len() != "gl"@.len());
        assert("glsl-cookbook"@.len() != "hello"@.len());
    }
    assert("gl-superbible"@ != "gl"@ && "gl-superbible"@ != "hello"@ && "gl-superbible"@
        != "glsl-cookbook"@) by {
        assert("gl-superbible"@.len() != "gl"@.len());
        assert("gl-superbible"@.len() != "hello"@.len());
        assert("gl-superbible"@[2] != "glsl-cookbook"@[2]);
    }
}

/// Each numbered demo has its own command line: the series name and the
/// number that follows it select that demo and no other.
pub proof fn lemma_numbered_demos(series: Seq<char>, n: Seq<char>, m: Seq<char>)
    ensures
        demo_for(series, Some(n)) is Some && demo_for(series, Some(n)) == demo_for(series, Some(m))
            && (series == "glsl-cookbook"@ || series == "gl-superbible"@) ==> n == m,
{
    reveal_strlit("gl");
    reveal_strlit("hello");
    reveal_strlit("glsl-cookbook");
    reveal_strlit("gl-superbible");
    reveal_strlit("1");
    reveal_strlit("2");
    reveal_strlit("3");
    reveal_strlit("4");
    assert("glsl-cookbook"@.len() != "gl"@.len() && "glsl-cookbook"@.len() != "hello"@.len());
    assert("gl-superbible"@.len() != "gl"@.len() && "gl-superbible"@.len() != "hello"@.len());
    assert("gl-superbible"@[2] != "glsl-cookbook"@[2]);
}

} // verus!
