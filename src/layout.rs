use vstd::prelude::*;

use crate::atlas::{lemma_strip_disjoint, packed, Atlas, Glyph, END_CODE, FIRST_CODE};
use crate::math::{Vec2, Vec4};
use crate::vertex::{coord, in_i64, rect_vertices, Renderer, TexCoord, Vertex};

verus! {

/// The table entry that lays out `c`: its own when it is printable ASCII,
/// that of `?` otherwise.
pub open spec fn glyph_index(c: char) -> int {
    if packed(c as int) {
        c as int
    } else {
        '?' as int
    }
}

pub open spec fn glyph_for(a: Atlas, c: char) -> Glyph {
    a.glyphs@[glyph_index(c)]
}

/// Left edge of the quad of `g` drawn with the pen at `px`.
pub open spec fn quad_left(g: Glyph, px: int) -> int {
    px + g.bearing.x
}

/// Bottom edge of the quad of `g` drawn with the pen at `py` (y grows upwards):
/// the top edge lies `bearing.y` above the baseline.
pub open spec fn quad_bottom(g: Glyph, py: int) -> int {
    py + g.bearing.y - g.height
}

/// The six vertices of `g` drawn with the pen at `(px, py)`: its bitmap
/// rectangle offset from the pen by the bearing, textured with the glyph's
/// columns `[offset, offset + width)` and rows `[0, height)` of the atlas.
pub open spec fn glyph_quad(a: Atlas, g: Glyph, px: int, py: int, color: Vec4) -> Seq<Vertex> {
    let (u0, u1) = (g.offset as int, g.offset + g.width);
    rect_vertices(
        quad_left(g, px),
        quad_bottom(g, py),
        g.width as int,
        g.height as int,
        color,
        coord(u0, g.height as int, a.width as int, a.height as int),
        coord(u1, g.height as int, a.width as int, a.height as int),
        coord(u1, 0, a.width as int, a.height as int),
        coord(u0, 0, a.width as int, a.height as int),
    )
}

/// The pen's x after laying out `text` from `x`.
pub open spec fn pen_x(a: Atlas, text: Seq<char>, x: int) -> int
    decreases text.len(),
{
    if text.len() == 0 {
        x
    } else {
        pen_x(a, text.drop_last(), x) + glyph_for(a, text.last()).advance.x
    }
}

/// The pen's y after laying out `text` from `y`.
pub open spec fn pen_y(a: Atlas, text: Seq<char>, y: int) -> int
    decreases text.len(),
{
    if text.len() == 0 {
        y
    } else {
        pen_y(a, text.drop_last(), y) + glyph_for(a, text.last()).advance.y
    }
}

/// The vertices that laying out `text` from the pen `(x, y)` appends: one
/// glyph quad per character, each drawn where the previous ones left the pen.
pub open spec fn layout(a: Atlas, text: Seq<char>, x: int, y: int, color: Vec4) -> Seq<Vertex>
    decreases text.len(),
{
    if text.len() == 0 {
        Seq::empty()
    } else {
        let init = text.drop_last();
        layout(a, init, x, y, color) + glyph_quad(
            a,
            glyph_for(a, text.last()),
            pen_x(a, init, x),
            pen_y(a, init, y),
            color,
        )
    }
}

/// Whether the quad of `g` drawn with the pen at `(px, py)` has all its
/// coordinates within `i64`.
pub open spec fn quad_fits(g: Glyph, px: int, py: int) -> bool {
    &&& in_i64(quad_left(g, px))
    &&& in_i64(quad_left(g, px) + g.width)
    &&& in_i64(quad_bottom(g, py))
    &&& in_i64(quad_bottom(g, py) + g.height)
}

/// Whether every pen position and every quad coordinate of laying out
/// `text` from `(x, y)` is within `i64`.
pub open spec fn layout_fits(a: Atlas, text: Seq<char>, x: int, y: int) -> bool {
    &&& forall|k: int|
        0 <= k <= text.len() ==> in_i64(#[trigger] pen_x(a, text.take(k), x)) && in_i64(
            pen_y(a, text.take(k), y),
        )
    &&& forall|k: int|
        0 <= k < text.len() ==> quad_fits(
            glyph_for(a, #[trigger] text[k]),
            pen_x(a, text.take(k), x),
            pen_y(a, text.take(k), y),
        )
}

/// The table index that lays out `c`.
pub fn glyph_slot(c: char) -> (i: usize)
    ensures
        i == glyph_index(c),
        packed(i as int),
{
    let code = c as u32;
    if FIRST_CODE <= code && code < END_CODE {
        code as usize
    } else {
        '?' as usize
    }
}

/// Appends the quad of `c` drawn with the pen at `(x, y)`.
pub fn draw_character(atlas: &Atlas, rd: &mut Renderer, c: char, x: i64, y: i64, color: Vec4)
    requires
        atlas.wf(),
        quad_fits(glyph_for(*atlas, c), x as int, y as int),
    ensures
        final(rd).vertices@ == old(rd).vertices@ + glyph_quad(
            *atlas,
            glyph_for(*atlas, c),
            x as int,
            y as int,
            color,
        ),
        final(rd).buffer_size == old(rd).buffer_size,
        final(rd).width == old(rd).width,
        final(rd).height == old(rd).height,
{
    let i = glyph_slot(c);
    let g = atlas.glyphs[i];
    proof {
        let j: int = if i == 32 { 33 } else { 32 };
        lemma_strip_disjoint(*atlas, i as int, j);
    }
    let left = x + g.bearing.x;
    let bottom = y + g.bearing.y - g.height;
    let right = g.offset + g.width;
    let bl = TexCoord { u: g.offset, v: g.height, width: atlas.width, height: atlas.height };
    let br = TexCoord { u: right, v: g.height, width: atlas.width, height: atlas.height };
    let tr = TexCoord { u: right, v: 0, width: atlas.width, height: atlas.height };
    let tl = TexCoord { u: g.offset, v: 0, width: atlas.width, height: atlas.height };
    rd.rect(left, bottom, g.width, g.height, color, bl, br, tr, tl);
}

/// Laying out one more character of `t` appends its quad at the pen that the
/// characters before it left, and moves the pen by its advance.
proof fn lemma_layout_step(a: Atlas, t: Seq<char>, k: int, x: int, y: int, color: Vec4)
    requires
        0 <= k < t.len(),
    ensures
        layout(a, t.take(k + 1), x, y, color) == layout(a, t.take(k), x, y, color) + glyph_quad(
            a,
            glyph_for(a, t[k]),
            pen_x(a, t.take(k), x),
            pen_y(a, t.take(k), y),
            color,
        ),
        pen_x(a, t.take(k + 1), x) == pen_x(a, t.take(k), x) + glyph_for(a, t[k]).advance.x,
        pen_y(a, t.take(k + 1), y) == pen_y(a, t.take(k), y) + glyph_for(a, t[k]).advance.y,
{
    assert(t.take(k + 1).drop_last() =~= t.take(k));
    assert(t.take(k + 1).last() == t[k]);
}

impl Atlas {
    /// Lays out `text` on one baseline from the pen `(x, y)`, appending one
    /// glyph quad per character to the batch, and returns where the pen ends.
    pub fn draw_text(&self, rd: &mut Renderer, text: &str, x: i64, y: i64, color: Vec4) -> (pen:
        Vec2)
        requires
            self.wf(),
            layout_fits(*self, text@, x as int, y as int),
        ensures
            final(rd).vertices@ == old(rd).vertices@ + layout(
                *self,
                text@,
                x as int,
                y as int,
                color,
            ),
            pen.x == pen_x(*self, text@, x as int),
            pen.y == pen_y(*self, text@, y as int),
            final(rd).buffer_size == old(rd).buffer_size,
            final(rd).width == old(rd).width,
            final(rd).height == old(rd).height,
    {
        let ghost start = rd.vertices@;
        let ghost t = text@;
        let mut px = x;
        let mut py = y;
        for c in it: text.chars()
            invariant
                it.seq() == t,
                t == text@,
                self.wf(),
                layout_fits(*self, t, x as int, y as int),
                rd.vertices@ == start + layout(*self, t.take(it.index() as int), x as int, y as int, color),
                px == pen_x(*self, t.take(it.index() as int), x as int),
                py == pen_y(*self, t.take(it.index() as int), y as int),
                rd.buffer_size == old(rd).buffer_size,
                rd.width == old(rd).width,
                rd.height == old(rd).height,
        {
            let ghost k = it.index() as int;
            proof {
                lemma_layout_step(*self, t, k, x as int, y as int, color);
            }
            draw_character(self, rd, c, px, py, color);
            let g = self.glyphs[glyph_slot(c)];
            px = px + g.advance.x;
            py = py + g.advance.y;
        }
        proof {
            assert(t.take(t.len() as int) =~= t);
        }
        Vec2 { x: px, y: py }
    }
}

/// Lays out `text` from the pen `pos`; see [`Atlas::draw_text`].
pub fn draw_line(atlas: &Atlas, rd: &mut Renderer, text: &str, pos: Vec2, color: Vec4) -> (pen: Vec2)
    requires
        atlas.wf(),
        layout_fits(*atlas, text@, pos.x as int, pos.y as int),
    ensures
        final(rd).vertices@ == old(rd).vertices@ + layout(
            *atlas,
            text@,
            pos.x as int,
            pos.y as int,
            color,
        ),
        pen.x == pen_x(*atlas, text@, pos.x as int),
        pen.y == pen_y(*atlas, text@, pos.y as int),
        final(rd).buffer_size == old(rd).buffer_size,
        final(rd).width == old(rd).width,
        final(rd).height == old(rd).height,
{
    atlas.draw_text(rd, text, pos.x, pos.y, color)
}

/// Whether laying out `text` from `(x, y)` keeps every coordinate within
/// `i64`, which [`Atlas::draw_text`] requires.
pub fn fits_layout(atlas: &Atlas, text: &str, x: i64, y: i64) -> (r: bool)
    requires
        atlas.wf(),
    ensures
        r == layout_fits(*atlas, text@, x as int, y as int),
{
    let ghost t = text@;
    let mut px: i64 = x;
    let mut py: i64 = y;
    for c in it: text.chars()
        invariant
            it.seq() == t,
            t == text@,
            atlas.wf(),
            px == pen_x(*atlas, t.take(it.index() as int), x as int),
            py == pen_y(*atlas, t.take(it.index() as int), y as int),
            forall|k: int|
                0 <= k <= it.index() ==> in_i64(#[trigger] pen_x(*atlas, t.take(k), x as int))
                    && in_i64(pen_y(*atlas, t.take(k), y as int)),
            forall|k: int|
                0 <= k < it.index() ==> quad_fits(
                    glyph_for(*atlas, #[trigger] t[k]),
                    pen_x(*atlas, t.take(k), x as int),
                    pen_y(*atlas, t.take(k), y as int),
                ),
    {
        let ghost k = it.index() as int;
        proof {
            lemma_layout_step(*atlas, t, k, x as int, y as int, Vec4 { x: 0, y: 0, z: 0, w: 0 });
        }
        let g = atlas.glyphs[glyph_slot(c)];
        let left = px as i128 + g.bearing.x as i128;
        let bottom = py as i128 + g.bearing.y as i128 - g.height as i128;
        let next_x = px as i128 + g.advance.x as i128;
        let next_y = py as i128 + g.advance.y as i128;
        let min = i64::MIN as i128;
        let max = i64::MAX as i128;
        if left < min || left > max || left + (g.width as i128) < min || left + (g.width as i128) > max
            || bottom < min || bottom > max || bottom + (g.height as i128) < min || bottom + (
        g.height as i128) > max {
            assert(!quad_fits(glyph_for(*atlas, t[k]), px as int, py as int));
            return false;
        }
        if next_x < min || next_x > max || next_y < min || next_y > max {
            assert(!in_i64(pen_x(*atlas, t.take(k + 1), x as int)) || !in_i64(
                pen_y(*atlas, t.take(k + 1), y as int),
            ));
            return false;
        }
        px = next_x as i64;
        py = next_y as i64;
    }
    proof {
        assert(t.take(t.len() as int) =~= t);
    }
    true
}

/// Laying out a character outside the printable ASCII table appends exactly
/// what laying out `?` does, and moves the pen as `?` does.
pub proof fn lemma_fallback_glyph(a: Atlas, c: char, x: int, y: int, color: Vec4)
    requires
        !packed(c as int),
    ensures
        layout(a, seq![c], x, y, color) == layout(a, seq!['?'], x, y, color),
        pen_x(a, seq![c], x) == pen_x(a, seq!['?'], x),
        pen_y(a, seq![c], y) == pen_y(a, seq!['?'], y),
{
    assert(seq![c].drop_last() =~= Seq::<char>::empty());
    assert(seq!['?'].drop_last() =~= Seq::<char>::empty());
    assert(glyph_index('?') == '?' as int);
}

/// Laying out the empty string appends nothing and leaves the pen where it was.
pub proof fn lemma_empty_text(a: Atlas, x: int, y: int, color: Vec4)
    ensures
        layout(a, Seq::empty(), x, y, color) == Seq::<Vertex>::empty(),
        pen_x(a, Seq::empty(), x) == x,
        pen_y(a, Seq::empty(), y) == y,
{
}

/// Twice the signed area of the triangle `p, q, r`: positive when its corners
/// run counter-clockwise (y grows upwards).
pub open spec fn twice_area(p: Vertex, q: Vertex, r: Vertex) -> int {
    (q.position.x - p.position.x) * (r.position.y - p.position.y) - (q.position.y - p.position.y)
        * (r.position.x - p.position.x)
}

/// Laying out one character appends six vertices: two triangles that each
/// cover the glyph's whole bitmap rectangle with positive orientation
/// (counter-clockwise whenever the glyph is not empty), whose bounding box
/// runs from the pen plus the bearing to that corner plus the bitmap size.
pub proof fn lemma_single_glyph(a: Atlas, c: char, x: int, y: int, color: Vec4)
    requires
        a.wf(),
        quad_fits(glyph_for(a, c), x, y),
    ensures
        ({
            let v = layout(a, seq![c], x, y, color);
            let g = glyph_for(a, c);
            let (x0, y0) = (x + g.bearing.x, y + g.bearing.y - g.height);
            &&& v.len() == 6
            &&& twice_area(v[0], v[1], v[2]) == g.width * g.height >= 0
            &&& twice_area(v[3], v[4], v[5]) == g.width * g.height
            &&& v[0].position == Vec2 { x: x0 as i64, y: y0 as i64 }
            &&& v[2].position == Vec2 { x: (x0 + g.width) as i64, y: (y0 + g.height) as i64 }
            &&& forall|i: int|
                0 <= i < 6 ==> x0 <= #[trigger] v[i].position.x <= x0 + g.width && y0
                    <= v[i].position.y <= y0 + g.height
        }),
{
    let g = glyph_for(a, c);
    assert(packed(glyph_index(c)));
    assert(0 <= g.width && 0 <= g.height);
    let e = Seq::<char>::empty();
    assert(seq![c].drop_last() =~= e);
    assert(seq![c].last() == c);
    assert(layout(a, e, x, y, color) == Seq::<Vertex>::empty());
    assert(pen_x(a, e, x) == x);
    assert(pen_y(a, e, y) == y);
    let v = layout(a, seq![c], x, y, color);
    assert(v =~= glyph_quad(a, g, x, y, color));
    let (x0, y0) = (x + g.bearing.x, y + g.bearing.y - g.height);
    assert(v.len() == 6);
    assert(v[0].position.x == x0 && v[0].position.y == y0);
    assert(v[1].position.x == x0 + g.width && v[1].position.y == y0);
    assert(v[2].position.x == x0 + g.width && v[2].position.y == y0 + g.height);
    assert(v[3] == v[2] && v[5] == v[0]);
    assert(v[4].position.x == x0 && v[4].position.y == y0 + g.height);
    assert(twice_area(v[0], v[1], v[2]) == g.width * g.height) by (nonlinear_arith)
        requires
            v[1].position.x - v[0].position.x == g.width,
            v[2].position.y - v[0].position.y == g.height,
            v[1].position.y - v[0].position.y == 0,
    ;
    assert(twice_area(v[3], v[4], v[5]) == g.width * g.height) by (nonlinear_arith)
        requires
            v[4].position.x - v[3].position.x == -g.width,
            v[5].position.y - v[3].position.y == -g.height,
            v[4].position.y - v[3].position.y == 0,
            v[5].position.x - v[3].position.x == -g.width,
    ;
    assert(g.width * g.height >= 0) by (nonlinear_arith)
        requires
            0 <= g.width,
            0 <= g.height,
    ;
}

/// The advances of the characters of `text`, added up from the first.
pub open spec fn advance_sum(a: Atlas, text: Seq<char>) -> int
    decreases text.len(),
{
    if text.len() == 0 {
        0
    } else {
        glyph_for(a, text[0]).advance.x + advance_sum(a, text.drop_first())
    }
}

proof fn lemma_advance_sum_push(a: Atlas, text: Seq<char>, c: char)
    ensures
        advance_sum(a, text.push(c)) == advance_sum(a, text) + glyph_for(a, c).advance.x,
    decreases text.len(),
{
    let s = text.push(c);
    assert(s[0] == if text.len() > 0 { text[0] } else { c });
    if text.len() > 0 {
        assert(s.drop_first() =~= text.drop_first().push(c));
        lemma_advance_sum_push(a, text.drop_first(), c);
    } else {
        assert(s.drop_first() =~= Seq::<char>::empty());
        assert(advance_sum(a, Seq::<char>::empty()) == 0);
    }
}

/// Laying out `text` moves the pen's x by each character's advance in turn:
/// after `k + 1` characters it stands the advance of character `k` past where
/// it stood after `k`, and at the end it stands the sum of all the advances
/// past the start.  With no negative advance it never moves left.
pub proof fn lemma_pen_advances(a: Atlas, text: Seq<char>, x: int)
    ensures
        pen_x(a, text, x) == x + advance_sum(a, text),
        forall|k: int|
            0 <= k < text.len() ==> #[trigger] pen_x(a, text.take(k + 1), x) == pen_x(
                a,
                text.take(k),
                x,
            ) + glyph_for(a, text[k]).advance.x,
        (forall|k: int| 0 <= k < text.len() ==> glyph_for(a, #[trigger] text[k]).advance.x >= 0)
            ==> forall|k: int, l: int|
            0 <= k <= l <= text.len() ==> #[trigger] pen_x(a, text.take(k), x) <= #[trigger] pen_x(
                a,
                text.take(l),
                x,
            ),
    decreases text.len(),
{
    assert forall|k: int| 0 <= k < text.len() implies #[trigger] pen_x(a, text.take(k + 1), x)
        == pen_x(a, text.take(k), x) + glyph_for(a, text[k]).advance.x by {
        assert(text.take(k + 1).drop_last() =~= text.take(k));
    }
    if text.len() > 0 {
        let init = text.drop_last();
        lemma_pen_advances(a, init, x);
        assert(init.push(text.last()) =~= text);
        lemma_advance_sum_push(a, init, text.last());
    }
    if forall|k: int| 0 <= k < text.len() ==> glyph_for(a, #[trigger] text[k]).advance.x >= 0 {
        assert forall|k: int, l: int| 0 <= k <= l <= text.len() implies #[trigger] pen_x(
            a,
            text.take(k),
            x,
        ) <= #[trigger] pen_x(a, text.take(l), x) by {
            lemma_pen_monotone(a, text, x, k, l);
        }
    }
}

/// Laying out `text` leaves the pen on its baseline when no character's
/// advance has a vertical part, as with horizontal fonts.
pub proof fn lemma_pen_stays_on_baseline(a: Atlas, text: Seq<char>, y: int)
    requires
        forall|k: int| 0 <= k < text.len() ==> glyph_for(a, #[trigger] text[k]).advance.y == 0,
    ensures
        forall|k: int| 0 <= k <= text.len() ==> #[trigger] pen_y(a, text.take(k), y) == y,
{
    assert forall|k: int| 0 <= k <= text.len() implies #[trigger] pen_y(a, text.take(k), y) == y by {
        lemma_pen_y_prefix(a, text, y, k);
    }
}

proof fn lemma_pen_y_prefix(a: Atlas, text: Seq<char>, y: int, k: int)
    requires
        0 <= k <= text.len(),
        forall|i: int| 0 <= i < text.len() ==> glyph_for(a, #[trigger] text[i]).advance.y == 0,
    ensures
        pen_y(a, text.take(k), y) == y,
    decreases k,
{
    if k > 0 {
        lemma_pen_y_prefix(a, text, y, k - 1);
        assert(text.take(k).drop_last() =~= text.take(k - 1));
        assert(text.take(k).last() == text[k - 1]);
    } else {
        assert(text.take(0) =~= Seq::<char>::empty());
    }
}

proof fn lemma_pen_monotone(a: Atlas, text: Seq<char>, x: int, k: int, l: int)
    requires
        0 <= k <= l <= text.len(),
        forall|i: int| 0 <= i < text.len() ==> glyph_for(a, #[trigger] text[i]).advance.x >= 0,
    ensures
        pen_x(a, text.take(k), x) <= pen_x(a, text.take(l), x),
    decreases l - k,
{
    if k < l {
        lemma_pen_monotone(a, text, x, k, l - 1);
        assert(text.take(l).drop_last() =~= text.take(l - 1));
        assert(text.take(l).last() == text[l - 1]);
    }
}

} // verus!
