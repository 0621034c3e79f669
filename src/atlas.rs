use vstd::prelude::*;

use crate::math::Vec2;

verus! {

/// Number of entries in a glyph table: one per 7-bit code.
pub const GLYPH_METRICS_CAPACITY: usize = 128;

/// First code packed into the atlas (space).
pub const FIRST_CODE: u32 = 32;

/// One past the last code packed into the atlas (`~` is the last).
pub const END_CODE: u32 = 127;

/// What the rasterizer reports for one glyph: the advance in 1/64 pixel,
/// the bitmap size, the bytes from one bitmap row to the next (`pitch`,
/// negative for a bottom-up bitmap) and the bearings in pixels.
#[derive(Clone, Copy, Debug, PartialEq, Eq, Structural)]
pub struct GlyphMetrics {
    pub advance_x: i64,
    pub advance_y: i64,
    pub width: i32,
    pub rows: i32,
    pub pitch: i32,
    pub left: i32,
    pub top: i32,
}

/// What FreeType renders for `code` from the font file `font` at `pixel_size`
/// pixels: the metrics and the coverage bytes, or nothing where it fails.
pub uninterp spec fn rasterized(font: Seq<u8>, pixel_size: u32, code: u32) -> Option<(GlyphMetrics, Seq<u8>)>;

/// Whether the coverage buffer of a bitmap with these metrics has a size
/// that freetype's `Bitmap::buffer` computes without overflow: it takes
/// `pitch.abs() * rows` in `i32`.
pub open spec fn coverage_fits(m: GlyphMetrics) -> bool {
    &&& 0 <= m.rows
    &&& i32::MIN < m.pitch
    &&& (if m.pitch < 0 { -m.pitch } else { m.pitch as int }) * m.rows <= i32::MAX
}

#[verifier::external_type_specification]
#[verifier::external_body]
pub struct ExFreetypeError(freetype::Error);

/// Relies on freetype's `Library::init`, `Library::new_memory_face2`,
/// `Face::set_pixel_sizes`, `Face::load_char` with `LoadFlag::RENDER` and
/// `GlyphSlot::render_glyph`, then reads the slot's advance, bearings and
/// bitmap size (not its buffer): the result depends on the font bytes, the
/// size and the code alone.
#[verifier::external_body]
fn render_metrics(font: &[u8], pixel_size: u32, code: u32) -> (r: Result<GlyphMetrics, freetype::Error>)
    ensures
        match r {
            Ok(m) => rasterized(font@, pixel_size, code) is Some && rasterized(
                font@,
                pixel_size,
                code,
            )->Some_0.0 == m,
            Err(_) => rasterized(font@, pixel_size, code) is None,
        },
{
    let library = freetype::Library::init()?;
    let face = library.new_memory_face2(font, 0)?;
    face.set_pixel_sizes(0, pixel_size)?;
    face.load_char(code as usize, freetype::face::LoadFlag::RENDER)?;
    let slot = face.glyph();
    slot.render_glyph(freetype::RenderMode::Normal)?;
    let (advance, bitmap) = (slot.advance(), slot.bitmap());
    Ok(GlyphMetrics { advance_x: advance.x as i64, advance_y: advance.y as i64,
        width: bitmap.width(), rows: bitmap.rows(), pitch: bitmap.pitch(),
        left: slot.bitmap_left(), top: slot.bitmap_top() })
}

/// Relies on the same freetype calls as `render_metrics`, then on
/// `Bitmap::buffer` for the coverage bytes.  `Bitmap::buffer` overflows on a
/// bitmap whose `pitch.abs() * rows` leaves `i32`, so such glyphs are left out.
#[verifier::external_body]
fn render_coverage(font: &[u8], pixel_size: u32, code: u32) -> (r: Result<Vec<u8>, freetype::Error>)
    requires
        rasterized(font@, pixel_size, code) is Some,
        coverage_fits(rasterized(font@, pixel_size, code)->Some_0.0),
    ensures
        match r {
            Ok(c) => rasterized(font@, pixel_size, code)->Some_0.1 == c@,
            Err(_) => rasterized(font@, pixel_size, code) is None,
        },
{
    let library = freetype::Library::init()?;
    let face = library.new_memory_face2(font, 0)?;
    face.set_pixel_sizes(0, pixel_size)?;
    face.load_char(code as usize, freetype::face::LoadFlag::RENDER)?;
    let slot = face.glyph();
    slot.render_glyph(freetype::RenderMode::Normal)?;
    Ok(slot.bitmap().buffer().to_vec())
}

/// Layout metrics of one glyph, in pixels, and where its bitmap starts in
/// the atlas strip, in texels from the left edge.
#[derive(Clone, Copy, Debug, PartialEq, Eq, Structural, Default)]
pub struct Glyph {
    pub advance: Vec2,
    pub width: i64,
    pub height: i64,
    pub bearing: Vec2,
    pub offset: i64,
}

/// Why an atlas could not be built.
#[derive(Clone, Copy, Debug, PartialEq, Eq, Structural)]
pub enum FontError {
    /// The rasterizer failed on this code.
    Rasterize { code: u32 },
    /// The rasterizer reported a bitmap for this code with a negative size,
    /// or with a coverage buffer too large to read.
    BadBitmap { code: u32 },
}

/// A single-row coverage texture holding the printable ASCII glyphs side by
/// side, with the layout metrics of every 7-bit code.  Codes outside the
/// printable range have blank metrics and empty bitmaps.
pub struct Atlas {
    pub width: i64,
    pub height: i64,
    pub glyphs: Vec<Glyph>,
    pub bitmaps: Vec<Vec<u8>>,
}

/// Whether `c` is a code that the atlas packs.
pub open spec fn packed(c: int) -> bool {
    FIRST_CODE <= c < END_CODE
}

/// Total width of the glyphs `glyphs[32..end]`.
pub open spec fn strip_end(glyphs: Seq<Glyph>, end: int) -> int
    decreases end,
{
    if end <= FIRST_CODE {
        0
    } else {
        strip_end(glyphs, end - 1) + glyphs[end - 1].width
    }
}

impl Atlas {
    /// The packing invariant: a full table whose printable glyphs have
    /// non-negative sizes and lie left to right in code order, each starting
    /// where the previous one ends; the atlas is exactly as wide as all of
    /// them and as tall as the tallest.
    pub open spec fn wf(&self) -> bool {
        &&& self.glyphs@.len() == GLYPH_METRICS_CAPACITY
        &&& self.bitmaps@.len() == GLYPH_METRICS_CAPACITY
        &&& self.width == strip_end(self.glyphs@, END_CODE as int)
        &&& 0 <= self.height
        &&& forall|c: int|
            #![trigger self.glyphs@[c]]
            packed(c) ==> {
                &&& 0 <= self.glyphs@[c].width
                &&& 0 <= self.glyphs@[c].height <= self.height
                &&& self.glyphs@[c].offset == strip_end(self.glyphs@, c)
            }
    }
}

/// Whether the rasterizer renders `code` with a bitmap of non-negative size
/// whose coverage buffer can be read.
pub open spec fn usable(font: Seq<u8>, pixel_size: u32, code: int) -> bool {
    &&& rasterized(font, pixel_size, code as u32) is Some
    &&& rasterized(font, pixel_size, code as u32)->Some_0.0.width >= 0
    &&& coverage_fits(rasterized(font, pixel_size, code as u32)->Some_0.0)
}

/// Whether every code from 32 up to `end` is usable.
pub open spec fn usable_below(font: Seq<u8>, pixel_size: u32, end: int) -> bool {
    forall|k: int| FIRST_CODE <= k < end ==> #[trigger] usable(font, pixel_size, k)
}

pub open spec fn metrics_of(font: Seq<u8>, pixel_size: u32, code: int) -> GlyphMetrics {
    rasterized(font, pixel_size, code as u32)->Some_0.0
}

/// Total bitmap width of the codes from 32 up to `end`.
pub open spec fn strip_width(font: Seq<u8>, pixel_size: u32, end: int) -> int
    decreases end,
{
    if end <= FIRST_CODE {
        0
    } else {
        strip_width(font, pixel_size, end - 1) + metrics_of(font, pixel_size, end - 1).width
    }
}

/// Greatest bitmap height of the codes from 32 up to `end`, 0 for none.
pub open spec fn strip_height(font: Seq<u8>, pixel_size: u32, end: int) -> int
    decreases end,
{
    if end <= FIRST_CODE {
        0
    } else {
        let rows = metrics_of(font, pixel_size, end - 1).rows as int;
        let below = strip_height(font, pixel_size, end - 1);
        if below < rows {
            rows
        } else {
            below
        }
    }
}

/// The glyph entry of a code packed at `offset`: the advance converted from
/// 1/64 pixel by an arithmetic shift.
pub open spec fn glyph_from(m: GlyphMetrics, offset: int) -> Glyph {
    Glyph {
        advance: Vec2 { x: m.advance_x >> 6, y: m.advance_y >> 6 },
        width: m.width as i64,
        height: m.rows as i64,
        bearing: Vec2 { x: m.left as i64, y: m.top as i64 },
        offset: offset as i64,
    }
}

pub open spec fn blank_glyph() -> Glyph {
    Glyph {
        advance: Vec2 { x: 0, y: 0 },
        width: 0,
        height: 0,
        bearing: Vec2 { x: 0, y: 0 },
        offset: 0,
    }
}

/// The table entry for `code` of the atlas built from `font` at `pixel_size`.
pub open spec fn table_glyph(font: Seq<u8>, pixel_size: u32, code: int) -> Glyph {
    if packed(code) {
        glyph_from(metrics_of(font, pixel_size, code), strip_width(font, pixel_size, code))
    } else {
        blank_glyph()
    }
}

/// The coverage mask stored for `code`.
pub open spec fn table_bitmap(font: Seq<u8>, pixel_size: u32, code: int) -> Seq<u8> {
    if packed(code) {
        rasterized(font, pixel_size, code as u32)->Some_0.1
    } else {
        Seq::empty()
    }
}

/// Whether `a` is the atlas built from `font` at `pixel_size`.
pub open spec fn built_from(a: Atlas, font: Seq<u8>, pixel_size: u32) -> bool {
    &&& a.width == strip_width(font, pixel_size, END_CODE as int)
    &&& a.height == strip_height(font, pixel_size, END_CODE as int)
    &&& a.glyphs@ == Seq::new(
        GLYPH_METRICS_CAPACITY as nat,
        |c: int| table_glyph(font, pixel_size, c),
    )
    &&& a.bitmaps@.len() == GLYPH_METRICS_CAPACITY
    &&& forall|c: int|
        0 <= c < GLYPH_METRICS_CAPACITY ==> #[trigger] a.bitmaps@[c]@ == table_bitmap(
            font,
            pixel_size,
            c,
        )
}

proof fn lemma_strip_bounds(font: Seq<u8>, pixel_size: u32, end: int)
    requires
        FIRST_CODE <= end <= END_CODE,
        usable_below(font, pixel_size, end),
    ensures
        0 <= strip_width(font, pixel_size, end) <= (end - FIRST_CODE) * i32::MAX,
        0 <= strip_height(font, pixel_size, end) <= i32::MAX,
    decreases end,
{
    if end > FIRST_CODE {
        assert(usable(font, pixel_size, end - 1));
        lemma_strip_bounds(font, pixel_size, end - 1);
    }
}

proof fn lemma_height_bounds(font: Seq<u8>, pixel_size: u32, end: int, c: int)
    requires
        FIRST_CODE <= c < end,
    ensures
        metrics_of(font, pixel_size, c).rows <= strip_height(font, pixel_size, end),
    decreases end,
{
    if c < end - 1 {
        lemma_height_bounds(font, pixel_size, end - 1, c);
    }
}

proof fn lemma_strip_agrees(font: Seq<u8>, pixel_size: u32, glyphs: Seq<Glyph>, end: int)
    requires
        FIRST_CODE <= end <= END_CODE,
        glyphs.len() == GLYPH_METRICS_CAPACITY,
        forall|c: int| 0 <= c < GLYPH_METRICS_CAPACITY ==> #[trigger] glyphs[c] == table_glyph(font, pixel_size, c),
    ensures
        strip_end(glyphs, end) == strip_width(font, pixel_size, end),
    decreases end,
{
    if end > FIRST_CODE {
        lemma_strip_agrees(font, pixel_size, glyphs, end - 1);
        assert(glyphs[end - 1] == table_glyph(font, pixel_size, end - 1));
    }
}

/// An atlas built from a font satisfies the packing invariant.
pub proof fn lemma_built_wf(a: Atlas, font: Seq<u8>, pixel_size: u32)
    requires
        built_from(a, font, pixel_size),
        usable_below(font, pixel_size, END_CODE as int),
    ensures
        a.wf(),
{
    let glyphs = a.glyphs@;
    assert forall|c: int| 0 <= c < GLYPH_METRICS_CAPACITY implies #[trigger] glyphs[c] == table_glyph(font, pixel_size, c) by {}
    lemma_strip_agrees(font, pixel_size, glyphs, END_CODE as int);
    lemma_strip_bounds(font, pixel_size, END_CODE as int);
    assert forall|c: int| #![trigger glyphs[c]] packed(c) implies {
        &&& 0 <= glyphs[c].width
        &&& 0 <= glyphs[c].height <= a.height
        &&& glyphs[c].offset == strip_end(glyphs, c)
    } by {
        assert(usable(font, pixel_size, c));
        lemma_strip_agrees(font, pixel_size, glyphs, c);
        lemma_strip_bounds(font, pixel_size, c);
        lemma_height_bounds(font, pixel_size, END_CODE as int, c);
    }
}

/// What building the atlas of `font` at `pixel_size` gives: an atlas exactly
/// when every printable code renders with a bitmap of non-negative size, else
/// the error of the first code that does not.
pub open spec fn loaded(font: Seq<u8>, pixel_size: u32, r: Result<Atlas, FontError>) -> bool {
    &&& r is Ok <==> usable_below(font, pixel_size, END_CODE as int)
    &&& match r {
        Ok(a) => built_from(a, font, pixel_size) && a.wf(),
        Err(FontError::Rasterize { code }) => {
            &&& packed(code as int)
            &&& usable_below(font, pixel_size, code as int)
            &&& rasterized(font, pixel_size, code) is None
        },
        Err(FontError::BadBitmap { code }) => {
            &&& packed(code as int)
            &&& usable_below(font, pixel_size, code as int)
            &&& rasterized(font, pixel_size, code) is Some
            &&& !usable(font, pixel_size, code as int)
        },
    }
}

proof fn lemma_strip_monotone(glyphs: Seq<Glyph>, i: int, j: int)
    requires
        FIRST_CODE <= i <= j <= END_CODE,
        forall|c: int| #![trigger glyphs[c]] packed(c) ==> 0 <= glyphs[c].width,
    ensures
        strip_end(glyphs, i) <= strip_end(glyphs, j),
    decreases j - i,
{
    if i < j {
        lemma_strip_monotone(glyphs, i, j - 1);
        assert(0 <= glyphs[j - 1].width);
    }
}

/// In a well-formed atlas every printable glyph occupies the columns
/// `[offset, offset + width)` of the strip, inside `[0, atlas width)`, and no
/// two of them share a column; the atlas width is the sum of their widths
/// (`strip_end` up to 127).
pub proof fn lemma_strip_disjoint(a: Atlas, i: int, j: int)
    requires
        a.wf(),
        packed(i),
        packed(j),
        i != j,
    ensures
        0 <= a.glyphs@[i].offset,
        a.glyphs@[i].offset + a.glyphs@[i].width <= a.width,
        a.glyphs@[i].offset + a.glyphs@[i].width <= a.glyphs@[j].offset || a.glyphs@[j].offset
            + a.glyphs@[j].width <= a.glyphs@[i].offset,
        a.width == strip_end(a.glyphs@, END_CODE as int),
{
    let g = a.glyphs@;
    assert(forall|c: int| #![trigger g[c]] packed(c) ==> 0 <= g[c].width);
    lemma_strip_monotone(g, FIRST_CODE as int, i);
    lemma_strip_monotone(g, i + 1, END_CODE as int);
    assert(g[i].offset == strip_end(g, i));
    assert(strip_end(g, i + 1) == strip_end(g, i) + g[i].width);
    if i < j {
        lemma_strip_monotone(g, i + 1, j);
        assert(g[j].offset == strip_end(g, j));
    } else {
        lemma_strip_monotone(g, j + 1, i);
        assert(g[j].offset == strip_end(g, j));
        assert(strip_end(g, j + 1) == strip_end(g, j) + g[j].width);
    }
}

/// Building the atlas twice from the same font bytes and pixel size gives
/// the same outcome: both fail with the same error, or both succeed with
/// identical sizes, glyph metric tables and bitmaps.
pub proof fn lemma_rebuild_same(
    font: Seq<u8>,
    pixel_size: u32,
    r1: Result<Atlas, FontError>,
    r2: Result<Atlas, FontError>,
)
    requires
        loaded(font, pixel_size, r1),
        loaded(font, pixel_size, r2),
    ensures
        r1 is Ok <==> r2 is Ok,
        r1 is Err ==> r1 == r2,
        r1 is Ok ==> {
            let (a, b) = (r1->Ok_0, r2->Ok_0);
            &&& a.width == b.width
            &&& a.height == b.height
            &&& a.glyphs@ == b.glyphs@
            &&& a.bitmaps@.len() == b.bitmaps@.len()
            &&& forall|c: int| 0 <= c < a.bitmaps@.len() ==> #[trigger] a.bitmaps@[c]@ == b.bitmaps@[c]@
        },
{
    if r1 is Err {
        let k1 = match r1 {
            Err(FontError::Rasterize { code }) => code,
            Err(FontError::BadBitmap { code }) => code,
            Ok(_) => 0,
        };
        let k2 = match r2 {
            Err(FontError::Rasterize { code }) => code,
            Err(FontError::BadBitmap { code }) => code,
            Ok(_) => 0,
        };
        assert(!usable(font, pixel_size, k1 as int));
        assert(!usable(font, pixel_size, k2 as int));
        if k1 < k2 {
            assert(usable(font, pixel_size, k1 as int));
        }
        if k2 < k1 {
            assert(usable(font, pixel_size, k2 as int));
        }
    }
    if r1 is Ok {
        let (a, b) = (r1->Ok_0, r2->Ok_0);
        assert forall|c: int| 0 <= c < a.bitmaps@.len() implies #[trigger] a.bitmaps@[c]@ == b.bitmaps@[c]@ by {
            assert(a.bitmaps@[c]@ == table_bitmap(font, pixel_size, c));
            assert(b.bitmaps@[c]@ == table_bitmap(font, pixel_size, c));
        }
    }
}

/// Builds the atlas of the printable ASCII glyphs of `font` at `pixel_size`
/// pixels.  The first code that the rasterizer fails on, or renders with a
/// bitmap of negative size or with a coverage buffer too large to read, ends
/// the build with that code.
pub fn load_font(font: &[u8], pixel_size: u32) -> (r: Result<Atlas, FontError>)
    ensures
        loaded(font@, pixel_size, r),
{
    let ghost f = font@;
    let mut glyphs: Vec<Glyph> = Vec::new();
    let mut bitmaps: Vec<Vec<u8>> = Vec::new();
    let blank = Glyph {
        advance: Vec2 { x: 0, y: 0 },
        width: 0,
        height: 0,
        bearing: Vec2 { x: 0, y: 0 },
        offset: 0,
    };
    let mut code: u32 = 0;
    while code < FIRST_CODE
        invariant
            code <= FIRST_CODE,
            blank == blank_glyph(),
            glyphs@.len() == code,
            bitmaps@.len() == code,
            forall|c: int| 0 <= c < code ==> #[trigger] glyphs@[c] == table_glyph(f, pixel_size, c),
            forall|c: int| 0 <= c < code ==> #[trigger] bitmaps@[c]@ == table_bitmap(f, pixel_size, c),
        decreases FIRST_CODE - code,
    {
        glyphs.push(blank);
        bitmaps.push(Vec::new());
        assert(glyphs@[code as int] == table_glyph(f, pixel_size, code as int));
        assert(bitmaps@[code as int]@ == table_bitmap(f, pixel_size, code as int));
        code = code + 1;
    }
    let mut width: i64 = 0;
    let mut height: i64 = 0;
    while code < END_CODE
        invariant
            FIRST_CODE <= code <= END_CODE,
            f == font@,
            blank == blank_glyph(),
            glyphs@.len() == code,
            bitmaps@.len() == code,
            forall|c: int| 0 <= c < code ==> #[trigger] glyphs@[c] == table_glyph(f, pixel_size, c),
            forall|c: int| 0 <= c < code ==> #[trigger] bitmaps@[c]@ == table_bitmap(f, pixel_size, c),
            usable_below(f, pixel_size, code as int),
            width == strip_width(f, pixel_size, code as int),
            height == strip_height(f, pixel_size, code as int),
        decreases END_CODE - code,
    {
        proof {
            lemma_strip_bounds(f, pixel_size, code as int);
        }
        let m = match render_metrics(font, pixel_size, code) {
            Ok(m) => m,
            Err(_) => {
                assert(!usable(f, pixel_size, code as int));
                return Err(FontError::Rasterize { code });
            },
        };
        let rows = m.rows as i64;
        if m.width < 0 || m.rows < 0 || m.pitch == i32::MIN {
            assert(!usable(f, pixel_size, code as int));
            return Err(FontError::BadBitmap { code });
        }
        let stride: i64 = if m.pitch < 0 { -(m.pitch as i64) } else { m.pitch as i64 };
        assert(0 <= stride <= i32::MAX && 0 <= rows <= i32::MAX);
        assert(stride * rows <= i32::MAX as int * i32::MAX as int) by (nonlinear_arith)
            requires 0 <= stride <= i32::MAX, 0 <= rows <= i32::MAX;
        if stride * rows > i32::MAX as i64 {
            assert(!usable(f, pixel_size, code as int));
            return Err(FontError::BadBitmap { code });
        }
        let coverage = match render_coverage(font, pixel_size, code) {
            Ok(c) => c,
            Err(_) => {
                return Err(FontError::Rasterize { code });
            },
        };
        proof {
            assert(usable(f, pixel_size, code as int));
            assert forall|k: int| FIRST_CODE <= k < code + 1 implies #[trigger] usable(f, pixel_size, k) by {
                if k < code {
                    assert(usable(f, pixel_size, k));
                }
            }
        }
        glyphs.push(Glyph {
            advance: Vec2 { x: m.advance_x >> 6u32, y: m.advance_y >> 6u32 },
            width: m.width as i64,
            height: m.rows as i64,
            bearing: Vec2 { x: m.left as i64, y: m.top as i64 },
            offset: width,
        });
        bitmaps.push(coverage);
        width = width + m.width as i64;
        if height < m.rows as i64 {
            height = m.rows as i64;
        }
        code = code + 1;
    }
    glyphs.push(blank);
    bitmaps.push(Vec::new());
    let atlas = Atlas { width, height, glyphs, bitmaps };
    proof {
        assert(atlas.glyphs@ =~= Seq::new(
            GLYPH_METRICS_CAPACITY as nat,
            |c: int| table_glyph(f, pixel_size, c),
        ));
        assert forall|c: int| 0 <= c < GLYPH_METRICS_CAPACITY implies #[trigger] atlas.bitmaps@[c]@
            == table_bitmap(f, pixel_size, c) by {}
        lemma_built_wf(atlas, f, pixel_size);
    }
    Ok(atlas)
}

} // verus!
