use vstd::prelude::*;

use crate::math::{Vec2, Vec4};

verus! {

/// A texture coordinate kept exact: the texel position `(u, v)` over the size
/// `(width, height)` of the texture it addresses, so that the normalized
/// coordinate is `(u / width, v / height)`.
#[derive(Clone, Copy, Debug, PartialEq, Eq, Structural, Default)]
pub struct TexCoord {
    pub u: i64,
    pub v: i64,
    pub width: i64,
    pub height: i64,
}

/// One corner of a triangle as the GPU receives it.
#[derive(Clone, Copy, Debug, PartialEq, Eq, Structural, Default)]
pub struct Vertex {
    pub position: Vec2,
    pub uv: TexCoord,
    pub color: Vec4,
}

impl Vertex {
    pub fn position(self, position: Vec2) -> (r: Vertex)
        ensures
            r == (Vertex { position, ..self }),
    {
        Vertex { position, ..self }
    }

    pub fn uv(self, uv: TexCoord) -> (r: Vertex)
        ensures
            r == (Vertex { uv, ..self }),
    {
        Vertex { uv, ..self }
    }

    pub fn color(self, color: Vec4) -> (r: Vertex)
        ensures
            r == (Vertex { color, ..self }),
    {
        Vertex { color, ..self }
    }
}

/// The vertex with the given position, colour and texture coordinate.
pub open spec fn vertex_at(x: int, y: int, color: Vec4, uv: TexCoord) -> Vertex {
    Vertex { position: Vec2 { x: x as i64, y: y as i64 }, uv, color }
}

pub open spec fn coord(u: int, v: int, width: int, height: int) -> TexCoord {
    TexCoord { u: u as i64, v: v as i64, width: width as i64, height: height as i64 }
}

/// Whether `v` is a value of `i64`.
pub open spec fn in_i64(v: int) -> bool {
    i64::MIN <= v <= i64::MAX
}

/// The six vertices of the rectangle `[x, x + w] x [y, y + h]` as two
/// counter-clockwise triangles (y grows upwards): bottom-left, bottom-right,
/// top-right, then top-right, top-left, bottom-left.  The corners carry the
/// texture coordinates `bl`, `br`, `tr` and `tl`.
pub open spec fn rect_vertices(
    x: int,
    y: int,
    w: int,
    h: int,
    color: Vec4,
    bl: TexCoord,
    br: TexCoord,
    tr: TexCoord,
    tl: TexCoord,
) -> Seq<Vertex> {
    seq![
        vertex_at(x, y, color, bl),
        vertex_at(x + w, y, color, br),
        vertex_at(x + w, y + h, color, tr),
        vertex_at(x + w, y + h, color, tr),
        vertex_at(x, y + h, color, tl),
        vertex_at(x, y, color, bl),
    ]
}

/// What the GPU vertex buffer must receive before the next draw.
#[derive(Clone, Copy, Debug, PartialEq, Eq, Structural)]
pub enum Upload {
    /// The batch changed length: the buffer is reallocated with all of it.
    Full,
    /// The batch kept its length: its contents overwrite the buffer in place.
    InPlace,
}

/// A batch of vertices waiting to be drawn, with the size of the surface it
/// is drawn on and the number of vertices the GPU buffer was last sized for.
pub struct Renderer {
    pub vertices: Vec<Vertex>,
    pub buffer_size: usize,
    pub width: i32,
    pub height: i32,
}

impl Renderer {
    pub fn new(width: i32, height: i32) -> (r: Renderer)
        ensures
            r.vertices@ == Seq::<Vertex>::empty(),
            r.buffer_size == 0,
            r.width == width,
            r.height == height,
    {
        Renderer { vertices: Vec::new(), buffer_size: 0, width, height }
    }

    pub fn vertex(&mut self, position: Vec2, color: Vec4, uv: TexCoord)
        ensures
            final(self).vertices@ == old(self).vertices@.push(Vertex { position, uv, color }),
            final(self).buffer_size == old(self).buffer_size,
            final(self).width == old(self).width,
            final(self).height == old(self).height,
    {
        self.vertices.push(Vertex { position, uv, color });
    }

    /// Appends one triangle; give its corners in counter-clockwise order.
    pub fn triangle(
        &mut self,
        p0: Vec2,
        p1: Vec2,
        p2: Vec2,
        c0: Vec4,
        c1: Vec4,
        c2: Vec4,
        uv0: TexCoord,
        uv1: TexCoord,
        uv2: TexCoord,
    )
        ensures
            final(self).vertices@ == old(self).vertices@ + seq![
                Vertex { position: p0, uv: uv0, color: c0 },
                Vertex { position: p1, uv: uv1, color: c1 },
                Vertex { position: p2, uv: uv2, color: c2 },
            ],
            final(self).buffer_size == old(self).buffer_size,
            final(self).width == old(self).width,
            final(self).height == old(self).height,
    {
        self.vertex(p0, c0, uv0);
        self.vertex(p1, c1, uv1);
        self.vertex(p2, c2, uv2);
    }

    /// Appends the rectangle with its bottom-left corner at `(x, y)` and size
    /// `(w, h)`, mapped onto the whole of a texture.
    pub fn texture(&mut self, x: i64, y: i64, w: i64, h: i64, color: Vec4)
        requires
            in_i64(x + w),
            in_i64(y + h),
        ensures
            final(self).vertices@ == old(self).vertices@ + rect_vertices(
                x as int,
                y as int,
                w as int,
                h as int,
                color,
                coord(0, 1, 1, 1),
                coord(1, 1, 1, 1),
                coord(1, 0, 1, 1),
                coord(0, 0, 1, 1),
            ),
            final(self).buffer_size == old(self).buffer_size,
            final(self).width == old(self).width,
            final(self).height == old(self).height,
    {
        let bl = TexCoord { u: 0, v: 1, width: 1, height: 1 };
        let br = TexCoord { u: 1, v: 1, width: 1, height: 1 };
        let tr = TexCoord { u: 1, v: 0, width: 1, height: 1 };
        let tl = TexCoord { u: 0, v: 0, width: 1, height: 1 };
        self.rect(x, y, w, h, color, bl, br, tr, tl);
    }

    /// Appends the untextured rectangle with its bottom-left corner at
    /// `(x, y)` and size `(w, h)`.
    pub fn quad(&mut self, x: i64, y: i64, w: i64, h: i64, color: Vec4)
        requires
            in_i64(x + w),
            in_i64(y + h),
        ensures
            final(self).vertices@ == old(self).vertices@ + rect_vertices(
                x as int,
                y as int,
                w as int,
                h as int,
                color,
                coord(0, 0, 1, 1),
                coord(0, 0, 1, 1),
                coord(0, 0, 1, 1),
                coord(0, 0, 1, 1),
            ),
            final(self).buffer_size == old(self).buffer_size,
            final(self).width == old(self).width,
            final(self).height == old(self).height,
    {
        let none = TexCoord { u: 0, v: 0, width: 1, height: 1 };
        self.rect(x, y, w, h, color, none, none, none, none);
    }

    /// Appends the rectangle `[x, x + w] x [y, y + h]` with the given corner
    /// texture coordinates.
    pub fn rect(
        &mut self,
        x: i64,
        y: i64,
        w: i64,
        h: i64,
        color: Vec4,
        bl: TexCoord,
        br: TexCoord,
        tr: TexCoord,
        tl: TexCoord,
    )
        requires
            in_i64(x + w),
            in_i64(y + h),
        ensures
            final(self).vertices@ == old(self).vertices@ + rect_vertices(
                x as int,
                y as int,
                w as int,
                h as int,
                color,
                bl,
                br,
                tr,
                tl,
            ),
            final(self).buffer_size == old(self).buffer_size,
            final(self).width == old(self).width,
            final(self).height == old(self).height,
    {
        let right = x + w;
        let top = y + h;
        self.vertex(Vec2 { x, y }, color, bl);
        self.vertex(Vec2 { x: right, y }, color, br);
        self.vertex(Vec2 { x: right, y: top }, color, tr);
        self.vertex(Vec2 { x: right, y: top }, color, tr);
        self.vertex(Vec2 { x, y: top }, color, tl);
        self.vertex(Vec2 { x, y }, color, bl);
        assert(final(self).vertices@ =~= old(self).vertices@ + rect_vertices(
            x as int,
            y as int,
            w as int,
            h as int,
            color,
            bl,
            br,
            tr,
            tl,
        ));
    }

    /// Records a new surface size.
    pub fn update(&mut self, width: i32, height: i32)
        ensures
            final(self).width == width,
            final(self).height == height,
            final(self).vertices@ == old(self).vertices@,
            final(self).buffer_size == old(self).buffer_size,
    {
        self.width = width;
        self.height = height;
    }

    /// Empties the batch, keeping the recorded GPU buffer size.
    pub fn reset(&mut self)
        ensures
            final(self).vertices@ == Seq::<Vertex>::empty(),
            final(self).buffer_size == old(self).buffer_size,
            final(self).width == old(self).width,
            final(self).height == old(self).height,
    {
        self.vertices.clear();
    }

    /// Decides how the batch reaches the GPU buffer, and records the buffer
    /// size that follows: the buffer is reallocated when the batch length
    /// differs from it, and overwritten in place otherwise.
    pub fn upload(&mut self) -> (r: Upload)
        ensures
            r == (if old(self).buffer_size == old(self).vertices@.len() {
                Upload::InPlace
            } else {
                Upload::Full
            }),
            final(self).buffer_size == old(self).vertices@.len(),
            final(self).vertices@ == old(self).vertices@,
            final(self).width == old(self).width,
            final(self).height == old(self).height,
    {
        if self.buffer_size != self.vertices.len() {
            self.buffer_size = self.vertices.len();
            Upload::Full
        } else {
            Upload::InPlace
        }
    }
}

} // verus!
