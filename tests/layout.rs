use font::atlas::{Atlas, Glyph};
use font::layout::{draw_character, draw_line, fits_layout, glyph_slot};
use font::math::{Vec2, Vec4};
use font::vertex::{Renderer, TexCoord, Vertex};

/// An atlas whose printable glyphs are `(c % 3) + 1` pixels wide, 4 high,
/// with bearing (1, 3) and advance (c % 3) + 2.
fn small_atlas() -> Atlas {
    let mut glyphs = vec![Glyph::default(); 128];
    let mut x = 0;
    for c in 32..127usize {
        let w = (c % 3) as i64 + 1;
        glyphs[c] = Glyph {
            advance: Vec2::new(w + 1, 0),
            width: w,
            height: 4,
            bearing: Vec2::new(1, 3),
            offset: x,
        };
        x += w;
    }
    Atlas { width: x, height: 4, glyphs, bitmaps: vec![Vec::new(); 128] }
}

const WHITE: Vec4 = Vec4 { x: 255, y: 255, z: 255, w: 255 };

fn corner(x: i64, y: i64, u: i64, v: i64, atlas: &Atlas) -> Vertex {
    Vertex {
        position: Vec2::new(x, y),
        uv: TexCoord { u, v, width: atlas.width, height: atlas.height },
        color: WHITE,
    }
}

#[test]
fn empty_text_appends_nothing() {
    let atlas = small_atlas();
    let mut rd = Renderer::new(100, 100);
    let pen = atlas.draw_text(&mut rd, "", 7, 9, WHITE);
    assert_eq!(pen, Vec2::new(7, 9));
    assert!(rd.vertices.is_empty());
}

#[test]
fn single_glyph_quad() {
    let atlas = small_atlas();
    let mut rd = Renderer::new(100, 100);
    // 'A' is 65: width 3, advance 4, offset = widths of 32..65.
    let g = atlas.glyphs[65];
    assert_eq!(g.width, 3);
    let pen = atlas.draw_text(&mut rd, "A", 10, 20, WHITE);
    assert_eq!(pen, Vec2::new(14, 20));
    let (x0, y0) = (11, 19);
    let (u0, u1) = (g.offset, g.offset + 3);
    assert_eq!(
        rd.vertices,
        vec![
            corner(x0, y0, u0, 4, &atlas),
            corner(x0 + 3, y0, u1, 4, &atlas),
            corner(x0 + 3, y0 + 4, u1, 0, &atlas),
            corner(x0 + 3, y0 + 4, u1, 0, &atlas),
            corner(x0, y0 + 4, u0, 0, &atlas),
            corner(x0, y0, u0, 4, &atlas),
        ]
    );
    for t in rd.vertices.chunks(3) {
        let (p, q, r) = (t[0].position, t[1].position, t[2].position);
        let area = (q.x - p.x) * (r.y - p.y) - (q.y - p.y) * (r.x - p.x);
        assert_eq!(area, 12);
    }
    let min_x = rd.vertices.iter().map(|v| v.position.x).min().unwrap();
    let max_x = rd.vertices.iter().map(|v| v.position.x).max().unwrap();
    let min_y = rd.vertices.iter().map(|v| v.position.y).min().unwrap();
    let max_y = rd.vertices.iter().map(|v| v.position.y).max().unwrap();
    assert_eq!((min_x, max_x), (10 + 1, 10 + 1 + 3));
    assert_eq!((min_y, max_y), (20 + 3 - 4, 20 + 3));
}

#[test]
fn out_of_table_code_uses_question_mark() {
    let atlas = small_atlas();
    let mut a = Renderer::new(100, 100);
    let mut b = Renderer::new(100, 100);
    let pa = atlas.draw_text(&mut a, "\u{c8}", 0, 0, WHITE);
    let pb = atlas.draw_text(&mut b, "?", 0, 0, WHITE);
    assert_eq!(a.vertices, b.vertices);
    assert_eq!(pa, pb);
    assert_eq!(glyph_slot('\u{c8}'), '?' as usize);
    assert_eq!(glyph_slot('\u{7f}'), '?' as usize);
    assert_eq!(glyph_slot('\n'), '?' as usize);
    assert_eq!(glyph_slot(' '), 32);
    assert_eq!(glyph_slot('~'), 126);
}

#[test]
fn pen_accumulates_advances() {
    let atlas = small_atlas();
    let text = "Hello, world";
    let mut rd = Renderer::new(100, 100);
    let pen = atlas.draw_text(&mut rd, text, 5, 50, WHITE);
    let sum: i64 = text.bytes().map(|c| atlas.glyphs[c as usize].advance.x).sum();
    assert_eq!(pen, Vec2::new(5 + sum, 50));
    assert_eq!(rd.vertices.len(), 6 * text.len());
    let mut x = 5;
    for (i, c) in text.bytes().enumerate() {
        let g = atlas.glyphs[c as usize];
        assert_eq!(rd.vertices[6 * i].position, Vec2::new(x + 1, 50 + 3 - 4));
        let next = x + g.advance.x;
        assert!(next > x);
        x = next;
    }
}

#[test]
fn draw_line_matches_draw_text() {
    let atlas = small_atlas();
    let mut a = Renderer::new(100, 100);
    let mut b = Renderer::new(100, 100);
    let pa = draw_line(&atlas, &mut a, "xyz", Vec2::new(3, 4), WHITE);
    let pb = atlas.draw_text(&mut b, "xyz", 3, 4, WHITE);
    assert_eq!(pa, pb);
    assert_eq!(a.vertices, b.vertices);
}

#[test]
fn draw_character_appends_one_quad() {
    let atlas = small_atlas();
    let mut rd = Renderer::new(100, 100);
    rd.quad(0, 0, 1, 1, WHITE);
    draw_character(&atlas, &mut rd, 'A', 10, 20, WHITE);
    let mut other = Renderer::new(100, 100);
    atlas.draw_text(&mut other, "A", 10, 20, WHITE);
    assert_eq!(rd.vertices.len(), 12);
    assert_eq!(&rd.vertices[6..], &other.vertices[..]);
}

#[test]
fn layout_fit_checks_range() {
    let atlas = small_atlas();
    assert!(fits_layout(&atlas, "abc", 0, 0));
    assert!(fits_layout(&atlas, "", i64::MAX, i64::MIN));
    assert!(!fits_layout(&atlas, "a", i64::MAX - 1, 0));
    assert!(!fits_layout(&atlas, "a", 0, i64::MIN));
    assert!(fits_layout(&atlas, "a", i64::MAX - 10, 0));
    assert!(!fits_layout(&atlas, "aaaa", i64::MAX - 10, 0));
}

#[test]
fn pen_stays_on_baseline() {
    let atlas = small_atlas();
    let mut rd = Renderer::new(100, 100);
    let pen = atlas.draw_text(&mut rd, "baseline", 0, 42, WHITE);
    assert_eq!(pen.y, 42);
    for quad in rd.vertices.chunks(6) {
        assert_eq!(quad[0].position.y, 42 + 3 - 4);
    }
}
