use font::math::{Vec2, Vec4};
use font::vertex::{Renderer, TexCoord, Upload, Vertex};

fn tc(u: i64, v: i64) -> TexCoord {
    TexCoord { u, v, width: 1, height: 1 }
}

fn at(x: i64, y: i64, color: Vec4, uv: TexCoord) -> Vertex {
    Vertex { position: Vec2::new(x, y), uv, color }
}

#[test]
fn new_renderer_is_empty() {
    let rd = Renderer::new(800, 600);
    assert!(rd.vertices.is_empty());
    assert_eq!(rd.buffer_size, 0);
    assert_eq!((rd.width, rd.height), (800, 600));
}

#[test]
fn vertex_and_triangle_append_in_order() {
    let mut rd = Renderer::new(10, 10);
    let red = Vec4::new(255, 0, 0, 255);
    rd.vertex(Vec2::new(1, 2), red, tc(0, 0));
    assert_eq!(rd.vertices, vec![at(1, 2, red, tc(0, 0))]);
    let (c0, c1, c2) = (Vec4::new(1, 0, 0, 0), Vec4::new(0, 1, 0, 0), Vec4::new(0, 0, 1, 0));
    rd.triangle(
        Vec2::new(0, 0),
        Vec2::new(5, 0),
        Vec2::new(0, 5),
        c0,
        c1,
        c2,
        tc(0, 0),
        tc(1, 0),
        tc(0, 1),
    );
    assert_eq!(rd.vertices.len(), 4);
    assert_eq!(rd.vertices[1], at(0, 0, c0, tc(0, 0)));
    assert_eq!(rd.vertices[2], at(5, 0, c1, tc(1, 0)));
    assert_eq!(rd.vertices[3], at(0, 5, c2, tc(0, 1)));
}

#[test]
fn texture_maps_whole_texture() {
    let mut rd = Renderer::new(10, 10);
    let white = Vec4::new(255, 255, 255, 255);
    rd.texture(10, 20, 30, 40, white);
    assert_eq!(
        rd.vertices,
        vec![
            at(10, 20, white, tc(0, 1)),
            at(40, 20, white, tc(1, 1)),
            at(40, 60, white, tc(1, 0)),
            at(40, 60, white, tc(1, 0)),
            at(10, 60, white, tc(0, 0)),
            at(10, 20, white, tc(0, 1)),
        ]
    );
}

#[test]
fn quad_is_untextured() {
    let mut rd = Renderer::new(10, 10);
    let c = Vec4::new(9, 8, 7, 6);
    rd.quad(-5, -5, 10, 2, c);
    let xy: Vec<(i64, i64)> = rd.vertices.iter().map(|v| (v.position.x, v.position.y)).collect();
    assert_eq!(xy, vec![(-5, -5), (5, -5), (5, -3), (5, -3), (-5, -3), (-5, -5)]);
    assert!(rd.vertices.iter().all(|v| v.uv == tc(0, 0) && v.color == c));
}

#[test]
fn reset_and_update_keep_the_rest() {
    let mut rd = Renderer::new(10, 10);
    rd.quad(0, 0, 1, 1, Vec4::new(0, 0, 0, 0));
    assert_eq!(rd.upload(), Upload::Full);
    rd.update(20, 30);
    assert_eq!((rd.width, rd.height), (20, 30));
    assert_eq!(rd.vertices.len(), 6);
    rd.reset();
    assert!(rd.vertices.is_empty());
    assert_eq!(rd.buffer_size, 6);
}

#[test]
fn upload_reallocates_only_on_length_change() {
    let mut rd = Renderer::new(10, 10);
    assert_eq!(rd.upload(), Upload::InPlace);
    rd.quad(0, 0, 1, 1, Vec4::new(0, 0, 0, 0));
    assert_eq!(rd.upload(), Upload::Full);
    assert_eq!(rd.buffer_size, 6);
    assert_eq!(rd.upload(), Upload::InPlace);
    rd.reset();
    rd.quad(2, 2, 1, 1, Vec4::new(0, 0, 0, 0));
    assert_eq!(rd.upload(), Upload::InPlace);
    rd.reset();
    assert_eq!(rd.upload(), Upload::Full);
    assert_eq!(rd.buffer_size, 0);
}

#[test]
fn vertex_builders_replace_one_field() {
    let v = Vertex::default();
    let v = v.position(Vec2::new(1, 2)).uv(tc(3, 4)).color(Vec4::new(5, 6, 7, 8));
    assert_eq!(v, at(1, 2, Vec4::new(5, 6, 7, 8), tc(3, 4)));
}

#[test]
fn pixel_perfect() {
    let mut rd = Renderer::new(300, 300);
    for i in 0..5i64 {
        let color = if i % 3 == 0 {
            font::math::hex(0xdcdcaa)
        } else if i % 2 == 0 {
            font::math::hex(0xcc3e44)
        } else {
            font::math::hex(0x328fde)
        };
        rd.quad(300 / 2 + i, 0, 1, 300, color);
    }
    assert_eq!(rd.vertices.len(), 30);
    for i in 0..5usize {
        let quad = &rd.vertices[6 * i..6 * i + 6];
        let x = 150 + i as i64;
        assert_eq!(quad[0].position, Vec2::new(x, 0));
        assert_eq!(quad[2].position, Vec2::new(x + 1, 300));
    }
    assert_eq!(rd.vertices[0].color, Vec4::new(0xdc, 0xdc, 0xaa, 255));
    assert_eq!(rd.vertices[6].color, Vec4::new(0x32, 0x8f, 0xde, 255));
    assert_eq!(rd.vertices[12].color, Vec4::new(0xcc, 0x3e, 0x44, 255));
    assert_eq!(rd.vertices[18].color, Vec4::new(0xdc, 0xdc, 0xaa, 255));
    assert_eq!(rd.vertices[24].color, Vec4::new(0xcc, 0x3e, 0x44, 255));
}
