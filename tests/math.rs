use font::math::{hex, Vec2, Vec4};

#[test]
fn hex_splits_channels() {
    assert_eq!(hex(0xdcdcaa), Vec4::new(0xdc, 0xdc, 0xaa, 255));
    assert_eq!(hex(0xcc3e44), Vec4::new(0xcc, 0x3e, 0x44, 255));
    assert_eq!(hex(0x328fde), Vec4::new(0x32, 0x8f, 0xde, 255));
}

#[test]
fn hex_ignores_top_byte() {
    assert_eq!(hex(0x12345678), Vec4::new(0x34, 0x56, 0x78, 255));
    assert_eq!(hex(0xff000000), Vec4::new(0, 0, 0, 255));
    assert_eq!(hex(0), Vec4::new(0, 0, 0, 255));
}

#[test]
fn vectors_from_tuples() {
    let p: Vec2 = (3, -4).into();
    assert_eq!(p, Vec2::new(3, -4));
    assert_eq!(p.x, 3);
    assert_eq!(p.y, -4);
    let c: Vec4 = (1, 2, 3, 4).into();
    assert_eq!(c, Vec4::new(1, 2, 3, 4));
    assert_eq!((c.x, c.y, c.z, c.w), (1, 2, 3, 4));
}
