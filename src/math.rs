use vstd::prelude::*;

verus! {

/// A point or displacement in whole pixels.
#[derive(Clone, Copy, Debug, PartialEq, Eq, Structural, Default)]
pub struct Vec2 {
    pub x: i64,
    pub y: i64,
}

impl Vec2 {
    pub fn new(x: i64, y: i64) -> (r: Vec2)
        ensures
            r.x == x,
            r.y == y,
    {
        Vec2 { x, y }
    }
}

/// An RGBA colour, each channel in 255ths (`x` red, `y` green, `z` blue, `w` alpha).
#[derive(Clone, Copy, Debug, PartialEq, Eq, Structural, Default)]
pub struct Vec4 {
    pub x: u8,
    pub y: u8,
    pub z: u8,
    pub w: u8,
}

impl Vec4 {
    pub fn new(x: u8, y: u8, z: u8, w: u8) -> (r: Vec4)
        ensures
            r == (Vec4 { x, y, z, w }),
    {
        Vec4 { x, y, z, w }
    }
}

impl From<(i64, i64)> for Vec2 {
    fn from(p: (i64, i64)) -> Vec2 {
        Vec2 { x: p.0, y: p.1 }
    }
}

impl vstd::std_specs::convert::FromSpecImpl<(i64, i64)> for Vec2 {
    open spec fn obeys_from_spec() -> bool {
        true
    }

    open spec fn from_spec(p: (i64, i64)) -> Vec2 {
        Vec2 { x: p.0, y: p.1 }
    }
}

impl From<(u8, u8, u8, u8)> for Vec4 {
    fn from(c: (u8, u8, u8, u8)) -> Vec4 {
        Vec4 { x: c.0, y: c.1, z: c.2, w: c.3 }
    }
}

impl vstd::std_specs::convert::FromSpecImpl<(u8, u8, u8, u8)> for Vec4 {
    open spec fn obeys_from_spec() -> bool {
        true
    }

    open spec fn from_spec(c: (u8, u8, u8, u8)) -> Vec4 {
        Vec4 { x: c.0, y: c.1, z: c.2, w: c.3 }
    }
}

/// The opaque colour written as `0xRRGGBB`: the top byte is ignored and alpha is full.
pub fn hex(code: u32) -> (r: Vec4)
    ensures
        r.x == (code / 0x10000) % 0x100,
        r.y == (code / 0x100) % 0x100,
        r.z == code % 0x100,
        r.w == 255,
{
    let red = ((code >> 16u32) & 0xffu32) as u8;
    let green = ((code >> 8u32) & 0xffu32) as u8;
    let blue = (code & 0xffu32) as u8;
    assert(((code >> 16u32) & 0xffu32) == (code / 0x10000u32) % 0x100u32) by (bit_vector);
    assert(((code >> 8u32) & 0xffu32) == (code / 0x100u32) % 0x100u32) by (bit_vector);
    assert((code & 0xffu32) == code % 0x100u32) by (bit_vector);
    Vec4 { x: red, y: green, z: blue, w: 255 }
}

} // verus!
