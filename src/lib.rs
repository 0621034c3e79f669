//! Glyph-atlas text rendering on integer pixel geometry: an atlas builder that
//! packs rasterized printable ASCII glyphs into one horizontal strip, text
//! layout that turns strings into textured quads, vertex batching, the
//! status-code tables of the native graphics back-ends, and the device-side
//! decisions of the Vulkan bring-up.

pub mod math;
pub mod vertex;
pub mod atlas;
pub mod layout;
pub mod status;
pub mod device;
