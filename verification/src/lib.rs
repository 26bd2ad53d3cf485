//! Pixel colour picking: a canonical RGBA image buffer, conversion of display
//! frames and clipboard payloads into it, mapping of a pointer position on a
//! scaled preview back to a pixel index, and sampling of that pixel.

pub mod buffer;
pub mod mapper;
pub mod screen;
pub mod session;
