//! The decisions and integer bookkeeping of an animated layer-shell wallpaper:
//! colour palettes, the triangle tiling that covers the screen, the surface
//! extent kept across resizes, what to do with each acquired frame, and how the
//! event loop answers each compositor event.

pub mod palette;
pub mod tiling;
pub mod surface;
pub mod events;
