//! A bare-metal graphics runtime core: packed pixel formats, their
//! conversions, and a memory-mapped framebuffer surface over an arena
//! allocator with cached/uncached address translation.

pub mod gfx;
pub mod system;
