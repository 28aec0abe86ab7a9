use vstd::prelude::*;

verus! {

/// Channels per pixel in the fixed-array framebuffer.
pub const EMBEDDED_EMULATOR_NUM_OF_COLOR: usize = 4;

/// Visible width, in pixels, of the fixed-array framebuffer.
pub const EMBEDDED_EMULATOR_VISIBLE_SCREEN_WIDTH: usize = 256;

/// Visible height, in pixels, of the fixed-array framebuffer.
pub const EMBEDDED_EMULATOR_VISIBLE_SCREEN_HEIGHT: usize = 240;

/// Pixel layout of a flat framebuffer.
#[derive(Clone, Copy, Debug, PartialEq, Eq, Structural)]
pub enum DrawPioxelFormat {
    RGBA8888,
    BGRA8888,
    ARGB8888,
}

/// Geometry and pixel layout of a flat framebuffer, set before the first
/// PPU step.
#[derive(Clone, Copy, Debug, PartialEq, Eq, Structural)]
pub struct DrawOption {
    pub fb_width: u32,
    pub fb_height: u32,
    pub offset_x: i32,
    pub offset_y: i32,
    pub scale: u32,
    pub pixel_format: DrawPioxelFormat,
}

} // verus!
