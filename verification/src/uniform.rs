//! Window uniform: the per-frame snapshot of the window's pixel size and
//! display scale factor that the vertex shader uses to map pixel-space
//! positions into clip space.

use vstd::prelude::*;

verus! {

/// Contents of the GPU uniform buffer bound to the vertex stage.
///
/// `width` and `height` are the surface size in pixels. `scale_bits` carries
/// the display scale factor as an opaque scalar (the bit pattern of the
/// 32-bit float handed to the shader); the library never does arithmetic on
/// it. `padding` keeps the buffer a whole multiple of the GPU's 16-byte
/// uniform alignment and is always zero.
#[derive(Clone, Copy, PartialEq, Eq, Debug)]
pub struct WindowUniform {
    pub width: u32,
    pub height: u32,
    pub scale_bits: u32,
    pub padding: u32,
}

impl WindowUniform {
    /// Snapshot the live window state. Called once per frame, just before
    /// the uniform buffer is rewritten, so the shader always sees the
    /// current size and scale; nothing is cached across frames.
    pub fn snapshot(width: u32, height: u32, scale_bits: u32) -> (u: WindowUniform)
        ensures
            u.width == width,
            u.height == height,
            u.scale_bits == scale_bits,
            u.padding == 0,
    {
        WindowUniform { width, height, scale_bits, padding: 0 }
    }
}

} // verus!
