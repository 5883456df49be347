//! Target pixel layouts and their exact frame sizes.

use vstd::prelude::*;

verus! {

/// Pixel layout of a delivered frame. The capture source is always packed
/// BGRA; every other member is produced from it by conversion.
#[derive(Debug, Clone, Copy, PartialEq, Eq, Structural)]
pub enum PixelFormat {
    /// 3 bytes per pixel: red, green, blue.
    RGB,
    /// 4 bytes per pixel: red, green, blue, alpha.
    RGBA,
    /// 3 bytes per pixel: blue, green, red.
    BGR,
    /// 4 bytes per pixel: blue, green, red, alpha.
    BGRA,
    /// Planar 4:2:0: a full-resolution luma plane followed by two chroma
    /// planes at half resolution in both directions.
    YUV420,
}

impl Default for PixelFormat {
    fn default() -> (format: Self)
        ensures
            format == PixelFormat::BGRA,
    {
        PixelFormat::BGRA
    }
}

impl PixelFormat {
    /// Bytes per pixel of the packed layouts; the planar layout has none.
    pub open spec fn bytes_per_pixel(self) -> nat {
        match self {
            PixelFormat::RGB | PixelFormat::BGR => 3,
            PixelFormat::RGBA | PixelFormat::BGRA => 4,
            PixelFormat::YUV420 => 0,
        }
    }

    /// Whether every pixel occupies a fixed run of bytes.
    pub open spec fn is_packed(self) -> bool {
        self != PixelFormat::YUV420
    }

    /// Exact number of bytes of a `width` x `height` frame in this layout.
    pub open spec fn frame_len(self, width: nat, height: nat) -> nat {
        match self {
            PixelFormat::RGB | PixelFormat::BGR => width * height * 3,
            PixelFormat::RGBA | PixelFormat::BGRA => width * height * 4,
            PixelFormat::YUV420 => width * height * 3 / 2,
        }
    }

    /// The frame length if it is representable as a `usize`, `None` if not.
    pub fn checked_frame_len(&self, width: u32, height: u32) -> (len: Option<usize>)
        ensures
            match len {
                Some(n) => n == self.frame_len(width as nat, height as nat),
                None => self.frame_len(width as nat, height as nat) > usize::MAX,
            },
    {
        let pixels: u64 = pixel_count(width, height);
        let wide: u128 = match self {
            PixelFormat::RGB | PixelFormat::BGR => pixels as u128 * 3,
            PixelFormat::RGBA | PixelFormat::BGRA => pixels as u128 * 4,
            PixelFormat::YUV420 => pixels as u128 * 3 / 2,
        };
        if wide <= usize::MAX as u128 {
            Some(wide as usize)
        } else {
            None
        }
    }

    /// The frame length in bytes.
    pub fn calc_frame_len(&self, width: u32, height: u32) -> (len: usize)
        requires
            self.frame_len(width as nat, height as nat) <= usize::MAX,
        ensures
            len == self.frame_len(width as nat, height as nat),
    {
        match self.checked_frame_len(width, height) {
            Some(n) => n,
            None => 0,
        }
    }
}

/// `width * height`, which always fits in 64 bits.
pub fn pixel_count(width: u32, height: u32) -> (pixels: u64)
    ensures
        pixels == width as nat * height as nat,
{
    assert(width as nat * height as nat <= 0xffff_ffff * 0xffff_ffff) by (nonlinear_arith)
        requires
            width <= 0xffff_ffff,
            height <= 0xffff_ffff,
    ;
    width as u64 * height as u64
}

/// A planar 4:2:0 frame of even dimensions is exactly its three planes laid
/// end to end: `width * height` luma bytes, then two chroma planes of
/// `(width / 2) * (height / 2)` bytes each.
pub proof fn lemma_yuv420_is_three_planes(width: nat, height: nat)
    requires
        width % 2 == 0,
        height % 2 == 0,
    ensures
        PixelFormat::YUV420.frame_len(width, height) == width * height + 2 * ((width / 2) * (height
            / 2)),
{
    let w = width / 2;
    let h = height / 2;
    assert(width == 2 * w);
    assert(height == 2 * h);
    assert(width * height == 4 * (w * h)) by (nonlinear_arith)
        requires
            width == 2 * w,
            height == 2 * h,
    ;
}

} // verus!
