//! A captured image as the capture core sees it, and the pipeline that
//! turns it into the bytes a caller asked for.

use crate::buffer::Buffer;
use crate::convert::{
    conversion_result, convert_bgra, pack_bgra_rows, source_admitted, source_is_admitted,
};
use crate::error::Error;
use crate::format::PixelFormat;
use crate::layout::{cropped, packed_frame};
use crate::region::Region;
use vstd::prelude::*;

verus! {

/// A BGRA image in memory: its bytes, the distance in bytes between the
/// starts of consecutive rows, and its size in pixels. The stride is what
/// rows are read by; it may exceed `width * 4`.
#[derive(Clone, Copy, Debug)]
pub struct Frame<'a> {
    pub data: &'a [u8],
    pub stride: u32,
    pub width: u32,
    pub height: u32,
}

/// The bytes a buffer holds once it has been sized for a frame of `len`
/// bytes: resized with zero fill, unless `len` is beyond any allocation.
pub open spec fn sized_for<B: Buffer + ?Sized>(buf: &B, len: nat) -> Seq<u8> {
    if len <= isize::MAX {
        buf.resized(len, 0)
    } else {
        buf.contents()
    }
}

/// What writing one frame does to a buffer and what it returns, for a
/// source image given by its bytes, stride, width and height.
///
/// The buffer is first sized for the frame. Whether the conversion then
/// succeeds depends on the sizes alone. On an error the buffer stays as
/// sizing left it. On success the frame lies at its start and the rest is
/// as sizing left it; of a packed frame every byte is determined.
pub open spec fn delivered<B: Buffer + ?Sized>(
    before: &B,
    after: &B,
    res: Result<(usize, u32, u32), Error>,
    format: PixelFormat,
    src: Seq<u8>,
    stride: nat,
    width: nat,
    height: nat,
) -> bool {
    let sized = sized_for(before, format.frame_len(width, height));
    match conversion_result(format, src.len(), stride, sized.len(), width, height) {
        Err(e) => res == Err::<(usize, u32, u32), Error>(e) && after.contents() == sized,
        Ok(len) => {
            &&& res matches Ok(out)
            &&& out.0 == len
            &&& out.1 == width
            &&& out.2 == height
            &&& after.contents().len() == sized.len()
            &&& after.contents().skip(len as int) == sized.skip(len as int)
            &&& format.is_packed() ==> after.contents().take(len as int) == packed_frame(
                format,
                src,
                stride,
                width,
                height,
            )
        },
    }
}

/// The image an adapter hands over for one capture.
#[derive(Clone, Copy, Debug)]
pub enum Source<'a> {
    /// The whole of the monitor's frame. A region that was asked for is
    /// cut out of it here.
    Whole(Frame<'a>),
    /// What the adapter staged for the request: the region that was asked
    /// for, cut out by the capture mechanism itself, under whatever size
    /// the mechanism gave it.
    Staged(Frame<'a>),
}

/// What capturing `region` from `source` into a buffer does and returns,
/// on a monitor of `full_width` x `full_height` pixels.
///
/// From a whole frame the region is cut out as `region_delivered` says.
/// Of a staged image the region is validated against the size of the
/// monitor, and the image is then delivered as it is, under its own size.
pub open spec fn source_delivered<B: Buffer + ?Sized>(
    before: &B,
    after: &B,
    res: Result<(usize, u32, u32), Error>,
    format: PixelFormat,
    source: Source<'_>,
    region: Option<Region>,
    full_width: nat,
    full_height: nat,
) -> bool {
    match source {
        Source::Whole(frame) => region_delivered(before, after, res, format, frame, region),
        Source::Staged(frame) => match staged_verdict(region, full_width, full_height) {
            Err(e) => res == Err::<(usize, u32, u32), Error>(Error::Bounds(e)) && after.contents()
                == before.contents(),
            Ok(()) => delivered(
                before,
                after,
                res,
                format,
                frame.data@,
                frame.stride as nat,
                frame.width as nat,
                frame.height as nat,
            ),
        },
    }
}

/// Whether a request may be served from a monitor of the given size: any
/// request for the whole monitor, and a request for a region that fits.
pub open spec fn staged_verdict(region: Option<Region>, full_width: nat, full_height: nat) -> Result<
    (),
    crate::error::BoundsError,
> {
    match region {
        None => Ok(()),
        Some(r) => r.verdict(full_width, full_height),
    }
}

/// What capturing `region` of `source` into a buffer does and returns;
/// without a region, what capturing the whole of `source` does.
///
/// A region is validated against the size of the source before anything
/// else, and a source that is not well formed is refused next; in both
/// cases the buffer is not touched. After that the region's pixels are
/// delivered as an image of their own, without row padding.
pub open spec fn region_delivered<B: Buffer + ?Sized>(
    before: &B,
    after: &B,
    res: Result<(usize, u32, u32), Error>,
    format: PixelFormat,
    source: Frame<'_>,
    region: Option<Region>,
) -> bool {
    match region {
        None => delivered(
            before,
            after,
            res,
            format,
            source.data@,
            source.stride as nat,
            source.width as nat,
            source.height as nat,
        ),
        Some(r) => match r.verdict(source.width as nat, source.height as nat) {
            Err(e) => res == Err::<(usize, u32, u32), Error>(Error::Bounds(e)) && after.contents()
                == before.contents(),
            Ok(()) => if source.well_formed() {
                delivered(
                    before,
                    after,
                    res,
                    format,
                    cropped(source.data@, source.stride as nat, r),
                    4 * r.width as nat,
                    r.width as nat,
                    r.height as nat,
                )
            } else {
                res == Err::<(usize, u32, u32), Error>(Error::InvalidData) && after.contents()
                    == before.contents()
            },
        },
    }
}

impl<'a> Frame<'a> {
    /// Whether the bytes hold `height` whole rows, `stride` apart, of
    /// `width` pixels each.
    pub open spec fn well_formed(&self) -> bool {
        source_admitted(
            PixelFormat::BGRA,
            self.data@.len(),
            self.stride as nat,
            self.width as nat,
            self.height as nat,
        )
    }

    /// Sizes `buf` for one frame of `pixel_format`, converts the image into
    /// it, and returns the frame's length, width and height.
    ///
    /// The buffer is resized before anything else, so an error leaves it
    /// resized and otherwise untouched.
    pub fn copy_image_data<B: Buffer + ?Sized>(&self, buf: &mut B, pixel_format: PixelFormat) -> (res:
        Result<(usize, u32, u32), Error>)
        ensures
            delivered(
                old(buf),
                final(buf),
                res,
                pixel_format,
                self.data@,
                self.stride as nat,
                self.width as nat,
                self.height as nat,
            ),
    {
        match pixel_format.checked_frame_len(self.width, self.height) {
            Some(len) => {
                if len <= isize::MAX as usize {
                    buf.resize(len, 0);
                }
            },
            None => {},
        }
        let dst = buf.as_mut_bytes();
        match convert_bgra(pixel_format, self.data, self.stride, dst, self.width, self.height) {
            Ok(len) => Ok((len, self.width, self.height)),
            Err(e) => Err(e),
        }
    }

    /// The pixels of `region` as a packed BGRA image of their own.
    ///
    /// The region is validated against the size of this image first; an
    /// image whose bytes do not hold what it describes is refused next.
    pub fn crop(&self, region: Region) -> (res: Result<Vec<u8>, Error>)
        ensures
            match region.verdict(self.width as nat, self.height as nat) {
                Err(e) => res == Err::<Vec<u8>, Error>(Error::Bounds(e)),
                Ok(()) => if self.well_formed() {
                    &&& res matches Ok(pixels)
                    &&& pixels@ == cropped(self.data@, self.stride as nat, region)
                    &&& pixels@.len() == region.width * region.height * 4
                } else {
                    res == Err::<Vec<u8>, Error>(Error::InvalidData)
                },
            },
    {
        if let Err(e) = region.check(self.width, self.height) {
            return Err(Error::Bounds(e));
        }
        if !source_is_admitted(
            PixelFormat::BGRA,
            self.data.len(),
            self.stride,
            self.width,
            self.height,
        ) {
            return Err(Error::InvalidData);
        }
        proof {
            lemma_region_inside(
                self.stride as nat,
                self.width as nat,
                self.height as nat,
                region,
            );
        }
        let len = region.width as usize * region.height as usize * 4;
        let offset = region.top as usize * self.stride as usize + region.left as usize * 4;
        let window = &self.data[offset..self.data.len()];
        assert(window@ == self.data@.skip(offset as int));
        let mut pixels: Vec<u8> = Vec::new();
        pixels.resize(len, 0);
        pack_bgra_rows(window, self.stride, pixels.as_mut_slice(), region.width, region.height);
        Ok(pixels)
    }

    /// As `copy_image_data`, of the whole image or, where a region is
    /// given, of its pixels alone. A region that does not fit the image is
    /// refused before the buffer is touched.
    pub fn copy_region_data<B: Buffer + ?Sized>(
        &self,
        region: Option<Region>,
        buf: &mut B,
        pixel_format: PixelFormat,
    ) -> (res: Result<(usize, u32, u32), Error>)
        ensures
            region_delivered(old(buf), final(buf), res, pixel_format, *self, region),
    {
        match region {
            None => self.copy_image_data(buf, pixel_format),
            Some(r) => {
                let pixels = match self.crop(r) {
                    Ok(pixels) => pixels,
                    Err(e) => {
                        return Err(e);
                    },
                };
                let part = Frame {
                    data: pixels.as_slice(),
                    stride: r.width * 4,
                    width: r.width,
                    height: r.height,
                };
                part.copy_image_data(buf, pixel_format)
            },
        }
    }
}

/// A region that fits an image lies, with the whole of its last row, inside
/// the bytes of that image.
proof fn lemma_region_inside(stride: nat, width: nat, height: nat, region: Region)
    requires
        region.fits(width, height),
        4 * width <= stride,
    ensures
        4 * region.width <= stride,
        region.top * stride + region.left * 4 + stride * (region.height - 1) + 4 * region.width
            <= stride * height,
        region.width * region.height * 4 <= stride * height,
        0 <= region.top * stride,
        0 <= stride * (region.height - 1),
        region.width * region.height * 4 == (region.width * region.height) * 4,
{
    let (left, top, w, h) = (
        region.left as int,
        region.top as int,
        region.width as int,
        region.height as int,
    );
    let s = stride as int;
    assert(top * s + s * (h - 1) + s <= s * height) by (nonlinear_arith)
        requires
            top + h <= height,
            0 <= s,
    ;
    assert(0 <= top * s && 0 <= s * (h - 1)) by (nonlinear_arith)
        requires
            0 <= top,
            0 <= s,
            1 <= h,
    ;
    assert(w * h * 4 <= s * height) by (nonlinear_arith)
        requires
            4 * w <= s,
            0 < h <= height,
            0 <= w,
    ;
}

impl<'a> Source<'a> {
    /// Serves one request from this source, as `source_delivered` says.
    pub fn deliver<B: Buffer + ?Sized>(
        &self,
        region: Option<Region>,
        full_width: u32,
        full_height: u32,
        buf: &mut B,
        pixel_format: PixelFormat,
    ) -> (res: Result<(usize, u32, u32), Error>)
        ensures
            source_delivered(
                old(buf),
                final(buf),
                res,
                pixel_format,
                *self,
                region,
                full_width as nat,
                full_height as nat,
            ),
    {
        match self {
            Source::Whole(frame) => frame.copy_region_data(region, buf, pixel_format),
            Source::Staged(frame) => {
                if let Some(r) = region {
                    if let Err(e) = r.check(full_width, full_height) {
                        return Err(Error::Bounds(e));
                    }
                }
                frame.copy_image_data(buf, pixel_format)
            },
        }
    }
}

} // verus!
