//! The byte layout of packed frames, stated over sequences of bytes.
//!
//! A source image is a sequence of bytes holding BGRA pixels in rows that
//! lie `stride` bytes apart. A packed frame holds the same pixels back to
//! back, each reduced to the channels of its layout in the layout's order.

use crate::format::PixelFormat;
use crate::region::Region;
use vstd::arithmetic::div_mod::{lemma_fundamental_div_mod, lemma_fundamental_div_mod_converse};
use vstd::prelude::*;

verus! {

/// Position, in a row-strided BGRA image, of channel byte `channel` of the
/// pixel in column `x` of row `y`.
pub open spec fn bgra_index(stride: nat, x: int, y: int, channel: int) -> int {
    y * stride + x * 4 + channel
}

/// The tightly packed image in which byte `c` of the pixel at `(x, y)` is
/// channel `order[c]` of the source pixel at `(x, y)`.
pub open spec fn reordered(
    src: Seq<u8>,
    stride: nat,
    width: nat,
    height: nat,
    order: Seq<int>,
) -> Seq<u8> {
    Seq::new(
        width * height * order.len(),
        |i: int|
            {
                let pixel = i / (order.len() as int);
                src[bgra_index(
                    stride,
                    pixel % (width as int),
                    pixel / (width as int),
                    order[i % (order.len() as int)],
                )]
            },
    )
}

/// For each byte of an output pixel of a packed layout, the BGRA channel it
/// is taken from (0 blue, 1 green, 2 red, 3 alpha).
pub open spec fn channel_order(format: PixelFormat) -> Seq<int> {
    match format {
        PixelFormat::RGB => seq![2, 1, 0],
        PixelFormat::RGBA => seq![2, 1, 0, 3],
        PixelFormat::BGR => seq![0, 1, 2],
        PixelFormat::BGRA => seq![0, 1, 2, 3],
        PixelFormat::YUV420 => Seq::empty(),
    }
}

/// The frame that conversion into a packed layout produces.
pub open spec fn packed_frame(
    format: PixelFormat,
    src: Seq<u8>,
    stride: nat,
    width: nat,
    height: nat,
) -> Seq<u8> {
    reordered(src, stride, width, height, channel_order(format))
}

/// Where byte `c` of the pixel at `(x, y)` lies in a packed image of
/// `channels` bytes per pixel, and that the pixel and the channel are
/// recovered from that position by division.
pub proof fn lemma_pixel_position(width: nat, channels: nat, x: int, y: int, c: int)
    requires
        0 <= x < width,
        0 <= y,
        0 <= c < channels,
    ensures
        ({
            let i = (y * width + x) * channels + c;
            &&& 0 <= i
            &&& i / (channels as int) == y * width + x
            &&& i % (channels as int) == c
            &&& (i / (channels as int)) / (width as int) == y
            &&& (i / (channels as int)) % (width as int) == x
        }),
{
    let pixel = y * width + x;
    let i = pixel * channels + c;
    assert(0 <= y * width) by (nonlinear_arith)
        requires
            0 <= y,
            0 <= width,
    ;
    assert(0 <= pixel * channels) by (nonlinear_arith)
        requires
            0 <= pixel,
            0 <= channels,
    ;
    lemma_fundamental_div_mod_converse(i, channels as int, pixel, c);
    lemma_fundamental_div_mod_converse(pixel, width as int, y, x);
}

/// The pixels of `region`, cut out of a row-strided BGRA image and packed:
/// the image read from the region's first pixel on, with the same stride
/// and the region's own width and height.
pub open spec fn cropped(src: Seq<u8>, stride: nat, region: Region) -> Seq<u8> {
    reordered(
        src.skip(region.top * stride + region.left * 4),
        stride,
        region.width as nat,
        region.height as nat,
        seq![0, 1, 2, 3],
    )
}

/// A packed frame is exactly as long as its layout says, and byte `c` of
/// its pixel at `(x, y)` is the byte of the source pixel at `(x, y)` that
/// the layout's channel order names.
pub proof fn lemma_packed_byte(
    format: PixelFormat,
    src: Seq<u8>,
    stride: nat,
    width: nat,
    height: nat,
    x: int,
    y: int,
    c: int,
)
    requires
        format.is_packed(),
        0 <= x < width,
        0 <= y < height,
        0 <= c < format.bytes_per_pixel(),
    ensures
        packed_frame(format, src, stride, width, height).len() == format.frame_len(width, height),
        0 <= (y * width + x) * format.bytes_per_pixel() + c < format.frame_len(width, height),
        packed_frame(format, src, stride, width, height)[(y * width + x)
            * format.bytes_per_pixel() + c] == src[bgra_index(
            stride,
            x,
            y,
            channel_order(format)[c],
        )],
{
    let channels = format.bytes_per_pixel();
    assert(channel_order(format).len() == channels);
    lemma_pixel_position(width, channels, x, y, c);
    let pixel = y * width + x;
    assert(pixel + 1 <= width * height) by (nonlinear_arith)
        requires
            pixel == y * width + x,
            0 <= x < width,
            0 <= y,
            y + 1 <= height,
    ;
    assert(pixel * channels + c < width * height * channels) by (nonlinear_arith)
        requires
            pixel + 1 <= width * height,
            0 <= c < channels,
            0 <= pixel,
    ;
}

/// Conversion to BGRA changes no byte of any pixel, whatever the stride:
/// only what lies between the rows is gone.
pub proof fn lemma_bgra_keeps_every_byte(
    src: Seq<u8>,
    stride: nat,
    width: nat,
    height: nat,
    x: int,
    y: int,
    c: int,
)
    requires
        4 * width <= stride,
        0 <= x < width,
        0 <= y < height,
        0 <= c < 4,
    ensures
        packed_frame(PixelFormat::BGRA, src, stride, width, height)[(y * width + x) * 4 + c]
            == src[bgra_index(stride, x, y, c)],
{
    lemma_packed_byte(PixelFormat::BGRA, src, stride, width, height, x, y, c);
}

/// Where the source rows carry no padding, conversion to BGRA returns the
/// source image byte for byte.
pub proof fn lemma_bgra_without_padding_is_the_source(src: Seq<u8>, width: nat, height: nat)
    requires
        width * height * 4 <= src.len(),
    ensures
        packed_frame(PixelFormat::BGRA, src, 4 * width, width, height) == src.take(
            (width * height * 4) as int,
        ),
{
    let packed = packed_frame(PixelFormat::BGRA, src, 4 * width, width, height);
    let order = channel_order(PixelFormat::BGRA);
    assert(order.len() == 4);
    assert forall|i: int| 0 <= i < packed.len() implies packed[i] == src[i] by {
        let pixel = i / 4;
        let c = i % 4;
        if width == 0 {
            assert(width * height * 4 == 0) by (nonlinear_arith)
                requires
                    width == 0,
            ;
        }
        let w = width as int;
        lemma_fundamental_div_mod(pixel, w);
        assert((pixel / w) * (4 * width) + (pixel % w) * 4 + c == i) by (nonlinear_arith)
            requires
                pixel == w * (pixel / w) + pixel % w,
                i == 4 * pixel + c,
                w == width,
        ;
        assert(order[c] == c);
    }
    assert(packed =~= src.take((width * height * 4) as int));
}

/// Conversion to RGBA trades the first and third byte of every pixel and
/// changes nothing else: the second byte and the alpha byte stay in place.
pub proof fn lemma_rgba_swaps_first_and_third(
    src: Seq<u8>,
    stride: nat,
    width: nat,
    height: nat,
    x: int,
    y: int,
)
    requires
        0 <= x < width,
        0 <= y < height,
    ensures
        ({
            let out = packed_frame(PixelFormat::RGBA, src, stride, width, height);
            let at = (y * width + x) * 4;
            &&& out.len() == width * height * 4
            &&& out[at] == src[bgra_index(stride, x, y, 2)]
            &&& out[at + 1] == src[bgra_index(stride, x, y, 1)]
            &&& out[at + 2] == src[bgra_index(stride, x, y, 0)]
            &&& out[at + 3] == src[bgra_index(stride, x, y, 3)]
        }),
{
    lemma_packed_byte(PixelFormat::RGBA, src, stride, width, height, x, y, 0);
    lemma_packed_byte(PixelFormat::RGBA, src, stride, width, height, x, y, 1);
    lemma_packed_byte(PixelFormat::RGBA, src, stride, width, height, x, y, 2);
    lemma_packed_byte(PixelFormat::RGBA, src, stride, width, height, x, y, 3);
}

/// Conversion to RGB or BGR yields three bytes for every pixel of the
/// source: its colour bytes without the alpha byte, red first for RGB and
/// blue first for BGR.
pub proof fn lemma_three_byte_layouts_drop_alpha(
    src: Seq<u8>,
    stride: nat,
    width: nat,
    height: nat,
    x: int,
    y: int,
)
    requires
        0 <= x < width,
        0 <= y < height,
    ensures
        ({
            let rgb = packed_frame(PixelFormat::RGB, src, stride, width, height);
            let bgr = packed_frame(PixelFormat::BGR, src, stride, width, height);
            let at = (y * width + x) * 3;
            &&& rgb.len() == width * height * 3
            &&& bgr.len() == width * height * 3
            &&& rgb[at] == src[bgra_index(stride, x, y, 2)]
            &&& rgb[at + 1] == src[bgra_index(stride, x, y, 1)]
            &&& rgb[at + 2] == src[bgra_index(stride, x, y, 0)]
            &&& bgr[at] == src[bgra_index(stride, x, y, 0)]
            &&& bgr[at + 1] == src[bgra_index(stride, x, y, 1)]
            &&& bgr[at + 2] == src[bgra_index(stride, x, y, 2)]
        }),
{
    lemma_packed_byte(PixelFormat::RGB, src, stride, width, height, x, y, 0);
    lemma_packed_byte(PixelFormat::RGB, src, stride, width, height, x, y, 1);
    lemma_packed_byte(PixelFormat::RGB, src, stride, width, height, x, y, 2);
    lemma_packed_byte(PixelFormat::BGR, src, stride, width, height, x, y, 0);
    lemma_packed_byte(PixelFormat::BGR, src, stride, width, height, x, y, 1);
    lemma_packed_byte(PixelFormat::BGR, src, stride, width, height, x, y, 2);
}

/// Byte `c` of the pixel at `(x, y)` of a cropped image is byte `c` of the
/// source pixel at `(left + x, top + y)`.
pub proof fn lemma_cropped_byte(src: Seq<u8>, stride: nat, region: Region, x: int, y: int, c: int)
    requires
        0 <= x < region.width,
        0 <= y < region.height,
        0 <= c < 4,
        bgra_index(stride, region.left + x, region.top + y, c) < src.len(),
    ensures
        cropped(src, stride, region).len() == region.width * region.height * 4,
        cropped(src, stride, region)[(y * region.width + x) * 4 + c] == src[bgra_index(
            stride,
            region.left + x,
            region.top + y,
            c,
        )],
{
    let offset = region.top * stride + region.left * 4;
    let window = src.skip(offset);
    let order = seq![0int, 1, 2, 3];
    assert(order.len() == 4);
    assert(order[c] == c);
    lemma_pixel_position(region.width as nat, 4, x, y, c);
    let pixel = y * region.width + x;
    assert(pixel + 1 <= region.width * region.height) by (nonlinear_arith)
        requires
            pixel == y * region.width + x,
            0 <= x < region.width,
            0 <= y,
            y + 1 <= region.height,
    ;
    assert(offset + bgra_index(stride, x, y, c) == bgra_index(
        stride,
        region.left + x,
        region.top + y,
        c,
    )) by (nonlinear_arith)
        requires
            offset == region.top * stride + region.left * 4,
    ;
    assert(0 <= bgra_index(stride, x, y, c)) by (nonlinear_arith)
        requires
            0 <= x,
            0 <= y,
            0 <= c,
    ;
}

} // verus!
