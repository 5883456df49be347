//! Conversion of a row-strided BGRA source into a tightly packed frame.
//!
//! The source is described by its bytes, its row stride, and its width and
//! height in pixels. Rows are read at stride distance and written back to
//! back, so any padding between source rows never reaches the destination.

use crate::error::Error;
use crate::format::{lemma_yuv420_is_three_planes, pixel_count, PixelFormat};
use crate::layout::{lemma_pixel_position, packed_frame, reordered};
use crate::outside::{bgra_to_bgr, bgra_to_rgb, bgra_to_rgba, bgra_to_yuv420};
use vstd::arithmetic::div_mod::lemma_fundamental_div_mod;
use vstd::prelude::*;

verus! {

/// Whether a source of `src_len` bytes can be read as a `width` x `height`
/// BGRA image with the given row stride, for conversion into `format`.
///
/// Rows must not overlap and the source must hold `height` whole rows. Every
/// layout but BGRA also needs at least one pixel and an image no larger than
/// the address space allows; the planar layout needs even dimensions.
pub open spec fn source_admitted(
    format: PixelFormat,
    src_len: nat,
    stride: nat,
    width: nat,
    height: nat,
) -> bool {
    &&& 4 * width <= stride
    &&& stride * height <= src_len
    &&& format != PixelFormat::BGRA ==> {
        &&& width > 0
        &&& height > 0
        &&& stride * height <= isize::MAX
    }
    &&& format == PixelFormat::YUV420 ==> width % 2 == 0 && height % 2 == 0
}

/// What a conversion returns, as a function of the sizes involved alone:
/// the destination is checked first, then the source, and only then is
/// anything written.
pub open spec fn conversion_result(
    format: PixelFormat,
    src_len: nat,
    stride: nat,
    dst_len: nat,
    width: nat,
    height: nat,
) -> Result<usize, Error> {
    if dst_len < format.frame_len(width, height) {
        Err(Error::BufferTooSmall)
    } else if !source_admitted(format, src_len, stride, width, height) {
        Err(Error::InvalidData)
    } else {
        Ok(format.frame_len(width, height) as usize)
    }
}

/// Converts a BGRA image of `width` x `height` pixels, whose rows lie
/// `src_stride` bytes apart in `src`, into `pixel_format` at the start of
/// `dst`, and returns the number of bytes written.
///
/// The result depends on the sizes alone. A destination shorter than the
/// frame is refused before the source is looked at, a source that cannot
/// hold the image is refused next, and in both cases nothing is written.
/// On success the frame occupies the first bytes of `dst` and the bytes
/// after it are as they were. For the packed layouts the frame is
/// `packed_frame`; the planar frame is computed by the `yuv` crate and its
/// bytes are not specified.
pub fn convert_bgra(
    pixel_format: PixelFormat,
    src: &[u8],
    src_stride: u32,
    dst: &mut [u8],
    width: u32,
    height: u32,
) -> (res: Result<usize, Error>)
    ensures
        res == conversion_result(
            pixel_format,
            src@.len(),
            src_stride as nat,
            old(dst)@.len(),
            width as nat,
            height as nat,
        ),
        final(dst)@.len() == old(dst)@.len(),
        res is Err ==> final(dst)@ == old(dst)@,
        res matches Ok(len) ==> {
            &&& len == pixel_format.frame_len(width as nat, height as nat)
            &&& final(dst)@.skip(len as int) == old(dst)@.skip(len as int)
            &&& pixel_format.is_packed() ==> final(dst)@.take(len as int) == packed_frame(
                pixel_format,
                src@,
                src_stride as nat,
                width as nat,
                height as nat,
            )
        },
{
    let dst_len = dst.len();
    let len = match pixel_format.checked_frame_len(width, height) {
        Some(len) => len,
        None => {
            return Err(Error::BufferTooSmall);
        },
    };
    if dst_len < len {
        return Err(Error::BufferTooSmall);
    }
    if !source_is_admitted(pixel_format, src.len(), src_stride, width, height) {
        return Err(Error::InvalidData);
    }
    let ghost before = dst@;
    let (frame, _rest) = dst.split_at_mut(len);
    proof {
        lemma_frame_fits(pixel_format, src_stride as nat, width as nat, height as nat);
    }
    let converted = match pixel_format {
        PixelFormat::RGB => bgra_to_rgb(src, src_stride, frame, width * 3, width, height),
        PixelFormat::RGBA => bgra_to_rgba(src, src_stride, frame, width * 4, width, height),
        PixelFormat::BGR => bgra_to_bgr(src, src_stride, frame, width * 3, width, height),
        PixelFormat::BGRA => {
            proof {
                if height > 0 {
                    lemma_row_bounds(src_stride as nat, 4 * width as nat, height as nat, 0);
                    assert(src_stride * (height - 1) + src_stride == src_stride * height)
                        by (nonlinear_arith);
                }
            }
            pack_bgra_rows(src, src_stride, frame, width, height);
            Ok(())
        },
        PixelFormat::YUV420 => {
            proof {
                lemma_yuv420_is_three_planes(width as nat, height as nat);
            }
            let luma_len = width as usize * height as usize;
            let chroma_len = (width as usize / 2) * (height as usize / 2);
            let (y_plane, chroma) = frame.split_at_mut(luma_len);
            let (u_plane, v_plane) = chroma.split_at_mut(chroma_len);
            bgra_to_yuv420(y_plane, u_plane, v_plane, width / 2, src, src_stride, width, height)
        },
    };
    proof {
        assert(dst@.len() == before.len());
        assert(dst@.skip(len as int) =~= before.skip(len as int));
        if pixel_format.is_packed() {
            assert(dst@.take(len as int) =~= packed_frame(
                pixel_format,
                src@,
                src_stride as nat,
                width as nat,
                height as nat,
            ));
        }
    }
    match converted {
        Ok(()) => Ok(len),
        Err(_) => Err(Error::InvalidData),
    }
}

/// Whether the source can be read as the image it is said to hold.
pub(crate) fn source_is_admitted(
    format: PixelFormat,
    src_len: usize,
    stride: u32,
    width: u32,
    height: u32,
) -> (admitted: bool)
    ensures
        admitted == source_admitted(
            format,
            src_len as nat,
            stride as nat,
            width as nat,
            height as nat,
        ),
{
    let image_len: u64 = pixel_count(stride, height);
    if width as u64 * 4 > stride as u64 || image_len > src_len as u64 {
        return false;
    }
    match format {
        PixelFormat::BGRA => true,
        PixelFormat::YUV420 => width > 0 && height > 0 && image_len <= isize::MAX as u64 && width
            % 2 == 0 && height % 2 == 0,
        _ => width > 0 && height > 0 && image_len <= isize::MAX as u64,
    }
}

/// Copies a BGRA image row by row into a buffer of exactly its packed size,
/// leaving out whatever lies between the rows of the source.
pub(crate) fn pack_bgra_rows(src: &[u8], src_stride: u32, frame: &mut [u8], width: u32, height: u32)
    requires
        4 * width <= src_stride,
        height > 0 ==> src_stride * (height - 1) + 4 * width <= src@.len(),
        old(frame)@.len() == width * height * 4,
    ensures
        final(frame)@ == reordered(
            src@,
            src_stride as nat,
            width as nat,
            height as nat,
            seq![0, 1, 2, 3],
        ),
{
    let ghost packed = reordered(
        src@,
        src_stride as nat,
        width as nat,
        height as nat,
        seq![0, 1, 2, 3],
    );
    let stride = src_stride as usize;
    let row_len = width as usize * 4;
    let rows = height as usize;
    if stride == row_len {
        proof {
            assert(width * height * 4 == stride * rows) by (nonlinear_arith)
                requires
                    rows == height,
                    stride == 4 * width,
            ;
            if rows > 0 {
                assert(stride * rows == stride * (rows - 1) + stride) by (nonlinear_arith);
            } else {
                assert(stride * rows == 0) by (nonlinear_arith)
                    requires
                        rows == 0,
                ;
            }
        }
        frame.copy_from_slice(&src[0..frame.len()]);
        proof {
            assert(packed.len() == rows * row_len) by (nonlinear_arith)
                requires
                    packed.len() == width * height * 4,
                    rows == height,
                    row_len == 4 * width,
            ;
            assert forall|i: int| 0 <= i < packed.len() implies frame@[i] == packed[i] by {
                lemma_row_of(row_len as nat, rows as nat, i);
                let y = i / (row_len as int);
                let j = i % (row_len as int);
                lemma_packed_bgra_byte(src@, stride as nat, width as nat, height as nat, y, j);
            }
            assert(frame@ =~= packed);
        }
        return ;
    }
    let mut y: usize = 0;
    while y < rows
        invariant
            y <= rows,
            rows == height,
            stride == src_stride,
            row_len == 4 * width,
            row_len <= stride,
            rows > 0 ==> stride * (rows - 1) + row_len <= src@.len(),
            frame@.len() == width * height * 4,
            packed == reordered(
                src@,
                src_stride as nat,
                width as nat,
                height as nat,
                seq![0, 1, 2, 3],
            ),
            forall|i: int| 0 <= i < y * row_len ==> frame@[i] == packed[i],
        decreases rows - y,
    {
        proof {
            lemma_row_bounds(stride as nat, row_len as nat, rows as nat, y as nat);
            assert(width * height * 4 == rows * row_len) by (nonlinear_arith)
                requires
                    rows == height,
                    row_len == 4 * width,
            ;
        }
        assert(y * stride + row_len <= src.len());
        let src_row = &src[y * stride..y * stride + row_len];
        let ghost before = frame@;
        let (_done, rest) = frame.split_at_mut(y * row_len);
        let (row, _tail) = rest.split_at_mut(row_len);
        row.copy_from_slice(src_row);
        proof {
            assert(frame@.len() == before.len());
            assert forall|i: int| 0 <= i < (y + 1) * row_len implies frame@[i] == packed[i] by {
                assert((y + 1) * row_len == y * row_len + row_len) by (nonlinear_arith);
                if i < y * row_len {
                    assert(frame@[i] == before[i]);
                } else {
                    let j = i - y * row_len;
                    assert(frame@[i] == src_row@[j]);
                    lemma_packed_bgra_byte(src@, stride as nat, width as nat, height as nat, y as int, j);
                }
            }
        }
        y += 1;
    }
    proof {
        assert(width * height * 4 == rows * row_len) by (nonlinear_arith)
            requires
                rows == height,
                row_len == 4 * width,
        ;
        assert(frame@ =~= packed);
    }
}

/// Row `y` of `rows` starts and ends inside both buffers.
proof fn lemma_row_bounds(stride: nat, row_len: nat, rows: nat, y: nat)
    requires
        y < rows,
        row_len <= stride,
    ensures
        y * stride + row_len <= stride * (rows - 1) + row_len,
        y * row_len + row_len <= rows * row_len,
        y * row_len <= y * stride,
{
    assert(y * stride <= stride * (rows - 1)) by (nonlinear_arith)
        requires
            y <= rows - 1,
    ;
    assert(y * row_len + row_len <= rows * row_len) by (nonlinear_arith)
        requires
            y + 1 <= rows,
    ;
    assert(y * row_len <= y * stride) by (nonlinear_arith)
        requires
            row_len <= stride,
    ;
}

/// Every position in `rows` rows of `row_len` bytes is some byte of some row.
proof fn lemma_row_of(row_len: nat, rows: nat, i: int)
    requires
        0 <= i < rows * row_len,
    ensures
        row_len > 0,
        0 <= i / (row_len as int) < rows,
        0 <= i % (row_len as int) < row_len,
        i == (i / (row_len as int)) * row_len + i % (row_len as int),
{
    if row_len == 0 {
        assert(rows * row_len == 0) by (nonlinear_arith)
            requires
                row_len == 0,
        ;
    }
    let d = row_len as int;
    let q = i / d;
    lemma_fundamental_div_mod(i, d);
    assert(q * d == d * q) by (nonlinear_arith);
    assert(0 <= q < rows) by (nonlinear_arith)
        requires
            0 <= i < rows * d,
            i == q * d + i % d,
            0 <= i % d < d,
    ;
}

/// Byte `j` of row `y` of the packed BGRA image is byte `j` of row `y` of
/// the source.
proof fn lemma_packed_bgra_byte(src: Seq<u8>, stride: nat, width: nat, height: nat, y: int, j: int)
    requires
        0 <= y < height,
        0 <= j < 4 * width,
    ensures
        0 <= y * (4 * width) + j < width * height * 4,
        reordered(src, stride, width, height, seq![0, 1, 2, 3])[y * (4 * width) + j] == src[y
            * stride + j],
{
    let order = seq![0int, 1, 2, 3];
    let x = j / 4;
    let c = j % 4;
    lemma_pixel_position(width, 4, x, y, c);
    let i = (y * width + x) * 4 + c;
    assert(i == y * (4 * width) + j) by (nonlinear_arith)
        requires
            i == (y * width + x) * 4 + c,
            j == 4 * x + c,
    ;
    assert(i < width * height * 4) by (nonlinear_arith)
        requires
            i == y * (4 * width) + j,
            j < 4 * width,
            y + 1 <= height,
    ;
    assert(order.len() == 4);
    assert(order[c] == c);
    assert(width * height * order.len() == width * height * 4);
}

/// The sizes of a frame and of its rows, as products that the calls into the
/// `yuv` crate are given: all of them stay below the size of the source.
proof fn lemma_frame_fits(format: PixelFormat, stride: nat, width: nat, height: nat)
    requires
        4 * width <= stride,
    ensures
        width * height * 3 == (3 * width) * height,
        width * height * 4 == (4 * width) * height,
        format.frame_len(width, height) <= stride * height,
        width * height <= stride * height,
        (width / 2) * (height / 2) <= width * height,
{
    assert(width * height * 3 == (3 * width) * height) by (nonlinear_arith);
    assert(width * height * 4 == (4 * width) * height) by (nonlinear_arith);
    assert((4 * width) * height <= stride * height) by (nonlinear_arith)
        requires
            4 * width <= stride,
    ;
    assert((3 * width) * height <= (4 * width) * height) by (nonlinear_arith);
    assert(width * height <= (4 * width) * height) by (nonlinear_arith);
    assert((width / 2) * (height / 2) <= width * height) by (nonlinear_arith)
        requires
            width / 2 <= width,
            height / 2 <= height,
    ;
}

} // verus!
