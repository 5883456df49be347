//! The calls this library makes into the `yuv` crate and into parts of the
//! standard library that carry no specification. Their contracts are taken
//! on trust from the source and documentation of the code they describe.

use crate::buffer::resized_bytes;
use crate::layout::reordered;
use vstd::prelude::*;
use yuv::BufferStoreMut::Borrowed;

verus! {

/// The error type of the `yuv` crate, carried through unread.
#[verifier::external_type_specification]
#[verifier::external_body]
pub struct ExYuvError(yuv::YuvError);

/// `<[T]>::copy_from_slice`: between slices of equal length, the destination
/// ends up holding the elements of the source. On unequal lengths the
/// standard library panics, so those are excluded.
pub assume_specification<T>[ <[T]>::copy_from_slice ](dst: &mut [T], src: &[T]) where T: Copy
    requires
        old(dst)@.len() == src@.len(),
    ensures
        final(dst)@ == src@,
;

/// The inputs on which the channel-reordering functions of the `yuv` crate
/// run to completion as this library calls them: a non-empty image, source
/// rows that do not overlap, a source of `height` whole rows that the
/// address space can hold, and a destination of exactly `height` rows of
/// `width` pixels of `channels` bytes, without padding.
pub open spec fn reorder_accepts(
    src_len: nat,
    src_stride: nat,
    dst_len: nat,
    dst_stride: nat,
    channels: nat,
    width: nat,
    height: nat,
) -> bool {
    &&& width > 0
    &&& height > 0
    &&& 4 * width <= src_stride
    &&& src_stride * height <= src_len
    &&& src_stride * height <= isize::MAX
    &&& dst_stride == channels * width
    &&& dst_len == dst_stride * height
}

/// `yuv::bgra_to_rgb`. On inputs that `reorder_accepts` admits the call
/// succeeds, and every destination pixel holds the red, green and blue bytes
/// of the source pixel at the same place, in that order.
#[verifier::external_body]
pub(crate) fn bgra_to_rgb(
    src: &[u8],
    src_stride: u32,
    dst: &mut [u8],
    dst_stride: u32,
    width: u32,
    height: u32,
) -> (res: Result<(), yuv::YuvError>)
    requires
        reorder_accepts(
            src@.len(),
            src_stride as nat,
            old(dst)@.len(),
            dst_stride as nat,
            3,
            width as nat,
            height as nat,
        ),
    ensures
        res is Ok,
        final(dst)@ == reordered(
            src@,
            src_stride as nat,
            width as nat,
            height as nat,
            seq![2, 1, 0],
        ),
{
    yuv::bgra_to_rgb(src, src_stride, dst, dst_stride, width, height)
}

/// `yuv::bgra_to_bgr`. On inputs that `reorder_accepts` admits the call
/// succeeds, and every destination pixel holds the blue, green and red bytes
/// of the source pixel at the same place, in that order: the alpha byte is
/// dropped and nothing else changes.
#[verifier::external_body]
pub(crate) fn bgra_to_bgr(
    src: &[u8],
    src_stride: u32,
    dst: &mut [u8],
    dst_stride: u32,
    width: u32,
    height: u32,
) -> (res: Result<(), yuv::YuvError>)
    requires
        reorder_accepts(
            src@.len(),
            src_stride as nat,
            old(dst)@.len(),
            dst_stride as nat,
            3,
            width as nat,
            height as nat,
        ),
    ensures
        res is Ok,
        final(dst)@ == reordered(
            src@,
            src_stride as nat,
            width as nat,
            height as nat,
            seq![0, 1, 2],
        ),
{
    yuv::bgra_to_bgr(src, src_stride, dst, dst_stride, width, height)
}

/// `yuv::bgra_to_rgba`. On inputs that `reorder_accepts` admits the call
/// succeeds, and every destination pixel holds the red, green, blue and
/// alpha bytes of the source pixel at the same place, in that order: the
/// first and third byte trade places.
#[verifier::external_body]
pub(crate) fn bgra_to_rgba(
    src: &[u8],
    src_stride: u32,
    dst: &mut [u8],
    dst_stride: u32,
    width: u32,
    height: u32,
) -> (res: Result<(), yuv::YuvError>)
    requires
        reorder_accepts(
            src@.len(),
            src_stride as nat,
            old(dst)@.len(),
            dst_stride as nat,
            4,
            width as nat,
            height as nat,
        ),
    ensures
        res is Ok,
        final(dst)@ == reordered(
            src@,
            src_stride as nat,
            width as nat,
            height as nat,
            seq![2, 1, 0, 3],
        ),
{
    yuv::bgra_to_rgba(src, src_stride, dst, dst_stride, width, height)
}

/// `yuv::bgra_to_yuv420` with the BT.601 matrix in limited range, into
/// three borrowed planes without row padding. On a non-empty image of even
/// dimensions whose source holds `height` whole rows the call succeeds. The
/// bytes it writes depend on the instruction set it finds at run time, so
/// nothing is said of them; the planes keep their lengths.
#[verifier::external_body]
pub(crate) fn bgra_to_yuv420(
    y_plane: &mut [u8],
    u_plane: &mut [u8],
    v_plane: &mut [u8],
    chroma_stride: u32,
    src: &[u8],
    src_stride: u32,
    width: u32,
    height: u32,
) -> (res: Result<(), yuv::YuvError>)
    requires
        width > 0,
        height > 0,
        width % 2 == 0,
        height % 2 == 0,
        4 * width <= src_stride,
        src_stride * height <= src@.len(),
        src_stride * height <= isize::MAX,
        chroma_stride == width / 2,
        old(y_plane)@.len() == width * height,
        old(u_plane)@.len() == (width / 2) * (height / 2),
        old(v_plane)@.len() == (width / 2) * (height / 2),
    ensures
        res is Ok,
        final(y_plane)@.len() == old(y_plane)@.len(),
        final(u_plane)@.len() == old(u_plane)@.len(),
        final(v_plane)@.len() == old(v_plane)@.len(),
{
    let (y_stride, u_stride, v_stride) = (width, chroma_stride, chroma_stride);
    let (y_plane, u_plane, v_plane) = (Borrowed(y_plane), Borrowed(u_plane), Borrowed(v_plane));
    let mut planes = yuv::YuvPlanarImageMut {
        y_plane, y_stride, u_plane, u_stride, v_plane, v_stride, width, height,
    };
    let (range, matrix) = (yuv::YuvRange::Limited, yuv::YuvStandardMatrix::Bt601);
    let mode = yuv::YuvConversionMode::default();
    yuv::bgra_to_yuv420(&mut planes, src, src_stride, range, matrix, mode)
}

/// The growable byte buffer of the `bytes` crate, held as it is.
#[verifier::external_type_specification]
#[verifier::external_body]
pub struct ExBytesMut(bytes::BytesMut);

/// The bytes that a `BytesMut` holds, first to last.
pub uninterp spec fn bytes_mut_contents(buf: &bytes::BytesMut) -> Seq<u8>;

/// `BytesMut::resize`: a buffer longer than `new_len` is cut down to it, a
/// shorter one is extended with copies of `value`, and the bytes that stay
/// are unchanged. Lengths that no allocation can reach are excluded.
#[verifier::external_body]
pub(crate) fn bytes_mut_resize(buf: &mut bytes::BytesMut, new_len: usize, value: u8)
    requires
        new_len <= isize::MAX,
    ensures
        bytes_mut_contents(final(buf)) == resized_bytes(
            bytes_mut_contents(old(buf)),
            new_len as nat,
            value,
        ),
{
    buf.resize(new_len, value)
}

/// `<BytesMut as AsRef<[u8]>>::as_ref`: the slice is the buffer's contents.
#[verifier::external_body]
pub(crate) fn bytes_mut_as_slice(buf: &bytes::BytesMut) -> (slice: &[u8])
    ensures
        slice@ == bytes_mut_contents(buf),
{
    buf.as_ref()
}

/// `<BytesMut as AsMut<[u8]>>::as_mut`: the slice starts out as the
/// buffer's contents, and what is written to it is what the buffer holds
/// afterwards.
#[verifier::external_body]
pub(crate) fn bytes_mut_as_mut_slice(buf: &mut bytes::BytesMut) -> (slice: &mut [u8])
    ensures
        slice@ == bytes_mut_contents(old(buf)),
        bytes_mut_contents(final(buf)) == final(slice)@,
{
    buf.as_mut()
}

} // verus!
