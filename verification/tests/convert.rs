use screencap::{convert_bgra, Error, PixelFormat};

const PAD: u8 = 0xEE;
const UNTOUCHED: u8 = 0x5A;

fn channel(x: u32, y: u32, c: u32) -> u8 {
    (x * 31 + y * 57 + c * 101 + 7) as u8
}

fn image(width: u32, height: u32, stride: u32) -> Vec<u8> {
    let mut src = vec![PAD; (stride * height) as usize];
    for y in 0..height {
        for x in 0..width {
            for c in 0..4 {
                src[(y * stride + x * 4 + c) as usize] = channel(x, y, c);
            }
        }
    }
    src
}

fn expect_packed(width: u32, height: u32, order: &[u32]) -> Vec<u8> {
    let mut out = Vec::new();
    for y in 0..height {
        for x in 0..width {
            for &c in order {
                out.push(channel(x, y, c));
            }
        }
    }
    out
}

fn check_packed(format: PixelFormat, order: &[u32], width: u32, height: u32, stride: u32) {
    let src = image(width, height, stride);
    let len = (width * height) as usize * order.len();
    let mut dst = vec![UNTOUCHED; len + 5];
    let res = convert_bgra(format, &src, stride, &mut dst, width, height);
    assert_eq!(res, Ok(len));
    assert_eq!(&dst[..len], &expect_packed(width, height, order)[..]);
    assert_eq!(&dst[len..], &[UNTOUCHED; 5]);
}

#[test]
fn bgra_without_padding_is_copied_as_it_is() {
    let src = image(3, 2, 12);
    let mut dst = vec![0u8; 24];
    assert_eq!(convert_bgra(PixelFormat::BGRA, &src, 12, &mut dst, 3, 2), Ok(24));
    assert_eq!(dst, src);
}

#[test]
fn bgra_with_padding_loses_only_the_padding() {
    check_packed(PixelFormat::BGRA, &[0, 1, 2, 3], 3, 2, 16);
    check_packed(PixelFormat::BGRA, &[0, 1, 2, 3], 5, 4, 32);
    check_packed(PixelFormat::BGRA, &[0, 1, 2, 3], 1, 7, 5);
}

#[test]
fn bgra_copies_from_the_start_of_a_longer_source() {
    let mut src = image(2, 2, 8);
    src.extend_from_slice(&[PAD; 9]);
    let mut dst = vec![0u8; 16];
    assert_eq!(convert_bgra(PixelFormat::BGRA, &src, 8, &mut dst, 2, 2), Ok(16));
    assert_eq!(&dst[..], &src[..16]);
}

#[test]
fn rgba_swaps_the_first_and_third_byte_only() {
    let src = [10u8, 20, 30, 40, 50, 60, 70, 80];
    let mut dst = [0u8; 8];
    assert_eq!(convert_bgra(PixelFormat::RGBA, &src, 8, &mut dst, 2, 1), Ok(8));
    assert_eq!(dst, [30, 20, 10, 40, 70, 60, 50, 80]);
}

#[test]
fn rgba_keeps_alpha_for_every_pixel() {
    check_packed(PixelFormat::RGBA, &[2, 1, 0, 3], 3, 2, 12);
    check_packed(PixelFormat::RGBA, &[2, 1, 0, 3], 3, 2, 20);
    check_packed(PixelFormat::RGBA, &[2, 1, 0, 3], 70, 5, 288);
}

#[test]
fn rgb_of_a_red_pixel() {
    let src = [0u8, 0, 255, 255];
    let mut dst = [9u8; 3];
    assert_eq!(convert_bgra(PixelFormat::RGB, &src, 4, &mut dst, 1, 1), Ok(3));
    assert_eq!(dst, [255, 0, 0]);
}

#[test]
fn bgr_of_a_red_pixel() {
    let src = [0u8, 0, 255, 255];
    let mut dst = [9u8; 3];
    assert_eq!(convert_bgra(PixelFormat::BGR, &src, 4, &mut dst, 1, 1), Ok(3));
    assert_eq!(dst, [0, 0, 255]);
}

#[test]
fn rgb_drops_alpha_and_reverses_the_colours() {
    check_packed(PixelFormat::RGB, &[2, 1, 0], 3, 2, 12);
    check_packed(PixelFormat::RGB, &[2, 1, 0], 3, 2, 16);
    check_packed(PixelFormat::RGB, &[2, 1, 0], 70, 5, 280);
    check_packed(PixelFormat::RGB, &[2, 1, 0], 33, 3, 200);
}

#[test]
fn bgr_drops_alpha_and_keeps_the_order() {
    check_packed(PixelFormat::BGR, &[0, 1, 2], 3, 2, 12);
    check_packed(PixelFormat::BGR, &[0, 1, 2], 3, 2, 16);
    check_packed(PixelFormat::BGR, &[0, 1, 2], 70, 5, 280);
    check_packed(PixelFormat::BGR, &[0, 1, 2], 33, 3, 200);
}

#[test]
fn three_byte_output_is_three_bytes_a_pixel() {
    for (w, h) in [(1u32, 1u32), (2, 3), (16, 9), (31, 2)] {
        let src = image(w, h, w * 4);
        let mut dst = vec![0u8; (w * h * 4) as usize];
        let expected = (w * h * 3) as usize;
        assert_eq!(convert_bgra(PixelFormat::RGB, &src, w * 4, &mut dst, w, h), Ok(expected));
        assert_eq!(convert_bgra(PixelFormat::BGR, &src, w * 4, &mut dst, w, h), Ok(expected));
    }
}

#[test]
fn a_destination_that_is_too_small_is_refused_and_left_alone() {
    let src = image(4, 2, 16);
    for format in [
        PixelFormat::RGB,
        PixelFormat::RGBA,
        PixelFormat::BGR,
        PixelFormat::BGRA,
        PixelFormat::YUV420,
    ] {
        let len = format.calc_frame_len(4, 2);
        let mut dst = vec![UNTOUCHED; len - 1];
        let res = convert_bgra(format, &src, 16, &mut dst, 4, 2);
        assert_eq!(res, Err(Error::BufferTooSmall));
        assert_eq!(dst, vec![UNTOUCHED; len - 1]);
        let mut none: [u8; 0] = [];
        assert_eq!(convert_bgra(format, &src, 16, &mut none, 4, 2), Err(Error::BufferTooSmall));
    }
}

#[test]
fn the_destination_is_checked_before_the_source() {
    let src = [0u8; 3];
    let mut dst = [UNTOUCHED; 2];
    assert_eq!(
        convert_bgra(PixelFormat::RGB, &src, 4, &mut dst, 1, 1),
        Err(Error::BufferTooSmall)
    );
    assert_eq!(dst, [UNTOUCHED; 2]);
}

#[test]
fn a_frame_beyond_the_address_space_never_fits() {
    let src = [0u8; 4];
    let mut dst = [UNTOUCHED; 4];
    let res = convert_bgra(PixelFormat::BGRA, &src, 4, &mut dst, u32::MAX, u32::MAX);
    assert_eq!(res, Err(Error::BufferTooSmall));
    assert_eq!(dst, [UNTOUCHED; 4]);
}

#[test]
fn a_source_shorter_than_its_rows_is_refused_and_nothing_is_written() {
    let src = image(4, 2, 16);
    for format in [
        PixelFormat::RGB,
        PixelFormat::RGBA,
        PixelFormat::BGR,
        PixelFormat::BGRA,
        PixelFormat::YUV420,
    ] {
        let mut dst = vec![UNTOUCHED; 40];
        let res = convert_bgra(format, &src[..31], 16, &mut dst, 4, 2);
        assert_eq!(res, Err(Error::InvalidData));
        assert_eq!(dst, vec![UNTOUCHED; 40]);
    }
}

#[test]
fn a_stride_shorter_than_a_row_is_refused() {
    let src = image(4, 2, 16);
    for format in [
        PixelFormat::RGB,
        PixelFormat::RGBA,
        PixelFormat::BGR,
        PixelFormat::BGRA,
        PixelFormat::YUV420,
    ] {
        let mut dst = vec![UNTOUCHED; 40];
        let res = convert_bgra(format, &src, 15, &mut dst, 4, 2);
        assert_eq!(res, Err(Error::InvalidData));
        assert_eq!(dst, vec![UNTOUCHED; 40]);
    }
}

#[test]
fn an_empty_image_is_nothing_to_copy_as_bgra() {
    let src = [1u8, 2, 3, 4];
    let mut dst = [UNTOUCHED; 4];
    assert_eq!(convert_bgra(PixelFormat::BGRA, &src, 4, &mut dst, 0, 1), Ok(0));
    assert_eq!(convert_bgra(PixelFormat::BGRA, &src, 4, &mut dst, 1, 0), Ok(0));
    assert_eq!(convert_bgra(PixelFormat::BGRA, &[], 0, &mut dst, 0, 0), Ok(0));
    assert_eq!(dst, [UNTOUCHED; 4]);
}

#[test]
fn an_empty_image_is_refused_by_the_other_layouts() {
    let src = [1u8, 2, 3, 4];
    for format in [PixelFormat::RGB, PixelFormat::RGBA, PixelFormat::BGR, PixelFormat::YUV420] {
        let mut dst = [UNTOUCHED; 4];
        assert_eq!(convert_bgra(format, &src, 4, &mut dst, 0, 1), Err(Error::InvalidData));
        assert_eq!(convert_bgra(format, &src, 4, &mut dst, 1, 0), Err(Error::InvalidData));
        assert_eq!(dst, [UNTOUCHED; 4]);
    }
}

#[test]
fn yuv420_needs_even_width_and_height() {
    let src = image(3, 3, 12);
    let mut dst = vec![UNTOUCHED; 40];
    assert_eq!(
        convert_bgra(PixelFormat::YUV420, &src, 12, &mut dst, 3, 2),
        Err(Error::InvalidData)
    );
    assert_eq!(
        convert_bgra(PixelFormat::YUV420, &src, 12, &mut dst, 2, 3),
        Err(Error::InvalidData)
    );
    assert_eq!(dst, vec![UNTOUCHED; 40]);
}

fn near(actual: u8, expected: u8) -> bool {
    (actual as i32 - expected as i32).abs() <= 2
}

fn check_uniform_yuv(bgra: [u8; 4], y: u8, u: u8, v: u8, width: u32, height: u32, stride: u32) {
    let mut src = vec![PAD; (stride * height) as usize];
    for row in 0..height {
        for x in 0..width {
            let at = (row * stride + x * 4) as usize;
            src[at..at + 4].copy_from_slice(&bgra);
        }
    }
    let luma = (width * height) as usize;
    let chroma = ((width / 2) * (height / 2)) as usize;
    let len = luma + 2 * chroma;
    let mut dst = vec![UNTOUCHED; len + 3];
    let res = convert_bgra(PixelFormat::YUV420, &src, stride, &mut dst, width, height);
    assert_eq!(res, Ok(len));
    assert!(dst[..luma].iter().all(|&b| near(b, y)));
    assert!(dst[luma..luma + chroma].iter().all(|&b| near(b, u)));
    assert!(dst[luma + chroma..len].iter().all(|&b| near(b, v)));
    assert_eq!(&dst[len..], &[UNTOUCHED; 3]);
}

#[test]
fn yuv420_of_black_white_and_red() {
    for (w, h, stride) in [(2u32, 2u32, 8u32), (4, 2, 20), (66, 4, 264), (66, 4, 300)] {
        check_uniform_yuv([0, 0, 0, 255], 16, 128, 128, w, h, stride);
        check_uniform_yuv([255, 255, 255, 255], 235, 128, 128, w, h, stride);
        check_uniform_yuv([0, 0, 255, 255], 81, 90, 240, w, h, stride);
        check_uniform_yuv([255, 0, 0, 255], 41, 240, 110, w, h, stride);
    }
}

#[test]
fn yuv420_lays_out_luma_then_two_chroma_planes() {
    let (w, h) = (4u32, 2u32);
    let mut src = vec![0u8; 32];
    for x in 0..w {
        for y in 0..h {
            let at = (y * 16 + x * 4) as usize;
            let white = x >= 2;
            let value = if white { 255 } else { 0 };
            src[at..at + 4].copy_from_slice(&[value, value, value, 255]);
        }
    }
    let mut dst = vec![UNTOUCHED; 12];
    assert_eq!(convert_bgra(PixelFormat::YUV420, &src, 16, &mut dst, w, h), Ok(12));
    for y in 0..h {
        for x in 0..w {
            let expected = if x >= 2 { 235 } else { 16 };
            assert!(near(dst[(y * w + x) as usize], expected));
        }
    }
    assert!(dst[8..12].iter().all(|&b| near(b, 128)));
}

#[test]
fn conversion_keeps_no_state_between_calls() {
    let src = image(5, 3, 24);
    let mut first = vec![0u8; 45];
    let mut second = vec![0u8; 45];
    assert_eq!(convert_bgra(PixelFormat::RGB, &src, 24, &mut first, 5, 3), Ok(45));
    let other = image(2, 2, 8);
    let mut scratch = vec![0u8; 16];
    assert_eq!(convert_bgra(PixelFormat::RGBA, &other, 8, &mut scratch, 2, 2), Ok(16));
    assert_eq!(convert_bgra(PixelFormat::RGB, &src, 24, &mut second, 5, 3), Ok(45));
    assert_eq!(first, second);
}

#[test]
fn packed_layouts_hold_for_every_width_up_to_several_vector_lengths() {
    for width in 1u32..=140 {
        for height in 1u32..=3 {
            for stride in [width * 4, width * 4 + 4, width * 4 + 37] {
                check_packed(PixelFormat::RGB, &[2, 1, 0], width, height, stride);
                check_packed(PixelFormat::BGR, &[0, 1, 2], width, height, stride);
                check_packed(PixelFormat::RGBA, &[2, 1, 0, 3], width, height, stride);
                check_packed(PixelFormat::BGRA, &[0, 1, 2, 3], width, height, stride);
            }
        }
    }
}

#[test]
fn yuv420_succeeds_for_every_even_size_up_to_several_vector_lengths() {
    for half_width in 1u32..=70 {
        for half_height in 1u32..=2 {
            let (width, height) = (half_width * 2, half_height * 2);
            check_uniform_yuv([255, 255, 255, 255], 235, 128, 128, width, height, width * 4);
            check_uniform_yuv([0, 0, 0, 255], 16, 128, 128, width, height, width * 4 + 12);
        }
    }
}
