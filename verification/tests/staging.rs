use screencap::windows::common::{plan_staging, CopyBox, Staging};
use screencap::windows::gdi::{plan_blit, Blit};
use screencap::{BoundsError, Error, Region};

#[test]
fn without_a_region_the_whole_texture_is_staged() {
    let staging = plan_staging(1920, 1080, None);
    assert_eq!(staging, Ok(Staging { width: 1920, height: 1080, copy_box: None }));
}

#[test]
fn a_region_is_staged_as_its_box() {
    let staging = plan_staging(1920, 1080, Some(Region::new(100, 50, 640, 480)));
    let copy_box = CopyBox { left: 100, top: 50, front: 0, right: 740, bottom: 530, back: 1 };
    assert_eq!(staging, Ok(Staging { width: 640, height: 480, copy_box: Some(copy_box) }));
}

#[test]
fn a_region_up_to_the_far_corner_is_staged() {
    let staging = plan_staging(u32::MAX, u32::MAX, Some(Region::new(u32::MAX - 1, u32::MAX - 2, 1, 2)));
    let copy_box = CopyBox {
        left: u32::MAX - 1,
        top: u32::MAX - 2,
        front: 0,
        right: u32::MAX,
        bottom: u32::MAX,
        back: 1,
    };
    assert_eq!(staging, Ok(Staging { width: 1, height: 2, copy_box: Some(copy_box) }));
}

#[test]
fn a_region_that_does_not_fit_is_not_staged() {
    assert_eq!(
        plan_staging(100, 100, Some(Region::new(0, 0, 0, 5))),
        Err(Error::Bounds(BoundsError::EmptyExtent))
    );
    assert_eq!(
        plan_staging(100, 100, Some(Region::new(60, 0, 50, 5))),
        Err(Error::Bounds(BoundsError::ExceedsWidth))
    );
    assert_eq!(
        plan_staging(100, 100, Some(Region::new(0, 96, 50, 5))),
        Err(Error::Bounds(BoundsError::ExceedsHeight))
    );
}

#[test]
fn without_a_region_the_whole_monitor_is_copied() {
    let blit = Blit {
        x: 0,
        y: 0,
        width: 1920,
        height: 1080,
        top_down_height: -1080,
        scan_lines: 1080,
        buffer_len: 1920 * 1080 * 4,
    };
    assert_eq!(plan_blit(None, 1920, 1080), Ok(blit));
}

#[test]
fn a_region_is_copied_from_where_it_lies() {
    let blit = Blit {
        x: 100,
        y: 50,
        width: 640,
        height: 480,
        top_down_height: -480,
        scan_lines: 480,
        buffer_len: 640 * 480 * 4,
    };
    assert_eq!(plan_blit(Some(Region::new(100, 50, 640, 480)), 1920, 1080), Ok(blit));
}

#[test]
fn a_region_that_does_not_fit_is_not_copied() {
    assert_eq!(
        plan_blit(Some(Region::new(0, 0, 1921, 1)), 1920, 1080),
        Err(Error::Bounds(BoundsError::ExceedsWidth))
    );
    assert_eq!(
        plan_blit(Some(Region::new(0, 0, 1, 0)), 1920, 1080),
        Err(Error::Bounds(BoundsError::EmptyExtent))
    );
}

#[test]
fn a_rectangle_beyond_signed_32_bits_cannot_be_copied() {
    assert_eq!(plan_blit(None, 1 << 31, 1), Err(Error::Resource));
    assert_eq!(plan_blit(None, 1, 1 << 31), Err(Error::Resource));
    let far = Region::new(1 << 31, 0, 1, 1);
    assert_eq!(plan_blit(Some(far), u32::MAX, 1), Err(Error::Resource));
    let edge = Region::new(i32::MAX as u32, 0, 1, 1);
    let blit = plan_blit(Some(edge), u32::MAX, 1).unwrap();
    assert_eq!((blit.x, blit.width, blit.height, blit.top_down_height), (i32::MAX, 1, 1, -1));
}

#[test]
fn an_empty_monitor_is_an_empty_copy() {
    let blit = plan_blit(None, 0, 0).unwrap();
    assert_eq!((blit.width, blit.height, blit.top_down_height, blit.buffer_len), (0, 0, 0, 0));
}
