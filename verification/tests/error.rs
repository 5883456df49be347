use screencap::{BoundsError, Error};

#[test]
fn every_error_says_what_went_wrong() {
    assert_eq!(Error::Enumeration.message(), "Display enumeration failed");
    assert_eq!(Error::NotFound.message(), "Monitor not found");
    assert_eq!(Error::Unsupported.message(), "Capture mechanism is not supported");
    assert_eq!(Error::Resource.message(), "Capture resource could not be created or released");
    assert_eq!(Error::BufferTooSmall.message(), "Buffer is too small to hold the frame data");
    assert_eq!(Error::Acquisition.message(), "No frame could be acquired");
    assert_eq!(Error::InvalidData.message(), "Source image does not match its description");
}

#[test]
fn a_bounds_error_says_which_bound() {
    assert_eq!(BoundsError::EmptyExtent.message(), "width or height cannot be 0");
    assert_eq!(
        BoundsError::ExceedsWidth.message(),
        "Region out of bounds: left + width > full_width"
    );
    assert_eq!(
        BoundsError::ExceedsHeight.message(),
        "Region out of bounds: top + height > full_height"
    );
    for e in [BoundsError::EmptyExtent, BoundsError::ExceedsWidth, BoundsError::ExceedsHeight] {
        assert_eq!(Error::Bounds(e).message(), e.message());
    }
}
