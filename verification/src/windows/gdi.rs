//! The block-copy path: what is copied from the screen, and how the copy
//! is read back as pixels.

use crate::error::Error;
use crate::format::PixelFormat;
use crate::region::Region;
use vstd::prelude::*;

verus! {

/// One block copy and its read-back: the rectangle of the screen that is
/// copied to the top-left corner of the memory bitmap, the height that
/// asks for rows from the top down when the bitmap is read, and the
/// length of the BGRA pixels that come back.
#[derive(Copy, Clone, Eq, PartialEq, Debug, Structural)]
pub struct Blit {
    pub x: i32,
    pub y: i32,
    pub width: i32,
    pub height: i32,
    pub top_down_height: i32,
    pub scan_lines: u32,
    pub buffer_len: usize,
}

/// The block copy that serves a request on a monitor of `width` x
/// `height` pixels: the region asked for, or the whole monitor.
///
/// A region that does not fit is refused. A rectangle that the signed 32
/// bits of the copy cannot express, or whose pixels no buffer can hold, is
/// refused as one the system has no resources for.
pub open spec fn blit_for(region: Option<Region>, width: nat, height: nat) -> Result<Blit, Error> {
    let r = match region {
        Some(r) => r,
        None => Region { left: 0, top: 0, width: width as u32, height: height as u32 },
    };
    if region is Some && r.verdict(width, height) is Err {
        Err(Error::Bounds(r.verdict(width, height)->Err_0))
    } else if r.left > i32::MAX || r.top > i32::MAX || r.width > i32::MAX || r.height > i32::MAX
        || PixelFormat::BGRA.frame_len(r.width as nat, r.height as nat) > usize::MAX {
        Err(Error::Resource)
    } else {
        Ok(
            Blit {
                x: r.left as i32,
                y: r.top as i32,
                width: r.width as i32,
                height: r.height as i32,
                top_down_height: (-(r.height as int)) as i32,
                scan_lines: r.height,
                buffer_len: PixelFormat::BGRA.frame_len(r.width as nat, r.height as nat) as usize,
            },
        )
    }
}

/// Decides what is copied from the screen for one request and how it is
/// read back.
pub fn plan_blit(region: Option<Region>, width: u32, height: u32) -> (res: Result<Blit, Error>)
    ensures
        res == blit_for(region, width as nat, height as nat),
{
    let r = match region {
        Some(r) => {
            if let Err(e) = r.check(width, height) {
                return Err(Error::Bounds(e));
            }
            r
        },
        None => Region { left: 0, top: 0, width, height },
    };
    let limit: u32 = 0x7fff_ffff;
    if r.left > limit || r.top > limit || r.width > limit || r.height > limit {
        return Err(Error::Resource);
    }
    match PixelFormat::BGRA.checked_frame_len(r.width, r.height) {
        None => Err(Error::Resource),
        Some(buffer_len) => Ok(
            Blit {
                x: r.left as i32,
                y: r.top as i32,
                width: r.width as i32,
                height: r.height as i32,
                top_down_height: -(r.height as i32),
                scan_lines: r.height,
                buffer_len,
            },
        ),
    }
}

} // verus!
