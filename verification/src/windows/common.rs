//! Staging of a captured texture: how much of it is copied to where the
//! CPU can read it.

use crate::error::Error;
use crate::region::Region;
use vstd::prelude::*;

verus! {

/// The part of a texture that a copy takes, by its edges: left and top
/// inclusive, right and bottom exclusive, in the one slice of depth that a
/// two-dimensional texture has.
#[derive(Copy, Clone, Eq, PartialEq, Debug, Structural)]
pub struct CopyBox {
    pub left: u32,
    pub top: u32,
    pub front: u32,
    pub right: u32,
    pub bottom: u32,
    pub back: u32,
}

/// How a texture is staged: the size of the staging texture, and the box
/// that is copied into it. Without a box the whole texture is copied.
#[derive(Copy, Clone, Eq, PartialEq, Debug, Structural)]
pub struct Staging {
    pub width: u32,
    pub height: u32,
    pub copy_box: Option<CopyBox>,
}

/// The staging that serves a request from a texture of `full_width` x
/// `full_height` pixels: the whole texture where no region is asked for,
/// and exactly the region's rectangle where one is and it fits.
pub open spec fn staging_for(region: Option<Region>, full_width: nat, full_height: nat) -> Result<
    Staging,
    Error,
> {
    match region {
        None => Ok(Staging { width: full_width as u32, height: full_height as u32, copy_box: None }),
        Some(r) => match r.verdict(full_width, full_height) {
            Err(e) => Err(Error::Bounds(e)),
            Ok(()) => Ok(
                Staging {
                    width: r.width,
                    height: r.height,
                    copy_box: Some(
                        CopyBox {
                            left: r.left,
                            top: r.top,
                            front: 0,
                            right: (r.left + r.width) as u32,
                            bottom: (r.top + r.height) as u32,
                            back: 1,
                        },
                    ),
                },
            ),
        },
    }
}

/// Decides the size of the staging texture and what is copied into it,
/// from the size of the captured texture and the region asked for. A
/// region that does not fit the texture is refused before anything is
/// staged.
pub fn plan_staging(full_width: u32, full_height: u32, region: Option<Region>) -> (res: Result<
    Staging,
    Error,
>)
    ensures
        res == staging_for(region, full_width as nat, full_height as nat),
        res matches Ok(staging) ==> match staging.copy_box {
            Some(b) => b.right - b.left == staging.width && b.bottom - b.top == staging.height
                && b.right <= full_width && b.bottom <= full_height,
            None => staging.width == full_width && staging.height == full_height,
        },
{
    match region {
        None => Ok(Staging { width: full_width, height: full_height, copy_box: None }),
        Some(r) => match r.check(full_width, full_height) {
            Err(e) => Err(Error::Bounds(e)),
            Ok(()) => Ok(
                Staging {
                    width: r.width,
                    height: r.height,
                    copy_box: Some(
                        CopyBox {
                            left: r.left,
                            top: r.top,
                            front: 0,
                            right: r.left + r.width,
                            bottom: r.top + r.height,
                            back: 1,
                        },
                    ),
                },
            ),
        },
    }
}

} // verus!
