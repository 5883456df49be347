//! The one capture mechanism of this platform, and the grabber bound to it.

use crate::buffer::Buffer;
use crate::error::Error;
use crate::format::PixelFormat;
use crate::frame::Source;
use crate::lifecycle::{AcquireStep, FrameSignal, Lifecycle, State};
use crate::macos::monitor::Monitor;
use crate::region::Region;
use vstd::prelude::*;

verus! {

/// How frames are captured. Quartz display services are the only way here.
#[derive(Copy, Clone, Eq, PartialEq, Debug, Structural)]
pub enum CaptureMethod {
    Quartz,
}

impl Default for CaptureMethod {
    fn default() -> (method: Self)
        ensures
            method == CaptureMethod::Quartz,
    {
        CaptureMethod::Quartz
    }
}

/// The state of a grabber: the monitor it captures and where its backend
/// stands. Quartz needs no resources negotiated, so a grabber is ready
/// from the start; it learns the size of the display with the first frame.
#[derive(Copy, Clone, Debug)]
pub struct ScreenGrabber {
    pub monitor: Monitor,
    pub lifecycle: Lifecycle,
}

impl ScreenGrabber {
    pub fn new(monitor: &Monitor, _capture_type: CaptureMethod) -> (res: Result<Self, Error>)
        ensures
            res == Ok::<ScreenGrabber, Error>(
                ScreenGrabber {
                    monitor: *monitor,
                    lifecycle: Lifecycle { state: State::Ready, width: 0, height: 0 },
                },
            ),
    {
        Ok(
            ScreenGrabber {
                monitor: *monitor,
                lifecycle: Lifecycle { state: State::Ready, width: 0, height: 0 },
            },
        )
    }

    pub fn capture_method(&self) -> (method: CaptureMethod)
        ensures
            method == CaptureMethod::Quartz,
    {
        CaptureMethod::Quartz
    }

    /// Decides what follows from the frame source's answer, as
    /// `Lifecycle::acquire` does.
    pub fn acquire(&mut self, signal: FrameSignal) -> (step: AcquireStep)
        ensures
            step == old(self).lifecycle.after_signal(signal).0,
            *final(self) == (ScreenGrabber {
                lifecycle: old(self).lifecycle.after_signal(signal).1,
                ..*old(self)
            }),
    {
        self.lifecycle.acquire(signal)
    }

    /// Records the size the display was found to have, as
    /// `Lifecycle::resized` does.
    pub fn resized(&mut self, width: u32, height: u32) -> (recorded: bool)
        ensures
            recorded == (old(self).lifecycle.state == State::FrameLeased),
            recorded ==> *final(self) == (ScreenGrabber {
                lifecycle: Lifecycle { state: State::FrameLeased, width, height },
                ..*old(self)
            }),
            !recorded ==> *final(self) == *old(self),
    {
        self.lifecycle.resized(width, height)
    }

    /// Gives a lease back without delivering the frame. Returns whether
    /// there was a lease.
    pub fn release(&mut self) -> (released: bool)
        ensures
            released == (old(self).lifecycle.state == State::FrameLeased),
            released ==> *final(self) == (ScreenGrabber {
                lifecycle: Lifecycle { state: State::Ready, ..old(self).lifecycle },
                ..*old(self)
            }),
            !released ==> *final(self) == *old(self),
    {
        self.lifecycle.release()
    }

    /// What delivering a frame does to the grabber and the buffer: what
    /// `Lifecycle::served` says of its backend, and nothing else.
    pub open spec fn served<B: Buffer + ?Sized>(
        self,
        after: &ScreenGrabber,
        buf_before: &B,
        buf_after: &B,
        res: Result<(usize, u32, u32), Error>,
        source: Source<'_>,
        region: Option<Region>,
        pixel_format: PixelFormat,
    ) -> bool {
        &&& self.lifecycle.served(
            after.lifecycle,
            buf_before,
            buf_after,
            res,
            source,
            region,
            pixel_format,
        )
        &&& *after == (ScreenGrabber { lifecycle: after.lifecycle, ..self })
    }

    /// Delivers the whole of the leased frame as BGRA.
    pub fn next_frame<B: Buffer + ?Sized>(&mut self, buf: &mut B, source: &Source<'_>) -> (res:
        Result<(usize, u32, u32), Error>)
        ensures
            old(self).served(
                final(self),
                old(buf),
                final(buf),
                res,
                *source,
                None,
                PixelFormat::BGRA,
            ),
    {
        self.next_frame_region_inner(buf, source, None, PixelFormat::BGRA)
    }

    /// Delivers `region` of the leased frame as BGRA.
    pub fn next_frame_region<B: Buffer + ?Sized>(
        &mut self,
        buf: &mut B,
        source: &Source<'_>,
        region: Region,
    ) -> (res: Result<(usize, u32, u32), Error>)
        ensures
            old(self).served(
                final(self),
                old(buf),
                final(buf),
                res,
                *source,
                Some(region),
                PixelFormat::BGRA,
            ),
    {
        self.next_frame_region_inner(buf, source, Some(region), PixelFormat::BGRA)
    }

    /// Delivers the leased frame, or a region of it, in `pixel_format`.
    pub fn next_frame_region_format<B: Buffer + ?Sized>(
        &mut self,
        buf: &mut B,
        source: &Source<'_>,
        region: Option<Region>,
        pixel_format: PixelFormat,
    ) -> (res: Result<(usize, u32, u32), Error>)
        ensures
            old(self).served(final(self), old(buf), final(buf), res, *source, region, pixel_format),
    {
        self.next_frame_region_inner(buf, source, region, pixel_format)
    }

    fn next_frame_region_inner<B: Buffer + ?Sized>(
        &mut self,
        buf: &mut B,
        source: &Source<'_>,
        region: Option<Region>,
        pixel_format: PixelFormat,
    ) -> (res: Result<(usize, u32, u32), Error>)
        ensures
            old(self).served(final(self), old(buf), final(buf), res, *source, region, pixel_format),
    {
        self.lifecycle.deliver(buf, source, region, pixel_format)
    }
}

} // verus!
