//! Choice of a capture mechanism, and the grabber that is bound to it.

use crate::buffer::Buffer;
use crate::error::Error;
use crate::format::PixelFormat;
use crate::frame::Source;
use crate::lifecycle::{AcquireStep, FrameSignal, Lifecycle, State};
use crate::region::Region;
use crate::windows::monitor::Monitor;
use vstd::prelude::*;

verus! {

/// How frames are captured: by one named mechanism, or by the first of
/// them that this system supports.
#[derive(Copy, Clone, Eq, PartialEq, Debug, Structural)]
pub enum CaptureMethod {
    /// The windowed frame pool of the graphics capture interface.
    Graphics,
    /// Duplication of the desktop by the compositor.
    Dxgi,
    /// Block copies between device contexts.
    Gdi,
    /// Whichever of the three is found to work, tried in the order above.
    Compatible,
}

impl Default for CaptureMethod {
    fn default() -> (method: Self)
        ensures
            method == CaptureMethod::Compatible,
    {
        CaptureMethod::Compatible
    }
}

/// What the attempt to set one mechanism up ended in: the size it was set
/// up for, or the reason it could not be.
pub type Probe = Result<(u32, u32), Error>;

/// What follows from the attempt to set one mechanism up.
#[derive(Copy, Clone, Eq, PartialEq, Debug, Structural)]
pub enum OpenStep {
    /// The mechanism works and the grabber is bound to it.
    Opened(CaptureMethod),
    /// The mechanism is not supported here: the next one is to be tried.
    Try(CaptureMethod),
    /// Construction is over, for the reason given.
    Failed(Error),
}

impl CaptureMethod {
    /// The mechanism that is tried first when this method is asked for.
    pub open spec fn first(self) -> CaptureMethod {
        match self {
            CaptureMethod::Compatible => CaptureMethod::Graphics,
            named => named,
        }
    }

    /// The mechanism that comes after this one in the order of preference.
    pub open spec fn successor(self) -> Option<CaptureMethod> {
        match self {
            CaptureMethod::Graphics => Some(CaptureMethod::Dxgi),
            CaptureMethod::Dxgi => Some(CaptureMethod::Gdi),
            _ => None,
        }
    }

    /// The mechanism a grabber ends up bound to when this method is asked
    /// for and `probe` tells how the attempt to set each mechanism up ends.
    ///
    /// A named mechanism is tried alone. Otherwise the mechanisms are tried
    /// in their order of preference; one that is not supported hands over
    /// to the next, and any other failure ends the search with that
    /// failure.
    pub open spec fn chosen(self, probe: spec_fn(CaptureMethod) -> Probe) -> Result<
        CaptureMethod,
        Error,
    > {
        match self {
            CaptureMethod::Compatible => match probe(CaptureMethod::Graphics) {
                Ok(_) => Ok(CaptureMethod::Graphics),
                Err(Error::Unsupported) => match probe(CaptureMethod::Dxgi) {
                    Ok(_) => Ok(CaptureMethod::Dxgi),
                    Err(Error::Unsupported) => match probe(CaptureMethod::Gdi) {
                        Ok(_) => Ok(CaptureMethod::Gdi),
                        Err(e) => Err(e),
                    },
                    Err(e) => Err(e),
                },
                Err(e) => Err(e),
            },
            named => match probe(named) {
                Ok(_) => Ok(named),
                Err(e) => Err(e),
            },
        }
    }
}

/// The state of a grabber: the monitor it captures, the method that was
/// asked for, the mechanism that is being tried or has been chosen, and
/// where its backend stands.
#[derive(Copy, Clone, Debug)]
pub struct ScreenGrabber {
    pub monitor: Monitor,
    pub requested: CaptureMethod,
    pub candidate: CaptureMethod,
    pub lifecycle: Lifecycle,
}

impl ScreenGrabber {
    /// What `opened` returns for `outcome`, and the grabber it leaves.
    pub open spec fn after_probe(self, outcome: Probe) -> (OpenStep, ScreenGrabber) {
        if self.lifecycle.state != State::Uninitialized {
            (OpenStep::Failed(Error::Resource), self)
        } else {
            match outcome {
                Ok(size) => (
                    OpenStep::Opened(self.candidate),
                    ScreenGrabber {
                        lifecycle: Lifecycle {
                            state: State::Ready,
                            width: size.0,
                            height: size.1,
                        },
                        ..self
                    },
                ),
                Err(e) => if self.requested == CaptureMethod::Compatible && e
                    == Error::Unsupported && self.candidate.successor() is Some {
                    (
                        OpenStep::Try(self.candidate.successor().unwrap()),
                        ScreenGrabber { candidate: self.candidate.successor().unwrap(), ..self },
                    )
                } else {
                    (
                        OpenStep::Failed(e),
                        ScreenGrabber {
                            lifecycle: Lifecycle { state: State::Closed, ..self.lifecycle },
                            ..self
                        },
                    )
                },
            }
        }
    }

    /// Where the search that starts at this grabber ends when `probe`
    /// tells how each attempt ends and at most `tries` attempts are made.
    pub open spec fn search(self, probe: spec_fn(CaptureMethod) -> Probe, tries: nat) -> OpenStep
        decreases tries,
    {
        let (step, next) = self.after_probe(probe(self.candidate));
        match step {
            OpenStep::Try(_) if tries > 0 => next.search(probe, (tries - 1) as nat),
            _ => step,
        }
    }

    /// A grabber for `monitor` that has yet to be bound to a mechanism.
    /// The first mechanism to try is `candidate`.
    pub fn new(monitor: &Monitor, capture_type: CaptureMethod) -> (grabber: Self)
        ensures
            grabber == (ScreenGrabber {
                monitor: *monitor,
                requested: capture_type,
                candidate: capture_type.first(),
                lifecycle: Lifecycle { state: State::Uninitialized, width: 0, height: 0 },
            }),
    {
        let candidate = match capture_type {
            CaptureMethod::Compatible => CaptureMethod::Graphics,
            named => named,
        };
        ScreenGrabber {
            monitor: *monitor,
            requested: capture_type,
            candidate,
            lifecycle: Lifecycle::new(),
        }
    }

    /// Records how the attempt to set the current candidate up ended, and
    /// says what follows.
    ///
    /// Success binds the grabber to the candidate for good. A candidate
    /// that is not supported makes way for the next one if the choice was
    /// left open and there is a next one. Every other failure ends the
    /// construction and closes the grabber.
    pub fn opened(&mut self, outcome: Probe) -> (step: OpenStep)
        ensures
            step == old(self).after_probe(outcome).0,
            *final(self) == old(self).after_probe(outcome).1,
    {
        if self.lifecycle.state != State::Uninitialized {
            return OpenStep::Failed(Error::Resource);
        }
        match outcome {
            Ok(size) => {
                let _ = self.lifecycle.open(Ok(size));
                OpenStep::Opened(self.candidate)
            },
            Err(e) => {
                let next = match self.candidate {
                    CaptureMethod::Graphics => Some(CaptureMethod::Dxgi),
                    CaptureMethod::Dxgi => Some(CaptureMethod::Gdi),
                    _ => None,
                };
                match next {
                    Some(next) if self.requested == CaptureMethod::Compatible && e
                        == Error::Unsupported => {
                        self.candidate = next;
                        OpenStep::Try(next)
                    },
                    _ => {
                        let _ = self.lifecycle.close();
                        OpenStep::Failed(e)
                    },
                }
            },
        }
    }

    /// The mechanism the grabber is bound to; before it is bound, the one
    /// that is tried next.
    pub fn capture_method(&self) -> (method: CaptureMethod)
        ensures
            method == self.candidate,
    {
        self.candidate
    }

    /// Decides what follows from the frame source's answer, as
    /// `Lifecycle::acquire` does.
    pub fn acquire(&mut self, signal: FrameSignal) -> (step: AcquireStep)
        ensures
            step == old(self).lifecycle.after_signal(signal).0,
            *final(self) == (ScreenGrabber {
                lifecycle: old(self).lifecycle.after_signal(signal).1,
                ..*old(self)
            }),
    {
        self.lifecycle.acquire(signal)
    }

    /// Records that the backend has been set up again for a new frame
    /// size, as `Lifecycle::resized` does.
    pub fn resized(&mut self, width: u32, height: u32) -> (recorded: bool)
        ensures
            recorded == (old(self).lifecycle.state == State::FrameLeased),
            recorded ==> *final(self) == (ScreenGrabber {
                lifecycle: Lifecycle { state: State::FrameLeased, width, height },
                ..*old(self)
            }),
            !recorded ==> *final(self) == *old(self),
    {
        self.lifecycle.resized(width, height)
    }

    /// Gives a lease back without delivering the frame. Returns whether
    /// there was a lease.
    pub fn release(&mut self) -> (released: bool)
        ensures
            released == (old(self).lifecycle.state == State::FrameLeased),
            released ==> *final(self) == (ScreenGrabber {
                lifecycle: Lifecycle { state: State::Ready, ..old(self).lifecycle },
                ..*old(self)
            }),
            !released ==> *final(self) == *old(self),
    {
        self.lifecycle.release()
    }

    /// Delivers the whole of the leased frame as BGRA.
    pub fn next_frame<B: Buffer + ?Sized>(&mut self, buf: &mut B, source: &Source<'_>) -> (res:
        Result<(usize, u32, u32), Error>)
        ensures
            old(self).served(
                final(self),
                old(buf),
                final(buf),
                res,
                *source,
                None,
                PixelFormat::BGRA,
            ),
    {
        self.next_frame_region_inner(buf, source, None, PixelFormat::BGRA)
    }

    /// Delivers `region` of the leased frame as BGRA.
    pub fn next_frame_region<B: Buffer + ?Sized>(
        &mut self,
        buf: &mut B,
        source: &Source<'_>,
        region: Region,
    ) -> (res: Result<(usize, u32, u32), Error>)
        ensures
            old(self).served(
                final(self),
                old(buf),
                final(buf),
                res,
                *source,
                Some(region),
                PixelFormat::BGRA,
            ),
    {
        self.next_frame_region_inner(buf, source, Some(region), PixelFormat::BGRA)
    }

    /// Delivers the leased frame, or a region of it, in `pixel_format`.
    pub fn next_frame_region_format<B: Buffer + ?Sized>(
        &mut self,
        buf: &mut B,
        source: &Source<'_>,
        region: Option<Region>,
        pixel_format: PixelFormat,
    ) -> (res: Result<(usize, u32, u32), Error>)
        ensures
            old(self).served(final(self), old(buf), final(buf), res, *source, region, pixel_format),
    {
        self.next_frame_region_inner(buf, source, region, pixel_format)
    }

    /// What delivering a frame does to the grabber and the buffer: what
    /// `Lifecycle::served` says of its backend, and nothing else.
    pub open spec fn served<B: Buffer + ?Sized>(
        self,
        after: &ScreenGrabber,
        buf_before: &B,
        buf_after: &B,
        res: Result<(usize, u32, u32), Error>,
        source: Source<'_>,
        region: Option<Region>,
        pixel_format: PixelFormat,
    ) -> bool {
        &&& self.lifecycle.served(
            after.lifecycle,
            buf_before,
            buf_after,
            res,
            source,
            region,
            pixel_format,
        )
        &&& *after == (ScreenGrabber { lifecycle: after.lifecycle, ..self })
    }

    fn next_frame_region_inner<B: Buffer + ?Sized>(
        &mut self,
        buf: &mut B,
        source: &Source<'_>,
        region: Option<Region>,
        pixel_format: PixelFormat,
    ) -> (res: Result<(usize, u32, u32), Error>)
        ensures
            old(self).served(final(self), old(buf), final(buf), res, *source, region, pixel_format),
    {
        self.lifecycle.deliver(buf, source, region, pixel_format)
    }
}

/// Stepping through the attempts one at a time binds the grabber to the
/// mechanism that `chosen` names, or fails as `chosen` fails.
pub proof fn lemma_search_finds_chosen(
    monitor: Monitor,
    requested: CaptureMethod,
    probe: spec_fn(CaptureMethod) -> Probe,
)
    ensures
        ({
            let start = ScreenGrabber {
                monitor,
                requested,
                candidate: requested.first(),
                lifecycle: Lifecycle { state: State::Uninitialized, width: 0, height: 0 },
            };
            start.search(probe, 2) == match requested.chosen(probe) {
                Ok(method) => OpenStep::Opened(method),
                Err(e) => OpenStep::Failed(e),
            }
        }),
{
    let start = ScreenGrabber {
        monitor,
        requested,
        candidate: requested.first(),
        lifecycle: Lifecycle { state: State::Uninitialized, width: 0, height: 0 },
    };
    reveal_with_fuel(ScreenGrabber::search, 4);
    let (_, second) = start.after_probe(probe(start.candidate));
    let (_, third) = second.after_probe(probe(second.candidate));
    assert(start.search(probe, 2) == match requested.chosen(probe) {
        Ok(method) => OpenStep::Opened(method),
        Err(e) => OpenStep::Failed(e),
    });
}

/// Where the choice is left open and the preferred mechanism is not
/// supported, the next mechanism in the order of preference is chosen if
/// it works.
pub proof fn lemma_unsupported_falls_through(probe: spec_fn(CaptureMethod) -> Probe)
    requires
        probe(CaptureMethod::Graphics) == Err::<(u32, u32), Error>(Error::Unsupported),
    ensures
        probe(CaptureMethod::Dxgi) is Ok ==> CaptureMethod::Compatible.chosen(probe) == Ok::<
            CaptureMethod,
            Error,
        >(CaptureMethod::Dxgi),
        probe(CaptureMethod::Dxgi) == Err::<(u32, u32), Error>(Error::Unsupported) && probe(
            CaptureMethod::Gdi,
        ) is Ok ==> CaptureMethod::Compatible.chosen(probe) == Ok::<CaptureMethod, Error>(
            CaptureMethod::Gdi,
        ),
{
}

} // verus!
