//! The life of a capture backend, as a state machine.
//!
//! A backend is opened once, then alternates between waiting for a frame
//! and holding a lease on one, and is closed at the end. The operating
//! system is driven from outside; this module decides what each answer of
//! the operating system means and what has to happen next.

use crate::buffer::Buffer;
use crate::error::Error;
use crate::format::PixelFormat;
use crate::frame::{source_delivered, Source};
use crate::region::Region;
use vstd::prelude::*;

verus! {

/// How long one wait for the next frame lasts, in milliseconds, before the
/// frame source answers that nothing new has arrived.
pub const FRAME_WAIT_MS: u32 = 500;

/// Where a backend stands.
#[derive(Debug, Clone, Copy, PartialEq, Eq, Structural)]
pub enum State {
    /// No resource has been negotiated yet.
    Uninitialized,
    /// Resources are held and no frame is leased.
    Ready,
    /// A frame is leased from the operating system and has to be released.
    FrameLeased,
    /// Everything has been released; nothing more can be captured.
    Closed,
}

/// What the frame source answered when it was asked for the next frame.
#[derive(Debug, Clone, Copy, PartialEq, Eq, Structural)]
pub enum FrameSignal {
    /// A frame is there, with the size of its content in pixels.
    Arrived { width: u32, height: u32 },
    /// The wait timed out, or nothing new has been drawn.
    NoNewFrame,
    /// The source reported a state it cannot recover from.
    Lost,
}

/// What a backend does after the frame source has answered.
#[derive(Debug, Clone, Copy, PartialEq, Eq, Structural)]
pub enum AcquireStep {
    /// Nothing arrived: wait and ask again.
    Retry,
    /// A frame is leased and has the size the backend is set up for.
    Proceed,
    /// A frame is leased and its size is new: the backend sets its frame
    /// pool or surface up again for this size, then goes on.
    Recreate { width: u32, height: u32 },
    /// No frame is leased, for the reason given.
    Fail(Error),
}

/// State of one backend: where it stands and the frame size it is set up
/// for.
#[derive(Debug, Clone, Copy, PartialEq, Eq, Structural)]
pub struct Lifecycle {
    pub state: State,
    pub width: u32,
    pub height: u32,
}

impl Lifecycle {
    /// What `acquire` returns for `signal`, and the state it leaves behind.
    pub open spec fn after_signal(self, signal: FrameSignal) -> (AcquireStep, Lifecycle) {
        if self.state != State::Ready {
            (AcquireStep::Fail(Error::Acquisition), self)
        } else {
            match signal {
                FrameSignal::NoNewFrame => (AcquireStep::Retry, self),
                FrameSignal::Lost => (AcquireStep::Fail(Error::Acquisition), self),
                FrameSignal::Arrived { width, height } => {
                    let leased = Lifecycle { state: State::FrameLeased, ..self };
                    if width == self.width && height == self.height {
                        (AcquireStep::Proceed, leased)
                    } else {
                        (AcquireStep::Recreate { width, height }, leased)
                    }
                },
            }
        }
    }

    /// A backend for which nothing has been negotiated.
    pub fn new() -> (lifecycle: Self)
        ensures
            lifecycle == (Lifecycle { state: State::Uninitialized, width: 0, height: 0 }),
    {
        Lifecycle { state: State::Uninitialized, width: 0, height: 0 }
    }

    /// Records how the negotiation of resources ended. Success, with the
    /// size the backend was set up for, makes an uninitialized backend
    /// ready; a failure is handed back and changes nothing. On a backend
    /// that is past negotiation this is an error.
    pub fn open(&mut self, outcome: Result<(u32, u32), Error>) -> (res: Result<(), Error>)
        ensures
            old(self).state != State::Uninitialized ==> res == Err::<(), Error>(Error::Resource)
                && *final(self) == *old(self),
            old(self).state == State::Uninitialized ==> match outcome {
                Ok(size) => res == Ok::<(), Error>(()) && *final(self) == (Lifecycle {
                    state: State::Ready,
                    width: size.0,
                    height: size.1,
                }),
                Err(e) => res == Err::<(), Error>(e) && *final(self) == *old(self),
            },
    {
        if self.state != State::Uninitialized {
            return Err(Error::Resource);
        }
        match outcome {
            Ok((width, height)) => {
                self.state = State::Ready;
                self.width = width;
                self.height = height;
                Ok(())
            },
            Err(e) => Err(e),
        }
    }

    /// Decides what follows from the frame source's answer. Only a ready
    /// backend can lease a frame. A frame that arrives is leased; if its
    /// size is not the size the backend is set up for, the backend has to
    /// be set up again before the frame is used.
    pub fn acquire(&mut self, signal: FrameSignal) -> (step: AcquireStep)
        ensures
            step == old(self).after_signal(signal).0,
            *final(self) == old(self).after_signal(signal).1,
    {
        if self.state != State::Ready {
            return AcquireStep::Fail(Error::Acquisition);
        }
        match signal {
            FrameSignal::NoNewFrame => AcquireStep::Retry,
            FrameSignal::Lost => AcquireStep::Fail(Error::Acquisition),
            FrameSignal::Arrived { width, height } => {
                self.state = State::FrameLeased;
                if width == self.width && height == self.height {
                    AcquireStep::Proceed
                } else {
                    AcquireStep::Recreate { width, height }
                }
            },
        }
    }

    /// Records that the backend has been set up again for a new frame size
    /// while it holds a lease. Returns whether it holds one; without a
    /// lease nothing is recorded.
    pub fn resized(&mut self, width: u32, height: u32) -> (recorded: bool)
        ensures
            recorded == (old(self).state == State::FrameLeased),
            recorded ==> *final(self) == (Lifecycle { state: State::FrameLeased, width, height }),
            !recorded ==> *final(self) == *old(self),
    {
        if self.state == State::FrameLeased {
            self.width = width;
            self.height = height;
            true
        } else {
            false
        }
    }

    /// Gives the lease back. Returns whether there was one to give back.
    pub fn release(&mut self) -> (released: bool)
        ensures
            released == (old(self).state == State::FrameLeased),
            released ==> *final(self) == (Lifecycle { state: State::Ready, ..*old(self) }),
            !released ==> *final(self) == *old(self),
    {
        if self.state == State::FrameLeased {
            self.state = State::Ready;
            true
        } else {
            false
        }
    }

    /// Ends the backend's life. A lease that is still out is given back
    /// first; the result says whether that was the case.
    pub fn close(&mut self) -> (released: bool)
        ensures
            released == (old(self).state == State::FrameLeased),
            *final(self) == (Lifecycle { state: State::Closed, ..*old(self) }),
    {
        let released = self.state == State::FrameLeased;
        self.state = State::Closed;
        released
    }

    /// What `deliver` does to the backend and the buffer.
    ///
    /// Without a lease nothing happens and the call fails. With one, the
    /// request is served as `source_delivered` says, against the size the
    /// backend is set up for, and the lease is given back in every case:
    /// the backend is ready for the next frame.
    pub open spec fn served<B: Buffer + ?Sized>(
        self,
        after: Lifecycle,
        buf_before: &B,
        buf_after: &B,
        res: Result<(usize, u32, u32), Error>,
        source: Source<'_>,
        region: Option<Region>,
        pixel_format: PixelFormat,
    ) -> bool {
        if self.state == State::FrameLeased {
            &&& after == (Lifecycle { state: State::Ready, ..self })
            &&& source_delivered(
                buf_before,
                buf_after,
                res,
                pixel_format,
                source,
                region,
                self.width as nat,
                self.height as nat,
            )
        } else {
            &&& res == Err::<(usize, u32, u32), Error>(Error::Acquisition)
            &&& after == self
            &&& buf_after.contents() == buf_before.contents()
        }
    }

    /// Turns the leased frame into the bytes that were asked for and gives
    /// the lease back, whether or not that worked.
    pub fn deliver<B: Buffer + ?Sized>(
        &mut self,
        buf: &mut B,
        source: &Source<'_>,
        region: Option<Region>,
        pixel_format: PixelFormat,
    ) -> (res: Result<(usize, u32, u32), Error>)
        ensures
            old(self).served(
                *final(self),
                old(buf),
                final(buf),
                res,
                *source,
                region,
                pixel_format,
            ),
    {
        if self.state != State::FrameLeased {
            return Err(Error::Acquisition);
        }
        let res = source.deliver(region, self.width, self.height, buf, pixel_format);
        self.state = State::Ready;
        res
    }
}

/// Whatever serving a request from a leased frame returns, the lease is
/// given back: the backend is ready, and the next frame that arrives is
/// leased.
pub proof fn lemma_lease_is_returned<B: Buffer + ?Sized>(
    leased: Lifecycle,
    after: Lifecycle,
    buf_before: &B,
    buf_after: &B,
    res: Result<(usize, u32, u32), Error>,
    source: Source<'_>,
    region: Option<Region>,
    pixel_format: PixelFormat,
    width: u32,
    height: u32,
)
    requires
        leased.state == State::FrameLeased,
        leased.served(after, buf_before, buf_after, res, source, region, pixel_format),
    ensures
        after.state == State::Ready,
        after.after_signal(FrameSignal::Arrived { width, height }).1.state == State::FrameLeased,
{
}

} // verus!
