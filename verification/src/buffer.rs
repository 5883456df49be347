//! Byte sinks that a capture writes into.

use crate::outside::{
    bytes_mut_as_mut_slice, bytes_mut_as_slice, bytes_mut_contents, bytes_mut_resize,
};
use bytes::BytesMut;
use vstd::prelude::*;

verus! {

/// What a buffer that held `held` holds after `Vec::resize(new_len, value)`: cut
/// down to `new_len` if it was longer, extended with `value` if shorter.
pub open spec fn resized_bytes(held: Seq<u8>, new_len: nat, value: u8) -> Seq<u8> {
    if new_len <= held.len() {
        held.take(new_len as int)
    } else {
        held + Seq::new((new_len - held.len()) as nat, |i: int| value)
    }
}

/// A caller-owned byte store that a frame is written into.
///
/// A growable store resizes itself on request. A store of fixed size leaves
/// `resize` without effect and has to be large enough as it stands.
pub trait Buffer {
    /// The bytes the buffer holds.
    spec fn contents(&self) -> Seq<u8>;

    /// The bytes the buffer holds once it has been asked to resize to
    /// `new_len` with `value` as the fill byte.
    spec fn resized(&self, new_len: nat, value: u8) -> Seq<u8>;

    fn as_bytes(&self) -> (slice: &[u8])
        ensures
            slice@ == self.contents(),
    ;

    fn as_mut_bytes(&mut self) -> (slice: &mut [u8])
        ensures
            slice@ == (*old(self)).contents(),
            (*final(self)).contents() == final(slice)@,
    ;

    /// Asks the buffer to hold `new_len` bytes. Afterwards it either holds
    /// at least that many or is exactly as it was.
    fn resize(&mut self, new_len: usize, value: u8)
        requires
            new_len <= isize::MAX,
        ensures
            (*final(self)).contents() == (*old(self)).resized(new_len as nat, value),
            (*final(self)).contents().len() >= new_len || (*final(self)).contents() == (*old(self)).contents(),
    ;
}

impl Buffer for Vec<u8> {
    open spec fn contents(&self) -> Seq<u8> {
        self@
    }

    open spec fn resized(&self, new_len: nat, value: u8) -> Seq<u8> {
        resized_bytes(self@, new_len, value)
    }

    fn as_bytes(&self) -> (slice: &[u8]) {
        self.as_slice()
    }

    fn as_mut_bytes(&mut self) -> (slice: &mut [u8]) {
        self.as_mut_slice()
    }

    fn resize(&mut self, new_len: usize, value: u8) {
        Vec::resize(self, new_len, value);
        assert(self@ =~= resized_bytes(old(self)@, new_len as nat, value));
    }
}

impl Buffer for [u8] {
    open spec fn contents(&self) -> Seq<u8> {
        self@
    }

    open spec fn resized(&self, new_len: nat, value: u8) -> Seq<u8> {
        self@
    }

    fn as_bytes(&self) -> (slice: &[u8]) {
        self
    }

    fn as_mut_bytes(&mut self) -> (slice: &mut [u8]) {
        self
    }

    fn resize(&mut self, _new_len: usize, _value: u8) {
    }
}

impl Buffer for BytesMut {
    open spec fn contents(&self) -> Seq<u8> {
        bytes_mut_contents(self)
    }

    open spec fn resized(&self, new_len: nat, value: u8) -> Seq<u8> {
        resized_bytes(bytes_mut_contents(self), new_len, value)
    }

    fn as_bytes(&self) -> (slice: &[u8]) {
        bytes_mut_as_slice(self)
    }

    fn as_mut_bytes(&mut self) -> (slice: &mut [u8]) {
        bytes_mut_as_mut_slice(self)
    }

    fn resize(&mut self, new_len: usize, value: u8) {
        bytes_mut_resize(self, new_len, value);
    }
}

/// A mutable borrow of a buffer is a buffer: whatever is asked of it is
/// asked of the buffer behind it.
impl<B: Buffer + ?Sized> Buffer for &mut B {
    open spec fn contents(&self) -> Seq<u8> {
        (**self).contents()
    }

    open spec fn resized(&self, new_len: nat, value: u8) -> Seq<u8> {
        (**self).resized(new_len, value)
    }

    fn as_bytes(&self) -> (slice: &[u8]) {
        (**self).as_bytes()
    }

    fn as_mut_bytes(&mut self) -> (slice: &mut [u8]) {
        (**self).as_mut_bytes()
    }

    fn resize(&mut self, new_len: usize, value: u8) {
        (**self).resize(new_len, value)
    }
}

} // verus!
