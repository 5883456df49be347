//! The operating-system resources a backend holds, and the order in which
//! they go back.
//!
//! Resources are recorded as they are acquired. Whenever a backend lets go
//! of them, at the end of its life or when its construction fails half
//! way, they are released last acquired first.

use vstd::prelude::*;

verus! {

/// One kind of resource that a capture backend acquires.
#[derive(Debug, Clone, Copy, PartialEq, Eq, Structural)]
pub enum Resource {
    /// A graphics device and its immediate context.
    Device,
    /// The duplication of an output's desktop image.
    Duplication,
    /// A pool of capture frames.
    FramePool,
    /// A capture session on a frame pool.
    Session,
    /// The subscription to a frame pool's arrival event.
    FrameHandler,
    /// The device context of a screen.
    ScreenContext,
    /// A memory device context.
    MemoryContext,
    /// A bitmap selected into a memory device context.
    Bitmap,
}

/// What a backend holds, in the order it was acquired.
pub struct Resources {
    held: Vec<Resource>,
}

impl View for Resources {
    type V = Seq<Resource>;

    closed spec fn view(&self) -> Seq<Resource> {
        self.held@
    }
}

impl Resources {
    /// Nothing is held.
    pub fn new() -> (resources: Self)
        ensures
            resources@ == Seq::<Resource>::empty(),
    {
        Resources { held: Vec::new() }
    }

    /// Records that `resource` has been acquired, after all that is held.
    pub fn acquired(&mut self, resource: Resource)
        ensures
            final(self)@ == old(self)@.push(resource),
    {
        self.held.push(resource);
    }

    /// How many resources are held.
    pub fn len(&self) -> (n: usize)
        ensures
            n == self@.len(),
    {
        self.held.len()
    }

    /// Lets go of everything: returns what was held in the order it has to
    /// be released, which is the reverse of the order it was acquired in,
    /// and holds nothing afterwards.
    pub fn teardown(&mut self) -> (order: Vec<Resource>)
        ensures
            order@ == old(self)@.reverse(),
            final(self)@ == Seq::<Resource>::empty(),
    {
        let ghost held = self.held@;
        let mut order: Vec<Resource> = Vec::new();
        while self.held.len() > 0
            invariant
                self.held@.len() + order@.len() == held.len(),
                self.held@ == held.take(self.held@.len() as int),
                forall|i: int| 0 <= i < order@.len() ==> order@[i] == held[held.len() - 1 - i],
            decreases self.held@.len(),
        {
            let last = self.held.pop();
            if let Some(resource) = last {
                order.push(resource);
            }
        }
        assert(order@ =~= held.reverse());
        assert(self.held@ =~= Seq::<Resource>::empty());
        order
    }
}

/// In a teardown every resource that was held is released, each one once,
/// and of two resources the one acquired later is released earlier.
pub proof fn lemma_teardown_order(held: Seq<Resource>, i: int, j: int)
    requires
        0 <= i < j < held.len(),
    ensures
        held.reverse().len() == held.len(),
        held.reverse()[held.len() - 1 - j] == held[j],
        held.reverse()[held.len() - 1 - i] == held[i],
        held.len() - 1 - j < held.len() - 1 - i,
{
}

} // verus!
