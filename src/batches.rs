//! The two queues a camera fills during a frame: textured draws and
//! flat-colour rectangle draws. Each operation touches one queue only.

use crate::queue::{after_drain, drained, pushed, DrawQueue};
use vstd::prelude::*;

verus! {

/// A frame's textured draws (`D`) and rectangle draws (`R`), each in the
/// order in which they were pushed.
pub struct DrawBatches<D, R> {
    draws: DrawQueue<D>,
    rects: DrawQueue<R>,
}

impl<D, R> View for DrawBatches<D, R> {
    type V = (Seq<D>, Seq<R>);

    closed spec fn view(&self) -> (Seq<D>, Seq<R>) {
        (self.draws@, self.rects@)
    }
}

impl<D, R> DrawBatches<D, R> {
    /// Two empty queues.
    pub fn new() -> (b: Self)
        ensures
            b@.0 == Seq::<D>::empty(),
            b@.1 == Seq::<R>::empty(),
    {
        DrawBatches { draws: DrawQueue::new(), rects: DrawQueue::new() }
    }

    /// Appends a textured draw; the rectangle draws are left as they are.
    pub fn push_draw(&mut self, draw: D)
        ensures
            final(self)@.0 == pushed(old(self)@.0, draw),
            final(self)@.1 == old(self)@.1,
    {
        self.draws.push(draw);
    }

    /// Appends a rectangle draw; the textured draws are left as they are.
    pub fn push_rect(&mut self, rect: R)
        ensures
            final(self)@.0 == old(self)@.0,
            final(self)@.1 == pushed(old(self)@.1, rect),
    {
        self.rects.push(rect);
    }

    /// Removes and hands back every textured draw, in insertion order; the
    /// rectangle draws are left as they are.
    pub fn drain_draws(&mut self) -> (out: Vec<D>)
        ensures
            out@ == drained(old(self)@.0),
            final(self)@.0 == after_drain(old(self)@.0),
            final(self)@.1 == old(self)@.1,
    {
        self.draws.drain()
    }

    /// Removes and hands back every rectangle draw, in insertion order; the
    /// textured draws are left as they are.
    pub fn drain_rects(&mut self) -> (out: Vec<R>)
        ensures
            out@ == drained(old(self)@.1),
            final(self)@.0 == old(self)@.0,
            final(self)@.1 == after_drain(old(self)@.1),
    {
        self.rects.drain()
    }
}

} // verus!
