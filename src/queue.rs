//! An ordered, growable queue of draw commands, filled during a frame and
//! emptied in one piece by the renderer.

use vstd::prelude::*;

verus! {

/// The queue after `item` is pushed onto a queue holding `q`.
pub open spec fn pushed<T>(q: Seq<T>, item: T) -> Seq<T> {
    q.push(item)
}

/// The queue after each of `items` is pushed, first to last, onto a queue
/// holding `q`.
pub open spec fn pushed_each<T>(q: Seq<T>, items: Seq<T>) -> Seq<T>
    decreases items.len(),
{
    if items.len() == 0 {
        q
    } else {
        pushed(pushed_each(q, items.drop_last()), items.last())
    }
}

/// What a drain hands back from a queue holding `q`.
pub open spec fn drained<T>(q: Seq<T>) -> Seq<T> {
    q
}

/// What a queue holding `q` holds after a drain.
pub open spec fn after_drain<T>(q: Seq<T>) -> Seq<T> {
    Seq::empty()
}

/// Draining is destructive: a first drain hands back everything queued, and
/// a second drain right after it hands back nothing.
pub proof fn lemma_drain_twice<T>(q: Seq<T>)
    ensures
        drained(q) == q,
        drained(after_drain(q)) == Seq::<T>::empty(),
        after_drain(after_drain(q)) == Seq::<T>::empty(),
{
}

/// Insertion order is kept: pushing any items one by one onto an empty queue
/// and then draining it hands back exactly those items, in the order pushed.
pub proof fn lemma_push_then_drain_keeps_order<T>(items: Seq<T>)
    ensures
        drained(pushed_each(Seq::<T>::empty(), items)) == items,
    decreases items.len(),
{
    if items.len() > 0 {
        lemma_push_then_drain_keeps_order(items.drop_last());
        assert(items.drop_last().push(items.last()) =~= items);
    }
}

/// Draw commands in the order in which they were pushed; later entries paint
/// over earlier ones.
pub struct DrawQueue<T> {
    items: Vec<T>,
}

impl<T> View for DrawQueue<T> {
    type V = Seq<T>;

    closed spec fn view(&self) -> Seq<T> {
        self.items@
    }
}

impl<T> DrawQueue<T> {
    /// An empty queue.
    pub fn new() -> (q: Self)
        ensures
            q@ == Seq::<T>::empty(),
    {
        DrawQueue { items: Vec::new() }
    }

    /// Appends one command after all those already queued; nothing already
    /// queued is removed or reordered.
    pub fn push(&mut self, item: T)
        ensures
            final(self)@ == pushed(old(self)@, item),
    {
        self.items.push(item);
    }

    /// Removes every queued command and hands them back in insertion order,
    /// leaving the queue empty.
    pub fn drain(&mut self) -> (out: Vec<T>)
        ensures
            out@ == drained(old(self)@),
            final(self)@ == after_drain(old(self)@),
    {
        let mut out: Vec<T> = Vec::new();
        std::mem::swap(&mut self.items, &mut out);
        out
    }

    /// The number of queued commands.
    pub fn len(&self) -> (n: usize)
        ensures
            n == self@.len(),
    {
        self.items.len()
    }

    /// Whether no command is queued.
    pub fn is_empty(&self) -> (b: bool)
        ensures
            b == (self@.len() == 0),
    {
        self.items.len() == 0
    }
}

} // verus!
