use vstd::prelude::*;

verus! {

/// The (readable, upcoming) buffers after pushing `event`.
pub open spec fn pushed<E>(buffers: (Seq<E>, Seq<E>), event: E) -> (Seq<E>, Seq<E>) {
    (buffers.0, buffers.1.push(event))
}

/// The (readable, upcoming) buffers after a swap.
pub open spec fn swapped<E>(buffers: (Seq<E>, Seq<E>)) -> (Seq<E>, Seq<E>) {
    (buffers.1, Seq::empty())
}

/// Double-buffered events: events pushed during a frame become readable after the next
/// swap, and are dropped at the swap after that.
pub struct EventQueue<E> {
    pending_events: Vec<E>,
    next_events: Vec<E>,
}

impl<E> EventQueue<E> {
    /// The events readable this frame.
    pub closed spec fn spec_pending(&self) -> Seq<E> {
        self.pending_events@
    }

    /// The events pushed this frame, readable after the next swap.
    pub closed spec fn spec_next(&self) -> Seq<E> {
        self.next_events@
    }

    pub fn new() -> (q: Self)
        ensures
            q.spec_pending() == Seq::<E>::empty(),
            q.spec_next() == Seq::<E>::empty(),
    {
        EventQueue { pending_events: Vec::new(), next_events: Vec::new() }
    }

    /// Queues `event` for the next frame.
    pub fn push(&mut self, event: E)
        ensures
            (final(self).spec_pending(), final(self).spec_next()) == pushed((old(self).spec_pending(), old(self).spec_next()), event),
    {
        self.next_events.push(event);
    }

    /// Makes the events of this frame readable and forgets the ones read before.
    pub fn swap_and_clear(&mut self)
        ensures
            (final(self).spec_pending(), final(self).spec_next()) == swapped((old(self).spec_pending(), old(self).spec_next())),
    {
        std::mem::swap(&mut self.pending_events, &mut self.next_events);
        self.next_events.clear();
    }

    /// The events readable this frame.
    pub fn pending_events(&self) -> (r: &Vec<E>)
        ensures
            r@ == self.spec_pending(),
    {
        &self.pending_events
    }

    /// Mutable access to the events readable this frame.
    pub fn pending_events_mut(&mut self) -> (r: &mut Vec<E>)
        ensures
            r@ == old(self).spec_pending(),
            final(r)@ == final(self).spec_pending(),
            final(self).spec_next() == old(self).spec_next(),
    {
        &mut self.pending_events
    }

    /// Number of events readable this frame.
    pub fn len(&self) -> (r: usize)
        ensures
            r == self.spec_pending().len(),
    {
        self.pending_events.len()
    }

    /// Whether no event is readable this frame.
    pub fn is_empty(&self) -> (r: bool)
        ensures
            r == (self.spec_pending().len() == 0),
    {
        self.len() == 0
    }
}

impl<E> Default for EventQueue<E> {
    fn default() -> (q: Self)
        ensures
            q.spec_pending() == Seq::<E>::empty(),
            q.spec_next() == Seq::<E>::empty(),
    {
        Self::new()
    }
}

/// Law: events pushed during a frame are readable, in push order, after the next swap,
/// and are gone after the swap that follows.
pub proof fn lemma_events_visible_for_one_frame<E>(pending: Seq<E>, next: Seq<E>, event: E)
    ensures
        swapped(pushed((pending, next), event)).0 == next.push(event),
        swapped(swapped(pushed((pending, next), event))).0.len() == 0,
{
}

} // verus!
