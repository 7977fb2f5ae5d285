//! Per-component message queues and the forwarding between them.
use vstd::prelude::*;

verus! {

/// An unbounded first-in first-out queue of messages.
pub struct Queue<T> {
    queue: Vec<T>,
}

impl<T> View for Queue<T> {
    type V = Seq<T>;

    closed spec fn view(&self) -> Seq<T> {
        self.queue@
    }
}

impl<T> Queue<T> {
    /// An empty queue.
    pub fn new() -> (r: Self)
        ensures
            r@ == Seq::<T>::empty(),
    {
        Queue { queue: Vec::new() }
    }

    /// Removes every queued message and returns them, oldest first.
    pub fn remove_all(&mut self) -> (r: Vec<T>)
        ensures
            r@ == old(self)@,
            final(self)@ == Seq::<T>::empty(),
    {
        let mut taken: Vec<T> = Vec::new();
        core::mem::swap(&mut self.queue, &mut taken);
        taken
    }

    /// Appends one message at the back.
    pub fn push(&mut self, sent: T)
        ensures
            final(self)@ == old(self)@.push(sent),
    {
        self.queue.push(sent)
    }

    /// Appends every message of `items` at the back, in order, and leaves
    /// `items` empty.
    fn push_all(&mut self, items: &mut Vec<T>)
        ensures
            final(self)@ == old(self)@ + old(items)@,
            final(items)@ == Seq::<T>::empty(),
    {
        self.queue.append(items)
    }
}

/// A component's two queues: messages for it to consume before its next
/// cycle (inbound), and messages it produced in its last cycle (outbound).
pub struct Router<T> {
    inbound_queue: Queue<T>,
    outbound_queue: Queue<T>,
}

impl<T> Router<T> {
    /// The messages waiting to be consumed, oldest first.
    pub closed spec fn inbound(&self) -> Seq<T> {
        self.inbound_queue@
    }

    /// The messages produced and not yet forwarded, oldest first.
    pub closed spec fn outbound(&self) -> Seq<T> {
        self.outbound_queue@
    }

    /// Two empty queues.
    pub fn new() -> (r: Self)
        ensures
            r.inbound() == Seq::<T>::empty(),
            r.outbound() == Seq::<T>::empty(),
    {
        Router { inbound_queue: Queue::new(), outbound_queue: Queue::new() }
    }

    /// Delivers a message to this component.
    pub fn send_inbound(&mut self, message: T)
        ensures
            final(self).inbound() == old(self).inbound().push(message),
            final(self).outbound() == old(self).outbound(),
    {
        self.inbound_queue.push(message)
    }

    /// Publishes a message produced by this component.
    pub fn send_outbound(&mut self, message: T)
        ensures
            final(self).inbound() == old(self).inbound(),
            final(self).outbound() == old(self).outbound().push(message),
    {
        self.outbound_queue.push(message)
    }

    /// Removes and returns every inbound message.
    pub fn consume_all_inbound(&mut self) -> (r: Vec<T>)
        ensures
            r@ == old(self).inbound(),
            final(self).inbound() == Seq::<T>::empty(),
            final(self).outbound() == old(self).outbound(),
    {
        self.inbound_queue.remove_all()
    }

    /// Removes and returns every outbound message.
    pub fn consume_all_outbound(&mut self) -> (r: Vec<T>)
        ensures
            r@ == old(self).outbound(),
            final(self).inbound() == old(self).inbound(),
            final(self).outbound() == Seq::<T>::empty(),
    {
        self.outbound_queue.remove_all()
    }

    /// Moves this component's whole outbound queue, in order, to the back of
    /// `other`'s inbound queue.
    pub fn forward_inbound(&mut self, other: &mut Self)
        ensures
            final(self).inbound() == old(self).inbound(),
            final(self).outbound() == Seq::<T>::empty(),
            final(other).inbound() == old(other).inbound() + old(self).outbound(),
            final(other).outbound() == old(other).outbound(),
    {
        let mut messages = self.consume_all_outbound();
        other.inbound_queue.push_all(&mut messages)
    }

    /// Moves this component's whole outbound queue, in order, to the back of
    /// `other`'s outbound queue.
    pub fn forward_outbound(&mut self, other: &mut Self)
        ensures
            final(self).inbound() == old(self).inbound(),
            final(self).outbound() == Seq::<T>::empty(),
            final(other).inbound() == old(other).inbound(),
            final(other).outbound() == old(other).outbound() + old(self).outbound(),
    {
        let mut messages = self.consume_all_outbound();
        other.outbound_queue.push_all(&mut messages)
    }
}

} // verus!
