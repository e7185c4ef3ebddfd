//! The in-process transport that generated clients and servers talk over:
//! an unbounded many-producer, one-consumer queue of envelopes, and the
//! one-shot reply slot that each call carries. Each operation is stated as
//! a step on an abstract state, so that properties of whole exchanges can be
//! proved over those steps.
use vstd::prelude::*;

verus! {

/// What the consumer end observes when it asks for the next envelope.
#[derive(Debug)]
pub enum Received<T> {
    /// The oldest envelope still queued.
    Item(T),
    /// Nothing queued yet, but producers remain: the server loop waits.
    Empty,
    /// Nothing queued and every producer is gone: the server loop ends.
    EndOfStream,
}

/// The state of the queue as the contracts see it.
pub struct TransportState<T> {
    pub queue: Seq<T>,
    pub producers: nat,
    pub consumer_open: bool,
}

/// The queue between the client handles and the server loop.
pub struct Transport<T> {
    queue: Vec<T>,
    producers: usize,
    consumer_open: bool,
}

impl<T> View for Transport<T> {
    type V = TransportState<T>;

    closed spec fn view(&self) -> TransportState<T> {
        TransportState {
            queue: self.queue@,
            producers: self.producers as nat,
            consumer_open: self.consumer_open,
        }
    }
}

/// A fresh transport: one producer, an open consumer, nothing queued.
pub open spec fn fresh_transport<T>() -> TransportState<T> {
    TransportState { queue: Seq::empty(), producers: 1, consumer_open: true }
}

/// A send succeeds exactly while the consumer is there.
pub open spec fn send_ok<T>(t: TransportState<T>) -> bool {
    t.consumer_open
}

/// A successful send queues the envelope last; a failed one changes nothing.
pub open spec fn after_send<T>(t: TransportState<T>, item: T) -> TransportState<T> {
    if t.consumer_open {
        TransportState { queue: t.queue.push(item), ..t }
    } else {
        t
    }
}

pub open spec fn receive_result<T>(t: TransportState<T>) -> Received<T> {
    if t.queue.len() > 0 {
        Received::Item(t.queue[0])
    } else if t.producers == 0 {
        Received::EndOfStream
    } else {
        Received::Empty
    }
}

/// A receive takes the oldest envelope out of the queue, if there is one.
pub open spec fn after_receive<T>(t: TransportState<T>) -> TransportState<T> {
    if t.queue.len() > 0 {
        TransportState { queue: t.queue.drop_first(), ..t }
    } else {
        t
    }
}

/// Tearing the consumer down drops every envelope still queued.
pub open spec fn after_close<T>(t: TransportState<T>) -> TransportState<T> {
    TransportState { queue: Seq::empty(), consumer_open: false, ..t }
}

impl<T> Transport<T> {
    /// Creates a transport with one producer handle.
    pub fn new() -> (r: Transport<T>)
        ensures
            r@ == fresh_transport::<T>(),
    {
        Transport { queue: Vec::new(), producers: 1, consumer_open: true }
    }

    pub fn producers(&self) -> (r: usize)
        ensures
            r == self@.producers,
    {
        self.producers
    }

    pub fn queued(&self) -> (r: usize)
        ensures
            r == self@.queue.len(),
    {
        self.queue.len()
    }

    /// Another producer handle on the same queue.
    pub fn clone_producer(&mut self)
        requires
            old(self)@.producers < usize::MAX,
        ensures
            final(self)@ == (TransportState { producers: old(self)@.producers + 1, ..old(self)@ }),
    {
        self.producers = self.producers + 1;
    }

    /// One producer handle is gone.
    pub fn drop_producer(&mut self)
        requires
            old(self)@.producers > 0,
        ensures
            final(self)@ == (TransportState { producers: (old(self)@.producers - 1) as nat, ..old(self)@ }),
    {
        self.producers = self.producers - 1;
    }

    /// The consumer end is gone. The envelopes still queued are handed back
    /// so that the write ends they carry are dropped, which disconnects
    /// their calls.
    pub fn close_consumer(&mut self) -> (dropped: Vec<T>)
        ensures
            final(self)@ == after_close(old(self)@),
            dropped@ == old(self)@.queue,
    {
        let mut dropped: Vec<T> = Vec::new();
        std::mem::swap(&mut self.queue, &mut dropped);
        self.consumer_open = false;
        dropped
    }

    /// Queues an envelope; hands it back when the consumer is gone.
    pub fn send(&mut self, item: T) -> (r: Result<(), T>)
        ensures
            r is Ok <==> send_ok(old(self)@),
            r matches Err(back) ==> back == item,
            final(self)@ == after_send(old(self)@, item),
    {
        if self.consumer_open {
            self.queue.push(item);
            Ok(())
        } else {
            Err(item)
        }
    }

    /// Takes the oldest envelope, or says why there is none.
    pub fn receive(&mut self) -> (r: Received<T>)
        ensures
            r == receive_result(old(self)@),
            final(self)@ == after_receive(old(self)@),
    {
        if self.queue.len() > 0 {
            Received::Item(self.queue.remove(0))
        } else if self.producers == 0 {
            Received::EndOfStream
        } else {
            Received::Empty
        }
    }
}

} // verus!
