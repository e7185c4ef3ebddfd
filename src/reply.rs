//! One-shot reply slots, and the decisions that the client stub and the
//! server loop take on what the transport and the slots report.
use vstd::prelude::*;
use crate::transport::Received;

verus! {

/// Where a reply slot stands.
#[derive(Debug)]
pub enum SlotState<V> {
    /// The write end is unused.
    Waiting,
    /// A value was written and not yet read.
    Filled(V),
    /// The write end is gone without having delivered a value.
    Abandoned,
    /// The read end has taken its outcome.
    Taken,
}

/// What the read end observes.
#[derive(Debug)]
pub enum ReplyRead<V> {
    Ready(V),
    /// No value yet, and the write end may still deliver one.
    Pending,
    /// The write end was dropped unused.
    Disconnected,
}

pub struct SlotView<V> {
    pub state: SlotState<V>,
    pub reader_open: bool,
}

/// A single-assignment cell pairing one call with its outcome.
pub struct ReplySlot<V> {
    state: SlotState<V>,
    reader_open: bool,
}

impl<V> View for ReplySlot<V> {
    type V = SlotView<V>;

    closed spec fn view(&self) -> SlotView<V> {
        SlotView { state: self.state, reader_open: self.reader_open }
    }
}

pub open spec fn fresh_slot<V>() -> SlotView<V> {
    SlotView { state: SlotState::Waiting, reader_open: true }
}

/// A write reaches the reader only while the read end is there; either way
/// the write end is used up.
pub open spec fn after_write<V>(s: SlotView<V>, v: V) -> SlotView<V> {
    if s.reader_open {
        SlotView { state: SlotState::Filled(v), reader_open: true }
    } else {
        SlotView { state: SlotState::Abandoned, reader_open: false }
    }
}

pub open spec fn after_drop_writer<V>(s: SlotView<V>) -> SlotView<V> {
    if s.state is Waiting {
        SlotView { state: SlotState::Abandoned, ..s }
    } else {
        s
    }
}

pub open spec fn read_result<V>(s: SlotView<V>) -> ReplyRead<V> {
    match s.state {
        SlotState::Filled(v) => ReplyRead::Ready(v),
        SlotState::Abandoned => ReplyRead::Disconnected,
        _ => ReplyRead::Pending,
    }
}

/// A read that resolves uses the read end up.
pub open spec fn after_read<V>(s: SlotView<V>) -> SlotView<V> {
    match s.state {
        SlotState::Filled(_) => SlotView { state: SlotState::Taken, reader_open: false },
        SlotState::Abandoned => SlotView { state: SlotState::Taken, reader_open: false },
        _ => s,
    }
}

impl<V> ReplySlot<V> {
    pub fn new() -> (r: ReplySlot<V>)
        ensures
            r@ == fresh_slot::<V>(),
    {
        ReplySlot { state: SlotState::Waiting, reader_open: true }
    }

    /// Writes the outcome; hands it back when the reader has gone away.
    pub fn write(&mut self, v: V) -> (r: Result<(), V>)
        requires
            old(self)@.state is Waiting,
        ensures
            r is Ok <==> old(self)@.reader_open,
            r matches Err(back) ==> back == v,
            final(self)@ == after_write(old(self)@, v),
    {
        if self.reader_open {
            self.state = SlotState::Filled(v);
            Ok(())
        } else {
            self.state = SlotState::Abandoned;
            Err(v)
        }
    }

    /// The write end is dropped; an unused one disconnects the reader.
    pub fn drop_writer(&mut self)
        ensures
            final(self)@ == after_drop_writer(old(self)@),
    {
        if let SlotState::Waiting = self.state {
            self.state = SlotState::Abandoned;
        }
    }

    /// The read end is dropped; the writer is not told.
    pub fn drop_reader(&mut self)
        ensures
            final(self)@ == (SlotView { reader_open: false, ..old(self)@ }),
    {
        self.reader_open = false;
    }

    pub fn read(&mut self) -> (r: ReplyRead<V>)
        requires
            old(self)@.reader_open,
        ensures
            r == read_result(old(self)@),
            final(self)@ == after_read(old(self)@),
    {
        let mut st = SlotState::Taken;
        std::mem::swap(&mut self.state, &mut st);
        match st {
            SlotState::Filled(v) => {
                self.reader_open = false;
                ReplyRead::Ready(v)
            },
            SlotState::Abandoned => {
                self.reader_open = false;
                ReplyRead::Disconnected
            },
            other => {
                self.state = other;
                ReplyRead::Pending
            },
        }
    }
}

/// How a client call ends.
#[derive(Debug)]
pub enum CallOutcome<V, E> {
    /// The implementation's value.
    Value(V),
    /// The implementation's own error, passed through.
    Failed(E),
    /// The server side is gone.
    Disconnected,
}

pub open spec fn outcome_of<V, E>(sent: bool, reply: ReplyRead<Result<V, E>>) -> Option<
    CallOutcome<V, E>,
> {
    if !sent {
        Some(CallOutcome::Disconnected)
    } else {
        match reply {
            ReplyRead::Ready(Ok(v)) => Some(CallOutcome::Value(v)),
            ReplyRead::Ready(Err(e)) => Some(CallOutcome::Failed(e)),
            ReplyRead::Disconnected => Some(CallOutcome::Disconnected),
            ReplyRead::Pending => None,
        }
    }
}

/// The client stub's decision: a refused send or a dropped writer is a
/// disconnection, a delivered reply is the call's outcome, and `None` means
/// the call is still waiting.
pub fn resolve_call<V, E>(sent: bool, reply: ReplyRead<Result<V, E>>) -> (r: Option<
    CallOutcome<V, E>,
>)
    ensures
        r == outcome_of(sent, reply),
{
    if !sent {
        return Some(CallOutcome::Disconnected);
    }
    match reply {
        ReplyRead::Ready(Ok(v)) => Some(CallOutcome::Value(v)),
        ReplyRead::Ready(Err(e)) => Some(CallOutcome::Failed(e)),
        ReplyRead::Disconnected => Some(CallOutcome::Disconnected),
        ReplyRead::Pending => None,
    }
}

/// What the server loop does next.
#[derive(Debug)]
pub enum ServerAction<T> {
    Dispatch(T),
    Wait,
    Stop,
}

pub open spec fn server_action_of<T>(r: Received<T>) -> ServerAction<T> {
    match r {
        Received::Item(x) => ServerAction::Dispatch(x),
        Received::Empty => ServerAction::Wait,
        Received::EndOfStream => ServerAction::Stop,
    }
}

/// The server loop's decision on what a receive gave: dispatch an envelope,
/// wait for one, or end quietly once every producer is gone.
pub fn server_step<T>(r: Received<T>) -> (a: ServerAction<T>)
    ensures
        a == server_action_of(r),
{
    match r {
        Received::Item(x) => ServerAction::Dispatch(x),
        Received::Empty => ServerAction::Wait,
        Received::EndOfStream => ServerAction::Stop,
    }
}

/// Writes a handler's outcome into the call's slot. A client that gave up is
/// no fault of the server: the failed write is dropped.
pub fn deliver<V>(slot: &mut ReplySlot<V>, v: V)
    requires
        old(slot)@.state is Waiting,
    ensures
        final(slot)@ == after_write(old(slot)@, v),
{
    let _ = slot.write(v);
}

/// The reply table after call `k`'s outcome is written into its own slot.
pub open spec fn deliver_at<V>(slots: Seq<SlotView<V>>, k: int, v: V) -> Seq<SlotView<V>> {
    slots.update(k, after_write(slots[k], v))
}

/// Writes the outcome of call `k` into slot `k` of a table of calls in
/// flight; a failed write is dropped as in `deliver`.
pub fn deliver_to<V>(slots: &mut Vec<ReplySlot<V>>, k: usize, v: V)
    requires
        k < old(slots)@.len(),
        old(slots)@[k as int]@.state is Waiting,
    ensures
        final(slots)@.map_values(|s: ReplySlot<V>| s@) == deliver_at(
            old(slots)@.map_values(|s: ReplySlot<V>| s@),
            k as int,
            v,
        ),
{
    let _ = slots[k].write(v);
    assert(slots@.map_values(|s: ReplySlot<V>| s@) =~= deliver_at(
        old(slots)@.map_values(|s: ReplySlot<V>| s@),
        k as int,
        v,
    ));
}

/// The reply table after the write ends of the calls in `ids` are dropped.
pub open spec fn abandoned<V>(slots: Seq<SlotView<V>>, ids: Seq<usize>) -> Seq<SlotView<V>> {
    Seq::new(
        slots.len(),
        |j: int|
            if ids.contains(j as usize) {
                after_drop_writer(slots[j])
            } else {
                slots[j]
            },
    )
}

/// Drops the write ends of the calls in `ids`, such as those whose
/// envelopes a torn-down consumer handed back: each of those calls that was
/// still waiting now reads as disconnected.
pub fn abandon_calls<V>(slots: &mut Vec<ReplySlot<V>>, ids: &Vec<usize>)
    requires
        forall|i: int| 0 <= i < ids@.len() ==> #[trigger] ids@[i] < old(slots)@.len(),
    ensures
        final(slots)@.map_values(|s: ReplySlot<V>| s@) == abandoned(
            old(slots)@.map_values(|s: ReplySlot<V>| s@),
            ids@,
        ),
{
    let ghost start = slots@.map_values(|s: ReplySlot<V>| s@);
    let len: usize = slots.len();
    let mut i: usize = 0;
    while i < ids.len()
        invariant
            i <= ids@.len(),
            slots@.len() == start.len(),
            start.len() == len,
            forall|m: int| 0 <= m < ids@.len() ==> #[trigger] ids@[m] < start.len(),
            slots@.map_values(|s: ReplySlot<V>| s@) == abandoned(start, ids@.take(i as int)),
        decreases ids@.len() - i,
    {
        let k = ids[i];
        let ghost before = slots@.map_values(|s: ReplySlot<V>| s@);
        slots[k].drop_writer();
        proof {
            let t0 = ids@.take(i as int);
            let t1 = ids@.take(i + 1);
            assert(t1 =~= t0.push(k));
            assert forall|j: int| 0 <= j < start.len() implies #[trigger] slots@[j]@ == abandoned(
                start,
                t1,
            )[j] by {
                assert(before[j] == abandoned(start, t0)[j]);
                if j == k as int {
                    assert(t1[i as int] == k);
                    assert(t1.contains(k));
                } else {
                    assert(t1.contains(j as usize) == t0.contains(j as usize)) by {
                        if t1.contains(j as usize) {
                            let m = choose|m: int| 0 <= m < t1.len() && t1[m] == j as usize;
                            assert(t1[i as int] == k);
                            assert(m != i as int);
                            assert(t0[m] == j as usize);
                        }
                        if t0.contains(j as usize) {
                            let m = choose|m: int| 0 <= m < t0.len() && t0[m] == j as usize;
                            assert(t1[m] == j as usize);
                        }
                    }
                }
            }
            assert(slots@.map_values(|s: ReplySlot<V>| s@) =~= abandoned(start, t1));
        }
        i = i + 1;
    }
    assert(ids@.take(ids@.len() as int) =~= ids@);
}

} // verus!
