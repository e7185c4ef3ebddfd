//! Properties of whole calls, proved over the steps of the transport and of
//! the reply slots.
use vstd::prelude::*;
use crate::reply::{
    abandoned, after_drop_writer, after_read, after_write, deliver_at, fresh_slot, outcome_of, read_result, CallOutcome,
    ReplyRead, SlotView,
};
use crate::transport::{
    after_close, after_receive, after_send, receive_result, send_ok, Received, TransportState,
};

verus! {

/// The transport after `n` receives.
pub open spec fn after_receives<T>(t: TransportState<T>, n: nat) -> TransportState<T>
    decreases n,
{
    if n == 0 {
        t
    } else {
        after_receives(after_receive(t), (n - 1) as nat)
    }
}

/// Receiving `n` envelopes drops the `n` oldest and changes nothing else.
pub proof fn lemma_receives_drop_front<T>(t: TransportState<T>, n: nat)
    requires
        n <= t.queue.len(),
    ensures
        after_receives(t, n) == (TransportState { queue: t.queue.subrange(n as int, t.queue.len() as int), ..t }),
    decreases n,
{
    if n == 0 {
        assert(t.queue.subrange(0, t.queue.len() as int) =~= t.queue);
    } else {
        let t1 = after_receive(t);
        lemma_receives_drop_front(t1, (n - 1) as nat);
        assert(t1.queue.subrange((n - 1) as int, t1.queue.len() as int) =~= t.queue.subrange(
            n as int,
            t.queue.len() as int,
        ));
    }
}

/// Envelopes come out in the order they went in: an envelope sent while the
/// consumer is there is received right after the ones queued before it.
pub proof fn lemma_fifo_delivery<T>(t: TransportState<T>, env: T)
    requires
        t.consumer_open,
    ensures
        receive_result(after_receives(after_send(t, env), t.queue.len())) == Received::Item(env),
{
    let t1 = after_send(t, env);
    lemma_receives_drop_front(t1, t.queue.len());
    assert(t1.queue.subrange(t.queue.len() as int, t1.queue.len() as int) =~= seq![env]);
}

/// Round trip: a call whose envelope is sent while the server is there
/// reaches the server, and when the implementation's value `v` is written
/// into the call's slot, the client's call resolves to exactly `v`.
pub proof fn lemma_round_trip<T, V, E>(t: TransportState<T>, env: T, v: V)
    requires
        t.consumer_open,
    ensures
        send_ok(t),
        receive_result(after_receives(after_send(t, env), t.queue.len())) == Received::Item(env),
        read_result(after_write(fresh_slot::<Result<V, E>>(), Ok(v))) == ReplyRead::Ready(
            Ok::<V, E>(v),
        ),
        outcome_of(true, read_result(after_write(fresh_slot::<Result<V, E>>(), Ok(v))))
            == Some(CallOutcome::<V, E>::Value(v)),
{
    lemma_fifo_delivery(t, env);
}

/// At most once: while no envelope is queued twice (each call sends one
/// envelope, with a slot of its own), a received envelope is gone from the
/// queue, so no later receive hands it to the server again; sending a new
/// call keeps the queue free of repeats.
pub proof fn lemma_at_most_once<T>(t: TransportState<T>, x: T, env: T)
    requires
        t.queue.no_duplicates(),
    ensures
        receive_result(t) == Received::Item(x) ==> !after_receive(t).queue.contains(x),
        after_receive(t).queue.no_duplicates(),
        !t.queue.contains(env) ==> after_send(t, env).queue.no_duplicates(),
{
    let q = t.queue;
    if q.len() > 0 {
        let r = q.drop_first();
        assert forall|i: int, j: int| 0 <= i < r.len() && 0 <= j < r.len() && i != j implies r[i]
            != r[j] by {
            assert(r[i] == q[i + 1] && r[j] == q[j + 1]);
        }
        if receive_result(t) == Received::Item(x) && r.contains(x) {
            let k = choose|k: int| 0 <= k < r.len() && r[k] == x;
            assert(q[k + 1] == q[0]);
        }
    }
    if !q.contains(env) && t.consumer_open {
        let p = q.push(env);
        assert forall|i: int, j: int| 0 <= i < p.len() && 0 <= j < p.len() && i != j implies p[i]
            != p[j] by {
            if i == q.len() {
                assert(q[j] == p[j]);
            } else if j == q.len() {
                assert(q[i] == p[i]);
            }
        }
    }
}

/// A slot is written at most once and resolves its reader at most once:
/// after a write the write end is used up, and after a read that resolved,
/// the read end is.
pub proof fn lemma_slot_single_use<V>(s: SlotView<V>, v: V)
    ensures
        !(after_write(s, v).state is Waiting),
        !(read_result(s) is Pending) ==> !after_read(s).reader_open,
{
}

/// Disconnection: once the consumer is torn down no envelope can be sent,
/// and a call whose send failed, or whose slot's writer was dropped unused,
/// resolves to a disconnection rather than waiting forever.
pub proof fn lemma_disconnection<T, V, E>(
    t: TransportState<T>,
    env: T,
    s: SlotView<Result<V, E>>,
    reply: ReplyRead<Result<V, E>>,
)
    requires
        s.state is Waiting,
    ensures
        !send_ok(after_close(t)),
        after_send(after_close(t), env) == after_close(t),
        outcome_of(false, reply) == Some(CallOutcome::<V, E>::Disconnected),
        outcome_of(true, read_result(after_drop_writer(s))) == Some(
            CallOutcome::<V, E>::Disconnected,
        ),
{
}

/// Tearing the consumer down before a pending call resolves: the calls
/// whose envelopes were still queued have their write ends dropped, and each
/// of them that was waiting resolves to a disconnection.
pub proof fn lemma_teardown_disconnects<V, E>(slots: Seq<SlotView<Result<V, E>>>, ids: Seq<usize>)
    ensures
        abandoned(slots, ids).len() == slots.len(),
        forall|k: int|
            0 <= k < slots.len() && ids.contains(k as usize) && slots[k].state is Waiting
                ==> outcome_of(true, read_result(#[trigger] abandoned(slots, ids)[k])) == Some(
                CallOutcome::<V, E>::Disconnected,
            ),
{
}

/// Clone independence: the calls in flight, from whichever handle, each
/// have a slot of their own. Delivering call `k`'s outcome resolves call `k`
/// to exactly that outcome while its reader waits, and every other call
/// observes what it observed before.
pub proof fn lemma_clone_independence<V>(slots: Seq<SlotView<V>>, k: int, v: V)
    requires
        0 <= k < slots.len(),
        slots[k].state is Waiting,
    ensures
        deliver_at(slots, k, v).len() == slots.len(),
        slots[k].reader_open ==> read_result(deliver_at(slots, k, v)[k]) == ReplyRead::Ready(v),
        forall|j: int|
            0 <= j < slots.len() && j != k ==> #[trigger] deliver_at(slots, k, v)[j] == slots[j],
{
}

} // verus!
