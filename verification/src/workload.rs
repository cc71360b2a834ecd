//! One step of a sending or a receiving thread of the benchmark.
use vstd::prelude::*;

use crate::runner::BenchRunner;
use crate::{BBlockingReceive, BBlockingSend, BRecvError, BSendError};

verus! {

/// What the benchmark sends: the id of the event and a payload.
#[derive(Debug)]
pub struct Message<T> {
    pub id: u64,
    pub payload: T,
}

/// A step of a sending or receiving thread failed: the channel is closed.
#[derive(Debug, PartialEq, Eq, Structural)]
pub enum WorkError {
    ChannelClosed,
}

/// Draws an id, sends a message with it and a fresh payload, and records
/// the event with the message's id and the length of the queue that the
/// send reported. When the send fails nothing is recorded and the step
/// fails with `ChannelClosed`: the result is `Ok` exactly when the send
/// succeeded.
pub fn sender_work<T: Send, S: BBlockingSend<Message<T>>, F: Fn() -> T>(
    tx: &S,
    runner: &mut BenchRunner,
    make_payload: &F,
) -> (r: Result<(), WorkError>)
    requires
        make_payload.requires(()),
    ensures
        r is Ok ==> final(runner).log().len() == old(runner).log().len() + 1
            && final(runner).log().subrange(0, old(runner).log().len() as int) == old(runner).log(),
        r is Ok ==> exists|m: Message<T>, len: usize|
            #![trigger call_ensures(S::b_send, (tx, m), Ok::<usize, BSendError<Message<T>>>(len))]
            call_ensures(S::b_send, (tx, m), Ok::<usize, BSendError<Message<T>>>(len))
                && make_payload.ensures((), m.payload) && final(runner).log().last().id == m.id
                && final(runner).log().last().backpressure == len,
        r is Err ==> r == Err::<(), WorkError>(WorkError::ChannelClosed),
        r is Err ==> exists|m: Message<T>, e: BSendError<Message<T>>|
            #![trigger call_ensures(S::b_send, (tx, m), Err::<usize, BSendError<Message<T>>>(e))]
            call_ensures(S::b_send, (tx, m), Err::<usize, BSendError<Message<T>>>(e))
                && make_payload.ensures((), m.payload),
        r is Err ==> final(runner).log() == old(runner).log(),
        final(runner).id() == old(runner).id(),
{
    let id = runner.next_id();
    let message = Message { id, payload: make_payload() };
    let ghost sent = message;
    let event = runner.start_event();
    let result = tx.b_send(message);
    match result {
        Ok(len) => {
            event.finish(id, len as u64);
            Ok(())
        },
        Err(e) => {
            assert(call_ensures(S::b_send, (tx, sent), Err::<usize, BSendError<Message<T>>>(e)));
            event.discard();
            Err(WorkError::ChannelClosed)
        },
    }
}

/// Receives one message and records the event with the message's id and
/// the length of the queue that the receive reported. When the receive
/// fails nothing is recorded and the step fails with `ChannelClosed`: the
/// result is `Ok` exactly when the receive succeeded.
pub fn receiver_work<T: Send, R: BBlockingReceive<Message<T>>>(
    rx: &R,
    runner: &mut BenchRunner,
) -> (r: Result<(), WorkError>)
    ensures
        r is Ok ==> final(runner).log().len() == old(runner).log().len() + 1
            && final(runner).log().subrange(0, old(runner).log().len() as int) == old(runner).log(),
        r is Ok ==> exists|m: Message<T>, len: usize|
            #![trigger call_ensures(R::b_recv, (rx,), Ok::<(Message<T>, usize), BRecvError>((m, len)))]
            call_ensures(R::b_recv, (rx,), Ok::<(Message<T>, usize), BRecvError>((m, len)))
                && final(runner).log().last().id == m.id && final(runner).log().last().backpressure
                == len,
        r is Err ==> r == Err::<(), WorkError>(WorkError::ChannelClosed),
        r is Err ==> exists|e: BRecvError|
            #![trigger call_ensures(R::b_recv, (rx,), Err::<(Message<T>, usize), BRecvError>(e))]
            call_ensures(R::b_recv, (rx,), Err::<(Message<T>, usize), BRecvError>(e)),
        r is Err ==> final(runner).log() == old(runner).log(),
        final(runner).id() == old(runner).id(),
{
    let event_guard = runner.start_event();
    match rx.b_recv() {
        Ok((m, len)) => {
            event_guard.finish(m.id, len as u64);
            Ok(())
        },
        Err(e) => {
            assert(call_ensures(R::b_recv, (rx,), Err::<(Message<T>, usize), BRecvError>(e)));
            event_guard.discard();
            Err(WorkError::ChannelClosed)
        },
    }
}

/// The larger of two naturals.
pub open spec fn nat_max(a: nat, b: nat) -> nat {
    if a >= b {
        a
    } else {
        b
    }
}

/// The smaller of two integers.
pub open spec fn int_min(a: int, b: int) -> int {
    if a <= b {
        a
    } else {
        b
    }
}

/// The numbers of senders and receivers of a ramp of configurations from
/// `start` to `end`: both counts go up by one per step, each stopping at its
/// end, until both have reached it.
pub fn ramp_counts(start: (usize, usize), end: (usize, usize)) -> (r: Vec<(usize, usize)>)
    requires
        start.0 <= end.0,
        start.1 <= end.1,
    ensures
        r@.len() == nat_max((end.0 - start.0) as nat, (end.1 - start.1) as nat) + 1,
        forall|k: int|
            0 <= k < r@.len() ==> (#[trigger] r@[k]).0 == int_min(start.0 + k, end.0 as int) && r@[k].1
                == int_min(start.1 + k, end.1 as int),
{
    let mut counts: Vec<(usize, usize)> = Vec::new();
    let mut tx = start.0;
    let mut rx = start.1;
    loop
        invariant_except_break
            start.0 <= tx <= end.0,
            start.1 <= rx <= end.1,
            tx == int_min(start.0 + counts@.len(), end.0 as int),
            rx == int_min(start.1 + counts@.len(), end.1 as int),
            counts@.len() <= nat_max((end.0 - start.0) as nat, (end.1 - start.1) as nat),
            forall|k: int|
                0 <= k < counts@.len() ==> (#[trigger] counts@[k]).0 == int_min(
                    start.0 + k,
                    end.0 as int,
                ) && counts@[k].1 == int_min(start.1 + k, end.1 as int),
        ensures
            counts@.len() == nat_max((end.0 - start.0) as nat, (end.1 - start.1) as nat) + 1,
            forall|k: int|
                0 <= k < counts@.len() ==> (#[trigger] counts@[k]).0 == int_min(
                    start.0 + k,
                    end.0 as int,
                ) && counts@[k].1 == int_min(start.1 + k, end.1 as int),
        decreases (end.0 - tx) + (end.1 - rx),
    {
        counts.push((tx, rx));
        if tx == end.0 && rx == end.1 {
            break;
        }
        if tx != end.0 {
            tx = tx + 1;
        }
        if rx != end.1 {
            rx = rx + 1;
        }
    }
    counts
}

/// A run of the benchmark was configured so that it would never end.
#[derive(Debug, PartialEq, Eq, Structural)]
pub enum ConfigError {
    /// Neither the senders nor the receivers have a time to live.
    NoTimeToLive,
}

/// A run ends when its senders or its receivers reach their time to live,
/// so at least one of the two must have one: `Ok` exactly then.
pub fn check_time_to_live(senders_have_ttl: bool, receivers_have_ttl: bool) -> (r: Result<
    (),
    ConfigError,
>)
    ensures
        r is Ok <==> senders_have_ttl || receivers_have_ttl,
        r is Err ==> r == Err::<(), ConfigError>(ConfigError::NoTimeToLive),
{
    if senders_have_ttl || receivers_have_ttl {
        Ok(())
    } else {
        Err(ConfigError::NoTimeToLive)
    }
}

} // verus!
