//! What a channel guarded by one lock holds, and the rules by which its
//! operations change it.
use vstd::prelude::*;

use crate::{BRecvError, BSendError, RecvError, SendError};

verus! {

/// The state of a channel: how many senders and receivers are alive, and
/// the values queued, oldest first.
pub struct ChannelModel<T> {
    pub senders: nat,
    pub receivers: nat,
    pub queue: Seq<T>,
}

/// The state of a fresh channel: one sender, one receiver, nothing queued.
pub open spec fn fresh_model<T>() -> ChannelModel<T> {
    ChannelModel { senders: 1, receivers: 1, queue: Seq::empty() }
}

/// One attempt to receive: the oldest value if there is one; `Closed` if
/// the queue is empty and no sender is left; otherwise nothing yet.
pub open spec fn recv_rule<T>(m: ChannelModel<T>) -> (ChannelModel<T>, Option<Result<T, RecvError>>) {
    if m.queue.len() > 0 {
        (ChannelModel { queue: m.queue.drop_first(), ..m }, Some(Ok(m.queue[0])))
    } else if m.senders == 0 {
        (m, Some(Err(RecvError::Closed)))
    } else {
        (m, None)
    }
}

/// As `recv_rule`, with the length of the queue before the attempt.
pub open spec fn b_recv_rule<T>(m: ChannelModel<T>) -> (
    ChannelModel<T>,
    Option<Result<(T, usize), BRecvError>>,
) {
    if m.queue.len() > 0 {
        (
            ChannelModel { queue: m.queue.drop_first(), ..m },
            Some(Ok((m.queue[0], m.queue.len() as usize))),
        )
    } else if m.senders == 0 {
        (m, Some(Err(BRecvError::Closed(0))))
    } else {
        (m, None)
    }
}

/// One send: queued at the back if a receiver is alive, else handed back.
pub open spec fn send_rule<T>(m: ChannelModel<T>, data: T) -> (ChannelModel<T>, Result<(), SendError<T>>) {
    if m.receivers == 0 {
        (m, Err(SendError::Closed(data)))
    } else {
        (ChannelModel { queue: m.queue.push(data), ..m }, Ok(()))
    }
}

/// As `send_rule`, with the length of the queue after the send, or the
/// length it has when the value is handed back.
pub open spec fn b_send_rule<T>(m: ChannelModel<T>, data: T) -> (
    ChannelModel<T>,
    Result<usize, BSendError<T>>,
) {
    if m.receivers == 0 {
        (m, Err(BSendError::Closed((data, m.queue.len() as usize))))
    } else {
        (ChannelModel { queue: m.queue.push(data), ..m }, Ok((m.queue.len() + 1) as usize))
    }
}

/// Whether a receive reports `Closed`, for a channel that keeps its counts
/// and its queue apart: no sender is alive and nothing is queued, the
/// condition of `recv_rule`.
pub fn closed_to_receivers(senders: usize, queued: usize) -> (b: bool)
    ensures
        b == (senders == 0 && queued == 0),
{
    senders == 0 && queued == 0
}

/// Whether a send hands its value back: no receiver is alive, the
/// condition of `send_rule`.
pub fn closed_to_senders(receivers: usize) -> (b: bool)
    ensures
        b == (receivers == 0),
{
    receivers == 0
}

/// The state after every value of `xs`, in order, is sent.
pub open spec fn send_all<T>(m: ChannelModel<T>, xs: Seq<T>) -> ChannelModel<T>
    decreases xs.len(),
{
    if xs.len() == 0 {
        m
    } else {
        send_all(send_rule(m, xs[0]).0, xs.drop_first())
    }
}

/// The values that `n` attempts to receive give, in order, and the state
/// after them; attempts that give no value add nothing.
pub open spec fn recv_all<T>(m: ChannelModel<T>, n: nat) -> (ChannelModel<T>, Seq<T>)
    decreases n,
{
    if n == 0 {
        (m, Seq::empty())
    } else {
        let (m1, r) = recv_rule(m);
        let (m2, rest) = recv_all(m1, (n - 1) as nat);
        match r {
            Some(Ok(v)) => (m2, seq![v] + rest),
            _ => (m2, rest),
        }
    }
}

proof fn lemma_send_all<T>(m: ChannelModel<T>, xs: Seq<T>)
    requires
        m.receivers > 0,
    ensures
        send_all(m, xs) == (ChannelModel { queue: m.queue + xs, ..m }),
    decreases xs.len(),
{
    if xs.len() > 0 {
        let m1 = send_rule(m, xs[0]).0;
        lemma_send_all(m1, xs.drop_first());
        assert(m1.queue + xs.drop_first() =~= m.queue + xs);
    } else {
        assert(m.queue + xs =~= m.queue);
    }
}

proof fn lemma_recv_all<T>(m: ChannelModel<T>, n: nat)
    requires
        n <= m.queue.len(),
    ensures
        recv_all(m, n) == (
            ChannelModel { queue: m.queue.skip(n as int), ..m },
            m.queue.take(n as int),
        ),
    decreases n,
{
    if n == 0 {
        assert(m.queue.skip(0) =~= m.queue);
        assert(m.queue.take(0) =~= Seq::<T>::empty());
    } else {
        let m1 = recv_rule(m).0;
        lemma_recv_all(m1, (n - 1) as nat);
        assert(m1.queue.skip(n - 1) =~= m.queue.skip(n as int));
        assert(seq![m.queue[0]] + m1.queue.take(n - 1) =~= m.queue.take(n as int));
    }
}

/// Values come out in the order they went in, none lost and none added:
/// after the values `xs` are sent to a channel with a receiver, as many
/// receive attempts as there are queued values give the values that were
/// queued before, then `xs`, and leave the queue empty.
pub proof fn law_fifo<T>(m: ChannelModel<T>, xs: Seq<T>)
    requires
        m.receivers > 0,
    ensures
        recv_all(send_all(m, xs), m.queue.len() + xs.len()).1 == m.queue + xs,
        recv_all(send_all(m, xs), m.queue.len() + xs.len()).0.queue.len() == 0,
{
    lemma_send_all(m, xs);
    let m1 = send_all(m, xs);
    lemma_recv_all(m1, m.queue.len() + xs.len());
    assert((m.queue + xs).take((m.queue.len() + xs.len()) as int) =~= m.queue + xs);
}

/// A channel closes to receivers only when it is drained: when no sender is
/// left, the queued values still come out in order, and only then does a
/// receive report `Closed`.
pub proof fn law_drain_then_closed<T>(m: ChannelModel<T>)
    requires
        m.senders == 0,
    ensures
        recv_all(m, m.queue.len()).1 == m.queue,
        recv_rule(recv_all(m, m.queue.len()).0).1 == Some(Err::<T, RecvError>(RecvError::Closed)),
{
    lemma_recv_all(m, m.queue.len());
    assert(m.queue.take(m.queue.len() as int) =~= m.queue);
}

/// A receive never reports `Closed` while a value is queued or a sender is
/// alive, and never waits when it cannot be served later.
pub proof fn law_closed_exactly_when_drained_and_orphaned<T>(m: ChannelModel<T>)
    ensures
        (recv_rule(m).1 == Some(Err::<T, RecvError>(RecvError::Closed))) <==> (m.queue.len() == 0
            && m.senders == 0),
        (recv_rule(m).1 is None) <==> (m.queue.len() == 0 && m.senders > 0),
{
}

/// A send to a channel without receivers hands the same value back and
/// changes nothing; with a receiver it always succeeds.
pub proof fn law_send_without_receivers<T>(m: ChannelModel<T>, x: T)
    ensures
        m.receivers == 0 ==> send_rule(m, x) == (m, Err::<(), SendError<T>>(SendError::Closed(x))),
        m.receivers > 0 ==> send_rule(m, x).1 is Ok,
{
}

/// The length-reporting operations change the channel exactly as the plain
/// ones do, and report the length of the queue.
pub proof fn law_b_rules_agree<T>(m: ChannelModel<T>, x: T)
    ensures
        b_recv_rule(m).0 == recv_rule(m).0,
        b_send_rule(m, x).0 == send_rule(m, x).0,
        m.queue.len() < usize::MAX ==> (send_rule(m, x).1 is Ok <==> b_send_rule(m, x).1 == Ok::<
            usize,
            BSendError<T>,
        >((m.queue.len() + 1) as usize)),
{
}

/// The length-reporting receive gives what the plain receive gives: the
/// same value exactly when the plain one gives a value, with the length of
/// the queue before the receive, `Closed` exactly when the plain one reports
/// `Closed`, and nothing exactly when the plain one has to wait.
pub proof fn law_b_recv_gives_what_recv_gives<T>(m: ChannelModel<T>)
    requires
        m.queue.len() <= usize::MAX,
    ensures
        forall|v: T, n: usize|
            #[trigger] b_recv_rule(m).1 == Some(Ok::<(T, usize), BRecvError>((v, n))) <==> (
            recv_rule(m).1 == Some(Ok::<T, RecvError>(v)) && n == m.queue.len()),
        (b_recv_rule(m).1 matches Some(Err(_))) <==> recv_rule(m).1 == Some(
            Err::<T, RecvError>(RecvError::Closed),
        ),
        (b_recv_rule(m).1 is None) <==> (recv_rule(m).1 is None),
{
}

/// The length-reporting receive serves the oldest value first and reports
/// `Closed` only on a drained channel without senders: while a value is
/// queued it gives that value and removes it, whether or not a sender is
/// left.
pub proof fn law_b_recv_drains_before_closing<T>(m: ChannelModel<T>)
    requires
        m.queue.len() <= usize::MAX,
    ensures
        (b_recv_rule(m).1 matches Some(Err(_))) <==> (m.queue.len() == 0 && m.senders == 0),
        m.queue.len() > 0 ==> (b_recv_rule(m).1 matches Some(Ok((v, n))) && v == m.queue[0] && n
            == m.queue.len()),
        m.queue.len() > 0 ==> seq![m.queue[0]] + b_recv_rule(m).0.queue == m.queue,
        b_recv_rule(m).0.senders == m.senders && b_recv_rule(m).0.receivers == m.receivers,
{
    if m.queue.len() > 0 {
        assert(seq![m.queue[0]] + m.queue.drop_first() =~= m.queue);
    }
}

/// The state after a sender handle is cloned.
pub open spec fn with_sender_added<T>(m: ChannelModel<T>) -> ChannelModel<T> {
    ChannelModel { senders: m.senders + 1, ..m }
}

/// The state after a sender handle is dropped.
pub open spec fn with_sender_removed<T>(m: ChannelModel<T>) -> ChannelModel<T> {
    ChannelModel { senders: (m.senders - 1) as nat, ..m }
}

/// The state after a receiver handle is cloned.
pub open spec fn with_receiver_added<T>(m: ChannelModel<T>) -> ChannelModel<T> {
    ChannelModel { receivers: m.receivers + 1, ..m }
}

/// The state after a receiver handle is dropped.
pub open spec fn with_receiver_removed<T>(m: ChannelModel<T>) -> ChannelModel<T> {
    ChannelModel { receivers: (m.receivers - 1) as nat, ..m }
}

/// Cloning a handle and dropping the clone leaves the channel as it was,
/// queue included.
pub proof fn law_clone_then_drop_restores<T>(m: ChannelModel<T>)
    ensures
        with_sender_removed(with_sender_added(m)) == m,
        with_receiver_removed(with_receiver_added(m)) == m,
{
}

/// While at least one sender is alive the channel never reports `Closed`
/// to a receiver, however many other senders come and go.
pub proof fn law_open_while_a_sender_lives<T>(m: ChannelModel<T>)
    requires
        m.senders >= 1,
    ensures
        recv_rule(m).1 != Some(Err::<T, RecvError>(RecvError::Closed)),
        recv_rule(with_sender_added(m)).1 != Some(Err::<T, RecvError>(RecvError::Closed)),
        m.senders >= 2 ==> recv_rule(with_sender_removed(m)).1 != Some(
            Err::<T, RecvError>(RecvError::Closed),
        ),
{
}

} // verus!
