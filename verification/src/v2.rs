//! The state behind the lock of a channel whose queue is a ring buffer.
use std::collections::VecDeque;
use vstd::prelude::*;

use crate::state::{
    b_recv_rule, b_send_rule, fresh_model, recv_rule, send_rule, with_receiver_added,
    with_receiver_removed, with_sender_added, with_sender_removed, ChannelModel,
};
use crate::{BRecvError, BSendError, RecvError, SendError};

verus! {

/// The state shared by all handles of one channel: the numbers of live
/// senders and receivers, and the queued values, oldest first.
#[derive(Debug)]
pub struct ChannelInner<T> {
    senders: usize,
    receivers: usize,
    queue: VecDeque<T>,
}

impl<T> View for ChannelInner<T> {
    type V = ChannelModel<T>;

    closed spec fn view(&self) -> ChannelModel<T> {
        ChannelModel {
            senders: self.senders as nat,
            receivers: self.receivers as nat,
            queue: self.queue@,
        }
    }
}

impl<T> ChannelInner<T> {
    /// The state of a fresh channel, with one sender and one receiver.
    pub fn new() -> (c: Self)
        ensures
            c@ == fresh_model::<T>(),
    {
        ChannelInner { senders: 1, receivers: 1, queue: VecDeque::new() }
    }

    /// One attempt to receive: `None` means the caller has to wait.
    pub fn try_recv(&mut self) -> (r: Option<Result<T, RecvError>>)
        ensures
            (final(self)@, r) == recv_rule(old(self)@),
    {
        let queue_len = self.queue.len();
        if queue_len > 0 {
            match self.queue.pop_front() {
                Some(v) => Some(Ok(v)),
                None => None,
            }
        } else if self.senders == 0 {
            Some(Err(RecvError::Closed))
        } else {
            None
        }
    }

    /// As `try_recv`, with the length of the queue before the attempt.
    pub fn b_try_recv(&mut self) -> (r: Option<Result<(T, usize), BRecvError>>)
        ensures
            (final(self)@, r) == b_recv_rule(old(self)@),
    {
        let queue_len = self.queue.len();
        if queue_len > 0 {
            match self.queue.pop_front() {
                Some(v) => Some(Ok((v, queue_len))),
                None => None,
            }
        } else if self.senders == 0 {
            Some(Err(BRecvError::Closed(queue_len)))
        } else {
            None
        }
    }

    /// Queues the value if a receiver is alive, else hands it back.
    pub fn send(&mut self, data: T) -> (r: Result<(), SendError<T>>)
        ensures
            (final(self)@, r) == send_rule(old(self)@, data),
    {
        if self.receivers == 0 {
            Err(SendError::Closed(data))
        } else {
            self.queue.push_back(data);
            Ok(())
        }
    }

    /// As `send`, with the length of the queue after the value is queued.
    pub fn b_send(&mut self, data: T) -> (r: Result<usize, BSendError<T>>)
        requires
            old(self)@.queue.len() < usize::MAX,
        ensures
            (final(self)@, r) == b_send_rule(old(self)@, data),
    {
        if self.receivers == 0 {
            let len = self.queue.len();
            Err(BSendError::Closed((data, len)))
        } else {
            self.queue.push_back(data);
            Ok(self.queue.len())
        }
    }

    /// A sender handle was cloned.
    pub fn add_sender(&mut self)
        requires
            old(self)@.senders < usize::MAX,
        ensures
            final(self)@ == with_sender_added(old(self)@),
    {
        self.senders = self.senders + 1;
    }

    /// A sender handle was dropped.
    pub fn remove_sender(&mut self)
        requires
            old(self)@.senders > 0,
        ensures
            final(self)@ == with_sender_removed(old(self)@),
    {
        self.senders = self.senders - 1;
    }

    /// A receiver handle was cloned.
    pub fn add_receiver(&mut self)
        requires
            old(self)@.receivers < usize::MAX,
        ensures
            final(self)@ == with_receiver_added(old(self)@),
    {
        self.receivers = self.receivers + 1;
    }

    /// A receiver handle was dropped.
    pub fn remove_receiver(&mut self)
        requires
            old(self)@.receivers > 0,
        ensures
            final(self)@ == with_receiver_removed(old(self)@),
    {
        self.receivers = self.receivers - 1;
    }

    pub fn senders(&self) -> (n: usize)
        ensures
            n == self@.senders,
    {
        self.senders
    }

    pub fn receivers(&self) -> (n: usize)
        ensures
            n == self@.receivers,
    {
        self.receivers
    }

    pub fn len(&self) -> (n: usize)
        ensures
            n == self@.queue.len(),
    {
        self.queue.len()
    }
}

} // verus!
