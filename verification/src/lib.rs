//! Channels for many senders and many receivers, the state machines and
//! flags that they are built from, and the bookkeeping of the benchmark
//! that compares them.
use vstd::prelude::*;

pub mod aggregate;
pub mod external;
pub mod runner;
pub mod state;
pub mod v1;
pub mod v2;
pub mod v3;
pub mod v4;
pub mod v5;
pub mod workload;

verus! {

/// A send failed because no receiver is left; the value is handed back.
#[derive(Debug)]
pub enum SendError<T> {
    Closed(T),
}

/// A receive failed because the channel is empty and no sender is left.
#[derive(Debug, PartialEq, Eq, Structural)]
pub enum RecvError {
    Closed,
}

/// A send that reports the length of the queue failed; the value and that
/// length are handed back.
#[derive(Debug)]
pub enum BSendError<T> {
    Closed((T, usize)),
}

/// A receive that reports the length of the queue failed; that length is
/// handed back.
#[derive(Debug, PartialEq, Eq, Structural)]
pub enum BRecvError {
    Closed(usize),
}

/// The sending half of a channel, which blocks until the value is queued.
pub trait BlockingSend<T> where T: Send {
    /// Sends `data`; a send that fails hands back the very value it was
    /// given.
    fn send(&self, data: T) -> (r: Result<(), SendError<T>>)
        ensures
            r matches Err(SendError::Closed(v)) ==> v == data,
    ;
}

/// The receiving half of a channel, which blocks until a value or the
/// closing of the channel arrives.
pub trait BlockingReceive<T> where T: Send {
    fn recv(&self) -> Result<T, RecvError>;
}

/// A sending half that also reports the length of the queue.
pub trait BBlockingSend<T> where Self: BlockingSend<T>, T: Send {
    /// Sends `data` and reports a length of the queue; a send that fails
    /// hands back the very value it was given.
    fn b_send(&self, data: T) -> (r: Result<usize, BSendError<T>>)
        ensures
            r matches Err(BSendError::Closed((v, _))) ==> v == data,
    ;
}

/// A receiving half that also reports the length of the queue.
pub trait BBlockingReceive<T> where Self: BlockingReceive<T>, T: Send {
    fn b_recv(&self) -> Result<(T, usize), BRecvError>;
}

} // verus!
