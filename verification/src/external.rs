//! The channels of the crossbeam crate, as channels of this library.
use crossbeam::channel::{Receiver, Sender};
use vstd::prelude::*;

use crate::{
    BBlockingReceive, BBlockingSend, BRecvError, BSendError, BlockingReceive,
    BlockingSend, RecvError, SendError,
};

verus! {

#[verifier::external_type_specification]
#[verifier::external_body]
#[verifier::reject_recursive_types(T)]
pub struct ExSender<T>(Sender<T>);

#[verifier::external_type_specification]
#[verifier::external_body]
#[verifier::reject_recursive_types(T)]
pub struct ExReceiver<T>(Receiver<T>);

/// Sends with `crossbeam::channel::Sender::send`, which blocks on no
/// unbounded channel; a failed send hands back the value it was given.
#[verifier::external_body]
fn crossbeam_send<T>(tx: &Sender<T>, data: T) -> (r: Result<(), T>)
    ensures
        r matches Err(v) ==> v == data,
{
    match tx.send(data) {
        Ok(()) => Ok(()),
        Err(e) => Err(e.0),
    }
}

/// The number of queued values, with `crossbeam::channel::Sender::len`; it
/// depends on the other threads, so nothing is stated of it.
#[verifier::external_body]
fn crossbeam_sender_len<T>(tx: &Sender<T>) -> usize {
    tx.len()
}

/// Receives with `crossbeam::channel::Receiver::recv`; which value comes,
/// and whether the channel is closed, depends on the other threads.
#[verifier::external_body]
fn crossbeam_recv<T>(rx: &Receiver<T>) -> Option<T> {
    match rx.recv() {
        Ok(v) => Some(v),
        Err(_) => None,
    }
}

/// The number of queued values, with `crossbeam::channel::Receiver::len`.
#[verifier::external_body]
fn crossbeam_receiver_len<T>(rx: &Receiver<T>) -> usize {
    rx.len()
}

impl<T: Send> BlockingSend<T> for Sender<T> {
    fn send(&self, data: T) -> Result<(), SendError<T>> {
        match crossbeam_send(self, data) {
            Ok(()) => Ok(()),
            Err(v) => Err(SendError::Closed(v)),
        }
    }
}

impl<T: Send> BBlockingSend<T> for Sender<T> {
    /// Reports the length of the queue before the send.
    fn b_send(&self, data: T) -> Result<usize, BSendError<T>> {
        let len = crossbeam_sender_len(self);
        match crossbeam_send(self, data) {
            Ok(()) => Ok(len),
            Err(v) => Err(BSendError::Closed((v, len))),
        }
    }
}

impl<T: Send> BlockingReceive<T> for Receiver<T> {
    fn recv(&self) -> Result<T, RecvError> {
        match crossbeam_recv(self) {
            Some(v) => Ok(v),
            None => Err(RecvError::Closed),
        }
    }
}

impl<T: Send> BBlockingReceive<T> for Receiver<T> {
    /// Reports the length of the queue before the receive.
    fn b_recv(&self) -> Result<(T, usize), BRecvError> {
        let len = crossbeam_receiver_len(self);
        match crossbeam_recv(self) {
            Some(v) => Ok((v, len)),
            None => Err(BRecvError::Closed(len)),
        }
    }
}

} // verus!
