//! The channels that connect a runner's handle to its workers.
use vstd::prelude::*;

use std::sync::mpsc::{Receiver, RecvError, SendError, Sender};
use std::sync::{Mutex, MutexGuard};

verus! {

/// The sending half of an `mpsc` channel, opaque to proofs.
#[verifier::external_type_specification]
#[verifier::external_body]
#[verifier::reject_recursive_types(T)]
pub struct ExSender<T>(Sender<T>);

/// The receiving half of an `mpsc` channel, opaque to proofs.
#[verifier::external_type_specification]
#[verifier::external_body]
#[verifier::reject_recursive_types(T)]
pub struct ExReceiver<T>(Receiver<T>);

/// The lock that lets a pool of workers share one receiving half.
#[verifier::external_type_specification]
#[verifier::external_body]
#[verifier::reject_recursive_types(T)]
pub struct ExMutex<T: ?Sized>(Mutex<T>);

/// Exclusive access to what a `Mutex` guards, until dropped.
#[verifier::external_type_specification]
#[verifier::external_body]
#[verifier::reject_recursive_types(T)]
pub struct ExMutexGuard<'a, T: ?Sized + 'a>(MutexGuard<'a, T>);

/// The error of receiving on a channel whose senders are all gone.
#[verifier::external_type_specification]
pub struct ExRecvError(RecvError);

/// The error of sending on a channel whose receiver is gone; its public
/// field holds the value that was not sent.
#[verifier::external_type_specification]
#[verifier::reject_recursive_types(T)]
pub struct ExSendError<T>(SendError<T>);

/// Relies on `mpsc::Sender::send`: a value that cannot be sent, because the
/// receiving half is gone, is handed back inside the error.
#[verifier::external_body]
pub(crate) fn post<T>(out: &Sender<T>, t: T) -> (r: Result<(), SendError<T>>)
    ensures
        r matches Err(e) ==> e.0 == t,
{
    out.send(t)
}

/// Relies on `Mutex::lock`: waits for the lock; `None` when a thread
/// panicked while holding it.
#[verifier::external_body]
fn lock<T>(m: &Mutex<T>) -> Option<MutexGuard<'_, T>> {
    m.lock().ok()
}

/// Relies on `mpsc::Receiver::recv`, on the receiver a guard holds: blocks
/// until a value is queued, or fails once every sender is gone. Which value
/// arrives depends on the other threads, so nothing is stated of it.
#[verifier::external_body]
fn recv_guarded<T>(g: &MutexGuard<'_, Receiver<T>>) -> Result<T, RecvError> {
    g.recv()
}

/// The sending half of a channel, with a ghost log of every value it
/// handed over, in order.
#[verifier::reject_recursive_types(T)]
pub struct CommandQueue<T> {
    tx: Sender<T>,
    sent: Ghost<Seq<T>>,
}

impl<T> CommandQueue<T> {
    /// The values handed to the channel through this queue, in order.
    pub closed spec fn sent(&self) -> Seq<T> {
        self.sent@
    }

    /// The channel end the values go to.
    pub closed spec fn sender(&self) -> Sender<T> {
        self.tx
    }

    /// Starts logging what is sent on `tx`.
    pub fn new(tx: Sender<T>) -> (r: Self)
        ensures
            r.sent() == Seq::<T>::empty(),
            r.sender() == tx,
    {
        CommandQueue { tx, sent: Ghost(Seq::empty()) }
    }

    /// Hands `v` to the channel. On success it is logged; when the receiving
    /// half is gone, `v` comes back in the error and the log is unchanged.
    pub fn push(&mut self, v: T) -> (r: Result<(), SendError<T>>)
        ensures
            final(self).sender() == old(self).sender(),
            r is Ok ==> final(self).sent() == old(self).sent().push(v),
            r matches Err(e) ==> e.0 == v && final(self).sent() == old(self).sent(),
    {
        let ghost g = v;
        let r = post(&self.tx, v);
        if r.is_ok() {
            self.sent = Ghost(self.sent@.push(g));
        }
        r
    }
}

/// Takes the next value from a receiver that several workers may share. A
/// lock left poisoned by a worker that panicked counts as a closed channel.
pub(crate) fn claim<T>(inbox: &Mutex<Receiver<T>>) -> Result<T, RecvError> {
    match lock(inbox) {
        Some(guard) => recv_guarded(&guard),
        None => Err(RecvError),
    }
}

} // verus!
