//! The worker side of the oneshot backends: each command travels with the
//! single-use channel on which its own result goes back.
use vstd::prelude::*;

use std::sync::mpsc::{Receiver, RecvError, Sender};
use std::sync::{Arc, Mutex};

use crate::channel::{claim, post, CommandQueue};
use crate::{ActionResult, Command, StopRunner, WorkerStep};

verus! {

/// The sending half of a oneshot reply channel, opaque to proofs.
#[verifier::external_type_specification]
#[verifier::external_body]
#[verifier::reject_recursive_types(T)]
pub struct ExReplySender<T>(oneshot::Sender<T>);

/// The receiving half of a oneshot reply channel, opaque to proofs.
#[verifier::external_type_specification]
#[verifier::external_body]
#[verifier::reject_recursive_types(T)]
pub struct ExReplyReceiver<T>(oneshot::Receiver<T>);

/// The error of replying to a dropped receiver, opaque to proofs.
#[verifier::external_type_specification]
#[verifier::external_body]
#[verifier::reject_recursive_types(T)]
pub struct ExReplySendError<T>(oneshot::SendError<T>);

/// The error of waiting on a reply channel whose sender is gone.
#[verifier::external_type_specification]
#[verifier::external_body]
pub struct ExReplyRecvError(oneshot::RecvError);

/// Relies on `oneshot::channel`: a fresh pair of connected endpoints.
pub assume_specification<T>[ oneshot::channel::<T> ]() -> (oneshot::Sender<T>, oneshot::Receiver<T>);

/// Relies on `oneshot::Sender::send`: delivers `message` to the paired
/// receiver, or fails when that receiver was dropped.
#[verifier::external_body]
fn reply<T>(chan: oneshot::Sender<T>, message: T) -> Result<(), oneshot::SendError<T>> {
    chan.send(message)
}

/// A command paired with the reply channel created for the call that sent it.
#[derive(Debug)]
#[verifier::reject_recursive_types(Cmd)]
pub struct QueuedCommand<Cmd> where Cmd: Command {
    cmd: Cmd,
    chan: oneshot::Sender<Cmd::Result>,
}

impl<Cmd> QueuedCommand<Cmd> where Cmd: Command {
    /// The command to execute.
    pub closed spec fn command(&self) -> Cmd {
        self.cmd
    }

    /// The channel on which the command's result goes back.
    pub closed spec fn reply_to(&self) -> oneshot::Sender<Cmd::Result> {
        self.chan
    }

    /// Pairs `cmd` with a fresh reply channel, whose receiving end is returned.
    pub fn new(cmd: Cmd) -> (r: (Self, oneshot::Receiver<Cmd::Result>))
        ensures
            r.0.command() == cmd,
    {
        let (chan, reply) = oneshot::channel();
        (QueuedCommand { cmd, chan }, reply)
    }

    /// Gives back the command, dropping its reply channel.
    pub fn into_command(self) -> (c: Cmd)
        ensures
            c == self.command(),
    {
        self.cmd
    }

    /// Queues `cmd` for the workers behind `queue` and returns the handle on
    /// which its own result arrives. When no worker is left, the queued
    /// command comes back unexecuted.
    pub fn submit(queue: &Sender<QueuedCommand<Cmd>>, cmd: Cmd) -> (r: Result<
        oneshot::Receiver<Cmd::Result>,
        QueuedCommand<Cmd>,
    >)
        ensures
            r matches Err(q) ==> q.command() == cmd,
    {
        let (msg, reply) = QueuedCommand::new(cmd);
        match post(queue, msg) {
            Ok(()) => Ok(reply),
            Err(e) => Err(e.0),
        }
    }
}

/// The state a oneshot worker owns while it runs, handed back when it stops.
///
/// As ghost state it keeps every queued command it claimed; for each command
/// that was not a stop command, the channel its result was sent on and the
/// result; and whether that reply was taken.
#[verifier::reject_recursive_types(Cmd)]
pub struct OneShotRunner<Cmd> where Cmd: Command {
    reqs: Arc<Mutex<Receiver<QueuedCommand<Cmd>>>>,
    claimed: Ghost<Seq<QueuedCommand<Cmd>>>,
    answered: Ghost<Seq<(oneshot::Sender<Cmd::Result>, Cmd::Result)>>,
    delivered: Ghost<Seq<bool>>,
}

impl<Cmd> OneShotRunner<Cmd> where Cmd: Command {
    /// The inbound channel the worker claims from.
    pub closed spec fn inbox(&self) -> Arc<Mutex<Receiver<QueuedCommand<Cmd>>>> {
        self.reqs
    }

    /// The queued commands claimed so far, in order.
    pub closed spec fn claimed(&self) -> Seq<QueuedCommand<Cmd>> {
        self.claimed@
    }

    /// The replies sent so far, in order: the channel used and the result.
    pub closed spec fn answered(&self) -> Seq<(oneshot::Sender<Cmd::Result>, Cmd::Result)> {
        self.answered@
    }

    /// For each reply, whether its receiver was still there to take it.
    pub closed spec fn delivered(&self) -> Seq<bool> {
        self.delivered@
    }

    /// The worker has claimed a stop command.
    pub open spec fn stopped(&self) -> bool {
        self.claimed().len() > 0 && self.claimed().last().command().is_stop()
    }

    /// The history is consistent: the i-th reply carries a result of the i-th
    /// claimed command and went to that command's own channel; no stop command
    /// was answered, and only the last claimed command can be a stop command.
    pub open spec fn wf(&self) -> bool {
        &&& self.delivered().len() == self.answered().len()
        &&& self.claimed().len() == self.answered().len() + if self.stopped() { 1int } else { 0int }
        &&& forall|i: int|
            0 <= i < self.answered().len() ==> {
                &&& !(#[trigger] self.claimed()[i]).command().is_stop()
                &&& self.claimed()[i].command().yields(self.answered()[i].1)
                &&& self.answered()[i].0 == self.claimed()[i].reply_to()
            }
    }

    /// One turn on the claimed `q` that ended in `s`: a stop command ends the
    /// loop and is not answered; any other command is executed once and its
    /// result sent on `q`'s own channel, `s` telling whether it was taken.
    pub open spec fn turn(&self, next: &Self, q: QueuedCommand<Cmd>, s: WorkerStep) -> bool {
        &&& next.inbox() == self.inbox()
        &&& next.claimed() == self.claimed().push(q)
        &&& (s is Stopped <==> q.command().is_stop())
        &&& q.command().is_stop() ==> next.answered() == self.answered() && next.delivered()
            == self.delivered()
        &&& !q.command().is_stop() ==> {
            &&& s is Served || s is Undeliverable
            &&& next.answered() == self.answered().push((q.reply_to(), next.answered().last().1))
            &&& q.command().yields(next.answered().last().1)
            &&& next.delivered() == self.delivered().push(s is Served)
        }
    }

    /// A fresh worker state over the inbound channel (possibly shared by a pool).
    pub fn new(reqs: Arc<Mutex<Receiver<QueuedCommand<Cmd>>>>) -> (r: Self)
        ensures
            r.claimed() == Seq::<QueuedCommand<Cmd>>::empty(),
            r.answered() == Seq::<(oneshot::Sender<Cmd::Result>, Cmd::Result)>::empty(),
            r.delivered() == Seq::<bool>::empty(),
            r.inbox() == reqs,
            r.wf(),
    {
        OneShotRunner {
            reqs,
            claimed: Ghost(Seq::empty()),
            answered: Ghost(Seq::empty()),
            delivered: Ghost(Seq::empty()),
        }
    }

    /// Waits for the next queued command; fails once no sender is left, or
    /// when a worker sharing the channel panicked while claiming.
    pub fn get(&self) -> (r: Result<QueuedCommand<Cmd>, RecvError>) {
        claim(&*self.reqs)
    }

    /// Executes one command.
    pub fn exec(cmd: Cmd) -> (r: ActionResult<Cmd::Result>)
        ensures
            (r is Stop) == cmd.is_stop(),
            r matches ActionResult::Normal(v) ==> cmd.yields(v),
    {
        cmd.execute()
    }

    /// Handles what a claim returned: the command is executed once and its
    /// result sent on its own reply channel; a stop command ends the loop and
    /// is never answered; a failed claim changes nothing.
    pub fn serve(&mut self, got: Result<QueuedCommand<Cmd>, RecvError>) -> (s: WorkerStep)
        requires
            old(self).wf(),
            !old(self).stopped(),
        ensures
            final(self).wf(),
            got is Err <==> s is Disconnected,
            got is Err ==> {
                &&& final(self).inbox() == old(self).inbox()
                &&& final(self).claimed() == old(self).claimed()
                &&& final(self).answered() == old(self).answered()
                &&& final(self).delivered() == old(self).delivered()
            },
            got matches Ok(q) ==> old(self).turn(final(self), q, s),
    {
        let msg = match got {
            Ok(msg) => msg,
            Err(_) => return WorkerStep::Disconnected,
        };
        let ghost q = msg;
        self.claimed = Ghost(self.claimed@.push(q));
        assert(self.claimed().drop_last() =~= old(self).claimed());
        let QueuedCommand { cmd, chan } = msg;
        match OneShotRunner::<Cmd>::exec(cmd) {
            ActionResult::Normal(res) => {
                let ghost v = res;
                self.answered = Ghost(self.answered@.push((q.reply_to(), v)));
                let ok = reply(chan, res).is_ok();
                self.delivered = Ghost(self.delivered@.push(ok));
                if ok {
                    WorkerStep::Served
                } else {
                    WorkerStep::Undeliverable
                }
            },
            ActionResult::Stop => WorkerStep::Stopped,
        }
    }

    /// One turn of the worker loop: claim a queued command and serve it.
    pub fn step(&mut self) -> (s: WorkerStep)
        requires
            old(self).wf(),
            !old(self).stopped(),
        ensures
            final(self).wf(),
            s is Disconnected ==> {
                &&& final(self).inbox() == old(self).inbox()
                &&& final(self).claimed() == old(self).claimed()
                &&& final(self).answered() == old(self).answered()
                &&& final(self).delivered() == old(self).delivered()
            },
            !(s is Disconnected) ==> old(self).turn(final(self), final(self).claimed().last(), s),
    {
        let got = self.get();
        self.serve(got)
    }
}

/// Each reply goes to its own call: when the claimed commands carry distinct
/// reply channels, the only reply sent on the i-th command's channel is the
/// i-th reply, and it is a result of that command. Each `send` creates a
/// fresh channel, but no contract here states that two channels differ, so
/// the distinctness is a hypothesis of this law, not a consequence.
pub proof fn lemma_reply_on_own_channel<Cmd: Command>(r: &OneShotRunner<Cmd>)
    requires
        r.wf(),
        forall|i: int, j: int|
            0 <= i < r.claimed().len() && 0 <= j < r.claimed().len() && i != j ==> (
            #[trigger] r.claimed()[i]).reply_to() != (#[trigger] r.claimed()[j]).reply_to(),
    ensures
        forall|i: int, k: int|
            0 <= i < r.claimed().len() && 0 <= k < r.answered().len() ==> ((#[trigger] r.answered()[k]).0
                == (#[trigger] r.claimed()[i]).reply_to() <==> k == i),
        forall|i: int|
            0 <= i < r.answered().len() ==> (#[trigger] r.claimed()[i]).command().yields(
                r.answered()[i].1,
            ),
{
    assert forall|i: int, k: int|
        0 <= i < r.claimed().len() && 0 <= k < r.answered().len() implies ((
    #[trigger] r.answered()[k]).0 == (#[trigger] r.claimed()[i]).reply_to() <==> k == i) by {
        assert(r.answered()[k].0 == r.claimed()[k].reply_to());
    }
}

/// Each claimed command is executed once: a command that is not a stop
/// command has exactly one reply, at its own position, and a stop command has
/// none.
pub proof fn lemma_one_reply_per_command<Cmd: Command>(r: &OneShotRunner<Cmd>)
    requires
        r.wf(),
    ensures
        forall|i: int|
            0 <= i < r.claimed().len() ==> (i < r.answered().len() <==> !(
            #[trigger] r.claimed()[i]).command().is_stop()),
{
    assert forall|i: int| 0 <= i < r.claimed().len() implies (i < r.answered().len() <==> !(
    #[trigger] r.claimed()[i]).command().is_stop()) by {
        if i >= r.answered().len() {
            assert(r.stopped());
            assert(i == r.claimed().len() - 1);
        }
    }
}

/// A worker that claimed only ordinary commands and then a stop command has
/// answered every ordinary command, and is done.
pub proof fn lemma_clean_stop<Cmd: Command>(r: &OneShotRunner<Cmd>)
    requires
        r.wf(),
        r.stopped(),
    ensures
        r.answered().len() == r.claimed().len() - 1,
        forall|i: int|
            0 <= i < r.claimed().len() - 1 ==> !(#[trigger] r.claimed()[i]).command().is_stop(),
{
}

/// `next` is `prev` followed by `n` more queued commands, every one of them a
/// stop command.
pub open spec fn appends_stops<Cmd: Command>(
    prev: Seq<QueuedCommand<Cmd>>,
    next: Seq<QueuedCommand<Cmd>>,
    n: int,
) -> bool {
    &&& next.len() == prev.len() + n
    &&& next.subrange(0, prev.len() as int) == prev
    &&& forall|i: int| prev.len() <= i < next.len() ==> (#[trigger] next[i]).command().is_stop()
}

/// Why closing a oneshot runner failed: the stop command could not be queued
/// (it comes back in the error), or a worker ended abnormally (the payload of
/// its failure).
#[verifier::reject_recursive_types(Cmd)]
pub enum OneShotCloseError<Cmd, J> where Cmd: Command {
    SendError(QueuedCommand<Cmd>),
    JoinError(J),
}

/// Queues `count` stop commands made by `stopper` for the workers behind
/// `queue`, one for each worker; their reply channels are dropped, since a
/// stop command is never answered. Once one cannot be queued no worker is
/// left, so the rest are not tried, and the rejected one is returned.
pub fn request_stops<Cmd: Command, S: StopRunner<Cmd>, J>(
    queue: &mut CommandQueue<QueuedCommand<Cmd>>,
    stopper: &S,
    count: usize,
) -> (r: Result<(), OneShotCloseError<Cmd, J>>)
    ensures
        r is Ok ==> appends_stops(old(queue).sent(), final(queue).sent(), count as int),
        r is Err ==> appends_stops(
            old(queue).sent(),
            final(queue).sent(),
            final(queue).sent().len() - old(queue).sent().len(),
        ) && final(queue).sent().len() < old(queue).sent().len() + count,
        count == 0 ==> r is Ok,
        r matches Err(e) ==> e matches OneShotCloseError::SendError(q) && q.command().is_stop()
            && call_ensures(S::get, (stopper,), q.command()),
{
    let ghost start = queue.sent();
    assert(start.subrange(0, start.len() as int) =~= start);
    let mut i: usize = 0;
    while i < count
        invariant
            i <= count,
            start == old(queue).sent(),
            appends_stops(start, queue.sent(), i as int),
        decreases count - i,
    {
        let (msg, _reply) = QueuedCommand::new(stopper.get());
        let ghost g = msg;
        let ghost before = queue.sent();
        match queue.push(msg) {
            Ok(()) => {
                assert(queue.sent().subrange(0, start.len() as int) =~= before.subrange(
                    0,
                    start.len() as int,
                ));
                assert(queue.sent()[before.len() as int] == g);
            },
            Err(e) => {
                assert(appends_stops(start, queue.sent(), i as int));
                return Err(OneShotCloseError::SendError(e.0));
            },
        }
        i = i + 1;
    }
    Ok(())
}

/// The outcome of closing a single-worker oneshot runner, from the outcome
/// of queuing its stop command and of joining its thread afterwards (which
/// is done even when queuing failed): the queuing failure first, else the
/// worker's final state, or the payload of its failure.
pub fn close_outcome<Cmd: Command, J>(
    sent: Result<(), OneShotCloseError<Cmd, J>>,
    joined: Result<OneShotRunner<Cmd>, J>,
) -> (r: Result<OneShotRunner<Cmd>, OneShotCloseError<Cmd, J>>)
    ensures
        sent matches Err(e) ==> r == Err::<OneShotRunner<Cmd>, OneShotCloseError<Cmd, J>>(e),
        sent is Ok ==> (joined matches Ok(s) ==> r == Ok::<
            OneShotRunner<Cmd>,
            OneShotCloseError<Cmd, J>,
        >(s)),
        sent is Ok ==> (joined matches Err(p) ==> r == Err::<
            OneShotRunner<Cmd>,
            OneShotCloseError<Cmd, J>,
        >(OneShotCloseError::JoinError(p))),
{
    match sent {
        Err(e) => Err(e),
        Ok(()) => match joined {
            Ok(s) => Ok(s),
            Err(p) => Err(OneShotCloseError::JoinError(p)),
        },
    }
}

} // verus!
