//! The worker side of the queue backends: results go to one shared channel.
use vstd::prelude::*;

use std::sync::mpsc::{Receiver, RecvError, SendError, Sender};
use std::sync::{Arc, Mutex};

use crate::channel::{claim, CommandQueue};
use crate::{ActionResult, Command, StopRunner, WorkerStep};

verus! {

/// The state a queue worker owns while it runs, handed back when it stops.
///
/// Besides the two channel ends it keeps, as ghost state, every command it
/// claimed, the result of each command that was not a stop command, and
/// whether that result reached the result channel; the outbound end logs the
/// results it handed over.
#[verifier::reject_recursive_types(Cmd)]
pub struct QueueRunner<Cmd> where Cmd: Command {
    recv_cmd: Arc<Mutex<Receiver<Cmd>>>,
    send_res: CommandQueue<Cmd::Result>,
    claimed: Ghost<Seq<Cmd>>,
    results: Ghost<Seq<Cmd::Result>>,
    delivered: Ghost<Seq<bool>>,
}

impl<Cmd> QueueRunner<Cmd> where Cmd: Command {
    /// The inbound command channel the worker claims from.
    pub closed spec fn inbox(&self) -> Arc<Mutex<Receiver<Cmd>>> {
        self.recv_cmd
    }

    /// The outbound result channel the worker sends on.
    pub closed spec fn outbox(&self) -> Sender<Cmd::Result> {
        self.send_res.sender()
    }

    /// The results the result channel took, in order.
    pub closed spec fn sent(&self) -> Seq<Cmd::Result> {
        self.send_res.sent()
    }

    /// The commands claimed so far, in the order they were claimed.
    pub closed spec fn claimed(&self) -> Seq<Cmd> {
        self.claimed@
    }

    /// The results produced so far, in the order they were produced.
    pub closed spec fn results(&self) -> Seq<Cmd::Result> {
        self.results@
    }

    /// For each produced result, whether the result channel took it.
    pub closed spec fn delivered(&self) -> Seq<bool> {
        self.delivered@
    }

    /// The worker has claimed a stop command.
    pub open spec fn stopped(&self) -> bool {
        self.claimed().len() > 0 && self.claimed().last().is_stop()
    }

    /// The history is consistent: the i-th result came from the i-th claimed
    /// command, no stop command produced a result, and only the last claimed
    /// command can be a stop command.
    pub open spec fn wf(&self) -> bool {
        &&& self.delivered().len() == self.results().len()
        &&& self.claimed().len() == self.results().len() + if self.stopped() { 1int } else { 0int }
        &&& forall|i: int|
            0 <= i < self.results().len() ==> {
                &&& !(#[trigger] self.claimed()[i]).is_stop()
                &&& self.claimed()[i].yields(self.results()[i])
            }
    }

    /// One turn on the claimed command `c` that ended in `s`: a stop command
    /// ends the loop and produces nothing; any other command is executed once
    /// and its result is sent, `s` telling whether the channel took it.
    pub open spec fn turn(&self, next: &Self, c: Cmd, s: WorkerStep) -> bool {
        &&& next.inbox() == self.inbox()
        &&& next.outbox() == self.outbox()
        &&& next.claimed() == self.claimed().push(c)
        &&& s is Served ==> next.sent() == self.sent().push(next.results().last())
        &&& !(s is Served) ==> next.sent() == self.sent()
        &&& (s is Stopped <==> c.is_stop())
        &&& c.is_stop() ==> next.results() == self.results() && next.delivered() == self.delivered()
        &&& !c.is_stop() ==> {
            &&& s is Served || s is Undeliverable
            &&& next.results() == self.results().push(next.results().last())
            &&& c.yields(next.results().last())
            &&& next.delivered() == self.delivered().push(s is Served)
        }
    }

    /// A fresh worker state over the inbound command channel (possibly shared
    /// by a pool) and the outbound result channel.
    pub fn new(recv_cmd: Arc<Mutex<Receiver<Cmd>>>, send_res: Sender<Cmd::Result>) -> (r: Self)
        ensures
            r.claimed() == Seq::<Cmd>::empty(),
            r.results() == Seq::<Cmd::Result>::empty(),
            r.delivered() == Seq::<bool>::empty(),
            r.sent() == Seq::<Cmd::Result>::empty(),
            r.inbox() == recv_cmd,
            r.outbox() == send_res,
            r.wf(),
    {
        QueueRunner {
            recv_cmd,
            send_res: CommandQueue::new(send_res),
            claimed: Ghost(Seq::empty()),
            results: Ghost(Seq::empty()),
            delivered: Ghost(Seq::empty()),
        }
    }

    /// Waits for the next command; fails once no sender is left, or when a
    /// worker sharing the channel panicked while claiming.
    pub fn get(&self) -> (r: Result<Cmd, RecvError>) {
        claim(&*self.recv_cmd)
    }

    /// Delivers a result; on failure the result comes back in the error.
    pub fn send(&mut self, res: Cmd::Result) -> (r: Result<(), SendError<Cmd::Result>>)
        ensures
            final(self).inbox() == old(self).inbox(),
            final(self).outbox() == old(self).outbox(),
            final(self).claimed() == old(self).claimed(),
            final(self).results() == old(self).results(),
            final(self).delivered() == old(self).delivered(),
            r is Ok ==> final(self).sent() == old(self).sent().push(res),
            r matches Err(e) ==> e.0 == res && final(self).sent() == old(self).sent(),
    {
        self.send_res.push(res)
    }

    /// Executes one command.
    pub fn exec(cmd: Cmd) -> (r: ActionResult<Cmd::Result>)
        ensures
            (r is Stop) == cmd.is_stop(),
            r matches ActionResult::Normal(v) ==> cmd.yields(v),
    {
        cmd.execute()
    }

    /// Handles what a claim returned: a command is executed once and its
    /// result sent; a stop command ends the loop and is never sent; a failed
    /// claim changes nothing.
    pub fn serve(&mut self, got: Result<Cmd, RecvError>) -> (s: WorkerStep)
        requires
            old(self).wf(),
            !old(self).stopped(),
        ensures
            final(self).wf(),
            got is Err <==> s is Disconnected,
            got is Err ==> {
                &&& final(self).inbox() == old(self).inbox()
                &&& final(self).outbox() == old(self).outbox()
                &&& final(self).sent() == old(self).sent()
                &&& final(self).claimed() == old(self).claimed()
                &&& final(self).results() == old(self).results()
                &&& final(self).delivered() == old(self).delivered()
            },
            got matches Ok(c) ==> old(self).turn(final(self), c, s),
    {
        let cmd = match got {
            Ok(cmd) => cmd,
            Err(_) => return WorkerStep::Disconnected,
        };
        let ghost c = cmd;
        self.claimed = Ghost(self.claimed@.push(c));
        assert(self.claimed().drop_last() =~= old(self).claimed());
        match QueueRunner::<Cmd>::exec(cmd) {
            ActionResult::Normal(res) => {
                let ghost v = res;
                self.results = Ghost(self.results@.push(v));
                let ok = self.send(res).is_ok();
                self.delivered = Ghost(self.delivered@.push(ok));
                if ok {
                    WorkerStep::Served
                } else {
                    WorkerStep::Undeliverable
                }
            },
            ActionResult::Stop => WorkerStep::Stopped,
        }
    }

    /// One turn of the worker loop: claim a command and serve it.
    pub fn step(&mut self) -> (s: WorkerStep)
        requires
            old(self).wf(),
            !old(self).stopped(),
        ensures
            final(self).wf(),
            s is Disconnected ==> {
                &&& final(self).inbox() == old(self).inbox()
                &&& final(self).outbox() == old(self).outbox()
                &&& final(self).sent() == old(self).sent()
                &&& final(self).claimed() == old(self).claimed()
                &&& final(self).results() == old(self).results()
                &&& final(self).delivered() == old(self).delivered()
            },
            !(s is Disconnected) ==> old(self).turn(final(self), final(self).claimed().last(), s),
    {
        let got = self.get();
        self.serve(got)
    }
}

/// Each claimed command is executed once: a command that is not a stop
/// command has exactly one result, at its own position, and a stop command
/// has none.
pub proof fn lemma_one_result_per_command<Cmd: Command>(r: &QueueRunner<Cmd>)
    requires
        r.wf(),
    ensures
        forall|i: int|
            0 <= i < r.claimed().len() ==> (i < r.results().len() <==> !(
            #[trigger] r.claimed()[i]).is_stop()),
{
    assert forall|i: int| 0 <= i < r.claimed().len() implies (i < r.results().len() <==> !(
    #[trigger] r.claimed()[i]).is_stop()) by {
        if i >= r.results().len() {
            assert(r.stopped());
            assert(i == r.claimed().len() - 1);
        }
    }
}

/// Results leave a worker in the order its commands were claimed: the i-th
/// result is a result of the i-th command claimed.
pub proof fn lemma_results_in_claim_order<Cmd: Command>(r: &QueueRunner<Cmd>)
    requires
        r.wf(),
    ensures
        r.results().len() <= r.claimed().len(),
        forall|i: int|
            0 <= i < r.results().len() ==> (#[trigger] r.claimed()[i]).yields(r.results()[i]),
{
}

/// Two turns in a row that both deliver send their results in the order the
/// two commands were claimed.
pub proof fn lemma_two_turns_in_order<Cmd: Command>(
    a: &QueueRunner<Cmd>,
    b: &QueueRunner<Cmd>,
    c: &QueueRunner<Cmd>,
    c1: Cmd,
    c2: Cmd,
)
    requires
        a.turn(b, c1, WorkerStep::Served),
        b.turn(c, c2, WorkerStep::Served),
    ensures
        c.claimed() == a.claimed() + seq![c1, c2],
        c.results() == a.results() + seq![b.results().last(), c.results().last()],
        c1.yields(b.results().last()),
        c2.yields(c.results().last()),
        c.delivered() == a.delivered() + seq![true, true],
        c.sent() == a.sent() + seq![b.results().last(), c.results().last()],
{
    assert(c.sent() =~= a.sent() + seq![b.results().last(), c.results().last()]);
    assert(c.claimed() =~= a.claimed() + seq![c1, c2]);
    assert(c.results() =~= a.results() + seq![b.results().last(), c.results().last()]);
    assert(c.delivered() =~= a.delivered() + seq![true, true]);
}

/// A worker that claimed only ordinary commands and then a stop command has
/// produced a result for every ordinary command, and is done.
pub proof fn lemma_clean_stop<Cmd: Command>(r: &QueueRunner<Cmd>)
    requires
        r.wf(),
        r.stopped(),
    ensures
        r.results().len() == r.claimed().len() - 1,
        forall|i: int| 0 <= i < r.claimed().len() - 1 ==> !(#[trigger] r.claimed()[i]).is_stop(),
{
}

/// `next` is `prev` followed by `n` more entries, every one of them a stop
/// command.
pub open spec fn appends_stops<Cmd: Command>(prev: Seq<Cmd>, next: Seq<Cmd>, n: int) -> bool {
    &&& next.len() == prev.len() + n
    &&& next.subrange(0, prev.len() as int) == prev
    &&& forall|i: int| prev.len() <= i < next.len() ==> (#[trigger] next[i]).is_stop()
}

/// Why closing a queue runner failed: the stop command could not be sent
/// (it comes back in the error), or a worker ended abnormally (the payload of
/// its failure).
#[derive(Debug)]
#[verifier::reject_recursive_types(Cmd)]
pub enum QueueCloseError<Cmd, J> where Cmd: Command {
    Send(SendError<Cmd>),
    Join(J),
}

/// Sends `count` stop commands made by `stopper` to the workers behind
/// `queue`, one for each worker. Once one cannot be sent no worker is left, so
/// the rest are not tried, and the rejected stop command is returned.
pub fn request_stops<Cmd: Command, S: StopRunner<Cmd>, J>(
    queue: &mut CommandQueue<Cmd>,
    stopper: &S,
    count: usize,
) -> (r: Result<(), QueueCloseError<Cmd, J>>)
    ensures
        r is Ok ==> appends_stops(old(queue).sent(), final(queue).sent(), count as int),
        r is Err ==> appends_stops(
            old(queue).sent(),
            final(queue).sent(),
            final(queue).sent().len() - old(queue).sent().len(),
        ) && final(queue).sent().len() < old(queue).sent().len() + count,
        count == 0 ==> r is Ok,
        r matches Err(e) ==> e matches QueueCloseError::Send(se) && se.0.is_stop() && call_ensures(
            S::get,
            (stopper,),
            se.0,
        ),
{
    let ghost start = queue.sent();
    assert(start.subrange(0, start.len() as int) =~= start);
    let mut i: usize = 0;
    while i < count
        invariant
            i <= count,
            start == old(queue).sent(),
            appends_stops(start, queue.sent(), i as int),
        decreases count - i,
    {
        let stop = stopper.get();
        let ghost g = stop;
        let ghost before = queue.sent();
        match queue.push(stop) {
            Ok(()) => {
                assert(queue.sent().subrange(0, start.len() as int) =~= before.subrange(
                    0,
                    start.len() as int,
                ));
                assert(queue.sent()[before.len() as int] == g);
            },
            Err(e) => {
                assert(appends_stops(start, queue.sent(), i as int));
                return Err(QueueCloseError::Send(e));
            },
        }
        i = i + 1;
    }
    Ok(())
}

/// The outcome of closing a single-worker queue runner, from the outcome of
/// sending its stop command and of joining its thread afterwards (which is
/// done even when the send failed): the send failure first, else the
/// worker's final state, or the payload of its failure.
pub fn close_outcome<Cmd: Command, J>(
    sent: Result<(), QueueCloseError<Cmd, J>>,
    joined: Result<QueueRunner<Cmd>, J>,
) -> (r: Result<QueueRunner<Cmd>, QueueCloseError<Cmd, J>>)
    ensures
        sent matches Err(e) ==> r == Err::<QueueRunner<Cmd>, QueueCloseError<Cmd, J>>(e),
        sent is Ok ==> (joined matches Ok(s) ==> r == Ok::<
            QueueRunner<Cmd>,
            QueueCloseError<Cmd, J>,
        >(s)),
        sent is Ok ==> (joined matches Err(p) ==> r == Err::<
            QueueRunner<Cmd>,
            QueueCloseError<Cmd, J>,
        >(QueueCloseError::Join(p))),
{
    match sent {
        Err(e) => Err(e),
        Ok(()) => match joined {
            Ok(s) => Ok(s),
            Err(p) => Err(QueueCloseError::Join(p)),
        },
    }
}

} // verus!
