//! A command-runner framework: commands are defined once, independently of the
//! worker that executes them. The worker side of each backend (claiming a command,
//! executing it and routing its result) and the shutdown bookkeeping are verified
//! here; spawning and joining threads is left to the caller.
use vstd::prelude::*;

pub mod channel;
pub mod math;
pub mod oneshot_runner;
pub mod queue;

verus! {

/// What executing a command produced: a result for the caller, or the signal
/// that stops the worker. `Stop` is never handed to a caller.
#[derive(Debug)]
pub enum ActionResult<R> {
    Normal(R),
    Stop,
}

/// What one turn of a worker's loop came to.
#[derive(Debug, Clone, Copy, PartialEq, Eq, Structural)]
pub enum WorkerStep {
    /// A command was executed and its result delivered; the worker goes on.
    Served,
    /// The stop command was claimed; the worker leaves its loop.
    Stopped,
    /// Every sender of commands is gone: nothing can be claimed any more.
    Disconnected,
    /// A command was executed but nobody is left to take its result.
    Undeliverable,
}

/// A unit of work that a runner can move to a worker thread and execute once.
pub trait Command: Sized + Send + Sync + 'static {
    type Result: Send;

    /// Whether executing this command yields the stop signal.
    spec fn is_stop(&self) -> bool;

    /// Whether `r` is a result that executing this command may produce.
    spec fn yields(&self, r: Self::Result) -> bool;

    /// Runs the command, consuming it.
    fn execute(self) -> (r: ActionResult<Self::Result>)
        ensures
            (r is Stop) == self.is_stop(),
            r matches ActionResult::Normal(v) ==> self.yields(v),
    ;
}

/// The result type of a command.
pub type CmdRst<C> = <C as Command>::Result;

/// Creates a command that halts the command runner.
pub trait StopRunner<C: Command> {
    fn get(&self) -> (c: C)
        ensures
            c.is_stop(),
    ;
}

/// A command type that can produce its own stop command.
pub trait SimpleStop: Command {
    fn make_stop_command() -> (c: Self)
        ensures
            c.is_stop(),
    ;
}

/// The stopper used by runners whose command type stops itself.
pub struct SimpleCloser;

impl<C: SimpleStop> StopRunner<C> for SimpleCloser {
    /// The command type's own stop command.
    fn get(&self) -> (c: C)
        ensures
            call_ensures(C::make_stop_command, (), c),
    {
        C::make_stop_command()
    }
}

/// The lifecycle that every backend offers: create, send, close, and the
/// scoped form that closes on the caller's behalf.
pub trait CommandRunner: Sized {
    /// The command it accepts.
    type Cmd: Command;
    /// What sending a command to the runner returns.
    type SendAck;
    /// What halting the runner returns.
    type CloseResult;

    fn new() -> Self;

    fn send(&self, cmd: Self::Cmd) -> Self::SendAck;

    fn close_with<S: StopRunner<Self::Cmd>>(self, s: S) -> Self::CloseResult;

    /// Closes with the command type's own stop command.
    fn close(self) -> (r: Self::CloseResult) where Self::Cmd: SimpleStop
        ensures
            call_ensures(Self::close_with::<SimpleCloser>, (self, SimpleCloser), r),
    {
        self.close_with(SimpleCloser)
    }

    /// Runs `f` on a fresh runner, then closes it with `closer`.
    fn scope_with<S: StopRunner<Self::Cmd>, F: Fn(&Self)>(closer: S, f: F) -> (r:
        Self::CloseResult)
        requires
            forall|r: &Self| f.requires((r,)),
        ensures
            exists|runner: Self|
                {
                    &&& call_ensures(Self::new, (), runner)
                    &&& f.ensures((&runner,), ())
                    &&& call_ensures(Self::close_with::<S>, (runner, closer), r)
                },
    {
        let runner = Self::new();
        f(&runner);
        runner.close_with(closer)
    }

    /// Runs `f` on a fresh runner, then closes it with the command type's own
    /// stop command.
    fn scope<F: Fn(&Self)>(f: F) -> (r: Self::CloseResult) where Self::Cmd: SimpleStop
        requires
            forall|r: &Self| f.requires((r,)),
        ensures
            exists|runner: Self|
                {
                    &&& call_ensures(Self::new, (), runner)
                    &&& f.ensures((&runner,), ())
                    &&& call_ensures(Self::close_with::<SimpleCloser>, (runner, SimpleCloser), r)
                },
    {
        let runner = Self::new();
        f(&runner);
        runner.close_with(SimpleCloser)
    }
}

/// The outcome of closing a pool: the first stop command that could not be
/// delivered, if any, or else the outcome of joining each worker, in pool
/// order.
pub fn pool_close_outcome<S, J, E>(sent: Result<(), E>, joined: Vec<Result<S, J>>) -> (r: Result<
    Vec<Result<S, J>>,
    E,
>)
    ensures
        sent is Ok ==> r == Ok::<Vec<Result<S, J>>, E>(joined),
        sent matches Err(e) ==> r == Err::<Vec<Result<S, J>>, E>(e),
{
    match sent {
        Ok(()) => Ok(joined),
        Err(e) => Err(e),
    }
}

} // verus!
