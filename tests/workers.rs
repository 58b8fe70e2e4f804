use std::sync::mpsc;
use std::sync::{Arc, Mutex};

use supera::channel::CommandQueue;
use supera::math::MathAction;
use supera::oneshot_runner::{self, OneShotCloseError, OneShotRunner, QueuedCommand};
use supera::queue::{self, QueueCloseError, QueueRunner};
use supera::{pool_close_outcome, ActionResult, Command, SimpleCloser, SimpleStop, WorkerStep};

type Inbox<T> = Arc<Mutex<mpsc::Receiver<T>>>;

fn queue_parts() -> (mpsc::Sender<MathAction>, Inbox<MathAction>, mpsc::Sender<i32>, mpsc::Receiver<i32>) {
    let (send_cmd, recv_cmd) = mpsc::channel();
    let (send_res, recv_res) = mpsc::channel();
    (send_cmd, Arc::new(Mutex::new(recv_cmd)), send_res, recv_res)
}

fn values_through_single_queue(count: usize) -> Vec<i32> {
    let (send_cmd, inbox, send_res, recv_res) = queue_parts();
    let mut worker = QueueRunner::new(inbox, send_res);
    for _ in 0..count {
        send_cmd.send(MathAction::Sub(2, 1)).unwrap();
    }
    for _ in 0..count {
        assert_eq!(worker.step(), WorkerStep::Served);
    }
    let mut outs = Vec::with_capacity(count);
    for _ in 0..count {
        outs.push(recv_res.recv().unwrap());
    }
    queue::request_stops::<_, _, ()>(&mut CommandQueue::new(send_cmd.clone()), &SimpleCloser, 1).unwrap();
    assert_eq!(worker.step(), WorkerStep::Stopped);
    assert!(matches!(recv_res.try_recv(), Err(mpsc::TryRecvError::Empty)));
    outs
}

fn values_through_queue_pool(count: usize, workers: usize, cmd: MathAction) -> Vec<i32> {
    let (send_cmd, inbox, send_res, recv_res) = queue_parts();
    let mut pool: Vec<QueueRunner<MathAction>> =
        (0..workers).map(|_| QueueRunner::new(inbox.clone(), send_res.clone())).collect();
    for _ in 0..count {
        send_cmd.send(cmd).unwrap();
    }
    for i in 0..count {
        assert_eq!(pool[i % workers].step(), WorkerStep::Served);
    }
    let mut outs = Vec::with_capacity(count);
    for _ in 0..count {
        outs.push(recv_res.recv().unwrap());
    }
    queue::request_stops::<_, _, ()>(&mut CommandQueue::new(send_cmd.clone()), &SimpleCloser, workers).unwrap();
    let mut joined: Vec<Result<QueueRunner<MathAction>, ()>> = Vec::new();
    for mut w in pool {
        assert_eq!(w.step(), WorkerStep::Stopped);
        joined.push(Ok(w));
    }
    let closed = pool_close_outcome::<_, _, ()>(Ok(()), joined).unwrap();
    assert_eq!(closed.len(), workers);
    for r in closed {
        assert!(r.is_ok());
    }
    outs
}

fn oneshot_values(count: usize, workers: usize) {
    let (send_cmd, recv_cmd) = mpsc::channel();
    let inbox = Arc::new(Mutex::new(recv_cmd));
    let mut pool: Vec<OneShotRunner<MathAction>> =
        (0..workers).map(|_| OneShotRunner::new(inbox.clone())).collect();
    for i in 0..count {
        let reply = QueuedCommand::submit(&send_cmd, MathAction::Sub(2, 1)).ok().unwrap();
        assert_eq!(pool[i % workers].step(), WorkerStep::Served);
        assert_eq!(reply.recv().unwrap(), 1);
    }
    let sent = oneshot_runner::request_stops::<_, _, ()>(
        &mut CommandQueue::new(send_cmd.clone()),
        &SimpleCloser,
        workers,
    );
    let mut joined: Vec<Result<OneShotRunner<MathAction>, ()>> = Vec::new();
    for mut w in pool {
        assert_eq!(w.step(), WorkerStep::Stopped);
        joined.push(Ok(w));
    }
    if workers == 1 {
        let w = joined.pop().unwrap();
        assert!(oneshot_runner::close_outcome(sent, w).is_ok());
    } else {
        let closed = pool_close_outcome(sent, joined).ok().unwrap();
        assert_eq!(closed.len(), workers);
        for r in closed {
            assert!(r.is_ok());
        }
    }
}

#[test]
fn test_single_values() {
    let outs = values_through_single_queue(500_000);
    assert_eq!(outs, vec![1; 500_000]);
}

#[test]
fn test_pool_values() {
    let outs = values_through_queue_pool(500_000, 2, MathAction::Sub(2, 1));
    assert_eq!(outs, vec![1; 500_000]);
}

#[test]
fn test_single_manual_close() {
    let (send_cmd, inbox, send_res, recv_res) = queue_parts();
    let mut worker = QueueRunner::new(inbox, send_res);
    send_cmd.send(MathAction::Sub(3, 2)).unwrap();
    assert_eq!(worker.step(), WorkerStep::Served);
    recv_res.recv().unwrap();
    queue::request_stops::<_, _, ()>(&mut CommandQueue::new(send_cmd.clone()), &SimpleCloser, 1).unwrap();
    assert_eq!(worker.step(), WorkerStep::Stopped);
    assert!(queue::close_outcome::<_, ()>(Ok(()), Ok(worker)).is_ok());
}

#[test]
fn test_pool_manual_close() {
    let outs = values_through_queue_pool(1, 3, MathAction::Sub(3, 2));
    assert_eq!(outs, vec![1]);
}

#[test]
fn test_oneshot_single_values() {
    oneshot_values(5_000, 1);
}

#[test]
fn test_oneshot_pool_values() {
    oneshot_values(50_000, 10);
}

#[test]
fn test_oneshot_single_manual_close() {
    oneshot_values(2_500, 1);
}

#[test]
fn test_oneshot_pool_manual_close() {
    oneshot_values(2_500, 3);
}

#[test]
fn nine_subtractions_come_back_in_order() {
    let outs = values_through_single_queue(9);
    assert_eq!(outs, vec![1, 1, 1, 1, 1, 1, 1, 1, 1]);
}

#[test]
fn distinct_results_keep_send_order() {
    let (send_cmd, inbox, send_res, recv_res) = queue_parts();
    let mut worker = QueueRunner::new(inbox, send_res);
    for i in 0..20 {
        send_cmd.send(MathAction::Sum(i, 100)).unwrap();
    }
    for _ in 0..20 {
        assert_eq!(worker.step(), WorkerStep::Served);
    }
    let outs: Vec<i32> = (0..20).map(|_| recv_res.recv().unwrap()).collect();
    assert_eq!(outs, (100..120).collect::<Vec<i32>>());
}

#[test]
fn pool_of_two_yields_every_result_once() {
    let outs = values_through_queue_pool(50_000, 2, MathAction::Sub(2, 1));
    assert_eq!(outs.len(), 50_000);
    assert!(outs.iter().all(|v| *v == 1));
}

#[test]
fn oneshot_replies_read_in_reverse_order() {
    let (send_cmd, recv_cmd) = mpsc::channel();
    let mut worker = OneShotRunner::new(Arc::new(Mutex::new(recv_cmd)));
    let replies: Vec<_> = (0..5)
        .map(|_| QueuedCommand::submit(&send_cmd, MathAction::Sub(2, 1)).ok().unwrap())
        .collect();
    for _ in 0..5 {
        assert_eq!(worker.step(), WorkerStep::Served);
    }
    for r in replies.into_iter().rev() {
        assert_eq!(r.recv().unwrap(), 1);
    }
}

#[test]
fn oneshot_each_reply_is_its_own() {
    let (send_cmd, recv_cmd) = mpsc::channel();
    let mut worker = OneShotRunner::new(Arc::new(Mutex::new(recv_cmd)));
    let replies: Vec<_> = (0..5)
        .map(|i| QueuedCommand::submit(&send_cmd, MathAction::Sub(10, i)).ok().unwrap())
        .collect();
    for _ in 0..5 {
        assert_eq!(worker.step(), WorkerStep::Served);
    }
    for (i, r) in replies.into_iter().enumerate().rev() {
        assert_eq!(r.recv().unwrap(), 10 - i as i32);
    }
}

#[test]
fn send_after_close_returns_the_command() {
    let (send_cmd, inbox, send_res, _recv_res) = queue_parts();
    let mut worker = QueueRunner::new(inbox, send_res);
    queue::request_stops::<_, _, ()>(&mut CommandQueue::new(send_cmd.clone()), &SimpleCloser, 1).unwrap();
    assert_eq!(worker.step(), WorkerStep::Stopped);
    drop(worker);
    match queue::request_stops::<_, _, ()>(&mut CommandQueue::new(send_cmd.clone()), &SimpleCloser, 1) {
        Err(QueueCloseError::Send(e)) => assert_eq!(e.0, MathAction::Stop),
        _ => panic!("the stop command should come back"),
    }
}

#[test]
fn oneshot_send_after_close_returns_the_command() {
    let (send_cmd, recv_cmd) = mpsc::channel::<QueuedCommand<MathAction>>();
    drop(recv_cmd);
    match QueuedCommand::submit(&send_cmd, MathAction::Sum(1, 2)) {
        Err(q) => assert_eq!(q.into_command(), MathAction::Sum(1, 2)),
        Ok(_) => panic!("no worker is left"),
    }
    match oneshot_runner::request_stops::<_, _, u8>(&mut CommandQueue::new(send_cmd.clone()), &SimpleCloser, 2) {
        Err(OneShotCloseError::SendError(q)) => assert_eq!(q.into_command(), MathAction::Stop),
        _ => panic!("the stop command should come back"),
    }
}

#[test]
fn worker_without_senders_is_disconnected() {
    let (send_cmd, inbox, send_res, _recv_res) = queue_parts();
    let mut worker = QueueRunner::new(inbox, send_res);
    drop(send_cmd);
    assert_eq!(worker.step(), WorkerStep::Disconnected);
    let (send_q, recv_q) = mpsc::channel::<QueuedCommand<MathAction>>();
    let mut oneshot_worker = OneShotRunner::new(Arc::new(Mutex::new(recv_q)));
    drop(send_q);
    assert_eq!(oneshot_worker.step(), WorkerStep::Disconnected);
}

#[test]
fn result_without_receiver_is_undeliverable() {
    let (send_cmd, inbox, send_res, recv_res) = queue_parts();
    let mut worker = QueueRunner::new(inbox, send_res);
    drop(recv_res);
    send_cmd.send(MathAction::Sub(5, 3)).unwrap();
    assert_eq!(worker.step(), WorkerStep::Undeliverable);

    let (send_q, recv_q) = mpsc::channel();
    let mut oneshot_worker = OneShotRunner::new(Arc::new(Mutex::new(recv_q)));
    let reply = QueuedCommand::submit(&send_q, MathAction::Sub(5, 3)).ok().unwrap();
    drop(reply);
    assert_eq!(oneshot_worker.step(), WorkerStep::Undeliverable);

    // Both workers go on with the next command.
    send_cmd.send(MathAction::Sum(1, 1)).unwrap();
    assert_eq!(worker.step(), WorkerStep::Undeliverable);
    send_cmd.send(MathAction::Stop).unwrap();
    assert_eq!(worker.step(), WorkerStep::Stopped);
    let reply = QueuedCommand::submit(&send_q, MathAction::Sum(1, 1)).ok().unwrap();
    assert_eq!(oneshot_worker.step(), WorkerStep::Served);
    assert_eq!(reply.recv().unwrap(), 2);
}

#[test]
fn failed_stop_send_comes_before_the_join() {
    let (send_cmd, recv_cmd) = mpsc::channel::<MathAction>();
    drop(recv_cmd);
    let sent = queue::request_stops::<_, _, &str>(&mut CommandQueue::new(send_cmd), &SimpleCloser, 1);
    match queue::close_outcome::<MathAction, &str>(sent, Err("boom")) {
        Err(QueueCloseError::Send(e)) => assert_eq!(e.0, MathAction::Stop),
        _ => panic!("the send failure should be reported"),
    }
}

#[test]
fn command_queue_logs_what_it_sent() {
    let (send_cmd, recv_cmd) = mpsc::channel::<MathAction>();
    let mut q = CommandQueue::new(send_cmd);
    q.push(MathAction::Sum(1, 2)).unwrap();
    assert_eq!(recv_cmd.recv().unwrap(), MathAction::Sum(1, 2));
    queue::request_stops::<_, _, ()>(&mut q, &SimpleCloser, 3).unwrap();
    for _ in 0..3 {
        assert_eq!(recv_cmd.recv().unwrap(), MathAction::Stop);
    }
    drop(recv_cmd);
    assert_eq!(q.push(MathAction::Sub(1, 2)).unwrap_err().0, MathAction::Sub(1, 2));
}

#[test]
fn queue_worker_sends_results_through_send() {
    let (_send_cmd, inbox, send_res, recv_res) = queue_parts();
    let mut worker = QueueRunner::new(inbox, send_res);
    worker.send(42).unwrap();
    assert_eq!(recv_res.recv().unwrap(), 42);
    drop(recv_res);
    let e = worker.send(7).unwrap_err();
    assert_eq!(e.0, 7);
}

#[test]
fn math_actions_compute() {
    assert!(matches!(MathAction::Sum(3, 5).execute(), ActionResult::Normal(8)));
    assert!(matches!(MathAction::Sub(2, 1).execute(), ActionResult::Normal(1)));
    assert!(matches!(MathAction::Sub(i32::MIN, 1).execute(), ActionResult::Normal(i32::MAX)));
    assert!(matches!(MathAction::Sum(i32::MAX, 1).execute(), ActionResult::Normal(i32::MIN)));
    assert!(matches!(MathAction::Stop.execute(), ActionResult::Stop));
    assert_eq!(MathAction::make_stop_command(), MathAction::Stop);
    assert!(matches!(QueueRunner::<MathAction>::exec(MathAction::Sub(7, 9)), ActionResult::Normal(-2)));
    assert!(matches!(OneShotRunner::<MathAction>::exec(MathAction::Stop), ActionResult::Stop));
}

#[test]
fn join_failures_are_surfaced() {
    match queue::close_outcome::<MathAction, &str>(Ok(()), Err("boom")) {
        Err(QueueCloseError::Join(p)) => assert_eq!(p, "boom"),
        _ => panic!("the failure should be surfaced"),
    }
    match oneshot_runner::close_outcome::<MathAction, &str>(Ok(()), Err("boom")) {
        Err(OneShotCloseError::JoinError(p)) => assert_eq!(p, "boom"),
        _ => panic!("the failure should be surfaced"),
    }
}

#[test]
fn pool_close_reports_send_failure_first() {
    let joined: Vec<Result<u8, &str>> = vec![Ok(1), Err("boom")];
    assert_eq!(pool_close_outcome(Err("gone"), joined.clone()), Err("gone"));
    assert_eq!(pool_close_outcome::<u8, &str, &str>(Ok(()), joined.clone()), Ok(joined));
}

#[test]
fn queued_command_keeps_its_command() {
    let (q, _reply) = QueuedCommand::new(MathAction::Sum(4, 4));
    assert_eq!(q.into_command(), MathAction::Sum(4, 4));
}
