use runng::asyncio::pull::{read_callback, ReadAction};
use runng::asyncio::pull_stream::{PullState, PullStreamContext, StreamAction};
use runng::asyncio::push::{PushAction, PushContext, PushState};
use runng::asyncio::queue::WorkQueue;
use runng::asyncio::reply::{ReplyAction, ReplyContext, ReplyState};
use runng::asyncio::request::{RequestAction, RequestContext, RequestState};
use runng::asyncio::simple::{AioQueue, AioWorkQueue, QueueStep, SimpleAioWorkQueue};
use runng::result::{Error as RunngError, NngErrno};
use runng::sys::{NNG_ECANCELED, NNG_ECLOSED, NNG_ETIMEDOUT};

#[test]
fn request_success_delivers_reply_once() {
    let mut c: RequestContext<&str> = RequestContext::new();
    assert_eq!(c.state(), RequestState::Ready);
    assert!(matches!(c.send("s"), RequestAction::StartSend));
    assert_eq!(c.state(), RequestState::Sending);
    assert!(matches!(c.callback(0), RequestAction::StartRecv));
    assert_eq!(c.state(), RequestState::Receiving);
    assert!(matches!(c.callback(0), RequestAction::Replied { sender: "s" }));
    assert_eq!(c.state(), RequestState::Ready);
}

#[test]
fn request_send_failure_delivers_error() {
    let mut c: RequestContext<u8> = RequestContext::new();
    c.send(1);
    match c.callback(NNG_ECLOSED) {
        RequestAction::SendFailed { sender, error } => {
            assert_eq!(sender, 1);
            assert_eq!(error, RunngError::Errno(NngErrno::ECLOSED));
        }
        other => panic!("unexpected {:?}", other),
    }
    assert_eq!(c.state(), RequestState::Ready);
}

#[test]
fn request_receive_failure_delivers_error() {
    let mut c: RequestContext<u8> = RequestContext::new();
    c.send(2);
    c.callback(0);
    match c.callback(NNG_ETIMEDOUT) {
        RequestAction::RecvFailed { sender, error } => {
            assert_eq!(sender, 2);
            assert_eq!(error, RunngError::Errno(NngErrno::ETIMEDOUT));
        }
        other => panic!("unexpected {:?}", other),
    }
    assert_eq!(c.state(), RequestState::Ready);
}

#[test]
fn reply_cycle() {
    let mut c: ReplyContext<u8> = ReplyContext::new();
    assert_eq!(c.state(), ReplyState::Idle);
    assert!(matches!(c.receive(), ReplyAction::StartRecv));
    assert_eq!(c.state(), ReplyState::Receiving);
    assert!(matches!(c.callback(0), ReplyAction::Received));
    assert_eq!(c.state(), ReplyState::Wait);
    assert!(matches!(c.reply(5), ReplyAction::StartSend));
    assert_eq!(c.state(), ReplyState::Sending);
    match c.callback(0) {
        ReplyAction::Replied { sender, result } => {
            assert_eq!(sender, 5);
            assert_eq!(result, Ok(()));
        }
        other => panic!("unexpected {:?}", other),
    }
    assert_eq!(c.state(), ReplyState::Receiving);
}

#[test]
fn reply_failure_still_receives_again() {
    let mut c: ReplyContext<u8> = ReplyContext::new();
    c.receive();
    c.callback(0);
    c.reply(6);
    match c.callback(NNG_ETIMEDOUT) {
        ReplyAction::Replied { sender, result } => {
            assert_eq!(sender, 6);
            assert_eq!(result, Err(RunngError::Errno(NngErrno::ETIMEDOUT)));
        }
        other => panic!("unexpected {:?}", other),
    }
    assert_eq!(c.state(), ReplyState::Receiving);
}

#[test]
fn reply_accepts_completions() {
    let mut c: ReplyContext<u8> = ReplyContext::new();
    assert!(!c.accepts(0));
    c.receive();
    assert!(c.accepts(0));
    assert!(c.accepts(NNG_ECLOSED));
    assert!(c.accepts(NNG_ECANCELED));
    assert!(!c.accepts(NNG_ETIMEDOUT));
    c.callback(0);
    assert!(!c.accepts(0));
    c.reply(1);
    assert!(c.accepts(NNG_ETIMEDOUT));
    assert!(c.accepts(0));
}

#[test]
fn reply_receive_closed_stops() {
    let mut c: ReplyContext<u8> = ReplyContext::new();
    c.receive();
    match c.callback(NNG_ECANCELED) {
        ReplyAction::ReceiveStopped { error } => {
            assert_eq!(error, RunngError::Errno(NngErrno::ECANCELED))
        }
        other => panic!("unexpected {:?}", other),
    }
    assert_eq!(c.state(), ReplyState::Receiving);
}

#[test]
fn push_cycle() {
    let mut c: PushContext<u8> = PushContext::new();
    assert!(matches!(c.send(3), PushAction::StartSend));
    assert_eq!(c.state(), PushState::Sending);
    match c.callback(NNG_ECLOSED) {
        PushAction::Sent { sender, result } => {
            assert_eq!(sender, 3);
            assert_eq!(result, Err(RunngError::Errno(NngErrno::ECLOSED)));
        }
        other => panic!("unexpected {:?}", other),
    }
    assert_eq!(c.state(), PushState::Ready);
    c.send(4);
    assert!(matches!(c.callback(0), PushAction::Sent { sender: 4, result: Ok(()) }));
}

#[test]
fn read_callback_decisions() {
    assert_eq!(read_callback(0), ReadAction::QueueMessageThenRestart);
    assert_eq!(
        read_callback(NNG_ECLOSED),
        ReadAction::Stop { error: RunngError::Errno(NngErrno::ECLOSED) }
    );
    assert_eq!(
        read_callback(NNG_ECANCELED),
        ReadAction::Stop { error: RunngError::Errno(NngErrno::ECANCELED) }
    );
    assert_eq!(
        read_callback(NNG_ETIMEDOUT),
        ReadAction::RestartThenQueueError { error: RunngError::Errno(NngErrno::ETIMEDOUT) }
    );
}

#[test]
fn pull_stream_hands_receiver_once() {
    let mut s = PullStreamContext::new("rx");
    assert_eq!(s.state(), PullState::Ready);
    assert_eq!(s.receive(), Some("rx"));
    assert_eq!(s.state(), PullState::Receiving);
    assert_eq!(s.receive(), None);
    assert_eq!(s.callback(0), StreamAction::RestartThenSignalMessage);
    assert_eq!(
        s.callback(NNG_ETIMEDOUT),
        StreamAction::RestartThenSignalError { error: RunngError::Errno(NngErrno::ETIMEDOUT) }
    );
    assert_eq!(
        s.callback(NNG_ECLOSED),
        StreamAction::Stop { error: RunngError::Errno(NngErrno::ECLOSED) }
    );
}

#[test]
fn work_queue_fifo() {
    let mut q: WorkQueue<&str, u32> = WorkQueue::new();
    assert_eq!(q.push_back(1), None);
    assert_eq!(q.push_back(2), None);
    assert!(q.has_ready());
    assert_eq!(q.pop_front("w1"), Some(1));
    assert_eq!(q.pop_front("w2"), Some(2));
    assert!(!q.has_ready());
    assert_eq!(q.pop_front("w3"), None);
    assert_eq!(q.pop_front("w4"), None);
    assert_eq!(q.waiting_len(), 2);
    assert_eq!(q.push_back(3), Some(("w3", 3)));
    assert_eq!(q.push_back(4), Some(("w4", 4)));
    assert_eq!(q.waiting_len(), 0);
    assert_eq!(q.push_back(5), None);
}

#[test]
fn aio_queue_runs_in_order() {
    let mut q: AioQueue<&str> = AioQueue::new();
    assert!(matches!(q.callback(), QueueStep::Unexpected));
    assert!(q.push_back("a"));
    assert!(!q.push_back("b"));
    assert_eq!(q.front(), Some(&"a"));
    assert!(matches!(q.callback(), QueueStep::Finished { done: "a", begin_next: true }));
    assert_eq!(q.front(), Some(&"b"));
    assert!(matches!(q.callback(), QueueStep::Finished { done: "b", begin_next: false }));
    assert_eq!(q.front(), None);
    assert!(q.push_back("c"));
}

#[test]
fn simple_work_queue() {
    let mut q: SimpleAioWorkQueue<u8> = SimpleAioWorkQueue::new();
    assert!(AioWorkQueue::push_back(&mut q, 1));
    assert!(!AioWorkQueue::push_back(&mut q, 2));
    assert_eq!(q.front(), Some(&1));
    assert!(matches!(q.callback(), QueueStep::Finished { done: 1, begin_next: true }));
    assert!(matches!(q.callback(), QueueStep::Finished { done: 2, begin_next: false }));
    assert!(matches!(q.callback(), QueueStep::Unexpected));
}

#[test]
fn work_queue_interleaved_readers_and_messages() {
    let mut q: WorkQueue<u32, char> = WorkQueue::new();
    let mut delivered: Vec<(u32, char)> = Vec::new();
    assert_eq!(q.push_back('a'), None);
    assert_eq!(q.pop_front(0), Some('a'));
    delivered.push((0, 'a'));
    assert_eq!(q.pop_front(1), None);
    assert_eq!(q.pop_front(2), None);
    assert_eq!(q.waiting_len(), 2);
    if let Some(d) = q.push_back('b') {
        delivered.push(d);
    }
    assert_eq!(q.push_back('c'), Some((2, 'c')));
    delivered.push((2, 'c'));
    assert_eq!(q.push_back('d'), None);
    assert_eq!(q.pop_front(3), Some('d'));
    delivered.push((3, 'd'));
    assert_eq!(delivered, vec![(0, 'a'), (1, 'b'), (2, 'c'), (3, 'd')]);
    assert!(!q.has_ready());
    assert_eq!(q.waiting_len(), 0);
}
