use p2p_core::mux::{
    CloseOutcome, ConnOp, MuxCore, OwnerStatus, PhysOutcome, Reply, Request, Slot, StreamRec,
    SubmitEvent,
};
use p2p_core::Direction;
use p2p_core::reqres::{PendingRequest, Progress, ReqRes, RequestError};
use p2p_core::stream::{AcceptStream, OpenStream};
use p2p_core::listen::ListenStream;
use p2p_core::errors::{AcceptStreamError, OpenStreamError};

#[test]
fn submit_queues_in_order_and_reports_full() {
    let mut core = MuxCore::new(2);
    assert_eq!(core.submit(ConnOp::OpenStream, 0), SubmitEvent::Accepted(0));
    assert_eq!(core.submit(ConnOp::AcceptStream, 0), SubmitEvent::Accepted(1));
    assert_eq!(core.submit(ConnOp::OpenStream, 0), SubmitEvent::Full);
    assert_eq!(core.queued(), 2);
    assert_eq!(core.front(), Some(Request { op: ConnOp::OpenStream, target: 0, slot: 0 }));
    core.service(PhysOutcome::Done);
    assert_eq!(core.reply(0), Slot::Filled(Reply::Stream(0)));
    assert_eq!(core.reply(1), Slot::Waiting);
    assert_eq!(core.queued(), 1);
}

#[test]
fn concurrent_opens_get_distinct_ids_in_queue_order() {
    let mut core = MuxCore::new(8);
    let mut reqs: Vec<OpenStream> = Vec::new();
    for _ in 0..5 {
        let mut r = OpenStream::new();
        assert!(matches!(r.poll(&mut core), Progress::Pending));
        reqs.push(r);
    }
    for _ in 0..5 {
        core.service(PhysOutcome::Done);
    }
    let mut ids = Vec::new();
    for r in reqs.iter_mut() {
        match r.poll(&mut core) {
            Progress::Ready(Ok(id)) => ids.push(id),
            _ => panic!("open did not complete"),
        }
    }
    assert_eq!(ids, vec![0, 1, 2, 3, 4]);
}

#[test]
fn rejected_after_close_and_close_is_idempotent() {
    let mut core = MuxCore::new(4);
    assert_eq!(core.close(), CloseOutcome::Closed);
    assert_eq!(core.status(), OwnerStatus::Closed);
    assert_eq!(core.close(), CloseOutcome::AlreadyClosed);
    assert_eq!(core.status(), OwnerStatus::Closed);
    assert_eq!(core.submit(ConnOp::OpenStream, 0), SubmitEvent::Rejected);
    let mut open = OpenStream::new();
    assert_eq!(open.poll(&mut core), Progress::Ready(Err(OpenStreamError)));
}

#[test]
fn close_fails_pending_requests() {
    let mut core = MuxCore::new(4);
    let mut open = OpenStream::new();
    assert_eq!(open.poll(&mut core), Progress::Pending);
    assert_eq!(core.close(), CloseOutcome::Closed);
    assert_eq!(open.poll(&mut core), Progress::Ready(Err(OpenStreamError)));
}

#[test]
fn fatal_error_fails_every_pending_request() {
    let mut core = MuxCore::new(4);
    let mut a = OpenStream::new();
    let mut b = AcceptStream::new();
    let mut c = OpenStream::new();
    assert_eq!(a.poll(&mut core), Progress::Pending);
    assert_eq!(b.poll(&mut core), Progress::Pending);
    assert_eq!(c.poll(&mut core), Progress::Pending);
    core.service(PhysOutcome::Fatal);
    assert_eq!(core.status(), OwnerStatus::Failed);
    assert_eq!(core.queued(), 0);
    assert_eq!(a.poll(&mut core), Progress::Ready(Err(OpenStreamError)));
    assert_eq!(b.poll(&mut core), Progress::Ready(Err(AcceptStreamError)));
    assert_eq!(c.poll(&mut core), Progress::Ready(Err(OpenStreamError)));
    assert_eq!(core.submit(ConnOp::AcceptStream, 0), SubmitEvent::Rejected);
}

#[test]
fn failed_open_reports_error_once() {
    let mut core = MuxCore::new(4);
    let mut a = OpenStream::new();
    assert_eq!(a.poll(&mut core), Progress::Pending);
    core.service(PhysOutcome::Failed);
    assert_eq!(a.poll(&mut core), Progress::Ready(Err(OpenStreamError)));
    assert_eq!(core.status(), OwnerStatus::Running);
}

#[test]
fn dropping_a_request_leaves_others_alone() {
    let mut core = MuxCore::new(4);
    let mut a = PendingRequest::new(ConnOp::OpenStream, 0);
    let mut b = PendingRequest::new(ConnOp::OpenStream, 0);
    assert_eq!(a.poll(&mut core), Progress::Pending);
    assert_eq!(b.poll(&mut core), Progress::Pending);
    assert_eq!(a.state, ReqRes::WaitRecv(0));
    a.cancel(&mut core);
    assert_eq!(core.reply(0), Slot::Dropped);
    core.service(PhysOutcome::Done);
    core.service(PhysOutcome::Done);
    assert_eq!(core.reply(0), Slot::Dropped);
    assert_eq!(b.poll(&mut core), Progress::Ready(Ok(Reply::Stream(1))));
    assert_eq!(b.state, ReqRes::Finished);
}

#[test]
fn reply_slot_released_without_value_is_an_error() {
    let mut core = MuxCore::new(4);
    let mut a = PendingRequest::new(ConnOp::OpenStream, 0);
    assert_eq!(a.poll(&mut core), Progress::Pending);
    core.cancel(0);
    assert_eq!(a.poll(&mut core), Progress::Ready(Err(RequestError::Abandoned)));
}

#[test]
fn full_queue_keeps_request_waiting_to_send() {
    let mut core = MuxCore::new(1);
    let mut a = PendingRequest::new(ConnOp::OpenStream, 0);
    let mut b = PendingRequest::new(ConnOp::OpenStream, 0);
    assert_eq!(a.poll(&mut core), Progress::Pending);
    assert_eq!(b.poll(&mut core), Progress::Pending);
    assert_eq!(b.state, ReqRes::WaitSend);
    core.service(PhysOutcome::Done);
    assert_eq!(b.poll(&mut core), Progress::Pending);
    assert_eq!(b.state, ReqRes::WaitRecv(1));
    core.service(PhysOutcome::Done);
    assert_eq!(b.poll(&mut core), Progress::Ready(Ok(Reply::Stream(1))));
}

#[test]
fn submission_accepted_reads_reply_in_same_activation() {
    assert_eq!(ReqRes::after_submit(SubmitEvent::Accepted(3)), ReqRes::WaitRecv(3));
    assert_eq!(ReqRes::after_submit(SubmitEvent::Full), ReqRes::WaitSend);
    assert_eq!(ReqRes::after_submit(SubmitEvent::Rejected), ReqRes::Finished);
    let (st, p) = ReqRes::after_reply(3, Slot::Filled(Reply::Failed));
    assert_eq!(st, ReqRes::Finished);
    assert_eq!(p, Progress::Ready(Err(RequestError::Failed)));
    let (st, p) = ReqRes::after_reply(3, Slot::Waiting);
    assert_eq!(st, ReqRes::WaitRecv(3));
    assert_eq!(p, Progress::Pending);
}

#[test]
fn close_operations_answer_done_for_live_streams() {
    let mut core = MuxCore::new(4);
    let mut open = OpenStream::new();
    assert_eq!(open.poll(&mut core), Progress::Pending);
    core.service(PhysOutcome::Done);
    assert_eq!(open.poll(&mut core), Progress::Ready(Ok(0)));
    let mut close = PendingRequest::new(ConnOp::CloseWriteStream, 0);
    assert_eq!(close.poll(&mut core), Progress::Pending);
    core.service(PhysOutcome::Done);
    assert_eq!(close.poll(&mut core), Progress::Ready(Ok(Reply::Done)));
    let mut missing = PendingRequest::new(ConnOp::CloseStream, 7);
    assert_eq!(missing.poll(&mut core), Progress::Pending);
    core.service(PhysOutcome::Done);
    assert_eq!(missing.poll(&mut core), Progress::Ready(Err(RequestError::Failed)));
}

#[test]
fn accept_waits_for_remote_stream() {
    let mut core = MuxCore::new(4);
    let mut acc = AcceptStream::new();
    assert_eq!(acc.poll(&mut core), Progress::Pending);
    core.service(PhysOutcome::Done);
    assert_eq!(acc.poll(&mut core), Progress::Pending);
    assert_eq!(core.remote_open(), Some(0));
    assert_eq!(acc.poll(&mut core), Progress::Ready(Ok(0)));
}

#[test]
fn listen_yields_remote_streams_in_order_then_ends() {
    let mut core = MuxCore::new(4);
    assert_eq!(core.remote_open(), Some(0));
    assert_eq!(core.remote_open(), Some(1));
    assert_eq!(core.remote_open(), Some(2));
    let mut listen = ListenStream::new();
    let mut seen = Vec::new();
    for _ in 0..3 {
        assert_eq!(listen.poll_next(&mut core), Progress::Pending);
        core.service(PhysOutcome::Done);
        match listen.poll_next(&mut core) {
            Progress::Ready(Some(id)) => seen.push(id),
            _ => panic!("expected an inbound stream"),
        }
    }
    assert_eq!(seen, vec![0, 1, 2]);
    assert_eq!(listen.poll_next(&mut core), Progress::Pending);
    assert_eq!(core.close(), CloseOutcome::Closed);
    assert_eq!(listen.poll_next(&mut core), Progress::Ready(None));
    assert_eq!(listen.poll_next(&mut core), Progress::Ready(None));
}

#[test]
fn streams_record_direction_and_open_halves() {
    let mut core = MuxCore::new(4);
    let mut open = OpenStream::new();
    assert_eq!(open.poll(&mut core), Progress::Pending);
    core.service(PhysOutcome::Done);
    assert_eq!(open.poll(&mut core), Progress::Ready(Ok(0)));
    core.set_clock(50);
    assert_eq!(core.remote_open(), Some(1));
    assert_eq!(
        core.stream(0),
        Some(StreamRec { id: 0, direction: Direction::OUT, opened: 0, readable: true, writable: true })
    );
    assert_eq!(
        core.stream(1),
        Some(StreamRec { id: 1, direction: Direction::IN, opened: 50, readable: true, writable: true })
    );
    let mut half = PendingRequest::new(ConnOp::CloseReadStream, 1);
    assert_eq!(half.poll(&mut core), Progress::Pending);
    core.service(PhysOutcome::Done);
    assert_eq!(half.poll(&mut core), Progress::Ready(Ok(Reply::Done)));
    assert_eq!(
        core.stream(1),
        Some(StreamRec { id: 1, direction: Direction::IN, opened: 50, readable: false, writable: true })
    );
    assert_eq!(core.stream(9), None);
}

#[test]
fn fatal_error_outside_a_request_fails_parked_accepts() {
    let mut core = MuxCore::new(4);
    let mut acc = AcceptStream::new();
    assert_eq!(acc.poll(&mut core), Progress::Pending);
    core.service(PhysOutcome::Done);
    assert_eq!(acc.poll(&mut core), Progress::Pending);
    core.fail();
    assert_eq!(core.status(), OwnerStatus::Failed);
    assert_eq!(acc.poll(&mut core), Progress::Ready(Err(AcceptStreamError)));
    let mut listen = ListenStream::new();
    assert_eq!(listen.poll_next(&mut core), Progress::Ready(None));
}

#[test]
fn stream_reads_and_writes_go_through_the_owner() {
    let mut core = MuxCore::new(4);
    assert_eq!(core.remote_open(), Some(0));
    assert_eq!(core.write(0, b"ab"), Ok(2));
    assert_eq!(core.write(0, b"c"), Ok(1));
    assert_eq!(core.write(9, b"x"), Err(p2p_core::errors::WriteError));
    assert_eq!(core.next_frame(), Some((0, b"ab".to_vec())));
    assert_eq!(core.next_frame(), Some((0, b"c".to_vec())));
    assert_eq!(core.next_frame(), None);
    assert!(core.receive(0, b"xy"));
    assert!(core.receive(0, b"z"));
    assert!(!core.receive(3, b"q"));
    assert_eq!(core.read(0, 2), Ok(b"xy".to_vec()));
    assert_eq!(core.read(0, 5), Ok(b"z".to_vec()));
    assert_eq!(core.read(0, 5), Ok(Vec::new()));
    let mut close = PendingRequest::new(ConnOp::CloseStream, 0);
    assert_eq!(close.poll(&mut core), Progress::Pending);
    core.service(PhysOutcome::Done);
    assert_eq!(close.poll(&mut core), Progress::Ready(Ok(Reply::Done)));
    assert_eq!(core.read(0, 5), Err(p2p_core::errors::ReadError));
    assert_eq!(core.write(0, b"late"), Err(p2p_core::errors::WriteError));
    assert_eq!(core.close(), CloseOutcome::Closed);
    assert!(!core.receive(0, b"gone"));
}
