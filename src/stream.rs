//! Opening and accepting logical streams through the owner of a channel.
use vstd::prelude::*;
use crate::errors::{AcceptStreamError, OpenStreamError};
use crate::mux::{ConnOp, MuxCore, Reply};
use crate::reqres::{PendingRequest, Progress, ReqRes, RequestError, poll_model};

verus! {

/// An open or accept result read off a request's result: a stream id, or the
/// error `e`.
pub open spec fn stream_result<E>(p: Progress<Result<Reply, RequestError>>, e: E) -> Progress<
    Result<u64, E>,
> {
    match p {
        Progress::Pending => Progress::Pending,
        Progress::Ready(Ok(Reply::Stream(id))) => Progress::Ready(Ok(id)),
        Progress::Ready(_) => Progress::Ready(Err(e)),
    }
}

fn to_stream_result<E>(p: Progress<Result<Reply, RequestError>>, e: E) -> (r: Progress<
    Result<u64, E>,
>)
    ensures
        r == stream_result(p, e),
{
    match p {
        Progress::Pending => Progress::Pending,
        Progress::Ready(Ok(Reply::Stream(id))) => Progress::Ready(Ok(id)),
        Progress::Ready(_) => Progress::Ready(Err(e)),
    }
}

/// A pending request to open an outbound logical stream.
pub struct OpenStream {
    state: ReqRes,
}

impl OpenStream {
    pub closed spec fn state(&self) -> ReqRes {
        self.state
    }

    pub fn new() -> (r: OpenStream)
        ensures
            r.state() == ReqRes::WaitSend,
    {
        OpenStream { state: ReqRes::WaitSend }
    }

    /// Activates the request once; completes with the new stream's id or an
    /// error.
    pub fn poll(&mut self, core: &mut MuxCore) -> (r: Progress<Result<u64, OpenStreamError>>)
        requires
            old(core).wf(),
            old(self).state() != ReqRes::Finished,
        ensures
            final(core).wf(),
            ({
                let (st, m, p) = poll_model(old(self).state(), ConnOp::OpenStream, 0, old(core)@);
                &&& final(self).state() == st
                &&& final(core)@ == m
                &&& r == stream_result(p, OpenStreamError)
            }),
    {
        let mut req = PendingRequest::new(ConnOp::OpenStream, 0);
        req.state = self.state;
        let p = req.poll(core);
        self.state = req.state;
        to_stream_result(p, OpenStreamError)
    }
}

/// A pending request to accept the next inbound logical stream.
pub struct AcceptStream {
    state: ReqRes,
}

impl AcceptStream {
    pub closed spec fn state(&self) -> ReqRes {
        self.state
    }

    pub fn new() -> (r: AcceptStream)
        ensures
            r.state() == ReqRes::WaitSend,
    {
        AcceptStream { state: ReqRes::WaitSend }
    }

    /// Activates the request once; completes with the accepted stream's id or
    /// an error.
    pub fn poll(&mut self, core: &mut MuxCore) -> (r: Progress<Result<u64, AcceptStreamError>>)
        requires
            old(core).wf(),
            old(self).state() != ReqRes::Finished,
        ensures
            final(core).wf(),
            ({
                let (st, m, p) = poll_model(
                    old(self).state(),
                    ConnOp::AcceptStream,
                    0,
                    old(core)@,
                );
                &&& final(self).state() == st
                &&& final(core)@ == m
                &&& r == stream_result(p, AcceptStreamError)
            }),
    {
        let mut req = PendingRequest::new(ConnOp::AcceptStream, 0);
        req.state = self.state;
        let p = req.poll(core);
        self.state = req.state;
        to_stream_result(p, AcceptStreamError)
    }
}

} // verus!
