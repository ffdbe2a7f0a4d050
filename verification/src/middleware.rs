//! The interceptor: a wrapper around the next pipeline stage that, on every
//! call, generates a fresh identifier, attaches it to the request, and
//! delegates — forwarding the stage's readiness signal and response unchanged.

use vstd::prelude::*;

use crate::generator::{generate, valid_request_id};
use crate::request::{attach_request_id, spec_attach, Request, RequestID, RequestView};

verus! {

/// The readiness signal of a pipeline stage: whether it can accept work now.
#[derive(Clone, Copy, Debug, PartialEq, Eq, Structural)]
pub enum Readiness {
    Ready,
    Pending,
}

/// A response, as far as this library observes it: a status code and a body.
pub struct Response {
    pub status: u16,
    pub body: String,
}

/// The mathematical content of a response.
#[verifier::ext_equal]
pub ghost struct ResponseView {
    pub status: u16,
    pub body: Seq<char>,
}

impl View for Response {
    type V = ResponseView;

    open spec fn view(&self) -> ResponseView {
        ResponseView { status: self.status, body: self.body@ }
    }
}

/// The next stage of the pipeline, as the interceptor sees it: it reports
/// readiness and turns a request into a response, both as functions of its
/// own state and of the request's observable content.
pub trait Handler: Sized {
    /// The readiness the stage reports in its current state.
    spec fn ready_spec(&self) -> Readiness;

    /// The response the stage returns, in its current state, for a request
    /// with the given observable content.
    spec fn response_spec(&self, req: RequestView) -> ResponseView;

    /// Report whether the stage can accept work. Polling is read-only: it
    /// does not change the stage's observable behaviour.
    fn poll_ready(&mut self) -> (r: Readiness)
        ensures
            r == old(self).ready_spec(),
            *final(self) == *old(self),
    ;

    /// Handle one request.
    fn handle(&mut self, req: Request) -> (resp: Response)
        ensures
            resp@ == old(self).response_spec(req@),
    ;
}

/// Request ID wrapper: the factory the host pipeline registers; it adapts the
/// next stage by wrapping it in the interceptor. Always succeeds.
pub struct RequestIDWrapper;

impl RequestIDWrapper {
    /// Wrap the next stage; the stage itself is taken over unchanged.
    pub fn new_transform<S: Handler>(&self, service: S) -> (m: RequestIDMiddleware<S>)
        ensures
            m.service == service,
    {
        RequestIDMiddleware { service }
    }
}

/// The interceptor around an inner stage `S`.
pub struct RequestIDMiddleware<S> {
    pub service: S,
}

impl<S: Handler> RequestIDMiddleware<S> {
    /// Forward the inner stage's readiness signal without alteration: the
    /// interceptor adds no backpressure of its own.
    pub fn poll_ready(&mut self) -> (r: Readiness)
        ensures
            r == old(self).service.ready_spec(),
            *final(self) == *old(self),
    {
        self.service.poll_ready()
    }

    /// Attach the given identifier to the request, then delegate to the inner
    /// stage; the response is returned exactly as the stage produced it.
    pub fn call_with_id(&mut self, req: Request, id: RequestID) -> (resp: Response)
        ensures
            resp@ == old(self).service.response_spec(spec_attach(req@, id@)),
    {
        let mut req = req;
        attach_request_id(&mut req, id);
        self.service.handle(req)
    }

    /// The interceptor's request-handling step: generate a fresh identifier,
    /// attach it to the request's header list and typed state slot, and
    /// delegate; the inner stage's response is passed through verbatim.
    pub fn call(&mut self, req: Request) -> (resp: Response)
        ensures
            exists|id: Seq<char>|
                #[trigger] valid_request_id(id) && resp@ == old(self).service.response_spec(
                    spec_attach(req@, id),
                ),
    {
        let ghost pre = *self;
        let ghost reqv = req@;
        let id = generate();
        let ghost idv = id@;
        let resp = self.call_with_id(req, id);
        proof {
            assert(valid_request_id(idv) && resp@ == pre.service.response_spec(
                spec_attach(reqv, idv),
            ));
        }
        resp
    }
}

/// A stage that returns a fixed response and a fixed readiness whatever the
/// request: the stub against which pass-through behaviour is observed.
pub struct FixedHandler {
    pub readiness: Readiness,
    pub status: u16,
    pub body: String,
}

impl Handler for FixedHandler {
    open spec fn ready_spec(&self) -> Readiness {
        self.readiness
    }

    open spec fn response_spec(&self, req: RequestView) -> ResponseView {
        ResponseView { status: self.status, body: self.body@ }
    }

    fn poll_ready(&mut self) -> (r: Readiness) {
        self.readiness
    }

    fn handle(&mut self, req: Request) -> (resp: Response) {
        Response { status: self.status, body: self.body.clone() }
    }
}

/// A stage that answers with whatever the accessor finds on the request — the
/// identifier on success, the error message otherwise — and keeps the request
/// it saw, so that callers can inspect the state the interceptor produced.
pub struct EchoHandler {
    pub last: Option<Request>,
}

impl Handler for EchoHandler {
    open spec fn ready_spec(&self) -> Readiness {
        Readiness::Ready
    }

    open spec fn response_spec(&self, req: RequestView) -> ResponseView {
        match req.request_id {
            Some(id) => ResponseView { status: 200, body: id },
            None => ResponseView { status: 400, body: "request id is missing"@ },
        }
    }

    fn poll_ready(&mut self) -> (r: Readiness) {
        Readiness::Ready
    }

    fn handle(&mut self, req: Request) -> (resp: Response) {
        let found = RequestID::from_request(&req);
        self.last = Some(req);
        match found {
            Ok(id) => Response { status: 200, body: id.0 },
            Err(e) => Response { status: 400, body: e.message() },
        }
    }
}

} // verus!
