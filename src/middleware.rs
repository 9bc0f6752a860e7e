//! Middleware: ordered interceptors around the dispatcher.
use vstd::prelude::*;
use crate::io::{text_responds, IoHandler};
use crate::json::{json_parse, parse_json, response_text, write_response};
use crate::registry::Kind;
use crate::types::{failure_is, Error, ErrorCode, Id, Output, Request, Response};

verus! {

/// What a middleware does with a request.
#[derive(Debug, PartialEq)]
pub enum Action {
    /// Hand this request on to the next middleware, or to the dispatcher.
    Proceed(Request),
    /// Answer at once, without running later middlewares or the dispatcher;
    /// `None` suppresses the response.
    Respond(Option<Response>),
}

/// A request interceptor; it sees the request's metadata of type `M`.
pub trait Middleware<M>: Send + Sync {
    /// Runs before the later middlewares and the dispatcher.
    fn on_request(&self, request: Request, meta: &M) -> Action;

    /// Runs on the response after the later middlewares have seen it; it
    /// may replace it, and `None` suppresses it.
    fn on_response(&self, response: Option<Response>) -> Option<Response>;
}

/// The identity middleware: hands every request and response on unchanged.
#[derive(Debug, Default)]
pub struct Noop;

impl<M> Middleware<M> for Noop {
    fn on_request(&self, request: Request, _meta: &M) -> Action {
        Action::Proceed(request)
    }

    fn on_response(&self, response: Option<Response>) -> Option<Response> {
        response
    }
}

/// Where a request is in a chain of middlewares.
#[derive(Debug, PartialEq)]
pub enum Stage {
    /// Middleware `k` sees this request before the dispatcher.
    Before(usize, Request),
    /// The dispatcher answers this request.
    Dispatch(Request),
    /// Middleware `k` sees this response on the way out.
    After(usize, Option<Response>),
    /// The chain has produced this response.
    Done(Option<Response>),
}

/// A stage names a middleware of a chain of `n`.
pub open spec fn stage_in_chain(n: nat, s: Stage) -> bool {
    match s {
        Stage::Before(k, _) => k < n,
        Stage::After(k, _) => k < n,
        _ => true,
    }
}

/// Strictly smaller at every step of a chain of `n`.
pub open spec fn stage_measure(n: nat, s: Stage) -> nat {
    match s {
        Stage::Before(k, _) => (2 * n + 1 - k) as nat,
        Stage::Dispatch(_) => n + 1,
        Stage::After(k, _) => (k + 1) as nat,
        Stage::Done(_) => 0,
    }
}

/// The stage after middleware `k` of `n` returned `action`.
pub open spec fn request_step(n: usize, k: usize, action: Action) -> Stage {
    match action {
        Action::Proceed(req) => if k + 1 < n {
            Stage::Before((k + 1) as usize, req)
        } else {
            Stage::Dispatch(req)
        },
        Action::Respond(resp) => if k > 0 {
            Stage::After((k - 1) as usize, resp)
        } else {
            Stage::Done(resp)
        },
    }
}

/// The stage after the dispatcher answered, in a chain of `n`.
pub open spec fn dispatch_step(n: usize, response: Option<Response>) -> Stage {
    if n > 0 {
        Stage::After((n - 1) as usize, response)
    } else {
        Stage::Done(response)
    }
}

/// The stage after middleware `k` returned `response` on the way out.
pub open spec fn response_step(k: usize, response: Option<Response>) -> Stage {
    if k > 0 {
        Stage::After((k - 1) as usize, response)
    } else {
        Stage::Done(response)
    }
}

/// `next` may follow `s` in a chain of `n` middlewares around registry
/// `reg`: whatever a middleware returns, and whatever the dispatcher may
/// answer to the request it was handed.
pub open spec fn chain_step(reg: Seq<(Seq<char>, Kind)>, n: usize, s: Stage, next: Stage) -> bool {
    match s {
        Stage::Before(k, _) => exists|a: Action| next == request_step(n, k, a),
        Stage::Dispatch(req) => exists|out: Option<Response>|
            crate::io::responds(reg, req, out) && next == dispatch_step(n, out),
        Stage::After(k, _) => exists|out: Option<Response>| next == response_step(k, out),
        Stage::Done(_) => false,
    }
}

/// `trace` is a run of a chain of `n` on `request`: it starts where the
/// request enters, and each stage follows from the one before.
pub open spec fn chain_run(
    reg: Seq<(Seq<char>, Kind)>,
    n: usize,
    request: Request,
    trace: Seq<Stage>,
) -> bool {
    &&& trace.len() > 0
    &&& trace[0] == (if n == 0 {
        Stage::Dispatch(request)
    } else {
        Stage::Before(0, request)
    })
    &&& forall|i: int| 0 <= i < trace.len() - 1 ==> chain_step(reg, n, #[trigger] trace[i], trace[i + 1])
}

impl Stage {
    /// A request enters the chain at its first middleware, or goes to the
    /// dispatcher unchanged when there is none.
    pub fn start(n: usize, request: Request) -> (r: Stage)
        ensures
            n == 0 ==> r == Stage::Dispatch(request),
            n > 0 ==> r == Stage::Before(0, request),
    {
        if n == 0 {
            Stage::Dispatch(request)
        } else {
            Stage::Before(0, request)
        }
    }

    /// After middleware `k` of `n` saw the request: the request it passes on
    /// goes to the next middleware, or to the dispatcher after the last; an
    /// answer skips the rest and goes out through the middlewares before
    /// `k`, innermost first.
    pub fn after_request(n: usize, k: usize, action: Action) -> (r: Stage)
        requires
            k < n,
        ensures
            r == request_step(n, k, action),
            action matches Action::Proceed(req) ==> r == if k + 1 < n {
                Stage::Before((k + 1) as usize, req)
            } else {
                Stage::Dispatch(req)
            },
            action matches Action::Respond(resp) ==> r == if k > 0 {
                Stage::After((k - 1) as usize, resp)
            } else {
                Stage::Done(resp)
            },
            stage_measure(n as nat, r) < stage_measure(n as nat, Stage::Before(k, arbitrary())),
            stage_in_chain(n as nat, r),
    {
        match action {
            Action::Proceed(req) => if k + 1 < n {
                Stage::Before(k + 1, req)
            } else {
                Stage::Dispatch(req)
            },
            Action::Respond(resp) => if k > 0 {
                Stage::After(k - 1, resp)
            } else {
                Stage::Done(resp)
            },
        }
    }

    /// The dispatcher's response goes out through every middleware,
    /// innermost first.
    pub fn after_dispatch(n: usize, response: Option<Response>) -> (r: Stage)
        ensures
            r == dispatch_step(n, response),
            r == if n > 0 {
                Stage::After((n - 1) as usize, response)
            } else {
                Stage::Done(response)
            },
            stage_measure(n as nat, r) < stage_measure(n as nat, Stage::Dispatch(arbitrary())),
            stage_in_chain(n as nat, r),
    {
        if n > 0 {
            Stage::After(n - 1, response)
        } else {
            Stage::Done(response)
        }
    }

    /// After middleware `k` saw the response, the one before it sees what it
    /// returned; after the first, that is the chain's response.
    pub fn after_response(k: usize, response: Option<Response>) -> (r: Stage)
        ensures
            r == response_step(k, response),
            r == if k > 0 {
                Stage::After((k - 1) as usize, response)
            } else {
                Stage::Done(response)
            },
            forall|n: nat| k < n ==> stage_measure(n, r) < #[trigger] stage_measure(n, Stage::After(k, arbitrary())),
            forall|n: nat| k < n ==> #[trigger] stage_in_chain(n, r),
    {
        if k > 0 {
            Stage::After(k - 1, response)
        } else {
            Stage::Done(response)
        }
    }
}

/// One middleware of a chain.
#[verifier::reject_recursive_types(M)]
struct Layer<M> {
    middleware: Box<dyn Middleware<M>>,
}

/// A handler with a chain of middlewares in front of the dispatcher.
///
/// The first middleware sees the request first and the response last:
/// `m1` before, `m2` before, dispatch, `m2` after, `m1` after. One that
/// answers at once skips the later ones and the dispatcher, and the
/// earlier ones still see its answer on the way out.
#[verifier::reject_recursive_types(M)]
pub struct MetaIoHandler<M> {
    handler: IoHandler<M>,
    middlewares: Vec<Layer<M>>,
    /// No middleware has been added.
    plain: bool,
}

impl<M: Clone> MetaIoHandler<M> {
    pub closed spec fn registry(&self) -> Seq<(Seq<char>, Kind)> {
        self.handler@
    }

    /// The number of middlewares.
    pub closed spec fn chain_len(&self) -> usize {
        self.middlewares@.len() as usize
    }

    /// The chain is empty: requests go straight to the dispatcher.
    pub closed spec fn is_plain(&self) -> bool {
        self.plain
    }

    pub fn new(handler: IoHandler<M>) -> (r: MetaIoHandler<M>)
        ensures
            r.registry() == handler@,
            r.is_plain(),
    {
        MetaIoHandler { handler, middlewares: Vec::new(), plain: true }
    }

    /// Appends a middleware at the inner end of the chain.
    pub fn add_middleware<S: Middleware<M> + 'static>(&mut self, middleware: S)
        ensures
            final(self).registry() == old(self).registry(),
            !final(self).is_plain(),
    {
        self.middlewares.push(Layer { middleware: Box::new(middleware) });
        self.plain = false;
    }

    /// Runs a parsed request through the chain and the dispatcher.
    pub fn handle_parsed(&self, request: Request, meta: M) -> (r: Option<Response>)
        ensures
            self.is_plain() ==> crate::io::responds(self.registry(), request, r),
            !self.is_plain() ==> exists|trace: Seq<Stage>|
                chain_run(self.registry(), self.chain_len(), request, trace) && trace.last()
                    == Stage::Done(r),
    {
        if self.plain {
            return self.handler.handle_parsed(request, meta);
        }
        let n = self.middlewares.len();
        let mut stage = Stage::start(n, request);
        let ghost mut trace: Seq<Stage> = seq![stage];
        loop
            invariant
                n == self.middlewares@.len(),
                n == self.chain_len(),
                !self.plain,
                stage_in_chain(n as nat, stage),
                chain_run(self.registry(), n, request, trace),
                trace.last() == stage,
            decreases stage_measure(n as nat, stage),
        {
            let ghost prev = stage;
            let ghost old_trace = trace;
            match stage {
                Stage::Before(k, req) => {
                    let action = self.middlewares[k].middleware.on_request(req, &meta);
                    let ghost a = action;
                    stage = Stage::after_request(n, k, action);
                    assert(stage == request_step(n, k, a));
                },
                Stage::Dispatch(req) => {
                    let ghost greq = req;
                    let out = self.handler.handle_parsed(req, meta.clone());
                    let ghost o = out;
                    stage = Stage::after_dispatch(n, out);
                    assert(crate::io::responds(self.registry(), greq, o) && stage == dispatch_step(n, o));
                },
                Stage::After(k, resp) => {
                    let out = self.middlewares[k].middleware.on_response(resp);
                    let ghost o = out;
                    stage = Stage::after_response(k, out);
                    assert(stage == response_step(k, o));
                },
                Stage::Done(resp) => {
                    return resp;
                },
            }
            proof {
                assert(chain_step(self.registry(), n, prev, stage));
                trace = old_trace.push(stage);
                assert forall|i: int| 0 <= i < trace.len() - 1 implies chain_step(
                    self.registry(),
                    n,
                    #[trigger] trace[i],
                    trace[i + 1],
                ) by {
                    if i < old_trace.len() - 1 {
                        assert(trace[i] == old_trace[i] && trace[i + 1] == old_trace[i + 1]);
                    } else {
                        assert(trace[i] == prev);
                    }
                }
            }
        }
    }

    /// Answers a request given as JSON text, through the chain; text that is
    /// not JSON gets a `ParseError` failure with a null id, before any
    /// middleware runs.
    pub fn handle_request_sync(&self, text: &str, meta: M) -> (r: Option<String>)
        ensures
            self.is_plain() ==> text_responds(self.registry(), text@, match r {
                Some(t) => Some(t@),
                None => None,
            }),
            json_parse(text@) is None ==> (r matches Some(t) && exists|o: Output|
                failure_is(o, ErrorCode::ParseError, "Parse error"@, Id::Null) && t@
                    == response_text(Response::Single(o))),
    {
        if self.plain {
            return self.handler.handle_request_sync_with(text, meta);
        }
        match parse_json(text) {
            None => {
                let o = Output::failure(Id::Null, Error::parse_error());
                let ghost go = o;
                let resp = Response::Single(o);
                let t = write_response(&resp);
                assert(failure_is(go, ErrorCode::ParseError, "Parse error"@, Id::Null));
                Some(t)
            },
            Some(v) => match self.handle_parsed(Request::from_value(v), meta) {
                Some(resp) => Some(write_response(&resp)),
                None => None,
            },
        }
    }
}

} // verus!
