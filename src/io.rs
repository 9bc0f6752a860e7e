//! The dispatcher: routes each call of a request to its handler and
//! assembles the response under the batch rules.
use vstd::prelude::*;
use crate::json::{json_parse, parse_json, response_text, write_response};
use crate::registry::{
    entries_view, find, kind_of, lemma_added_entry_resolves, lemma_resolve_at, resolve, resolve_at, resolve_index, AsyncMethodCommand, IoDelegate, Kind,
    NotificationCommand, Ready, RemoteProcedure, RpcMethod, RpcNotification, SyncMethodCommand,
};
use crate::request::{call_keys_only, call_of, echoed_id, is_call_key, lookup, request_is};
use crate::types::{
    error_is, failure_is, output_spec, Call, Error, ErrorCode, Id, Output, Params, Request, Response, Value,
    Version,
};

verus! {

/// How the dispatcher answers one call.
pub enum Reply {
    /// No output.
    Silent,
    /// A failure with this code, message and id.
    Fail(ErrorCode, Seq<char>, Id),
    /// The handler runs and its result answers the call with this id.
    Invoke(Id),
}

/// The answer that a call gets from a registry.
///
/// An invalid element fails with `InvalidRequest`, echoing its id. A method
/// call of another version than "2.0" fails as unsupported; one whose name
/// resolves to a method runs it; any other fails with `MethodNotFound`.
/// A notification is never answered.
pub open spec fn reply_of(reg: Seq<(Seq<char>, Kind)>, call: Call) -> Reply {
    match call {
        Call::Invalid(id) => Reply::Fail(ErrorCode::InvalidRequest, "Invalid request"@, id),
        Call::MethodCall(m) => if m.jsonrpc != Version::V2 {
            Reply::Fail(ErrorCode::InvalidRequest, "Unsupported JSON-RPC protocol version"@, m.id)
        } else if resolve(reg, m.method@) == Some(Kind::Method) {
            Reply::Invoke(m.id)
        } else {
            Reply::Fail(ErrorCode::MethodNotFound, "Method not found"@, m.id)
        },
        Call::Notification(_) => Reply::Silent,
    }
}

/// `r` is a possible outcome of `call`: for an invoked handler, whatever it
/// returned, answered under the call's id.
pub open spec fn answers(reg: Seq<(Seq<char>, Kind)>, call: Call, r: Option<Output>) -> bool {
    match reply_of(reg, call) {
        Reply::Silent => r is None,
        Reply::Fail(code, message, id) => r matches Some(o) && failure_is(o, code, message, id),
        Reply::Invoke(id) => exists|res: Result<Value, Error>| r == Some(output_spec(id, res)),
    }
}

/// The outputs among per-call outcomes, in order.
pub open spec fn outputs_of(rs: Seq<Option<Output>>) -> Seq<Output>
    decreases rs.len(),
{
    if rs.len() == 0 {
        Seq::empty()
    } else {
        match rs.last() {
            Some(o) => outputs_of(rs.drop_last()).push(o),
            None => outputs_of(rs.drop_last()),
        }
    }
}

/// `rs` holds one possible outcome for each call.
pub open spec fn all_answer(
    reg: Seq<(Seq<char>, Kind)>,
    calls: Seq<Call>,
    rs: Seq<Option<Output>>,
) -> bool {
    rs.len() == calls.len() && forall|i: int| 0 <= i < calls.len() ==> answers(reg, calls[i], #[trigger] rs[i])
}

/// `r` is a possible response to a request.
///
/// A single call is answered by its output, or not at all. An empty batch is
/// answered by one `InvalidRequest` failure with a null id. Any other batch is
/// answered by the outputs of its calls in order, or not at all when none
/// has an output.
pub open spec fn responds(reg: Seq<(Seq<char>, Kind)>, req: Request, r: Option<Response>) -> bool {
    match req {
        Request::Single(c) => match r {
            None => answers(reg, c, None),
            Some(Response::Single(o)) => answers(reg, c, Some(o)),
            Some(Response::Batch(_)) => false,
        },
        Request::Batch(calls) => if calls@.len() == 0 {
            r matches Some(Response::Single(o)) && failure_is(
                o,
                ErrorCode::InvalidRequest,
                "Invalid request"@,
                Id::Null,
            )
        } else {
            exists|rs: Seq<Option<Output>>|
                all_answer(reg, calls@, rs) && if outputs_of(rs).len() == 0 {
                    r is None
                } else {
                    r matches Some(Response::Batch(os)) && os@ == outputs_of(rs)
                }
        },
    }
}

/// Handles JSON-RPC requests against a registry of procedures; `M` is the
/// type of the metadata that a transport passes with each request.
#[verifier::reject_recursive_types(M)]
pub struct IoHandler<M> {
    procedures: Vec<(String, RemoteProcedure<M>)>,
}

impl<M> View for IoHandler<M> {
    type V = Seq<(Seq<char>, Kind)>;

    closed spec fn view(&self) -> Seq<(Seq<char>, Kind)> {
        entries_view(self.procedures@)
    }
}

/// The parameters handed to a handler: absent ones as `Params::Empty`.
pub open spec fn params_or_empty_spec(p: Option<Params>) -> Params {
    match p {
        Some(q) => q,
        None => Params::Empty,
    }
}

/// The method name that a call names; empty for an invalid one.
pub open spec fn call_method(call: Call) -> Seq<char> {
    match call {
        Call::MethodCall(m) => m.method@,
        Call::Notification(n) => n.method@,
        Call::Invalid(_) => Seq::empty(),
    }
}

/// What the dispatcher does with one call.
#[derive(Debug, PartialEq)]
pub enum Route {
    /// Answer with this output, running no handler.
    Respond(Output),
    /// Run the method at this registry index on these parameters, and
    /// answer under this id.
    Invoke { index: usize, params: Params, id: Id },
    /// Run the handler at this registry index for a notification.
    Notify { index: usize, params: Params },
    /// Nothing to run and nothing to answer.
    Drop,
}

/// `r` is the route of `call`: the decisions of `reply_of`, with the
/// entry that runs fixed by `resolve_at`.
pub open spec fn route_is(reg: Seq<(Seq<char>, Kind)>, call: Call, r: Route) -> bool {
    match call {
        Call::Invalid(id) => r matches Route::Respond(o) && failure_is(
            o,
            ErrorCode::InvalidRequest,
            "Invalid request"@,
            id,
        ),
        Call::MethodCall(m) => if m.jsonrpc != Version::V2 {
            r matches Route::Respond(o) && failure_is(
                o,
                ErrorCode::InvalidRequest,
                "Unsupported JSON-RPC protocol version"@,
                m.id,
            )
        } else if resolve(reg, m.method@) == Some(Kind::Method) {
            r == (Route::Invoke {
                index: resolve_at(reg, m.method@).unwrap() as usize,
                params: params_or_empty_spec(m.params),
                id: m.id,
            })
        } else {
            r matches Route::Respond(o) && failure_is(
                o,
                ErrorCode::MethodNotFound,
                "Method not found"@,
                m.id,
            )
        },
        Call::Notification(n) => match resolve_at(reg, n.method@) {
            Some(i) => r == (Route::Notify { index: i as usize, params: params_or_empty_spec(n.params) }),
            None => r == Route::Drop,
        },
    }
}

fn params_or_empty(p: Option<Params>) -> (r: Params)
    ensures
        r == params_or_empty_spec(p),
{
    match p {
        Some(p) => p,
        None => Params::Empty,
    }
}

impl IoHandler<()> {
    /// An empty handler for requests without metadata.
    pub fn new() -> (r: IoHandler<()>)
        ensures
            r@ == Seq::<(Seq<char>, Kind)>::empty(),
    {
        Self::with_metadata()
    }

    /// Answers a request given as JSON text: text that is not JSON gets a
    /// `ParseError` failure with a null id; otherwise the text of the response
    /// to the value it holds, or nothing where no call is answered.
    pub fn handle_request(&self, text: &str) -> (r: Option<AsyncStringResponse>)
        ensures
            text_responds(self@, text@, match r {
                Some(a) => Some(a@),
                None => None,
            }),
    {
        self.handle_request_with(text, ())
    }

    /// Answers a request given as JSON text and returns the response text.
    pub fn handle_request_sync(&self, text: &str) -> (r: Option<String>)
        ensures
            text_responds(self@, text@, match r {
                Some(t) => Some(t@),
                None => None,
            }),
    {
        self.handle_request_sync_with(text, ())
    }
}

impl<M: Clone> IoHandler<M> {
    /// An empty handler whose requests carry metadata of type `M`.
    pub fn with_metadata() -> (r: IoHandler<M>)
        ensures
            r@ == Seq::<(Seq<char>, Kind)>::empty(),
    {
        let r = IoHandler { procedures: Vec::new() };
        assert(r@ =~= Seq::<(Seq<char>, Kind)>::empty());
        r
    }

    fn add(&mut self, name: &str, p: RemoteProcedure<M>)
        ensures
            final(self)@ == old(self)@.push((name@, kind_of(p))),
    {
        self.procedures.push((name.to_owned(), p));
        assert(final(self)@ =~= old(self)@.push((name@, kind_of(p))));
    }

    /// Registers a method; it replaces an earlier entry of that name.
    pub fn add_method<C: SyncMethodCommand + 'static>(&mut self, name: &str, command: C)
        ensures
            final(self)@ == old(self)@.push((name@, Kind::Method)),
            resolve_at(final(self)@, name@) == Some(old(self)@.len() as int),
    {
        proof {
            lemma_added_entry_resolves(old(self)@, name@, Kind::Method);
        }
        self.add(name, RemoteProcedure::Method(Box::new(command)));
    }

    pub fn add_async_method<C: AsyncMethodCommand + 'static>(&mut self, name: &str, command: C)
        ensures
            final(self)@ == old(self)@.push((name@, Kind::Method)),
            resolve_at(final(self)@, name@) == Some(old(self)@.len() as int),
    {
        proof {
            lemma_added_entry_resolves(old(self)@, name@, Kind::Method);
        }
        self.add(name, RemoteProcedure::AsyncMethod(Box::new(command)));
    }

    pub fn add_notification<C: NotificationCommand + 'static>(&mut self, name: &str, command: C)
        ensures
            final(self)@ == old(self)@.push((name@, Kind::Notification)),
            resolve_at(final(self)@, name@) == Some(old(self)@.len() as int),
    {
        proof {
            lemma_added_entry_resolves(old(self)@, name@, Kind::Notification);
        }
        self.add(name, RemoteProcedure::Notification(Box::new(command)));
    }

    /// Registers a method that receives the request's metadata.
    pub fn add_method_with_meta<C: RpcMethod<M> + 'static>(&mut self, name: &str, command: C)
        ensures
            final(self)@ == old(self)@.push((name@, Kind::Method)),
            resolve_at(final(self)@, name@) == Some(old(self)@.len() as int),
    {
        proof {
            lemma_added_entry_resolves(old(self)@, name@, Kind::Method);
        }
        self.add(name, RemoteProcedure::MethodWithMeta(Box::new(command)));
    }

    /// Registers a notification handler that receives the request's metadata.
    pub fn add_notification_with_meta<C: RpcNotification<M> + 'static>(&mut self, name: &str, command: C)
        ensures
            final(self)@ == old(self)@.push((name@, Kind::Notification)),
            resolve_at(final(self)@, name@) == Some(old(self)@.len() as int),
    {
        proof {
            lemma_added_entry_resolves(old(self)@, name@, Kind::Notification);
        }
        self.add(name, RemoteProcedure::NotificationWithMeta(Box::new(command)));
    }

    /// Registers `alias` as another name for `target`.
    pub fn add_alias(&mut self, alias: &str, target: &str)
        ensures
            final(self)@ == old(self)@.push((alias@, Kind::Alias(target@))),
    {
        self.add(alias, RemoteProcedure::Alias(target.to_owned()));
    }

    /// Adds every entry of a delegate, in its order.
    pub fn add_delegate(&mut self, delegate: IoDelegate<M>)
        ensures
            final(self)@ == old(self)@ + delegate@,
    {
        let mut entries = delegate.into_entries();
        self.procedures.append(&mut entries);
        assert(final(self)@ =~= old(self)@ + delegate@);
    }

    /// Decides what a call gets: an output at once, the run of the method
    /// or notification handler at an index of the registry with the call's
    /// parameters (absent parameters as `Params::Empty`), or nothing.
    pub fn route(&self, call: Call) -> (r: Route)
        ensures
            route_is(self@, call, r),
    {
        proof {
            lemma_resolve_at(self@, call_method(call));
        }
        match call {
            Call::Invalid(id) => Route::Respond(Output::failure(id, Error::invalid_request())),
            Call::MethodCall(m) => {
                if let Version::Unsupported(_) = m.jsonrpc {
                    return Route::Respond(Output::failure(m.id, Error::invalid_version()));
                }
                match resolve_index(&self.procedures, m.method.as_str()) {
                    Some(i) => {
                        let is_method = match &self.procedures[i].1 {
                            RemoteProcedure::Method(_) => true,
                            RemoteProcedure::AsyncMethod(_) => true,
                            RemoteProcedure::MethodWithMeta(_) => true,
                            _ => false,
                        };
                        if is_method {
                            Route::Invoke { index: i, params: params_or_empty(m.params), id: m.id }
                        } else {
                            Route::Respond(Output::failure(m.id, Error::method_not_found()))
                        }
                    },
                    None => Route::Respond(Output::failure(m.id, Error::method_not_found())),
                }
            },
            Call::Notification(n) => match resolve_index(&self.procedures, n.method.as_str()) {
                Some(i) => Route::Notify { index: i, params: params_or_empty(n.params) },
                None => Route::Drop,
            },
        }
    }

    /// Runs the method registered at `index` on `params` and returns its
    /// result; an index that holds no method gives `MethodNotFound`.
    pub fn invoke(&self, index: usize, params: Params, meta: M) -> (r: Result<Value, Error>)
        ensures
            !(index < self@.len() && self@[index as int].1 == Kind::Method) ==> (r matches Err(e)
                && error_is(e, ErrorCode::MethodNotFound, "Method not found"@)),
    {
        if index >= self.procedures.len() {
            return Err(Error::method_not_found());
        }
        match &self.procedures[index].1 {
            RemoteProcedure::Method(h) => h.execute(params),
            RemoteProcedure::AsyncMethod(h) => {
                let mut ready = Ready::new();
                h.execute(params, &mut ready);
                ready.into_result()
            },
            RemoteProcedure::MethodWithMeta(h) => h.call(params, meta),
            _ => Err(Error::method_not_found()),
        }
    }

    /// Runs the handler registered at `index` on `params` for a
    /// notification; a method's result is dropped.
    fn notify(&self, index: usize, params: Params, meta: M) {
        if index < self.procedures.len() {
            match &self.procedures[index].1 {
                RemoteProcedure::Notification(h) => h.execute(params),
                RemoteProcedure::NotificationWithMeta(h) => h.execute(params, meta),
                RemoteProcedure::Alias(_) => {},
                _ => {
                    let _ = self.invoke(index, params, meta);
                },
            }
        }
    }

    /// Answers one call: the route's output, or the output that the invoked
    /// method's result gives under the call's id.
    pub fn handle_call(&self, call: Call, meta: M) -> (r: Option<Output>)
        ensures
            answers(self@, call, r),
    {
        match self.route(call) {
            Route::Respond(o) => Some(o),
            Route::Invoke { index, params, id } => {
                let res = self.invoke(index, params, meta);
                Some(Output::from_result(id, res))
            },
            Route::Notify { index, params } => {
                self.notify(index, params, meta);
                None
            },
            Route::Drop => None,
        }
    }

    /// Answers a parsed request.
    pub fn handle_parsed(&self, request: Request, meta: M) -> (r: Option<Response>)
        ensures
            responds(self@, request, r),
    {
        match request {
            Request::Single(c) => match self.handle_call(c, meta) {
                Some(o) => Some(Response::Single(o)),
                None => None,
            },
            Request::Batch(calls) => {
                if calls.len() == 0 {
                    return Some(Response::Single(Output::failure(Id::Null, Error::invalid_request())));
                }
                let ghost orig = calls@;
                let mut calls = calls;
                let mut outs: Vec<Output> = Vec::new();
                let ghost mut rs: Seq<Option<Output>> = Seq::empty();
                while calls.len() > 0
                    invariant
                        rs.len() + calls@.len() == orig.len(),
                        calls@ == orig.subrange(rs.len() as int, orig.len() as int),
                        forall|i: int| 0 <= i < rs.len() ==> answers(self@, orig[i], #[trigger] rs[i]),
                        outs@ == outputs_of(rs),
                    decreases calls.len(),
                {
                    let ghost k = rs.len() as int;
                    let c = calls.remove(0);
                    assert(c == orig[k]);
                    let r = self.handle_call(c, meta.clone());
                    let ghost gr = r;
                    let ghost prev = rs;
                    proof {
                        rs = prev.push(gr);
                        assert(rs.drop_last() =~= prev);
                        assert(rs.last() == gr);
                    }
                    match r {
                        Some(o) => outs.push(o),
                        None => {},
                    }
                    proof {
                        assert forall|i: int| 0 <= i < rs.len() implies answers(self@, orig[i], #[trigger] rs[i]) by {
                            if i < k {
                                assert(rs[i] == prev[i]);
                            }
                        }
                    }
                }
                assert(all_answer(self@, orig, rs));
                if outs.len() == 0 {
                    None
                } else {
                    Some(Response::Batch(outs))
                }
            },
        }
    }

    /// Answers a request given as a JSON value.
    pub fn handle_value(&self, v: Value, meta: M) -> (r: Option<Response>)
        ensures
            exists|req: Request| request_is(v, req) && responds(self@, req, r),
    {
        let req = Request::from_value(v);
        let ghost g = req;
        let r = self.handle_parsed(req, meta);
        assert(request_is(v, g) && responds(self@, g, r));
        r
    }

    /// Answers a request given as JSON text, with the metadata that the
    /// transport extracted for it.
    pub fn handle_request_with(&self, text: &str, meta: M) -> (r: Option<AsyncStringResponse>)
        ensures
            text_responds(self@, text@, match r {
                Some(a) => Some(a@),
                None => None,
            }),
    {
        match parse_json(text) {
            None => {
                let o = Output::failure(Id::Null, Error::parse_error());
                let ghost go = o;
                let resp = Response::Single(o);
                let t = write_response(&resp);
                let r = AsyncStringResponse { response: t };
                assert(failure_is(go, ErrorCode::ParseError, "Parse error"@, Id::Null));
                assert(Some(r@) == Some(response_text(Response::Single(go))));
                Some(r)
            },
            Some(v) => {
                let ghost gv = v;
                let res = self.handle_value(v, meta);
                let ghost gres = res;
                let ghost req = choose|req: Request| request_is(gv, req) && responds(self@, req, gres);
                match res {
                    Some(resp) => {
                        let t = write_response(&resp);
                        let r = AsyncStringResponse { response: t };
                        assert(request_is(gv, req) && responds(self@, req, gres) && Some(r@) == match gres {
                            Some(x) => Some(response_text(x)),
                            None => None,
                        });
                        Some(r)
                    },
                    None => {
                        assert(request_is(gv, req) && responds(self@, req, gres));
                        None
                    },
                }
            },
        }
    }

    /// Answers a request given as JSON text, with its metadata, and returns
    /// the response text.
    pub fn handle_request_sync_with(&self, text: &str, meta: M) -> (r: Option<String>)
        ensures
            text_responds(self@, text@, match r {
                Some(t) => Some(t@),
                None => None,
            }),
    {
        match self.handle_request_with(text, meta) {
            Some(a) => Some(a.wait()),
            None => None,
        }
    }
}

/// `r` is a possible response text to request text `text`.
pub open spec fn text_responds(reg: Seq<(Seq<char>, Kind)>, text: Seq<char>, r: Option<Seq<char>>) -> bool {
    match json_parse(text) {
        None => exists|o: Output|
            failure_is(o, ErrorCode::ParseError, "Parse error"@, Id::Null) && r == Some(
                response_text(Response::Single(o)),
            ),
        Some(v) => exists|req: Request, resp: Option<Response>|
            request_is(v, req) && responds(reg, req, resp) && r == match resp {
                Some(x) => Some(response_text(x)),
                None => None,
            },
    }
}

/// The text of a response, handed out when it is ready.
pub struct AsyncStringResponse {
    response: String,
}

impl View for AsyncStringResponse {
    type V = Seq<char>;

    closed spec fn view(&self) -> Seq<char> {
        self.response@
    }
}

impl AsyncStringResponse {
    /// Hands the response text to `f`. The text is always ready, so `f` runs
    /// at once and `true` is returned.
    pub fn on_result<F: FnOnce(String)>(self, f: F) -> (r: bool)
        requires
            forall|t: String| #[trigger] f.requires((t,)),
        ensures
            r,
            exists|t: String| t@ == self@ && f.ensures((t,), ()),
    {
        let ghost text = self.response;
        f(self.response);
        assert(text@ == self@);
        true
    }

    /// The response text.
    pub fn wait(self) -> (r: String)
        ensures
            r@ == self@,
    {
        self.response
    }
}

/// The number of calls that get an output.
pub open spec fn answered_count(reg: Seq<(Seq<char>, Kind)>, calls: Seq<Call>) -> nat
    decreases calls.len(),
{
    if calls.len() == 0 {
        0
    } else {
        answered_count(reg, calls.drop_last()) + if reply_of(reg, calls.last()) is Silent {
            0nat
        } else {
            1nat
        }
    }
}

/// A well-formed method call whose name resolves to a method is routed to
/// the entry that the name resolves to, with the call's parameters, and a
/// result `Ok(v)` of that handler is answered by a success carrying `v` and
/// the call's id.
pub proof fn lemma_method_call_success(
    reg: Seq<(Seq<char>, Kind)>,
    m: crate::types::MethodCall,
    v: Value,
    r: Option<Output>,
)
    requires
        m.jsonrpc == Version::V2,
        resolve(reg, m.method@) == Some(Kind::Method),
    ensures
        reply_of(reg, Call::MethodCall(m)) == Reply::Invoke(m.id),
        forall|rt: Route|
            route_is(reg, Call::MethodCall(m), rt) ==> rt == (Route::Invoke {
                index: resolve_at(reg, m.method@).unwrap() as usize,
                params: params_or_empty_spec(m.params),
                id: m.id,
            }),
        output_spec(m.id, Ok(v)) == (Output::Success { jsonrpc: Version::V2, result: v, id: m.id }),
        answers(reg, Call::MethodCall(m), r) ==> (r matches Some(o) && (o matches Output::Success {
            id,
            ..
        } ==> id == m.id)),
{
}

/// A notification is never answered, whatever its handler does.
pub proof fn lemma_notification_unanswered(
    reg: Seq<(Seq<char>, Kind)>,
    n: crate::types::Notification,
    r: Option<Output>,
)
    requires
        answers(reg, Call::Notification(n), r),
    ensures
        r is None,
{
}

/// A method call with another version literal than "2.0" fails with
/// `InvalidRequest` and the unsupported-version message, under its id.
pub proof fn lemma_unsupported_version(reg: Seq<(Seq<char>, Kind)>, m: crate::types::MethodCall)
    requires
        m.jsonrpc != Version::V2,
    ensures
        reply_of(reg, Call::MethodCall(m)) == Reply::Fail(
            ErrorCode::InvalidRequest,
            "Unsupported JSON-RPC protocol version"@,
            m.id,
        ),
{
}

/// Following an alias takes one hop: an alias to an entry that is not an
/// alias resolves to that entry, and an alias to an alias resolves nowhere,
/// so a method call by that name fails with `MethodNotFound`.
pub proof fn lemma_alias_one_hop(
    reg: Seq<(Seq<char>, Kind)>,
    a: Seq<char>,
    b: Seq<char>,
    m: crate::types::MethodCall,
)
    requires
        find(reg, a) == Some(Kind::Alias(b)),
        m.jsonrpc == Version::V2,
        m.method@ == a,
    ensures
        find(reg, b) is Some && !(find(reg, b).unwrap() is Alias) ==> resolve(reg, a) == find(reg, b),
        find(reg, b) matches Some(Kind::Alias(_)) ==> resolve(reg, a) is None && reply_of(
            reg,
            Call::MethodCall(m),
        ) == Reply::Fail(ErrorCode::MethodNotFound, "Method not found"@, m.id),
{
}

/// A batch gets exactly one output for each call that is answered, that is
/// each call but the notifications.
pub proof fn lemma_batch_output_count(
    reg: Seq<(Seq<char>, Kind)>,
    calls: Seq<Call>,
    rs: Seq<Option<Output>>,
)
    requires
        all_answer(reg, calls, rs),
    ensures
        outputs_of(rs).len() == answered_count(reg, calls),
    decreases calls.len(),
{
    if calls.len() > 0 {
        let n = (calls.len() - 1) as int;
        assert(answers(reg, calls[n], rs[n]));
        assert(all_answer(reg, calls.drop_last(), rs.drop_last())) by {
            assert forall|i: int| 0 <= i < calls.drop_last().len() implies answers(
                reg,
                calls.drop_last()[i],
                #[trigger] rs.drop_last()[i],
            ) by {
                assert(answers(reg, calls[i], rs[i]));
            }
        }
        lemma_batch_output_count(reg, calls.drop_last(), rs.drop_last());
    }
}

proof fn lemma_notifications_silent(reg: Seq<(Seq<char>, Kind)>, calls: Seq<Call>)
    requires
        forall|i: int| 0 <= i < calls.len() ==> #[trigger] calls[i] is Notification,
    ensures
        answered_count(reg, calls) == 0,
    decreases calls.len(),
{
    if calls.len() > 0 {
        assert(calls.last() is Notification);
        assert forall|i: int| 0 <= i < calls.drop_last().len() implies #[trigger] calls.drop_last()[i] is Notification by {
            assert(calls[i] is Notification);
        }
        lemma_notifications_silent(reg, calls.drop_last());
    }
}

/// A non-empty batch made of notifications only gets no response at all.
pub proof fn lemma_notification_batch_silent(
    reg: Seq<(Seq<char>, Kind)>,
    calls: Vec<Call>,
    r: Option<Response>,
)
    requires
        calls@.len() > 0,
        forall|i: int| 0 <= i < calls@.len() ==> #[trigger] calls@[i] is Notification,
        responds(reg, Request::Batch(calls), r),
    ensures
        r is None,
{
    let rs = choose|rs: Seq<Option<Output>>|
        all_answer(reg, calls@, rs) && if outputs_of(rs).len() == 0 {
            r is None
        } else {
            r matches Some(Response::Batch(os)) && os@ == outputs_of(rs)
        };
    lemma_batch_output_count(reg, calls@, rs);
    lemma_notifications_silent(reg, calls@);
}

proof fn lemma_foreign_member(fields: Seq<(String, Value)>, key: Seq<char>)
    requires
        lookup(fields, key) is Some,
        !is_call_key(key),
    ensures
        !call_keys_only(fields),
    decreases fields.len(),
{
    if fields.last().0@ != key {
        lemma_foreign_member(fields.drop_last(), key);
    }
}

/// A response fed back to the dispatcher is no call: an object with a
/// `result` or an `error` member is answered by an `InvalidRequest` failure
/// that echoes its id.
pub proof fn lemma_response_is_no_call(reg: Seq<(Seq<char>, Kind)>, fields: Vec<(String, Value)>)
    requires
        lookup(fields@, "result"@) is Some || lookup(fields@, "error"@) is Some,
    ensures
        reply_of(reg, call_of(Value::Object(fields))) == Reply::Fail(
            ErrorCode::InvalidRequest,
            "Invalid request"@,
            echoed_id(fields@),
        ),
{
    reveal_strlit("result");
    reveal_strlit("error");
    reveal_strlit("jsonrpc");
    reveal_strlit("method");
    reveal_strlit("params");
    reveal_strlit("id");
    if lookup(fields@, "result"@) is Some {
        assert("result"@[0] != "jsonrpc"@[0]);
        assert("result"@[0] != "method"@[0]);
        assert("result"@[0] != "params"@[0]);
        assert("result"@[0] != "id"@[0]);
        lemma_foreign_member(fields@, "result"@);
    } else {
        assert("error"@[0] != "jsonrpc"@[0]);
        assert("error"@[0] != "method"@[0]);
        assert("error"@[0] != "params"@[0]);
        assert("error"@[0] != "id"@[0]);
        lemma_foreign_member(fields@, "error"@);
    }
}

/// A call through an alias runs the same entry as a call by the target's
/// own name.
pub proof fn lemma_alias_runs_target(reg: Seq<(Seq<char>, Kind)>, a: Seq<char>, b: Seq<char>)
    requires
        find(reg, a) == Some(Kind::Alias(b)),
        find(reg, b) matches Some(k) && !(k is Alias),
    ensures
        resolve_at(reg, a) == resolve_at(reg, b),
        resolve_at(reg, a) is Some,
{
}

} // verus!
