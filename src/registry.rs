//! Handler contracts and the registry that maps method names to handlers.
use vstd::prelude::*;
use crate::text::same_text;
use crate::types::{Error, Params, Value};

verus! {

/// A method that answers at once.
pub trait SyncMethodCommand: Send + Sync {
    fn execute(&self, params: Params) -> Result<Value, Error>;
}

/// A method that hands its result to a `Ready` slot.
pub trait AsyncMethodCommand: Send + Sync {
    fn execute(&self, params: Params, ready: &mut Ready);
}

/// A notification handler: it never answers.
pub trait NotificationCommand: Send + Sync {
    fn execute(&self, params: Params);
}

/// A method that also receives the request's metadata.
pub trait RpcMethod<M>: Send + Sync {
    fn call(&self, params: Params, meta: M) -> Result<Value, Error>;
}

/// A notification handler that also receives the request's metadata.
pub trait RpcNotification<M>: Send + Sync {
    fn execute(&self, params: Params, meta: M);
}

/// The slot into which an asynchronous method puts its result.
pub struct Ready {
    result: Option<Result<Value, Error>>,
}

impl Ready {
    pub closed spec fn outcome(&self) -> Option<Result<Value, Error>> {
        self.result
    }

    pub fn new() -> (r: Ready)
        ensures
            r.outcome() is None,
    {
        Ready { result: None }
    }

    /// Delivers the result; a later delivery replaces an earlier one.
    pub fn ready(&mut self, result: Result<Value, Error>)
        ensures
            final(self).outcome() == Some(result),
    {
        self.result = Some(result);
    }

    /// The delivered result, or an internal error if none was delivered.
    pub fn into_result(self) -> (r: Result<Value, Error>)
        ensures
            self.outcome() matches Some(x) ==> r == x,
            self.outcome() is None ==> (r matches Err(e) && crate::types::error_is(
                e,
                crate::types::ErrorCode::InternalError,
                "Internal error"@,
            )),
    {
        match self.result {
            Some(x) => x,
            None => Err(Error::internal_error()),
        }
    }
}

/// A registry entry; `M` is the type of the metadata that transports pass
/// with each request.
#[verifier::reject_recursive_types(M)]
pub enum RemoteProcedure<M> {
    Method(Box<dyn SyncMethodCommand>),
    AsyncMethod(Box<dyn AsyncMethodCommand>),
    MethodWithMeta(Box<dyn RpcMethod<M>>),
    Notification(Box<dyn NotificationCommand>),
    NotificationWithMeta(Box<dyn RpcNotification<M>>),
    /// Another name for the entry registered under the given name.
    Alias(String),
}

/// What an entry is, as far as routing goes.
pub enum Kind {
    Method,
    Notification,
    Alias(Seq<char>),
}

pub open spec fn kind_of<M>(p: RemoteProcedure<M>) -> Kind {
    match p {
        RemoteProcedure::Method(_) => Kind::Method,
        RemoteProcedure::AsyncMethod(_) => Kind::Method,
        RemoteProcedure::MethodWithMeta(_) => Kind::Method,
        RemoteProcedure::Notification(_) => Kind::Notification,
        RemoteProcedure::NotificationWithMeta(_) => Kind::Notification,
        RemoteProcedure::Alias(t) => Kind::Alias(t@),
    }
}

pub open spec fn entries_view<M>(es: Seq<(String, RemoteProcedure<M>)>) -> Seq<(Seq<char>, Kind)> {
    es.map_values(|e: (String, RemoteProcedure<M>)| (e.0@, kind_of(e.1)))
}

/// The index of the latest entry registered under `name`: the latest
/// registration wins.
pub open spec fn last_index(reg: Seq<(Seq<char>, Kind)>, name: Seq<char>) -> Option<int>
    decreases reg.len(),
{
    if reg.len() == 0 {
        None
    } else if reg.last().0 == name {
        Some(reg.len() - 1)
    } else {
        last_index(reg.drop_last(), name)
    }
}

/// The entry registered under `name`.
pub open spec fn find(reg: Seq<(Seq<char>, Kind)>, name: Seq<char>) -> Option<Kind> {
    match last_index(reg, name) {
        Some(i) => Some(reg[i].1),
        None => None,
    }
}

/// The index of the entry that `name` leads to: an alias is followed once,
/// and leads nowhere if its target is missing or is itself an alias.
pub open spec fn resolve_at(reg: Seq<(Seq<char>, Kind)>, name: Seq<char>) -> Option<int> {
    match last_index(reg, name) {
        Some(i) => match reg[i].1 {
            Kind::Alias(t) => match last_index(reg, t) {
                Some(j) => if reg[j].1 is Alias {
                    None
                } else {
                    Some(j)
                },
                None => None,
            },
            _ => Some(i),
        },
        None => None,
    }
}

/// The entry that `name` leads to.
pub open spec fn resolve(reg: Seq<(Seq<char>, Kind)>, name: Seq<char>) -> Option<Kind> {
    match resolve_at(reg, name) {
        Some(i) => Some(reg[i].1),
        None => None,
    }
}

/// The latest entry under a name is registered under that name, and no
/// later entry is.
pub proof fn lemma_last_index(reg: Seq<(Seq<char>, Kind)>, name: Seq<char>)
    ensures
        last_index(reg, name) matches Some(i) ==> 0 <= i < reg.len() && reg[i].0 == name
            && forall|j: int| i < j < reg.len() ==> reg[j].0 != name,
        last_index(reg, name) is None ==> forall|j: int| 0 <= j < reg.len() ==> reg[j].0 != name,
    decreases reg.len(),
{
    if reg.len() > 0 {
        lemma_last_index(reg.drop_last(), name);
        if reg.last().0 != name {
            assert forall|j: int| 0 <= j < reg.len() - 1 implies reg[j] == reg.drop_last()[j] by {}
        }
    }
}

/// The entry that a name resolves to lies in the registry and is not an
/// alias.
pub proof fn lemma_resolve_at(reg: Seq<(Seq<char>, Kind)>, name: Seq<char>)
    ensures
        resolve_at(reg, name) matches Some(i) ==> 0 <= i < reg.len() && !(reg[i].1 is Alias),
{
    lemma_last_index(reg, name);
    if let Some(i) = last_index(reg, name) {
        if let Kind::Alias(t) = reg[i].1 {
            lemma_last_index(reg, t);
        }
    }
}

/// An entry just registered under a name that is not an alias is what the
/// name resolves to.
pub proof fn lemma_added_entry_resolves(reg: Seq<(Seq<char>, Kind)>, name: Seq<char>, k: Kind)
    requires
        !(k is Alias),
    ensures
        resolve_at(reg.push((name, k)), name) == Some(reg.len() as int),
{
    assert(reg.push((name, k)).last() == (name, k));
}

proof fn lemma_last_index_step(reg: Seq<(Seq<char>, Kind)>, i: int, name: Seq<char>)
    requires
        0 < i <= reg.len(),
    ensures
        last_index(reg.subrange(0, i), name) == if reg[i - 1].0 == name {
            Some(i - 1)
        } else {
            last_index(reg.subrange(0, i - 1), name)
        },
{
    assert(reg.subrange(0, i).drop_last() =~= reg.subrange(0, i - 1));
}

/// The index of the latest entry registered under `name`.
pub(crate) fn find_index<M>(es: &Vec<(String, RemoteProcedure<M>)>, name: &str) -> (r: Option<usize>)
    ensures
        match r {
            Some(i) => last_index(entries_view(es@), name@) == Some(i as int),
            None => last_index(entries_view(es@), name@) is None,
        },
{
    let ghost reg = entries_view(es@);
    let mut i: usize = es.len();
    assert(reg.subrange(0, i as int) =~= reg);
    while i > 0
        invariant
            reg == entries_view(es@),
            i <= es@.len(),
            last_index(reg, name@) == last_index(reg.subrange(0, i as int), name@),
        decreases i,
    {
        proof {
            lemma_last_index_step(reg, i as int, name@);
        }
        if same_text(es[i - 1].0.as_str(), name) {
            return Some(i - 1);
        }
        i -= 1;
    }
    None
}

/// The index of the entry that `name` resolves to, following an alias once.
pub(crate) fn resolve_index<M>(es: &Vec<(String, RemoteProcedure<M>)>, name: &str) -> (r: Option<usize>)
    ensures
        match r {
            Some(i) => resolve_at(entries_view(es@), name@) == Some(i as int),
            None => resolve_at(entries_view(es@), name@) is None,
        },
{
    let ghost reg = entries_view(es@);
    proof {
        lemma_last_index(reg, name@);
    }
    match find_index(es, name) {
        None => None,
        Some(i) => match &es[i].1 {
            RemoteProcedure::Alias(target) => {
                proof {
                    lemma_last_index(reg, target@);
                }
                match find_index(es, target.as_str()) {
                    None => None,
                    Some(j) => match &es[j].1 {
                        RemoteProcedure::Alias(_) => None,
                        _ => Some(j),
                    },
                }
            },
            _ => Some(i),
        },
    }
}

/// A set of named procedures, merged into a handler in one step.
#[verifier::reject_recursive_types(M)]
pub struct IoDelegate<M> {
    procedures: Vec<(String, RemoteProcedure<M>)>,
}

impl<M> View for IoDelegate<M> {
    type V = Seq<(Seq<char>, Kind)>;

    closed spec fn view(&self) -> Seq<(Seq<char>, Kind)> {
        entries_view(self.procedures@)
    }
}

impl IoDelegate<()> {
    /// An empty delegate for handlers without metadata.
    pub fn new() -> (r: IoDelegate<()>)
        ensures
            r@ == Seq::<(Seq<char>, Kind)>::empty(),
    {
        Self::with_metadata()
    }
}

impl<M> IoDelegate<M> {
    /// An empty delegate whose requests carry metadata of type `M`.
    pub fn with_metadata() -> (r: IoDelegate<M>)
        ensures
            r@ == Seq::<(Seq<char>, Kind)>::empty(),
    {
        let r = IoDelegate { procedures: Vec::new() };
        assert(r@ =~= Seq::<(Seq<char>, Kind)>::empty());
        r
    }

    /// The entries, in order of registration.
    pub(crate) fn into_entries(self) -> (r: Vec<(String, RemoteProcedure<M>)>)
        ensures
            entries_view(r@) == self@,
    {
        self.procedures
    }

    fn add(&mut self, name: &str, p: RemoteProcedure<M>)
        ensures
            final(self)@ == old(self)@.push((name@, kind_of(p))),
    {
        self.procedures.push((name.to_owned(), p));
        assert(final(self)@ =~= old(self)@.push((name@, kind_of(p))));
    }

    pub fn add_method<C: SyncMethodCommand + 'static>(&mut self, name: &str, command: C)
        ensures
            final(self)@ == old(self)@.push((name@, Kind::Method)),
    {
        self.add(name, RemoteProcedure::Method(Box::new(command)));
    }

    pub fn add_async_method<C: AsyncMethodCommand + 'static>(&mut self, name: &str, command: C)
        ensures
            final(self)@ == old(self)@.push((name@, Kind::Method)),
    {
        self.add(name, RemoteProcedure::AsyncMethod(Box::new(command)));
    }

    pub fn add_notification<C: NotificationCommand + 'static>(&mut self, name: &str, command: C)
        ensures
            final(self)@ == old(self)@.push((name@, Kind::Notification)),
    {
        self.add(name, RemoteProcedure::Notification(Box::new(command)));
    }

    pub fn add_method_with_meta<C: RpcMethod<M> + 'static>(&mut self, name: &str, command: C)
        ensures
            final(self)@ == old(self)@.push((name@, Kind::Method)),
    {
        self.add(name, RemoteProcedure::MethodWithMeta(Box::new(command)));
    }

    pub fn add_notification_with_meta<C: RpcNotification<M> + 'static>(&mut self, name: &str, command: C)
        ensures
            final(self)@ == old(self)@.push((name@, Kind::Notification)),
    {
        self.add(name, RemoteProcedure::NotificationWithMeta(Box::new(command)));
    }

    /// Registers `alias` as another name for `target`.
    pub fn add_alias(&mut self, alias: &str, target: &str)
        ensures
            final(self)@ == old(self)@.push((alias@, Kind::Alias(target@))),
    {
        self.add(alias, RemoteProcedure::Alias(target.to_owned()));
    }
}

} // verus!
