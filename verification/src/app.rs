use vstd::prelude::*;
use std::sync::Arc;
use crate::error::RpcError;
use crate::service::{reply_view, Service, ServiceHandle};
use crate::transport::{Request, RequestView, Response};

verus! {

/// Whether no two of `bindings` carry the same name.
spec fn distinct_names<H>(bindings: Seq<Service<H>>) -> bool {
    forall|i: int, j: int|
        #![trigger bindings[i], bindings[j]]
        0 <= i < j < bindings.len() ==> bindings[i].name@ != bindings[j].name@
}

/// Whether one of `bindings` carries `name`.
spec fn binds<H>(bindings: Seq<Service<H>>, name: Seq<char>) -> bool {
    exists|i: int| 0 <= i < bindings.len() && (#[trigger] bindings[i]).name@ == name
}

/// A place in `bindings` at which `name` is bound, where there is one.
spec fn place_of<H>(bindings: Seq<Service<H>>, name: Seq<char>) -> int {
    choose|i: int| 0 <= i < bindings.len() && (#[trigger] bindings[i]).name@ == name
}

/// The table that `bindings` stand for: each bound name with its handler.
spec fn table<H>(bindings: Seq<Service<H>>) -> Map<Seq<char>, H> {
    Map::new(
        |name: Seq<char>| binds(bindings, name),
        |name: Seq<char>| bindings[place_of(bindings, name)].handle,
    )
}

/// What a dispatch came to: the payload of the response, or the error.
pub open spec fn outcome_view(out: Result<Response, RpcError>) -> Result<Seq<u8>, RpcError> {
    match out {
        Ok(response) => Ok(response.payload@),
        Err(e) => Err(e),
    }
}

/// With names that differ, the table holds at each bound name the handler of
/// the one binding that carries it.
proof fn lemma_table_at<H>(bindings: Seq<Service<H>>, i: int)
    requires
        distinct_names(bindings),
        0 <= i < bindings.len(),
    ensures
        table(bindings).contains_key(bindings[i].name@),
        table(bindings)[bindings[i].name@] == bindings[i].handle,
        place_of(bindings, bindings[i].name@) == i,
{
    let name = bindings[i].name@;
    let p = place_of(bindings, name);
    assert(0 <= p < bindings.len() && bindings[p].name@ == name);
    if p < i {
        assert(bindings[p].name@ != bindings[i].name@);
    } else if i < p {
        assert(bindings[i].name@ != bindings[p].name@);
    }
}

/// Adding a binding under a name not yet bound inserts it into the table.
proof fn lemma_table_push<H>(bindings: Seq<Service<H>>, binding: Service<H>)
    requires
        distinct_names(bindings),
        !binds(bindings, binding.name@),
    ensures
        distinct_names(bindings.push(binding)),
        table(bindings.push(binding)) == table(bindings).insert(binding.name@, binding.handle),
{
    let after = bindings.push(binding);
    assert forall|i: int, j: int|
        #![trigger after[i], after[j]]
        0 <= i < j < after.len() implies after[i].name@ != after[j].name@ by {
        if j < bindings.len() {
            assert(bindings[i].name@ != bindings[j].name@);
        } else {
            assert(after[i] == bindings[i]);
        }
    }
    assert(after[bindings.len() as int] == binding);
    assert forall|i: int| 0 <= i < bindings.len() implies after[i] == #[trigger] bindings[i] by {}
    lemma_table_replaced(bindings, after, binding);
}

/// Putting a binding in the place of the one that carried its name replaces
/// the handler at that name and nothing else.
proof fn lemma_table_update<H>(bindings: Seq<Service<H>>, i: int, binding: Service<H>)
    requires
        distinct_names(bindings),
        0 <= i < bindings.len(),
        bindings[i].name@ == binding.name@,
    ensures
        distinct_names(bindings.update(i, binding)),
        table(bindings.update(i, binding)) == table(bindings).insert(
            binding.name@,
            binding.handle,
        ),
{
    let after = bindings.update(i, binding);
    assert forall|a: int, b: int|
        #![trigger after[a], after[b]]
        0 <= a < b < after.len() implies after[a].name@ != after[b].name@ by {
        assert(after[a].name@ == bindings[a].name@);
        assert(after[b].name@ == bindings[b].name@);
    }
    assert(after[i] == binding);
    assert forall|j: int| 0 <= j < bindings.len() && j != i implies after[j]
        == #[trigger] bindings[j] by {}
    lemma_table_replaced(bindings, after, binding);
}

/// The common part of the two lemmas above: `after` binds `binding`, and every
/// other name as `before` does.
proof fn lemma_table_replaced<H>(
    before: Seq<Service<H>>,
    after: Seq<Service<H>>,
    binding: Service<H>,
)
    requires
        distinct_names(before),
        distinct_names(after),
        exists|k: int| 0 <= k < after.len() && after[k] == binding,
        forall|i: int|
            0 <= i < before.len() && (#[trigger] before[i]).name@ != binding.name@
                ==> exists|j: int| 0 <= j < after.len() && #[trigger] after[j] == before[i],
        forall|j: int|
            0 <= j < after.len() && (#[trigger] after[j]).name@ != binding.name@
                ==> exists|i: int| 0 <= i < before.len() && #[trigger] before[i] == after[j],
    ensures
        table(after) == table(before).insert(binding.name@, binding.handle),
{
    let goal = table(before).insert(binding.name@, binding.handle);
    let k = choose|k: int| 0 <= k < after.len() && after[k] == binding;
    lemma_table_at(after, k);
    assert forall|name: Seq<char>| table(after).contains_key(name) <==> goal.contains_key(
        name,
    ) by {
        if name != binding.name@ {
            if binds(after, name) {
                let j = place_of(after, name);
                let i = choose|i: int| 0 <= i < before.len() && #[trigger] before[i] == after[j];
                assert(before[i].name@ == name);
            }
            if binds(before, name) {
                let i = place_of(before, name);
                let j = choose|j: int| 0 <= j < after.len() && #[trigger] after[j] == before[i];
                assert(after[j].name@ == name);
            }
        }
    }
    assert forall|name: Seq<char>| table(after).contains_key(name) implies table(after)[name]
        == goal[name] by {
        if name != binding.name@ {
            let j = place_of(after, name);
            let i = choose|i: int| 0 <= i < before.len() && #[trigger] before[i] == after[j];
            lemma_table_at(before, i);
        }
    }
    assert(table(after) =~= goal);
}

/// Wraps what a handler replied: its bytes become the payload of the response,
/// its error stays the error.
pub fn respond(reply: Result<Vec<u8>, RpcError>) -> (out: Result<Response, RpcError>)
    ensures
        match reply {
            Ok(payload) => out == Ok::<Response, RpcError>((Response { payload })),
            Err(e) => out == Err::<Response, RpcError>(e),
        },
        outcome_view(out) == reply_view(reply),
{
    match reply {
        Ok(payload) => Ok(Response { payload }),
        Err(e) => Err(e),
    }
}

/// The names carried by `names`, as plain data.
pub open spec fn name_views(names: Seq<String>) -> Seq<Seq<char>> {
    names.map_values(|name: String| name@)
}

/// The registry: the state that every handler shares, and the table of
/// bindings by name. `H` is the uniform type behind which handlers are stored.
#[verifier::reject_recursive_types(State)]
pub struct App<State, H = Box<dyn ServiceHandle<State>>> {
    state: Arc<State>,
    services: Vec<Service<H>>,
}

impl<State, H> App<State, H> {
    #[verifier::type_invariant]
    spec fn names_differ(self) -> bool {
        distinct_names(self.services@)
    }

    /// The table of bindings: each registered name with its handler.
    pub closed spec fn view(&self) -> Map<Seq<char>, H> {
        table(self.services@)
    }

    /// The state that is handed to every handler.
    pub closed spec fn state(&self) -> State {
        *self.state
    }
}

impl<State, H: ServiceHandle<State>> App<State, H> {
    /// Whether a request that carries `name` reaches a handler: the name is
    /// not empty and a binding is registered under it.
    pub open spec fn resolves(&self, name: Seq<char>) -> bool {
        name.len() > 0 && self@.contains_key(name)
    }

    /// Whether `outcome` is a way in which the dispatch of `request` may end:
    /// with the reply of the handler bound to the request's name, given the
    /// shared state and the request's payload, or, where the name reaches no
    /// handler, with `UnknownService`.
    pub open spec fn dispatches(
        &self,
        request: RequestView,
        outcome: Result<Seq<u8>, RpcError>,
    ) -> bool {
        if self.resolves(request.name) {
            self@[request.name].answers(self.state(), request.payload, outcome)
        } else {
            outcome == Err::<Seq<u8>, RpcError>(RpcError::UnknownService)
        }
    }

    /// A registry around `state`, with no binding yet.
    pub fn new(state: Arc<State>) -> (app: Self)
        ensures
            app@ == Map::<Seq<char>, H>::empty(),
            app.state() == *state,
    {
        let app = App { state, services: Vec::new() };
        assert(app@ =~= Map::<Seq<char>, H>::empty());
        app
    }

    /// Where `name` is bound, if anywhere.
    fn find(&self, name: &String) -> (place: Option<usize>)
        ensures
            match place {
                Some(i) => i < self.services@.len() && self.services@[i as int].name@ == name@,
                None => !binds(self.services@, name@),
            },
    {
        let mut i: usize = 0;
        while i < self.services.len()
            invariant
                i <= self.services@.len(),
                forall|j: int| 0 <= j < i ==> (#[trigger] self.services@[j]).name@ != name@,
            decreases self.services@.len() - i,
        {
            if self.services[i].name == *name {
                return Some(i);
            }
            i = i + 1;
        }
        None
    }

    /// Registers `binding` under its name. A binding registered earlier under
    /// the same name is replaced without notice. Returns the registry, so that
    /// registrations can be chained.
    pub fn service(&mut self, binding: Service<H>) -> (app: &mut Self)
        ensures
            app@ == old(self)@.insert(binding.name@, binding.handle),
            app.state() == old(self).state(),
            *final(self) == *final(app),
    {
        proof {
            use_type_invariant(&*self);
        }
        let place = self.find(&binding.name);
        let mut services: Vec<Service<H>> = Vec::new();
        std::mem::swap(&mut self.services, &mut services);
        match place {
            Some(i) => {
                proof {
                    lemma_table_update(services@, i as int, binding);
                }
                services[i] = binding;
            },
            None => {
                proof {
                    lemma_table_push(services@, binding);
                }
                services.push(binding);
            },
        }
        std::mem::swap(&mut self.services, &mut services);
        self
    }

    /// The registered names, each once, in no particular order.
    pub fn services(&self) -> (names: Vec<String>)
        ensures
            name_views(names@).no_duplicates(),
            forall|name: Seq<char>| name_views(names@).contains(name) <==> self@.contains_key(name),
    {
        proof {
            use_type_invariant(self);
        }
        let mut names: Vec<String> = Vec::new();
        let mut i: usize = 0;
        while i < self.services.len()
            invariant
                i <= self.services@.len(),
                names@.len() == i,
                forall|j: int| 0 <= j < i ==> (#[trigger] names@[j])@ == self.services@[j].name@,
            decreases self.services@.len() - i,
        {
            names.push(self.services[i].name.clone());
            i = i + 1;
        }
        proof {
            let views = name_views(names@);
            assert forall|a: int, b: int| 0 <= a < views.len() && 0 <= b < views.len() && a
                != b implies views[a] != views[b] by {
                assert(views[a] == names@[a]@);
                assert(views[b] == names@[b]@);
                if a < b {
                    assert(self.services@[a].name@ != self.services@[b].name@);
                } else {
                    assert(self.services@[b].name@ != self.services@[a].name@);
                }
            }
            assert forall|name: Seq<char>| views.contains(name) <==> self@.contains_key(name) by {
                if views.contains(name) {
                    let j = choose|j: int| 0 <= j < views.len() && views[j] == name;
                    assert(views[j] == names@[j]@);
                    assert(self.services@[j].name@ == name);
                }
                if self@.contains_key(name) {
                    let j = place_of(self.services@, name);
                    assert(views[j] == names@[j]@);
                }
            }
        }
        names
    }

    /// Answers one request: finds the handler bound to the request's name,
    /// hands it the shared state and the request's payload, and wraps its reply
    /// in a response. A request whose name is empty or not registered ends in
    /// `UnknownService`, and no handler runs.
    pub fn dispatch(&self, request: Request) -> (out: Result<Response, RpcError>)
        ensures
            self.dispatches(request@, outcome_view(out)),
    {
        proof {
            use_type_invariant(self);
        }
        if request.name.as_str().is_empty() {
            return Err(RpcError::UnknownService);
        }
        match self.find(&request.name) {
            None => Err(RpcError::UnknownService),
            Some(i) => {
                proof {
                    lemma_table_at(self.services@, i as int);
                }
                let reply = self.services[i].handle.serve(Arc::clone(&self.state), request.payload);
                respond(reply)
            },
        }
    }
}

impl<State: Default, H: ServiceHandle<State>> Default for App<State, H> {
    /// A registry around the default state, with no binding yet.
    fn default() -> (app: Self)
        ensures
            app@ == Map::<Seq<char>, H>::empty(),
            State::default.ensures((), app.state()),
    {
        Self::new(Arc::new(State::default()))
    }
}

/// A request for a name that is not registered never ends in a response: its
/// dispatch ends in `UnknownService`.
pub proof fn lemma_unregistered_name_fails<State, H: ServiceHandle<State>>(
    app: App<State, H>,
    request: RequestView,
    outcome: Result<Seq<u8>, RpcError>,
)
    requires
        !app@.contains_key(request.name),
        app.dispatches(request, outcome),
    ensures
        outcome == Err::<Seq<u8>, RpcError>(RpcError::UnknownService),
{
}

/// A dispatch that ends in a response was made under a name that is not empty
/// and is registered.
pub proof fn lemma_response_needs_registered_name<State, H: ServiceHandle<State>>(
    app: App<State, H>,
    request: RequestView,
    payload: Seq<u8>,
)
    requires
        app.dispatches(request, Ok(payload)),
    ensures
        request.name.len() > 0,
        app@.contains_key(request.name),
{
}

/// Where the handler bound to a name returns every request unchanged, the
/// dispatch of a request under that name ends in a response whose payload is
/// the payload of the request.
pub proof fn lemma_echo_round_trip<State, H: ServiceHandle<State>>(
    app: App<State, H>,
    request: RequestView,
    outcome: Result<Seq<u8>, RpcError>,
)
    requires
        app.resolves(request.name),
        forall|state: State, bytes: Seq<u8>, reply: Result<Seq<u8>, RpcError>|
            #[trigger] app@[request.name].answers(state, bytes, reply) ==> reply == Ok::<
                Seq<u8>,
                RpcError,
            >(bytes),
        app.dispatches(request, outcome),
    ensures
        outcome == Ok::<Seq<u8>, RpcError>(request.payload),
{
}

} // verus!
