use vstd::prelude::*;
use crate::endpoint::{resolve_location, settings, settings_of, Config, EngineSettings, Endpoint, Root};
use crate::value::{Error, Method, Value};
use crate::endpoint::{is_file_backed, is_memory, memory_location, scheme_of, text_of};
use crate::vars::Variables;

verus! {

/// Where a connection's dispatcher stands.
#[derive(Clone, Copy, Debug, PartialEq, Eq, Structural)]
pub enum Phase {
    /// Waiting for the engine to be constructed.
    Constructing,
    /// Waiting for the root credentials to be provisioned.
    Provisioning,
    /// Executing requests, one at a time.
    Serving,
    /// Waiting for the engine to execute a query.
    Executing,
    /// Ended by a sentinel or by the request queue closing.
    Stopped,
    /// Bootstrap failed; no request is ever executed.
    Failed,
}

/// The identity context of a connection.
#[derive(Clone, Debug)]
pub struct Session {
    pub namespace: Option<String>,
    pub database: Option<String>,
}

impl Default for Session {
    /// The unauthenticated session with nothing selected.
    fn default() -> (r: Session)
        ensures
            r.namespace is None,
            r.database is None,
    {
        Session { namespace: None, database: None }
    }
}

/// One request envelope: its id and what it asks for.
#[derive(Clone, Debug)]
pub struct Route {
    pub id: i64,
    pub method: Method,
}

/// What the dispatcher is told next.
#[derive(Debug)]
pub enum Event {
    /// The engine was constructed at the location asked for, or failed to be.
    Constructed(Result<(), Error>),
    /// The root credentials were provisioned, or failed to be.
    Provisioned(Result<(), Error>),
    /// A request came off the queue.
    Received(Route),
    /// The engine executed the query it was handed, or failed to; with the
    /// session and variables as it left them.
    Executed(Result<Value, Error>, Session, Variables),
    /// The termination marker came off the queue.
    Sentinel,
    /// The queue is closed and empty.
    Closed,
}

/// What the dispatcher asks to be done next.
#[derive(Debug)]
pub enum Action {
    /// Construct the engine at this backend location.
    Construct(String),
    /// Provision these root credentials on the engine.
    Provision(Root),
    /// Report success on the setup channel, then apply these settings to the engine.
    Established(EngineSettings),
    /// Report this failure on the setup channel; the connection is not established.
    Refused(Error),
    /// Have the engine execute this request against this session and these
    /// variables, then hand all three back.
    Execute(Route, Session, Variables),
    /// Send this reply on the request's reply channel, then take the next item.
    Reply(Result<Value, Error>),
    /// Release the engine, the session and the variables.
    Stop,
    /// The event does not fit the phase: nothing to do.
    Wait,
}

/// The dispatcher's mutable state in mathematical form.
pub type State = (Phase, Session, Map<Seq<char>, Value>);

/// The session, variables and value that executing `m` yields, for the requests
/// that the dispatcher answers itself; a query goes to the engine instead.
pub open spec fn execute(session: Session, vars: Map<Seq<char>, Value>, m: Method) -> (Session, Map<Seq<char>, Value>, Value) {
    match m {
        Method::Use { namespace, database } => (
            Session {
                namespace: if namespace is Some { namespace } else { session.namespace },
                database: if database is Some { database } else { session.database },
            },
            vars,
            Value::Unit,
        ),
        Method::SetVariable(k, v) => (session, vars.insert(k@, v), Value::Unit),
        Method::UnsetVariable(k) => (session, vars.remove(k@), Value::Unit),
        Method::Evaluate(k) => (session, vars, if vars.contains_key(k@) { vars[k@] } else { Value::Unit }),
        Method::Query(_) => (session, vars, Value::Unit),
    }
}

/// What an event that does not fit the phase leads to.
pub open spec fn idle(phase: Phase) -> Action {
    if phase == Phase::Stopped || phase == Phase::Failed {
        Action::Stop
    } else {
        Action::Wait
    }
}

/// The next state and action of a dispatcher with configuration `c` in state `s`
/// on event `e`.
pub open spec fn transition(c: Config, s: State, e: Event) -> (State, Action) {
    let (phase, session, vars) = s;
    match e {
        Event::Constructed(res) => if phase == Phase::Constructing {
            match res {
                Ok(_) => if c.root is Some {
                    ((Phase::Provisioning, session, vars), Action::Provision(c.root->Some_0))
                } else {
                    ((Phase::Serving, session, vars), Action::Established(settings_of(c)))
                },
                Err(err) => ((Phase::Failed, session, vars), Action::Refused(err)),
            }
        } else {
            (s, idle(phase))
        },
        Event::Provisioned(res) => if phase == Phase::Provisioning {
            match res {
                Ok(_) => ((Phase::Serving, session, vars), Action::Established(settings_of(c))),
                Err(err) => ((Phase::Failed, session, vars), Action::Refused(err)),
            }
        } else {
            (s, idle(phase))
        },
        Event::Received(route) => if phase == Phase::Serving {
            if route.method is Query {
                ((Phase::Executing, session, vars), Action::Execute(route, session, Variables::with_view(vars)))
            } else {
                let (s2, v2, val) = execute(session, vars, route.method);
                ((Phase::Serving, s2, v2), Action::Reply(Ok(val)))
            }
        } else {
            (s, idle(phase))
        },
        Event::Executed(res, s2, v2) => if phase == Phase::Executing {
            ((Phase::Serving, s2, v2@), Action::Reply(res))
        } else {
            (s, idle(phase))
        },
        Event::Sentinel | Event::Closed => if phase == Phase::Serving {
            ((Phase::Stopped, session, vars), Action::Stop)
        } else {
            (s, idle(phase))
        },
    }
}

/// Whether two actions agree, variables compared by their mapping.
pub open spec fn same_action(a: Action, b: Action) -> bool {
    match a {
        Action::Execute(r, s, v) => b matches Action::Execute(r2, s2, v2) && r2 == r && s2 == s && v2@ == v@,
        _ => a == b,
    }
}

/// The state after the events, taken in order.
pub open spec fn run(c: Config, s: State, events: Seq<Event>) -> State
    decreases events.len(),
{
    if events.len() == 0 {
        s
    } else {
        transition(c, run(c, s, events.drop_last()), events.last()).0
    }
}

fn clone_root(r: &Root) -> (c: Root)
    ensures
        c == *r,
{
    Root { username: r.username.clone(), password: r.password.clone() }
}

/// The single owner of a connection's session and variables: bootstraps the
/// engine, then executes the requests it is handed one at a time.
pub struct Router {
    phase: Phase,
    config: Config,
    session: Session,
    vars: Variables,
    /// The session and variables handed to the engine while a query executes.
    lent: Ghost<(Session, Map<Seq<char>, Value>)>,
}

impl Router {
    pub closed spec fn state(&self) -> State {
        if self.phase == Phase::Executing {
            (self.phase, self.lent@.0, self.lent@.1)
        } else {
            (self.phase, self.session, self.vars@)
        }
    }

    pub closed spec fn config(&self) -> Config {
        self.config
    }

    /// A dispatcher for `config` whose backend location resolved to `location`:
    /// it asks for the engine to be constructed there, or reports the failure.
    pub fn begin(config: Config, location: Result<String, Error>) -> (r: (Router, Action))
        ensures
            r.0.config() == config,
            r.0.state().1 == (Session { namespace: None, database: None }),
            r.0.state().2 == Map::<Seq<char>, Value>::empty(),
            match location {
                Ok(loc) => r.0.state().0 == Phase::Constructing && r.1 == Action::Construct(loc),
                Err(e) => r.0.state().0 == Phase::Failed && r.1 == Action::Refused(e),
            },
    {
        let (phase, action) = match location {
            Ok(loc) => (Phase::Constructing, Action::Construct(loc)),
            Err(e) => (Phase::Failed, Action::Refused(e)),
        };
        let lent = Ghost((Session { namespace: None, database: None }, Map::empty()));
        (Router { phase, config, session: Session::default(), vars: Variables::new(), lent }, action)
    }

    /// A dispatcher for a connection descriptor: it resolves the backend location
    /// and asks for the engine, or reports an `InvalidUrl` failure.
    pub fn start(endpoint: Endpoint) -> (r: (Router, Action))
        ensures
            r.0.config() == endpoint.config,
            r.0.state().1 == (Session { namespace: None, database: None }),
            r.0.state().2 == Map::<Seq<char>, Value>::empty(),
            (r.1 is Construct) ==> (r.0.state().0 == Phase::Constructing),
            (r.1 is Refused) ==> (r.0.state().0 == Phase::Failed),
            (r.1 is Construct || r.1 is Refused),
            is_memory(scheme_of(endpoint.address)) ==> (r.1 is Construct && r.1->Construct_0@ == memory_location()),
            !is_memory(scheme_of(endpoint.address)) && !is_file_backed(scheme_of(endpoint.address)) ==> (r.1 is Construct
                && r.1->Construct_0@ == text_of(endpoint.address)),
            r.1 matches Action::Refused(e) ==> (e is InvalidUrl && e->InvalidUrl_0@ == text_of(endpoint.address)
                && is_file_backed(scheme_of(endpoint.address))),
    {
        let location = resolve_location(&endpoint.address);
        Router::begin(endpoint.config, location)
    }

    /// Where the dispatcher stands.
    pub fn phase(&self) -> (r: Phase)
        ensures
            r == self.state().0,
    {
        self.phase
    }

    fn execute(&mut self, method: Method) -> (v: Value)
        ensures
            final(self).lent == old(self).lent,
            final(self).phase == old(self).phase,
            final(self).config == old(self).config,
            (final(self).session, final(self).vars@, v) == execute(old(self).session, old(self).vars@, method),
    {
        match method {
            Method::Use { namespace, database } => {
                if namespace.is_some() {
                    self.session.namespace = namespace;
                }
                if database.is_some() {
                    self.session.database = database;
                }
                Value::Unit
            },
            Method::SetVariable(k, v) => {
                self.vars.insert(k, v);
                Value::Unit
            },
            Method::UnsetVariable(k) => {
                self.vars.remove(&k);
                Value::Unit
            },
            Method::Evaluate(k) => match self.vars.get(&k) {
                Some(v) => v,
                None => Value::Unit,
            },
            Method::Query(_) => Value::Unit,
        }
    }

    /// Takes one event: the new state and the action are those of `transition`.
    pub fn step(&mut self, event: Event) -> (a: Action)
        ensures
            final(self).config() == old(self).config(),
            final(self).state() == transition(old(self).config(), old(self).state(), event).0,
            same_action(a, transition(old(self).config(), old(self).state(), event).1),
    {
        let idle = if self.phase == Phase::Stopped || self.phase == Phase::Failed {
            Action::Stop
        } else {
            Action::Wait
        };
        match event {
            Event::Constructed(res) => {
                if self.phase != Phase::Constructing {
                    return idle;
                }
                match res {
                    Ok(()) => match &self.config.root {
                        Some(root) => {
                            self.phase = Phase::Provisioning;
                            Action::Provision(clone_root(root))
                        },
                        None => {
                            self.phase = Phase::Serving;
                            Action::Established(settings(&self.config))
                        },
                    },
                    Err(err) => {
                        self.phase = Phase::Failed;
                        Action::Refused(err)
                    },
                }
            },
            Event::Provisioned(res) => {
                if self.phase != Phase::Provisioning {
                    return idle;
                }
                match res {
                    Ok(()) => {
                        self.phase = Phase::Serving;
                        Action::Established(settings(&self.config))
                    },
                    Err(err) => {
                        self.phase = Phase::Failed;
                        Action::Refused(err)
                    },
                }
            },
            Event::Received(route) => {
                if self.phase != Phase::Serving {
                    return idle;
                }
                if route.method.is_query() {
                    let mut session = Session::default();
                    let mut vars = Variables::new();
                    std::mem::swap(&mut session, &mut self.session);
                    std::mem::swap(&mut vars, &mut self.vars);
                    self.lent = Ghost((session, vars@));
                    proof { Variables::lemma_with_view(vars); }
                    self.phase = Phase::Executing;
                    Action::Execute(route, session, vars)
                } else {
                    let v = self.execute(route.method);
                    Action::Reply(Ok(v))
                }
            },
            Event::Executed(res, session, vars) => {
                if self.phase != Phase::Executing {
                    return idle;
                }
                self.session = session;
                self.vars = vars;
                self.phase = Phase::Serving;
                Action::Reply(res)
            },
            Event::Sentinel | Event::Closed => {
                if self.phase != Phase::Serving {
                    return idle;
                }
                self.phase = Phase::Stopped;
                Action::Stop
            },
        }
    }
}

} // verus!
