use vstd::prelude::*;
use crate::endpoint::{settings_of, Config};
use crate::router::{run, transition, Action, Event, Phase, Route, Session, State};
use crate::vars::Variables;
use crate::value::{Error, Method, Value};

verus! {

/// Whether the dispatcher answers the event itself: a request that is no query.
pub open spec fn answered_locally(e: Event) -> bool {
    e matches Event::Received(r) && !(r.method is Query)
}

/// Whether the event is a request that binds or unbinds the variable `k`.
pub open spec fn touches(e: Event, k: Seq<char>) -> bool {
    e matches Event::Received(r) && (
        (r.method matches Method::SetVariable(n, w) && n@ == k)
        || (r.method matches Method::UnsetVariable(n) && n@ == k))
}

/// Requests that the dispatcher answers itself never take it out of service.
proof fn lemma_local_requests_keep_serving(c: Config, s: State, events: Seq<Event>)
    requires
        s.0 == Phase::Serving,
        forall|i: int| 0 <= i < events.len() ==> answered_locally(#[trigger] events[i]),
    ensures
        run(c, s, events).0 == Phase::Serving,
    decreases events.len(),
{
    if events.len() > 0 {
        let prefix = events.drop_last();
        assert forall|i: int| 0 <= i < prefix.len() implies answered_locally(#[trigger] prefix[i]) by {
            assert(prefix[i] == events[i]);
        }
        lemma_local_requests_keep_serving(c, s, prefix);
        assert(events[events.len() - 1] == events.last());
    }
}

/// A binding made at position `i` is still in place after the first `m` events
/// when none of those after it binds or unbinds the same name.
proof fn lemma_binding_persists(c: Config, s: State, events: Seq<Event>, i: int, m: int, k: Seq<char>, v: Value)
    requires
        s.0 == Phase::Serving,
        0 <= i < m <= events.len(),
        forall|x: int| 0 <= x < m ==> answered_locally(#[trigger] events[x]),
        events[i] matches Event::Received(r) && r.method matches Method::SetVariable(n, w) && n@ == k && w == v,
        forall|x: int| i < x < m ==> !touches(#[trigger] events[x], k),
    ensures
        run(c, s, events.take(m)).0 == Phase::Serving,
        run(c, s, events.take(m)).2.contains_key(k),
        run(c, s, events.take(m)).2[k] == v,
    decreases m - i,
{
    let before = events.take(m - 1);
    assert(events.take(m).drop_last() =~= before);
    assert(events.take(m).last() == events[m - 1]);
    if m - 1 == i {
        assert forall|x: int| 0 <= x < before.len() implies answered_locally(#[trigger] before[x]) by {
            assert(before[x] == events[x]);
        }
        lemma_local_requests_keep_serving(c, s, before);
    } else {
        lemma_binding_persists(c, s, events, i, m - 1, k, v);
        assert(!touches(events[m - 1], k));
    }
}

/// Requests take effect in the order they are executed: a request that
/// evaluates a variable observes the binding made by an earlier request, where
/// no request in between binds or unbinds that name.
pub proof fn lemma_ordered_execution(c: Config, s: State, events: Seq<Event>, i: int, j: int, k: Seq<char>, v: Value)
    requires
        s.0 == Phase::Serving,
        0 <= i < j < events.len(),
        forall|x: int| 0 <= x < j ==> answered_locally(#[trigger] events[x]),
        events[i] matches Event::Received(r) && r.method matches Method::SetVariable(n, w) && n@ == k && w == v,
        events[j] matches Event::Received(r) && r.method matches Method::Evaluate(n) && n@ == k,
        forall|x: int| i < x < j ==> !touches(#[trigger] events[x], k),
    ensures
        transition(c, run(c, s, events.take(j)), events[j]).1 == Action::Reply(Ok(v)),
{
    lemma_binding_persists(c, s, events, i, j, k, v);
}

/// A failed query is answered with its failure alone: the dispatcher keeps
/// serving, with the session and variables as the engine left them, and the
/// engine was handed the request and the session that the dispatcher held.
pub proof fn lemma_failure_isolated(c: Config, s: State, route: Route, err: Error, session: Session, vars: Variables)
    requires
        s.0 == Phase::Serving,
        route.method is Query,
    ensures
        ({
            let (s1, a1) = transition(c, s, Event::Received(route));
            let (s2, a2) = transition(c, s1, Event::Executed(Err(err), session, vars));
            a1 matches Action::Execute(r, held, _) && r == route && held == s.1
                && a2 == Action::Reply(Err(err)) && s2 == (Phase::Serving, session, vars@)
        }),
{
}

/// However many requests bind the same variable, in whatever order they arrive,
/// the variable ends with exactly one of their values: that of the last to arrive.
pub proof fn lemma_single_final_value(c: Config, s: State, name: Seq<char>, events: Seq<Event>)
    requires
        s.0 == Phase::Serving,
        events.len() > 0,
        forall|i: int| 0 <= i < events.len() ==> (#[trigger] events[i] matches Event::Received(r)
            && r.method matches Method::SetVariable(k, w) && k@ == name),
    ensures
        run(c, s, events).0 == Phase::Serving,
        run(c, s, events).2.contains_key(name),
        run(c, s, events).2[name] == events.last()->Received_0.method->SetVariable_1,
        exists|i: int| 0 <= i < events.len()
            && run(c, s, events).2[name] == (#[trigger] events[i])->Received_0.method->SetVariable_1,
{
    let prefix = events.drop_last();
    assert forall|i: int| 0 <= i < prefix.len() implies answered_locally(#[trigger] prefix[i]) by {
        assert(prefix[i] == events[i]);
    }
    lemma_local_requests_keep_serving(c, s, prefix);
    assert(events[events.len() - 1] == events.last());
    assert forall|i: int| 0 <= i < events.len() implies answered_locally(#[trigger] events[i]) by {
        assert(events[i] matches Event::Received(r) && r.method matches Method::SetVariable(k, w) && k@ == name);
    }
    lemma_local_requests_keep_serving(c, s, events);
}

/// A dispatcher that has stopped or failed stays as it is whatever it is handed
/// next, and executes nothing: its only action is to stop.
pub proof fn lemma_ended_is_final(c: Config, s: State, events: Seq<Event>)
    requires
        s.0 == Phase::Stopped || s.0 == Phase::Failed,
    ensures
        run(c, s, events) == s,
        forall|i: int| 0 <= i < events.len() ==> transition(c, s, #[trigger] events[i]) == (s, Action::Stop),
    decreases events.len(),
{
    if events.len() > 0 {
        lemma_ended_is_final(c, s, events.drop_last());
    }
}

/// Credentials gate the bootstrap: without root credentials a successful
/// construction establishes the connection and no event ever asks for
/// provisioning; with them it asks for provisioning, and a provisioning failure
/// refuses the connection with that failure.
pub proof fn lemma_credential_gating(c: Config, s: State, e: Event)
    requires
        s.0 == Phase::Constructing || s.0 == Phase::Provisioning || s.0 == Phase::Serving,
    ensures
        c.root is None ==> !(transition(c, s, e).1 is Provision),
        (s.0 == Phase::Constructing && c.root is None && e matches Event::Constructed(Ok(_))) ==> transition(c, s, e) == (
            (Phase::Serving, s.1, s.2),
            Action::Established(settings_of(c)),
        ),
        (s.0 == Phase::Constructing && c.root is Some && e matches Event::Constructed(Ok(_))) ==> transition(c, s, e) == (
            (Phase::Provisioning, s.1, s.2),
            Action::Provision(c.root->Some_0),
        ),
        (s.0 == Phase::Provisioning && e matches Event::Provisioned(Err(err))) ==> transition(c, s, e) == (
            (Phase::Failed, s.1, s.2),
            Action::Refused(e->Provisioned_0->Err_0),
        ),
        (s.0 == Phase::Constructing && e matches Event::Constructed(Err(err))) ==> transition(c, s, e) == (
            (Phase::Failed, s.1, s.2),
            Action::Refused(e->Constructed_0->Err_0),
        ),
{
}

/// A termination marker stops a serving dispatcher even though the queue stays
/// open: every request taken after it is left unexecuted and unanswered.
pub proof fn lemma_sentinel_ends(c: Config, s: State, later: Seq<Event>)
    requires
        s.0 == Phase::Serving,
    ensures
        ({
            let (s1, a) = transition(c, s, Event::Sentinel);
            a == Action::Stop && s1 == (Phase::Stopped, s.1, s.2) && run(c, s1, later) == s1
                && forall|i: int| 0 <= i < later.len() ==> transition(c, s1, #[trigger] later[i]) == (s1, Action::Stop)
        }),
{
    let (s1, a) = transition(c, s, Event::Sentinel);
    lemma_ended_is_final(c, s1, later);
}

} // verus!
