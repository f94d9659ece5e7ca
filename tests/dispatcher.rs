use surreal_local::endpoint::{resolve_location, Config};
use surreal_local::router::{Action, Event, Phase, Route, Router};
use surreal_local::value::{Error, Method, Value};
use surreal_local::vars::Variables;
use url::Url;

fn serving() -> Router {
    let (mut router, _) = Router::begin(Config::default(), Ok("memory".to_string()));
    router.step(Event::Constructed(Ok(())));
    router
}

fn request(router: &mut Router, id: i64, method: Method) -> Value {
    match router.step(Event::Received(Route { id, method })) {
        Action::Reply(Ok(v)) => v,
        other => panic!("unexpected {:?}", other),
    }
}

#[test]
fn memory_connection_scenario() {
    let location = resolve_location(&Url::parse("mem://").unwrap());
    let (mut router, action) = Router::begin(Config::default(), location);
    assert!(matches!(action, Action::Construct(ref l) if l == "memory"));
    assert!(matches!(router.step(Event::Constructed(Ok(()))), Action::Established(_)));
    assert_eq!(request(&mut router, 0, Method::SetVariable("x".to_string(), Value::Int(42))), Value::Unit);
    assert_eq!(request(&mut router, 1, Method::Evaluate("x".to_string())), Value::Int(42));
    assert!(matches!(router.step(Event::Closed), Action::Stop));
    assert_eq!(router.phase(), Phase::Stopped);
}

#[test]
fn requests_execute_in_issue_order() {
    let mut router = serving();
    for i in 0..20i64 {
        request(&mut router, 2 * i, Method::SetVariable("n".to_string(), Value::Int(i)));
        assert_eq!(request(&mut router, 2 * i + 1, Method::Evaluate("n".to_string())), Value::Int(i));
    }
}

#[test]
fn concurrent_bindings_leave_one_value() {
    let mut router = serving();
    let ids: Vec<i64> = vec![7, 3, 11, 5, 2];
    for id in &ids {
        request(&mut router, *id, Method::SetVariable("X".to_string(), Value::Int(*id)));
    }
    let v = request(&mut router, 100, Method::Evaluate("X".to_string()));
    assert_eq!(v, Value::Int(2));
    assert!(ids.iter().any(|i| Value::Int(*i) == v));
}

#[test]
fn sentinel_stops_before_later_routes() {
    let mut router = serving();
    request(&mut router, 0, Method::SetVariable("a".to_string(), Value::Bool(true)));
    assert!(matches!(router.step(Event::Sentinel), Action::Stop));
    let later = Route { id: 1, method: Method::Evaluate("a".to_string()) };
    assert!(matches!(router.step(Event::Received(later)), Action::Stop));
    assert_eq!(router.phase(), Phase::Stopped);
}

#[test]
fn unbound_variable_evaluates_to_unit() {
    let mut router = serving();
    assert_eq!(request(&mut router, 0, Method::Evaluate("missing".to_string())), Value::Unit);
    request(&mut router, 1, Method::SetVariable("m".to_string(), Value::Int(-4)));
    request(&mut router, 2, Method::UnsetVariable("m".to_string()));
    assert_eq!(request(&mut router, 3, Method::Evaluate("m".to_string())), Value::Unit);
}

#[test]
fn use_keeps_unspecified_selection() {
    let mut router = serving();
    let r = request(&mut router, 0, Method::Use { namespace: Some("ns".to_string()), database: None });
    assert_eq!(r, Value::Unit);
    assert_eq!(router.phase(), Phase::Serving);
}

#[test]
fn events_before_serving_wait() {
    let (mut router, _) = Router::begin(Config::default(), Ok("memory".to_string()));
    let route = Route { id: 0, method: Method::Evaluate("x".to_string()) };
    assert!(matches!(router.step(Event::Received(route)), Action::Wait));
    assert_eq!(router.phase(), Phase::Constructing);
}

#[test]
fn events_while_executing_wait() {
    let mut router = serving();
    router.step(Event::Received(Route { id: 0, method: Method::Query("x".to_string()) }));
    assert!(matches!(router.step(Event::Sentinel), Action::Wait));
    assert_eq!(router.phase(), Phase::Executing);
}

#[test]
fn variables_keep_insertion_order() {
    let mut v = Variables::new();
    v.insert("b".to_string(), Value::Int(1));
    v.insert("a".to_string(), Value::Int(2));
    v.insert("b".to_string(), Value::Int(3));
    assert_eq!(v.len(), 2);
    assert_eq!(v.get(&"b".to_string()), Some(Value::Int(3)));
    assert_eq!(v.get(&"a".to_string()), Some(Value::Int(2)));
    v.remove(&"b".to_string());
    assert_eq!(v.len(), 1);
    assert_eq!(v.get(&"b".to_string()), None);
    v.remove(&"zzz".to_string());
    assert_eq!(v.len(), 1);
}

#[test]
fn query_goes_to_engine_and_failure_is_isolated() {
    let mut router = serving();
    request(&mut router, 0, Method::SetVariable("kept".to_string(), Value::Int(9)));
    let q = Route { id: 1, method: Method::Query("SELECT * FROM t".to_string()) };
    let (route, session, mut vars) = match router.step(Event::Received(q)) {
        Action::Execute(route, session, vars) => (route, session, vars),
        other => panic!("unexpected {:?}", other),
    };
    assert_eq!(route.id, 1);
    assert!(matches!(route.method, Method::Query(ref s) if s == "SELECT * FROM t"));
    assert_eq!(vars.get(&"kept".to_string()), Some(Value::Int(9)));
    assert_eq!(router.phase(), Phase::Executing);
    vars.insert("partial".to_string(), Value::Bool(false));
    let failed = Error::Engine("parse error".to_string());
    let a = router.step(Event::Executed(Err(failed), session, vars));
    assert!(matches!(a, Action::Reply(Err(Error::Engine(ref m))) if m == "parse error"));
    assert_eq!(router.phase(), Phase::Serving);
    assert_eq!(request(&mut router, 2, Method::Evaluate("kept".to_string())), Value::Int(9));
    assert_eq!(request(&mut router, 3, Method::Evaluate("partial".to_string())), Value::Bool(false));
}

#[test]
fn query_result_is_replied() {
    let mut router = serving();
    request(&mut router, 0, Method::Use { namespace: Some("ns".to_string()), database: Some("db".to_string()) });
    let q = Route { id: 1, method: Method::Query("RETURN 5".to_string()) };
    let (session, vars) = match router.step(Event::Received(q)) {
        Action::Execute(_, session, vars) => (session, vars),
        other => panic!("unexpected {:?}", other),
    };
    assert_eq!(session.namespace.as_deref(), Some("ns"));
    assert_eq!(session.database.as_deref(), Some("db"));
    let a = router.step(Event::Executed(Ok(Value::Int(5)), session, vars));
    assert!(matches!(a, Action::Reply(Ok(Value::Int(5)))));
}
