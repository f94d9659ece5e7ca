use std::time::Duration;
use surreal_local::endpoint::{backend_location, resolve_location, settings, Config, Endpoint, Root};
use surreal_local::handle::{local_features, queue_kind, supports, Feature, QueueKind};
use surreal_local::router::{Action, Event, Phase, Router};
use surreal_local::value::Error;
use url::Url;

fn location(address: &str) -> Result<String, Error> {
    resolve_location(&Url::parse(address).unwrap())
}

#[test]
fn memory_scheme_selects_memory_backend() {
    assert_eq!(location("mem://").unwrap(), "memory");
}

#[test]
fn file_backed_scheme_uses_filesystem_path() {
    assert_eq!(location("rocksdb:///tmp/db").unwrap(), "rocksdb:///tmp/db");
    assert_eq!(location("file:///var/lib/data").unwrap(), "file:///var/lib/data");
    assert_eq!(location("speedb://localhost/srv/x").unwrap(), "speedb:///srv/x");
}

#[test]
fn start_on_memory_address_constructs_memory_backend() {
    let endpoint = Endpoint { address: Url::parse("mem://").unwrap(), config: Config::default() };
    let (router, action) = Router::start(endpoint);
    assert!(matches!(action, Action::Construct(ref l) if l == "memory"));
    assert_eq!(router.phase(), Phase::Constructing);
}

#[test]
fn other_scheme_passes_address_through() {
    assert_eq!(location("tikv://127.0.0.1:2379").unwrap(), "tikv://127.0.0.1:2379");
}

#[test]
fn file_scheme_without_local_path_is_invalid_url() {
    match location("file://remote.example/data") {
        Err(Error::InvalidUrl(text)) => assert_eq!(text, "file://remote.example/data"),
        other => panic!("unexpected {:?}", other),
    }
}

#[test]
fn backend_location_on_plain_values() {
    let r = backend_location(&"fdb".to_string(), &"fdb://x".to_string(), None);
    assert!(matches!(r, Err(Error::InvalidUrl(ref t)) if t == "fdb://x"));
    let r = backend_location(&"fdb".to_string(), &"fdb:///a".to_string(), Some("/a".to_string()));
    assert_eq!(r.unwrap(), "fdb:///a");
    let r = backend_location(&"mem".to_string(), &"mem://".to_string(), None);
    assert_eq!(r.unwrap(), "memory");
    let r = backend_location(&"ws".to_string(), &"ws://h:1".to_string(), None);
    assert_eq!(r.unwrap(), "ws://h:1");
}

#[test]
fn invalid_url_never_starts_serving() {
    let endpoint = Endpoint { address: Url::parse("fdb://remote.example/db").unwrap(), config: Config::default() };
    let (mut router, action) = Router::start(endpoint);
    assert!(matches!(action, Action::Refused(Error::InvalidUrl(_))));
    assert_eq!(router.phase(), Phase::Failed);
    let route = surreal_local::router::Route {
        id: 1,
        method: surreal_local::value::Method::SetVariable("x".to_string(), surreal_local::value::Value::Int(1)),
    };
    assert!(matches!(router.step(Event::Received(route)), Action::Stop));
    assert!(matches!(router.step(Event::Constructed(Ok(()))), Action::Stop));
    assert_eq!(router.phase(), Phase::Failed);
}

fn root_config() -> Config {
    let mut c = Config::default();
    c.root = Some(Root { username: "root".to_string(), password: "secret".to_string() });
    c
}

#[test]
fn root_credentials_are_provisioned_before_success() {
    let (mut router, action) = Router::begin(root_config(), Ok("memory".to_string()));
    assert!(matches!(action, Action::Construct(ref l) if l == "memory"));
    match router.step(Event::Constructed(Ok(()))) {
        Action::Provision(root) => {
            assert_eq!(root.username, "root");
            assert_eq!(root.password, "secret");
        }
        other => panic!("unexpected {:?}", other),
    }
    assert_eq!(router.phase(), Phase::Provisioning);
    match router.step(Event::Provisioned(Ok(()))) {
        Action::Established(s) => assert!(s.auth_enabled),
        other => panic!("unexpected {:?}", other),
    }
    assert_eq!(router.phase(), Phase::Serving);
}

#[test]
fn provisioning_failure_refuses_connection() {
    let (mut router, _) = Router::begin(root_config(), Ok("memory".to_string()));
    router.step(Event::Constructed(Ok(())));
    let a = router.step(Event::Provisioned(Err(Error::Engine("denied".to_string()))));
    assert!(matches!(a, Action::Refused(Error::Engine(ref m)) if m == "denied"));
    assert_eq!(router.phase(), Phase::Failed);
}

#[test]
fn no_credentials_skips_provisioning() {
    let (mut router, _) = Router::begin(Config::default(), Ok("memory".to_string()));
    match router.step(Event::Constructed(Ok(()))) {
        Action::Established(s) => {
            assert!(!s.auth_enabled);
            assert!(!s.strict);
            assert!(!s.notifications);
        }
        other => panic!("unexpected {:?}", other),
    }
    assert!(matches!(router.step(Event::Provisioned(Ok(()))), Action::Wait));
    assert_eq!(router.phase(), Phase::Serving);
}

#[test]
fn construction_failure_refuses_connection() {
    let (mut router, _) = Router::begin(Config::default(), Ok("memory".to_string()));
    let a = router.step(Event::Constructed(Err(Error::Engine("no backend".to_string()))));
    assert!(matches!(a, Action::Refused(Error::Engine(_))));
    assert_eq!(router.phase(), Phase::Failed);
}

#[test]
fn settings_follow_configuration() {
    let mut c = root_config();
    c.strict = true;
    c.query_timeout = Some(Duration::from_secs(5));
    c.transaction_timeout = Some(Duration::from_secs(9));
    c.notifications = true;
    let s = settings(&c);
    assert!(s.strict && s.notifications && s.auth_enabled);
    assert_eq!(s.query_timeout, Some(Duration::from_secs(5)));
    assert_eq!(s.transaction_timeout, Some(Duration::from_secs(9)));
}

#[test]
fn capacity_selects_queue_kind() {
    assert_eq!(queue_kind(0), QueueKind::Unbounded);
    assert_eq!(queue_kind(1), QueueKind::Bounded(1));
    assert_eq!(queue_kind(usize::MAX), QueueKind::Bounded(usize::MAX));
}

#[test]
fn embedded_connection_supports_backup() {
    let f = local_features();
    assert!(supports(&f, Feature::Backup));
    assert!(!supports(&Vec::new(), Feature::Backup));
}
