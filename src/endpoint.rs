use vstd::prelude::*;
use vstd::string::StringExecFns;
use crate::value::Error;

verus! {

#[verifier::external_type_specification]
#[verifier::external_body]
pub struct ExUrl(url::Url);

/// The scheme of a parsed address.
pub uninterp spec fn scheme_of(u: url::Url) -> Seq<char>;

/// The serialization of a parsed address.
pub uninterp spec fn text_of(u: url::Url) -> Seq<char>;

/// Relies on `url::Url::scheme`: the scheme of a parsed address, which depends
/// on the address alone.
pub assume_specification[ url::Url::scheme ](u: &url::Url) -> (r: &str)
    ensures
        r@ == scheme_of(*u),
;

/// Relies on `url::Url::as_str`: the serialization of a parsed address, which
/// depends on the address alone.
pub assume_specification[ url::Url::as_str ](u: &url::Url) -> (r: &str)
    ensures
        r@ == text_of(*u),
;

/// Relies on `url::Url::to_file_path`: the filesystem path that the address names,
/// rendered through `Path::display`, or `None` where it names none (a remote host,
/// a path that the platform cannot hold). The outcome depends on the platform.
#[verifier::external_body]
fn file_path(u: &url::Url) -> (r: Option<String>) {
    match u.to_file_path() {
        Ok(p) => Some(p.display().to_string()),
        Err(()) => None,
    }
}

/// Root-level credentials to provision when the engine starts.
#[derive(Clone, Debug)]
pub struct Root {
    pub username: String,
    pub password: String,
}

/// The runtime configuration of a connection.
#[derive(Clone, Debug)]
pub struct Config {
    pub root: Option<Root>,
    pub strict: bool,
    pub query_timeout: Option<std::time::Duration>,
    pub transaction_timeout: Option<std::time::Duration>,
    pub notifications: bool,
}

impl Default for Config {
    /// No credentials, strict mode off, no timeouts, notifications off.
    fn default() -> (r: Config)
        ensures
            r.root is None,
            !r.strict,
            r.query_timeout is None,
            r.transaction_timeout is None,
            !r.notifications,
    {
        Config {
            root: None,
            strict: false,
            query_timeout: None,
            transaction_timeout: None,
            notifications: false,
        }
    }
}

/// A resolved connection descriptor: the engine's address and its configuration.
#[derive(Debug)]
pub struct Endpoint {
    pub address: url::Url,
    pub config: Config,
}

/// The settings applied to a constructed engine.
#[derive(Clone, Copy, Debug)]
pub struct EngineSettings {
    pub strict: bool,
    pub query_timeout: Option<std::time::Duration>,
    pub transaction_timeout: Option<std::time::Duration>,
    pub notifications: bool,
    pub auth_enabled: bool,
}

/// The settings that a configuration calls for: its flags and timeouts as given,
/// authentication enabled exactly when root credentials are configured.
pub open spec fn settings_of(c: Config) -> EngineSettings {
    EngineSettings {
        strict: c.strict,
        query_timeout: c.query_timeout,
        transaction_timeout: c.transaction_timeout,
        notifications: c.notifications,
        auth_enabled: c.root is Some,
    }
}

/// The engine settings for `config`.
pub fn settings(config: &Config) -> (r: EngineSettings)
    ensures
        r == settings_of(*config),
{
    EngineSettings {
        strict: config.strict,
        query_timeout: config.query_timeout,
        transaction_timeout: config.transaction_timeout,
        notifications: config.notifications,
        auth_enabled: config.root.is_some(),
    }
}

/// Whether the scheme names the in-memory backend.
pub open spec fn is_memory(scheme: Seq<char>) -> bool {
    scheme == seq!['m', 'e', 'm']
}

/// Whether the scheme names a backend that lives at a filesystem path.
pub open spec fn is_file_backed(scheme: Seq<char>) -> bool {
    scheme == seq!['f', 'd', 'b']
        || scheme == seq!['r', 'o', 'c', 'k', 's', 'd', 'b']
        || scheme == seq!['s', 'p', 'e', 'e', 'd', 'b']
        || scheme == seq!['f', 'i', 'l', 'e']
}

/// The identifier of the in-memory backend.
pub open spec fn memory_location() -> Seq<char> {
    seq!['m', 'e', 'm', 'o', 'r', 'y']
}

/// Whether the address cannot be turned into a backend location: a file-backed
/// scheme whose address names no filesystem path.
pub open spec fn location_fails(scheme: Seq<char>, path: Option<String>) -> bool {
    !is_memory(scheme) && is_file_backed(scheme) && path is None
}

/// The backend location for an address: the in-memory identifier, the scheme
/// followed by `://` and the filesystem path, or the address unchanged.
pub open spec fn location_of(scheme: Seq<char>, address: Seq<char>, path: Option<String>) -> Seq<char> {
    if is_memory(scheme) {
        memory_location()
    } else if is_file_backed(scheme) {
        scheme + seq![':', '/', '/'] + path->Some_0@
    } else {
        address
    }
}

fn equals_literal(s: &String, lit: &str) -> (r: bool)
    ensures
        r == (s@ == lit@),
{
    let t = String::from_str(lit);
    *s == t
}

/// The backend location for an address with the given scheme and text, where
/// `path` is the filesystem path that the address names, if any.
pub fn backend_location(scheme: &String, address: &String, path: Option<String>) -> (r: Result<String, Error>)
    ensures
        match r {
            Ok(loc) => !location_fails(scheme@, path) && loc@ == location_of(scheme@, address@, path),
            Err(e) => location_fails(scheme@, path) && e is InvalidUrl && e->InvalidUrl_0@ == address@,
        },
{
    proof {
        reveal_strlit("mem");
        reveal_strlit("fdb");
        reveal_strlit("rocksdb");
        reveal_strlit("speedb");
        reveal_strlit("file");
        reveal_strlit("memory");
        reveal_strlit("://");
        assert("mem"@ =~= seq!['m', 'e', 'm']);
        assert("fdb"@ =~= seq!['f', 'd', 'b']);
        assert("rocksdb"@ =~= seq!['r', 'o', 'c', 'k', 's', 'd', 'b']);
        assert("speedb"@ =~= seq!['s', 'p', 'e', 'e', 'd', 'b']);
        assert("file"@ =~= seq!['f', 'i', 'l', 'e']);
        assert("memory"@ =~= memory_location());
        assert("://"@ =~= seq![':', '/', '/']);
    }
    if equals_literal(scheme, "mem") {
        Ok(String::from_str("memory"))
    } else if equals_literal(scheme, "fdb") || equals_literal(scheme, "rocksdb")
        || equals_literal(scheme, "speedb") || equals_literal(scheme, "file") {
        match path {
            Some(p) => {
                let mut loc = scheme.clone();
                loc.append("://");
                loc.append(p.as_str());
                Ok(loc)
            },
            None => Err(Error::InvalidUrl(address.clone())),
        }
    } else {
        Ok(address.clone())
    }
}

/// The backend location for a parsed address. For a file-backed scheme the
/// outcome depends on the filesystem path that the address names on this
/// platform; any other scheme always resolves.
pub fn resolve_location(address: &url::Url) -> (r: Result<String, Error>)
    ensures
        is_memory(scheme_of(*address)) ==> (r is Ok && r->Ok_0@ == memory_location()),
        !is_memory(scheme_of(*address)) && !is_file_backed(scheme_of(*address)) ==> (r is Ok
            && r->Ok_0@ == text_of(*address)),
        r matches Err(e) ==> (e is InvalidUrl && e->InvalidUrl_0@ == text_of(*address)
            && is_file_backed(scheme_of(*address))),
{
    let scheme = address.scheme().to_owned();
    let text = address.as_str().to_owned();
    let path = file_path(address);
    backend_location(&scheme, &text, path)
}

} // verus!
