//! Resolving application secrets from Vault (cached for a while) or from
//! the environment.
use vstd::prelude::*;
use std::time::Instant;

use crate::keyed::KeyedMap;
use crate::text::opt_view;
use crate::time::{elapsed_since, instant_now, Duration};

verus! {

broadcast use vstd::string::group_string_axioms;

/// Resolved application secrets, sourced from Vault or environment variables.
#[derive(Debug)]
pub struct AppSecrets {
    pub database_url: String,
    pub stellar_rpc_url: String,
    pub stellar_network: String,
}

/// How long a secret fetched from Vault is served from the cache, in seconds.
pub const SECRET_TTL_SECS: u64 = 300;

/// The KV v2 mount used when none is configured.
pub const DEFAULT_VAULT_MOUNT: &'static str = "secret";

/// The secret path used when none is configured.
pub const DEFAULT_VAULT_PATH: &'static str = "stellar-tipjar";

/// The RPC endpoint used when none is found.
pub const DEFAULT_STELLAR_RPC_URL: &'static str = "https://soroban-testnet.stellar.org";

/// The network used when none is found.
pub const DEFAULT_STELLAR_NETWORK: &'static str = "testnet";

/// A secret fetched from Vault and when it was fetched.
struct CacheEntry {
    value: String,
    fetched_at: Instant,
}

/// Secrets fetched from Vault, by key.
pub struct SecretCache {
    entries: KeyedMap<CacheEntry>,
}

impl View for SecretCache {
    type V = Map<Seq<char>, Seq<char>>;

    closed spec fn view(&self) -> Map<Seq<char>, Seq<char>> {
        Map::new(|k: Seq<char>| self.entries@.contains_key(k), |k: Seq<char>| self.entries@[k].value@)
    }
}

impl SecretCache {
    /// An empty cache.
    pub fn new() -> (c: SecretCache)
        ensures
            c@ == Map::<Seq<char>, Seq<char>>::empty(),
    {
        let c = SecretCache { entries: KeyedMap::new() };
        assert(c@ =~= Map::<Seq<char>, Seq<char>>::empty());
        c
    }

    /// When the value of `key` was fetched, for a key it holds.
    pub closed spec fn fetched_at(&self, key: Seq<char>) -> Instant {
        self.entries@[key].fetched_at
    }

    /// When the value of `key` was fetched; none for a key not cached.
    pub fn fetch_instant(&self, key: &str) -> (t: Option<Instant>)
        ensures
            match t {
                Some(i) => self@.contains_key(key@) && i == self.fetched_at(key@),
                None => !self@.contains_key(key@),
            },
    {
        match self.entries.get(key) {
            Some(e) => Some(e.fetched_at),
            None => None,
        }
    }

    /// How long ago the value of `key` was fetched: the clock's reading of
    /// the time since its fetch instant; none for a key not cached. The span
    /// depends on the time of the call.
    pub fn age_of(&self, key: &str) -> (age: Option<Duration>)
        ensures
            age is Some <==> self@.contains_key(key@),
    {
        match self.fetch_instant(key) {
            Some(t) => Some(elapsed_since(&t)),
            None => None,
        }
    }

    /// The cached value of `key` if its age, `age`, is less than `ttl`.
    pub fn value_if_fresh(&self, key: &str, age: &Duration, ttl: &Duration) -> (r: Option<String>)
        ensures
            fresh_outcome(self@, key@, age.total_nanos(), ttl.total_nanos(), r),
    {
        match self.entries.get(key) {
            Some(e) => {
                if age.is_shorter_than(ttl) {
                    Some(e.value.clone())
                } else {
                    None
                }
            },
            None => None,
        }
    }

    /// The cached value of `key` if it was fetched less than `ttl` ago: the
    /// outcome of `value_if_fresh` for the age that the clock gives. Which
    /// age that is depends on the time of the call; a value that comes back
    /// is the one cached for `key`, and none comes back for a key not cached.
    pub fn fresh_value(&self, key: &str, ttl: &Duration) -> (r: Option<String>)
        ensures
            exists|age: nat| fresh_outcome(self@, key@, age, ttl.total_nanos(), r),
            r matches Some(v) ==> self@.contains_key(key@) && v@ == self@[key@],
            !self@.contains_key(key@) ==> r is None,
    {
        match self.age_of(key) {
            Some(age) => {
                let r = self.value_if_fresh(key, &age, ttl);
                assert(fresh_outcome(self@, key@, age.total_nanos(), ttl.total_nanos(), r));
                r
            },
            None => {
                assert(fresh_outcome(self@, key@, 0, ttl.total_nanos(), None));
                None
            },
        }
    }

    /// Caches `value` for `key`, fetched at `fetched_at`.
    pub fn store_fetched_at(&mut self, key: &str, value: &str, fetched_at: Instant)
        ensures
            final(self)@ == old(self)@.insert(key@, value@),
            final(self).fetched_at(key@) == fetched_at,
            forall|k: Seq<char>|
                k != key@ && old(self)@.contains_key(k) ==> #[trigger] final(self).fetched_at(k)
                    == old(self).fetched_at(k),
    {
        let entry = CacheEntry { value: value.to_owned(), fetched_at };
        self.entries.insert(key, entry);
        assert(self@ =~= old(self)@.insert(key@, value@));
    }

    /// Caches `value` for `key`, fetched now: at the instant the clock gives,
    /// which depends on the time of the call. The other keys keep their
    /// values and fetch instants.
    pub fn store(&mut self, key: &str, value: &str)
        ensures
            final(self)@ == old(self)@.insert(key@, value@),
            forall|k: Seq<char>|
                k != key@ && old(self)@.contains_key(k) ==> #[trigger] final(self).fetched_at(k)
                    == old(self).fetched_at(k),
    {
        self.store_fetched_at(key, value, instant_now());
    }
}

/// `r` is what the cache `m` gives for `key` when its entry is `age`
/// nanoseconds old and values are kept for `ttl` nanoseconds: the cached
/// value when the key is cached and younger than `ttl`, else none.
pub open spec fn fresh_outcome(
    m: Map<Seq<char>, Seq<char>>,
    key: Seq<char>,
    age: nat,
    ttl: nat,
    r: Option<String>,
) -> bool {
    match r {
        Some(v) => m.contains_key(key) && age < ttl && v@ == m[key],
        None => !m.contains_key(key) || age >= ttl,
    }
}

/// A secret read back from the cache right after it was stored is the
/// stored value, and storing leaves the other keys as they were.
pub proof fn lemma_secret_read_back(
    before: Map<Seq<char>, Seq<char>>,
    key: Seq<char>,
    value: Seq<char>,
    other: Seq<char>,
)
    requires
        other != key,
    ensures
        before.insert(key, value).contains_key(key),
        before.insert(key, value)[key] == value,
        before.insert(key, value).contains_key(other) == before.contains_key(other),
        before.contains_key(other) ==> before.insert(key, value)[other] == before[other],
{
}

/// The address of the KV v2 data of `path` under `mount` on the Vault
/// server at `addr`.
pub open spec fn vault_data_url(addr: Seq<char>, mount: Seq<char>, path: Seq<char>) -> Seq<char> {
    addr + "/v1/"@ + mount + "/data/"@ + path
}

/// The address of the KV v2 data of `path` under `mount` on the Vault
/// server at `addr`: `{addr}/v1/{mount}/data/{path}`.
pub fn vault_secret_url(addr: &str, mount: &str, path: &str) -> (url: String)
    ensures
        url@ == vault_data_url(addr@, mount@, path@),
{
    let mut url = addr.to_owned();
    url.append("/v1/");
    url.append(mount);
    url.append("/data/");
    url.append(path);
    url
}

/// The string that the JSON document `body` holds at `[a][b][c]`, as
/// `serde_json` reads it: none when `body` is not JSON or nothing that is a
/// string stands there.
pub uninterp spec fn json_string_at(body: Seq<u8>, a: Seq<char>, b: Seq<char>, c: Seq<char>) -> Option<
    Seq<char>,
>;

/// Reads `body` with `serde_json::from_slice` as a `serde_json::Value` and
/// takes the string at `[a][b][c]` (`Value`'s indexing gives `Null` where a
/// member is missing, and `as_str` a string only). The claim is that the
/// outcome is `json_string_at` of the arguments.
#[verifier::external_body]
fn json_string_at_path(body: &[u8], a: &str, b: &str, c: &str) -> (r: Option<String>)
    ensures
        opt_view(r) == json_string_at(body@, a@, b@, c@),
{
    let doc: serde_json::Value = match serde_json::from_slice(body) {
        Ok(doc) => doc,
        Err(_) => return None,
    };
    match doc[a][b][c].as_str() {
        Some(text) => Some(text.to_string()),
        None => None,
    }
}

/// The secret `key` in a Vault KV v2 read response: the string at
/// `data.data.<key>` of the JSON body.
pub open spec fn kv2_secret(body: Seq<u8>, key: Seq<char>) -> Option<Seq<char>> {
    json_string_at(body, "data"@, "data"@, key)
}

/// The secret `key` in the body of a Vault KV v2 read response.
pub fn vault_secret_from_body(body: &[u8], key: &str) -> (r: Option<String>)
    ensures
        opt_view(r) == kv2_secret(body@, key@),
{
    json_string_at_path(body, "data", "data", key)
}

/// Where the secrets live in Vault, and for how long a fetched one is reused.
pub struct VaultSettings {
    /// Base URL of the Vault server, e.g. `http://vault:8200`.
    pub addr: Option<String>,
    /// Vault token for authentication.
    pub token: Option<String>,
    /// Mount path for the KV v2 secrets engine.
    pub mount: String,
    /// Secret path within the mount, e.g. `stellar-tipjar`.
    pub path: String,
    /// How long a fetched secret is served from the cache.
    pub ttl: Duration,
}

/// The next step of looking a secret up in Vault.
#[derive(Debug)]
pub enum VaultStep {
    /// The lookup is over: this is the secret Vault gives, if any.
    Done(Option<String>),
    /// Ask Vault: read `url` with `token` in the `X-Vault-Token` header.
    Fetch { url: String, token: String },
}

impl VaultSettings {
    /// The settings with the default mount and path and a TTL of 300 s.
    pub fn new(addr: Option<String>, token: Option<String>, mount: Option<String>, path: Option<String>) -> (s:
        VaultSettings)
        ensures
            s.addr == addr,
            s.token == token,
            s.mount@ == match mount {
                Some(m) => m@,
                None => DEFAULT_VAULT_MOUNT@,
            },
            s.path@ == match path {
                Some(p) => p@,
                None => DEFAULT_VAULT_PATH@,
            },
            s.ttl.total_nanos() == SECRET_TTL_SECS * 1_000_000_000,
    {
        VaultSettings {
            addr,
            token,
            mount: setting_or(mount, DEFAULT_VAULT_MOUNT),
            path: setting_or(path, DEFAULT_VAULT_PATH),
            ttl: Duration::from_secs(SECRET_TTL_SECS),
        }
    }

    /// The first step of looking up `key`, for a cached entry `age` old
    /// (none when the key is not cached): as `lookup_outcome` says.
    pub fn lookup_step(&self, cache: &SecretCache, key: &str, age: Option<Duration>) -> (step:
        VaultStep)
        ensures
            lookup_outcome(*self, cache@, key@, opt_nanos(age), step),
    {
        let addr = match &self.addr {
            Some(a) => a,
            None => {
                return VaultStep::Done(None);
            },
        };
        let token = match &self.token {
            Some(t) => t,
            None => {
                return VaultStep::Done(None);
            },
        };
        if let Some(a) = &age {
            if let Some(value) = cache.value_if_fresh(key, a, &self.ttl) {
                return VaultStep::Done(Some(value));
            }
        }
        VaultStep::Fetch {
            url: vault_secret_url(addr.as_str(), self.mount.as_str(), self.path.as_str()),
            token: token.clone(),
        }
    }

    /// The first step of looking up `key`: the step that `lookup_step` takes
    /// for the age of the cached entry as the clock gives it. Which age that
    /// is depends on the time of the call.
    pub fn begin_lookup(&self, cache: &SecretCache, key: &str) -> (step: VaultStep)
        ensures
            exists|age: Option<nat>|
                (age is Some <==> cache@.contains_key(key@)) && lookup_outcome(
                    *self,
                    cache@,
                    key@,
                    age,
                    step,
                ),
    {
        let age = cache.age_of(key);
        let step = self.lookup_step(cache, key, age);
        assert(lookup_outcome(*self, cache@, key@, opt_nanos(age), step));
        step
    }
}

/// A lookup that asks Vault reads, with the configured token, the KV v2
/// address made of the configured server address, mount and path:
/// `{addr}/v1/{mount}/data/{path}`, whatever mount and path are configured;
/// and a lookup never asks Vault without an address and a token.
pub proof fn lemma_fetch_reads_configured_location(
    settings: VaultSettings,
    cache: Map<Seq<char>, Seq<char>>,
    key: Seq<char>,
    age: Option<nat>,
    step: VaultStep,
)
    requires
        lookup_outcome(settings, cache, key, age, step),
    ensures
        step matches VaultStep::Fetch { url, token } ==> {
            &&& settings.addr is Some && settings.token is Some
            &&& url@ == settings.addr->0@ + "/v1/"@ + settings.mount@ + "/data/"@ + settings.path@
            &&& token@ == settings.token->0@
        },
        step matches VaultStep::Done(Some(v)) ==> cache.contains_key(key) && v@ == cache[key],
        (cache.contains_key(key) && age is Some && age->0 < settings.ttl.total_nanos()
            && settings.addr is Some && settings.token is Some) ==> (step matches VaultStep::Done(
            Some(v),
        ) && v@ == cache[key]),
{
}

/// The length of an optional span, in nanoseconds.
pub open spec fn opt_nanos(d: Option<Duration>) -> Option<nat> {
    match d {
        Some(d) => Some(d.total_nanos()),
        None => None,
    }
}

/// `step` is the first step of looking up `key` with `settings` in a cache
/// holding `cache`, whose entry for `key` is `age` nanoseconds old: without
/// an address or a token Vault is not asked and there is no secret; a cached
/// value younger than the TTL is the secret, without asking Vault; else
/// Vault is to be read at the KV v2 address of the mount and path, with the
/// token. The cache is not changed either way.
pub open spec fn lookup_outcome(
    settings: VaultSettings,
    cache: Map<Seq<char>, Seq<char>>,
    key: Seq<char>,
    age: Option<nat>,
    step: VaultStep,
) -> bool {
    if settings.addr is None || settings.token is None {
        step matches VaultStep::Done(None)
    } else if cache.contains_key(key) && age is Some && age->0 < settings.ttl.total_nanos() {
        (step matches VaultStep::Done(Some(v)) && v@ == cache[key])
    } else {
        (step matches VaultStep::Fetch { url, token } && url@ == vault_data_url(
            settings.addr->0@,
            settings.mount@,
            settings.path@,
        ) && token@ == settings.token->0@)
    }
}

/// The last step of looking up `key`, given whether Vault answered with a
/// success status and, if it did, the body it sent (none when it could not
/// be read): the secret at `data.data.<key>` of a successful answer, which
/// is then cached; none otherwise, with the cache left as it was.
pub fn finish_lookup(cache: &mut SecretCache, key: &str, success: bool, body: Option<&[u8]>) -> (r:
    Option<String>)
    ensures
        match (success, body) {
            (true, Some(b)) => match kv2_secret(b@, key@) {
                Some(v) => r matches Some(s) && s@ == v && final(cache)@ == old(cache)@.insert(
                    key@,
                    v,
                ),
                None => r is None && final(cache)@ == old(cache)@,
            },
            _ => r is None && final(cache)@ == old(cache)@,
        },
{
    if !success {
        return None;
    }
    let body = match body {
        Some(b) => b,
        None => {
            return None;
        },
    };
    match vault_secret_from_body(body, key) {
        Some(value) => {
            cache.store(key, value.as_str());
            Some(value)
        },
        None => None,
    }
}

/// A configured value, or `fallback` when none is configured.
pub fn setting_or(value: Option<String>, fallback: &str) -> (s: String)
    ensures
        s@ == match value {
            Some(v) => v@,
            None => fallback@,
        },
{
    match value {
        Some(v) => v,
        None => fallback.to_owned(),
    }
}

/// A secret that neither Vault nor the environment holds.
#[derive(Debug)]
pub struct SecretError {
    pub message: String,
}

/// The message that reports the secret `vault_key` missing from Vault and
/// the environment variable `env_var` unset.
pub open spec fn missing_secret_message(vault_key: Seq<char>, env_var: Seq<char>) -> Seq<char> {
    "Secret '"@ + vault_key + "' not found in Vault and env var '"@ + env_var
        + "' is not set"@
}

/// Resolves a secret: the value from Vault when there is one, else the
/// value of the environment variable, else an error naming both.
pub fn resolve_secret(
    vault_value: Option<String>,
    env_value: Option<String>,
    vault_key: &str,
    env_var: &str,
) -> (r: Result<String, SecretError>)
    ensures
        match (opt_view(vault_value), opt_view(env_value)) {
            (Some(v), _) => r matches Ok(s) && s@ == v,
            (None, Some(e)) => r matches Ok(s) && s@ == e,
            (None, None) => r matches Err(err) && err.message@ == missing_secret_message(
                vault_key@,
                env_var@,
            ),
        },
{
    if let Some(v) = vault_value {
        return Ok(v);
    }
    if let Some(e) = env_value {
        return Ok(e);
    }
    let mut message = String::from_str("Secret '");
    message.append(vault_key);
    message.append("' not found in Vault and env var '");
    message.append(env_var);
    message.append("' is not set");
    Err(SecretError { message })
}

/// Assembles the application secrets: the database URL is required; the
/// RPC URL and the network fall back to the testnet defaults.
pub fn assemble_secrets(
    database_url: Result<String, SecretError>,
    stellar_rpc_url: Result<String, SecretError>,
    stellar_network: Result<String, SecretError>,
) -> (r: Result<AppSecrets, SecretError>)
    ensures
        match database_url {
            Err(e) => r matches Err(e2) && e2.message == e.message,
            Ok(db) => r matches Ok(s) && {
                &&& s.database_url == db
                &&& s.stellar_rpc_url@ == match stellar_rpc_url {
                    Ok(u) => u@,
                    Err(_) => "https://soroban-testnet.stellar.org"@,
                }
                &&& s.stellar_network@ == match stellar_network {
                    Ok(n) => n@,
                    Err(_) => "testnet"@,
                }
            },
        },
{
    let database_url = match database_url {
        Ok(u) => u,
        Err(e) => {
            return Err(e);
        },
    };
    let stellar_rpc_url = match stellar_rpc_url {
        Ok(u) => u,
        Err(_) => DEFAULT_STELLAR_RPC_URL.to_owned(),
    };
    let stellar_network = match stellar_network {
        Ok(n) => n,
        Err(_) => DEFAULT_STELLAR_NETWORK.to_owned(),
    };
    Ok(AppSecrets { database_url, stellar_rpc_url, stellar_network })
}

} // verus!
