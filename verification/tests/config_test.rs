use stellar_tipjar::config::secrets::{
    assemble_secrets, resolve_secret, setting_or, vault_secret_url, SecretCache, SecretError,
    SECRET_TTL_SECS,
};
use stellar_tipjar::time::Duration;

#[test]
fn vault_url_shape() {
    assert_eq!(
        vault_secret_url("http://vault:8200", "secret", "stellar-tipjar"),
        "http://vault:8200/v1/secret/data/stellar-tipjar"
    );
}

#[test]
fn settings_fall_back() {
    assert_eq!(setting_or(None, "secret"), "secret");
    assert_eq!(setting_or(Some("kv".into()), "secret"), "kv");
}

#[test]
fn secrets_resolve_vault_first_then_env() {
    assert_eq!(resolve_secret(Some("v".into()), Some("e".into()), "K", "E").unwrap(), "v");
    assert_eq!(resolve_secret(None, Some("e".into()), "K", "E").unwrap(), "e");
    let err = resolve_secret(None, None, "DATABASE_URL", "DATABASE_URL").unwrap_err();
    assert_eq!(
        err.message,
        "Secret 'DATABASE_URL' not found in Vault and env var 'DATABASE_URL' is not set"
    );
}

#[test]
fn secrets_assemble_with_defaults() {
    let missing = || Err(SecretError { message: "missing".into() });
    let s = assemble_secrets(Ok("postgres://db".into()), missing(), missing()).unwrap();
    assert_eq!(s.database_url, "postgres://db");
    assert_eq!(s.stellar_rpc_url, "https://soroban-testnet.stellar.org");
    assert_eq!(s.stellar_network, "testnet");
    let s = assemble_secrets(Ok("d".into()), Ok("r".into()), Ok("mainnet".into())).unwrap();
    assert_eq!((s.stellar_rpc_url.as_str(), s.stellar_network.as_str()), ("r", "mainnet"));
    let e = assemble_secrets(missing(), Ok("r".into()), Ok("n".into())).unwrap_err();
    assert_eq!(e.message, "missing");
}

#[test]
fn cache_serves_fresh_values_only() {
    let mut cache = SecretCache::new();
    let ttl = Duration::from_secs(SECRET_TTL_SECS);
    assert_eq!(cache.fresh_value("DATABASE_URL", &ttl), None);
    cache.store("DATABASE_URL", "postgres://a");
    assert_eq!(cache.fresh_value("DATABASE_URL", &ttl).as_deref(), Some("postgres://a"));
    cache.store("DATABASE_URL", "postgres://b");
    assert_eq!(cache.fresh_value("DATABASE_URL", &ttl).as_deref(), Some("postgres://b"));
    assert_eq!(cache.fresh_value("OTHER", &ttl), None);
    assert_eq!(cache.fresh_value("DATABASE_URL", &Duration::from_nanos(0)), None);
}

#[test]
fn cached_value_by_age() {
    let mut cache = SecretCache::new();
    cache.store("K", "v");
    let ttl = Duration::from_secs(300);
    assert!(cache.age_of("K").is_some());
    assert!(cache.age_of("X").is_none());
    assert_eq!(cache.value_if_fresh("K", &Duration::from_secs(299), &ttl).as_deref(), Some("v"));
    assert_eq!(cache.value_if_fresh("K", &Duration::from_secs(300), &ttl), None);
    assert_eq!(cache.value_if_fresh("X", &Duration::from_secs(1), &ttl), None);
}

use stellar_tipjar::config::secrets::{finish_lookup, vault_secret_from_body, VaultSettings, VaultStep};

#[test]
fn kv2_body_is_read_at_data_data_key() {
    let body = br#"{"data":{"data":{"DATABASE_URL":"postgres://x","N":5},"metadata":{}}}"#;
    assert_eq!(vault_secret_from_body(body, "DATABASE_URL").as_deref(), Some("postgres://x"));
    assert_eq!(vault_secret_from_body(body, "N"), None);
    assert_eq!(vault_secret_from_body(body, "MISSING"), None);
    assert_eq!(vault_secret_from_body(br#"{"data":{"DATABASE_URL":"v1"}}"#, "DATABASE_URL"), None);
    assert_eq!(vault_secret_from_body(b"not json", "DATABASE_URL"), None);
}

#[test]
fn vault_lookup_steps() {
    let none = VaultSettings::new(None, Some("t".into()), None, None);
    let cache = SecretCache::new();
    assert!(matches!(none.begin_lookup(&cache, "K"), VaultStep::Done(None)));

    let settings = VaultSettings::new(Some("http://vault:8200".into()), Some("tok".into()), None, None);
    match settings.begin_lookup(&cache, "K") {
        VaultStep::Fetch { url, token } => {
            assert_eq!(url, "http://vault:8200/v1/secret/data/stellar-tipjar");
            assert_eq!(token, "tok");
        }
        other => panic!("unexpected {other:?}"),
    }

    let mut cache = SecretCache::new();
    assert_eq!(finish_lookup(&mut cache, "K", false, Some(br#"{"data":{"data":{"K":"v"}}}"#)), None);
    assert_eq!(cache.fresh_value("K", &Duration::from_secs(300)), None);
    assert_eq!(finish_lookup(&mut cache, "K", true, None), None);
    assert_eq!(finish_lookup(&mut cache, "K", true, Some(br#"{"data":{"data":{"K":"v"}}}"#)).as_deref(), Some("v"));
    assert!(matches!(settings.begin_lookup(&cache, "K"), VaultStep::Done(Some(ref v)) if v == "v"));
}

#[test]
fn lookup_step_follows_age_against_ttl() {
    let settings = VaultSettings::new(Some("http://v".into()), Some("tok".into()), None, None);
    let mut cache = SecretCache::new();
    cache.store("K", "cached");
    let fresh = settings.lookup_step(&cache, "K", Some(Duration::from_secs(299)));
    assert!(matches!(fresh, VaultStep::Done(Some(ref v)) if v == "cached"));
    let stale = settings.lookup_step(&cache, "K", Some(Duration::from_secs(300)));
    assert!(matches!(stale, VaultStep::Fetch { ref url, .. } if url == "http://v/v1/secret/data/stellar-tipjar"));
    assert_eq!(cache.fresh_value("K", &Duration::from_secs(300)).as_deref(), Some("cached"));
    let missing = settings.lookup_step(&cache, "X", None);
    assert!(matches!(missing, VaultStep::Fetch { .. }));
    let no_addr = VaultSettings::new(None, Some("tok".into()), None, None);
    assert!(matches!(no_addr.lookup_step(&cache, "K", Some(Duration::from_secs(1))), VaultStep::Done(None)));
}

#[test]
fn fetch_instants_are_kept() {
    let mut cache = SecretCache::new();
    let t0 = std::time::Instant::now();
    cache.store_fetched_at("A", "a", t0);
    cache.store("B", "b");
    assert_eq!(cache.fetch_instant("A"), Some(t0));
    assert!(cache.fetch_instant("B").is_some());
    assert_eq!(cache.fetch_instant("C"), None);
}
