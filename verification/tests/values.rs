use kasmcloud_host::config::{write_decimal, ConfigError, KasmCloudConfig};
use kasmcloud_host::keys::{Identity, KeyKind};
use kasmcloud_host::links::linkdef_hash;
use kasmcloud_host::table::{Datum, Table};
use kasmcloud_host::text::{
    cut_after_last, cut_before_first, holds_text, same_text_opt, same_texts, sort_texts,
};
use kasmcloud_host::time::{time_of_claim, time_of_claim_opt, Duration, Time};
use kasmcloud_host::wire::Level;

fn s(text: &str) -> String {
    text.to_string()
}

fn strings(texts: &[&str]) -> Vec<String> {
    texts.iter().map(|t| t.to_string()).collect()
}

fn seed_of(kind: nkeys::KeyPairType, byte: u8) -> String {
    nkeys::KeyPair::new_from_raw(kind, [byte; 32]).unwrap().seed().unwrap()
}

#[test]
fn table_keeps_one_value_for_each_key() {
    let mut t: Table<String, String> = Table::new();
    assert!(t.is_empty());
    assert!(t.insert(s("a"), s("1")).is_none());
    assert!(t.insert(s("b"), s("2")).is_none());
    assert_eq!(t.insert(s("a"), s("3")), Some(s("1")));
    assert_eq!(t.len(), 2);
    assert_eq!(t.get(&s("a")), Some(&s("3")));
    assert_eq!(t.get(&s("c")), None);
    assert!(t.contains_key(&s("b")));
    assert_eq!(t.remove(&s("b")), Some(s("2")));
    assert_eq!(t.remove(&s("b")), None);
    assert_eq!(t.len(), 1);
    assert_eq!(t.key_at(0), &s("a"));
    assert_eq!(t.value_at(0), &s("3"));
    let copy = t.duplicate();
    assert_eq!(copy.get(&s("a")), Some(&s("3")));
}

#[test]
fn texts_are_cut_at_the_first_and_last() {
    assert_eq!(cut_before_first(&s("wasmcloud:blobstore/Blobstore.Get/x"), '/'), Some(s("wasmcloud:blobstore")));
    assert_eq!(cut_before_first(&s("/x"), '/'), Some(s("")));
    assert_eq!(cut_before_first(&s("none"), '/'), None);
    assert_eq!(cut_before_first(&s(""), '/'), None);
    assert_eq!(cut_before_first(&s("\u{e9}\u{4e16}/b"), '/'), Some(s("\u{e9}\u{4e16}")));
    assert_eq!(cut_after_last(&s("a/b/c"), '/'), Some(s("c")));
    assert_eq!(cut_after_last(&s("a/"), '/'), Some(s("")));
    assert_eq!(cut_after_last(&s("none"), '/'), None);
}

#[test]
fn texts_are_sorted_by_their_bytes() {
    let sorted = sort_texts(strings(&["x86_64-linux", "aarch64-macos", "Zeta", "aarch64", "\u{e9}"]));
    assert_eq!(sorted, strings(&["Zeta", "aarch64", "aarch64-macos", "x86_64-linux", "\u{e9}"]));
    let mut expected = strings(&["b", "a", "b", "", "ab"]);
    let sorted = sort_texts(expected.clone());
    expected.sort();
    assert_eq!(sorted, expected);
    assert!(sort_texts(vec![]).is_empty());
}

#[test]
fn texts_are_compared() {
    assert!(holds_text(&strings(&["a", "b"]), &s("b")));
    assert!(!holds_text(&strings(&["a", "b"]), &s("c")));
    assert!(same_texts(&strings(&["a", "b"]), &strings(&["a", "b"])));
    assert!(!same_texts(&strings(&["a", "b"]), &strings(&["b", "a"])));
    assert!(!same_texts(&strings(&["a"]), &strings(&["a", "b"])));
    assert!(same_text_opt(&None, &None));
    assert!(!same_text_opt(&Some(s("")), &None));
}

#[test]
fn links_are_filed_by_a_digest() {
    assert_eq!(
        linkdef_hash(&s("a"), &s("b"), &s("c")),
        "BA7816BF8F01CFEA414140DE5DAE2223B00361A396177A9CB410FF61F20015AD"
    );
    assert_eq!(
        linkdef_hash(&s(""), &s(""), &s("")),
        "E3B0C44298FC1C149AFBF4C8996FB92427AE41E4649B934CA495991B7852B855"
    );
    assert_eq!(linkdef_hash(&s("ab"), &s(""), &s("c")), linkdef_hash(&s("a"), &s("b"), &s("c")));
}

#[test]
fn seeds_stand_for_key_pairs() {
    let seed = s("SAAPN4W3EG6KCJGUQTKTJ5GSB5NHK5CHAJL4DBGFUM3HHROI4XUEP4OBK4");
    let key = Identity::from_seed(&seed).unwrap();
    assert_eq!(key.kind(), KeyKind::Account);
    assert_eq!(key.public_key(), "ACODERUVFFAWZQDSS6SBIACUA5O6SXF7HJ3YTYXBALHZP3P7R4BUO4J2");
    assert_eq!(key.seed(), Some(seed));
    assert!(Identity::from_seed(&s("")).is_none());
    assert!(Identity::from_seed(&s("SAAPN4W3EG6KCJGUQTKTJ5GSB5NHK5CHAJL4DBGFUM3HHROI4XUEP4OBK")).is_none());
    for (kind, expected) in [
        (nkeys::KeyPairType::Server, KeyKind::Server),
        (nkeys::KeyPairType::Cluster, KeyKind::Cluster),
        (nkeys::KeyPairType::Operator, KeyKind::Operator),
        (nkeys::KeyPairType::User, KeyKind::User),
        (nkeys::KeyPairType::Module, KeyKind::Module),
        (nkeys::KeyPairType::Service, KeyKind::Service),
    ] {
        let key = Identity::from_seed(&seed_of(kind, 7)).unwrap();
        assert_eq!(key.kind(), expected);
        assert_eq!(key.public_key().len(), 56);
    }
}

#[test]
fn public_keys_have_no_seed() {
    let text = s("ACODERUVFFAWZQDSS6SBIACUA5O6SXF7HJ3YTYXBALHZP3P7R4BUO4J2");
    let key = Identity::from_public_key(&text).unwrap();
    assert_eq!(key.kind(), KeyKind::Account);
    assert_eq!(key.public_key(), text);
    assert_eq!(key.seed(), None);
    assert!(Identity::from_public_key(&s("")).is_none());
    assert!(Identity::from_public_key(&s("AAAA")).is_none());
    assert!(Identity::from_public_key(&s("not a public key")).is_none());
}

#[test]
fn generated_key_pairs_are_of_their_kind() {
    let key = Identity::generate(KeyKind::Cluster);
    assert_eq!(key.kind(), KeyKind::Cluster);
    assert!(key.public_key().starts_with('C'));
    assert_eq!(key.public_key().len(), 56);
    assert!(key.seed().unwrap().starts_with("SC"));
    let other = Identity::generate(KeyKind::Cluster);
    assert_ne!(key.public_key(), other.public_key());
    let copy = key.duplicate();
    assert_eq!(copy.public_key(), key.public_key());
    assert_eq!(copy.seed(), key.seed());
}

#[test]
fn only_seeds_sign() {
    let pair = nkeys::KeyPair::new_from_raw(nkeys::KeyPairType::User, [7; 32]).unwrap();
    let key = Identity::from_seed(&pair.seed().unwrap()).unwrap();
    let nonce = b"nonce".to_vec();
    let signature = key.sign(&nonce).unwrap();
    assert_eq!(signature, pair.sign(&nonce).unwrap());
    assert_eq!(signature.len(), 64);
    assert!(pair.verify(&nonce, &signature).is_ok());
    assert_eq!(key.duplicate().sign(&nonce), Some(signature));
    assert!(Identity::from_public_key(&pair.public_key()).unwrap().sign(&nonce).is_none());
}

#[test]
fn times_of_claims() {
    assert_eq!(time_of_claim(0), Time { seconds: 0, nanos: 0 });
    assert_eq!(time_of_claim(1431648000), Time { seconds: 1431648000, nanos: 0 });
    assert_eq!(time_of_claim(8210266876799), Time { seconds: 8210266876799, nanos: 0 });
    assert_eq!(time_of_claim(8210266876800), Time { seconds: -8334601228800, nanos: 0 });
    assert_eq!(time_of_claim(u64::MAX), Time { seconds: -1, nanos: 0 });
    assert_eq!(time_of_claim(1 << 63), Time { seconds: -8334601228800, nanos: 0 });
    assert_eq!(time_of_claim_opt(None), None);
    assert_eq!(time_of_claim_opt(Some(5)), Some(Time { seconds: 5, nanos: 0 }));
    assert_eq!(chrono::DateTime::<chrono::Utc>::MIN_UTC.timestamp(), -8334601228800);
    assert_eq!(chrono::DateTime::<chrono::Utc>::MAX_UTC.timestamp(), 8210266876799);
}

#[test]
fn spans_in_milliseconds() {
    assert_eq!(Duration::from_secs(2).as_millis(), 2000);
    assert_eq!(Duration { secs: 1, nanos: 999_999_999 }.as_millis(), 1999);
    assert_eq!(Duration { secs: u64::MAX, nanos: 0 }.as_millis(), u64::MAX as u128 * 1000);
}

fn settings() -> KasmCloudConfig {
    KasmCloudConfig {
        temporary: false,
        host_name: Some(s("host-a")),
        nats_host: s("127.0.0.1"),
        nats_port: 4222,
        nats_jwt: None,
        nats_seed: None,
        js_domain: None,
        host_seed: None,
        cluster_seed: None,
        cluster_issuers: None,
        log_level: s("info"),
        enable_structured_logging: false,
        otel_traces_exporter: None,
        otel_exporter_otlp_endpoint: None,
    }
}

#[test]
fn host_names() {
    assert_eq!(settings().get_hostname().unwrap(), "host-a");
    let nameless = KasmCloudConfig { host_name: None, ..settings() };
    assert_eq!(nameless.get_hostname().unwrap_err(), ConfigError::HostNameRequired);
    let temporary = KasmCloudConfig { host_name: None, temporary: true, ..settings() };
    let name = temporary.get_hostname().unwrap();
    assert!(name.contains('-') && !name.starts_with('-') && !name.ends_with('-'));
    assert!(name.chars().all(|c| c == '-' || c.is_ascii_lowercase()));
    let named = KasmCloudConfig { temporary: true, ..settings() };
    assert_eq!(named.get_hostname().unwrap(), "host-a");
}

#[test]
fn settings_become_a_host_configuration() {
    let config = KasmCloudConfig {
        nats_jwt: Some(s("token")),
        nats_seed: Some(seed_of(nkeys::KeyPairType::User, 1)),
        host_seed: Some(seed_of(nkeys::KeyPairType::Server, 2)),
        cluster_seed: Some(seed_of(nkeys::KeyPairType::Cluster, 3)),
        cluster_issuers: Some(strings(&["CX"])),
        js_domain: Some(s("core")),
        ..settings()
    }
    .host_config()
    .ok()
    .unwrap();
    assert!(config.allow_file_load);
    assert_eq!(config.rpc_config.url, "nats://127.0.0.1:4222");
    assert_eq!(config.rpc_config.timeout, Some(Duration { secs: 2, nanos: 0 }));
    assert_eq!(config.rpc_config.jwt, Some(s("token")));
    assert_eq!(config.rpc_config.key.as_ref().unwrap().kind(), KeyKind::User);
    assert!(!config.rpc_config.tls);
    assert_eq!(config.prov_rpc_config.url, "nats://127.0.0.1:4222");
    assert_eq!(config.prov_rpc_config.timeout, None);
    assert_eq!(config.prov_rpc_config.jwt, Some(s("token")));
    assert_eq!(config.lattice_prefix, "default");
    assert_eq!(config.js_domain, Some(s("core")));
    assert_eq!(config.host_key.as_ref().unwrap().kind(), KeyKind::Server);
    assert_eq!(config.cluster_key.as_ref().unwrap().kind(), KeyKind::Cluster);
    assert_eq!(config.cluster_issuers, Some(strings(&["CX"])));
    assert_eq!(config.log_level, Some(Level::Info));
}

#[test]
fn settings_that_cannot_be_used() {
    let wrong = |config: KasmCloudConfig| config.host_config().err().unwrap();
    assert_eq!(wrong(KasmCloudConfig { log_level: s("loud"), ..settings() }), ConfigError::LogLevel);
    assert_eq!(wrong(KasmCloudConfig { host_seed: Some(s("x")), ..settings() }), ConfigError::HostSeed);
    assert_eq!(wrong(KasmCloudConfig { cluster_seed: Some(s("x")), ..settings() }), ConfigError::ClusterSeed);
    assert_eq!(wrong(KasmCloudConfig { nats_seed: Some(s("x")), ..settings() }), ConfigError::NatsSeed);
    assert_eq!(wrong(KasmCloudConfig { nats_host: s("a b"), ..settings() }), ConfigError::NatsUrl);
    assert_eq!(
        wrong(KasmCloudConfig { log_level: s("loud"), host_seed: Some(s("x")), ..settings() }),
        ConfigError::LogLevel
    );
    assert_eq!(ConfigError::HostSeed.message(), "failed to contruct host key pair from seed");
    assert_eq!(ConfigError::LogLevel.message(), "invalid log_level");
}

#[test]
fn addresses_are_put_into_their_normal_form() {
    let config = KasmCloudConfig { nats_host: s("EXAMPLE.org/"), nats_port: 7, ..settings() };
    let expected = url::Url::parse("nats://EXAMPLE.org/:7").unwrap().to_string();
    assert_eq!(config.host_config().ok().unwrap().rpc_config.url, expected);
    assert_ne!(expected, "nats://EXAMPLE.org/:7x");
}

#[test]
fn log_levels_by_name_and_by_number() {
    let level = |text: &str| {
        KasmCloudConfig { log_level: s(text), ..settings() }.host_config().ok().and_then(|c| c.log_level)
    };
    assert_eq!(level("ERROR"), Some(Level::Error));
    assert_eq!(level("Warn"), Some(Level::Warn));
    assert_eq!(level("info"), Some(Level::Info));
    assert_eq!(level("debug"), Some(Level::Debug));
    assert_eq!(level("trace"), Some(Level::Trace));
    assert_eq!(level("1"), Some(Level::Error));
    assert_eq!(level("+2"), Some(Level::Warn));
    assert_eq!(level("003"), Some(Level::Info));
    assert_eq!(level("4"), Some(Level::Debug));
    assert_eq!(level("5"), Some(Level::Trace));
    assert_eq!(level("0"), None);
    assert_eq!(level("6"), None);
    assert_eq!(level("15"), None);
    assert_eq!(level("+"), None);
    assert_eq!(level(""), None);
    assert_eq!(level("-1"), None);
    assert_eq!(level("critical"), None);
}

#[test]
fn numbers_are_written_down() {
    assert_eq!(write_decimal(0), "0");
    assert_eq!(write_decimal(4222), "4222");
    assert_eq!(write_decimal(10), "10");
    assert_eq!(write_decimal(65535), "65535");
}
