use base64::Engine;
use kasmcloud_host::controller::links::{
    actor_found, after_adding_link, after_dropping_link, begin_link, link_patch, provider_found, ActorFound, LinkRegister,
    LinkStep, Lookup, ProviderFound,
};
use kasmcloud_host::controller::status::{
    actor_patch, provider_patch, provider_to_stop, report_actor, report_host, report_provider,
};
use kasmcloud_host::controller::{
    after_removing_actor, after_stopping_provider, error_policy, is_for_host, may_go_on, replica_count,
    Action,
};
use kasmcloud_host::entity::LinkDefinition;
use kasmcloud_host::handler::{TargetEntity, TargetInterface};
use kasmcloud_host::host::actors::{ActorPlan, Subscription};
use kasmcloud_host::host::ids::free_id;
use kasmcloud_host::host::providers::ProviderPlan;
use kasmcloud_host::host::{Host, HostConfig, HostError, HostStats, NatsConfig, NatsLogin};
use kasmcloud_host::jwt::{Actor, CapabilityProvider, Claims};
use kasmcloud_host::keys::{Identity, KeyKind};
use kasmcloud_host::provider::ProviderInstance;
use kasmcloud_host::table::{Datum, Table};
use kasmcloud_host::time::{Duration, Time};
use kasmcloud_host::v1alpha1::{Condition, LinkSpec, LinkStatus, Source};
use kasmcloud_host::wire::Level;

fn s(text: &str) -> String {
    text.to_string()
}

fn identity(kind: nkeys::KeyPairType, byte: u8) -> Identity {
    let pair = nkeys::KeyPair::new_from_raw(kind, [byte; 32]).unwrap();
    Identity::from_seed(&pair.seed().unwrap()).unwrap()
}

fn nats() -> NatsConfig {
    NatsConfig { url: s("nats://127.0.0.1:4222"), timeout: None, jwt: None, key: None, tls: false }
}

fn config() -> HostConfig {
    HostConfig {
        allow_file_load: true,
        rpc_config: NatsConfig { timeout: Some(Duration { secs: 2, nanos: 0 }), ..nats() },
        prov_rpc_config: nats(),
        lattice_prefix: s("default"),
        js_domain: None,
        host_key: Some(identity(nkeys::KeyPairType::Server, 2)),
        cluster_key: Some(identity(nkeys::KeyPairType::Cluster, 3)),
        cluster_issuers: None,
        log_level: Some(Level::Info),
    }
}

fn host() -> Host {
    Host::new(s("host-a"), config()).ok().unwrap()
}

fn actor_claims(subject: &str) -> Option<Claims<Actor>> {
    Some(Claims {
        issuer: s("AISSUER"),
        subject: s(subject),
        issued_at: 1000,
        not_before: None,
        expires: Some(2000),
        metadata: Some(Actor {
            name: Some(s("Echo")),
            caps: Some(vec![s("wasmcloud:keyvalue")]),
            rev: Some(3),
            ver: Some(s("0.3.0")),
            call_alias: Some(s("echo")),
            provider: false,
        }),
    })
}

fn provider_claims(subject: &str, targets: &[&str]) -> Claims<CapabilityProvider> {
    Claims {
        issuer: s("AISSUER"),
        subject: s(subject),
        issued_at: 1000,
        not_before: Some(1),
        expires: None,
        metadata: Some(CapabilityProvider {
            name: Some(s("Redis")),
            capid: s("wasmcloud:keyvalue"),
            vendor: s("wasmCloud"),
            rev: Some(1),
            ver: Some(s("0.1.0")),
            targets: targets.iter().map(|t| s(t)).collect(),
        }),
    }
}

fn link(actor: &str, provider: &str, name: &str) -> LinkDefinition {
    let mut values = Table::new();
    values.insert(s("URL"), s("redis://0"));
    values.insert(s("B"), s("2"));
    LinkDefinition {
        actor_id: s(actor),
        provider_id: s(provider),
        link_name: s(name),
        contract_id: s("wasmcloud:keyvalue"),
        values,
    }
}

fn started(host: &mut Host, name: &str, subject: &str, replica: usize) {
    let claims = actor_claims(subject);
    match host.reconcile_actor(&s(name), replica, &claims).unwrap() {
        ActorPlan::Start(subs) => {
            let instances = subs.into_iter().map(|x: Subscription| x.instance).collect();
            assert!(host.is_registered(&s(name), &s(subject)));
            host.finish_start(&s(name), &s("image:1"), claims.as_ref().unwrap(), instances);
        }
        ActorPlan::Grow(subs) => {
            let instances = subs.into_iter().map(|x: Subscription| x.instance).collect();
            host.finish_grow(&s(name), &s(subject), instances);
        }
        ActorPlan::Stop(_) => {}
        ActorPlan::Keep => {}
    }
}

fn instance_ids(host: &Host, subject: &str, name: &str) -> Vec<u128> {
    host.group(&s(subject))
        .and_then(|g| g.actors.get(&s(name)))
        .map(|a| a.instances.iter().map(|i| i.id).collect())
        .unwrap_or_default()
}

#[test]
fn hosts_are_started_as_configured() {
    let host = host();
    assert_eq!(host.name(), "host-a");
    assert_eq!(host.lattice_prefix(), "default");
    assert_eq!(host.host_key().kind(), KeyKind::Server);
    assert_eq!(host.cluster_key().kind(), KeyKind::Cluster);
    assert_eq!(host.cluster_issuers(), vec![host.cluster_key().public_key()]);
    assert_eq!(host.stats(), HostStats { provider_count: 0, actor_count: 0, actor_instance_count: 0 });
    assert!(host.config().allow_file_load);
    assert!(host.aliases().is_empty());
}

#[test]
fn missing_key_pairs_are_made_up() {
    let host = Host::new(s("h"), HostConfig { host_key: None, cluster_key: None, ..config() }).ok().unwrap();
    assert_eq!(host.host_key().kind(), KeyKind::Server);
    assert_eq!(host.cluster_key().kind(), KeyKind::Cluster);
    assert!(host.cluster_key().seed().is_some());
    assert_eq!(host.cluster_issuers(), vec![host.cluster_key().public_key()]);
}

#[test]
fn issuers_hold_the_cluster_once() {
    let own = identity(nkeys::KeyPairType::Cluster, 3).public_key();
    let given = |issuers: Vec<String>| {
        Host::new(s("h"), HostConfig { cluster_issuers: Some(issuers), ..config() }).ok().unwrap().cluster_issuers()
    };
    assert_eq!(given(vec![s("CX")]), vec![s("CX"), own.clone()]);
    assert_eq!(given(vec![own.clone(), s("CX")]), vec![own.clone(), s("CX")]);
    assert_eq!(given(vec![]), vec![own]);
}

#[test]
fn key_pairs_of_the_wrong_kind() {
    let wrong_cluster = HostConfig { cluster_key: Some(identity(nkeys::KeyPairType::Server, 1)), ..config() };
    let error = Host::new(s("h"), wrong_cluster).err().unwrap();
    assert_eq!(error, HostError::ClusterKeyKind(KeyKind::Server));
    assert_eq!(
        error.message(),
        "Condition failed: `cluster_key.key_pair_type() == KeyPairType::Cluster` (Server vs Cluster)"
    );
    let wrong_host = HostConfig { host_key: Some(identity(nkeys::KeyPairType::Cluster, 1)), ..config() };
    let error = Host::new(s("h"), wrong_host).err().unwrap();
    assert_eq!(error, HostError::HostKeyKind(KeyKind::Cluster));
    assert_eq!(
        error.message(),
        "Condition failed: `host_key.key_pair_type() == KeyPairType::Server` (Cluster vs Server)"
    );
    let both = HostConfig {
        host_key: Some(identity(nkeys::KeyPairType::User, 1)),
        cluster_key: Some(identity(nkeys::KeyPairType::User, 1)),
        ..config()
    };
    assert_eq!(Host::new(s("h"), both).err(), Some(HostError::ClusterKeyKind(KeyKind::User)));
}

#[test]
fn logging_in_takes_a_token_and_a_key_pair() {
    assert!(matches!(nats().login(), Ok(NatsLogin::Anonymous)));
    let key = identity(nkeys::KeyPairType::User, 1);
    let both = NatsConfig { jwt: Some(s("token")), key: Some(key.duplicate()), ..nats() };
    assert!(matches!(both.login(), Ok(NatsLogin::Signed { jwt, key: k }) if jwt == "token" && k.public_key() == key.public_key()));
    let half = NatsConfig { jwt: Some(s("token")), ..nats() };
    assert_eq!(half.login().err(), Some(HostError::HalfLogin));
    let half = NatsConfig { key: Some(key), ..nats() };
    assert_eq!(half.login().err(), Some(HostError::HalfLogin));
    assert_eq!(HostError::HalfLogin.message(), "cannot authenticate if only one of jwt or seed is specified");
}

#[test]
fn actors_are_started_with_their_instances() {
    let mut host = host();
    let claims = actor_claims("MECHO");
    let plan = host.reconcile_actor(&s("echo"), 2, &claims).unwrap();
    let subs = match plan {
        ActorPlan::Start(subs) => subs,
        other => panic!("{:?}", other),
    };
    assert_eq!(subs.len(), 2);
    assert_eq!(subs[0].topic, "wasmbus.rpc.default.MECHO");
    assert_eq!(subs[0].queue, "wasmbus.rpc.default.MECHO");
    assert_eq!(subs[0].instance.valid_issuers, host.cluster_issuers());
    assert_ne!(subs[0].instance.id, subs[1].instance.id);
    assert_eq!(host.stats().actor_count, 1);
    assert_eq!(host.stats().actor_instance_count, 0);
    let instances = subs.into_iter().map(|x| x.instance).collect();
    host.finish_start(&s("echo"), &s("image:1"), claims.as_ref().unwrap(), instances);
    assert_eq!(host.stats().actor_instance_count, 2);
    let actor = host.group(&s("MECHO")).unwrap().actors.get(&s("echo")).unwrap();
    assert_eq!(actor.image_ref, "image:1");
    assert_eq!(actor.handler.origin.public_key, "MECHO");
    assert_eq!(actor.handler.origin.contract_id, "");
    assert_eq!(actor.handler.lattice_prefix, "default");
    assert!(actor.handler.targets.is_empty());
}

#[test]
fn actors_grow_and_shrink_from_the_oldest() {
    let mut host = host();
    started(&mut host, "echo", "MECHO", 3);
    let first = instance_ids(&host, "MECHO", "echo");
    assert!(matches!(host.reconcile_actor(&s("echo"), 3, &actor_claims("MECHO")), Ok(ActorPlan::Keep)));
    started(&mut host, "echo", "MECHO", 5);
    let grown = instance_ids(&host, "MECHO", "echo");
    assert_eq!(grown.len(), 5);
    assert_eq!(grown[..3], first[..]);
    let stopped = match host.reconcile_actor(&s("echo"), 1, &actor_claims("MECHO")).unwrap() {
        ActorPlan::Stop(stopped) => stopped,
        other => panic!("{:?}", other),
    };
    assert_eq!(stopped.iter().map(|i| i.id).collect::<Vec<_>>(), grown[..4]);
    assert_eq!(instance_ids(&host, "MECHO", "echo"), grown[4..]);
    assert!(matches!(host.reconcile_actor(&s("echo"), 0, &actor_claims("MECHO")), Ok(ActorPlan::Stop(v)) if v.len() == 1));
    assert_eq!(host.stats(), HostStats { provider_count: 0, actor_count: 1, actor_instance_count: 0 });
    started(&mut host, "echo", "MECHO", 2);
    assert_eq!(instance_ids(&host, "MECHO", "echo").len(), 2);
}

#[test]
fn identifiers_are_apart() {
    assert_eq!(free_id(5, &vec![]), 5);
    assert_eq!(free_id(5, &vec![1, 2]), 5);
    assert_eq!(free_id(5, &vec![6, 5, 5, 7, 9]), 8);
    assert_eq!(free_id(u128::MAX, &vec![0, u128::MAX, 1]), 2);
    let mut host = host();
    started(&mut host, "a", "MECHO", 3);
    started(&mut host, "b", "MECHO", 2);
    started(&mut host, "a", "MECHO", 5);
    let mut ids = instance_ids(&host, "MECHO", "a");
    ids.extend(instance_ids(&host, "MECHO", "b"));
    ids.sort();
    ids.dedup();
    assert_eq!(ids.len(), 7);
}

#[test]
fn actors_keep_their_public_key() {
    let mut host = host();
    started(&mut host, "echo", "MECHO", 1);
    assert_eq!(host.reconcile_actor(&s("echo"), 1, &actor_claims("MOTHER")).err(), Some(HostError::KeyChanged));
    assert_eq!(host.reconcile_actor(&s("new"), 1, &None).err(), Some(HostError::ClaimsMissing));
    assert_eq!(host.stats().actor_count, 1);
    assert_eq!(HostError::KeyChanged.message(), "actor public key is change");
    started(&mut host, "echo-too", "MECHO", 2);
    assert_eq!(host.stats(), HostStats { provider_count: 0, actor_count: 1, actor_instance_count: 3 });
}

#[test]
fn actors_that_are_not_wanted_are_not_started() {
    let mut host = host();
    assert!(matches!(host.reconcile_actor(&s("echo"), 0, &actor_claims("MECHO")), Ok(ActorPlan::Keep)));
    assert!(host.group(&s("MECHO")).unwrap().actors.is_empty());
    assert!(host.remove_actor(&s("echo")).is_empty());
    assert!(host.group(&s("MECHO")).is_none());
}

#[test]
fn removed_actors_are_gone_and_others_stay() {
    let mut host = host();
    started(&mut host, "a", "MECHO", 2);
    started(&mut host, "b", "MECHO", 1);
    let ids = instance_ids(&host, "MECHO", "a");
    let stopped: Vec<u128> = host.remove_actor(&s("a")).iter().map(|i| i.id).collect();
    assert_eq!(stopped, ids);
    assert_eq!(instance_ids(&host, "MECHO", "b").len(), 1);
    assert!(host.remove_actor(&s("a")).is_empty());
    assert_eq!(host.remove_actor(&s("b")).len(), 1);
    assert!(host.group(&s("MECHO")).is_none());
    assert_eq!(host.stats().actor_count, 0);
    started(&mut host, "a", "MOTHER", 1);
    assert_eq!(instance_ids(&host, "MOTHER", "a").len(), 1);
}

#[test]
fn targets_are_set_for_all_instances() {
    let mut host = host();
    started(&mut host, "echo", "MECHO", 2);
    host.set_target(
        &s("echo"),
        &s("MECHO"),
        Some(TargetEntity::Link(Some(s("fast")))),
        vec![TargetInterface::WasiKeyvalueAtomic],
    );
    let actor = host.group(&s("MECHO")).unwrap().actors.get(&s("echo")).unwrap();
    assert!(actor.handler.targets.contains_key(&TargetInterface::WasiKeyvalueAtomic));
    host.set_target(&s("nobody"), &s("MECHO"), None, vec![TargetInterface::WasiKeyvalueAtomic]);
    let actor = host.group(&s("MECHO")).unwrap().actors.get(&s("echo")).unwrap();
    assert!(actor.handler.targets.contains_key(&TargetInterface::WasiKeyvalueAtomic));
}

#[test]
fn links_are_told_to_their_provider() {
    let mut host = host();
    let ld = link("MECHO", "VREDIS", "default");
    let told = host.add_linkdef(&ld).unwrap().unwrap();
    assert_eq!(told.topic, "wasmbus.rpc.default.VREDIS.default.linkdefs.put");
    let read: wasmcloud_control_interface::LinkDefinition = rmp_serde::from_slice(&told.payload).unwrap();
    assert_eq!(read.actor_id, "MECHO");
    assert_eq!(read.provider_id, "VREDIS");
    assert_eq!(read.link_name, "default");
    assert_eq!(read.contract_id, "wasmcloud:keyvalue");
    assert_eq!(read.values.len(), 2);
    assert_eq!(read.values["URL"], "redis://0");
    assert!(host.add_linkdef(&link("MECHO", "VOTHER", "default")).unwrap().is_none());
    let told = host.delete_linkdef(&link("MECHO", "VOTHER", "default")).unwrap();
    assert_eq!(told.topic, "wasmbus.rpc.default.VREDIS.default.linkdefs.del");
    assert_eq!(host.delete_linkdef(&ld).err(), Some(HostError::LinkNotFound));
}

#[test]
fn actors_see_their_links() {
    let mut host = host();
    let kv = s("wasmcloud:keyvalue");
    host.add_linkdef(&link("MECHO", "VREDIS", "default")).unwrap();
    host.add_linkdef(&link("MOTHER", "VREDIS", "default")).unwrap();
    started(&mut host, "echo", "MECHO", 1);
    let seen = |host: &Host, name: &str| {
        host.group(&s("MECHO")).unwrap().links.get(&kv).and_then(|l| l.get(&s(name))).map(|e| e.public_key.clone())
    };
    assert_eq!(seen(&host, "default"), Some(s("VREDIS")));
    host.add_linkdef(&link("MECHO", "VMEMORY", "fast")).unwrap();
    assert_eq!(seen(&host, "fast"), Some(s("VMEMORY")));
    let links = host.get_actor_links(&s("MECHO"));
    assert_eq!(links.len(), 1);
    assert_eq!(links.get(&kv).unwrap().len(), 2);
    assert_eq!(links.get(&kv).unwrap().get(&s("fast")).unwrap().link_name, "fast");
    host.delete_linkdef(&link("MECHO", "", "default")).unwrap();
    assert_eq!(seen(&host, "default"), None);
    assert_eq!(seen(&host, "fast"), Some(s("VMEMORY")));
    assert!(host.get_actor_links(&s("MNOBODY")).is_empty());
}

fn spawn_input(plan: ProviderPlan) -> (ProviderInstance, serde_json::Value) {
    let launch = match plan {
        ProviderPlan::Spawn(launch) => launch,
        other => panic!("{:?}", other),
    };
    let text = String::from_utf8(launch.stdin).unwrap();
    assert!(text.ends_with("\r\n"));
    let json = base64::engine::general_purpose::STANDARD.decode(text.trim_end()).unwrap();
    (launch.instance, serde_json::from_slice(&json).unwrap())
}

#[test]
fn providers_are_told_what_they_need() {
    let mut host = host();
    host.add_linkdef(&link("MECHO", "VREDIS", "default")).unwrap();
    host.add_linkdef(&link("MECHO", "VREDIS", "other")).unwrap();
    host.add_linkdef(&link("MOTHER", "VREDIS", "default")).unwrap();
    host.add_linkdef(&link("MTHIRD", "VMEMORY", "default")).unwrap();
    let plan = host.start_provider(&s("default"), &s("redis:1"), &provider_claims("VREDIS", &[])).unwrap();
    let (instance, data) = spawn_input(plan);
    assert_eq!(data["host_id"], host.host_key().public_key().as_str());
    assert_eq!(data["lattice_rpc_prefix"], "default");
    assert_eq!(data["link_name"], "default");
    assert_eq!(data["lattice_rpc_user_jwt"], "");
    assert_eq!(data["lattice_rpc_user_seed"], "");
    assert_eq!(data["lattice_rpc_url"], "nats://127.0.0.1:4222");
    assert_eq!(data["provider_key"], "VREDIS");
    assert_eq!(data["invocation_seed"], host.cluster_key().seed().unwrap().as_str());
    assert_eq!(data["instance_id"], uuid::Uuid::from_u128(instance.id).to_string().as_str());
    assert_eq!(data["cluster_issuers"][0], host.cluster_key().public_key().as_str());
    assert_eq!(data["default_rpc_timeout_ms"], 2000);
    assert_eq!(data["log_level"], "info");
    assert_eq!(data["structured_logging"], false);
    assert_eq!(data["link_definitions"].as_array().unwrap().len(), 2);
    for ld in data["link_definitions"].as_array().unwrap() {
        assert_eq!(ld["provider_id"], "VREDIS");
        assert_eq!(ld["link_name"], "default");
        assert_eq!(ld["values"]["URL"], "redis://0");
    }
    let read: wasmcloud_core::HostData = serde_json::from_value(data).unwrap();
    assert!(read.env_values.is_empty() && read.config_json.is_none());
    assert!(host.knows_provider(&s("VREDIS")));
    assert_eq!(host.stats().provider_count, 1);
}

#[test]
fn providers_run_once_for_each_link_name() {
    let mut host = host();
    let claims = provider_claims("VREDIS", &[]);
    let (instance, _) = spawn_input(host.start_provider(&s("default"), &s("redis:1"), &claims).unwrap());
    host.provider_started(&s("VREDIS"), &s("default"), instance);
    assert!(matches!(host.start_provider(&s("default"), &s("redis:2"), &claims), Ok(ProviderPlan::Running)));
    assert_eq!(host.provider(&s("VREDIS")).unwrap().image_ref, "redis:1");
    let (other, _) = spawn_input(host.start_provider(&s("fast"), &s("redis:2"), &claims).unwrap());
    host.provider_started(&s("VREDIS"), &s("fast"), other);
    assert_eq!(host.provider(&s("VREDIS")).unwrap().instances.len(), 2);

    let stopped = host.stop_provider(&s("default"), &s("VREDIS")).unwrap();
    assert_eq!(stopped.instance, instance);
    assert_eq!(stopped.topic, "wasmbus.rpc.default.VREDIS.default.shutdown");
    assert_eq!(stopped.timeout, Duration { secs: 5, nanos: 0 });
    let payload: serde_json::Value = serde_json::from_slice(&stopped.payload).unwrap();
    assert_eq!(payload["host_id"], host.host_key().public_key().as_str());
    assert_eq!(payload.as_object().unwrap().len(), 1);
    assert!(host.stop_provider(&s("default"), &s("VREDIS")).is_none());
    assert!(host.knows_provider(&s("VREDIS")));
    assert!(host.stop_provider(&s("fast"), &s("VREDIS")).is_some());
    assert!(!host.knows_provider(&s("VREDIS")));
    assert!(host.stop_provider(&s("fast"), &s("VREDIS")).is_none());
}

#[test]
fn providers_that_cannot_be_told() {
    let start = |config: HostConfig| {
        let mut host = Host::new(s("h"), config).ok().unwrap();
        let err = host.start_provider(&s("default"), &s("r"), &provider_claims("VREDIS", &[])).err();
        assert!(host.knows_provider(&s("VREDIS")));
        err
    };
    let public = |kind: nkeys::KeyPairType| {
        Some(Identity::from_public_key(&identity(kind, 5).public_key()).unwrap())
    };
    assert_eq!(
        start(HostConfig { cluster_key: public(nkeys::KeyPairType::Cluster), ..config() }),
        Some(HostError::ClusterSeedMissing)
    );
    let unsigned = NatsConfig { key: public(nkeys::KeyPairType::User), jwt: Some(s("t")), ..nats() };
    assert_eq!(start(HostConfig { prov_rpc_config: unsigned, ..config() }), Some(HostError::ProviderSeedMissing));
    let slow = NatsConfig { timeout: Some(Duration { secs: u64::MAX, nanos: 0 }), ..nats() };
    assert_eq!(start(HostConfig { rpc_config: slow, ..config() }), Some(HostError::RpcTimeout));
    assert_eq!(HostError::RpcTimeout.message(), "failed to convert rpc_timeout to u64");
}

#[test]
fn providers_log_in_with_what_is_set() {
    let key = identity(nkeys::KeyPairType::User, 5);
    let seed = key.seed().unwrap();
    let prov = NatsConfig { key: Some(key), jwt: Some(s("token")), ..nats() };
    let mut host = Host::new(s("h"), HostConfig { prov_rpc_config: prov, rpc_config: nats(), ..config() }).ok().unwrap();
    let plan = host.start_provider(&s("default"), &s("r"), &provider_claims("VREDIS", &[])).unwrap();
    let (_, data) = spawn_input(plan);
    assert_eq!(data["lattice_rpc_user_jwt"], "token");
    assert_eq!(data["lattice_rpc_user_seed"], seed.as_str());
    assert_eq!(data["default_rpc_timeout_ms"], 0);
}

#[test]
fn actors_are_reported() {
    let status = report_actor(actor_claims("MECHO").unwrap(), 3);
    assert_eq!(status.public_key, "MECHO");
    assert_eq!(status.descriptive_name, Some(s("Echo")));
    assert_eq!(status.caps, None);
    assert_eq!(status.capability_provider, Some(vec![s("wasmcloud:keyvalue")]));
    assert_eq!(status.call_alias, Some(s("echo")));
    assert_eq!(status.version, Some(s("0.3.0")));
    assert_eq!(status.reversion, Some(3));
    assert_eq!((status.replicas, status.available_replicas), (3, 3));
    assert_eq!(status.claims.issuer, "AISSUER");
    assert_eq!(status.claims.subject, "MECHO");
    assert_eq!(status.claims.issued_at, Time { seconds: 1000, nanos: 0 });
    assert_eq!(status.claims.not_before, None);
    assert_eq!(status.claims.expires, Some(Time { seconds: 2000, nanos: 0 }));
    assert!(status.conditions.is_empty());

    let mut claims = actor_claims("MECHO").unwrap();
    claims.metadata.as_mut().unwrap().provider = true;
    let status = report_actor(claims, 1);
    assert_eq!(status.caps, Some(vec![s("wasmcloud:keyvalue")]));
    assert_eq!(status.capability_provider, None);

    let mut claims = actor_claims("MECHO").unwrap();
    claims.metadata = None;
    let status = report_actor(claims, 1);
    assert_eq!((status.descriptive_name, status.version, status.reversion), (None, None, None));
}

#[test]
fn actor_status_is_written_when_it_changes() {
    assert!(actor_patch(None, 1, &None).is_none());
    let first = actor_patch(actor_claims("MECHO"), 1, &None);
    assert!(first.is_some());
    assert!(actor_patch(actor_claims("MECHO"), 1, &first).is_none());
    assert_eq!(actor_patch(actor_claims("MECHO"), 2, &first).unwrap().replicas, 2);
    let mut remarked = first;
    remarked.as_mut().unwrap().conditions.push(Condition {
        last_transition_time: Time { seconds: 0, nanos: 0 },
        message: s(""),
        observed_generation: None,
        reason: s("r"),
        status: s("True"),
        type_: s("Ready"),
    });
    assert!(actor_patch(actor_claims("MECHO"), 1, &remarked).is_some());
}

#[test]
fn provider_status_does_not_depend_on_order() {
    let first = provider_patch(Some(provider_claims("VREDIS", &["x86_64-linux", "aarch64-macos"])), &None);
    let status = first.as_ref().unwrap();
    assert_eq!(status.architecture_targets, vec![s("aarch64-macos"), s("x86_64-linux")]);
    assert_eq!(status.contract_id, "wasmcloud:keyvalue");
    assert_eq!(status.vendor, "wasmCloud");
    assert_eq!(status.descriptive_name, Some(s("Redis")));
    assert_eq!(status.claims.not_before, Some(Time { seconds: 1, nanos: 0 }));
    assert_eq!(status.instance_id, "");
    assert!(provider_patch(Some(provider_claims("VREDIS", &["aarch64-macos", "x86_64-linux"])), &first).is_none());
    assert!(provider_patch(Some(provider_claims("VREDIS", &["aarch64-macos"])), &first).is_some());
    assert!(provider_patch(None, &first).is_none());
    assert_eq!(provider_to_stop(&first), Some(s("VREDIS")));
    assert_eq!(provider_to_stop(&None), None);
    let mut nameless = provider_claims("", &[]);
    nameless.metadata = None;
    let blank = report_provider(nameless);
    assert_eq!((blank.contract_id.as_str(), blank.vendor.as_str(), blank.version.clone()), ("", "", None));
    assert_eq!(provider_to_stop(&Some(blank)), None);
}

#[test]
fn hosts_are_reported() {
    let mut host = host();
    started(&mut host, "a", "MECHO", 2);
    started(&mut host, "b", "MOTHER", 1);
    let _ = host.start_provider(&s("default"), &s("r"), &provider_claims("VREDIS", &[])).unwrap();
    let status = report_host(&host, s("node-1"));
    assert_eq!(status.kube_node_name, "node-1");
    assert_eq!(status.public_key, host.host_key().public_key());
    assert_eq!(status.cluster_public_key, host.cluster_key().public_key());
    assert_eq!(status.cluster_issuers, host.cluster_issuers());
    assert_eq!((status.pre_instance.as_str(), status.instance.as_str()), ("", ""));
    assert_eq!(status.providers.count, 1);
    assert_eq!(status.actors.count, 2);
    assert_eq!(status.actors.instance_count, 3);
}

fn spec(provider: (&str, &str), actor: (&str, &str), link_name: &str) -> LinkSpec {
    let mut values = Table::new();
    values.insert(s("URL"), s("redis://0"));
    LinkSpec {
        provider: Source { key: s(provider.0), name: s(provider.1) },
        actor: Source { key: s(actor.0), name: s(actor.1) },
        contract_id: s("wasmcloud:keyvalue"),
        link_name: s(link_name),
        values,
    }
}

fn found_actor(key: Option<&str>) -> Lookup<ActorFound> {
    Lookup::Found(ActorFound { public_key: key.map(s) })
}

fn found_provider(link: &str, key: Option<&str>) -> Lookup<ProviderFound> {
    Lookup::Found(ProviderFound { link: s(link), public_key: key.map(s) })
}

fn waits(step: LinkStep) -> Action {
    match step {
        LinkStep::Wait(action) => action,
        _ => panic!("not waiting"),
    }
}

fn resolved(step: LinkStep) -> (String, String, String) {
    match step {
        LinkStep::Resolved(ld) => {
            assert_eq!(ld.contract_id, "wasmcloud:keyvalue");
            assert_eq!(ld.values.get(&s("URL")), Some(&s("redis://0")));
            (ld.actor_id, ld.provider_id, ld.link_name)
        }
        _ => panic!("not resolved"),
    }
}

fn looks_for_actor(step: LinkStep) -> LinkDefinition {
    match step {
        LinkStep::FindActor { name, draft } => {
            assert_eq!(name, "echo");
            draft
        }
        _ => panic!("not looking for the actor"),
    }
}

fn looks_for_provider(step: LinkStep) -> LinkDefinition {
    match step {
        LinkStep::FindProvider { name, draft } => {
            assert_eq!(name, "redis");
            draft
        }
        _ => panic!("not looking for the provider"),
    }
}

#[test]
fn links_by_key_are_resolved_at_once() {
    let sp = spec(("VREDIS", ""), ("MECHO", ""), "default");
    assert_eq!(resolved(begin_link(&sp, &None)), (s("MECHO"), s("VREDIS"), s("default")));
    let sp = spec(("VREDIS", ""), ("MECHO", ""), "");
    assert_eq!(waits(begin_link(&sp, &None)), Action::AwaitChange);
    let sp = spec(("", ""), ("MECHO", ""), "default");
    assert_eq!(waits(begin_link(&sp, &None)), Action::AwaitChange);
    let sp = spec(("VREDIS", ""), ("", ""), "default");
    assert_eq!(waits(begin_link(&sp, &None)), Action::AwaitChange);
}

#[test]
fn links_by_name_are_resolved_step_by_step() {
    let sp = spec(("", "redis"), ("", "echo"), "");
    let draft = || looks_for_actor(begin_link(&sp, &None));
    assert_eq!(waits(actor_found(&sp, draft(), Lookup::Failed)), Action::Requeue(60));
    assert_eq!(waits(actor_found(&sp, draft(), found_actor(None))), Action::Requeue(10));
    assert_eq!(waits(actor_found(&sp, draft(), found_actor(Some("")))), Action::Requeue(10));
    let draft = || looks_for_provider(actor_found(&sp, draft(), found_actor(Some("MECHO"))));
    assert_eq!(draft().actor_id, "MECHO");
    assert_eq!(waits(provider_found(&sp, draft(), Lookup::Failed)), Action::Requeue(60));
    assert_eq!(waits(provider_found(&sp, draft(), found_provider("default", None))), Action::Requeue(10));
    assert_eq!(waits(provider_found(&sp, draft(), found_provider("default", Some("")))), Action::Requeue(10));
    assert_eq!(
        resolved(provider_found(&sp, draft(), found_provider("default", Some("VREDIS")))),
        (s("MECHO"), s("VREDIS"), s("default"))
    );
}

#[test]
fn providers_have_to_agree_with_what_is_asked_for() {
    let sp = spec(("VREDIS", "redis"), ("MECHO", ""), "default");
    let draft = || looks_for_provider(begin_link(&sp, &None));
    assert_eq!(waits(provider_found(&sp, draft(), found_provider("other", Some("VREDIS")))), Action::AwaitChange);
    assert_eq!(waits(provider_found(&sp, draft(), found_provider("default", Some("VOTHER")))), Action::Requeue(10));
    assert_eq!(
        resolved(provider_found(&sp, draft(), found_provider("default", Some("VREDIS")))),
        (s("MECHO"), s("VREDIS"), s("default"))
    );
}

#[test]
fn resolved_links_are_not_resolved_again() {
    let status = Some(LinkStatus {
        provider_key: s("VOLD"),
        actor_key: s("MOLD"),
        link_name: s("old"),
        conditions: vec![],
    });
    let sp = spec(("", "redis"), ("", "echo"), "");
    assert_eq!(resolved(begin_link(&sp, &status)), (s("MOLD"), s("VOLD"), s("old")));
    let partial = Some(LinkStatus {
        provider_key: s("VOLD"),
        actor_key: s(""),
        link_name: s("old"),
        conditions: vec![],
    });
    looks_for_actor(begin_link(&sp, &partial));
    let sp = spec(("VREDIS", ""), ("", "echo"), "");
    assert_eq!(waits(begin_link(&sp, &status)), Action::AwaitChange);
}

#[test]
fn link_status_is_written_when_it_changes() {
    let ld = link("MECHO", "VREDIS", "default");
    let first = link_patch(&ld, &None);
    let status = first.as_ref().unwrap();
    assert_eq!((status.provider_key.as_str(), status.actor_key.as_str(), status.link_name.as_str()), ("VREDIS", "MECHO", "default"));
    assert!(link_patch(&ld, &first).is_none());
    assert!(link_patch(&link("MECHO", "VOTHER", "default"), &first).is_some());
    assert_eq!(LinkRegister::place(&ld.contract_id, &first), Some(s("wasmcloud:keyvalue.MECHO.default")));
    assert_eq!(LinkRegister::place(&ld.contract_id, &None), None);
}

#[test]
fn links_go_with_the_last_resource() {
    let mut register = LinkRegister::new();
    let ld = link("MECHO", "VREDIS", "default");
    let place = s("wasmcloud:keyvalue.MECHO.default");
    assert!(register.is_new(&ld));
    register.join(&ld, &s("one"));
    assert!(!register.is_new(&ld));
    register.join(&link("MECHO", "VOTHER", "default"), &s("two"));
    register.join(&ld, &s("two"));
    assert!(register.leave(&place, &s("one")).is_none());
    assert!(register.leave(&place, &s("one")).is_none());
    let last = register.leave(&place, &s("two")).unwrap();
    assert_eq!(last.provider_id, "VREDIS");
    assert!(!register.is_new(&ld));
    assert!(register.leave(&place, &s("two")).is_some());
    register.forget(&place);
    assert!(register.is_new(&ld));
    assert!(register.leave(&place, &s("two")).is_none());
}

#[test]
fn links_that_cannot_be_added_are_not_noted() {
    let mut register = LinkRegister::new();
    let ld = link("MECHO", "VREDIS", "default");
    assert_eq!(after_adding_link(false), Some(Action::AwaitChange));
    assert_eq!(after_adding_link(true), None);
    assert!(register.finish_link(&ld, &s("one"), &None, false).is_none());
    assert!(register.is_new(&ld));
    let status = register.finish_link(&ld, &s("one"), &None, true);
    assert_eq!(status.as_ref().unwrap().provider_key, "VREDIS");
    assert!(!register.is_new(&ld));
    assert!(register.finish_link(&ld, &s("one"), &status, true).is_none());
}

#[test]
fn hosts_hold_what_is_asked_for() {
    let mut host = host();
    let mut register = LinkRegister::new();
    let kv = s("wasmcloud:keyvalue");
    let asks = |host: &mut Host, register: &mut LinkRegister, ld: &LinkDefinition, name: &str| {
        if register.is_new(ld) {
            assert!(host.add_linkdef(ld).unwrap().is_some());
        }
        register.join(ld, &s(name));
    };
    let ld = link("MECHO", "VREDIS", "default");
    asks(&mut host, &mut register, &ld, "one");
    asks(&mut host, &mut register, &ld, "two");
    asks(&mut host, &mut register, &link("MECHO", "VMEMORY", "fast"), "three");
    let place = s("wasmcloud:keyvalue.MECHO.default");
    assert!(register.leave(&place, &s("one")).is_none());
    assert_eq!(host.get_actor_links(&s("MECHO")).get(&kv).unwrap().len(), 2);
    let dropped = register.leave(&place, &s("two")).unwrap();
    host.delete_linkdef(&dropped).unwrap();
    register.forget(&place);
    let links = host.get_actor_links(&s("MECHO"));
    assert!(!links.get(&kv).unwrap().contains_key(&s("default")));
    assert_eq!(links.get(&kv).unwrap().get(&s("fast")).unwrap().public_key, "VMEMORY");
}

#[test]
fn asking_again_leaves_nothing_to_do() {
    let mut host = host();
    for replica in [2, 5, 1, 0] {
        started(&mut host, "echo", "MECHO", replica);
        assert_eq!(instance_ids(&host, "MECHO", "echo").len(), replica);
        let again = host.reconcile_actor(&s("echo"), replica, &actor_claims("MECHO")).unwrap();
        assert!(matches!(again, ActorPlan::Keep));
    }
}

#[test]
fn actions() {
    assert_eq!(after_removing_actor(true), Action::AwaitChange);
    assert_eq!(after_removing_actor(false), Action::Requeue(60));
    assert_eq!(after_stopping_provider(true), Action::AwaitChange);
    assert_eq!(after_stopping_provider(false), Action::Requeue(10));
    assert_eq!(after_dropping_link(true), Action::AwaitChange);
    assert_eq!(after_dropping_link(false), Action::Requeue(10));
    assert_eq!(error_policy(), Action::Requeue(2));
    assert!(is_for_host(&s("a"), &s("a")));
    assert!(!is_for_host(&s("a"), &s("b")));
    assert!(may_go_on(&Some(s("AlreadyExists"))));
    assert!(!may_go_on(&Some(s("Forbidden"))));
    assert!(!may_go_on(&None));
    assert_eq!(replica_count(0), 0);
    assert_eq!(replica_count(7), 7);
    assert_eq!(replica_count(i32::MAX), i32::MAX as usize);
    assert_eq!(replica_count(-1), -1i32 as usize);
    assert_eq!(replica_count(i32::MIN), i32::MIN as usize);
}
