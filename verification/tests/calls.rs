use kasmcloud_host::actor::{
    answer_bytes, dispatch, let_in, let_in_genuine, respond, ActorInstance, Body, Dispatch, InstanceError,
    MessageAction,
};
use kasmcloud_host::entity::{Links, WasmCloudEntity};
use kasmcloud_host::handler::{
    check_response, ensure_actor_capability, finish, identify_wasmbus_target, read_response,
    resolve_target, ActorIdentifier, CallError, Handler, ProviderMethod, Reply, TargetEntity,
    TargetInterface, WasmbusTarget,
};
use kasmcloud_host::jwt::{Actor, Claims};
use kasmcloud_host::keys::{Identity, KeyKind};
use kasmcloud_host::response::{
    decode_bool_response, decode_empty_provider_response, decode_i32_response, response_body,
    DecodeError,
};
use kasmcloud_host::table::{Datum, Table};
use kasmcloud_host::time::Duration;
use kasmcloud_host::wire::{
    accept_antiforgery, Invocation, InvocationResponse, CHUNK_RPC_EXTRA_SECS, CHUNK_THRESHOLD_BYTES,
};

fn s(text: &str) -> String {
    text.to_string()
}

fn identity(kind: nkeys::KeyPairType, byte: u8) -> Identity {
    let pair = nkeys::KeyPair::new_from_raw(kind, [byte; 32]).unwrap();
    Identity::from_seed(&pair.seed().unwrap()).unwrap()
}

fn entity(public_key: &str, link_name: &str, contract_id: &str) -> WasmCloudEntity {
    WasmCloudEntity { public_key: s(public_key), link_name: s(link_name), contract_id: s(contract_id) }
}

fn claims(caps: Option<Vec<String>>) -> Claims<Actor> {
    Claims {
        issuer: s("AISSUER"),
        subject: s("MACTOR"),
        issued_at: 0,
        not_before: None,
        expires: None,
        metadata: Some(Actor {
            name: None,
            caps,
            rev: None,
            ver: None,
            call_alias: None,
            provider: false,
        }),
    }
}

fn handler(caps: Option<Vec<String>>) -> Handler {
    Handler {
        lattice_prefix: s("default"),
        cluster_key: identity(nkeys::KeyPairType::Cluster, 3),
        host_key: identity(nkeys::KeyPairType::Server, 2),
        claims: claims(caps),
        origin: WasmCloudEntity::of_actor(s("MACTOR")),
        targets: Table::new(),
    }
}

const KV: &str = "wasmcloud:keyvalue";

fn kv_links() -> Links {
    let mut inner = Table::new();
    inner.insert(s("default"), entity("VREDIS", "default", KV));
    inner.insert(s("fast"), entity("VMEMORY", "fast", KV));
    let mut links = Table::new();
    links.insert(s(KV), inner);
    links
}

fn no_aliases() -> Table<String, WasmCloudEntity> {
    Table::new()
}

#[test]
fn thresholds_are_those_of_the_lattice() {
    assert_eq!(CHUNK_THRESHOLD_BYTES, wasmcloud_core::chunking::CHUNK_THRESHOLD_BYTES);
    assert_eq!(CHUNK_RPC_EXTRA_SECS, wasmcloud_core::chunking::CHUNK_RPC_EXTRA_TIME.as_secs());
}

#[test]
fn capabilities() {
    let with = claims(Some(vec![s(KV)])).metadata;
    let without = claims(None).metadata;
    assert!(ensure_actor_capability(&with, &s(KV)).is_ok());
    assert!(ensure_actor_capability(&None, &s("")).is_ok());
    assert!(ensure_actor_capability(&without, &s("")).is_ok());
    let err = ensure_actor_capability(&with, &s("wasmcloud:messaging")).unwrap_err();
    assert!(matches!(&err, CallError::MissingCapability(c) if c == "wasmcloud:messaging"));
    assert_eq!(err.message(), "actor does not have capability claim `wasmcloud:messaging`");
    let err = ensure_actor_capability(&without, &s(KV)).unwrap_err();
    assert!(matches!(err, CallError::NoCapabilities));
    assert_eq!(err.message(), "actor missing capability claims, denying invocation");
    assert!(matches!(ensure_actor_capability(&None, &s(KV)), Err(CallError::NoCapabilities)));
}

#[test]
fn targets_are_resolved() {
    let links = kv_links();
    let mut aliases = no_aliases();
    aliases.insert(s("echo"), entity("MECHO", "", ""));
    let inner = links.get(&s(KV));
    assert_eq!(resolve_target(None, inner, &aliases).unwrap().public_key, "VREDIS");
    let link = |name: Option<&str>| TargetEntity::Link(name.map(s));
    assert_eq!(resolve_target(Some(&link(None)), inner, &aliases).unwrap().public_key, "VREDIS");
    assert_eq!(resolve_target(Some(&link(Some("fast"))), inner, &aliases).unwrap().public_key, "VMEMORY");
    assert!(matches!(resolve_target(Some(&link(Some("slow"))), inner, &aliases), Err(CallError::LinkNotFound)));
    assert!(matches!(resolve_target(None, None, &aliases), Err(CallError::LinkNotFound)));
    let key = TargetEntity::Actor(ActorIdentifier::Key(s("MOTHER")));
    let found = resolve_target(Some(&key), None, &aliases).unwrap();
    assert_eq!((found.public_key.as_str(), found.link_name.as_str(), found.contract_id.as_str()), ("MOTHER", "", ""));
    let alias = TargetEntity::Actor(ActorIdentifier::Alias(s("echo")));
    assert_eq!(resolve_target(Some(&alias), None, &aliases).unwrap().public_key, "MECHO");
    assert!(matches!(resolve_target(Some(&alias), None, &no_aliases()), Err(CallError::UnknownAlias)));
}

#[test]
fn a_call_over_a_link_is_made_ready() {
    let h = handler(Some(vec![s(KV)]));
    let call = h
        .begin_call(
            &kv_links(),
            &no_aliases(),
            Some(&TargetEntity::Link(Some(s("fast")))),
            &s("wasmcloud:keyvalue/KeyValue.Get"),
            vec![1, 2, 3],
            vec![(s("traceparent"), s("00"))],
        )
        .unwrap();
    assert_eq!(call.topic, "wasmbus.rpc.default.VMEMORY.fast");
    assert!(!call.needs_chunking());
    assert_eq!(call.timeout(), None);
    let configured = Some(Duration { secs: 2, nanos: 0 });
    assert_eq!(call.rpc_timeout(configured), configured);
    assert_eq!(call.rpc_timeout(None), None);
    let id = call.invocation.id.clone();
    assert_eq!(id.len(), 36);
    assert_eq!(call.invocation.operation, "KeyValue.Get");
    assert_eq!(call.invocation.content_length, 3);
    assert_eq!(call.invocation.host_id, h.host_key.public_key());
    let payload = call.payload().unwrap();
    let sent: wasmcloud_core::Invocation = rmp_serde::from_slice(&payload).unwrap();
    assert_eq!(sent.id, id);
    assert_eq!(sent.origin.public_key, "MACTOR");
    assert_eq!(sent.target.public_key, "VMEMORY");
    assert_eq!(sent.target.link_name, "fast");
    assert_eq!(sent.target.contract_id, KV);
    assert_eq!(sent.operation, "KeyValue.Get");
    assert_eq!(sent.msg, vec![1, 2, 3]);
    assert_eq!(sent.content_length, 3);
    assert_eq!(sent.trace_context, vec![(s("traceparent"), s("00"))]);
    assert!(sent.validate_antiforgery(&[h.cluster_key.public_key()]).is_ok());
}

#[test]
fn a_call_to_an_actor_has_no_link_in_its_topic() {
    let h = handler(None);
    let target = TargetEntity::Actor(ActorIdentifier::Key(s("MOTHER")));
    let call = h
        .begin_call(&Table::new(), &no_aliases(), Some(&target), &s("a/b/Echo.Say"), vec![], vec![])
        .unwrap();
    assert_eq!(call.topic, "wasmbus.rpc.default.MOTHER");
    assert_eq!(call.invocation.operation, "Echo.Say");
}

#[test]
fn calls_that_are_not_made() {
    let h = handler(Some(vec![s("wasmcloud:messaging")]));
    let begin = |h: &Handler, op: &str| {
        h.begin_call(&kv_links(), &no_aliases(), None, &s(op), vec![], vec![]).map(|_| ()).unwrap_err().message()
    };
    assert_eq!(begin(&h, "Get"), "failed to parse operation");
    assert_eq!(begin(&h, "wasmcloud:blobstore/Get"), "link not found");
    assert_eq!(begin(&h, "wasmcloud:keyvalue/Get"), "actor does not have capability claim `wasmcloud:keyvalue`");
    let public = Identity::from_public_key(&h.cluster_key.public_key()).unwrap();
    let unsigned = Handler { cluster_key: public, ..handler(Some(vec![s(KV)])) };
    assert_eq!(begin(&unsigned, "wasmcloud:keyvalue/Get"), "failed to encode claims");
    let alias = TargetEntity::Actor(ActorIdentifier::Alias(s("echo")));
    let err = h.begin_call(&kv_links(), &no_aliases(), Some(&alias), &s("a/b"), vec![], vec![]).map(|_| ()).unwrap_err();
    assert_eq!(err.message(), "unknown actor call alias");
}

#[test]
fn long_messages_go_into_the_store() {
    let h = handler(Some(vec![s(KV)]));
    let begin = |n: usize| {
        h.begin_call(&kv_links(), &no_aliases(), None, &s("wasmcloud:keyvalue/KeyValue.Set"), vec![9; n], vec![]).unwrap()
    };
    let short = begin(CHUNK_THRESHOLD_BYTES);
    assert!(!short.needs_chunking());
    let long = begin(CHUNK_THRESHOLD_BYTES + 1);
    assert!(long.needs_chunking());
    assert_eq!(long.timeout(), Some(Duration { secs: 13, nanos: 0 }));
    assert_eq!(long.rpc_timeout(Some(Duration { secs: 2, nanos: 0 })), Some(Duration { secs: 13, nanos: 0 }));
    let sent: wasmcloud_core::Invocation = rmp_serde::from_slice(&long.payload().unwrap()).unwrap();
    assert!(sent.msg.is_empty());
    assert_eq!(sent.content_length as usize, CHUNK_THRESHOLD_BYTES + 1);
    assert!(sent.validate_antiforgery(&[h.cluster_key.public_key()]).is_ok());
}

#[test]
fn provider_operations_go_to_the_chosen_target() {
    let mut h = handler(Some(vec![s(KV)]));
    let first = h.call_text_operation(&kv_links(), &no_aliases(), ProviderMethod::KeyGet, &s("key"), vec![]).unwrap();
    assert_eq!(first.topic, "wasmbus.rpc.default.VREDIS.default");
    assert_eq!(first.invocation.msg, vec![0xa3, b'k', b'e', b'y']);
    assert_eq!(first.invocation.operation, "KeyValue.Get");
    h.set_target(
        Some(TargetEntity::Link(Some(s("fast")))),
        vec![TargetInterface::WasiKeyvalueReadwrite, TargetInterface::Other(s("x"))],
    );
    let second = h.call_operation(&kv_links(), &no_aliases(), ProviderMethod::KeySet, vec![7], vec![]).unwrap();
    assert_eq!(second.topic, "wasmbus.rpc.default.VMEMORY.fast");
    let other = h.call_operation(&kv_links(), &no_aliases(), ProviderMethod::KeyIncrement, vec![7], vec![]).unwrap();
    assert_eq!(other.topic, "wasmbus.rpc.default.VREDIS.default");
    assert_eq!(other.invocation.operation, "KeyValue.Increment");
    h.set_target(None, vec![TargetInterface::WasiKeyvalueReadwrite]);
    assert!(h.targets.get(&TargetInterface::WasiKeyvalueReadwrite).is_none());
    assert!(h.targets.get(&TargetInterface::Other(s("x"))).is_some());
}

#[test]
fn long_texts_have_longer_markers() {
    let h = handler(Some(vec![s(KV)]));
    let msg = |n: usize| {
        h.call_text_operation(&kv_links(), &no_aliases(), ProviderMethod::KeyGet, &"x".repeat(n), vec![]).unwrap().invocation.msg
    };
    assert_eq!(msg(31)[..1], [0xbf]);
    assert_eq!(msg(32)[..2], [0xd9, 32]);
    assert_eq!(msg(255)[..2], [0xd9, 255]);
    assert_eq!(msg(256)[..3], [0xda, 1, 0]);
    assert_eq!(msg(65536)[..5], [0xdb, 0, 1, 0, 0]);
    assert_eq!(msg(65536).len(), 65541);
}

#[test]
fn names_on_the_bus() {
    let links = kv_links();
    let found = identify_wasmbus_target(&links, &s("fast"), &s(KV));
    assert!(matches!(found, WasmbusTarget::Link(name) if name == "fast"));
    let found = identify_wasmbus_target(&links, &s("slow"), &s(KV));
    assert!(matches!(found, WasmbusTarget::Actor(name) if name == KV));
    let found = identify_wasmbus_target(&links, &s("fast"), &s("MOTHER"));
    assert!(matches!(found, WasmbusTarget::Actor(name) if name == "MOTHER"));
}

fn answer(id: &str, msg: Vec<u8>, error: Option<&str>, content_length: u64) -> InvocationResponse {
    InvocationResponse { msg, invocation_id: s(id), error: error.map(s), content_length }
}

#[test]
fn answers_are_held_against_the_call() {
    let ok = check_response(answer("1", vec![5], None, 1), &s("1")).unwrap();
    assert!(matches!(ok, Reply::Done(Ok(msg)) if msg == vec![5]));
    let failed = check_response(answer("1", vec![], Some("broken"), 0), &s("1")).unwrap();
    assert!(matches!(failed, Reply::Done(Err(e)) if e == "broken"));
    let stored = check_response(answer("1", vec![], None, 921601), &s("1")).unwrap();
    assert!(matches!(stored, Reply::Fetch { error: None }));
    let err = check_response(answer("2", vec![], None, 0), &s("1")).unwrap_err();
    assert_eq!(err.message(), "invocation ID mismatch");
    let err = check_response(answer("1", vec![5], None, 2), &s("1")).unwrap_err();
    assert_eq!(err.message(), "message size mismatch");
    assert_eq!(finish(None, vec![1]), Ok(vec![1]));
    assert_eq!(finish(Some(s("e")), vec![1]), Err(s("e")));
}

#[test]
fn answers_are_read_from_bytes() {
    let outside = wasmcloud_core::InvocationResponse {
        msg: vec![1, 2],
        invocation_id: s("id"),
        error: None,
        content_length: 2,
        trace_context: vec![(s("a"), s("b"))],
    };
    let bytes = rmp_serde::to_vec_named(&outside).unwrap();
    assert!(matches!(read_response(&bytes, &s("id")), Ok(Reply::Done(Ok(msg))) if msg == vec![1, 2]));
    let err = read_response(&vec![0xc1], &s("id")).unwrap_err();
    assert_eq!(err.message(), "failed to decode invocation response");
}

#[test]
fn provider_answers_are_framed() {
    assert_eq!(response_body(&vec![0x7f, 1]), Err(DecodeError::Cbor));
    assert_eq!(response_body(&vec![0xc1, 1, 2]), Ok(vec![1, 2]));
    assert_eq!(response_body(&vec![1, 2]), Ok(vec![1, 2]));
    assert_eq!(response_body(&vec![]), Ok(vec![]));
    assert_eq!(decode_empty_provider_response(&vec![]), Ok(()));
    assert_eq!(decode_empty_provider_response(&vec![0xc0]), Ok(()));
    assert_eq!(decode_empty_provider_response(&vec![0xc1, 0xc0]), Ok(()));
    assert_eq!(decode_empty_provider_response(&vec![0xc1]), Err(DecodeError::Malformed));
    assert_eq!(decode_empty_provider_response(&vec![0x7f]), Err(DecodeError::Cbor));
    assert_eq!(decode_empty_provider_response(&vec![0xc3]), Err(DecodeError::Malformed));
    assert_eq!(DecodeError::Cbor.message(), "CBOR responses are not supported");
    assert_eq!(DecodeError::Malformed.message(), "failed to decode response");
}

#[test]
fn truth_values_and_integers_of_providers() {
    assert_eq!(decode_bool_response(&vec![0xc3]), Ok(true));
    assert_eq!(decode_bool_response(&vec![0xc1, 0xc2]), Ok(false));
    assert_eq!(decode_bool_response(&vec![0x01]), Err(DecodeError::Malformed));
    assert_eq!(decode_bool_response(&vec![]), Err(DecodeError::Malformed));
    for n in [0i32, 1, 126, 128, 255, 256, 65535, 65536, i32::MAX, -1, -32, -33, -128, -129, -32768, -32769, i32::MIN] {
        let bytes = rmp_serde::to_vec_named(&n).unwrap();
        assert_eq!(decode_i32_response(&bytes), Ok(n));
    }
    assert_eq!(decode_i32_response(&vec![0xcf, 0, 0, 0, 0, 0, 0, 0, 9]), Ok(9));
    assert_eq!(decode_i32_response(&vec![0xce, 0x80, 0, 0, 0]), Err(DecodeError::Malformed));
    assert_eq!(decode_i32_response(&vec![0xd3, 0xff, 0xff, 0xff, 0xff, 0x7f, 0xff, 0xff, 0xff]), Err(DecodeError::Malformed));
    assert_eq!(decode_i32_response(&vec![0xcd, 1]), Err(DecodeError::Malformed));
    assert_eq!(decode_i32_response(&vec![0xca, 0, 0, 0, 0]), Err(DecodeError::Malformed));
    assert_eq!(decode_i32_response(&vec![5, 6, 7]), Ok(5));
    assert_eq!(decode_i32_response(&vec![0x7f]), Err(DecodeError::Cbor));
    assert_eq!(decode_i32_response(&vec![0xc1, 0x7f]), Ok(127));
}

fn sent_call(h: &Handler) -> (String, Vec<u8>) {
    let target = TargetEntity::Actor(ActorIdentifier::Key(s("MOTHER")));
    let call = h.begin_call(&Table::new(), &no_aliases(), Some(&target), &s("x/Echo.Say"), vec![4, 2], vec![]).unwrap();
    (call.invocation.id.clone(), call.payload().unwrap())
}

#[test]
fn calls_of_trusted_hosts_are_let_in() {
    let h = handler(None);
    let (id, payload) = sent_call(&h);
    let instance = ActorInstance { id: 1, valid_issuers: vec![s("CX"), h.cluster_key.public_key()] };
    let call = instance.receive(&payload).unwrap();
    assert_eq!(call.id, id);
    assert_eq!(call.operation, "Echo.Say");
    assert_eq!(call.contract_id, "");
    assert!(matches!(call.body, Body::Inline(msg) if msg == vec![4, 2]));
}

#[test]
fn other_calls_are_turned_away() {
    let h = handler(None);
    let (_, payload) = sent_call(&h);
    let stranger = ActorInstance { id: 1, valid_issuers: vec![s("CX")] };
    assert!(matches!(stranger.receive(&payload), Err(InstanceError::Forged)));
    let instance = ActorInstance { id: 1, valid_issuers: vec![h.cluster_key.public_key()] };
    assert!(matches!(instance.receive(&vec![0xc1]), Err(InstanceError::Decode)));
    let mut tampered: wasmcloud_core::Invocation = rmp_serde::from_slice(&payload).unwrap();
    tampered.msg = vec![6, 6];
    let bytes = rmp_serde::to_vec_named(&tampered).unwrap();
    assert!(matches!(instance.receive(&bytes), Err(InstanceError::Forged)));
    for broken in [
        wasmcloud_core::Invocation { host_id: s(""), ..rmp_serde::from_slice(&payload).unwrap() },
        wasmcloud_core::Invocation { encoded_claims: s("a.b.c"), ..rmp_serde::from_slice(&payload).unwrap() },
        wasmcloud_core::Invocation { encoded_claims: s(""), ..rmp_serde::from_slice(&payload).unwrap() },
        wasmcloud_core::Invocation { host_id: h.cluster_key.public_key(), ..rmp_serde::from_slice(&payload).unwrap() },
    ] {
        let bytes = rmp_serde::to_vec_named(&broken).unwrap();
        assert!(matches!(instance.receive(&bytes), Err(InstanceError::Forged)));
    }
}

#[test]
fn a_token_with_a_short_issuer_is_turned_away() {
    let key = nkeys::KeyPair::new_from_raw(nkeys::KeyPairType::Cluster, [3; 32]).unwrap();
    let claims = wascap::jwt::Claims::<wascap::jwt::Invocation>::new(s("AA"), s("id"), "t", "o", "h");
    let token = claims.encode(&key).unwrap();
    let h = handler(None);
    let inv = Invocation {
        origin: WasmCloudEntity::of_actor(s("MACTOR")),
        target: WasmCloudEntity::of_actor(s("MOTHER")),
        operation: s("x"),
        msg: vec![],
        id: s("id"),
        encoded_claims: token,
        host_id: h.host_key.public_key(),
        content_length: 0,
        trace_context: vec![],
    };
    assert!(!accept_antiforgery(&inv, &vec![s("AA")]));
}

#[test]
fn messages_of_calls() {
    let inv = |content_length: u64| Invocation {
        origin: entity("VHTTP", "default", "wasmcloud:httpserver"),
        target: WasmCloudEntity::of_actor(s("MACTOR")),
        operation: s("HttpServer.HandleRequest"),
        msg: vec![1],
        id: s("id"),
        encoded_claims: s(""),
        host_id: s(""),
        content_length,
        trace_context: vec![],
    };
    let call = let_in(inv(921600)).unwrap();
    assert!(matches!(call.body, Body::Inline(ref msg) if msg == &vec![1]));
    assert_eq!(call.contract_id, "wasmcloud:httpserver");
    let call = let_in(inv(921601)).unwrap();
    assert!(matches!(call.body, Body::Stored));
    let call = let_in_genuine(inv(1), true).unwrap();
    assert!(matches!(call.body, Body::Inline(ref msg) if msg == &vec![1]));
    assert!(matches!(let_in_genuine(inv(1), false), Err(InstanceError::Forged)));
}

#[test]
fn calls_are_dispatched() {
    let meta = claims(Some(vec![s("wasmcloud:httpserver")])).metadata;
    let http = s("wasmcloud:httpserver");
    assert_eq!(dispatch(&meta, &http, &s("HttpServer.HandleRequest")).unwrap(), Dispatch::Http);
    assert_eq!(dispatch(&meta, &http, &s("Other")).unwrap(), Dispatch::Operation);
    assert_eq!(dispatch(&meta, &s(""), &s("HttpServer.HandleRequest")).unwrap(), Dispatch::Operation);
    assert!(matches!(
        dispatch(&meta, &s(KV), &s("Get")),
        Err(InstanceError::Capability(CallError::MissingCapability(_)))
    ));
}

#[test]
fn answers_go_back_to_the_caller() {
    let answer = respond(s("id"), Ok(vec![1, 2]));
    assert!(answer.stored.is_none());
    let bytes = answer_bytes(answer.response).unwrap();
    let read: wasmcloud_core::InvocationResponse = rmp_serde::from_slice(&bytes).unwrap();
    assert_eq!((read.invocation_id.as_str(), read.content_length, read.error.is_none()), ("id", 2, true));
    assert!(matches!(read_response(&bytes, &s("id")), Ok(Reply::Done(Ok(msg))) if msg == vec![1, 2]));

    let answer = respond(s("id"), Err(s("broken")));
    let bytes = answer_bytes(answer.response).unwrap();
    assert!(matches!(read_response(&bytes, &s("id")), Ok(Reply::Done(Err(e))) if e == "broken"));

    let answer = respond(s("id"), Ok(vec![0; 921601]));
    assert_eq!(answer.stored.as_ref().map(|m| m.len()), Some(921601));
    assert!(answer.response.msg.is_empty());
    assert_eq!(answer.response.content_length, 921601);
    let bytes = answer_bytes(answer.response).unwrap();
    assert!(matches!(read_response(&bytes, &s("id")), Ok(Reply::Fetch { error: None })));

    let answer = respond(s("id"), Ok(vec![0; 921600]));
    assert!(answer.stored.is_none());
    assert_eq!(answer.response.msg.len(), 921600);
}

#[test]
fn answers_go_where_they_are_waited_for() {
    let instance = ActorInstance { id: 1, valid_issuers: vec![] };
    let sent = instance.handle_message(Some(s("inbox")), Ok(vec![1]));
    assert!(matches!(sent, MessageAction::Publish { reply, payload } if reply == "inbox" && payload == vec![1]));
    assert!(matches!(instance.handle_message(None, Ok(vec![1])), MessageAction::Nothing));
    assert!(matches!(
        instance.handle_message(Some(s("inbox")), Err(InstanceError::Decode)),
        MessageAction::Report(InstanceError::Decode)
    ));
    assert!(matches!(instance.handle_message(None, Err(InstanceError::Forged)), MessageAction::Report(InstanceError::Forged)));
}

#[test]
fn handlers_are_copied_with_their_targets() {
    let mut h = handler(None);
    h.set_target(Some(TargetEntity::Link(None)), vec![TargetInterface::WasiBlobstoreBlobstore]);
    let copy = h.duplicate();
    assert!(copy.targets.contains_key(&TargetInterface::WasiBlobstoreBlobstore));
    assert_eq!(copy.cluster_key.kind(), KeyKind::Cluster);
}
