//! Calls and answers as they travel over the lattice.

use vstd::prelude::*;
use vstd::string::*;
use wasmcloud_core::logging::Level as CoreLevel;
use wasmcloud_core::HostData as CoreData;
use wasmcloud_core::LinkDefinition as CoreLink;
use wasmcloud_core::OtelConfig;

use crate::entity::{LinkDefinition, WasmCloudEntity};
use crate::keys::{Identity, KeyKind};
use crate::text::cut_after_last;

verus! {

use crate::codec::{hex_upper, sha256, uuid_form};
use crate::entity::{EntityView, LinkDefinitionView};
use crate::keys::key_of_public;
use crate::table::enumerates;
use crate::text::{
    after_last, lemma_after_last, lemma_after_last_joined, text_opt, texts,
};
use vstd::utf8::encode_utf8;

/// A message with more bytes than this is put into the object store and not
/// sent along with the call.
pub const CHUNK_THRESHOLD_BYTES: usize = 921600;

/// How long the answer to a call is waited for whose message is in the object
/// store, in seconds.
pub const CHUNK_RPC_EXTRA_SECS: u64 = 13;

/// Pairs of texts that go along with a call for tracing.
pub type TraceContext = Vec<(String, String)>;

/// The characters of pairs of texts.
pub open spec fn pair_views(t: Seq<(String, String)>) -> Seq<(Seq<char>, Seq<char>)> {
    Seq::new(t.len(), |i: int| (t[i].0@, t[i].1@))
}

/// A text whose length can be written down in front of it.
pub open spec fn fits(s: Seq<char>) -> bool {
    encode_utf8(s).len() <= u32::MAX
}

pub open spec fn pairs_fit(t: Seq<(Seq<char>, Seq<char>)>) -> bool {
    t.len() <= u32::MAX && forall|i: int|
        0 <= i < t.len() ==> fits((#[trigger] t[i]).0) && fits(t[i].1)
}

pub open spec fn entity_fits(e: EntityView) -> bool {
    fits(e.public_key) && fits(e.link_name) && fits(e.contract_id)
}

/// A call on its way.
#[derive(Debug)]
pub struct Invocation {
    pub origin: WasmCloudEntity,
    pub target: WasmCloudEntity,
    pub operation: String,
    pub msg: Vec<u8>,
    pub id: String,
    pub encoded_claims: String,
    pub host_id: String,
    pub content_length: u64,
    pub trace_context: TraceContext,
}

/// A call without what is only there for tracing.
#[verifier::ext_equal]
pub ghost struct InvocationView {
    pub origin: EntityView,
    pub target: EntityView,
    pub operation: Seq<char>,
    pub msg: Seq<u8>,
    pub id: Seq<char>,
    pub encoded_claims: Seq<char>,
    pub host_id: Seq<char>,
    pub content_length: u64,
}

impl View for Invocation {
    type V = InvocationView;

    open spec fn view(&self) -> InvocationView {
        InvocationView {
            origin: self.origin@,
            target: self.target@,
            operation: self.operation@,
            msg: self.msg@,
            id: self.id@,
            encoded_claims: self.encoded_claims@,
            host_id: self.host_id@,
            content_length: self.content_length,
        }
    }
}

impl InvocationView {
    /// Every length of the call can be written down in front of what it counts.
    pub open spec fn encodable(self) -> bool {
        &&& entity_fits(self.origin)
        &&& entity_fits(self.target)
        &&& fits(self.operation)
        &&& self.msg.len() <= u32::MAX
        &&& fits(self.id)
        &&& fits(self.encoded_claims)
        &&& fits(self.host_id)
    }
}

/// The answer to a call.
#[derive(Debug)]
pub struct InvocationResponse {
    pub msg: Vec<u8>,
    pub invocation_id: String,
    pub error: Option<String>,
    pub content_length: u64,
}

#[verifier::ext_equal]
pub ghost struct InvocationResponseView {
    pub msg: Seq<u8>,
    pub invocation_id: Seq<char>,
    pub error: Option<Seq<char>>,
    pub content_length: u64,
}

impl View for InvocationResponse {
    type V = InvocationResponseView;

    open spec fn view(&self) -> InvocationResponseView {
        InvocationResponseView {
            msg: self.msg@,
            invocation_id: self.invocation_id@,
            error: text_opt(self.error),
            content_length: self.content_length,
        }
    }
}

impl InvocationResponseView {
    /// Every length of the answer can be written down in front of what it
    /// counts.
    pub open spec fn encodable(self) -> bool {
        &&& self.msg.len() <= u32::MAX
        &&& fits(self.invocation_id)
        &&& self.error matches Some(e) ==> fits(e)
    }
}

/// What the claims of a token say of a call, and when they hold, in seconds
/// since the start of 1970.
#[verifier::ext_equal]
pub ghost struct TokenClaims {
    pub issuer: Seq<char>,
    pub subject: Seq<char>,
    pub not_before: Option<u64>,
    pub expires: Option<u64>,
    pub target_url: Seq<char>,
    pub origin_url: Seq<char>,
    pub invocation_hash: Seq<char>,
}

/// The claims of a token, if `wascap::jwt::Claims::decode` can read them and
/// they speak of a call.
pub uninterp spec fn token_claims(token: Seq<char>) -> Option<TokenClaims>;

/// Whether `wascap::jwt::validate_token` can read a token and finds that its
/// signature is that of its issuer.
pub uninterp spec fn token_signed(token: Seq<char>) -> bool;

/// The claims of a token hold at all times.
pub open spec fn timeless(token: Seq<char>) -> bool {
    token_claims(token) matches Some(claims) && claims.not_before is None && claims.expires is None
}

/// The address of an actor or a provider, as `wasmcloud_core::WasmCloudEntity::url`
/// writes it.
pub uninterp spec fn entity_url(entity: EntityView) -> Seq<char>;

/// The address of an operation of an entity.
pub open spec fn operation_url(target: EntityView, operation: Seq<char>) -> Seq<char> {
    entity_url(target) + seq!['/'] + operation
}

/// The digest of a call: of its two addresses, its operation and its message.
pub open spec fn call_hash(
    origin: EntityView,
    target: EntityView,
    operation: Seq<char>,
    msg: Seq<u8>,
) -> Seq<char> {
    hex_upper(
        sha256(
            encode_utf8(entity_url(origin)) + encode_utf8(operation_url(target, operation))
                + encode_utf8(operation) + msg,
        ),
    )
}

/// A token with a signature of 64 bytes: 86 digits behind the last full stop.
pub open spec fn has_signature(token: Seq<char>) -> bool {
    after_last(token, '.') matches Some(signature) && signature.len() == 86
}

/// What signing adds to a call.
struct Seal {
    operation: String,
    id: String,
    encoded_claims: String,
    host_id: String,
}

/// `wasmcloud_core::Invocation::new`. It fails where the cluster key pair has
/// no seed or the operation holds no `/`, and only there. The operation that it
/// hands out is what stands behind the last `/`; the identifier is made by
/// chance and has the form of a UUID; the token ends in a signature, and its
/// claims hold at all times and name the cluster's public key as issuer, the
/// identifier, the two addresses and the digest of the call. The signature is
/// that of the issuer, where the public key of the issuer can be read back; a
/// few cannot. The token depends on the time as well: nothing more is stated of
/// it.
#[verifier::external_body]
fn seal(
    cluster_key: &Identity,
    host_key: &Identity,
    origin: &WasmCloudEntity,
    target: &WasmCloudEntity,
    operation: &str,
    msg: Vec<u8>,
) -> (r: Option<Seal>)
    ensures
        r is Some == (cluster_key@.seed is Some && after_last(operation@, '/') is Some),
        r matches Some(s) ==> {
            &&& after_last(operation@, '/') == Some(s.operation@)
            &&& exists|id: u128| s.id@ == uuid_form(id)
            &&& s.host_id@ == host_key@.public_key
            &&& has_signature(s.encoded_claims@)
            &&& token_claims(s.encoded_claims@) == Some(
                TokenClaims {
                    issuer: cluster_key@.public_key,
                    subject: s.id@,
                    not_before: None,
                    expires: None,
                    target_url: operation_url(target@, s.operation@),
                    origin_url: entity_url(origin@),
                    invocation_hash: call_hash(origin@, target@, s.operation@, msg@),
                },
            )
            &&& key_of_public(cluster_key@.public_key) is Some ==> token_signed(s.encoded_claims@)
        },
{
    let entity = |e: &WasmCloudEntity| wasmcloud_core::WasmCloudEntity {
        public_key: e.public_key.clone(),
        link_name: e.link_name.clone(),
        contract_id: e.contract_id.clone(),
    };
    let (key, host) = (&cluster_key.pair, &host_key.pair);
    let (from, to) = (entity(origin), entity(target));
    let inv = wasmcloud_core::Invocation::new(key, host, from, to, operation, msg, vec![]).ok()?;
    let wasmcloud_core::Invocation { operation, id, encoded_claims, host_id, .. } = inv;
    Some(Seal { operation, id, encoded_claims, host_id })
}

impl Invocation {
    /// A signed call of an operation. The message goes along with it, however
    /// long it is. It is made where the cluster key pair can sign and the
    /// operation holds a `/`.
    pub fn new(
        cluster_key: &Identity,
        host_key: &Identity,
        origin: WasmCloudEntity,
        target: WasmCloudEntity,
        operation: &String,
        msg: Vec<u8>,
        trace_context: TraceContext,
    ) -> (r: Option<Invocation>)
        ensures
            r is Some == (cluster_key@.seed is Some && after_last(operation@, '/') is Some),
            r matches Some(inv) ==> {
                &&& inv@.origin == origin@
                &&& inv@.target == target@
                &&& after_last(operation@, '/') == Some(inv@.operation)
                &&& inv@.msg == msg@
                &&& inv@.content_length == msg@.len()
                &&& inv@.host_id == host_key@.public_key
                &&& exists|id: u128| inv@.id == uuid_form(id)
                &&& vouched(inv@, cluster_key@.public_key)
                &&& inv.trace_context == trace_context
            },
    {
        let body = crate::text::copy_bytes(&msg);
        let s = match seal(cluster_key, host_key, &origin, &target, operation.as_str(), body) {
            Some(s) => s,
            None => {
                return None;
            },
        };
        let content_length: u64 = msg.len() as u64;
        Some(
            Invocation {
                origin,
                target,
                operation: s.operation,
                msg,
                id: s.id,
                encoded_claims: s.encoded_claims,
                host_id: s.host_id,
                content_length,
                trace_context,
            },
        )
    }
}

/// A call carries a token that speaks of it, issued under a public key. A call
/// whose message is in the object store is not held to the digest.
pub open spec fn sealed(inv: InvocationView, issuer: Seq<char>) -> bool {
    &&& has_signature(inv.encoded_claims)
    &&& token_claims(inv.encoded_claims) matches Some(claims) && {
        &&& claims.issuer == issuer
        &&& claims.target_url == operation_url(inv.target, inv.operation)
        &&& claims.origin_url == entity_url(inv.origin)
        &&& inv.msg.len() > 0 ==> claims.invocation_hash == call_hash(
            inv.origin,
            inv.target,
            inv.operation,
            inv.msg,
        )
    }
}

/// A call carries a token that speaks of it at all times, issued under a public
/// key, and signed by it where it can be read back.
pub open spec fn vouched(inv: InvocationView, issuer: Seq<char>) -> bool {
    &&& sealed(inv, issuer)
    &&& timeless(inv.encoded_claims)
    &&& key_of_public(issuer) is Some ==> token_signed(inv.encoded_claims)
}

/// A call comes from a host and carries a token that speaks of it, signed by
/// an issuer on a list. Whether the token holds at this time is another matter.
pub open spec fn genuine(inv: InvocationView, issuers: Seq<Seq<char>>) -> bool {
    &&& inv.host_id.len() >= 7
    &&& key_of_public(inv.host_id) matches Some(key) && key.0 == KeyKind::Server
    &&& token_signed(inv.encoded_claims)
    &&& token_claims(inv.encoded_claims) matches Some(claims) && {
        &&& claims.issuer.len() >= 7
        &&& issuers.contains(claims.issuer)
        &&& sealed(inv, claims.issuer)
    }
}

/// `wascap::jwt::Claims::decode` at the claims of an invocation: what they say
/// depends on the token alone; the issuer is handed out. No signature is
/// checked.
#[verifier::external_body]
fn read_token_issuer(token: &str) -> (r: Option<String>)
    ensures
        match r {
            Some(issuer) => token_claims(token@) matches Some(claims) && claims.issuer == issuer@,
            None => token_claims(token@) is None,
        },
{
    let claims = wascap::jwt::Claims::<wascap::jwt::Invocation>::decode(token).ok()?;
    claims.metadata.map(|_| claims.issuer)
}

/// `wasmcloud_core::Invocation::validate_antiforgery`. It succeeds where the
/// call comes from a host and carries a token that speaks of it, signed by an
/// issuer on the list, and the token holds at this time; of the time only this
/// is stated, that it does not matter to a token that holds at all times. It
/// panics on host identifiers and issuers that are too short, and on signatures
/// of the wrong length; `requires` leaves those out.
#[verifier::external_body]
fn validate_antiforgery(inv: &Invocation, valid_issuers: &Vec<String>) -> (r: bool)
    requires
        inv.host_id@.len() >= 7,
        has_signature(inv.encoded_claims@),
        token_claims(inv.encoded_claims@) matches Some(claims) && claims.issuer.len() >= 7,
    ensures
        r ==> token_signed(inv.encoded_claims@) && genuine(inv@, texts(valid_issuers@)),
        genuine(inv@, texts(valid_issuers@)) && timeless(inv.encoded_claims@) ==> r,
{
    let entity = |e: &WasmCloudEntity| wasmcloud_core::WasmCloudEntity {
        public_key: e.public_key.clone(),
        link_name: e.link_name.clone(),
        contract_id: e.contract_id.clone(),
    };
    let inv = wasmcloud_core::Invocation {
        origin: entity(&inv.origin),
        target: entity(&inv.target),
        operation: inv.operation.clone(),
        msg: inv.msg.clone(),
        encoded_claims: inv.encoded_claims.clone(),
        host_id: inv.host_id.clone(),
        ..Default::default()
    };
    inv.validate_antiforgery(valid_issuers).is_ok()
}

/// Whether a call is let in: it comes from a host and carries a token that
/// speaks of it, signed by an issuer on the list. A token can be too old or too
/// new: such calls are turned away too. Calls that cannot possibly hold are
/// turned away without a look at their signature.
pub fn accept_antiforgery(inv: &Invocation, valid_issuers: &Vec<String>) -> (r: bool)
    ensures
        r ==> genuine(inv@, texts(valid_issuers@)),
        genuine(inv@, texts(valid_issuers@)) && timeless(inv@.encoded_claims) ==> r,
{
    if inv.host_id.as_str().unicode_len() < 7 {
        return false;
    }
    match cut_after_last(&inv.encoded_claims, '.') {
        Some(signature) => {
            if signature.as_str().unicode_len() != 86 {
                return false;
            }
        },
        None => {
            return false;
        },
    }
    match read_token_issuer(inv.encoded_claims.as_str()) {
        Some(issuer) => {
            if issuer.as_str().unicode_len() < 7 {
                return false;
            }
        },
        None => {
            return false;
        },
    }
    validate_antiforgery(inv, valid_issuers)
}

/// The bytes of a call, as `rmp_serde::to_vec_named` writes them.
pub uninterp spec fn invocation_bytes(
    inv: InvocationView,
    trace: Seq<(Seq<char>, Seq<char>)>,
) -> Seq<u8>;

/// The call that bytes hold, if `rmp_serde::from_slice` finds one.
pub uninterp spec fn invocation_of_bytes(bytes: Seq<u8>) -> Option<InvocationView>;

/// `rmp_serde::to_vec_named` on a `wasmcloud_core::Invocation`: the bytes
/// depend on the call alone, and read back they give it again, as long as the
/// lengths in it can be written down. It fails where there is no memory for
/// the result; whether there is, is not stated.
#[verifier::external_body]
pub(crate) fn encode_invocation(inv: Invocation) -> (r: Option<Vec<u8>>)
    ensures
        r matches Some(bytes) ==> bytes@ == invocation_bytes(
            inv@,
            pair_views(inv.trace_context@),
        ),
        r matches Some(bytes) ==> (inv@.encodable() && pairs_fit(pair_views(inv.trace_context@))
            ==> invocation_of_bytes(bytes@) == Some(inv@)),
{
    let entity = |e: WasmCloudEntity| {
        let WasmCloudEntity { public_key, link_name, contract_id } = e;
        wasmcloud_core::WasmCloudEntity { public_key, link_name, contract_id }
    };
    let (origin, target) = (entity(inv.origin), entity(inv.target));
    let Invocation { operation, msg, id, encoded_claims, host_id, .. } = inv;
    let (content_length, trace_context) = (inv.content_length, inv.trace_context);
    rmp_serde::to_vec_named(&wasmcloud_core::Invocation {
        origin, target, operation, msg, id, encoded_claims, host_id, content_length, trace_context,
    }).ok()
}

/// `rmp_serde::from_slice` at `wasmcloud_core::Invocation`: the call depends on
/// the bytes alone, but for the order of what is there for tracing, of which
/// nothing is stated.
#[verifier::external_body]
pub(crate) fn decode_invocation(bytes: &[u8]) -> (r: Option<Invocation>)
    ensures
        match r {
            Some(inv) => invocation_of_bytes(bytes@) == Some(inv@),
            None => invocation_of_bytes(bytes@) is None,
        },
{
    let entity = |e: wasmcloud_core::WasmCloudEntity| WasmCloudEntity {
        public_key: e.public_key,
        link_name: e.link_name,
        contract_id: e.contract_id,
    };
    let inv = rmp_serde::from_slice::<wasmcloud_core::Invocation>(bytes).ok()?;
    let (origin, target) = (entity(inv.origin), entity(inv.target));
    let (operation, msg, id, encoded_claims) = (inv.operation, inv.msg, inv.id, inv.encoded_claims);
    let (host_id, content_length) = (inv.host_id, inv.content_length);
    let trace_context = inv.trace_context;
    Some(Invocation {
        origin, target, operation, msg, id, encoded_claims, host_id, content_length, trace_context,
    })
}

/// The bytes of an answer, as `rmp_serde::to_vec_named` writes them.
pub uninterp spec fn response_bytes(response: InvocationResponseView) -> Seq<u8>;

/// The answer that bytes hold, if `rmp_serde::from_slice` finds one.
pub uninterp spec fn response_of_bytes(bytes: Seq<u8>) -> Option<InvocationResponseView>;

/// `rmp_serde::to_vec_named` on a `wasmcloud_core::InvocationResponse` with
/// nothing for tracing: the bytes depend on the answer alone, and read back
/// they give it again, as long as the lengths in it can be written down. It
/// fails where there is no memory for the result; whether there is, is not
/// stated.
#[verifier::external_body]
pub(crate) fn encode_response(response: InvocationResponse) -> (r: Option<Vec<u8>>)
    ensures
        r matches Some(bytes) ==> bytes@ == response_bytes(response@),
        r matches Some(bytes) ==> (response@.encodable() ==> response_of_bytes(bytes@) == Some(
            response@,
        )),
{
    let InvocationResponse { msg, invocation_id, error, content_length } = response;
    let trace_context = vec![];
    rmp_serde::to_vec_named(&wasmcloud_core::InvocationResponse {
        msg, invocation_id, error, content_length, trace_context,
    }).ok()
}

/// `rmp_serde::from_slice` at `wasmcloud_core::InvocationResponse`: the answer
/// depends on the bytes alone. What is there for tracing is passed over.
#[verifier::external_body]
pub(crate) fn decode_response(bytes: &[u8]) -> (r: Option<InvocationResponse>)
    ensures
        match r {
            Some(response) => response_of_bytes(bytes@) == Some(response@),
            None => response_of_bytes(bytes@) is None,
        },
{
    let response = rmp_serde::from_slice::<wasmcloud_core::InvocationResponse>(bytes).ok()?;
    let wasmcloud_core::InvocationResponse { msg, invocation_id, error, content_length, .. } = response;
    Some(InvocationResponse { msg, invocation_id, error, content_length })
}

/// A link with its settings as a list.
#[derive(Debug)]
pub struct FlatLink {
    pub actor_id: String,
    pub provider_id: String,
    pub link_name: String,
    pub contract_id: String,
    pub values: Vec<(String, String)>,
}

#[verifier::ext_equal]
pub ghost struct FlatLinkView {
    pub actor_id: Seq<char>,
    pub provider_id: Seq<char>,
    pub link_name: Seq<char>,
    pub contract_id: Seq<char>,
    pub values: Seq<(Seq<char>, Seq<char>)>,
}

impl View for FlatLink {
    type V = FlatLinkView;

    open spec fn view(&self) -> FlatLinkView {
        FlatLinkView {
            actor_id: self.actor_id@,
            provider_id: self.provider_id@,
            link_name: self.link_name@,
            contract_id: self.contract_id@,
            values: pair_views(self.values@),
        }
    }
}

/// A list and a table hold the same link: the list names every setting once.
pub open spec fn same_link(flat: FlatLinkView, ld: LinkDefinitionView) -> bool {
    &&& flat.actor_id == ld.actor_id
    &&& flat.provider_id == ld.provider_id
    &&& flat.link_name == ld.link_name
    &&& flat.contract_id == ld.contract_id
    &&& enumerates(flat.values, ld.values)
}

/// A link with its settings as a list, in the order in which they are kept.
pub fn flatten(ld: &LinkDefinition) -> (r: FlatLink)
    ensures
        same_link(r@, ld@),
{
    let n: usize = ld.values.len();
    let mut values: Vec<(String, String)> = Vec::new();
    let mut i: usize = 0;
    while i < n
        invariant
            i <= n == ld.values.pairs().len(),
            pair_views(values@) =~= ld.values.pairs().subrange(0, i as int),
        decreases n - i,
    {
        let ghost before = pair_views(values@);
        values.push((ld.values.key_at(i).clone(), ld.values.value_at(i).clone()));
        assert(pair_views(values@) =~= before.push(ld.values.pairs()[i as int]));
        i = i + 1;
    }
    assert(pair_views(values@) =~= ld.values.pairs());
    FlatLink {
        actor_id: ld.actor_id.clone(),
        provider_id: ld.provider_id.clone(),
        link_name: ld.link_name.clone(),
        contract_id: ld.contract_id.clone(),
        values,
    }
}

/// The link that bytes hold, if `rmp_serde::from_slice` finds one.
pub uninterp spec fn link_of_bytes(bytes: Seq<u8>) -> Option<LinkDefinitionView>;

/// Every length of the link can be written down in front of what it counts.
pub open spec fn link_encodable(flat: FlatLinkView) -> bool {
    &&& fits(flat.actor_id)
    &&& fits(flat.provider_id)
    &&& fits(flat.link_name)
    &&& fits(flat.contract_id)
    &&& pairs_fit(flat.values)
}

/// `rmp_serde::to_vec` on a `wasmcloud_control_interface::LinkDefinition`. The
/// order of the settings in the bytes is that of a hash map and left to chance:
/// what is stated is what `rmp_serde::from_slice` reads back, as long as the
/// lengths in the link can be written down. It fails where there is no memory
/// for the result; whether there is, is not stated.
#[verifier::external_body]
pub(crate) fn encode_link(flat: FlatLink) -> (r: Option<Vec<u8>>)
    ensures
        r matches Some(bytes) ==> forall|ld: LinkDefinitionView| #[trigger]
            same_link(flat@, ld) && link_encodable(flat@) ==> link_of_bytes(bytes@) == Some(ld),
{
    let FlatLink { actor_id, provider_id, link_name, contract_id, values } = flat;
    let values = values.into_iter().collect();
    rmp_serde::to_vec(&wasmcloud_control_interface::LinkDefinition {
        actor_id, provider_id, link_name, contract_id, values,
    }).ok()
}

/// How much is logged.
#[derive(Clone, Copy, Debug, PartialEq, Eq, Structural)]
pub enum Level {
    Error,
    Warn,
    Info,
    Debug,
    Trace,
    Critical,
}

/// What a provider is told when it is started.
#[derive(Debug)]
pub struct HostData {
    pub host_id: String,
    pub lattice_rpc_prefix: String,
    pub link_name: String,
    pub lattice_rpc_user_jwt: String,
    pub lattice_rpc_user_seed: String,
    pub lattice_rpc_url: String,
    pub provider_key: String,
    pub invocation_seed: String,
    pub env_values: Vec<(String, String)>,
    pub instance_id: String,
    pub link_definitions: Vec<FlatLink>,
    pub cluster_issuers: Vec<String>,
    pub config_json: Option<String>,
    pub default_rpc_timeout_ms: Option<u64>,
    pub structured_logging: bool,
    pub log_level: Option<Level>,
    /// Where traces go, and how.
    pub traces_exporter: Option<String>,
    pub exporter_otlp_endpoint: Option<String>,
}

#[verifier::ext_equal]
pub ghost struct HostDataView {
    pub host_id: Seq<char>,
    pub lattice_rpc_prefix: Seq<char>,
    pub link_name: Seq<char>,
    pub lattice_rpc_user_jwt: Seq<char>,
    pub lattice_rpc_user_seed: Seq<char>,
    pub lattice_rpc_url: Seq<char>,
    pub provider_key: Seq<char>,
    pub invocation_seed: Seq<char>,
    pub env_values: Seq<(Seq<char>, Seq<char>)>,
    pub instance_id: Seq<char>,
    pub link_definitions: Seq<FlatLinkView>,
    pub cluster_issuers: Seq<Seq<char>>,
    pub config_json: Option<Seq<char>>,
    pub default_rpc_timeout_ms: Option<u64>,
    pub structured_logging: bool,
    pub log_level: Option<Level>,
    pub traces_exporter: Option<Seq<char>>,
    pub exporter_otlp_endpoint: Option<Seq<char>>,
}

impl View for HostData {
    type V = HostDataView;

    open spec fn view(&self) -> HostDataView {
        HostDataView {
            host_id: self.host_id@,
            lattice_rpc_prefix: self.lattice_rpc_prefix@,
            link_name: self.link_name@,
            lattice_rpc_user_jwt: self.lattice_rpc_user_jwt@,
            lattice_rpc_user_seed: self.lattice_rpc_user_seed@,
            lattice_rpc_url: self.lattice_rpc_url@,
            provider_key: self.provider_key@,
            invocation_seed: self.invocation_seed@,
            env_values: pair_views(self.env_values@),
            instance_id: self.instance_id@,
            link_definitions: Seq::new(
                self.link_definitions@.len(),
                |i: int| self.link_definitions@[i]@,
            ),
            cluster_issuers: texts(self.cluster_issuers@),
            config_json: text_opt(self.config_json),
            default_rpc_timeout_ms: self.default_rpc_timeout_ms,
            structured_logging: self.structured_logging,
            log_level: self.log_level,
            traces_exporter: text_opt(self.traces_exporter),
            exporter_otlp_endpoint: text_opt(self.exporter_otlp_endpoint),
        }
    }
}

/// The JSON text of what a provider is told, as `serde_json::to_vec` writes it.
pub uninterp spec fn host_data_json(data: HostDataView) -> Seq<u8>;

/// `serde_json::to_vec` on a `wasmcloud_core::HostData`: the bytes depend on
/// the data alone.
#[verifier::external_body]
pub(crate) fn encode_host_data(data: HostData) -> (r: Option<Vec<u8>>)
    ensures
        r is Some,
        r->0@ == host_data_json(data@),
{
    let HostData { host_id, lattice_rpc_prefix, link_name, lattice_rpc_user_jwt,
        lattice_rpc_user_seed, lattice_rpc_url, provider_key, invocation_seed, env_values,
        instance_id, link_definitions, cluster_issuers, config_json, default_rpc_timeout_ms,
        structured_logging, log_level, traces_exporter, exporter_otlp_endpoint } = data;
    let link_definitions = link_definitions.into_iter().map(
        |FlatLink { actor_id, provider_id, link_name, contract_id, values }|
        CoreLink { actor_id, provider_id, link_name, contract_id, values }).collect();
    serde_json::to_vec(&CoreData { host_id, lattice_rpc_prefix, link_name, lattice_rpc_user_jwt,
        lattice_rpc_user_seed, lattice_rpc_url, provider_key, invocation_seed, env_values, instance_id,
        link_definitions, cluster_issuers, config_json, default_rpc_timeout_ms, structured_logging,
        log_level: log_level.map(|l| match l { Level::Error => CoreLevel::Error,
            Level::Warn => CoreLevel::Warn, Level::Info => CoreLevel::Info, Level::Debug => CoreLevel::Debug,
            Level::Trace => CoreLevel::Trace, Level::Critical => CoreLevel::Critical }),
        otel_config: OtelConfig { traces_exporter, exporter_otlp_endpoint } }).ok()
}

/// A token has a signature where the last full stop in it has 86 characters
/// behind it.
pub proof fn signatures_stand_behind_the_last_full_stop(token: Seq<char>)
    ensures
        has_signature(token) <==> token.len() >= 87 && token[token.len() - 87] == '.' && forall|
            i: int,
        |
            token.len() - 86 <= i < token.len() ==> token[i] != '.',
{
    lemma_after_last(token, '.');
    if token.len() >= 87 && token[token.len() - 87] == '.' && forall|i: int|
        token.len() - 86 <= i < token.len() ==> token[i] != '.' {
        let head = token.subrange(0, token.len() - 87);
        let tail = token.subrange(token.len() - 86, token.len() as int);
        lemma_after_last_joined(head, '.', tail);
        assert(head + seq!['.'] + tail =~= token);
    }
    if has_signature(token) {
        let tail = after_last(token, '.')->0;
        assert forall|i: int| token.len() - 86 <= i < token.len() implies token[i] != '.' by {
            assert(tail[i - (token.len() - 86)] == token[i]);
        }
    }
}

/// The address of an operation is that of its target, with the operation behind
/// it.
pub proof fn operations_are_addressed_at_their_target(target: EntityView, operation: Seq<char>)
    ensures
        operation_url(target, operation) == entity_url(target) + "/"@ + operation,
{
    reveal_strlit("/");
    assert("/"@ =~= seq!['/']);
}

/// What makes a call genuine: it names a server as its host, and its token is
/// signed, by an issuer on the list, and speaks of its two ends, its operation
/// and, where it came along, its message.
pub proof fn genuine_calls_are_spoken_for(inv: InvocationView, issuers: Seq<Seq<char>>)
    ensures
        genuine(inv, issuers) <==> {
            &&& inv.host_id.len() >= 7
            &&& key_of_public(inv.host_id) matches Some(key)
            &&& key.0 == KeyKind::Server
            &&& token_signed(inv.encoded_claims)
            &&& has_signature(inv.encoded_claims)
            &&& token_claims(inv.encoded_claims) is Some
            &&& token_claims(inv.encoded_claims)->0.issuer.len() >= 7
            &&& issuers.contains(token_claims(inv.encoded_claims)->0.issuer)
            &&& token_claims(inv.encoded_claims)->0.target_url == entity_url(inv.target) + seq!['/']
                + inv.operation
            &&& token_claims(inv.encoded_claims)->0.origin_url == entity_url(inv.origin)
            &&& inv.msg.len() > 0 ==> token_claims(inv.encoded_claims)->0.invocation_hash
                == hex_upper(
                sha256(
                    encode_utf8(entity_url(inv.origin)) + encode_utf8(
                        entity_url(inv.target) + seq!['/'] + inv.operation,
                    ) + encode_utf8(inv.operation) + inv.msg,
                ),
            )
        },
{
}

/// What a host vouches for: its token speaks of the call, at all times, under
/// its key.
pub proof fn vouched_calls_are_spoken_for(inv: InvocationView, issuer: Seq<char>)
    requires
        vouched(inv, issuer),
    ensures
        has_signature(inv.encoded_claims),
        key_of_public(issuer) is Some ==> token_signed(inv.encoded_claims),
        token_claims(inv.encoded_claims) matches Some(claims) && {
            &&& claims.issuer == issuer
            &&& claims.not_before is None
            &&& claims.expires is None
            &&& claims.target_url == entity_url(inv.target) + seq!['/'] + inv.operation
            &&& claims.origin_url == entity_url(inv.origin)
            &&& inv.msg.len() > 0 ==> claims.invocation_hash == hex_upper(
                sha256(
                    encode_utf8(entity_url(inv.origin)) + encode_utf8(
                        entity_url(inv.target) + seq!['/'] + inv.operation,
                    ) + encode_utf8(inv.operation) + inv.msg,
                ),
            )
        },
{
}

/// A change of a call that was vouched for shows: a genuine call under the same
/// token has the same origin address, the same address of its operation, and
/// the same digest where its message came along.
pub proof fn tokens_speak_of_one_call(
    inv: InvocationView,
    other: InvocationView,
    issuer: Seq<char>,
    issuers: Seq<Seq<char>>,
)
    requires
        vouched(inv, issuer),
        genuine(other, issuers),
        other.encoded_claims == inv.encoded_claims,
    ensures
        issuers.contains(issuer),
        entity_url(other.origin) == entity_url(inv.origin),
        operation_url(other.target, other.operation) == operation_url(inv.target, inv.operation),
        inv.msg.len() > 0 && other.msg.len() > 0 ==> call_hash(
            other.origin,
            other.target,
            other.operation,
            other.msg,
        ) == call_hash(inv.origin, inv.target, inv.operation, inv.msg),
{
}

/// A link as a list holds the ends, the name and the contract of the link, and
/// its settings, each once and no others.
pub proof fn listed_links_keep_their_settings(
    flat: FlatLinkView,
    ld: LinkDefinitionView,
    setting: Seq<char>,
    value: Seq<char>,
    i: int,
    j: int,
)
    requires
        same_link(flat, ld),
        0 <= i < flat.values.len(),
        0 <= j < flat.values.len(),
    ensures
        flat.actor_id == ld.actor_id,
        flat.provider_id == ld.provider_id,
        flat.link_name == ld.link_name,
        flat.contract_id == ld.contract_id,
        flat.values.contains((setting, value)) <==> ld.values.contains_key(setting)
            && ld.values[setting] == value,
        i != j ==> flat.values[i].0 != flat.values[j].0,
{
    if ld.values.contains_key(setting) && ld.values[setting] == value {
        let k = choose|k: int| 0 <= k < flat.values.len() && (#[trigger] flat.values[k]).0 == setting;
        assert(flat.values[k] == (setting, value));
    }
}

/// Calls and their answers are known by all of their parts; of a call, what is
/// there for tracing does not count.
pub proof fn calls_are_known_by_their_parts(inv: Invocation, response: InvocationResponse)
    ensures
        inv@.origin == inv.origin@,
        inv@.target == inv.target@,
        inv@.operation == inv.operation@,
        inv@.msg == inv.msg@,
        inv@.id == inv.id@,
        inv@.encoded_claims == inv.encoded_claims@,
        inv@.host_id == inv.host_id@,
        inv@.content_length == inv.content_length,
        response@.msg == response.msg@,
        response@.invocation_id == response.invocation_id@,
        response@.error == text_opt(response.error),
        response@.content_length == response.content_length,
{
}

/// A link as a list, and what a provider is told, are known by all of their
/// parts.
pub proof fn provider_data_is_known_by_its_parts(flat: FlatLink, data: HostData, i: int)
    ensures
        flat@.actor_id == flat.actor_id@,
        flat@.provider_id == flat.provider_id@,
        flat@.link_name == flat.link_name@,
        flat@.contract_id == flat.contract_id@,
        flat@.values.len() == flat.values@.len(),
        0 <= i < flat.values@.len() ==> flat@.values[i] == (flat.values@[i].0@, flat.values@[i].1@),
        data@.host_id == data.host_id@,
        data@.lattice_rpc_prefix == data.lattice_rpc_prefix@,
        data@.link_name == data.link_name@,
        data@.lattice_rpc_user_jwt == data.lattice_rpc_user_jwt@,
        data@.lattice_rpc_user_seed == data.lattice_rpc_user_seed@,
        data@.lattice_rpc_url == data.lattice_rpc_url@,
        data@.provider_key == data.provider_key@,
        data@.invocation_seed == data.invocation_seed@,
        data@.env_values == pair_views(data.env_values@),
        data@.instance_id == data.instance_id@,
        data@.link_definitions.len() == data.link_definitions@.len(),
        0 <= i < data.link_definitions@.len() ==> data@.link_definitions[i]
            == data.link_definitions@[i]@,
        data@.cluster_issuers == texts(data.cluster_issuers@),
        data@.config_json == text_opt(data.config_json),
        data@.default_rpc_timeout_ms == data.default_rpc_timeout_ms,
        data@.structured_logging == data.structured_logging,
        data@.log_level == data.log_level,
        data@.traces_exporter == text_opt(data.traces_exporter),
        data@.exporter_otlp_endpoint == text_opt(data.exporter_otlp_endpoint),
{
}

/// A call can be read back where each of its texts, and its message, is short
/// enough for its length to be written in four bytes; so can an answer, and a
/// link.
pub proof fn short_calls_can_be_read_back(
    inv: InvocationView,
    response: InvocationResponseView,
    flat: FlatLinkView,
)
    ensures
        inv.encodable() <==> {
            &&& encode_utf8(inv.origin.public_key).len() <= u32::MAX
            &&& encode_utf8(inv.origin.link_name).len() <= u32::MAX
            &&& encode_utf8(inv.origin.contract_id).len() <= u32::MAX
            &&& encode_utf8(inv.target.public_key).len() <= u32::MAX
            &&& encode_utf8(inv.target.link_name).len() <= u32::MAX
            &&& encode_utf8(inv.target.contract_id).len() <= u32::MAX
            &&& encode_utf8(inv.operation).len() <= u32::MAX
            &&& inv.msg.len() <= u32::MAX
            &&& encode_utf8(inv.id).len() <= u32::MAX
            &&& encode_utf8(inv.encoded_claims).len() <= u32::MAX
            &&& encode_utf8(inv.host_id).len() <= u32::MAX
        },
        response.encodable() <==> {
            &&& response.msg.len() <= u32::MAX
            &&& encode_utf8(response.invocation_id).len() <= u32::MAX
            &&& response.error is Some ==> encode_utf8(response.error->0).len() <= u32::MAX
        },
        link_encodable(flat) <==> {
            &&& encode_utf8(flat.actor_id).len() <= u32::MAX
            &&& encode_utf8(flat.provider_id).len() <= u32::MAX
            &&& encode_utf8(flat.link_name).len() <= u32::MAX
            &&& encode_utf8(flat.contract_id).len() <= u32::MAX
            &&& flat.values.len() <= u32::MAX
            &&& forall|i: int|
                0 <= i < flat.values.len() ==> encode_utf8((#[trigger] flat.values[i]).0).len()
                    <= u32::MAX && encode_utf8(flat.values[i].1).len() <= u32::MAX
        },
{
}

} // verus!
