//! What an actor may call, and how its calls are sent and answered.

use vstd::prelude::*;
use vstd::string::*;

use crate::entity::{Links, WasmCloudEntity};
use crate::jwt::{Actor as ActorMetadata, Claims};
use crate::keys::Identity;
use crate::msgpack::encode_text;
use crate::table::{Datum, Key, Table};
use crate::text::{copy_text_opt, cut_before_first, holds_text};
use crate::time::Duration;
use crate::wire::{
    decode_response, encode_invocation, Invocation, InvocationResponse, TraceContext,
    CHUNK_RPC_EXTRA_SECS, CHUNK_THRESHOLD_BYTES,
};

verus! {

use crate::codec::uuid_form;
use crate::entity::{actor_entity, EntityView};
use crate::jwt::{ActorView, ClaimsView};
use crate::keys::IdentityView;
use crate::links::LinksView;
use crate::msgpack::encoded_text;
use crate::text::{
    after_last, before_first, lemma_after_last, lemma_after_last_joined, lemma_before_first,
    lemma_before_first_joined, text_opt, texts,
};
use crate::wire::{
    invocation_bytes, invocation_of_bytes, pair_views, pairs_fit, response_of_bytes, vouched,
    InvocationResponseView, InvocationView,
};

/// An actor that is called: by its public key, or by a name given to it.
#[derive(Debug)]
pub enum ActorIdentifier {
    Key(String),
    Alias(String),
}

/// Where a call goes: over a link, named or not, or to another actor.
#[derive(Debug)]
pub enum TargetEntity {
    Link(Option<String>),
    Actor(ActorIdentifier),
}

pub ghost enum TargetView {
    Link(Option<Seq<char>>),
    ActorKey(Seq<char>),
    ActorAlias(Seq<char>),
}

impl View for TargetEntity {
    type V = TargetView;

    open spec fn view(&self) -> TargetView {
        match self {
            TargetEntity::Link(name) => TargetView::Link(text_opt(*name)),
            TargetEntity::Actor(ActorIdentifier::Key(key)) => TargetView::ActorKey(key@),
            TargetEntity::Actor(ActorIdentifier::Alias(alias)) => TargetView::ActorAlias(alias@),
        }
    }
}

impl Datum for TargetEntity {
    fn duplicate(&self) -> (r: Self) {
        match self {
            TargetEntity::Link(name) => TargetEntity::Link(copy_text_opt(name)),
            TargetEntity::Actor(ActorIdentifier::Key(key)) => TargetEntity::Actor(
                ActorIdentifier::Key(key.clone()),
            ),
            TargetEntity::Actor(ActorIdentifier::Alias(alias)) => TargetEntity::Actor(
                ActorIdentifier::Alias(alias.clone()),
            ),
        }
    }
}

/// An interface whose target an actor can choose.
#[derive(Debug)]
pub enum TargetInterface {
    WasiBlobstoreBlobstore,
    WasiKeyvalueAtomic,
    WasiKeyvalueReadwrite,
    WasmcloudMessagingConsumer,
    Other(String),
}

pub ghost enum InterfaceView {
    Blobstore,
    KeyvalueAtomic,
    KeyvalueReadwrite,
    Messaging,
    Other(Seq<char>),
}

impl View for TargetInterface {
    type V = InterfaceView;

    open spec fn view(&self) -> InterfaceView {
        match self {
            TargetInterface::WasiBlobstoreBlobstore => InterfaceView::Blobstore,
            TargetInterface::WasiKeyvalueAtomic => InterfaceView::KeyvalueAtomic,
            TargetInterface::WasiKeyvalueReadwrite => InterfaceView::KeyvalueReadwrite,
            TargetInterface::WasmcloudMessagingConsumer => InterfaceView::Messaging,
            TargetInterface::Other(name) => InterfaceView::Other(name@),
        }
    }
}

impl Datum for TargetInterface {
    fn duplicate(&self) -> (r: Self) {
        match self {
            TargetInterface::WasiBlobstoreBlobstore => TargetInterface::WasiBlobstoreBlobstore,
            TargetInterface::WasiKeyvalueAtomic => TargetInterface::WasiKeyvalueAtomic,
            TargetInterface::WasiKeyvalueReadwrite => TargetInterface::WasiKeyvalueReadwrite,
            TargetInterface::WasmcloudMessagingConsumer => TargetInterface::WasmcloudMessagingConsumer,
            TargetInterface::Other(name) => TargetInterface::Other(name.clone()),
        }
    }
}

impl Key for TargetInterface {
    fn same(&self, other: &Self) -> (r: bool) {
        match (self, other) {
            (TargetInterface::WasiBlobstoreBlobstore, TargetInterface::WasiBlobstoreBlobstore) => true,
            (TargetInterface::WasiKeyvalueAtomic, TargetInterface::WasiKeyvalueAtomic) => true,
            (TargetInterface::WasiKeyvalueReadwrite, TargetInterface::WasiKeyvalueReadwrite) => true,
            (
                TargetInterface::WasmcloudMessagingConsumer,
                TargetInterface::WasmcloudMessagingConsumer,
            ) => true,
            (TargetInterface::Other(a), TargetInterface::Other(b)) => *a == *b,
            _ => false,
        }
    }
}

/// Why a call was not made, or its answer not taken.
#[derive(Debug)]
pub enum CallError {
    /// The operation names no package.
    Operation,
    /// There is no link to go over.
    LinkNotFound,
    /// No actor goes by the name.
    UnknownAlias,
    /// The call could not be signed.
    Signing,
    /// The actor claims capabilities, but not this one.
    MissingCapability(String),
    /// The actor claims no capabilities at all.
    NoCapabilities,
    /// The request could not be encoded.
    EncodeRequest,
    /// The call could not be encoded.
    EncodeInvocation,
    /// The answer could not be decoded.
    DecodeResponse,
    /// The answer is to another call.
    InvocationId,
    /// The length that the answer gives is too large for this machine.
    ContentLength,
    /// The answer is not as long as it says.
    MessageSize,
}

pub ghost enum CallErrorView {
    Operation,
    LinkNotFound,
    UnknownAlias,
    Signing,
    MissingCapability(Seq<char>),
    NoCapabilities,
    EncodeRequest,
    EncodeInvocation,
    DecodeResponse,
    InvocationId,
    ContentLength,
    MessageSize,
}

impl View for CallError {
    type V = CallErrorView;

    open spec fn view(&self) -> CallErrorView {
        match self {
            CallError::Operation => CallErrorView::Operation,
            CallError::LinkNotFound => CallErrorView::LinkNotFound,
            CallError::UnknownAlias => CallErrorView::UnknownAlias,
            CallError::Signing => CallErrorView::Signing,
            CallError::MissingCapability(c) => CallErrorView::MissingCapability(c@),
            CallError::NoCapabilities => CallErrorView::NoCapabilities,
            CallError::EncodeRequest => CallErrorView::EncodeRequest,
            CallError::EncodeInvocation => CallErrorView::EncodeInvocation,
            CallError::DecodeResponse => CallErrorView::DecodeResponse,
            CallError::InvocationId => CallErrorView::InvocationId,
            CallError::ContentLength => CallErrorView::ContentLength,
            CallError::MessageSize => CallErrorView::MessageSize,
        }
    }
}

impl CallErrorView {
    /// What the caller is told.
    pub open spec fn text(self) -> Seq<char> {
        match self {
            CallErrorView::Operation => "failed to parse operation"@,
            CallErrorView::LinkNotFound => "link not found"@,
            CallErrorView::UnknownAlias => "unknown actor call alias"@,
            CallErrorView::Signing => "failed to encode claims"@,
            CallErrorView::MissingCapability(c) => "actor does not have capability claim `"@ + c
                + "`"@,
            CallErrorView::NoCapabilities => "actor missing capability claims, denying invocation"@,
            CallErrorView::EncodeRequest => "failed to encode request"@,
            CallErrorView::EncodeInvocation => "failed to encode invocation"@,
            CallErrorView::DecodeResponse => "failed to decode invocation response"@,
            CallErrorView::InvocationId => "invocation ID mismatch"@,
            CallErrorView::ContentLength => "content length does not fit in usize"@,
            CallErrorView::MessageSize => "message size mismatch"@,
        }
    }
}

impl CallError {
    /// What the caller is told.
    pub fn message(&self) -> (r: String)
        ensures
            r@ == self@.text(),
    {
        match self {
            CallError::Operation => "failed to parse operation".to_owned(),
            CallError::LinkNotFound => "link not found".to_owned(),
            CallError::UnknownAlias => "unknown actor call alias".to_owned(),
            CallError::Signing => "failed to encode claims".to_owned(),
            CallError::MissingCapability(c) => {
                let mut text = "actor does not have capability claim `".to_owned();
                text.append(c.as_str());
                text.append("`");
                text
            },
            CallError::NoCapabilities => {
                "actor missing capability claims, denying invocation".to_owned()
            },
            CallError::EncodeRequest => "failed to encode request".to_owned(),
            CallError::EncodeInvocation => "failed to encode invocation".to_owned(),
            CallError::DecodeResponse => "failed to decode invocation response".to_owned(),
            CallError::InvocationId => "invocation ID mismatch".to_owned(),
            CallError::ContentLength => "content length does not fit in usize".to_owned(),
            CallError::MessageSize => "message size mismatch".to_owned(),
        }
    }
}

/// What an actor that claims this of itself may do under a contract. Calls
/// between actors have no contract and are always allowed.
pub open spec fn capability(metadata: Option<ActorView>, contract_id: Seq<char>) -> Result<
    (),
    CallErrorView,
> {
    if contract_id.len() == 0 {
        Ok(())
    } else {
        match metadata {
            Some(actor) => match actor.caps {
                Some(caps) => if caps.contains(contract_id) {
                    Ok(())
                } else {
                    Err(CallErrorView::MissingCapability(contract_id))
                },
                None => Err(CallErrorView::NoCapabilities),
            },
            None => Err(CallErrorView::NoCapabilities),
        }
    }
}

/// The view of what an actor claims.
pub open spec fn metadata_view(metadata: Option<ActorMetadata>) -> Option<ActorView> {
    match metadata {
        Some(m) => Some(m@),
        None => None,
    }
}

/// Whether an actor may call, or be called, under a contract.
pub fn ensure_actor_capability(
    claims_metadata: &Option<ActorMetadata>,
    contract_id: &String,
) -> (r: Result<(), CallError>)
    ensures
        match r {
            Ok(()) => capability(metadata_view(*claims_metadata), contract_id@) is Ok,
            Err(e) => capability(metadata_view(*claims_metadata), contract_id@) == Err::<
                (),
                CallErrorView,
            >(e@),
        },
        r is Ok <==> contract_id@.len() == 0 || (claims_metadata is Some
            && claims_metadata->0.caps is Some && texts(claims_metadata->0.caps->0@).contains(
            contract_id@,
        )),
{
    if contract_id.as_str().is_empty() {
        return Ok(());
    }
    match claims_metadata {
        Some(actor) => match &actor.caps {
            Some(caps) => {
                if holds_text(caps, contract_id) {
                    Ok(())
                } else {
                    Err(CallError::MissingCapability(contract_id.clone()))
                }
            },
            None => Err(CallError::NoCapabilities),
        },
        None => Err(CallError::NoCapabilities),
    }
}

/// The link that is gone over where none is named.
pub open spec fn default_link() -> Seq<char> {
    "default"@
}

/// Where a call goes, given the links of its package and the names of actors.
pub open spec fn resolved(
    target: Option<TargetView>,
    links: Option<Map<Seq<char>, EntityView>>,
    aliases: Map<Seq<char>, EntityView>,
) -> Result<EntityView, CallErrorView> {
    match target {
        Some(TargetView::ActorKey(key)) => Ok(actor_entity(key)),
        Some(TargetView::ActorAlias(alias)) => if aliases.contains_key(alias) {
            Ok(aliases[alias])
        } else {
            Err(CallErrorView::UnknownAlias)
        },
        Some(TargetView::Link(Some(name))) => over_link(links, name),
        Some(TargetView::Link(None)) => over_link(links, default_link()),
        None => over_link(links, default_link()),
    }
}

pub open spec fn over_link(links: Option<Map<Seq<char>, EntityView>>, name: Seq<char>) -> Result<
    EntityView,
    CallErrorView,
> {
    match links {
        Some(links) => if links.contains_key(name) {
            Ok(links[name])
        } else {
            Err(CallErrorView::LinkNotFound)
        },
        None => Err(CallErrorView::LinkNotFound),
    }
}

pub open spec fn target_view(target: Option<&TargetEntity>) -> Option<TargetView> {
    match target {
        Some(t) => Some(t@),
        None => None,
    }
}

pub open spec fn package_links(links: Option<&Table<String, WasmCloudEntity>>) -> Option<
    Map<Seq<char>, EntityView>,
> {
    match links {
        Some(l) => Some(l@),
        None => None,
    }
}

/// Finds where a call goes.
pub fn resolve_target(
    target: Option<&TargetEntity>,
    links: Option<&Table<String, WasmCloudEntity>>,
    aliases: &Table<String, WasmCloudEntity>,
) -> (r: Result<WasmCloudEntity, CallError>)
    ensures
        match r {
            Ok(entity) => resolved(target_view(target), package_links(links), aliases@) == Ok::<
                EntityView,
                CallErrorView,
            >(entity@),
            Err(e) => resolved(target_view(target), package_links(links), aliases@) == Err::<
                EntityView,
                CallErrorView,
            >(e@),
        },
{
    let name: String = match target {
        Some(TargetEntity::Actor(ActorIdentifier::Key(key))) => {
            return Ok(WasmCloudEntity::of_actor(key.clone()));
        },
        Some(TargetEntity::Actor(ActorIdentifier::Alias(alias))) => {
            return match aliases.get(alias) {
                Some(entity) => Ok(entity.duplicate()),
                None => Err(CallError::UnknownAlias),
            };
        },
        Some(TargetEntity::Link(Some(name))) => name.clone(),
        Some(TargetEntity::Link(None)) => "default".to_owned(),
        None => "default".to_owned(),
    };
    match links {
        Some(links) => match links.get(&name) {
            Some(entity) => Ok(entity.duplicate()),
            None => Err(CallError::LinkNotFound),
        },
        None => Err(CallError::LinkNotFound),
    }
}

/// What the calls of one actor are made with.
pub struct Handler {
    pub lattice_prefix: String,
    pub cluster_key: Identity,
    pub host_key: Identity,
    pub claims: Claims<ActorMetadata>,
    pub origin: WasmCloudEntity,
    pub targets: Table<TargetInterface, TargetEntity>,
}

#[verifier::ext_equal]
pub ghost struct HandlerView {
    pub lattice_prefix: Seq<char>,
    pub cluster_key: IdentityView,
    pub host_key: IdentityView,
    pub claims: ClaimsView<ActorView>,
    pub origin: EntityView,
    pub targets: Map<InterfaceView, TargetView>,
}

impl View for Handler {
    type V = HandlerView;

    open spec fn view(&self) -> HandlerView {
        HandlerView {
            lattice_prefix: self.lattice_prefix@,
            cluster_key: self.cluster_key@,
            host_key: self.host_key@,
            claims: self.claims@,
            origin: self.origin@,
            targets: self.targets@,
        }
    }
}

impl Datum for Handler {
    fn duplicate(&self) -> (r: Self) {
        Handler {
            lattice_prefix: self.lattice_prefix.clone(),
            cluster_key: self.cluster_key.duplicate(),
            host_key: self.host_key.duplicate(),
            claims: self.claims.duplicate(),
            origin: self.origin.duplicate(),
            targets: self.targets.duplicate(),
        }
    }
}

/// Where a call of a handler goes, and whether it may: the package of the
/// operation stands before its first `/`, and its links are looked at alone.
pub open spec fn call_target(
    handler: HandlerView,
    links: LinksView,
    aliases: Map<Seq<char>, EntityView>,
    target: Option<TargetView>,
    operation: Seq<char>,
) -> Result<EntityView, CallErrorView> {
    match before_first(operation, '/') {
        None => Err(CallErrorView::Operation),
        Some(package) => {
            let package_links = if links.contains_key(package) {
                Some(links[package])
            } else {
                None
            };
            match resolved(target, package_links, aliases) {
                Err(e) => Err(e),
                Ok(entity) => if handler.cluster_key.seed is None {
                    Err(CallErrorView::Signing)
                } else {
                    match capability(handler.claims.metadata, entity.contract_id) {
                        Err(e) => Err(e),
                        Ok(()) => Ok(entity),
                    }
                },
            }
        },
    }
}

/// The topic that a call is sent to: that of the target, with its link name
/// unless it is an actor that was named as such.
pub open spec fn call_topic(
    lattice_prefix: Seq<char>,
    target: Option<TargetView>,
    entity: EntityView,
) -> Seq<char> {
    let actor = "wasmbus.rpc."@ + lattice_prefix + "."@ + entity.public_key;
    match target {
        Some(TargetView::ActorKey(_)) => actor,
        Some(TargetView::ActorAlias(_)) => actor,
        _ => actor + "."@ + entity.link_name,
    }
}

fn topic_of(
    lattice_prefix: &String,
    target: Option<&TargetEntity>,
    entity: &WasmCloudEntity,
) -> (r: String)
    ensures
        r@ == call_topic(lattice_prefix@, target_view(target), entity@),
{
    let mut topic = "wasmbus.rpc.".to_owned();
    topic.append(lattice_prefix.as_str());
    topic.append(".");
    topic.append(entity.public_key.as_str());
    match target {
        Some(TargetEntity::Actor(_)) => {},
        Some(TargetEntity::Link(_)) => {
            topic.append(".");
            topic.append(entity.link_name.as_str());
        },
        None => {
            topic.append(".");
            topic.append(entity.link_name.as_str());
        },
    }
    topic
}

/// A call that is ready to be sent.
#[derive(Debug)]
pub struct Call {
    pub invocation: Invocation,
    pub topic: String,
}

/// A call as it is sent: without its message where that one is in the object
/// store.
pub open spec fn as_sent(inv: InvocationView) -> InvocationView {
    if inv.msg.len() > CHUNK_THRESHOLD_BYTES {
        InvocationView { msg: Seq::empty(), ..inv }
    } else {
        inv
    }
}

impl Call {
    /// Whether the message goes into the object store, under the identifier of
    /// the call, before the call is sent.
    pub fn needs_chunking(&self) -> (r: bool)
        ensures
            r == (self.invocation@.msg.len() > CHUNK_THRESHOLD_BYTES),
            r == (self.invocation@.msg.len() > 921600),
    {
        self.invocation.msg.len() > CHUNK_THRESHOLD_BYTES
    }

    /// How long the answer is waited for, if not as long as for every call.
    pub fn timeout(&self) -> (r: Option<Duration>)
        ensures
            r == if self.invocation@.msg.len() > CHUNK_THRESHOLD_BYTES {
                Some(Duration { secs: CHUNK_RPC_EXTRA_SECS, nanos: 0 })
            } else {
                None
            },
            r is Some <==> self.invocation@.msg.len() > 921600,
            r matches Some(timeout) ==> timeout.secs == 13 && timeout.nanos == 0,
    {
        if self.needs_chunking() {
            Some(Duration::from_secs(CHUNK_RPC_EXTRA_SECS))
        } else {
            None
        }
    }

    /// How long the answer is waited for, where `configured` is how long that
    /// of every call is: as long as is configured, unless the message has to be
    /// fetched from the object store.
    pub fn rpc_timeout(&self, configured: Option<Duration>) -> (r: Option<Duration>)
        ensures
            r == if self.invocation@.msg.len() > CHUNK_THRESHOLD_BYTES {
                Some(Duration { secs: CHUNK_RPC_EXTRA_SECS, nanos: 0 })
            } else {
                configured
            },
            self.invocation@.msg.len() > 921600 ==> r == Some(Duration { secs: 13, nanos: 0 }),
            self.invocation@.msg.len() <= 921600 ==> r == configured,
    {
        match self.timeout() {
            Some(timeout) => Some(timeout),
            None => configured,
        }
    }

    /// The bytes to send. There may be no memory for them; else they are those
    /// of the call, without its message where that one is in the object store,
    /// and whoever reads them gets just that.
    pub fn payload(self) -> (r: Result<Vec<u8>, CallError>)
        ensures
            match r {
                Ok(bytes) => {
                    let sent = as_sent(self.invocation@);
                    let trace = pair_views(self.invocation.trace_context@);
                    &&& bytes@ == invocation_bytes(sent, trace)
                    &&& sent.encodable() && pairs_fit(trace) ==> invocation_of_bytes(bytes@)
                        == Some(sent)
                },
                Err(e) => e@ == CallErrorView::EncodeInvocation,
            },
    {
        let mut invocation = self.invocation;
        let ghost before = invocation@;
        if invocation.msg.len() > CHUNK_THRESHOLD_BYTES {
            invocation.msg = Vec::new();
        }
        assert(invocation@ == as_sent(before));
        match encode_invocation(invocation) {
            Some(bytes) => Ok(bytes),
            None => Err(CallError::EncodeInvocation),
        }
    }
}

/// What is known once an answer has arrived.
#[derive(Debug)]
pub enum Reply {
    /// The answer is here: what came back, or what the other side says went
    /// wrong.
    Done(Result<Vec<u8>, String>),
    /// The message is in the object store, under the identifier of the call.
    Fetch { error: Option<String> },
}

pub ghost enum ReplyView {
    Done(Result<Seq<u8>, Seq<char>>),
    Fetch(Option<Seq<char>>),
}

/// The view of what came back.
pub open spec fn outcome_view(r: Result<Vec<u8>, String>) -> Result<Seq<u8>, Seq<char>> {
    match r {
        Ok(msg) => Ok(msg@),
        Err(e) => Err(e@),
    }
}

impl View for Reply {
    type V = ReplyView;

    open spec fn view(&self) -> ReplyView {
        match self {
            Reply::Done(r) => ReplyView::Done(outcome_view(*r)),
            Reply::Fetch { error } => ReplyView::Fetch(text_opt(*error)),
        }
    }
}

/// What came back, once the message is here.
pub open spec fn outcome(error: Option<Seq<char>>, msg: Seq<u8>) -> Result<Seq<u8>, Seq<char>> {
    match error {
        Some(e) => Err(e),
        None => Ok(msg),
    }
}

/// What an answer to a call stands for.
pub open spec fn reply_to(response: InvocationResponseView, id: Seq<char>) -> Result<
    ReplyView,
    CallErrorView,
> {
    if response.invocation_id != id {
        Err(CallErrorView::InvocationId)
    } else if response.content_length > usize::MAX {
        Err(CallErrorView::ContentLength)
    } else if response.content_length > CHUNK_THRESHOLD_BYTES {
        Ok(ReplyView::Fetch(response.error))
    } else if response.content_length != response.msg.len() {
        Err(CallErrorView::MessageSize)
    } else {
        Ok(ReplyView::Done(outcome(response.error, response.msg)))
    }
}

/// Takes the message of an answer, or hands out what the other side says went
/// wrong.
pub fn finish(error: Option<String>, msg: Vec<u8>) -> (r: Result<Vec<u8>, String>)
    ensures
        outcome_view(r) == outcome(text_opt(error), msg@),
{
    match error {
        Some(e) => Err(e),
        None => Ok(msg),
    }
}

/// Holds an answer against the call that it is to answer.
pub fn check_response(response: InvocationResponse, id: &String) -> (r: Result<Reply, CallError>)
    ensures
        match r {
            Ok(reply) => reply_to(response@, id@) == Ok::<ReplyView, CallErrorView>(reply@),
            Err(e) => reply_to(response@, id@) == Err::<ReplyView, CallErrorView>(e@),
        },
{
    if response.invocation_id != *id {
        return Err(CallError::InvocationId);
    }
    let length: usize = match usize::try_from(response.content_length) {
        Ok(length) => length,
        Err(_) => {
            return Err(CallError::ContentLength);
        },
    };
    if length > CHUNK_THRESHOLD_BYTES {
        Ok(Reply::Fetch { error: response.error })
    } else if length != response.msg.len() {
        Err(CallError::MessageSize)
    } else {
        Ok(Reply::Done(finish(response.error, response.msg)))
    }
}

/// Reads what came back for a call.
pub fn read_response(payload: &Vec<u8>, id: &String) -> (r: Result<Reply, CallError>)
    ensures
        match response_of_bytes(payload@) {
            Some(response) => match r {
                Ok(reply) => reply_to(response, id@) == Ok::<ReplyView, CallErrorView>(reply@),
                Err(e) => reply_to(response, id@) == Err::<ReplyView, CallErrorView>(e@),
            },
            None => r matches Err(e) && e@ == CallErrorView::DecodeResponse,
        },
{
    match decode_response(payload.as_slice()) {
        Some(response) => check_response(response, id),
        None => Err(CallError::DecodeResponse),
    }
}

/// What making a call ready comes to: an error where the call goes nowhere or
/// may not be made, and else a signed call to the target that was found, from
/// this actor and this host, with the request in it.
pub open spec fn call_ready(
    handler: HandlerView,
    links: LinksView,
    aliases: Map<Seq<char>, EntityView>,
    target: Option<TargetView>,
    operation: Seq<char>,
    request: Seq<u8>,
    trace_context: TraceContext,
    r: Result<Call, CallError>,
) -> bool {
    match r {
        Ok(call) => {
            let inv = call.invocation@;
            &&& call_target(handler, links, aliases, target, operation) == Ok::<
                EntityView,
                CallErrorView,
            >(inv.target)
            &&& inv.origin == handler.origin
            &&& after_last(operation, '/') == Some(inv.operation)
            &&& inv.msg == request
            &&& inv.content_length == request.len()
            &&& inv.host_id == handler.host_key.public_key
            &&& exists|id: u128| inv.id == uuid_form(id)
            &&& vouched(inv, handler.cluster_key.public_key)
            &&& call.invocation.trace_context == trace_context
            &&& call.topic@ == call_topic(handler.lattice_prefix, target, inv.target)
        },
        Err(e) => call_target(handler, links, aliases, target, operation) == Err::<
            EntityView,
            CallErrorView,
        >(e@),
    }
}

/// The targets of interfaces once some of them are set, or cleared.
pub open spec fn retargeted(
    targets: Map<InterfaceView, TargetView>,
    target: Option<TargetView>,
    interfaces: Seq<InterfaceView>,
) -> Map<InterfaceView, TargetView> {
    Map::new(
        |i: InterfaceView|
            if interfaces.contains(i) {
                target is Some
            } else {
                targets.contains_key(i)
            },
        |i: InterfaceView|
            if interfaces.contains(i) {
                target->0
            } else {
                targets[i]
            },
    )
}

/// The view of an optional target.
pub open spec fn target_opt(target: Option<TargetEntity>) -> Option<TargetView> {
    match target {
        Some(t) => Some(t@),
        None => None,
    }
}

/// The views of interfaces.
pub open spec fn interface_views(v: Seq<TargetInterface>) -> Seq<InterfaceView> {
    Seq::new(v.len(), |i: int| v[i]@)
}

/// What a name on the bus stands for: a link that the actor has, or else an
/// actor, which may be named by its public key or by an alias.
#[derive(Debug)]
pub enum WasmbusTarget {
    Link(String),
    Actor(String),
}

/// An operation of a provider.
#[derive(Clone, Copy, Debug, PartialEq, Eq, Structural)]
pub enum ProviderMethod {
    CreateContainer,
    ContainerExists,
    DeleteContainer,
    GetContainerInfo,
    GetObject,
    ObjectExists,
    PutObject,
    RemoveObjects,
    ListObjects,
    GetObjectInfo,
    KeyIncrement,
    KeyGet,
    KeySet,
    KeyDel,
    KeyContains,
    MessageRequest,
    MessagePublish,
}

impl ProviderMethod {
    /// The interface that the operation belongs to.
    pub open spec fn spec_interface(self) -> InterfaceView {
        match self {
            ProviderMethod::KeyIncrement => InterfaceView::KeyvalueAtomic,
            ProviderMethod::KeyGet => InterfaceView::KeyvalueReadwrite,
            ProviderMethod::KeySet => InterfaceView::KeyvalueReadwrite,
            ProviderMethod::KeyDel => InterfaceView::KeyvalueReadwrite,
            ProviderMethod::KeyContains => InterfaceView::KeyvalueReadwrite,
            ProviderMethod::MessageRequest => InterfaceView::Messaging,
            ProviderMethod::MessagePublish => InterfaceView::Messaging,
            _ => InterfaceView::Blobstore,
        }
    }

    /// The interface that the operation belongs to.
    pub fn interface(&self) -> (r: TargetInterface)
        ensures
            r@ == self.spec_interface(),
    {
        match self {
            ProviderMethod::KeyIncrement => TargetInterface::WasiKeyvalueAtomic,
            ProviderMethod::KeyGet => TargetInterface::WasiKeyvalueReadwrite,
            ProviderMethod::KeySet => TargetInterface::WasiKeyvalueReadwrite,
            ProviderMethod::KeyDel => TargetInterface::WasiKeyvalueReadwrite,
            ProviderMethod::KeyContains => TargetInterface::WasiKeyvalueReadwrite,
            ProviderMethod::MessageRequest => TargetInterface::WasmcloudMessagingConsumer,
            ProviderMethod::MessagePublish => TargetInterface::WasmcloudMessagingConsumer,
            _ => TargetInterface::WasiBlobstoreBlobstore,
        }
    }

    /// The name of the operation.
    pub open spec fn spec_operation(self) -> Seq<char> {
        match self {
            ProviderMethod::CreateContainer => "wasmcloud:blobstore/Blobstore.CreateContainer"@,
            ProviderMethod::ContainerExists => "wasmcloud:blobstore/Blobstore.ContainerExists"@,
            ProviderMethod::DeleteContainer => "wasmcloud:blobstore/Blobstore.DeleteContainer"@,
            ProviderMethod::GetContainerInfo => "wasmcloud:blobstore/Blobstore.GetContainerInfo"@,
            ProviderMethod::GetObject => "wasmcloud:blobstore/Blobstore.GetObject"@,
            ProviderMethod::ObjectExists => "wasmcloud:blobstore/Blobstore.ObjectExists"@,
            ProviderMethod::PutObject => "wasmcloud:blobstore/Blobstore.PutObject"@,
            ProviderMethod::RemoveObjects => "wasmcloud:blobstore/Blobstore.RemoveObjects"@,
            ProviderMethod::ListObjects => "wasmcloud:blobstore/Blobstore.ListObjects"@,
            ProviderMethod::GetObjectInfo => "wasmcloud:blobstore/Blobstore.GetObjectInfo"@,
            ProviderMethod::KeyIncrement => "wasmcloud:keyvalue/KeyValue.Increment"@,
            ProviderMethod::KeyGet => "wasmcloud:keyvalue/KeyValue.Get"@,
            ProviderMethod::KeySet => "wasmcloud:keyvalue/KeyValue.Set"@,
            ProviderMethod::KeyDel => "wasmcloud:keyvalue/KeyValue.Del"@,
            ProviderMethod::KeyContains => "wasmcloud:keyvalue/KeyValue.Contains"@,
            ProviderMethod::MessageRequest => "wasmcloud:messaging/Messaging.Request"@,
            ProviderMethod::MessagePublish => "wasmcloud:messaging/Messaging.Publish"@,
        }
    }

    /// The name of the operation.
    pub fn operation(&self) -> (r: String)
        ensures
            r@ == self.spec_operation(),
    {
        let text: &str = match self {
            ProviderMethod::CreateContainer => "wasmcloud:blobstore/Blobstore.CreateContainer",
            ProviderMethod::ContainerExists => "wasmcloud:blobstore/Blobstore.ContainerExists",
            ProviderMethod::DeleteContainer => "wasmcloud:blobstore/Blobstore.DeleteContainer",
            ProviderMethod::GetContainerInfo => "wasmcloud:blobstore/Blobstore.GetContainerInfo",
            ProviderMethod::GetObject => "wasmcloud:blobstore/Blobstore.GetObject",
            ProviderMethod::ObjectExists => "wasmcloud:blobstore/Blobstore.ObjectExists",
            ProviderMethod::PutObject => "wasmcloud:blobstore/Blobstore.PutObject",
            ProviderMethod::RemoveObjects => "wasmcloud:blobstore/Blobstore.RemoveObjects",
            ProviderMethod::ListObjects => "wasmcloud:blobstore/Blobstore.ListObjects",
            ProviderMethod::GetObjectInfo => "wasmcloud:blobstore/Blobstore.GetObjectInfo",
            ProviderMethod::KeyIncrement => "wasmcloud:keyvalue/KeyValue.Increment",
            ProviderMethod::KeyGet => "wasmcloud:keyvalue/KeyValue.Get",
            ProviderMethod::KeySet => "wasmcloud:keyvalue/KeyValue.Set",
            ProviderMethod::KeyDel => "wasmcloud:keyvalue/KeyValue.Del",
            ProviderMethod::KeyContains => "wasmcloud:keyvalue/KeyValue.Contains",
            ProviderMethod::MessageRequest => "wasmcloud:messaging/Messaging.Request",
            ProviderMethod::MessagePublish => "wasmcloud:messaging/Messaging.Publish",
        };
        text.to_owned()
    }
}

impl HandlerView {
    /// The target that the actor has chosen for an interface.
    pub open spec fn target_of(self, interface: InterfaceView) -> Option<TargetView> {
        if self.targets.contains_key(interface) {
            Some(self.targets[interface])
        } else {
            None
        }
    }
}

impl Handler {
    /// Makes a call ready: finds where it goes, signs it, and sees whether the
    /// actor may make it.
    pub fn begin_call(
        &self,
        links: &Links,
        aliases: &Table<String, WasmCloudEntity>,
        target: Option<&TargetEntity>,
        operation: &String,
        request: Vec<u8>,
        trace_context: TraceContext,
    ) -> (r: Result<Call, CallError>)
        ensures
            call_ready(
                self@,
                links@,
                aliases@,
                target_view(target),
                operation@,
                request@,
                trace_context,
                r,
            ),
    {
        let package = match cut_before_first(operation, '/') {
            Some(package) => package,
            None => {
                return Err(CallError::Operation);
            },
        };
        let entity = match resolve_target(target, links.get(&package), aliases) {
            Ok(entity) => entity,
            Err(e) => {
                return Err(e);
            },
        };
        let topic = topic_of(&self.lattice_prefix, target, &entity);
        proof {
            lemma_before_first(operation@, '/');
            lemma_after_last(operation@, '/');
        }
        let invocation = match Invocation::new(
            &self.cluster_key,
            &self.host_key,
            self.origin.duplicate(),
            entity,
            operation,
            request,
            trace_context,
        ) {
            Some(invocation) => invocation,
            None => {
                return Err(CallError::Signing);
            },
        };
        match ensure_actor_capability(&self.claims.metadata, &invocation.target.contract_id) {
            Ok(()) => Ok(Call { invocation, topic }),
            Err(e) => Err(e),
        }
    }

    /// Makes a call of a provider's operation ready. It goes where the actor
    /// has chosen for the interface.
    pub fn call_operation(
        &self,
        links: &Links,
        aliases: &Table<String, WasmCloudEntity>,
        method: ProviderMethod,
        request: Vec<u8>,
        trace_context: TraceContext,
    ) -> (r: Result<Call, CallError>)
        ensures
            call_ready(
                self@,
                links@,
                aliases@,
                self@.target_of(method.spec_interface()),
                method.spec_operation(),
                request@,
                trace_context,
                r,
            ),
    {
        let target = self.targets.get(&method.interface());
        self.begin_call(links, aliases, target, &method.operation(), request, trace_context)
    }

    /// Makes a call of a provider's operation ready whose request is a text.
    /// There may be no memory to encode it.
    pub fn call_text_operation(
        &self,
        links: &Links,
        aliases: &Table<String, WasmCloudEntity>,
        method: ProviderMethod,
        text: &String,
        trace_context: TraceContext,
    ) -> (r: Result<Call, CallError>)
        ensures
            (r matches Err(e) && e@ == CallErrorView::EncodeRequest) || call_ready(
                self@,
                links@,
                aliases@,
                self@.target_of(method.spec_interface()),
                method.spec_operation(),
                encoded_text(vstd::utf8::encode_utf8(text@)),
                trace_context,
                r,
            ),
    {
        match encode_text(text.as_str()) {
            Some(request) => self.call_operation(links, aliases, method, request, trace_context),
            None => Err(CallError::EncodeRequest),
        }
    }

    /// Sets the target of interfaces, or clears it.
    pub fn set_target(&mut self, target: Option<TargetEntity>, interfaces: Vec<TargetInterface>)
        ensures
            final(self)@ == (HandlerView {
                targets: retargeted(
                    old(self)@.targets,
                    target_opt(target),
                    interface_views(interfaces@),
                ),
                ..old(self)@
            }),
    {
        let ghost chosen = target_opt(target);
        let ghost all = interface_views(interfaces@);
        let mut i: usize = 0;
        assert(retargeted(self.targets@, chosen, all.subrange(0, 0)) =~= self.targets@);
        while i < interfaces.len()
            invariant
                i <= interfaces@.len(),
                all == interface_views(interfaces@),
                chosen == target_opt(target),
                self@ == (HandlerView {
                    targets: retargeted(
                        old(self)@.targets,
                        chosen,
                        all.subrange(0, i as int),
                    ),
                    ..old(self)@
                }),
            decreases interfaces@.len() - i,
        {
            let ghost before = self.targets@;
            match &target {
                Some(t) => {
                    self.targets.insert(interfaces[i].duplicate(), t.duplicate());
                },
                None => {
                    self.targets.remove(&interfaces[i]);
                },
            }
            proof {
                let done = all.subrange(0, i as int);
                let more = all.subrange(0, i + 1);
                assert(more =~= done.push(all[i as int]));
                assert forall|x: InterfaceView| more.contains(x) == (done.contains(x) || x
                    == all[i as int]) by {
                    if done.contains(x) {
                        let j = done.index_of(x);
                        assert(more[j] == x);
                    }
                    if x == all[i as int] {
                        assert(more[i as int] == x);
                    }
                    if more.contains(x) {
                        let j = more.index_of(x);
                        if j < i {
                            assert(done[j] == x);
                        }
                    }
                }
                assert(self.targets@ =~= retargeted(old(self)@.targets, chosen, more));
            }
            i = i + 1;
        }
        assert(all.subrange(0, interfaces@.len() as int) =~= all);
    }
}

/// Tells what a name on the bus stands for: the link of that name where the
/// actor has it in the namespace, and else an actor.
pub fn identify_wasmbus_target(links: &Links, binding: &String, namespace: &String) -> (r:
    WasmbusTarget)
    ensures
        match r {
            WasmbusTarget::Link(name) => crate::links::has_link(links@, namespace@, binding@)
                && name@ == binding@,
            WasmbusTarget::Actor(actor) => !crate::links::has_link(links@, namespace@, binding@)
                && actor@ == namespace@,
        },
        r is Link <==> links@.contains_key(namespace@) && links@[namespace@].contains_key(binding@),
{
    match links.get(namespace) {
        Some(bindings) => {
            if bindings.contains_key(binding) {
                return WasmbusTarget::Link(binding.clone());
            }
        },
        None => {},
    }
    WasmbusTarget::Actor(namespace.clone())
}

/// A call that goes over a link is one that the actor has claimed the contract
/// of: where making it ready succeeds and the target has a contract, the
/// actor's claims list it.
pub proof fn calls_need_capability(
    handler: HandlerView,
    links: LinksView,
    aliases: Map<Seq<char>, EntityView>,
    target: Option<TargetView>,
    operation: Seq<char>,
)
    requires
        call_target(handler, links, aliases, target, operation) is Ok,
        call_target(handler, links, aliases, target, operation)->Ok_0.contract_id.len() > 0,
    ensures
        handler.claims.metadata matches Some(actor) && actor.caps matches Some(caps)
            && caps.contains(
            call_target(handler, links, aliases, target, operation)->Ok_0.contract_id,
        ),
{
}

/// Calls to actors by their key need no link, no alias and no claim: with an
/// operation and a key pair that signs they are always made ready.
pub proof fn actor_calls_are_free(
    handler: HandlerView,
    links: LinksView,
    aliases: Map<Seq<char>, EntityView>,
    key: Seq<char>,
    operation: Seq<char>,
)
    requires
        handler.cluster_key.seed is Some,
        operation.contains('/'),
    ensures
        call_target(handler, links, aliases, Some(TargetView::ActorKey(key)), operation) == Ok::<
            EntityView,
            CallErrorView,
        >(actor_entity(key)),
{
    lemma_before_first(operation, '/');
}

/// An answer is taken only where it is to the call that was made: whatever is
/// handed out for one call is turned away for every other.
pub proof fn answers_do_not_cross(
    response: InvocationResponseView,
    id: Seq<char>,
    other: Seq<char>,
)
    requires
        id != other,
        reply_to(response, id) is Ok,
    ensures
        reply_to(response, other) == Err::<ReplyView, CallErrorView>(CallErrorView::InvocationId),
{
}

/// Each capability that an actor claims lets it call under that contract,
/// wherever it stands among the others.
pub proof fn claimed_contracts_can_be_called(actor: ActorView, i: int)
    requires
        actor.caps is Some,
        0 <= i < actor.caps->0.len(),
    ensures
        capability(Some(actor), actor.caps->0[i]) is Ok,
{
    assert(actor.caps->0.contains(actor.caps->0[i]));
}

/// An actor may do under a contract exactly what it claims, and calls without a
/// contract are free. One that claims other capabilities is told which one is
/// missing; one that claims none is told so.
pub proof fn capabilities_are_those_claimed(metadata: Option<ActorView>, contract_id: Seq<char>)
    ensures
        capability(metadata, contract_id) is Ok <==> contract_id.len() == 0 || (
        metadata is Some && metadata->0.caps is Some && exists|i: int|
            0 <= i < metadata->0.caps->0.len() && #[trigger] metadata->0.caps->0[i]
                == contract_id),
        contract_id.len() > 0 && (metadata is None || metadata->0.caps is None) ==> capability(
            metadata,
            contract_id,
        ) == Err::<(), CallErrorView>(CallErrorView::NoCapabilities),
        contract_id.len() > 0 && metadata is Some && metadata->0.caps is Some && capability(
            metadata,
            contract_id,
        ) is Err ==> capability(metadata, contract_id) == Err::<(), CallErrorView>(
            CallErrorView::MissingCapability(contract_id),
        ),
{
    if metadata is Some && metadata->0.caps is Some {
        let caps = metadata->0.caps->0;
        if exists|i: int| 0 <= i < caps.len() && #[trigger] caps[i] == contract_id {
            let i = choose|i: int| 0 <= i < caps.len() && #[trigger] caps[i] == contract_id;
            assert(caps.contains(caps[i]));
        }
        if caps.contains(contract_id) {
            let i = caps.index_of(contract_id);
            assert(caps[i] == contract_id);
        }
    }
}

/// More claims never take a permission away.
pub proof fn more_claims_allow_more(
    few: ActorView,
    many: ActorView,
    contract_id: Seq<char>,
)
    requires
        few.caps is Some,
        many.caps is Some,
        forall|c: Seq<char>| #[trigger]
            few.caps->0.contains(c) ==> many.caps->0.contains(c),
        capability(Some(few), contract_id) is Ok,
    ensures
        capability(Some(many), contract_id) is Ok,
{
}

/// A call over a link goes to the provider that the package's links hold under
/// its name, and nowhere where they hold none.
pub proof fn links_lead_to_their_provider(
    links: Map<Seq<char>, EntityView>,
    aliases: Map<Seq<char>, EntityView>,
    name: Seq<char>,
)
    ensures
        links.contains_key(name) ==> resolved(
            Some(TargetView::Link(Some(name))),
            Some(links),
            aliases,
        ) == Ok::<EntityView, CallErrorView>(links[name]),
        !links.contains_key(name) ==> resolved(
            Some(TargetView::Link(Some(name))),
            Some(links),
            aliases,
        ) == Err::<EntityView, CallErrorView>(CallErrorView::LinkNotFound),
        resolved(Some(TargetView::Link(Some(name))), None, aliases) == Err::<
            EntityView,
            CallErrorView,
        >(CallErrorView::LinkNotFound),
{
}

/// A call that names no link goes where one over the link `default` goes.
pub proof fn unnamed_links_are_default(
    links: Option<Map<Seq<char>, EntityView>>,
    aliases: Map<Seq<char>, EntityView>,
)
    ensures
        resolved(None, links, aliases) == resolved(
            Some(TargetView::Link(Some("default"@))),
            links,
            aliases,
        ),
        resolved(Some(TargetView::Link(None)), links, aliases) == resolved(
            Some(TargetView::Link(Some("default"@))),
            links,
            aliases,
        ),
{
}

/// A call to an actor goes to it: by key to the actor of that key, by a name to
/// the one that goes by it, and nowhere where none does. Links do not matter.
pub proof fn actors_are_called_by_key_or_name(
    links: Option<Map<Seq<char>, EntityView>>,
    aliases: Map<Seq<char>, EntityView>,
    text: Seq<char>,
)
    ensures
        resolved(Some(TargetView::ActorKey(text)), links, aliases) matches Ok(e) && e.public_key
            == text && e.link_name.len() == 0 && e.contract_id.len() == 0,
        aliases.contains_key(text) ==> resolved(
            Some(TargetView::ActorAlias(text)),
            links,
            aliases,
        ) == Ok::<EntityView, CallErrorView>(aliases[text]),
        !aliases.contains_key(text) ==> resolved(
            Some(TargetView::ActorAlias(text)),
            links,
            aliases,
        ) == Err::<EntityView, CallErrorView>(CallErrorView::UnknownAlias),
{
}

/// A call of an operation of a package is resolved by the links of that package
/// alone, and made where the handler can sign and the actor may call the
/// target. What stands behind the first `/` does not matter.
pub proof fn packages_choose_the_links(
    handler: HandlerView,
    links: LinksView,
    aliases: Map<Seq<char>, EntityView>,
    target: Option<TargetView>,
    package: Seq<char>,
    method: Seq<char>,
)
    requires
        !package.contains('/'),
    ensures
        ({
            let found = resolved(
                target,
                if links.contains_key(package) {
                    Some(links[package])
                } else {
                    None
                },
                aliases,
            );
            let called = call_target(
                handler,
                links,
                aliases,
                target,
                package + seq!['/'] + method,
            );
            &&& found is Err ==> called == found
            &&& found is Ok && handler.cluster_key.seed is None ==> called == Err::<
                EntityView,
                CallErrorView,
            >(CallErrorView::Signing)
            &&& found is Ok && handler.cluster_key.seed is Some ==> {
                let allowed = capability(handler.claims.metadata, found->Ok_0.contract_id);
                &&& allowed is Ok ==> called == found
                &&& allowed is Err ==> called == Err::<EntityView, CallErrorView>(allowed->Err_0)
            }
        }),
{
    lemma_before_first_joined(package, '/', method);
}

/// An operation without a `/` names no package and is not called.
pub proof fn operations_name_a_package(
    handler: HandlerView,
    links: LinksView,
    aliases: Map<Seq<char>, EntityView>,
    target: Option<TargetView>,
    operation: Seq<char>,
)
    ensures
        !operation.contains('/') <==> call_target(handler, links, aliases, target, operation)
            == Err::<EntityView, CallErrorView>(CallErrorView::Operation),
{
    lemma_before_first(operation, '/');
    if let Some(package) = before_first(operation, '/') {
        let rest = operation.subrange(package.len() as int + 1, operation.len() as int);
        assert(operation =~= package + seq!['/'] + rest);
        packages_choose_the_links(handler, links, aliases, target, package, rest);
    }
}

/// A call over a link is sent to its provider under the link name, and one to an
/// actor to its key alone.
pub proof fn calls_are_sent_to_their_target(
    prefix: Seq<char>,
    entity: EntityView,
    name: Option<Seq<char>>,
    text: Seq<char>,
)
    ensures
        ({
            let to_key = "wasmbus.rpc."@ + prefix + "."@ + entity.public_key;
            &&& call_topic(prefix, None, entity) == to_key + "."@ + entity.link_name
            &&& call_topic(prefix, Some(TargetView::Link(name)), entity) == to_key + "."@
                + entity.link_name
            &&& call_topic(prefix, Some(TargetView::ActorKey(text)), entity) == to_key
            &&& call_topic(prefix, Some(TargetView::ActorAlias(text)), entity) == to_key
        }),
{
}

/// A call is sent as it is, except that a message of more than 921600 bytes is
/// left out.
pub proof fn only_long_messages_are_left_out(inv: InvocationView)
    ensures
        inv.msg.len() <= 921600 ==> as_sent(inv) == inv,
        inv.msg.len() > 921600 ==> as_sent(inv).msg.len() == 0,
        as_sent(inv).content_length == inv.content_length,
        as_sent(inv).id == inv.id,
        as_sent(inv).origin == inv.origin,
        as_sent(inv).target == inv.target,
        as_sent(inv).operation == inv.operation,
        as_sent(inv).encoded_claims == inv.encoded_claims,
        as_sent(inv).host_id == inv.host_id,
{
}

/// An answer to a call is taken for what it is: its message where it is as long
/// as it says and nothing went wrong, what went wrong otherwise, and word that
/// the message has to be fetched where it is longer than 921600 bytes.
pub proof fn answers_are_taken_as_they_are(response: InvocationResponseView, id: Seq<char>)
    requires
        response.invocation_id == id,
        response.content_length <= usize::MAX,
    ensures
        response.content_length > 921600 ==> reply_to(response, id) == Ok::<
            ReplyView,
            CallErrorView,
        >(ReplyView::Fetch(response.error)),
        response.content_length <= 921600 && response.content_length != response.msg.len()
            ==> reply_to(response, id) == Err::<ReplyView, CallErrorView>(
            CallErrorView::MessageSize,
        ),
        response.content_length <= 921600 && response.content_length == response.msg.len()
            && response.error is None ==> reply_to(response, id) == Ok::<ReplyView, CallErrorView>(
            ReplyView::Done(Ok(response.msg)),
        ),
        response.content_length <= 921600 && response.content_length == response.msg.len()
            && response.error is Some ==> reply_to(response, id) == Ok::<ReplyView, CallErrorView>(
            ReplyView::Done(Err(response.error->0)),
        ),
{
}

/// An answer to another call, or with a length that is too large for this
/// machine, is turned away.
pub proof fn other_answers_are_turned_away(response: InvocationResponseView, id: Seq<char>)
    ensures
        response.invocation_id != id <==> reply_to(response, id) == Err::<ReplyView, CallErrorView>(
            CallErrorView::InvocationId,
        ),
        response.invocation_id == id && response.content_length > usize::MAX <==> reply_to(
            response,
            id,
        ) == Err::<ReplyView, CallErrorView>(CallErrorView::ContentLength),
{
}

/// A message that was fetched is what came back, unless something went wrong.
pub proof fn fetched_messages_come_back(error: Seq<char>, msg: Seq<u8>)
    ensures
        outcome(None, msg) == Ok::<Seq<u8>, Seq<char>>(msg),
        outcome(Some(error), msg) == Err::<Seq<u8>, Seq<char>>(error),
{
}

/// A call that is made ready carries the request, comes from the handler's actor
/// and host, names what stands behind the last `/` as its operation, is vouched
/// for by the handler's cluster, and is sent to the target that was found.
pub proof fn ready_calls_speak_for_the_actor(
    handler: HandlerView,
    links: LinksView,
    aliases: Map<Seq<char>, EntityView>,
    target: Option<TargetView>,
    package: Seq<char>,
    method: Seq<char>,
    request: Seq<u8>,
    trace_context: TraceContext,
    call: Call,
)
    requires
        !package.contains('/'),
        !method.contains('/'),
        call_ready(
            handler,
            links,
            aliases,
            target,
            package + seq!['/'] + method,
            request,
            trace_context,
            Ok(call),
        ),
    ensures
        call.invocation.origin@ == handler.origin,
        call.invocation.operation@ == method,
        call.invocation.msg@ == request,
        call.invocation.content_length == request.len(),
        call.invocation.host_id@ == handler.host_key.public_key,
        call.invocation.trace_context == trace_context,
        vouched(call.invocation@, handler.cluster_key.public_key),
        call_target(handler, links, aliases, target, package + seq!['/'] + method) == Ok::<
            EntityView,
            CallErrorView,
        >(call.invocation.target@),
        call.topic@ == call_topic(handler.lattice_prefix, target, call.invocation.target@),
{
    let operation = package + seq!['/'] + method;
    lemma_after_last_joined(package, '/', method);
    assert(after_last(operation, '/') == Some(method));
}

/// A call that is not made ready fails as finding its target does.
pub proof fn calls_fail_as_their_target_does(
    handler: HandlerView,
    links: LinksView,
    aliases: Map<Seq<char>, EntityView>,
    target: Option<TargetView>,
    operation: Seq<char>,
    request: Seq<u8>,
    trace_context: TraceContext,
    r: Result<Call, CallError>,
)
    requires
        call_ready(handler, links, aliases, target, operation, request, trace_context, r),
    ensures
        r is Ok <==> call_target(handler, links, aliases, target, operation) is Ok,
        r is Err ==> call_target(handler, links, aliases, target, operation)->Err_0 == r->Err_0@,
{
}

/// Setting the target of interfaces sets it for each of them and for no other.
pub proof fn targets_are_set(
    targets: Map<InterfaceView, TargetView>,
    target: TargetView,
    interfaces: Seq<InterfaceView>,
    i: InterfaceView,
)
    ensures
        ({
            let set = retargeted(targets, Some(target), interfaces);
            &&& interfaces.contains(i) ==> set.contains_key(i) && set[i] == target
            &&& !interfaces.contains(i) ==> set.contains_key(i) == targets.contains_key(i) && (
            targets.contains_key(i) ==> set[i] == targets[i])
        }),
{
}

/// Clearing the target of interfaces clears it for each of them and for no
/// other.
pub proof fn targets_are_cleared(
    targets: Map<InterfaceView, TargetView>,
    target: Option<TargetView>,
    interfaces: Seq<InterfaceView>,
    i: InterfaceView,
)
    requires
        target is None,
    ensures
        ({
            let cleared = retargeted(targets, target, interfaces);
            &&& interfaces.contains(i) ==> !cleared.contains_key(i)
            &&& !interfaces.contains(i) ==> cleared.contains_key(i) == targets.contains_key(i) && (
            targets.contains_key(i) ==> cleared[i] == targets[i])
        }),
{
}

/// The target of an interface is the one that was chosen for it, if any.
pub proof fn chosen_targets_are_used(handler: HandlerView, interface: InterfaceView)
    ensures
        handler.targets.contains_key(interface) ==> handler.target_of(interface) == Some(
            handler.targets[interface],
        ),
        !handler.targets.contains_key(interface) ==> handler.target_of(interface) is None,
{
}

/// Every operation of the blob store goes by its own name.
pub proof fn blob_store_operations_are_named()
    ensures
        ProviderMethod::CreateContainer.spec_operation()
            == "wasmcloud:blobstore/Blobstore.CreateContainer"@,
        ProviderMethod::ContainerExists.spec_operation()
            == "wasmcloud:blobstore/Blobstore.ContainerExists"@,
        ProviderMethod::DeleteContainer.spec_operation()
            == "wasmcloud:blobstore/Blobstore.DeleteContainer"@,
        ProviderMethod::GetContainerInfo.spec_operation()
            == "wasmcloud:blobstore/Blobstore.GetContainerInfo"@,
        ProviderMethod::GetObject.spec_operation() == "wasmcloud:blobstore/Blobstore.GetObject"@,
        ProviderMethod::ObjectExists.spec_operation()
            == "wasmcloud:blobstore/Blobstore.ObjectExists"@,
        ProviderMethod::PutObject.spec_operation() == "wasmcloud:blobstore/Blobstore.PutObject"@,
        ProviderMethod::RemoveObjects.spec_operation()
            == "wasmcloud:blobstore/Blobstore.RemoveObjects"@,
        ProviderMethod::ListObjects.spec_operation()
            == "wasmcloud:blobstore/Blobstore.ListObjects"@,
        ProviderMethod::GetObjectInfo.spec_operation()
            == "wasmcloud:blobstore/Blobstore.GetObjectInfo"@,
{
}

/// Every operation of the key-value store and of the message broker goes by its
/// own name.
pub proof fn store_and_broker_operations_are_named()
    ensures
        ProviderMethod::KeyIncrement.spec_operation() == "wasmcloud:keyvalue/KeyValue.Increment"@,
        ProviderMethod::KeyGet.spec_operation() == "wasmcloud:keyvalue/KeyValue.Get"@,
        ProviderMethod::KeySet.spec_operation() == "wasmcloud:keyvalue/KeyValue.Set"@,
        ProviderMethod::KeyDel.spec_operation() == "wasmcloud:keyvalue/KeyValue.Del"@,
        ProviderMethod::KeyContains.spec_operation() == "wasmcloud:keyvalue/KeyValue.Contains"@,
        ProviderMethod::MessageRequest.spec_operation() == "wasmcloud:messaging/Messaging.Request"@,
        ProviderMethod::MessagePublish.spec_operation() == "wasmcloud:messaging/Messaging.Publish"@,
{
}

/// Only `Increment` is an operation of the atomic key-value interface; the other
/// operations of a key-value store read and write.
pub proof fn operations_belong_to_their_interface(method: ProviderMethod)
    ensures
        method.spec_interface() is KeyvalueAtomic <==> method == ProviderMethod::KeyIncrement,
        method.spec_interface() is KeyvalueReadwrite <==> method == ProviderMethod::KeyGet || method
            == ProviderMethod::KeySet || method == ProviderMethod::KeyDel || method
            == ProviderMethod::KeyContains,
        method.spec_interface() is Messaging <==> method == ProviderMethod::MessageRequest || method
            == ProviderMethod::MessagePublish,
        method.spec_interface() is Blobstore <==> method == ProviderMethod::CreateContainer
            || method == ProviderMethod::ContainerExists || method
            == ProviderMethod::DeleteContainer || method == ProviderMethod::GetContainerInfo
            || method == ProviderMethod::GetObject || method == ProviderMethod::ObjectExists
            || method == ProviderMethod::PutObject || method == ProviderMethod::RemoveObjects
            || method == ProviderMethod::ListObjects || method == ProviderMethod::GetObjectInfo,
{
}

/// What the caller is told of each failure.
pub proof fn failed_calls_are_told(contract_id: Seq<char>)
    ensures
        CallErrorView::Operation.text() == "failed to parse operation"@,
        CallErrorView::LinkNotFound.text() == "link not found"@,
        CallErrorView::UnknownAlias.text() == "unknown actor call alias"@,
        CallErrorView::Signing.text() == "failed to encode claims"@,
        CallErrorView::MissingCapability(contract_id).text()
            == "actor does not have capability claim `"@ + contract_id + "`"@,
        CallErrorView::NoCapabilities.text()
            == "actor missing capability claims, denying invocation"@,
        CallErrorView::EncodeRequest.text() == "failed to encode request"@,
        CallErrorView::EncodeInvocation.text() == "failed to encode invocation"@,
        CallErrorView::DecodeResponse.text() == "failed to decode invocation response"@,
        CallErrorView::InvocationId.text() == "invocation ID mismatch"@,
        CallErrorView::ContentLength.text() == "content length does not fit in usize"@,
        CallErrorView::MessageSize.text() == "message size mismatch"@,
{
}

/// What the calls of an actor are made with is known by all of its parts.
pub proof fn handlers_are_known_by_their_parts(handler: Handler)
    ensures
        handler@.lattice_prefix == handler.lattice_prefix@,
        handler@.cluster_key == handler.cluster_key@,
        handler@.host_key == handler.host_key@,
        handler@.claims == handler.claims@,
        handler@.origin == handler.origin@,
        handler@.targets == handler.targets@,
{
}

/// Targets and interfaces are known by what they name.
pub proof fn targets_are_known_by_what_they_name(name: String, v: Seq<TargetInterface>, i: int)
    ensures
        TargetEntity::Link(None)@ == TargetView::Link(None),
        TargetEntity::Link(Some(name))@ == TargetView::Link(Some(name@)),
        TargetEntity::Actor(ActorIdentifier::Key(name))@ == TargetView::ActorKey(name@),
        TargetEntity::Actor(ActorIdentifier::Alias(name))@ == TargetView::ActorAlias(name@),
        TargetInterface::WasiBlobstoreBlobstore@ == InterfaceView::Blobstore,
        TargetInterface::WasiKeyvalueAtomic@ == InterfaceView::KeyvalueAtomic,
        TargetInterface::WasiKeyvalueReadwrite@ == InterfaceView::KeyvalueReadwrite,
        TargetInterface::WasmcloudMessagingConsumer@ == InterfaceView::Messaging,
        TargetInterface::Other(name)@ == InterfaceView::Other(name@),
        interface_views(v).len() == v.len(),
        0 <= i < v.len() ==> interface_views(v)[i] == v[i]@,
{
}

/// Failed calls are known by what went wrong.
pub proof fn failed_calls_are_known_by_what_went_wrong(contract: String)
    ensures
        CallError::Operation@ == CallErrorView::Operation,
        CallError::LinkNotFound@ == CallErrorView::LinkNotFound,
        CallError::UnknownAlias@ == CallErrorView::UnknownAlias,
        CallError::Signing@ == CallErrorView::Signing,
        CallError::MissingCapability(contract)@ == CallErrorView::MissingCapability(contract@),
        CallError::NoCapabilities@ == CallErrorView::NoCapabilities,
        CallError::EncodeRequest@ == CallErrorView::EncodeRequest,
        CallError::EncodeInvocation@ == CallErrorView::EncodeInvocation,
        CallError::DecodeResponse@ == CallErrorView::DecodeResponse,
        CallError::InvocationId@ == CallErrorView::InvocationId,
        CallError::ContentLength@ == CallErrorView::ContentLength,
        CallError::MessageSize@ == CallErrorView::MessageSize,
{
}

/// What came back is known by the message, or by what the other side says went
/// wrong.
pub proof fn outcomes_are_known_by_what_came_back(msg: Vec<u8>, e: String, bytes: Seq<u8>)
    ensures
        outcome_view(Ok(msg)) == Ok::<Seq<u8>, Seq<char>>(msg@),
        outcome_view(Err(e)) == Err::<Seq<u8>, Seq<char>>(e@),
        outcome(None, bytes) == Ok::<Seq<u8>, Seq<char>>(bytes),
        outcome(Some(e@), bytes) == Err::<Seq<u8>, Seq<char>>(e@),
        Reply::Done(Ok(msg))@ == ReplyView::Done(Ok(msg@)),
        Reply::Done(Err(e))@ == ReplyView::Done(Err(e@)),
        (Reply::Fetch { error: None })@ == ReplyView::Fetch(None),
        (Reply::Fetch { error: Some(e) })@ == ReplyView::Fetch(Some(e@)),
{
}

/// What may be missing is known by itself where it is there.
pub proof fn parts_are_known_where_they_are_there(
    metadata: ActorMetadata,
    target: TargetEntity,
    links: Table<String, WasmCloudEntity>,
)
    ensures
        metadata_view(None) is None,
        metadata_view(Some(metadata)) == Some(metadata@),
        target_view(None) is None,
        target_view(Some(&target)) == Some(target@),
        target_opt(None) is None,
        target_opt(Some(target)) == Some(target@),
        package_links(None) is None,
        package_links(Some(&links)) == Some(links@),
{
}

} // verus!
