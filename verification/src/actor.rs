//! Actors and their instances, and how an instance answers a call.

use vstd::prelude::*;
use vstd::string::*;

use crate::entity::Links;
use crate::handler::{ensure_actor_capability, CallError, Handler};
use crate::jwt::Actor as ActorMetadata;
use crate::table::{Datum, Table};
use crate::text::copy_texts;
use crate::wire::{
    accept_antiforgery, decode_invocation, encode_response, Invocation, InvocationResponse,
    CHUNK_THRESHOLD_BYTES,
};

verus! {

use crate::handler::{
    as_sent, capability, metadata_view, outcome, outcome_view, reply_to, CallErrorView, HandlerView,
    ReplyView,
};
use crate::links::LinksView;
use crate::text::texts;
use crate::keys::{key_of_public, KeyKind};
use crate::wire::{
    genuine, invocation_of_bytes, response_bytes, response_of_bytes, sealed, timeless, vouched,
    InvocationResponseView, InvocationView,
};

/// One running instance of an actor.
#[derive(Debug)]
pub struct ActorInstance {
    pub id: u128,
    pub valid_issuers: Vec<String>,
}

#[verifier::ext_equal]
pub ghost struct InstanceView {
    pub id: u128,
    pub valid_issuers: Seq<Seq<char>>,
}

impl View for ActorInstance {
    type V = InstanceView;

    open spec fn view(&self) -> InstanceView {
        InstanceView { id: self.id, valid_issuers: texts(self.valid_issuers@) }
    }
}

impl Datum for ActorInstance {
    fn duplicate(&self) -> (r: Self) {
        ActorInstance { id: self.id, valid_issuers: copy_texts(&self.valid_issuers) }
    }
}

/// The views of instances.
pub open spec fn instance_views(v: Seq<ActorInstance>) -> Seq<InstanceView> {
    Seq::new(v.len(), |i: int| v[i]@)
}

/// An image that runs as a number of instances, the oldest first.
pub struct Actor {
    pub image_ref: String,
    pub handler: Handler,
    pub instances: Vec<ActorInstance>,
}

#[verifier::ext_equal]
pub ghost struct ActorStateView {
    pub image_ref: Seq<char>,
    pub handler: HandlerView,
    pub instances: Seq<InstanceView>,
}

impl View for Actor {
    type V = ActorStateView;

    open spec fn view(&self) -> ActorStateView {
        ActorStateView {
            image_ref: self.image_ref@,
            handler: self.handler@,
            instances: instance_views(self.instances@),
        }
    }
}

/// The actors of one public key, by name, and the links that they share.
pub struct ActorGroup {
    pub public_key: String,
    pub actors: Table<String, Actor>,
    pub links: Links,
}

#[verifier::ext_equal]
pub ghost struct GroupView {
    pub public_key: Seq<char>,
    pub actors: Map<Seq<char>, ActorStateView>,
    pub links: LinksView,
}

impl View for ActorGroup {
    type V = GroupView;

    open spec fn view(&self) -> GroupView {
        GroupView { public_key: self.public_key@, actors: self.actors@, links: self.links@ }
    }
}

/// Why a call was not answered.
#[derive(Debug)]
pub enum InstanceError {
    /// The call could not be decoded.
    Decode,
    /// The call may be forged.
    Forged,
    /// The length that the call gives is too large for this machine.
    ContentLength,
    /// The actor may not be called under the contract.
    Capability(CallError),
    /// The answer could not be encoded.
    Encode,
    /// The actor could not be run, or its message not fetched or stored.
    Failed(String),
}

/// Where the message of a call is.
#[derive(Debug)]
pub enum Body {
    /// It came along.
    Inline(Vec<u8>),
    /// It is in the object store, under the identifier of the call.
    Stored,
}

pub ghost enum BodyView {
    Inline(Seq<u8>),
    Stored,
}

impl View for Body {
    type V = BodyView;

    open spec fn view(&self) -> BodyView {
        match self {
            Body::Inline(msg) => BodyView::Inline(msg@),
            Body::Stored => BodyView::Stored,
        }
    }
}

/// A call that was let in.
#[derive(Debug)]
pub struct Incoming {
    pub id: String,
    pub contract_id: String,
    pub operation: String,
    pub body: Body,
}

#[verifier::ext_equal]
pub ghost struct IncomingView {
    pub id: Seq<char>,
    pub contract_id: Seq<char>,
    pub operation: Seq<char>,
    pub body: BodyView,
}

impl View for Incoming {
    type V = IncomingView;

    open spec fn view(&self) -> IncomingView {
        IncomingView {
            id: self.id@,
            contract_id: self.contract_id@,
            operation: self.operation@,
            body: self.body@,
        }
    }
}

/// A call that was let in, unless its length is too large for this machine.
/// The contract is that of its origin.
pub open spec fn incoming(inv: InvocationView) -> Option<IncomingView> {
    if inv.content_length > usize::MAX {
        None
    } else {
        Some(
            IncomingView {
                id: inv.id,
                contract_id: inv.origin.contract_id,
                operation: inv.operation,
                body: if inv.content_length > CHUNK_THRESHOLD_BYTES {
                    BodyView::Stored
                } else {
                    BodyView::Inline(inv.msg)
                },
            },
        )
    }
}

/// Lets a call in that is known not to be forged.
pub fn let_in(inv: Invocation) -> (r: Result<Incoming, InstanceError>)
    ensures
        match r {
            Ok(call) => incoming(inv@) == Some(call@),
            Err(e) => incoming(inv@) is None && e == InstanceError::ContentLength,
        },
{
    let length: usize = match usize::try_from(inv.content_length) {
        Ok(length) => length,
        Err(_) => {
            return Err(InstanceError::ContentLength);
        },
    };
    let body = if length > CHUNK_THRESHOLD_BYTES {
        Body::Stored
    } else {
        Body::Inline(inv.msg)
    };
    Ok(
        Incoming {
            id: inv.id,
            contract_id: inv.origin.contract_id,
            operation: inv.operation,
            body,
        },
    )
}

/// Lets a call in, unless it may be forged.
pub fn let_in_genuine(inv: Invocation, genuine: bool) -> (r: Result<Incoming, InstanceError>)
    ensures
        match r {
            Ok(call) => genuine && incoming(inv@) == Some(call@),
            Err(e) => if genuine {
                incoming(inv@) is None && e == InstanceError::ContentLength
            } else {
                e == InstanceError::Forged
            },
        },
{
    if genuine {
        let_in(inv)
    } else {
        Err(InstanceError::Forged)
    }
}

/// How a call is carried out.
#[derive(Clone, Copy, Debug, PartialEq, Eq, Structural)]
pub enum Dispatch {
    /// As an HTTP request.
    Http,
    /// As a call of the operation.
    Operation,
}

/// Requests of an HTTP server are carried out as such.
pub open spec fn dispatch_of(contract_id: Seq<char>, operation: Seq<char>) -> Dispatch {
    if contract_id == "wasmcloud:httpserver"@ && operation == "HttpServer.HandleRequest"@ {
        Dispatch::Http
    } else {
        Dispatch::Operation
    }
}

/// Sees whether an actor may be called under a contract, and how the call is
/// carried out.
pub fn dispatch(
    claims_metadata: &Option<ActorMetadata>,
    contract_id: &String,
    operation: &String,
) -> (r: Result<Dispatch, InstanceError>)
    ensures
        match r {
            Ok(d) => capability(metadata_view(*claims_metadata), contract_id@) is Ok && d
                == dispatch_of(contract_id@, operation@),
            Err(InstanceError::Capability(e)) => capability(
                metadata_view(*claims_metadata),
                contract_id@,
            ) == Err::<(), CallErrorView>(e@),
            Err(_) => false,
        },
{
    match ensure_actor_capability(claims_metadata, contract_id) {
        Ok(()) => {},
        Err(e) => {
            return Err(InstanceError::Capability(e));
        },
    }
    if *contract_id == "wasmcloud:httpserver".to_owned() && *operation
        == "HttpServer.HandleRequest".to_owned() {
        Ok(Dispatch::Http)
    } else {
        Ok(Dispatch::Operation)
    }
}

/// An answer, and what goes into the object store before it is sent.
#[derive(Debug)]
pub struct Answer {
    pub response: InvocationResponse,
    pub stored: Option<Vec<u8>>,
}

/// The answer to a call: the message where it is short enough, and the length
/// of the message in any case.
pub open spec fn response_to(id: Seq<char>, outcome: Result<Seq<u8>, Seq<char>>)
    -> InvocationResponseView {
    match outcome {
        Ok(msg) => InvocationResponseView {
            msg: if msg.len() > CHUNK_THRESHOLD_BYTES {
                Seq::empty()
            } else {
                msg
            },
            invocation_id: id,
            error: None,
            content_length: msg.len() as u64,
        },
        Err(e) => InvocationResponseView {
            msg: Seq::empty(),
            invocation_id: id,
            error: Some(e),
            content_length: 0,
        },
    }
}

/// Makes the answer to a call.
pub fn respond(id: String, outcome: Result<Vec<u8>, String>) -> (r: Answer)
    ensures
        r.response@ == response_to(id@, outcome_view(outcome)),
        r.stored == match outcome {
            Ok(msg) => if msg@.len() > CHUNK_THRESHOLD_BYTES {
                Some(msg)
            } else {
                None
            },
            Err(_) => None,
        },
        r.stored is Some <==> outcome is Ok && outcome->Ok_0@.len() > 921600,
{
    match outcome {
        Ok(msg) => {
            let content_length: u64 = msg.len() as u64;
            if msg.len() > CHUNK_THRESHOLD_BYTES {
                Answer {
                    response: InvocationResponse {
                        msg: Vec::new(),
                        invocation_id: id,
                        error: None,
                        content_length,
                    },
                    stored: Some(msg),
                }
            } else {
                Answer {
                    response: InvocationResponse {
                        msg,
                        invocation_id: id,
                        error: None,
                        content_length,
                    },
                    stored: None,
                }
            }
        },
        Err(e) => Answer {
            response: InvocationResponse {
                msg: Vec::new(),
                invocation_id: id,
                error: Some(e),
                content_length: 0,
            },
            stored: None,
        },
    }
}

/// The bytes of an answer. There may be no memory for them; else whoever reads
/// them gets the answer again.
pub fn answer_bytes(response: InvocationResponse) -> (r: Result<Vec<u8>, InstanceError>)
    ensures
        match r {
            Ok(bytes) => bytes@ == response_bytes(response@) && (response@.encodable()
                ==> response_of_bytes(bytes@) == Some(response@)),
            Err(e) => e == InstanceError::Encode,
        },
{
    match encode_response(response) {
        Some(bytes) => Ok(bytes),
        None => Err(InstanceError::Encode),
    }
}

/// What is done once a call has been handled.
#[derive(Debug)]
pub enum MessageAction {
    /// The answer is sent where the caller waits for it.
    Publish { reply: String, payload: Vec<u8> },
    /// The failure is reported.
    Report(InstanceError),
    /// Nobody waits for the answer.
    Nothing,
}

impl ActorInstance {
    /// Reads a call and decides whether to let it in: those that carry a token
    /// that speaks of them, signed by an issuer that the instance trusts, are.
    /// Whether such a token holds depends on the time as well, unless it holds at
    /// all times.
    pub fn receive(&self, payload: &Vec<u8>) -> (r: Result<Incoming, InstanceError>)
        ensures
            match invocation_of_bytes(payload@) {
                None => r matches Err(e) && e == InstanceError::Decode,
                Some(inv) => match r {
                    Ok(call) => incoming(inv) == Some(call@) && genuine(inv, self@.valid_issuers),
                    Err(e) => if e == InstanceError::Forged {
                        !(genuine(inv, self@.valid_issuers) && timeless(inv.encoded_claims))
                    } else {
                        &&& e == InstanceError::ContentLength
                        &&& incoming(inv) is None
                        &&& genuine(inv, self@.valid_issuers)
                    },
                },
            },
    {
        let inv = match decode_invocation(payload.as_slice()) {
            Some(inv) => inv,
            None => {
                return Err(InstanceError::Decode);
            },
        };
        let genuine = accept_antiforgery(&inv, &self.valid_issuers);
        let_in_genuine(inv, genuine)
    }

    /// Decides what is done once a call has been handled: an answer goes to
    /// whoever waits for it, and a failure is reported to nobody else.
    pub fn handle_message(
        &self,
        reply: Option<String>,
        result: Result<Vec<u8>, InstanceError>,
    ) -> (r: MessageAction)
        ensures
            r == match (reply, result) {
                (Some(reply), Ok(payload)) => MessageAction::Publish { reply, payload },
                (_, Err(e)) => MessageAction::Report(e),
                (None, Ok(_)) => MessageAction::Nothing,
            },
    {
        match (reply, result) {
            (Some(reply), Ok(payload)) => MessageAction::Publish { reply, payload },
            (_, Err(e)) => MessageAction::Report(e),
            (None, Ok(_)) => MessageAction::Nothing,
        }
    }
}

/// What an actor answers is what its caller gets: read against the call that it
/// is to, an answer gives the outcome again, or says that the message is in the
/// object store.
pub proof fn answers_arrive(id: Seq<char>, outcome: Result<Seq<u8>, Seq<char>>)
    requires
        outcome matches Ok(msg) ==> msg.len() <= usize::MAX,
    ensures
        reply_to(response_to(id, outcome), id) == match outcome {
            Ok(msg) => if msg.len() > CHUNK_THRESHOLD_BYTES {
                Ok::<ReplyView, CallErrorView>(ReplyView::Fetch(None))
            } else {
                Ok(ReplyView::Done(outcome))
            },
            Err(_) => Ok(ReplyView::Done(outcome)),
        },
{
}

/// What a caller sends is what the actor gets: a call whose length is that of
/// its message is let in with its message, or with word that the message is in
/// the object store, which is where it was put.
pub proof fn calls_arrive(inv: InvocationView)
    requires
        inv.content_length == inv.msg.len(),
        inv.msg.len() <= usize::MAX,
    ensures
        incoming(as_sent(inv)) == Some(
            IncomingView {
                id: inv.id,
                contract_id: inv.origin.contract_id,
                operation: inv.operation,
                body: if inv.msg.len() > CHUNK_THRESHOLD_BYTES {
                    BodyView::Stored
                } else {
                    BodyView::Inline(inv.msg)
                },
            },
        ),
{
}

/// Leaving the message out does not break the seal of a call.
pub proof fn sending_keeps_the_seal(inv: InvocationView, issuer: Seq<char>)
    requires
        sealed(inv, issuer),
    ensures
        sealed(as_sent(inv), issuer),
{
}

/// A call that a handler makes ready is let in, as it is sent, by every instance
/// that trusts the handler's cluster, where the public keys of the cluster and
/// the host can be read back: `inv` is the call, `issuers` are those that the
/// instance trusts.
pub proof fn calls_of_trusted_hosts_are_let_in(
    inv: InvocationView,
    handler: HandlerView,
    issuers: Seq<Seq<char>>,
)
    requires
        vouched(inv, handler.cluster_key.public_key),
        inv.host_id == handler.host_key.public_key,
        issuers.contains(handler.cluster_key.public_key),
        handler.cluster_key.public_key.len() == 56,
        handler.host_key.public_key.len() == 56,
        key_of_public(handler.cluster_key.public_key) is Some,
        key_of_public(handler.host_key.public_key) matches Some(key) && key.0 == KeyKind::Server,
    ensures
        genuine(as_sent(inv), issuers),
        timeless(as_sent(inv).encoded_claims),
{
}

/// A call is let in as it came: under the contract of its origin, with its own
/// identifier and operation, and with its message unless that has more than
/// 921600 bytes; such a message is in the object store.
pub proof fn calls_are_let_in_as_they_came(inv: InvocationView)
    ensures
        incoming(inv) is Some <==> inv.content_length <= usize::MAX,
        incoming(inv) matches Some(call) ==> {
            &&& call.id == inv.id
            &&& call.contract_id == inv.origin.contract_id
            &&& call.operation == inv.operation
            &&& inv.content_length <= 921600 ==> call.body == BodyView::Inline(inv.msg)
            &&& inv.content_length > 921600 ==> call.body == BodyView::Stored
        },
{
}

/// What an HTTP server sends is carried out as an HTTP request, and nothing else
/// is.
pub proof fn http_requests_are_told_apart(contract_id: Seq<char>, operation: Seq<char>)
    ensures
        dispatch_of(contract_id, operation) is Http <==> contract_id == "wasmcloud:httpserver"@
            && operation == "HttpServer.HandleRequest"@,
{
}

/// An answer names the call that it is to. It carries the length of the message,
/// and the message itself unless that has more than 921600 bytes; or why there
/// is none.
pub proof fn answers_carry_their_outcome(id: Seq<char>, outcome: Result<Seq<u8>, Seq<char>>)
    requires
        outcome matches Ok(msg) ==> msg.len() <= u64::MAX,
    ensures
        response_to(id, outcome).invocation_id == id,
        outcome matches Ok(msg) ==> {
            &&& response_to(id, outcome).error is None
            &&& response_to(id, outcome).content_length == msg.len()
            &&& msg.len() <= 921600 ==> response_to(id, outcome).msg == msg
            &&& msg.len() > 921600 ==> response_to(id, outcome).msg.len() == 0
        },
        outcome matches Err(e) ==> {
            &&& response_to(id, outcome).error == Some(e)
            &&& response_to(id, outcome).content_length == 0
            &&& response_to(id, outcome).msg.len() == 0
        },
{
}

/// Actors, their groups and their instances are known by all of their parts.
pub proof fn actors_are_known_by_their_parts(
    instance: ActorInstance,
    actor: Actor,
    group: ActorGroup,
    i: int,
)
    ensures
        instance@.id == instance.id,
        instance@.valid_issuers == texts(instance.valid_issuers@),
        actor@.image_ref == actor.image_ref@,
        actor@.handler == actor.handler@,
        actor@.instances.len() == actor.instances@.len(),
        0 <= i < actor.instances@.len() ==> actor@.instances[i] == actor.instances@[i]@,
        group@.public_key == group.public_key@,
        group@.actors == group.actors@,
        group@.links == group.links@,
{
}

/// A call that was let in is known by all of its parts.
pub proof fn incoming_calls_are_known_by_their_parts(call: Incoming, msg: Vec<u8>)
    ensures
        call@.id == call.id@,
        call@.contract_id == call.contract_id@,
        call@.operation == call.operation@,
        call@.body == call.body@,
        Body::Inline(msg)@ == BodyView::Inline(msg@),
        Body::Stored@ == BodyView::Stored,
{
}

} // verus!
