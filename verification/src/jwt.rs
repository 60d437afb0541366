//! The claims that are embedded in the images of actors and providers.

use vstd::prelude::*;

use crate::table::Datum;
use crate::text::{copy_text_opt, copy_texts, copy_texts_opt};

verus! {

use crate::text::{text_opt, texts, texts_opt};

/// Who vouches for an image, how long, and what it says of itself.
#[derive(Debug)]
pub struct Claims<M> {
    pub issuer: String,
    pub subject: String,
    pub issued_at: u64,
    pub not_before: Option<u64>,
    pub expires: Option<u64>,
    pub metadata: Option<M>,
}

#[verifier::ext_equal]
pub ghost struct ClaimsView<M> {
    pub issuer: Seq<char>,
    pub subject: Seq<char>,
    pub issued_at: u64,
    pub not_before: Option<u64>,
    pub expires: Option<u64>,
    pub metadata: Option<M>,
}

impl<M: View> View for Claims<M> {
    type V = ClaimsView<M::V>;

    open spec fn view(&self) -> ClaimsView<M::V> {
        ClaimsView {
            issuer: self.issuer@,
            subject: self.subject@,
            issued_at: self.issued_at,
            not_before: self.not_before,
            expires: self.expires,
            metadata: match self.metadata {
                Some(m) => Some(m@),
                None => None,
            },
        }
    }
}

impl<M: Datum> Datum for Claims<M> {
    fn duplicate(&self) -> (r: Self) {
        Claims {
            issuer: self.issuer.clone(),
            subject: self.subject.clone(),
            issued_at: self.issued_at,
            not_before: self.not_before,
            expires: self.expires,
            metadata: match &self.metadata {
                Some(m) => Some(m.duplicate()),
                None => None,
            },
        }
    }
}

/// What an actor says of itself.
#[derive(Debug)]
pub struct Actor {
    pub name: Option<String>,
    pub caps: Option<Vec<String>>,
    pub rev: Option<i32>,
    pub ver: Option<String>,
    pub call_alias: Option<String>,
    pub provider: bool,
}

#[verifier::ext_equal]
pub ghost struct ActorView {
    pub name: Option<Seq<char>>,
    pub caps: Option<Seq<Seq<char>>>,
    pub rev: Option<i32>,
    pub ver: Option<Seq<char>>,
    pub call_alias: Option<Seq<char>>,
    pub provider: bool,
}

impl View for Actor {
    type V = ActorView;

    open spec fn view(&self) -> ActorView {
        ActorView {
            name: text_opt(self.name),
            caps: texts_opt(self.caps),
            rev: self.rev,
            ver: text_opt(self.ver),
            call_alias: text_opt(self.call_alias),
            provider: self.provider,
        }
    }
}

impl Datum for Actor {
    fn duplicate(&self) -> (r: Self) {
        Actor {
            name: copy_text_opt(&self.name),
            caps: copy_texts_opt(&self.caps),
            rev: self.rev,
            ver: copy_text_opt(&self.ver),
            call_alias: copy_text_opt(&self.call_alias),
            provider: self.provider,
        }
    }
}

/// What a provider says of itself. `targets` are the architectures that it is
/// built for, in no particular order.
#[derive(Debug)]
pub struct CapabilityProvider {
    pub name: Option<String>,
    pub capid: String,
    pub vendor: String,
    pub rev: Option<i32>,
    pub ver: Option<String>,
    pub targets: Vec<String>,
}

#[verifier::ext_equal]
pub ghost struct CapabilityProviderView {
    pub name: Option<Seq<char>>,
    pub capid: Seq<char>,
    pub vendor: Seq<char>,
    pub rev: Option<i32>,
    pub ver: Option<Seq<char>>,
    pub targets: Seq<Seq<char>>,
}

impl View for CapabilityProvider {
    type V = CapabilityProviderView;

    open spec fn view(&self) -> CapabilityProviderView {
        CapabilityProviderView {
            name: text_opt(self.name),
            capid: self.capid@,
            vendor: self.vendor@,
            rev: self.rev,
            ver: text_opt(self.ver),
            targets: texts(self.targets@),
        }
    }
}

impl Datum for CapabilityProvider {
    fn duplicate(&self) -> (r: Self) {
        CapabilityProvider {
            name: copy_text_opt(&self.name),
            capid: self.capid.clone(),
            vendor: self.vendor.clone(),
            rev: self.rev,
            ver: copy_text_opt(&self.ver),
            targets: copy_texts(&self.targets),
        }
    }
}

/// Claims are known by all that they say.
pub proof fn claims_are_known_by_what_they_say<M: View>(claims: Claims<M>)
    ensures
        claims@.issuer == claims.issuer@,
        claims@.subject == claims.subject@,
        claims@.issued_at == claims.issued_at,
        claims@.not_before == claims.not_before,
        claims@.expires == claims.expires,
        claims.metadata is None ==> claims@.metadata is None,
        claims.metadata matches Some(m) ==> claims@.metadata == Some(m@),
{
}

/// Actors and providers are known by all that they say of themselves.
pub proof fn images_are_known_by_what_they_say(actor: Actor, provider: CapabilityProvider)
    ensures
        actor@.name == text_opt(actor.name),
        actor@.caps == texts_opt(actor.caps),
        actor@.rev == actor.rev,
        actor@.ver == text_opt(actor.ver),
        actor@.call_alias == text_opt(actor.call_alias),
        actor@.provider == actor.provider,
        provider@.name == text_opt(provider.name),
        provider@.capid == provider.capid@,
        provider@.vendor == provider.vendor@,
        provider@.rev == provider.rev,
        provider@.ver == text_opt(provider.ver),
        provider@.targets == texts(provider.targets@),
{
}

} // verus!
