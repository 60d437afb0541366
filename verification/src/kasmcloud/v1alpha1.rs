//! Version `v1alpha1` as it was first laid out: replicas are counted without a
//! sign, and either end of a link may be left out.

use vstd::prelude::*;

use crate::table::Table;
use crate::time::Time;
use crate::v1alpha1::Condition;

verus! {

/// An actor that a host is to run.
pub struct ActorSpec {
    pub host: String,
    pub image: String,
    pub replica: usize,
}

/// What is known of a running actor.
pub struct ActorStatus {
    pub public_key: String,
    pub descriptive_name: Option<String>,
    pub caps: Option<Vec<String>>,
    pub capability_provider: Option<Vec<String>>,
    pub call_alias: Option<String>,
    pub version: Option<String>,
    pub reversion: Option<i32>,
    pub claims: Claims,
    pub conditions: Vec<Condition>,
    pub available_replicas: usize,
}

/// Who vouches for an image, and how long.
pub struct Claims {
    pub issuer: String,
    pub subject: String,
    pub issued_at: Time,
    pub not_before: Option<Time>,
    pub expires: Option<Time>,
}

/// A link between an actor and a provider.
pub struct LinkSpec {
    pub provider: Source,
    pub actor: Source,
    pub contract_id: String,
    pub values: Table<String, String>,
}

/// The two ends that a link was resolved to.
pub struct LinkStatus {
    pub provider_key: String,
    pub actor_key: String,
    pub conditions: Vec<Condition>,
}

/// One end of a link: a public key or the name of a resource.
pub struct Source {
    pub key: Option<String>,
    pub name: Option<String>,
}

/// A provider that a host is to run.
pub struct ProviderSpec {
    pub host: String,
    pub image: String,
    pub link: String,
}

/// What is known of a running provider.
pub struct ProviderStatus {
    pub public_key: String,
    pub contract_id: String,
    pub descriptive_name: Option<String>,
    pub vendor: String,
    pub reversion: Option<i32>,
    pub version: Option<String>,
    pub claims: Claims,
    pub architecture_targets: Vec<String>,
    pub conditions: Vec<Condition>,
    pub instance_id: String,
}

} // verus!
