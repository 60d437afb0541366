//! What a call goes from and to, and the links between actors and providers.

use vstd::prelude::*;

use crate::table::{Datum, Table};

verus! {

/// An actor or a provider on the lattice. An actor has no link name and no
/// contract.
#[derive(Debug)]
pub struct WasmCloudEntity {
    pub public_key: String,
    pub link_name: String,
    pub contract_id: String,
}

#[verifier::ext_equal]
pub ghost struct EntityView {
    pub public_key: Seq<char>,
    pub link_name: Seq<char>,
    pub contract_id: Seq<char>,
}

impl View for WasmCloudEntity {
    type V = EntityView;

    open spec fn view(&self) -> EntityView {
        EntityView {
            public_key: self.public_key@,
            link_name: self.link_name@,
            contract_id: self.contract_id@,
        }
    }
}

/// The entity of an actor: its public key and nothing else.
pub open spec fn actor_entity(public_key: Seq<char>) -> EntityView {
    EntityView { public_key, link_name: Seq::empty(), contract_id: Seq::empty() }
}

impl WasmCloudEntity {
    pub fn of_actor(public_key: String) -> (r: Self)
        ensures
            r@ == actor_entity(public_key@),
    {
        WasmCloudEntity { public_key, link_name: String::new(), contract_id: String::new() }
    }
}

impl Datum for WasmCloudEntity {
    fn duplicate(&self) -> (r: Self) {
        WasmCloudEntity {
            public_key: self.public_key.clone(),
            link_name: self.link_name.clone(),
            contract_id: self.contract_id.clone(),
        }
    }
}

/// The links of one actor: contract, then link name, then provider.
pub type Links = Table<String, Table<String, WasmCloudEntity>>;

/// Binds an actor to a provider of a contract, under a link name.
pub struct LinkDefinition {
    pub actor_id: String,
    pub provider_id: String,
    pub link_name: String,
    pub contract_id: String,
    pub values: Table<String, String>,
}

#[verifier::ext_equal]
pub ghost struct LinkDefinitionView {
    pub actor_id: Seq<char>,
    pub provider_id: Seq<char>,
    pub link_name: Seq<char>,
    pub contract_id: Seq<char>,
    pub values: Map<Seq<char>, Seq<char>>,
}

impl View for LinkDefinition {
    type V = LinkDefinitionView;

    open spec fn view(&self) -> LinkDefinitionView {
        LinkDefinitionView {
            actor_id: self.actor_id@,
            provider_id: self.provider_id@,
            link_name: self.link_name@,
            contract_id: self.contract_id@,
            values: self.values@,
        }
    }
}

impl Datum for LinkDefinition {
    fn duplicate(&self) -> (r: Self) {
        LinkDefinition {
            actor_id: self.actor_id.clone(),
            provider_id: self.provider_id.clone(),
            link_name: self.link_name.clone(),
            contract_id: self.contract_id.clone(),
            values: self.values.duplicate(),
        }
    }
}

impl LinkDefinitionView {
    /// The provider end of a link.
    pub open spec fn provider(self) -> EntityView {
        EntityView {
            public_key: self.provider_id,
            link_name: self.link_name,
            contract_id: self.contract_id,
        }
    }
}

impl LinkDefinition {
    /// The provider end of the link.
    pub fn provider(&self) -> (r: WasmCloudEntity)
        ensures
            r@ == self@.provider(),
    {
        WasmCloudEntity {
            public_key: self.provider_id.clone(),
            link_name: self.link_name.clone(),
            contract_id: self.contract_id.clone(),
        }
    }
}

/// What is called and what links is known by all of its parts.
pub proof fn entities_are_known_by_their_parts(e: WasmCloudEntity, ld: LinkDefinition)
    ensures
        e@.public_key == e.public_key@,
        e@.link_name == e.link_name@,
        e@.contract_id == e.contract_id@,
        ld@.actor_id == ld.actor_id@,
        ld@.provider_id == ld.provider_id@,
        ld@.link_name == ld.link_name@,
        ld@.contract_id == ld.contract_id@,
        ld@.values == ld.values@,
{
}

/// An actor is called by its public key, and by nothing else; a provider by its
/// public key, under the name and the contract of the link.
pub proof fn ends_are_named(public_key: Seq<char>, ld: LinkDefinitionView)
    ensures
        actor_entity(public_key).public_key == public_key,
        actor_entity(public_key).link_name.len() == 0,
        actor_entity(public_key).contract_id.len() == 0,
        ld.provider().public_key == ld.provider_id,
        ld.provider().link_name == ld.link_name,
        ld.provider().contract_id == ld.contract_id,
{
}

} // verus!
