//! Running capability providers.

use vstd::prelude::*;

use crate::jwt::{CapabilityProvider, Claims};
use crate::table::Table;

verus! {

use crate::jwt::{CapabilityProviderView, ClaimsView};

/// One process of a provider.
#[derive(Clone, Copy, Debug, PartialEq, Eq, Structural)]
pub struct ProviderInstance {
    pub id: u128,
}

impl View for ProviderInstance {
    type V = u128;

    open spec fn view(&self) -> u128 {
        self.id
    }
}

/// A provider and its processes, one for each link name.
pub struct Provider {
    pub claims: Claims<CapabilityProvider>,
    pub instances: Table<String, ProviderInstance>,
    pub image_ref: String,
}

#[verifier::ext_equal]
pub ghost struct ProviderView {
    pub claims: ClaimsView<CapabilityProviderView>,
    pub instances: Map<Seq<char>, u128>,
    pub image_ref: Seq<char>,
}

impl View for Provider {
    type V = ProviderView;

    open spec fn view(&self) -> ProviderView {
        ProviderView {
            claims: self.claims@,
            instances: self.instances@,
            image_ref: self.image_ref@,
        }
    }
}

/// A provider is known by its claims, its processes and its image.
pub proof fn providers_are_known_by_their_parts(p: Provider, instance: ProviderInstance)
    ensures
        p@.claims == p.claims@,
        p@.instances == p.instances@,
        p@.image_ref == p.image_ref@,
        instance@ == instance.id,
{
}

} // verus!
