//! The resources that a cluster keeps of hosts, actors, providers and links.

use vstd::prelude::*;

use crate::table::Table;
use crate::text::{same_text_opt, same_texts, same_texts_opt};
use crate::time::Time;

verus! {

use crate::text::{text_opt, texts, texts_opt};

/// A remark on the state of a resource.
#[derive(Debug)]
pub struct Condition {
    pub last_transition_time: Time,
    pub message: String,
    pub observed_generation: Option<i64>,
    pub reason: String,
    pub status: String,
    pub type_: String,
}

#[verifier::ext_equal]
pub ghost struct ConditionView {
    pub last_transition_time: Time,
    pub message: Seq<char>,
    pub observed_generation: Option<i64>,
    pub reason: Seq<char>,
    pub status: Seq<char>,
    pub type_: Seq<char>,
}

impl View for Condition {
    type V = ConditionView;

    open spec fn view(&self) -> ConditionView {
        ConditionView {
            last_transition_time: self.last_transition_time,
            message: self.message@,
            observed_generation: self.observed_generation,
            reason: self.reason@,
            status: self.status@,
            type_: self.type_@,
        }
    }
}

/// The views of conditions.
pub open spec fn condition_views(v: Seq<Condition>) -> Seq<ConditionView> {
    Seq::new(v.len(), |i: int| v[i]@)
}

fn same_i64_opt(a: &Option<i64>, b: &Option<i64>) -> (r: bool)
    ensures
        r == (*a == *b),
{
    match (a, b) {
        (Some(x), Some(y)) => *x == *y,
        (None, None) => true,
        _ => false,
    }
}

fn same_i32_opt(a: &Option<i32>, b: &Option<i32>) -> (r: bool)
    ensures
        r == (*a == *b),
{
    match (a, b) {
        (Some(x), Some(y)) => *x == *y,
        (None, None) => true,
        _ => false,
    }
}

fn same_time_opt(a: &Option<Time>, b: &Option<Time>) -> (r: bool)
    ensures
        r == (*a == *b),
{
    match (a, b) {
        (Some(x), Some(y)) => *x == *y,
        (None, None) => true,
        _ => false,
    }
}

impl Condition {
    /// Whether two remarks say the same.
    pub fn same(&self, other: &Condition) -> (r: bool)
        ensures
            r == (self@ == other@),
    {
        self.last_transition_time == other.last_transition_time && self.message == other.message
            && same_i64_opt(&self.observed_generation, &other.observed_generation) && self.reason
            == other.reason && self.status == other.status && self.type_ == other.type_
    }
}

fn same_conditions(a: &Vec<Condition>, b: &Vec<Condition>) -> (r: bool)
    ensures
        r == (condition_views(a@) == condition_views(b@)),
{
    if a.len() != b.len() {
        assert(condition_views(a@).len() != condition_views(b@).len());
        return false;
    }
    let mut i: usize = 0;
    while i < a.len()
        invariant
            i <= a@.len(),
            a@.len() == b@.len(),
            forall|j: int| 0 <= j < i ==> (#[trigger] a@[j])@ == b@[j]@,
        decreases a@.len() - i,
    {
        if !a[i].same(&b[i]) {
            assert(condition_views(a@)[i as int] != condition_views(b@)[i as int]);
            return false;
        }
        i = i + 1;
    }
    assert(condition_views(a@) =~= condition_views(b@));
    true
}

/// A host. There is nothing to ask of one.
#[derive(Debug)]
pub struct KasmCloudHostSpec {}

/// What is known of a host.
#[derive(Debug)]
pub struct KasmCloudHostStatus {
    pub kube_node_name: String,
    pub public_key: String,
    pub cluster_public_key: String,
    pub cluster_issuers: Vec<String>,
    pub pre_instance: String,
    pub instance: String,
    pub providers: HostProviderStatus,
    pub actors: HostActorStatus,
}

/// The providers that run on a host.
#[derive(Clone, Copy, Debug, PartialEq, Eq, Structural)]
pub struct HostProviderStatus {
    pub count: u64,
}

/// The actors that run on a host, and their instances.
#[derive(Clone, Copy, Debug, PartialEq, Eq, Structural)]
pub struct HostActorStatus {
    pub count: u64,
    pub instance_count: u64,
}

/// Who vouches for an image, and how long.
#[derive(Debug)]
pub struct Claims {
    pub issuer: String,
    pub subject: String,
    pub issued_at: Time,
    pub not_before: Option<Time>,
    pub expires: Option<Time>,
}

#[verifier::ext_equal]
pub ghost struct ClaimsStatusView {
    pub issuer: Seq<char>,
    pub subject: Seq<char>,
    pub issued_at: Time,
    pub not_before: Option<Time>,
    pub expires: Option<Time>,
}

impl View for Claims {
    type V = ClaimsStatusView;

    open spec fn view(&self) -> ClaimsStatusView {
        ClaimsStatusView {
            issuer: self.issuer@,
            subject: self.subject@,
            issued_at: self.issued_at,
            not_before: self.not_before,
            expires: self.expires,
        }
    }
}

impl Claims {
    /// Whether two claims say the same.
    pub fn same(&self, other: &Claims) -> (r: bool)
        ensures
            r == (self@ == other@),
    {
        self.issuer == other.issuer && self.subject == other.subject && self.issued_at
            == other.issued_at && same_time_opt(&self.not_before, &other.not_before)
            && same_time_opt(&self.expires, &other.expires)
    }
}

/// An actor that a host is to run.
#[derive(Debug)]
pub struct ActorSpec {
    pub host: String,
    pub image: String,
    pub replicas: i32,
}

/// What is known of a running actor.
#[derive(Debug)]
pub struct ActorStatus {
    pub public_key: String,
    pub descriptive_name: Option<String>,
    pub caps: Option<Vec<String>>,
    pub capability_provider: Option<Vec<String>>,
    pub call_alias: Option<String>,
    pub claims: Claims,
    pub version: Option<String>,
    pub reversion: Option<i32>,
    pub conditions: Vec<Condition>,
    pub replicas: i32,
    pub available_replicas: i32,
}

#[verifier::ext_equal]
pub ghost struct ActorStatusView {
    pub public_key: Seq<char>,
    pub descriptive_name: Option<Seq<char>>,
    pub caps: Option<Seq<Seq<char>>>,
    pub capability_provider: Option<Seq<Seq<char>>>,
    pub call_alias: Option<Seq<char>>,
    pub claims: ClaimsStatusView,
    pub version: Option<Seq<char>>,
    pub reversion: Option<i32>,
    pub conditions: Seq<ConditionView>,
    pub replicas: i32,
    pub available_replicas: i32,
}

impl View for ActorStatus {
    type V = ActorStatusView;

    open spec fn view(&self) -> ActorStatusView {
        ActorStatusView {
            public_key: self.public_key@,
            descriptive_name: text_opt(self.descriptive_name),
            caps: texts_opt(self.caps),
            capability_provider: texts_opt(self.capability_provider),
            call_alias: text_opt(self.call_alias),
            claims: self.claims@,
            version: text_opt(self.version),
            reversion: self.reversion,
            conditions: condition_views(self.conditions@),
            replicas: self.replicas,
            available_replicas: self.available_replicas,
        }
    }
}

impl ActorStatus {
    /// Whether the same is known.
    pub fn same(&self, other: &ActorStatus) -> (r: bool)
        ensures
            r == (self@ == other@),
    {
        self.public_key == other.public_key && same_text_opt(
            &self.descriptive_name,
            &other.descriptive_name,
        ) && same_texts_opt(&self.caps, &other.caps) && same_texts_opt(
            &self.capability_provider,
            &other.capability_provider,
        ) && same_text_opt(&self.call_alias, &other.call_alias) && self.claims.same(&other.claims)
            && same_text_opt(&self.version, &other.version) && same_i32_opt(
            &self.reversion,
            &other.reversion,
        ) && same_conditions(&self.conditions, &other.conditions) && self.replicas
            == other.replicas && self.available_replicas == other.available_replicas
    }
}

/// A link between an actor and a provider.
pub struct LinkSpec {
    pub provider: Source,
    pub actor: Source,
    pub contract_id: String,
    pub link_name: String,
    pub values: Table<String, String>,
}

/// One end of a link: a public key, the name of a resource, or both. What is
/// not set is empty.
#[derive(Debug)]
pub struct Source {
    pub key: String,
    pub name: String,
}

#[verifier::ext_equal]
pub ghost struct SourceView {
    pub key: Seq<char>,
    pub name: Seq<char>,
}

impl View for Source {
    type V = SourceView;

    open spec fn view(&self) -> SourceView {
        SourceView { key: self.key@, name: self.name@ }
    }
}

#[verifier::ext_equal]
pub ghost struct LinkSpecView {
    pub provider: SourceView,
    pub actor: SourceView,
    pub contract_id: Seq<char>,
    pub link_name: Seq<char>,
    pub values: Map<Seq<char>, Seq<char>>,
}

impl View for LinkSpec {
    type V = LinkSpecView;

    open spec fn view(&self) -> LinkSpecView {
        LinkSpecView {
            provider: self.provider@,
            actor: self.actor@,
            contract_id: self.contract_id@,
            link_name: self.link_name@,
            values: self.values@,
        }
    }
}

/// The two ends that a link was resolved to.
#[derive(Debug)]
pub struct LinkStatus {
    pub provider_key: String,
    pub actor_key: String,
    pub link_name: String,
    pub conditions: Vec<Condition>,
}

#[verifier::ext_equal]
pub ghost struct LinkStatusView {
    pub provider_key: Seq<char>,
    pub actor_key: Seq<char>,
    pub link_name: Seq<char>,
    pub conditions: Seq<ConditionView>,
}

impl View for LinkStatus {
    type V = LinkStatusView;

    open spec fn view(&self) -> LinkStatusView {
        LinkStatusView {
            provider_key: self.provider_key@,
            actor_key: self.actor_key@,
            link_name: self.link_name@,
            conditions: condition_views(self.conditions@),
        }
    }
}

impl LinkStatus {
    /// Whether the same is known.
    pub fn same(&self, other: &LinkStatus) -> (r: bool)
        ensures
            r == (self@ == other@),
    {
        self.provider_key == other.provider_key && self.actor_key == other.actor_key
            && self.link_name == other.link_name && same_conditions(
            &self.conditions,
            &other.conditions,
        )
    }
}

/// A provider that a host is to run.
#[derive(Debug)]
pub struct ProviderSpec {
    pub host: String,
    pub image: String,
    pub link: String,
}

/// What is known of a running provider.
#[derive(Debug)]
pub struct ProviderStatus {
    pub public_key: String,
    pub contract_id: String,
    pub descriptive_name: Option<String>,
    pub vendor: String,
    pub reversion: Option<i32>,
    pub version: Option<String>,
    pub claims: Claims,
    pub architecture_targets: Vec<String>,
    pub conditions: Vec<Condition>,
    pub instance_id: String,
}

#[verifier::ext_equal]
pub ghost struct ProviderStatusView {
    pub public_key: Seq<char>,
    pub contract_id: Seq<char>,
    pub descriptive_name: Option<Seq<char>>,
    pub vendor: Seq<char>,
    pub reversion: Option<i32>,
    pub version: Option<Seq<char>>,
    pub claims: ClaimsStatusView,
    pub architecture_targets: Seq<Seq<char>>,
    pub conditions: Seq<ConditionView>,
    pub instance_id: Seq<char>,
}

impl View for ProviderStatus {
    type V = ProviderStatusView;

    open spec fn view(&self) -> ProviderStatusView {
        ProviderStatusView {
            public_key: self.public_key@,
            contract_id: self.contract_id@,
            descriptive_name: text_opt(self.descriptive_name),
            vendor: self.vendor@,
            reversion: self.reversion,
            version: text_opt(self.version),
            claims: self.claims@,
            architecture_targets: texts(self.architecture_targets@),
            conditions: condition_views(self.conditions@),
            instance_id: self.instance_id@,
        }
    }
}

impl ProviderStatus {
    /// Whether the same is known.
    pub fn same(&self, other: &ProviderStatus) -> (r: bool)
        ensures
            r == (self@ == other@),
    {
        self.public_key == other.public_key && self.contract_id == other.contract_id
            && same_text_opt(&self.descriptive_name, &other.descriptive_name) && self.vendor
            == other.vendor && same_i32_opt(&self.reversion, &other.reversion) && same_text_opt(
            &self.version,
            &other.version,
        ) && self.claims.same(&other.claims) && same_texts(
            &self.architecture_targets,
            &other.architecture_targets,
        ) && same_conditions(&self.conditions, &other.conditions) && self.instance_id
            == other.instance_id
    }
}

/// What a cluster asks of a link is known by all of its parts.
pub proof fn asked_links_are_known_by_their_parts(spec: LinkSpec)
    ensures
        spec@.provider.key == spec.provider.key@,
        spec@.provider.name == spec.provider.name@,
        spec@.actor.key == spec.actor.key@,
        spec@.actor.name == spec.actor.name@,
        spec@.contract_id == spec.contract_id@,
        spec@.link_name == spec.link_name@,
        spec@.values == spec.values@,
{
}

/// Remarks say the same where all of their parts do.
pub proof fn remarks_are_told_apart(a: Condition, b: Condition)
    ensures
        a@ == b@ <==> {
            &&& a.last_transition_time == b.last_transition_time
            &&& a.message@ == b.message@
            &&& a.observed_generation == b.observed_generation
            &&& a.reason@ == b.reason@
            &&& a.status@ == b.status@
            &&& a.type_@ == b.type_@
        },
{
}

/// Claims say the same where all of their parts do.
pub proof fn claims_are_told_apart(a: Claims, b: Claims)
    ensures
        a@ == b@ <==> {
            &&& a.issuer@ == b.issuer@
            &&& a.subject@ == b.subject@
            &&& a.issued_at == b.issued_at
            &&& a.not_before == b.not_before
            &&& a.expires == b.expires
        },
{
}

/// The same remarks are made where there are as many and each says the same.
pub proof fn lists_of_remarks_are_told_apart(a: Seq<Condition>, b: Seq<Condition>)
    ensures
        condition_views(a) == condition_views(b) <==> a.len() == b.len() && forall|i: int|
            0 <= i < a.len() ==> (#[trigger] a[i])@ == b[i]@,
{
    if condition_views(a) == condition_views(b) {
        assert(condition_views(a).len() == condition_views(b).len());
        assert forall|i: int| 0 <= i < a.len() implies (#[trigger] a[i])@ == b[i]@ by {
            assert(condition_views(a)[i] == condition_views(b)[i]);
        }
    }
    if a.len() == b.len() && forall|i: int| 0 <= i < a.len() ==> (#[trigger] a[i])@ == b[i]@ {
        assert(condition_views(a) =~= condition_views(b));
    }
}

/// The same is known of two actors where all of its parts are the same.
pub proof fn actor_statuses_are_told_apart(a: ActorStatus, b: ActorStatus)
    ensures
        a@ == b@ <==> {
            &&& a.public_key@ == b.public_key@
            &&& text_opt(a.descriptive_name) == text_opt(b.descriptive_name)
            &&& texts_opt(a.caps) == texts_opt(b.caps)
            &&& texts_opt(a.capability_provider) == texts_opt(b.capability_provider)
            &&& text_opt(a.call_alias) == text_opt(b.call_alias)
            &&& a.claims@ == b.claims@
            &&& text_opt(a.version) == text_opt(b.version)
            &&& a.reversion == b.reversion
            &&& condition_views(a.conditions@) == condition_views(b.conditions@)
            &&& a.replicas == b.replicas
            &&& a.available_replicas == b.available_replicas
        },
{
}

/// The same is known of two links where all of its parts are the same.
pub proof fn link_statuses_are_told_apart(a: LinkStatus, b: LinkStatus)
    ensures
        a@ == b@ <==> {
            &&& a.provider_key@ == b.provider_key@
            &&& a.actor_key@ == b.actor_key@
            &&& a.link_name@ == b.link_name@
            &&& condition_views(a.conditions@) == condition_views(b.conditions@)
        },
        a@.provider_key == a.provider_key@,
        a@.actor_key == a.actor_key@,
        a@.link_name == a.link_name@,
{
}

/// The same is known of two providers where all of its parts are the same.
pub proof fn provider_statuses_are_told_apart(a: ProviderStatus, b: ProviderStatus)
    ensures
        a@ == b@ <==> {
            &&& a.public_key@ == b.public_key@
            &&& a.contract_id@ == b.contract_id@
            &&& text_opt(a.descriptive_name) == text_opt(b.descriptive_name)
            &&& a.vendor@ == b.vendor@
            &&& a.reversion == b.reversion
            &&& text_opt(a.version) == text_opt(b.version)
            &&& a.claims@ == b.claims@
            &&& texts(a.architecture_targets@) == texts(b.architecture_targets@)
            &&& condition_views(a.conditions@) == condition_views(b.conditions@)
            &&& a.instance_id@ == b.instance_id@
        },
{
}

/// The status of a resource is known by all of its parts.
pub proof fn statuses_are_known_by_their_parts(
    actor: ActorStatus,
    provider: ProviderStatus,
    claims: Claims,
)
    ensures
        actor@.public_key == actor.public_key@,
        actor@.descriptive_name == text_opt(actor.descriptive_name),
        actor@.caps == texts_opt(actor.caps),
        actor@.capability_provider == texts_opt(actor.capability_provider),
        actor@.call_alias == text_opt(actor.call_alias),
        actor@.claims == actor.claims@,
        actor@.version == text_opt(actor.version),
        actor@.reversion == actor.reversion,
        actor@.conditions.len() == actor.conditions@.len(),
        actor@.replicas == actor.replicas,
        actor@.available_replicas == actor.available_replicas,
        provider@.public_key == provider.public_key@,
        provider@.contract_id == provider.contract_id@,
        provider@.descriptive_name == text_opt(provider.descriptive_name),
        provider@.vendor == provider.vendor@,
        provider@.reversion == provider.reversion,
        provider@.version == text_opt(provider.version),
        provider@.claims == provider.claims@,
        provider@.architecture_targets == texts(provider.architecture_targets@),
        provider@.conditions.len() == provider.conditions@.len(),
        provider@.instance_id == provider.instance_id@,
        claims@.issuer == claims.issuer@,
        claims@.subject == claims.subject@,
        claims@.issued_at == claims.issued_at,
        claims@.not_before == claims.not_before,
        claims@.expires == claims.expires,
{
}

} // verus!
