//! What is reported of hosts, actors and providers.

use vstd::prelude::*;
use vstd::string::*;

use crate::host::{Host, HostStats};
use crate::jwt::{Actor as ActorMetadata, CapabilityProvider, Claims};
use crate::text::sort_texts;
use crate::time::{time_of_claim, time_of_claim_opt};
use crate::v1alpha1::{
    ActorStatus, Claims as ClaimsStatus, HostActorStatus, HostProviderStatus, KasmCloudHostStatus,
    ProviderStatus,
};

verus! {

use crate::jwt::{ActorView, CapabilityProviderView, ClaimsView};
use crate::text::{lemma_sorted_once, sorted, texts};
use crate::time::{claimed_time, claimed_time_opt};
use crate::v1alpha1::{
    condition_views, ActorStatusView, ClaimsStatusView, ConditionView, ProviderStatusView,
};

/// What is reported of claims.
pub open spec fn reported_claims<M>(claims: ClaimsView<M>) -> ClaimsStatusView {
    ClaimsStatusView {
        issuer: claims.issuer,
        subject: claims.subject,
        issued_at: claimed_time(claims.issued_at),
        not_before: claimed_time_opt(claims.not_before),
        expires: claimed_time_opt(claims.expires),
    }
}

fn report_claims(
    issuer: &String,
    subject: &String,
    issued_at: u64,
    not_before: Option<u64>,
    expires: Option<u64>,
) -> (r: ClaimsStatus)
    ensures
        r@ == (ClaimsStatusView {
            issuer: issuer@,
            subject: subject@,
            issued_at: claimed_time(issued_at),
            not_before: claimed_time_opt(not_before),
            expires: claimed_time_opt(expires),
        }),
{
    ClaimsStatus {
        issuer: issuer.clone(),
        subject: subject.clone(),
        issued_at: time_of_claim(issued_at),
        not_before: time_of_claim_opt(not_before),
        expires: time_of_claim_opt(expires),
    }
}

/// What is reported of an actor. The capabilities of one that is a provider
/// stand under `caps`, those of any other under `capability_provider`. All the
/// replicas that are asked for count as available.
pub open spec fn reported_actor(claims: ClaimsView<ActorView>, replicas: i32) -> ActorStatusView {
    let blank = ActorStatusView {
        public_key: claims.subject,
        descriptive_name: None,
        caps: None,
        capability_provider: None,
        call_alias: None,
        claims: reported_claims(claims),
        version: None,
        reversion: None,
        conditions: Seq::empty(),
        replicas,
        available_replicas: replicas,
    };
    match claims.metadata {
        None => blank,
        Some(meta) => ActorStatusView {
            descriptive_name: meta.name,
            caps: if meta.provider {
                meta.caps
            } else {
                None
            },
            capability_provider: if meta.provider {
                None
            } else {
                meta.caps
            },
            call_alias: meta.call_alias,
            version: meta.ver,
            reversion: meta.rev,
            ..blank
        },
    }
}

/// What is reported of an actor.
pub fn report_actor(claims: Claims<ActorMetadata>, replicas: i32) -> (r: ActorStatus)
    ensures
        r@ == reported_actor(claims@, replicas),
{
    let reported = report_claims(
        &claims.issuer,
        &claims.subject,
        claims.issued_at,
        claims.not_before,
        claims.expires,
    );
    let mut status = ActorStatus {
        public_key: claims.subject,
        descriptive_name: None,
        caps: None,
        capability_provider: None,
        call_alias: None,
        claims: reported,
        version: None,
        reversion: None,
        conditions: Vec::new(),
        replicas,
        available_replicas: replicas,
    };
    assert(condition_views(status.conditions@) =~= Seq::<ConditionView>::empty());
    match claims.metadata {
        Some(meta) => {
            status.descriptive_name = meta.name;
            if meta.provider {
                status.caps = meta.caps;
            } else {
                status.capability_provider = meta.caps;
            }
            status.reversion = meta.rev;
            status.version = meta.ver;
            status.call_alias = meta.call_alias;
        },
        None => {},
    }
    status
}

/// The status to write after an actor was looked after: that of its claims
/// where it runs, unless it stands there already, and none where looking after
/// it went wrong.
pub fn actor_patch(
    claims: Option<Claims<ActorMetadata>>,
    replicas: i32,
    present: &Option<ActorStatus>,
) -> (r: Option<ActorStatus>)
    ensures
        match claims {
            None => r is None,
            Some(claims) => {
                let status = reported_actor(claims@, replicas);
                if present matches Some(s) && s@ == status {
                    r is None
                } else {
                    r matches Some(s) && s@ == status
                }
            },
        },
{
    let claims = match claims {
        Some(claims) => claims,
        None => {
            return None;
        },
    };
    let status = report_actor(claims, replicas);
    match present {
        Some(s) => {
            if s.same(&status) {
                return None;
            }
        },
        None => {},
    }
    Some(status)
}

/// Whether this is what is reported of a provider. The architectures are those
/// that the image is built for, in order.
pub open spec fn reports_provider(
    claims: ClaimsView<CapabilityProviderView>,
    status: ProviderStatusView,
) -> bool {
    let blank = ProviderStatusView {
        public_key: claims.subject,
        contract_id: Seq::empty(),
        descriptive_name: None,
        vendor: Seq::empty(),
        reversion: None,
        version: None,
        claims: reported_claims(claims),
        architecture_targets: Seq::empty(),
        conditions: Seq::empty(),
        instance_id: Seq::empty(),
    };
    match claims.metadata {
        None => status == blank,
        Some(meta) => {
            &&& status == ProviderStatusView {
                contract_id: meta.capid,
                descriptive_name: meta.name,
                vendor: meta.vendor,
                reversion: meta.rev,
                version: meta.ver,
                architecture_targets: status.architecture_targets,
                ..blank
            }
            &&& sorted(status.architecture_targets)
            &&& status.architecture_targets.to_multiset() == meta.targets.to_multiset()
        },
    }
}

/// What is reported of a provider.
pub fn report_provider(claims: Claims<CapabilityProvider>) -> (r: ProviderStatus)
    ensures
        reports_provider(claims@, r@),
{
    let reported = report_claims(
        &claims.issuer,
        &claims.subject,
        claims.issued_at,
        claims.not_before,
        claims.expires,
    );
    let mut status = ProviderStatus {
        public_key: claims.subject,
        contract_id: String::new(),
        descriptive_name: None,
        vendor: String::new(),
        reversion: None,
        version: None,
        claims: reported,
        architecture_targets: Vec::new(),
        conditions: Vec::new(),
        instance_id: String::new(),
    };
    assert(condition_views(status.conditions@) =~= Seq::<ConditionView>::empty());
    assert(texts(status.architecture_targets@) =~= Seq::<Seq<char>>::empty());
    match claims.metadata {
        Some(meta) => {
            status.descriptive_name = meta.name;
            status.reversion = meta.rev;
            status.version = meta.ver;
            status.vendor = meta.vendor;
            status.contract_id = meta.capid;
            status.architecture_targets = sort_texts(meta.targets);
        },
        None => {},
    }
    status
}

/// The status to write after a provider was looked after: that of its claims
/// where it runs, unless it stands there already, and none where looking after
/// it went wrong.
pub fn provider_patch(
    claims: Option<Claims<CapabilityProvider>>,
    present: &Option<ProviderStatus>,
) -> (r: Option<ProviderStatus>)
    ensures
        match claims {
            None => r is None,
            Some(claims) => match r {
                Some(status) => {
                    &&& reports_provider(claims@, status@)
                    &&& !(present matches Some(s) && s@ == status@)
                },
                None => present matches Some(s) && reports_provider(claims@, s@),
            },
        },
{
    let claims = match claims {
        Some(claims) => claims,
        None => {
            return None;
        },
    };
    let status = report_provider(claims);
    match present {
        Some(s) => {
            if s.same(&status) {
                return None;
            }
        },
        None => {},
    }
    Some(status)
}

/// The key of the provider to stop, as its status gives it. One that never got
/// a key never ran.
pub fn provider_to_stop(status: &Option<ProviderStatus>) -> (r: Option<String>)
    ensures
        match status {
            Some(s) => if s@.public_key.len() == 0 {
                r is None
            } else {
                r matches Some(key) && key@ == s@.public_key
            },
            None => r is None,
        },
{
    match status {
        Some(s) => {
            if s.public_key.as_str().is_empty() {
                None
            } else {
                Some(s.public_key.clone())
            }
        },
        None => None,
    }
}

/// What is reported of a host on a node of the cluster.
pub fn report_host(host: &Host, node_name: String) -> (r: KasmCloudHostStatus)
    requires
        host@.instance_total() <= usize::MAX,
    ensures
        r.kube_node_name == node_name,
        r.public_key@ == host@.host_key.public_key,
        r.cluster_public_key@ == host@.cluster_key.public_key,
        texts(r.cluster_issuers@) == host@.cluster_issuers,
        r.pre_instance@.len() == 0,
        r.instance@.len() == 0,
        r.providers.count == host@.providers.dom().len(),
        r.actors.count == host@.actors.dom().len(),
        r.actors.instance_count == host@.instance_total(),
{
    let stats: HostStats = host.stats();
    KasmCloudHostStatus {
        kube_node_name: node_name,
        public_key: host.host_key().public_key(),
        cluster_public_key: host.cluster_key().public_key(),
        cluster_issuers: host.cluster_issuers(),
        pre_instance: String::new(),
        instance: String::new(),
        providers: HostProviderStatus { count: stats.provider_count },
        actors: HostActorStatus {
            count: stats.actor_count,
            instance_count: stats.actor_instance_count,
        },
    }
}

/// What is reported of a provider does not depend on the order in which its
/// image lists the architectures: a status that was written once is not written
/// again.
pub proof fn provider_reports_settle(
    claims: ClaimsView<CapabilityProviderView>,
    again: ClaimsView<CapabilityProviderView>,
    first: ProviderStatusView,
    second: ProviderStatusView,
)
    requires
        reports_provider(claims, first),
        reports_provider(again, second),
        match (claims.metadata, again.metadata) {
            (Some(a), Some(b)) => {
                &&& a.targets.to_multiset() == b.targets.to_multiset()
                &&& again == ClaimsView {
                    metadata: Some(CapabilityProviderView { targets: b.targets, ..a }),
                    ..claims
                }
            },
            _ => again == claims,
        },
    ensures
        first == second,
{
    if claims.metadata is Some {
        lemma_sorted_once(first.architecture_targets, second.architecture_targets);
    }
}

/// What is reported of claims is what they say, with their times as dates.
pub proof fn claims_are_reported_as_they_are<M>(claims: ClaimsView<M>)
    ensures
        reported_claims(claims).issuer == claims.issuer,
        reported_claims(claims).subject == claims.subject,
        reported_claims(claims).issued_at == claimed_time(claims.issued_at),
        claims.not_before is None ==> reported_claims(claims).not_before is None,
        claims.not_before matches Some(t) ==> reported_claims(claims).not_before == Some(
            claimed_time(t),
        ),
        claims.expires is None ==> reported_claims(claims).expires is None,
        claims.expires matches Some(t) ==> reported_claims(claims).expires == Some(claimed_time(t)),
{
}

/// What is reported of an actor: its key and claims, the replicas that are asked
/// for, and what its metadata says of it, if there is any.
pub proof fn actors_are_reported_as_claimed(claims: ClaimsView<ActorView>, replicas: i32)
    ensures
        ({
            let status = reported_actor(claims, replicas);
            &&& status.public_key == claims.subject
            &&& status.claims == reported_claims(claims)
            &&& status.replicas == replicas
            &&& status.available_replicas == replicas
            &&& status.conditions.len() == 0
            &&& claims.metadata is None ==> status.descriptive_name is None && status.caps is None
                && status.capability_provider is None && status.call_alias is None
                && status.version is None && status.reversion is None
            &&& claims.metadata matches Some(meta) ==> {
                &&& status.descriptive_name == meta.name
                &&& status.call_alias == meta.call_alias
                &&& status.version == meta.ver
                &&& status.reversion == meta.rev
                &&& meta.provider ==> status.caps == meta.caps && status.capability_provider is None
                &&& !meta.provider ==> status.capability_provider == meta.caps && status.caps
                    is None
            }
        }),
{
}

/// What is reported of a provider: its key and claims, and what its metadata
/// says of it, if there is any; each architecture as often as its image lists
/// it, in the order of their bytes.
pub proof fn providers_are_reported_as_claimed(
    claims: ClaimsView<CapabilityProviderView>,
    status: ProviderStatusView,
    target: Seq<char>,
)
    requires
        reports_provider(claims, status),
    ensures
        status.public_key == claims.subject,
        status.claims == reported_claims(claims),
        status.conditions.len() == 0,
        status.instance_id.len() == 0,
        claims.metadata is None ==> status.contract_id.len() == 0 && status.vendor.len() == 0
            && status.descriptive_name is None && status.reversion is None && status.version is None
            && status.architecture_targets.len() == 0,
        claims.metadata matches Some(meta) ==> {
            &&& status.contract_id == meta.capid
            &&& status.vendor == meta.vendor
            &&& status.descriptive_name == meta.name
            &&& status.reversion == meta.rev
            &&& status.version == meta.ver
            &&& status.architecture_targets.len() == meta.targets.len()
            &&& status.architecture_targets.contains(target) <==> meta.targets.contains(target)
            &&& status.architecture_targets.to_multiset().count(target)
                == meta.targets.to_multiset().count(target)
            &&& sorted(status.architecture_targets)
        },
{
    if claims.metadata is Some {
        let targets = claims.metadata->0.targets;
        let told = status.architecture_targets;
        told.to_multiset_ensures();
        targets.to_multiset_ensures();
        assert(told.contains(target) <==> told.to_multiset().count(target) > 0);
        assert(targets.contains(target) <==> targets.to_multiset().count(target) > 0);
        assert(told.to_multiset().len() == targets.to_multiset().len());
    }
}

} // verus!
