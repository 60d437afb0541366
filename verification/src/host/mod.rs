//! The state of a host, and what each request does to it.

pub mod actors;
pub mod ids;
pub mod linkdefs;
pub mod providers;

use vstd::prelude::*;
use vstd::string::*;

use crate::actor::ActorGroup;
use crate::entity::{LinkDefinition, WasmCloudEntity};
use crate::keys::{Identity, KeyKind};
use crate::provider::Provider;
use crate::table::{Datum, Table};
use crate::text::{copy_text_opt, copy_texts, holds_text};
use crate::time::Duration;
use crate::wire::Level;

verus! {

use crate::actor::{ActorStateView, GroupView};
use crate::codec::{hex_upper, sha256};
use crate::entity::{actor_entity, EntityView, LinkDefinitionView};
use crate::handler::HandlerView;
use crate::keys::{seeded, IdentityView};
use crate::links::{filed, shows_links};
use crate::provider::ProviderView;
use crate::table::{
    lemma_enumerates_map, lemma_map_sum_remove, lemma_pair_sum, map_sum, pair_sum,
};
use crate::text::{text_opt, texts, texts_opt};
use vstd::utf8::encode_utf8;

/// How a NATS server is reached.
pub struct NatsConfig {
    pub url: String,
    /// How long an answer is waited for.
    pub timeout: Option<Duration>,
    /// The token to log in with. It goes with a key pair.
    pub jwt: Option<String>,
    /// The key pair to log in with. It goes with a token.
    pub key: Option<Identity>,
    /// Whether the connection has to be encrypted.
    pub tls: bool,
}

#[verifier::ext_equal]
pub ghost struct NatsConfigView {
    pub url: Seq<char>,
    pub timeout: Option<Duration>,
    pub jwt: Option<Seq<char>>,
    pub key: Option<IdentityView>,
    pub tls: bool,
}

/// The view of an optional identity.
pub open spec fn identity_opt(o: Option<Identity>) -> Option<IdentityView> {
    match o {
        Some(key) => Some(key@),
        None => None,
    }
}

pub fn copy_identity_opt(o: &Option<Identity>) -> (r: Option<Identity>)
    ensures
        identity_opt(r) == identity_opt(*o),
{
    match o {
        Some(key) => Some(key.duplicate()),
        None => None,
    }
}

impl View for NatsConfig {
    type V = NatsConfigView;

    open spec fn view(&self) -> NatsConfigView {
        NatsConfigView {
            url: self.url@,
            timeout: self.timeout,
            jwt: text_opt(self.jwt),
            key: identity_opt(self.key),
            tls: self.tls,
        }
    }
}

impl Datum for NatsConfig {
    fn duplicate(&self) -> (r: Self) {
        NatsConfig {
            url: self.url.clone(),
            timeout: self.timeout,
            jwt: copy_text_opt(&self.jwt),
            key: copy_identity_opt(&self.key),
            tls: self.tls,
        }
    }
}

/// How to log in to a NATS server.
pub enum NatsLogin {
    Anonymous,
    Signed { jwt: String, key: Identity },
}

/// What a host is started with.
pub struct HostConfig {
    /// Whether images may be loaded from files.
    pub allow_file_load: bool,
    /// The server for calls.
    pub rpc_config: NatsConfig,
    /// The server for providers.
    pub prov_rpc_config: NatsConfig,
    /// The lattice that the host belongs to.
    pub lattice_prefix: String,
    /// The domain of the object store.
    pub js_domain: Option<String>,
    /// The key pair that says who the host is.
    pub host_key: Option<Identity>,
    /// The key pair that calls are signed with.
    pub cluster_key: Option<Identity>,
    /// The public keys that calls may be signed with.
    pub cluster_issuers: Option<Vec<String>>,
    /// How much providers log.
    pub log_level: Option<Level>,
}

#[verifier::ext_equal]
pub ghost struct HostConfigView {
    pub allow_file_load: bool,
    pub rpc_config: NatsConfigView,
    pub prov_rpc_config: NatsConfigView,
    pub lattice_prefix: Seq<char>,
    pub js_domain: Option<Seq<char>>,
    pub host_key: Option<IdentityView>,
    pub cluster_key: Option<IdentityView>,
    pub cluster_issuers: Option<Seq<Seq<char>>>,
    pub log_level: Option<Level>,
}

impl View for HostConfig {
    type V = HostConfigView;

    open spec fn view(&self) -> HostConfigView {
        HostConfigView {
            allow_file_load: self.allow_file_load,
            rpc_config: self.rpc_config@,
            prov_rpc_config: self.prov_rpc_config@,
            lattice_prefix: self.lattice_prefix@,
            js_domain: text_opt(self.js_domain),
            host_key: identity_opt(self.host_key),
            cluster_key: identity_opt(self.cluster_key),
            cluster_issuers: texts_opt(self.cluster_issuers),
            log_level: self.log_level,
        }
    }
}

/// How much runs on a host.
#[derive(Clone, Copy, Debug, PartialEq, Eq, Structural)]
pub struct HostStats {
    pub provider_count: u64,
    pub actor_count: u64,
    pub actor_instance_count: u64,
}

/// Why a host does not do what it is asked.
#[derive(Clone, Copy, Debug, PartialEq, Eq, Structural)]
pub enum HostError {
    /// The key pair to sign calls with is of this kind, and not that of a
    /// cluster.
    ClusterKeyKind(KeyKind),
    /// The key pair of the host is of this kind, and not that of a server.
    HostKeyKind(KeyKind),
    /// A token without a key pair, or a key pair without a token.
    HalfLogin,
    /// The image of the actor makes no claims.
    ClaimsMissing,
    /// The image of the actor is now that of another actor.
    KeyChanged,
    /// The cluster key pair has no seed to hand to a provider.
    ClusterSeedMissing,
    /// The key pair for providers has no seed to hand to one.
    ProviderSeedMissing,
    /// The time to wait is too long.
    RpcTimeout,
    /// What a provider is told is too long.
    ProviderData,
    /// There is no such link.
    LinkNotFound,
    /// The link could not be encoded.
    EncodeLink,
}

impl HostError {
    /// What is reported.
    pub open spec fn text(self) -> Seq<char> {
        match self {
            HostError::ClusterKeyKind(kind) => {
                "Condition failed: `cluster_key.key_pair_type() == KeyPairType::Cluster` ("@
                    + kind.text() + " vs Cluster)"@
            },
            HostError::HostKeyKind(kind) => {
                "Condition failed: `host_key.key_pair_type() == KeyPairType::Server` ("@
                    + kind.text() + " vs Server)"@
            },
            HostError::HalfLogin => "cannot authenticate if only one of jwt or seed is specified"@,
            HostError::ClaimsMissing => "claims missing"@,
            HostError::KeyChanged => "actor public key is change"@,
            HostError::ClusterSeedMissing => "cluster key seed missing"@,
            HostError::ProviderSeedMissing => "private key missing for provider RPC key"@,
            HostError::RpcTimeout => "failed to convert rpc_timeout to u64"@,
            HostError::ProviderData => "failed to serialize provider data"@,
            HostError::LinkNotFound => "attempt to remove a non-exitent link"@,
            HostError::EncodeLink => "failed to encode link definition"@,
        }
    }

    /// What is reported.
    pub fn message(&self) -> (r: String)
        ensures
            r@ == self.text(),
    {
        let text: &str = match self {
            HostError::ClusterKeyKind(kind) => {
                let mut text =
                    "Condition failed: `cluster_key.key_pair_type() == KeyPairType::Cluster` (".to_owned();
                text.append(kind.name().as_str());
                text.append(" vs Cluster)");
                return text;
            },
            HostError::HostKeyKind(kind) => {
                let mut text =
                    "Condition failed: `host_key.key_pair_type() == KeyPairType::Server` (".to_owned();
                text.append(kind.name().as_str());
                text.append(" vs Server)");
                return text;
            },
            HostError::HalfLogin => "cannot authenticate if only one of jwt or seed is specified",
            HostError::ClaimsMissing => "claims missing",
            HostError::KeyChanged => "actor public key is change",
            HostError::ClusterSeedMissing => "cluster key seed missing",
            HostError::ProviderSeedMissing => "private key missing for provider RPC key",
            HostError::RpcTimeout => "failed to convert rpc_timeout to u64",
            HostError::ProviderData => "failed to serialize provider data",
            HostError::LinkNotFound => "attempt to remove a non-exitent link",
            HostError::EncodeLink => "failed to encode link definition",
        };
        text.to_owned()
    }
}

impl NatsConfig {
    /// How to log in: with a token and a key pair, or with neither.
    pub fn login(&self) -> (r: Result<NatsLogin, HostError>)
        ensures
            match (self@.jwt, self@.key) {
                (Some(jwt), Some(key)) => r matches Ok(NatsLogin::Signed { jwt: j, key: k }) && j@
                    == jwt && k@ == key,
                (None, None) => r matches Ok(NatsLogin::Anonymous),
                _ => r matches Err(e) && e == HostError::HalfLogin,
            },
    {
        match (&self.jwt, &self.key) {
            (Some(jwt), Some(key)) => Ok(
                NatsLogin::Signed { jwt: jwt.clone(), key: key.duplicate() },
            ),
            (None, None) => Ok(NatsLogin::Anonymous),
            _ => Err(HostError::HalfLogin),
        }
    }
}

/// A host: who it is, what it was started with, and what runs on it.
pub struct Host {
    name: String,
    host_key: Identity,
    lattice_prefix: String,
    cluster_key: Identity,
    cluster_issuers: Vec<String>,
    config: HostConfig,
    links: Table<String, LinkDefinition>,
    actor_keys: Table<String, String>,
    actors: Table<String, ActorGroup>,
    providers: Table<String, Provider>,
    aliases: Table<String, WasmCloudEntity>,
}

/// What is known of a host. `links` are filed by their digest, `actor_keys`
/// gives the public key of the image of each named actor, `actors` and
/// `providers` are filed by public key.
#[verifier::ext_equal]
pub ghost struct HostView {
    pub name: Seq<char>,
    pub host_key: IdentityView,
    pub lattice_prefix: Seq<char>,
    pub cluster_key: IdentityView,
    pub cluster_issuers: Seq<Seq<char>>,
    pub config: HostConfigView,
    pub links: Map<Seq<char>, LinkDefinitionView>,
    pub actor_keys: Map<Seq<char>, Seq<char>>,
    pub actors: Map<Seq<char>, GroupView>,
    pub providers: Map<Seq<char>, ProviderView>,
    pub aliases: Map<Seq<char>, EntityView>,
}

impl View for Host {
    type V = HostView;

    closed spec fn view(&self) -> HostView {
        HostView {
            name: self.name@,
            host_key: self.host_key@,
            lattice_prefix: self.lattice_prefix@,
            cluster_key: self.cluster_key@,
            cluster_issuers: texts(self.cluster_issuers@),
            config: self.config@,
            links: self.links@,
            actor_keys: self.actor_keys@,
            actors: self.actors@,
            providers: self.providers@,
            aliases: self.aliases@,
        }
    }
}

/// The instances of the actors of a group.
pub open spec fn group_instances(g: GroupView) -> nat {
    map_sum(g.actors.map_values(|a: ActorStateView| a.instances.len()))
}

impl HostView {
    /// Whether the calls of a handler are those of an actor of the host: they
    /// come from its public key, are signed with the host's cluster key pair,
    /// name the host and go over its lattice.
    pub open spec fn speaks(self, public_key: Seq<char>, handler: HandlerView) -> bool {
        &&& handler.origin == actor_entity(public_key)
        &&& handler.claims.subject == public_key
        &&& handler.cluster_key == self.cluster_key
        &&& handler.host_key == self.host_key
        &&& handler.lattice_prefix == self.lattice_prefix
    }

    /// What holds of a host at all times: every link is filed by its digest;
    /// every group of actors is filed by its public key and sees exactly the
    /// links of that key; every actor is in the group of the public key that
    /// its name stands for, and speaks for the host from that key; every
    /// provider is filed by its public key; no actor has an alias; the key
    /// pairs are of their kinds, and the host trusts its own cluster.
    pub open spec fn consistent(self) -> bool {
        &&& filed(self.links)
        &&& forall|k: Seq<char>| #[trigger]
            self.actors.contains_key(k) ==> self.actors[k].public_key == k && shows_links(
                self.actors[k].links,
                self.links,
                k,
            )
        &&& forall|k: Seq<char>, n: Seq<char>|
            self.actors.contains_key(k) && #[trigger] self.actors[k].actors.contains_key(n)
                ==> self.actor_keys.contains_key(n) && self.actor_keys[n] == k
                && self.speaks(k, self.actors[k].actors[n].handler)
        &&& forall|k: Seq<char>| #[trigger]
            self.providers.contains_key(k) ==> self.providers[k].claims.subject == k
        &&& self.aliases == Map::<Seq<char>, EntityView>::empty()
        &&& self.cluster_key.kind == KeyKind::Cluster
        &&& self.host_key.kind == KeyKind::Server
        &&& self.cluster_issuers.contains(self.cluster_key.public_key)
        &&& self.lattice_prefix == self.config.lattice_prefix
    }

    /// The instances of all actors.
    pub open spec fn instance_total(self) -> nat {
        map_sum(self.actors.map_values(|g: GroupView| group_instances(g)))
    }

    /// The public keys that calls may be signed with: those that are set, and
    /// the cluster's own, at the end where it is not among them.
    pub open spec fn issuers(config: HostConfigView, cluster_key: Seq<char>) -> Seq<Seq<char>> {
        let given = match config.cluster_issuers {
            Some(issuers) => issuers,
            None => Seq::empty(),
        };
        if given.contains(cluster_key) {
            given
        } else {
            given.push(cluster_key)
        }
    }

    /// A host on which nothing runs yet.
    pub open spec fn started(
        name: Seq<char>,
        config: HostConfigView,
        cluster_key: IdentityView,
        host_key: IdentityView,
    ) -> HostView {
        HostView {
            name,
            host_key,
            lattice_prefix: config.lattice_prefix,
            cluster_key,
            cluster_issuers: Self::issuers(config, cluster_key.public_key),
            config,
            links: Map::empty(),
            actor_keys: Map::empty(),
            actors: Map::empty(),
            providers: Map::empty(),
            aliases: Map::empty(),
        }
    }
}

/// A key pair of a kind that was made by chance.
pub open spec fn fresh_key(key: IdentityView, kind: KeyKind) -> bool {
    &&& key.kind == kind
    &&& key.public_key.len() == 56
    &&& key.seed matches Some(seed) && (seeded(seed) is Some ==> seeded(seed) == Some(key))
}

impl Host {
    /// A host with given key pairs, those of a cluster and of a server.
    pub fn with_keys(
        name: String,
        config: HostConfig,
        cluster_key: Identity,
        host_key: Identity,
    ) -> (r: Host)
        requires
            cluster_key@.kind == KeyKind::Cluster,
            host_key@.kind == KeyKind::Server,
        ensures
            r@ == HostView::started(name@, config@, cluster_key@, host_key@),
            r@.consistent(),
    {
        let mut cluster_issuers: Vec<String> = match &config.cluster_issuers {
            Some(issuers) => copy_texts(issuers),
            None => Vec::new(),
        };
        let key = cluster_key.public_key();
        let ghost given = texts(cluster_issuers@);
        proof {
            if config.cluster_issuers is None {
                assert(given =~= Seq::<Seq<char>>::empty());
            }
        }
        if !holds_text(&cluster_issuers, &key) {
            cluster_issuers.push(key);
            assert(texts(cluster_issuers@) =~= given.push(cluster_key@.public_key));
        }
        let lattice_prefix = config.lattice_prefix.clone();
        proof {
            hosts_trust_their_cluster(config@, cluster_key@.public_key);
        }
        Host {
            name,
            host_key,
            lattice_prefix,
            cluster_key,
            cluster_issuers,
            config,
            links: Table::new(),
            actor_keys: Table::new(),
            actors: Table::new(),
            providers: Table::new(),
            aliases: Table::new(),
        }
    }

    /// A host as it is configured. Key pairs that are not set are made up; those
    /// that are set have to be of the right kind, the cluster's being looked at
    /// first.
    pub fn new(name: String, config: HostConfig) -> (r: Result<Host, HostError>)
        ensures
            match r {
                Ok(host) => {
                    &&& host@ == HostView::started(
                        name@,
                        config@,
                        host@.cluster_key,
                        host@.host_key,
                    )
                    &&& host@.consistent()
                    &&& match config@.cluster_key {
                        Some(key) => key.kind == KeyKind::Cluster && host@.cluster_key == key,
                        None => fresh_key(host@.cluster_key, KeyKind::Cluster),
                    }
                    &&& match config@.host_key {
                        Some(key) => key.kind == KeyKind::Server && host@.host_key == key,
                        None => fresh_key(host@.host_key, KeyKind::Server),
                    }
                },
                Err(e) => if config@.cluster_key matches Some(key) && key.kind != KeyKind::Cluster {
                    e == HostError::ClusterKeyKind(config@.cluster_key->0.kind)
                } else {
                    (config@.host_key matches Some(key) && key.kind != KeyKind::Server) && e
                        == HostError::HostKeyKind(config@.host_key->0.kind)
                },
            },
    {
        let cluster_key = match &config.cluster_key {
            Some(key) => {
                if key.kind() != KeyKind::Cluster {
                    return Err(HostError::ClusterKeyKind(key.kind()));
                }
                key.duplicate()
            },
            None => Identity::generate(KeyKind::Cluster),
        };
        let host_key = match &config.host_key {
            Some(key) => {
                if key.kind() != KeyKind::Server {
                    return Err(HostError::HostKeyKind(key.kind()));
                }
                key.duplicate()
            },
            None => Identity::generate(KeyKind::Server),
        };
        Ok(Host::with_keys(name, config, cluster_key, host_key))
    }

    pub fn name(&self) -> (r: String)
        ensures
            r@ == self@.name,
    {
        self.name.clone()
    }

    pub fn host_key(&self) -> (r: &Identity)
        ensures
            r@ == self@.host_key,
    {
        &self.host_key
    }

    pub fn cluster_key(&self) -> (r: &Identity)
        ensures
            r@ == self@.cluster_key,
    {
        &self.cluster_key
    }

    pub fn cluster_issuers(&self) -> (r: Vec<String>)
        ensures
            texts(r@) == self@.cluster_issuers,
    {
        copy_texts(&self.cluster_issuers)
    }

    pub fn lattice_prefix(&self) -> (r: String)
        ensures
            r@ == self@.lattice_prefix,
    {
        self.lattice_prefix.clone()
    }

    pub fn config(&self) -> (r: &HostConfig)
        ensures
            r@ == self@.config,
    {
        &self.config
    }

    /// The group of actors of a public key.
    pub fn group(&self, public_key: &String) -> (r: Option<&ActorGroup>)
        ensures
            match r {
                Some(group) => self@.actors.contains_key(public_key@) && group@
                    == self@.actors[public_key@],
                None => !self@.actors.contains_key(public_key@),
            },
    {
        self.actors.get(public_key)
    }

    /// The provider of a public key.
    pub fn provider(&self, public_key: &String) -> (r: Option<&Provider>)
        ensures
            match r {
                Some(provider) => self@.providers.contains_key(public_key@) && provider@
                    == self@.providers[public_key@],
                None => !self@.providers.contains_key(public_key@),
            },
    {
        self.providers.get(public_key)
    }

    /// The names that actors go by.
    pub fn aliases(&self) -> (r: &Table<String, WasmCloudEntity>)
        ensures
            r@ == self@.aliases,
    {
        &self.aliases
    }

    /// How much runs on the host.
    pub fn stats(&self) -> (r: HostStats)
        requires
            self@.instance_total() <= usize::MAX,
        ensures
            r.actor_count == self@.actors.dom().len(),
            r.provider_count == self@.providers.dom().len(),
            r.actor_instance_count == self@.instance_total(),
    {
        let actor_count: usize = self.actors.len();
        let provider_count: usize = self.providers.len();
        let ghost f = |g: GroupView| group_instances(g);
        let ghost pairs = self.actors.pairs();
        let ghost sizes: Seq<(Seq<char>, nat)> = Seq::new(
            pairs.len(),
            |i: int| (pairs[i].0, f(pairs[i].1)),
        );
        proof {
            lemma_enumerates_map(pairs, self.actors@, f);
            lemma_pair_sum(sizes, self.actors@.map_values(f));
        }
        let mut total: usize = 0;
        let mut i: usize = 0;
        assert(pair_sum(sizes.subrange(0, 0)) == 0);
        while i < actor_count
            invariant
                i <= actor_count == self.actors.pairs().len(),
                pairs == self.actors.pairs(),
                f == (|g: GroupView| group_instances(g)),
                sizes == Seq::new(pairs.len(), |i: int| (pairs[i].0, f(pairs[i].1))),
                total == pair_sum(sizes.subrange(0, i as int)),
                pair_sum(sizes) <= usize::MAX,
            decreases actor_count - i,
        {
            let group = self.actors.value_at(i);
            proof {
                let more = sizes.subrange(0, i + 1);
                assert(more.drop_last() =~= sizes.subrange(0, i as int));
                assert(more.last() == sizes[i as int]);
                lemma_pair_sum_prefix(sizes, i + 1);
            }
            total = total + count_group(group, usize::MAX - total);
            i = i + 1;
        }
        assert(sizes.subrange(0, actor_count as int) =~= sizes);
        HostStats {
            provider_count: provider_count as u64,
            actor_count: actor_count as u64,
            actor_instance_count: total as u64,
        }
    }
}

/// A host trusts its own cluster, whatever else is set.
pub proof fn hosts_trust_their_cluster(config: HostConfigView, cluster_key: Seq<char>)
    ensures
        HostView::issuers(config, cluster_key).contains(cluster_key),
{
    let issuers = HostView::issuers(config, cluster_key);
    if issuers.last() == cluster_key {
        assert(issuers[issuers.len() - 1] == cluster_key);
    }
}

proof fn lemma_pair_sum_prefix<A>(pairs: Seq<(A, nat)>, n: int)
    requires
        0 <= n <= pairs.len(),
    ensures
        pair_sum(pairs.subrange(0, n)) <= pair_sum(pairs),
    decreases pairs.len(),
{
    if n == pairs.len() {
        assert(pairs.subrange(0, n) =~= pairs);
    } else {
        lemma_pair_sum_prefix(pairs.drop_last(), n);
        assert(pairs.drop_last().subrange(0, n) =~= pairs.subrange(0, n));
    }
}

/// The instances of the actors of a group, which are no more than `limit`.
fn count_group(group: &ActorGroup, limit: usize) -> (r: usize)
    requires
        group_instances(group@) <= limit,
    ensures
        r == group_instances(group@),
{
    let n: usize = group.actors.len();
    let ghost f = |a: ActorStateView| a.instances.len();
    let ghost pairs = group.actors.pairs();
    let ghost sizes: Seq<(Seq<char>, nat)> = Seq::new(
        pairs.len(),
        |i: int| (pairs[i].0, f(pairs[i].1)),
    );
    proof {
        lemma_enumerates_map(pairs, group.actors@, f);
        lemma_pair_sum(sizes, group.actors@.map_values(f));
    }
    let mut total: usize = 0;
    let mut i: usize = 0;
    assert(pair_sum(sizes.subrange(0, 0)) == 0);
    while i < n
        invariant
            i <= n == group.actors.pairs().len(),
            pairs == group.actors.pairs(),
            f == (|a: ActorStateView| a.instances.len()),
            sizes == Seq::new(pairs.len(), |i: int| (pairs[i].0, f(pairs[i].1))),
            total == pair_sum(sizes.subrange(0, i as int)),
            pair_sum(sizes) <= limit,
        decreases n - i,
    {
        let actor = group.actors.value_at(i);
        proof {
            let more = sizes.subrange(0, i + 1);
            assert(more.drop_last() =~= sizes.subrange(0, i as int));
            assert(more.last() == sizes[i as int]);
            lemma_pair_sum_prefix(sizes, i + 1);
        }
        total = total + actor.instances.len();
        i = i + 1;
    }
    assert(sizes.subrange(0, n as int) =~= sizes);
    total
}

/// A host trusts every issuer that is set, in their order, and no other but its
/// own cluster.
pub proof fn hosts_trust_whom_they_are_told(
    config: HostConfigView,
    cluster_key: Seq<char>,
    issuer: Seq<char>,
)
    ensures
        HostView::issuers(config, cluster_key).contains(issuer) <==> issuer == cluster_key || (
        config.cluster_issuers is Some && config.cluster_issuers->0.contains(issuer)),
        config.cluster_issuers is Some ==> forall|i: int|
            0 <= i < config.cluster_issuers->0.len() ==> #[trigger] config.cluster_issuers->0[i]
                == HostView::issuers(config, cluster_key)[i],
        HostView::issuers(config, cluster_key).len() <= 1 + (if config.cluster_issuers is Some {
            config.cluster_issuers->0.len()
        } else {
            0
        }),
{
    let given = match config.cluster_issuers {
        Some(issuers) => issuers,
        None => Seq::empty(),
    };
    let all = HostView::issuers(config, cluster_key);
    hosts_trust_their_cluster(config, cluster_key);
    if given.contains(issuer) {
        let i = given.index_of(issuer);
        assert(all[i] == issuer);
    }
    if all.contains(issuer) {
        let i = all.index_of(issuer);
        if i < given.len() {
            assert(given[i] == issuer);
        }
    }
}

/// A host starts with nothing running and no links, under its name and on the
/// lattice that is configured, with the key pairs that it is given.
pub proof fn hosts_start_empty(
    name: Seq<char>,
    config: HostConfigView,
    cluster_key: IdentityView,
    host_key: IdentityView,
    text: Seq<char>,
)
    ensures
        ({
            let host = HostView::started(name, config, cluster_key, host_key);
            &&& host.name == name
            &&& host.cluster_key == cluster_key
            &&& host.host_key == host_key
            &&& host.config == config
            &&& host.lattice_prefix == config.lattice_prefix
            &&& host.cluster_issuers == HostView::issuers(config, cluster_key.public_key)
            &&& !host.links.contains_key(text)
            &&& !host.actor_keys.contains_key(text)
            &&& !host.actors.contains_key(text)
            &&& !host.providers.contains_key(text)
            &&& !host.aliases.contains_key(text)
        }),
{
}

/// The instances of a host are those of each of its groups together, and those
/// of a group are those of each of its actors together: any one of them can be
/// counted apart from the rest.
pub proof fn instances_are_counted_once(
    host: HostView,
    public_key: Seq<char>,
    group: GroupView,
    name: Seq<char>,
)
    requires
        host.actors.dom().finite(),
        group.actors.dom().finite(),
    ensures
        host.actors.contains_key(public_key) ==> host.instance_total() == group_instances(
            host.actors[public_key],
        ) + (HostView { actors: host.actors.remove(public_key), ..host }).instance_total(),
        group.actors.contains_key(name) ==> group_instances(group)
            == group.actors[name].instances.len() + group_instances(
            GroupView { actors: group.actors.remove(name), ..group },
        ),
        host.actors.dom().len() == 0 ==> host.instance_total() == 0,
        group.actors.dom().len() == 0 ==> group_instances(group) == 0,
{
    let f = |g: GroupView| group_instances(g);
    let a = |s: ActorStateView| s.instances.len();
    let groups = host.actors.map_values(f);
    let actors = group.actors.map_values(a);
    assert(groups.dom() =~= host.actors.dom());
    assert(actors.dom() =~= group.actors.dom());
    if host.actors.contains_key(public_key) {
        lemma_map_sum_remove(groups, public_key);
        assert(groups.remove(public_key) =~= host.actors.remove(public_key).map_values(f));
    }
    if group.actors.contains_key(name) {
        lemma_map_sum_remove(actors, name);
        assert(actors.remove(name) =~= group.actors.remove(name).map_values(a));
    }
}

/// What is reported of each failure.
pub proof fn failed_requests_are_told(kind: KeyKind)
    ensures
        HostError::ClusterKeyKind(kind).text()
            == "Condition failed: `cluster_key.key_pair_type() == KeyPairType::Cluster` ("@
            + kind.text() + " vs Cluster)"@,
        HostError::HostKeyKind(kind).text()
            == "Condition failed: `host_key.key_pair_type() == KeyPairType::Server` ("@
            + kind.text() + " vs Server)"@,
        HostError::HalfLogin.text()
            == "cannot authenticate if only one of jwt or seed is specified"@,
        HostError::ClaimsMissing.text() == "claims missing"@,
        HostError::KeyChanged.text() == "actor public key is change"@,
        HostError::ClusterSeedMissing.text() == "cluster key seed missing"@,
        HostError::ProviderSeedMissing.text() == "private key missing for provider RPC key"@,
        HostError::RpcTimeout.text() == "failed to convert rpc_timeout to u64"@,
        HostError::ProviderData.text() == "failed to serialize provider data"@,
        HostError::LinkNotFound.text() == "attempt to remove a non-exitent link"@,
        HostError::EncodeLink.text() == "failed to encode link definition"@,
{
}

/// What a host is started with is known by all of its parts.
pub proof fn settings_are_known_by_their_parts(nats: NatsConfig, config: HostConfig)
    ensures
        nats@.url == nats.url@,
        nats@.timeout == nats.timeout,
        nats@.jwt == text_opt(nats.jwt),
        nats.key is None ==> nats@.key is None,
        nats.key matches Some(key) ==> nats@.key == Some(key@),
        nats@.tls == nats.tls,
        config@.allow_file_load == config.allow_file_load,
        config@.rpc_config == config.rpc_config@,
        config@.prov_rpc_config == config.prov_rpc_config@,
        config@.lattice_prefix == config.lattice_prefix@,
        config@.js_domain == text_opt(config.js_domain),
        config.host_key is None ==> config@.host_key is None,
        config.host_key matches Some(key) ==> config@.host_key == Some(key@),
        config.cluster_key is None ==> config@.cluster_key is None,
        config.cluster_key matches Some(key) ==> config@.cluster_key == Some(key@),
        config@.cluster_issuers == texts_opt(config.cluster_issuers),
        config@.log_level == config.log_level,
{
}

/// A key pair that was made up is of the kind that was asked for and can sign;
/// where its seed can be read back, it stands for the same pair.
pub proof fn made_up_keys_can_sign(key: IdentityView, kind: KeyKind)
    requires
        fresh_key(key, kind),
    ensures
        key.kind == kind,
        key.public_key.len() == 56,
        key.seed is Some,
        seeded(key.seed->0) is Some ==> seeded(key.seed->0) == Some(key),
{
}

/// What holds of a host at all times, part by part.
pub proof fn hosts_stay_consistent(host: HostView, key: Seq<char>, name: Seq<char>, id: Seq<char>)
    requires
        host.consistent(),
    ensures
        host.links.contains_key(id) ==> id == hex_upper(
            sha256(
                encode_utf8(host.links[id].actor_id) + encode_utf8(host.links[id].contract_id)
                    + encode_utf8(host.links[id].link_name),
            ),
        ),
        host.actors.contains_key(key) ==> host.actors[key].public_key == key,
        host.actors.contains_key(key) && host.actors[key].actors.contains_key(name) ==> {
            &&& host.actor_keys.contains_key(name)
            &&& host.actor_keys[name] == key
            &&& host.actors[key].actors[name].handler.origin.public_key == key
            &&& host.actors[key].actors[name].handler.claims.subject == key
            &&& host.actors[key].actors[name].handler.cluster_key == host.cluster_key
            &&& host.actors[key].actors[name].handler.host_key == host.host_key
            &&& host.actors[key].actors[name].handler.lattice_prefix == host.lattice_prefix
        },
        host.providers.contains_key(key) ==> host.providers[key].claims.subject == key,
        !host.aliases.contains_key(name),
        host.cluster_key.kind == KeyKind::Cluster,
        host.host_key.kind == KeyKind::Server,
        host.cluster_issuers.contains(host.cluster_key.public_key),
        host.lattice_prefix == host.config.lattice_prefix,
{
}

} // verus!
