//! Starting and stopping providers.

use vstd::prelude::*;
use vstd::string::*;

use crate::codec::{encode_base64, encode_json_member, uuid_text};
use crate::host::{Host, HostConfig, HostError};
use crate::jwt::{CapabilityProvider, Claims};
use crate::provider::{Provider, ProviderInstance};
use crate::table::{Datum, Table};
use crate::text::copy_texts;
use crate::time::Duration;
use crate::wire::{encode_host_data, flatten, FlatLink, HostData};

verus! {

use crate::codec::{base64, json_member, uuid_form};
use crate::entity::LinkDefinitionView;
use crate::host::ids::lemma_uses;
use crate::host::{HostConfigView, HostView};
use crate::jwt::{CapabilityProviderView, ClaimsView};
use crate::provider::ProviderView;
use crate::table::enumerates;
use crate::wire::{host_data_json, same_link, FlatLinkView, HostDataView};
use vstd::utf8::encode_utf8;

/// What to start a provider with.
#[derive(Debug)]
pub struct Launch {
    pub instance: ProviderInstance,
    /// What is written to the standard input of the process, before it is
    /// closed.
    pub stdin: Vec<u8>,
}

/// What is left to do for a provider.
#[derive(Debug)]
pub enum ProviderPlan {
    /// It runs under the link name.
    Running,
    /// It has to be started.
    Spawn(Launch),
}

/// What to send to a provider that is stopped, and how long to wait for its
/// answer. The process is ended whatever the answer is.
#[derive(Debug)]
pub struct Shutdown {
    pub instance: ProviderInstance,
    pub topic: String,
    pub payload: Vec<u8>,
    pub timeout: Duration,
}

/// The views of links.
pub open spec fn flat_views(v: Seq<FlatLink>) -> Seq<FlatLinkView> {
    Seq::new(v.len(), |i: int| v[i]@)
}

/// Whether a link is one of a provider under a link name.
pub open spec fn serves(ld: LinkDefinitionView, provider_id: Seq<char>, link_name: Seq<char>) -> bool {
    ld.provider_id == provider_id && ld.link_name == link_name
}

/// A list names every link of a provider under a link name once, and no other.
/// `ids` are the places of the links in the table.
pub open spec fn lists_links(
    list: Seq<FlatLinkView>,
    ids: Seq<Seq<char>>,
    links: Map<Seq<char>, LinkDefinitionView>,
    provider_id: Seq<char>,
    link_name: Seq<char>,
) -> bool {
    &&& list.len() == ids.len()
    &&& ids.no_duplicates()
    &&& forall|i: int|
        0 <= i < ids.len() ==> links.contains_key(#[trigger] ids[i]) && serves(
            links[ids[i]],
            provider_id,
            link_name,
        ) && same_link(list[i], links[ids[i]])
    &&& forall|id: Seq<char>| #[trigger]
        links.contains_key(id) && serves(links[id], provider_id, link_name) ==> ids.contains(id)
}

impl HostConfigView {
    /// How long providers wait for answers, in milliseconds. Zero where nothing
    /// is set.
    pub open spec fn rpc_millis(self) -> int {
        match self.rpc_config.timeout {
            Some(timeout) => timeout.millis(),
            None => 0,
        }
    }

    /// The token that providers log in with. None is an empty text.
    pub open spec fn provider_jwt(self) -> Seq<char> {
        match self.prov_rpc_config.jwt {
            Some(jwt) => jwt,
            None => Seq::empty(),
        }
    }

    /// The seed that providers log in with. None is an empty text.
    pub open spec fn provider_seed(self) -> Seq<char> {
        match self.prov_rpc_config.key {
            Some(key) => match key.seed {
                Some(seed) => seed,
                None => Seq::empty(),
            },
            None => Seq::empty(),
        }
    }

    /// The key pair that providers log in with cannot be handed on.
    pub open spec fn provider_seed_missing(self) -> bool {
        self.prov_rpc_config.key matches Some(key) && key.seed is None
    }
}

impl HostView {
    /// What a provider is told when it is started: nothing of an environment,
    /// of a configuration or of traces, and not to log in a structured way.
    pub open spec fn told(
        self,
        provider_key: Seq<char>,
        link_name: Seq<char>,
        id: u128,
        links: Seq<FlatLinkView>,
    ) -> HostDataView {
        HostDataView {
            host_id: self.host_key.public_key,
            lattice_rpc_prefix: self.config.lattice_prefix,
            link_name,
            lattice_rpc_user_jwt: self.config.provider_jwt(),
            lattice_rpc_user_seed: self.config.provider_seed(),
            lattice_rpc_url: self.config.prov_rpc_config.url,
            provider_key,
            invocation_seed: self.cluster_key.seed->0,
            env_values: Seq::empty(),
            instance_id: uuid_form(id),
            link_definitions: links,
            cluster_issuers: self.cluster_issuers,
            config_json: None,
            default_rpc_timeout_ms: Some(self.config.rpc_millis() as u64),
            structured_logging: false,
            log_level: self.config.log_level,
            traces_exporter: None,
            exporter_otlp_endpoint: None,
        }
    }

    /// The host once it knows a provider. One that it knows keeps its claims
    /// and its image.
    pub open spec fn with_provider(
        self,
        claims: ClaimsView<CapabilityProviderView>,
        image_ref: Seq<char>,
    ) -> HostView {
        if self.providers.contains_key(claims.subject) {
            self
        } else {
            HostView {
                providers: self.providers.insert(
                    claims.subject,
                    ProviderView { claims, instances: Map::empty(), image_ref },
                ),
                ..self
            }
        }
    }

    /// Whether a provider runs under a link name.
    pub open spec fn provides(self, key: Seq<char>, link_name: Seq<char>) -> bool {
        self.providers.contains_key(key) && self.providers[key].instances.contains_key(link_name)
    }

    /// The host once a provider runs under a link name.
    pub open spec fn with_provider_instance(
        self,
        key: Seq<char>,
        link_name: Seq<char>,
        id: u128,
    ) -> HostView {
        let provider = self.providers[key];
        HostView {
            providers: self.providers.insert(
                key,
                ProviderView { instances: provider.instances.insert(link_name, id), ..provider },
            ),
            ..self
        }
    }

    /// The host once a provider no longer runs under a link name. A provider
    /// that runs under none is forgotten.
    pub open spec fn without_provider_instance(
        self,
        key: Seq<char>,
        link_name: Seq<char>,
    ) -> HostView {
        if !self.providers.contains_key(key) {
            self
        } else {
            let provider = self.providers[key];
            let left = provider.instances.remove(link_name);
            HostView {
                providers: if left == Map::<Seq<char>, u128>::empty() {
                    self.providers.remove(key)
                } else {
                    self.providers.insert(key, ProviderView { instances: left, ..provider })
                },
                ..self
            }
        }
    }
}

/// What is written to a provider: the text of what it is told, in base64, and
/// an end of line.
pub open spec fn provider_input(data: HostDataView) -> Seq<u8> {
    encode_utf8(base64(host_data_json(data))) + seq![13u8, 10u8]
}

/// The most bytes that can be put into base64 on this machine.
pub open spec fn base64_limit() -> int {
    usize::MAX as int / 4 * 3
}

/// What to send to a provider that is stopped, by topic and content.
pub open spec fn shutdown_topic(
    lattice_prefix: Seq<char>,
    key: Seq<char>,
    link_name: Seq<char>,
) -> Seq<char> {
    "wasmbus.rpc."@ + lattice_prefix + "."@ + key + "."@ + link_name + ".shutdown"@
}

fn seed_for_providers(config: &HostConfig) -> (r: Result<String, HostError>)
    ensures
        match r {
            Ok(seed) => !config@.provider_seed_missing() && seed@ == config@.provider_seed(),
            Err(e) => config@.provider_seed_missing() && e == HostError::ProviderSeedMissing,
        },
{
    match &config.prov_rpc_config.key {
        Some(key) => match key.seed() {
            Some(seed) => Ok(seed),
            None => Err(HostError::ProviderSeedMissing),
        },
        None => Ok(String::new()),
    }
}

fn millis_for_providers(config: &HostConfig) -> (r: Result<u64, HostError>)
    ensures
        match r {
            Ok(millis) => millis == config@.rpc_millis(),
            Err(e) => config@.rpc_millis() > u64::MAX && e == HostError::RpcTimeout,
        },
{
    let millis: u128 = match config.rpc_config.timeout {
        Some(timeout) => timeout.as_millis(),
        None => 0,
    };
    match u64::try_from(millis) {
        Ok(millis) => Ok(millis),
        Err(_) => Err(HostError::RpcTimeout),
    }
}

/// The bytes that are written to a provider, unless they are too many.
fn input_for_provider(data: HostData) -> (r: Result<Vec<u8>, HostError>)
    ensures
        match r {
            Ok(bytes) => bytes@ == provider_input(data@),
            Err(e) => host_data_json(data@).len() > base64_limit() && e == HostError::ProviderData,
        },
{
    let json = match encode_host_data(data) {
        Some(json) => json,
        None => {
            return Err(HostError::ProviderData);
        },
    };
    if json.len() > usize::MAX / 4 * 3 {
        return Err(HostError::ProviderData);
    }
    let text = encode_base64(json.as_slice());
    let mut bytes: Vec<u8> = Vec::new();
    bytes.extend_from_slice(text.as_str().as_bytes());
    bytes.push(13);
    bytes.push(10);
    assert(bytes@ =~= encode_utf8(text@) + seq![13u8, 10u8]);
    Ok(bytes)
}

impl Host {
    /// The links of a provider under a link name.
    pub fn provider_links(&self, provider_id: &String, link_name: &String) -> (r: Vec<FlatLink>)
        ensures
            exists|ids: Seq<Seq<char>>|
                lists_links(flat_views(r@), ids, self@.links, provider_id@, link_name@),
    {
        let n: usize = self.links.len();
        let mut list: Vec<FlatLink> = Vec::new();
        let ghost mut ids: Seq<Seq<char>> = Seq::empty();
        let ghost pairs = self.links.pairs();
        let mut i: usize = 0;
        while i < n
            invariant
                i <= n == self.links.pairs().len(),
                pairs == self.links.pairs(),
                enumerates(pairs, self.links@),
                list@.len() == ids.len(),
                ids.no_duplicates(),
                forall|j: int|
                    0 <= j < ids.len() ==> self.links@.contains_key(#[trigger] ids[j]) && serves(
                        self.links@[ids[j]],
                        provider_id@,
                        link_name@,
                    ) && same_link(list@[j]@, self.links@[ids[j]]),
                forall|j: int|
                    0 <= j < ids.len() ==> exists|p: int|
                        0 <= p < i && (#[trigger] pairs[p]).0 == #[trigger] ids[j],
                forall|p: int|
                    0 <= p < i && serves((#[trigger] pairs[p]).1, provider_id@, link_name@)
                        ==> ids.contains(pairs[p].0),
            decreases n - i,
        {
            let ld = self.links.value_at(i);
            let ghost id = pairs[i as int].0;
            let ghost before = ids;
            if ld.provider_id == *provider_id && ld.link_name == *link_name {
                list.push(flatten(ld));
                proof {
                    ids = ids.push(id);
                    assert forall|j: int| 0 <= j < before.len() implies before[j] != id by {
                        let p = choose|p: int|
                            0 <= p < i && (#[trigger] pairs[p]).0 == before[j];
                        assert(pairs[p].0 != pairs[i as int].0);
                    }
                    assert forall|j: int| 0 <= j < ids.len() implies exists|p: int|
                        0 <= p < i + 1 && (#[trigger] pairs[p]).0 == #[trigger] ids[j] by {
                        if j < before.len() {
                            let p = choose|p: int|
                                0 <= p < i && (#[trigger] pairs[p]).0 == before[j];
                            assert(pairs[p].0 == ids[j]);
                        } else {
                            assert(pairs[i as int].0 == ids[j]);
                        }
                    }
                    assert forall|p: int|
                        0 <= p < i + 1 && serves(
                            (#[trigger] pairs[p]).1,
                            provider_id@,
                            link_name@,
                        ) implies ids.contains(pairs[p].0) by {
                        if p < i {
                            let j = before.index_of(pairs[p].0);
                            assert(ids[j] == pairs[p].0);
                        } else {
                            assert(ids[before.len() as int] == id);
                        }
                    }
                }
            }
            i = i + 1;
        }
        proof {
            assert forall|id: Seq<char>| #[trigger]
                self.links@.contains_key(id) && serves(
                    self.links@[id],
                    provider_id@,
                    link_name@,
                ) implies ids.contains(id) by {
                let p = choose|p: int| 0 <= p < pairs.len() && (#[trigger] pairs[p]).0 == id;
                assert(pairs[p].1 == self.links@[id]);
            }
            assert(lists_links(flat_views(list@), ids, self@.links, provider_id@, link_name@));
        }
        list
    }

    /// Gets to know a provider, and tells what is left to do so that it runs
    /// under a link name. `claims` are those of the image that was fetched. The
    /// identifier of the process is one that is free.
    pub fn start_provider(
        &mut self,
        link_name: &String,
        provider_ref: &String,
        claims: &Claims<CapabilityProvider>,
    ) -> (r: Result<ProviderPlan, HostError>)
        requires
            old(self)@.consistent(),
        ensures
            final(self)@.consistent(),
            final(self)@ == old(self)@.with_provider(claims@, provider_ref@),
            ({
                let before = old(self)@;
                let key = claims@.subject;
                match r {
                    Ok(ProviderPlan::Running) => before.provides(key, link_name@),
                    Ok(ProviderPlan::Spawn(launch)) => {
                        &&& !before.provides(key, link_name@)
                        &&& before.cluster_key.seed is Some
                        &&& !before.config.provider_seed_missing()
                        &&& before.config.rpc_millis() <= u64::MAX
                        &&& !before.uses(launch.instance.id)
                        &&& exists|list: Seq<FlatLinkView>, ids: Seq<Seq<char>>|
                            {
                                &&& #[trigger] lists_links(
                                    list,
                                    ids,
                                    before.links,
                                    key,
                                    link_name@,
                                )
                                &&& launch.stdin@ == provider_input(
                                    before.told(key, link_name@, launch.instance.id, list),
                                )
                            }
                    },
                    Err(e) => {
                        &&& !before.provides(key, link_name@)
                        &&& e == if before.cluster_key.seed is None {
                            HostError::ClusterSeedMissing
                        } else if before.config.provider_seed_missing() {
                            HostError::ProviderSeedMissing
                        } else if before.config.rpc_millis() > u64::MAX {
                            HostError::RpcTimeout
                        } else {
                            HostError::ProviderData
                        }
                        &&& e == HostError::ProviderData ==> exists|
                            list: Seq<FlatLinkView>,
                            ids: Seq<Seq<char>>,
                            id: u128,
                        |
                            {
                                &&& #[trigger] lists_links(
                                    list,
                                    ids,
                                    before.links,
                                    key,
                                    link_name@,
                                )
                                &&& host_data_json(
                                    #[trigger] before.told(key, link_name@, id, list),
                                ).len() > base64_limit()
                            }
                    },
                }
            }),
    {
        let ghost before = self@;
        if !self.providers.contains_key(&claims.subject) {
            self.providers.insert(
                claims.subject.clone(),
                Provider {
                    claims: claims.duplicate(),
                    instances: Table::new(),
                    image_ref: provider_ref.clone(),
                },
            );
        }
        assert(self@ =~= before.with_provider(claims@, provider_ref@));
        match self.providers.get(&claims.subject) {
            Some(provider) => {
                if provider.instances.contains_key(link_name) {
                    return Ok(ProviderPlan::Running);
                }
            },
            None => {},
        }
        let id: u128 = self.new_id();
        proof {
            if before.uses(id) {
                lemma_uses(before, self@, id);
            }
        }
        let invocation_seed = match self.cluster_key.seed() {
            Some(seed) => seed,
            None => {
                return Err(HostError::ClusterSeedMissing);
            },
        };
        let link_definitions = self.provider_links(&claims.subject, link_name);
        let lattice_rpc_user_seed = match seed_for_providers(&self.config) {
            Ok(seed) => seed,
            Err(e) => {
                return Err(e);
            },
        };
        let millis: u64 = match millis_for_providers(&self.config) {
            Ok(millis) => millis,
            Err(e) => {
                return Err(e);
            },
        };
        let lattice_rpc_user_jwt = match &self.config.prov_rpc_config.jwt {
            Some(jwt) => jwt.clone(),
            None => String::new(),
        };
        let ghost list = flat_views(link_definitions@);
        let data = HostData {
            host_id: self.host_key.public_key(),
            lattice_rpc_prefix: self.config.lattice_prefix.clone(),
            link_name: link_name.clone(),
            lattice_rpc_user_jwt,
            lattice_rpc_user_seed,
            lattice_rpc_url: self.config.prov_rpc_config.url.clone(),
            provider_key: claims.subject.clone(),
            invocation_seed,
            env_values: Vec::new(),
            instance_id: uuid_text(id),
            link_definitions,
            cluster_issuers: copy_texts(&self.cluster_issuers),
            config_json: None,
            default_rpc_timeout_ms: Some(millis),
            structured_logging: false,
            log_level: self.config.log_level,
            traces_exporter: None,
            exporter_otlp_endpoint: None,
        };
        assert(data@ =~= before.told(claims@.subject, link_name@, id, list));
        match input_for_provider(data) {
            Ok(stdin) => Ok(
                ProviderPlan::Spawn(Launch { instance: ProviderInstance { id }, stdin }),
            ),
            Err(e) => Err(e),
        }
    }

    /// Whether a provider is known.
    pub fn knows_provider(&self, key: &String) -> (r: bool)
        ensures
            r == self@.providers.contains_key(key@),
    {
        self.providers.contains_key(key)
    }

    /// Takes note of the process of a provider under a link name.
    pub fn provider_started(&mut self, key: &String, link_name: &String, instance: ProviderInstance)
        requires
            old(self)@.consistent(),
            old(self)@.providers.contains_key(key@),
        ensures
            final(self)@.consistent(),
            final(self)@ == old(self)@.with_provider_instance(key@, link_name@, instance.id),
    {
        let mut provider = self.providers.remove(key).unwrap();
        provider.instances.insert(link_name.clone(), instance);
        self.providers.insert(key.clone(), provider);
        assert(self@ =~= old(self)@.with_provider_instance(key@, link_name@, instance.id));
    }

    /// Takes a provider's process under a link name out, and tells what to send
    /// to it. There is nothing to send where it does not run.
    pub fn stop_provider(&mut self, link_name: &String, key: &String) -> (r: Option<Shutdown>)
        requires
            old(self)@.consistent(),
        ensures
            final(self)@.consistent(),
            final(self)@ == old(self)@.without_provider_instance(key@, link_name@),
            match r {
                Some(shutdown) => {
                    &&& old(self)@.provides(key@, link_name@)
                    &&& shutdown.instance.id == old(self)@.providers[key@].instances[link_name@]
                    &&& shutdown.topic@ == shutdown_topic(
                        old(self)@.config.lattice_prefix,
                        key@,
                        link_name@,
                    )
                    &&& shutdown.payload@ == json_member(
                        "host_id"@,
                        old(self)@.host_key.public_key,
                    )
                    &&& shutdown.timeout == (Duration { secs: 5, nanos: 0 })
                },
                None => !old(self)@.provides(key@, link_name@),
            },
    {
        let ghost before = self@;
        let mut provider = match self.providers.remove(key) {
            Some(provider) => provider,
            None => {
                assert(self@ =~= before);
                return None;
            },
        };
        let removed = provider.instances.remove(link_name);
        if !provider.instances.is_empty() {
            let ghost left = provider@;
            self.providers.insert(key.clone(), provider);
            assert(self@.providers =~= before.providers.insert(key@, left));
        }
        assert(self@ =~= before.without_provider_instance(key@, link_name@));
        match removed {
            Some(instance) => {
                let host_id = self.host_key.public_key();
                let payload = match encode_json_member("host_id", host_id.as_str()) {
                    Some(payload) => payload,
                    None => Vec::new(),
                };
                let mut topic = "wasmbus.rpc.".to_owned();
                topic.append(self.config.lattice_prefix.as_str());
                topic.append(".");
                topic.append(key.as_str());
                topic.append(".");
                topic.append(link_name.as_str());
                topic.append(".shutdown");
                Some(Shutdown { instance, topic, payload, timeout: Duration::from_secs(5) })
            },
            None => None,
        }
    }
}

/// A provider that was started runs until it is stopped, and is then forgotten
/// where it ran under no other link name: stopping undoes starting.
pub proof fn stop_undoes_start(
    host: HostView,
    claims: ClaimsView<CapabilityProviderView>,
    image_ref: Seq<char>,
    link_name: Seq<char>,
    id: u128,
)
    requires
        host.consistent(),
        !host.provides(claims.subject, link_name),
        host.providers.contains_key(claims.subject) ==> host.providers[claims.subject].instances
            != Map::<Seq<char>, u128>::empty(),
    ensures
        ({
            let known = host.with_provider(claims, image_ref);
            let running = known.with_provider_instance(claims.subject, link_name, id);
            &&& running.provides(claims.subject, link_name)
            &&& running.without_provider_instance(claims.subject, link_name) == host
        }),
{
    let known = host.with_provider(claims, image_ref);
    let running = known.with_provider_instance(claims.subject, link_name, id);
    let stopped = running.without_provider_instance(claims.subject, link_name);
    let left = running.providers[claims.subject].instances.remove(link_name);
    assert(left =~= known.providers[claims.subject].instances);
    assert(stopped.providers =~= host.providers);
}

/// Stopping a provider under one link name leaves its other processes running.
pub proof fn stopping_spares_other_links(
    host: HostView,
    key: Seq<char>,
    link_name: Seq<char>,
    other: Seq<char>,
)
    requires
        link_name != other,
        host.provides(key, other),
    ensures
        host.without_provider_instance(key, link_name).provides(key, other),
        host.without_provider_instance(key, link_name).providers[key].instances[other]
            == host.providers[key].instances[other],
{
    let left = host.providers[key].instances.remove(link_name);
    assert(left.contains_key(other));
    assert(left != Map::<Seq<char>, u128>::empty());
}

/// Every link of the table whose provider is the one that is started, and whose
/// name is the one that it is started under, stands in the list that it is
/// told, with all its settings, whatever they and its actor and its contract
/// are.
pub proof fn providers_are_told_all_their_links(
    list: Seq<FlatLinkView>,
    ids: Seq<Seq<char>>,
    links: Map<Seq<char>, LinkDefinitionView>,
    provider_id: Seq<char>,
    link_name: Seq<char>,
    id: Seq<char>,
)
    requires
        lists_links(list, ids, links, provider_id, link_name),
        links.contains_key(id),
        links[id].provider_id == provider_id,
        links[id].link_name == link_name,
    ensures
        exists|i: int|
            {
                &&& 0 <= i < list.len()
                &&& (#[trigger] list[i]).actor_id == links[id].actor_id
                &&& list[i].provider_id == provider_id
                &&& list[i].link_name == link_name
                &&& list[i].contract_id == links[id].contract_id
                &&& forall|k: Seq<char>| #[trigger]
                    links[id].values.contains_key(k) ==> list[i].values.contains(
                        (k, links[id].values[k]),
                    )
                &&& forall|j: int|
                    0 <= j < list[i].values.len() ==> links[id].values.contains_key(
                        (#[trigger] list[i].values[j]).0,
                    ) && links[id].values[list[i].values[j].0] == list[i].values[j].1
            },
{
    assert(ids.contains(id));
    let i = ids.index_of(id);
    let settings = list[i].values;
    assert(links.contains_key(ids[i]));
    assert(same_link(list[i], links[id]));
    assert forall|k: Seq<char>| #[trigger] links[id].values.contains_key(k) implies settings.contains(
        (k, links[id].values[k]),
    ) by {
        let j = choose|j: int| 0 <= j < settings.len() && (#[trigger] settings[j]).0 == k;
        assert(settings[j] == (k, links[id].values[k]));
    }
    assert(list[i].actor_id == links[id].actor_id);
}

/// A provider is told of no link but its own under its name, and of none twice:
/// each item of the list is a link of the table, and no two are the same one.
pub proof fn providers_are_told_only_their_links(
    list: Seq<FlatLinkView>,
    ids: Seq<Seq<char>>,
    links: Map<Seq<char>, LinkDefinitionView>,
    provider_id: Seq<char>,
    link_name: Seq<char>,
    i: int,
    j: int,
)
    requires
        lists_links(list, ids, links, provider_id, link_name),
        0 <= i < list.len(),
        0 <= j < list.len(),
    ensures
        list[i].provider_id == provider_id,
        list[i].link_name == link_name,
        links.contains_key(ids[i]),
        links[ids[i]].provider_id == provider_id,
        links[ids[i]].link_name == link_name,
        links[ids[i]].actor_id == list[i].actor_id,
        links[ids[i]].contract_id == list[i].contract_id,
        i != j ==> ids[i] != ids[j],
{
    assert(links.contains_key(ids[i]));
}

/// What a provider is told when it is started.
pub proof fn providers_are_told_who_they_serve(
    host: HostView,
    provider_key: Seq<char>,
    link_name: Seq<char>,
    id: u128,
    links: Seq<FlatLinkView>,
)
    requires
        host.cluster_key.seed is Some,
        host.config.rpc_config.timeout matches Some(timeout) ==> timeout.secs * 1000
            + timeout.nanos as int / 1000000 <= u64::MAX,
    ensures
        ({
            let data = host.told(provider_key, link_name, id, links);
            &&& data.host_id == host.host_key.public_key
            &&& data.provider_key == provider_key
            &&& data.link_name == link_name
            &&& data.link_definitions == links
            &&& data.lattice_rpc_prefix == host.config.lattice_prefix
            &&& data.lattice_rpc_url == host.config.prov_rpc_config.url
            &&& data.lattice_rpc_user_jwt == match host.config.prov_rpc_config.jwt {
                Some(jwt) => jwt,
                None => Seq::empty(),
            }
            &&& host.config.prov_rpc_config.key is None ==> data.lattice_rpc_user_seed.len() == 0
            &&& host.config.prov_rpc_config.key matches Some(key) ==> (key.seed matches Some(seed)
                ==> data.lattice_rpc_user_seed == seed)
            &&& Some(data.invocation_seed) == host.cluster_key.seed
            &&& data.instance_id == uuid_form(id)
            &&& data.cluster_issuers == host.cluster_issuers
            &&& data.log_level == host.config.log_level
            &&& data.default_rpc_timeout_ms is Some
            &&& host.config.rpc_config.timeout is None ==> data.default_rpc_timeout_ms->0 == 0
            &&& host.config.rpc_config.timeout matches Some(timeout)
                ==> data.default_rpc_timeout_ms->0 == timeout.secs * 1000 + timeout.nanos as int
                / 1000000
            &&& data.env_values.len() == 0
            &&& data.config_json is None
            &&& !data.structured_logging
            &&& data.traces_exporter is None
            &&& data.exporter_otlp_endpoint is None
        }),
{
}

/// A provider reads one line: what it is told as JSON, in base64.
pub proof fn providers_read_one_line(data: HostDataView)
    ensures
        provider_input(data) == encode_utf8(base64(host_data_json(data))) + seq![13u8, 10u8],
{
}

/// A provider that is started gets its seed exactly where there is one to hand
/// on.
pub proof fn missing_seeds_are_noticed(config: HostConfigView)
    ensures
        config.provider_seed_missing() <==> config.prov_rpc_config.key is Some
            && config.prov_rpc_config.key->0.seed is None,
{
}

/// A provider that a host gets to know keeps the claims and the image that it
/// was first known by, and no other provider changes.
pub proof fn providers_are_known_once(
    host: HostView,
    claims: ClaimsView<CapabilityProviderView>,
    image_ref: Seq<char>,
    other: Seq<char>,
)
    ensures
        ({
            let after = host.with_provider(claims, image_ref);
            &&& after.providers.contains_key(claims.subject)
            &&& host.providers.contains_key(claims.subject) ==> after == host
            &&& !host.providers.contains_key(claims.subject)
                ==> after.providers[claims.subject].claims == claims
                && after.providers[claims.subject].image_ref == image_ref
                && !after.providers[claims.subject].instances.contains_key(other)
            &&& other != claims.subject ==> after.providers.contains_key(other)
                == host.providers.contains_key(other) && (host.providers.contains_key(other)
                ==> after.providers[other] == host.providers[other])
            &&& after.links == host.links
            &&& after.actors == host.actors
        }),
{
}

/// A process of a provider stands under its link name, and no other process,
/// provider, link or actor changes.
pub proof fn started_processes_run(
    host: HostView,
    key: Seq<char>,
    link_name: Seq<char>,
    id: u128,
    other: Seq<char>,
)
    requires
        host.providers.contains_key(key),
    ensures
        ({
            let after = host.with_provider_instance(key, link_name, id);
            let (p, q) = (host.providers[key], after.providers[key]);
            &&& after.providers.contains_key(key)
            &&& q.instances.contains_key(link_name)
            &&& q.instances[link_name] == id
            &&& other != link_name ==> q.instances.contains_key(other) == p.instances.contains_key(
                other,
            ) && (p.instances.contains_key(other) ==> q.instances[other] == p.instances[other])
            &&& q.claims == p.claims
            &&& q.image_ref == p.image_ref
            &&& other != key ==> after.providers.contains_key(other) == host.providers.contains_key(
                other,
            ) && (host.providers.contains_key(other) ==> after.providers[other]
                == host.providers[other])
            &&& after.links == host.links
            &&& after.actors == host.actors
        }),
{
}

/// A process that is stopped is gone; a provider is forgotten exactly where it
/// has no other process; nothing else changes.
pub proof fn stopped_processes_are_gone(
    host: HostView,
    key: Seq<char>,
    link_name: Seq<char>,
    other: Seq<char>,
)
    requires
        host.providers.contains_key(key),
    ensures
        ({
            let after = host.without_provider_instance(key, link_name);
            let (p, q) = (host.providers[key], after.providers[key]);
            &&& after.providers.contains_key(key) ==> !q.instances.contains_key(link_name)
                && q.claims == p.claims && q.image_ref == p.image_ref
            &&& after.providers.contains_key(key) <==> exists|n: Seq<char>|
                n != link_name && #[trigger] p.instances.contains_key(n)
            &&& other != link_name && p.instances.contains_key(other) ==> after.providers.contains_key(
                key,
            ) && q.instances.contains_key(other) && q.instances[other] == p.instances[other]
            &&& other != key ==> after.providers.contains_key(other) == host.providers.contains_key(
                other,
            ) && (host.providers.contains_key(other) ==> after.providers[other]
                == host.providers[other])
            &&& after.links == host.links
            &&& after.actors == host.actors
        }),
{
    let p = host.providers[key];
    let left = p.instances.remove(link_name);
    if exists|n: Seq<char>| n != link_name && #[trigger] p.instances.contains_key(n) {
        let n = choose|n: Seq<char>| n != link_name && #[trigger] p.instances.contains_key(n);
        assert(left.contains_key(n));
    } else {
        assert(left =~= Map::<Seq<char>, u128>::empty());
    }
    if other != link_name && p.instances.contains_key(other) {
        assert(left.contains_key(other));
    }
}

/// A provider runs under a link name where it has a process there.
pub proof fn running_providers_have_a_process(host: HostView, key: Seq<char>, link_name: Seq<char>)
    ensures
        host.provides(key, link_name) <==> host.providers.contains_key(key)
            && host.providers[key].instances.contains_key(link_name),
{
}

/// A provider is told to stop on its own topic.
pub proof fn providers_are_stopped_on_their_topic(
    lattice_prefix: Seq<char>,
    key: Seq<char>,
    link_name: Seq<char>,
)
    ensures
        shutdown_topic(lattice_prefix, key, link_name) == "wasmbus.rpc."@ + lattice_prefix + "."@
            + key + "."@ + link_name + ".shutdown"@,
{
}

/// What a provider is told is too long exactly where its base64 has more
/// characters than a machine word can count.
pub proof fn long_data_is_turned_away(n: nat)
    ensures
        n > base64_limit() <==> (n + 2) / 3 * 4 > usize::MAX,
{
}

/// The links of a list are those that stand in it, in order.
pub proof fn listed_links_are_those_in_the_list(v: Seq<FlatLink>, i: int)
    requires
        0 <= i < v.len(),
    ensures
        flat_views(v).len() == v.len(),
        flat_views(v)[i] == v[i]@,
{
}

} // verus!
