//! Starting, growing, shrinking and removing actors.

use vstd::prelude::*;
use vstd::string::*;

use crate::actor::{Actor, ActorGroup, ActorInstance};
use crate::codec::new_ulid;
use crate::entity::WasmCloudEntity;
use crate::handler::{Handler, TargetEntity, TargetInterface};
use crate::host::ids::free_id;
use crate::host::{Host, HostError};
use crate::jwt::{Actor as ActorMetadata, Claims};
use crate::links::links_of_actor;
use crate::table::{Datum, Table};
use crate::text::copy_texts;

verus! {

use crate::actor::{
    calls_of_trusted_hosts_are_let_in, instance_views, ActorStateView, GroupView, InstanceView,
};
use crate::entity::{actor_entity, EntityView};
use crate::handler::{
    as_sent, call_ready, call_topic, interface_views, retargeted, target_opt, Call, HandlerView,
    InterfaceView, TargetView,
};
use crate::host::ids::{lemma_uses, lemma_within_push};
use crate::host::HostView;
use crate::jwt::{ActorView, ClaimsView};
use crate::keys::{key_of_public, KeyKind};
use crate::links::{has_link, no_empty_contract, shows_links};
use crate::text::texts;
use crate::wire::{genuine, timeless, token_claims, TraceContext};

/// An instance that is to run once its topic is subscribed to, together with
/// the others of the queue.
#[derive(Debug)]
pub struct Subscription {
    pub topic: String,
    pub queue: String,
    pub instance: ActorInstance,
}

/// What is left to do for an actor.
#[derive(Debug)]
pub enum ActorPlan {
    /// The actor does not run: these are its first instances.
    Start(Vec<Subscription>),
    /// These come on top of the instances that run.
    Grow(Vec<Subscription>),
    /// These no longer count, and have to be stopped.
    Stop(Vec<ActorInstance>),
    /// As many run as should.
    Keep,
}

/// What is left to do, by numbers.
pub ghost enum PlanView {
    Start(nat),
    Grow(nat),
    Stop(nat),
    Keep,
}

/// What is left to do for an actor of which `current` instances run, if it
/// runs, and of which `replica` should.
pub open spec fn wanted(current: Option<nat>, replica: nat) -> PlanView {
    match current {
        None => if replica == 0 {
            PlanView::Keep
        } else {
            PlanView::Start(replica)
        },
        Some(n) => if replica > n {
            PlanView::Grow((replica - n) as nat)
        } else if replica < n {
            PlanView::Stop((n - replica) as nat)
        } else {
            PlanView::Keep
        },
    }
}

/// The topic that the instances of a public key listen on.
pub open spec fn actor_topic(lattice_prefix: Seq<char>, public_key: Seq<char>) -> Seq<char> {
    "wasmbus.rpc."@ + lattice_prefix + "."@ + public_key
}

impl HostView {
    /// Whether an actor of this name runs, or ran last, from this public key.
    pub open spec fn runs(self, public_key: Seq<char>, name: Seq<char>) -> bool {
        self.actors.contains_key(public_key) && self.actors[public_key].actors.contains_key(name)
    }

    /// The instances of an actor.
    pub open spec fn instances(self, public_key: Seq<char>, name: Seq<char>) -> Seq<InstanceView> {
        if self.runs(public_key, name) {
            self.actors[public_key].actors[name].instances
        } else {
            Seq::empty()
        }
    }

    /// How many instances of an actor run, if it runs.
    pub open spec fn current(self, public_key: Seq<char>, name: Seq<char>) -> Option<nat> {
        if self.runs(public_key, name) {
            Some(self.actors[public_key].actors[name].instances.len())
        } else {
            None
        }
    }

    /// The host with another state of one actor of a group that is there.
    pub open spec fn with_actor(
        self,
        public_key: Seq<char>,
        name: Seq<char>,
        actor: ActorStateView,
    ) -> HostView {
        let group = self.actors[public_key];
        HostView {
            actors: self.actors.insert(
                public_key,
                GroupView { actors: group.actors.insert(name, actor), ..group },
            ),
            ..self
        }
    }

    /// Whether `after` is the host once the name of an actor stands for a
    /// public key, for which there is now a group of actors: the one that was
    /// there, or a new one, with the links of the key and no actors.
    pub open spec fn registers(
        self,
        name: Seq<char>,
        public_key: Seq<char>,
        after: HostView,
    ) -> bool {
        &&& after.actors.contains_key(public_key)
        &&& after == HostView {
            actor_keys: self.actor_keys.insert(name, public_key),
            actors: self.actors.insert(public_key, after.actors[public_key]),
            ..self
        }
        &&& if self.actors.contains_key(public_key) {
            after.actors[public_key] == self.actors[public_key]
        } else {
            let group = after.actors[public_key];
            &&& group.public_key == public_key
            &&& group.actors == Map::<Seq<char>, ActorStateView>::empty()
            &&& shows_links(group.links, self.links, public_key)
            &&& no_empty_contract(group.links)
        }
    }

    /// Whether `after` is the host once it has been asked for a number of
    /// instances of an actor: the actor has its name and its group, and
    /// instances that are too many are taken from the oldest.
    pub open spec fn reconciles(
        self,
        name: Seq<char>,
        public_key: Seq<char>,
        replica: nat,
        after: HostView,
    ) -> bool {
        match wanted(self.current(public_key, name), replica) {
            PlanView::Stop(n) => {
                let running = self.instances(public_key, name);
                after == HostView {
                    actor_keys: self.actor_keys.insert(name, public_key),
                    ..self.with_actor(
                        public_key,
                        name,
                        ActorStateView {
                            instances: running.subrange(n as int, running.len() as int),
                            ..self.actors[public_key].actors[name]
                        },
                    )
                }
            },
            _ => self.registers(name, public_key, after),
        }
    }

    /// The host with a new actor.
    pub open spec fn with_started(
        self,
        name: Seq<char>,
        image_ref: Seq<char>,
        claims: ClaimsView<ActorView>,
        instances: Seq<InstanceView>,
    ) -> HostView {
        self.with_actor(
            claims.subject,
            name,
            ActorStateView { image_ref, handler: self.new_handler(claims), instances },
        )
    }

    /// The host with more instances of an actor, behind those that it has.
    pub open spec fn with_grown(
        self,
        name: Seq<char>,
        public_key: Seq<char>,
        instances: Seq<InstanceView>,
    ) -> HostView {
        self.with_actor(
            public_key,
            name,
            ActorStateView {
                instances: self.instances(public_key, name) + instances,
                ..self.actors[public_key].actors[name]
            },
        )
    }

    /// Whether the name of an actor stands for a public key for which there is
    /// a group.
    pub open spec fn registered(self, name: Seq<char>, public_key: Seq<char>) -> bool {
        &&& self.actor_keys.contains_key(name)
        &&& self.actor_keys[name] == public_key
        &&& self.actors.contains_key(public_key)
    }

    /// What the calls of a new actor are made with.
    pub open spec fn new_handler(self, claims: ClaimsView<ActorView>) -> HandlerView {
        HandlerView {
            lattice_prefix: self.lattice_prefix,
            cluster_key: self.cluster_key,
            host_key: self.host_key,
            claims,
            origin: actor_entity(claims.subject),
            targets: Map::empty(),
        }
    }

    /// The host once the actor of a name is removed. The group goes with its
    /// last actor.
    pub open spec fn without_actor(self, name: Seq<char>) -> HostView {
        if !self.actor_keys.contains_key(name) {
            self
        } else {
            let key = self.actor_keys[name];
            let left = self.actors[key].actors.remove(name);
            HostView {
                actor_keys: self.actor_keys.remove(name),
                actors: if !self.actors.contains_key(key) {
                    self.actors
                } else if left == Map::<Seq<char>, ActorStateView>::empty() {
                    self.actors.remove(key)
                } else {
                    self.actors.insert(key, GroupView { actors: left, ..self.actors[key] })
                },
                ..self
            }
        }
    }
}

/// Instances to run: on the topic of the public key, trusting whom the host
/// trusts, and each with an identifier that nothing else on the host and no
/// other of them goes by.
pub open spec fn subscribes(host: HostView, public_key: Seq<char>, subs: Seq<Subscription>) -> bool {
    forall|i: int|
        0 <= i < subs.len() ==> {
            let s = #[trigger] subs[i];
            &&& s.topic@ == actor_topic(host.lattice_prefix, public_key)
            &&& s.queue@ == s.topic@
            &&& s.instance@.valid_issuers == host.cluster_issuers
            &&& !host.uses(s.instance@.id)
            &&& forall|j: int| 0 <= j < i ==> (#[trigger] subs[j]).instance@.id != s.instance@.id
        }
}

proof fn lemma_with_actor(
    host: HostView,
    public_key: Seq<char>,
    name: Seq<char>,
    actor: ActorStateView,
)
    requires
        host.consistent(),
        host.registered(name, public_key),
        host.speaks(public_key, actor.handler),
    ensures
        host.with_actor(public_key, name, actor).consistent(),
{
    let after = host.with_actor(public_key, name, actor);
    assert forall|k: Seq<char>| #[trigger] after.actors.contains_key(k) implies
        after.actors[k].public_key == k && shows_links(after.actors[k].links, after.links, k) by {
        assert(host.actors.contains_key(k));
    }
    assert forall|k: Seq<char>, n: Seq<char>|
        after.actors.contains_key(k) && #[trigger] after.actors[k].actors.contains_key(n) implies
        after.actor_keys.contains_key(n) && after.actor_keys[n] == k
        && after.speaks(k, after.actors[k].actors[n].handler) by {
        if k != public_key || n != name {
            assert(host.actors[k].actors.contains_key(n));
        }
    }
}

proof fn lemma_registers(host: HostView, name: Seq<char>, public_key: Seq<char>, after: HostView)
    requires
        host.consistent(),
        host.registers(name, public_key, after),
        host.actor_keys.contains_key(name) ==> host.actor_keys[name] == public_key,
    ensures
        after.consistent(),
{
    assert forall|k: Seq<char>| #[trigger] after.actors.contains_key(k) implies
        after.actors[k].public_key == k && shows_links(after.actors[k].links, after.links, k) by {
        if k != public_key {
            assert(host.actors.contains_key(k));
        }
    }
    assert forall|k: Seq<char>, n: Seq<char>|
        after.actors.contains_key(k) && #[trigger] after.actors[k].actors.contains_key(n) implies
        after.actor_keys.contains_key(n) && after.actor_keys[n] == k
        && after.speaks(k, after.actors[k].actors[n].handler) by {
        assert(host.actors[k].actors.contains_key(n));
    }
}

proof fn lemma_subscribes(
    host: HostView,
    name: Seq<char>,
    public_key: Seq<char>,
    after: HostView,
    subs: Seq<Subscription>,
)
    requires
        host.registers(name, public_key, after),
        subscribes(after, public_key, subs),
    ensures
        subscribes(host, public_key, subs),
{
    assert forall|i: int| 0 <= i < subs.len() implies !host.uses(
        (#[trigger] subs[i]).instance@.id,
    ) by {
        if host.uses(subs[i].instance@.id) {
            lemma_uses(host, after, subs[i].instance@.id);
        }
    }
}

proof fn lemma_without_actor(host: HostView, name: Seq<char>)
    requires
        host.consistent(),
    ensures
        host.without_actor(name).consistent(),
{
    let after = host.without_actor(name);
    assert forall|k: Seq<char>| #[trigger] after.actors.contains_key(k) implies
        after.actors[k].public_key == k && shows_links(after.actors[k].links, after.links, k) by {
        assert(host.actors.contains_key(k));
    }
    assert forall|k: Seq<char>, n: Seq<char>|
        after.actors.contains_key(k) && #[trigger] after.actors[k].actors.contains_key(n) implies
        after.actor_keys.contains_key(n) && after.actor_keys[n] == k
        && after.speaks(k, after.actors[k].actors[n].handler) by {
        assert(host.actors[k].actors.contains_key(n));
    }
}

impl Host {
    /// New instances of the actor of a public key, each with an identifier that
    /// is free.
    pub fn instantiate_actor(&self, public_key: &String, count: usize) -> (r: Vec<Subscription>)
        ensures
            r@.len() == count,
            subscribes(self@, public_key@, r@),
    {
        let mut used = self.ids_in_use();
        let mut subs: Vec<Subscription> = Vec::new();
        let mut i: usize = 0;
        while i < count
            invariant
                i <= count,
                subs@.len() == i,
                subscribes(self@, public_key@, subs@),
                forall|id: u128| self@.uses(id) ==> #[trigger] used@.contains(id),
                forall|j: int| 0 <= j < i ==> used@.contains((#[trigger] subs@[j]).instance@.id),
            decreases count - i,
        {
            let id: u128 = free_id(new_ulid(), &used);
            let ghost taken = used@;
            used.push(id);
            proof {
                lemma_within_push(taken, id);
                assert forall|x: u128| self@.uses(x) implies #[trigger] used@.contains(x) by {
                    assert(taken.contains(x));
                }
            }
            let mut topic = "wasmbus.rpc.".to_owned();
            topic.append(self.lattice_prefix.as_str());
            topic.append(".");
            topic.append(public_key.as_str());
            let instance = ActorInstance {
                id,
                valid_issuers: copy_texts(&self.cluster_issuers),
            };
            let queue = topic.clone();
            subs.push(Subscription { topic, queue, instance });
            i = i + 1;
        }
        subs
    }

    /// A new actor with its first instances.
    pub fn start_actor(
        &self,
        claims: &Claims<ActorMetadata>,
        actor_ref: &String,
        instances: Vec<ActorInstance>,
    ) -> (r: Actor)
        ensures
            r@ == (ActorStateView {
                image_ref: actor_ref@,
                handler: self@.new_handler(claims@),
                instances: instance_views(instances@),
            }),
    {
        let handler = Handler {
            lattice_prefix: self.lattice_prefix.clone(),
            cluster_key: self.cluster_key.duplicate(),
            host_key: self.host_key.duplicate(),
            claims: claims.duplicate(),
            origin: WasmCloudEntity::of_actor(claims.subject.clone()),
            targets: Table::new(),
        };
        Actor { image_ref: actor_ref.clone(), handler, instances }
    }

    /// Gives an actor its name and its group, and tells what is left to do so
    /// that as many instances run as are asked for. `claims` are those of the
    /// image that was fetched. A name keeps standing for the public key that it
    /// first stood for: an image of another key is turned away. Instances that
    /// are too many are taken from the oldest.
    pub fn reconcile_actor(
        &mut self,
        name: &String,
        replica: usize,
        claims: &Option<Claims<ActorMetadata>>,
    ) -> (r: Result<ActorPlan, HostError>)
        requires
            old(self)@.consistent(),
        ensures
            final(self)@.consistent(),
            match claims {
                None => r matches Err(e) && e == HostError::ClaimsMissing && final(self)@ == old(
                    self,
                )@,
                Some(claims) => {
                    let before = old(self)@;
                    let key = claims@.subject;
                    if before.actor_keys.contains_key(name@) && before.actor_keys[name@] != key {
                        r matches Err(e) && e == HostError::KeyChanged && final(self)@ == before
                    } else {
                        let current = before.current(key, name@);
                        &&& before.reconciles(name@, key, replica as nat, final(self)@)
                        &&& r is Ok
                        &&& match r->Ok_0 {
                            ActorPlan::Start(subs) => {
                                &&& wanted(current, replica as nat) == PlanView::Start(subs@.len())
                                &&& subscribes(before, key, subs@)
                            },
                            ActorPlan::Grow(subs) => {
                                &&& wanted(current, replica as nat) == PlanView::Grow(subs@.len())
                                &&& subscribes(before, key, subs@)
                            },
                            ActorPlan::Stop(stopped) => {
                                &&& wanted(current, replica as nat) == PlanView::Stop(stopped@.len())
                                &&& instance_views(stopped@) == before.instances(
                                    key,
                                    name@,
                                ).subrange(0, stopped@.len() as int)
                            },
                            ActorPlan::Keep => wanted(current, replica as nat) == PlanView::Keep,
                        }
                    }
                },
            },
    {
        let claims = match claims {
            Some(claims) => claims,
            None => {
                return Err(HostError::ClaimsMissing);
            },
        };
        let ghost before = self@;
        let ghost subject = claims@.subject;
        match self.actor_keys.get(name) {
            Some(key) => {
                if *key != claims.subject {
                    return Err(HostError::KeyChanged);
                }
            },
            None => {},
        }
        if !self.actor_keys.contains_key(name) {
            self.actor_keys.insert(name.clone(), claims.subject.clone());
        }
        assert(self@.actor_keys =~= before.actor_keys.insert(name@, subject));
        if !self.actors.contains_key(&claims.subject) {
            let links = links_of_actor(&self.links, &claims.subject);
            let group = ActorGroup {
                public_key: claims.subject.clone(),
                actors: Table::new(),
                links,
            };
            self.actors.insert(claims.subject.clone(), group);
        }
        proof {
            assert(self@.actors =~= before.actors.insert(subject, self@.actors[subject]));
            assert(before.registers(name@, subject, self@));
            lemma_registers(before, name@, subject, self@);
        }
        let ghost named = self@;
        let mut group = self.actors.remove(&claims.subject).unwrap();
        let ghost registered = before.actors.insert(subject, group@);
        assert(before.current(subject, name@) == if group@.actors.contains_key(name@) {
            Some(group@.actors[name@].instances.len())
        } else {
            None
        });
        match group.actors.remove(name) {
            None => {
                self.actors.insert(claims.subject.clone(), group);
                assert(group@.actors =~= registered[subject].actors);
                assert(self@ =~= named);
                if replica == 0 {
                    Ok(ActorPlan::Keep)
                } else {
                    let subs = self.instantiate_actor(&claims.subject, replica);
                    proof {
                        lemma_subscribes(before, name@, subject, self@, subs@);
                    }
                    Ok(ActorPlan::Start(subs))
                }
            },
            Some(mut actor) => {
                let current: usize = actor.instances.len();
                if replica >= current {
                    group.actors.insert(name.clone(), actor);
                    assert(group@.actors =~= registered[subject].actors);
                    self.actors.insert(claims.subject.clone(), group);
                    assert(self@ =~= named);
                    let delta: usize = replica - current;
                    if delta == 0 {
                        Ok(ActorPlan::Keep)
                    } else {
                        let subs = self.instantiate_actor(&claims.subject, delta);
                        proof {
                            lemma_subscribes(before, name@, subject, self@, subs@);
                        }
                        Ok(ActorPlan::Grow(subs))
                    }
                } else {
                    let delta: usize = current - replica;
                    let ghost running = instance_views(actor.instances@);
                    let left = actor.instances.split_off(delta);
                    let stopped = actor.instances;
                    actor.instances = left;
                    proof {
                        assert(instance_views(stopped@) =~= running.subrange(0, delta as int));
                        assert(instance_views(left@) =~= running.subrange(
                            delta as int,
                            running.len() as int,
                        ));
                    }
                    let ghost shrunk = actor@;
                    group.actors.insert(name.clone(), actor);
                    proof {
                        assert(group@.actors =~= registered[subject].actors.insert(name@, shrunk));
                        assert(shrunk =~= ActorStateView {
                            instances: running.subrange(delta as int, running.len() as int),
                            ..before.actors[subject].actors[name@]
                        });
                    }
                    self.actors.insert(claims.subject.clone(), group);
                    assert(self@ =~= HostView {
                        actor_keys: before.actor_keys.insert(name@, subject),
                        ..before.with_actor(
                            subject,
                            name@,
                            ActorStateView {
                                instances: running.subrange(delta as int, running.len() as int),
                                ..before.actors[subject].actors[name@]
                            },
                        )
                    });
                    proof {
                        assert(before.actors[subject].actors.contains_key(name@));
                        assert(self@ =~= named.with_actor(subject, name@, shrunk));
                        lemma_with_actor(named, subject, name@, shrunk);
                    }
                    Ok(ActorPlan::Stop(stopped))
                }
            },
        }
    }

    /// Whether the name of an actor stands for a public key for which there is
    /// a group.
    pub fn is_registered(&self, name: &String, public_key: &String) -> (r: bool)
        ensures
            r == self@.registered(name@, public_key@),
    {
        match self.actor_keys.get(name) {
            Some(key) => *key == *public_key && self.actors.contains_key(public_key),
            None => false,
        }
    }

    /// Puts a new actor with its first instances into its group.
    pub fn finish_start(
        &mut self,
        name: &String,
        actor_ref: &String,
        claims: &Claims<ActorMetadata>,
        instances: Vec<ActorInstance>,
    )
        requires
            old(self)@.consistent(),
            old(self)@.registered(name@, claims@.subject),
        ensures
            final(self)@.consistent(),
            final(self)@ == old(self)@.with_started(
                name@,
                actor_ref@,
                claims@,
                instance_views(instances@),
            ),
    {
        let actor = self.start_actor(claims, actor_ref, instances);
        let mut group = self.actors.remove(&claims.subject).unwrap();
        group.actors.insert(name.clone(), actor);
        self.actors.insert(claims.subject.clone(), group);
        assert(self@ =~= old(self)@.with_actor(claims@.subject, name@, actor@));
        proof {
            lemma_with_actor(old(self)@, claims@.subject, name@, actor@);
        }
    }

    /// Adds instances to an actor that runs, behind those that it has.
    pub fn finish_grow(
        &mut self,
        name: &String,
        public_key: &String,
        mut instances: Vec<ActorInstance>,
    )
        requires
            old(self)@.consistent(),
            old(self)@.runs(public_key@, name@),
        ensures
            final(self)@.consistent(),
            final(self)@ == old(self)@.with_grown(name@, public_key@, instance_views(instances@)),
    {
        let ghost added = instance_views(instances@);
        let mut group = self.actors.remove(public_key).unwrap();
        let ghost group_before = group@;
        let mut actor = group.actors.remove(name).unwrap();
        let ghost running = instance_views(actor.instances@);
        actor.instances.append(&mut instances);
        assert(instance_views(actor.instances@) =~= running + added);
        let ghost grown = actor@;
        group.actors.insert(name.clone(), actor);
        assert(group@.actors =~= group_before.actors.insert(name@, grown));
        self.actors.insert(public_key.clone(), group);
        assert(self@ =~= old(self)@.with_actor(public_key@, name@, grown));
        proof {
            assert(old(self)@.actors[public_key@].actors.contains_key(name@));
            lemma_with_actor(old(self)@, public_key@, name@, grown);
        }
    }

    /// Removes an actor and hands out the instances that have to be stopped. A
    /// name that stands for no actor is removed already.
    pub fn remove_actor(&mut self, name: &String) -> (r: Vec<ActorInstance>)
        requires
            old(self)@.consistent(),
        ensures
            final(self)@.consistent(),
            final(self)@ == old(self)@.without_actor(name@),
            instance_views(r@) == if old(self)@.actor_keys.contains_key(name@) {
                old(self)@.instances(old(self)@.actor_keys[name@], name@)
            } else {
                Seq::empty()
            },
    {
        let ghost before = self@;
        let mut stopped: Vec<ActorInstance> = Vec::new();
        assert(instance_views(stopped@) =~= Seq::<InstanceView>::empty());
        let key = match self.actor_keys.get(name) {
            Some(key) => key.clone(),
            None => {
                return stopped;
            },
        };
        match self.actors.remove(&key) {
            Some(mut group) => {
                let ghost group_before = group@;
                match group.actors.remove(name) {
                    Some(actor) => {
                        stopped = actor.instances;
                    },
                    None => {},
                }
                if !group.actors.is_empty() {
                    let ghost left = group@;
                    self.actors.insert(key.clone(), group);
                    assert(self@.actors =~= before.actors.insert(key@, left));
                }
            },
            None => {
                assert(self@.actors =~= before.actors);
            },
        }
        self.actor_keys.remove(name);
        proof {
            assert(self@.actors =~= before.without_actor(name@).actors);
            assert(self@ =~= before.without_actor(name@));
            lemma_without_actor(before, name@);
        }
        stopped
    }

    /// Sets the target of interfaces of an actor, or clears it, for all its
    /// instances.
    pub fn set_target(
        &mut self,
        name: &String,
        public_key: &String,
        target: Option<TargetEntity>,
        interfaces: Vec<TargetInterface>,
    )
        requires
            old(self)@.consistent(),
        ensures
            final(self)@.consistent(),
            final(self)@ == if old(self)@.runs(public_key@, name@) {
                let actor = old(self)@.actors[public_key@].actors[name@];
                old(self)@.with_actor(
                    public_key@,
                    name@,
                    ActorStateView {
                        handler: HandlerView {
                            targets: retargeted(
                                actor.handler.targets,
                                target_opt(target),
                                interface_views(interfaces@),
                            ),
                            ..actor.handler
                        },
                        ..actor
                    },
                )
            } else {
                old(self)@
            },
    {
        let ghost before = self@;
        match self.actors.remove(public_key) {
            Some(mut group) => {
                let ghost group_before = group@;
                match group.actors.remove(name) {
                    Some(mut actor) => {
                        actor.handler.set_target(target, interfaces);
                        let ghost changed = actor@;
                        group.actors.insert(name.clone(), actor);
                        assert(group@.actors =~= group_before.actors.insert(name@, changed));
                        self.actors.insert(public_key.clone(), group);
                        assert(self@ =~= before.with_actor(public_key@, name@, changed));
                        proof {
                            assert(before.actors[public_key@].actors.contains_key(name@));
                            lemma_with_actor(before, public_key@, name@, changed);
                        }
                    },
                    None => {
                        assert(group@.actors =~= group_before.actors);
                        self.actors.insert(public_key.clone(), group);
                        assert(self@ =~= before);
                    },
                }
            },
            None => {
                assert(self@ =~= before);
            },
        }
    }
}

/// Once what is left to do has been done, exactly as many instances run as were
/// asked for; an actor of which none are wanted and none run is not started.
pub proof fn plans_reach_replicas(current: Option<nat>, replica: nat)
    ensures
        match wanted(current, replica) {
            PlanView::Start(n) => current is None && n == replica && n > 0,
            PlanView::Grow(n) => current matches Some(c) && c + n == replica && n > 0,
            PlanView::Stop(n) => current matches Some(c) && c - n == replica && n > 0,
            PlanView::Keep => current == Some(replica) || (current is None && replica == 0),
        },
{
}

/// Once what was left to do for an actor has been done, asking again for the
/// same number of instances leaves nothing to do: `asked` is the host once it
/// was asked, `done` the host once the instances that were missing, `more`, run.
pub proof fn reconciling_settles(
    host: HostView,
    asked: HostView,
    done: HostView,
    name: Seq<char>,
    image_ref: Seq<char>,
    claims: ClaimsView<ActorView>,
    more: Seq<InstanceView>,
    replica: nat,
)
    requires
        host.reconciles(name, claims.subject, replica, asked),
        match wanted(host.current(claims.subject, name), replica) {
            PlanView::Start(n) => more.len() == n && done == asked.with_started(
                name,
                image_ref,
                claims,
                more,
            ),
            PlanView::Grow(n) => more.len() == n && done == asked.with_grown(
                name,
                claims.subject,
                more,
            ),
            PlanView::Stop(_) => done == asked,
            PlanView::Keep => done == asked,
        },
    ensures
        done.instances(claims.subject, name).len() == replica,
        wanted(done.current(claims.subject, name), replica) == PlanView::Keep,
{
}

/// An actor that is removed is gone from every group, and its name stands for
/// nothing.
pub proof fn removed_actors_are_gone(host: HostView, name: Seq<char>, public_key: Seq<char>)
    requires
        host.consistent(),
    ensures
        !host.without_actor(name).runs(public_key, name),
        !host.without_actor(name).actor_keys.contains_key(name),
{
    if host.runs(public_key, name) {
        assert(host.actors[public_key].actors.contains_key(name));
    }
}

/// Removing one actor leaves every other as it is.
pub proof fn removal_spares_others(
    host: HostView,
    name: Seq<char>,
    other: Seq<char>,
    public_key: Seq<char>,
)
    requires
        name != other,
    ensures
        host.without_actor(name).runs(public_key, other) == host.runs(public_key, other),
        host.without_actor(name).instances(public_key, other) == host.instances(public_key, other),
        host.runs(public_key, other) ==> host.without_actor(name).actors[public_key].actors[other]
            == host.actors[public_key].actors[other],
{
    if host.actor_keys.contains_key(name) && host.actor_keys[name] == public_key && host.runs(
        public_key,
        other,
    ) {
        let left = host.actors[public_key].actors.remove(name);
        assert(left.contains_key(other));
        assert(left != Map::<Seq<char>, ActorStateView>::empty());
    }
}

/// An actor that runs speaks for its host: its calls come from its own public
/// key, are signed with the cluster key pair of the host, name the host's own
/// key pair, and go over the lattice of the host.
pub proof fn running_actors_speak_for_their_host(
    host: HostView,
    public_key: Seq<char>,
    name: Seq<char>,
)
    requires
        host.consistent(),
        host.actors.contains_key(public_key),
        host.actors[public_key].actors.contains_key(name),
    ensures
        ({
            let handler = host.actors[public_key].actors[name].handler;
            &&& handler.cluster_key == host.cluster_key
            &&& handler.host_key == host.host_key
            &&& handler.lattice_prefix == host.config.lattice_prefix
            &&& handler.claims.subject == public_key
            &&& handler.origin.public_key == public_key
            &&& handler.origin.link_name.len() == 0
            &&& handler.origin.contract_id.len() == 0
        }),
{
}

/// A call that an actor of a host makes ready is let in by every instance of
/// that host, where the public keys of its two key pairs can be read back.
pub proof fn calls_within_a_host_are_let_in(
    host: HostView,
    public_key: Seq<char>,
    name: Seq<char>,
    target: Option<TargetView>,
    operation: Seq<char>,
    request: Seq<u8>,
    trace_context: TraceContext,
    call: Call,
    called: Seq<char>,
    subs: Seq<Subscription>,
    i: int,
)
    requires
        host.consistent(),
        host.actors.contains_key(public_key),
        host.actors[public_key].actors.contains_key(name),
        call_ready(
            host.actors[public_key].actors[name].handler,
            host.actors[public_key].links,
            host.aliases,
            target,
            operation,
            request,
            trace_context,
            Ok(call),
        ),
        subscribes(host, called, subs),
        0 <= i < subs.len(),
        host.cluster_key.public_key.len() == 56,
        host.host_key.public_key.len() == 56,
        key_of_public(host.cluster_key.public_key) is Some,
        key_of_public(host.host_key.public_key) matches Some(key) && key.0 == KeyKind::Server,
    ensures
        genuine(as_sent(call.invocation@), subs[i].instance@.valid_issuers),
        timeless(as_sent(call.invocation@).encoded_claims),
        call.invocation.host_id@ == host.host_key.public_key,
        token_claims(call.invocation.encoded_claims@) matches Some(claims) && claims.issuer
            == host.cluster_key.public_key,
{
    calls_of_trusted_hosts_are_let_in(
        call.invocation@,
        host.actors[public_key].actors[name].handler,
        host.cluster_issuers,
    );
}

/// The instances of an actor listen where calls to its key are sent.
pub proof fn actors_listen_where_they_are_called(
    lattice_prefix: Seq<char>,
    public_key: Seq<char>,
    entity: EntityView,
)
    requires
        entity.public_key == public_key,
    ensures
        actor_topic(lattice_prefix, public_key) == "wasmbus.rpc."@ + lattice_prefix + "."@
            + public_key,
        actor_topic(lattice_prefix, public_key) == call_topic(
            lattice_prefix,
            Some(TargetView::ActorKey(public_key)),
            entity,
        ),
{
}

/// New instances of an actor share one queue on the topic of its key, trust
/// whom the host trusts, and go by identifiers that are free and apart.
pub proof fn new_instances_share_a_queue(
    host: HostView,
    public_key: Seq<char>,
    subs: Seq<Subscription>,
    i: int,
    j: int,
)
    requires
        subscribes(host, public_key, subs),
        0 <= j < i < subs.len(),
    ensures
        subs[i].topic@ == "wasmbus.rpc."@ + host.lattice_prefix + "."@ + public_key,
        subs[i].queue@ == subs[i].topic@,
        subs[j].topic@ == subs[i].topic@,
        subs[j].queue@ == subs[i].queue@,
        texts(subs[i].instance.valid_issuers@) == host.cluster_issuers,
        texts(subs[j].instance.valid_issuers@) == host.cluster_issuers,
        subs[i].instance.id != subs[j].instance.id,
        !host.uses(subs[i].instance.id),
        !host.uses(subs[j].instance.id),
{
}

/// A single new instance listens on the topic of its key as well.
pub proof fn new_instances_listen(
    host: HostView,
    public_key: Seq<char>,
    subs: Seq<Subscription>,
    i: int,
)
    requires
        subscribes(host, public_key, subs),
        0 <= i < subs.len(),
    ensures
        subs[i].topic@ == "wasmbus.rpc."@ + host.lattice_prefix + "."@ + public_key,
        subs[i].queue@ == subs[i].topic@,
        texts(subs[i].instance.valid_issuers@) == host.cluster_issuers,
        !host.uses(subs[i].instance.id),
{
}

/// An actor that is started stands under its name in the group of its key, with
/// its image, its claims and all its instances, and has chosen no targets. What
/// it can call is what the group could call before.
pub proof fn started_actors_run(
    host: HostView,
    name: Seq<char>,
    image_ref: Seq<char>,
    claims: ClaimsView<ActorView>,
    instances: Seq<InstanceView>,
)
    ensures
        ({
            let after = host.with_started(name, image_ref, claims, instances);
            let group = after.actors[claims.subject];
            let actor = group.actors[name];
            &&& after.actors.contains_key(claims.subject)
            &&& group.actors.contains_key(name)
            &&& actor.image_ref == image_ref
            &&& actor.instances == instances
            &&& actor.handler.claims == claims
            &&& actor.handler.origin.public_key == claims.subject
            &&& actor.handler.origin.link_name.len() == 0
            &&& actor.handler.origin.contract_id.len() == 0
            &&& actor.handler.cluster_key == host.cluster_key
            &&& actor.handler.host_key == host.host_key
            &&& actor.handler.lattice_prefix == host.lattice_prefix
            &&& forall|i: InterfaceView| !#[trigger] actor.handler.targets.contains_key(i)
            &&& group.links == host.actors[claims.subject].links
            &&& after.links == host.links
            &&& after.providers == host.providers
            &&& after.actor_keys == host.actor_keys
        }),
{
}

/// Instances that are added to an actor stand behind those that it has, and
/// change nothing else of it.
pub proof fn grown_actors_keep_what_they_have(
    host: HostView,
    name: Seq<char>,
    public_key: Seq<char>,
    more: Seq<InstanceView>,
)
    requires
        host.actors.contains_key(public_key),
        host.actors[public_key].actors.contains_key(name),
    ensures
        ({
            let before = host.actors[public_key].actors[name];
            let after = host.with_grown(name, public_key, more).actors[public_key].actors[name];
            &&& after.instances.len() == before.instances.len() + more.len()
            &&& forall|i: int|
                0 <= i < before.instances.len() ==> #[trigger] after.instances[i]
                    == before.instances[i]
            &&& forall|i: int|
                0 <= i < more.len() ==> #[trigger] more[i] == after.instances[before.instances.len()
                    + i]
            &&& after.handler == before.handler
            &&& after.image_ref == before.image_ref
        }),
{
}

/// A change of one actor leaves every other as it is.
pub proof fn changing_spares_others(
    host: HostView,
    public_key: Seq<char>,
    name: Seq<char>,
    actor: ActorStateView,
    other_key: Seq<char>,
    other: Seq<char>,
)
    requires
        host.actors.contains_key(public_key),
        other_key != public_key || other != name,
    ensures
        ({
            let after = host.with_actor(public_key, name, actor);
            &&& after.actors[public_key].actors[name] == actor
            &&& after.runs(other_key, other) == host.runs(other_key, other)
            &&& host.runs(other_key, other) ==> after.actors[other_key].actors[other]
                == host.actors[other_key].actors[other]
            &&& host.actors.contains_key(other_key) ==> after.actors[other_key].links
                == host.actors[other_key].links
        }),
{
}

/// Where more instances run than are asked for, the youngest stay: as many as
/// are asked for, in the order that they had.
pub proof fn the_youngest_stay(
    host: HostView,
    after: HostView,
    name: Seq<char>,
    public_key: Seq<char>,
    replica: nat,
    i: int,
)
    requires
        host.reconciles(name, public_key, replica, after),
        host.actors.contains_key(public_key),
        host.actors[public_key].actors.contains_key(name),
        replica <= host.actors[public_key].actors[name].instances.len(),
        0 <= i < replica,
    ensures
        ({
            let before = host.actors[public_key].actors[name];
            let left = after.actors[public_key].actors[name];
            &&& after.actors[public_key].actors.contains_key(name)
            &&& left.instances.len() == replica
            &&& left.instances[i] == before.instances[before.instances.len() - replica + i]
            &&& left.handler == before.handler
            &&& left.image_ref == before.image_ref
        }),
{
}

/// Asking for instances of an actor gives its name to the public key of its
/// image, sees to a group for that key, and touches no other name, no other
/// actor, no link and no provider. No instance is added before it runs.
pub proof fn reconciling_touches_one_actor(
    host: HostView,
    after: HostView,
    name: Seq<char>,
    public_key: Seq<char>,
    replica: nat,
    other_key: Seq<char>,
    other: Seq<char>,
)
    requires
        host.reconciles(name, public_key, replica, after),
    ensures
        after.actor_keys.contains_key(name),
        after.actor_keys[name] == public_key,
        other != name ==> after.actor_keys.contains_key(other) == host.actor_keys.contains_key(other)
            && (host.actor_keys.contains_key(other) ==> after.actor_keys[other]
            == host.actor_keys[other]),
        after.actors.contains_key(public_key),
        !host.actors.contains_key(public_key) ==> after.actors[public_key].public_key == public_key
            && !after.actors[public_key].actors.contains_key(other),
        other_key != public_key || other != name ==> after.runs(other_key, other) == host.runs(
            other_key,
            other,
        ) && (host.runs(other_key, other) ==> after.actors[other_key].actors[other]
            == host.actors[other_key].actors[other]),
        host.runs(public_key, name) && host.actors[public_key].actors[name].instances.len() <= replica
            ==> after.actors[public_key].actors[name] == host.actors[public_key].actors[name],
        !host.runs(public_key, name) ==> !after.runs(public_key, name),
        after.links == host.links,
        after.providers == host.providers,
        after.cluster_key == host.cluster_key,
        after.host_key == host.host_key,
        after.config == host.config,
{
}

/// A new group sees the links that the table holds for its key: it has a
/// provider under a contract and a link name exactly where the table has a link
/// of the key under them, and that link's provider.
pub proof fn new_groups_see_their_links(
    host: HostView,
    after: HostView,
    name: Seq<char>,
    public_key: Seq<char>,
    replica: nat,
    id: Seq<char>,
)
    requires
        host.reconciles(name, public_key, replica, after),
        !host.actors.contains_key(public_key),
        host.links.contains_key(id),
        host.links[id].actor_id == public_key,
    ensures
        ({
            let ld = host.links[id];
            let seen = after.actors[public_key].links;
            &&& seen.contains_key(ld.contract_id)
            &&& seen[ld.contract_id].contains_key(ld.link_name)
            &&& seen[ld.contract_id][ld.link_name].public_key == ld.provider_id
            &&& seen[ld.contract_id][ld.link_name].link_name == ld.link_name
            &&& seen[ld.contract_id][ld.link_name].contract_id == ld.contract_id
        }),
{
    let ld = host.links[id];
    assert(has_link(after.actors[public_key].links, ld.contract_id, ld.link_name));
}

/// Removing an actor takes its name away and no other, drops its group exactly
/// where it was the last one there, and touches no link and no provider.
pub proof fn removing_touches_one_actor(host: HostView, name: Seq<char>, other: Seq<char>)
    requires
        host.consistent(),
    ensures
        ({
            let after = host.without_actor(name);
            &&& !after.actor_keys.contains_key(name)
            &&& other != name ==> after.actor_keys.contains_key(other)
                == host.actor_keys.contains_key(other) && (host.actor_keys.contains_key(other)
                ==> after.actor_keys[other] == host.actor_keys[other])
            &&& after.links == host.links
            &&& after.providers == host.providers
            &&& forall|k: Seq<char>| #[trigger]
                after.actors.contains_key(k) ==> host.actors.contains_key(k)
                    && after.actors[k].links == host.actors[k].links
            &&& forall|k: Seq<char>| #[trigger]
                host.actors.contains_key(k) && !after.actors.contains_key(k)
                    ==> host.actor_keys.contains_key(name) && host.actor_keys[name] == k && forall|
                    n: Seq<char>,
                | #[trigger]
                    host.actors[k].actors.contains_key(n) ==> n == name
        }),
{
    let after = host.without_actor(name);
    assert forall|k: Seq<char>| #[trigger]
        host.actors.contains_key(k) && !after.actors.contains_key(k) implies
        host.actor_keys.contains_key(name) && host.actor_keys[name] == k && forall|n: Seq<char>|
        #[trigger] host.actors[k].actors.contains_key(n) ==> n == name by {
        let left = host.actors[k].actors.remove(name);
        assert forall|n: Seq<char>| #[trigger]
            host.actors[k].actors.contains_key(n) implies n == name by {
            if n != name {
                assert(left.contains_key(n));
            }
        }
    }
}

/// A group goes with its last actor.
pub proof fn groups_go_with_their_last_actor(host: HostView, name: Seq<char>, public_key: Seq<char>)
    requires
        host.consistent(),
        host.actor_keys.contains_key(name),
        host.actor_keys[name] == public_key,
        forall|n: Seq<char>| #[trigger]
            host.actors[public_key].actors.contains_key(n) ==> n == name,
    ensures
        !host.without_actor(name).actors.contains_key(public_key),
{
    let left = host.actors[public_key].actors.remove(name);
    assert(left =~= Map::<Seq<char>, ActorStateView>::empty());
}

/// The instances of an actor are those of the name in the group of the key, and
/// are counted where there is such an actor.
pub proof fn running_instances_are_counted(host: HostView, public_key: Seq<char>, name: Seq<char>)
    ensures
        host.runs(public_key, name) <==> host.actors.contains_key(public_key)
            && host.actors[public_key].actors.contains_key(name),
        host.actors.contains_key(public_key) && host.actors[public_key].actors.contains_key(name)
            ==> host.instances(public_key, name) == host.actors[public_key].actors[name].instances
            && host.current(public_key, name) == Some(
            host.actors[public_key].actors[name].instances.len(),
        ),
        !(host.actors.contains_key(public_key) && host.actors[public_key].actors.contains_key(name))
            ==> host.instances(public_key, name).len() == 0 && host.current(public_key, name)
            is None,
{
}

/// An actor is registered where its name stands for its public key and that key
/// has a group.
pub proof fn registered_actors_have_a_group(host: HostView, name: Seq<char>, public_key: Seq<char>)
    ensures
        host.registered(name, public_key) <==> host.actor_keys.contains_key(name)
            && host.actor_keys[name] == public_key && host.actors.contains_key(public_key),
{
}

} // verus!
