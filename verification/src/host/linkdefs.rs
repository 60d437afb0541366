//! Adding and deleting links.

use vstd::prelude::*;
use vstd::string::*;

use crate::entity::{LinkDefinition, Links};
use crate::host::{Host, HostError};
use crate::links::{drop_link, linkdef_hash, links_of_actor, put_link};
use crate::table::Datum;
use crate::wire::{encode_link, flatten};

verus! {

use crate::actor::GroupView;
use crate::entity::{EntityView, LinkDefinitionView};
use crate::handler::{call_target, capability, CallErrorView, TargetView};
use crate::host::HostView;
use crate::links::{
    has_link, is_link, lemma_other_actor, lemma_shown_once, lemma_with_link, lemma_without_link,
    linkdef_id, no_empty_contract, same_links, shows_links, with_link, without_link, LinksView,
};
use crate::codec::{hex_upper, sha256};
use crate::text::lemma_before_first_joined;
use vstd::utf8::encode_utf8;
use crate::wire::{link_encodable, link_of_bytes, same_link, FlatLinkView};

/// A message for a provider.
#[derive(Debug)]
pub struct Publication {
    pub topic: String,
    pub payload: Vec<u8>,
}

impl LinkDefinitionView {
    /// The place of the link in the link table.
    pub open spec fn id(self) -> Seq<char> {
        linkdef_id(self.actor_id, self.contract_id, self.link_name)
    }

    /// The topic on which a provider is told of its links.
    pub open spec fn topic(self, lattice_prefix: Seq<char>, what: Seq<char>) -> Seq<char> {
        "wasmbus.rpc."@ + lattice_prefix + "."@ + self.provider_id + "."@ + self.link_name
            + ".linkdefs."@ + what
    }

    /// Every length of the link can be written down in front of what it counts,
    /// in whatever order its settings are listed.
    pub open spec fn encodable(self) -> bool {
        forall|flat: FlatLinkView| #[trigger] same_link(flat, self) ==> link_encodable(flat)
    }
}

/// What a provider is sent about a link: on its topic, bytes that it reads the
/// link from.
pub open spec fn tells_of(
    p: Publication,
    lattice_prefix: Seq<char>,
    ld: LinkDefinitionView,
    what: Seq<char>,
) -> bool {
    &&& p.topic@ == ld.topic(lattice_prefix, what)
    &&& ld.encodable() ==> link_of_bytes(p.payload@) == Some(ld)
}

impl HostView {
    /// The host with a link in its table and before the eyes of its actor.
    pub open spec fn with_linkdef(self, ld: LinkDefinitionView) -> HostView {
        HostView {
            links: self.links.insert(ld.id(), ld),
            actors: if self.actors.contains_key(ld.actor_id) {
                let group = self.actors[ld.actor_id];
                self.actors.insert(
                    ld.actor_id,
                    GroupView { links: with_link(group.links, ld), ..group },
                )
            } else {
                self.actors
            },
            ..self
        }
    }

    /// The host without the link at a place.
    pub open spec fn without_linkdef(self, id: Seq<char>) -> HostView {
        let ld = self.links[id];
        HostView {
            links: self.links.remove(id),
            actors: if self.actors.contains_key(ld.actor_id) {
                let group = self.actors[ld.actor_id];
                self.actors.insert(
                    ld.actor_id,
                    GroupView { links: without_link(group.links, ld), ..group },
                )
            } else {
                self.actors
            },
            ..self
        }
    }
}

proof fn lemma_linkdef_added(host: HostView, ld: LinkDefinitionView)
    requires
        host.consistent(),
        !host.links.contains_key(ld.id()),
    ensures
        host.with_linkdef(ld).consistent(),
{
    let after = host.with_linkdef(ld);
    assert forall|k: Seq<char>| #[trigger] after.actors.contains_key(k) implies
        after.actors[k].public_key == k && shows_links(after.actors[k].links, after.links, k) by {
        assert(host.actors.contains_key(k));
        if k == ld.actor_id {
            lemma_with_link(host.actors[k].links, host.links, ld);
        } else {
            lemma_other_actor(host.actors[k].links, host.links, after.links, ld.id(), k);
        }
    }
    assert forall|k: Seq<char>, n: Seq<char>|
        after.actors.contains_key(k) && #[trigger] after.actors[k].actors.contains_key(n) implies
        after.actor_keys.contains_key(n) && after.actor_keys[n] == k
        && after.speaks(k, after.actors[k].actors[n].handler) by {
        assert(host.actors[k].actors.contains_key(n));
    }
}

proof fn lemma_linkdef_deleted(host: HostView, id: Seq<char>)
    requires
        host.consistent(),
        host.links.contains_key(id),
    ensures
        host.without_linkdef(id).consistent(),
{
    let ld = host.links[id];
    let after = host.without_linkdef(id);
    assert forall|k: Seq<char>| #[trigger] after.actors.contains_key(k) implies
        after.actors[k].public_key == k && shows_links(after.actors[k].links, after.links, k) by {
        assert(host.actors.contains_key(k));
        if k == ld.actor_id {
            lemma_without_link(host.actors[k].links, host.links, id);
        } else {
            lemma_other_actor(host.actors[k].links, host.links, after.links, id, k);
        }
    }
    assert forall|k: Seq<char>, n: Seq<char>|
        after.actors.contains_key(k) && #[trigger] after.actors[k].actors.contains_key(n) implies
        after.actor_keys.contains_key(n) && after.actor_keys[n] == k
        && after.speaks(k, after.actors[k].actors[n].handler) by {
        assert(host.actors[k].actors.contains_key(n));
    }
}

fn linkdef_topic(lattice_prefix: &String, ld: &LinkDefinition, what: &str) -> (r: String)
    ensures
        r@ == ld@.topic(lattice_prefix@, what@),
{
    let mut topic = "wasmbus.rpc.".to_owned();
    topic.append(lattice_prefix.as_str());
    topic.append(".");
    topic.append(ld.provider_id.as_str());
    topic.append(".");
    topic.append(ld.link_name.as_str());
    topic.append(".linkdefs.");
    topic.append(what);
    topic
}

fn publication(lattice_prefix: &String, ld: &LinkDefinition, what: &str) -> (r: Result<
    Publication,
    HostError,
>)
    ensures
        match r {
            Ok(p) => tells_of(p, lattice_prefix@, ld@, what@),
            Err(e) => e == HostError::EncodeLink,
        },
{
    let flat = flatten(ld);
    match encode_link(flat) {
        Some(payload) => {
            Ok(Publication { topic: linkdef_topic(lattice_prefix, ld, what), payload })
        },
        None => Err(HostError::EncodeLink),
    }
}

impl Host {
    /// The links of the actor of a public key.
    pub fn get_actor_links(&self, key: &String) -> (r: Links)
        requires
            self@.consistent(),
        ensures
            shows_links(r@, self@.links, key@),
            no_empty_contract(r@),
    {
        links_of_actor(&self.links, key)
    }

    /// Adds a link, and tells what to send to its provider. A link of the same
    /// actor, contract and name that is there already stays as it is, and there
    /// is nothing to send. The link is there also where there is no memory to
    /// encode it.
    pub fn add_linkdef(&mut self, ld: &LinkDefinition) -> (r: Result<
        Option<Publication>,
        HostError,
    >)
        requires
            old(self)@.consistent(),
        ensures
            final(self)@.consistent(),
            if old(self)@.links.contains_key(ld@.id()) {
                r matches Ok(None) && final(self)@ == old(self)@
            } else {
                &&& final(self)@ == old(self)@.with_linkdef(ld@)
                &&& match r {
                    Ok(Some(p)) => tells_of(p, old(self)@.config.lattice_prefix, ld@, "put"@),
                    Ok(None) => false,
                    Err(e) => e == HostError::EncodeLink,
                }
            },
    {
        let ghost before = self@;
        let id = linkdef_hash(&ld.actor_id, &ld.contract_id, &ld.link_name);
        if self.links.contains_key(&id) {
            return Ok(None);
        }
        self.links.insert(id, ld.duplicate());
        match self.actors.remove(&ld.actor_id) {
            Some(mut group) => {
                put_link(&mut group.links, ld);
                let ghost changed = group@;
                self.actors.insert(ld.actor_id.clone(), group);
                assert(self@.actors =~= before.actors.insert(ld@.actor_id, changed));
            },
            None => {
                assert(self@.actors =~= before.actors);
            },
        }
        proof {
            assert(self@ =~= before.with_linkdef(ld@));
            lemma_linkdef_added(before, ld@);
        }
        match publication(&self.config.lattice_prefix, ld, "put") {
            Ok(p) => Ok(Some(p)),
            Err(e) => Err(e),
        }
    }

    /// Deletes the link of an actor, contract and name, and tells what to send
    /// to its provider. The link is gone also where there is no memory to
    /// encode it.
    pub fn delete_linkdef(&mut self, ld: &LinkDefinition) -> (r: Result<Publication, HostError>)
        requires
            old(self)@.consistent(),
        ensures
            final(self)@.consistent(),
            if old(self)@.links.contains_key(ld@.id()) {
                &&& final(self)@ == old(self)@.without_linkdef(ld@.id())
                &&& match r {
                    Ok(p) => tells_of(
                        p,
                        old(self)@.config.lattice_prefix,
                        old(self)@.links[ld@.id()],
                        "del"@,
                    ),
                    Err(e) => e == HostError::EncodeLink,
                }
            } else {
                r matches Err(e) && e == HostError::LinkNotFound && final(self)@ == old(self)@
            },
    {
        let ghost before = self@;
        let id = linkdef_hash(&ld.actor_id, &ld.contract_id, &ld.link_name);
        let stored = match self.links.remove(&id) {
            Some(stored) => stored,
            None => {
                assert(self@ =~= before);
                return Err(HostError::LinkNotFound);
            },
        };
        match self.actors.remove(&stored.actor_id) {
            Some(mut group) => {
                drop_link(&mut group.links, &stored);
                let ghost changed = group@;
                self.actors.insert(stored.actor_id.clone(), group);
                assert(self@.actors =~= before.actors.insert(stored@.actor_id, changed));
            },
            None => {
                assert(self@.actors =~= before.actors);
            },
        }
        proof {
            assert(self@ =~= before.without_linkdef(id@));
            lemma_linkdef_deleted(before, id@);
        }
        publication(&self.config.lattice_prefix, &stored, "del")
    }
}

/// Deleting a link that was just added gives the link table back as it was, and
/// whoever saw which links before sees the same again.
pub proof fn delete_undoes_add(host: HostView, ld: LinkDefinitionView)
    requires
        host.consistent(),
        !host.links.contains_key(ld.id()),
    ensures
        host.with_linkdef(ld).without_linkdef(ld.id()).links == host.links,
        host.with_linkdef(ld).without_linkdef(ld.id()).actors.dom() == host.actors.dom(),
        forall|k: Seq<char>| #[trigger]
            host.actors.contains_key(k) ==> same_links(
                host.with_linkdef(ld).without_linkdef(ld.id()).actors[k].links,
                host.actors[k].links,
            ),
{
    let between = host.with_linkdef(ld);
    let after = between.without_linkdef(ld.id());
    assert(after.links =~= host.links);
    assert(after.actors.dom() =~= host.actors.dom());
    lemma_linkdef_added(host, ld);
    lemma_linkdef_deleted(between, ld.id());
    assert forall|k: Seq<char>| #[trigger] host.actors.contains_key(k) implies same_links(
        after.actors[k].links,
        host.actors[k].links,
    ) by {
        assert(after.actors.contains_key(k));
        lemma_shown_once(after.actors[k].links, host.actors[k].links, host.links, k);
    }
}

/// An actor that is started after a link was added sees the same links as one
/// that was running: what it sees is settled by the table alone.
pub proof fn links_do_not_depend_on_order(host: HostView, fresh: LinksView, key: Seq<char>)
    requires
        host.consistent(),
        host.actors.contains_key(key),
        shows_links(fresh, host.links, key),
    ensures
        same_links(fresh, host.actors[key].links),
{
    lemma_shown_once(fresh, host.actors[key].links, host.links, key);
}

/// An actor that runs can call over each link that the table holds for it, as
/// long as it claims the contract: the call goes to the provider of the link.
pub proof fn linked_actors_can_call(
    host: HostView,
    id: Seq<char>,
    name: Seq<char>,
    method: Seq<char>,
)
    requires
        host.consistent(),
        host.links.contains_key(id),
        host.runs(host.links[id].actor_id, name),
        ({
            let ld = host.links[id];
            let handler = host.actors[ld.actor_id].actors[name].handler;
            &&& !ld.contract_id.contains('/')
            &&& handler.cluster_key.seed is Some
            &&& capability(handler.claims.metadata, ld.contract_id) is Ok
        }),
    ensures
        ({
            let ld = host.links[id];
            let group = host.actors[ld.actor_id];
            call_target(
                group.actors[name].handler,
                group.links,
                host.aliases,
                Some(TargetView::Link(Some(ld.link_name))),
                ld.contract_id + seq!['/'] + method,
            ) == Ok::<EntityView, CallErrorView>(ld.provider())
        }),
{
    let ld = host.links[id];
    let group = host.actors[ld.actor_id];
    lemma_before_first_joined(ld.contract_id, '/', method);
    assert(has_link(group.links, ld.contract_id, ld.link_name));
}

/// An actor cannot call over a link that the table does not hold for it.
pub proof fn unlinked_actors_cannot_call(
    host: HostView,
    public_key: Seq<char>,
    name: Seq<char>,
    contract_id: Seq<char>,
    link_name: Seq<char>,
    method: Seq<char>,
)
    requires
        host.consistent(),
        host.runs(public_key, name),
        !contract_id.contains('/'),
        forall|id: Seq<char>| !#[trigger] is_link(host.links, id, public_key, contract_id, link_name),
    ensures
        call_target(
            host.actors[public_key].actors[name].handler,
            host.actors[public_key].links,
            host.aliases,
            Some(TargetView::Link(Some(link_name))),
            contract_id + seq!['/'] + method,
        ) == Err::<EntityView, CallErrorView>(CallErrorView::LinkNotFound),
{
    lemma_before_first_joined(contract_id, '/', method);
    assert(!has_link(host.actors[public_key].links, contract_id, link_name));
}

/// A link that is added stands in the table at its place, and no other place
/// changes; its actor sees its provider under its contract and name, and what
/// else it saw; other actors see what they saw.
pub proof fn added_links_are_seen(
    host: HostView,
    ld: LinkDefinitionView,
    key: Seq<char>,
    contract_id: Seq<char>,
    link_name: Seq<char>,
    id: Seq<char>,
)
    requires
        host.actors.contains_key(key),
    ensures
        ({
            let after = host.with_linkdef(ld);
            let before = host.actors[key].links;
            let seen = after.actors[key].links;
            &&& after.links.contains_key(ld.id())
            &&& after.links[ld.id()] == ld
            &&& id != ld.id() ==> after.links.contains_key(id) == host.links.contains_key(id) && (
            host.links.contains_key(id) ==> after.links[id] == host.links[id])
            &&& key == ld.actor_id ==> seen.contains_key(ld.contract_id)
                && seen[ld.contract_id].contains_key(ld.link_name)
                && seen[ld.contract_id][ld.link_name].public_key == ld.provider_id
                && seen[ld.contract_id][ld.link_name].link_name == ld.link_name
                && seen[ld.contract_id][ld.link_name].contract_id == ld.contract_id
            &&& key != ld.actor_id ==> seen == before
            &&& (contract_id != ld.contract_id || link_name != ld.link_name) && before.contains_key(
                contract_id,
            ) && before[contract_id].contains_key(link_name) ==> seen.contains_key(contract_id)
                && seen[contract_id].contains_key(link_name) && seen[contract_id][link_name]
                == before[contract_id][link_name]
            &&& (contract_id != ld.contract_id || link_name != ld.link_name) && seen.contains_key(
                contract_id,
            ) && seen[contract_id].contains_key(link_name) ==> before.contains_key(contract_id)
                && before[contract_id].contains_key(link_name)
            &&& after.actors[key].actors == host.actors[key].actors
            &&& after.actors.dom() == host.actors.dom()
            &&& after.providers == host.providers
            &&& after.actor_keys == host.actor_keys
        }),
{
    assert(host.with_linkdef(ld).actors.dom() =~= host.actors.dom());
}

/// A link that is deleted is gone from the table and from the eyes of its actor,
/// and no other link is.
pub proof fn deleted_links_are_not_seen(
    host: HostView,
    place: Seq<char>,
    key: Seq<char>,
    contract_id: Seq<char>,
    link_name: Seq<char>,
    id: Seq<char>,
)
    requires
        host.actors.contains_key(key),
        host.links.contains_key(place),
    ensures
        ({
            let ld = host.links[place];
            let after = host.without_linkdef(place);
            let before = host.actors[key].links;
            let seen = after.actors[key].links;
            &&& !after.links.contains_key(place)
            &&& id != place ==> after.links.contains_key(id) == host.links.contains_key(id) && (
            host.links.contains_key(id) ==> after.links[id] == host.links[id])
            &&& key == ld.actor_id ==> !(seen.contains_key(ld.contract_id)
                && seen[ld.contract_id].contains_key(ld.link_name))
            &&& key != ld.actor_id ==> seen == before
            &&& (contract_id != ld.contract_id || link_name != ld.link_name) ==> (
            seen.contains_key(contract_id) && seen[contract_id].contains_key(link_name)) == (
            before.contains_key(contract_id) && before[contract_id].contains_key(link_name))
            &&& (contract_id != ld.contract_id || link_name != ld.link_name) && before.contains_key(
                contract_id,
            ) && before[contract_id].contains_key(link_name) ==> seen[contract_id][link_name]
                == before[contract_id][link_name]
            &&& after.actors[key].actors == host.actors[key].actors
            &&& after.actors.dom() == host.actors.dom()
            &&& after.providers == host.providers
            &&& after.actor_keys == host.actor_keys
        }),
{
    assert(host.without_linkdef(place).actors.dom() =~= host.actors.dom());
}

/// The place of a link is the digest of its actor, contract and name; who
/// provides it, and its settings, do not matter.
pub proof fn links_are_filed_by_who_calls_what(a: LinkDefinitionView, b: LinkDefinitionView)
    requires
        a.actor_id == b.actor_id,
        a.contract_id == b.contract_id,
        a.link_name == b.link_name,
    ensures
        a.id() == b.id(),
        a.id() == hex_upper(
            sha256(
                encode_utf8(a.actor_id) + encode_utf8(a.contract_id) + encode_utf8(a.link_name),
            ),
        ),
{
}

/// What a provider is sent of a link goes to its own topic, and it reads the
/// whole link from it.
pub proof fn providers_read_their_links(
    p: Publication,
    lattice_prefix: Seq<char>,
    ld: LinkDefinitionView,
    what: Seq<char>,
)
    requires
        tells_of(p, lattice_prefix, ld, what),
        forall|flat: FlatLinkView| #[trigger] same_link(flat, ld) ==> link_encodable(flat),
    ensures
        p.topic@ == "wasmbus.rpc."@ + lattice_prefix + "."@ + ld.provider_id + "."@ + ld.link_name
            + ".linkdefs."@ + what,
        link_of_bytes(p.payload@) == Some(ld),
{
}

/// An actor of a host sees a provider under a contract and a link name exactly
/// where the table has a link of the actor under them, and then the provider of
/// that link.
pub proof fn actors_see_exactly_their_links(
    host: HostView,
    key: Seq<char>,
    contract_id: Seq<char>,
    link_name: Seq<char>,
)
    requires
        host.consistent(),
        host.actors.contains_key(key),
    ensures
        ({
            let seen = host.actors[key].links;
            let id = hex_upper(
                sha256(encode_utf8(key) + encode_utf8(contract_id) + encode_utf8(link_name)),
            );
            let linked = host.links.contains_key(id) && host.links[id].actor_id == key
                && host.links[id].contract_id == contract_id && host.links[id].link_name
                == link_name;
            &&& (seen.contains_key(contract_id) && seen[contract_id].contains_key(link_name))
                <==> linked
            &&& linked ==> seen[contract_id][link_name].public_key == host.links[id].provider_id
                && seen[contract_id][link_name].link_name == link_name
                && seen[contract_id][link_name].contract_id == contract_id
        }),
{
    let seen = host.actors[key].links;
    let id = linkdef_id(key, contract_id, link_name);
    if seen.contains_key(contract_id) && seen[contract_id].contains_key(link_name) {
        assert(has_link(seen, contract_id, link_name));
        let j = choose|j: Seq<char>| is_link(host.links, j, key, contract_id, link_name);
        assert(host.links.contains_key(j));
        assert(j == id);
    }
    if is_link(host.links, id, key, contract_id, link_name) {
        assert(has_link(seen, contract_id, link_name));
    }
}

} // verus!
