//! Identifiers of instances and processes, no two of them the same.

use vstd::prelude::*;

use crate::actor::ActorGroup;
use crate::codec::new_ulid;
use crate::host::Host;
use crate::provider::Provider;

verus! {

use crate::actor::{ActorStateView, GroupView, InstanceView};
use crate::host::HostView;
use crate::provider::ProviderView;
use crate::table::enumerates;

impl HostView {
    /// Whether an instance of an actor goes by an identifier: the one at place
    /// `i` of the actor `name` of a public key.
    pub open spec fn instance_has(
        self,
        public_key: Seq<char>,
        name: Seq<char>,
        i: int,
        id: u128,
    ) -> bool {
        &&& self.actors.contains_key(public_key)
        &&& self.actors[public_key].actors.contains_key(name)
        &&& 0 <= i < self.actors[public_key].actors[name].instances.len()
        &&& self.actors[public_key].actors[name].instances[i].id == id
    }

    /// Whether the process of a provider under a link name goes by an
    /// identifier.
    pub open spec fn process_has(self, key: Seq<char>, link_name: Seq<char>, id: u128) -> bool {
        &&& self.providers.contains_key(key)
        &&& self.providers[key].instances.contains_key(link_name)
        &&& self.providers[key].instances[link_name] == id
    }

    /// Whether anything that runs on the host goes by an identifier.
    pub open spec fn uses(self, id: u128) -> bool {
        ||| exists|k: Seq<char>, n: Seq<char>, i: int| #[trigger] self.instance_has(k, n, i, id)
        ||| exists|k: Seq<char>, l: Seq<char>| #[trigger] self.process_has(k, l, id)
    }

    /// No two things that run on the host go by the same identifier.
    pub open spec fn ids_apart(self) -> bool {
        &&& forall|k: Seq<char>, n: Seq<char>, i: int, l: Seq<char>, m: Seq<char>, j: int, id: u128|
            #[trigger] self.instance_has(k, n, i, id) && #[trigger] self.instance_has(l, m, j, id)
                ==> k == l && n == m && i == j
        &&& forall|k: Seq<char>, n: Seq<char>, i: int, l: Seq<char>, m: Seq<char>, id: u128|
            !(#[trigger] self.instance_has(k, n, i, id) && #[trigger] self.process_has(l, m, id))
        &&& forall|k: Seq<char>, n: Seq<char>, l: Seq<char>, m: Seq<char>, id: u128|
            #[trigger] self.process_has(k, n, id) && #[trigger] self.process_has(l, m, id)
                ==> k == l && n == m
    }
}

/// A list holds the identifiers of all instances of a group.
spec fn covers_group(ids: Seq<u128>, group: GroupView) -> bool {
    forall|n: Seq<char>, i: int|
        group.actors.contains_key(n) && 0 <= i < group.actors[n].instances.len() ==> ids.contains(
            (#[trigger] group.actors[n].instances[i]).id,
        )
}

/// A list holds the identifiers of all processes of a provider.
spec fn covers_provider(ids: Seq<u128>, provider: ProviderView) -> bool {
    forall|l: Seq<char>| #[trigger]
        provider.instances.contains_key(l) ==> ids.contains(provider.instances[l])
}

/// What a list holds, the other one holds too.
pub(crate) open spec fn within(a: Seq<u128>, b: Seq<u128>) -> bool {
    forall|id: u128| #[trigger] a.contains(id) ==> b.contains(id)
}

pub(crate) proof fn lemma_within_push(ids: Seq<u128>, id: u128)
    ensures
        within(ids, ids.push(id)),
        ids.push(id).contains(id),
{
    let more = ids.push(id);
    assert forall|x: u128| #[trigger] ids.contains(x) implies more.contains(x) by {
        let i = ids.index_of(x);
        assert(more[i] == x);
    }
    assert(more[ids.len() as int] == id);
}

fn add_group_ids(group: &ActorGroup, ids: &mut Vec<u128>)
    ensures
        within(old(ids)@, final(ids)@),
        covers_group(final(ids)@, group@),
{
    let ghost before = ids@;
    let n: usize = group.actors.len();
    let ghost pairs = group.actors.pairs();
    let mut i: usize = 0;
    while i < n
        invariant
            i <= n == group.actors.pairs().len(),
            pairs == group.actors.pairs(),
            enumerates(pairs, group@.actors),
            within(before, ids@),
            forall|p: int, j: int|
                0 <= p < i && 0 <= j < pairs[p].1.instances.len() ==> ids@.contains(
                    (#[trigger] pairs[p].1.instances[j]).id,
                ),
        decreases n - i,
    {
        let actor = group.actors.value_at(i);
        let mut j: usize = 0;
        while j < actor.instances.len()
            invariant
                j <= actor.instances@.len(),
                i < n == group.actors.pairs().len(),
                pairs == group.actors.pairs(),
                actor@ == pairs[i as int].1,
                within(before, ids@),
                forall|p: int, q: int|
                    0 <= p < i && 0 <= q < pairs[p].1.instances.len() ==> ids@.contains(
                        (#[trigger] pairs[p].1.instances[q]).id,
                    ),
                forall|q: int|
                    0 <= q < j ==> ids@.contains((#[trigger] actor@.instances[q]).id),
            decreases actor.instances@.len() - j,
        {
            let id: u128 = actor.instances[j].id;
            proof {
                lemma_within_push(ids@, id);
                assert(actor@.instances[j as int].id == id);
            }
            ids.push(id);
            j = j + 1;
        }
        i = i + 1;
    }
    proof {
        assert forall|name: Seq<char>, j: int|
            group@.actors.contains_key(name) && 0 <= j
                < group@.actors[name].instances.len() implies ids@.contains(
            (#[trigger] group@.actors[name].instances[j]).id,
        ) by {
            let p = choose|p: int| 0 <= p < pairs.len() && (#[trigger] pairs[p]).0 == name;
            assert(pairs[p].1.instances[j] == group@.actors[name].instances[j]);
        }
    }
}

fn add_provider_ids(provider: &Provider, ids: &mut Vec<u128>)
    ensures
        within(old(ids)@, final(ids)@),
        covers_provider(final(ids)@, provider@),
{
    let ghost before = ids@;
    let n: usize = provider.instances.len();
    let ghost pairs = provider.instances.pairs();
    let mut i: usize = 0;
    while i < n
        invariant
            i <= n == provider.instances.pairs().len(),
            pairs == provider.instances.pairs(),
            within(before, ids@),
            forall|p: int| 0 <= p < i ==> ids@.contains((#[trigger] pairs[p]).1),
        decreases n - i,
    {
        let id: u128 = provider.instances.value_at(i).id;
        proof {
            lemma_within_push(ids@, id);
        }
        ids.push(id);
        i = i + 1;
    }
    proof {
        assert forall|l: Seq<char>| #[trigger] provider@.instances.contains_key(l) implies
            ids@.contains(provider@.instances[l]) by {
            let p = choose|p: int| 0 <= p < pairs.len() && (#[trigger] pairs[p]).0 == l;
            assert(ids@.contains(pairs[p].1));
        }
    }
}

/// The number that is `n` places behind another, counting on from zero behind
/// the largest.
spec fn counted_on(start: u128, n: int) -> int {
    if start + n <= u128::MAX {
        start + n
    } else {
        start + n - u128::MAX - 1
    }
}

/// The first number from `start` on that is not on a list.
pub fn free_id(start: u128, used: &Vec<u128>) -> (r: u128)
    ensures
        !used@.contains(r),
        !used@.contains(start) ==> r == start,
{
    let count: usize = used.len();
    let mut rest: Vec<u128> = Vec::new();
    let mut i: usize = 0;
    while i < count
        invariant
            i <= count == used@.len(),
            rest@ =~= used@.subrange(0, i as int),
        decreases count - i,
    {
        rest.push(used[i]);
        i = i + 1;
    }
    assert(rest@ =~= used@);
    let mut candidate: u128 = start;
    let mut steps: usize = 0;
    loop
        invariant
            steps + rest@.len() <= used@.len() == count,
            candidate == counted_on(start, steps as int),
            steps == 0 ==> rest@ == used@,
            steps > 0 ==> used@.contains(start),
            forall|x: u128| #[trigger]
                used@.contains(x) ==> rest@.contains(x) || exists|n: int|
                    0 <= n < steps && x == #[trigger] counted_on(start, n),
        decreases rest@.len(),
    {
        let mut at: Option<usize> = None;
        let mut j: usize = 0;
        while j < rest.len()
            invariant
                j <= rest@.len(),
                match at {
                    Some(k) => k < rest@.len() && rest@[k as int] == candidate,
                    None => forall|k: int| 0 <= k < j ==> rest@[k] != candidate,
                },
            decreases rest@.len() - j,
        {
            if rest[j] == candidate {
                at = Some(j);
            }
            j = j + 1;
        }
        match at {
            None => {
                return candidate;
            },
            Some(k) => {
                let ghost before = rest@;
                rest.remove(k);
                proof {
                    assert(steps == 0 ==> used@[k as int] == start);
                    assert forall|x: u128| #[trigger] used@.contains(x) implies rest@.contains(x)
                        || exists|n: int|
                        0 <= n < steps + 1 && x == #[trigger] counted_on(start, n) by {
                        if before.contains(x) {
                            let p = before.index_of(x);
                            if p < k {
                                assert(rest@[p] == x);
                            } else if p > k {
                                assert(rest@[p - 1] == x);
                            } else {
                                assert(x == counted_on(start, steps as int));
                            }
                        } else {
                            let n = choose|n: int|
                                0 <= n < steps && x == #[trigger] counted_on(start, n);
                            assert(x == counted_on(start, n));
                        }
                    }
                }
                candidate = if candidate == u128::MAX {
                    0
                } else {
                    candidate + 1
                };
                steps = steps + 1;
            },
        }
    }
}

impl Host {
    /// The identifiers of all that runs on the host.
    pub(crate) fn ids_in_use(&self) -> (r: Vec<u128>)
        ensures
            forall|id: u128| self@.uses(id) ==> #[trigger] r@.contains(id),
    {
        let mut ids: Vec<u128> = Vec::new();
        let groups: usize = self.actors.len();
        let ghost pairs = self.actors.pairs();
        let mut i: usize = 0;
        while i < groups
            invariant
                i <= groups == self.actors.pairs().len(),
                pairs == self.actors.pairs(),
                forall|p: int| 0 <= p < i ==> covers_group(ids@, (#[trigger] pairs[p]).1),
            decreases groups - i,
        {
            add_group_ids(self.actors.value_at(i), &mut ids);
            i = i + 1;
        }
        let known: usize = self.providers.len();
        let ghost provider_pairs = self.providers.pairs();
        let mut j: usize = 0;
        while j < known
            invariant
                j <= known == self.providers.pairs().len(),
                provider_pairs == self.providers.pairs(),
                forall|p: int| 0 <= p < pairs.len() ==> covers_group(ids@, (#[trigger] pairs[p]).1),
                forall|p: int|
                    0 <= p < j ==> covers_provider(ids@, (#[trigger] provider_pairs[p]).1),
            decreases known - j,
        {
            add_provider_ids(self.providers.value_at(j), &mut ids);
            j = j + 1;
        }
        proof {
            assert forall|id: u128| self@.uses(id) implies #[trigger] ids@.contains(id) by {
                if exists|k: Seq<char>, n: Seq<char>, i: int| #[trigger]
                    self@.instance_has(k, n, i, id) {
                    let (k, n, i) = choose|k: Seq<char>, n: Seq<char>, i: int| #[trigger]
                        self@.instance_has(k, n, i, id);
                    let p = choose|p: int| 0 <= p < pairs.len() && (#[trigger] pairs[p]).0 == k;
                    assert(covers_group(ids@, pairs[p].1));
                    assert(ids@.contains(pairs[p].1.actors[n].instances[i].id));
                } else {
                    let (k, l) = choose|k: Seq<char>, l: Seq<char>| #[trigger]
                        self@.process_has(k, l, id);
                    let p = choose|p: int|
                        0 <= p < provider_pairs.len() && (#[trigger] provider_pairs[p]).0 == k;
                    assert(covers_provider(ids@, provider_pairs[p].1));
                    assert(provider_pairs[p].1.instances.contains_key(l));
                }
            }
        }
        ids
    }

    /// An identifier that nothing on the host goes by: one made of the time and
    /// of chance, or else the next one that is free.
    pub(crate) fn new_id(&self) -> (r: u128)
        ensures
            !self@.uses(r),
    {
        let used = self.ids_in_use();
        free_id(new_ulid(), &used)
    }
}

/// What a host uses, it uses as well once it got to know more actors and
/// providers.
pub(crate) proof fn lemma_uses(host: HostView, after: HostView, id: u128)
    requires
        host.uses(id),
        forall|k: Seq<char>, n: Seq<char>|
            host.actors.contains_key(k) && #[trigger] host.actors[k].actors.contains_key(n)
                ==> after.actors.contains_key(k) && after.actors[k].actors.contains_key(n)
                && after.actors[k].actors[n] == host.actors[k].actors[n],
        forall|k: Seq<char>| #[trigger]
            host.providers.contains_key(k) ==> after.providers.contains_key(k)
                && after.providers[k] == host.providers[k],
    ensures
        after.uses(id),
{
    if exists|k: Seq<char>, n: Seq<char>, i: int| #[trigger] host.instance_has(k, n, i, id) {
        let (k, n, i) = choose|k: Seq<char>, n: Seq<char>, i: int| #[trigger]
            host.instance_has(k, n, i, id);
        assert(host.actors[k].actors.contains_key(n));
        assert(after.instance_has(k, n, i, id));
    } else {
        let (k, l) = choose|k: Seq<char>, l: Seq<char>| #[trigger] host.process_has(k, l, id);
        assert(after.process_has(k, l, id));
    }
}

/// Instances with identifiers that nothing on the host and no other of them
/// goes by can be put to an actor: all identifiers are still apart. `added` is
/// the actor with the new instances behind those that it had.
pub proof fn new_instances_keep_ids_apart(
    host: HostView,
    public_key: Seq<char>,
    name: Seq<char>,
    added: ActorStateView,
    more: Seq<InstanceView>,
)
    requires
        host.ids_apart(),
        host.actors.contains_key(public_key),
        added.instances == host.instances(public_key, name) + more,
        forall|i: int| 0 <= i < more.len() ==> !host.uses((#[trigger] more[i]).id),
        forall|i: int, j: int|
            0 <= j < i < more.len() ==> (#[trigger] more[j]).id != (#[trigger] more[i]).id,
    ensures
        host.with_actor(public_key, name, added).ids_apart(),
{
    let after = host.with_actor(public_key, name, added);
    let had = host.instances(public_key, name).len() as int;
    assert forall|k: Seq<char>, n: Seq<char>, i: int, id: u128| #[trigger]
        after.instance_has(k, n, i, id) implies host.instance_has(k, n, i, id) || (k == public_key
        && n == name && had <= i < had + more.len() && more[i - had].id == id && !host.uses(
        id,
    )) by {
        if k == public_key && n == name && i >= had {
            assert(added.instances[i] == more[i - had]);
        }
    }
    assert forall|k: Seq<char>, l: Seq<char>, id: u128| #[trigger]
        after.process_has(k, l, id) implies host.process_has(k, l, id) by {}
}

/// A process with an identifier that nothing on the host goes by can be put to
/// a provider: all identifiers are still apart.
pub proof fn new_processes_keep_ids_apart(
    host: HostView,
    key: Seq<char>,
    link_name: Seq<char>,
    id: u128,
)
    requires
        host.ids_apart(),
        host.providers.contains_key(key),
        !host.uses(id),
    ensures
        host.with_provider_instance(key, link_name, id).ids_apart(),
{
    let after = host.with_provider_instance(key, link_name, id);
    assert forall|k: Seq<char>, l: Seq<char>, x: u128| #[trigger]
        after.process_has(k, l, x) implies host.process_has(k, l, x) || (k == key && l == link_name
        && x == id) by {}
    assert forall|k: Seq<char>, n: Seq<char>, i: int, x: u128| #[trigger]
        after.instance_has(k, n, i, x) implies host.instance_has(k, n, i, x) by {}
}

/// The identifiers of all instances and processes that run are in use, and no
/// others are.
pub proof fn running_things_use_their_id(host: HostView, id: u128)
    ensures
        host.uses(id) <==> (exists|k: Seq<char>, n: Seq<char>, i: int|
            host.actors.contains_key(k) && host.actors[k].actors.contains_key(n) && 0 <= i
                < host.actors[k].actors[n].instances.len() && (
            #[trigger] host.actors[k].actors[n].instances[i]).id == id) || (exists|
            k: Seq<char>,
            l: Seq<char>,
        |
            host.providers.contains_key(k) && host.providers[k].instances.contains_key(l)
                && #[trigger] host.providers[k].instances[l] == id),
{
    if host.uses(id) {
        if exists|k: Seq<char>, n: Seq<char>, i: int| #[trigger] host.instance_has(k, n, i, id) {
            let (k, n, i) = choose|k: Seq<char>, n: Seq<char>, i: int| #[trigger]
                host.instance_has(k, n, i, id);
            assert(host.actors[k].actors[n].instances[i].id == id);
        } else {
            let (k, l) = choose|k: Seq<char>, l: Seq<char>| #[trigger] host.process_has(k, l, id);
            assert(host.providers[k].instances[l] == id);
        }
    }
    if exists|k: Seq<char>, n: Seq<char>, i: int|
        host.actors.contains_key(k) && host.actors[k].actors.contains_key(n) && 0 <= i
            < host.actors[k].actors[n].instances.len() && (
        #[trigger] host.actors[k].actors[n].instances[i]).id == id {
        let (k, n, i) = choose|k: Seq<char>, n: Seq<char>, i: int|
            host.actors.contains_key(k) && host.actors[k].actors.contains_key(n) && 0 <= i
                < host.actors[k].actors[n].instances.len() && (
            #[trigger] host.actors[k].actors[n].instances[i]).id == id;
        assert(host.instance_has(k, n, i, id));
    }
    if exists|k: Seq<char>, l: Seq<char>|
        host.providers.contains_key(k) && host.providers[k].instances.contains_key(l)
            && #[trigger] host.providers[k].instances[l] == id {
        let (k, l) = choose|k: Seq<char>, l: Seq<char>|
            host.providers.contains_key(k) && host.providers[k].instances.contains_key(l)
                && #[trigger] host.providers[k].instances[l] == id;
        assert(host.process_has(k, l, id));
    }
}

/// Where no two things that run share an identifier, two that do are one and the
/// same.
pub proof fn shared_ids_are_of_one_thing(
    host: HostView,
    k: Seq<char>,
    n: Seq<char>,
    i: int,
    l: Seq<char>,
    m: Seq<char>,
    j: int,
)
    requires
        host.ids_apart(),
        host.actors.contains_key(k),
        host.actors[k].actors.contains_key(n),
        0 <= i < host.actors[k].actors[n].instances.len(),
    ensures
        host.actors.contains_key(l) && host.actors[l].actors.contains_key(m) && 0 <= j
            < host.actors[l].actors[m].instances.len() && host.actors[l].actors[m].instances[j].id
            == host.actors[k].actors[n].instances[i].id ==> k == l && n == m && i == j,
        host.providers.contains_key(l) && host.providers[l].instances.contains_key(m)
            ==> host.providers[l].instances[m] != host.actors[k].actors[n].instances[i].id,
{
    let id = host.actors[k].actors[n].instances[i].id;
    assert(host.instance_has(k, n, i, id));
    if host.actors.contains_key(l) && host.actors[l].actors.contains_key(m) && 0 <= j
        < host.actors[l].actors[m].instances.len() && host.actors[l].actors[m].instances[j].id
        == id {
        assert(host.instance_has(l, m, j, id));
    }
    if host.providers.contains_key(l) && host.providers[l].instances.contains_key(m)
        && host.providers[l].instances[m] == id {
        assert(host.process_has(l, m, id));
    }
}

/// Where no two things that run share an identifier, no two processes do.
pub proof fn processes_have_their_own_ids(
    host: HostView,
    k: Seq<char>,
    n: Seq<char>,
    l: Seq<char>,
    m: Seq<char>,
)
    requires
        host.ids_apart(),
        host.providers.contains_key(k),
        host.providers[k].instances.contains_key(n),
        host.providers.contains_key(l),
        host.providers[l].instances.contains_key(m),
        host.providers[k].instances[n] == host.providers[l].instances[m],
    ensures
        k == l && n == m,
{
    let id = host.providers[k].instances[n];
    assert(host.process_has(k, n, id) && host.process_has(l, m, id));
}

} // verus!
