//! The links of the lattice, and what each actor sees of them.

use vstd::prelude::*;
use vstd::utf8::encode_utf8;

use crate::codec::{encode_hex_upper, sha256_digest};
use crate::entity::{LinkDefinition, Links, WasmCloudEntity};
use crate::table::Table;

verus! {

use crate::codec::{hex_upper, sha256};
use crate::entity::{EntityView, LinkDefinitionView};
use crate::table::enumerates;

/// Contract, then link name, then provider.
pub type LinksView = Map<Seq<char>, Map<Seq<char>, EntityView>>;

/// The place of a link in the link table: the digest of its actor, contract
/// and name, one behind the other.
pub open spec fn linkdef_id(actor_id: Seq<char>, contract_id: Seq<char>, link_name: Seq<char>) -> Seq<
    char,
> {
    hex_upper(sha256(encode_utf8(actor_id) + encode_utf8(contract_id) + encode_utf8(link_name)))
}

/// The place of a link in the link table.
pub fn linkdef_hash(actor_id: &String, contract_id: &String, link_name: &String) -> (r: String)
    ensures
        r@ == linkdef_id(actor_id@, contract_id@, link_name@),
{
    let mut bytes: Vec<u8> = Vec::new();
    bytes.extend_from_slice(actor_id.as_str().as_bytes());
    bytes.extend_from_slice(contract_id.as_str().as_bytes());
    bytes.extend_from_slice(link_name.as_str().as_bytes());
    assert(bytes@ =~= encode_utf8(actor_id@) + encode_utf8(contract_id@) + encode_utf8(link_name@));
    encode_hex_upper(sha256_digest(bytes.as_slice()).as_slice())
}

/// Every link of the table stands at its own place.
pub open spec fn filed(links: Map<Seq<char>, LinkDefinitionView>) -> bool {
    forall|id: Seq<char>| #[trigger]
        links.contains_key(id) ==> id == linkdef_id(
            links[id].actor_id,
            links[id].contract_id,
            links[id].link_name,
        )
}

/// Whether the table holds, at `id`, a link of this actor, contract and name.
pub open spec fn is_link(
    links: Map<Seq<char>, LinkDefinitionView>,
    id: Seq<char>,
    actor_id: Seq<char>,
    contract_id: Seq<char>,
    link_name: Seq<char>,
) -> bool {
    &&& links.contains_key(id)
    &&& links[id].actor_id == actor_id
    &&& links[id].contract_id == contract_id
    &&& links[id].link_name == link_name
}

/// Whether an actor sees a provider under this contract and link name.
pub open spec fn has_link(m: LinksView, contract_id: Seq<char>, link_name: Seq<char>) -> bool {
    m.contains_key(contract_id) && m[contract_id].contains_key(link_name)
}

/// An actor sees exactly the links that the table holds for it.
pub open spec fn shows_links(
    m: LinksView,
    links: Map<Seq<char>, LinkDefinitionView>,
    actor_id: Seq<char>,
) -> bool {
    &&& forall|c: Seq<char>, n: Seq<char>| #[trigger]
        has_link(m, c, n) ==> exists|id: Seq<char>| is_link(links, id, actor_id, c, n)
    &&& forall|id: Seq<char>| #[trigger]
        links.contains_key(id) && links[id].actor_id == actor_id ==> has_link(
            m,
            links[id].contract_id,
            links[id].link_name,
        ) && m[links[id].contract_id][links[id].link_name] == links[id].provider()
}

/// The same providers are seen, each under the same contract and link name.
pub open spec fn same_links(a: LinksView, b: LinksView) -> bool {
    forall|c: Seq<char>, n: Seq<char>|
        #![trigger has_link(a, c, n)]
        #![trigger has_link(b, c, n)]
        has_link(a, c, n) == has_link(b, c, n) && (has_link(a, c, n) ==> a[c][n] == b[c][n])
}

/// What an actor sees is settled by the table alone.
pub proof fn lemma_shown_once(
    a: LinksView,
    b: LinksView,
    links: Map<Seq<char>, LinkDefinitionView>,
    actor_id: Seq<char>,
)
    requires
        shows_links(a, links, actor_id),
        shows_links(b, links, actor_id),
    ensures
        same_links(a, b),
{
    assert forall|c: Seq<char>, n: Seq<char>|
        #![trigger has_link(a, c, n)]
        #![trigger has_link(b, c, n)]
        has_link(a, c, n) == has_link(b, c, n) && (has_link(a, c, n) ==> a[c][n] == b[c][n]) by {
        if has_link(a, c, n) || has_link(b, c, n) {
            let id = choose|id: Seq<char>| is_link(links, id, actor_id, c, n);
            assert(links.contains_key(id));
        }
    }
}

/// No contract stands there without a link.
pub open spec fn no_empty_contract(m: LinksView) -> bool {
    forall|c: Seq<char>| #[trigger]
        m.contains_key(c) ==> exists|n: Seq<char>| #[trigger] has_link(m, c, n)
}

/// What an actor sees once a link is put there.
pub open spec fn with_link(m: LinksView, ld: LinkDefinitionView) -> LinksView {
    let inner = if m.contains_key(ld.contract_id) {
        m[ld.contract_id]
    } else {
        Map::empty()
    };
    m.insert(ld.contract_id, inner.insert(ld.link_name, ld.provider()))
}

/// What an actor sees once a link is taken away. The contract stays, also with
/// no link left.
pub open spec fn without_link(m: LinksView, ld: LinkDefinitionView) -> LinksView {
    if m.contains_key(ld.contract_id) {
        m.insert(ld.contract_id, m[ld.contract_id].remove(ld.link_name))
    } else {
        m
    }
}

pub fn put_link(m: &mut Links, ld: &LinkDefinition)
    ensures
        final(m)@ == with_link(old(m)@, ld@),
{
    let mut inner: Table<String, WasmCloudEntity> = match m.remove(&ld.contract_id) {
        Some(inner) => inner,
        None => Table::new(),
    };
    inner.insert(ld.link_name.clone(), ld.provider());
    m.insert(ld.contract_id.clone(), inner);
    assert(m@ =~= with_link(old(m)@, ld@));
}

pub fn drop_link(m: &mut Links, ld: &LinkDefinition)
    ensures
        final(m)@ == without_link(old(m)@, ld@),
{
    match m.remove(&ld.contract_id) {
        Some(mut inner) => {
            inner.remove(&ld.link_name);
            m.insert(ld.contract_id.clone(), inner);
        },
        None => {},
    }
    assert(m@ =~= without_link(old(m)@, ld@));
}

/// Putting a new link into the table and before the eyes of its actor keeps
/// the two in step.
pub proof fn lemma_with_link(
    m: LinksView,
    links: Map<Seq<char>, LinkDefinitionView>,
    ld: LinkDefinitionView,
)
    requires
        filed(links),
        shows_links(m, links, ld.actor_id),
        !links.contains_key(linkdef_id(ld.actor_id, ld.contract_id, ld.link_name)),
    ensures
        shows_links(
            with_link(m, ld),
            links.insert(linkdef_id(ld.actor_id, ld.contract_id, ld.link_name), ld),
            ld.actor_id,
        ),
{
    let id = linkdef_id(ld.actor_id, ld.contract_id, ld.link_name);
    let after = links.insert(id, ld);
    let seen = with_link(m, ld);
    assert forall|c: Seq<char>, n: Seq<char>| #[trigger] has_link(seen, c, n) implies exists|
        j: Seq<char>,
    | is_link(after, j, ld.actor_id, c, n) by {
        if c == ld.contract_id && n == ld.link_name {
            assert(is_link(after, id, ld.actor_id, c, n));
        } else {
            assert(has_link(m, c, n));
            let j = choose|j: Seq<char>| is_link(links, j, ld.actor_id, c, n);
            assert(is_link(after, j, ld.actor_id, c, n));
        }
    }
    assert forall|j: Seq<char>| #[trigger]
        after.contains_key(j) && after[j].actor_id == ld.actor_id implies has_link(
        seen,
        after[j].contract_id,
        after[j].link_name,
    ) && seen[after[j].contract_id][after[j].link_name] == after[j].provider() by {
        if j != id {
            assert(links.contains_key(j));
            assert(has_link(m, links[j].contract_id, links[j].link_name));
        }
    }
}

/// Taking a link out of the table and from the eyes of its actor keeps the two
/// in step.
pub proof fn lemma_without_link(
    m: LinksView,
    links: Map<Seq<char>, LinkDefinitionView>,
    id: Seq<char>,
)
    requires
        filed(links),
        links.contains_key(id),
        shows_links(m, links, links[id].actor_id),
    ensures
        shows_links(without_link(m, links[id]), links.remove(id), links[id].actor_id),
{
    let ld = links[id];
    let after = links.remove(id);
    let seen = without_link(m, ld);
    assert(has_link(m, ld.contract_id, ld.link_name));
    assert forall|c: Seq<char>, n: Seq<char>| #[trigger] has_link(seen, c, n) implies exists|
        j: Seq<char>,
    | is_link(after, j, ld.actor_id, c, n) by {
        assert(has_link(m, c, n));
        let j = choose|j: Seq<char>| is_link(links, j, ld.actor_id, c, n);
        assert(is_link(after, j, ld.actor_id, c, n));
    }
    assert forall|j: Seq<char>| #[trigger]
        after.contains_key(j) && after[j].actor_id == ld.actor_id implies has_link(
        seen,
        after[j].contract_id,
        after[j].link_name,
    ) && seen[after[j].contract_id][after[j].link_name] == after[j].provider() by {
        assert(links.contains_key(j));
        assert(has_link(m, links[j].contract_id, links[j].link_name));
    }
}

/// A change of another actor's link is not seen.
pub proof fn lemma_other_actor(
    m: LinksView,
    before: Map<Seq<char>, LinkDefinitionView>,
    after: Map<Seq<char>, LinkDefinitionView>,
    id: Seq<char>,
    actor_id: Seq<char>,
)
    requires
        shows_links(m, before, actor_id),
        forall|j: Seq<char>|
            j != id ==> (#[trigger] before.contains_key(j) == after.contains_key(j)) && (
            after.contains_key(j) ==> after[j] == before[j]),
        before.contains_key(id) ==> before[id].actor_id != actor_id,
        after.contains_key(id) ==> after[id].actor_id != actor_id,
    ensures
        shows_links(m, after, actor_id),
{
    assert forall|c: Seq<char>, n: Seq<char>| #[trigger] has_link(m, c, n) implies exists|
        j: Seq<char>,
    | is_link(after, j, actor_id, c, n) by {
        let j = choose|j: Seq<char>| is_link(before, j, actor_id, c, n);
        assert(before.contains_key(j) == after.contains_key(j));
        assert(is_link(after, j, actor_id, c, n));
    }
    assert forall|j: Seq<char>| #[trigger]
        after.contains_key(j) && after[j].actor_id == actor_id implies has_link(
        m,
        after[j].contract_id,
        after[j].link_name,
    ) && m[after[j].contract_id][after[j].link_name] == after[j].provider() by {
        assert(before.contains_key(j) == after.contains_key(j));
    }
}

spec fn first_links(pairs: Seq<(Seq<char>, LinkDefinitionView)>, n: int) -> Map<
    Seq<char>,
    LinkDefinitionView,
> {
    Map::new(
        |id: Seq<char>| exists|i: int| 0 <= i < n && (#[trigger] pairs[i]).0 == id,
        |id: Seq<char>| pairs[choose|i: int| 0 <= i < n && (#[trigger] pairs[i]).0 == id].1,
    )
}

proof fn lemma_first_links(
    pairs: Seq<(Seq<char>, LinkDefinitionView)>,
    n: int,
    links: Map<Seq<char>, LinkDefinitionView>,
)
    requires
        enumerates(pairs, links),
        0 <= n <= pairs.len(),
    ensures
        n == 0 ==> first_links(pairs, n) == Map::<Seq<char>, LinkDefinitionView>::empty(),
        n < pairs.len() ==> first_links(pairs, n + 1) == first_links(pairs, n).insert(
            pairs[n].0,
            pairs[n].1,
        ) && !first_links(pairs, n).contains_key(pairs[n].0),
        n == pairs.len() ==> first_links(pairs, n) == links,
        filed(links) ==> filed(first_links(pairs, n)),
{
    let m = first_links(pairs, n);
    assert forall|id: Seq<char>| #[trigger] m.contains_key(id) implies links.contains_key(id)
        && links[id] == m[id] by {
        let i = choose|i: int| 0 <= i < n && (#[trigger] pairs[i]).0 == id;
        assert(pairs[i].0 == id);
    }
    if n == 0 {
        assert(m =~= Map::<Seq<char>, LinkDefinitionView>::empty());
    }
    if n == pairs.len() {
        assert forall|id: Seq<char>| #[trigger] links.contains_key(id) implies m.contains_key(
            id,
        ) by {
            let i = choose|i: int| 0 <= i < pairs.len() && (#[trigger] pairs[i]).0 == id;
            assert(pairs[i].0 == id);
        }
        assert(m =~= links);
    }
    if n < pairs.len() {
        let a = first_links(pairs, n + 1);
        let b = m.insert(pairs[n].0, pairs[n].1);
        assert forall|id: Seq<char>| #[trigger] a.dom().contains(id) == b.dom().contains(id) && (
        a.dom().contains(id) ==> a[id] == b[id]) by {
            if a.dom().contains(id) {
                let i = choose|i: int| 0 <= i < n + 1 && (#[trigger] pairs[i]).0 == id;
                assert(pairs[i].0 == id);
                if i < n {
                    assert(m.contains_key(id));
                    let j = choose|j: int| 0 <= j < n && (#[trigger] pairs[j]).0 == id;
                    assert(pairs[j].0 == id);
                }
            }
            if b.dom().contains(id) {
                if m.contains_key(id) {
                    let i = choose|i: int| 0 <= i < n && (#[trigger] pairs[i]).0 == id;
                    assert(pairs[i].0 == id);
                } else {
                    assert(pairs[n].0 == id);
                }
            }
        }
        assert(a.dom() =~= b.dom());
        assert(a =~= b);
        if m.contains_key(pairs[n].0) {
            let i = choose|i: int| 0 <= i < n && (#[trigger] pairs[i]).0 == pairs[n].0;
            assert(pairs[i].0 == pairs[n].0);
        }
    }
}

/// The links of one actor, as the table holds them.
pub fn links_of_actor(links: &Table<String, LinkDefinition>, key: &String) -> (r: Links)
    requires
        filed(links@),
    ensures
        shows_links(r@, links@, key@),
        no_empty_contract(r@),
{
    let mut r: Links = Table::new();
    let n: usize = links.len();
    let mut i: usize = 0;
    proof {
        lemma_first_links(links.pairs(), 0, links@);
    }
    while i < n
        invariant
            i <= n == links.pairs().len(),
            enumerates(links.pairs(), links@),
            filed(links@),
            shows_links(r@, first_links(links.pairs(), i as int), key@),
            no_empty_contract(r@),
        decreases n - i,
    {
        let ld = links.value_at(i);
        let ghost before = first_links(links.pairs(), i as int);
        let ghost id = links.pairs()[i as int].0;
        let ghost seen = r@;
        proof {
            lemma_first_links(links.pairs(), i as int, links@);
            lemma_first_links(links.pairs(), i + 1, links@);
            assert(links@.contains_key(id));
            assert(id == linkdef_id(ld@.actor_id, ld@.contract_id, ld@.link_name));
        }
        if ld.actor_id == *key {
            put_link(&mut r, ld);
            proof {
                lemma_with_link(seen, before, ld@);
                assert forall|c: Seq<char>| #[trigger] r@.contains_key(c) implies exists|
                    n: Seq<char>,
                | #[trigger] has_link(r@, c, n) by {
                    if c == ld@.contract_id {
                        assert(has_link(r@, c, ld@.link_name));
                    } else {
                        assert(seen.contains_key(c));
                        let n = choose|n: Seq<char>| #[trigger] has_link(seen, c, n);
                        assert(has_link(r@, c, n));
                    }
                }
            }
        } else {
            proof {
                lemma_other_actor(seen, before, before.insert(id, ld@), id, key@);
            }
        }
        i = i + 1;
    }
    proof {
        lemma_first_links(links.pairs(), n as int, links@);
    }
    r
}

/// A link that an actor comes to see is seen under its contract and name, with
/// its provider; what else the actor sees stays.
pub proof fn new_links_are_seen(
    m: LinksView,
    ld: LinkDefinitionView,
    contract_id: Seq<char>,
    link_name: Seq<char>,
)
    ensures
        ({
            let after = with_link(m, ld);
            let there = m.contains_key(contract_id) && m[contract_id].contains_key(link_name);
            let seen = after.contains_key(contract_id) && after[contract_id].contains_key(
                link_name,
            );
            let same = contract_id == ld.contract_id && link_name == ld.link_name;
            &&& seen <==> same || there
            &&& same ==> after[contract_id][link_name].public_key == ld.provider_id
                && after[contract_id][link_name].link_name == ld.link_name
                && after[contract_id][link_name].contract_id == ld.contract_id
            &&& !same && there ==> after[contract_id][link_name] == m[contract_id][link_name]
        }),
{
}

/// A link that an actor no longer sees is not seen; what else the actor sees
/// stays.
pub proof fn dropped_links_are_not_seen(
    m: LinksView,
    ld: LinkDefinitionView,
    contract_id: Seq<char>,
    link_name: Seq<char>,
)
    ensures
        ({
            let after = without_link(m, ld);
            let there = m.contains_key(contract_id) && m[contract_id].contains_key(link_name);
            let seen = after.contains_key(contract_id) && after[contract_id].contains_key(
                link_name,
            );
            let same = contract_id == ld.contract_id && link_name == ld.link_name;
            &&& seen <==> there && !same
            &&& seen ==> after[contract_id][link_name] == m[contract_id][link_name]
        }),
{
}

/// What an actor is shown: under a contract and a name, the provider of a link
/// that the table holds for it under them; and all of those.
pub proof fn shown_links_are_those_of_the_table(
    m: LinksView,
    links: Map<Seq<char>, LinkDefinitionView>,
    actor_id: Seq<char>,
    contract_id: Seq<char>,
    link_name: Seq<char>,
    id: Seq<char>,
)
    requires
        shows_links(m, links, actor_id),
    ensures
        (m.contains_key(contract_id) && m[contract_id].contains_key(link_name)) ==> exists|
            j: Seq<char>,
        |
            {
                &&& #[trigger] links.contains_key(j)
                &&& links[j].actor_id == actor_id
                &&& links[j].contract_id == contract_id
                &&& links[j].link_name == link_name
                &&& m[contract_id][link_name].public_key == links[j].provider_id
            },
        links.contains_key(id) && links[id].actor_id == actor_id ==> {
            &&& m.contains_key(links[id].contract_id)
            &&& m[links[id].contract_id].contains_key(links[id].link_name)
            &&& m[links[id].contract_id][links[id].link_name].public_key == links[id].provider_id
            &&& m[links[id].contract_id][links[id].link_name].link_name == links[id].link_name
            &&& m[links[id].contract_id][links[id].link_name].contract_id == links[id].contract_id
        },
{
    if m.contains_key(contract_id) && m[contract_id].contains_key(link_name) {
        assert(has_link(m, contract_id, link_name));
        let j = choose|j: Seq<char>| is_link(links, j, actor_id, contract_id, link_name);
        assert(links.contains_key(j));
    }
}

/// A table whose links stand at their own places has one link at most for an
/// actor, a contract and a name.
pub proof fn links_stand_at_their_own_place(
    links: Map<Seq<char>, LinkDefinitionView>,
    a: Seq<char>,
    b: Seq<char>,
)
    requires
        filed(links),
        links.contains_key(a),
        links.contains_key(b),
    ensures
        a == hex_upper(
            sha256(
                encode_utf8(links[a].actor_id) + encode_utf8(links[a].contract_id) + encode_utf8(
                    links[a].link_name,
                ),
            ),
        ),
        links[a].actor_id == links[b].actor_id && links[a].contract_id == links[b].contract_id
            && links[a].link_name == links[b].link_name ==> a == b,
{
}

} // verus!
