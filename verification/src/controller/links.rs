//! Resolving links to their two ends, and counting who asks for each.

use vstd::prelude::*;
use vstd::string::*;

use crate::controller::Action;
use crate::entity::LinkDefinition;
use crate::table::{Datum, Table};
use crate::v1alpha1::{LinkSpec, LinkStatus};

verus! {

use crate::entity::LinkDefinitionView;
use crate::host::HostView;
use crate::v1alpha1::{condition_views, ConditionView, LinkSpecView, LinkStatusView};

/// What looking for a resource by its name came to.
pub enum Lookup<T> {
    /// It could not be had.
    Failed,
    Found(T),
}

/// What matters of an actor that was found: its public key, if it has a status.
pub struct ActorFound {
    pub public_key: Option<String>,
}

/// What matters of a provider that was found: its link name, and its public
/// key, if it has a status.
pub struct ProviderFound {
    pub link: String,
    pub public_key: Option<String>,
}

/// What looking for an actor came to: no actor, or its public key if it has one.
pub ghost enum ActorLookup {
    Failed,
    Found(Option<Seq<char>>),
}

/// What looking for a provider came to: no provider, or its link name and its
/// public key if it has one.
pub ghost enum ProviderLookup {
    Failed,
    Found(Seq<char>, Option<Seq<char>>),
}

impl View for Lookup<ActorFound> {
    type V = ActorLookup;

    open spec fn view(&self) -> ActorLookup {
        match self {
            Lookup::Failed => ActorLookup::Failed,
            Lookup::Found(a) => ActorLookup::Found(crate::text::text_opt(a.public_key)),
        }
    }
}

impl View for Lookup<ProviderFound> {
    type V = ProviderLookup;

    open spec fn view(&self) -> ProviderLookup {
        match self {
            Lookup::Failed => ProviderLookup::Failed,
            Lookup::Found(p) => ProviderLookup::Found(
                p.link@,
                crate::text::text_opt(p.public_key),
            ),
        }
    }
}

/// How far a link is resolved.
pub enum LinkStep {
    /// It is not resolved; it is looked at again.
    Wait(Action),
    /// The actor of this name has to be looked for.
    FindActor { name: String, draft: LinkDefinition },
    /// The provider of this name has to be looked for.
    FindProvider { name: String, draft: LinkDefinition },
    /// It is resolved.
    Resolved(LinkDefinition),
}

pub ghost enum StepView {
    Wait(Action),
    FindActor(Seq<char>, LinkDefinitionView),
    FindProvider(Seq<char>, LinkDefinitionView),
    Resolved(LinkDefinitionView),
}

impl View for LinkStep {
    type V = StepView;

    open spec fn view(&self) -> StepView {
        match self {
            LinkStep::Wait(action) => StepView::Wait(*action),
            LinkStep::FindActor { name, draft } => StepView::FindActor(name@, draft@),
            LinkStep::FindProvider { name, draft } => StepView::FindProvider(name@, draft@),
            LinkStep::Resolved(ld) => StepView::Resolved(ld@),
        }
    }
}

/// Both ends and the link name are known from before.
pub open spec fn settled(status: Option<LinkStatusView>) -> bool {
    status matches Some(s) && s.provider_key.len() > 0 && s.actor_key.len() > 0
        && s.link_name.len() > 0
}

/// The view of an optional status.
pub open spec fn status_view(status: Option<LinkStatus>) -> Option<LinkStatusView> {
    match status {
        Some(s) => Some(s@),
        None => None,
    }
}

/// The actor end of a link: what is known from before, the key that is asked
/// for, or that of the actor of a name.
pub open spec fn actor_end(
    spec: LinkSpecView,
    status: Option<LinkStatusView>,
    found: ActorLookup,
) -> Result<Seq<char>, Action> {
    if settled(status) {
        Ok(status->0.actor_key)
    } else if spec.actor.key.len() > 0 {
        Ok(spec.actor.key)
    } else if spec.actor.name.len() == 0 {
        Err(Action::AwaitChange)
    } else {
        match found {
            ActorLookup::Failed => Err(Action::Requeue(60)),
            ActorLookup::Found(None) => Err(Action::Requeue(10)),
            ActorLookup::Found(Some(key)) => if key.len() == 0 {
                Err(Action::Requeue(10))
            } else {
                Ok(key)
            },
        }
    }
}

/// The provider end of a link, with the link name: what is known from before,
/// those of the provider of a name, which have to agree with what is asked for,
/// or the key and link name that are asked for.
pub open spec fn provider_end(
    spec: LinkSpecView,
    status: Option<LinkStatusView>,
    found: ProviderLookup,
) -> Result<(Seq<char>, Seq<char>), Action> {
    if settled(status) {
        Ok((status->0.provider_key, status->0.link_name))
    } else if spec.provider.name.len() > 0 {
        match found {
            ProviderLookup::Failed => Err(Action::Requeue(60)),
            ProviderLookup::Found(link, key) => if spec.link_name.len() > 0 && spec.link_name
                != link {
                Err(Action::AwaitChange)
            } else {
                match key {
                    None => Err(Action::Requeue(10)),
                    Some(key) => if key.len() == 0 || (spec.provider.key.len() > 0 && key
                        != spec.provider.key) {
                        Err(Action::Requeue(10))
                    } else {
                        Ok((key, link))
                    },
                }
            },
        }
    } else if spec.provider.key.len() > 0 {
        Ok((spec.provider.key, spec.link_name))
    } else {
        Err(Action::AwaitChange)
    }
}

/// What a link is resolved to, given what looking for its ends came to: the
/// definition, or when the link is looked at again. A provider that is asked
/// for by its key needs a link name. The actor is looked at first.
pub open spec fn link_outcome(
    spec: LinkSpecView,
    status: Option<LinkStatusView>,
    actor: ActorLookup,
    provider: ProviderLookup,
) -> Result<LinkDefinitionView, Action> {
    if spec.link_name.len() == 0 && spec.provider.key.len() > 0 {
        Err(Action::AwaitChange)
    } else {
        match actor_end(spec, status, actor) {
            Err(action) => Err(action),
            Ok(actor_id) => match provider_end(spec, status, provider) {
                Err(action) => Err(action),
                Ok((provider_id, link_name)) => Ok(
                    LinkDefinitionView {
                        actor_id,
                        provider_id,
                        link_name,
                        contract_id: spec.contract_id,
                        values: spec.values,
                    },
                ),
            },
        }
    }
}

/// The first step towards a link.
pub open spec fn first_step(spec: LinkSpecView, status: Option<LinkStatusView>) -> StepView {
    let draft = LinkDefinitionView {
        actor_id: if settled(status) {
            status->0.actor_key
        } else {
            spec.actor.key
        },
        provider_id: if settled(status) {
            status->0.provider_key
        } else {
            Seq::empty()
        },
        link_name: if settled(status) {
            status->0.link_name
        } else {
            spec.link_name
        },
        contract_id: spec.contract_id,
        values: spec.values,
    };
    if spec.link_name.len() == 0 && spec.provider.key.len() > 0 {
        StepView::Wait(Action::AwaitChange)
    } else if draft.actor_id.len() > 0 {
        provider_step(spec, draft)
    } else if spec.actor.name.len() > 0 {
        StepView::FindActor(spec.actor.name, draft)
    } else {
        StepView::Wait(Action::AwaitChange)
    }
}

/// The step once the actor end is known.
pub open spec fn provider_step(spec: LinkSpecView, draft: LinkDefinitionView) -> StepView {
    if draft.provider_id.len() > 0 && draft.link_name.len() > 0 {
        StepView::Resolved(draft)
    } else if spec.provider.name.len() > 0 {
        StepView::FindProvider(spec.provider.name, draft)
    } else if spec.provider.key.len() > 0 {
        StepView::Resolved(LinkDefinitionView { provider_id: spec.provider.key, ..draft })
    } else {
        StepView::Wait(Action::AwaitChange)
    }
}

/// The step once the actor has been looked for.
pub open spec fn actor_found_step(
    spec: LinkSpecView,
    draft: LinkDefinitionView,
    found: ActorLookup,
) -> StepView {
    match found {
        ActorLookup::Failed => StepView::Wait(Action::Requeue(60)),
        ActorLookup::Found(None) => StepView::Wait(Action::Requeue(10)),
        ActorLookup::Found(Some(key)) => if key.len() == 0 {
            StepView::Wait(Action::Requeue(10))
        } else {
            provider_step(spec, LinkDefinitionView { actor_id: key, ..draft })
        },
    }
}

/// The step once the provider has been looked for.
pub open spec fn provider_found_step(
    spec: LinkSpecView,
    draft: LinkDefinitionView,
    found: ProviderLookup,
) -> StepView {
    match found {
        ProviderLookup::Failed => StepView::Wait(Action::Requeue(60)),
        ProviderLookup::Found(link, key) => if draft.link_name.len() > 0 && draft.link_name
            != link {
            StepView::Wait(Action::AwaitChange)
        } else {
            match key {
                None => StepView::Wait(Action::Requeue(10)),
                Some(key) => if key.len() == 0 || (spec.provider.key.len() > 0 && key
                    != spec.provider.key) {
                    StepView::Wait(Action::Requeue(10))
                } else {
                    StepView::Resolved(
                        LinkDefinitionView { provider_id: key, link_name: link, ..draft },
                    )
                },
            }
        },
    }
}

fn step_to_provider(spec: &LinkSpec, draft: LinkDefinition) -> (r: LinkStep)
    ensures
        r@ == provider_step(spec@, draft@),
{
    if !draft.provider_id.as_str().is_empty() && !draft.link_name.as_str().is_empty() {
        LinkStep::Resolved(draft)
    } else if !spec.provider.name.as_str().is_empty() {
        LinkStep::FindProvider { name: spec.provider.name.clone(), draft }
    } else if !spec.provider.key.as_str().is_empty() {
        let mut ld = draft;
        ld.provider_id = spec.provider.key.clone();
        LinkStep::Resolved(ld)
    } else {
        LinkStep::Wait(Action::AwaitChange)
    }
}

/// Takes the first step towards a link.
pub fn begin_link(spec: &LinkSpec, status: &Option<LinkStatus>) -> (r: LinkStep)
    ensures
        r@ == first_step(spec@, status_view(*status)),
{
    if spec.link_name.as_str().is_empty() && !spec.provider.key.as_str().is_empty() {
        return LinkStep::Wait(Action::AwaitChange);
    }
    let mut draft = LinkDefinition {
        actor_id: String::new(),
        provider_id: String::new(),
        link_name: spec.link_name.clone(),
        contract_id: spec.contract_id.clone(),
        values: spec.values.duplicate(),
    };
    match status {
        Some(s) => {
            if !s.provider_key.as_str().is_empty() && !s.actor_key.as_str().is_empty()
                && !s.link_name.as_str().is_empty() {
                draft.actor_id = s.actor_key.clone();
                draft.provider_id = s.provider_key.clone();
                draft.link_name = s.link_name.clone();
            }
        },
        None => {},
    }
    if draft.actor_id.as_str().is_empty() {
        if !spec.actor.key.as_str().is_empty() {
            draft.actor_id = spec.actor.key.clone();
        } else if !spec.actor.name.as_str().is_empty() {
            assert(draft@.actor_id =~= spec@.actor.key);
            return LinkStep::FindActor { name: spec.actor.name.clone(), draft };
        } else {
            return LinkStep::Wait(Action::AwaitChange);
        }
    }
    step_to_provider(spec, draft)
}

/// Takes the next step, once the actor has been looked for.
pub fn actor_found(spec: &LinkSpec, draft: LinkDefinition, found: Lookup<ActorFound>) -> (r:
    LinkStep)
    ensures
        r@ == actor_found_step(spec@, draft@, found@),
{
    match found {
        Lookup::Failed => LinkStep::Wait(Action::Requeue(60)),
        Lookup::Found(actor) => match actor.public_key {
            None => LinkStep::Wait(Action::Requeue(10)),
            Some(key) => {
                if key.as_str().is_empty() {
                    LinkStep::Wait(Action::Requeue(10))
                } else {
                    let mut ld = draft;
                    ld.actor_id = key;
                    step_to_provider(spec, ld)
                }
            },
        },
    }
}

/// Takes the last step, once the provider has been looked for.
pub fn provider_found(spec: &LinkSpec, draft: LinkDefinition, found: Lookup<ProviderFound>) -> (r:
    LinkStep)
    ensures
        r@ == provider_found_step(spec@, draft@, found@),
{
    match found {
        Lookup::Failed => LinkStep::Wait(Action::Requeue(60)),
        Lookup::Found(provider) => {
            if !draft.link_name.as_str().is_empty() && draft.link_name != provider.link {
                return LinkStep::Wait(Action::AwaitChange);
            }
            match provider.public_key {
                None => LinkStep::Wait(Action::Requeue(10)),
                Some(key) => {
                    if key.as_str().is_empty() {
                        LinkStep::Wait(Action::Requeue(10))
                    } else if !spec.provider.key.as_str().is_empty() && key != spec.provider.key {
                        LinkStep::Wait(Action::Requeue(10))
                    } else {
                        let mut ld = draft;
                        ld.provider_id = key;
                        ld.link_name = provider.link;
                        LinkStep::Resolved(ld)
                    }
                },
            }
        },
    }
}

/// Whatever looking for the ends comes to, the steps lead to the outcome: each
/// end is looked for at most once, the actor before the provider, and then the
/// link is resolved or waits.
pub proof fn steps_lead_to_outcome(
    spec: LinkSpecView,
    status: Option<LinkStatusView>,
    actor: ActorLookup,
    provider: ProviderLookup,
)
    ensures
        ({
            let one = first_step(spec, status);
            let two = match one {
                StepView::FindActor(_, draft) => actor_found_step(spec, draft, actor),
                _ => one,
            };
            let three = match two {
                StepView::FindProvider(_, draft) => provider_found_step(spec, draft, provider),
                _ => two,
            };
            three == match link_outcome(spec, status, actor, provider) {
                Ok(ld) => StepView::Resolved(ld),
                Err(action) => StepView::Wait(action),
            }
        }),
{
}

/// The status of a link that is resolved.
pub open spec fn link_status_of(ld: LinkDefinitionView) -> LinkStatusView {
    LinkStatusView {
        provider_key: ld.provider_id,
        actor_key: ld.actor_id,
        link_name: ld.link_name,
        conditions: Seq::empty(),
    }
}

/// A link that is resolved once stays resolved the same way, whatever becomes
/// of the resources it was resolved from: the ends are taken from its status.
pub proof fn resolved_links_stay(
    spec: LinkSpecView,
    status: Option<LinkStatusView>,
    actor: ActorLookup,
    provider: ProviderLookup,
    later_actor: ActorLookup,
    later_provider: ProviderLookup,
)
    requires
        link_outcome(spec, status, actor, provider) is Ok,
        link_outcome(spec, status, actor, provider)->Ok_0.link_name.len() > 0,
    ensures
        ({
            let ld = link_outcome(spec, status, actor, provider)->Ok_0;
            let known = Some(link_status_of(ld));
            link_outcome(spec, known, later_actor, later_provider) == Ok::<
                LinkDefinitionView,
                Action,
            >(ld)
        }),
{
}

/// The status to write for a link that is resolved, unless it stands there
/// already.
pub fn link_patch(ld: &LinkDefinition, present: &Option<LinkStatus>) -> (r: Option<LinkStatus>)
    ensures
        if present matches Some(s) && s@ == link_status_of(ld@) {
            r is None
        } else {
            r matches Some(s) && s@ == link_status_of(ld@)
        },
{
    let status = LinkStatus {
        provider_key: ld.provider_id.clone(),
        actor_key: ld.actor_id.clone(),
        link_name: ld.link_name.clone(),
        conditions: Vec::new(),
    };
    assert(condition_views(status.conditions@) =~= Seq::<ConditionView>::empty());
    match present {
        Some(s) => {
            if s.same(&status) {
                return None;
            }
        },
        None => {},
    }
    Some(status)
}

/// The place of a link among those that are asked for.
pub open spec fn link_place(
    contract_id: Seq<char>,
    actor_id: Seq<char>,
    link_name: Seq<char>,
) -> Seq<char> {
    contract_id + "."@ + actor_id + "."@ + link_name
}

fn place_of(contract_id: &String, actor_id: &String, link_name: &String) -> (r: String)
    ensures
        r@ == link_place(contract_id@, actor_id@, link_name@),
{
    let mut place = contract_id.clone();
    place.append(".");
    place.append(actor_id.as_str());
    place.append(".");
    place.append(link_name.as_str());
    place
}

/// A link that is asked for, and the names of the resources that ask for it.
pub struct LinkRecord {
    pub link: LinkDefinition,
    pub names: Table<String, ()>,
}

#[verifier::ext_equal]
pub ghost struct LinkRecordView {
    pub link: LinkDefinitionView,
    pub names: Set<Seq<char>>,
}

impl View for LinkRecord {
    type V = LinkRecordView;

    open spec fn view(&self) -> LinkRecordView {
        LinkRecordView { link: self.link@, names: self.names@.dom() }
    }
}

/// The links that are asked for, by place.
pub struct LinkRegister {
    records: Table<String, LinkRecord>,
}

impl View for LinkRegister {
    type V = Map<Seq<char>, LinkRecordView>;

    closed spec fn view(&self) -> Map<Seq<char>, LinkRecordView> {
        self.records@
    }
}

/// Every link stands at its own place.
pub open spec fn placed(records: Map<Seq<char>, LinkRecordView>) -> bool {
    forall|p: Seq<char>| #[trigger]
        records.contains_key(p) ==> p == link_place(
            records[p].link.contract_id,
            records[p].link.actor_id,
            records[p].link.link_name,
        )
}

impl LinkDefinitionView {
    /// The place of the link among those that are asked for.
    pub open spec fn place(self) -> Seq<char> {
        link_place(self.contract_id, self.actor_id, self.link_name)
    }
}

/// The register once a resource asks for a link. A link that is there stays as
/// it is.
pub open spec fn joined(
    records: Map<Seq<char>, LinkRecordView>,
    ld: LinkDefinitionView,
    name: Seq<char>,
) -> Map<Seq<char>, LinkRecordView> {
    if records.contains_key(ld.place()) {
        let record = records[ld.place()];
        records.insert(ld.place(), LinkRecordView { names: record.names.insert(name), ..record })
    } else {
        records.insert(ld.place(), LinkRecordView { link: ld, names: set![name] })
    }
}

/// The register once a resource no longer asks for the link at a place.
pub open spec fn left(
    records: Map<Seq<char>, LinkRecordView>,
    place: Seq<char>,
    name: Seq<char>,
) -> Map<Seq<char>, LinkRecordView> {
    if records.contains_key(place) {
        let record = records[place];
        records.insert(place, LinkRecordView { names: record.names.remove(name), ..record })
    } else {
        records
    }
}

impl LinkRegister {
    pub fn new() -> (r: Self)
        ensures
            r@ == Map::<Seq<char>, LinkRecordView>::empty(),
            placed(r@),
    {
        LinkRegister { records: Table::new() }
    }

    /// Whether a link is asked for for the first time, so that the host has to
    /// be told of it.
    pub fn is_new(&self, ld: &LinkDefinition) -> (r: bool)
        ensures
            r == !self@.contains_key(ld@.place()),
    {
        !self.records.contains_key(&place_of(&ld.contract_id, &ld.actor_id, &ld.link_name))
    }

    /// Takes note that a resource asks for a link.
    pub fn join(&mut self, ld: &LinkDefinition, name: &String)
        requires
            placed(old(self)@),
        ensures
            placed(final(self)@),
            final(self)@ == joined(old(self)@, ld@, name@),
    {
        let ghost before = self@;
        let place = place_of(&ld.contract_id, &ld.actor_id, &ld.link_name);
        match self.records.remove(&place) {
            Some(mut record) => {
                let ghost names = record.names@;
                record.names.insert(name.clone(), ());
                assert(record.names@.dom() =~= names.dom().insert(name@));
                self.records.insert(place, record);
            },
            None => {
                let mut names: Table<String, ()> = Table::new();
                names.insert(name.clone(), ());
                assert(names@.dom() =~= set![name@]);
                self.records.insert(place, LinkRecord { link: ld.duplicate(), names });
            },
        }
        assert(self@ =~= joined(before, ld@, name@));
    }

    /// Takes note that a resource asks for a link, once the host was told of it
    /// where it is new, and hands out the status to write, unless it stands
    /// there already. Where the host could not add the link, nothing is noted
    /// and nothing is written.
    pub fn finish_link(
        &mut self,
        ld: &LinkDefinition,
        name: &String,
        present: &Option<LinkStatus>,
        added: bool,
    ) -> (r: Option<LinkStatus>)
        requires
            placed(old(self)@),
        ensures
            placed(final(self)@),
            if added {
                &&& final(self)@ == joined(old(self)@, ld@, name@)
                &&& if present matches Some(s) && s@ == link_status_of(ld@) {
                    r is None
                } else {
                    r matches Some(s) && s@ == link_status_of(ld@)
                }
            } else {
                &&& final(self)@ == old(self)@
                &&& r is None
            },
    {
        match after_adding_link(added) {
            Some(_) => None,
            None => {
                self.join(ld, name);
                link_patch(ld, present)
            },
        }
    }

    /// The place of the link that a resource asked for, as its status gives it.
    pub fn place(contract_id: &String, status: &Option<LinkStatus>) -> (r: Option<String>)
        ensures
            if settled(status_view(*status)) {
                r matches Some(place) && place@ == link_place(
                    contract_id@,
                    status->0@.actor_key,
                    status->0@.link_name,
                )
            } else {
                r is None
            },
    {
        match status {
            Some(s) => {
                if !s.provider_key.as_str().is_empty() && !s.actor_key.as_str().is_empty()
                    && !s.link_name.as_str().is_empty() {
                    Some(place_of(contract_id, &s.actor_key, &s.link_name))
                } else {
                    None
                }
            },
            None => None,
        }
    }

    /// Takes note that a resource no longer asks for the link at a place, and
    /// hands the link out where nobody asks for it any more. It stays in the
    /// register until it is forgotten.
    pub fn leave(&mut self, place: &String, name: &String) -> (r: Option<LinkDefinition>)
        requires
            placed(old(self)@),
        ensures
            placed(final(self)@),
            final(self)@ == left(old(self)@, place@, name@),
            match r {
                Some(ld) => old(self)@.contains_key(place@) && ld@ == old(self)@[place@].link
                    && final(self)@[place@].names == Set::<Seq<char>>::empty(),
                None => old(self)@.contains_key(place@) ==> final(self)@[place@].names != Set::<
                    Seq<char>,
                >::empty(),
            },
    {
        let ghost before = self@;
        match self.records.remove(place) {
            Some(mut record) => {
                let ghost names = record.names@;
                record.names.remove(name);
                assert(record.names@.dom() =~= names.dom().remove(name@));
                let last = record.names.is_empty();
                proof {
                    if last {
                        assert(record.names@.dom() =~= Set::<Seq<char>>::empty());
                    } else if record.names@.dom() == Set::<Seq<char>>::empty() {
                        assert(record.names@ =~= Map::<Seq<char>, ()>::empty());
                    }
                }
                let r = if last {
                    Some(record.link.duplicate())
                } else {
                    None
                };
                let ghost changed = record@;
                self.records.insert(place.clone(), record);
                assert(self@ =~= before.insert(place@, changed));
                assert(self@ =~= left(before, place@, name@));
                r
            },
            None => {
                assert(self@ =~= left(before, place@, name@));
                None
            },
        }
    }

    /// Drops the link at a place, once the host has dropped it.
    pub fn forget(&mut self, place: &String)
        requires
            placed(old(self)@),
        ensures
            placed(final(self)@),
            final(self)@ == old(self)@.remove(place@),
    {
        self.records.remove(place);
    }
}

/// What is done after the host was to add a link. Where it was added, the
/// resource joins it and its status is written; where it was not, neither is
/// done, and the link waits for a change.
pub fn after_adding_link(added: bool) -> (r: Option<Action>)
    ensures
        r == if added {
            None::<Action>
        } else {
            Some(Action::AwaitChange)
        },
{
    if added {
        None
    } else {
        Some(Action::AwaitChange)
    }
}

/// What is done after the host was to drop a link that nobody asks for any
/// more.
pub fn after_dropping_link(dropped: bool) -> (r: Action)
    ensures
        r == if dropped {
            Action::AwaitChange
        } else {
            Action::Requeue(10)
        },
{
    if dropped {
        Action::AwaitChange
    } else {
        Action::Requeue(10)
    }
}

/// A link goes with the last resource that asks for it and not before: as long
/// as another one asks for it, leaving does not empty its record.
pub proof fn shared_links_stay(
    records: Map<Seq<char>, LinkRecordView>,
    place: Seq<char>,
    name: Seq<char>,
    other: Seq<char>,
)
    requires
        records.contains_key(place),
        records[place].names.contains(other),
        name != other,
    ensures
        left(records, place, name)[place].names.contains(other),
        left(records, place, name)[place].link == records[place].link,
{
}

/// Leaving a link that was joined for the first time, and forgetting it, gives
/// the register back as it was.
pub proof fn leaving_undoes_joining(
    records: Map<Seq<char>, LinkRecordView>,
    ld: LinkDefinitionView,
    name: Seq<char>,
)
    requires
        !records.contains_key(ld.place()),
    ensures
        left(joined(records, ld, name), ld.place(), name)[ld.place()].names == Set::<
            Seq<char>,
        >::empty(),
        left(joined(records, ld, name), ld.place(), name).remove(ld.place()) == records,
{
    let one = joined(records, ld, name);
    let two = left(one, ld.place(), name);
    assert(set![name].remove(name) =~= Set::<Seq<char>>::empty());
    assert(two.remove(ld.place()) =~= records);
}

/// Asking for a link again changes nothing.
pub proof fn joining_again_changes_nothing(
    records: Map<Seq<char>, LinkRecordView>,
    ld: LinkDefinitionView,
    name: Seq<char>,
)
    ensures
        joined(joined(records, ld, name), ld, name) == joined(records, ld, name),
{
    let one = joined(records, ld, name);
    let two = joined(one, ld, name);
    assert(one[ld.place()].names.insert(name) =~= one[ld.place()].names);
    assert(two =~= one);
}

/// Whether a host holds every link that somebody asks for.
pub open spec fn held(host: HostView, records: Map<Seq<char>, LinkRecordView>) -> bool {
    forall|p: Seq<char>| #[trigger]
        records.contains_key(p) && records[p].names != Set::<Seq<char>>::empty()
            ==> host.links.contains_key(records[p].link.id())
}

/// A host that is told of each link that is asked for for the first time holds
/// every link that somebody asks for, however often each is asked for. It is
/// told by `Host::add_linkdef`, which leaves a link of the same digest alone. A
/// link whose dropping went wrong stands there with nobody asking for it, and
/// the host is not told of it again.
pub proof fn asked_links_are_held(
    host: HostView,
    records: Map<Seq<char>, LinkRecordView>,
    ld: LinkDefinitionView,
    name: Seq<char>,
)
    requires
        held(host, records),
        records.contains_key(ld.place()) ==> records[ld.place()].names != Set::<
            Seq<char>,
        >::empty(),
    ensures
        held(
            if records.contains_key(ld.place()) || host.links.contains_key(ld.id()) {
                host
            } else {
                host.with_linkdef(ld)
            },
            joined(records, ld, name),
        ),
{
}

/// A host that drops a link once nobody asks for it any more still holds every
/// other link that somebody asks for, as long as none of those has the digest
/// of the link that is dropped.
pub proof fn dropping_spares_asked_links(
    host: HostView,
    records: Map<Seq<char>, LinkRecordView>,
    place: Seq<char>,
    name: Seq<char>,
)
    requires
        held(host, records),
        records.contains_key(place),
        left(records, place, name)[place].names == Set::<Seq<char>>::empty(),
        forall|p: Seq<char>| #[trigger]
            records.contains_key(p) && p != place ==> records[p].link.id()
                != records[place].link.id(),
    ensures
        held(
            host.without_linkdef(records[place].link.id()),
            left(records, place, name).remove(place),
        ),
{
}

/// The status that is written for a link names the place that it was joined at,
/// so that leaving finds it.
pub proof fn status_finds_place(ld: LinkDefinitionView)
    ensures
        link_place(
            ld.contract_id,
            link_status_of(ld).actor_key,
            link_status_of(ld).link_name,
        ) == ld.place(),
{
}

/// A link whose two ends are each given resolves to them, however each is given:
/// an end by its key, or by the name of a resource that has one. A provider that
/// is given by its name brings its link name, which agrees with the one that is
/// asked for, if any; so does its key.
pub proof fn links_resolve_however_given(
    spec: LinkSpecView,
    status: Option<LinkStatusView>,
    actor: ActorLookup,
    provider: ProviderLookup,
    actor_id: Seq<char>,
    provider_id: Seq<char>,
    link_name: Seq<char>,
)
    requires
        status matches Some(s) ==> s.provider_key.len() == 0 || s.actor_key.len() == 0
            || s.link_name.len() == 0,
        spec.link_name.len() > 0 || spec.provider.key.len() == 0,
        actor_id.len() > 0,
        provider_id.len() > 0,
        spec.actor.key == actor_id || (spec.actor.key.len() == 0 && spec.actor.name.len() > 0
            && actor == ActorLookup::Found(Some(actor_id))),
        (spec.provider.name.len() == 0 && spec.provider.key == provider_id && spec.link_name
            == link_name) || (spec.provider.name.len() > 0 && provider == ProviderLookup::Found(
            link_name,
            Some(provider_id),
        ) && (spec.link_name.len() == 0 || spec.link_name == link_name) && (
        spec.provider.key.len() == 0 || spec.provider.key == provider_id)),
    ensures
        ({
            let ld = LinkDefinitionView {
                actor_id,
                provider_id,
                link_name,
                contract_id: spec.contract_id,
                values: spec.values,
            };
            let one = first_step(spec, status);
            let two = match one {
                StepView::FindActor(_, draft) => actor_found_step(spec, draft, actor),
                _ => one,
            };
            let three = match two {
                StepView::FindProvider(_, draft) => provider_found_step(spec, draft, provider),
                _ => two,
            };
            &&& three == StepView::Resolved(ld)
            &&& link_outcome(spec, status, actor, provider) == Ok::<LinkDefinitionView, Action>(ld)
        }),
{
    steps_lead_to_outcome(spec, status, actor, provider);
}

/// A link resolves to nothing but the ends that are known from before or given.
pub proof fn links_resolve_to_what_is_given(
    spec: LinkSpecView,
    status: Option<LinkStatusView>,
    actor: ActorLookup,
    provider: ProviderLookup,
    ld: LinkDefinitionView,
)
    requires
        ({
            let one = first_step(spec, status);
            let two = match one {
                StepView::FindActor(_, draft) => actor_found_step(spec, draft, actor),
                _ => one,
            };
            let three = match two {
                StepView::FindProvider(_, draft) => provider_found_step(spec, draft, provider),
                _ => two,
            };
            three == StepView::Resolved(ld)
        }),
    ensures
        ld.contract_id == spec.contract_id,
        ld.values == spec.values,
        ld.actor_id.len() > 0,
        ld.provider_id.len() > 0,
        spec.link_name.len() > 0 || spec.provider.key.len() == 0,
        (status matches Some(s) && s.provider_key.len() > 0 && s.actor_key.len() > 0
            && s.link_name.len() > 0 && ld.actor_id == s.actor_key && ld.provider_id
            == s.provider_key && ld.link_name == s.link_name) || ((spec.actor.key == ld.actor_id
            || (spec.actor.key.len() == 0 && actor == ActorLookup::Found(Some(ld.actor_id)))) && ((
        spec.provider.name.len() == 0 && spec.provider.key == ld.provider_id && spec.link_name
            == ld.link_name) || (spec.provider.name.len() > 0 && provider == ProviderLookup::Found(
            ld.link_name,
            Some(ld.provider_id),
        ) && (spec.link_name.len() == 0 || spec.link_name == ld.link_name) && (
        spec.provider.key.len() == 0 || spec.provider.key == ld.provider_id)))),
{
}

/// A link whose ends and link name are known from before resolves to them at
/// once, with nothing looked for.
pub proof fn known_links_resolve_at_once(
    spec: LinkSpecView,
    status: LinkStatusView,
    actor: ActorLookup,
    provider: ProviderLookup,
)
    requires
        status.provider_key.len() > 0,
        status.actor_key.len() > 0,
        status.link_name.len() > 0,
        spec.link_name.len() > 0 || spec.provider.key.len() == 0,
    ensures
        ({
            let ld = LinkDefinitionView {
                actor_id: status.actor_key,
                provider_id: status.provider_key,
                link_name: status.link_name,
                contract_id: spec.contract_id,
                values: spec.values,
            };
            &&& first_step(spec, Some(status)) == StepView::Resolved(ld)
            &&& link_outcome(spec, Some(status), actor, provider) == Ok::<
                LinkDefinitionView,
                Action,
            >(ld)
        }),
{
}

/// An end is looked for by the name that is given for it, and only where no key
/// is: the actor where it has a name and no key; the provider where it has a
/// name.
pub proof fn ends_are_looked_for_by_name(
    spec: LinkSpecView,
    status: Option<LinkStatusView>,
    actor_id: Seq<char>,
)
    requires
        status matches Some(s) ==> s.provider_key.len() == 0 || s.actor_key.len() == 0
            || s.link_name.len() == 0,
        spec.link_name.len() > 0 || spec.provider.key.len() == 0,
        actor_id.len() > 0,
    ensures
        first_step(spec, status) is FindActor <==> spec.actor.key.len() == 0
            && spec.actor.name.len() > 0,
        first_step(spec, status) is FindActor ==> first_step(spec, status)->FindActor_0
            == spec.actor.name,
        first_step(spec, status) is FindProvider <==> spec.actor.key.len() > 0
            && spec.provider.name.len() > 0,
        first_step(spec, status) is FindProvider ==> first_step(spec, status)->FindProvider_0
            == spec.provider.name,
        first_step(spec, status) is FindActor ==> ({
            let next = actor_found_step(
                spec,
                first_step(spec, status)->FindActor_1,
                ActorLookup::Found(Some(actor_id)),
            );
            &&& next is FindProvider <==> spec.provider.name.len() > 0
            &&& next is FindProvider ==> next->FindProvider_0 == spec.provider.name
        }),
{
}

/// When a link that does not resolve is looked at again: after a change, where
/// what is asked for cannot be met as it stands; soon, where a resource is there
/// and has no key, or another one; later, where a resource could not be had.
pub proof fn links_wait_for_what_they_miss(
    spec: LinkSpecView,
    status: Option<LinkStatusView>,
    actor: ActorLookup,
    provider: ProviderLookup,
)
    requires
        status matches Some(s) ==> s.provider_key.len() == 0 || s.actor_key.len() == 0
            || s.link_name.len() == 0,
    ensures
        ({
            let keyless = spec.link_name.len() == 0 && spec.provider.key.len() > 0;
            let by_name = spec.actor.key.len() == 0 && spec.actor.name.len() > 0;
            let actor_given = spec.actor.key.len() > 0 || (by_name && actor
                is Found && actor->Found_0 is Some && actor->Found_0->0.len() > 0);
            let one = first_step(spec, status);
            let two = match one {
                StepView::FindActor(_, draft) => actor_found_step(spec, draft, actor),
                _ => one,
            };
            let three = match two {
                StepView::FindProvider(_, draft) => provider_found_step(spec, draft, provider),
                _ => two,
            };
            &&& keyless ==> three == StepView::Wait(Action::AwaitChange)
            &&& spec.actor.key.len() == 0 && spec.actor.name.len() == 0 ==> three
                == StepView::Wait(Action::AwaitChange)
            &&& !keyless && by_name && actor is Failed ==> three == StepView::Wait(
                Action::Requeue(60),
            )
            &&& !keyless && by_name && actor is Found && !actor_given ==> three == StepView::Wait(
                Action::Requeue(10),
            )
            &&& !keyless && actor_given && spec.provider.name.len() == 0
                && spec.provider.key.len() == 0 ==> three == StepView::Wait(Action::AwaitChange)
            &&& !keyless && actor_given && spec.provider.name.len() > 0 && provider is Failed
                ==> three == StepView::Wait(Action::Requeue(60))
            &&& !keyless && actor_given && spec.provider.name.len() > 0 && provider is Found ==> ({
                let link = provider->Found_0;
                let key = provider->Found_1;
                if spec.link_name.len() > 0 && spec.link_name != link {
                    three == StepView::Wait(Action::AwaitChange)
                } else if key is None || key->0.len() == 0 || (spec.provider.key.len() > 0 && key->0
                    != spec.provider.key) {
                    three == StepView::Wait(Action::Requeue(10))
                } else {
                    three is Resolved
                }
            })
        }),
{
}

/// A link that is asked for has its place by its contract, its actor and its
/// link name, with dots between.
pub proof fn links_are_placed_by_who_calls_what(ld: LinkDefinitionView)
    ensures
        ld.place() == ld.contract_id + "."@ + ld.actor_id + "."@ + ld.link_name,
        link_place(ld.contract_id, ld.actor_id, ld.link_name) == ld.contract_id + "."@
            + ld.actor_id + "."@ + ld.link_name,
{
}

/// A resource that asks for a link is among those that do, with all that were;
/// the link stays as it was first asked for; no other link changes.
pub proof fn joining_adds_one_name(
    records: Map<Seq<char>, LinkRecordView>,
    ld: LinkDefinitionView,
    name: Seq<char>,
    other: Seq<char>,
    place: Seq<char>,
)
    requires
        place == ld.contract_id + "."@ + ld.actor_id + "."@ + ld.link_name,
    ensures
        ({
            let after = joined(records, ld, name);
            &&& after.contains_key(place)
            &&& after[place].names.contains(other) <==> other == name || (records.contains_key(
                place,
            ) && records[place].names.contains(other))
            &&& after[place].link == if records.contains_key(place) {
                records[place].link
            } else {
                ld
            }
            &&& other != place ==> after.contains_key(other) == records.contains_key(other) && (
            records.contains_key(other) ==> after[other] == records[other])
        }),
{
}

/// A resource that no longer asks for a link is not among those that do; the
/// others are, the link stays, and no other link changes.
pub proof fn leaving_takes_one_name(
    records: Map<Seq<char>, LinkRecordView>,
    place: Seq<char>,
    name: Seq<char>,
    other: Seq<char>,
)
    ensures
        ({
            let after = left(records, place, name);
            &&& after.contains_key(other) == records.contains_key(other)
            &&& other != place && records.contains_key(other) ==> after[other] == records[other]
            &&& records.contains_key(place) ==> after[place].link == records[place].link && (
            after[place].names.contains(other) <==> other != name
                && records[place].names.contains(other))
        }),
{
}

/// The status of a link that is resolved gives its ends and its link name.
pub proof fn statuses_give_the_ends(ld: LinkDefinitionView)
    ensures
        link_status_of(ld).provider_key == ld.provider_id,
        link_status_of(ld).actor_key == ld.actor_id,
        link_status_of(ld).link_name == ld.link_name,
        link_status_of(ld).conditions.len() == 0,
{
}

/// What looking for the ends of a link came to, and each step, is known by all
/// of its parts.
pub proof fn steps_are_known_by_their_parts(
    actor: ActorFound,
    provider: ProviderFound,
    name: String,
    draft: LinkDefinition,
    action: Action,
)
    ensures
        Lookup::<ActorFound>::Failed@ == ActorLookup::Failed,
        Lookup::<ProviderFound>::Failed@ == ProviderLookup::Failed,
        actor.public_key is None ==> Lookup::Found(actor)@ == ActorLookup::Found(None),
        actor.public_key matches Some(key) ==> Lookup::Found(actor)@ == ActorLookup::Found(
            Some(key@),
        ),
        provider.public_key is None ==> Lookup::Found(provider)@ == ProviderLookup::Found(
            provider.link@,
            None,
        ),
        provider.public_key matches Some(key) ==> Lookup::Found(provider)@ == ProviderLookup::Found(
            provider.link@,
            Some(key@),
        ),
        LinkStep::Wait(action)@ == StepView::Wait(action),
        (LinkStep::FindActor { name, draft })@ == StepView::FindActor(name@, draft@),
        (LinkStep::FindProvider { name, draft })@ == StepView::FindProvider(name@, draft@),
        LinkStep::Resolved(draft)@ == StepView::Resolved(draft@),
{
}

/// A link that is asked for is known by itself and the names that ask for it.
pub proof fn records_are_known_by_their_parts(
    record: LinkRecord,
    name: Seq<char>,
    status: Option<LinkStatus>,
)
    ensures
        record@.link == record.link@,
        record@.names.contains(name) <==> record.names@.contains_key(name),
        status is None ==> status_view(status) is None,
        status matches Some(s) ==> status_view(status) == Some(s@),
{
}

/// Links that are asked for stand where leaving looks for them.
pub proof fn records_stand_at_their_own_place(
    records: Map<Seq<char>, LinkRecordView>,
    place: Seq<char>,
)
    requires
        placed(records),
        records.contains_key(place),
    ensures
        place == records[place].link.contract_id + "."@ + records[place].link.actor_id + "."@
            + records[place].link.link_name,
{
}

} // verus!
