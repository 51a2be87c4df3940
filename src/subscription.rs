//! The subscription registry: the list of registrations that a publisher keeps,
//! and the rules that decide which of them a dispatch pass removes.

use vstd::prelude::*;
use vstd::set_lib::{lemma_int_range, lemma_len_subset, set_int_range};

verus! {

/// Identifier handed out for one registration.
#[derive(Clone, Copy, Debug, PartialEq, Eq, Structural)]
pub struct SubscriptionId {
    pub value: u128,
}

impl SubscriptionId {
    pub fn from_u128(value: u128) -> (r: SubscriptionId)
        ensures
            r.value == value,
    {
        SubscriptionId { value }
    }

    pub fn as_u128(&self) -> (r: u128)
        ensures
            r == self.value,
    {
        self.value
    }
}

/// Whether a registration survives the dispatch that reaches it.
#[derive(Clone, Copy, Debug, PartialEq, Eq, Structural)]
pub enum SubscriptionMode {
    /// Removed after its first delivery, whatever the handler answers.
    Once,
    /// Kept until unsubscribed, dropped, or the handler asks to leave.
    All,
}

/// What a handler may ask for after handling an event.
#[derive(Clone, Copy, Debug, PartialEq, Eq, Structural)]
pub enum SubscriberAction {
    Unsubscribe,
}

/// What happened when a dispatch pass reached one registration.
#[derive(Clone, Copy, Debug, PartialEq, Eq, Structural)]
pub enum HandlerOutcome {
    /// The handler's owners had released it; it was not invoked.
    Dropped,
    /// The handler was invoked and returned this action.
    Handled(Option<SubscriberAction>),
}

/// The part of a registration that the registry reasons about.
pub type Registration = (SubscriptionId, SubscriptionMode);

/// A dispatch pass removes a registration whose handler is gone, whose handler
/// asked to unsubscribe, or which was a one-shot registration.
pub open spec fn removal_due(mode: SubscriptionMode, outcome: HandlerOutcome) -> bool {
    match outcome {
        HandlerOutcome::Dropped => true,
        HandlerOutcome::Handled(Some(SubscriberAction::Unsubscribe)) => true,
        HandlerOutcome::Handled(None) => mode == SubscriptionMode::Once,
    }
}

/// The registrations of `regs` whose identifier is not listed in `removed`, in order.
pub open spec fn retained(regs: Seq<Registration>, removed: Seq<SubscriptionId>) -> Seq<Registration>
    decreases regs.len(),
{
    if regs.len() == 0 {
        Seq::empty()
    } else {
        let rest = retained(regs.drop_last(), removed);
        if removed.contains(regs.last().0) {
            rest
        } else {
            rest.push(regs.last())
        }
    }
}

/// The identifiers of the registrations that a pass with these outcomes removes,
/// in registration order.
pub open spec fn due_ids(regs: Seq<Registration>, outcomes: Seq<HandlerOutcome>) -> Seq<SubscriptionId>
    recommends
        regs.len() == outcomes.len(),
    decreases regs.len(),
{
    if regs.len() == 0 || outcomes.len() == 0 {
        Seq::empty()
    } else {
        let rest = due_ids(regs.drop_last(), outcomes.drop_last());
        if removal_due(regs.last().1, outcomes.last()) {
            rest.push(regs.last().0)
        } else {
            rest
        }
    }
}

pub open spec fn ids_of(regs: Seq<Registration>) -> Seq<SubscriptionId> {
    regs.map_values(|r: Registration| r.0)
}

/// Decides whether the registration is removed after the pass, given what its handler did.
pub fn should_remove(mode: SubscriptionMode, outcome: HandlerOutcome) -> (r: bool)
    ensures
        r == removal_due(mode, outcome),
{
    match outcome {
        HandlerOutcome::Dropped => true,
        HandlerOutcome::Handled(Some(SubscriberAction::Unsubscribe)) => true,
        HandlerOutcome::Handled(None) => match mode {
            SubscriptionMode::Once => true,
            SubscriptionMode::All => false,
        },
    }
}

/// Whether `id` is listed in `ids`.
pub fn contains_id(ids: &Vec<SubscriptionId>, id: SubscriptionId) -> (r: bool)
    ensures
        r == ids@.contains(id),
{
    let mut j: usize = 0;
    while j < ids.len()
        invariant
            0 <= j <= ids@.len(),
            forall|k: int| 0 <= k < j ==> ids@[k] != id,
        decreases ids@.len() - j,
    {
        if ids[j] == id {
            assert(ids@[j as int] == id);
            return true;
        }
        j += 1;
    }
    false
}

proof fn lemma_retained_ids_within(s: Seq<Registration>, r: Seq<SubscriptionId>, id: SubscriptionId)
    requires
        ids_of(retained(s, r)).contains(id),
    ensures
        ids_of(s).contains(id),
    decreases s.len(),
{
    let t = s.drop_last();
    let rest = retained(t, r);
    let out = retained(s, r);
    let j = choose|j: int| 0 <= j < ids_of(out).len() && ids_of(out)[j] == id;
    if j < rest.len() {
        assert(ids_of(rest)[j] == id);
        lemma_retained_ids_within(t, r, id);
        let k = choose|k: int| 0 <= k < ids_of(t).len() && ids_of(t)[k] == id;
        assert(ids_of(s)[k] == id);
    } else {
        assert(ids_of(s)[s.len() - 1] == id);
    }
}

proof fn lemma_retained_distinct(s: Seq<Registration>, r: Seq<SubscriptionId>)
    requires
        ids_of(s).no_duplicates(),
    ensures
        ids_of(retained(s, r)).no_duplicates(),
    decreases s.len(),
{
    if s.len() > 0 {
        let t = s.drop_last();
        assert(ids_of(t) =~= ids_of(s).drop_last());
        lemma_retained_distinct(t, r);
        let rest = retained(t, r);
        if !r.contains(s.last().0) {
            if ids_of(rest).contains(s.last().0) {
                lemma_retained_ids_within(t, r, s.last().0);
                let k = choose|k: int| 0 <= k < ids_of(t).len() && ids_of(t)[k] == s.last().0;
                assert(ids_of(s)[k] == ids_of(s)[s.len() - 1]);
            }
            assert(ids_of(rest.push(s.last())) =~= ids_of(rest).push(s.last().0));
        }
    }
}

/// One registration: its identifier, the handler reference, and its mode.
pub struct EventSubscription<H> {
    pub id: SubscriptionId,
    pub handler: H,
    pub mode: SubscriptionMode,
}

impl<H> EventSubscription<H> {
    pub open spec fn reg(&self) -> Registration {
        (self.id, self.mode)
    }
}

pub open spec fn regs_of<H>(subs: Seq<EventSubscription<H>>) -> Seq<Registration> {
    subs.map_values(|s: EventSubscription<H>| s.reg())
}

/// The registrations of one publisher, in the order they were made.
pub struct SubscriberList<H> {
    entries: Vec<EventSubscription<H>>,
}

impl<H> View for SubscriberList<H> {
    type V = Seq<Registration>;

    closed spec fn view(&self) -> Seq<Registration> {
        regs_of(self.entries@)
    }
}

/// Whether some registration uses the identifier with value `v`.
pub open spec fn value_used(regs: Seq<Registration>, v: int) -> bool {
    ids_of(regs).contains(SubscriptionId { value: v as u128 })
}

/// Some value up to `regs.len()` is used by no registration: there are more such
/// values than registrations.
proof fn lemma_some_small_id_free(regs: Seq<Registration>)
    requires
        regs.len() < u128::MAX,
    ensures
        exists|k: int| 0 <= k <= regs.len() && !#[trigger] value_used(regs, k),
{
    let n = regs.len() as int;
    if forall|k: int| 0 <= k <= n ==> #[trigger] value_used(regs, k) {
        let vals = ids_of(regs).map_values(|id: SubscriptionId| id.value as int);
        assert forall|k: int| #[trigger] set_int_range(0, n + 1).contains(k) implies vals.to_set().contains(k) by {
            let id = SubscriptionId { value: k as u128 };
            assert(value_used(regs, k));
            let j = choose|j: int| 0 <= j < ids_of(regs).len() && ids_of(regs)[j] == id;
            assert(vals[j] == k);
            assert(vals.contains(k));
        }
        lemma_int_range(0, n + 1);
        vals.lemma_cardinality_of_set();
        lemma_len_subset(set_int_range(0, n + 1), vals.to_set());
    }
}

impl<H> SubscriberList<H> {
    /// Identifiers are never shared by two registrations.
    pub open spec fn wf(&self) -> bool {
        ids_of(self@).no_duplicates()
    }

    pub fn new() -> (r: Self)
        ensures
            r@ == Seq::<Registration>::empty(),
            r.wf(),
    {
        let r = SubscriberList { entries: Vec::new() };
        assert(r@ =~= Seq::<Registration>::empty());
        r
    }

    pub fn len(&self) -> (r: usize)
        ensures
            r == self@.len(),
    {
        self.entries.len()
    }

    /// Whether a registration with this identifier is present.
    pub fn contains(&self, id: SubscriptionId) -> (r: bool)
        ensures
            r == ids_of(self@).contains(id),
    {
        let mut i: usize = 0;
        while i < self.entries.len()
            invariant
                0 <= i <= self.entries@.len(),
                forall|k: int| 0 <= k < i ==> self@[k].0 != id,
            decreases self.entries@.len() - i,
        {
            if self.entries[i].id == id {
                assert(ids_of(self@)[i as int] == id);
                return true;
            }
            i += 1;
        }
        proof {
            if ids_of(self@).contains(id) {
                let k = choose|k: int| 0 <= k < ids_of(self@).len() && ids_of(self@)[k] == id;
                assert(self@[k].0 == id);
            }
        }
        false
    }

    /// The parts of the registration at `i`, with a copy of its handler reference.
    pub fn entry(&self, i: usize) -> (r: (SubscriptionId, H, SubscriptionMode))
        where H: Clone
        requires
            i < self@.len(),
        ensures
            (r.0, r.2) == self@[i as int],
    {
        let e = &self.entries[i];
        (e.id, e.handler.clone(), e.mode)
    }

    /// `candidate` when no registration uses it, else the smallest value that none uses.
    pub fn fresh_id(&self, candidate: u128) -> (r: SubscriptionId)
        ensures
            !ids_of(self@).contains(r),
            !ids_of(self@).contains(SubscriptionId { value: candidate }) ==> r.value == candidate,
    {
        let first = SubscriptionId { value: candidate };
        if !self.contains(first) {
            return first;
        }
        let n = self.len();
        let mut v: u128 = 0;
        while v <= n as u128
            invariant
                n == self@.len(),
                v <= n + 1,
                first == (SubscriptionId { value: candidate }),
                ids_of(self@).contains(first),
                forall|k: int| 0 <= k < v ==> #[trigger] value_used(self@, k),
            decreases n + 1 - v,
        {
            let id = SubscriptionId { value: v };
            if !self.contains(id) {
                return id;
            }
            assert(value_used(self@, v as int));
            v += 1;
        }
        proof {
            lemma_some_small_id_free(self@);
        }
        first
    }

    /// Appends a registration under an identifier that no registration uses.
    pub fn push(&mut self, id: SubscriptionId, handler: H, mode: SubscriptionMode)
        requires
            !ids_of(old(self)@).contains(id),
            old(self).wf(),
        ensures
            final(self)@ == old(self)@.push((id, mode)),
            final(self).wf(),
    {
        self.entries.push(EventSubscription { id, handler, mode });
        assert(final(self)@ =~= old(self)@.push((id, mode)));
        assert(ids_of(final(self)@) =~= ids_of(old(self)@).push(id));
    }

    /// Keeps the registrations whose identifier is not listed in `removed`.
    pub fn purge(&mut self, removed: &Vec<SubscriptionId>)
        requires
            old(self).wf(),
        ensures
            final(self)@ == retained(old(self)@, removed@),
            final(self).wf(),
    {
        let ghost before = self@;
        let mut kept: Vec<EventSubscription<H>> = Vec::new();
        let mut rest: Vec<EventSubscription<H>> = Vec::new();
        std::mem::swap(&mut rest, &mut self.entries);
        let ghost all = rest@;
        let n = rest.len();
        let mut i: usize = 0;
        while i < n
            invariant
                before == regs_of(all),
                i <= all.len() == n,
                rest@ == all.subrange(i as int, all.len() as int),
                regs_of(kept@) == retained(regs_of(all.subrange(0, i as int)), removed@),
            decreases rest@.len(),
        {
            let e = rest.remove(0);
            let ghost prefix = all.subrange(0, i as int);
            let ghost next = all.subrange(0, i + 1);
            assert(e == all[i as int]);
            assert(regs_of(next).drop_last() =~= regs_of(prefix));
            assert(regs_of(next).last() == e.reg());
            let drop_it = contains_id(removed, e.id);
            let ghost kept_before = kept@;
            if !drop_it {
                kept.push(e);
                assert(regs_of(kept@) =~= regs_of(kept_before).push(e.reg()));
            }
            i += 1;
            assert(rest@ =~= all.subrange(i as int, all.len() as int));
        }
        assert(all.subrange(0, all.len() as int) =~= all);
        self.entries = kept;
        proof {
            lemma_retained_distinct(before, removed@);
        }
    }
}

} // verus!
