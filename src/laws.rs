//! What a dispatch pass does to the registry, stated over the registry's model.

use vstd::prelude::*;

use crate::subscription::{
    due_ids, ids_of, removal_due, retained, HandlerOutcome, Registration, SubscriberAction,
    SubscriptionId, SubscriptionMode,
};

verus! {

proof fn lemma_retained_append(a: Seq<Registration>, b: Seq<Registration>, r: Seq<SubscriptionId>)
    ensures
        retained(a + b, r) == retained(a, r) + retained(b, r),
    decreases b.len(),
{
    if b.len() == 0 {
        assert(a + b =~= a);
        assert(retained(a, r) + retained(b, r) =~= retained(a, r));
    } else {
        lemma_retained_append(a, b.drop_last(), r);
        assert((a + b).drop_last() =~= a + b.drop_last());
        assert((a + b).last() == b.last());
        if r.contains(b.last().0) {
        } else {
            assert(retained(a, r) + retained(b.drop_last(), r).push(b.last()) =~= (retained(a, r)
                + retained(b.drop_last(), r)).push(b.last()));
        }
    }
}

proof fn lemma_retained_keeps_all(b: Seq<Registration>, r: Seq<SubscriptionId>)
    requires
        forall|i: int| 0 <= i < b.len() ==> !r.contains(#[trigger] b[i].0),
    ensures
        retained(b, r) == b,
    decreases b.len(),
{
    if b.len() > 0 {
        lemma_retained_keeps_all(b.drop_last(), r);
        assert(b.drop_last().push(b.last()) =~= b);
    }
}

proof fn lemma_retained_member(s: Seq<Registration>, r: Seq<SubscriptionId>, x: Registration)
    ensures
        retained(s, r).contains(x) <==> (s.contains(x) && !r.contains(x.0)),
    decreases s.len(),
{
    if s.len() > 0 {
        let t = s.drop_last();
        lemma_retained_member(t, r, x);
        assert(s =~= t.push(s.last()));
        if s.contains(x) && x != s.last() {
            let k = choose|k: int| 0 <= k < s.len() && s[k] == x;
            assert(t[k] == x);
        }
        if t.contains(x) {
            let k = choose|k: int| 0 <= k < t.len() && t[k] == x;
            assert(s[k] == x);
        }
        let rest = retained(t, r);
        if !r.contains(s.last().0) {
            let p = rest.push(s.last());
            assert(p[p.len() - 1] == s.last());
            if p.contains(x) && x != s.last() {
                let k = choose|k: int| 0 <= k < p.len() && p[k] == x;
                assert(rest[k] == x);
            }
            if rest.contains(x) {
                let k = choose|k: int| 0 <= k < rest.len() && rest[k] == x;
                assert(p[k] == x);
            }
        }
    }
}

proof fn lemma_retained_same_removals(s: Seq<Registration>, r1: Seq<SubscriptionId>, r2: Seq<SubscriptionId>)
    requires
        forall|i: int| 0 <= i < s.len() ==> (r1.contains(#[trigger] s[i].0) <==> r2.contains(s[i].0)),
    ensures
        retained(s, r1) == retained(s, r2),
    decreases s.len(),
{
    if s.len() > 0 {
        let t = s.drop_last();
        assert forall|i: int| 0 <= i < t.len() implies (r1.contains(#[trigger] t[i].0) <==> r2.contains(t[i].0)) by {
            assert(t[i] == s[i]);
        }
        lemma_retained_same_removals(t, r1, r2);
        assert(s.last() == s[s.len() - 1]);
    }
}

proof fn lemma_due_ids_member(regs: Seq<Registration>, outcomes: Seq<HandlerOutcome>, x: SubscriptionId)
    requires
        regs.len() == outcomes.len(),
    ensures
        due_ids(regs, outcomes).contains(x) <==> exists|j: int|
            0 <= j < regs.len() && #[trigger] regs[j].0 == x && removal_due(regs[j].1, outcomes[j]),
    decreases regs.len(),
{
    if regs.len() > 0 {
        let t = regs.drop_last();
        let o = outcomes.drop_last();
        lemma_due_ids_member(t, o, x);
        let rest = due_ids(t, o);
        let n = regs.len() - 1;
        if exists|j: int| 0 <= j < regs.len() && #[trigger] regs[j].0 == x && removal_due(regs[j].1, outcomes[j]) {
            let j = choose|j: int| 0 <= j < regs.len() && #[trigger] regs[j].0 == x && removal_due(regs[j].1, outcomes[j]);
            if j < n {
                assert(t[j].0 == x && removal_due(t[j].1, o[j]));
                let k = choose|k: int| 0 <= k < rest.len() && rest[k] == x;
                if removal_due(regs.last().1, outcomes.last()) {
                    assert(rest.push(regs.last().0)[k] == x);
                }
            } else {
                assert(regs.last() == regs[j]);
                assert(rest.push(regs.last().0)[rest.len() as int] == x);
            }
        }
        if due_ids(regs, outcomes).contains(x) {
            let d = due_ids(regs, outcomes);
            let k = choose|k: int| 0 <= k < d.len() && d[k] == x;
            if k < rest.len() {
                assert(rest[k] == x);
                let j = choose|j: int| 0 <= j < t.len() && #[trigger] t[j].0 == x && removal_due(t[j].1, o[j]);
                assert(regs[j] == t[j] && outcomes[j] == o[j]);
            } else {
                assert(regs[n].0 == x && removal_due(regs[n].1, outcomes[n]));
            }
        }
    }
}

/// A dispatch pass removes every registration whose handler had been released
/// (it was not invoked: its outcome is `Dropped`), whatever its mode. When that is
/// the only registration the pass makes due, the list shrinks by exactly one.
pub proof fn lemma_released_handler_reaped(
    regs: Seq<Registration>,
    outcomes: Seq<HandlerOutcome>,
    k: int,
)
    requires
        regs.len() == outcomes.len(),
        0 <= k < regs.len(),
        outcomes[k] == HandlerOutcome::Dropped,
        ids_of(regs).no_duplicates(),
    ensures
        !ids_of(retained(regs, due_ids(regs, outcomes))).contains(regs[k].0),
        (forall|j: int| 0 <= j < regs.len() && j != k ==> !removal_due(regs[j].1, #[trigger] outcomes[j]))
            ==> retained(regs, due_ids(regs, outcomes)).len() == regs.len() - 1,
{
    let due = due_ids(regs, outcomes);
    let after = retained(regs, due);
    lemma_due_ids_member(regs, outcomes, regs[k].0);
    assert(due.contains(regs[k].0));
    if ids_of(after).contains(regs[k].0) {
        let i = choose|i: int| 0 <= i < ids_of(after).len() && ids_of(after)[i] == regs[k].0;
        lemma_retained_member(regs, due, after[i]);
        assert(after.contains(after[i]));
    }
    if forall|j: int| 0 <= j < regs.len() && j != k ==> !removal_due(regs[j].1, #[trigger] outcomes[j]) {
        let single = seq![regs[k].0];
        assert forall|i: int| 0 <= i < regs.len() implies (due.contains(#[trigger] regs[i].0) <==> single.contains(regs[i].0)) by {
            lemma_due_ids_member(regs, outcomes, regs[i].0);
            if i != k {
                assert(ids_of(regs)[i] != ids_of(regs)[k]);
                if due.contains(regs[i].0) {
                    let j = choose|j: int| 0 <= j < regs.len() && #[trigger] regs[j].0 == regs[i].0 && removal_due(regs[j].1, outcomes[j]);
                    if j != i {
                        assert(ids_of(regs)[j] == ids_of(regs)[i]);
                    }
                }
                if single.contains(regs[i].0) {
                    assert(single[0] == regs[i].0);
                }
            } else {
                assert(single[0] == regs[i].0);
            }
        }
        lemma_retained_same_removals(regs, due, single);
        lemma_retained_drops_one(regs, k);
    }
}

proof fn lemma_retained_drops_one(regs: Seq<Registration>, k: int)
    requires
        0 <= k < regs.len(),
        ids_of(regs).no_duplicates(),
    ensures
        retained(regs, seq![regs[k].0]).len() == regs.len() - 1,
    decreases regs.len(),
{
    let id = regs[k].0;
    let single = seq![id];
    let t = regs.drop_last();
    assert(ids_of(t) =~= ids_of(regs).drop_last());
    if k == regs.len() - 1 {
        assert forall|i: int| 0 <= i < t.len() implies !single.contains(#[trigger] t[i].0) by {
            assert(ids_of(regs)[i] != ids_of(regs)[k]);
            if single.contains(t[i].0) {
                assert(single[0] == t[i].0);
            }
        }
        lemma_retained_keeps_all(t, single);
        assert(single.contains(regs.last().0)) by {
            assert(single[0] == regs.last().0);
        }
    } else {
        assert(t[k] == regs[k]);
        lemma_retained_drops_one(t, k);
        assert(ids_of(regs)[regs.len() - 1] != ids_of(regs)[k]);
        if single.contains(regs.last().0) {
            assert(single[0] == regs.last().0);
        }
    }
}

/// A one-shot registration that a pass reaches is absent from the list afterwards,
/// whatever its handler did.
pub proof fn lemma_once_removed_after_delivery(
    regs: Seq<Registration>,
    outcomes: Seq<HandlerOutcome>,
    k: int,
)
    requires
        regs.len() == outcomes.len(),
        0 <= k < regs.len(),
        regs[k].1 == SubscriptionMode::Once,
    ensures
        !ids_of(retained(regs, due_ids(regs, outcomes))).contains(regs[k].0),
{
    let due = due_ids(regs, outcomes);
    let after = retained(regs, due);
    lemma_due_ids_member(regs, outcomes, regs[k].0);
    assert(removal_due(regs[k].1, outcomes[k]));
    if ids_of(after).contains(regs[k].0) {
        let i = choose|i: int| 0 <= i < ids_of(after).len() && ids_of(after)[i] == regs[k].0;
        lemma_retained_member(regs, due, after[i]);
        assert(after.contains(after[i]));
    }
}

/// Registrations made while a pass runs (after its snapshot was taken) are not part
/// of that pass, and the clean-up at its end keeps them: they take effect from the
/// next dispatch on.
pub proof fn lemma_later_registrations_kept(
    snapshot: Seq<Registration>,
    outcomes: Seq<HandlerOutcome>,
    later: Seq<Registration>,
)
    requires
        snapshot.len() == outcomes.len(),
        forall|i: int| 0 <= i < later.len() ==> !ids_of(snapshot).contains(#[trigger] later[i].0),
    ensures
        retained(snapshot + later, due_ids(snapshot, outcomes))
            == retained(snapshot, due_ids(snapshot, outcomes)) + later,
{
    let due = due_ids(snapshot, outcomes);
    lemma_retained_append(snapshot, later, due);
    assert forall|i: int| 0 <= i < later.len() implies !due.contains(#[trigger] later[i].0) by {
        lemma_due_ids_member(snapshot, outcomes, later[i].0);
        if due.contains(later[i].0) {
            let j = choose|j: int| 0 <= j < snapshot.len() && #[trigger] snapshot[j].0 == later[i].0 && removal_due(snapshot[j].1, outcomes[j]);
            assert(ids_of(snapshot)[j] == later[i].0);
        }
    }
    lemma_retained_keeps_all(later, due);
}

/// A waitable answers its one event with `Unsubscribe`, which a pass makes due
/// whatever the registration's mode: after it fires, its registration is gone.
pub proof fn lemma_fired_waitable_leaves(regs: Seq<Registration>, outcomes: Seq<HandlerOutcome>, k: int)
    requires
        regs.len() == outcomes.len(),
        0 <= k < regs.len(),
        outcomes[k] == HandlerOutcome::Handled(Some(SubscriberAction::Unsubscribe)),
    ensures
        !ids_of(retained(regs, due_ids(regs, outcomes))).contains(regs[k].0),
{
    let due = due_ids(regs, outcomes);
    let after = retained(regs, due);
    lemma_due_ids_member(regs, outcomes, regs[k].0);
    assert(removal_due(regs[k].1, outcomes[k]));
    if ids_of(after).contains(regs[k].0) {
        let i = choose|i: int| 0 <= i < ids_of(after).len() && ids_of(after)[i] == regs[k].0;
        lemma_retained_member(regs, due, after[i]);
        assert(after.contains(after[i]));
    }
}

} // verus!
