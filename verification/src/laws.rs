//! What holds of the synchronizer whatever is delivered, in whatever order
//! and however often.

use vstd::prelude::*;
use crate::event::EventView;
use crate::ledger::{closed_out, event_ids, ledger_continues, noted, settled};
use crate::lookup::{lemma_last_index, lemma_last_index_push};
use crate::registry::{enrolled, lemma_enrolled_wf};
use crate::store::{
    continues, current_of, expirable, expired_one, lapsed, lapses, lemma_applied,
    lemma_continues_chain, lemma_expired_one, lemma_opened, lemma_swept, owners, swept, Outcome,
};
use crate::subscription::SubscriptionView;
use crate::sync::{
    delivered, dispatched, enforced, lemma_delivered, subject, sync_wf, trial_started, SyncView,
};
use crate::transition::{admits, target};

verus! {

/// Everything after a run of deliveries, each with the time it came at.
pub open spec fn delivered_all(s: SyncView, deliveries: Seq<(EventView, u64)>) -> SyncView
    decreases deliveries.len(),
{
    if deliveries.len() == 0 {
        s
    } else {
        delivered(
            delivered_all(s, deliveries.drop_last()),
            deliveries.last().0,
            deliveries.last().1,
        ).0
    }
}

/// A delivery whose key was processed before changes nothing and is
/// answered as a duplicate, whatever else it carries.
pub proof fn law_redelivery_changes_nothing(
    s: SyncView,
    first: EventView,
    at: u64,
    again: EventView,
    later: u64,
)
    requires
        sync_wf(s),
        again.event_id == first.event_id,
    ensures
        delivered(delivered(s, first, at).0, again, later) == (
            delivered(s, first, at).0,
            Outcome::Duplicate,
        ),
{
    lemma_delivered(s, first, at);
}

/// However often a key is delivered again, everything stays as it was
/// after the first delivery.
pub proof fn law_duplicates_change_nothing(
    s: SyncView,
    first: EventView,
    at: u64,
    repeats: Seq<(EventView, u64)>,
)
    requires
        sync_wf(s),
        forall|i: int| 0 <= i < repeats.len() ==> (#[trigger] repeats[i]).0.event_id == first.event_id,
    ensures
        delivered_all(delivered(s, first, at).0, repeats) == delivered(s, first, at).0,
    decreases repeats.len(),
{
    if repeats.len() > 0 {
        law_duplicates_change_nothing(s, first, at, repeats.drop_last());
        law_redelivery_changes_nothing(s, first, at, repeats.last().0, repeats.last().1);
    }
}

/// Delivering one key leaves every other key as settled or unsettled as it was.
pub proof fn lemma_other_keys_untouched(s: SyncView, e: EventView, now: u64, other: Seq<char>)
    requires
        other != e.event_id,
    ensures
        settled(delivered(s, e, now).0.events, other) == settled(s.events, other),
{
    if !settled(s.events, e.event_id) {
        let written = noted(s.events, e.event_id, e.kind, e.payload, now);
        let closed = closed_out(written, e.event_id, now);
        lemma_last_index(event_ids(s.events), other);
        lemma_last_index(event_ids(s.events), e.event_id);
        lemma_last_index(event_ids(written), e.event_id);
        if written != s.events {
            assert(event_ids(written) =~= event_ids(s.events).push(e.event_id));
            lemma_last_index_push(event_ids(s.events), e.event_id, other);
        }
        assert(event_ids(closed) =~= event_ids(written));
        lemma_last_index(event_ids(written), other);
    }
}

/// Two events for one customer, the second with the higher version, leave
/// the customer's record in the same state in whichever order they come:
/// the state that the later event alone would have produced.
///
/// This is so wherever the table lets the later event decide, that is,
/// wherever the earlier event, if it is written at all, leads to a state
/// from which the later event arrives where it would have arrived anyway.
pub proof fn law_order_does_not_matter(
    s: SyncView,
    earlier: EventView,
    later: EventView,
    user: u64,
    i: int,
    t1: u64,
    t2: u64,
    t3: u64,
    t4: u64,
)
    requires
        sync_wf(s),
        earlier.customer == later.customer,
        subject(s.customers, later) == Some(user),
        current_of(s.subscriptions, user) == Some(i),
        earlier.version < later.version,
        earlier.event_id != later.event_id,
        !settled(s.events, earlier.event_id),
        !settled(s.events, later.event_id),
        admits(s.subscriptions[i].version, earlier.version) ==> target(
            target(s.subscriptions[i].state, earlier.kind),
            later.kind,
        ) == target(s.subscriptions[i].state, later.kind),
    ensures
        0 <= i < s.subscriptions.len(),
        delivered(delivered(s, earlier, t1).0, later, t2).0.subscriptions[i].state == delivered(
            s,
            later,
            t3,
        ).0.subscriptions[i].state,
        delivered(delivered(s, later, t3).0, earlier, t4).0.subscriptions[i].state == delivered(
            s,
            later,
            t3,
        ).0.subscriptions[i].state,
        delivered(s, later, t3).0.subscriptions[i].state == target(
            s.subscriptions[i].state,
            later.kind,
        ) || !admits(s.subscriptions[i].version, later.version),
{
    let subs = s.subscriptions;
    lemma_last_index(owners(subs), user);
    // earlier first, then later
    let a1 = delivered(s, earlier, t1).0;
    lemma_delivered(s, earlier, t1);
    lemma_other_keys_untouched(s, earlier, t1, later.event_id);
    assert(owners(a1.subscriptions) == owners(subs)) by {
        if dispatched(s.customers, subs, earlier).0 != subs {
            lemma_applied(subs, user, earlier);
        }
    }
    // later first, then earlier
    let b1 = delivered(s, later, t3).0;
    lemma_delivered(s, later, t3);
    lemma_other_keys_untouched(s, later, t3, earlier.event_id);
    assert(owners(b1.subscriptions) == owners(subs)) by {
        if dispatched(s.customers, subs, later).0 != subs {
            lemma_applied(subs, user, later);
        }
    }
}

/// One thing that can happen to the synchronizer.
pub ghost enum Operation {
    /// A user asks for their customer; `fresh` is what the provider supplied.
    Enroll { user: u64, fresh: Option<Seq<char>>, now: u64 },
    /// A user asks for a trial.
    StartTrial { user: u64, trial_ends_at: u64 },
    /// A verified delivery arrives.
    Deliver { event: EventView, now: u64 },
    /// The trial expiry sweep runs.
    Sweep { now: u64, on_file: Seq<u64> },
    /// A sweep that works record by record comes back to one record.
    Expire { id: u64, seen_version: u64, now: u64 },
}

/// Everything after one operation.
pub open spec fn stepped(s: SyncView, op: Operation) -> SyncView {
    match op {
        Operation::Enroll { user, fresh, now } => SyncView {
            customers: enrolled(s.customers, user, fresh, now).0,
            ..s
        },
        Operation::StartTrial { user, trial_ends_at } => trial_started(s, user, trial_ends_at).0,
        Operation::Deliver { event, now } => delivered(s, event, now).0,
        Operation::Sweep { now, on_file } => enforced(s, now, on_file),
        Operation::Expire { id, seen_version, now } => SyncView {
            subscriptions: expired_one(s.subscriptions, id, seen_version, now),
            ..s
        },
    }
}

/// Everything after a run of operations.
pub open spec fn ran(s: SyncView, ops: Seq<Operation>) -> SyncView
    decreases ops.len(),
{
    if ops.len() == 0 {
        s
    } else {
        stepped(ran(s, ops.drop_last()), ops.last())
    }
}

/// Whether everything continues an earlier state of itself: no customer,
/// subscription or ledger entry is lost, and each keeps what it may not change.
pub open spec fn succeeds(before: SyncView, after: SyncView) -> bool {
    &&& before.customers.is_prefix_of(after.customers)
    &&& continues(before.subscriptions, after.subscriptions)
    &&& ledger_continues(before.events, after.events)
}

/// Continuing is passed on.
pub proof fn lemma_succeeds_chain(a: SyncView, b: SyncView, c: SyncView)
    requires
        succeeds(a, b),
        succeeds(b, c),
    ensures
        succeeds(a, c),
{
    lemma_continues_chain(a.subscriptions, b.subscriptions, c.subscriptions);
    assert forall|i: int| 0 <= i < a.events.len() implies {
        &&& (#[trigger] c.events[i]).event_id == a.events[i].event_id
        &&& c.events[i].kind == a.events[i].kind
        &&& c.events[i].received_at == a.events[i].received_at
        &&& c.events[i].raw_payload == a.events[i].raw_payload
        &&& (a.events[i].processed_at is Some ==> c.events[i].processed_at
            == a.events[i].processed_at)
    } by {
        assert(b.events[i].event_id == a.events[i].event_id);
    }
    assert forall|i: int| 0 <= i < a.customers.len() implies a.customers[i] == c.customers[i] by {
        assert(a.customers[i] == b.customers[i]);
    }
}

/// One operation keeps everything well formed and loses nothing.
pub proof fn lemma_stepped(s: SyncView, op: Operation)
    requires
        sync_wf(s),
    ensures
        sync_wf(stepped(s, op)),
        succeeds(s, stepped(s, op)),
{
    lemma_continues_chain(s.subscriptions, s.subscriptions, s.subscriptions);
    match op {
        Operation::Enroll { user, fresh, now } => {
            lemma_enrolled_wf(s.customers, user, fresh, now);
        },
        Operation::StartTrial { user, trial_ends_at } => {
            lemma_opened(s.subscriptions, user, trial_ends_at);
        },
        Operation::Deliver { event, now } => {
            lemma_delivered(s, event, now);
        },
        Operation::Sweep { now, on_file } => {
            lemma_swept(s.subscriptions, now, on_file);
        },
        Operation::Expire { id, seen_version, now } => {
            lemma_expired_one(s.subscriptions, id, seen_version, now);
        },
    }
}

/// A run of operations keeps everything well formed and loses nothing.
pub proof fn lemma_ran(s: SyncView, ops: Seq<Operation>)
    requires
        sync_wf(s),
    ensures
        sync_wf(ran(s, ops)),
        succeeds(s, ran(s, ops)),
    decreases ops.len(),
{
    if ops.len() > 0 {
        let before = ran(s, ops.drop_last());
        lemma_ran(s, ops.drop_last());
        lemma_stepped(before, ops.last());
        lemma_succeeds_chain(s, before, ran(s, ops));
    } else {
        lemma_continues_chain(s.subscriptions, s.subscriptions, s.subscriptions);
    }
}

/// Whatever happens afterwards, a subscription keeps the end of trial that
/// it was opened with, and with it its id and its customer.
pub proof fn law_trial_end_is_fixed(s: SyncView, ops: Seq<Operation>, i: int)
    requires
        sync_wf(s),
        0 <= i < s.subscriptions.len(),
    ensures
        i < ran(s, ops).subscriptions.len(),
        ran(s, ops).subscriptions[i].trial_ends_at == s.subscriptions[i].trial_ends_at,
        ran(s, ops).subscriptions[i].id == s.subscriptions[i].id,
        ran(s, ops).subscriptions[i].customer_id == s.subscriptions[i].customer_id,
{
    lemma_ran(s, ops);
}

/// Whatever happens afterwards, a subscription that is cancelled or expired
/// stays exactly as it is, and no subscription's version ever falls.
pub proof fn law_terminal_is_final(s: SyncView, ops: Seq<Operation>, i: int)
    requires
        sync_wf(s),
        0 <= i < s.subscriptions.len(),
    ensures
        i < ran(s, ops).subscriptions.len(),
        ran(s, ops).subscriptions[i].version >= s.subscriptions[i].version,
        s.subscriptions[i].state.terminal() ==> ran(s, ops).subscriptions[i] == s.subscriptions[i],
{
    lemma_ran(s, ops);
}

/// Whatever happens afterwards, the ledger keeps every delivery it wrote
/// down, as it was delivered, and a delivery that is marked processed keeps
/// its mark.
pub proof fn law_ledger_is_append_only(s: SyncView, ops: Seq<Operation>, i: int)
    requires
        sync_wf(s),
        0 <= i < s.events.len(),
    ensures
        i < ran(s, ops).events.len(),
        ran(s, ops).events[i].event_id == s.events[i].event_id,
        ran(s, ops).events[i].kind == s.events[i].kind,
        ran(s, ops).events[i].received_at == s.events[i].received_at,
        ran(s, ops).events[i].raw_payload == s.events[i].raw_payload,
        s.events[i].processed_at is Some ==> ran(s, ops).events[i] == s.events[i],
{
    lemma_ran(s, ops);
}

/// Whatever happens afterwards, a user keeps the customer they were given.
pub proof fn law_customer_is_kept(s: SyncView, ops: Seq<Operation>, i: int)
    requires
        sync_wf(s),
        0 <= i < s.customers.len(),
    ensures
        i < ran(s, ops).customers.len(),
        ran(s, ops).customers[i] == s.customers[i],
{
    lemma_ran(s, ops);
}

/// Whatever has happened, no customer has two live subscriptions.
pub proof fn law_one_live_subscription(s: SyncView, ops: Seq<Operation>, i: int, j: int)
    requires
        sync_wf(s),
        0 <= i < ran(s, ops).subscriptions.len(),
        0 <= j < ran(s, ops).subscriptions.len(),
        i != j,
        ran(s, ops).subscriptions[i].customer_id == ran(s, ops).subscriptions[j].customer_id,
    ensures
        !(ran(s, ops).subscriptions[i].state.live() && ran(s, ops).subscriptions[j].state.live()),
{
    lemma_ran(s, ops);
    let subs = ran(s, ops).subscriptions;
    if i < j {
        assert(subs[i].state.terminal());
    } else {
        assert(subs[j].state.terminal());
    }
}

/// A second sweep right after the first, over the same customers on file,
/// finds nothing to expire and leaves everything as the first left it.
pub proof fn law_sweep_is_idempotent(s: SyncView, now: u64, on_file: Seq<u64>)
    ensures
        enforced(enforced(s, now, on_file), now, on_file) == enforced(s, now, on_file),
        lapsed(enforced(s, now, on_file).subscriptions, now, on_file) == Seq::<u64>::empty(),
{
    let once = swept(s.subscriptions, now, on_file);
    assert(swept(once, now, on_file) =~= once);
    lemma_nothing_lapses(once, now, on_file);
}

/// A sweep that saw a record, and comes back to it after an event was
/// written to it, does not expire it: the version it saw is older than the
/// record's by then. (A counter at its ceiling cannot rise, and is left out.)
pub proof fn law_sweep_yields_to_a_write(
    s: SyncView,
    e: EventView,
    now: u64,
    user: u64,
    i: int,
    later: u64,
)
    requires
        sync_wf(s),
        subject(s.customers, e) == Some(user),
        current_of(s.subscriptions, user) == Some(i),
        delivered(s, e, now).1 is Applied,
        s.subscriptions[i].version < u64::MAX,
    ensures
        0 <= i < s.subscriptions.len(),
        !expirable(
            delivered(s, e, now).0.subscriptions,
            i as u64,
            s.subscriptions[i].version,
            later,
        ),
{
    lemma_last_index(owners(s.subscriptions), user);
}

/// Where no record lapses, the sweep names none.
pub proof fn lemma_nothing_lapses(subs: Seq<SubscriptionView>, now: u64, on_file: Seq<u64>)
    requires
        forall|i: int| 0 <= i < subs.len() ==> !lapses(#[trigger] subs[i], now, on_file),
    ensures
        lapsed(subs, now, on_file) == Seq::<u64>::empty(),
    decreases subs.len(),
{
    if subs.len() > 0 {
        assert forall|i: int| 0 <= i < subs.drop_last().len() implies !lapses(
            #[trigger] subs.drop_last()[i],
            now,
            on_file,
        ) by {
            assert(subs.drop_last()[i] == subs[i]);
        }
        lemma_nothing_lapses(subs.drop_last(), now, on_file);
    }
}

} // verus!
