//! The synchronizer: registry, ledger and store side by side, and the
//! operations that move them together.

use vstd::prelude::*;
use vstd::slice::slice_to_vec;
use crate::event::{Event, EventView};
use crate::ledger::{
    closed_out, ledger_continues, ledger_wf, lemma_closed_out, lemma_noted_wf, noted, settled,
    EventLedger, WebhookEventView,
};
use crate::registry::{external_of, owner_of, registry_wf, CustomerRegistry, CustomerView};
use crate::store::{
    applied, continues, current_of, engaged, lapsed, lemma_applied, lemma_continues_chain, opened,
    store_wf, swept, OpenError, Outcome, SubscriptionStore,
};
use crate::subscription::{SubscriptionState, SubscriptionView};
use crate::transition::EventKind;
use crate::webhook::{verified, verify_webhook, VerifyError};

verus! {

/// Everything the synchronizer keeps, as contracts see it.
pub ghost struct SyncView {
    pub customers: Seq<CustomerView>,
    pub subscriptions: Seq<SubscriptionView>,
    pub events: Seq<WebhookEventView>,
}

/// Each of the three parts is well formed.
pub open spec fn sync_wf(s: SyncView) -> bool {
    &&& registry_wf(s.customers)
    &&& store_wf(s.subscriptions)
    &&& ledger_wf(s.events)
}

/// The user that an event is about: the one behind the customer it names.
pub open spec fn subject(customers: Seq<CustomerView>, e: EventView) -> Option<u64> {
    match e.customer {
        Some(external) => owner_of(customers, external),
        None => None,
    }
}

/// The store after an event was routed to its customer's current record,
/// and what became of the event. An event of unknown kind reaches no record.
pub open spec fn dispatched(
    customers: Seq<CustomerView>,
    subs: Seq<SubscriptionView>,
    e: EventView,
) -> (Seq<SubscriptionView>, Outcome) {
    if e.kind == EventKind::Unknown {
        (subs, Outcome::UnknownEventType)
    } else {
        match subject(customers, e) {
            Some(user) => applied(subs, user, e),
            None => (subs, Outcome::NoSubscription),
        }
    }
}

/// Everything after one delivery at `now`, and what became of it.
///
/// A key that was processed before changes nothing. Any other delivery is
/// written down (unless an interrupted attempt already did so), routed, and
/// marked processed, all at once.
pub open spec fn delivered(s: SyncView, e: EventView, now: u64) -> (SyncView, Outcome) {
    if settled(s.events, e.event_id) {
        (s, Outcome::Duplicate)
    } else {
        (
            SyncView {
                customers: s.customers,
                subscriptions: dispatched(s.customers, s.subscriptions, e).0,
                events: closed_out(
                    noted(s.events, e.event_id, e.kind, e.payload, now),
                    e.event_id,
                    now,
                ),
            },
            dispatched(s.customers, s.subscriptions, e).1,
        )
    }
}

/// Everything after a user asked for a trial that ends at `trial_ends_at`,
/// and the id of the new subscription or the reason there is none.
pub open spec fn trial_started(s: SyncView, user: u64, trial_ends_at: u64) -> (
    SyncView,
    Result<u64, OpenError>,
) {
    if external_of(s.customers, user) is None {
        (s, Err(OpenError::UnknownCustomer))
    } else if engaged(s.subscriptions, user) {
        (s, Err(OpenError::AlreadySubscribed))
    } else {
        (
            SyncView { subscriptions: opened(s.subscriptions, user, trial_ends_at), ..s },
            Ok(s.subscriptions.len() as u64),
        )
    }
}

/// Everything after a sweep at `now`.
pub open spec fn enforced(s: SyncView, now: u64, on_file: Seq<u64>) -> SyncView {
    SyncView { subscriptions: swept(s.subscriptions, now, on_file), ..s }
}

/// Everything after a delivery came in from the network, and the answer to
/// it. A delivery that the verifier turns away touches nothing.
pub open spec fn received(
    s: SyncView,
    body: Seq<u8>,
    signature: Seq<u8>,
    timestamp: Seq<u8>,
    secret: Seq<u8>,
    now: u64,
    tolerance: u64,
) -> (SyncView, Result<Outcome, VerifyError>) {
    match verified(body, signature, timestamp, secret, now, tolerance) {
        Ok(e) => (delivered(s, e, now).0, Ok(delivered(s, e, now).1)),
        Err(e) => (s, Err(e)),
    }
}

/// The length of a day in seconds.
pub const SECONDS_PER_DAY: u64 = 86400;

/// What the presentation layer is shown of a user's subscription.
#[derive(Clone, Copy, PartialEq, Eq, Structural, Debug)]
pub struct SubscriptionSummary {
    pub state: SubscriptionState,
    /// Days of trial left, a begun day counting as one; 0 outside a trial.
    pub trial_days_remaining: u64,
    pub period_end: Option<u64>,
}

/// The days of trial that a record has left at `now`, a begun day counting as one.
pub open spec fn days_left(sub: SubscriptionView, now: u64) -> int {
    if sub.state == SubscriptionState::Trial && sub.trial_ends_at is Some && sub.trial_ends_at->0
        > now {
        (sub.trial_ends_at->0 - now + SECONDS_PER_DAY - 1) / (SECONDS_PER_DAY as int)
    } else {
        0
    }
}

/// The summary of a user's current subscription at `now`, if they have one.
pub open spec fn summarized(subs: Seq<SubscriptionView>, user: u64, now: u64) -> Option<
    SubscriptionSummary,
> {
    match current_of(subs, user) {
        Some(i) => Some(
            SubscriptionSummary {
                state: subs[i].state,
                trial_days_remaining: days_left(subs[i], now) as u64,
                period_end: subs[i].current_period_end,
            },
        ),
        None => None,
    }
}

/// A delivery keeps everything well formed; it leaves the registry alone
/// and the store's history untouched; and afterwards its key is settled.
pub proof fn lemma_delivered(s: SyncView, e: EventView, now: u64)
    requires
        sync_wf(s),
    ensures
        sync_wf(delivered(s, e, now).0),
        delivered(s, e, now).0.customers == s.customers,
        continues(s.subscriptions, delivered(s, e, now).0.subscriptions),
        ledger_continues(s.events, delivered(s, e, now).0.events),
        delivered(s, e, now).0.subscriptions.len() == s.subscriptions.len(),
        settled(delivered(s, e, now).0.events, e.event_id),
{
    if !settled(s.events, e.event_id) {
        let written = noted(s.events, e.event_id, e.kind, e.payload, now);
        lemma_noted_wf(s.events, e.event_id, e.kind, e.payload, now);
        lemma_closed_out(written, e.event_id, now);
        if e.kind != EventKind::Unknown {
            if let Some(user) = subject(s.customers, e) {
                lemma_applied(s.subscriptions, user, e);
            }
        }
    }
}

/// The three parts of the synchronizer. Each keeps itself well formed, so
/// they may also be used one by one.
pub struct Synchronizer {
    pub registry: CustomerRegistry,
    pub ledger: EventLedger,
    pub store: SubscriptionStore,
}

impl View for Synchronizer {
    type V = SyncView;

    open spec fn view(&self) -> SyncView {
        SyncView { customers: self.registry@, subscriptions: self.store@, events: self.ledger@ }
    }
}

impl Synchronizer {
    /// Each of the three parts is well formed.
    pub open spec fn wf(&self) -> bool {
        sync_wf(self@)
    }

    /// A synchronizer that knows no customer, subscription or event.
    pub fn new() -> (r: Synchronizer)
        ensures
            r.wf(),
            r@.customers == Seq::<CustomerView>::empty(),
            r@.subscriptions == Seq::<SubscriptionView>::empty(),
            r@.events == Seq::<WebhookEventView>::empty(),
    {
        Synchronizer {
            registry: CustomerRegistry::new(),
            ledger: EventLedger::new(),
            store: SubscriptionStore::new(),
        }
    }

    /// A copy of everything. A caller that has to store each change
    /// elsewhere works on the copy, and keeps what it had where storing
    /// fails: a delivery then leaves no trace and the provider's next attempt
    /// is taken as the first.
    pub fn duplicate(&self) -> (r: Synchronizer)
        ensures
            r@ == self@,
    {
        Synchronizer {
            registry: self.registry.duplicate(),
            ledger: self.ledger.duplicate(),
            store: self.store.duplicate(),
        }
    }

    /// Routes an event to the current record of the customer it names.
    fn dispatch(&mut self, event: &Event) -> (r: Outcome)
        requires
            old(self).wf(),
        ensures
            final(self).store.wf(),
            final(self).registry == old(self).registry,
            final(self).ledger == old(self).ledger,
            final(self).store@ == dispatched(old(self)@.customers, old(self)@.subscriptions, event@).0,
            r == dispatched(old(self)@.customers, old(self)@.subscriptions, event@).1,
    {
        if event.kind == EventKind::Unknown {
            return Outcome::UnknownEventType;
        }
        let user = match &event.customer {
            Some(external) => self.registry.lookup_customer(external.as_str()),
            None => None,
        };
        match user {
            Some(user) => self.store.apply(user, event),
            None => Outcome::NoSubscription,
        }
    }

    /// Takes one verified delivery through ledger, dispatcher and store.
    ///
    /// A key that was processed before is answered with `Duplicate` and
    /// nothing is done again. Otherwise the delivery is written down, the
    /// current record of its customer is advanced as the table and the
    /// version guard say, and the delivery is marked processed.
    pub fn handle_event(&mut self, event: &Event, now: u64) -> (r: Outcome)
        requires
            old(self).wf(),
        ensures
            final(self).wf(),
            final(self)@ == delivered(old(self)@, event@, now).0,
            r == delivered(old(self)@, event@, now).1,
            continues(old(self)@.subscriptions, final(self)@.subscriptions),
    {
        proof {
            lemma_delivered(old(self)@, event@, now);
        }
        if self.ledger.is_processed(&event.event_id) {
            return Outcome::Duplicate;
        }
        self.ledger.record_if_new(
            event.event_id.clone(),
            event.kind,
            slice_to_vec(event.payload.as_slice()),
            now,
        );
        let outcome = self.dispatch(event);
        self.ledger.mark_processed(&event.event_id, now);
        outcome
    }

    /// Takes a delivery as it came in from the network: verifies it, and
    /// only then hands its event on. A delivery that fails verification is
    /// answered with the reason and leaves registry, ledger and store as they
    /// were: nothing is written down of it.
    pub fn receive_webhook(
        &mut self,
        body: &[u8],
        signature: &[u8],
        timestamp: &[u8],
        secret: &[u8],
        now: u64,
        tolerance: u64,
    ) -> (r: Result<Outcome, VerifyError>)
        requires
            old(self).wf(),
        ensures
            final(self).wf(),
            final(self)@ == received(
                old(self)@,
                body@,
                signature@,
                timestamp@,
                secret@,
                now,
                tolerance,
            ).0,
            r == received(old(self)@, body@, signature@, timestamp@, secret@, now, tolerance).1,
            r is Err ==> final(self)@ == old(self)@,
            continues(old(self)@.subscriptions, final(self)@.subscriptions),
    {
        match verify_webhook(body, signature, timestamp, secret, now, tolerance) {
            Ok(event) => Ok(self.handle_event(&event, now)),
            Err(e) => {
                proof {
                    lemma_continues_chain(
                        self@.subscriptions,
                        self@.subscriptions,
                        self@.subscriptions,
                    );
                }
                Err(e)
            },
        }
    }

    /// What the presentation layer is shown of a user's current
    /// subscription at `now`. Reads only.
    pub fn get_subscription_summary(&self, user_id: u64, now: u64) -> (r: Option<SubscriptionSummary>)
        ensures
            r == summarized(self@.subscriptions, user_id, now),
    {
        match self.store.current(user_id) {
            Some(sub) => {
                let trial_days_remaining = match sub.trial_ends_at {
                    Some(t) => if t > now && sub.state == SubscriptionState::Trial {
                        let left = t - now;
                        if left % SECONDS_PER_DAY == 0 {
                            left / SECONDS_PER_DAY
                        } else {
                            left / SECONDS_PER_DAY + 1
                        }
                    } else {
                        0
                    },
                    None => 0,
                };
                Some(
                    SubscriptionSummary {
                        state: sub.state,
                        trial_days_remaining,
                        period_end: sub.current_period_end,
                    },
                )
            },
            None => None,
        }
    }

    /// Opens a trial for a user who has a customer in the registry and no
    /// live subscription, and hands out the new subscription's id.
    pub fn start_trial(&mut self, user_id: u64, trial_ends_at: u64) -> (r: Result<u64, OpenError>)
        requires
            old(self).wf(),
        ensures
            final(self).wf(),
            final(self)@ == trial_started(old(self)@, user_id, trial_ends_at).0,
            r == trial_started(old(self)@, user_id, trial_ends_at).1,
            continues(old(self)@.subscriptions, final(self)@.subscriptions),
    {
        if self.registry.external_id(user_id).is_none() {
            return Err(OpenError::UnknownCustomer);
        }
        self.store.open_trial(user_id, trial_ends_at)
    }

    /// Runs the trial expiry sweep at `now`. `on_file` lists the customers
    /// for whom the provider has a payment method or a renewal on file;
    /// every other trial whose end has come is expired. Hands out the ids
    /// of the subscriptions that it expired.
    pub fn enforce_trial_expiry(&mut self, now: u64, on_file: &Vec<u64>) -> (r: Vec<u64>)
        requires
            old(self).wf(),
        ensures
            final(self).wf(),
            final(self)@ == enforced(old(self)@, now, on_file@),
            r@ == lapsed(old(self)@.subscriptions, now, on_file@),
            continues(old(self)@.subscriptions, final(self)@.subscriptions),
    {
        self.store.sweep(now, on_file)
    }
}

} // verus!
