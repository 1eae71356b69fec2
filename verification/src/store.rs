//! The subscription store: every subscription ever opened, the current one
//! of each customer being the last that was opened for them.

use vstd::prelude::*;
use crate::event::{Event, EventView};
use crate::lookup::{last_index, lemma_last_index};
use crate::subscription::{copy_text, Subscription, SubscriptionState, SubscriptionView};
use crate::transition::{admits, guard, raised, rule, ruling, Ruling, SideEffect};

verus! {

/// What became of an event. Each of these is an acknowledgement: none asks
/// the provider to deliver again.
#[derive(Clone, Copy, PartialEq, Eq, Structural, Debug)]
pub enum Outcome {
    /// The record was written: it is in `state` now, at a higher version.
    Applied { state: SubscriptionState, effect: SideEffect },
    /// The key was processed before: nothing was done a second time.
    Duplicate,
    /// The event is older than the record: the record stays.
    Stale,
    /// The record is terminal: it stays, and the anomaly is to be logged.
    Anomaly,
    /// The kind of event is not known: nothing moves.
    UnknownEventType,
    /// The event names no registered customer, or one without a subscription.
    NoSubscription,
}

/// Why no trial was opened.
#[derive(Clone, Copy, PartialEq, Eq, Structural, Debug)]
pub enum OpenError {
    /// The user has no customer in the registry.
    UnknownCustomer,
    /// The customer's current subscription is still live.
    AlreadySubscribed,
}

/// The customer of each record, in order.
pub open spec fn owners(subs: Seq<SubscriptionView>) -> Seq<u64> {
    Seq::new(subs.len(), |i: int| subs[i].customer_id)
}

/// Each record's id is its position, and a record that is followed by
/// another of the same customer is terminal.
pub open spec fn store_wf(subs: Seq<SubscriptionView>) -> bool {
    &&& forall|i: int| 0 <= i < subs.len() ==> (#[trigger] subs[i]).id == i
    &&& forall|i: int, j: int|
        0 <= i < j < subs.len() && (#[trigger] subs[i]).customer_id == (#[trigger] subs[j]).customer_id
            ==> subs[i].state.terminal()
}

/// Where a customer's current record stands: the last one opened for them.
pub open spec fn current_of(subs: Seq<SubscriptionView>, customer: u64) -> Option<int> {
    last_index(owners(subs), customer)
}

/// Whether a customer may not open another subscription: the current one is live.
pub open spec fn engaged(subs: Seq<SubscriptionView>, customer: u64) -> bool {
    match current_of(subs, customer) {
        Some(i) => subs[i].state.live(),
        None => false,
    }
}

/// A subscription as it is opened: in trial until `trial_ends_at`, at version 0.
pub open spec fn trial(id: u64, customer: u64, trial_ends_at: u64) -> SubscriptionView {
    SubscriptionView {
        id,
        customer_id: customer,
        state: SubscriptionState::Trial,
        trial_ends_at: Some(trial_ends_at),
        current_period_end: None,
        external_subscription_id: None,
        version: 0,
    }
}

/// The store after a customer asked for a trial: a new record at the end,
/// unless their current one is live (or no id is left to give, which no
/// store in memory comes to).
pub open spec fn opened(subs: Seq<SubscriptionView>, customer: u64, trial_ends_at: u64) -> Seq<
    SubscriptionView,
> {
    if engaged(subs, customer) || subs.len() > u64::MAX {
        subs
    } else {
        subs.push(trial(subs.len() as u64, customer, trial_ends_at))
    }
}

/// One record after an event, and what became of the event.
pub open spec fn advanced(sub: SubscriptionView, e: EventView) -> (SubscriptionView, Outcome) {
    match ruling(sub.state, e.kind) {
        Ruling::Unrecognized => (sub, Outcome::UnknownEventType),
        Ruling::Anomaly => (sub, Outcome::Anomaly),
        Ruling::Advance { next, effect } => if admits(sub.version, e.version) {
            (
                SubscriptionView {
                    state: next,
                    version: raised(sub.version, e.version),
                    current_period_end: if e.period_end is Some {
                        e.period_end
                    } else {
                        sub.current_period_end
                    },
                    external_subscription_id: if sub.external_subscription_id is Some {
                        sub.external_subscription_id
                    } else {
                        e.external_subscription_id
                    },
                    ..sub
                },
                Outcome::Applied { state: next, effect },
            )
        } else {
            (sub, Outcome::Stale)
        },
    }
}

/// The store after an event for a customer, and what became of the event:
/// the customer's current record advances, every other record stays.
pub open spec fn applied(subs: Seq<SubscriptionView>, customer: u64, e: EventView) -> (
    Seq<SubscriptionView>,
    Outcome,
) {
    match current_of(subs, customer) {
        None => (subs, Outcome::NoSubscription),
        Some(i) => (subs.update(i, advanced(subs[i], e).0), advanced(subs[i], e).1),
    }
}

/// Whether the sweep is to look at a record: a trial whose end has come.
pub open spec fn due(sub: SubscriptionView, now: u64) -> bool {
    &&& sub.state == SubscriptionState::Trial
    &&& sub.trial_ends_at matches Some(t) && t <= now
}

/// The customers whose trial has come to its end, in the order of their records.
pub open spec fn due_customers(subs: Seq<SubscriptionView>, now: u64) -> Seq<u64>
    decreases subs.len(),
{
    if subs.len() == 0 {
        Seq::empty()
    } else if due(subs.last(), now) {
        due_customers(subs.drop_last(), now).push(subs.last().customer_id)
    } else {
        due_customers(subs.drop_last(), now)
    }
}

/// Whether the sweep expires a record: it is due and its customer has no
/// payment on file.
pub open spec fn lapses(sub: SubscriptionView, now: u64, on_file: Seq<u64>) -> bool {
    due(sub, now) && !on_file.contains(sub.customer_id)
}

/// A record after the sweep expired it: the write is guarded like any
/// other, carrying the version that the sweep found.
pub open spec fn expired(sub: SubscriptionView) -> SubscriptionView {
    SubscriptionView {
        state: SubscriptionState::Expired,
        version: raised(sub.version, sub.version),
        ..sub
    }
}

/// Whether a sweep that saw a record at `seen_version` may still expire it:
/// the record is there and due, and nothing was written to it since.
pub open spec fn expirable(subs: Seq<SubscriptionView>, id: u64, seen_version: u64, now: u64) -> bool {
    &&& id < subs.len()
    &&& due(subs[id as int], now)
    &&& admits(subs[id as int].version, seen_version)
}

/// The store after a sweep came back to one record that it saw at
/// `seen_version`: the record is expired, unless a write got there first.
pub open spec fn expired_one(subs: Seq<SubscriptionView>, id: u64, seen_version: u64, now: u64) -> Seq<
    SubscriptionView,
> {
    if expirable(subs, id, seen_version, now) {
        subs.update(id as int, expired(subs[id as int]))
    } else {
        subs
    }
}

/// The store after a sweep at `now`, `on_file` being the customers with a
/// payment method or renewal on file.
pub open spec fn swept(subs: Seq<SubscriptionView>, now: u64, on_file: Seq<u64>) -> Seq<
    SubscriptionView,
> {
    Seq::new(
        subs.len(),
        |i: int|
            if lapses(subs[i], now, on_file) {
                expired(subs[i])
            } else {
                subs[i]
            },
    )
}

/// The ids of the records that a sweep expires, in order.
pub open spec fn lapsed(subs: Seq<SubscriptionView>, now: u64, on_file: Seq<u64>) -> Seq<u64>
    decreases subs.len(),
{
    if subs.len() == 0 {
        Seq::empty()
    } else if lapses(subs.last(), now, on_file) {
        lapsed(subs.drop_last(), now, on_file).push(subs.last().id)
    } else {
        lapsed(subs.drop_last(), now, on_file)
    }
}

/// How a store may differ from an earlier one: records are added at the end
/// and none is removed; a record keeps its id, its customer and the end of
/// its trial; its version does not fall; and once terminal it stays as it is.
pub open spec fn continues(before: Seq<SubscriptionView>, after: Seq<SubscriptionView>) -> bool {
    &&& before.len() <= after.len()
    &&& forall|i: int|
        0 <= i < before.len() ==> {
            &&& (#[trigger] after[i]).id == before[i].id
            &&& after[i].customer_id == before[i].customer_id
            &&& after[i].trial_ends_at == before[i].trial_ends_at
            &&& after[i].version >= before[i].version
            &&& (before[i].state.terminal() ==> after[i] == before[i])
        }
}

/// A store continues itself, and continuing is passed on.
pub proof fn lemma_continues_chain(
    a: Seq<SubscriptionView>,
    b: Seq<SubscriptionView>,
    c: Seq<SubscriptionView>,
)
    requires
        continues(a, b),
        continues(b, c),
    ensures
        continues(a, a),
        continues(a, c),
{
    assert forall|i: int| 0 <= i < a.len() implies {
        &&& (#[trigger] c[i]).id == a[i].id
        &&& c[i].customer_id == a[i].customer_id
        &&& c[i].trial_ends_at == a[i].trial_ends_at
        &&& c[i].version >= a[i].version
        &&& (a[i].state.terminal() ==> c[i] == a[i])
    } by {
        assert(b[i].id == a[i].id);
    }
}

/// Opening a trial keeps the store well formed and its history untouched.
pub proof fn lemma_opened(subs: Seq<SubscriptionView>, customer: u64, trial_ends_at: u64)
    requires
        store_wf(subs),
    ensures
        store_wf(opened(subs, customer, trial_ends_at)),
        continues(subs, opened(subs, customer, trial_ends_at)),
{
    let after = opened(subs, customer, trial_ends_at);
    if after != subs {
        lemma_last_index(owners(subs), customer);
        assert forall|i: int, j: int|
            0 <= i < j < after.len() && (#[trigger] after[i]).customer_id == (
            #[trigger] after[j]).customer_id implies after[i].state.terminal() by {
            if j < subs.len() {
                assert(after[i] == subs[i] && after[j] == subs[j]);
            } else {
                assert(owners(subs)[i] == customer);
            }
        }
    }
}

/// An event keeps the store well formed and its history untouched.
pub proof fn lemma_applied(subs: Seq<SubscriptionView>, customer: u64, e: EventView)
    requires
        store_wf(subs),
    ensures
        store_wf(applied(subs, customer, e).0),
        continues(subs, applied(subs, customer, e).0),
        owners(applied(subs, customer, e).0) == owners(subs),
{
    let after = applied(subs, customer, e).0;
    lemma_last_index(owners(subs), customer);
    assert(owners(after) =~= owners(subs));
    if let Some(k) = current_of(subs, customer) {
        assert forall|i: int, j: int|
            0 <= i < j < after.len() && (#[trigger] after[i]).customer_id == (
            #[trigger] after[j]).customer_id implies after[i].state.terminal() by {
            if i == k {
                assert(owners(subs)[j] == customer);
            } else {
                assert(subs[i].customer_id == subs[j].customer_id);
            }
        }
    }
}

/// Expiring one record keeps the store well formed and its history untouched.
pub proof fn lemma_expired_one(subs: Seq<SubscriptionView>, id: u64, seen_version: u64, now: u64)
    requires
        store_wf(subs),
    ensures
        store_wf(expired_one(subs, id, seen_version, now)),
        continues(subs, expired_one(subs, id, seen_version, now)),
{
    let after = expired_one(subs, id, seen_version, now);
    assert forall|i: int, j: int|
        0 <= i < j < after.len() && (#[trigger] after[i]).customer_id == (
        #[trigger] after[j]).customer_id implies after[i].state.terminal() by {
        assert(subs[i].customer_id == subs[j].customer_id);
    }
}

/// A sweep keeps the store well formed and its history untouched.
pub proof fn lemma_swept(subs: Seq<SubscriptionView>, now: u64, on_file: Seq<u64>)
    requires
        store_wf(subs),
    ensures
        store_wf(swept(subs, now, on_file)),
        continues(subs, swept(subs, now, on_file)),
        owners(swept(subs, now, on_file)) == owners(subs),
{
    let after = swept(subs, now, on_file);
    assert(owners(after) =~= owners(subs));
    assert forall|i: int, j: int|
        0 <= i < j < after.len() && (#[trigger] after[i]).customer_id == (
        #[trigger] after[j]).customer_id implies after[i].state.terminal() by {
        assert(subs[i].customer_id == subs[j].customer_id);
    }
}

/// Whether a list of customers names this one.
pub fn listed(customers: &Vec<u64>, customer: u64) -> (b: bool)
    ensures
        b == customers@.contains(customer),
{
    let mut i: usize = 0;
    while i < customers.len()
        invariant
            i <= customers@.len(),
            forall|j: int| 0 <= j < i ==> customers@[j] != customer,
        decreases customers@.len() - i,
    {
        if customers[i] == customer {
            return true;
        }
        i += 1;
    }
    false
}

/// Every subscription ever opened, oldest first.
pub struct SubscriptionStore {
    entries: Vec<Subscription>,
}

impl View for SubscriptionStore {
    type V = Seq<SubscriptionView>;

    closed spec fn view(&self) -> Seq<SubscriptionView> {
        Seq::new(self.entries@.len(), |i: int| self.entries@[i]@)
    }
}

impl SubscriptionStore {
    /// Each record's id is its position, and a record that is followed by
    /// another of the same customer is terminal.
    pub open spec fn wf(&self) -> bool {
        store_wf(self@)
    }

    /// A store without records.
    pub fn new() -> (r: SubscriptionStore)
        ensures
            r@ == Seq::<SubscriptionView>::empty(),
            r.wf(),
    {
        let r = SubscriptionStore { entries: Vec::new() };
        assert(r@ =~= Seq::<SubscriptionView>::empty());
        r
    }

    /// A copy of the store, for a caller that wants to go back to it should
    /// it fail to store what came after.
    pub fn duplicate(&self) -> (r: SubscriptionStore)
        ensures
            r@ == self@,
    {
        let mut entries: Vec<Subscription> = Vec::new();
        let mut i: usize = 0;
        while i < self.entries.len()
            invariant
                i <= self.entries@.len(),
                entries@.len() == i,
                forall|j: int| 0 <= j < i ==> (#[trigger] entries@[j])@ == self.entries@[j]@,
            decreases self.entries@.len() - i,
        {
            entries.push(self.entries[i].duplicate());
            i += 1;
        }
        let r = SubscriptionStore { entries };
        assert(r@ =~= self@);
        r
    }

    /// How many records the store holds.
    pub fn len(&self) -> (n: usize)
        ensures
            n == self@.len(),
    {
        self.entries.len()
    }

    fn position_of_customer(&self, customer: u64) -> (r: Option<usize>)
        ensures
            match r {
                Some(i) => current_of(self@, customer) == Some(i as int) && i < self@.len(),
                None => current_of(self@, customer) is None,
            },
    {
        let mut i: usize = self.entries.len();
        while i > 0
            invariant
                i <= self.entries@.len(),
                forall|j: int| i <= j < self@.len() ==> owners(self@)[j] != customer,
            decreases i,
        {
            i -= 1;
            if self.entries[i].customer_id == customer {
                proof {
                    assert(owners(self@)[i as int] == customer);
                    lemma_last_index(owners(self@), customer);
                }
                return Some(i);
            }
        }
        proof {
            lemma_last_index(owners(self@), customer);
        }
        None
    }

    /// The record with this id, if there is one.
    pub fn get(&self, id: u64) -> (r: Option<Subscription>)
        ensures
            match r {
                Some(sub) => id < self@.len() && sub@ == self@[id as int],
                None => id >= self@.len(),
            },
    {
        if id < self.entries.len() as u64 {
            Some(self.entries[id as usize].duplicate())
        } else {
            None
        }
    }

    /// The customer's current record: the last one opened for them.
    pub fn current(&self, customer: u64) -> (r: Option<Subscription>)
        ensures
            match r {
                Some(sub) => current_of(self@, customer) matches Some(i) && sub@ == self@[i],
                None => current_of(self@, customer) is None,
            },
    {
        match self.position_of_customer(customer) {
            Some(i) => Some(self.entries[i].duplicate()),
            None => None,
        }
    }

    /// Opens a trial for a customer and hands out its id, unless the
    /// customer's current subscription is still live. Earlier records stay.
    pub fn open_trial(&mut self, customer: u64, trial_ends_at: u64) -> (r: Result<u64, OpenError>)
        requires
            old(self).wf(),
        ensures
            final(self).wf(),
            final(self)@ == opened(old(self)@, customer, trial_ends_at),
            continues(old(self)@, final(self)@),
            r == (if engaged(old(self)@, customer) {
                Err::<u64, OpenError>(OpenError::AlreadySubscribed)
            } else {
                Ok::<u64, OpenError>(old(self)@.len() as u64)
            }),
    {
        let count = self.entries.len();
        proof {
            assert(old(self)@.len() == count);
            lemma_opened(old(self)@, customer, trial_ends_at);
        }
        if let Some(i) = self.position_of_customer(customer) {
            if self.entries[i].state.is_live() {
                return Err(OpenError::AlreadySubscribed);
            }
        }
        let id = count as u64;
        self.entries.push(
            Subscription {
                id,
                customer_id: customer,
                state: SubscriptionState::Trial,
                trial_ends_at: Some(trial_ends_at),
                current_period_end: None,
                external_subscription_id: None,
                version: 0,
            },
        );
        assert(self@ =~= opened(old(self)@, customer, trial_ends_at));
        Ok(id)
    }

    /// Applies an event to the customer's current record, in one step: the
    /// table gives the target state, the version guard decides whether the
    /// write goes through, and the record is either written whole or left
    /// as it was.
    pub fn apply(&mut self, customer: u64, event: &Event) -> (r: Outcome)
        requires
            old(self).wf(),
        ensures
            final(self).wf(),
            final(self)@ == applied(old(self)@, customer, event@).0,
            r == applied(old(self)@, customer, event@).1,
            continues(old(self)@, final(self)@),
    {
        proof {
            lemma_applied(old(self)@, customer, event@);
        }
        let i = match self.position_of_customer(customer) {
            Some(i) => i,
            None => {
                return Outcome::NoSubscription;
            },
        };
        let ghost before = self@[i as int];
        match rule(self.entries[i].state, event.kind) {
            Ruling::Unrecognized => {
                assert(self@ =~= applied(old(self)@, customer, event@).0);
                Outcome::UnknownEventType
            },
            Ruling::Anomaly => {
                assert(self@ =~= applied(old(self)@, customer, event@).0);
                Outcome::Anomaly
            },
            Ruling::Advance { next, effect } => match guard(self.entries[i].version, event.version) {
                None => {
                    assert(self@ =~= applied(old(self)@, customer, event@).0);
                    Outcome::Stale
                },
                Some(version) => {
                    self.entries[i].state = next;
                    self.entries[i].version = version;
                    if event.period_end.is_some() {
                        self.entries[i].current_period_end = event.period_end;
                    }
                    if self.entries[i].external_subscription_id.is_none() {
                        self.entries[i].external_subscription_id = copy_text(
                            &event.external_subscription_id,
                        );
                    }
                    assert(self@[i as int] == advanced(before, event@).0);
                    assert(self@ =~= applied(old(self)@, customer, event@).0);
                    Outcome::Applied { state: next, effect }
                },
            },
        }
    }

    /// The customers whose trial has come to its end at `now`: those that
    /// the provider is to be asked about before the sweep runs.
    pub fn due_trials(&self, now: u64) -> (r: Vec<u64>)
        ensures
            r@ == due_customers(self@, now),
    {
        let mut out: Vec<u64> = Vec::new();
        let n = self.entries.len();
        let mut i: usize = 0;
        assert(self@.take(0) =~= Seq::<SubscriptionView>::empty());
        while i < n
            invariant
                i <= n,
                n == self@.len(),
                out@ == due_customers(self@.take(i as int), now),
            decreases n - i,
        {
            let ghost seen = self@.take(i as int + 1);
            assert(seen.drop_last() =~= self@.take(i as int));
            assert(seen.last() == self@[i as int]);
            let is_due = match self.entries[i].trial_ends_at {
                Some(t) => t <= now && self.entries[i].state == SubscriptionState::Trial,
                None => false,
            };
            if is_due {
                out.push(self.entries[i].customer_id);
            }
            i += 1;
        }
        assert(self@.take(n as int) =~= self@);
        out
    }

    /// Expires one trial for a sweep that works record by record: having
    /// seen the record at `seen_version` and found no payment on file, it
    /// comes back to write. The write goes through only if the record is
    /// still a trial whose end has come and no other write has raised its
    /// version since. Says whether the record was expired.
    pub fn expire_trial(&mut self, id: u64, seen_version: u64, now: u64) -> (r: bool)
        requires
            old(self).wf(),
        ensures
            final(self).wf(),
            final(self)@ == expired_one(old(self)@, id, seen_version, now),
            r == expirable(old(self)@, id, seen_version, now),
            continues(old(self)@, final(self)@),
    {
        proof {
            lemma_expired_one(old(self)@, id, seen_version, now);
        }
        if id >= self.entries.len() as u64 {
            return false;
        }
        let i = id as usize;
        let is_due = match self.entries[i].trial_ends_at {
            Some(t) => t <= now && self.entries[i].state == SubscriptionState::Trial,
            None => false,
        };
        if !is_due || seen_version < self.entries[i].version {
            return false;
        }
        let ghost record = self@[i as int];
        self.entries[i].state = SubscriptionState::Expired;
        self.entries[i].version = self.entries[i].version.saturating_add(1);
        assert(self@[i as int] == expired(record));
        assert(self@ =~= expired_one(old(self)@, id, seen_version, now));
        true
    }

    /// Expires every trial whose end has come and whose customer is not in
    /// `on_file`, the customers that the provider has a payment method or a
    /// renewal for. Hands out the ids of the records it expired, in order.
    /// A record that is no longer in trial is passed over, so a second
    /// sweep finds nothing left to do.
    pub fn sweep(&mut self, now: u64, on_file: &Vec<u64>) -> (r: Vec<u64>)
        requires
            old(self).wf(),
        ensures
            final(self).wf(),
            final(self)@ == swept(old(self)@, now, on_file@),
            r@ == lapsed(old(self)@, now, on_file@),
            continues(old(self)@, final(self)@),
    {
        proof {
            lemma_swept(old(self)@, now, on_file@);
        }
        let mut out: Vec<u64> = Vec::new();
        let n = self.entries.len();
        let mut i: usize = 0;
        assert(old(self)@.take(0) =~= Seq::<SubscriptionView>::empty());
        while i < n
            invariant
                i <= n,
                n == self@.len(),
                n == old(self)@.len(),
                forall|j: int|
                    0 <= j < i ==> (#[trigger] self@[j]) == swept(old(self)@, now, on_file@)[j],
                forall|j: int| i <= j < n ==> (#[trigger] self@[j]) == old(self)@[j],
                out@ == lapsed(old(self)@.take(i as int), now, on_file@),
            decreases n - i,
        {
            let ghost seen = old(self)@.take(i as int + 1);
            assert(seen.drop_last() =~= old(self)@.take(i as int));
            assert(seen.last() == old(self)@[i as int]);
            assert(self@[i as int] == old(self)@[i as int]);
            let is_due = match self.entries[i].trial_ends_at {
                Some(t) => t <= now && self.entries[i].state == SubscriptionState::Trial,
                None => false,
            };
            let ghost earlier = self@;
            let ghost record = self@[i as int];
            assert(is_due == due(record, now));
            if is_due && !listed(on_file, self.entries[i].customer_id) {
                out.push(self.entries[i].id);
                self.entries[i].state = SubscriptionState::Expired;
                self.entries[i].version = self.entries[i].version.saturating_add(1);
                assert(self@[i as int] == expired(record));
            }
            assert(self@[i as int] == swept(old(self)@, now, on_file@)[i as int]);
            assert forall|j: int| 0 <= j < n && j != i implies (#[trigger] self@[j])
                == earlier[j] by {}
            i += 1;
        }
        assert(old(self)@.take(n as int) =~= old(self)@);
        assert(self@ =~= swept(old(self)@, now, on_file@));
        out
    }
}

} // verus!
