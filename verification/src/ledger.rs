//! The event ledger: every delivery is written down by its idempotency key
//! before anything acts on it.

use vstd::prelude::*;
use vstd::slice::slice_to_vec;
use crate::lookup::{last_index, lemma_last_index};
use crate::transition::EventKind;

verus! {

/// One delivery as the ledger keeps it.
pub struct WebhookEvent {
    pub event_id: String,
    pub kind: EventKind,
    pub received_at: u64,
    pub processed_at: Option<u64>,
    pub raw_payload: Vec<u8>,
}

/// A ledger entry as contracts see it.
pub ghost struct WebhookEventView {
    pub event_id: Seq<char>,
    pub kind: EventKind,
    pub received_at: u64,
    pub processed_at: Option<u64>,
    pub raw_payload: Seq<u8>,
}

impl View for WebhookEvent {
    type V = WebhookEventView;

    open spec fn view(&self) -> WebhookEventView {
        WebhookEventView {
            event_id: self.event_id@,
            kind: self.kind,
            received_at: self.received_at,
            processed_at: self.processed_at,
            raw_payload: self.raw_payload@,
        }
    }
}

impl WebhookEvent {
    /// A copy of the entry.
    pub fn duplicate(&self) -> (r: WebhookEvent)
        ensures
            r@ == self@,
    {
        WebhookEvent {
            event_id: self.event_id.clone(),
            kind: self.kind,
            received_at: self.received_at,
            processed_at: self.processed_at,
            raw_payload: slice_to_vec(self.raw_payload.as_slice()),
        }
    }
}

/// Whether a delivery was the first with its key.
#[derive(Clone, Copy, PartialEq, Eq, Structural, Debug)]
pub enum Recorded {
    Fresh,
    AlreadySeen,
}

/// The key of each entry, in order.
pub open spec fn event_ids(es: Seq<WebhookEventView>) -> Seq<Seq<char>> {
    Seq::new(es.len(), |i: int| es[i].event_id)
}

/// No key occurs twice.
pub open spec fn ledger_wf(es: Seq<WebhookEventView>) -> bool {
    event_ids(es).no_duplicates()
}

/// Where the entry with a key stands, if there is one.
pub open spec fn entry_of(es: Seq<WebhookEventView>, event_id: Seq<char>) -> Option<int> {
    last_index(event_ids(es), event_id)
}

/// Whether the delivery with a key has been acted on to the end.
pub open spec fn settled(es: Seq<WebhookEventView>, event_id: Seq<char>) -> bool {
    match entry_of(es, event_id) {
        Some(i) => es[i].processed_at is Some,
        None => false,
    }
}

/// The ledger after a delivery was written down: a key that is new gets an
/// entry that is not yet processed, a known key changes nothing.
pub open spec fn noted(
    es: Seq<WebhookEventView>,
    event_id: Seq<char>,
    kind: EventKind,
    payload: Seq<u8>,
    now: u64,
) -> Seq<WebhookEventView> {
    if entry_of(es, event_id) is Some {
        es
    } else {
        es.push(
            WebhookEventView {
                event_id,
                kind,
                received_at: now,
                processed_at: None,
                raw_payload: payload,
            },
        )
    }
}

/// The ledger after the delivery with a key was marked processed: the first
/// mark stays, and a key without an entry changes nothing.
pub open spec fn closed_out(es: Seq<WebhookEventView>, event_id: Seq<char>, now: u64) -> Seq<
    WebhookEventView,
> {
    match entry_of(es, event_id) {
        Some(i) => if es[i].processed_at is Some {
            es
        } else {
            es.update(i, WebhookEventView { processed_at: Some(now), ..es[i] })
        },
        None => es,
    }
}

/// How a ledger may differ from an earlier one: entries are added at the
/// end and none is removed; an entry keeps its key, its kind, its time of
/// receipt and its payload; and once it is marked processed, the mark stays
/// as it is.
pub open spec fn ledger_continues(before: Seq<WebhookEventView>, after: Seq<WebhookEventView>) -> bool {
    &&& before.len() <= after.len()
    &&& forall|i: int|
        0 <= i < before.len() ==> {
            &&& (#[trigger] after[i]).event_id == before[i].event_id
            &&& after[i].kind == before[i].kind
            &&& after[i].received_at == before[i].received_at
            &&& after[i].raw_payload == before[i].raw_payload
            &&& (before[i].processed_at is Some ==> after[i].processed_at == before[i].processed_at)
        }
}

/// Writing a delivery down keeps the keys distinct.
pub proof fn lemma_noted_wf(
    es: Seq<WebhookEventView>,
    event_id: Seq<char>,
    kind: EventKind,
    payload: Seq<u8>,
    now: u64,
)
    requires
        ledger_wf(es),
    ensures
        ledger_wf(noted(es, event_id, kind, payload, now)),
        entry_of(noted(es, event_id, kind, payload, now), event_id) is Some,
        entry_of(es, event_id) is None ==> entry_of(
            noted(es, event_id, kind, payload, now),
            event_id,
        ) == Some(es.len() as int),
        ledger_continues(es, noted(es, event_id, kind, payload, now)),
{
    let after = noted(es, event_id, kind, payload, now);
    lemma_last_index(event_ids(es), event_id);
    if after != es {
        assert(event_ids(after) =~= event_ids(es).push(event_id));
        crate::lookup::lemma_last_index_push(event_ids(es), event_id, event_id);
        assert forall|i: int, j: int|
            0 <= i < after.len() && 0 <= j < after.len() && i != j implies event_ids(after)[i]
            != event_ids(after)[j] by {
            if i < es.len() {
                assert(event_ids(after)[i] == event_ids(es)[i]);
            }
            if j < es.len() {
                assert(event_ids(after)[j] == event_ids(es)[j]);
            }
        }
    }
}

/// Marking a delivery processed changes no key, so every entry is found
/// where it was, and the marked one is settled.
pub proof fn lemma_closed_out(es: Seq<WebhookEventView>, event_id: Seq<char>, now: u64)
    ensures
        event_ids(closed_out(es, event_id, now)) == event_ids(es),
        ledger_wf(es) ==> ledger_wf(closed_out(es, event_id, now)),
        entry_of(es, event_id) is Some ==> settled(closed_out(es, event_id, now), event_id),
        ledger_continues(es, closed_out(es, event_id, now)),
{
    lemma_last_index(event_ids(es), event_id);
    assert(event_ids(closed_out(es, event_id, now)) =~= event_ids(es));
}

/// The deliveries seen so far, oldest first.
pub struct EventLedger {
    entries: Vec<WebhookEvent>,
}

impl View for EventLedger {
    type V = Seq<WebhookEventView>;

    closed spec fn view(&self) -> Seq<WebhookEventView> {
        Seq::new(self.entries@.len(), |i: int| self.entries@[i]@)
    }
}

impl EventLedger {
    /// No key occurs twice.
    pub open spec fn wf(&self) -> bool {
        ledger_wf(self@)
    }

    /// A ledger without entries.
    pub fn new() -> (r: EventLedger)
        ensures
            r@ == Seq::<WebhookEventView>::empty(),
            r.wf(),
    {
        let r = EventLedger { entries: Vec::new() };
        assert(r@ =~= Seq::<WebhookEventView>::empty());
        r
    }

    /// A copy of the ledger, for a caller that wants to go back to it should
    /// it fail to store what came after.
    pub fn duplicate(&self) -> (r: EventLedger)
        ensures
            r@ == self@,
    {
        let mut entries: Vec<WebhookEvent> = Vec::new();
        let mut i: usize = 0;
        while i < self.entries.len()
            invariant
                i <= self.entries@.len(),
                entries@.len() == i,
                forall|j: int| 0 <= j < i ==> (#[trigger] entries@[j])@ == self.entries@[j]@,
            decreases self.entries@.len() - i,
        {
            entries.push(self.entries[i].duplicate());
            i += 1;
        }
        let r = EventLedger { entries };
        assert(r@ =~= self@);
        r
    }

    /// How many deliveries were written down.
    pub fn len(&self) -> (n: usize)
        ensures
            n == self@.len(),
    {
        self.entries.len()
    }

    fn position(&self, event_id: &String) -> (r: Option<usize>)
        ensures
            match r {
                Some(i) => entry_of(self@, event_id@) == Some(i as int) && i < self@.len(),
                None => entry_of(self@, event_id@) is None,
            },
    {
        let mut i: usize = self.entries.len();
        while i > 0
            invariant
                i <= self.entries@.len(),
                forall|j: int| i <= j < self@.len() ==> event_ids(self@)[j] != event_id@,
            decreases i,
        {
            i -= 1;
            if self.entries[i].event_id == *event_id {
                proof {
                    assert(event_ids(self@)[i as int] == event_id@);
                    lemma_last_index(event_ids(self@), event_id@);
                }
                return Some(i);
            }
        }
        proof {
            lemma_last_index(event_ids(self@), event_id@);
        }
        None
    }

    /// Writes a delivery down unless its key is known. `AlreadySeen` is no
    /// failure: it tells the caller that this is a redelivery.
    pub fn record_if_new(&mut self, event_id: String, kind: EventKind, payload: Vec<u8>, now: u64) -> (r:
        Recorded)
        requires
            old(self).wf(),
        ensures
            final(self).wf(),
            final(self)@ == noted(old(self)@, event_id@, kind, payload@, now),
            ledger_continues(old(self)@, final(self)@),
            r == (if entry_of(old(self)@, event_id@) is Some {
                Recorded::AlreadySeen
            } else {
                Recorded::Fresh
            }),
    {
        proof {
            lemma_noted_wf(old(self)@, event_id@, kind, payload@, now);
        }
        if self.position(&event_id).is_some() {
            return Recorded::AlreadySeen;
        }
        self.entries.push(
            WebhookEvent { event_id, kind, received_at: now, processed_at: None, raw_payload: payload },
        );
        assert(self@ =~= noted(old(self)@, event_id@, kind, payload@, now));
        Recorded::Fresh
    }

    /// Whether the delivery with this key has been acted on to the end. A
    /// key that was written down and is not settled was interrupted, and is
    /// to be tried again.
    pub fn is_processed(&self, event_id: &String) -> (b: bool)
        ensures
            b == settled(self@, event_id@),
    {
        match self.position(event_id) {
            Some(i) => self.entries[i].processed_at.is_some(),
            None => false,
        }
    }

    /// The entry with this key, if the delivery was written down.
    pub fn entry(&self, event_id: &String) -> (r: Option<WebhookEvent>)
        ensures
            match r {
                Some(found) => entry_of(self@, event_id@) matches Some(i) && found@ == self@[i],
                None => entry_of(self@, event_id@) is None,
            },
    {
        match self.position(event_id) {
            Some(i) => Some(self.entries[i].duplicate()),
            None => None,
        }
    }

    /// Whether a delivery with this key was written down.
    pub fn contains(&self, event_id: &String) -> (b: bool)
        ensures
            b == (entry_of(self@, event_id@) is Some),
    {
        self.position(event_id).is_some()
    }

    /// Marks the delivery with this key processed, unless it is so already
    /// or was never written down. Says whether the mark was set by this call.
    pub fn mark_processed(&mut self, event_id: &String, now: u64) -> (b: bool)
        requires
            old(self).wf(),
        ensures
            final(self).wf(),
            final(self)@ == closed_out(old(self)@, event_id@, now),
            ledger_continues(old(self)@, final(self)@),
            b == (entry_of(old(self)@, event_id@) is Some && !settled(old(self)@, event_id@)),
    {
        proof {
            lemma_closed_out(old(self)@, event_id@, now);
        }
        match self.position(event_id) {
            Some(i) => {
                if self.entries[i].processed_at.is_some() {
                    false
                } else {
                    self.entries[i].processed_at = Some(now);
                    assert(self@ =~= closed_out(old(self)@, event_id@, now));
                    true
                }
            },
            None => false,
        }
    }
}

} // verus!
