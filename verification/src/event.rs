//! A provider event as the dispatcher takes it.

use vstd::prelude::*;
use vstd::string::StringExecFns;
use crate::subscription::text_of;
use crate::transition::EventKind;

verus! {

/// Whether two strings hold the same characters.
pub fn same_text(a: &str, b: &str) -> (r: bool)
    ensures
        r == (a@ == b@),
{
    String::from_str(a) == String::from_str(b)
}

/// The kind that a provider's type name stands for.
pub open spec fn kind_named(name: Seq<char>) -> EventKind {
    if name == "subscription-created"@ {
        EventKind::SubscriptionCreated
    } else if name == "invoice-paid"@ {
        EventKind::InvoicePaid
    } else if name == "invoice-payment-failed"@ {
        EventKind::InvoicePaymentFailed
    } else if name == "subscription-updated"@ {
        EventKind::SubscriptionUpdated
    } else if name == "subscription-deleted"@ {
        EventKind::SubscriptionDeleted
    } else {
        EventKind::Unknown
    }
}

impl EventKind {
    /// Reads a provider's type name. A name that is not known is no error:
    /// the provider may grow new types.
    pub fn from_name(name: &str) -> (k: EventKind)
        ensures
            k == kind_named(name@),
    {
        if same_text(name, "subscription-created") {
            EventKind::SubscriptionCreated
        } else if same_text(name, "invoice-paid") {
            EventKind::InvoicePaid
        } else if same_text(name, "invoice-payment-failed") {
            EventKind::InvoicePaymentFailed
        } else if same_text(name, "subscription-updated") {
            EventKind::SubscriptionUpdated
        } else if same_text(name, "subscription-deleted") {
            EventKind::SubscriptionDeleted
        } else {
            EventKind::Unknown
        }
    }
}

/// A verified delivery, decoded.
pub struct Event {
    /// The idempotency key.
    pub event_id: String,
    pub kind: EventKind,
    /// The provider-side customer that the event is about, where it names one.
    pub customer: Option<String>,
    /// The provider's sequence marker: a later change carries a higher one.
    pub version: u64,
    pub period_end: Option<u64>,
    pub external_subscription_id: Option<String>,
    /// The body as it was delivered.
    pub payload: Vec<u8>,
}

/// An event as contracts see it.
pub ghost struct EventView {
    pub event_id: Seq<char>,
    pub kind: EventKind,
    pub customer: Option<Seq<char>>,
    pub version: u64,
    pub period_end: Option<u64>,
    pub external_subscription_id: Option<Seq<char>>,
    pub payload: Seq<u8>,
}

impl View for Event {
    type V = EventView;

    open spec fn view(&self) -> EventView {
        EventView {
            event_id: self.event_id@,
            kind: self.kind,
            customer: text_of(self.customer),
            version: self.version,
            period_end: self.period_end,
            external_subscription_id: text_of(self.external_subscription_id),
            payload: self.payload@,
        }
    }
}

} // verus!
