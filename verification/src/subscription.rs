//! The subscription record and the states it moves through.

use vstd::prelude::*;

verus! {

/// Where a subscription stands in its lifecycle.
#[derive(Clone, Copy, PartialEq, Eq, Structural, Debug)]
pub enum SubscriptionState {
    Trial,
    Active,
    PastDue,
    Cancelled,
    Expired,
}

impl SubscriptionState {
    /// Cancelled and Expired are final: a record in either is never changed again.
    pub open spec fn terminal(self) -> bool {
        self == SubscriptionState::Cancelled || self == SubscriptionState::Expired
    }

    /// Trial, Active and PastDue entitle the customer to something.
    pub open spec fn live(self) -> bool {
        !self.terminal()
    }

    pub fn is_terminal(&self) -> (b: bool)
        ensures
            b == self.terminal(),
    {
        match self {
            SubscriptionState::Cancelled | SubscriptionState::Expired => true,
            _ => false,
        }
    }

    pub fn is_live(&self) -> (b: bool)
        ensures
            b == self.live(),
    {
        !self.is_terminal()
    }
}

/// One subscription of one customer.
pub struct Subscription {
    pub id: u64,
    pub customer_id: u64,
    pub state: SubscriptionState,
    pub trial_ends_at: Option<u64>,
    pub current_period_end: Option<u64>,
    pub external_subscription_id: Option<String>,
    pub version: u64,
}

/// A subscription as contracts see it.
pub ghost struct SubscriptionView {
    pub id: u64,
    pub customer_id: u64,
    pub state: SubscriptionState,
    pub trial_ends_at: Option<u64>,
    pub current_period_end: Option<u64>,
    pub external_subscription_id: Option<Seq<char>>,
    pub version: u64,
}

/// The characters of an optional string.
pub open spec fn text_of(s: Option<String>) -> Option<Seq<char>> {
    match s {
        Some(t) => Some(t@),
        None => None,
    }
}

/// Copies an optional string.
pub fn copy_text(s: &Option<String>) -> (r: Option<String>)
    ensures
        text_of(r) == text_of(*s),
{
    match s {
        Some(t) => Some(t.clone()),
        None => None,
    }
}

impl View for Subscription {
    type V = SubscriptionView;

    open spec fn view(&self) -> SubscriptionView {
        SubscriptionView {
            id: self.id,
            customer_id: self.customer_id,
            state: self.state,
            trial_ends_at: self.trial_ends_at,
            current_period_end: self.current_period_end,
            external_subscription_id: text_of(self.external_subscription_id),
            version: self.version,
        }
    }
}

impl Subscription {
    /// A copy of the record.
    pub fn duplicate(&self) -> (r: Subscription)
        ensures
            r@ == self@,
    {
        Subscription {
            id: self.id,
            customer_id: self.customer_id,
            state: self.state,
            trial_ends_at: self.trial_ends_at,
            current_period_end: self.current_period_end,
            external_subscription_id: copy_text(&self.external_subscription_id),
            version: self.version,
        }
    }
}

} // verus!
