//! The transition table: what each kind of provider event does to a
//! subscription in each state, and when a version lets a write through.

use vstd::prelude::*;
use crate::subscription::SubscriptionState;

verus! {

/// The kinds of provider event that the dispatcher knows, and one for the rest.
#[derive(Clone, Copy, PartialEq, Eq, Structural, Debug)]
pub enum EventKind {
    SubscriptionCreated,
    InvoicePaid,
    InvoicePaymentFailed,
    SubscriptionUpdated,
    SubscriptionDeleted,
    Unknown,
}

/// What the presentation layer is told after a transition.
#[derive(Clone, Copy, PartialEq, Eq, Structural, Debug)]
pub enum SideEffect {
    /// The state did not change; only the record's data was refreshed.
    Refresh,
    ClearTrialDisplay,
    RevokeTrialEntitlements,
    FlagGracePeriod,
    ClearPastDue,
    RevokeAccess,
    RevokeAccessAtPeriodEnd,
}

/// What the table says about one state and one kind of event.
#[derive(Clone, Copy, PartialEq, Eq, Structural, Debug)]
pub enum Ruling {
    /// The record moves to `next` (which may be the state it is in).
    Advance { next: SubscriptionState, effect: SideEffect },
    /// The record is terminal: nothing moves, the anomaly is logged.
    Anomaly,
    /// The kind of event is not known: nothing moves.
    Unrecognized,
}

/// The table. A pair without a row of its own keeps the state and refreshes
/// the record.
pub open spec fn ruling(current: SubscriptionState, kind: EventKind) -> Ruling {
    if kind == EventKind::Unknown {
        Ruling::Unrecognized
    } else if current.terminal() {
        Ruling::Anomaly
    } else {
        match (current, kind) {
            (SubscriptionState::Trial, EventKind::InvoicePaid) => Ruling::Advance {
                next: SubscriptionState::Active,
                effect: SideEffect::ClearTrialDisplay,
            },
            (SubscriptionState::Trial, EventKind::SubscriptionDeleted) => Ruling::Advance {
                next: SubscriptionState::Cancelled,
                effect: SideEffect::RevokeTrialEntitlements,
            },
            (SubscriptionState::Active, EventKind::InvoicePaymentFailed) => Ruling::Advance {
                next: SubscriptionState::PastDue,
                effect: SideEffect::FlagGracePeriod,
            },
            (SubscriptionState::PastDue, EventKind::InvoicePaid) => Ruling::Advance {
                next: SubscriptionState::Active,
                effect: SideEffect::ClearPastDue,
            },
            (SubscriptionState::PastDue, EventKind::SubscriptionDeleted) => Ruling::Advance {
                next: SubscriptionState::Cancelled,
                effect: SideEffect::RevokeAccess,
            },
            (SubscriptionState::Active, EventKind::SubscriptionDeleted) => Ruling::Advance {
                next: SubscriptionState::Cancelled,
                effect: SideEffect::RevokeAccessAtPeriodEnd,
            },
            _ => Ruling::Advance { next: current, effect: SideEffect::Refresh },
        }
    }
}

/// Looks a state and a kind of event up in the table.
pub fn rule(current: SubscriptionState, kind: EventKind) -> (r: Ruling)
    ensures
        r == ruling(current, kind),
{
    if kind == EventKind::Unknown {
        return Ruling::Unrecognized;
    }
    if current.is_terminal() {
        return Ruling::Anomaly;
    }
    match (current, kind) {
        (SubscriptionState::Trial, EventKind::InvoicePaid) => Ruling::Advance {
            next: SubscriptionState::Active,
            effect: SideEffect::ClearTrialDisplay,
        },
        (SubscriptionState::Trial, EventKind::SubscriptionDeleted) => Ruling::Advance {
            next: SubscriptionState::Cancelled,
            effect: SideEffect::RevokeTrialEntitlements,
        },
        (SubscriptionState::Active, EventKind::InvoicePaymentFailed) => Ruling::Advance {
            next: SubscriptionState::PastDue,
            effect: SideEffect::FlagGracePeriod,
        },
        (SubscriptionState::PastDue, EventKind::InvoicePaid) => Ruling::Advance {
            next: SubscriptionState::Active,
            effect: SideEffect::ClearPastDue,
        },
        (SubscriptionState::PastDue, EventKind::SubscriptionDeleted) => Ruling::Advance {
            next: SubscriptionState::Cancelled,
            effect: SideEffect::RevokeAccess,
        },
        (SubscriptionState::Active, EventKind::SubscriptionDeleted) => Ruling::Advance {
            next: SubscriptionState::Cancelled,
            effect: SideEffect::RevokeAccessAtPeriodEnd,
        },
        _ => Ruling::Advance { next: current, effect: SideEffect::Refresh },
    }
}

/// The state that an event of some kind leaves a record in, whatever its version.
pub open spec fn target(current: SubscriptionState, kind: EventKind) -> SubscriptionState {
    match ruling(current, kind) {
        Ruling::Advance { next, .. } => next,
        _ => current,
    }
}

/// The version guard: a write carrying `incoming` goes through unless it is
/// older than what is stored.
pub open spec fn admits(stored: u64, incoming: u64) -> bool {
    stored <= incoming
}

/// The version a record has after a write carrying `incoming` went through:
/// the incoming one where that is higher, else one more than before. A
/// counter at its ceiling stays there.
pub open spec fn raised(stored: u64, incoming: u64) -> u64 {
    if incoming > stored {
        incoming
    } else if stored < u64::MAX {
        (stored + 1) as u64
    } else {
        stored
    }
}

/// Applies the version guard: the new version where the write goes through,
/// nothing where it is stale.
pub fn guard(stored: u64, incoming: u64) -> (r: Option<u64>)
    ensures
        r == (if admits(stored, incoming) {
            Some(raised(stored, incoming))
        } else {
            None
        }),
        r matches Some(v) ==> v >= stored && v >= incoming && (v > stored || stored == u64::MAX),
{
    if incoming < stored {
        None
    } else if incoming > stored {
        Some(incoming)
    } else {
        Some(stored.saturating_add(1))
    }
}

} // verus!
