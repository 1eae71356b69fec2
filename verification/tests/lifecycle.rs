use billing_sync::event::Event;
use billing_sync::store::{OpenError, Outcome};
use billing_sync::subscription::SubscriptionState;
use billing_sync::subscription::SubscriptionState::{Active, Cancelled, Expired, PastDue, Trial};
use billing_sync::sync::{SubscriptionSummary, Synchronizer};
use billing_sync::transition::EventKind::{
    InvoicePaid, InvoicePaymentFailed, SubscriptionCreated, SubscriptionDeleted,
    SubscriptionUpdated, Unknown,
};
use billing_sync::transition::{guard, rule, EventKind, Ruling, SideEffect};

const DAY: u64 = 86400;

fn event(id: &str, kind: EventKind, customer: &str, version: u64) -> Event {
    Event {
        event_id: id.to_string(),
        kind,
        customer: Some(customer.to_string()),
        version,
        period_end: None,
        external_subscription_id: None,
        payload: Vec::new(),
    }
}

/// A synchronizer with user 7 registered as `cus_7` and in trial until `trial_ends_at`.
fn in_trial(trial_ends_at: u64) -> Synchronizer {
    let mut sync = Synchronizer::new();
    assert_eq!(
        sync.registry.get_or_create_customer(7, Some("cus_7".to_string()), 10),
        Ok("cus_7".to_string())
    );
    assert_eq!(sync.start_trial(7, trial_ends_at), Ok(0));
    sync
}

fn state_of(sync: &Synchronizer, id: u64) -> SubscriptionState {
    sync.store.get(id).unwrap().state
}

/// Brings user 7's record into `state` through events, starting from a trial.
fn brought_to(state: SubscriptionState) -> Synchronizer {
    let mut sync = in_trial(1000);
    match state {
        SubscriptionState::Trial => {}
        SubscriptionState::Active => {
            sync.handle_event(&event("setup_1", EventKind::InvoicePaid, "cus_7", 1), 20);
        }
        SubscriptionState::PastDue => {
            sync.handle_event(&event("setup_1", EventKind::InvoicePaid, "cus_7", 1), 20);
            sync.handle_event(&event("setup_2", EventKind::InvoicePaymentFailed, "cus_7", 2), 21);
        }
        SubscriptionState::Cancelled => {
            sync.handle_event(&event("setup_1", EventKind::SubscriptionDeleted, "cus_7", 1), 20);
        }
        SubscriptionState::Expired => {
            sync.enforce_trial_expiry(2000, &Vec::new());
        }
    }
    assert_eq!(state_of(&sync, 0), state);
    sync
}

#[test]
fn trial_then_invoice_paid_then_redelivery() {
    let mut sync = in_trial(1000);
    let paid = event("evt_1", EventKind::InvoicePaid, "cus_7", 1);
    assert_eq!(
        sync.handle_event(&paid, 100),
        Outcome::Applied { state: SubscriptionState::Active, effect: SideEffect::ClearTrialDisplay }
    );
    let after_first = sync.store.get(0).unwrap();
    assert_eq!(after_first.state, SubscriptionState::Active);
    assert_eq!(after_first.version, 1);
    assert_eq!(after_first.trial_ends_at, Some(1000));
    assert_eq!(sync.ledger.len(), 1);
    assert_eq!(sync.ledger.entry(&"evt_1".to_string()).unwrap().processed_at, Some(100));

    assert_eq!(sync.handle_event(&paid, 150), Outcome::Duplicate);
    let after_second = sync.store.get(0).unwrap();
    assert_eq!(after_second.state, SubscriptionState::Active);
    assert_eq!(after_second.version, 1);
    assert_eq!(sync.ledger.len(), 1);
    assert_eq!(sync.ledger.entry(&"evt_1".to_string()).unwrap().processed_at, Some(100));
    assert_eq!(sync.ledger.entry(&"evt_1".to_string()).unwrap().received_at, 100);
}

#[test]
fn many_redeliveries_equal_one_delivery() {
    let mut once = in_trial(1000);
    let mut many = in_trial(1000);
    let paid = event("evt_1", EventKind::InvoicePaid, "cus_7", 5);
    once.handle_event(&paid, 100);
    many.handle_event(&paid, 100);
    for k in 0..5u64 {
        // a redelivery is known by its key, whatever else it claims
        let mut again = event("evt_1", EventKind::SubscriptionDeleted, "cus_7", 50 + k);
        again.period_end = Some(k);
        assert_eq!(many.handle_event(&again, 200 + k), Outcome::Duplicate);
    }
    let a = once.store.get(0).unwrap();
    let b = many.store.get(0).unwrap();
    assert_eq!(a.state, b.state);
    assert_eq!(a.version, b.version);
    assert_eq!(a.current_period_end, b.current_period_end);
    assert_eq!(once.ledger.len(), many.ledger.len());
    assert_eq!(once.store.len(), many.store.len());
}

#[test]
fn expired_trial_is_not_revived_by_a_stale_payment() {
    let mut sync = in_trial(1000);
    let expired = sync.enforce_trial_expiry(1001, &Vec::new());
    assert_eq!(expired, vec![0]);
    let record = sync.store.get(0).unwrap();
    assert_eq!(record.state, SubscriptionState::Expired);
    assert_eq!(record.version, 1);

    let late = event("evt_late", EventKind::InvoicePaid, "cus_7", 0);
    let outcome = sync.handle_event(&late, 1100);
    assert_eq!(outcome, Outcome::Anomaly);
    let record = sync.store.get(0).unwrap();
    assert_eq!(record.state, SubscriptionState::Expired);
    assert_eq!(record.version, 1);
    assert_eq!(record.trial_ends_at, Some(1000));
    // the delivery was seen and is settled
    assert!(sync.ledger.contains(&"evt_late".to_string()));
    assert!(sync.ledger.is_processed(&"evt_late".to_string()));
}

#[test]
fn stale_event_on_live_record_is_discarded_but_processed() {
    let mut sync = in_trial(1000);
    let paid = event("evt_new", EventKind::InvoicePaid, "cus_7", 10);
    sync.handle_event(&paid, 100);
    let failed = event("evt_old", EventKind::InvoicePaymentFailed, "cus_7", 9);
    assert_eq!(sync.handle_event(&failed, 101), Outcome::Stale);
    let record = sync.store.get(0).unwrap();
    assert_eq!(record.state, SubscriptionState::Active);
    assert_eq!(record.version, 10);
    assert!(sync.ledger.is_processed(&"evt_old".to_string()));
    assert_eq!(sync.ledger.len(), 2);
}

#[test]
fn later_event_decides_in_either_order() {
    let earlier = event("evt_a", EventKind::InvoicePaid, "cus_7", 3);
    let later = event("evt_b", EventKind::SubscriptionDeleted, "cus_7", 4);

    let mut in_order = in_trial(1000);
    in_order.handle_event(&earlier, 100);
    in_order.handle_event(&later, 101);

    let mut reversed = in_trial(1000);
    assert_eq!(
        reversed.handle_event(&later, 100),
        Outcome::Applied {
            state: SubscriptionState::Cancelled,
            effect: SideEffect::RevokeTrialEntitlements
        }
    );
    assert_eq!(reversed.handle_event(&earlier, 101), Outcome::Anomaly);

    let mut alone = in_trial(1000);
    alone.handle_event(&later, 100);

    assert_eq!(state_of(&in_order, 0), SubscriptionState::Cancelled);
    assert_eq!(state_of(&reversed, 0), SubscriptionState::Cancelled);
    assert_eq!(state_of(&alone, 0), SubscriptionState::Cancelled);
}

#[test]
fn later_refresh_makes_earlier_payment_stale() {
    let earlier = event("evt_a", EventKind::InvoicePaymentFailed, "cus_7", 3);
    let later = event("evt_b", EventKind::SubscriptionUpdated, "cus_7", 4);

    let mut in_order = in_trial(1000);
    in_order.handle_event(&earlier, 100);
    in_order.handle_event(&later, 101);

    let mut reversed = in_trial(1000);
    reversed.handle_event(&later, 100);
    assert_eq!(reversed.handle_event(&earlier, 101), Outcome::Stale);

    assert_eq!(state_of(&in_order, 0), SubscriptionState::Trial);
    assert_eq!(state_of(&reversed, 0), SubscriptionState::Trial);
}

#[test]
fn trial_end_survives_every_transition() {
    let mut sync = in_trial(777);
    let steps = [
        event("e1", EventKind::SubscriptionCreated, "cus_7", 1),
        event("e2", EventKind::InvoicePaid, "cus_7", 2),
        event("e3", EventKind::InvoicePaymentFailed, "cus_7", 3),
        event("e4", EventKind::InvoicePaid, "cus_7", 4),
        event("e5", EventKind::SubscriptionUpdated, "cus_7", 5),
        event("e6", EventKind::SubscriptionDeleted, "cus_7", 6),
        event("e7", EventKind::InvoicePaid, "cus_7", 7),
    ];
    for (k, step) in steps.iter().enumerate() {
        sync.handle_event(step, 100 + k as u64);
        sync.enforce_trial_expiry(5000, &vec![7]);
        let record = sync.store.get(0).unwrap();
        assert_eq!(record.trial_ends_at, Some(777));
        assert_eq!(record.id, 0);
        assert_eq!(record.customer_id, 7);
    }
    assert_eq!(state_of(&sync, 0), SubscriptionState::Cancelled);
    sync.enforce_trial_expiry(5000, &Vec::new());
    assert_eq!(state_of(&sync, 0), SubscriptionState::Cancelled);
    assert_eq!(sync.store.get(0).unwrap().trial_ends_at, Some(777));
}

#[test]
fn sweep_twice_equals_sweep_once() {
    let mut sync = Synchronizer::new();
    for user in 1..=4u64 {
        sync.registry
            .get_or_create_customer(user, Some(format!("cus_{user}")), 0)
            .unwrap();
    }
    sync.start_trial(1, 100).unwrap();
    sync.start_trial(2, 200).unwrap();
    sync.start_trial(3, 100).unwrap();
    sync.start_trial(4, 50).unwrap();
    sync.handle_event(&event("paid_4", EventKind::InvoicePaid, "cus_4", 1), 60);

    let on_file = vec![3u64];
    assert_eq!(sync.store.due_trials(150), vec![1, 3]);
    let first = sync.enforce_trial_expiry(150, &on_file);
    assert_eq!(first, vec![0]);
    let snapshot: Vec<(SubscriptionState, u64)> = (0..4u64)
        .map(|id| {
            let r = sync.store.get(id).unwrap();
            (r.state, r.version)
        })
        .collect();
    assert_eq!(
        snapshot,
        vec![
            (SubscriptionState::Expired, 1),
            (SubscriptionState::Trial, 0),
            (SubscriptionState::Trial, 0),
            (SubscriptionState::Active, 1),
        ]
    );

    let second = sync.enforce_trial_expiry(150, &on_file);
    assert_eq!(second, Vec::<u64>::new());
    let again: Vec<(SubscriptionState, u64)> = (0..4u64)
        .map(|id| {
            let r = sync.store.get(id).unwrap();
            (r.state, r.version)
        })
        .collect();
    assert_eq!(again, snapshot);
}

#[test]
fn sweep_expires_at_the_boundary_and_not_before() {
    let mut sync = in_trial(1000);
    assert_eq!(sync.enforce_trial_expiry(999, &Vec::new()), Vec::<u64>::new());
    assert_eq!(state_of(&sync, 0), SubscriptionState::Trial);
    assert_eq!(sync.enforce_trial_expiry(1000, &Vec::new()), vec![0]);
    assert_eq!(state_of(&sync, 0), SubscriptionState::Expired);
}

#[test]
fn sweep_spares_customers_with_payment_on_file() {
    let mut sync = in_trial(1000);
    assert_eq!(sync.enforce_trial_expiry(5000, &vec![7]), Vec::<u64>::new());
    let record = sync.store.get(0).unwrap();
    assert_eq!(record.state, SubscriptionState::Trial);
    assert_eq!(record.version, 0);
}

#[test]
fn table_rows() {
    let rows = [
        (Trial, InvoicePaid, Active, SideEffect::ClearTrialDisplay),
        (Trial, SubscriptionDeleted, Cancelled, SideEffect::RevokeTrialEntitlements),
        (Active, InvoicePaymentFailed, PastDue, SideEffect::FlagGracePeriod),
        (PastDue, InvoicePaid, Active, SideEffect::ClearPastDue),
        (PastDue, SubscriptionDeleted, Cancelled, SideEffect::RevokeAccess),
        (Active, SubscriptionDeleted, Cancelled, SideEffect::RevokeAccessAtPeriodEnd),
        (Trial, InvoicePaymentFailed, Trial, SideEffect::Refresh),
        (Trial, SubscriptionCreated, Trial, SideEffect::Refresh),
        (Active, InvoicePaid, Active, SideEffect::Refresh),
        (Active, SubscriptionUpdated, Active, SideEffect::Refresh),
        (PastDue, InvoicePaymentFailed, PastDue, SideEffect::Refresh),
    ];
    for (current, kind, next, effect) in rows {
        assert_eq!(rule(current, kind), Ruling::Advance { next, effect });
    }
    for kind in [SubscriptionCreated, InvoicePaid, InvoicePaymentFailed, SubscriptionUpdated, SubscriptionDeleted] {
        assert_eq!(rule(Cancelled, kind), Ruling::Anomaly);
        assert_eq!(rule(Expired, kind), Ruling::Anomaly);
    }
    for current in [Trial, Active, PastDue, Cancelled, Expired] {
        assert_eq!(rule(current, Unknown), Ruling::Unrecognized);
    }
}

#[test]
fn table_rows_through_the_dispatcher() {
    let rows = [
        (Trial, InvoicePaid, Active, SideEffect::ClearTrialDisplay),
        (Trial, SubscriptionDeleted, Cancelled, SideEffect::RevokeTrialEntitlements),
        (Active, InvoicePaymentFailed, PastDue, SideEffect::FlagGracePeriod),
        (PastDue, InvoicePaid, Active, SideEffect::ClearPastDue),
        (PastDue, SubscriptionDeleted, Cancelled, SideEffect::RevokeAccess),
        (Active, SubscriptionDeleted, Cancelled, SideEffect::RevokeAccessAtPeriodEnd),
    ];
    for (current, kind, next, effect) in rows {
        let mut sync = brought_to(current);
        let before = sync.store.get(0).unwrap().version;
        let outcome = sync.handle_event(&event("evt_row", kind, "cus_7", 100), 500);
        assert_eq!(outcome, Outcome::Applied { state: next, effect });
        let record = sync.store.get(0).unwrap();
        assert_eq!(record.state, next);
        assert_eq!(record.version, 100);
        assert!(record.version > before);
    }
}

#[test]
fn terminal_records_never_move() {
    for terminal in [SubscriptionState::Cancelled, SubscriptionState::Expired] {
        for (k, kind) in [SubscriptionCreated, InvoicePaid, InvoicePaymentFailed, SubscriptionUpdated, SubscriptionDeleted]
            .into_iter()
            .enumerate()
        {
            let mut sync = brought_to(terminal);
            let before = sync.store.get(0).unwrap();
            let mut e = event(&format!("evt_{k}"), kind, "cus_7", 1000);
            e.period_end = Some(9);
            e.external_subscription_id = Some("sub_x".to_string());
            assert_eq!(sync.handle_event(&e, 600), Outcome::Anomaly);
            let after = sync.store.get(0).unwrap();
            assert_eq!(after.state, terminal);
            assert_eq!(after.version, before.version);
            assert_eq!(after.current_period_end, before.current_period_end);
            assert_eq!(after.external_subscription_id, before.external_subscription_id);
            assert!(sync.ledger.is_processed(&format!("evt_{k}")));
        }
    }
}

#[test]
fn unknown_event_type_is_acknowledged_and_ignored() {
    let mut sync = in_trial(1000);
    let mut e = event("evt_u", EventKind::Unknown, "cus_7", 50);
    e.payload = b"{}".to_vec();
    assert_eq!(sync.handle_event(&e, 100), Outcome::UnknownEventType);
    let record = sync.store.get(0).unwrap();
    assert_eq!(record.state, SubscriptionState::Trial);
    assert_eq!(record.version, 0);
    let entry = sync.ledger.entry(&"evt_u".to_string()).unwrap();
    assert_eq!(entry.kind, EventKind::Unknown);
    assert_eq!(entry.raw_payload, b"{}".to_vec());
    assert_eq!(entry.processed_at, Some(100));
    assert_eq!(sync.handle_event(&e, 101), Outcome::Duplicate);
}

#[test]
fn event_for_unknown_customer_changes_no_record() {
    let mut sync = in_trial(1000);
    let e = event("evt_x", EventKind::InvoicePaid, "cus_nobody", 5);
    assert_eq!(sync.handle_event(&e, 100), Outcome::NoSubscription);
    assert_eq!(state_of(&sync, 0), SubscriptionState::Trial);
    let mut nameless = event("evt_y", EventKind::InvoicePaid, "cus_7", 5);
    nameless.customer = None;
    assert_eq!(sync.handle_event(&nameless, 100), Outcome::NoSubscription);
    assert_eq!(state_of(&sync, 0), SubscriptionState::Trial);
    // registered, but never subscribed
    sync.registry.get_or_create_customer(8, Some("cus_8".to_string()), 0).unwrap();
    let e = event("evt_z", EventKind::InvoicePaid, "cus_8", 5);
    assert_eq!(sync.handle_event(&e, 100), Outcome::NoSubscription);
    assert_eq!(sync.ledger.len(), 3);
}

#[test]
fn interrupted_delivery_is_retried() {
    let mut sync = in_trial(1000);
    let paid = event("evt_1", EventKind::InvoicePaid, "cus_7", 1);
    // written down, and then the process stopped
    sync.ledger.record_if_new("evt_1".to_string(), EventKind::InvoicePaid, Vec::new(), 90);
    assert!(sync.ledger.contains(&"evt_1".to_string()));
    assert!(!sync.ledger.is_processed(&"evt_1".to_string()));
    assert_eq!(state_of(&sync, 0), SubscriptionState::Trial);

    assert_eq!(
        sync.handle_event(&paid, 100),
        Outcome::Applied { state: SubscriptionState::Active, effect: SideEffect::ClearTrialDisplay }
    );
    assert_eq!(sync.ledger.len(), 1);
    let entry = sync.ledger.entry(&"evt_1".to_string()).unwrap();
    assert_eq!(entry.received_at, 90);
    assert_eq!(entry.processed_at, Some(100));
}

#[test]
fn event_data_refreshes_the_record() {
    let mut sync = in_trial(1000);
    let mut created = event("evt_c", EventKind::SubscriptionCreated, "cus_7", 1);
    created.external_subscription_id = Some("sub_1".to_string());
    assert_eq!(
        sync.handle_event(&created, 100),
        Outcome::Applied { state: SubscriptionState::Trial, effect: SideEffect::Refresh }
    );
    let mut paid = event("evt_p", EventKind::InvoicePaid, "cus_7", 2);
    paid.period_end = Some(4000);
    paid.external_subscription_id = Some("sub_other".to_string());
    sync.handle_event(&paid, 101);
    let record = sync.store.get(0).unwrap();
    assert_eq!(record.external_subscription_id, Some("sub_1".to_string()));
    assert_eq!(record.current_period_end, Some(4000));
    let updated = event("evt_u", EventKind::SubscriptionUpdated, "cus_7", 3);
    sync.handle_event(&updated, 102);
    assert_eq!(sync.store.get(0).unwrap().current_period_end, Some(4000));
}

#[test]
fn version_guard() {
    assert_eq!(guard(5, 4), None);
    assert_eq!(guard(5, 5), Some(6));
    assert_eq!(guard(5, 9), Some(9));
    assert_eq!(guard(0, 0), Some(1));
    assert_eq!(guard(u64::MAX, u64::MAX), Some(u64::MAX));
    assert_eq!(guard(u64::MAX, 3), None);
    assert_eq!(guard(u64::MAX - 1, u64::MAX), Some(u64::MAX));
}

#[test]
fn equal_version_is_not_older() {
    let mut sync = in_trial(1000);
    sync.handle_event(&event("e1", EventKind::InvoicePaid, "cus_7", 4), 10);
    assert_eq!(sync.store.get(0).unwrap().version, 4);
    assert_eq!(
        sync.handle_event(&event("e2", EventKind::InvoicePaymentFailed, "cus_7", 4), 11),
        Outcome::Applied { state: SubscriptionState::PastDue, effect: SideEffect::FlagGracePeriod }
    );
    assert_eq!(sync.store.get(0).unwrap().version, 5);
}

#[test]
fn start_trial_needs_a_customer_and_no_live_subscription() {
    let mut sync = Synchronizer::new();
    assert_eq!(sync.start_trial(7, 1000), Err(OpenError::UnknownCustomer));
    assert_eq!(sync.store.len(), 0);
    sync.registry.get_or_create_customer(7, Some("cus_7".to_string()), 0).unwrap();
    assert_eq!(sync.start_trial(7, 1000), Ok(0));
    assert_eq!(sync.start_trial(7, 2000), Err(OpenError::AlreadySubscribed));
    assert_eq!(sync.store.len(), 1);
    let record = sync.store.get(0).unwrap();
    assert_eq!(record.id, 0);
    assert_eq!(record.customer_id, 7);
    assert_eq!(record.state, SubscriptionState::Trial);
    assert_eq!(record.trial_ends_at, Some(1000));
    assert_eq!(record.current_period_end, None);
    assert_eq!(record.external_subscription_id, None);
    assert_eq!(record.version, 0);
    assert!(sync.store.get(1).is_none());
}

#[test]
fn resubscription_opens_a_new_record_and_keeps_the_old() {
    let mut sync = in_trial(1000);
    sync.handle_event(&event("e1", EventKind::SubscriptionDeleted, "cus_7", 3), 10);
    assert_eq!(sync.start_trial(7, 9000), Ok(1));
    assert_eq!(sync.store.len(), 2);
    let old = sync.store.get(0).unwrap();
    assert_eq!(old.state, SubscriptionState::Cancelled);
    assert_eq!(old.trial_ends_at, Some(1000));
    let current = sync.store.current(7).unwrap();
    assert_eq!(current.id, 1);
    assert_eq!(current.state, SubscriptionState::Trial);
    assert_eq!(current.trial_ends_at, Some(9000));

    // events reach the current record only
    sync.handle_event(&event("e2", EventKind::InvoicePaid, "cus_7", 1), 11);
    assert_eq!(state_of(&sync, 0), SubscriptionState::Cancelled);
    assert_eq!(sync.store.get(0).unwrap().version, 3);
    assert_eq!(state_of(&sync, 1), SubscriptionState::Active);

    // at most one live record per customer
    let live = (0..2u64).filter(|id| sync.store.get(*id).unwrap().state.is_live()).count();
    assert_eq!(live, 1);
}

#[test]
fn customers_do_not_disturb_each_other() {
    let mut sync = in_trial(1000);
    sync.registry.get_or_create_customer(8, Some("cus_8".to_string()), 0).unwrap();
    assert_eq!(sync.start_trial(8, 1000), Ok(1));
    sync.handle_event(&event("e1", EventKind::InvoicePaid, "cus_8", 1), 10);
    assert_eq!(state_of(&sync, 0), SubscriptionState::Trial);
    assert_eq!(sync.store.get(0).unwrap().version, 0);
    assert_eq!(state_of(&sync, 1), SubscriptionState::Active);
    assert!(sync.store.current(9).is_none());
}

#[test]
fn summary_counts_begun_days() {
    let sync = in_trial(10 * DAY);
    let at = |now: u64| sync.get_subscription_summary(7, now).unwrap().trial_days_remaining;
    assert_eq!(at(0), 10);
    assert_eq!(at(1), 10);
    assert_eq!(at(DAY), 9);
    assert_eq!(at(9 * DAY), 1);
    assert_eq!(at(10 * DAY - 1), 1);
    assert_eq!(at(10 * DAY), 0);
    assert_eq!(at(11 * DAY), 0);
    assert_eq!(
        sync.get_subscription_summary(7, 0),
        Some(SubscriptionSummary {
            state: SubscriptionState::Trial,
            trial_days_remaining: 10,
            period_end: None
        })
    );
    assert_eq!(sync.get_subscription_summary(8, 0), None);
}

#[test]
fn summary_outside_a_trial() {
    let mut sync = in_trial(10 * DAY);
    let mut paid = event("e1", EventKind::InvoicePaid, "cus_7", 1);
    paid.period_end = Some(40 * DAY);
    sync.handle_event(&paid, 5);
    assert_eq!(
        sync.get_subscription_summary(7, DAY),
        Some(SubscriptionSummary {
            state: SubscriptionState::Active,
            trial_days_remaining: 0,
            period_end: Some(40 * DAY)
        })
    );
}

#[test]
fn summary_at_the_far_end_of_time() {
    let sync = in_trial(u64::MAX);
    let summary = sync.get_subscription_summary(7, 0).unwrap();
    assert_eq!(summary.trial_days_remaining, u64::MAX / DAY + 1);
}

#[test]
fn terminal_and_live_states() {
    for live in [Trial, Active, PastDue] {
        assert!(live.is_live());
        assert!(!live.is_terminal());
    }
    for terminal in [Cancelled, Expired] {
        assert!(terminal.is_terminal());
        assert!(!terminal.is_live());
    }
}

#[test]
fn record_by_record_sweep_yields_to_an_earlier_write() {
    // the sweep sees the trial at version 0, then an event is written, then the sweep comes back
    let mut sync = in_trial(1000);
    let seen = sync.store.get(0).unwrap().version;
    sync.handle_event(&event("e1", EventKind::SubscriptionUpdated, "cus_7", 3), 1500);
    assert_eq!(state_of(&sync, 0), SubscriptionState::Trial);
    assert!(!sync.store.expire_trial(0, seen, 2000));
    assert_eq!(state_of(&sync, 0), SubscriptionState::Trial);
    assert_eq!(sync.store.get(0).unwrap().version, 3);

    // with the version it has now, the write goes through
    assert!(sync.store.expire_trial(0, 3, 2000));
    let record = sync.store.get(0).unwrap();
    assert_eq!(record.state, SubscriptionState::Expired);
    assert_eq!(record.version, 4);
    assert_eq!(record.trial_ends_at, Some(1000));
    // and only once
    assert!(!sync.store.expire_trial(0, 4, 2000));
    assert_eq!(sync.store.get(0).unwrap().version, 4);
}

#[test]
fn record_by_record_sweep_expires_only_what_is_due() {
    let mut sync = in_trial(1000);
    assert!(!sync.store.expire_trial(0, 0, 999));
    assert!(!sync.store.expire_trial(1, 0, 5000));
    assert_eq!(state_of(&sync, 0), SubscriptionState::Trial);
    assert!(sync.store.expire_trial(0, 0, 1000));
    assert_eq!(state_of(&sync, 0), SubscriptionState::Expired);

    let mut paid = brought_to(SubscriptionState::Active);
    let version = paid.store.get(0).unwrap().version;
    assert!(!paid.store.expire_trial(0, version, 5000));
    assert_eq!(state_of(&paid, 0), SubscriptionState::Active);
}

#[test]
fn a_copy_is_equal_and_independent() {
    let mut sync = in_trial(1000);
    sync.handle_event(&event("e1", EventKind::SubscriptionCreated, "cus_7", 1), 10);
    let kept = sync.duplicate();
    // the change that could not be stored is made on one of the two only
    sync.handle_event(&event("e2", EventKind::InvoicePaid, "cus_7", 2), 20);
    assert_eq!(state_of(&sync, 0), SubscriptionState::Active);

    assert_eq!(kept.registry.len(), 1);
    assert_eq!(kept.registry.external_id(7), Some("cus_7".to_string()));
    assert_eq!(kept.store.len(), 1);
    assert_eq!(kept.ledger.len(), 1);
    let record = kept.store.get(0).unwrap();
    assert_eq!(record.state, SubscriptionState::Trial);
    assert_eq!(record.version, 1);
    assert_eq!(record.trial_ends_at, Some(1000));
    assert!(kept.ledger.is_processed(&"e1".to_string()));
    assert!(!kept.ledger.contains(&"e2".to_string()));

    // going back to the copy, the delivery is taken as the first
    let mut sync = kept;
    assert_eq!(
        sync.handle_event(&event("e2", EventKind::InvoicePaid, "cus_7", 2), 30),
        Outcome::Applied { state: SubscriptionState::Active, effect: SideEffect::ClearTrialDisplay }
    );
}
