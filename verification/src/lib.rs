//! Keeps one authoritative billing state per customer in step with a billing
//! provider that reports changes through at-least-once, possibly reordered
//! webhook deliveries.

pub mod lookup;
pub mod subscription;
pub mod transition;
pub mod registry;
pub mod ledger;
pub mod event;
pub mod store;
pub mod sync;
pub mod laws;
pub mod encoding;
pub mod webhook;
pub mod outbound;
pub mod markup;
pub mod components;
pub mod legal;
