//! The webhook verifier: a delivery is authenticated against the shared
//! secret and held to the replay window before anything else looks at it.

use vstd::prelude::*;
use vstd::slice::slice_to_vec;
use hmac::{Hmac, Mac};
use sha2::Sha256;
use crate::encoding::{constant_time_eq, decimal_read, decode_hex, hex_decoded, parse_decimal};
use crate::event::{kind_named, Event, EventView};
use crate::subscription::text_of;
use crate::transition::EventKind;

verus! {

/// Why a delivery was turned away.
#[derive(Clone, Copy, PartialEq, Eq, Structural, Debug)]
pub enum VerifyError {
    /// The signature is not the one that the secret gives for this delivery.
    InvalidSignature,
    /// The delivery's timestamp is unreadable or too far from the time of receipt.
    StaleTimestamp,
    /// The delivery is authentic, but its body is not an event.
    MalformedEvent,
}

/// The HMAC-SHA-256 tag of a message under a key.
pub uninterp spec fn hmac_sha256(key: Seq<u8>, message: Seq<u8>) -> Seq<u8>;

/// The text found in a JSON document at a JSON Pointer, if the document is
/// valid JSON and holds a string there.
pub uninterp spec fn json_text(document: Seq<u8>, pointer: Seq<char>) -> Option<Seq<char>>;

/// The number found in a JSON document at a JSON Pointer, if the document
/// is valid JSON and holds a non-negative integer below 2^64 there.
pub uninterp spec fn json_number(document: Seq<u8>, pointer: Seq<char>) -> Option<u64>;

/// Computes a tag with `hmac::Hmac<sha2::Sha256>`: `new_from_slice`, which
/// accepts a key of any length and so never fails, then `update` and
/// `finalize`. Trusted: that the bytes returned are the HMAC-SHA-256 tag of
/// `message` under `key`, a function of the two alone.
#[verifier::external_body]
fn keyed_digest(key: &[u8], message: &[u8]) -> (tag: Vec<u8>)
    ensures
        tag@ == hmac_sha256(key@, message@),
{
    let mut mac = Hmac::<Sha256>::new_from_slice(key).unwrap();
    mac.update(message);
    mac.finalize().into_bytes().to_vec()
}

/// Parses a document with `serde_json::from_slice` and looks a string up
/// with `serde_json::Value::pointer` and `as_str`. Trusted: that the result is
/// the string at that pointer, and nothing where the document does not parse,
/// the pointer leads nowhere, or what stands there is no string.
#[verifier::external_body]
fn text_at(document: &[u8], pointer: &str) -> (r: Option<String>)
    ensures
        text_of(r) == json_text(document@, pointer@),
{
    match serde_json::from_slice::<serde_json::Value>(document) {
        Ok(value) => value.pointer(pointer).and_then(serde_json::Value::as_str).map(String::from),
        Err(_) => None,
    }
}

/// Parses a document with `serde_json::from_slice` and looks a number up
/// with `serde_json::Value::pointer` and `as_u64`. Trusted: that the result is
/// the number at that pointer, and nothing where the document does not parse,
/// the pointer leads nowhere, or what stands there is no integer that a `u64`
/// holds.
#[verifier::external_body]
fn number_at(document: &[u8], pointer: &str) -> (r: Option<u64>)
    ensures
        r == json_number(document@, pointer@),
{
    match serde_json::from_slice::<serde_json::Value>(document) {
        Ok(value) => value.pointer(pointer).and_then(serde_json::Value::as_u64),
        Err(_) => None,
    }
}

/// Whether a signature header is the tag, written in hexadecimal.
pub open spec fn authentic(tag: Seq<u8>, signature: Seq<u8>) -> bool {
    hex_decoded(signature) == Some(tag)
}

/// How far two times are apart.
pub open spec fn distance(a: u64, b: u64) -> int {
    if a <= b {
        b - a
    } else {
        a - b
    }
}

/// Whether a timestamp header is a time within the tolerance of the time of receipt.
pub open spec fn timely(timestamp: Seq<u8>, received_at: u64, tolerance: u64) -> bool {
    decimal_read(timestamp) matches Some(t) && distance(t, received_at) <= tolerance
}

/// The verdict on a delivery, given the tag that the secret gives for it.
pub open spec fn judged(
    tag: Seq<u8>,
    signature: Seq<u8>,
    timestamp: Seq<u8>,
    received_at: u64,
    tolerance: u64,
) -> Result<(), VerifyError> {
    if !authentic(tag, signature) {
        Err(VerifyError::InvalidSignature)
    } else if !timely(timestamp, received_at, tolerance) {
        Err(VerifyError::StaleTimestamp)
    } else {
        Ok(())
    }
}

/// Judges a delivery against the tag that the secret gives for it: the
/// signature header has to be that tag in hexadecimal, and the timestamp
/// header a time within `tolerance` of `received_at`. The signature is
/// compared without stopping at the first difference.
pub fn judge(tag: &[u8], signature: &[u8], timestamp: &[u8], received_at: u64, tolerance: u64) -> (r:
    Result<(), VerifyError>)
    ensures
        r == judged(tag@, signature@, timestamp@, received_at, tolerance),
{
    let claimed = match decode_hex(signature) {
        Some(bytes) => bytes,
        None => {
            return Err(VerifyError::InvalidSignature);
        },
    };
    if !constant_time_eq(claimed.as_slice(), tag) {
        return Err(VerifyError::InvalidSignature);
    }
    let sent_at = match parse_decimal(timestamp) {
        Some(t) => t,
        None => {
            return Err(VerifyError::StaleTimestamp);
        },
    };
    let apart = if sent_at <= received_at {
        received_at - sent_at
    } else {
        sent_at - received_at
    };
    if apart > tolerance {
        return Err(VerifyError::StaleTimestamp);
    }
    Ok(())
}

/// The event made of what was found in a body. An event has a key, a type
/// and a time of creation, which is its version; the rest may be missing.
pub open spec fn assembled(
    event_id: Option<Seq<char>>,
    kind_name: Option<Seq<char>>,
    created: Option<u64>,
    customer: Option<Seq<char>>,
    period_end: Option<u64>,
    subscription: Option<Seq<char>>,
    body: Seq<u8>,
) -> Option<EventView> {
    if event_id is Some && kind_name is Some && created is Some {
        Some(
            EventView {
                event_id: event_id->0,
                kind: kind_named(kind_name->0),
                customer,
                version: created->0,
                period_end,
                external_subscription_id: subscription,
                payload: body,
            },
        )
    } else {
        None
    }
}

/// What an optional event looks like to contracts.
pub open spec fn shown(e: Option<Event>) -> Option<EventView> {
    match e {
        Some(e) => Some(e@),
        None => None,
    }
}

/// Makes an event of what was found in a body, if key, type and time of
/// creation are there.
pub fn assemble(
    event_id: Option<String>,
    kind_name: Option<String>,
    created: Option<u64>,
    customer: Option<String>,
    period_end: Option<u64>,
    subscription: Option<String>,
    body: &[u8],
) -> (r: Option<Event>)
    ensures
        shown(r) == assembled(
            text_of(event_id),
            text_of(kind_name),
            created,
            text_of(customer),
            period_end,
            text_of(subscription),
            body@,
        ),
{
    match (event_id, kind_name, created) {
        (Some(event_id), Some(kind_name), Some(created)) => Some(
            Event {
                event_id,
                kind: EventKind::from_name(kind_name.as_str()),
                customer,
                version: created,
                period_end,
                external_subscription_id: subscription,
                payload: slice_to_vec(body),
            },
        ),
        _ => None,
    }
}

/// The event that a body holds: a JSON object with `event_id`, `type` and
/// `created`, and under `data` the customer, the end of the paid period and
/// the provider's subscription, as far as the event has them.
pub open spec fn event_read(body: Seq<u8>) -> Option<EventView> {
    assembled(
        json_text(body, "/event_id"@),
        json_text(body, "/type"@),
        json_number(body, "/created"@),
        json_text(body, "/data/customer"@),
        json_number(body, "/data/period_end"@),
        json_text(body, "/data/subscription"@),
        body,
    )
}

/// Reads the event that a body holds.
pub fn decode_event(body: &[u8]) -> (r: Option<Event>)
    ensures
        shown(r) == event_read(body@),
{
    assemble(
        text_at(body, "/event_id"),
        text_at(body, "/type"),
        number_at(body, "/created"),
        text_at(body, "/data/customer"),
        number_at(body, "/data/period_end"),
        text_at(body, "/data/subscription"),
        body,
    )
}

/// The verdict on a delivery and, where it stands, the event it holds. The
/// signed message is the timestamp header followed by the body.
pub open spec fn verified(
    body: Seq<u8>,
    signature: Seq<u8>,
    timestamp: Seq<u8>,
    secret: Seq<u8>,
    received_at: u64,
    tolerance: u64,
) -> Result<EventView, VerifyError> {
    match judged(hmac_sha256(secret, timestamp + body), signature, timestamp, received_at, tolerance) {
        Err(e) => Err(e),
        Ok(_) => match event_read(body) {
            Some(e) => Ok(e),
            None => Err(VerifyError::MalformedEvent),
        },
    }
}

/// What a verdict looks like to contracts.
pub open spec fn verdict_shown(r: Result<Event, VerifyError>) -> Result<EventView, VerifyError> {
    match r {
        Ok(e) => Ok(e@),
        Err(e) => Err(e),
    }
}

/// The timestamp header followed by the body: what the provider signs.
pub fn signed_message(timestamp: &[u8], body: &[u8]) -> (r: Vec<u8>)
    ensures
        r@ == timestamp@ + body@,
{
    let mut message = slice_to_vec(timestamp);
    let mut i: usize = 0;
    while i < body.len()
        invariant
            i <= body@.len(),
            message@ == timestamp@ + body@.take(i as int),
        decreases body@.len() - i,
    {
        message.push(body[i]);
        assert(body@.take(i as int + 1) =~= body@.take(i as int).push(body@[i as int]));
        assert(timestamp@ + body@.take(i as int + 1) =~= (timestamp@ + body@.take(i as int)).push(
            body@[i as int],
        ));
        i += 1;
    }
    assert(body@.take(body@.len() as int) =~= body@);
    message
}

/// Verifies a delivery and reads its event.
///
/// The signature must be the HMAC-SHA-256 tag, in hexadecimal, of the
/// timestamp header followed by the body under the shared secret, and the
/// timestamp must lie within `tolerance` of `received_at`. A delivery that
/// fails either test is turned away before its body is read.
pub fn verify_webhook(
    body: &[u8],
    signature: &[u8],
    timestamp: &[u8],
    secret: &[u8],
    received_at: u64,
    tolerance: u64,
) -> (r: Result<Event, VerifyError>)
    ensures
        verdict_shown(r) == verified(body@, signature@, timestamp@, secret@, received_at, tolerance),
{
    let message = signed_message(timestamp, body);
    let tag = keyed_digest(secret, message.as_slice());
    match judge(tag.as_slice(), signature, timestamp, received_at, tolerance) {
        Err(e) => Err(e),
        Ok(_) => match decode_event(body) {
            Some(event) => Ok(event),
            None => Err(VerifyError::MalformedEvent),
        },
    }
}

} // verus!
