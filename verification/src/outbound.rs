//! What is sent to the provider: a new checkout, a billing portal session,
//! each for a customer that the registry knows, and each carrying the
//! provider credential.

use vstd::prelude::*;
use vstd::string::{StringExecFns, StringSliceAdditionalSpecFns};
use base64::engine::general_purpose::STANDARD_NO_PAD;
use base64::Engine;
use crate::registry::{external_of, CustomerRegistry, CustomerView};
use crate::subscription::text_of;

verus! {

/// The standard base64 text of a byte string, without padding.
pub uninterp spec fn base64_no_pad(bytes: Seq<u8>) -> Seq<char>;

/// Encodes with `base64::engine::general_purpose::STANDARD_NO_PAD.encode`.
/// Trusted: that the text returned is the unpadded standard base64 of the
/// bytes, a function of the bytes alone. The length is bounded because the
/// encoder gives up where the length of its output does not fit in `usize`.
#[verifier::external_body]
fn encode_no_pad(bytes: &[u8]) -> (r: String)
    requires
        bytes@.len() <= usize::MAX / 2,
    ensures
        r@ == base64_no_pad(bytes@),
{
    STANDARD_NO_PAD.encode(bytes)
}

/// The provider credential as it is sent: the secret key in unpadded base64.
pub fn b64_encoded_token(secret_key: &str) -> (r: String)
    requires
        secret_key.spec_bytes().len() <= usize::MAX / 2,
    ensures
        r@ == base64_no_pad(secret_key.spec_bytes()),
{
    encode_no_pad(secret_key.as_bytes())
}

/// What the provider is asked for.
#[derive(Clone, Copy, PartialEq, Eq, Structural, Debug)]
pub enum ProviderAction {
    /// A checkout session for a new subscription.
    Checkout,
    /// A session of the provider's billing portal.
    BillingPortal,
}

/// Why an outbound call came to nothing. Neither is retried here: the
/// caller decides.
#[derive(Clone, Copy, PartialEq, Eq, Structural, Debug)]
pub enum OutboundError {
    /// The user has no customer in the registry.
    UnknownCustomer,
    /// The provider did not answer, or refused.
    ProviderUnreachable,
}

/// A request to the provider.
pub struct ProviderRequest {
    pub action: ProviderAction,
    pub external_customer_id: String,
    /// The value of the authorization header.
    pub authorization: String,
}

/// A request as contracts see it.
pub ghost struct ProviderRequestView {
    pub action: ProviderAction,
    pub external_customer_id: Seq<char>,
    pub authorization: Seq<char>,
}

impl View for ProviderRequest {
    type V = ProviderRequestView;

    open spec fn view(&self) -> ProviderRequestView {
        ProviderRequestView {
            action: self.action,
            external_customer_id: self.external_customer_id@,
            authorization: self.authorization@,
        }
    }
}

/// The request for a user, if the user has a customer.
pub open spec fn requested(
    customers: Seq<CustomerView>,
    user: u64,
    action: ProviderAction,
    token: Seq<char>,
) -> Result<ProviderRequestView, OutboundError> {
    match external_of(customers, user) {
        Some(external) => Ok(
            ProviderRequestView {
                action,
                external_customer_id: external,
                authorization: "Basic "@ + token,
            },
        ),
        None => Err(OutboundError::UnknownCustomer),
    }
}

/// What an optional request looks like to contracts.
pub open spec fn request_shown(r: Result<ProviderRequest, OutboundError>) -> Result<
    ProviderRequestView,
    OutboundError,
> {
    match r {
        Ok(request) => Ok(request@),
        Err(e) => Err(e),
    }
}

fn request(registry: &CustomerRegistry, user_id: u64, action: ProviderAction, token: &str) -> (r:
    Result<ProviderRequest, OutboundError>)
    ensures
        request_shown(r) == requested(registry@, user_id, action, token@),
{
    match registry.external_id(user_id) {
        Some(external) => {
            let mut authorization = String::from_str("Basic ");
            authorization.append(token);
            Ok(ProviderRequest { action, external_customer_id: external, authorization })
        },
        None => Err(OutboundError::UnknownCustomer),
    }
}

/// The request that opens a checkout for the user's customer. Nothing is
/// written here: the subscription shows once the provider's event arrives.
pub fn create_subscription_checkout(registry: &CustomerRegistry, user_id: u64, token: &str) -> (r:
    Result<ProviderRequest, OutboundError>)
    ensures
        request_shown(r) == requested(registry@, user_id, ProviderAction::Checkout, token@),
{
    request(registry, user_id, ProviderAction::Checkout, token)
}

/// The request that opens a billing portal session for the user's customer.
pub fn create_billing_portal_session(registry: &CustomerRegistry, user_id: u64, token: &str) -> (r:
    Result<ProviderRequest, OutboundError>)
    ensures
        request_shown(r) == requested(registry@, user_id, ProviderAction::BillingPortal, token@),
{
    request(registry, user_id, ProviderAction::BillingPortal, token)
}

/// The address that the provider answered with, or the failure to answer,
/// handed to the caller as it is.
pub fn session_url(reply: Option<String>) -> (r: Result<String, OutboundError>)
    ensures
        match r {
            Ok(url) => text_of(reply) == Some(url@),
            Err(e) => reply is None && e == OutboundError::ProviderUnreachable,
        },
{
    match reply {
        Some(url) => Ok(url),
        None => Err(OutboundError::ProviderUnreachable),
    }
}

} // verus!
