//! The orchestration of one invocation: the decision rules that tie the
//! handler's outcome, the encoded response, and the delivery attempt
//! together into the invocation's final result.
//!
//! An invocation is a strictly sequential pipeline: decode, invoke the
//! handler, build the response, encode it, deliver it with an HTTP PUT,
//! and resolve the final outcome. The two stages that touch the outside
//! world — running the handler and performing the PUT — belong to the
//! embedding host; this module supplies the decisions between them.
//! [`prepare_delivery`] covers stages three and four (build and encode),
//! and [`resolve_outcome`] covers stage six (resolution). There are no
//! retries and no internal timeouts at any stage.

use vstd::prelude::*;

use crate::json::Json;
use crate::properties::PhysicalResourceIdSuffixProvider;
use crate::request::CfnRequest;
use crate::response::{
    json_text_of, spec_into_response, spec_outcome, spec_response_json, EncodeError,
};

verus! {

/// What became of the delivery PUT: the HTTP status the response URL
/// answered with, or a transport failure described by its display text.
#[derive(Debug, Clone, PartialEq)]
pub enum DeliveryOutcome {
    /// The PUT completed, with this HTTP status code.
    Delivered(u16),
    /// The PUT could not be carried out at all.
    TransportFailed(String),
}

/// Whether a delivery attempt counts as successful: the PUT completed
/// and the status was in the 2xx range. Anything else — a transport
/// failure or any other status — is a delivery failure.
pub open spec fn spec_delivery_ok(d: DeliveryOutcome) -> bool {
    d matches DeliveryOutcome::Delivered(status) && 200 <= status < 300
}

impl DeliveryOutcome {
    /// Whether this delivery attempt counts as successful.
    pub fn is_success(&self) -> (r: bool)
        ensures
            r == spec_delivery_ok(*self),
    {
        match self {
            DeliveryOutcome::Delivered(status) => 200 <= *status && *status < 300,
            DeliveryOutcome::TransportFailed(_) => false,
        }
    }
}

/// The ways an invocation can fail, as seen by its caller.
#[derive(Debug, Clone, PartialEq)]
pub enum ProcessError {
    /// The handler failed; carries the display text of its error. This
    /// surfaces only when the `Failed` response reporting it was
    /// delivered.
    Handler(String),
    /// The response failed to serialize, skipping delivery; proved not
    /// to arise for the responses this library builds (see
    /// [`prepare_delivery`]).
    Encode(EncodeError),
    /// The delivery PUT failed, or returned a non-2xx status.
    Delivery(DeliveryOutcome),
}

/// An encoded response, ready to be PUT to its delivery URL with the
/// `Content-Type` header set to the empty string (the presigned URL
/// scheme of the delivery target requires exactly that header).
#[derive(Debug, Clone, PartialEq)]
pub struct PendingDelivery {
    /// The response delivery URL captured from the request.
    pub url: String,
    /// The encoded response body.
    pub body: String,
}

/// Builds and encodes the response that reports `outcome` for
/// `request`, together with the URL it must be delivered to. A failure
/// to serialize would be fatal to the invocation — it would surface as
/// `ProcessError::Encode` with no delivery taking place — but the
/// contract proves that the response encodes on every input.
pub fn prepare_delivery<P: PhysicalResourceIdSuffixProvider + Clone>(
    request: CfnRequest<P>,
    outcome: &Result<Option<Json>, String>,
) -> (r: Result<PendingDelivery, ProcessError>)
    ensures
        r is Ok,
        r matches Ok(p) ==> p.url@ == request@.response_url() && p.body@ == json_text_of(
            spec_response_json(spec_into_response(request@, spec_outcome(*outcome))),
        ),
{
    let url = request.response_url();
    let response = request.into_response(outcome);
    match response.encode() {
        Ok(body) => Ok(PendingDelivery { url, body }),
        Err(e) => Err(ProcessError::Encode(e)),
    }
}

/// Resolves the final result of an invocation from the handler's
/// outcome and what became of the delivery.
///
/// When delivery succeeded, the handler's own outcome is returned: its
/// data on success, or `ProcessError::Handler` carrying its error text.
/// When delivery failed, `ProcessError::Delivery` is returned instead —
/// also when the handler had itself failed. The handler's error is then
/// observable only inside the already-delivered `Failed` response body;
/// this lossy fallback is a deliberate part of the protocol's design.
pub fn resolve_outcome(outcome: Result<Option<Json>, String>, delivery: DeliveryOutcome) -> (r:
    Result<Option<Json>, ProcessError>)
    ensures
        spec_delivery_ok(delivery) ==> (match outcome {
            Ok(data) => r == Ok::<Option<Json>, ProcessError>(data),
            Err(reason) => r == Err::<Option<Json>, ProcessError>(ProcessError::Handler(reason)),
        }),
        !spec_delivery_ok(delivery) ==> r == Err::<Option<Json>, ProcessError>(
            ProcessError::Delivery(delivery),
        ),
{
    if delivery.is_success() {
        match outcome {
            Ok(data) => Ok(data),
            Err(reason) => Err(ProcessError::Handler(reason)),
        }
    } else {
        Err(ProcessError::Delivery(delivery))
    }
}

} // verus!
