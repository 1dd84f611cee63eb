//! A strongly typed model of the AWS CloudFormation custom-resource lifecycle
//! callback protocol: decoding lifecycle requests, deriving physical resource
//! identifiers, building and encoding the response that CloudFormation expects,
//! and the decision rules that tie a handler outcome and a delivery attempt
//! together into the final result of an invocation.

pub mod json;
pub mod properties;
pub mod request;
pub mod pipeline;
pub mod response;

pub use json::{Json, JsonView};
pub use pipeline::{prepare_delivery, resolve_outcome, DeliveryOutcome, PendingDelivery, ProcessError};
pub use properties::{DecodeError, FromResourceProperties, Ignored, PhysicalResourceIdSuffixProvider};
pub use request::{CfnRequest, CfnRequestView};
pub use response::{CfnResponse, CfnResponseView, EncodeError};
