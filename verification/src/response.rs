//! The lifecycle response: the outcome report CloudFormation expects at
//! the presigned response URL, its exact JSON shape, and its rendering to
//! the wire text.
//!
//! A response is only ever derived from a completed request plus an
//! outcome (see `CfnRequest::into_response`); its identity fields are
//! never supplied independently.

use vstd::prelude::*;

use crate::json::{json_view, Json, JsonView};
use crate::properties::PhysicalResourceIdSuffixProvider;
use crate::request::{CfnRequest, CfnRequestView};

verus! {

/// The response to a custom-resource lifecycle request, ready to be
/// encoded and delivered to the presigned response URL.
#[derive(Debug, Clone, PartialEq)]
pub enum CfnResponse {
    /// The modification of the custom resource finished successfully.
    Success {
        /// A unique ID for the request, copied verbatim from the
        /// request.
        request_id: String,
        /// The logical resource name, copied verbatim from the request.
        logical_resource_id: String,
        /// The stack identifier, copied verbatim from the request.
        stack_id: String,
        /// The provider-defined physical ID of the resource; stable
        /// across updates that keep the underlying resource.
        physical_resource_id: String,
        /// Whether to mask the resource's output; never set by this
        /// library, and omitted from the encoding when absent.
        no_echo: Option<bool>,
        /// Provider-defined name/value pairs returned to the template;
        /// omitted from the encoding when absent.
        data: Option<Json>,
    },
    /// The modification of the custom resource failed.
    Failed {
        /// The human-readable reason for the failure.
        reason: String,
        /// A unique ID for the request, copied verbatim from the
        /// request.
        request_id: String,
        /// The logical resource name, copied verbatim from the request.
        logical_resource_id: String,
        /// The stack identifier, copied verbatim from the request.
        stack_id: String,
        /// The provider-defined physical ID of the resource.
        physical_resource_id: String,
    },
}

/// What a [`CfnResponse`] denotes, with strings as character sequences.
pub enum CfnResponseView {
    /// Denotes `CfnResponse::Success`.
    Success {
        /// A unique ID for the request.
        request_id: Seq<char>,
        /// The logical resource name.
        logical_resource_id: Seq<char>,
        /// The stack identifier.
        stack_id: Seq<char>,
        /// The provider-defined physical resource ID.
        physical_resource_id: Seq<char>,
        /// The optional output-masking flag.
        no_echo: Option<bool>,
        /// The optional returned data.
        data: Option<JsonView>,
    },
    /// Denotes `CfnResponse::Failed`.
    Failed {
        /// The reason for the failure.
        reason: Seq<char>,
        /// A unique ID for the request.
        request_id: Seq<char>,
        /// The logical resource name.
        logical_resource_id: Seq<char>,
        /// The stack identifier.
        stack_id: Seq<char>,
        /// The provider-defined physical resource ID.
        physical_resource_id: Seq<char>,
    },
}

impl View for CfnResponse {
    type V = CfnResponseView;

    open spec fn view(&self) -> CfnResponseView {
        match self {
            CfnResponse::Success {
                request_id,
                logical_resource_id,
                stack_id,
                physical_resource_id,
                no_echo,
                data,
            } => CfnResponseView::Success {
                request_id: request_id@,
                logical_resource_id: logical_resource_id@,
                stack_id: stack_id@,
                physical_resource_id: physical_resource_id@,
                no_echo: *no_echo,
                data: match data {
                    Some(d) => Some(d@),
                    None => None,
                },
            },
            CfnResponse::Failed {
                reason,
                request_id,
                logical_resource_id,
                stack_id,
                physical_resource_id,
            } => CfnResponseView::Failed {
                reason: reason@,
                request_id: request_id@,
                logical_resource_id: logical_resource_id@,
                stack_id: stack_id@,
                physical_resource_id: physical_resource_id@,
            },
        }
    }
}

/// The JSON document a response encodes to.
///
/// A `Success` response holds exactly the members `Status` (the string
/// `"SUCCESS"`), `RequestId`, `LogicalResourceId`, `StackId` and
/// `PhysicalResourceId`, followed by `NoEcho` and `Data` only when those
/// optional fields are present. A `Failed` response holds exactly
/// `Status` (the string `"FAILED"`), `Reason`, `RequestId`,
/// `LogicalResourceId`, `StackId` and `PhysicalResourceId`. No other
/// member ever appears.
pub open spec fn spec_response_json(r: CfnResponseView) -> JsonView {
    match r {
        CfnResponseView::Success {
            request_id,
            logical_resource_id,
            stack_id,
            physical_resource_id,
            no_echo,
            data,
        } => JsonView::Obj(
            seq![
                ("Status"@, JsonView::Str("SUCCESS"@)),
                ("RequestId"@, JsonView::Str(request_id)),
                ("LogicalResourceId"@, JsonView::Str(logical_resource_id)),
                ("StackId"@, JsonView::Str(stack_id)),
                ("PhysicalResourceId"@, JsonView::Str(physical_resource_id)),
            ] + (match no_echo {
                Some(b) => seq![("NoEcho"@, JsonView::Bool(b))],
                None => Seq::empty(),
            }) + (match data {
                Some(d) => seq![("Data"@, d)],
                None => Seq::empty(),
            }),
        ),
        CfnResponseView::Failed {
            reason,
            request_id,
            logical_resource_id,
            stack_id,
            physical_resource_id,
        } => JsonView::Obj(
            seq![
                ("Status"@, JsonView::Str("FAILED"@)),
                ("Reason"@, JsonView::Str(reason)),
                ("RequestId"@, JsonView::Str(request_id)),
                ("LogicalResourceId"@, JsonView::Str(logical_resource_id)),
                ("StackId"@, JsonView::Str(stack_id)),
                ("PhysicalResourceId"@, JsonView::Str(physical_resource_id)),
            ],
        ),
    }
}

/// The names of the members of object `j`, in order.
pub open spec fn spec_member_names(j: JsonView) -> Seq<Seq<char>>
    recommends
        j is Obj,
{
    j->Obj_0.map(|_i: int, m: (Seq<char>, JsonView)| m.0)
}

/// The encoding of a response is an object holding exactly the
/// advertised members, with absent optional fields omitted entirely and
/// nothing else ever added: for `Success`, the members `Status`,
/// `RequestId`, `LogicalResourceId`, `StackId` and `PhysicalResourceId`,
/// then `NoEcho` only when set and `Data` only when present; for
/// `Failed`, the members `Status`, `Reason`, `RequestId`,
/// `LogicalResourceId`, `StackId` and `PhysicalResourceId`.
pub proof fn lemma_response_member_names(r: CfnResponseView)
    ensures
        spec_response_json(r) is Obj,
        spec_member_names(spec_response_json(r)) =~= (match r {
            CfnResponseView::Success { no_echo, data, .. } => seq![
                "Status"@,
                "RequestId"@,
                "LogicalResourceId"@,
                "StackId"@,
                "PhysicalResourceId"@,
            ] + (if no_echo is Some {
                seq!["NoEcho"@]
            } else {
                Seq::empty()
            }) + (if data is Some {
                seq!["Data"@]
            } else {
                Seq::empty()
            }),
            CfnResponseView::Failed { .. } => seq![
                "Status"@,
                "Reason"@,
                "RequestId"@,
                "LogicalResourceId"@,
                "StackId"@,
                "PhysicalResourceId"@,
            ],
        }),
{
}

/// A response derived from a request never sets the output-masking
/// flag, so its encoding never holds a `NoEcho` member.
pub proof fn lemma_derived_response_never_emits_no_echo<P: PhysicalResourceIdSuffixProvider>(
    req: CfnRequestView<P>,
    outcome: Result<Option<JsonView>, Seq<char>>,
)
    ensures
        !spec_member_names(spec_response_json(spec_into_response(req, outcome))).contains(
            "NoEcho"@,
        ),
{
    reveal_strlit("Status");
    reveal_strlit("Reason");
    reveal_strlit("RequestId");
    reveal_strlit("LogicalResourceId");
    reveal_strlit("StackId");
    reveal_strlit("PhysicalResourceId");
    reveal_strlit("Data");
    reveal_strlit("NoEcho");
    let r = spec_into_response(req, outcome);
    lemma_response_member_names(r);
    let names = spec_member_names(spec_response_json(r));
    assert forall|i: int| 0 <= i < names.len() implies names[i] != "NoEcho"@ by {
        assert("Status"@[0] != "NoEcho"@[0]);
        assert("Reason"@[0] != "NoEcho"@[0]);
        assert("RequestId"@.len() != "NoEcho"@.len());
        assert("LogicalResourceId"@.len() != "NoEcho"@.len());
        assert("StackId"@.len() != "NoEcho"@.len());
        assert("PhysicalResourceId"@.len() != "NoEcho"@.len());
        assert("Data"@.len() != "NoEcho"@.len());
    }
}

/// The handler outcome a [`Json`]-typed result denotes: optional data on
/// success, or the display text of the handler's error.
pub open spec fn spec_outcome(o: Result<Option<Json>, String>) -> Result<
    Option<JsonView>,
    Seq<char>,
> {
    match o {
        Ok(Some(d)) => Ok(Some(d@)),
        Ok(None) => Ok(None),
        Err(e) => Err(e@),
    }
}

/// The response derived from a completed request and a handler outcome:
/// a success becomes `Success` carrying the outcome's data, a failure
/// becomes `Failed` carrying the error text as its reason; either way
/// the identity fields are copied from the request and the physical
/// resource ID is the request's own (derived for `Create` and `Update`,
/// supplied for `Delete`). The output-masking flag is never set.
pub open spec fn spec_into_response<P: PhysicalResourceIdSuffixProvider>(
    req: CfnRequestView<P>,
    outcome: Result<Option<JsonView>, Seq<char>>,
) -> CfnResponseView {
    match outcome {
        Ok(data) => CfnResponseView::Success {
            request_id: req.request_id(),
            logical_resource_id: req.logical_resource_id(),
            stack_id: req.stack_id(),
            physical_resource_id: req.physical_resource_id(),
            no_echo: None,
            data,
        },
        Err(reason) => CfnResponseView::Failed {
            reason,
            request_id: req.request_id(),
            logical_resource_id: req.logical_resource_id(),
            stack_id: req.stack_id(),
            physical_resource_id: req.physical_resource_id(),
        },
    }
}

impl<P> CfnRequest<P> where P: PhysicalResourceIdSuffixProvider + Clone {
    /// Turns this request into the [`CfnResponse`] reporting `result`,
    /// choosing `Success` or `Failed` accordingly. A response should
    /// always be created through this method, so that the fields the
    /// protocol requires are populated from the request they answer.
    pub fn into_response(self, result: &Result<Option<Json>, String>) -> (r: CfnResponse)
        ensures
            r@ == spec_into_response(self@, spec_outcome(*result)),
    {
        match result {
            Ok(data) => CfnResponse::Success {
                request_id: self.request_id(),
                logical_resource_id: self.logical_resource_id(),
                stack_id: self.stack_id(),
                physical_resource_id: self.physical_resource_id(),
                no_echo: None,
                data: match data {
                    Some(d) => Some(d.clone()),
                    None => None,
                },
            },
            Err(e) => CfnResponse::Failed {
                reason: e.clone(),
                request_id: self.request_id(),
                logical_resource_id: self.logical_resource_id(),
                stack_id: self.stack_id(),
                physical_resource_id: self.physical_resource_id(),
            },
        }
    }
}

/// The error a response that failed to serialize would surface as. By
/// the invocation's design such a failure is fatal: delivery is skipped
/// and the error becomes the final outcome. For the documents this
/// library builds the rendering is proved to succeed (see
/// [`CfnResponse::encode`]), so the error never actually arises.
#[derive(Debug, Clone, Copy, PartialEq, Eq, Structural)]
pub struct EncodeError;

/// The rendered text of a JSON document, as `serde_json` prints it.
pub uninterp spec fn json_text_of(j: JsonView) -> Seq<char>;

/// The JSON document type of `serde_json`, opaque here: a value of it is
/// only carried from [`json_to_value`] into [`json_to_string`].
#[verifier::external_type_specification]
#[verifier::external_body]
pub struct ExSerdeJsonValue(serde_json::Value);

/// Relies on `serde_json::Value` construction alone: rebuilds the
/// document node for node, for [`json_to_string`] to hand to the
/// renderer.
#[verifier::external_body]
fn json_to_value(j: &Json) -> serde_json::Value {
    match j {
        Json::Null => serde_json::Value::Null,
        Json::Bool(b) => serde_json::Value::Bool(*b),
        Json::Int(i) => serde_json::Value::Number(serde_json::Number::from(*i)),
        Json::Str(s) => serde_json::Value::String(s.clone()),
        Json::Arr(items) => serde_json::Value::Array(items.iter().map(json_to_value).collect()),
        Json::Obj(members) => serde_json::Value::Object(
            members.iter().map(|m| (m.0.clone(), json_to_value(&m.1))).collect(),
        ),
    }
}

/// The error type of `serde_json`, as returned by its renderer.
#[verifier::external_type_specification]
#[verifier::external_body]
pub struct ExSerdeJsonError(serde_json::Error);

/// Relies on `serde_json::to_string`, applied to the `serde_json::Value`
/// that [`json_to_value`] rebuilds from the document: the text it
/// returns is a function of the document alone, named [`json_text_of`].
/// It always returns it: `to_string` fails only when a `Serialize`
/// implementation fails or a map has non-string keys, the rebuilt value
/// holds only string keys and integer numbers, and the writer is a byte
/// buffer that cannot fail.
#[verifier::external_body]
fn json_to_string(j: &Json) -> (r: Result<String, serde_json::Error>)
    ensures
        r is Ok,
        r matches Ok(s) ==> s@ == json_text_of(j@),
{
    serde_json::to_string(&json_to_value(j))
}

impl CfnResponse {
    /// The JSON document this response encodes to: exactly the members
    /// listed by [`spec_response_json`], in that order, with absent
    /// optional fields omitted entirely.
    pub fn to_json(&self) -> (j: Json)
        ensures
            j@ == spec_response_json(self@),
    {
        match self {
            CfnResponse::Success {
                request_id,
                logical_resource_id,
                stack_id,
                physical_resource_id,
                no_echo,
                data,
            } => {
                let mut members: Vec<(String, Json)> = Vec::new();
                members.push((String::from_str("Status"), Json::Str(String::from_str("SUCCESS"))));
                members.push((String::from_str("RequestId"), Json::Str(request_id.clone())));
                members.push(
                    (String::from_str("LogicalResourceId"), Json::Str(logical_resource_id.clone())),
                );
                members.push((String::from_str("StackId"), Json::Str(stack_id.clone())));
                members.push(
                    (
                        String::from_str("PhysicalResourceId"),
                        Json::Str(physical_resource_id.clone()),
                    ),
                );
                if let Some(b) = no_echo {
                    members.push((String::from_str("NoEcho"), Json::Bool(*b)));
                }
                if let Some(d) = data {
                    members.push((String::from_str("Data"), d.clone()));
                }
                let out = Json::Obj(members);
                proof {
                    reveal_with_fuel(json_view, 2);
                    assert(json_view(out)->Obj_0 =~= spec_response_json(self@)->Obj_0);
                }
                out
            },
            CfnResponse::Failed {
                reason,
                request_id,
                logical_resource_id,
                stack_id,
                physical_resource_id,
            } => {
                let mut members: Vec<(String, Json)> = Vec::new();
                members.push((String::from_str("Status"), Json::Str(String::from_str("FAILED"))));
                members.push((String::from_str("Reason"), Json::Str(reason.clone())));
                members.push((String::from_str("RequestId"), Json::Str(request_id.clone())));
                members.push(
                    (String::from_str("LogicalResourceId"), Json::Str(logical_resource_id.clone())),
                );
                members.push((String::from_str("StackId"), Json::Str(stack_id.clone())));
                members.push(
                    (
                        String::from_str("PhysicalResourceId"),
                        Json::Str(physical_resource_id.clone()),
                    ),
                );
                let out = Json::Obj(members);
                proof {
                    reveal_with_fuel(json_view, 2);
                    assert(json_view(out)->Obj_0 =~= spec_response_json(self@)->Obj_0);
                }
                out
            },
        }
    }

    /// Renders this response to the wire text delivered to the response
    /// URL. A failure to serialize would be an [`EncodeError`], but the
    /// contract proves that rendering succeeds on every response.
    pub fn encode(&self) -> (r: Result<String, EncodeError>)
        ensures
            r is Ok,
            r matches Ok(s) ==> s@ == json_text_of(spec_response_json(self@)),
    {
        match json_to_string(&self.to_json()) {
            Ok(s) => Ok(s),
            Err(_) => Err(EncodeError),
        }
    }
}

} // verus!
