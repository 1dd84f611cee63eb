//! The lifecycle request: the tagged envelope CloudFormation sends when a
//! stack operation touches a custom resource, uniform accessors over its
//! three variants, decoding from the JSON envelope, and the physical
//! resource ID derivation rule.

use vstd::prelude::*;

use crate::json::{spec_get, spec_get_str, Json, JsonView};
use crate::properties::{
    opt_view, DecodeError, FromResourceProperties, PhysicalResourceIdSuffixProvider,
};

verus! {

/// A custom-resource lifecycle request: creation, update, or deletion of
/// a custom resource, as decoded from the envelope CloudFormation sends.
///
/// All variants carry the same identity fields. A physical resource ID is
/// only known to CloudFormation for resources that already exist, so only
/// `Delete` and `Update` carry one; `Update` additionally carries the
/// property values that were previously in effect.
///
/// The generic parameter `P` is the caller-defined resource-properties
/// payload; its [`FromResourceProperties`] implementation decides how the
/// `ResourceProperties` member of the envelope is read (see the
/// `properties` module for the supported policies).
#[derive(Debug, Clone, PartialEq)]
pub enum CfnRequest<P> where P: Clone {
    /// Sent when the template developer creates a stack that contains a
    /// custom resource.
    Create {
        /// A unique ID for the request.
        request_id: String,
        /// The presigned URL that receives the response to this request.
        response_url: String,
        /// The template developer-chosen type of the custom resource.
        resource_type: String,
        /// The template developer-chosen name (logical ID) of the custom
        /// resource in the template.
        logical_resource_id: String,
        /// The Amazon Resource Name (ARN) of the stack containing the
        /// custom resource.
        stack_id: String,
        /// The contents of the `Properties` object sent by the template
        /// developer.
        resource_properties: P,
    },
    /// Sent when the template developer deletes a stack that contains a
    /// custom resource.
    Delete {
        /// A unique ID for the request.
        request_id: String,
        /// The presigned URL that receives the response to this request.
        response_url: String,
        /// The template developer-chosen type of the custom resource.
        resource_type: String,
        /// The template developer-chosen name (logical ID) of the custom
        /// resource in the template.
        logical_resource_id: String,
        /// The Amazon Resource Name (ARN) of the stack containing the
        /// custom resource.
        stack_id: String,
        /// The provider-defined physical ID of the resource to delete.
        physical_resource_id: String,
        /// The contents of the `Properties` object sent by the template
        /// developer.
        resource_properties: P,
    },
    /// Sent when any property of the custom resource changes within the
    /// template.
    Update {
        /// A unique ID for the request.
        request_id: String,
        /// The presigned URL that receives the response to this request.
        response_url: String,
        /// The template developer-chosen type of the custom resource.
        resource_type: String,
        /// The template developer-chosen name (logical ID) of the custom
        /// resource in the template.
        logical_resource_id: String,
        /// The Amazon Resource Name (ARN) of the stack containing the
        /// custom resource.
        stack_id: String,
        /// The provider-defined physical ID of the resource to update.
        physical_resource_id: String,
        /// The contents of the `Properties` object sent by the template
        /// developer.
        resource_properties: P,
        /// The property values previously declared by the template
        /// developer.
        old_resource_properties: P,
    },
}

/// What a [`CfnRequest`] denotes: the same tagged shape with strings as
/// character sequences. The properties payload keeps its own type.
pub enum CfnRequestView<P> {
    /// Denotes `CfnRequest::Create`.
    Create {
        /// A unique ID for the request.
        request_id: Seq<char>,
        /// The presigned URL that receives the response.
        response_url: Seq<char>,
        /// The developer-chosen type of the custom resource.
        resource_type: Seq<char>,
        /// The developer-chosen name of the resource in the template.
        logical_resource_id: Seq<char>,
        /// The ARN of the stack containing the resource.
        stack_id: Seq<char>,
        /// The decoded properties payload.
        resource_properties: P,
    },
    /// Denotes `CfnRequest::Delete`.
    Delete {
        /// A unique ID for the request.
        request_id: Seq<char>,
        /// The presigned URL that receives the response.
        response_url: Seq<char>,
        /// The developer-chosen type of the custom resource.
        resource_type: Seq<char>,
        /// The developer-chosen name of the resource in the template.
        logical_resource_id: Seq<char>,
        /// The ARN of the stack containing the resource.
        stack_id: Seq<char>,
        /// The provider-defined physical ID of the resource.
        physical_resource_id: Seq<char>,
        /// The decoded properties payload.
        resource_properties: P,
    },
    /// Denotes `CfnRequest::Update`.
    Update {
        /// A unique ID for the request.
        request_id: Seq<char>,
        /// The presigned URL that receives the response.
        response_url: Seq<char>,
        /// The developer-chosen type of the custom resource.
        resource_type: Seq<char>,
        /// The developer-chosen name of the resource in the template.
        logical_resource_id: Seq<char>,
        /// The ARN of the stack containing the resource.
        stack_id: Seq<char>,
        /// The provider-defined physical ID of the resource.
        physical_resource_id: Seq<char>,
        /// The decoded properties payload.
        resource_properties: P,
        /// The previously declared properties payload.
        old_resource_properties: P,
    },
}

impl<P: Clone> View for CfnRequest<P> {
    type V = CfnRequestView<P>;

    open spec fn view(&self) -> CfnRequestView<P> {
        match self {
            CfnRequest::Create {
                request_id,
                response_url,
                resource_type,
                logical_resource_id,
                stack_id,
                resource_properties,
            } => CfnRequestView::Create {
                request_id: request_id@,
                response_url: response_url@,
                resource_type: resource_type@,
                logical_resource_id: logical_resource_id@,
                stack_id: stack_id@,
                resource_properties: *resource_properties,
            },
            CfnRequest::Delete {
                request_id,
                response_url,
                resource_type,
                logical_resource_id,
                stack_id,
                physical_resource_id,
                resource_properties,
            } => CfnRequestView::Delete {
                request_id: request_id@,
                response_url: response_url@,
                resource_type: resource_type@,
                logical_resource_id: logical_resource_id@,
                stack_id: stack_id@,
                physical_resource_id: physical_resource_id@,
                resource_properties: *resource_properties,
            },
            CfnRequest::Update {
                request_id,
                response_url,
                resource_type,
                logical_resource_id,
                stack_id,
                physical_resource_id,
                resource_properties,
                old_resource_properties,
            } => CfnRequestView::Update {
                request_id: request_id@,
                response_url: response_url@,
                resource_type: resource_type@,
                logical_resource_id: logical_resource_id@,
                stack_id: stack_id@,
                physical_resource_id: physical_resource_id@,
                resource_properties: *resource_properties,
                old_resource_properties: *old_resource_properties,
            },
        }
    }
}

impl<P> CfnRequestView<P> {
    /// The request ID, common to all variants.
    pub open spec fn request_id(self) -> Seq<char> {
        match self {
            CfnRequestView::Create { request_id, .. } => request_id,
            CfnRequestView::Delete { request_id, .. } => request_id,
            CfnRequestView::Update { request_id, .. } => request_id,
        }
    }

    /// The response delivery URL, common to all variants.
    pub open spec fn response_url(self) -> Seq<char> {
        match self {
            CfnRequestView::Create { response_url, .. } => response_url,
            CfnRequestView::Delete { response_url, .. } => response_url,
            CfnRequestView::Update { response_url, .. } => response_url,
        }
    }

    /// The resource type name, common to all variants.
    pub open spec fn resource_type(self) -> Seq<char> {
        match self {
            CfnRequestView::Create { resource_type, .. } => resource_type,
            CfnRequestView::Delete { resource_type, .. } => resource_type,
            CfnRequestView::Update { resource_type, .. } => resource_type,
        }
    }

    /// The logical resource name, common to all variants.
    pub open spec fn logical_resource_id(self) -> Seq<char> {
        match self {
            CfnRequestView::Create { logical_resource_id, .. } => logical_resource_id,
            CfnRequestView::Delete { logical_resource_id, .. } => logical_resource_id,
            CfnRequestView::Update { logical_resource_id, .. } => logical_resource_id,
        }
    }

    /// The stack identifier, common to all variants.
    pub open spec fn stack_id(self) -> Seq<char> {
        match self {
            CfnRequestView::Create { stack_id, .. } => stack_id,
            CfnRequestView::Delete { stack_id, .. } => stack_id,
            CfnRequestView::Update { stack_id, .. } => stack_id,
        }
    }

    /// The resource properties payload, common to all variants.
    pub open spec fn resource_properties(self) -> P {
        match self {
            CfnRequestView::Create { resource_properties, .. } => resource_properties,
            CfnRequestView::Delete { resource_properties, .. } => resource_properties,
            CfnRequestView::Update { resource_properties, .. } => resource_properties,
        }
    }
}

/// The index of the last `/` in `s`, or `-1` when `s` has none.
pub open spec fn spec_last_slash(s: Seq<char>) -> int
    decreases s.len(),
{
    if s.len() == 0 {
        -1
    } else if s[s.len() - 1] == '/' {
        s.len() - 1
    } else {
        spec_last_slash(s.drop_last())
    }
}

/// The part of a stack identifier after its last `/`: for the ARNs
/// CloudFormation sends this is the stack GUID. A stack identifier
/// without a `/` is used whole; that fallback is deliberate, so that
/// non-standard identifiers still derive an ID instead of failing.
pub open spec fn spec_stack_id_segment(s: Seq<char>) -> Seq<char> {
    s.subrange(spec_last_slash(s) + 1, s.len() as int)
}

/// The derived physical resource ID for `Create` and `Update` requests:
/// a fixed ARN-style prefix, the stack identifier's final segment, `-`,
/// the logical resource name, and `/` followed by the suffix only when
/// the suffix is non-empty.
pub open spec fn spec_derived_physical_id(
    stack_id: Seq<char>,
    logical_resource_id: Seq<char>,
    suffix: Seq<char>,
) -> Seq<char> {
    "arn:custom:cfn-resource-provider:::"@ + spec_stack_id_segment(stack_id) + "-"@
        + logical_resource_id + if suffix.len() == 0 {
        Seq::<char>::empty()
    } else {
        "/"@ + suffix
    }
}

impl<P: PhysicalResourceIdSuffixProvider> CfnRequestView<P> {
    /// The physical resource ID this request stands for: the supplied ID
    /// for `Delete`, the derived ID for `Create` and `Update`.
    pub open spec fn physical_resource_id(self) -> Seq<char> {
        match self {
            CfnRequestView::Delete { physical_resource_id, .. } => physical_resource_id,
            _ => spec_derived_physical_id(
                self.stack_id(),
                self.logical_resource_id(),
                self.resource_properties().spec_suffix(),
            ),
        }
    }
}

/// The segment of `s` after its last `/` (all of `s` when it has none).
#[verifier::loop_isolation(false)]
fn last_segment<'a>(s: &'a str) -> (r: &'a str)
    ensures
        r@ == spec_stack_id_segment(s@),
{
    let n = s.unicode_len();
    let mut k: usize = 0;
    let mut cut: usize = 0;
    while k < n
        invariant
            cut <= k <= n,
            cut as int == spec_last_slash(s@.subrange(0, k as int)) + 1,
        decreases n - k,
    {
        let c = s.get_char(k);
        proof {
            assert(s@.subrange(0, k + 1 as int).drop_last() =~= s@.subrange(0, k as int));
        }
        if c == '/' {
            cut = k + 1;
        }
        k += 1;
    }
    proof {
        assert(s@.subrange(0, n as int) =~= s@);
    }
    s.substring_char(cut, n)
}

/// The derived ID for a `Create` or `Update` request.
fn derive_physical_id<P: PhysicalResourceIdSuffixProvider>(
    stack_id: &String,
    logical_resource_id: &String,
    props: &P,
) -> (r: String)
    ensures
        r@ == spec_derived_physical_id(stack_id@, logical_resource_id@, props.spec_suffix()),
{
    let suffix = props.physical_resource_id_suffix();
    let segment = last_segment(stack_id.as_str());
    let mut out = String::from_str("arn:custom:cfn-resource-provider:::");
    out.append(segment);
    out.append("-");
    out.append(logical_resource_id.as_str());
    if !suffix.as_str().is_empty() {
        out.append("/");
        out.append(suffix.as_str());
    }
    out
}

impl<P> CfnRequest<P> where P: PhysicalResourceIdSuffixProvider + Clone {
    /// The request ID, without matching on the variant yourself.
    pub fn request_id(&self) -> (r: String)
        ensures
            r@ == self@.request_id(),
    {
        match self {
            CfnRequest::Create { request_id, .. } => request_id.clone(),
            CfnRequest::Delete { request_id, .. } => request_id.clone(),
            CfnRequest::Update { request_id, .. } => request_id.clone(),
        }
    }

    /// The response delivery URL, without matching on the variant
    /// yourself.
    pub fn response_url(&self) -> (r: String)
        ensures
            r@ == self@.response_url(),
    {
        match self {
            CfnRequest::Create { response_url, .. } => response_url.clone(),
            CfnRequest::Delete { response_url, .. } => response_url.clone(),
            CfnRequest::Update { response_url, .. } => response_url.clone(),
        }
    }

    /// The resource type name, without matching on the variant yourself.
    pub fn resource_type(&self) -> (r: String)
        ensures
            r@ == self@.resource_type(),
    {
        match self {
            CfnRequest::Create { resource_type, .. } => resource_type.clone(),
            CfnRequest::Delete { resource_type, .. } => resource_type.clone(),
            CfnRequest::Update { resource_type, .. } => resource_type.clone(),
        }
    }

    /// The logical resource name, without matching on the variant
    /// yourself.
    pub fn logical_resource_id(&self) -> (r: String)
        ensures
            r@ == self@.logical_resource_id(),
    {
        match self {
            CfnRequest::Create { logical_resource_id, .. } => logical_resource_id.clone(),
            CfnRequest::Delete { logical_resource_id, .. } => logical_resource_id.clone(),
            CfnRequest::Update { logical_resource_id, .. } => logical_resource_id.clone(),
        }
    }

    /// The stack identifier, without matching on the variant yourself.
    pub fn stack_id(&self) -> (r: String)
        ensures
            r@ == self@.stack_id(),
    {
        match self {
            CfnRequest::Create { stack_id, .. } => stack_id.clone(),
            CfnRequest::Delete { stack_id, .. } => stack_id.clone(),
            CfnRequest::Update { stack_id, .. } => stack_id.clone(),
        }
    }

    /// The physical resource ID this request stands for, always correct
    /// and up to date for the variant at hand: a `Delete` request returns
    /// the supplied ID unchanged, while `Create` and `Update` derive one
    /// from the stack identifier's final segment, the logical resource
    /// name, and the properties' suffix (see
    /// [`spec_derived_physical_id`]).
    pub fn physical_resource_id(&self) -> (r: String)
        ensures
            r@ == self@.physical_resource_id(),
    {
        match self {
            CfnRequest::Create { logical_resource_id, stack_id, resource_properties, .. } => {
                derive_physical_id(stack_id, logical_resource_id, resource_properties)
            },
            CfnRequest::Update { logical_resource_id, stack_id, resource_properties, .. } => {
                derive_physical_id(stack_id, logical_resource_id, resource_properties)
            },
            CfnRequest::Delete { physical_resource_id, .. } => physical_resource_id.clone(),
        }
    }

    /// The resource properties payload, without matching on the variant
    /// yourself.
    pub fn resource_properties(&self) -> (r: &P)
        ensures
            *r == self@.resource_properties(),
    {
        match self {
            CfnRequest::Create { resource_properties, .. } => resource_properties,
            CfnRequest::Delete { resource_properties, .. } => resource_properties,
            CfnRequest::Update { resource_properties, .. } => resource_properties,
        }
    }
}

/// The identity fields common to all three envelope variants, as decoded
/// from the envelope. Each must be present and must be a JSON string.
pub struct CommonFieldsView {
    /// The `RequestId` member.
    pub request_id: Seq<char>,
    /// The `ResponseURL` member.
    pub response_url: Seq<char>,
    /// The `ResourceType` member.
    pub resource_type: Seq<char>,
    /// The `LogicalResourceId` member.
    pub logical_resource_id: Seq<char>,
    /// The `StackId` member.
    pub stack_id: Seq<char>,
}

/// The common identity fields of envelope `j`, when every one of them is
/// present and is a string.
pub open spec fn spec_common_fields(j: JsonView) -> Option<CommonFieldsView> {
    match (
        spec_get_str(j, "RequestId"@),
        spec_get_str(j, "ResponseURL"@),
        spec_get_str(j, "ResourceType"@),
        spec_get_str(j, "LogicalResourceId"@),
        spec_get_str(j, "StackId"@),
    ) {
        (
            Some(request_id),
            Some(response_url),
            Some(resource_type),
            Some(logical_resource_id),
            Some(stack_id),
        ) => Some(
            CommonFieldsView {
                request_id,
                response_url,
                resource_type,
                logical_resource_id,
                stack_id,
            },
        ),
        _ => None,
    }
}

/// The decoded properties payload under the member named `key` of
/// envelope `j`, per `P`'s decoding policy; an absent member is handed to
/// the policy as such.
pub open spec fn spec_properties_member<P: FromResourceProperties>(
    j: JsonView,
    key: Seq<char>,
) -> Option<P> {
    P::spec_from_properties(spec_get(j, key))
}

/// The `Create` request denoted by envelope `j`, when its identity
/// fields and properties payload all decode.
pub open spec fn spec_decode_create<P: FromResourceProperties>(j: JsonView) -> Option<
    CfnRequestView<P>,
> {
    match (spec_common_fields(j), spec_properties_member::<P>(j, "ResourceProperties"@)) {
        (Some(c), Some(props)) => Some(
            CfnRequestView::Create {
                request_id: c.request_id,
                response_url: c.response_url,
                resource_type: c.resource_type,
                logical_resource_id: c.logical_resource_id,
                stack_id: c.stack_id,
                resource_properties: props,
            },
        ),
        _ => None,
    }
}

/// The `Delete` request denoted by envelope `j`, when its identity
/// fields, physical resource ID, and properties payload all decode.
pub open spec fn spec_decode_delete<P: FromResourceProperties>(j: JsonView) -> Option<
    CfnRequestView<P>,
> {
    match (
        spec_common_fields(j),
        spec_get_str(j, "PhysicalResourceId"@),
        spec_properties_member::<P>(j, "ResourceProperties"@),
    ) {
        (Some(c), Some(physical_resource_id), Some(props)) => Some(
            CfnRequestView::Delete {
                request_id: c.request_id,
                response_url: c.response_url,
                resource_type: c.resource_type,
                logical_resource_id: c.logical_resource_id,
                stack_id: c.stack_id,
                physical_resource_id,
                resource_properties: props,
            },
        ),
        _ => None,
    }
}

/// The `Update` request denoted by envelope `j`, when its identity
/// fields, physical resource ID, and both properties payloads all
/// decode.
pub open spec fn spec_decode_update<P: FromResourceProperties>(j: JsonView) -> Option<
    CfnRequestView<P>,
> {
    match (
        spec_common_fields(j),
        spec_get_str(j, "PhysicalResourceId"@),
        spec_properties_member::<P>(j, "ResourceProperties"@),
        spec_properties_member::<P>(j, "OldResourceProperties"@),
    ) {
        (Some(c), Some(physical_resource_id), Some(props), Some(old_props)) => Some(
            CfnRequestView::Update {
                request_id: c.request_id,
                response_url: c.response_url,
                resource_type: c.resource_type,
                logical_resource_id: c.logical_resource_id,
                stack_id: c.stack_id,
                physical_resource_id,
                resource_properties: props,
                old_resource_properties: old_props,
            },
        ),
        _ => None,
    }
}

/// The request denoted by envelope `j`: the `RequestType` member selects
/// the variant, and a missing or unrecognized discriminant denotes no
/// request at all.
pub open spec fn spec_decode<P: FromResourceProperties>(j: JsonView) -> Option<
    CfnRequestView<P>,
> {
    match spec_get_str(j, "RequestType"@) {
        Some(tag) => if tag == "Create"@ {
            spec_decode_create::<P>(j)
        } else if tag == "Delete"@ {
            spec_decode_delete::<P>(j)
        } else if tag == "Update"@ {
            spec_decode_update::<P>(j)
        } else {
            None
        },
        None => None,
    }
}

/// The common identity fields of envelope `j`, in declaration order.
fn decode_common(j: &Json) -> (r: Result<(String, String, String, String, String), DecodeError>)
    ensures
        r is Ok <==> spec_common_fields(j@) is Some,
        r matches Ok(c) ==> spec_common_fields(j@) == Some(
            CommonFieldsView {
                request_id: c.0@,
                response_url: c.1@,
                resource_type: c.2@,
                logical_resource_id: c.3@,
                stack_id: c.4@,
            },
        ),
{
    let request_id = match j.get_str("RequestId") {
        Some(s) => s.clone(),
        None => { return Err(DecodeError) },
    };
    let response_url = match j.get_str("ResponseURL") {
        Some(s) => s.clone(),
        None => { return Err(DecodeError) },
    };
    let resource_type = match j.get_str("ResourceType") {
        Some(s) => s.clone(),
        None => { return Err(DecodeError) },
    };
    let logical_resource_id = match j.get_str("LogicalResourceId") {
        Some(s) => s.clone(),
        None => { return Err(DecodeError) },
    };
    let stack_id = match j.get_str("StackId") {
        Some(s) => s.clone(),
        None => { return Err(DecodeError) },
    };
    Ok((request_id, response_url, resource_type, logical_resource_id, stack_id))
}

/// The properties payload under the member named `key` of envelope `j`,
/// decoded per `P`'s policy.
fn decode_properties_member<P: FromResourceProperties>(j: &Json, key: &str) -> (r: Result<
    P,
    DecodeError,
>)
    ensures
        r is Ok <==> spec_properties_member::<P>(j@, key@) is Some,
        r matches Ok(p) ==> spec_properties_member::<P>(j@, key@) == Some(p),
{
    let member = j.get(key);
    proof {
        assert(opt_view(member) == spec_get(j@, key@));
    }
    P::from_properties(member)
}

impl<P> CfnRequest<P> where P: FromResourceProperties + Clone {
    /// Decodes the request envelope `j`.
    ///
    /// The `RequestType` member selects the variant; decoding fails when
    /// that member is missing or unrecognized, when a required identity
    /// field is missing or is not a string, or when the properties
    /// payload is rejected by `P`'s decoding policy.
    pub fn decode(j: &Json) -> (r: Result<CfnRequest<P>, DecodeError>)
        ensures
            r is Ok <==> spec_decode::<P>(j@) is Some,
            r matches Ok(req) ==> spec_decode::<P>(j@) == Some(req@),
    {
        let tag = match j.get_str("RequestType") {
            Some(s) => s,
            None => { return Err(DecodeError) },
        };
        if tag.eq(&String::from_str("Create")) {
            let c = match decode_common(j) {
                Ok(c) => c,
                Err(e) => { return Err(e) },
            };
            let props = match decode_properties_member::<P>(j, "ResourceProperties") {
                Ok(p) => p,
                Err(e) => { return Err(e) },
            };
            Ok(
                CfnRequest::Create {
                    request_id: c.0,
                    response_url: c.1,
                    resource_type: c.2,
                    logical_resource_id: c.3,
                    stack_id: c.4,
                    resource_properties: props,
                },
            )
        } else if tag.eq(&String::from_str("Delete")) {
            let c = match decode_common(j) {
                Ok(c) => c,
                Err(e) => { return Err(e) },
            };
            let physical_resource_id = match j.get_str("PhysicalResourceId") {
                Some(s) => s.clone(),
                None => { return Err(DecodeError) },
            };
            let props = match decode_properties_member::<P>(j, "ResourceProperties") {
                Ok(p) => p,
                Err(e) => { return Err(e) },
            };
            Ok(
                CfnRequest::Delete {
                    request_id: c.0,
                    response_url: c.1,
                    resource_type: c.2,
                    logical_resource_id: c.3,
                    stack_id: c.4,
                    physical_resource_id,
                    resource_properties: props,
                },
            )
        } else if tag.eq(&String::from_str("Update")) {
            let c = match decode_common(j) {
                Ok(c) => c,
                Err(e) => { return Err(e) },
            };
            let physical_resource_id = match j.get_str("PhysicalResourceId") {
                Some(s) => s.clone(),
                None => { return Err(DecodeError) },
            };
            let props = match decode_properties_member::<P>(j, "ResourceProperties") {
                Ok(p) => p,
                Err(e) => { return Err(e) },
            };
            let old_props = match decode_properties_member::<P>(j, "OldResourceProperties") {
                Ok(p) => p,
                Err(e) => { return Err(e) },
            };
            Ok(
                CfnRequest::Update {
                    request_id: c.0,
                    response_url: c.1,
                    resource_type: c.2,
                    logical_resource_id: c.3,
                    stack_id: c.4,
                    physical_resource_id,
                    resource_properties: props,
                    old_resource_properties: old_props,
                },
            )
        } else {
            Err(DecodeError)
        }
    }
}

/// For every `Create` or `Update` request whose properties contribute an
/// empty suffix, the derived physical resource ID does not end with the
/// `/` separator: no separator is appended when there is nothing to
/// separate. (A logical resource name that itself ends with `/` would
/// put that character last, so such names are excluded here.)
pub proof fn lemma_empty_suffix_id_has_no_trailing_slash<P: PhysicalResourceIdSuffixProvider>(
    req: CfnRequestView<P>,
)
    requires
        req is Create || req is Update,
        req.resource_properties().spec_suffix().len() == 0,
        req.logical_resource_id().len() == 0 || req.logical_resource_id().last() != '/',
    ensures
        req.physical_resource_id().len() > 0,
        req.physical_resource_id().last() != '/',
{
    reveal_strlit("arn:custom:cfn-resource-provider:::");
    reveal_strlit("-");
    let id = req.physical_resource_id();
    if req.logical_resource_id().len() == 0 {
        assert(id.last() == '-');
    } else {
        assert(id.last() == req.logical_resource_id().last());
    }
}

/// For every `Create` or `Update` request whose properties contribute a
/// non-empty suffix, the derived physical resource ID ends with `/`
/// followed by exactly that suffix.
pub proof fn lemma_nonempty_suffix_id_ends_with_suffix<P: PhysicalResourceIdSuffixProvider>(
    req: CfnRequestView<P>,
)
    requires
        req is Create || req is Update,
        req.resource_properties().spec_suffix().len() > 0,
    ensures
        ({
            let id = req.physical_resource_id();
            let suffix = req.resource_properties().spec_suffix();
            &&& id.len() > suffix.len() + 1
            &&& id.subrange(id.len() - suffix.len() - 1, id.len() as int) == "/"@ + suffix
        }),
{
    reveal_strlit("arn:custom:cfn-resource-provider:::");
    reveal_strlit("/");
    let id = req.physical_resource_id();
    let suffix = req.resource_properties().spec_suffix();
    assert(id.subrange(id.len() - suffix.len() - 1, id.len() as int) =~= "/"@ + suffix);
}

/// For every envelope whose identity fields are in order, decoding
/// succeeds exactly when the properties type's policy accepts the
/// `ResourceProperties` member it finds — an absent member included —
/// and, for `Update`, the `OldResourceProperties` member as well. In
/// particular, a payload the policy rejects (absence under a required
/// policy, or an unrecognized shape under a schema-checking policy)
/// fails the whole decode, and a payload the permissive policy discards
/// does not.
pub proof fn lemma_decode_follows_properties_policy<P: FromResourceProperties>(j: JsonView)
    requires
        spec_common_fields(j) is Some,
    ensures
        spec_get_str(j, "RequestType"@) == Some("Create"@) ==> (spec_decode::<P>(j) is Some
            <==> spec_properties_member::<P>(j, "ResourceProperties"@) is Some),
        spec_get_str(j, "RequestType"@) == Some("Delete"@) && spec_get_str(
            j,
            "PhysicalResourceId"@,
        ) is Some ==> (spec_decode::<P>(j) is Some <==> spec_properties_member::<P>(
            j,
            "ResourceProperties"@,
        ) is Some),
        spec_get_str(j, "RequestType"@) == Some("Update"@) && spec_get_str(
            j,
            "PhysicalResourceId"@,
        ) is Some ==> (spec_decode::<P>(j) is Some <==> spec_properties_member::<P>(
            j,
            "ResourceProperties"@,
        ) is Some && spec_properties_member::<P>(j, "OldResourceProperties"@) is Some),
{
    reveal_strlit("Create");
    reveal_strlit("Delete");
    reveal_strlit("Update");
    assert("Delete"@[0] != "Create"@[0]);
    assert("Update"@[0] != "Create"@[0]);
    assert("Update"@[0] != "Delete"@[0]);
}

} // verus!
