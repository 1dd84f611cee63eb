//! The resource-properties payload: the caller-defined data carried in a
//! lifecycle request, its decoding policy, and the suffix capability that
//! drives physical resource ID derivation.
//!
//! A properties type decides for itself how the `ResourceProperties`
//! member of the request envelope is read:
//! - a concrete type requires the member and rejects payloads that do not
//!   match its schema;
//! - `Option<T>` permits an absent (or `null`) member, decoding it to
//!   `None`;
//! - `Option<()>` additionally rejects any payload other than `null`;
//! - [`Ignored`] accepts anything and discards it.

use vstd::prelude::*;

use crate::json::{Json, JsonView};

verus! {

/// The error returned when an inbound request envelope cannot be decoded:
/// a missing or unrecognized request kind, a missing or non-string
/// identity field, or a properties payload rejected by the properties
/// type.
#[derive(Debug, Clone, Copy, PartialEq, Eq, Structural)]
pub struct DecodeError;

/// How a properties type reads the `ResourceProperties` member of the
/// request envelope.
///
/// `spec_from_properties` is the type's decoding policy: given the member
/// (`None` when the envelope has no such member), it is `Some(value)` when
/// decoding succeeds and `None` when the payload is rejected. The
/// executable decoder must follow it exactly.
pub trait FromResourceProperties: Sized {
    /// The decoding policy: which payloads are accepted, and the value
    /// each accepted payload decodes to. The default policy accepts
    /// nothing; every implementation is expected to supply its own.
    open spec fn spec_from_properties(v: Option<JsonView>) -> Option<Self> {
        None
    }

    /// Decodes the `ResourceProperties` member, `None` standing for an
    /// absent member.
    fn from_properties(v: Option<&Json>) -> (r: Result<Self, DecodeError>)
        ensures
            r is Ok <==> Self::spec_from_properties(opt_view(v)) is Some,
            r matches Ok(p) ==> Self::spec_from_properties(opt_view(v)) == Some(p),
    ;
}

/// The document denoted by an optional borrowed [`Json`] value.
pub open spec fn opt_view(v: Option<&Json>) -> Option<JsonView> {
    match v {
        Some(j) => Some(j@),
        None => None,
    }
}

/// Every AWS CloudFormation resource, including custom resources, needs a
/// unique physical resource ID. The properties type supplies the suffix
/// appended to derived IDs through this capability; see
/// `CfnRequest::physical_resource_id` for the derivation itself.
///
/// The suffix should change exactly when the changed properties require a
/// materially new underlying resource: updates that keep the suffix keep
/// the derived ID stable, while a changed suffix mints a new ID.
pub trait PhysicalResourceIdSuffixProvider {
    /// The suffix this value contributes to a derived physical resource
    /// ID; the empty suffix unless the implementation supplies its own.
    open spec fn spec_suffix(&self) -> Seq<char> {
        Seq::empty()
    }

    /// Creates a suffix that uniquely identifies the physical resource
    /// represented by the value holding the resource properties.
    fn physical_resource_id_suffix(&self) -> (r: String)
        ensures
            r@ == self.spec_suffix(),
    ;
}

impl<T: FromResourceProperties> FromResourceProperties for Option<T> {
    /// An absent or `null` member decodes to `None`; any other payload is
    /// handed to `T`.
    open spec fn spec_from_properties(v: Option<JsonView>) -> Option<Option<T>> {
        match v {
            None => Some(None),
            Some(JsonView::Null) => Some(None),
            Some(jv) => match T::spec_from_properties(Some(jv)) {
                Some(t) => Some(Some(t)),
                None => None,
            },
        }
    }

    fn from_properties(v: Option<&Json>) -> (r: Result<Option<T>, DecodeError>) {
        match v {
            None => Ok(None),
            Some(Json::Null) => Ok(None),
            Some(j) => match T::from_properties(Some(j)) {
                Ok(t) => Ok(Some(t)),
                Err(e) => Err(e),
            },
        }
    }
}

impl<T: PhysicalResourceIdSuffixProvider> PhysicalResourceIdSuffixProvider for Option<T> {
    /// An absent payload contributes no suffix.
    open spec fn spec_suffix(&self) -> Seq<char> {
        match self {
            Some(value) => value.spec_suffix(),
            None => Seq::empty(),
        }
    }

    fn physical_resource_id_suffix(&self) -> (r: String) {
        match self {
            Some(value) => value.physical_resource_id_suffix(),
            None => String::new(),
        }
    }
}

impl FromResourceProperties for () {
    /// The unit payload decodes from `null` alone, so that `Option<()>`
    /// permits an absent member while rejecting every real payload.
    open spec fn spec_from_properties(v: Option<JsonView>) -> Option<()> {
        match v {
            Some(JsonView::Null) => Some(()),
            _ => None,
        }
    }

    fn from_properties(v: Option<&Json>) -> (r: Result<(), DecodeError>) {
        match v {
            Some(Json::Null) => Ok(()),
            _ => Err(DecodeError),
        }
    }
}

impl PhysicalResourceIdSuffixProvider for () {
    open spec fn spec_suffix(&self) -> Seq<char> {
        Seq::empty()
    }

    fn physical_resource_id_suffix(&self) -> (r: String) {
        String::new()
    }
}

/// A properties type that accepts any payload, or none, and discards its
/// contents.
///
/// Use it as the properties type of a custom resource that takes no
/// properties of its own but should not fail when some are supplied.
#[derive(Debug, Clone, Default, Copy, PartialEq, Eq, Structural)]
pub struct Ignored;

impl FromResourceProperties for Ignored {
    /// Everything decodes, and nothing is kept.
    open spec fn spec_from_properties(v: Option<JsonView>) -> Option<Ignored> {
        Some(Ignored)
    }

    fn from_properties(v: Option<&Json>) -> (r: Result<Ignored, DecodeError>) {
        Ok(Ignored)
    }
}

impl PhysicalResourceIdSuffixProvider for Ignored {
    open spec fn spec_suffix(&self) -> Seq<char> {
        Seq::empty()
    }

    fn physical_resource_id_suffix(&self) -> (r: String) {
        String::new()
    }
}

/// The optional policy permits an absent member, decoding it to `None`.
pub proof fn lemma_option_permits_absence<T: FromResourceProperties>()
    ensures
        Option::<T>::spec_from_properties(None) == Some(None::<T>),
{
}

/// The permissive policy accepts any payload, or none at all, and keeps
/// nothing of it.
pub proof fn lemma_ignored_accepts_anything(v: Option<JsonView>)
    ensures
        Ignored::spec_from_properties(v) == Some(Ignored),
{
}

/// The optional-unit policy permits an absent or `null` member and
/// rejects every other payload.
pub proof fn lemma_optional_unit_rejects_payload(v: Option<JsonView>)
    ensures
        Option::<()>::spec_from_properties(v) == (match v {
            None => Some(None::<()>),
            Some(JsonView::Null) => Some(None::<()>),
            Some(_) => None::<Option<()>>,
        }),
{
}

} // verus!
