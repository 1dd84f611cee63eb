//! Decoding the inbound request envelope, across the four properties
//! policies.

use cfn_resource_provider::{CfnRequest, DecodeError, FromResourceProperties, Ignored, Json};

fn value_to_json(v: &serde_json::Value) -> Json {
    match v {
        serde_json::Value::Null => Json::Null,
        serde_json::Value::Bool(b) => Json::Bool(*b),
        serde_json::Value::Number(n) => Json::Int(n.as_i64().expect("integer-valued number")),
        serde_json::Value::String(s) => Json::Str(s.clone()),
        serde_json::Value::Array(items) => Json::Arr(items.iter().map(value_to_json).collect()),
        serde_json::Value::Object(members) => {
            Json::Obj(members.iter().map(|(k, m)| (k.clone(), value_to_json(m))).collect())
        }
    }
}

fn parse_json(text: &str) -> Json {
    value_to_json(&serde_json::from_str(text).expect("valid JSON"))
}

#[derive(Debug, Clone, PartialEq)]
struct ExampleProperties {
    example_property_1: String,
    example_property_2: Option<bool>,
}

impl FromResourceProperties for ExampleProperties {
    fn from_properties(v: Option<&Json>) -> Result<Self, DecodeError> {
        let members = match v {
            Some(Json::Obj(members)) => members,
            _ => return Err(DecodeError),
        };
        let mut example_property_1 = None;
        let mut example_property_2 = None;
        for (key, value) in members {
            match (key.as_str(), value) {
                ("ExampleProperty1", Json::Str(s)) => example_property_1 = Some(s.clone()),
                ("ExampleProperty2", Json::Bool(b)) => example_property_2 = Some(*b),
                _ => return Err(DecodeError),
            }
        }
        Ok(ExampleProperties {
            example_property_1: example_property_1.ok_or(DecodeError)?,
            example_property_2,
        })
    }
}

#[test]
fn cfnrequest_type_present() {
    let expected_request: CfnRequest<ExampleProperties> = CfnRequest::Create {
        request_id: "unique id for this create request".to_owned(),
        response_url: "pre-signed-url-for-create-response".to_owned(),
        resource_type: "Custom::MyCustomResourceType".to_owned(),
        logical_resource_id: "name of resource in template".to_owned(),
        stack_id: "arn:aws:cloudformation:us-east-2:namespace:stack/stack-name/guid".to_owned(),
        resource_properties: ExampleProperties {
            example_property_1: "example property 1".to_owned(),
            example_property_2: None,
        },
    };
    let actual_request: CfnRequest<ExampleProperties> = CfnRequest::decode(&parse_json(
        r#"{
            "RequestType" : "Create",
            "RequestId" : "unique id for this create request",
            "ResponseURL" : "pre-signed-url-for-create-response",
            "ResourceType" : "Custom::MyCustomResourceType",
            "LogicalResourceId" : "name of resource in template",
            "StackId" : "arn:aws:cloudformation:us-east-2:namespace:stack/stack-name/guid",
            "ResourceProperties": {
                "ExampleProperty1": "example property 1"
            }
        }"#,
    ))
    .unwrap();
    assert_eq!(expected_request, actual_request);
}

#[test]
#[should_panic]
fn cfnrequest_type_absent() {
    CfnRequest::<ExampleProperties>::decode(&parse_json(
        r#"{
            "RequestType" : "Create",
            "RequestId" : "unique id for this create request",
            "ResponseURL" : "pre-signed-url-for-create-response",
            "ResourceType" : "Custom::MyCustomResourceType",
            "LogicalResourceId" : "name of resource in template",
            "StackId" : "arn:aws:cloudformation:us-east-2:namespace:stack/stack-name/guid"
        }"#,
    ))
    .unwrap();
}

#[test]
#[should_panic]
fn cfnrequest_type_malformed() {
    CfnRequest::<ExampleProperties>::decode(&parse_json(
        r#"{
            "RequestType" : "Create",
            "RequestId" : "unique id for this create request",
            "ResponseURL" : "pre-signed-url-for-create-response",
            "ResourceType" : "Custom::MyCustomResourceType",
            "LogicalResourceId" : "name of resource in template",
            "StackId" : "arn:aws:cloudformation:us-east-2:namespace:stack/stack-name/guid",
            "ResourceProperties": {
                "UnknownProperty": null
            }
        }"#,
    ))
    .unwrap();
}

#[test]
fn cfnrequest_type_option_present() {
    let expected_request: CfnRequest<Option<ExampleProperties>> = CfnRequest::Create {
        request_id: "unique id for this create request".to_owned(),
        response_url: "pre-signed-url-for-create-response".to_owned(),
        resource_type: "Custom::MyCustomResourceType".to_owned(),
        logical_resource_id: "name of resource in template".to_owned(),
        stack_id: "arn:aws:cloudformation:us-east-2:namespace:stack/stack-name/guid".to_owned(),
        resource_properties: Some(ExampleProperties {
            example_property_1: "example property 1".to_owned(),
            example_property_2: None,
        }),
    };
    let actual_request: CfnRequest<Option<ExampleProperties>> = CfnRequest::decode(&parse_json(
        r#"{
            "RequestType" : "Create",
            "RequestId" : "unique id for this create request",
            "ResponseURL" : "pre-signed-url-for-create-response",
            "ResourceType" : "Custom::MyCustomResourceType",
            "LogicalResourceId" : "name of resource in template",
            "StackId" : "arn:aws:cloudformation:us-east-2:namespace:stack/stack-name/guid",
            "ResourceProperties": {
                "ExampleProperty1": "example property 1"
            }
        }"#,
    ))
    .unwrap();
    assert_eq!(expected_request, actual_request);
}

#[test]
fn cfnrequest_type_option_absent() {
    let expected_request: CfnRequest<Option<ExampleProperties>> = CfnRequest::Create {
        request_id: "unique id for this create request".to_owned(),
        response_url: "pre-signed-url-for-create-response".to_owned(),
        resource_type: "Custom::MyCustomResourceType".to_owned(),
        logical_resource_id: "name of resource in template".to_owned(),
        stack_id: "arn:aws:cloudformation:us-east-2:namespace:stack/stack-name/guid".to_owned(),
        resource_properties: None,
    };
    let actual_request: CfnRequest<Option<ExampleProperties>> = CfnRequest::decode(&parse_json(
        r#"{
            "RequestType" : "Create",
            "RequestId" : "unique id for this create request",
            "ResponseURL" : "pre-signed-url-for-create-response",
            "ResourceType" : "Custom::MyCustomResourceType",
            "LogicalResourceId" : "name of resource in template",
            "StackId" : "arn:aws:cloudformation:us-east-2:namespace:stack/stack-name/guid"
        }"#,
    ))
    .unwrap();
    assert_eq!(expected_request, actual_request);
}

#[test]
#[should_panic]
fn cfnrequest_type_option_malformed() {
    CfnRequest::<Option<ExampleProperties>>::decode(&parse_json(
        r#"{
            "RequestType" : "Create",
            "RequestId" : "unique id for this create request",
            "ResponseURL" : "pre-signed-url-for-create-response",
            "ResourceType" : "Custom::MyCustomResourceType",
            "LogicalResourceId" : "name of resource in template",
            "StackId" : "arn:aws:cloudformation:us-east-2:namespace:stack/stack-name/guid",
            "ResourceProperties": {
                "UnknownProperty": null
            }
        }"#,
    ))
    .unwrap();
}

#[test]
fn cfnrequest_type_option_unit() {
    let expected_request: CfnRequest<Option<()>> = CfnRequest::Create {
        request_id: "unique id for this create request".to_owned(),
        response_url: "pre-signed-url-for-create-response".to_owned(),
        resource_type: "Custom::MyCustomResourceType".to_owned(),
        logical_resource_id: "name of resource in template".to_owned(),
        stack_id: "arn:aws:cloudformation:us-east-2:namespace:stack/stack-name/guid".to_owned(),
        resource_properties: None,
    };
    let mut actual_request: CfnRequest<Option<()>> = CfnRequest::decode(&parse_json(
        r#"{
            "RequestType" : "Create",
            "RequestId" : "unique id for this create request",
            "ResponseURL" : "pre-signed-url-for-create-response",
            "ResourceType" : "Custom::MyCustomResourceType",
            "LogicalResourceId" : "name of resource in template",
            "StackId" : "arn:aws:cloudformation:us-east-2:namespace:stack/stack-name/guid",
            "ResourceProperties" : null
        }"#,
    ))
    .unwrap();
    assert_eq!(expected_request, actual_request);
    actual_request = CfnRequest::decode(&parse_json(
        r#"{
            "RequestType" : "Create",
            "RequestId" : "unique id for this create request",
            "ResponseURL" : "pre-signed-url-for-create-response",
            "ResourceType" : "Custom::MyCustomResourceType",
            "LogicalResourceId" : "name of resource in template",
            "StackId" : "arn:aws:cloudformation:us-east-2:namespace:stack/stack-name/guid"
        }"#,
    ))
    .unwrap();
    assert_eq!(expected_request, actual_request);
}

#[test]
#[should_panic]
fn cfnrequest_type_option_unit_data_provided() {
    CfnRequest::<Option<()>>::decode(&parse_json(
        r#"{
            "RequestType" : "Create",
            "RequestId" : "unique id for this create request",
            "ResponseURL" : "pre-signed-url-for-create-response",
            "ResourceType" : "Custom::MyCustomResourceType",
            "LogicalResourceId" : "name of resource in template",
            "StackId" : "arn:aws:cloudformation:us-east-2:namespace:stack/stack-name/guid",
            "ResourceProperties" : {
                "key1" : "string",
                "key2" : [ "list" ],
                "key3" : { "key4" : "map" }
            }
        }"#,
    ))
    .unwrap();
}

#[test]
fn cfnrequest_type_ignored() {
    let expected_request: CfnRequest<Ignored> = CfnRequest::Create {
        request_id: "unique id for this create request".to_owned(),
        response_url: "pre-signed-url-for-create-response".to_owned(),
        resource_type: "Custom::MyCustomResourceType".to_owned(),
        logical_resource_id: "name of resource in template".to_owned(),
        stack_id: "arn:aws:cloudformation:us-east-2:namespace:stack/stack-name/guid".to_owned(),
        resource_properties: Ignored,
    };
    let mut actual_request: CfnRequest<Ignored> = CfnRequest::decode(&parse_json(
        r#"{
            "RequestType" : "Create",
            "RequestId" : "unique id for this create request",
            "ResponseURL" : "pre-signed-url-for-create-response",
            "ResourceType" : "Custom::MyCustomResourceType",
            "LogicalResourceId" : "name of resource in template",
            "StackId" : "arn:aws:cloudformation:us-east-2:namespace:stack/stack-name/guid",
            "ResourceProperties" : {
                "key1" : "string",
                "key2" : [ "list" ],
                "key3" : { "key4" : "map" }
            }
        }"#,
    ))
    .unwrap();
    assert_eq!(expected_request, actual_request);
    actual_request = CfnRequest::decode(&parse_json(
        r#"{
            "RequestType" : "Create",
            "RequestId" : "unique id for this create request",
            "ResponseURL" : "pre-signed-url-for-create-response",
            "ResourceType" : "Custom::MyCustomResourceType",
            "LogicalResourceId" : "name of resource in template",
            "StackId" : "arn:aws:cloudformation:us-east-2:namespace:stack/stack-name/guid"
        }"#,
    ))
    .unwrap();
    assert_eq!(expected_request, actual_request);
}

#[derive(Debug, Clone, PartialEq)]
struct KeyedProperties {
    key1: String,
    key2: Vec<String>,
    key3: Json,
}

impl FromResourceProperties for KeyedProperties {
    fn from_properties(v: Option<&Json>) -> Result<Self, DecodeError> {
        let members = match v {
            Some(Json::Obj(members)) => members,
            _ => return Err(DecodeError),
        };
        let mut key1 = None;
        let mut key2 = None;
        let mut key3 = None;
        for (key, value) in members {
            match (key.as_str(), value) {
                ("key1", Json::Str(s)) => key1 = Some(s.clone()),
                ("key2", Json::Arr(items)) => {
                    let mut list = Vec::new();
                    for item in items {
                        match item {
                            Json::Str(s) => list.push(s.clone()),
                            _ => return Err(DecodeError),
                        }
                    }
                    key2 = Some(list);
                }
                ("key3", value) => key3 = Some(value.clone()),
                _ => return Err(DecodeError),
            }
        }
        Ok(KeyedProperties {
            key1: key1.ok_or(DecodeError)?,
            key2: key2.ok_or(DecodeError)?,
            key3: key3.ok_or(DecodeError)?,
        })
    }
}

#[test]
fn cfnrequest_create_example() {
    let expected_request = CfnRequest::Create {
        request_id: "unique id for this create request".to_owned(),
        response_url: "pre-signed-url-for-create-response".to_owned(),
        resource_type: "Custom::MyCustomResourceType".to_owned(),
        logical_resource_id: "name of resource in template".to_owned(),
        stack_id: "arn:aws:cloudformation:us-east-2:namespace:stack/stack-name/guid".to_owned(),
        resource_properties: KeyedProperties {
            key1: "string".to_owned(),
            key2: vec!["list".to_owned()],
            key3: parse_json(r#"{ "key4": "map" }"#),
        },
    };

    let actual_request = CfnRequest::decode(&parse_json(
        r#"{
            "RequestType" : "Create",
            "RequestId" : "unique id for this create request",
            "ResponseURL" : "pre-signed-url-for-create-response",
            "ResourceType" : "Custom::MyCustomResourceType",
            "LogicalResourceId" : "name of resource in template",
            "StackId" : "arn:aws:cloudformation:us-east-2:namespace:stack/stack-name/guid",
            "ResourceProperties" : {
                "key1" : "string",
                "key2" : [ "list" ],
                "key3" : { "key4" : "map" }
            }
        }"#,
    ))
    .unwrap();

    assert_eq!(expected_request, actual_request);
}

#[test]
fn cfnrequest_delete_example() {
    let expected_request = CfnRequest::Delete {
        request_id: "unique id for this delete request".to_owned(),
        response_url: "pre-signed-url-for-delete-response".to_owned(),
        resource_type: "Custom::MyCustomResourceType".to_owned(),
        logical_resource_id: "name of resource in template".to_owned(),
        stack_id: "arn:aws:cloudformation:us-east-2:namespace:stack/stack-name/guid".to_owned(),
        physical_resource_id: "custom resource provider-defined physical id".to_owned(),
        resource_properties: KeyedProperties {
            key1: "string".to_owned(),
            key2: vec!["list".to_owned()],
            key3: parse_json(r#"{ "key4": "map" }"#),
        },
    };

    let actual_request = CfnRequest::decode(&parse_json(
        r#"{
            "RequestType" : "Delete",
            "RequestId" : "unique id for this delete request",
            "ResponseURL" : "pre-signed-url-for-delete-response",
            "ResourceType" : "Custom::MyCustomResourceType",
            "LogicalResourceId" : "name of resource in template",
            "StackId" : "arn:aws:cloudformation:us-east-2:namespace:stack/stack-name/guid",
            "PhysicalResourceId" : "custom resource provider-defined physical id",
            "ResourceProperties" : {
                "key1" : "string",
                "key2" : [ "list" ],
                "key3" : { "key4" : "map" }
            }
        }"#,
    ))
    .unwrap();

    assert_eq!(expected_request, actual_request);
}

#[test]
fn cfnrequest_update_example() {
    let expected_request = CfnRequest::Update {
        request_id: "unique id for this update request".to_owned(),
        response_url: "pre-signed-url-for-update-response".to_owned(),
        resource_type: "Custom::MyCustomResourceType".to_owned(),
        logical_resource_id: "name of resource in template".to_owned(),
        stack_id: "arn:aws:cloudformation:us-east-2:namespace:stack/stack-name/guid".to_owned(),
        physical_resource_id: "custom resource provider-defined physical id".to_owned(),
        resource_properties: KeyedProperties {
            key1: "new-string".to_owned(),
            key2: vec!["new-list".to_owned()],
            key3: parse_json(r#"{ "key4": "new-map" }"#),
        },
        old_resource_properties: KeyedProperties {
            key1: "string".to_owned(),
            key2: vec!["list".to_owned()],
            key3: parse_json(r#"{ "key4": "map" }"#),
        },
    };

    let actual_request: CfnRequest<KeyedProperties> = CfnRequest::decode(&parse_json(
        r#"{
            "RequestType" : "Update",
            "RequestId" : "unique id for this update request",
            "ResponseURL" : "pre-signed-url-for-update-response",
            "ResourceType" : "Custom::MyCustomResourceType",
            "LogicalResourceId" : "name of resource in template",
            "StackId" : "arn:aws:cloudformation:us-east-2:namespace:stack/stack-name/guid",
            "PhysicalResourceId" : "custom resource provider-defined physical id",
            "ResourceProperties" : {
                "key1" : "new-string",
                "key2" : [ "new-list" ],
                "key3" : { "key4" : "new-map" }
            },
            "OldResourceProperties" : {
                "key1" : "string",
                "key2" : [ "list" ],
                "key3" : { "key4" : "map" }
            }
        }"#,
    ))
    .unwrap();

    assert_eq!(expected_request, actual_request);
}

/// A missing `RequestType` member is a decode error.
#[test]
fn decode_rejects_missing_discriminant() {
    let r = CfnRequest::<Ignored>::decode(&parse_json(
        r#"{
            "RequestId" : "id",
            "ResponseURL" : "url",
            "ResourceType" : "type",
            "LogicalResourceId" : "logical",
            "StackId" : "stack"
        }"#,
    ));
    assert_eq!(r, Err(DecodeError));
}

/// An unrecognized `RequestType` member is a decode error.
#[test]
fn decode_rejects_unknown_discriminant() {
    let r = CfnRequest::<Ignored>::decode(&parse_json(
        r#"{
            "RequestType" : "Replace",
            "RequestId" : "id",
            "ResponseURL" : "url",
            "ResourceType" : "type",
            "LogicalResourceId" : "logical",
            "StackId" : "stack"
        }"#,
    ));
    assert_eq!(r, Err(DecodeError));
}

/// A non-string identity field is a decode error.
#[test]
fn decode_rejects_non_string_identity_field() {
    let r = CfnRequest::<Ignored>::decode(&parse_json(
        r#"{
            "RequestType" : "Create",
            "RequestId" : 7,
            "ResponseURL" : "url",
            "ResourceType" : "type",
            "LogicalResourceId" : "logical",
            "StackId" : "stack"
        }"#,
    ));
    assert_eq!(r, Err(DecodeError));
}

/// A `Delete` envelope without a `PhysicalResourceId` member is a decode
/// error.
#[test]
fn decode_rejects_delete_without_physical_id() {
    let r = CfnRequest::<Ignored>::decode(&parse_json(
        r#"{
            "RequestType" : "Delete",
            "RequestId" : "id",
            "ResponseURL" : "url",
            "ResourceType" : "type",
            "LogicalResourceId" : "logical",
            "StackId" : "stack"
        }"#,
    ));
    assert_eq!(r, Err(DecodeError));
}

/// An envelope that is not a JSON object is a decode error.
#[test]
fn decode_rejects_non_object_envelope() {
    let r = CfnRequest::<Ignored>::decode(&parse_json(r#""just a string""#));
    assert_eq!(r, Err(DecodeError));
}
