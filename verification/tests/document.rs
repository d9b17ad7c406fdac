use autorust_openapi::audit::ignored_keys;
use autorust_openapi::binding::Binding;
use autorust_openapi::error::{Expected, Reason, Segment};
use autorust_openapi::info::Info;
use autorust_openapi::json::Kind;
use autorust_openapi::openapi::{OpenAPI, Spec};
use autorust_openapi::operation::Operation;
use autorust_openapi::parameter::Parameter;
use autorust_openapi::paths::PathItem;
use autorust_openapi::reference::ReferenceOr;
use autorust_openapi::schema::{DataType, Scheme};
use autorust_openapi::security::Security;
use autorust_openapi::text::{from_slice, from_slice_with_ignored, from_str, to_string, ReadError};
use serde_json::Value;

const PETSTORE_MINIMAL: &str = r##"{
  "swagger": "2.0",
  "info": {
    "version": "1.0.0",
    "title": "Swagger Petstore",
    "description": "A sample API that uses a petstore as an example",
    "termsOfService": "http://swagger.io/terms/",
    "contact": { "name": "Swagger API Team" },
    "license": { "name": "MIT" }
  },
  "host": "petstore.swagger.io",
  "basePath": "/api",
  "schemes": [ "http" ],
  "consumes": [ "application/json" ],
  "produces": [ "application/json" ],
  "paths": {
    "/pets": {
      "get": {
        "description": "Returns all pets from the system that the user has access to",
        "produces": [ "application/json" ],
        "responses": {
          "200": {
            "description": "A list of pets.",
            "schema": { "type": "array", "items": { "$ref": "#/definitions/Pet" } }
          }
        }
      }
    }
  },
  "definitions": {
    "Pet": {
      "type": "object",
      "required": [ "id", "name" ],
      "properties": {
        "id": { "type": "integer", "format": "int64" },
        "name": { "type": "string" },
        "tag": { "type": "string" }
      }
    }
  }
}"##;

const PETSTORE: &str = r##"{
  "swagger": "2.0",
  "info": {
    "version": "1.0.0",
    "title": "Swagger Petstore",
    "license": { "name": "MIT", "url": "http://opensource.org/licenses/MIT" },
    "contact": { "name": "Team", "url": "http://swagger.io", "email": "team@swagger.io" }
  },
  "host": "petstore.swagger.io",
  "basePath": "/v1",
  "schemes": [ "http", "https" ],
  "consumes": [ "application/json" ],
  "produces": [ "application/json" ],
  "tags": [
    { "name": "pets", "description": "Everything about pets",
      "externalDocs": { "description": "find more", "url": "http://swagger.io" } }
  ],
  "externalDocs": { "description": "find more info here", "url": "https://swagger.io/about" },
  "paths": {
    "/pets": {
      "get": {
        "summary": "List all pets",
        "operationId": "listPets",
        "tags": [ "pets" ],
        "parameters": [
          { "name": "limit", "in": "query", "description": "How many items to return",
            "required": false, "type": "integer", "format": "int32", "maximum": 100, "minimum": 1 },
          { "name": "tags", "in": "query", "type": "array", "items": { "type": "string" },
            "collectionFormat": "csv", "uniqueItems": true, "default": [] }
        ],
        "responses": {
          "200": {
            "description": "An paged array of pets",
            "headers": { "x-next": { "type": "string", "description": "A link to the next page" } },
            "schema": { "$ref": "#/definitions/Pets" }
          },
          "default": { "description": "unexpected error", "schema": { "$ref": "#/definitions/Error" } }
        }
      },
      "post": {
        "summary": "Create a pet",
        "operationId": "createPets",
        "tags": [ "pets" ],
        "parameters": [ { "$ref": "#/parameters/Body" } ],
        "responses": { "201": { "description": "Null response" } },
        "deprecated": true
      },
      "parameters": [
        { "name": "traceId", "in": "header", "type": "string", "pattern": "^[a-f0-9]+$",
          "minLength": 8, "maxLength": 32 }
      ]
    },
    "/pets/{petId}": { "$ref": "#/paths/~1pets" }
  },
  "parameters": {
    "Body": { "name": "pet", "in": "body", "required": true, "schema": { "$ref": "#/definitions/Pet" } }
  },
  "responses": {
    "NotFound": { "description": "not found" }
  },
  "definitions": {
    "Pet": {
      "required": [ "id", "name" ],
      "properties": {
        "name": { "type": "string" },
        "id": { "type": "integer", "format": "int64", "readOnly": true },
        "tag": { "type": "string", "enum": [ "cat", "dog" ], "default": "cat" },
        "weight": { "type": "number", "minimum": 0.5, "exclusiveMinimum": true, "multipleOf": 0.5 }
      }
    },
    "Pets": { "type": "array", "items": { "$ref": "#/definitions/Pet" }, "maxItems": 100 },
    "Error": {
      "allOf": [ { "$ref": "#/definitions/Base" }, { "required": [ "code" ], "properties": { "code": { "type": "integer" } } } ],
      "additionalProperties": { "type": "string" }
    }
  },
  "securityDefinitions": {
    "key": { "type": "apiKey", "name": "api_key", "in": "header" },
    "login": { "type": "basic", "description": "by name and password" }
  },
  "security": [ { "key": [] } ]
}"##;

const AZURE: &str = r##"{
  "swagger": "2.0",
  "info": { "title": "AVS", "description": "Azure VMware Solution API", "version": "2020-03-20" },
  "host": "management.azure.com",
  "schemes": [ "https" ],
  "consumes": [ "application/json" ],
  "produces": [ "application/json" ],
  "security": [ { "azure_auth": [ "user_impersonation" ] } ],
  "securityDefinitions": {
    "azure_auth": {
      "type": "oauth2",
      "authorizationUrl": "https://login.microsoftonline.com/common/oauth2/authorize",
      "flow": "implicit",
      "description": "Azure Active Directory OAuth2 Flow.",
      "scopes": { "user_impersonation": "impersonate your user account", "admin": "all of it" }
    }
  },
  "paths": {
    "/subscriptions/{subscriptionId}/privateClouds": {
      "get": {
        "tags": [ "PrivateClouds" ],
        "operationId": "PrivateClouds_List",
        "parameters": [
          { "$ref": "#/parameters/SubscriptionId", "description": "the subscription" },
          { "name": "api-version", "in": "query", "required": true, "type": "string",
            "x-ms-parameter-location": "client", "x-ms-client-name": "apiVersion",
            "x-ms-skip-url-encoding": true, "x-ms-client-request-id": false,
            "x-ms-parameter-grouping": { "name": "group", "postfix": "Options" },
            "x-ms-enum": { "name": "Versions", "modelAsString": true,
              "values": [ { "value": "2020-03-20", "name": "Latest" }, { "value": 1 } ] },
            "enum": [ "2020-03-20" ], "allowEmptyValue": false }
        ],
        "responses": {
          "200": { "description": "ok", "schema": { "$ref": "#/definitions/PrivateCloudList" } },
          "default": { "description": "Error", "schema": { "$ref": "#/definitions/CloudError" } }
        },
        "x-ms-pageable": { "nextLinkName": "nextLink" },
        "x-ms-examples": {
          "PrivateClouds_List": { "$ref": "./examples/PrivateClouds_List.json" },
          "Inline": { "responses": { "200": {} }, "x-ms-examples": { "Deeper": { "$ref": "d.json" } } }
        }
      },
      "put": {
        "operationId": "PrivateClouds_CreateOrUpdate",
        "x-ms-long-running-operation": true,
        "x-ms-long-running-operation-options": { "final-state-via": "location" },
        "x-ms-pageable": { "nextLinkName": null },
        "responses": { "200": {}, "201": {} }
      }
    }
  },
  "definitions": {
    "PrivateCloud": {
      "x-ms-azure-resource": true,
      "properties": {
        "sku": { "$ref": "#/definitions/Sku", "readOnly": true, "title": "the sku" },
        "properties": { "$ref": "#/definitions/PrivateCloudProperties", "x-ms-client-flatten": true },
        "password": { "type": "string", "x-ms-secret": true, "x-ms-mutability": [ "create", "update" ] },
        "state": { "type": "string", "enum": [ "Succeeded", "Failed" ],
          "x-ms-enum": { "name": "State", "modelAsString": true } },
        "external": { "type": "object", "x-ms-external": true }
      }
    }
  },
  "parameters": {
    "SubscriptionId": { "name": "subscriptionId", "in": "path", "required": true, "type": "string" }
  }
}"##;

fn documents() -> Vec<&'static str> {
    vec![PETSTORE_MINIMAL, PETSTORE, AZURE]
}

fn assert_deserialize_without_ignored(documents: Vec<&str>) {
    for document in documents {
        let (_spec, ignored) = from_slice_with_ignored::<Spec>(document.as_bytes()).unwrap();
        assert_eq!(0, ignored.len(), "{:?}", ignored);
    }
}

fn assert_roundtrip_eq(documents: Vec<&str>) {
    for document in documents {
        let spec: Spec = from_slice(document.as_bytes()).unwrap();
        let written = to_string(&spec);
        let again: Spec = from_str(&written).unwrap();
        assert_eq!(spec, again);
        assert_eq!(written, to_string(&again));
    }
}

#[test]
fn can_deserialize_openapi_spec_examples() {
    assert_deserialize_without_ignored(vec![PETSTORE_MINIMAL, PETSTORE]);
}

#[test]
fn can_roundtrip_openapi_spec_examples() {
    assert_roundtrip_eq(vec![PETSTORE_MINIMAL, PETSTORE]);
}

#[test]
fn can_deserialize_azure_rest_api_specs() {
    assert_deserialize_without_ignored(vec![AZURE]);
}

#[test]
fn can_roundtrip_azure_rest_api_specs() {
    assert_roundtrip_eq(vec![AZURE]);
}

#[test]
fn can_deserialize() {
    for document in documents() {
        let _spec: Spec = from_slice(document.as_bytes()).unwrap();
    }
}

#[test]
fn a_minimal_document() {
    let json = r#"{"swagger":"2.0","info":{"title":"t"},"paths":{}}"#;
    let spec = from_str::<Spec>(json).unwrap();
    assert_eq!(spec.swagger, "2.0");
    assert_eq!(spec.info, Info { title: Some("t".into()), ..Default::default() });
    assert_eq!(spec.paths.len(), 0);
    assert_eq!(to_string(&spec), json);
}

#[test]
fn the_paths_are_written_also_where_the_document_has_none() {
    let spec = from_str::<Spec>(r#"{"swagger":"2.0","info":{}}"#).unwrap();
    assert_eq!(spec.paths.len(), 0);
    assert_eq!(to_string(&spec), r#"{"swagger":"2.0","info":{},"paths":{}}"#);
}

#[test]
fn the_version_is_not_held_to_two() {
    let spec = from_str::<Spec>(r#"{"swagger":"3.1","info":{}}"#).unwrap();
    assert_eq!(spec.swagger, "3.1");
}

#[test]
fn a_document_asks_for_swagger_and_info() {
    match from_str::<Spec>(r#"{"info":{}}"#) {
        Err(ReadError::Decode(e)) => {
            assert_eq!(e.reason, Reason::MissingField { key: "swagger".into() });
            assert!(e.path.is_empty());
        }
        other => panic!("{:?}", other),
    }
    match from_str::<Spec>(r#"{"swagger":"2.0"}"#) {
        Err(ReadError::Decode(e)) => {
            assert_eq!(e.reason, Reason::MissingField { key: "info".into() });
        }
        other => panic!("{:?}", other),
    }
    match from_str::<Spec>(r#"{"swagger":"2.0","info":null}"#) {
        Err(ReadError::Decode(e)) => {
            assert_eq!(
                e.reason,
                Reason::TypeMismatch { expected: Expected::Object, found: Kind::Null }
            );
            assert_eq!(e.path_string(), "info");
        }
        other => panic!("{:?}", other),
    }
}

#[test]
fn a_text_that_is_not_json_is_a_syntax_error() {
    match from_str::<Spec>("{\n  \"swagger\": ") {
        Err(ReadError::Syntax { line, column, message }) => {
            assert_eq!(line, 2);
            assert!(column > 0);
            assert!(message.contains("EOF"), "{}", message);
        }
        other => panic!("{:?}", other),
    }
    assert!(matches!(from_str::<Spec>("{} trailing"), Err(ReadError::Syntax { .. })));
    assert!(matches!(from_slice::<Spec>(&[0xff, 0xfe]), Err(ReadError::Syntax { .. })));
}

#[test]
fn an_operation_asks_for_its_responses() {
    match from_str::<Operation>(r#"{"operationId":"a"}"#) {
        Err(ReadError::Decode(e)) => {
            assert_eq!(e.reason, Reason::MissingField { key: "responses".into() });
        }
        other => panic!("{:?}", other),
    }
    let o = from_str::<Operation>(r#"{"responses":{}}"#).unwrap();
    assert_eq!(o.responses.len(), 0);
    assert_eq!(to_string(&o), r#"{"responses":{}}"#);
}

#[test]
fn a_pageable_with_a_null_link_name_is_read_inside_an_operation() {
    let o = from_str::<Operation>(r#"{"responses":{},"x-ms-pageable":{"nextLinkName":null}}"#).unwrap();
    let p = o.x_ms_pageable.clone().unwrap();
    assert_eq!(p.next_link_name, None);
    assert_eq!(to_string(&o), r#"{"responses":{},"x-ms-pageable":{"nextLinkName":null}}"#);
}

#[test]
fn a_parameter_asks_for_name_and_in() {
    match from_str::<Parameter>(r#"{"in":"query"}"#) {
        Err(ReadError::Decode(e)) => assert_eq!(e.reason, Reason::MissingField { key: "name".into() }),
        other => panic!("{:?}", other),
    }
    match from_str::<Parameter>(r#"{"name":"n"}"#) {
        Err(ReadError::Decode(e)) => assert_eq!(e.reason, Reason::MissingField { key: "in".into() }),
        other => panic!("{:?}", other),
    }
    let p = from_str::<Parameter>(r#"{"name":"n","in":"anywhere","maximum":"kept","minimum":null}"#).unwrap();
    assert_eq!(p.in_, "anywhere");
    assert_eq!(p.maximum, Some(Value::from("kept")));
    assert_eq!(p.minimum, Some(Value::Null));
    assert_eq!(to_string(&p), r#"{"name":"n","in":"anywhere","maximum":"kept","minimum":null}"#);
}

#[test]
fn mappings_keep_the_order_of_the_document() {
    let json = r##"{"swagger":"2.0","info":{},"paths":{"/z":{},"/a":{"get":{"responses":{"500":{},"200":{"headers":{"Y":{"type":"string"},"B":{"type":"string"}}},"default":{}}}},"/m":{}},"definitions":{"Zed":{"properties":{"q":{},"c":{},"k":{}}},"Abe":{}},"responses":{"r2":{},"r1":{}},"securityDefinitions":{"s":{"type":"oauth2","flow":"application","authorizationUrl":"u","scopes":{"write":"w","admin":"a","read":"r"}}}}"##;
    let spec = from_str::<Spec>(json).unwrap();
    let keys = |n: usize, at: &dyn Fn(usize) -> String| (0..n).map(|i| at(i)).collect::<Vec<_>>();
    assert_eq!(keys(spec.paths.len(), &|i| spec.paths.key_at(i).clone()), ["/z", "/a", "/m"]);
    assert_eq!(
        keys(spec.definitions.len(), &|i| spec.definitions.key_at(i).clone()),
        ["Zed", "Abe"]
    );
    assert_eq!(keys(spec.responses.len(), &|i| spec.responses.key_at(i).clone()), ["r2", "r1"]);
    match spec.definitions.get("Zed") {
        Some(ReferenceOr::Item(s)) => {
            assert_eq!(
                keys(s.properties.len(), &|i| s.properties.key_at(i).clone()),
                ["q", "c", "k"]
            );
        }
        other => panic!("{:?}", other),
    }
    match spec.paths.get("/a") {
        Some(ReferenceOr::Item(PathItem { get: Some(get), .. })) => {
            assert_eq!(
                keys(get.responses.len(), &|i| get.responses.key_at(i).clone()),
                ["500", "200", "default"]
            );
            let ok = get.responses.get("200").unwrap();
            assert_eq!(keys(ok.headers.len(), &|i| ok.headers.key_at(i).clone()), ["Y", "B"]);
        }
        other => panic!("{:?}", other),
    }
    match spec.security_definitions.get("s") {
        Some(Security::Oauth2 { scopes, .. }) => {
            assert_eq!(
                keys(scopes.len(), &|i| scopes.key_at(i).clone()),
                ["write", "admin", "read"]
            );
        }
        other => panic!("{:?}", other),
    }
    assert_eq!(to_string(&spec), json);
}

#[test]
fn a_document_with_everything_at_its_default_is_written_without_those_keys() {
    let spec = OpenAPI { swagger: "2.0".into(), ..Default::default() };
    assert_eq!(to_string(&spec), r#"{"swagger":"2.0","info":{},"paths":{}}"#);
    assert_eq!(to_string(&PathItem::default()), "{}");
    assert_eq!(to_string(&Operation::default()), r#"{"responses":{}}"#);
}

#[test]
fn the_pieces_of_a_document_are_read_into_their_fields() {
    let spec = from_str::<Spec>(PETSTORE).unwrap();
    assert_eq!(spec.host.as_deref(), Some("petstore.swagger.io"));
    assert_eq!(spec.base_path.as_deref(), Some("/v1"));
    assert_eq!(spec.schemes, vec![Scheme::Http, Scheme::Https]);
    assert_eq!(spec.tags.len(), 1);
    assert_eq!(spec.external_docs.as_ref().unwrap().url.as_deref(), Some("https://swagger.io/about"));
    assert_eq!(spec.security.len(), 1);
    assert_eq!(spec.security[0].get("key"), Some(&Vec::<String>::new()));
    let pets = match spec.paths.get("/pets") {
        Some(ReferenceOr::Item(item)) => item,
        other => panic!("{:?}", other),
    };
    assert_eq!(pets.parameters.len(), 1);
    let get = pets.get.as_ref().unwrap();
    assert_eq!(get.operation_id.as_deref(), Some("listPets"));
    match &get.parameters[0] {
        ReferenceOr::Item(p) => {
            assert_eq!(p.name, "limit");
            assert_eq!(p.type_, Some(DataType::Integer));
            assert_eq!(p.required, Some(false));
            assert_eq!(p.maximum, Some(Value::from(100)));
        }
        other => panic!("{:?}", other),
    }
    assert_eq!(pets.post.as_ref().unwrap().deprecated, Some(true));
    assert!(matches!(spec.paths.get("/pets/{petId}"), Some(ReferenceOr::Reference { .. })));
    assert!(pets.put.is_none() && pets.delete.is_none() && pets.head.is_none());
}

#[test]
fn ignored_keys_are_named_by_their_paths() {
    let json = r##"{"swagger":"2.0","info":{"title":"t","x-logo":1},"x-top":true,"paths":{"/a":{"get":{"responses":{"200":{"examples":{},"schema":{"title":"T","properties":{"p":{"example":1,"allOf":[{},{"xml":{}}],"items":{"$ref":"r","format":"f"}}}}}},"parameters":[{"name":"n","in":"query"},{"name":"m","in":"query","x-extra":0}],"externalDocs":{}}}},"securityDefinitions":{"k":{"type":"basic","name":"unused"}},"definitions":{"D":{"additionalProperties":{"discriminator":"d"}}}}"##;
    let (spec, ignored) = from_slice_with_ignored::<Spec>(json.as_bytes()).unwrap();
    assert_eq!(spec.paths.len(), 1);
    assert_eq!(
        ignored,
        vec![
            "x-top",
            "info.x-logo",
            "paths./a.get.externalDocs",
            "paths./a.get.responses.200.examples",
            "paths./a.get.responses.200.schema.title",
            "paths./a.get.responses.200.schema.properties.p.example",
            "paths./a.get.responses.200.schema.properties.p.allOf.1.xml",
            "paths./a.get.responses.200.schema.properties.p.items.format",
            "paths./a.get.parameters.1.x-extra",
            "definitions.D.additionalProperties.discriminator",
            "securityDefinitions.k.name",
        ]
    );
    let tree = serde_json::from_str::<Value>(json).unwrap();
    let paths = ignored_keys::<Spec>(&tree);
    assert_eq!(paths.len(), 11);
    assert_eq!(paths[0], vec![Segment::Key("x-top".into())]);
    assert_eq!(
        paths[6],
        vec![
            Segment::Key("paths".into()),
            Segment::Key("/a".into()),
            Segment::Key("get".into()),
            Segment::Key("responses".into()),
            Segment::Key("200".into()),
            Segment::Key("schema".into()),
            Segment::Key("properties".into()),
            Segment::Key("p".into()),
            Segment::Key("allOf".into()),
            Segment::Index(1),
            Segment::Key("xml".into()),
        ]
    );
}

#[test]
fn what_is_written_holds_no_ignored_key() {
    for document in documents() {
        let spec = from_str::<Spec>(document).unwrap();
        assert!(ignored_keys::<Spec>(&spec.encode()).is_empty());
    }
}

#[test]
fn a_copy_of_an_operation_is_equal() {
    let spec = from_str::<Spec>(AZURE).unwrap();
    match spec.paths.get("/subscriptions/{subscriptionId}/privateClouds") {
        Some(ReferenceOr::Item(item)) => {
            let get = item.get.as_ref().unwrap();
            assert_eq!(&get.clone(), get);
            assert_eq!(get.x_ms_examples.as_ref().unwrap().len(), 2);
        }
        other => panic!("{:?}", other),
    }
    assert_eq!(spec.clone(), spec);
}
