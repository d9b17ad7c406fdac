use autorust_openapi::autorest::{
    MsEnum, MsEnumValue, MsLongRunningOperationOptions, MsLongRunningOperationOptionsFinalStateVia,
    MsMutability, MsPageable, MsParameterLocation,
};
use autorust_openapi::binding::Binding;
use autorust_openapi::error::{decimal_text, render_path, DecodeError, Expected, Reason, Segment};
use autorust_openapi::json::Kind;
use autorust_openapi::reference::ReferenceOr;
use autorust_openapi::schema::{DataType, Header, Response, Schema, Scheme};
use autorust_openapi::text::{from_str, to_string, ReadError};
use serde_json::Value;

fn rejected<T: std::fmt::Debug>(r: Result<T, ReadError>) -> DecodeError {
    match r {
        Err(ReadError::Decode(e)) => e,
        other => panic!("{:?}", other),
    }
}

#[test]
fn an_empty_object_is_the_default_schema() {
    let read = from_str::<Schema>("{}").unwrap();
    assert_eq!(read, Schema::default());
    assert_eq!(to_string(&read), "{}");
}

#[test]
fn defaults_are_left_out() {
    let json = r#"{"readOnly":false,"required":[],"properties":{},"allOf":[],"uniqueItems":false,"exclusiveMaximum":false,"exclusiveMinimum":false,"x-ms-client-flatten":false,"x-ms-secret":false,"x-ms-azure-resource":false,"x-ms-external":false,"x-ms-mutability":[],"enum":[],"description":null}"#;
    let read = from_str::<Schema>(json).unwrap();
    assert_eq!(read, Schema::default());
    assert_eq!(to_string(&read), "{}");
}

#[test]
fn a_schema_with_every_field() {
    let json = r##"{"description":"d","required":["a","b"],"properties":{"b":{"type":"string"},"a":{"$ref":"#/definitions/A"}},"additionalProperties":{"type":"integer"},"allOf":[{"$ref":"#/definitions/Base"},{"type":"object"}],"readOnly":true,"type":"object","format":"f","items":{"type":"number"},"default":{"k":[1,2]},"maximum":10,"exclusiveMaximum":true,"minimum":-2.5,"exclusiveMinimum":true,"maxLength":9,"minLength":1,"pattern":"^a$","maxItems":4,"minItems":2,"uniqueItems":true,"enum":["x","y"],"multipleOf":3,"x-ms-client-flatten":true,"x-ms-enum":{"name":"E","modelAsString":true,"values":[{"value":1,"description":"one","name":"One"}]},"x-ms-secret":true,"x-ms-azure-resource":true,"x-ms-mutability":["create","read","update"],"x-ms-external":true}"##;
    let read = from_str::<Schema>(json).unwrap();
    assert_eq!(read.description.as_deref(), Some("d"));
    assert_eq!(read.required, vec!["a".to_string(), "b".to_string()]);
    assert_eq!(read.properties.len(), 2);
    assert_eq!(read.properties.key_at(0), "b");
    assert_eq!(read.properties.key_at(1), "a");
    match read.properties.get("a") {
        Some(ReferenceOr::Reference { reference, .. }) => assert_eq!(reference, "#/definitions/A"),
        other => panic!("{:?}", other),
    }
    match read.properties.get("b") {
        Some(ReferenceOr::Item(s)) => assert_eq!(s.type_, Some(DataType::String)),
        other => panic!("{:?}", other),
    }
    match &*read.additional_properties {
        Some(ReferenceOr::Item(s)) => assert_eq!(s.type_, Some(DataType::Integer)),
        other => panic!("{:?}", other),
    }
    assert_eq!(read.all_of.len(), 2);
    assert!(read.read_only);
    assert_eq!(read.type_, Some(DataType::Object));
    match &*read.items {
        Some(ReferenceOr::Item(s)) => assert_eq!(s.type_, Some(DataType::Number)),
        other => panic!("{:?}", other),
    }
    assert_eq!(read.default, Some(serde_json::from_str::<Value>(r#"{"k":[1,2]}"#).unwrap()));
    assert_eq!(read.maximum.as_ref().and_then(|n| n.as_u64()), Some(10));
    assert_eq!(read.minimum.as_ref().and_then(|n| n.as_f64()), Some(-2.5));
    assert_eq!(read.multiple_of.as_ref().and_then(|n| n.as_u64()), Some(3));
    assert!(read.exclusive_maximum && read.exclusive_minimum && read.unique_items);
    assert_eq!((read.max_length, read.min_length), (Some(9), Some(1)));
    assert_eq!((read.max_items, read.min_items), (Some(4), Some(2)));
    assert_eq!(read.pattern.as_deref(), Some("^a$"));
    assert_eq!(read.enum_, vec!["x".to_string(), "y".to_string()]);
    assert_eq!(
        read.x_ms_enum,
        Some(MsEnum {
            name: "E".into(),
            model_as_string: true,
            values: vec![MsEnumValue {
                value: Value::from(1),
                description: Some("one".into()),
                name: Some("One".into())
            }],
        })
    );
    assert_eq!(
        read.x_ms_mutability,
        vec![MsMutability::Create, MsMutability::Read, MsMutability::Update]
    );
    assert!(read.x_ms_client_flatten && read.x_ms_secret && read.x_ms_azure_resource);
    assert!(read.x_ms_external);
    assert_eq!(to_string(&read), json);
    assert_eq!(from_str::<Schema>(&to_string(&read)).unwrap(), read);
}

#[test]
fn a_copy_of_a_schema_is_equal() {
    let json = r##"{"properties":{"a":{"allOf":[{"$ref":"#/x"}]}},"items":{"type":"string"},"maximum":1.5}"##;
    let read = from_str::<Schema>(json).unwrap();
    assert_eq!(read.clone(), read);
}

#[test]
fn a_schema_must_be_an_object() {
    let e = rejected(from_str::<Schema>("[]"));
    assert_eq!(e.reason, Reason::TypeMismatch { expected: Expected::Object, found: Kind::Array });
    assert!(e.path.is_empty());
    assert_eq!(e.path_string(), "");
}

#[test]
fn errors_carry_the_path() {
    let json = r#"{"properties":{"a":{"allOf":[{},{"items":{"maxLength":"long"}}]}}}"#;
    let e = rejected(from_str::<Schema>(json));
    assert_eq!(
        e.reason,
        Reason::TypeMismatch { expected: Expected::UnsignedInteger, found: Kind::String }
    );
    assert_eq!(
        e.path,
        vec![
            Segment::Key("properties".into()),
            Segment::Key("a".into()),
            Segment::Key("allOf".into()),
            Segment::Index(1),
            Segment::Key("items".into()),
            Segment::Key("maxLength".into()),
        ]
    );
    assert_eq!(e.path_string(), "properties.a.allOf.1.items.maxLength");
}

#[test]
fn lengths_are_unsigned_integers() {
    assert_eq!(from_str::<Schema>(r#"{"maxLength":0}"#).unwrap().max_length, Some(0));
    assert_eq!(
        from_str::<Schema>(r#"{"maxItems":18446744073709551615}"#).unwrap().max_items,
        Some(usize::MAX)
    );
    for json in [r#"{"minLength":-1}"#, r#"{"minLength":1.0}"#, r#"{"minLength":18446744073709551616}"#] {
        let e = rejected(from_str::<Schema>(json));
        assert_eq!(
            e.reason,
            Reason::TypeMismatch { expected: Expected::UnsignedInteger, found: Kind::Number }
        );
        assert_eq!(e.path, vec![Segment::Key("minLength".into())]);
    }
}

#[test]
fn shapes_are_checked() {
    let cases = [
        (r#"{"description":1}"#, "description", Expected::String, Kind::Number),
        (r#"{"readOnly":"yes"}"#, "readOnly", Expected::Boolean, Kind::String),
        (r#"{"readOnly":null}"#, "readOnly", Expected::Boolean, Kind::Null),
        (r#"{"required":{}}"#, "required", Expected::Array, Kind::Object),
        (r#"{"required":null}"#, "required", Expected::Array, Kind::Null),
        (r#"{"properties":[]}"#, "properties", Expected::Object, Kind::Array),
        (r#"{"maximum":"1"}"#, "maximum", Expected::Number, Kind::String),
        (r#"{"type":true}"#, "type", Expected::String, Kind::Boolean),
        (r#"{"additionalProperties":false}"#, "additionalProperties", Expected::Object, Kind::Boolean),
    ];
    for (json, key, expected, found) in cases {
        let e = rejected(from_str::<Schema>(json));
        assert_eq!(e.reason, Reason::TypeMismatch { expected, found }, "{}", json);
        assert_eq!(e.path, vec![Segment::Key(key.into())], "{}", json);
    }
}

#[test]
fn an_unknown_data_type_is_rejected() {
    let e = rejected(from_str::<Schema>(r#"{"type":"decimal"}"#));
    assert_eq!(e.reason, Reason::InvalidEnumValue { value: "decimal".into() });
    assert_eq!(e.path_string(), "type");
    let e = rejected(from_str::<Schema>(r#"{"x-ms-mutability":["read","write"]}"#));
    assert_eq!(e.reason, Reason::InvalidEnumValue { value: "write".into() });
    assert_eq!(e.path_string(), "x-ms-mutability.1");
}

#[test]
fn the_first_error_in_the_order_of_the_fields_is_reported() {
    let e = rejected(from_str::<Schema>(r#"{"type":1,"description":2}"#));
    assert_eq!(e.path_string(), "description");
}

#[test]
fn null_stands_for_an_absent_optional_field() {
    let read = from_str::<Schema>(r#"{"description":null,"items":null,"x-ms-enum":null,"maximum":null}"#)
        .unwrap();
    assert_eq!(read, Schema::default());
}

#[test]
fn a_default_of_null_is_kept() {
    let read = from_str::<Schema>(r#"{"default":null}"#).unwrap();
    assert_eq!(read.default, Some(Value::Null));
    assert_eq!(to_string(&read), r#"{"default":null}"#);
}

#[test]
fn unknown_keys_are_dropped() {
    let read = from_str::<Schema>(r#"{"title":"t","type":"string","x-unknown":{"a":1}}"#).unwrap();
    assert_eq!(to_string(&read), r#"{"type":"string"}"#);
}

#[test]
fn a_reference_wins_over_other_members() {
    let json = r##"{"type":"string","description":"d","$ref":"#/a","title":"t","readOnly":false,"x-ms-client-flatten":true,"format":"dropped","x-other":1}"##;
    let read = from_str::<ReferenceOr<Schema>>(json).unwrap();
    assert_eq!(
        read,
        ReferenceOr::Reference {
            reference: "#/a".into(),
            title: Some("t".into()),
            description: Some("d".into()),
            type_: Some(DataType::String),
            read_only: Some(false),
            x_ms_client_flatten: Some(true),
        }
    );
    assert_eq!(
        to_string(&read),
        r##"{"$ref":"#/a","title":"t","description":"d","type":"string","readOnly":false,"x-ms-client-flatten":true}"##
    );
}

#[test]
fn a_reference_must_be_a_text() {
    let e = rejected(from_str::<ReferenceOr<Schema>>(r#"{"$ref":5}"#));
    assert_eq!(e.reason, Reason::TypeMismatch { expected: Expected::String, found: Kind::Number });
    assert_eq!(e.path_string(), "$ref");
    let e = rejected(from_str::<ReferenceOr<Schema>>(r#"{"$ref":"a","title":5}"#));
    assert_eq!(e.path_string(), "title");
}

#[test]
fn constructors_of_references() {
    let r: ReferenceOr<Schema> = ReferenceOr::reference("a/b".to_string());
    assert_eq!(to_string(&r), r#"{"$ref":"a/b"}"#);
    let i = ReferenceOr::item(Schema { type_: Some(DataType::Boolean), ..Default::default() });
    assert_eq!(to_string(&i), r#"{"type":"boolean"}"#);
    let boxed = ReferenceOr::item(Box::new(Header { type_: "string".into(), ..Default::default() }));
    assert_eq!(
        boxed.unbox(),
        ReferenceOr::Item(Header { type_: "string".into(), format: None, description: None })
    );
    let boxed: ReferenceOr<Box<Header>> = ReferenceOr::reference("h".to_string());
    assert_eq!(boxed.unbox(), ReferenceOr::<Header>::reference("h".to_string()));
}

#[test]
fn a_header_asks_for_its_type() {
    let e = rejected(from_str::<Header>(r#"{"format":"int32"}"#));
    assert_eq!(e.reason, Reason::MissingField { key: "type".into() });
    let h = from_str::<Header>(r#"{"type":"integer","format":"int32","description":"d"}"#).unwrap();
    assert_eq!(to_string(&h), r#"{"type":"integer","format":"int32","description":"d"}"#);
}

#[test]
fn a_response_keeps_the_order_of_its_headers() {
    let json = r##"{"schema":{"$ref":"#/s"},"headers":{"X-B":{"type":"string"},"X-A":{"$ref":"#/h"}}}"##;
    let r = from_str::<Response>(json).unwrap();
    assert_eq!(r.description, None);
    assert_eq!(r.headers.key_at(0), "X-B");
    assert_eq!(r.headers.key_at(1), "X-A");
    assert_eq!(to_string(&r), json);
}

#[test]
fn names_of_the_enumerations() {
    for (v, n) in [(Scheme::Http, "http"), (Scheme::Https, "https"), (Scheme::Ws, "ws"), (Scheme::Wss, "wss")] {
        assert_eq!(v.as_str(), n);
        assert_eq!(Scheme::from_name(n), Some(v));
    }
    for (v, n) in [
        (DataType::String, "string"),
        (DataType::Number, "number"),
        (DataType::Integer, "integer"),
        (DataType::Boolean, "boolean"),
        (DataType::Array, "array"),
        (DataType::Object, "object"),
    ] {
        assert_eq!(v.as_str(), n);
        assert_eq!(DataType::from_name(n), Some(v));
    }
    for (v, n) in [(MsMutability::Create, "create"), (MsMutability::Read, "read"), (MsMutability::Update, "update")] {
        assert_eq!(v.as_str(), n);
        assert_eq!(MsMutability::from_name(n), Some(v));
    }
    for (v, n) in [
        (MsLongRunningOperationOptionsFinalStateVia::AzureAsyncOperation, "azure-async-operation"),
        (MsLongRunningOperationOptionsFinalStateVia::Location, "location"),
        (MsLongRunningOperationOptionsFinalStateVia::OriginalUri, "original-uri"),
    ] {
        assert_eq!(v.as_str(), n);
        assert_eq!(MsLongRunningOperationOptionsFinalStateVia::from_name(n), Some(v));
    }
    for (v, n) in [(MsParameterLocation::Client, "client"), (MsParameterLocation::Method, "method")] {
        assert_eq!(v.as_str(), n);
        assert_eq!(MsParameterLocation::from_name(n), Some(v));
    }
    assert_eq!(Scheme::from_name("HTTP"), None);
    assert_eq!(Scheme::default(), Scheme::Http);
    assert_eq!(
        MsLongRunningOperationOptionsFinalStateVia::default(),
        MsLongRunningOperationOptionsFinalStateVia::AzureAsyncOperation
    );
}

#[test]
fn pageable_writes_its_next_link_name_always() {
    let p = from_str::<MsPageable>(r#"{"nextLinkName":null}"#).unwrap();
    assert_eq!(p, MsPageable { item_name: None, next_link_name: None, operation_name: None });
    assert_eq!(to_string(&p), r#"{"nextLinkName":null}"#);
    let p = from_str::<MsPageable>(r#"{"itemName":"value","nextLinkName":"nextLink","operationName":"o"}"#)
        .unwrap();
    assert_eq!(p.next_link_name.as_deref(), Some("nextLink"));
    assert_eq!(to_string(&p), r#"{"itemName":"value","nextLinkName":"nextLink","operationName":"o"}"#);
}

#[test]
fn the_final_state_defaults_to_the_asynchronous_operation() {
    let o = from_str::<MsLongRunningOperationOptions>("{}").unwrap();
    assert_eq!(
        o.final_state_via,
        MsLongRunningOperationOptionsFinalStateVia::AzureAsyncOperation
    );
    assert_eq!(to_string(&o), r#"{"final-state-via":"azure-async-operation"}"#);
    let o = from_str::<MsLongRunningOperationOptions>(r#"{"final-state-via":"original-uri"}"#).unwrap();
    assert_eq!(o.final_state_via, MsLongRunningOperationOptionsFinalStateVia::OriginalUri);
}

#[test]
fn an_enum_value_without_a_value_holds_null() {
    let v = from_str::<MsEnumValue>(r#"{"name":"n"}"#).unwrap();
    assert_eq!(v.value, Value::Null);
    assert_eq!(to_string(&v), r#"{"value":null,"name":"n"}"#);
    let e = rejected(from_str::<MsEnum>(r#"{"values":[]}"#));
    assert_eq!(e.reason, Reason::MissingField { key: "name".into() });
}

#[test]
fn values_are_read_from_trees_and_written_as_trees() {
    let tree = serde_json::from_str::<Value>(r#"{"type":"array","items":{"type":"string"}}"#).unwrap();
    let read = Schema::decode(&tree).unwrap();
    assert_eq!(read.type_, Some(DataType::Array));
    assert_eq!(read.encode(), tree);
    assert_eq!(bool::decode(&Value::Bool(true)), Ok(true));
    assert_eq!(true.encode(), Value::Bool(true));
    assert_eq!(String::decode(&Value::from("a")), Ok("a".to_string()));
    assert_eq!("a".to_string().encode(), Value::from("a"));
    assert_eq!(usize::decode(&Value::from(7u64)), Ok(7));
    assert_eq!(7usize.encode(), Value::from(7u64));
    assert_eq!(
        Vec::<bool>::decode(&serde_json::from_str::<Value>("[true,false]").unwrap()),
        Ok(vec![true, false])
    );
    assert_eq!(vec![1usize, 2].encode(), serde_json::from_str::<Value>("[1,2]").unwrap());
    let e = Vec::<bool>::decode(&serde_json::from_str::<Value>("[true,1]").unwrap()).unwrap_err();
    assert_eq!(e.path, vec![Segment::Index(1)]);
    assert_eq!(e.reason, Reason::TypeMismatch { expected: Expected::Boolean, found: Kind::Number });
}

#[test]
fn positions_in_a_path_are_written_in_decimal() {
    for (n, text) in [(0usize, "0"), (7, "7"), (10, "10"), (109, "109"), (65536, "65536")] {
        assert_eq!(decimal_text(n), text);
    }
    assert_eq!(decimal_text(usize::MAX), usize::MAX.to_string());
    assert_eq!(render_path(&vec![]), "");
    assert_eq!(render_path(&vec![Segment::Index(12)]), "12");
    assert_eq!(
        render_path(&vec![Segment::Key("a".into()), Segment::Index(120), Segment::Key("b.c".into())]),
        "a.120.b.c"
    );
    let many = format!(r#"{{"enum":[{}1]}}"#, r#""x","#.repeat(11));
    let e = rejected(from_str::<Schema>(&many));
    assert_eq!(e.path, vec![Segment::Key("enum".into()), Segment::Index(11)]);
    assert_eq!(e.path_string(), "enum.11");
}

#[test]
fn the_kind_of_a_value() {
    for (json, kind) in [
        ("null", Kind::Null),
        ("true", Kind::Boolean),
        ("1.5", Kind::Number),
        ("\"a\"", Kind::String),
        ("[]", Kind::Array),
        ("{}", Kind::Object),
    ] {
        assert_eq!(Kind::of(&serde_json::from_str::<Value>(json).unwrap()), kind);
    }
}

#[test]
fn the_parameter_location_has_its_names() {
    assert_eq!(to_string(&MsParameterLocation::Method), "\"method\"");
    assert_eq!(from_str::<MsParameterLocation>("\"client\"").unwrap(), MsParameterLocation::Client);
    let e = rejected(from_str::<MsParameterLocation>("\"Client\""));
    assert_eq!(e.reason, Reason::InvalidEnumValue { value: "Client".into() });
    let e = rejected(from_str::<MsParameterLocation>("3"));
    assert_eq!(e.reason, Reason::TypeMismatch { expected: Expected::String, found: Kind::Number });
}
