use autorust_openapi::autorest::MsPageable;
use autorust_openapi::parameter::Parameter;
use autorust_openapi::reference::ReferenceOr;
use autorust_openapi::text::{from_str, to_string};

#[test]
fn deserializes() {
    let json = r#"{"$ref":"foo/bar"}"#;
    assert_eq!(
        from_str::<ReferenceOr<Parameter>>(&json).unwrap(),
        ReferenceOr::<Parameter>::Reference {
            reference: "foo/bar".into(),
            title: None,
            description: None,
            x_ms_client_flatten: None,
            type_: None,
            read_only: None
        }
    );
}

#[test]
fn serializes() {
    let json = r#"{"$ref":"foo/bar"}"#;
    assert_eq!(
        json,
        to_string(&ReferenceOr::<Parameter>::Reference {
            reference: "foo/bar".into(),
            title: None,
            description: None,
            x_ms_client_flatten: None,
            type_: None,
            read_only: None
        })
    );
}

#[test]
fn pageable_nextlinkname_may_be_null() {
    let json = r#"{"x-ms-pageable":{"nextLinkName":null}}"#;
    from_str::<MsPageable>(json).unwrap();
}
