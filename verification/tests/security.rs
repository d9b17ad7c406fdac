use autorust_openapi::error::{Reason, Segment};
use autorust_openapi::ordered::OrderedMap;
use autorust_openapi::security::{Flow, Security};
use autorust_openapi::text::{from_str, to_string, ReadError};

#[test]
fn api_key_is_read_and_written() {
    let json = r#"{"type":"apiKey","name":"foo","in":"query"}"#;
    let read = from_str::<Security>(json).unwrap();
    assert_eq!(
        read,
        Security::ApiKey { name: "foo".into(), in_: "query".into(), description: None }
    );
    assert_eq!(to_string(&read), json);
}

#[test]
fn basic_is_read_and_written() {
    let json = r#"{"type":"basic"}"#;
    let read = from_str::<Security>(json).unwrap();
    assert_eq!(read, Security::Basic { description: None });
    assert_eq!(to_string(&read), json);
}

#[test]
fn oauth2_is_read_and_written() {
    let json =
        r#"{"type":"oauth2","flow":"implicit","authorizationUrl":"foo/bar","scopes":{"foo":"bar"}}"#;
    let read = from_str::<Security>(json).unwrap();
    let mut scopes = OrderedMap::new();
    scopes.insert("foo".to_string(), "bar".to_string());
    assert_eq!(
        read,
        Security::Oauth2 {
            flow: Flow::Implicit,
            authorization_url: "foo/bar".into(),
            token_url: None,
            scopes,
            description: None,
        }
    );
    assert_eq!(to_string(&read), json);
    assert_eq!(from_str::<Security>(&to_string(&read)).unwrap(), read);
}

#[test]
fn the_type_may_stand_anywhere() {
    let json = r#"{"name":"foo","description":"d","in":"header","type":"apiKey"}"#;
    let read = from_str::<Security>(json).unwrap();
    assert_eq!(
        read,
        Security::ApiKey {
            name: "foo".into(),
            in_: "header".into(),
            description: Some("d".into())
        }
    );
    assert_eq!(
        to_string(&read),
        r#"{"type":"apiKey","name":"foo","in":"header","description":"d"}"#
    );
}

#[test]
fn an_unknown_type_is_rejected() {
    let json = r#"{"type":"digest"}"#;
    match from_str::<Security>(json) {
        Err(ReadError::Decode(e)) => {
            assert_eq!(e.reason, Reason::UnknownDiscriminator { value: "digest".into() });
            assert_eq!(e.path, vec![Segment::Key("type".into())]);
        }
        other => panic!("{:?}", other),
    }
}

#[test]
fn a_missing_type_is_rejected() {
    match from_str::<Security>(r#"{"name":"foo"}"#) {
        Err(ReadError::Decode(e)) => {
            assert_eq!(e.reason, Reason::MissingField { key: "type".into() });
            assert!(e.path.is_empty());
        }
        other => panic!("{:?}", other),
    }
}

#[test]
fn oauth2_asks_for_its_scopes() {
    let json = r#"{"type":"oauth2","flow":"password","authorizationUrl":"a"}"#;
    match from_str::<Security>(json) {
        Err(ReadError::Decode(e)) => {
            assert_eq!(e.reason, Reason::MissingField { key: "scopes".into() });
        }
        other => panic!("{:?}", other),
    }
}

#[test]
fn an_unknown_flow_is_rejected() {
    let json = r#"{"type":"oauth2","flow":"device","authorizationUrl":"a","scopes":{}}"#;
    match from_str::<Security>(json) {
        Err(ReadError::Decode(e)) => {
            assert_eq!(e.reason, Reason::InvalidEnumValue { value: "device".into() });
            assert_eq!(e.path, vec![Segment::Key("flow".into())]);
            assert_eq!(e.path_string(), "flow");
        }
        other => panic!("{:?}", other),
    }
}

#[test]
fn every_flow_has_its_name() {
    for (flow, name) in [
        (Flow::Implicit, "implicit"),
        (Flow::Password, "password"),
        (Flow::Application, "application"),
        (Flow::AccessCode, "accessCode"),
    ] {
        assert_eq!(flow.as_str(), name);
        assert_eq!(Flow::from_name(name), Some(flow));
    }
    assert_eq!(Flow::from_name("Implicit"), None);
}
