//! Security schemes.

use vstd::prelude::*;
use serde_json::Value;
use crate::audit::{lemma_all_known, lemma_collected, report_unknown, unknown_keys, Audit, Keys};
use crate::binding::Binding;
use crate::error::{
    invalid_name, mismatch, unknown_variant, DecodeError, DecodeErrorV, Expected, PathV, Reason,
    Segment,
};
use crate::fields::{
    lemma_optional, lemma_required, lemma_with_member, optional_field, optional_json, put,
    put_optional, put_required, read_optional, read_required, required_field, required_json,
    with_member, Members,
};
use crate::json::{
    empty_object, find, has_key, kind_of, lemma_find, lemma_key_present, member, same_text,
    text_value, value_tree, JsonV, Kind,
};
use crate::model::Model;
use crate::ordered::OrderedMap;

verus! {

/// The flow of an OAuth2 scheme.
#[derive(Clone, Copy, Debug, PartialEq, Eq, Structural)]
pub enum Flow {
    Implicit,
    Password,
    Application,
    AccessCode,
}

impl Flow {
    /// The name of a value on the wire.
    pub open spec fn name(self) -> Seq<char> {
        match self {
            Flow::Implicit => "implicit"@,
            Flow::Password => "password"@,
            Flow::Application => "application"@,
            Flow::AccessCode => "accessCode"@,
        }
    }

    /// The value that a name on the wire stands for.
    pub open spec fn named(s: Seq<char>) -> Option<Flow> {
        if s == "implicit"@ {
            Some(Flow::Implicit)
        } else if s == "password"@ {
            Some(Flow::Password)
        } else if s == "application"@ {
            Some(Flow::Application)
        } else if s == "accessCode"@ {
            Some(Flow::AccessCode)
        } else {
            None
        }
    }

    /// The name of a value on the wire.
    pub fn as_str(&self) -> (s: &'static str)
        ensures
            s@ == self.name(),
    {
        match self {
            Flow::Implicit => "implicit",
            Flow::Password => "password",
            Flow::Application => "application",
            Flow::AccessCode => "accessCode",
        }
    }

    /// The value that a name on the wire stands for.
    pub fn from_name(s: &str) -> (r: Option<Flow>)
        ensures
            r == Flow::named(s@),
    {
        if same_text(s, "implicit") {
            Some(Flow::Implicit)
        } else if same_text(s, "password") {
            Some(Flow::Password)
        } else if same_text(s, "application") {
            Some(Flow::Application)
        } else if same_text(s, "accessCode") {
            Some(Flow::AccessCode)
        } else {
            None
        }
    }

    /// Every value is the one that its name stands for.
    pub proof fn lemma_named(self)
        ensures
            Flow::named(self.name()) == Some(self),
    {
        Self::lemma_spelling();
    }

    /// How the names are spelled, as far as it takes to tell them apart.
    proof fn lemma_spelling()
        ensures
            "implicit"@.len() == 8,
            "password"@.len() == 8,
            "application"@.len() == 11,
            "accessCode"@.len() == 10,
            "implicit"@[0] == 'i',
            "password"@[0] == 'p',
    {
        reveal_strlit("implicit");
        reveal_strlit("password");
        reveal_strlit("application");
        reveal_strlit("accessCode");
    }
}

impl Model for Flow {
    type M = Flow;

    open spec fn model(&self) -> Flow {
        *self
    }
}

impl Binding for Flow {
    open spec fn from_json(t: JsonV) -> Result<Flow, DecodeErrorV> {
        match t {
            JsonV::Text(s) => match Flow::named(s) {
                Some(x) => Ok(x),
                None => Err(invalid_name(s)),
            },
            _ => Err(mismatch(Expected::String, t)),
        }
    }

    open spec fn to_json(m: Flow) -> JsonV {
        JsonV::Text(m.name())
    }

    fn decode(v: &Value) -> (r: Result<Flow, DecodeError>) {
        match v.as_str() {
            Some(s) => match Flow::from_name(s) {
                Some(x) => Ok(x),
                None => Err(DecodeError::new(Reason::InvalidEnumValue { value: s.to_owned() })),
            },
            None => Err(DecodeError::mismatch(Expected::String, kind_of(v))),
        }
    }

    fn encode(&self) -> (v: Value) {
        text_value(self.as_str().to_owned())
    }

    proof fn round_trip(m: Flow) {
        m.lemma_named();
    }
}

/// A security scheme. The text under `type` tells the three kinds apart.
#[derive(Clone, Debug, PartialEq)]
pub enum Security {
    /// A key that is sent in a header or in the query.
    ApiKey {
        name: String,
        in_: String,
        description: Option<String>,
    },
    /// HTTP basic authentication.
    Basic {
        description: Option<String>,
    },
    /// OAuth2 with its flow, its addresses and its scopes.
    Oauth2 {
        flow: Flow,
        authorization_url: String,
        token_url: Option<String>,
        scopes: OrderedMap<String>,
        description: Option<String>,
    },
}

/// The model of a [`Security`].
pub enum SecurityV {
    ApiKey {
        name: Seq<char>,
        in_: Seq<char>,
        description: Option<Seq<char>>,
    },
    Basic {
        description: Option<Seq<char>>,
    },
    Oauth2 {
        flow: Flow,
        authorization_url: Seq<char>,
        token_url: Option<Seq<char>>,
        scopes: Seq<(Seq<char>, Seq<char>)>,
        description: Option<Seq<char>>,
    },
}

impl Model for Security {
    type M = SecurityV;

    open spec fn model(&self) -> SecurityV {
        match self {
            Security::ApiKey { name, in_, description } => SecurityV::ApiKey {
                name: name.model(),
                in_: in_.model(),
                description: description.model(),
            },
            Security::Basic { description } => SecurityV::Basic {
                description: description.model(),
            },
            Security::Oauth2 { flow, authorization_url, token_url, scopes, description } => SecurityV::Oauth2 {
                flow: flow.model(),
                authorization_url: authorization_url.model(),
                token_url: token_url.model(),
                scopes: scopes.model(),
                description: description.model(),
            },
        }
    }
}

impl Security {
    /// The text under `type` that names the variant of a value.
    pub open spec fn tag(m: SecurityV) -> Seq<char> {
        match m {
            SecurityV::ApiKey { .. } => "apiKey"@,
            SecurityV::Basic { .. } => "basic"@,
            SecurityV::Oauth2 { .. } => "oauth2"@,
        }
    }

    /// The members of an object read as the variant `apiKey`.
    pub open spec fn api_key_from_json(e: Members) -> Result<SecurityV, DecodeErrorV> {
        let name = required_field::<String>(e, "name"@);
        let in_ = required_field::<String>(e, "in"@);
        let description = optional_field::<String>(e, "description"@);
        if name is Err {
            Err(name->Err_0)
        } else if in_ is Err {
            Err(in_->Err_0)
        } else if description is Err {
            Err(description->Err_0)
        } else {
            Ok(
                SecurityV::ApiKey {
                    name: name->Ok_0,
                    in_: in_->Ok_0,
                    description: description->Ok_0,
                },
            )
        }
    }

    /// The members of an object read as the variant `basic`.
    pub open spec fn basic_from_json(e: Members) -> Result<SecurityV, DecodeErrorV> {
        let description = optional_field::<String>(e, "description"@);
        if description is Err {
            Err(description->Err_0)
        } else {
            Ok(
                SecurityV::Basic {
                    description: description->Ok_0,
                },
            )
        }
    }

    /// The members of an object read as the variant `oauth2`.
    pub open spec fn oauth2_from_json(e: Members) -> Result<SecurityV, DecodeErrorV> {
        let flow = required_field::<Flow>(e, "flow"@);
        let authorization_url = required_field::<String>(e, "authorizationUrl"@);
        let token_url = optional_field::<String>(e, "tokenUrl"@);
        let scopes = required_field::<OrderedMap<String>>(e, "scopes"@);
        let description = optional_field::<String>(e, "description"@);
        if flow is Err {
            Err(flow->Err_0)
        } else if authorization_url is Err {
            Err(authorization_url->Err_0)
        } else if token_url is Err {
            Err(token_url->Err_0)
        } else if scopes is Err {
            Err(scopes->Err_0)
        } else if description is Err {
            Err(description->Err_0)
        } else {
            Ok(
                SecurityV::Oauth2 {
                    flow: flow->Ok_0,
                    authorization_url: authorization_url->Ok_0,
                    token_url: token_url->Ok_0,
                    scopes: scopes->Ok_0,
                    description: description->Ok_0,
                },
            )
        }
    }
}

impl Binding for Security {
    open spec fn from_json(t: JsonV) -> Result<SecurityV, DecodeErrorV> {
        match t {
            JsonV::Object(e) => match required_field::<String>(e, "type"@) {
                Err(err) => Err(err),
                Ok(tag) => if tag == "apiKey"@ {
                    Self::api_key_from_json(e)
                } else if tag == "basic"@ {
                    Self::basic_from_json(e)
                } else if tag == "oauth2"@ {
                    Self::oauth2_from_json(e)
                } else {
                    Err(unknown_variant(tag).under_key("type"@))
                },
            },
            _ => Err(mismatch(Expected::Object, t)),
        }
    }

    open spec fn to_json(m: SecurityV) -> JsonV {
        let e: Members = Seq::empty();
        let e = with_member(e, "type"@, required_json::<String>(Self::tag(m)));
        match m {
            SecurityV::ApiKey { name, in_, description } => {
                let e = with_member(e, "name"@, required_json::<String>(name));
                let e = with_member(e, "in"@, required_json::<String>(in_));
                let e = with_member(e, "description"@, optional_json::<String>(description));
                JsonV::Object(e)
            },
            SecurityV::Basic { description } => {
                let e = with_member(e, "description"@, optional_json::<String>(description));
                JsonV::Object(e)
            },
            SecurityV::Oauth2 { flow, authorization_url, token_url, scopes, description } => {
                let e = with_member(e, "flow"@, required_json::<Flow>(flow));
                let e = with_member(
                    e,
                    "authorizationUrl"@,
                    required_json::<String>(authorization_url),
                );
                let e = with_member(e, "tokenUrl"@, optional_json::<String>(token_url));
                let e = with_member(e, "scopes"@, required_json::<OrderedMap<String>>(scopes));
                let e = with_member(e, "description"@, optional_json::<String>(description));
                JsonV::Object(e)
            },
        }
    }

    fn decode(v: &Value) -> (r: Result<Security, DecodeError>) {
        match kind_of(v) {
            Kind::Object => {},
            found => {
                return Err(DecodeError::mismatch(Expected::Object, found));
            },
        }
        let tag = read_required::<String>(v, "type")?;
        if same_text(tag.as_str(), "apiKey") {
            let name = read_required::<String>(v, "name")?;
            let in_ = read_required::<String>(v, "in")?;
            let description = read_optional::<String>(v, "description")?;
            Ok(Security::ApiKey { name, in_, description })
        } else if same_text(tag.as_str(), "basic") {
            let description = read_optional::<String>(v, "description")?;
            Ok(Security::Basic { description })
        } else if same_text(tag.as_str(), "oauth2") {
            let flow = read_required::<Flow>(v, "flow")?;
            let authorization_url = read_required::<String>(v, "authorizationUrl")?;
            let token_url = read_optional::<String>(v, "tokenUrl")?;
            let scopes = read_required::<OrderedMap<String>>(v, "scopes")?;
            let description = read_optional::<String>(v, "description")?;
            Ok(Security::Oauth2 { flow, authorization_url, token_url, scopes, description })
        } else {
            let unknown = DecodeError::new(Reason::UnknownDiscriminator { value: tag });
            Err(unknown.under_key("type"))
        }
    }

    fn encode(&self) -> (v: Value) {
        let mut o = empty_object();
        match self {
            Security::ApiKey { name, in_, description } => {
                put(&mut o, "type", Some(text_value("apiKey".to_owned())));
                put_required::<String>(&mut o, "name", name);
                put_required::<String>(&mut o, "in", in_);
                put_optional::<String>(&mut o, "description", description);
            },
            Security::Basic { description } => {
                put(&mut o, "type", Some(text_value("basic".to_owned())));
                put_optional::<String>(&mut o, "description", description);
            },
            Security::Oauth2 { flow, authorization_url, token_url, scopes, description } => {
                put(&mut o, "type", Some(text_value("oauth2".to_owned())));
                put_required::<Flow>(&mut o, "flow", flow);
                put_required::<String>(&mut o, "authorizationUrl", authorization_url);
                put_optional::<String>(&mut o, "tokenUrl", token_url);
                put_required::<OrderedMap<String>>(&mut o, "scopes", scopes);
                put_optional::<String>(&mut o, "description", description);
            },
        }
        o
    }

    proof fn round_trip(m: SecurityV) {
        lemma_with_member();
        Self::lemma_spelling();
        let e = Self::to_json(m)->Object_0;
        lemma_required::<String>(e, "type"@, Self::tag(m));
        match m {
            SecurityV::ApiKey { name, in_, description } => {
                lemma_required::<String>(e, "name"@, name);
                lemma_required::<String>(e, "in"@, in_);
                lemma_optional::<String>(e, "description"@, description);
            },
            SecurityV::Basic { description } => {
                lemma_optional::<String>(e, "description"@, description);
            },
            SecurityV::Oauth2 { flow, authorization_url, token_url, scopes, description } => {
                lemma_required::<Flow>(e, "flow"@, flow);
                lemma_required::<String>(e, "authorizationUrl"@, authorization_url);
                lemma_optional::<String>(e, "tokenUrl"@, token_url);
                lemma_required::<OrderedMap<String>>(e, "scopes"@, scopes);
                lemma_optional::<String>(e, "description"@, description);
            },
        }
    }
}

impl Security {
    /// The discriminator on reading: an object whose `type` names a variant is
    /// read as that variant or rejected, and never read as another. An object
    /// whose `type` names none of the three is rejected.
    pub proof fn lemma_read_by_tag(t: JsonV)
        requires
            t is Object,
            find(t->Object_0, "type"@) matches Some(JsonV::Text(_)),
        ensures
            find(
                t->Object_0,
                "type"@,
            ) == Some(JsonV::Text("apiKey"@)) ==> (Security::from_json(t) matches Ok(m)
                ==> m is ApiKey),
            find(
                t->Object_0,
                "type"@,
            ) == Some(JsonV::Text("basic"@)) ==> (Security::from_json(t) matches Ok(m)
                ==> m is Basic),
            find(
                t->Object_0,
                "type"@,
            ) == Some(JsonV::Text("oauth2"@)) ==> (Security::from_json(t) matches Ok(m)
                ==> m is Oauth2),
            ({
                &&& find(t->Object_0, "type"@) != Some(JsonV::Text("apiKey"@))
                &&& find(t->Object_0, "type"@) != Some(JsonV::Text("basic"@))
                &&& find(t->Object_0, "type"@) != Some(JsonV::Text("oauth2"@))
            }) ==> Security::from_json(t) is Err,
    {
        Self::lemma_spelling();
    }

    /// The discriminator on writing: every value is written with the key
    /// `type`, under which the name of its variant stands.
    pub proof fn lemma_written_tag(m: SecurityV)
        ensures
            Security::to_json(m) is Object,
            find(Security::to_json(m)->Object_0, "type"@) == Some(JsonV::Text(Self::tag(m))),
            has_key(Security::to_json(m)->Object_0, "type"@),
    {
        lemma_with_member();
        Self::lemma_spelling();
    }

    /// Which keys are written: the key `type` and the keys of the fields of the
    /// variant, and nothing else.
    pub proof fn lemma_written_keys(m: SecurityV, key: Seq<char>)
        ensures
            has_key(Security::to_json(m)->Object_0, key) ==> (match m {
                SecurityV::ApiKey { .. } => ApiKeyKeys::known(key),
                SecurityV::Basic { .. } => BasicKeys::known(key),
                SecurityV::Oauth2 { .. } => Oauth2Keys::known(key),
            }),
    {
        lemma_with_member();
        Self::lemma_spelling();
    }

    /// How the keys and names are spelled, as far as it takes to tell them
    /// apart.
    proof fn lemma_spelling()
        ensures
            "type"@.len() == 4,
            "name"@.len() == 4,
            "in"@.len() == 2,
            "description"@.len() == 11,
            "flow"@.len() == 4,
            "authorizationUrl"@.len() == 16,
            "tokenUrl"@.len() == 8,
            "scopes"@.len() == 6,
            "apiKey"@.len() == 6,
            "basic"@.len() == 5,
            "oauth2"@.len() == 6,
            "type"@[0] == 't',
            "name"@[0] == 'n',
            "flow"@[0] == 'f',
            "scopes"@[0] == 's',
            "apiKey"@[0] == 'a',
            "oauth2"@[0] == 'o',
    {
        reveal_strlit("type");
        reveal_strlit("name");
        reveal_strlit("in");
        reveal_strlit("description");
        reveal_strlit("flow");
        reveal_strlit("authorizationUrl");
        reveal_strlit("tokenUrl");
        reveal_strlit("scopes");
        reveal_strlit("apiKey");
        reveal_strlit("basic");
        reveal_strlit("oauth2");
    }
}

/// The keys of the variant `apiKey`.
pub struct ApiKeyKeys;

impl Keys for ApiKeyKeys {
    open spec fn known(key: Seq<char>) -> bool {
        ||| key == "type"@
        ||| key == "name"@
        ||| key == "in"@
        ||| key == "description"@
    }

    fn knows(key: &str) -> (b: bool) {
        same_text(key, "type")
            || same_text(key, "name")
            || same_text(key, "in")
            || same_text(key, "description")
    }
}

/// The keys of the variant `basic`.
pub struct BasicKeys;

impl Keys for BasicKeys {
    open spec fn known(key: Seq<char>) -> bool {
        ||| key == "type"@
        ||| key == "description"@
    }

    fn knows(key: &str) -> (b: bool) {
        same_text(key, "type")
            || same_text(key, "description")
    }
}

/// The keys of the variant `oauth2`.
pub struct Oauth2Keys;

impl Keys for Oauth2Keys {
    open spec fn known(key: Seq<char>) -> bool {
        ||| key == "type"@
        ||| key == "flow"@
        ||| key == "authorizationUrl"@
        ||| key == "tokenUrl"@
        ||| key == "scopes"@
        ||| key == "description"@
    }

    fn knows(key: &str) -> (b: bool) {
        same_text(key, "type")
            || same_text(key, "flow")
            || same_text(key, "authorizationUrl")
            || same_text(key, "tokenUrl")
            || same_text(key, "scopes")
            || same_text(key, "description")
    }
}

impl Audit for Security {
    open spec fn ignored(t: JsonV) -> Seq<PathV> {
        match t {
            JsonV::Object(e) => match find(e, "type"@) {
                Some(JsonV::Text(tag)) => if tag == "apiKey"@ {
                    unknown_keys::<ApiKeyKeys>(e, e.len())
                } else if tag == "basic"@ {
                    unknown_keys::<BasicKeys>(e, e.len())
                } else if tag == "oauth2"@ {
                    unknown_keys::<Oauth2Keys>(e, e.len())
                } else {
                    Seq::empty()
                },
                _ => Seq::empty(),
            },
            _ => Seq::empty(),
        }
    }

    fn audit(v: &Value, at: &mut Vec<Segment>, out: &mut Vec<Vec<Segment>>) {
        proof {
            lemma_collected(out.model(), Seq::empty(), Seq::empty(), at.model());
            if value_tree(*v) is Object {
                lemma_find(value_tree(*v)->Object_0, "type"@);
            }
        }
        match kind_of(v) {
            Kind::Object => {},
            _ => {
                return;
            },
        }
        match member(v, "type") {
            None => {},
            Some(x) => match x.as_str() {
                None => {},
                Some(tag) => {
                    if same_text(tag, "apiKey") {
                        report_unknown::<ApiKeyKeys>(v, at, out);
                    } else if same_text(tag, "basic") {
                        report_unknown::<BasicKeys>(v, at, out);
                    } else if same_text(tag, "oauth2") {
                        report_unknown::<Oauth2Keys>(v, at, out);
                    }
                },
            },
        }
    }

    proof fn clean(m: SecurityV) {
        Self::lemma_written_tag(m);
        Self::lemma_spelling();
        let e = Self::to_json(m)->Object_0;
        match m {
            SecurityV::ApiKey { .. } => {
                assert forall|i: int| 0 <= i < e.len() implies ApiKeyKeys::known(
                    #[trigger] e[i].0,
                ) by {
                    lemma_key_present(e, i);
                    Self::lemma_written_keys(m, e[i].0);
                }
                lemma_all_known::<ApiKeyKeys>(e, e.len());
            },
            SecurityV::Basic { .. } => {
                assert forall|i: int| 0 <= i < e.len() implies BasicKeys::known(
                    #[trigger] e[i].0,
                ) by {
                    lemma_key_present(e, i);
                    Self::lemma_written_keys(m, e[i].0);
                }
                lemma_all_known::<BasicKeys>(e, e.len());
            },
            SecurityV::Oauth2 { .. } => {
                assert forall|i: int| 0 <= i < e.len() implies Oauth2Keys::known(
                    #[trigger] e[i].0,
                ) by {
                    lemma_key_present(e, i);
                    Self::lemma_written_keys(m, e[i].0);
                }
                lemma_all_known::<Oauth2Keys>(e, e.len());
            },
        }
    }
}

} // verus!
