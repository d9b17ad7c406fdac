//! What a document says about the API as a whole: its title and version, the
//! people behind it, and the tags of its operations.

use vstd::prelude::*;
use serde_json::Value;
use crate::audit::{
    audit_member, ignored_under, lemma_all_known, lemma_collected, lemma_under_clean,
    report_unknown, unknown_keys, Audit, Keys,
};
use crate::binding::{Binding, Record};
use crate::error::{mismatch, DecodeError, DecodeErrorV, Expected, PathV, Segment};
use crate::fields::{
    lemma_optional, lemma_with_member, optional_field, optional_json, put_optional, read_optional,
    with_member, Members,
};
use crate::json::{
    empty_object, find, has_key, kind_of, lemma_key_present, same_text, value_tree, JsonV, Kind,
};
use crate::model::Model;

verus! {

/// Whom to contact about an API.
#[derive(Clone, Debug, PartialEq)]
pub struct Contact {
    /// The name of the person or organisation.
    pub name: Option<String>,
    /// Where the contact is found on the web.
    pub url: Option<String>,
    /// The mail address of the contact.
    pub email: Option<String>,
}

/// The model of a [`Contact`].
pub struct ContactV {
    pub name: Option<Seq<char>>,
    pub url: Option<Seq<char>>,
    pub email: Option<Seq<char>>,
}

impl Model for Contact {
    type M = ContactV;

    open spec fn model(&self) -> ContactV {
        ContactV {
            name: self.name.model(),
            url: self.url.model(),
            email: self.email.model(),
        }
    }
}

impl Contact {
    /// The model of the default value: every optional field absent, every list
    /// and mapping empty, every flag off.
    pub open spec fn default_model() -> ContactV {
        ContactV {
            name: None,
            url: None,
            email: None,
        }
    }
}

impl Default for Contact {
    fn default() -> (r: Contact)
        ensures
            r.model() == Contact::default_model(),
    {
        let r = Contact {
            name: None,
            url: None,
            email: None,
        };
        r
    }
}

impl Binding for Contact {
    open spec fn from_json(t: JsonV) -> Result<ContactV, DecodeErrorV> {
        match t {
            JsonV::Object(e) => {
                let name = optional_field::<String>(e, "name"@);
                let url = optional_field::<String>(e, "url"@);
                let email = optional_field::<String>(e, "email"@);
                if name is Err {
                    Err(name->Err_0)
                } else if url is Err {
                    Err(url->Err_0)
                } else if email is Err {
                    Err(email->Err_0)
                } else {
                    Ok(
                        ContactV {
                            name: name->Ok_0,
                            url: url->Ok_0,
                            email: email->Ok_0,
                        },
                    )
                }
            },
            _ => Err(mismatch(Expected::Object, t)),
        }
    }

    open spec fn to_json(m: ContactV) -> JsonV {
        let e: Members = Seq::empty();
        let e = with_member(e, "name"@, optional_json::<String>(m.name));
        let e = with_member(e, "url"@, optional_json::<String>(m.url));
        let e = with_member(e, "email"@, optional_json::<String>(m.email));
        JsonV::Object(e)
    }

    fn decode(v: &Value) -> (r: Result<Contact, DecodeError>) {
        match kind_of(v) {
            Kind::Object => {},
            found => {
                return Err(DecodeError::mismatch(Expected::Object, found));
            },
        }
        let name = read_optional::<String>(v, "name")?;
        let url = read_optional::<String>(v, "url")?;
        let email = read_optional::<String>(v, "email")?;
        Ok(Contact { name, url, email })
    }

    fn encode(&self) -> (v: Value) {
        let mut o = empty_object();
        put_optional::<String>(&mut o, "name", &self.name);
        put_optional::<String>(&mut o, "url", &self.url);
        put_optional::<String>(&mut o, "email", &self.email);
        o
    }

    proof fn round_trip(m: ContactV) {
        let e = Self::to_json(m)->Object_0;
        Self::lemma_members(m);
        lemma_optional::<String>(e, "name"@, m.name);
        lemma_optional::<String>(e, "url"@, m.url);
        lemma_optional::<String>(e, "email"@, m.email);
    }
}

impl Record for Contact {
    proof fn written_as_record(m: ContactV) {
        Self::lemma_written_keys(m, "$ref"@);
        Self::lemma_spelling();
    }
}

impl Contact {
    /// Which keys are written: a required field always, an optional field where
    /// it is present, a list or a mapping where it is not empty, a flag where
    /// it is set. Nothing else is written.
    pub proof fn lemma_written_keys(m: ContactV, key: Seq<char>)
        ensures
            Contact::to_json(m) is Object,
            has_key(Contact::to_json(m)->Object_0, "name"@) == (m.name is Some),
            has_key(Contact::to_json(m)->Object_0, "url"@) == (m.url is Some),
            has_key(Contact::to_json(m)->Object_0, "email"@) == (m.email is Some),
            has_key(Contact::to_json(m)->Object_0, key) ==> {
                ||| key == "name"@
                ||| key == "url"@
                ||| key == "email"@
            },
    {
        lemma_with_member();
        Self::lemma_spelling();
    }

    /// What stands under each key of what a value is written as.
    pub proof fn lemma_members(m: ContactV)
        ensures
            find(Contact::to_json(m)->Object_0, "name"@) == optional_json::<String>(m.name),
            find(Contact::to_json(m)->Object_0, "url"@) == optional_json::<String>(m.url),
            find(Contact::to_json(m)->Object_0, "email"@) == optional_json::<String>(m.email),
    {
        lemma_with_member();
        Self::lemma_spelling();
    }

    /// How the keys are spelled, as far as it takes to tell them apart.
    proof fn lemma_spelling()
        ensures
            "$ref"@.len() == 4,
            "name"@.len() == 4,
            "url"@.len() == 3,
            "email"@.len() == 5,
            "$ref"@[0] == '$',
            "name"@[0] == 'n',
    {
        reveal_strlit("$ref");
        reveal_strlit("name");
        reveal_strlit("url");
        reveal_strlit("email");
    }
}

impl Keys for Contact {
    open spec fn known(key: Seq<char>) -> bool {
        ||| key == "name"@
        ||| key == "url"@
        ||| key == "email"@
    }

    fn knows(key: &str) -> (b: bool) {
        same_text(key, "name")
            || same_text(key, "url")
            || same_text(key, "email")
    }
}

impl Audit for Contact {
    open spec fn ignored(t: JsonV) -> Seq<PathV> {
        match t {
            JsonV::Object(e) => unknown_keys::<Contact>(e, e.len()),
            _ => Seq::empty(),
        }
    }

    fn audit(v: &Value, at: &mut Vec<Segment>, out: &mut Vec<Vec<Segment>>) {
        let ghost start = out.model();
        let ghost base = at.model();
        proof {
            lemma_collected(start, Seq::empty(), Seq::empty(), base);
        }
        match kind_of(v) {
            Kind::Object => {},
            _ => {
                return;
            },
        }
        report_unknown::<Contact>(v, at, out);
    }

    proof fn clean(m: ContactV) {
        Contact::lemma_members(m);
        let e = Self::to_json(m)->Object_0;
        assert forall|i: int| 0 <= i < e.len() implies Contact::known(
            #[trigger] e[i].0,
        ) by {
            lemma_key_present(e, i);
            Contact::lemma_written_keys(m, e[i].0);
        }
        lemma_all_known::<Contact>(e, e.len());
    }
}

/// The license of an API.
#[derive(Clone, Debug, PartialEq)]
pub struct License {
    /// The name of the license.
    pub name: Option<String>,
    /// Where the text of the license is found.
    pub url: Option<String>,
}

/// The model of a [`License`].
pub struct LicenseV {
    pub name: Option<Seq<char>>,
    pub url: Option<Seq<char>>,
}

impl Model for License {
    type M = LicenseV;

    open spec fn model(&self) -> LicenseV {
        LicenseV {
            name: self.name.model(),
            url: self.url.model(),
        }
    }
}

impl License {
    /// The model of the default value: every optional field absent, every list
    /// and mapping empty, every flag off.
    pub open spec fn default_model() -> LicenseV {
        LicenseV {
            name: None,
            url: None,
        }
    }
}

impl Default for License {
    fn default() -> (r: License)
        ensures
            r.model() == License::default_model(),
    {
        let r = License {
            name: None,
            url: None,
        };
        r
    }
}

impl Binding for License {
    open spec fn from_json(t: JsonV) -> Result<LicenseV, DecodeErrorV> {
        match t {
            JsonV::Object(e) => {
                let name = optional_field::<String>(e, "name"@);
                let url = optional_field::<String>(e, "url"@);
                if name is Err {
                    Err(name->Err_0)
                } else if url is Err {
                    Err(url->Err_0)
                } else {
                    Ok(
                        LicenseV {
                            name: name->Ok_0,
                            url: url->Ok_0,
                        },
                    )
                }
            },
            _ => Err(mismatch(Expected::Object, t)),
        }
    }

    open spec fn to_json(m: LicenseV) -> JsonV {
        let e: Members = Seq::empty();
        let e = with_member(e, "name"@, optional_json::<String>(m.name));
        let e = with_member(e, "url"@, optional_json::<String>(m.url));
        JsonV::Object(e)
    }

    fn decode(v: &Value) -> (r: Result<License, DecodeError>) {
        match kind_of(v) {
            Kind::Object => {},
            found => {
                return Err(DecodeError::mismatch(Expected::Object, found));
            },
        }
        let name = read_optional::<String>(v, "name")?;
        let url = read_optional::<String>(v, "url")?;
        Ok(License { name, url })
    }

    fn encode(&self) -> (v: Value) {
        let mut o = empty_object();
        put_optional::<String>(&mut o, "name", &self.name);
        put_optional::<String>(&mut o, "url", &self.url);
        o
    }

    proof fn round_trip(m: LicenseV) {
        let e = Self::to_json(m)->Object_0;
        Self::lemma_members(m);
        lemma_optional::<String>(e, "name"@, m.name);
        lemma_optional::<String>(e, "url"@, m.url);
    }
}

impl Record for License {
    proof fn written_as_record(m: LicenseV) {
        Self::lemma_written_keys(m, "$ref"@);
        Self::lemma_spelling();
    }
}

impl License {
    /// Which keys are written: a required field always, an optional field where
    /// it is present, a list or a mapping where it is not empty, a flag where
    /// it is set. Nothing else is written.
    pub proof fn lemma_written_keys(m: LicenseV, key: Seq<char>)
        ensures
            License::to_json(m) is Object,
            has_key(License::to_json(m)->Object_0, "name"@) == (m.name is Some),
            has_key(License::to_json(m)->Object_0, "url"@) == (m.url is Some),
            has_key(License::to_json(m)->Object_0, key) ==> {
                ||| key == "name"@
                ||| key == "url"@
            },
    {
        lemma_with_member();
        Self::lemma_spelling();
    }

    /// What stands under each key of what a value is written as.
    pub proof fn lemma_members(m: LicenseV)
        ensures
            find(License::to_json(m)->Object_0, "name"@) == optional_json::<String>(m.name),
            find(License::to_json(m)->Object_0, "url"@) == optional_json::<String>(m.url),
    {
        lemma_with_member();
        Self::lemma_spelling();
    }

    /// How the keys are spelled, as far as it takes to tell them apart.
    proof fn lemma_spelling()
        ensures
            "$ref"@.len() == 4,
            "name"@.len() == 4,
            "url"@.len() == 3,
            "$ref"@[0] == '$',
            "name"@[0] == 'n',
    {
        reveal_strlit("$ref");
        reveal_strlit("name");
        reveal_strlit("url");
    }
}

impl Keys for License {
    open spec fn known(key: Seq<char>) -> bool {
        ||| key == "name"@
        ||| key == "url"@
    }

    fn knows(key: &str) -> (b: bool) {
        same_text(key, "name")
            || same_text(key, "url")
    }
}

impl Audit for License {
    open spec fn ignored(t: JsonV) -> Seq<PathV> {
        match t {
            JsonV::Object(e) => unknown_keys::<License>(e, e.len()),
            _ => Seq::empty(),
        }
    }

    fn audit(v: &Value, at: &mut Vec<Segment>, out: &mut Vec<Vec<Segment>>) {
        let ghost start = out.model();
        let ghost base = at.model();
        proof {
            lemma_collected(start, Seq::empty(), Seq::empty(), base);
        }
        match kind_of(v) {
            Kind::Object => {},
            _ => {
                return;
            },
        }
        report_unknown::<License>(v, at, out);
    }

    proof fn clean(m: LicenseV) {
        License::lemma_members(m);
        let e = Self::to_json(m)->Object_0;
        assert forall|i: int| 0 <= i < e.len() implies License::known(
            #[trigger] e[i].0,
        ) by {
            lemma_key_present(e, i);
            License::lemma_written_keys(m, e[i].0);
        }
        lemma_all_known::<License>(e, e.len());
    }
}

/// What an API is: its title, its version, and who stands behind it.
#[derive(Clone, Debug, PartialEq)]
pub struct Info {
    /// The title of the API.
    pub title: Option<String>,
    /// What the API does.
    pub description: Option<String>,
    /// The terms under which the API is offered.
    pub terms_of_service: Option<String>,
    /// Whom to contact.
    pub contact: Option<Contact>,
    /// The license.
    pub license: Option<License>,
    /// The version of the API.
    pub version: Option<String>,
}

/// The model of a [`Info`].
pub struct InfoV {
    pub title: Option<Seq<char>>,
    pub description: Option<Seq<char>>,
    pub terms_of_service: Option<Seq<char>>,
    pub contact: Option<ContactV>,
    pub license: Option<LicenseV>,
    pub version: Option<Seq<char>>,
}

impl Model for Info {
    type M = InfoV;

    open spec fn model(&self) -> InfoV {
        InfoV {
            title: self.title.model(),
            description: self.description.model(),
            terms_of_service: self.terms_of_service.model(),
            contact: self.contact.model(),
            license: self.license.model(),
            version: self.version.model(),
        }
    }
}

impl Info {
    /// The model of the default value: every optional field absent, every list
    /// and mapping empty, every flag off.
    pub open spec fn default_model() -> InfoV {
        InfoV {
            title: None,
            description: None,
            terms_of_service: None,
            contact: None,
            license: None,
            version: None,
        }
    }
}

impl Default for Info {
    fn default() -> (r: Info)
        ensures
            r.model() == Info::default_model(),
    {
        let r = Info {
            title: None,
            description: None,
            terms_of_service: None,
            contact: None,
            license: None,
            version: None,
        };
        r
    }
}

impl Binding for Info {
    open spec fn from_json(t: JsonV) -> Result<InfoV, DecodeErrorV> {
        match t {
            JsonV::Object(e) => {
                let title = optional_field::<String>(e, "title"@);
                let description = optional_field::<String>(e, "description"@);
                let terms_of_service = optional_field::<String>(e, "termsOfService"@);
                let contact = optional_field::<Contact>(e, "contact"@);
                let license = optional_field::<License>(e, "license"@);
                let version = optional_field::<String>(e, "version"@);
                if title is Err {
                    Err(title->Err_0)
                } else if description is Err {
                    Err(description->Err_0)
                } else if terms_of_service is Err {
                    Err(terms_of_service->Err_0)
                } else if contact is Err {
                    Err(contact->Err_0)
                } else if license is Err {
                    Err(license->Err_0)
                } else if version is Err {
                    Err(version->Err_0)
                } else {
                    Ok(
                        InfoV {
                            title: title->Ok_0,
                            description: description->Ok_0,
                            terms_of_service: terms_of_service->Ok_0,
                            contact: contact->Ok_0,
                            license: license->Ok_0,
                            version: version->Ok_0,
                        },
                    )
                }
            },
            _ => Err(mismatch(Expected::Object, t)),
        }
    }

    open spec fn to_json(m: InfoV) -> JsonV {
        let e: Members = Seq::empty();
        let e = with_member(e, "title"@, optional_json::<String>(m.title));
        let e = with_member(e, "description"@, optional_json::<String>(m.description));
        let e = with_member(e, "termsOfService"@, optional_json::<String>(m.terms_of_service));
        let e = with_member(e, "contact"@, optional_json::<Contact>(m.contact));
        let e = with_member(e, "license"@, optional_json::<License>(m.license));
        let e = with_member(e, "version"@, optional_json::<String>(m.version));
        JsonV::Object(e)
    }

    fn decode(v: &Value) -> (r: Result<Info, DecodeError>) {
        match kind_of(v) {
            Kind::Object => {},
            found => {
                return Err(DecodeError::mismatch(Expected::Object, found));
            },
        }
        let title = read_optional::<String>(v, "title")?;
        let description = read_optional::<String>(v, "description")?;
        let terms_of_service = read_optional::<String>(v, "termsOfService")?;
        let contact = read_optional::<Contact>(v, "contact")?;
        let license = read_optional::<License>(v, "license")?;
        let version = read_optional::<String>(v, "version")?;
        Ok(Info { title, description, terms_of_service, contact, license, version })
    }

    fn encode(&self) -> (v: Value) {
        let mut o = empty_object();
        put_optional::<String>(&mut o, "title", &self.title);
        put_optional::<String>(&mut o, "description", &self.description);
        put_optional::<String>(&mut o, "termsOfService", &self.terms_of_service);
        put_optional::<Contact>(&mut o, "contact", &self.contact);
        put_optional::<License>(&mut o, "license", &self.license);
        put_optional::<String>(&mut o, "version", &self.version);
        o
    }

    proof fn round_trip(m: InfoV) {
        let e = Self::to_json(m)->Object_0;
        Self::lemma_members(m);
        lemma_optional::<String>(e, "title"@, m.title);
        lemma_optional::<String>(e, "description"@, m.description);
        lemma_optional::<String>(e, "termsOfService"@, m.terms_of_service);
        lemma_optional::<Contact>(e, "contact"@, m.contact);
        lemma_optional::<License>(e, "license"@, m.license);
        lemma_optional::<String>(e, "version"@, m.version);
    }
}

impl Record for Info {
    proof fn written_as_record(m: InfoV) {
        Self::lemma_written_keys(m, "$ref"@);
        Self::lemma_spelling();
    }
}

impl Info {
    /// Which keys are written: a required field always, an optional field where
    /// it is present, a list or a mapping where it is not empty, a flag where
    /// it is set. Nothing else is written.
    pub proof fn lemma_written_keys(m: InfoV, key: Seq<char>)
        ensures
            Info::to_json(m) is Object,
            has_key(Info::to_json(m)->Object_0, "title"@) == (m.title is Some),
            has_key(Info::to_json(m)->Object_0, "description"@) == (m.description is Some),
            has_key(Info::to_json(m)->Object_0, "termsOfService"@) == (m.terms_of_service is Some),
            has_key(Info::to_json(m)->Object_0, "contact"@) == (m.contact is Some),
            has_key(Info::to_json(m)->Object_0, "license"@) == (m.license is Some),
            has_key(Info::to_json(m)->Object_0, "version"@) == (m.version is Some),
            has_key(Info::to_json(m)->Object_0, key) ==> {
                ||| key == "title"@
                ||| key == "description"@
                ||| key == "termsOfService"@
                ||| key == "contact"@
                ||| key == "license"@
                ||| key == "version"@
            },
    {
        lemma_with_member();
        Self::lemma_spelling();
    }

    /// What stands under each key of what a value is written as.
    pub proof fn lemma_members(m: InfoV)
        ensures
            find(Info::to_json(m)->Object_0, "title"@) == optional_json::<String>(m.title),
            find(
                Info::to_json(m)->Object_0,
                "description"@,
            ) == optional_json::<String>(m.description),
            find(
                Info::to_json(m)->Object_0,
                "termsOfService"@,
            ) == optional_json::<String>(m.terms_of_service),
            find(Info::to_json(m)->Object_0, "contact"@) == optional_json::<Contact>(m.contact),
            find(Info::to_json(m)->Object_0, "license"@) == optional_json::<License>(m.license),
            find(Info::to_json(m)->Object_0, "version"@) == optional_json::<String>(m.version),
    {
        lemma_with_member();
        Self::lemma_spelling();
    }

    /// How the keys are spelled, as far as it takes to tell them apart.
    proof fn lemma_spelling()
        ensures
            "$ref"@.len() == 4,
            "title"@.len() == 5,
            "description"@.len() == 11,
            "termsOfService"@.len() == 14,
            "contact"@.len() == 7,
            "license"@.len() == 7,
            "version"@.len() == 7,
            "contact"@[0] == 'c',
            "license"@[0] == 'l',
            "version"@[0] == 'v',
    {
        reveal_strlit("$ref");
        reveal_strlit("title");
        reveal_strlit("description");
        reveal_strlit("termsOfService");
        reveal_strlit("contact");
        reveal_strlit("license");
        reveal_strlit("version");
    }
}

impl Keys for Info {
    open spec fn known(key: Seq<char>) -> bool {
        ||| key == "title"@
        ||| key == "description"@
        ||| key == "termsOfService"@
        ||| key == "contact"@
        ||| key == "license"@
        ||| key == "version"@
    }

    fn knows(key: &str) -> (b: bool) {
        same_text(key, "title")
            || same_text(key, "description")
            || same_text(key, "termsOfService")
            || same_text(key, "contact")
            || same_text(key, "license")
            || same_text(key, "version")
    }
}

impl Audit for Info {
    open spec fn ignored(t: JsonV) -> Seq<PathV> {
        match t {
            JsonV::Object(e) => {
                let found = unknown_keys::<Info>(e, e.len());
                let found = found + ignored_under::<Contact>(find(e, "contact"@), "contact"@);
                let found = found + ignored_under::<License>(find(e, "license"@), "license"@);
                found
            },
            _ => Seq::empty(),
        }
    }

    fn audit(v: &Value, at: &mut Vec<Segment>, out: &mut Vec<Vec<Segment>>) {
        let ghost start = out.model();
        let ghost base = at.model();
        proof {
            lemma_collected(start, Seq::empty(), Seq::empty(), base);
        }
        match kind_of(v) {
            Kind::Object => {},
            _ => {
                return;
            },
        }
        let ghost e = value_tree(*v)->Object_0;
        let ghost found = unknown_keys::<Info>(e, e.len());
        report_unknown::<Info>(v, at, out);
        audit_member::<Contact>(v, "contact", at, out);
        proof {
            let more = ignored_under::<Contact>(find(e, "contact"@), "contact"@);
            lemma_collected(start, found, more, base);
            found = found + more;
        }
        audit_member::<License>(v, "license", at, out);
        proof {
            let more = ignored_under::<License>(find(e, "license"@), "license"@);
            lemma_collected(start, found, more, base);
            found = found + more;
        }
    }

    proof fn clean(m: InfoV) {
        Info::lemma_members(m);
        let e = Self::to_json(m)->Object_0;
        assert forall|i: int| 0 <= i < e.len() implies Info::known(
            #[trigger] e[i].0,
        ) by {
            lemma_key_present(e, i);
            Info::lemma_written_keys(m, e[i].0);
        }
        lemma_all_known::<Info>(e, e.len());
        if m.contact is Some {
            lemma_under_clean::<Contact>(find(e, "contact"@), "contact"@, m.contact->0);
        }
        if m.license is Some {
            lemma_under_clean::<License>(find(e, "license"@), "license"@, m.license->0);
        }
        assert(Seq::<PathV>::empty() + Seq::<PathV>::empty() =~= Seq::<PathV>::empty());
    }
}

/// A pointer to documentation that lives elsewhere.
#[derive(Clone, Debug, PartialEq)]
pub struct ExternalDocumentation {
    /// What the documentation covers.
    pub description: Option<String>,
    /// Where the documentation is found.
    pub url: Option<String>,
}

/// The model of a [`ExternalDocumentation`].
pub struct ExternalDocumentationV {
    pub description: Option<Seq<char>>,
    pub url: Option<Seq<char>>,
}

impl Model for ExternalDocumentation {
    type M = ExternalDocumentationV;

    open spec fn model(&self) -> ExternalDocumentationV {
        ExternalDocumentationV {
            description: self.description.model(),
            url: self.url.model(),
        }
    }
}

impl ExternalDocumentation {
    /// The model of the default value: every optional field absent, every list
    /// and mapping empty, every flag off.
    pub open spec fn default_model() -> ExternalDocumentationV {
        ExternalDocumentationV {
            description: None,
            url: None,
        }
    }
}

impl Default for ExternalDocumentation {
    fn default() -> (r: ExternalDocumentation)
        ensures
            r.model() == ExternalDocumentation::default_model(),
    {
        let r = ExternalDocumentation {
            description: None,
            url: None,
        };
        r
    }
}

impl Binding for ExternalDocumentation {
    open spec fn from_json(t: JsonV) -> Result<ExternalDocumentationV, DecodeErrorV> {
        match t {
            JsonV::Object(e) => {
                let description = optional_field::<String>(e, "description"@);
                let url = optional_field::<String>(e, "url"@);
                if description is Err {
                    Err(description->Err_0)
                } else if url is Err {
                    Err(url->Err_0)
                } else {
                    Ok(
                        ExternalDocumentationV {
                            description: description->Ok_0,
                            url: url->Ok_0,
                        },
                    )
                }
            },
            _ => Err(mismatch(Expected::Object, t)),
        }
    }

    open spec fn to_json(m: ExternalDocumentationV) -> JsonV {
        let e: Members = Seq::empty();
        let e = with_member(e, "description"@, optional_json::<String>(m.description));
        let e = with_member(e, "url"@, optional_json::<String>(m.url));
        JsonV::Object(e)
    }

    fn decode(v: &Value) -> (r: Result<ExternalDocumentation, DecodeError>) {
        match kind_of(v) {
            Kind::Object => {},
            found => {
                return Err(DecodeError::mismatch(Expected::Object, found));
            },
        }
        let description = read_optional::<String>(v, "description")?;
        let url = read_optional::<String>(v, "url")?;
        Ok(ExternalDocumentation { description, url })
    }

    fn encode(&self) -> (v: Value) {
        let mut o = empty_object();
        put_optional::<String>(&mut o, "description", &self.description);
        put_optional::<String>(&mut o, "url", &self.url);
        o
    }

    proof fn round_trip(m: ExternalDocumentationV) {
        let e = Self::to_json(m)->Object_0;
        Self::lemma_members(m);
        lemma_optional::<String>(e, "description"@, m.description);
        lemma_optional::<String>(e, "url"@, m.url);
    }
}

impl Record for ExternalDocumentation {
    proof fn written_as_record(m: ExternalDocumentationV) {
        Self::lemma_written_keys(m, "$ref"@);
        Self::lemma_spelling();
    }
}

impl ExternalDocumentation {
    /// Which keys are written: a required field always, an optional field where
    /// it is present, a list or a mapping where it is not empty, a flag where
    /// it is set. Nothing else is written.
    pub proof fn lemma_written_keys(m: ExternalDocumentationV, key: Seq<char>)
        ensures
            ExternalDocumentation::to_json(m) is Object,
            has_key(
                ExternalDocumentation::to_json(m)->Object_0,
                "description"@,
            ) == (m.description is Some),
            has_key(ExternalDocumentation::to_json(m)->Object_0, "url"@) == (m.url is Some),
            has_key(ExternalDocumentation::to_json(m)->Object_0, key) ==> {
                ||| key == "description"@
                ||| key == "url"@
            },
    {
        lemma_with_member();
        Self::lemma_spelling();
    }

    /// What stands under each key of what a value is written as.
    pub proof fn lemma_members(m: ExternalDocumentationV)
        ensures
            find(
                ExternalDocumentation::to_json(m)->Object_0,
                "description"@,
            ) == optional_json::<String>(m.description),
            find(
                ExternalDocumentation::to_json(m)->Object_0,
                "url"@,
            ) == optional_json::<String>(m.url),
    {
        lemma_with_member();
        Self::lemma_spelling();
    }

    /// How the keys are spelled, as far as it takes to tell them apart.
    proof fn lemma_spelling()
        ensures
            "$ref"@.len() == 4,
            "description"@.len() == 11,
            "url"@.len() == 3,
    {
        reveal_strlit("$ref");
        reveal_strlit("description");
        reveal_strlit("url");
    }
}

impl Keys for ExternalDocumentation {
    open spec fn known(key: Seq<char>) -> bool {
        ||| key == "description"@
        ||| key == "url"@
    }

    fn knows(key: &str) -> (b: bool) {
        same_text(key, "description")
            || same_text(key, "url")
    }
}

impl Audit for ExternalDocumentation {
    open spec fn ignored(t: JsonV) -> Seq<PathV> {
        match t {
            JsonV::Object(e) => unknown_keys::<ExternalDocumentation>(e, e.len()),
            _ => Seq::empty(),
        }
    }

    fn audit(v: &Value, at: &mut Vec<Segment>, out: &mut Vec<Vec<Segment>>) {
        let ghost start = out.model();
        let ghost base = at.model();
        proof {
            lemma_collected(start, Seq::empty(), Seq::empty(), base);
        }
        match kind_of(v) {
            Kind::Object => {},
            _ => {
                return;
            },
        }
        report_unknown::<ExternalDocumentation>(v, at, out);
    }

    proof fn clean(m: ExternalDocumentationV) {
        ExternalDocumentation::lemma_members(m);
        let e = Self::to_json(m)->Object_0;
        assert forall|i: int| 0 <= i < e.len() implies ExternalDocumentation::known(
            #[trigger] e[i].0,
        ) by {
            lemma_key_present(e, i);
            ExternalDocumentation::lemma_written_keys(m, e[i].0);
        }
        lemma_all_known::<ExternalDocumentation>(e, e.len());
    }
}

/// A tag by which operations are grouped.
#[derive(Clone, Debug, PartialEq)]
pub struct Tag {
    /// The name of the tag.
    pub name: Option<String>,
    /// What the tag stands for.
    pub description: Option<String>,
    /// Documentation that lives elsewhere.
    pub external_docs: Option<ExternalDocumentation>,
}

/// The model of a [`Tag`].
pub struct TagV {
    pub name: Option<Seq<char>>,
    pub description: Option<Seq<char>>,
    pub external_docs: Option<ExternalDocumentationV>,
}

impl Model for Tag {
    type M = TagV;

    open spec fn model(&self) -> TagV {
        TagV {
            name: self.name.model(),
            description: self.description.model(),
            external_docs: self.external_docs.model(),
        }
    }
}

impl Tag {
    /// The model of the default value: every optional field absent, every list
    /// and mapping empty, every flag off.
    pub open spec fn default_model() -> TagV {
        TagV {
            name: None,
            description: None,
            external_docs: None,
        }
    }
}

impl Default for Tag {
    fn default() -> (r: Tag)
        ensures
            r.model() == Tag::default_model(),
    {
        let r = Tag {
            name: None,
            description: None,
            external_docs: None,
        };
        r
    }
}

impl Binding for Tag {
    open spec fn from_json(t: JsonV) -> Result<TagV, DecodeErrorV> {
        match t {
            JsonV::Object(e) => {
                let name = optional_field::<String>(e, "name"@);
                let description = optional_field::<String>(e, "description"@);
                let external_docs = optional_field::<ExternalDocumentation>(e, "externalDocs"@);
                if name is Err {
                    Err(name->Err_0)
                } else if description is Err {
                    Err(description->Err_0)
                } else if external_docs is Err {
                    Err(external_docs->Err_0)
                } else {
                    Ok(
                        TagV {
                            name: name->Ok_0,
                            description: description->Ok_0,
                            external_docs: external_docs->Ok_0,
                        },
                    )
                }
            },
            _ => Err(mismatch(Expected::Object, t)),
        }
    }

    open spec fn to_json(m: TagV) -> JsonV {
        let e: Members = Seq::empty();
        let e = with_member(e, "name"@, optional_json::<String>(m.name));
        let e = with_member(e, "description"@, optional_json::<String>(m.description));
        let e = with_member(
            e,
            "externalDocs"@,
            optional_json::<ExternalDocumentation>(m.external_docs),
        );
        JsonV::Object(e)
    }

    fn decode(v: &Value) -> (r: Result<Tag, DecodeError>) {
        match kind_of(v) {
            Kind::Object => {},
            found => {
                return Err(DecodeError::mismatch(Expected::Object, found));
            },
        }
        let name = read_optional::<String>(v, "name")?;
        let description = read_optional::<String>(v, "description")?;
        let external_docs = read_optional::<ExternalDocumentation>(v, "externalDocs")?;
        Ok(Tag { name, description, external_docs })
    }

    fn encode(&self) -> (v: Value) {
        let mut o = empty_object();
        put_optional::<String>(&mut o, "name", &self.name);
        put_optional::<String>(&mut o, "description", &self.description);
        put_optional::<ExternalDocumentation>(&mut o, "externalDocs", &self.external_docs);
        o
    }

    proof fn round_trip(m: TagV) {
        let e = Self::to_json(m)->Object_0;
        Self::lemma_members(m);
        lemma_optional::<String>(e, "name"@, m.name);
        lemma_optional::<String>(e, "description"@, m.description);
        lemma_optional::<ExternalDocumentation>(e, "externalDocs"@, m.external_docs);
    }
}

impl Record for Tag {
    proof fn written_as_record(m: TagV) {
        Self::lemma_written_keys(m, "$ref"@);
        Self::lemma_spelling();
    }
}

impl Tag {
    /// Which keys are written: a required field always, an optional field where
    /// it is present, a list or a mapping where it is not empty, a flag where
    /// it is set. Nothing else is written.
    pub proof fn lemma_written_keys(m: TagV, key: Seq<char>)
        ensures
            Tag::to_json(m) is Object,
            has_key(Tag::to_json(m)->Object_0, "name"@) == (m.name is Some),
            has_key(Tag::to_json(m)->Object_0, "description"@) == (m.description is Some),
            has_key(Tag::to_json(m)->Object_0, "externalDocs"@) == (m.external_docs is Some),
            has_key(Tag::to_json(m)->Object_0, key) ==> {
                ||| key == "name"@
                ||| key == "description"@
                ||| key == "externalDocs"@
            },
    {
        lemma_with_member();
        Self::lemma_spelling();
    }

    /// What stands under each key of what a value is written as.
    pub proof fn lemma_members(m: TagV)
        ensures
            find(Tag::to_json(m)->Object_0, "name"@) == optional_json::<String>(m.name),
            find(
                Tag::to_json(m)->Object_0,
                "description"@,
            ) == optional_json::<String>(m.description),
            find(
                Tag::to_json(m)->Object_0,
                "externalDocs"@,
            ) == optional_json::<ExternalDocumentation>(m.external_docs),
    {
        lemma_with_member();
        Self::lemma_spelling();
    }

    /// How the keys are spelled, as far as it takes to tell them apart.
    proof fn lemma_spelling()
        ensures
            "$ref"@.len() == 4,
            "name"@.len() == 4,
            "description"@.len() == 11,
            "externalDocs"@.len() == 12,
            "$ref"@[0] == '$',
            "name"@[0] == 'n',
    {
        reveal_strlit("$ref");
        reveal_strlit("name");
        reveal_strlit("description");
        reveal_strlit("externalDocs");
    }
}

impl Keys for Tag {
    open spec fn known(key: Seq<char>) -> bool {
        ||| key == "name"@
        ||| key == "description"@
        ||| key == "externalDocs"@
    }

    fn knows(key: &str) -> (b: bool) {
        same_text(key, "name")
            || same_text(key, "description")
            || same_text(key, "externalDocs")
    }
}

impl Audit for Tag {
    open spec fn ignored(t: JsonV) -> Seq<PathV> {
        match t {
            JsonV::Object(e) => {
                let found = unknown_keys::<Tag>(e, e.len());
                let found = found + ignored_under::<ExternalDocumentation>(
                    find(e, "externalDocs"@),
                    "externalDocs"@,
                );
                found
            },
            _ => Seq::empty(),
        }
    }

    fn audit(v: &Value, at: &mut Vec<Segment>, out: &mut Vec<Vec<Segment>>) {
        let ghost start = out.model();
        let ghost base = at.model();
        proof {
            lemma_collected(start, Seq::empty(), Seq::empty(), base);
        }
        match kind_of(v) {
            Kind::Object => {},
            _ => {
                return;
            },
        }
        let ghost e = value_tree(*v)->Object_0;
        let ghost found = unknown_keys::<Tag>(e, e.len());
        report_unknown::<Tag>(v, at, out);
        audit_member::<ExternalDocumentation>(v, "externalDocs", at, out);
        proof {
            let more = ignored_under::<ExternalDocumentation>(
                find(e, "externalDocs"@),
                "externalDocs"@,
            );
            lemma_collected(start, found, more, base);
            found = found + more;
        }
    }

    proof fn clean(m: TagV) {
        Tag::lemma_members(m);
        let e = Self::to_json(m)->Object_0;
        assert forall|i: int| 0 <= i < e.len() implies Tag::known(
            #[trigger] e[i].0,
        ) by {
            lemma_key_present(e, i);
            Tag::lemma_written_keys(m, e[i].0);
        }
        lemma_all_known::<Tag>(e, e.len());
        if m.external_docs is Some {
            lemma_under_clean::<ExternalDocumentation>(
                find(e, "externalDocs"@),
                "externalDocs"@,
                m.external_docs->0,
            );
        }
        assert(Seq::<PathV>::empty() + Seq::<PathV>::empty() =~= Seq::<PathV>::empty());
    }
}

} // verus!
