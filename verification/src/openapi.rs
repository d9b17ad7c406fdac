//! The root of a document.

use vstd::prelude::*;
use serde_json::Value;
use crate::audit::{
    audit_member, ignored_under, lemma_all_known, lemma_collected, lemma_under_clean,
    report_unknown, unknown_keys, Audit, Keys,
};
use crate::binding::Binding;
use crate::error::{mismatch, DecodeError, DecodeErrorV, Expected, PathV, Segment};
use crate::fields::{
    lemma_list, lemma_map, lemma_optional, lemma_required, lemma_with_member, list_field,
    list_json, map_field, map_json, optional_field, optional_json, put_list, put_map, put_optional,
    put_required, read_list, read_map, read_optional, read_required, required_field, required_json,
    with_member, Members,
};
use crate::info::{ExternalDocumentation, ExternalDocumentationV, Info, InfoV, Tag, TagV};
use crate::json::{
    empty_object, find, has_key, kind_of, lemma_key_present, same_text, value_tree, JsonV, Kind,
};
use crate::model::Model;
use crate::ordered::OrderedMap;
use crate::parameter::{Parameter, ParameterV};
use crate::paths::{PathItem, PathItemV};
use crate::reference::{RefOrV, ReferenceOr};
use crate::schema::{
    Response, ResponseV, Schema, SchemaV, Scheme, SecurityRequirement, SecurityRequirementV,
};
use crate::security::{Security, SecurityV};

verus! {

/// The root of a document. The version under `swagger` is kept as it stands and
/// not held to `2.0`.
#[derive(Clone, Debug, PartialEq)]
pub struct OpenAPI {
    /// The version of the format.
    pub swagger: String,
    /// What the API is.
    pub info: Info,
    /// The host that serves the API.
    pub host: Option<String>,
    /// The path under which the API is served.
    pub base_path: Option<String>,
    /// The transfer protocols.
    pub schemes: Vec<Scheme>,
    /// The MIME types that the API accepts.
    pub consumes: Vec<String>,
    /// The MIME types that the API answers with.
    pub produces: Vec<String>,
    /// The paths, in the order of the document. The key is always written, also
    /// where there is no path.
    pub paths: OrderedMap<ReferenceOr<PathItem>>,
    /// The schemas by name, in the order of the document.
    pub definitions: OrderedMap<ReferenceOr<Schema>>,
    /// The parameters by name, in the order of the document.
    pub parameters: OrderedMap<Parameter>,
    /// The responses by name, in the order of the document.
    pub responses: OrderedMap<Response>,
    /// The security schemes by name, in the order of the document.
    pub security_definitions: OrderedMap<Security>,
    /// The security schemes that the API asks for.
    pub security: Vec<SecurityRequirement>,
    /// The tags of the operations.
    pub tags: Vec<Tag>,
    /// Documentation that lives elsewhere.
    pub external_docs: Option<ExternalDocumentation>,
}

/// The model of a [`OpenAPI`].
pub struct OpenAPIV {
    pub swagger: Seq<char>,
    pub info: InfoV,
    pub host: Option<Seq<char>>,
    pub base_path: Option<Seq<char>>,
    pub schemes: Seq<Scheme>,
    pub consumes: Seq<Seq<char>>,
    pub produces: Seq<Seq<char>>,
    pub paths: Seq<(Seq<char>, RefOrV<PathItemV>)>,
    pub definitions: Seq<(Seq<char>, RefOrV<SchemaV>)>,
    pub parameters: Seq<(Seq<char>, ParameterV)>,
    pub responses: Seq<(Seq<char>, ResponseV)>,
    pub security_definitions: Seq<(Seq<char>, SecurityV)>,
    pub security: Seq<SecurityRequirementV>,
    pub tags: Seq<TagV>,
    pub external_docs: Option<ExternalDocumentationV>,
}

impl Model for OpenAPI {
    type M = OpenAPIV;

    open spec fn model(&self) -> OpenAPIV {
        OpenAPIV {
            swagger: self.swagger.model(),
            info: self.info.model(),
            host: self.host.model(),
            base_path: self.base_path.model(),
            schemes: self.schemes.model(),
            consumes: self.consumes.model(),
            produces: self.produces.model(),
            paths: self.paths.model(),
            definitions: self.definitions.model(),
            parameters: self.parameters.model(),
            responses: self.responses.model(),
            security_definitions: self.security_definitions.model(),
            security: self.security.model(),
            tags: self.tags.model(),
            external_docs: self.external_docs.model(),
        }
    }
}

impl OpenAPI {
    /// The model of the default value: every optional field absent, every list
    /// and mapping empty, every flag off.
    pub open spec fn default_model() -> OpenAPIV {
        OpenAPIV {
            swagger: Seq::empty(),
            info: Info::default_model(),
            host: None,
            base_path: None,
            schemes: Seq::empty(),
            consumes: Seq::empty(),
            produces: Seq::empty(),
            paths: Seq::empty(),
            definitions: Seq::empty(),
            parameters: Seq::empty(),
            responses: Seq::empty(),
            security_definitions: Seq::empty(),
            security: Seq::empty(),
            tags: Seq::empty(),
            external_docs: None,
        }
    }
}

impl Default for OpenAPI {
    fn default() -> (r: OpenAPI)
        ensures
            r.model() == OpenAPI::default_model(),
    {
        let r = OpenAPI {
            swagger: String::new(),
            info: Info::default(),
            host: None,
            base_path: None,
            schemes: Vec::new(),
            consumes: Vec::new(),
            produces: Vec::new(),
            paths: OrderedMap::new(),
            definitions: OrderedMap::new(),
            parameters: OrderedMap::new(),
            responses: OrderedMap::new(),
            security_definitions: OrderedMap::new(),
            security: Vec::new(),
            tags: Vec::new(),
            external_docs: None,
        };
        assert(r.model().schemes =~= Seq::empty());
        assert(r.model().consumes =~= Seq::empty());
        assert(r.model().produces =~= Seq::empty());
        assert(r.model().paths =~= Seq::empty());
        assert(r.model().definitions =~= Seq::empty());
        assert(r.model().parameters =~= Seq::empty());
        assert(r.model().responses =~= Seq::empty());
        assert(r.model().security_definitions =~= Seq::empty());
        assert(r.model().security =~= Seq::empty());
        assert(r.model().tags =~= Seq::empty());
        r
    }
}

impl Binding for OpenAPI {
    open spec fn from_json(t: JsonV) -> Result<OpenAPIV, DecodeErrorV> {
        match t {
            JsonV::Object(e) => {
                let swagger = required_field::<String>(e, "swagger"@);
                let info = required_field::<Info>(e, "info"@);
                let host = optional_field::<String>(e, "host"@);
                let base_path = optional_field::<String>(e, "basePath"@);
                let schemes = list_field::<Scheme>(e, "schemes"@);
                let consumes = list_field::<String>(e, "consumes"@);
                let produces = list_field::<String>(e, "produces"@);
                let paths = map_field::<ReferenceOr<PathItem>>(e, "paths"@);
                let definitions = map_field::<ReferenceOr<Schema>>(e, "definitions"@);
                let parameters = map_field::<Parameter>(e, "parameters"@);
                let responses = map_field::<Response>(e, "responses"@);
                let security_definitions = map_field::<Security>(e, "securityDefinitions"@);
                let security = list_field::<SecurityRequirement>(e, "security"@);
                let tags = list_field::<Tag>(e, "tags"@);
                let external_docs = optional_field::<ExternalDocumentation>(e, "externalDocs"@);
                if swagger is Err {
                    Err(swagger->Err_0)
                } else if info is Err {
                    Err(info->Err_0)
                } else if host is Err {
                    Err(host->Err_0)
                } else if base_path is Err {
                    Err(base_path->Err_0)
                } else if schemes is Err {
                    Err(schemes->Err_0)
                } else if consumes is Err {
                    Err(consumes->Err_0)
                } else if produces is Err {
                    Err(produces->Err_0)
                } else if paths is Err {
                    Err(paths->Err_0)
                } else if definitions is Err {
                    Err(definitions->Err_0)
                } else if parameters is Err {
                    Err(parameters->Err_0)
                } else if responses is Err {
                    Err(responses->Err_0)
                } else if security_definitions is Err {
                    Err(security_definitions->Err_0)
                } else if security is Err {
                    Err(security->Err_0)
                } else if tags is Err {
                    Err(tags->Err_0)
                } else if external_docs is Err {
                    Err(external_docs->Err_0)
                } else {
                    Ok(
                        OpenAPIV {
                            swagger: swagger->Ok_0,
                            info: info->Ok_0,
                            host: host->Ok_0,
                            base_path: base_path->Ok_0,
                            schemes: schemes->Ok_0,
                            consumes: consumes->Ok_0,
                            produces: produces->Ok_0,
                            paths: paths->Ok_0,
                            definitions: definitions->Ok_0,
                            parameters: parameters->Ok_0,
                            responses: responses->Ok_0,
                            security_definitions: security_definitions->Ok_0,
                            security: security->Ok_0,
                            tags: tags->Ok_0,
                            external_docs: external_docs->Ok_0,
                        },
                    )
                }
            },
            _ => Err(mismatch(Expected::Object, t)),
        }
    }

    open spec fn to_json(m: OpenAPIV) -> JsonV {
        let e: Members = Seq::empty();
        let e = with_member(e, "swagger"@, required_json::<String>(m.swagger));
        let e = with_member(e, "info"@, required_json::<Info>(m.info));
        let e = with_member(e, "host"@, optional_json::<String>(m.host));
        let e = with_member(e, "basePath"@, optional_json::<String>(m.base_path));
        let e = with_member(e, "schemes"@, list_json::<Scheme>(m.schemes));
        let e = with_member(e, "consumes"@, list_json::<String>(m.consumes));
        let e = with_member(e, "produces"@, list_json::<String>(m.produces));
        let e = with_member(
            e,
            "paths"@,
            required_json::<OrderedMap<ReferenceOr<PathItem>>>(m.paths),
        );
        let e = with_member(e, "definitions"@, map_json::<ReferenceOr<Schema>>(m.definitions));
        let e = with_member(e, "parameters"@, map_json::<Parameter>(m.parameters));
        let e = with_member(e, "responses"@, map_json::<Response>(m.responses));
        let e = with_member(
            e,
            "securityDefinitions"@,
            map_json::<Security>(m.security_definitions),
        );
        let e = with_member(e, "security"@, list_json::<SecurityRequirement>(m.security));
        let e = with_member(e, "tags"@, list_json::<Tag>(m.tags));
        let e = with_member(
            e,
            "externalDocs"@,
            optional_json::<ExternalDocumentation>(m.external_docs),
        );
        JsonV::Object(e)
    }

    fn decode(v: &Value) -> (r: Result<OpenAPI, DecodeError>) {
        match kind_of(v) {
            Kind::Object => {},
            found => {
                return Err(DecodeError::mismatch(Expected::Object, found));
            },
        }
        let swagger = read_required::<String>(v, "swagger")?;
        let info = read_required::<Info>(v, "info")?;
        let host = read_optional::<String>(v, "host")?;
        let base_path = read_optional::<String>(v, "basePath")?;
        let schemes = read_list::<Scheme>(v, "schemes")?;
        let consumes = read_list::<String>(v, "consumes")?;
        let produces = read_list::<String>(v, "produces")?;
        let paths = read_map::<ReferenceOr<PathItem>>(v, "paths")?;
        let definitions = read_map::<ReferenceOr<Schema>>(v, "definitions")?;
        let parameters = read_map::<Parameter>(v, "parameters")?;
        let responses = read_map::<Response>(v, "responses")?;
        let security_definitions = read_map::<Security>(v, "securityDefinitions")?;
        let security = read_list::<SecurityRequirement>(v, "security")?;
        let tags = read_list::<Tag>(v, "tags")?;
        let external_docs = read_optional::<ExternalDocumentation>(v, "externalDocs")?;
        Ok(
            OpenAPI {
                swagger,
                info,
                host,
                base_path,
                schemes,
                consumes,
                produces,
                paths,
                definitions,
                parameters,
                responses,
                security_definitions,
                security,
                tags,
                external_docs,
            },
        )
    }

    fn encode(&self) -> (v: Value) {
        let mut o = empty_object();
        put_required::<String>(&mut o, "swagger", &self.swagger);
        put_required::<Info>(&mut o, "info", &self.info);
        put_optional::<String>(&mut o, "host", &self.host);
        put_optional::<String>(&mut o, "basePath", &self.base_path);
        put_list::<Scheme>(&mut o, "schemes", &self.schemes);
        put_list::<String>(&mut o, "consumes", &self.consumes);
        put_list::<String>(&mut o, "produces", &self.produces);
        put_required::<OrderedMap<ReferenceOr<PathItem>>>(&mut o, "paths", &self.paths);
        put_map::<ReferenceOr<Schema>>(&mut o, "definitions", &self.definitions);
        put_map::<Parameter>(&mut o, "parameters", &self.parameters);
        put_map::<Response>(&mut o, "responses", &self.responses);
        put_map::<Security>(&mut o, "securityDefinitions", &self.security_definitions);
        put_list::<SecurityRequirement>(&mut o, "security", &self.security);
        put_list::<Tag>(&mut o, "tags", &self.tags);
        put_optional::<ExternalDocumentation>(&mut o, "externalDocs", &self.external_docs);
        o
    }

    proof fn round_trip(m: OpenAPIV) {
        let e = Self::to_json(m)->Object_0;
        Self::lemma_members(m);
        lemma_required::<String>(e, "swagger"@, m.swagger);
        lemma_required::<Info>(e, "info"@, m.info);
        lemma_optional::<String>(e, "host"@, m.host);
        lemma_optional::<String>(e, "basePath"@, m.base_path);
        lemma_list::<Scheme>(e, "schemes"@, m.schemes);
        lemma_list::<String>(e, "consumes"@, m.consumes);
        lemma_list::<String>(e, "produces"@, m.produces);
        lemma_map::<ReferenceOr<PathItem>>(e, "paths"@, m.paths);
        lemma_map::<ReferenceOr<Schema>>(e, "definitions"@, m.definitions);
        lemma_map::<Parameter>(e, "parameters"@, m.parameters);
        lemma_map::<Response>(e, "responses"@, m.responses);
        lemma_map::<Security>(e, "securityDefinitions"@, m.security_definitions);
        lemma_list::<SecurityRequirement>(e, "security"@, m.security);
        lemma_list::<Tag>(e, "tags"@, m.tags);
        lemma_optional::<ExternalDocumentation>(e, "externalDocs"@, m.external_docs);
    }
}

impl OpenAPI {
    /// Which keys are written: a required field always, an optional field where
    /// it is present, a list or a mapping where it is not empty, a flag where
    /// it is set. Nothing else is written.
    pub proof fn lemma_written_keys(m: OpenAPIV, key: Seq<char>)
        ensures
            OpenAPI::to_json(m) is Object,
            has_key(OpenAPI::to_json(m)->Object_0, "swagger"@),
            has_key(OpenAPI::to_json(m)->Object_0, "info"@),
            has_key(OpenAPI::to_json(m)->Object_0, "host"@) == (m.host is Some),
            has_key(OpenAPI::to_json(m)->Object_0, "basePath"@) == (m.base_path is Some),
            has_key(OpenAPI::to_json(m)->Object_0, "schemes"@) == (m.schemes.len() > 0),
            has_key(OpenAPI::to_json(m)->Object_0, "consumes"@) == (m.consumes.len() > 0),
            has_key(OpenAPI::to_json(m)->Object_0, "produces"@) == (m.produces.len() > 0),
            has_key(OpenAPI::to_json(m)->Object_0, "paths"@),
            has_key(OpenAPI::to_json(m)->Object_0, "definitions"@) == (m.definitions.len() > 0),
            has_key(OpenAPI::to_json(m)->Object_0, "parameters"@) == (m.parameters.len() > 0),
            has_key(OpenAPI::to_json(m)->Object_0, "responses"@) == (m.responses.len() > 0),
            has_key(
                OpenAPI::to_json(m)->Object_0,
                "securityDefinitions"@,
            ) == (m.security_definitions.len() > 0),
            has_key(OpenAPI::to_json(m)->Object_0, "security"@) == (m.security.len() > 0),
            has_key(OpenAPI::to_json(m)->Object_0, "tags"@) == (m.tags.len() > 0),
            has_key(OpenAPI::to_json(m)->Object_0, "externalDocs"@) == (m.external_docs is Some),
            has_key(OpenAPI::to_json(m)->Object_0, key) ==> {
                ||| key == "swagger"@
                ||| key == "info"@
                ||| key == "host"@
                ||| key == "basePath"@
                ||| key == "schemes"@
                ||| key == "consumes"@
                ||| key == "produces"@
                ||| key == "paths"@
                ||| key == "definitions"@
                ||| key == "parameters"@
                ||| key == "responses"@
                ||| key == "securityDefinitions"@
                ||| key == "security"@
                ||| key == "tags"@
                ||| key == "externalDocs"@
            },
    {
        lemma_with_member();
        Self::lemma_spelling();
    }

    /// What stands under each key of what a value is written as.
    pub proof fn lemma_members(m: OpenAPIV)
        ensures
            find(OpenAPI::to_json(m)->Object_0, "swagger"@) == required_json::<String>(m.swagger),
            find(OpenAPI::to_json(m)->Object_0, "info"@) == required_json::<Info>(m.info),
            find(OpenAPI::to_json(m)->Object_0, "host"@) == optional_json::<String>(m.host),
            find(
                OpenAPI::to_json(m)->Object_0,
                "basePath"@,
            ) == optional_json::<String>(m.base_path),
            find(OpenAPI::to_json(m)->Object_0, "schemes"@) == list_json::<Scheme>(m.schemes),
            find(OpenAPI::to_json(m)->Object_0, "consumes"@) == list_json::<String>(m.consumes),
            find(OpenAPI::to_json(m)->Object_0, "produces"@) == list_json::<String>(m.produces),
            find(
                OpenAPI::to_json(m)->Object_0,
                "paths"@,
            ) == required_json::<OrderedMap<ReferenceOr<PathItem>>>(m.paths),
            find(
                OpenAPI::to_json(m)->Object_0,
                "definitions"@,
            ) == map_json::<ReferenceOr<Schema>>(m.definitions),
            find(
                OpenAPI::to_json(m)->Object_0,
                "parameters"@,
            ) == map_json::<Parameter>(m.parameters),
            find(OpenAPI::to_json(m)->Object_0, "responses"@) == map_json::<Response>(m.responses),
            find(
                OpenAPI::to_json(m)->Object_0,
                "securityDefinitions"@,
            ) == map_json::<Security>(m.security_definitions),
            find(
                OpenAPI::to_json(m)->Object_0,
                "security"@,
            ) == list_json::<SecurityRequirement>(m.security),
            find(OpenAPI::to_json(m)->Object_0, "tags"@) == list_json::<Tag>(m.tags),
            find(
                OpenAPI::to_json(m)->Object_0,
                "externalDocs"@,
            ) == optional_json::<ExternalDocumentation>(m.external_docs),
    {
        lemma_with_member();
        Self::lemma_spelling();
    }

    /// How the keys are spelled, as far as it takes to tell them apart.
    proof fn lemma_spelling()
        ensures
            "$ref"@.len() == 4,
            "swagger"@.len() == 7,
            "info"@.len() == 4,
            "host"@.len() == 4,
            "basePath"@.len() == 8,
            "schemes"@.len() == 7,
            "consumes"@.len() == 8,
            "produces"@.len() == 8,
            "paths"@.len() == 5,
            "definitions"@.len() == 11,
            "parameters"@.len() == 10,
            "responses"@.len() == 9,
            "securityDefinitions"@.len() == 19,
            "security"@.len() == 8,
            "tags"@.len() == 4,
            "externalDocs"@.len() == 12,
            "$ref"@[0] == '$',
            "info"@[0] == 'i',
            "host"@[0] == 'h',
            "tags"@[0] == 't',
            "swagger"@[1] == 'w',
            "schemes"@[1] == 'c',
            "basePath"@[0] == 'b',
            "consumes"@[0] == 'c',
            "produces"@[0] == 'p',
            "security"@[0] == 's',
    {
        reveal_strlit("$ref");
        reveal_strlit("swagger");
        reveal_strlit("info");
        reveal_strlit("host");
        reveal_strlit("basePath");
        reveal_strlit("schemes");
        reveal_strlit("consumes");
        reveal_strlit("produces");
        reveal_strlit("paths");
        reveal_strlit("definitions");
        reveal_strlit("parameters");
        reveal_strlit("responses");
        reveal_strlit("securityDefinitions");
        reveal_strlit("security");
        reveal_strlit("tags");
        reveal_strlit("externalDocs");
    }
}

impl Keys for OpenAPI {
    open spec fn known(key: Seq<char>) -> bool {
        ||| key == "swagger"@
        ||| key == "info"@
        ||| key == "host"@
        ||| key == "basePath"@
        ||| key == "schemes"@
        ||| key == "consumes"@
        ||| key == "produces"@
        ||| key == "paths"@
        ||| key == "definitions"@
        ||| key == "parameters"@
        ||| key == "responses"@
        ||| key == "securityDefinitions"@
        ||| key == "security"@
        ||| key == "tags"@
        ||| key == "externalDocs"@
    }

    fn knows(key: &str) -> (b: bool) {
        same_text(key, "swagger")
            || same_text(key, "info")
            || same_text(key, "host")
            || same_text(key, "basePath")
            || same_text(key, "schemes")
            || same_text(key, "consumes")
            || same_text(key, "produces")
            || same_text(key, "paths")
            || same_text(key, "definitions")
            || same_text(key, "parameters")
            || same_text(key, "responses")
            || same_text(key, "securityDefinitions")
            || same_text(key, "security")
            || same_text(key, "tags")
            || same_text(key, "externalDocs")
    }
}

impl Audit for OpenAPI {
    open spec fn ignored(t: JsonV) -> Seq<PathV> {
        match t {
            JsonV::Object(e) => {
                let found = unknown_keys::<OpenAPI>(e, e.len());
                let found = found + ignored_under::<Info>(find(e, "info"@), "info"@);
                let found = found + ignored_under::<OrderedMap<ReferenceOr<PathItem>>>(
                    find(e, "paths"@),
                    "paths"@,
                );
                let found = found + ignored_under::<OrderedMap<ReferenceOr<Schema>>>(
                    find(e, "definitions"@),
                    "definitions"@,
                );
                let found = found + ignored_under::<OrderedMap<Parameter>>(
                    find(e, "parameters"@),
                    "parameters"@,
                );
                let found = found + ignored_under::<OrderedMap<Response>>(
                    find(e, "responses"@),
                    "responses"@,
                );
                let found = found + ignored_under::<OrderedMap<Security>>(
                    find(e, "securityDefinitions"@),
                    "securityDefinitions"@,
                );
                let found = found + ignored_under::<Vec<Tag>>(find(e, "tags"@), "tags"@);
                let found = found + ignored_under::<ExternalDocumentation>(
                    find(e, "externalDocs"@),
                    "externalDocs"@,
                );
                found
            },
            _ => Seq::empty(),
        }
    }

    fn audit(v: &Value, at: &mut Vec<Segment>, out: &mut Vec<Vec<Segment>>) {
        let ghost start = out.model();
        let ghost base = at.model();
        proof {
            lemma_collected(start, Seq::empty(), Seq::empty(), base);
        }
        match kind_of(v) {
            Kind::Object => {},
            _ => {
                return;
            },
        }
        let ghost e = value_tree(*v)->Object_0;
        let ghost found = unknown_keys::<OpenAPI>(e, e.len());
        report_unknown::<OpenAPI>(v, at, out);
        audit_member::<Info>(v, "info", at, out);
        proof {
            let more = ignored_under::<Info>(find(e, "info"@), "info"@);
            lemma_collected(start, found, more, base);
            found = found + more;
        }
        audit_member::<OrderedMap<ReferenceOr<PathItem>>>(v, "paths", at, out);
        proof {
            let more = ignored_under::<OrderedMap<ReferenceOr<PathItem>>>(
                find(e, "paths"@),
                "paths"@,
            );
            lemma_collected(start, found, more, base);
            found = found + more;
        }
        audit_member::<OrderedMap<ReferenceOr<Schema>>>(v, "definitions", at, out);
        proof {
            let more = ignored_under::<OrderedMap<ReferenceOr<Schema>>>(
                find(e, "definitions"@),
                "definitions"@,
            );
            lemma_collected(start, found, more, base);
            found = found + more;
        }
        audit_member::<OrderedMap<Parameter>>(v, "parameters", at, out);
        proof {
            let more = ignored_under::<OrderedMap<Parameter>>(
                find(e, "parameters"@),
                "parameters"@,
            );
            lemma_collected(start, found, more, base);
            found = found + more;
        }
        audit_member::<OrderedMap<Response>>(v, "responses", at, out);
        proof {
            let more = ignored_under::<OrderedMap<Response>>(find(e, "responses"@), "responses"@);
            lemma_collected(start, found, more, base);
            found = found + more;
        }
        audit_member::<OrderedMap<Security>>(v, "securityDefinitions", at, out);
        proof {
            let more = ignored_under::<OrderedMap<Security>>(
                find(e, "securityDefinitions"@),
                "securityDefinitions"@,
            );
            lemma_collected(start, found, more, base);
            found = found + more;
        }
        audit_member::<Vec<Tag>>(v, "tags", at, out);
        proof {
            let more = ignored_under::<Vec<Tag>>(find(e, "tags"@), "tags"@);
            lemma_collected(start, found, more, base);
            found = found + more;
        }
        audit_member::<ExternalDocumentation>(v, "externalDocs", at, out);
        proof {
            let more = ignored_under::<ExternalDocumentation>(
                find(e, "externalDocs"@),
                "externalDocs"@,
            );
            lemma_collected(start, found, more, base);
            found = found + more;
        }
    }

    proof fn clean(m: OpenAPIV) {
        OpenAPI::lemma_members(m);
        let e = Self::to_json(m)->Object_0;
        assert forall|i: int| 0 <= i < e.len() implies OpenAPI::known(
            #[trigger] e[i].0,
        ) by {
            lemma_key_present(e, i);
            OpenAPI::lemma_written_keys(m, e[i].0);
        }
        lemma_all_known::<OpenAPI>(e, e.len());
        lemma_under_clean::<Info>(find(e, "info"@), "info"@, m.info);
        lemma_under_clean::<OrderedMap<ReferenceOr<PathItem>>>(
            find(e, "paths"@),
            "paths"@,
            m.paths,
        );
        lemma_under_clean::<OrderedMap<ReferenceOr<Schema>>>(
            find(e, "definitions"@),
            "definitions"@,
            m.definitions,
        );
        lemma_under_clean::<OrderedMap<Parameter>>(
            find(e, "parameters"@),
            "parameters"@,
            m.parameters,
        );
        lemma_under_clean::<OrderedMap<Response>>(find(e, "responses"@), "responses"@, m.responses);
        lemma_under_clean::<OrderedMap<Security>>(
            find(e, "securityDefinitions"@),
            "securityDefinitions"@,
            m.security_definitions,
        );
        lemma_under_clean::<Vec<Tag>>(find(e, "tags"@), "tags"@, m.tags);
        if m.external_docs is Some {
            lemma_under_clean::<ExternalDocumentation>(
                find(e, "externalDocs"@),
                "externalDocs"@,
                m.external_docs->0,
            );
        }
        assert(Seq::<PathV>::empty() + Seq::<PathV>::empty() =~= Seq::<PathV>::empty());
    }
}

/// The root of a document, under the name that the format gives it.
pub type Spec = OpenAPI;

} // verus!
