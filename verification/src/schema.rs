//! The schema object and what stands around it: the transfer schemes, the
//! data types, headers and responses.

use vstd::prelude::*;
use serde_json::{Number, Value};
use crate::audit::{
    audit_member, based, ignored_under, lemma_all_known, lemma_based_under, lemma_collected,
    lemma_reference_clean, lemma_under_clean, report_unknown, under_all, unknown_keys, Audit, Keys,
    ReferenceKeys,
};
use crate::autorest::{MsEnum, MsEnumV, MsMutability};
use crate::binding::{Binding, Record};
use crate::error::{
    invalid_name, mismatch, outcome, DecodeError, DecodeErrorV, Expected, PathV, Reason, Segment,
    SegmentV,
};
use crate::fields::{
    boxed, flag_field, flag_json, lemma_flag, lemma_list, lemma_map, lemma_optional,
    lemma_required, lemma_with_member, list_field, list_json, map_field, map_json, optional_field,
    optional_json, put, put_any, put_flag, put_list, put_map, put_optional, put_required, read_any,
    read_flag, read_list, read_map, read_optional, read_required, required_field, required_json,
    with_member, Members,
};
use crate::json::{
    array_value, distinct_keys, empty_object, entries_of, find, has_key, kind_of,
    lemma_find_decreases, lemma_key_present, lemma_with_entry_fresh, member, members, same_text,
    set_member, text_value, trees, value_tree, JsonV, Kind, NumberV,
};
use crate::lists::{elements_from_json, elements_to_json, entries_from_json, entries_to_json};
use crate::model::Model;
use crate::ordered::OrderedMap;
use crate::reference::{
    decode_reference, encode_reference, holds_reference, is_reference, lemma_reference_round_trip,
    reference_from_json, reference_to_json, RefOrV, ReferenceOr,
};

verus! {

/// The transfer protocol of an API.
#[derive(Clone, Copy, Debug, PartialEq, Eq, Structural)]
pub enum Scheme {
    Http,
    Https,
    Ws,
    Wss,
}

impl Scheme {
    /// The name of a value on the wire.
    pub open spec fn name(self) -> Seq<char> {
        match self {
            Scheme::Http => "http"@,
            Scheme::Https => "https"@,
            Scheme::Ws => "ws"@,
            Scheme::Wss => "wss"@,
        }
    }

    /// The value that a name on the wire stands for.
    pub open spec fn named(s: Seq<char>) -> Option<Scheme> {
        if s == "http"@ {
            Some(Scheme::Http)
        } else if s == "https"@ {
            Some(Scheme::Https)
        } else if s == "ws"@ {
            Some(Scheme::Ws)
        } else if s == "wss"@ {
            Some(Scheme::Wss)
        } else {
            None
        }
    }

    /// The name of a value on the wire.
    pub fn as_str(&self) -> (s: &'static str)
        ensures
            s@ == self.name(),
    {
        match self {
            Scheme::Http => "http",
            Scheme::Https => "https",
            Scheme::Ws => "ws",
            Scheme::Wss => "wss",
        }
    }

    /// The value that a name on the wire stands for.
    pub fn from_name(s: &str) -> (r: Option<Scheme>)
        ensures
            r == Scheme::named(s@),
    {
        if same_text(s, "http") {
            Some(Scheme::Http)
        } else if same_text(s, "https") {
            Some(Scheme::Https)
        } else if same_text(s, "ws") {
            Some(Scheme::Ws)
        } else if same_text(s, "wss") {
            Some(Scheme::Wss)
        } else {
            None
        }
    }

    /// Every value is the one that its name stands for.
    pub proof fn lemma_named(self)
        ensures
            Scheme::named(self.name()) == Some(self),
    {
        Self::lemma_spelling();
    }

    /// How the names are spelled, as far as it takes to tell them apart.
    proof fn lemma_spelling()
        ensures
            "http"@.len() == 4,
            "https"@.len() == 5,
            "ws"@.len() == 2,
            "wss"@.len() == 3,
    {
        reveal_strlit("http");
        reveal_strlit("https");
        reveal_strlit("ws");
        reveal_strlit("wss");
    }
}

impl Default for Scheme {
    fn default() -> (r: Scheme)
        ensures
            r == Scheme::Http,
    {
        Scheme::Http
    }
}

impl Model for Scheme {
    type M = Scheme;

    open spec fn model(&self) -> Scheme {
        *self
    }
}

impl Binding for Scheme {
    open spec fn from_json(t: JsonV) -> Result<Scheme, DecodeErrorV> {
        match t {
            JsonV::Text(s) => match Scheme::named(s) {
                Some(x) => Ok(x),
                None => Err(invalid_name(s)),
            },
            _ => Err(mismatch(Expected::String, t)),
        }
    }

    open spec fn to_json(m: Scheme) -> JsonV {
        JsonV::Text(m.name())
    }

    fn decode(v: &Value) -> (r: Result<Scheme, DecodeError>) {
        match v.as_str() {
            Some(s) => match Scheme::from_name(s) {
                Some(x) => Ok(x),
                None => Err(DecodeError::new(Reason::InvalidEnumValue { value: s.to_owned() })),
            },
            None => Err(DecodeError::mismatch(Expected::String, kind_of(v))),
        }
    }

    fn encode(&self) -> (v: Value) {
        text_value(self.as_str().to_owned())
    }

    proof fn round_trip(m: Scheme) {
        m.lemma_named();
    }
}

/// The primitive type of a value.
#[derive(Clone, Copy, Debug, PartialEq, Eq, Structural)]
pub enum DataType {
    String,
    Number,
    Integer,
    Boolean,
    Array,
    Object,
}

impl DataType {
    /// The name of a value on the wire.
    pub open spec fn name(self) -> Seq<char> {
        match self {
            DataType::String => "string"@,
            DataType::Number => "number"@,
            DataType::Integer => "integer"@,
            DataType::Boolean => "boolean"@,
            DataType::Array => "array"@,
            DataType::Object => "object"@,
        }
    }

    /// The value that a name on the wire stands for.
    pub open spec fn named(s: Seq<char>) -> Option<DataType> {
        if s == "string"@ {
            Some(DataType::String)
        } else if s == "number"@ {
            Some(DataType::Number)
        } else if s == "integer"@ {
            Some(DataType::Integer)
        } else if s == "boolean"@ {
            Some(DataType::Boolean)
        } else if s == "array"@ {
            Some(DataType::Array)
        } else if s == "object"@ {
            Some(DataType::Object)
        } else {
            None
        }
    }

    /// The name of a value on the wire.
    pub fn as_str(&self) -> (s: &'static str)
        ensures
            s@ == self.name(),
    {
        match self {
            DataType::String => "string",
            DataType::Number => "number",
            DataType::Integer => "integer",
            DataType::Boolean => "boolean",
            DataType::Array => "array",
            DataType::Object => "object",
        }
    }

    /// The value that a name on the wire stands for.
    pub fn from_name(s: &str) -> (r: Option<DataType>)
        ensures
            r == DataType::named(s@),
    {
        if same_text(s, "string") {
            Some(DataType::String)
        } else if same_text(s, "number") {
            Some(DataType::Number)
        } else if same_text(s, "integer") {
            Some(DataType::Integer)
        } else if same_text(s, "boolean") {
            Some(DataType::Boolean)
        } else if same_text(s, "array") {
            Some(DataType::Array)
        } else if same_text(s, "object") {
            Some(DataType::Object)
        } else {
            None
        }
    }

    /// Every value is the one that its name stands for.
    pub proof fn lemma_named(self)
        ensures
            DataType::named(self.name()) == Some(self),
    {
        Self::lemma_spelling();
    }

    /// How the names are spelled, as far as it takes to tell them apart.
    proof fn lemma_spelling()
        ensures
            "string"@.len() == 6,
            "number"@.len() == 6,
            "integer"@.len() == 7,
            "boolean"@.len() == 7,
            "array"@.len() == 5,
            "object"@.len() == 6,
            "string"@[0] == 's',
            "number"@[0] == 'n',
            "object"@[0] == 'o',
            "integer"@[0] == 'i',
            "boolean"@[0] == 'b',
    {
        reveal_strlit("string");
        reveal_strlit("number");
        reveal_strlit("integer");
        reveal_strlit("boolean");
        reveal_strlit("array");
        reveal_strlit("object");
    }
}

impl Model for DataType {
    type M = DataType;

    open spec fn model(&self) -> DataType {
        *self
    }
}

impl Binding for DataType {
    open spec fn from_json(t: JsonV) -> Result<DataType, DecodeErrorV> {
        match t {
            JsonV::Text(s) => match DataType::named(s) {
                Some(x) => Ok(x),
                None => Err(invalid_name(s)),
            },
            _ => Err(mismatch(Expected::String, t)),
        }
    }

    open spec fn to_json(m: DataType) -> JsonV {
        JsonV::Text(m.name())
    }

    fn decode(v: &Value) -> (r: Result<DataType, DecodeError>) {
        match v.as_str() {
            Some(s) => match DataType::from_name(s) {
                Some(x) => Ok(x),
                None => Err(DecodeError::new(Reason::InvalidEnumValue { value: s.to_owned() })),
            },
            None => Err(DecodeError::mismatch(Expected::String, kind_of(v))),
        }
    }

    fn encode(&self) -> (v: Value) {
        text_value(self.as_str().to_owned())
    }

    proof fn round_trip(m: DataType) {
        m.lemma_named();
    }
}

/// A header of a response.
#[derive(Clone, Debug, PartialEq)]
pub struct Header {
    /// The type of the header.
    pub type_: String,
    /// The format that narrows the type.
    pub format: Option<String>,
    /// What the header is for.
    pub description: Option<String>,
}

/// The model of a [`Header`].
pub struct HeaderV {
    pub type_: Seq<char>,
    pub format: Option<Seq<char>>,
    pub description: Option<Seq<char>>,
}

impl Model for Header {
    type M = HeaderV;

    open spec fn model(&self) -> HeaderV {
        HeaderV {
            type_: self.type_.model(),
            format: self.format.model(),
            description: self.description.model(),
        }
    }
}

impl Header {
    /// The model of the default value: every optional field absent, every list
    /// and mapping empty, every flag off.
    pub open spec fn default_model() -> HeaderV {
        HeaderV {
            type_: Seq::empty(),
            format: None,
            description: None,
        }
    }
}

impl Default for Header {
    fn default() -> (r: Header)
        ensures
            r.model() == Header::default_model(),
    {
        let r = Header {
            type_: String::new(),
            format: None,
            description: None,
        };
        r
    }
}

impl Binding for Header {
    open spec fn from_json(t: JsonV) -> Result<HeaderV, DecodeErrorV> {
        match t {
            JsonV::Object(e) => {
                let type_ = required_field::<String>(e, "type"@);
                let format = optional_field::<String>(e, "format"@);
                let description = optional_field::<String>(e, "description"@);
                if type_ is Err {
                    Err(type_->Err_0)
                } else if format is Err {
                    Err(format->Err_0)
                } else if description is Err {
                    Err(description->Err_0)
                } else {
                    Ok(
                        HeaderV {
                            type_: type_->Ok_0,
                            format: format->Ok_0,
                            description: description->Ok_0,
                        },
                    )
                }
            },
            _ => Err(mismatch(Expected::Object, t)),
        }
    }

    open spec fn to_json(m: HeaderV) -> JsonV {
        let e: Members = Seq::empty();
        let e = with_member(e, "type"@, required_json::<String>(m.type_));
        let e = with_member(e, "format"@, optional_json::<String>(m.format));
        let e = with_member(e, "description"@, optional_json::<String>(m.description));
        JsonV::Object(e)
    }

    fn decode(v: &Value) -> (r: Result<Header, DecodeError>) {
        match kind_of(v) {
            Kind::Object => {},
            found => {
                return Err(DecodeError::mismatch(Expected::Object, found));
            },
        }
        let type_ = read_required::<String>(v, "type")?;
        let format = read_optional::<String>(v, "format")?;
        let description = read_optional::<String>(v, "description")?;
        Ok(Header { type_, format, description })
    }

    fn encode(&self) -> (v: Value) {
        let mut o = empty_object();
        put_required::<String>(&mut o, "type", &self.type_);
        put_optional::<String>(&mut o, "format", &self.format);
        put_optional::<String>(&mut o, "description", &self.description);
        o
    }

    proof fn round_trip(m: HeaderV) {
        let e = Self::to_json(m)->Object_0;
        Self::lemma_members(m);
        lemma_required::<String>(e, "type"@, m.type_);
        lemma_optional::<String>(e, "format"@, m.format);
        lemma_optional::<String>(e, "description"@, m.description);
    }
}

impl Record for Header {
    proof fn written_as_record(m: HeaderV) {
        Self::lemma_written_keys(m, "$ref"@);
        Self::lemma_spelling();
    }
}

impl Header {
    /// Which keys are written: a required field always, an optional field where
    /// it is present, a list or a mapping where it is not empty, a flag where
    /// it is set. Nothing else is written.
    pub proof fn lemma_written_keys(m: HeaderV, key: Seq<char>)
        ensures
            Header::to_json(m) is Object,
            has_key(Header::to_json(m)->Object_0, "type"@),
            has_key(Header::to_json(m)->Object_0, "format"@) == (m.format is Some),
            has_key(Header::to_json(m)->Object_0, "description"@) == (m.description is Some),
            has_key(Header::to_json(m)->Object_0, key) ==> {
                ||| key == "type"@
                ||| key == "format"@
                ||| key == "description"@
            },
    {
        lemma_with_member();
        Self::lemma_spelling();
    }

    /// What stands under each key of what a value is written as.
    pub proof fn lemma_members(m: HeaderV)
        ensures
            find(Header::to_json(m)->Object_0, "type"@) == required_json::<String>(m.type_),
            find(Header::to_json(m)->Object_0, "format"@) == optional_json::<String>(m.format),
            find(
                Header::to_json(m)->Object_0,
                "description"@,
            ) == optional_json::<String>(m.description),
    {
        lemma_with_member();
        Self::lemma_spelling();
    }

    /// How the keys are spelled, as far as it takes to tell them apart.
    proof fn lemma_spelling()
        ensures
            "$ref"@.len() == 4,
            "type"@.len() == 4,
            "format"@.len() == 6,
            "description"@.len() == 11,
            "$ref"@[0] == '$',
            "type"@[0] == 't',
    {
        reveal_strlit("$ref");
        reveal_strlit("type");
        reveal_strlit("format");
        reveal_strlit("description");
    }
}

impl Keys for Header {
    open spec fn known(key: Seq<char>) -> bool {
        ||| key == "type"@
        ||| key == "format"@
        ||| key == "description"@
    }

    fn knows(key: &str) -> (b: bool) {
        same_text(key, "type")
            || same_text(key, "format")
            || same_text(key, "description")
    }
}

impl Audit for Header {
    open spec fn ignored(t: JsonV) -> Seq<PathV> {
        match t {
            JsonV::Object(e) => unknown_keys::<Header>(e, e.len()),
            _ => Seq::empty(),
        }
    }

    fn audit(v: &Value, at: &mut Vec<Segment>, out: &mut Vec<Vec<Segment>>) {
        let ghost start = out.model();
        let ghost base = at.model();
        proof {
            lemma_collected(start, Seq::empty(), Seq::empty(), base);
        }
        match kind_of(v) {
            Kind::Object => {},
            _ => {
                return;
            },
        }
        report_unknown::<Header>(v, at, out);
    }

    proof fn clean(m: HeaderV) {
        Header::lemma_members(m);
        let e = Self::to_json(m)->Object_0;
        assert forall|i: int| 0 <= i < e.len() implies Header::known(
            #[trigger] e[i].0,
        ) by {
            lemma_key_present(e, i);
            Header::lemma_written_keys(m, e[i].0);
        }
        lemma_all_known::<Header>(e, e.len());
    }
}

/// A schema: the subset of JSON Schema that describes the data of an API. It
/// holds schemas again in its properties, in the schema of its items and of its
/// additional properties, and in the schemas it is composed of.
#[derive(Debug, PartialEq)]
pub struct Schema {
    /// What the data is.
    pub description: Option<String>,
    /// The names of the properties that an object must have.
    pub required: Vec<String>,
    /// The properties of an object, in the order of the document.
    pub properties: OrderedMap<ReferenceOr<Schema>>,
    /// The schema of the properties that are not named.
    pub additional_properties: Box<Option<ReferenceOr<Schema>>>,
    /// The schemas that this one is composed of.
    pub all_of: Vec<ReferenceOr<Schema>>,
    /// Whether the data is only ever sent by the service.
    pub read_only: bool,
    /// The primitive type.
    pub type_: Option<DataType>,
    /// The format that narrows the type.
    pub format: Option<String>,
    /// The schema of the items of an array.
    pub items: Box<Option<ReferenceOr<Schema>>>,
    /// The default value, kept as it stands.
    pub default: Option<Value>,
    /// The largest value.
    pub maximum: Option<Number>,
    /// Whether the largest value is itself left out.
    pub exclusive_maximum: bool,
    /// The smallest value.
    pub minimum: Option<Number>,
    /// Whether the smallest value is itself left out.
    pub exclusive_minimum: bool,
    /// The largest length of a text.
    pub max_length: Option<usize>,
    /// The smallest length of a text.
    pub min_length: Option<usize>,
    /// The regular expression that a text matches.
    pub pattern: Option<String>,
    /// The largest number of items of an array.
    pub max_items: Option<usize>,
    /// The smallest number of items of an array.
    pub min_items: Option<usize>,
    /// Whether the items of an array differ from each other.
    pub unique_items: bool,
    /// The values that are allowed.
    pub enum_: Vec<String>,
    /// The number that a value is a multiple of.
    pub multiple_of: Option<Number>,
    /// Whether generated code lifts the properties of this one into its parent.
    pub x_ms_client_flatten: bool,
    /// How the enumeration is named and modelled in generated code.
    pub x_ms_enum: Option<MsEnum>,
    /// Whether the data is a secret.
    pub x_ms_secret: bool,
    /// Whether the schema describes a resource of the resource manager.
    pub x_ms_azure_resource: bool,
    /// Which of create, read and update the property takes part in.
    pub x_ms_mutability: Vec<MsMutability>,
    /// Whether the schema is left out of code generation.
    pub x_ms_external: bool,
}

/// The model of a [`Schema`].
pub struct SchemaV {
    pub description: Option<Seq<char>>,
    pub required: Seq<Seq<char>>,
    pub properties: Seq<(Seq<char>, RefOrV<SchemaV>)>,
    pub additional_properties: Option<Box<RefOrV<SchemaV>>>,
    pub all_of: Seq<RefOrV<SchemaV>>,
    pub read_only: bool,
    pub type_: Option<DataType>,
    pub format: Option<Seq<char>>,
    pub items: Option<Box<RefOrV<SchemaV>>>,
    pub default: Option<JsonV>,
    pub maximum: Option<NumberV>,
    pub exclusive_maximum: bool,
    pub minimum: Option<NumberV>,
    pub exclusive_minimum: bool,
    pub max_length: Option<usize>,
    pub min_length: Option<usize>,
    pub pattern: Option<Seq<char>>,
    pub max_items: Option<usize>,
    pub min_items: Option<usize>,
    pub unique_items: bool,
    pub enum_: Seq<Seq<char>>,
    pub multiple_of: Option<NumberV>,
    pub x_ms_client_flatten: bool,
    pub x_ms_enum: Option<MsEnumV>,
    pub x_ms_secret: bool,
    pub x_ms_azure_resource: bool,
    pub x_ms_mutability: Seq<MsMutability>,
    pub x_ms_external: bool,
}

impl Schema {
    /// The model of a schema.
    pub open spec fn model_of(self) -> SchemaV
        decreases self,
    {
        SchemaV {
            description: self.description.model(),
            required: self.required.model(),
            properties: Schema::ref_entries_model(self.properties),
            additional_properties: boxed(Schema::optional_ref_model(*self.additional_properties)),
            all_of: Schema::refs_model(self.all_of),
            read_only: self.read_only.model(),
            type_: self.type_.model(),
            format: self.format.model(),
            items: boxed(Schema::optional_ref_model(*self.items)),
            default: self.default.model(),
            maximum: self.maximum.model(),
            exclusive_maximum: self.exclusive_maximum.model(),
            minimum: self.minimum.model(),
            exclusive_minimum: self.exclusive_minimum.model(),
            max_length: self.max_length.model(),
            min_length: self.min_length.model(),
            pattern: self.pattern.model(),
            max_items: self.max_items.model(),
            min_items: self.min_items.model(),
            unique_items: self.unique_items.model(),
            enum_: self.enum_.model(),
            multiple_of: self.multiple_of.model(),
            x_ms_client_flatten: self.x_ms_client_flatten.model(),
            x_ms_enum: self.x_ms_enum.model(),
            x_ms_secret: self.x_ms_secret.model(),
            x_ms_azure_resource: self.x_ms_azure_resource.model(),
            x_ms_mutability: self.x_ms_mutability.model(),
            x_ms_external: self.x_ms_external.model(),
        }
    }

    /// The model of an optional schema or reference.
    pub open spec fn optional_ref_model(o: Option<ReferenceOr<Schema>>) -> Option<RefOrV<SchemaV>>
        decreases o,
    {
        match o {
            Some(r) => Some(Self::ref_model(r)),
            None => None,
        }
    }

    /// The model of a list of schemas and references.
    pub open spec fn refs_model(list: Vec<ReferenceOr<Schema>>) -> Seq<RefOrV<SchemaV>>
        decreases list,
    {
        Seq::new(
            list@.len(),
            |i: int|
                if 0 <= i < list@.len() {
                    Self::ref_model(list@[i])
                } else {
                    arbitrary()
                },
        )
    }

    /// The model of a mapping to schemas and references.
    pub open spec fn ref_entries_model(map: OrderedMap<ReferenceOr<Schema>>) -> Seq<
        (Seq<char>, RefOrV<SchemaV>),
    >
        decreases map,
        via Self::ref_entries_model_ends
    {
        Seq::new(
            map.entries().len(),
            |i: int|
                if 0 <= i < map.entries().len() {
                    (map.entries()[i].0, Self::ref_model(map.entries()[i].1))
                } else {
                    arbitrary()
                },
        )
    }

    #[via_fn]
    proof fn ref_entries_model_ends(map: OrderedMap<ReferenceOr<Schema>>) {
        assert forall|i: int| 0 <= i < map.entries().len() implies decreases_to!(
            map => #[trigger] map.entries()[i].1,
        ) by {
            map.lemma_value_decreases(i);
        }
    }

    /// The model of a schema or of a reference to one.
    pub open spec fn ref_model(r: ReferenceOr<Schema>) -> RefOrV<SchemaV>
        decreases r,
    {
        match r {
            ReferenceOr::Reference {
                reference,
                title,
                description,
                type_,
                read_only,
                x_ms_client_flatten,
            } => RefOrV::Reference {
                reference: reference.model(),
                title: title.model(),
                description: description.model(),
                type_: type_.model(),
                read_only: read_only.model(),
                x_ms_client_flatten: x_ms_client_flatten.model(),
            },
            ReferenceOr::Item(x) => RefOrV::Item(x.model_of()),
        }
    }
}

impl Model for Schema {
    type M = SchemaV;

    open spec fn model(&self) -> SchemaV {
        self.model_of()
    }
}

impl Schema {
    /// The model of the default value: every optional field absent, every list
    /// and mapping empty, every flag off.
    pub open spec fn default_model() -> SchemaV {
        SchemaV {
            description: None,
            required: Seq::empty(),
            properties: Seq::empty(),
            additional_properties: None,
            all_of: Seq::empty(),
            read_only: false,
            type_: None,
            format: None,
            items: None,
            default: None,
            maximum: None,
            exclusive_maximum: false,
            minimum: None,
            exclusive_minimum: false,
            max_length: None,
            min_length: None,
            pattern: None,
            max_items: None,
            min_items: None,
            unique_items: false,
            enum_: Seq::empty(),
            multiple_of: None,
            x_ms_client_flatten: false,
            x_ms_enum: None,
            x_ms_secret: false,
            x_ms_azure_resource: false,
            x_ms_mutability: Seq::empty(),
            x_ms_external: false,
        }
    }
}

impl Default for Schema {
    fn default() -> (r: Schema)
        ensures
            r.model() == Schema::default_model(),
    {
        let r = Schema {
            description: None,
            required: Vec::new(),
            properties: OrderedMap::new(),
            additional_properties: Box::new(None),
            all_of: Vec::new(),
            read_only: false,
            type_: None,
            format: None,
            items: Box::new(None),
            default: None,
            maximum: None,
            exclusive_maximum: false,
            minimum: None,
            exclusive_minimum: false,
            max_length: None,
            min_length: None,
            pattern: None,
            max_items: None,
            min_items: None,
            unique_items: false,
            enum_: Vec::new(),
            multiple_of: None,
            x_ms_client_flatten: false,
            x_ms_enum: None,
            x_ms_secret: false,
            x_ms_azure_resource: false,
            x_ms_mutability: Vec::new(),
            x_ms_external: false,
        };
        assert(r.model_of().required =~= Seq::empty());
        assert(r.model_of().properties =~= Seq::empty());
        assert(r.model_of().all_of =~= Seq::empty());
        assert(r.model_of().enum_ =~= Seq::empty());
        assert(r.model_of().x_ms_mutability =~= Seq::empty());
        r
    }
}

/// The schema that a tree is read as.
pub open spec fn schema_from_json(t: JsonV) -> Result<SchemaV, DecodeErrorV>
    decreases t, 1nat,
{
    match t {
        JsonV::Object(e) => {
            let description = optional_field::<String>(e, "description"@);
            let required = list_field::<String>(e, "required"@);
            let properties = schema_ref_map_field(e, "properties"@);
            let additional_properties = schema_ref_field(e, "additionalProperties"@);
            let all_of = schema_ref_list_field(e, "allOf"@);
            let read_only = flag_field(e, "readOnly"@);
            let type_ = optional_field::<DataType>(e, "type"@);
            let format = optional_field::<String>(e, "format"@);
            let items = schema_ref_field(e, "items"@);
            let maximum = optional_field::<Number>(e, "maximum"@);
            let exclusive_maximum = flag_field(e, "exclusiveMaximum"@);
            let minimum = optional_field::<Number>(e, "minimum"@);
            let exclusive_minimum = flag_field(e, "exclusiveMinimum"@);
            let max_length = optional_field::<usize>(e, "maxLength"@);
            let min_length = optional_field::<usize>(e, "minLength"@);
            let pattern = optional_field::<String>(e, "pattern"@);
            let max_items = optional_field::<usize>(e, "maxItems"@);
            let min_items = optional_field::<usize>(e, "minItems"@);
            let unique_items = flag_field(e, "uniqueItems"@);
            let enum_ = list_field::<String>(e, "enum"@);
            let multiple_of = optional_field::<Number>(e, "multipleOf"@);
            let x_ms_client_flatten = flag_field(e, "x-ms-client-flatten"@);
            let x_ms_enum = optional_field::<MsEnum>(e, "x-ms-enum"@);
            let x_ms_secret = flag_field(e, "x-ms-secret"@);
            let x_ms_azure_resource = flag_field(e, "x-ms-azure-resource"@);
            let x_ms_mutability = list_field::<MsMutability>(e, "x-ms-mutability"@);
            let x_ms_external = flag_field(e, "x-ms-external"@);
            if description is Err {
                Err(description->Err_0)
            } else if required is Err {
                Err(required->Err_0)
            } else if properties is Err {
                Err(properties->Err_0)
            } else if additional_properties is Err {
                Err(additional_properties->Err_0)
            } else if all_of is Err {
                Err(all_of->Err_0)
            } else if read_only is Err {
                Err(read_only->Err_0)
            } else if type_ is Err {
                Err(type_->Err_0)
            } else if format is Err {
                Err(format->Err_0)
            } else if items is Err {
                Err(items->Err_0)
            } else if maximum is Err {
                Err(maximum->Err_0)
            } else if exclusive_maximum is Err {
                Err(exclusive_maximum->Err_0)
            } else if minimum is Err {
                Err(minimum->Err_0)
            } else if exclusive_minimum is Err {
                Err(exclusive_minimum->Err_0)
            } else if max_length is Err {
                Err(max_length->Err_0)
            } else if min_length is Err {
                Err(min_length->Err_0)
            } else if pattern is Err {
                Err(pattern->Err_0)
            } else if max_items is Err {
                Err(max_items->Err_0)
            } else if min_items is Err {
                Err(min_items->Err_0)
            } else if unique_items is Err {
                Err(unique_items->Err_0)
            } else if enum_ is Err {
                Err(enum_->Err_0)
            } else if multiple_of is Err {
                Err(multiple_of->Err_0)
            } else if x_ms_client_flatten is Err {
                Err(x_ms_client_flatten->Err_0)
            } else if x_ms_enum is Err {
                Err(x_ms_enum->Err_0)
            } else if x_ms_secret is Err {
                Err(x_ms_secret->Err_0)
            } else if x_ms_azure_resource is Err {
                Err(x_ms_azure_resource->Err_0)
            } else if x_ms_mutability is Err {
                Err(x_ms_mutability->Err_0)
            } else if x_ms_external is Err {
                Err(x_ms_external->Err_0)
            } else {
                Ok(
                    SchemaV {
                        description: description->Ok_0,
                        required: required->Ok_0,
                        properties: properties->Ok_0,
                        additional_properties: boxed(additional_properties->Ok_0),
                        all_of: all_of->Ok_0,
                        read_only: read_only->Ok_0,
                        type_: type_->Ok_0,
                        format: format->Ok_0,
                        items: boxed(items->Ok_0),
                        default: find(e, "default"@),
                        maximum: maximum->Ok_0,
                        exclusive_maximum: exclusive_maximum->Ok_0,
                        minimum: minimum->Ok_0,
                        exclusive_minimum: exclusive_minimum->Ok_0,
                        max_length: max_length->Ok_0,
                        min_length: min_length->Ok_0,
                        pattern: pattern->Ok_0,
                        max_items: max_items->Ok_0,
                        min_items: min_items->Ok_0,
                        unique_items: unique_items->Ok_0,
                        enum_: enum_->Ok_0,
                        multiple_of: multiple_of->Ok_0,
                        x_ms_client_flatten: x_ms_client_flatten->Ok_0,
                        x_ms_enum: x_ms_enum->Ok_0,
                        x_ms_secret: x_ms_secret->Ok_0,
                        x_ms_azure_resource: x_ms_azure_resource->Ok_0,
                        x_ms_mutability: x_ms_mutability->Ok_0,
                        x_ms_external: x_ms_external->Ok_0,
                    },
                )
            }
        },
        _ => Err(mismatch(Expected::Object, t)),
    }
}

/// The schema or the reference that a tree is read as.
pub open spec fn schema_ref_from_json(t: JsonV) -> Result<RefOrV<SchemaV>, DecodeErrorV>
    decreases t, 2nat,
{
    if is_reference(t) {
        reference_from_json::<SchemaV>(t->Object_0)
    } else {
        match schema_from_json(t) {
            Ok(x) => Ok(RefOrV::Item(x)),
            Err(e) => Err(e),
        }
    }
}

/// An optional field that holds a schema or a reference.
pub open spec fn schema_ref_field(e: Members, key: Seq<char>) -> Result<
    Option<RefOrV<SchemaV>>,
    DecodeErrorV,
>
    decreases e, 0nat,
{
    proof {
        lemma_find_decreases(e, key);
    }
    match find(e, key) {
        None => Ok(None),
        Some(JsonV::Null) => Ok(None),
        Some(t) => match schema_ref_from_json(t) {
            Ok(x) => Ok(Some(x)),
            Err(err) => Err(err.under_key(key)),
        },
    }
}

/// The first `n` elements of an array, each read as a schema or a reference.
/// The first element that is rejected decides the error, reported under its
/// position.
pub open spec fn schema_refs_prefix(items: Seq<JsonV>, n: nat) -> Result<
    Seq<RefOrV<SchemaV>>,
    DecodeErrorV,
>
    decreases items, n,
{
    if n == 0 || n > items.len() {
        Ok(Seq::empty())
    } else {
        match schema_refs_prefix(items, (n - 1) as nat) {
            Err(e) => Err(e),
            Ok(head) => match schema_ref_from_json(items[n - 1]) {
                Err(e) => Err(e.under(SegmentV::Index((n - 1) as usize))),
                Ok(x) => Ok(head.push(x)),
            },
        }
    }
}

/// The list that an array is read as.
pub open spec fn schema_refs_from_json(t: JsonV) -> Result<Seq<RefOrV<SchemaV>>, DecodeErrorV>
    decreases t, 0nat,
{
    match t {
        JsonV::Array(items) => schema_refs_prefix(items, items.len()),
        _ => Err(mismatch(Expected::Array, t)),
    }
}

/// A list of schemas and references, empty where its key is missing.
pub open spec fn schema_ref_list_field(e: Members, key: Seq<char>) -> Result<
    Seq<RefOrV<SchemaV>>,
    DecodeErrorV,
>
    decreases e, 0nat,
{
    proof {
        lemma_find_decreases(e, key);
    }
    match find(e, key) {
        None => Ok(Seq::empty()),
        Some(t) => match schema_refs_from_json(t) {
            Ok(x) => Ok(x),
            Err(err) => Err(err.under_key(key)),
        },
    }
}

/// The first `n` members of an object, each read as a schema or a reference
/// under its key. The first member that is rejected decides the error,
/// reported under its key.
pub open spec fn schema_ref_entries_prefix(entries: Members, n: nat) -> Result<
    Seq<(Seq<char>, RefOrV<SchemaV>)>,
    DecodeErrorV,
>
    decreases entries, n,
{
    if n == 0 || n > entries.len() {
        Ok(Seq::empty())
    } else {
        match schema_ref_entries_prefix(entries, (n - 1) as nat) {
            Err(e) => Err(e),
            Ok(head) => match schema_ref_from_json(entries[n - 1].1) {
                Err(e) => Err(e.under_key(entries[n - 1].0)),
                Ok(x) => Ok(head.push((entries[n - 1].0, x))),
            },
        }
    }
}

/// The mapping that an object is read as.
pub open spec fn schema_ref_map_from_json(t: JsonV) -> Result<
    Seq<(Seq<char>, RefOrV<SchemaV>)>,
    DecodeErrorV,
>
    decreases t, 0nat,
{
    match t {
        JsonV::Object(entries) => schema_ref_entries_prefix(entries, entries.len()),
        _ => Err(mismatch(Expected::Object, t)),
    }
}

/// A mapping to schemas and references, empty where its key is missing.
pub open spec fn schema_ref_map_field(e: Members, key: Seq<char>) -> Result<
    Seq<(Seq<char>, RefOrV<SchemaV>)>,
    DecodeErrorV,
>
    decreases e, 0nat,
{
    proof {
        lemma_find_decreases(e, key);
    }
    match find(e, key) {
        None => Ok(Seq::empty()),
        Some(t) => match schema_ref_map_from_json(t) {
            Ok(x) => Ok(x),
            Err(err) => Err(err.under_key(key)),
        },
    }
}

/// The tree that a schema is written as.
pub open spec fn schema_to_json(m: SchemaV) -> JsonV
    decreases m, 1nat,
{
    let e: Members = Seq::empty();
    let e = with_member(e, "description"@, optional_json::<String>(m.description));
    let e = with_member(e, "required"@, list_json::<String>(m.required));
    let e = with_member(e, "properties"@, schema_ref_map_json(m.properties));
    let e = with_member(e, "additionalProperties"@, match m.additional_properties {
            Some(x) => Some(schema_ref_to_json(*x)),
            None => None,
        });
    let e = with_member(e, "allOf"@, schema_ref_list_json(m.all_of));
    let e = with_member(e, "readOnly"@, flag_json(m.read_only));
    let e = with_member(e, "type"@, optional_json::<DataType>(m.type_));
    let e = with_member(e, "format"@, optional_json::<String>(m.format));
    let e = with_member(e, "items"@, match m.items {
            Some(x) => Some(schema_ref_to_json(*x)),
            None => None,
        });
    let e = with_member(e, "default"@, m.default);
    let e = with_member(e, "maximum"@, optional_json::<Number>(m.maximum));
    let e = with_member(e, "exclusiveMaximum"@, flag_json(m.exclusive_maximum));
    let e = with_member(e, "minimum"@, optional_json::<Number>(m.minimum));
    let e = with_member(e, "exclusiveMinimum"@, flag_json(m.exclusive_minimum));
    let e = with_member(e, "maxLength"@, optional_json::<usize>(m.max_length));
    let e = with_member(e, "minLength"@, optional_json::<usize>(m.min_length));
    let e = with_member(e, "pattern"@, optional_json::<String>(m.pattern));
    let e = with_member(e, "maxItems"@, optional_json::<usize>(m.max_items));
    let e = with_member(e, "minItems"@, optional_json::<usize>(m.min_items));
    let e = with_member(e, "uniqueItems"@, flag_json(m.unique_items));
    let e = with_member(e, "enum"@, list_json::<String>(m.enum_));
    let e = with_member(e, "multipleOf"@, optional_json::<Number>(m.multiple_of));
    let e = with_member(e, "x-ms-client-flatten"@, flag_json(m.x_ms_client_flatten));
    let e = with_member(e, "x-ms-enum"@, optional_json::<MsEnum>(m.x_ms_enum));
    let e = with_member(e, "x-ms-secret"@, flag_json(m.x_ms_secret));
    let e = with_member(e, "x-ms-azure-resource"@, flag_json(m.x_ms_azure_resource));
    let e = with_member(e, "x-ms-mutability"@, list_json::<MsMutability>(m.x_ms_mutability));
    let e = with_member(e, "x-ms-external"@, flag_json(m.x_ms_external));
    JsonV::Object(e)
}

/// The tree that a schema or a reference is written as.
pub open spec fn schema_ref_to_json(m: RefOrV<SchemaV>) -> JsonV
    decreases m, 2nat,
{
    match m {
        RefOrV::Reference {
            reference,
            title,
            description,
            type_,
            read_only,
            x_ms_client_flatten,
        } => reference_to_json(
            reference,
            title,
            description,
            type_,
            read_only,
            x_ms_client_flatten,
        ),
        RefOrV::Item(x) => schema_to_json(x),
    }
}

/// The elements that a list of schemas and references is written as.
pub open spec fn schema_refs_to_json(m: Seq<RefOrV<SchemaV>>) -> Seq<JsonV>
    decreases m, 0nat,
{
    Seq::new(
        m.len(),
        |i: int|
            if 0 <= i < m.len() {
                schema_ref_to_json(m[i])
            } else {
                JsonV::Null
            },
    )
}

/// How a list of schemas and references is written.
pub open spec fn schema_ref_list_json(m: Seq<RefOrV<SchemaV>>) -> Option<JsonV>
    decreases m, 1nat,
{
    if m.len() == 0 {
        None
    } else {
        Some(JsonV::Array(schema_refs_to_json(m)))
    }
}

/// The members that a mapping to schemas and references is written as.
pub open spec fn schema_ref_entries_to_json(m: Seq<(Seq<char>, RefOrV<SchemaV>)>) -> Members
    decreases m, 0nat,
{
    Seq::new(
        m.len(),
        |i: int|
            if 0 <= i < m.len() {
                (m[i].0, schema_ref_to_json(m[i].1))
            } else {
                (Seq::empty(), JsonV::Null)
            },
    )
}

/// How a mapping to schemas and references is written.
pub open spec fn schema_ref_map_json(m: Seq<(Seq<char>, RefOrV<SchemaV>)>) -> Option<JsonV>
    decreases m, 1nat,
{
    if m.len() == 0 {
        None
    } else {
        Some(JsonV::Object(schema_ref_entries_to_json(m)))
    }
}

/// Reading what a schema was written as gives it back.
pub proof fn lemma_schema_round_trip(m: SchemaV)
    ensures
        schema_from_json(schema_to_json(m)) == Ok::<SchemaV, DecodeErrorV>(m),
    decreases m, 1nat,
{
    let e = schema_to_json(m)->Object_0;
    Schema::lemma_members(m);
    lemma_optional::<String>(e, "description"@, m.description);
    lemma_list::<String>(e, "required"@, m.required);
    lemma_schema_ref_map(e, "properties"@, m.properties);
    lemma_schema_ref(e, "additionalProperties"@, m.additional_properties);
    lemma_schema_ref_list(e, "allOf"@, m.all_of);
    lemma_flag(e, "readOnly"@, m.read_only);
    lemma_optional::<DataType>(e, "type"@, m.type_);
    lemma_optional::<String>(e, "format"@, m.format);
    lemma_schema_ref(e, "items"@, m.items);
    lemma_optional::<Number>(e, "maximum"@, m.maximum);
    lemma_flag(e, "exclusiveMaximum"@, m.exclusive_maximum);
    lemma_optional::<Number>(e, "minimum"@, m.minimum);
    lemma_flag(e, "exclusiveMinimum"@, m.exclusive_minimum);
    lemma_optional::<usize>(e, "maxLength"@, m.max_length);
    lemma_optional::<usize>(e, "minLength"@, m.min_length);
    lemma_optional::<String>(e, "pattern"@, m.pattern);
    lemma_optional::<usize>(e, "maxItems"@, m.max_items);
    lemma_optional::<usize>(e, "minItems"@, m.min_items);
    lemma_flag(e, "uniqueItems"@, m.unique_items);
    lemma_list::<String>(e, "enum"@, m.enum_);
    lemma_optional::<Number>(e, "multipleOf"@, m.multiple_of);
    lemma_flag(e, "x-ms-client-flatten"@, m.x_ms_client_flatten);
    lemma_optional::<MsEnum>(e, "x-ms-enum"@, m.x_ms_enum);
    lemma_flag(e, "x-ms-secret"@, m.x_ms_secret);
    lemma_flag(e, "x-ms-azure-resource"@, m.x_ms_azure_resource);
    lemma_list::<MsMutability>(e, "x-ms-mutability"@, m.x_ms_mutability);
    lemma_flag(e, "x-ms-external"@, m.x_ms_external);
}

/// Reading what a schema or a reference was written as gives it back.
pub proof fn lemma_schema_ref_round_trip(m: RefOrV<SchemaV>)
    ensures
        schema_ref_from_json(schema_ref_to_json(m)) == Ok::<RefOrV<SchemaV>, DecodeErrorV>(m),
        !(schema_ref_to_json(m) is Null),
    decreases m, 2nat,
{
    match m {
        RefOrV::Reference {
            reference,
            title,
            description,
            type_,
            read_only,
            x_ms_client_flatten,
        } => {
            lemma_reference_round_trip::<SchemaV>(
                reference,
                title,
                description,
                type_,
                read_only,
                x_ms_client_flatten,
            );
        },
        RefOrV::Item(x) => {
            Schema::lemma_written_keys(x, "$ref"@);
            Schema::lemma_spelling();
            lemma_schema_round_trip(x);
        },
    }
}

/// An optional field that holds a schema or a reference is read back from
/// what it was written as.
proof fn lemma_schema_ref(e: Members, key: Seq<char>, m: Option<Box<RefOrV<SchemaV>>>)
    requires
        find(e, key) == (match m {
            Some(x) => Some(schema_ref_to_json(*x)),
            None => None,
        }),
    ensures
        schema_ref_field(e, key) is Ok,
        boxed(schema_ref_field(e, key)->Ok_0) == m,
    decreases m, 0nat,
{
    if m is Some {
        lemma_schema_ref_round_trip(*m->0);
    }
}

/// The elements of a list are read back from what they were written as.
proof fn lemma_schema_refs_round_trip(m: Seq<RefOrV<SchemaV>>, n: nat)
    requires
        n <= m.len(),
    ensures
        schema_refs_prefix(schema_refs_to_json(m), n) == Ok::<Seq<RefOrV<SchemaV>>, DecodeErrorV>(
            m.take(n as int),
        ),
    decreases m, n,
{
    if n == 0 {
        assert(m.take(0) =~= Seq::empty());
    } else {
        lemma_schema_refs_round_trip(m, (n - 1) as nat);
        lemma_schema_ref_round_trip(m[n - 1]);
        assert(m.take(n as int) =~= m.take(n - 1).push(m[n - 1]));
    }
}

/// A list of schemas and references is read back from what it was written as.
proof fn lemma_schema_ref_list(e: Members, key: Seq<char>, m: Seq<RefOrV<SchemaV>>)
    requires
        find(e, key) == schema_ref_list_json(m),
    ensures
        schema_ref_list_field(e, key) == Ok::<Seq<RefOrV<SchemaV>>, DecodeErrorV>(m),
    decreases m, m.len() + 1,
{
    if m.len() == 0 {
        assert(m =~= Seq::empty());
    } else {
        lemma_schema_refs_round_trip(m, m.len());
        assert(m.take(m.len() as int) =~= m);
    }
}

/// Once an element is rejected, the error stands for every longer prefix.
proof fn lemma_schema_refs_fail(items: Seq<JsonV>, k: nat, n: nat)
    requires
        k <= n <= items.len(),
        schema_refs_prefix(items, k) is Err,
    ensures
        schema_refs_prefix(items, n) == schema_refs_prefix(items, k),
    decreases n,
{
    if k < n {
        lemma_schema_refs_fail(items, k, (n - 1) as nat);
    }
}

/// The members of a mapping are read back from what they were written as.
proof fn lemma_schema_ref_entries_round_trip(m: Seq<(Seq<char>, RefOrV<SchemaV>)>, n: nat)
    requires
        n <= m.len(),
    ensures
        schema_ref_entries_prefix(schema_ref_entries_to_json(m), n) == Ok::<
            Seq<(Seq<char>, RefOrV<SchemaV>)>,
            DecodeErrorV,
        >(m.take(n as int)),
    decreases m, n,
{
    if n == 0 {
        assert(m.take(0) =~= Seq::empty());
    } else {
        lemma_schema_ref_entries_round_trip(m, (n - 1) as nat);
        lemma_schema_ref_round_trip(m[n - 1].1);
        assert(m.take(n as int) =~= m.take(n - 1).push(m[n - 1]));
    }
}

/// Once a member is rejected, the error stands for every longer prefix.
proof fn lemma_schema_ref_entries_fail(entries: Members, k: nat, n: nat)
    requires
        k <= n <= entries.len(),
        schema_ref_entries_prefix(entries, k) is Err,
    ensures
        schema_ref_entries_prefix(entries, n) == schema_ref_entries_prefix(entries, k),
    decreases n,
{
    if k < n {
        lemma_schema_ref_entries_fail(entries, k, (n - 1) as nat);
    }
}

/// Order preservation from reading to writing: an object that is read as a
/// mapping to schemas and references is written back with its keys in the
/// order in which they came.
pub proof fn lemma_schema_ref_map_order(entries: Members)
    ensures
        schema_ref_map_from_json(JsonV::Object(entries)) matches Ok(m) ==> {
            let written = schema_ref_entries_to_json(m);
            &&& written.len() == entries.len()
            &&& forall|i: int| 0 <= i < entries.len() ==> (#[trigger] written[i]).0 == entries[i].0
        },
{
    lemma_schema_ref_entries_keep_keys(entries, entries.len());
}

/// Order preservation on reading: the members that are read keep the keys of
/// the object, each at its position.
pub proof fn lemma_schema_ref_entries_keep_keys(entries: Members, n: nat)
    requires
        n <= entries.len(),
    ensures
        schema_ref_entries_prefix(entries, n) matches Ok(r) ==> {
            &&& r.len() == n
            &&& forall|i: int| 0 <= i < n ==> (#[trigger] r[i]).0 == entries[i].0
        },
    decreases n,
{
    if n > 0 {
        lemma_schema_ref_entries_keep_keys(entries, (n - 1) as nat);
    }
}

/// A mapping to schemas and references is read back from what it was written
/// as.
proof fn lemma_schema_ref_map(e: Members, key: Seq<char>, m: Seq<(Seq<char>, RefOrV<SchemaV>)>)
    requires
        find(e, key) == schema_ref_map_json(m),
    ensures
        schema_ref_map_field(e, key) == Ok::<Seq<(Seq<char>, RefOrV<SchemaV>)>, DecodeErrorV>(m),
    decreases m, m.len() + 1,
{
    if m.len() == 0 {
        assert(m =~= Seq::empty());
    } else {
        lemma_schema_ref_entries_round_trip(m, m.len());
        assert(m.take(m.len() as int) =~= m);
    }
}

/// Reads a schema.
pub fn decode_schema(v: &Value) -> (r: Result<Schema, DecodeError>)
    ensures
        outcome(r) == schema_from_json(value_tree(*v)),
    decreases value_tree(*v), 1nat,
{
    match kind_of(v) {
        Kind::Object => {},
        found => {
            return Err(DecodeError::mismatch(Expected::Object, found));
        },
    }
    let description = read_optional::<String>(v, "description")?;
    let required = read_list::<String>(v, "required")?;
    let properties = read_schema_ref_map(v, "properties")?;
    let additional_properties = read_schema_ref(v, "additionalProperties")?;
    let all_of = read_schema_ref_list(v, "allOf")?;
    let read_only = read_flag(v, "readOnly")?;
    let type_ = read_optional::<DataType>(v, "type")?;
    let format = read_optional::<String>(v, "format")?;
    let items = read_schema_ref(v, "items")?;
    let default = read_any(v, "default");
    let maximum = read_optional::<Number>(v, "maximum")?;
    let exclusive_maximum = read_flag(v, "exclusiveMaximum")?;
    let minimum = read_optional::<Number>(v, "minimum")?;
    let exclusive_minimum = read_flag(v, "exclusiveMinimum")?;
    let max_length = read_optional::<usize>(v, "maxLength")?;
    let min_length = read_optional::<usize>(v, "minLength")?;
    let pattern = read_optional::<String>(v, "pattern")?;
    let max_items = read_optional::<usize>(v, "maxItems")?;
    let min_items = read_optional::<usize>(v, "minItems")?;
    let unique_items = read_flag(v, "uniqueItems")?;
    let enum_ = read_list::<String>(v, "enum")?;
    let multiple_of = read_optional::<Number>(v, "multipleOf")?;
    let x_ms_client_flatten = read_flag(v, "x-ms-client-flatten")?;
    let x_ms_enum = read_optional::<MsEnum>(v, "x-ms-enum")?;
    let x_ms_secret = read_flag(v, "x-ms-secret")?;
    let x_ms_azure_resource = read_flag(v, "x-ms-azure-resource")?;
    let x_ms_mutability = read_list::<MsMutability>(v, "x-ms-mutability")?;
    let x_ms_external = read_flag(v, "x-ms-external")?;
    let ghost properties_model = properties.model();
    let ghost additional_properties_model = boxed(additional_properties.model());
    let ghost all_of_model = all_of.model();
    let ghost items_model = boxed(items.model());
    let s = Schema {
        description,
        required,
        properties,
        additional_properties: Box::new(additional_properties),
        all_of,
        read_only,
        type_,
        format,
        items: Box::new(items),
        default,
        maximum,
        exclusive_maximum,
        minimum,
        exclusive_minimum,
        max_length,
        min_length,
        pattern,
        max_items,
        min_items,
        unique_items,
        enum_,
        multiple_of,
        x_ms_client_flatten,
        x_ms_enum,
        x_ms_secret,
        x_ms_azure_resource,
        x_ms_mutability,
        x_ms_external,
    };
    assert(s.model_of().properties =~= properties_model);
    assert(s.model_of().additional_properties =~= additional_properties_model);
    assert(s.model_of().all_of =~= all_of_model);
    assert(s.model_of().items =~= items_model);
    Ok(s)
}

/// Reads a schema or a reference.
pub fn decode_schema_ref(v: &Value) -> (r: Result<ReferenceOr<Schema>, DecodeError>)
    ensures
        outcome(r) == schema_ref_from_json(value_tree(*v)),
    decreases value_tree(*v), 2nat,
{
    if holds_reference(v) {
        decode_reference::<Schema>(v)
    } else {
        match decode_schema(v) {
            Ok(x) => Ok(ReferenceOr::Item(x)),
            Err(e) => Err(e),
        }
    }
}

/// Reads an optional field that holds a schema or a reference.
fn read_schema_ref(v: &Value, key: &str) -> (r: Result<Option<ReferenceOr<Schema>>, DecodeError>)
    requires
        value_tree(*v) is Object,
    ensures
        outcome(r) == schema_ref_field(value_tree(*v)->Object_0, key@),
    decreases value_tree(*v), 0nat,
{
    proof {
        lemma_find_decreases(value_tree(*v)->Object_0, key@);
    }
    match member(v, key) {
        None => Ok(None),
        Some(x) => match kind_of(x) {
            Kind::Null => Ok(None),
            _ => match decode_schema_ref(x) {
                Ok(m) => Ok(Some(m)),
                Err(e) => Err(e.under_key(key)),
            },
        },
    }
}

/// Reads a list of schemas and references.
fn decode_schema_refs(v: &Value) -> (r: Result<Vec<ReferenceOr<Schema>>, DecodeError>)
    ensures
        outcome(r) == schema_refs_from_json(value_tree(*v)),
    decreases value_tree(*v), 0nat,
{
    match v.as_array() {
        None => Err(DecodeError::mismatch(Expected::Array, kind_of(v))),
        Some(source) => {
            let ghost items = value_tree(*v)->Array_0;
            let mut out: Vec<ReferenceOr<Schema>> = Vec::new();
            let mut i: usize = 0;
            assert(out.model() =~= Seq::empty());
            while i < source.len()
                invariant
                    0 <= i <= source.len(),
                    value_tree(*v) == JsonV::Array(items),
                    trees(source@) == items,
                    schema_refs_prefix(items, i as nat) == Ok::<
                        Seq<RefOrV<SchemaV>>,
                        DecodeErrorV,
                    >(out.model()),
                decreases source.len() - i,
            {
                assert(items[i as int] == value_tree(source@[i as int]));
                match decode_schema_ref(&source[i]) {
                    Err(e) => {
                        proof {
                            lemma_schema_refs_fail(items, (i + 1) as nat, items.len());
                        }
                        return Err(e.under(Segment::Index(i)));
                    },
                    Ok(x) => {
                        let ghost before = out.model();
                        out.push(x);
                        assert(out.model() =~= before.push(x.model()));
                    },
                }
                i += 1;
            }
            Ok(out)
        },
    }
}

/// Reads a list of schemas and references that is empty where its key is
/// missing.
fn read_schema_ref_list(v: &Value, key: &str) -> (r: Result<Vec<ReferenceOr<Schema>>, DecodeError>)
    requires
        value_tree(*v) is Object,
    ensures
        outcome(r) == schema_ref_list_field(value_tree(*v)->Object_0, key@),
    decreases value_tree(*v), 0nat,
{
    proof {
        lemma_find_decreases(value_tree(*v)->Object_0, key@);
    }
    match member(v, key) {
        None => {
            let out: Vec<ReferenceOr<Schema>> = Vec::new();
            assert(out.model() =~= Seq::empty());
            Ok(out)
        },
        Some(x) => match decode_schema_refs(x) {
            Ok(m) => Ok(m),
            Err(e) => Err(e.under_key(key)),
        },
    }
}

/// Reads a mapping to schemas and references.
fn decode_schema_ref_map(v: &Value) -> (r: Result<OrderedMap<ReferenceOr<Schema>>, DecodeError>)
    ensures
        outcome(r) == schema_ref_map_from_json(value_tree(*v)),
    decreases value_tree(*v), 0nat,
{
    match entries_of(v) {
        None => Err(DecodeError::mismatch(Expected::Object, kind_of(v))),
        Some(source) => {
            let ghost entries = value_tree(*v)->Object_0;
            let mut out: OrderedMap<ReferenceOr<Schema>> = OrderedMap::new();
            let mut i: usize = 0;
            assert(out.model() =~= Seq::empty());
            while i < source.len()
                invariant
                    0 <= i <= source.len(),
                    value_tree(*v) == JsonV::Object(entries),
                    members(source@) == entries,
                    distinct_keys(entries),
                    schema_ref_entries_prefix(entries, i as nat) == Ok::<
                        Seq<(Seq<char>, RefOrV<SchemaV>)>,
                        DecodeErrorV,
                    >(out.model()),
                decreases source.len() - i,
            {
                assert(entries[i as int] == (
                    source@[i as int].0@,
                    value_tree(*source@[i as int].1),
                ));
                let pair = &source[i];
                assert(value_tree(*pair.1) == entries[i as int].1);
                match decode_schema_ref(pair.1) {
                    Err(e) => {
                        proof {
                            lemma_schema_ref_entries_fail(entries, (i + 1) as nat, entries.len());
                        }
                        return Err(e.under_key(pair.0.as_str()));
                    },
                    Ok(x) => {
                        let ghost before = out.entries();
                        let ghost before_model = out.model();
                        proof {
                            lemma_schema_ref_entries_keep_keys(entries, i as nat);
                            assert forall|k: int| 0 <= k < before.len() implies (
                            #[trigger] before[k]).0 != pair.0@ by {
                                assert(before_model[k].0 == before[k].0);
                            }
                            lemma_with_entry_fresh(before, pair.0@, x);
                        }
                        out.insert(pair.0.clone(), x);
                        assert(out.model() =~= before_model.push((pair.0@, x.model())));
                    },
                }
                i += 1;
            }
            Ok(out)
        },
    }
}

/// Reads a mapping to schemas and references that is empty where its key is
/// missing.
fn read_schema_ref_map(v: &Value, key: &str) -> (r: Result<
    OrderedMap<ReferenceOr<Schema>>,
    DecodeError,
>)
    requires
        value_tree(*v) is Object,
    ensures
        outcome(r) == schema_ref_map_field(value_tree(*v)->Object_0, key@),
    decreases value_tree(*v), 0nat,
{
    proof {
        lemma_find_decreases(value_tree(*v)->Object_0, key@);
    }
    match member(v, key) {
        None => {
            let out: OrderedMap<ReferenceOr<Schema>> = OrderedMap::new();
            assert(out.model() =~= Seq::empty());
            Ok(out)
        },
        Some(x) => match decode_schema_ref_map(x) {
            Ok(m) => Ok(m),
            Err(e) => Err(e.under_key(key)),
        },
    }
}

/// Writes a schema.
pub fn encode_schema(s: &Schema) -> (v: Value)
    ensures
        value_tree(v) == schema_to_json(s.model_of()),
    decreases s, 1nat,
{
    let mut o = empty_object();
    put_optional::<String>(&mut o, "description", &s.description);
    put_list::<String>(&mut o, "required", &s.required);
    put_schema_ref_map(&mut o, "properties", &s.properties);
    put_schema_ref(&mut o, "additionalProperties", &s.additional_properties);
    put_schema_ref_list(&mut o, "allOf", &s.all_of);
    put_flag(&mut o, "readOnly", s.read_only);
    put_optional::<DataType>(&mut o, "type", &s.type_);
    put_optional::<String>(&mut o, "format", &s.format);
    put_schema_ref(&mut o, "items", &s.items);
    put_any(&mut o, "default", &s.default);
    put_optional::<Number>(&mut o, "maximum", &s.maximum);
    put_flag(&mut o, "exclusiveMaximum", s.exclusive_maximum);
    put_optional::<Number>(&mut o, "minimum", &s.minimum);
    put_flag(&mut o, "exclusiveMinimum", s.exclusive_minimum);
    put_optional::<usize>(&mut o, "maxLength", &s.max_length);
    put_optional::<usize>(&mut o, "minLength", &s.min_length);
    put_optional::<String>(&mut o, "pattern", &s.pattern);
    put_optional::<usize>(&mut o, "maxItems", &s.max_items);
    put_optional::<usize>(&mut o, "minItems", &s.min_items);
    put_flag(&mut o, "uniqueItems", s.unique_items);
    put_list::<String>(&mut o, "enum", &s.enum_);
    put_optional::<Number>(&mut o, "multipleOf", &s.multiple_of);
    put_flag(&mut o, "x-ms-client-flatten", s.x_ms_client_flatten);
    put_optional::<MsEnum>(&mut o, "x-ms-enum", &s.x_ms_enum);
    put_flag(&mut o, "x-ms-secret", s.x_ms_secret);
    put_flag(&mut o, "x-ms-azure-resource", s.x_ms_azure_resource);
    put_list::<MsMutability>(&mut o, "x-ms-mutability", &s.x_ms_mutability);
    put_flag(&mut o, "x-ms-external", s.x_ms_external);
    o
}

/// Writes a schema or a reference.
pub fn encode_schema_ref(r: &ReferenceOr<Schema>) -> (v: Value)
    ensures
        value_tree(v) == schema_ref_to_json(Schema::ref_model(*r)),
    decreases r, 2nat,
{
    match r {
        ReferenceOr::Reference {
            reference,
            title,
            description,
            type_,
            read_only,
            x_ms_client_flatten,
        } => encode_reference(
            reference,
            title,
            description,
            type_,
            read_only,
            x_ms_client_flatten,
        ),
        ReferenceOr::Item(x) => encode_schema(x),
    }
}

/// Writes an optional field that holds a schema or a reference.
fn put_schema_ref(object: &mut Value, key: &str, value: &Box<Option<ReferenceOr<Schema>>>)
    requires
        value_tree(*old(object)) is Object,
    ensures
        value_tree(*final(object)) == JsonV::Object(
            with_member(
                value_tree(*old(object))->Object_0,
                key@,
                match Schema::optional_ref_model(**value) {
                    Some(x) => Some(schema_ref_to_json(x)),
                    None => None,
                },
            ),
        ),
    decreases value, 0nat,
{
    let written = match &**value {
        Some(r) => Some(encode_schema_ref(r)),
        None => None,
    };
    put(object, key, written);
}

/// Writes a list of schemas and references.
fn put_schema_ref_list(object: &mut Value, key: &str, value: &Vec<ReferenceOr<Schema>>)
    requires
        value_tree(*old(object)) is Object,
    ensures
        value_tree(*final(object)) == JsonV::Object(
            with_member(
                value_tree(*old(object))->Object_0,
                key@,
                schema_ref_list_json(Schema::refs_model(*value)),
            ),
        ),
    decreases value, 0nat,
{
    let ghost m = Schema::refs_model(*value);
    if value.len() == 0 {
        put(object, key, None);
    } else {
        let mut out: Vec<Value> = Vec::new();
        let mut i: usize = 0;
        while i < value.len()
            invariant
                0 <= i <= value.len(),
                m.len() == value@.len(),
                forall|k: int| 0 <= k < m.len() ==> #[trigger] m[k] == Schema::ref_model(value@[k]),
                trees(out@) =~= schema_refs_to_json(m).take(i as int),
            decreases value.len() - i,
        {
            let item = encode_schema_ref(&value[i]);
            let ghost before = trees(out@);
            out.push(item);
            proof {
                assert(trees(out@) =~= before.push(value_tree(item)));
                assert(schema_refs_to_json(m).take(i + 1) =~= schema_refs_to_json(m).take(
                    i as int,
                ).push(schema_refs_to_json(m)[i as int]));
            }
            i += 1;
        }
        assert(schema_refs_to_json(m).take(i as int) =~= schema_refs_to_json(m));
        put(object, key, Some(array_value(out)));
    }
}

/// Writes a mapping to schemas and references.
fn encode_schema_ref_map(value: &OrderedMap<ReferenceOr<Schema>>) -> (v: Value)
    ensures
        value_tree(v) == JsonV::Object(
            schema_ref_entries_to_json(Schema::ref_entries_model(*value)),
        ),
    decreases value, 0nat,
{
    let ghost m = Schema::ref_entries_model(*value);
    let ghost written = schema_ref_entries_to_json(m);
    let mut out = empty_object();
    let mut i: usize = 0;
    proof {
        value.lemma_distinct();
    }
    while i < value.len()
        invariant
            0 <= i <= value.entries().len(),
            m.len() == value.entries().len(),
            forall|k: int|
                0 <= k < m.len() ==> #[trigger] m[k] == (
                    value.entries()[k].0,
                    Schema::ref_model(value.entries()[k].1),
                ),
            written == schema_ref_entries_to_json(m),
            distinct_keys(value.entries()),
            value_tree(out) is Object,
            value_tree(out)->Object_0 =~= written.take(i as int),
        decreases value.entries().len() - i,
    {
        let key = value.key_at(i);
        proof {
            value.lemma_value_decreases(i as int);
        }
        let item = encode_schema_ref(value.value_at(i));
        proof {
            let sofar = value_tree(out)->Object_0;
            assert forall|k: int| 0 <= k < sofar.len() implies (#[trigger] sofar[k]).0 != key@ by {
                assert(sofar[k].0 == value.entries()[k].0);
            }
            lemma_with_entry_fresh(sofar, key@, value_tree(item));
            assert(written.take(i + 1) =~= written.take(i as int).push(written[i as int]));
        }
        set_member(&mut out, key.clone(), item);
        i += 1;
    }
    assert(written.take(i as int) =~= written);
    out
}

/// Writes a mapping to schemas and references, unless it is empty.
fn put_schema_ref_map(object: &mut Value, key: &str, value: &OrderedMap<ReferenceOr<Schema>>)
    requires
        value_tree(*old(object)) is Object,
    ensures
        value_tree(*final(object)) == JsonV::Object(
            with_member(
                value_tree(*old(object))->Object_0,
                key@,
                schema_ref_map_json(Schema::ref_entries_model(*value)),
            ),
        ),
    decreases value, 1nat,
{
    let written = if value.is_empty() {
        None
    } else {
        Some(encode_schema_ref_map(value))
    };
    put(object, key, written);
}

impl Binding for Schema {
    open spec fn from_json(t: JsonV) -> Result<SchemaV, DecodeErrorV> {
        schema_from_json(t)
    }

    open spec fn to_json(m: SchemaV) -> JsonV {
        schema_to_json(m)
    }

    fn decode(v: &Value) -> (r: Result<Schema, DecodeError>) {
        decode_schema(v)
    }

    fn encode(&self) -> (v: Value) {
        encode_schema(self)
    }

    proof fn round_trip(m: SchemaV) {
        lemma_schema_round_trip(m);
    }
}

impl Record for Schema {
    proof fn written_as_record(m: SchemaV) {
        Schema::lemma_written_keys(m, "$ref"@);
        Schema::lemma_spelling();
    }
}

impl Clone for Schema {
    /// A deep copy, made by writing the schema and reading it back.
    fn clone(&self) -> (r: Schema)
        ensures
            r.model() == self.model(),
    {
        let written = encode_schema(self);
        proof {
            lemma_schema_round_trip(self.model_of());
        }
        match decode_schema(&written) {
            Ok(copy) => copy,
            Err(_) => vstd::pervasive::unreached(),
        }
    }
}

impl Schema {
    /// Which keys are written: a required field always, an optional field where
    /// it is present, a list or a mapping where it is not empty, a flag where
    /// it is set. Nothing else is written.
    pub proof fn lemma_written_keys(m: SchemaV, key: Seq<char>)
        ensures
            schema_to_json(m) is Object,
            has_key(schema_to_json(m)->Object_0, "description"@) == (m.description is Some),
            has_key(schema_to_json(m)->Object_0, "required"@) == (m.required.len() > 0),
            has_key(schema_to_json(m)->Object_0, "properties"@) == (m.properties.len() > 0),
            has_key(
                schema_to_json(m)->Object_0,
                "additionalProperties"@,
            ) == (m.additional_properties is Some),
            has_key(schema_to_json(m)->Object_0, "allOf"@) == (m.all_of.len() > 0),
            has_key(schema_to_json(m)->Object_0, "readOnly"@) == (m.read_only),
            has_key(schema_to_json(m)->Object_0, "type"@) == (m.type_ is Some),
            has_key(schema_to_json(m)->Object_0, "format"@) == (m.format is Some),
            has_key(schema_to_json(m)->Object_0, "items"@) == (m.items is Some),
            has_key(schema_to_json(m)->Object_0, "default"@) == (m.default is Some),
            has_key(schema_to_json(m)->Object_0, "maximum"@) == (m.maximum is Some),
            has_key(schema_to_json(m)->Object_0, "exclusiveMaximum"@) == (m.exclusive_maximum),
            has_key(schema_to_json(m)->Object_0, "minimum"@) == (m.minimum is Some),
            has_key(schema_to_json(m)->Object_0, "exclusiveMinimum"@) == (m.exclusive_minimum),
            has_key(schema_to_json(m)->Object_0, "maxLength"@) == (m.max_length is Some),
            has_key(schema_to_json(m)->Object_0, "minLength"@) == (m.min_length is Some),
            has_key(schema_to_json(m)->Object_0, "pattern"@) == (m.pattern is Some),
            has_key(schema_to_json(m)->Object_0, "maxItems"@) == (m.max_items is Some),
            has_key(schema_to_json(m)->Object_0, "minItems"@) == (m.min_items is Some),
            has_key(schema_to_json(m)->Object_0, "uniqueItems"@) == (m.unique_items),
            has_key(schema_to_json(m)->Object_0, "enum"@) == (m.enum_.len() > 0),
            has_key(schema_to_json(m)->Object_0, "multipleOf"@) == (m.multiple_of is Some),
            has_key(schema_to_json(m)->Object_0, "x-ms-client-flatten"@) == (m.x_ms_client_flatten),
            has_key(schema_to_json(m)->Object_0, "x-ms-enum"@) == (m.x_ms_enum is Some),
            has_key(schema_to_json(m)->Object_0, "x-ms-secret"@) == (m.x_ms_secret),
            has_key(schema_to_json(m)->Object_0, "x-ms-azure-resource"@) == (m.x_ms_azure_resource),
            has_key(
                schema_to_json(m)->Object_0,
                "x-ms-mutability"@,
            ) == (m.x_ms_mutability.len() > 0),
            has_key(schema_to_json(m)->Object_0, "x-ms-external"@) == (m.x_ms_external),
            has_key(schema_to_json(m)->Object_0, key) ==> {
                ||| key == "description"@
                ||| key == "required"@
                ||| key == "properties"@
                ||| key == "additionalProperties"@
                ||| key == "allOf"@
                ||| key == "readOnly"@
                ||| key == "type"@
                ||| key == "format"@
                ||| key == "items"@
                ||| key == "default"@
                ||| key == "maximum"@
                ||| key == "exclusiveMaximum"@
                ||| key == "minimum"@
                ||| key == "exclusiveMinimum"@
                ||| key == "maxLength"@
                ||| key == "minLength"@
                ||| key == "pattern"@
                ||| key == "maxItems"@
                ||| key == "minItems"@
                ||| key == "uniqueItems"@
                ||| key == "enum"@
                ||| key == "multipleOf"@
                ||| key == "x-ms-client-flatten"@
                ||| key == "x-ms-enum"@
                ||| key == "x-ms-secret"@
                ||| key == "x-ms-azure-resource"@
                ||| key == "x-ms-mutability"@
                ||| key == "x-ms-external"@
            },
    {
        lemma_with_member();
        Self::lemma_spelling();
    }

    /// What stands under each key of what a value is written as.
    pub proof fn lemma_members(m: SchemaV)
        ensures
            find(
                schema_to_json(m)->Object_0,
                "description"@,
            ) == optional_json::<String>(m.description),
            find(schema_to_json(m)->Object_0, "required"@) == list_json::<String>(m.required),
            find(schema_to_json(m)->Object_0, "properties"@) == schema_ref_map_json(m.properties),
            find(
                schema_to_json(m)->Object_0,
                "additionalProperties"@,
            ) == (match m.additional_properties {
                    Some(x) => Some(schema_ref_to_json(*x)),
                    None => None,
                }),
            find(schema_to_json(m)->Object_0, "allOf"@) == schema_ref_list_json(m.all_of),
            find(schema_to_json(m)->Object_0, "readOnly"@) == flag_json(m.read_only),
            find(schema_to_json(m)->Object_0, "type"@) == optional_json::<DataType>(m.type_),
            find(schema_to_json(m)->Object_0, "format"@) == optional_json::<String>(m.format),
            find(schema_to_json(m)->Object_0, "items"@) == (match m.items {
                    Some(x) => Some(schema_ref_to_json(*x)),
                    None => None,
                }),
            find(schema_to_json(m)->Object_0, "default"@) == m.default,
            find(schema_to_json(m)->Object_0, "maximum"@) == optional_json::<Number>(m.maximum),
            find(
                schema_to_json(m)->Object_0,
                "exclusiveMaximum"@,
            ) == flag_json(m.exclusive_maximum),
            find(schema_to_json(m)->Object_0, "minimum"@) == optional_json::<Number>(m.minimum),
            find(
                schema_to_json(m)->Object_0,
                "exclusiveMinimum"@,
            ) == flag_json(m.exclusive_minimum),
            find(schema_to_json(m)->Object_0, "maxLength"@) == optional_json::<usize>(m.max_length),
            find(schema_to_json(m)->Object_0, "minLength"@) == optional_json::<usize>(m.min_length),
            find(schema_to_json(m)->Object_0, "pattern"@) == optional_json::<String>(m.pattern),
            find(schema_to_json(m)->Object_0, "maxItems"@) == optional_json::<usize>(m.max_items),
            find(schema_to_json(m)->Object_0, "minItems"@) == optional_json::<usize>(m.min_items),
            find(schema_to_json(m)->Object_0, "uniqueItems"@) == flag_json(m.unique_items),
            find(schema_to_json(m)->Object_0, "enum"@) == list_json::<String>(m.enum_),
            find(
                schema_to_json(m)->Object_0,
                "multipleOf"@,
            ) == optional_json::<Number>(m.multiple_of),
            find(
                schema_to_json(m)->Object_0,
                "x-ms-client-flatten"@,
            ) == flag_json(m.x_ms_client_flatten),
            find(schema_to_json(m)->Object_0, "x-ms-enum"@) == optional_json::<MsEnum>(m.x_ms_enum),
            find(schema_to_json(m)->Object_0, "x-ms-secret"@) == flag_json(m.x_ms_secret),
            find(
                schema_to_json(m)->Object_0,
                "x-ms-azure-resource"@,
            ) == flag_json(m.x_ms_azure_resource),
            find(
                schema_to_json(m)->Object_0,
                "x-ms-mutability"@,
            ) == list_json::<MsMutability>(m.x_ms_mutability),
            find(schema_to_json(m)->Object_0, "x-ms-external"@) == flag_json(m.x_ms_external),
    {
        lemma_with_member();
        Self::lemma_spelling();
    }

    /// How the keys are spelled, as far as it takes to tell them apart.
    proof fn lemma_spelling()
        ensures
            "$ref"@.len() == 4,
            "description"@.len() == 11,
            "required"@.len() == 8,
            "properties"@.len() == 10,
            "additionalProperties"@.len() == 20,
            "allOf"@.len() == 5,
            "readOnly"@.len() == 8,
            "type"@.len() == 4,
            "format"@.len() == 6,
            "items"@.len() == 5,
            "default"@.len() == 7,
            "maximum"@.len() == 7,
            "exclusiveMaximum"@.len() == 16,
            "minimum"@.len() == 7,
            "exclusiveMinimum"@.len() == 16,
            "maxLength"@.len() == 9,
            "minLength"@.len() == 9,
            "pattern"@.len() == 7,
            "maxItems"@.len() == 8,
            "minItems"@.len() == 8,
            "uniqueItems"@.len() == 11,
            "enum"@.len() == 4,
            "multipleOf"@.len() == 10,
            "x-ms-client-flatten"@.len() == 19,
            "x-ms-enum"@.len() == 9,
            "x-ms-secret"@.len() == 11,
            "x-ms-azure-resource"@.len() == 19,
            "x-ms-mutability"@.len() == 15,
            "x-ms-external"@.len() == 13,
            "$ref"@[0] == '$',
            "type"@[0] == 't',
            "enum"@[0] == 'e',
            "description"@[0] == 'd',
            "uniqueItems"@[0] == 'u',
            "x-ms-secret"@[0] == 'x',
            "required"@[2] == 'q',
            "readOnly"@[2] == 'a',
            "required"@[0] == 'r',
            "maxItems"@[0] == 'm',
            "minItems"@[0] == 'm',
            "properties"@[0] == 'p',
            "multipleOf"@[0] == 'm',
            "allOf"@[0] == 'a',
            "items"@[0] == 'i',
            "readOnly"@[0] == 'r',
            "default"@[0] == 'd',
            "maximum"@[0] == 'm',
            "minimum"@[0] == 'm',
            "pattern"@[0] == 'p',
            "maximum"@[1] == 'a',
            "minimum"@[1] == 'i',
            "exclusiveMaximum"@[10] == 'a',
            "exclusiveMinimum"@[10] == 'i',
            "maxLength"@[1] == 'a',
            "minLength"@[1] == 'i',
            "maxLength"@[0] == 'm',
            "x-ms-enum"@[0] == 'x',
            "minLength"@[0] == 'm',
            "maxItems"@[1] == 'a',
            "minItems"@[1] == 'i',
            "x-ms-client-flatten"@[5] == 'c',
            "x-ms-azure-resource"@[5] == 'a',
    {
        reveal_strlit("$ref");
        reveal_strlit("description");
        reveal_strlit("required");
        reveal_strlit("properties");
        reveal_strlit("additionalProperties");
        reveal_strlit("allOf");
        reveal_strlit("readOnly");
        reveal_strlit("type");
        reveal_strlit("format");
        reveal_strlit("items");
        reveal_strlit("default");
        reveal_strlit("maximum");
        reveal_strlit("exclusiveMaximum");
        reveal_strlit("minimum");
        reveal_strlit("exclusiveMinimum");
        reveal_strlit("maxLength");
        reveal_strlit("minLength");
        reveal_strlit("pattern");
        reveal_strlit("maxItems");
        reveal_strlit("minItems");
        reveal_strlit("uniqueItems");
        reveal_strlit("enum");
        reveal_strlit("multipleOf");
        reveal_strlit("x-ms-client-flatten");
        reveal_strlit("x-ms-enum");
        reveal_strlit("x-ms-secret");
        reveal_strlit("x-ms-azure-resource");
        reveal_strlit("x-ms-mutability");
        reveal_strlit("x-ms-external");
    }
}

impl Keys for Schema {
    open spec fn known(key: Seq<char>) -> bool {
        ||| key == "description"@
        ||| key == "required"@
        ||| key == "properties"@
        ||| key == "additionalProperties"@
        ||| key == "allOf"@
        ||| key == "readOnly"@
        ||| key == "type"@
        ||| key == "format"@
        ||| key == "items"@
        ||| key == "default"@
        ||| key == "maximum"@
        ||| key == "exclusiveMaximum"@
        ||| key == "minimum"@
        ||| key == "exclusiveMinimum"@
        ||| key == "maxLength"@
        ||| key == "minLength"@
        ||| key == "pattern"@
        ||| key == "maxItems"@
        ||| key == "minItems"@
        ||| key == "uniqueItems"@
        ||| key == "enum"@
        ||| key == "multipleOf"@
        ||| key == "x-ms-client-flatten"@
        ||| key == "x-ms-enum"@
        ||| key == "x-ms-secret"@
        ||| key == "x-ms-azure-resource"@
        ||| key == "x-ms-mutability"@
        ||| key == "x-ms-external"@
    }

    fn knows(key: &str) -> (b: bool) {
        same_text(key, "description")
            || same_text(key, "required")
            || same_text(key, "properties")
            || same_text(key, "additionalProperties")
            || same_text(key, "allOf")
            || same_text(key, "readOnly")
            || same_text(key, "type")
            || same_text(key, "format")
            || same_text(key, "items")
            || same_text(key, "default")
            || same_text(key, "maximum")
            || same_text(key, "exclusiveMaximum")
            || same_text(key, "minimum")
            || same_text(key, "exclusiveMinimum")
            || same_text(key, "maxLength")
            || same_text(key, "minLength")
            || same_text(key, "pattern")
            || same_text(key, "maxItems")
            || same_text(key, "minItems")
            || same_text(key, "uniqueItems")
            || same_text(key, "enum")
            || same_text(key, "multipleOf")
            || same_text(key, "x-ms-client-flatten")
            || same_text(key, "x-ms-enum")
            || same_text(key, "x-ms-secret")
            || same_text(key, "x-ms-azure-resource")
            || same_text(key, "x-ms-mutability")
            || same_text(key, "x-ms-external")
    }
}

/// The ignored keys of a tree that is read as a schema.
pub open spec fn schema_ignored(t: JsonV) -> Seq<PathV>
    decreases t, 1nat,
{
    match t {
        JsonV::Object(e) => {
            let found = unknown_keys::<Schema>(e, e.len());
            let found = found + schema_ref_map_ignored_under(e, "properties"@);
            let found = found + schema_ref_ignored_under(e, "additionalProperties"@);
            let found = found + schema_refs_ignored_under(e, "allOf"@);
            let found = found + schema_ref_ignored_under(e, "items"@);
            let found = found + ignored_under::<MsEnum>(find(e, "x-ms-enum"@), "x-ms-enum"@);
            found
        },
        _ => Seq::empty(),
    }
}

/// The ignored keys of a tree that is read as a schema or a reference.
pub open spec fn schema_ref_ignored(t: JsonV) -> Seq<PathV>
    decreases t, 2nat,
{
    if is_reference(t) {
        unknown_keys::<ReferenceKeys>(t->Object_0, t->Object_0.len())
    } else {
        schema_ignored(t)
    }
}

/// The ignored keys beneath a field that holds a schema or a reference.
pub open spec fn schema_ref_ignored_under(e: Members, key: Seq<char>) -> Seq<PathV>
    decreases e, 0nat,
{
    proof {
        lemma_find_decreases(e, key);
    }
    match find(e, key) {
        Some(t) => under_all(schema_ref_ignored(t), SegmentV::Key(key)),
        None => Seq::empty(),
    }
}

/// The ignored keys beneath the first `n` elements of an array of schemas
/// and references.
pub open spec fn schema_refs_ignored(items: Seq<JsonV>, n: nat) -> Seq<PathV>
    decreases items, n,
{
    if n == 0 || n > items.len() {
        Seq::empty()
    } else {
        schema_refs_ignored(items, (n - 1) as nat) + under_all(
            schema_ref_ignored(items[n - 1]),
            SegmentV::Index((n - 1) as usize),
        )
    }
}

/// The ignored keys beneath a list of schemas and references.
pub open spec fn schema_refs_ignored_under(e: Members, key: Seq<char>) -> Seq<PathV>
    decreases e, 0nat,
{
    proof {
        lemma_find_decreases(e, key);
    }
    match find(e, key) {
        Some(JsonV::Array(items)) => under_all(
            schema_refs_ignored(items, items.len()),
            SegmentV::Key(key),
        ),
        _ => Seq::empty(),
    }
}

/// The ignored keys beneath the first `n` members of a mapping to schemas
/// and references.
pub open spec fn schema_ref_entries_ignored(entries: Members, n: nat) -> Seq<PathV>
    decreases entries, n,
{
    if n == 0 || n > entries.len() {
        Seq::empty()
    } else {
        schema_ref_entries_ignored(entries, (n - 1) as nat) + under_all(
            schema_ref_ignored(entries[n - 1].1),
            SegmentV::Key(entries[n - 1].0),
        )
    }
}

/// The ignored keys beneath a mapping to schemas and references.
pub open spec fn schema_ref_map_ignored_under(e: Members, key: Seq<char>) -> Seq<PathV>
    decreases e, 0nat,
{
    proof {
        lemma_find_decreases(e, key);
    }
    match find(e, key) {
        Some(JsonV::Object(entries)) => under_all(
            schema_ref_entries_ignored(entries, entries.len()),
            SegmentV::Key(key),
        ),
        _ => Seq::empty(),
    }
}

/// What a schema is written as holds no ignored key.
pub proof fn lemma_schema_clean(m: SchemaV)
    ensures
        schema_ignored(schema_to_json(m)) == Seq::<PathV>::empty(),
    decreases m, 1nat,
{
    Schema::lemma_members(m);
    let e = schema_to_json(m)->Object_0;
    assert forall|i: int| 0 <= i < e.len() implies Schema::known(
        #[trigger] e[i].0,
    ) by {
        lemma_key_present(e, i);
        Schema::lemma_written_keys(m, e[i].0);
    }
    lemma_all_known::<Schema>(e, e.len());
    if m.properties.len() > 0 {
        lemma_schema_ref_entries_clean(m.properties, m.properties.len());
        assert(
            under_all(Seq::<PathV>::empty(), SegmentV::Key("properties"@)) =~= Seq::<PathV>::empty()
        );
    }
    if m.additional_properties is Some {
        lemma_schema_ref_clean(*m.additional_properties->0);
        assert(
            under_all(
                Seq::<PathV>::empty(),
                SegmentV::Key("additionalProperties"@),
            ) =~= Seq::<PathV>::empty()
        );
    }
    if m.all_of.len() > 0 {
        lemma_schema_refs_clean(m.all_of, m.all_of.len());
        assert(under_all(Seq::<PathV>::empty(), SegmentV::Key("allOf"@)) =~= Seq::<PathV>::empty());
    }
    if m.items is Some {
        lemma_schema_ref_clean(*m.items->0);
        assert(under_all(Seq::<PathV>::empty(), SegmentV::Key("items"@)) =~= Seq::<PathV>::empty());
    }
    if m.x_ms_enum is Some {
        lemma_under_clean::<MsEnum>(find(e, "x-ms-enum"@), "x-ms-enum"@, m.x_ms_enum->0);
    }
    assert(Seq::<PathV>::empty() + Seq::<PathV>::empty() =~= Seq::<PathV>::empty());
}

/// What a schema or a reference is written as holds no ignored key.
pub proof fn lemma_schema_ref_clean(m: RefOrV<SchemaV>)
    ensures
        schema_ref_ignored(schema_ref_to_json(m)) == Seq::<PathV>::empty(),
    decreases m, 2nat,
{
    lemma_schema_ref_round_trip(m);
    match m {
        RefOrV::Reference {
            reference,
            title,
            description,
            type_,
            read_only,
            x_ms_client_flatten,
        } => {
            lemma_reference_round_trip::<SchemaV>(
                reference,
                title,
                description,
                type_,
                read_only,
                x_ms_client_flatten,
            );
            lemma_reference_clean(
                reference,
                title,
                description,
                type_,
                read_only,
                x_ms_client_flatten,
            );
        },
        RefOrV::Item(x) => {
            Schema::lemma_written_keys(x, "$ref"@);
            Schema::lemma_spelling();
            lemma_schema_clean(x);
        },
    }
}

/// Nothing is ignored beneath the elements that a list is written as.
proof fn lemma_schema_refs_clean(m: Seq<RefOrV<SchemaV>>, n: nat)
    requires
        n <= m.len(),
    ensures
        schema_refs_ignored(schema_refs_to_json(m), n) == Seq::<PathV>::empty(),
    decreases m, n,
{
    if n > 0 {
        lemma_schema_refs_clean(m, (n - 1) as nat);
        lemma_schema_ref_clean(m[n - 1]);
        assert(under_all(Seq::<PathV>::empty(), SegmentV::Index((n - 1) as usize))
            =~= Seq::<PathV>::empty());
        assert(Seq::<PathV>::empty() + Seq::<PathV>::empty() =~= Seq::<PathV>::empty());
    }
}

/// Nothing is ignored beneath the members that a mapping is written as.
proof fn lemma_schema_ref_entries_clean(m: Seq<(Seq<char>, RefOrV<SchemaV>)>, n: nat)
    requires
        n <= m.len(),
    ensures
        schema_ref_entries_ignored(schema_ref_entries_to_json(m), n) == Seq::<PathV>::empty(),
    decreases m, n,
{
    if n > 0 {
        lemma_schema_ref_entries_clean(m, (n - 1) as nat);
        lemma_schema_ref_clean(m[n - 1].1);
        assert(under_all(Seq::<PathV>::empty(), SegmentV::Key(m[n - 1].0))
            =~= Seq::<PathV>::empty());
        assert(Seq::<PathV>::empty() + Seq::<PathV>::empty() =~= Seq::<PathV>::empty());
    }
}

/// Adds the ignored keys of a value that is read as a schema.
pub fn audit_schema(v: &Value, at: &mut Vec<Segment>, out: &mut Vec<Vec<Segment>>)
    ensures
        final(at).model() == old(at).model(),
        final(out).model() == old(out).model() + based(
            schema_ignored(value_tree(*v)),
            old(at).model(),
        ),
    decreases value_tree(*v), 1nat,
{
    let ghost start = out.model();
    let ghost base = at.model();
    proof {
        lemma_collected(start, Seq::empty(), Seq::empty(), base);
    }
    match kind_of(v) {
        Kind::Object => {},
        _ => {
            return;
        },
    }
    let ghost e = value_tree(*v)->Object_0;
    let ghost found = unknown_keys::<Schema>(e, e.len());
    report_unknown::<Schema>(v, at, out);
    audit_schema_ref_map_under(v, "properties", at, out);
    proof {
        let more = schema_ref_map_ignored_under(e, "properties"@);
        lemma_collected(start, found, more, base);
        found = found + more;
    }
    audit_schema_ref_under(v, "additionalProperties", at, out);
    proof {
        let more = schema_ref_ignored_under(e, "additionalProperties"@);
        lemma_collected(start, found, more, base);
        found = found + more;
    }
    audit_schema_refs_under(v, "allOf", at, out);
    proof {
        let more = schema_refs_ignored_under(e, "allOf"@);
        lemma_collected(start, found, more, base);
        found = found + more;
    }
    audit_schema_ref_under(v, "items", at, out);
    proof {
        let more = schema_ref_ignored_under(e, "items"@);
        lemma_collected(start, found, more, base);
        found = found + more;
    }
    audit_member::<MsEnum>(v, "x-ms-enum", at, out);
    proof {
        let more = ignored_under::<MsEnum>(find(e, "x-ms-enum"@), "x-ms-enum"@);
        lemma_collected(start, found, more, base);
        found = found + more;
    }
}

/// Adds the ignored keys of a value that is read as a schema or a reference.
pub fn audit_schema_ref(v: &Value, at: &mut Vec<Segment>, out: &mut Vec<Vec<Segment>>)
    ensures
        final(at).model() == old(at).model(),
        final(out).model() == old(out).model() + based(
            schema_ref_ignored(value_tree(*v)),
            old(at).model(),
        ),
    decreases value_tree(*v), 2nat,
{
    if holds_reference(v) {
        report_unknown::<ReferenceKeys>(v, at, out);
    } else {
        audit_schema(v, at, out);
    }
}

/// Adds the ignored keys beneath a field that holds a schema or a reference.
fn audit_schema_ref_under(v: &Value, key: &str, at: &mut Vec<Segment>, out: &mut Vec<Vec<Segment>>)
    requires
        value_tree(*v) is Object,
    ensures
        final(at).model() == old(at).model(),
        final(out).model() == old(out).model() + based(
            schema_ref_ignored_under(value_tree(*v)->Object_0, key@),
            old(at).model(),
        ),
    decreases value_tree(*v), 0nat,
{
    let ghost start = out.model();
    let ghost base = at.model();
    proof {
        lemma_find_decreases(value_tree(*v)->Object_0, key@);
        lemma_collected(start, Seq::empty(), Seq::empty(), base);
    }
    match member(v, key) {
        None => {},
        Some(x) => {
            at.push(Segment::Key(key.to_owned()));
            assert(at.model() =~= base.push(SegmentV::Key(key@)));
            audit_schema_ref(x, at, out);
            let ghost mid = at.model();
            at.pop();
            proof {
                assert(at.model() =~= mid.drop_last());
                assert(mid.drop_last() =~= base);
                lemma_based_under(schema_ref_ignored(value_tree(*x)), SegmentV::Key(key@), base);
            }
        },
    }
}

/// Adds the ignored keys beneath a list of schemas and references.
fn audit_schema_refs_under(v: &Value, key: &str, at: &mut Vec<Segment>, out: &mut Vec<Vec<Segment>>)
    requires
        value_tree(*v) is Object,
    ensures
        final(at).model() == old(at).model(),
        final(out).model() == old(out).model() + based(
            schema_refs_ignored_under(value_tree(*v)->Object_0, key@),
            old(at).model(),
        ),
    decreases value_tree(*v), 0nat,
{
    let ghost start = out.model();
    let ghost base = at.model();
    proof {
        lemma_find_decreases(value_tree(*v)->Object_0, key@);
        lemma_collected(start, Seq::empty(), Seq::empty(), base);
    }
    match member(v, key) {
        None => {},
        Some(x) => match x.as_array() {
            None => {},
            Some(source) => {
                let ghost items = value_tree(*x)->Array_0;
                let ghost inner = base.push(SegmentV::Key(key@));
                at.push(Segment::Key(key.to_owned()));
                assert(at.model() =~= inner);
                proof {
                    lemma_collected(start, Seq::empty(), Seq::empty(), inner);
                }
                let mut i: usize = 0;
                while i < source.len()
                    invariant
                        0 <= i <= source.len(),
                        value_tree(*x) == JsonV::Array(items),
                        decreases_to!(value_tree(*v) => value_tree(*x)),
                        trees(source@) == items,
                        at.model() == inner,
                        out.model() == start + based(schema_refs_ignored(items, i as nat), inner),
                    decreases source.len() - i,
                {
                    assert(items[i as int] == value_tree(source@[i as int]));
                    assert(items == value_tree(*x)->Array_0);
                    assert(decreases_to!(value_tree(*x) => value_tree(*x)->Array_0));
                    assert(decreases_to!(items => items[i as int]));
                    at.push(Segment::Index(i));
                    assert(at.model() =~= inner.push(SegmentV::Index(i)));
                    audit_schema_ref(&source[i], at, out);
                    let ghost mid = at.model();
                    at.pop();
                    proof {
                        assert(at.model() =~= mid.drop_last());
                        assert(mid.drop_last() =~= inner);
                        let below = schema_ref_ignored(items[i as int]);
                        lemma_based_under(below, SegmentV::Index(i), inner);
                        lemma_collected(
                            start,
                            schema_refs_ignored(items, i as nat),
                            under_all(below, SegmentV::Index(i)),
                            inner,
                        );
                    }
                    i += 1;
                }
                let ghost mid = at.model();
                at.pop();
                proof {
                    assert(at.model() =~= mid.drop_last());
                    assert(mid.drop_last() =~= base);
                    lemma_based_under(
                        schema_refs_ignored(items, items.len()),
                        SegmentV::Key(key@),
                        base,
                    );
                }
            },
        },
    }
}

/// Adds the ignored keys beneath a mapping to schemas and references.
fn audit_schema_ref_map_under(
    v: &Value,
    key: &str,
    at: &mut Vec<Segment>,
    out: &mut Vec<Vec<Segment>>,
)
    requires
        value_tree(*v) is Object,
    ensures
        final(at).model() == old(at).model(),
        final(out).model() == old(out).model() + based(
            schema_ref_map_ignored_under(value_tree(*v)->Object_0, key@),
            old(at).model(),
        ),
    decreases value_tree(*v), 0nat,
{
    let ghost start = out.model();
    let ghost base = at.model();
    proof {
        lemma_find_decreases(value_tree(*v)->Object_0, key@);
        lemma_collected(start, Seq::empty(), Seq::empty(), base);
    }
    match member(v, key) {
        None => {},
        Some(x) => match entries_of(x) {
            None => {},
            Some(source) => {
                let ghost entries = value_tree(*x)->Object_0;
                let ghost inner = base.push(SegmentV::Key(key@));
                at.push(Segment::Key(key.to_owned()));
                assert(at.model() =~= inner);
                proof {
                    lemma_collected(start, Seq::empty(), Seq::empty(), inner);
                }
                let mut i: usize = 0;
                while i < source.len()
                    invariant
                        0 <= i <= source.len(),
                        value_tree(*x) == JsonV::Object(entries),
                        decreases_to!(value_tree(*v) => value_tree(*x)),
                        members(source@) == entries,
                        at.model() == inner,
                        out.model() == start + based(
                            schema_ref_entries_ignored(entries, i as nat),
                            inner,
                        ),
                    decreases source.len() - i,
                {
                    let pair = &source[i];
                    assert(entries[i as int] == (pair.0@, value_tree(*pair.1)));
                    assert(entries == value_tree(*x)->Object_0);
                    assert(decreases_to!(value_tree(*x) => value_tree(*x)->Object_0));
                    assert(decreases_to!(entries => entries[i as int]));
                    assert(decreases_to!(entries[i as int] => entries[i as int].1));
                    at.push(Segment::Key(pair.0.clone()));
                    assert(at.model() =~= inner.push(SegmentV::Key(pair.0@)));
                    audit_schema_ref(pair.1, at, out);
                    let ghost mid = at.model();
                    at.pop();
                    proof {
                        assert(at.model() =~= mid.drop_last());
                        assert(mid.drop_last() =~= inner);
                        let below = schema_ref_ignored(entries[i as int].1);
                        lemma_based_under(below, SegmentV::Key(pair.0@), inner);
                        lemma_collected(
                            start,
                            schema_ref_entries_ignored(entries, i as nat),
                            under_all(below, SegmentV::Key(pair.0@)),
                            inner,
                        );
                    }
                    i += 1;
                }
                let ghost mid = at.model();
                at.pop();
                proof {
                    assert(at.model() =~= mid.drop_last());
                    assert(mid.drop_last() =~= base);
                    lemma_based_under(
                        schema_ref_entries_ignored(entries, entries.len()),
                        SegmentV::Key(key@),
                        base,
                    );
                }
            },
        },
    }
}

impl Audit for Schema {
    open spec fn ignored(t: JsonV) -> Seq<PathV> {
        schema_ignored(t)
    }

    fn audit(v: &Value, at: &mut Vec<Segment>, out: &mut Vec<Vec<Segment>>) {
        audit_schema(v, at, out);
    }

    proof fn clean(m: SchemaV) {
        lemma_schema_clean(m);
    }
}

/// Inside a schema and outside of one, a schema or a reference is read and
/// audited alike.
pub proof fn lemma_schema_ref_read_agrees(t: JsonV)
    ensures
        schema_ref_from_json(t) == ReferenceOr::<Schema>::from_json(t),
        schema_ref_ignored(t) == ReferenceOr::<Schema>::ignored(t),
{
}

/// Inside a schema and outside of one, a schema or a reference is written
/// alike.
pub proof fn lemma_schema_ref_written_agrees(m: RefOrV<SchemaV>)
    ensures
        schema_ref_to_json(m) == ReferenceOr::<Schema>::to_json(m),
{
}

/// Inside a schema and outside of one, an optional schema or reference is read
/// alike.
pub proof fn lemma_schema_ref_field_agrees(e: Members, key: Seq<char>)
    ensures
        schema_ref_field(e, key) == optional_field::<ReferenceOr<Schema>>(e, key),
{
    if find(e, key) is Some {
        lemma_schema_ref_read_agrees(find(e, key)->0);
    }
}

/// Inside a schema and outside of one, a list of schemas and references is
/// read and written alike.
pub proof fn lemma_schema_refs_agree(items: Seq<JsonV>, n: nat)
    requires
        n <= items.len(),
    ensures
        schema_refs_prefix(items, n) == elements_from_json::<ReferenceOr<Schema>>(
            items.take(n as int),
        ),
    decreases n,
{
    if n > 0 {
        lemma_schema_refs_agree(items, (n - 1) as nat);
        lemma_schema_ref_read_agrees(items[n - 1]);
        assert(items.take(n as int).drop_last() =~= items.take(n - 1));
        assert(items.take(n as int).last() == items[n - 1]);
    }
}

/// Inside a schema and outside of one, a field that holds a list of schemas
/// and references is read and written alike.
pub proof fn lemma_schema_ref_list_agrees(e: Members, key: Seq<char>, m: Seq<RefOrV<SchemaV>>)
    ensures
        schema_ref_list_field(e, key) == list_field::<ReferenceOr<Schema>>(e, key),
        schema_ref_list_json(m) == list_json::<ReferenceOr<Schema>>(m),
{
    match find(e, key) {
        Some(JsonV::Array(items)) => {
            lemma_schema_refs_agree(items, items.len());
            assert(items.take(items.len() as int) =~= items);
        },
        _ => {},
    }
    assert forall|i: int| 0 <= i < m.len() implies schema_refs_to_json(m)[i] == elements_to_json::<
        ReferenceOr<Schema>,
    >(m)[i] by {
        lemma_schema_ref_written_agrees(m[i]);
    }
    assert(schema_refs_to_json(m) =~= elements_to_json::<ReferenceOr<Schema>>(m));
}

/// Inside a schema and outside of one, a mapping to schemas and references is
/// read and written alike.
pub proof fn lemma_schema_ref_entries_agree(entries: Members, n: nat)
    requires
        n <= entries.len(),
    ensures
        schema_ref_entries_prefix(entries, n) == entries_from_json::<ReferenceOr<Schema>>(
            entries.take(n as int),
        ),
    decreases n,
{
    if n > 0 {
        lemma_schema_ref_entries_agree(entries, (n - 1) as nat);
        lemma_schema_ref_read_agrees(entries[n - 1].1);
        assert(entries.take(n as int).drop_last() =~= entries.take(n - 1));
        assert(entries.take(n as int).last() == entries[n - 1]);
    }
}

/// Inside a schema and outside of one, a mapping to schemas and references is
/// read from the same objects.
pub proof fn lemma_schema_ref_map_read_agrees(t: JsonV)
    ensures
        schema_ref_map_from_json(t) == OrderedMap::<ReferenceOr<Schema>>::from_json(t),
{
    match t {
        JsonV::Object(entries) => {
            lemma_schema_ref_entries_agree(entries, entries.len());
            assert(entries.take(entries.len() as int) =~= entries);
        },
        _ => {},
    }
}

/// Inside a schema and outside of one, a mapping to schemas and references is
/// written as the same object.
pub proof fn lemma_schema_ref_map_written_agrees(m: Seq<(Seq<char>, RefOrV<SchemaV>)>)
    ensures
        JsonV::Object(
            schema_ref_entries_to_json(m),
        ) == OrderedMap::<ReferenceOr<Schema>>::to_json(m),
{
    assert forall|i: int| 0 <= i < m.len() implies schema_ref_entries_to_json(m)[i]
        == entries_to_json::<ReferenceOr<Schema>>(m)[i] by {
        lemma_schema_ref_written_agrees(m[i].1);
    }
    assert(schema_ref_entries_to_json(m) =~= entries_to_json::<ReferenceOr<Schema>>(m));
}

/// Inside a schema and outside of one, a field that holds a mapping to
/// schemas and references is read and written alike.
pub proof fn lemma_schema_ref_map_field_agrees(
    e: Members,
    key: Seq<char>,
    m: Seq<(Seq<char>, RefOrV<SchemaV>)>,
)
    ensures
        schema_ref_map_field(e, key) == map_field::<ReferenceOr<Schema>>(e, key),
        schema_ref_map_json(m) == map_json::<ReferenceOr<Schema>>(m),
{
    if find(e, key) is Some {
        lemma_schema_ref_map_read_agrees(find(e, key)->0);
    }
    lemma_schema_ref_map_written_agrees(m);
}

/// The model of a schema or a reference, of a list and of a mapping of them
/// is the same inside a schema and outside of one.
pub proof fn lemma_schema_model_agrees(r: ReferenceOr<Schema>)
    ensures
        Schema::ref_model(r) == r.model(),
{
}

/// A response of an operation. The description is optional: documents in the
/// field leave it out.
#[derive(Clone, Debug, PartialEq)]
pub struct Response {
    /// What the response means.
    pub description: Option<String>,
    /// The schema of the body.
    pub schema: Option<ReferenceOr<Schema>>,
    /// The headers, in the order of the document.
    pub headers: OrderedMap<ReferenceOr<Header>>,
}

/// The model of a [`Response`].
pub struct ResponseV {
    pub description: Option<Seq<char>>,
    pub schema: Option<RefOrV<SchemaV>>,
    pub headers: Seq<(Seq<char>, RefOrV<HeaderV>)>,
}

impl Model for Response {
    type M = ResponseV;

    open spec fn model(&self) -> ResponseV {
        ResponseV {
            description: self.description.model(),
            schema: self.schema.model(),
            headers: self.headers.model(),
        }
    }
}

impl Response {
    /// The model of the default value: every optional field absent, every list
    /// and mapping empty, every flag off.
    pub open spec fn default_model() -> ResponseV {
        ResponseV {
            description: None,
            schema: None,
            headers: Seq::empty(),
        }
    }
}

impl Default for Response {
    fn default() -> (r: Response)
        ensures
            r.model() == Response::default_model(),
    {
        let r = Response {
            description: None,
            schema: None,
            headers: OrderedMap::new(),
        };
        assert(r.model().headers =~= Seq::empty());
        r
    }
}

impl Binding for Response {
    open spec fn from_json(t: JsonV) -> Result<ResponseV, DecodeErrorV> {
        match t {
            JsonV::Object(e) => {
                let description = optional_field::<String>(e, "description"@);
                let schema = optional_field::<ReferenceOr<Schema>>(e, "schema"@);
                let headers = map_field::<ReferenceOr<Header>>(e, "headers"@);
                if description is Err {
                    Err(description->Err_0)
                } else if schema is Err {
                    Err(schema->Err_0)
                } else if headers is Err {
                    Err(headers->Err_0)
                } else {
                    Ok(
                        ResponseV {
                            description: description->Ok_0,
                            schema: schema->Ok_0,
                            headers: headers->Ok_0,
                        },
                    )
                }
            },
            _ => Err(mismatch(Expected::Object, t)),
        }
    }

    open spec fn to_json(m: ResponseV) -> JsonV {
        let e: Members = Seq::empty();
        let e = with_member(e, "description"@, optional_json::<String>(m.description));
        let e = with_member(e, "schema"@, optional_json::<ReferenceOr<Schema>>(m.schema));
        let e = with_member(e, "headers"@, map_json::<ReferenceOr<Header>>(m.headers));
        JsonV::Object(e)
    }

    fn decode(v: &Value) -> (r: Result<Response, DecodeError>) {
        match kind_of(v) {
            Kind::Object => {},
            found => {
                return Err(DecodeError::mismatch(Expected::Object, found));
            },
        }
        let description = read_optional::<String>(v, "description")?;
        let schema = read_optional::<ReferenceOr<Schema>>(v, "schema")?;
        let headers = read_map::<ReferenceOr<Header>>(v, "headers")?;
        Ok(Response { description, schema, headers })
    }

    fn encode(&self) -> (v: Value) {
        let mut o = empty_object();
        put_optional::<String>(&mut o, "description", &self.description);
        put_optional::<ReferenceOr<Schema>>(&mut o, "schema", &self.schema);
        put_map::<ReferenceOr<Header>>(&mut o, "headers", &self.headers);
        o
    }

    proof fn round_trip(m: ResponseV) {
        let e = Self::to_json(m)->Object_0;
        Self::lemma_members(m);
        lemma_optional::<String>(e, "description"@, m.description);
        lemma_optional::<ReferenceOr<Schema>>(e, "schema"@, m.schema);
        lemma_map::<ReferenceOr<Header>>(e, "headers"@, m.headers);
    }
}

impl Record for Response {
    proof fn written_as_record(m: ResponseV) {
        Self::lemma_written_keys(m, "$ref"@);
        Self::lemma_spelling();
    }
}

impl Response {
    /// Which keys are written: a required field always, an optional field where
    /// it is present, a list or a mapping where it is not empty, a flag where
    /// it is set. Nothing else is written.
    pub proof fn lemma_written_keys(m: ResponseV, key: Seq<char>)
        ensures
            Response::to_json(m) is Object,
            has_key(Response::to_json(m)->Object_0, "description"@) == (m.description is Some),
            has_key(Response::to_json(m)->Object_0, "schema"@) == (m.schema is Some),
            has_key(Response::to_json(m)->Object_0, "headers"@) == (m.headers.len() > 0),
            has_key(Response::to_json(m)->Object_0, key) ==> {
                ||| key == "description"@
                ||| key == "schema"@
                ||| key == "headers"@
            },
    {
        lemma_with_member();
        Self::lemma_spelling();
    }

    /// What stands under each key of what a value is written as.
    pub proof fn lemma_members(m: ResponseV)
        ensures
            find(
                Response::to_json(m)->Object_0,
                "description"@,
            ) == optional_json::<String>(m.description),
            find(
                Response::to_json(m)->Object_0,
                "schema"@,
            ) == optional_json::<ReferenceOr<Schema>>(m.schema),
            find(
                Response::to_json(m)->Object_0,
                "headers"@,
            ) == map_json::<ReferenceOr<Header>>(m.headers),
    {
        lemma_with_member();
        Self::lemma_spelling();
    }

    /// How the keys are spelled, as far as it takes to tell them apart.
    proof fn lemma_spelling()
        ensures
            "$ref"@.len() == 4,
            "description"@.len() == 11,
            "schema"@.len() == 6,
            "headers"@.len() == 7,
    {
        reveal_strlit("$ref");
        reveal_strlit("description");
        reveal_strlit("schema");
        reveal_strlit("headers");
    }
}

impl Keys for Response {
    open spec fn known(key: Seq<char>) -> bool {
        ||| key == "description"@
        ||| key == "schema"@
        ||| key == "headers"@
    }

    fn knows(key: &str) -> (b: bool) {
        same_text(key, "description")
            || same_text(key, "schema")
            || same_text(key, "headers")
    }
}

impl Audit for Response {
    open spec fn ignored(t: JsonV) -> Seq<PathV> {
        match t {
            JsonV::Object(e) => {
                let found = unknown_keys::<Response>(e, e.len());
                let found = found + ignored_under::<ReferenceOr<Schema>>(
                    find(e, "schema"@),
                    "schema"@,
                );
                let found = found + ignored_under::<OrderedMap<ReferenceOr<Header>>>(
                    find(e, "headers"@),
                    "headers"@,
                );
                found
            },
            _ => Seq::empty(),
        }
    }

    fn audit(v: &Value, at: &mut Vec<Segment>, out: &mut Vec<Vec<Segment>>) {
        let ghost start = out.model();
        let ghost base = at.model();
        proof {
            lemma_collected(start, Seq::empty(), Seq::empty(), base);
        }
        match kind_of(v) {
            Kind::Object => {},
            _ => {
                return;
            },
        }
        let ghost e = value_tree(*v)->Object_0;
        let ghost found = unknown_keys::<Response>(e, e.len());
        report_unknown::<Response>(v, at, out);
        audit_member::<ReferenceOr<Schema>>(v, "schema", at, out);
        proof {
            let more = ignored_under::<ReferenceOr<Schema>>(find(e, "schema"@), "schema"@);
            lemma_collected(start, found, more, base);
            found = found + more;
        }
        audit_member::<OrderedMap<ReferenceOr<Header>>>(v, "headers", at, out);
        proof {
            let more = ignored_under::<OrderedMap<ReferenceOr<Header>>>(
                find(e, "headers"@),
                "headers"@,
            );
            lemma_collected(start, found, more, base);
            found = found + more;
        }
    }

    proof fn clean(m: ResponseV) {
        Response::lemma_members(m);
        let e = Self::to_json(m)->Object_0;
        assert forall|i: int| 0 <= i < e.len() implies Response::known(
            #[trigger] e[i].0,
        ) by {
            lemma_key_present(e, i);
            Response::lemma_written_keys(m, e[i].0);
        }
        lemma_all_known::<Response>(e, e.len());
        if m.schema is Some {
            lemma_under_clean::<ReferenceOr<Schema>>(find(e, "schema"@), "schema"@, m.schema->0);
        }
        lemma_under_clean::<OrderedMap<ReferenceOr<Header>>>(
            find(e, "headers"@),
            "headers"@,
            m.headers,
        );
        assert(Seq::<PathV>::empty() + Seq::<PathV>::empty() =~= Seq::<PathV>::empty());
    }
}

/// The requirement of a security scheme: for each scheme that is required, the
/// scopes that are asked of it.
pub type SecurityRequirement = OrderedMap<Vec<String>>;

/// The model of a [`SecurityRequirement`].
pub type SecurityRequirementV = Seq<(Seq<char>, Seq<Seq<char>>)>;

} // verus!
