//! Parameters of operations.

use vstd::prelude::*;
use serde_json::{Number, Value};
use crate::audit::{
    audit_member, ignored_under, lemma_all_known, lemma_collected, lemma_under_clean,
    report_unknown, unknown_keys, Audit, Keys,
};
use crate::autorest::{MsEnum, MsEnumV, MsParameterGrouping, MsParameterGroupingV};
use crate::binding::{Binding, Record};
use crate::error::{mismatch, DecodeError, DecodeErrorV, Expected, PathV, Segment};
use crate::fields::{
    lemma_list, lemma_optional, lemma_required, lemma_with_member, list_field, list_json,
    optional_field, optional_json, put_any, put_list, put_optional, put_required, read_any,
    read_list, read_optional, read_required, required_field, required_json, with_member, Members,
};
use crate::json::{
    empty_object, find, has_key, kind_of, lemma_key_present, same_text, value_tree, JsonV, Kind,
    NumberV,
};
use crate::model::Model;
use crate::reference::{RefOrV, ReferenceOr};
use crate::schema::{DataType, Schema, SchemaV};

verus! {

/// A parameter of an operation. The facets of a body parameter and those of the
/// other parameters stand side by side in one record; nothing here holds a
/// document to the split that the format draws between them.
#[derive(Clone, Debug, PartialEq)]
pub struct Parameter {
    /// The name of the parameter.
    pub name: String,
    /// Where the parameter is sent: `query`, `header`, `path`, `formData` or
    /// `body`.
    pub in_: String,
    /// What the parameter is for.
    pub description: Option<String>,
    /// Whether the parameter must be sent.
    pub required: Option<bool>,
    /// The schema of a body parameter.
    pub schema: Option<ReferenceOr<Schema>>,
    /// The primitive type.
    pub type_: Option<DataType>,
    /// The format that narrows the type.
    pub format: Option<String>,
    /// The schema of the items of an array.
    pub items: Option<ReferenceOr<Schema>>,
    /// The default value, kept as it stands.
    pub default: Option<Value>,
    /// The largest value, kept as it stands.
    pub maximum: Option<Value>,
    /// Whether the largest value is itself left out.
    pub exclusive_maximum: Option<bool>,
    /// The smallest value, kept as it stands.
    pub minimum: Option<Value>,
    /// Whether the smallest value is itself left out.
    pub exclusive_minimum: Option<bool>,
    /// The largest length of a text.
    pub max_length: Option<usize>,
    /// The smallest length of a text.
    pub min_length: Option<usize>,
    /// The regular expression that a text matches.
    pub pattern: Option<String>,
    /// The largest number of items of an array.
    pub max_items: Option<usize>,
    /// The smallest number of items of an array.
    pub min_items: Option<usize>,
    /// Whether the items of an array differ from each other.
    pub unique_items: Option<bool>,
    /// The values that are allowed.
    pub enum_: Vec<String>,
    /// The number that a value is a multiple of.
    pub multiple_of: Option<Number>,
    /// Whether the parameter may be sent without a value.
    pub allow_empty_value: Option<bool>,
    /// How the items of an array are joined.
    pub collection_format: Option<String>,
    /// Whether a global parameter belongs to the client or to each method.
    pub x_ms_parameter_location: Option<String>,
    /// Whether the value is sent without URL encoding.
    pub x_ms_skip_url_encoding: Option<bool>,
    /// How the parameter is grouped with others in generated code.
    pub x_ms_parameter_grouping: Option<MsParameterGrouping>,
    /// How the enumeration is named and modelled in generated code.
    pub x_ms_enum: Option<MsEnum>,
    /// Whether the parameter carries the request id of the client.
    pub x_ms_client_request_id: Option<bool>,
    /// The name of the parameter in generated code.
    pub x_ms_client_name: Option<String>,
}

/// The model of a [`Parameter`].
pub struct ParameterV {
    pub name: Seq<char>,
    pub in_: Seq<char>,
    pub description: Option<Seq<char>>,
    pub required: Option<bool>,
    pub schema: Option<RefOrV<SchemaV>>,
    pub type_: Option<DataType>,
    pub format: Option<Seq<char>>,
    pub items: Option<RefOrV<SchemaV>>,
    pub default: Option<JsonV>,
    pub maximum: Option<JsonV>,
    pub exclusive_maximum: Option<bool>,
    pub minimum: Option<JsonV>,
    pub exclusive_minimum: Option<bool>,
    pub max_length: Option<usize>,
    pub min_length: Option<usize>,
    pub pattern: Option<Seq<char>>,
    pub max_items: Option<usize>,
    pub min_items: Option<usize>,
    pub unique_items: Option<bool>,
    pub enum_: Seq<Seq<char>>,
    pub multiple_of: Option<NumberV>,
    pub allow_empty_value: Option<bool>,
    pub collection_format: Option<Seq<char>>,
    pub x_ms_parameter_location: Option<Seq<char>>,
    pub x_ms_skip_url_encoding: Option<bool>,
    pub x_ms_parameter_grouping: Option<MsParameterGroupingV>,
    pub x_ms_enum: Option<MsEnumV>,
    pub x_ms_client_request_id: Option<bool>,
    pub x_ms_client_name: Option<Seq<char>>,
}

impl Model for Parameter {
    type M = ParameterV;

    open spec fn model(&self) -> ParameterV {
        ParameterV {
            name: self.name.model(),
            in_: self.in_.model(),
            description: self.description.model(),
            required: self.required.model(),
            schema: self.schema.model(),
            type_: self.type_.model(),
            format: self.format.model(),
            items: self.items.model(),
            default: self.default.model(),
            maximum: self.maximum.model(),
            exclusive_maximum: self.exclusive_maximum.model(),
            minimum: self.minimum.model(),
            exclusive_minimum: self.exclusive_minimum.model(),
            max_length: self.max_length.model(),
            min_length: self.min_length.model(),
            pattern: self.pattern.model(),
            max_items: self.max_items.model(),
            min_items: self.min_items.model(),
            unique_items: self.unique_items.model(),
            enum_: self.enum_.model(),
            multiple_of: self.multiple_of.model(),
            allow_empty_value: self.allow_empty_value.model(),
            collection_format: self.collection_format.model(),
            x_ms_parameter_location: self.x_ms_parameter_location.model(),
            x_ms_skip_url_encoding: self.x_ms_skip_url_encoding.model(),
            x_ms_parameter_grouping: self.x_ms_parameter_grouping.model(),
            x_ms_enum: self.x_ms_enum.model(),
            x_ms_client_request_id: self.x_ms_client_request_id.model(),
            x_ms_client_name: self.x_ms_client_name.model(),
        }
    }
}

impl Parameter {
    /// The model of the default value: every optional field absent, every list
    /// and mapping empty, every flag off.
    pub open spec fn default_model() -> ParameterV {
        ParameterV {
            name: Seq::empty(),
            in_: Seq::empty(),
            description: None,
            required: None,
            schema: None,
            type_: None,
            format: None,
            items: None,
            default: None,
            maximum: None,
            exclusive_maximum: None,
            minimum: None,
            exclusive_minimum: None,
            max_length: None,
            min_length: None,
            pattern: None,
            max_items: None,
            min_items: None,
            unique_items: None,
            enum_: Seq::empty(),
            multiple_of: None,
            allow_empty_value: None,
            collection_format: None,
            x_ms_parameter_location: None,
            x_ms_skip_url_encoding: None,
            x_ms_parameter_grouping: None,
            x_ms_enum: None,
            x_ms_client_request_id: None,
            x_ms_client_name: None,
        }
    }
}

impl Default for Parameter {
    fn default() -> (r: Parameter)
        ensures
            r.model() == Parameter::default_model(),
    {
        let r = Parameter {
            name: String::new(),
            in_: String::new(),
            description: None,
            required: None,
            schema: None,
            type_: None,
            format: None,
            items: None,
            default: None,
            maximum: None,
            exclusive_maximum: None,
            minimum: None,
            exclusive_minimum: None,
            max_length: None,
            min_length: None,
            pattern: None,
            max_items: None,
            min_items: None,
            unique_items: None,
            enum_: Vec::new(),
            multiple_of: None,
            allow_empty_value: None,
            collection_format: None,
            x_ms_parameter_location: None,
            x_ms_skip_url_encoding: None,
            x_ms_parameter_grouping: None,
            x_ms_enum: None,
            x_ms_client_request_id: None,
            x_ms_client_name: None,
        };
        assert(r.model().enum_ =~= Seq::empty());
        r
    }
}

impl Binding for Parameter {
    open spec fn from_json(t: JsonV) -> Result<ParameterV, DecodeErrorV> {
        match t {
            JsonV::Object(e) => {
                let name = required_field::<String>(e, "name"@);
                let in_ = required_field::<String>(e, "in"@);
                let description = optional_field::<String>(e, "description"@);
                let required = optional_field::<bool>(e, "required"@);
                let schema = optional_field::<ReferenceOr<Schema>>(e, "schema"@);
                let type_ = optional_field::<DataType>(e, "type"@);
                let format = optional_field::<String>(e, "format"@);
                let items = optional_field::<ReferenceOr<Schema>>(e, "items"@);
                let exclusive_maximum = optional_field::<bool>(e, "exclusiveMaximum"@);
                let exclusive_minimum = optional_field::<bool>(e, "exclusiveMinimum"@);
                let max_length = optional_field::<usize>(e, "maxLength"@);
                let min_length = optional_field::<usize>(e, "minLength"@);
                let pattern = optional_field::<String>(e, "pattern"@);
                let max_items = optional_field::<usize>(e, "maxItems"@);
                let min_items = optional_field::<usize>(e, "minItems"@);
                let unique_items = optional_field::<bool>(e, "uniqueItems"@);
                let enum_ = list_field::<String>(e, "enum"@);
                let multiple_of = optional_field::<Number>(e, "multipleOf"@);
                let allow_empty_value = optional_field::<bool>(e, "allowEmptyValue"@);
                let collection_format = optional_field::<String>(e, "collectionFormat"@);
                let x_ms_parameter_location = optional_field::<String>(
                    e,
                    "x-ms-parameter-location"@,
                );
                let x_ms_skip_url_encoding = optional_field::<bool>(e, "x-ms-skip-url-encoding"@);
                let x_ms_parameter_grouping = optional_field::<MsParameterGrouping>(
                    e,
                    "x-ms-parameter-grouping"@,
                );
                let x_ms_enum = optional_field::<MsEnum>(e, "x-ms-enum"@);
                let x_ms_client_request_id = optional_field::<bool>(e, "x-ms-client-request-id"@);
                let x_ms_client_name = optional_field::<String>(e, "x-ms-client-name"@);
                if name is Err {
                    Err(name->Err_0)
                } else if in_ is Err {
                    Err(in_->Err_0)
                } else if description is Err {
                    Err(description->Err_0)
                } else if required is Err {
                    Err(required->Err_0)
                } else if schema is Err {
                    Err(schema->Err_0)
                } else if type_ is Err {
                    Err(type_->Err_0)
                } else if format is Err {
                    Err(format->Err_0)
                } else if items is Err {
                    Err(items->Err_0)
                } else if exclusive_maximum is Err {
                    Err(exclusive_maximum->Err_0)
                } else if exclusive_minimum is Err {
                    Err(exclusive_minimum->Err_0)
                } else if max_length is Err {
                    Err(max_length->Err_0)
                } else if min_length is Err {
                    Err(min_length->Err_0)
                } else if pattern is Err {
                    Err(pattern->Err_0)
                } else if max_items is Err {
                    Err(max_items->Err_0)
                } else if min_items is Err {
                    Err(min_items->Err_0)
                } else if unique_items is Err {
                    Err(unique_items->Err_0)
                } else if enum_ is Err {
                    Err(enum_->Err_0)
                } else if multiple_of is Err {
                    Err(multiple_of->Err_0)
                } else if allow_empty_value is Err {
                    Err(allow_empty_value->Err_0)
                } else if collection_format is Err {
                    Err(collection_format->Err_0)
                } else if x_ms_parameter_location is Err {
                    Err(x_ms_parameter_location->Err_0)
                } else if x_ms_skip_url_encoding is Err {
                    Err(x_ms_skip_url_encoding->Err_0)
                } else if x_ms_parameter_grouping is Err {
                    Err(x_ms_parameter_grouping->Err_0)
                } else if x_ms_enum is Err {
                    Err(x_ms_enum->Err_0)
                } else if x_ms_client_request_id is Err {
                    Err(x_ms_client_request_id->Err_0)
                } else if x_ms_client_name is Err {
                    Err(x_ms_client_name->Err_0)
                } else {
                    Ok(
                        ParameterV {
                            name: name->Ok_0,
                            in_: in_->Ok_0,
                            description: description->Ok_0,
                            required: required->Ok_0,
                            schema: schema->Ok_0,
                            type_: type_->Ok_0,
                            format: format->Ok_0,
                            items: items->Ok_0,
                            default: find(e, "default"@),
                            maximum: find(e, "maximum"@),
                            exclusive_maximum: exclusive_maximum->Ok_0,
                            minimum: find(e, "minimum"@),
                            exclusive_minimum: exclusive_minimum->Ok_0,
                            max_length: max_length->Ok_0,
                            min_length: min_length->Ok_0,
                            pattern: pattern->Ok_0,
                            max_items: max_items->Ok_0,
                            min_items: min_items->Ok_0,
                            unique_items: unique_items->Ok_0,
                            enum_: enum_->Ok_0,
                            multiple_of: multiple_of->Ok_0,
                            allow_empty_value: allow_empty_value->Ok_0,
                            collection_format: collection_format->Ok_0,
                            x_ms_parameter_location: x_ms_parameter_location->Ok_0,
                            x_ms_skip_url_encoding: x_ms_skip_url_encoding->Ok_0,
                            x_ms_parameter_grouping: x_ms_parameter_grouping->Ok_0,
                            x_ms_enum: x_ms_enum->Ok_0,
                            x_ms_client_request_id: x_ms_client_request_id->Ok_0,
                            x_ms_client_name: x_ms_client_name->Ok_0,
                        },
                    )
                }
            },
            _ => Err(mismatch(Expected::Object, t)),
        }
    }

    open spec fn to_json(m: ParameterV) -> JsonV {
        let e: Members = Seq::empty();
        let e = with_member(e, "name"@, required_json::<String>(m.name));
        let e = with_member(e, "in"@, required_json::<String>(m.in_));
        let e = with_member(e, "description"@, optional_json::<String>(m.description));
        let e = with_member(e, "required"@, optional_json::<bool>(m.required));
        let e = with_member(e, "schema"@, optional_json::<ReferenceOr<Schema>>(m.schema));
        let e = with_member(e, "type"@, optional_json::<DataType>(m.type_));
        let e = with_member(e, "format"@, optional_json::<String>(m.format));
        let e = with_member(e, "items"@, optional_json::<ReferenceOr<Schema>>(m.items));
        let e = with_member(e, "default"@, m.default);
        let e = with_member(e, "maximum"@, m.maximum);
        let e = with_member(e, "exclusiveMaximum"@, optional_json::<bool>(m.exclusive_maximum));
        let e = with_member(e, "minimum"@, m.minimum);
        let e = with_member(e, "exclusiveMinimum"@, optional_json::<bool>(m.exclusive_minimum));
        let e = with_member(e, "maxLength"@, optional_json::<usize>(m.max_length));
        let e = with_member(e, "minLength"@, optional_json::<usize>(m.min_length));
        let e = with_member(e, "pattern"@, optional_json::<String>(m.pattern));
        let e = with_member(e, "maxItems"@, optional_json::<usize>(m.max_items));
        let e = with_member(e, "minItems"@, optional_json::<usize>(m.min_items));
        let e = with_member(e, "uniqueItems"@, optional_json::<bool>(m.unique_items));
        let e = with_member(e, "enum"@, list_json::<String>(m.enum_));
        let e = with_member(e, "multipleOf"@, optional_json::<Number>(m.multiple_of));
        let e = with_member(e, "allowEmptyValue"@, optional_json::<bool>(m.allow_empty_value));
        let e = with_member(e, "collectionFormat"@, optional_json::<String>(m.collection_format));
        let e = with_member(
            e,
            "x-ms-parameter-location"@,
            optional_json::<String>(m.x_ms_parameter_location),
        );
        let e = with_member(
            e,
            "x-ms-skip-url-encoding"@,
            optional_json::<bool>(m.x_ms_skip_url_encoding),
        );
        let e = with_member(
            e,
            "x-ms-parameter-grouping"@,
            optional_json::<MsParameterGrouping>(m.x_ms_parameter_grouping),
        );
        let e = with_member(e, "x-ms-enum"@, optional_json::<MsEnum>(m.x_ms_enum));
        let e = with_member(
            e,
            "x-ms-client-request-id"@,
            optional_json::<bool>(m.x_ms_client_request_id),
        );
        let e = with_member(e, "x-ms-client-name"@, optional_json::<String>(m.x_ms_client_name));
        JsonV::Object(e)
    }

    fn decode(v: &Value) -> (r: Result<Parameter, DecodeError>) {
        match kind_of(v) {
            Kind::Object => {},
            found => {
                return Err(DecodeError::mismatch(Expected::Object, found));
            },
        }
        let name = read_required::<String>(v, "name")?;
        let in_ = read_required::<String>(v, "in")?;
        let description = read_optional::<String>(v, "description")?;
        let required = read_optional::<bool>(v, "required")?;
        let schema = read_optional::<ReferenceOr<Schema>>(v, "schema")?;
        let type_ = read_optional::<DataType>(v, "type")?;
        let format = read_optional::<String>(v, "format")?;
        let items = read_optional::<ReferenceOr<Schema>>(v, "items")?;
        let default = read_any(v, "default");
        let maximum = read_any(v, "maximum");
        let exclusive_maximum = read_optional::<bool>(v, "exclusiveMaximum")?;
        let minimum = read_any(v, "minimum");
        let exclusive_minimum = read_optional::<bool>(v, "exclusiveMinimum")?;
        let max_length = read_optional::<usize>(v, "maxLength")?;
        let min_length = read_optional::<usize>(v, "minLength")?;
        let pattern = read_optional::<String>(v, "pattern")?;
        let max_items = read_optional::<usize>(v, "maxItems")?;
        let min_items = read_optional::<usize>(v, "minItems")?;
        let unique_items = read_optional::<bool>(v, "uniqueItems")?;
        let enum_ = read_list::<String>(v, "enum")?;
        let multiple_of = read_optional::<Number>(v, "multipleOf")?;
        let allow_empty_value = read_optional::<bool>(v, "allowEmptyValue")?;
        let collection_format = read_optional::<String>(v, "collectionFormat")?;
        let x_ms_parameter_location = read_optional::<String>(v, "x-ms-parameter-location")?;
        let x_ms_skip_url_encoding = read_optional::<bool>(v, "x-ms-skip-url-encoding")?;
        let x_ms_parameter_grouping = read_optional::<MsParameterGrouping>(
            v,
            "x-ms-parameter-grouping",
        )?;
        let x_ms_enum = read_optional::<MsEnum>(v, "x-ms-enum")?;
        let x_ms_client_request_id = read_optional::<bool>(v, "x-ms-client-request-id")?;
        let x_ms_client_name = read_optional::<String>(v, "x-ms-client-name")?;
        Ok(
            Parameter {
                name,
                in_,
                description,
                required,
                schema,
                type_,
                format,
                items,
                default,
                maximum,
                exclusive_maximum,
                minimum,
                exclusive_minimum,
                max_length,
                min_length,
                pattern,
                max_items,
                min_items,
                unique_items,
                enum_,
                multiple_of,
                allow_empty_value,
                collection_format,
                x_ms_parameter_location,
                x_ms_skip_url_encoding,
                x_ms_parameter_grouping,
                x_ms_enum,
                x_ms_client_request_id,
                x_ms_client_name,
            },
        )
    }

    fn encode(&self) -> (v: Value) {
        let mut o = empty_object();
        put_required::<String>(&mut o, "name", &self.name);
        put_required::<String>(&mut o, "in", &self.in_);
        put_optional::<String>(&mut o, "description", &self.description);
        put_optional::<bool>(&mut o, "required", &self.required);
        put_optional::<ReferenceOr<Schema>>(&mut o, "schema", &self.schema);
        put_optional::<DataType>(&mut o, "type", &self.type_);
        put_optional::<String>(&mut o, "format", &self.format);
        put_optional::<ReferenceOr<Schema>>(&mut o, "items", &self.items);
        put_any(&mut o, "default", &self.default);
        put_any(&mut o, "maximum", &self.maximum);
        put_optional::<bool>(&mut o, "exclusiveMaximum", &self.exclusive_maximum);
        put_any(&mut o, "minimum", &self.minimum);
        put_optional::<bool>(&mut o, "exclusiveMinimum", &self.exclusive_minimum);
        put_optional::<usize>(&mut o, "maxLength", &self.max_length);
        put_optional::<usize>(&mut o, "minLength", &self.min_length);
        put_optional::<String>(&mut o, "pattern", &self.pattern);
        put_optional::<usize>(&mut o, "maxItems", &self.max_items);
        put_optional::<usize>(&mut o, "minItems", &self.min_items);
        put_optional::<bool>(&mut o, "uniqueItems", &self.unique_items);
        put_list::<String>(&mut o, "enum", &self.enum_);
        put_optional::<Number>(&mut o, "multipleOf", &self.multiple_of);
        put_optional::<bool>(&mut o, "allowEmptyValue", &self.allow_empty_value);
        put_optional::<String>(&mut o, "collectionFormat", &self.collection_format);
        put_optional::<String>(&mut o, "x-ms-parameter-location", &self.x_ms_parameter_location);
        put_optional::<bool>(&mut o, "x-ms-skip-url-encoding", &self.x_ms_skip_url_encoding);
        put_optional::<MsParameterGrouping>(
            &mut o,
            "x-ms-parameter-grouping",
            &self.x_ms_parameter_grouping,
        );
        put_optional::<MsEnum>(&mut o, "x-ms-enum", &self.x_ms_enum);
        put_optional::<bool>(&mut o, "x-ms-client-request-id", &self.x_ms_client_request_id);
        put_optional::<String>(&mut o, "x-ms-client-name", &self.x_ms_client_name);
        o
    }

    proof fn round_trip(m: ParameterV) {
        let e = Self::to_json(m)->Object_0;
        Self::lemma_members(m);
        lemma_required::<String>(e, "name"@, m.name);
        lemma_required::<String>(e, "in"@, m.in_);
        lemma_optional::<String>(e, "description"@, m.description);
        lemma_optional::<bool>(e, "required"@, m.required);
        lemma_optional::<ReferenceOr<Schema>>(e, "schema"@, m.schema);
        lemma_optional::<DataType>(e, "type"@, m.type_);
        lemma_optional::<String>(e, "format"@, m.format);
        lemma_optional::<ReferenceOr<Schema>>(e, "items"@, m.items);
        lemma_optional::<bool>(e, "exclusiveMaximum"@, m.exclusive_maximum);
        lemma_optional::<bool>(e, "exclusiveMinimum"@, m.exclusive_minimum);
        lemma_optional::<usize>(e, "maxLength"@, m.max_length);
        lemma_optional::<usize>(e, "minLength"@, m.min_length);
        lemma_optional::<String>(e, "pattern"@, m.pattern);
        lemma_optional::<usize>(e, "maxItems"@, m.max_items);
        lemma_optional::<usize>(e, "minItems"@, m.min_items);
        lemma_optional::<bool>(e, "uniqueItems"@, m.unique_items);
        lemma_list::<String>(e, "enum"@, m.enum_);
        lemma_optional::<Number>(e, "multipleOf"@, m.multiple_of);
        lemma_optional::<bool>(e, "allowEmptyValue"@, m.allow_empty_value);
        lemma_optional::<String>(e, "collectionFormat"@, m.collection_format);
        lemma_optional::<String>(e, "x-ms-parameter-location"@, m.x_ms_parameter_location);
        lemma_optional::<bool>(e, "x-ms-skip-url-encoding"@, m.x_ms_skip_url_encoding);
        lemma_optional::<MsParameterGrouping>(
            e,
            "x-ms-parameter-grouping"@,
            m.x_ms_parameter_grouping,
        );
        lemma_optional::<MsEnum>(e, "x-ms-enum"@, m.x_ms_enum);
        lemma_optional::<bool>(e, "x-ms-client-request-id"@, m.x_ms_client_request_id);
        lemma_optional::<String>(e, "x-ms-client-name"@, m.x_ms_client_name);
    }
}

impl Record for Parameter {
    proof fn written_as_record(m: ParameterV) {
        Self::lemma_written_keys(m, "$ref"@);
        Self::lemma_spelling();
    }
}

impl Parameter {
    /// Which keys are written: a required field always, an optional field where
    /// it is present, a list or a mapping where it is not empty, a flag where
    /// it is set. Nothing else is written.
    pub proof fn lemma_written_keys(m: ParameterV, key: Seq<char>)
        ensures
            Parameter::to_json(m) is Object,
            has_key(Parameter::to_json(m)->Object_0, "name"@),
            has_key(Parameter::to_json(m)->Object_0, "in"@),
            has_key(Parameter::to_json(m)->Object_0, "description"@) == (m.description is Some),
            has_key(Parameter::to_json(m)->Object_0, "required"@) == (m.required is Some),
            has_key(Parameter::to_json(m)->Object_0, "schema"@) == (m.schema is Some),
            has_key(Parameter::to_json(m)->Object_0, "type"@) == (m.type_ is Some),
            has_key(Parameter::to_json(m)->Object_0, "format"@) == (m.format is Some),
            has_key(Parameter::to_json(m)->Object_0, "items"@) == (m.items is Some),
            has_key(Parameter::to_json(m)->Object_0, "default"@) == (m.default is Some),
            has_key(Parameter::to_json(m)->Object_0, "maximum"@) == (m.maximum is Some),
            has_key(
                Parameter::to_json(m)->Object_0,
                "exclusiveMaximum"@,
            ) == (m.exclusive_maximum is Some),
            has_key(Parameter::to_json(m)->Object_0, "minimum"@) == (m.minimum is Some),
            has_key(
                Parameter::to_json(m)->Object_0,
                "exclusiveMinimum"@,
            ) == (m.exclusive_minimum is Some),
            has_key(Parameter::to_json(m)->Object_0, "maxLength"@) == (m.max_length is Some),
            has_key(Parameter::to_json(m)->Object_0, "minLength"@) == (m.min_length is Some),
            has_key(Parameter::to_json(m)->Object_0, "pattern"@) == (m.pattern is Some),
            has_key(Parameter::to_json(m)->Object_0, "maxItems"@) == (m.max_items is Some),
            has_key(Parameter::to_json(m)->Object_0, "minItems"@) == (m.min_items is Some),
            has_key(Parameter::to_json(m)->Object_0, "uniqueItems"@) == (m.unique_items is Some),
            has_key(Parameter::to_json(m)->Object_0, "enum"@) == (m.enum_.len() > 0),
            has_key(Parameter::to_json(m)->Object_0, "multipleOf"@) == (m.multiple_of is Some),
            has_key(
                Parameter::to_json(m)->Object_0,
                "allowEmptyValue"@,
            ) == (m.allow_empty_value is Some),
            has_key(
                Parameter::to_json(m)->Object_0,
                "collectionFormat"@,
            ) == (m.collection_format is Some),
            has_key(
                Parameter::to_json(m)->Object_0,
                "x-ms-parameter-location"@,
            ) == (m.x_ms_parameter_location is Some),
            has_key(
                Parameter::to_json(m)->Object_0,
                "x-ms-skip-url-encoding"@,
            ) == (m.x_ms_skip_url_encoding is Some),
            has_key(
                Parameter::to_json(m)->Object_0,
                "x-ms-parameter-grouping"@,
            ) == (m.x_ms_parameter_grouping is Some),
            has_key(Parameter::to_json(m)->Object_0, "x-ms-enum"@) == (m.x_ms_enum is Some),
            has_key(
                Parameter::to_json(m)->Object_0,
                "x-ms-client-request-id"@,
            ) == (m.x_ms_client_request_id is Some),
            has_key(
                Parameter::to_json(m)->Object_0,
                "x-ms-client-name"@,
            ) == (m.x_ms_client_name is Some),
            has_key(Parameter::to_json(m)->Object_0, key) ==> {
                ||| key == "name"@
                ||| key == "in"@
                ||| key == "description"@
                ||| key == "required"@
                ||| key == "schema"@
                ||| key == "type"@
                ||| key == "format"@
                ||| key == "items"@
                ||| key == "default"@
                ||| key == "maximum"@
                ||| key == "exclusiveMaximum"@
                ||| key == "minimum"@
                ||| key == "exclusiveMinimum"@
                ||| key == "maxLength"@
                ||| key == "minLength"@
                ||| key == "pattern"@
                ||| key == "maxItems"@
                ||| key == "minItems"@
                ||| key == "uniqueItems"@
                ||| key == "enum"@
                ||| key == "multipleOf"@
                ||| key == "allowEmptyValue"@
                ||| key == "collectionFormat"@
                ||| key == "x-ms-parameter-location"@
                ||| key == "x-ms-skip-url-encoding"@
                ||| key == "x-ms-parameter-grouping"@
                ||| key == "x-ms-enum"@
                ||| key == "x-ms-client-request-id"@
                ||| key == "x-ms-client-name"@
            },
    {
        lemma_with_member();
        Self::lemma_spelling();
    }

    /// What stands under each key of what a value is written as.
    pub proof fn lemma_members(m: ParameterV)
        ensures
            find(Parameter::to_json(m)->Object_0, "name"@) == required_json::<String>(m.name),
            find(Parameter::to_json(m)->Object_0, "in"@) == required_json::<String>(m.in_),
            find(
                Parameter::to_json(m)->Object_0,
                "description"@,
            ) == optional_json::<String>(m.description),
            find(Parameter::to_json(m)->Object_0, "required"@) == optional_json::<bool>(m.required),
            find(
                Parameter::to_json(m)->Object_0,
                "schema"@,
            ) == optional_json::<ReferenceOr<Schema>>(m.schema),
            find(Parameter::to_json(m)->Object_0, "type"@) == optional_json::<DataType>(m.type_),
            find(Parameter::to_json(m)->Object_0, "format"@) == optional_json::<String>(m.format),
            find(
                Parameter::to_json(m)->Object_0,
                "items"@,
            ) == optional_json::<ReferenceOr<Schema>>(m.items),
            find(Parameter::to_json(m)->Object_0, "default"@) == m.default,
            find(Parameter::to_json(m)->Object_0, "maximum"@) == m.maximum,
            find(
                Parameter::to_json(m)->Object_0,
                "exclusiveMaximum"@,
            ) == optional_json::<bool>(m.exclusive_maximum),
            find(Parameter::to_json(m)->Object_0, "minimum"@) == m.minimum,
            find(
                Parameter::to_json(m)->Object_0,
                "exclusiveMinimum"@,
            ) == optional_json::<bool>(m.exclusive_minimum),
            find(
                Parameter::to_json(m)->Object_0,
                "maxLength"@,
            ) == optional_json::<usize>(m.max_length),
            find(
                Parameter::to_json(m)->Object_0,
                "minLength"@,
            ) == optional_json::<usize>(m.min_length),
            find(Parameter::to_json(m)->Object_0, "pattern"@) == optional_json::<String>(m.pattern),
            find(
                Parameter::to_json(m)->Object_0,
                "maxItems"@,
            ) == optional_json::<usize>(m.max_items),
            find(
                Parameter::to_json(m)->Object_0,
                "minItems"@,
            ) == optional_json::<usize>(m.min_items),
            find(
                Parameter::to_json(m)->Object_0,
                "uniqueItems"@,
            ) == optional_json::<bool>(m.unique_items),
            find(Parameter::to_json(m)->Object_0, "enum"@) == list_json::<String>(m.enum_),
            find(
                Parameter::to_json(m)->Object_0,
                "multipleOf"@,
            ) == optional_json::<Number>(m.multiple_of),
            find(
                Parameter::to_json(m)->Object_0,
                "allowEmptyValue"@,
            ) == optional_json::<bool>(m.allow_empty_value),
            find(
                Parameter::to_json(m)->Object_0,
                "collectionFormat"@,
            ) == optional_json::<String>(m.collection_format),
            find(
                Parameter::to_json(m)->Object_0,
                "x-ms-parameter-location"@,
            ) == optional_json::<String>(m.x_ms_parameter_location),
            find(
                Parameter::to_json(m)->Object_0,
                "x-ms-skip-url-encoding"@,
            ) == optional_json::<bool>(m.x_ms_skip_url_encoding),
            find(
                Parameter::to_json(m)->Object_0,
                "x-ms-parameter-grouping"@,
            ) == optional_json::<MsParameterGrouping>(m.x_ms_parameter_grouping),
            find(
                Parameter::to_json(m)->Object_0,
                "x-ms-enum"@,
            ) == optional_json::<MsEnum>(m.x_ms_enum),
            find(
                Parameter::to_json(m)->Object_0,
                "x-ms-client-request-id"@,
            ) == optional_json::<bool>(m.x_ms_client_request_id),
            find(
                Parameter::to_json(m)->Object_0,
                "x-ms-client-name"@,
            ) == optional_json::<String>(m.x_ms_client_name),
    {
        lemma_with_member();
        Self::lemma_spelling();
    }

    /// How the keys are spelled, as far as it takes to tell them apart.
    proof fn lemma_spelling()
        ensures
            "$ref"@.len() == 4,
            "name"@.len() == 4,
            "in"@.len() == 2,
            "description"@.len() == 11,
            "required"@.len() == 8,
            "schema"@.len() == 6,
            "type"@.len() == 4,
            "format"@.len() == 6,
            "items"@.len() == 5,
            "default"@.len() == 7,
            "maximum"@.len() == 7,
            "exclusiveMaximum"@.len() == 16,
            "minimum"@.len() == 7,
            "exclusiveMinimum"@.len() == 16,
            "maxLength"@.len() == 9,
            "minLength"@.len() == 9,
            "pattern"@.len() == 7,
            "maxItems"@.len() == 8,
            "minItems"@.len() == 8,
            "uniqueItems"@.len() == 11,
            "enum"@.len() == 4,
            "multipleOf"@.len() == 10,
            "allowEmptyValue"@.len() == 15,
            "collectionFormat"@.len() == 16,
            "x-ms-parameter-location"@.len() == 23,
            "x-ms-skip-url-encoding"@.len() == 22,
            "x-ms-parameter-grouping"@.len() == 23,
            "x-ms-enum"@.len() == 9,
            "x-ms-client-request-id"@.len() == 22,
            "x-ms-client-name"@.len() == 16,
            "$ref"@[0] == '$',
            "name"@[0] == 'n',
            "type"@[0] == 't',
            "enum"@[0] == 'e',
            "description"@[0] == 'd',
            "uniqueItems"@[0] == 'u',
            "required"@[0] == 'r',
            "maxItems"@[0] == 'm',
            "minItems"@[0] == 'm',
            "schema"@[0] == 's',
            "format"@[0] == 'f',
            "default"@[0] == 'd',
            "maximum"@[0] == 'm',
            "minimum"@[0] == 'm',
            "pattern"@[0] == 'p',
            "maximum"@[1] == 'a',
            "minimum"@[1] == 'i',
            "exclusiveMaximum"@[10] == 'a',
            "exclusiveMinimum"@[10] == 'i',
            "exclusiveMaximum"@[0] == 'e',
            "collectionFormat"@[0] == 'c',
            "x-ms-client-name"@[0] == 'x',
            "exclusiveMinimum"@[0] == 'e',
            "maxLength"@[1] == 'a',
            "minLength"@[1] == 'i',
            "maxLength"@[0] == 'm',
            "x-ms-enum"@[0] == 'x',
            "minLength"@[0] == 'm',
            "maxItems"@[1] == 'a',
            "minItems"@[1] == 'i',
            "x-ms-parameter-location"@[15] == 'l',
            "x-ms-parameter-grouping"@[15] == 'g',
            "x-ms-skip-url-encoding"@[5] == 's',
            "x-ms-client-request-id"@[5] == 'c',
    {
        reveal_strlit("$ref");
        reveal_strlit("name");
        reveal_strlit("in");
        reveal_strlit("description");
        reveal_strlit("required");
        reveal_strlit("schema");
        reveal_strlit("type");
        reveal_strlit("format");
        reveal_strlit("items");
        reveal_strlit("default");
        reveal_strlit("maximum");
        reveal_strlit("exclusiveMaximum");
        reveal_strlit("minimum");
        reveal_strlit("exclusiveMinimum");
        reveal_strlit("maxLength");
        reveal_strlit("minLength");
        reveal_strlit("pattern");
        reveal_strlit("maxItems");
        reveal_strlit("minItems");
        reveal_strlit("uniqueItems");
        reveal_strlit("enum");
        reveal_strlit("multipleOf");
        reveal_strlit("allowEmptyValue");
        reveal_strlit("collectionFormat");
        reveal_strlit("x-ms-parameter-location");
        reveal_strlit("x-ms-skip-url-encoding");
        reveal_strlit("x-ms-parameter-grouping");
        reveal_strlit("x-ms-enum");
        reveal_strlit("x-ms-client-request-id");
        reveal_strlit("x-ms-client-name");
    }
}

impl Keys for Parameter {
    open spec fn known(key: Seq<char>) -> bool {
        ||| key == "name"@
        ||| key == "in"@
        ||| key == "description"@
        ||| key == "required"@
        ||| key == "schema"@
        ||| key == "type"@
        ||| key == "format"@
        ||| key == "items"@
        ||| key == "default"@
        ||| key == "maximum"@
        ||| key == "exclusiveMaximum"@
        ||| key == "minimum"@
        ||| key == "exclusiveMinimum"@
        ||| key == "maxLength"@
        ||| key == "minLength"@
        ||| key == "pattern"@
        ||| key == "maxItems"@
        ||| key == "minItems"@
        ||| key == "uniqueItems"@
        ||| key == "enum"@
        ||| key == "multipleOf"@
        ||| key == "allowEmptyValue"@
        ||| key == "collectionFormat"@
        ||| key == "x-ms-parameter-location"@
        ||| key == "x-ms-skip-url-encoding"@
        ||| key == "x-ms-parameter-grouping"@
        ||| key == "x-ms-enum"@
        ||| key == "x-ms-client-request-id"@
        ||| key == "x-ms-client-name"@
    }

    fn knows(key: &str) -> (b: bool) {
        same_text(key, "name")
            || same_text(key, "in")
            || same_text(key, "description")
            || same_text(key, "required")
            || same_text(key, "schema")
            || same_text(key, "type")
            || same_text(key, "format")
            || same_text(key, "items")
            || same_text(key, "default")
            || same_text(key, "maximum")
            || same_text(key, "exclusiveMaximum")
            || same_text(key, "minimum")
            || same_text(key, "exclusiveMinimum")
            || same_text(key, "maxLength")
            || same_text(key, "minLength")
            || same_text(key, "pattern")
            || same_text(key, "maxItems")
            || same_text(key, "minItems")
            || same_text(key, "uniqueItems")
            || same_text(key, "enum")
            || same_text(key, "multipleOf")
            || same_text(key, "allowEmptyValue")
            || same_text(key, "collectionFormat")
            || same_text(key, "x-ms-parameter-location")
            || same_text(key, "x-ms-skip-url-encoding")
            || same_text(key, "x-ms-parameter-grouping")
            || same_text(key, "x-ms-enum")
            || same_text(key, "x-ms-client-request-id")
            || same_text(key, "x-ms-client-name")
    }
}

impl Audit for Parameter {
    open spec fn ignored(t: JsonV) -> Seq<PathV> {
        match t {
            JsonV::Object(e) => {
                let found = unknown_keys::<Parameter>(e, e.len());
                let found = found + ignored_under::<ReferenceOr<Schema>>(
                    find(e, "schema"@),
                    "schema"@,
                );
                let found = found + ignored_under::<ReferenceOr<Schema>>(
                    find(e, "items"@),
                    "items"@,
                );
                let found = found + ignored_under::<MsParameterGrouping>(
                    find(e, "x-ms-parameter-grouping"@),
                    "x-ms-parameter-grouping"@,
                );
                let found = found + ignored_under::<MsEnum>(find(e, "x-ms-enum"@), "x-ms-enum"@);
                found
            },
            _ => Seq::empty(),
        }
    }

    fn audit(v: &Value, at: &mut Vec<Segment>, out: &mut Vec<Vec<Segment>>) {
        let ghost start = out.model();
        let ghost base = at.model();
        proof {
            lemma_collected(start, Seq::empty(), Seq::empty(), base);
        }
        match kind_of(v) {
            Kind::Object => {},
            _ => {
                return;
            },
        }
        let ghost e = value_tree(*v)->Object_0;
        let ghost found = unknown_keys::<Parameter>(e, e.len());
        report_unknown::<Parameter>(v, at, out);
        audit_member::<ReferenceOr<Schema>>(v, "schema", at, out);
        proof {
            let more = ignored_under::<ReferenceOr<Schema>>(find(e, "schema"@), "schema"@);
            lemma_collected(start, found, more, base);
            found = found + more;
        }
        audit_member::<ReferenceOr<Schema>>(v, "items", at, out);
        proof {
            let more = ignored_under::<ReferenceOr<Schema>>(find(e, "items"@), "items"@);
            lemma_collected(start, found, more, base);
            found = found + more;
        }
        audit_member::<MsParameterGrouping>(v, "x-ms-parameter-grouping", at, out);
        proof {
            let more = ignored_under::<MsParameterGrouping>(
                find(e, "x-ms-parameter-grouping"@),
                "x-ms-parameter-grouping"@,
            );
            lemma_collected(start, found, more, base);
            found = found + more;
        }
        audit_member::<MsEnum>(v, "x-ms-enum", at, out);
        proof {
            let more = ignored_under::<MsEnum>(find(e, "x-ms-enum"@), "x-ms-enum"@);
            lemma_collected(start, found, more, base);
            found = found + more;
        }
    }

    proof fn clean(m: ParameterV) {
        Parameter::lemma_members(m);
        let e = Self::to_json(m)->Object_0;
        assert forall|i: int| 0 <= i < e.len() implies Parameter::known(
            #[trigger] e[i].0,
        ) by {
            lemma_key_present(e, i);
            Parameter::lemma_written_keys(m, e[i].0);
        }
        lemma_all_known::<Parameter>(e, e.len());
        if m.schema is Some {
            lemma_under_clean::<ReferenceOr<Schema>>(find(e, "schema"@), "schema"@, m.schema->0);
        }
        if m.items is Some {
            lemma_under_clean::<ReferenceOr<Schema>>(find(e, "items"@), "items"@, m.items->0);
        }
        if m.x_ms_parameter_grouping is Some {
            lemma_under_clean::<MsParameterGrouping>(
                find(e, "x-ms-parameter-grouping"@),
                "x-ms-parameter-grouping"@,
                m.x_ms_parameter_grouping->0,
            );
        }
        if m.x_ms_enum is Some {
            lemma_under_clean::<MsEnum>(find(e, "x-ms-enum"@), "x-ms-enum"@, m.x_ms_enum->0);
        }
        assert(Seq::<PathV>::empty() + Seq::<PathV>::empty() =~= Seq::<PathV>::empty());
    }
}

} // verus!
