//! The AutoRest extensions of OpenAPI 2.0: the `x-ms-` keys by which Azure
//! documents steer code generation.

use vstd::prelude::*;
use serde_json::Value;
use crate::audit::{
    audit_member, ignored_under, lemma_all_known, lemma_collected, lemma_under_clean,
    report_unknown, unknown_keys, Audit, Keys,
};
use crate::binding::{Binding, Record};
use crate::error::{
    invalid_name, mismatch, DecodeError, DecodeErrorV, Expected, PathV, Reason, Segment,
};
use crate::fields::{
    defaulted_field, flag_field, flag_json, lemma_defaulted, lemma_flag, lemma_list,
    lemma_optional, lemma_required, lemma_with_member, list_field, list_json, nullable_json,
    optional_field, optional_json, put, put_flag, put_list, put_nullable, put_optional,
    put_required, read_defaulted, read_flag, read_list, read_optional, read_required, read_value,
    required_field, required_json, value_field, with_member, Members,
};
use crate::json::{
    empty_object, find, has_key, kind_of, lemma_key_present, null_value, same_text, text_value,
    value_tree, JsonV, Kind,
};
use crate::model::Model;

verus! {

/// Which of create, read and update a property takes part in
/// (`x-ms-mutability`). It steers code generation and changes nothing on the
/// wire.
#[derive(Clone, Copy, Debug, PartialEq, Eq, Structural)]
pub enum MsMutability {
    Create,
    Read,
    Update,
}

impl MsMutability {
    /// The name of a value on the wire.
    pub open spec fn name(self) -> Seq<char> {
        match self {
            MsMutability::Create => "create"@,
            MsMutability::Read => "read"@,
            MsMutability::Update => "update"@,
        }
    }

    /// The value that a name on the wire stands for.
    pub open spec fn named(s: Seq<char>) -> Option<MsMutability> {
        if s == "create"@ {
            Some(MsMutability::Create)
        } else if s == "read"@ {
            Some(MsMutability::Read)
        } else if s == "update"@ {
            Some(MsMutability::Update)
        } else {
            None
        }
    }

    /// The name of a value on the wire.
    pub fn as_str(&self) -> (s: &'static str)
        ensures
            s@ == self.name(),
    {
        match self {
            MsMutability::Create => "create",
            MsMutability::Read => "read",
            MsMutability::Update => "update",
        }
    }

    /// The value that a name on the wire stands for.
    pub fn from_name(s: &str) -> (r: Option<MsMutability>)
        ensures
            r == MsMutability::named(s@),
    {
        if same_text(s, "create") {
            Some(MsMutability::Create)
        } else if same_text(s, "read") {
            Some(MsMutability::Read)
        } else if same_text(s, "update") {
            Some(MsMutability::Update)
        } else {
            None
        }
    }

    /// Every value is the one that its name stands for.
    pub proof fn lemma_named(self)
        ensures
            MsMutability::named(self.name()) == Some(self),
    {
        Self::lemma_spelling();
    }

    /// How the names are spelled, as far as it takes to tell them apart.
    proof fn lemma_spelling()
        ensures
            "create"@.len() == 6,
            "read"@.len() == 4,
            "update"@.len() == 6,
            "create"@[0] == 'c',
            "update"@[0] == 'u',
    {
        reveal_strlit("create");
        reveal_strlit("read");
        reveal_strlit("update");
    }
}

impl Model for MsMutability {
    type M = MsMutability;

    open spec fn model(&self) -> MsMutability {
        *self
    }
}

impl Binding for MsMutability {
    open spec fn from_json(t: JsonV) -> Result<MsMutability, DecodeErrorV> {
        match t {
            JsonV::Text(s) => match MsMutability::named(s) {
                Some(x) => Ok(x),
                None => Err(invalid_name(s)),
            },
            _ => Err(mismatch(Expected::String, t)),
        }
    }

    open spec fn to_json(m: MsMutability) -> JsonV {
        JsonV::Text(m.name())
    }

    fn decode(v: &Value) -> (r: Result<MsMutability, DecodeError>) {
        match v.as_str() {
            Some(s) => match MsMutability::from_name(s) {
                Some(x) => Ok(x),
                None => Err(DecodeError::new(Reason::InvalidEnumValue { value: s.to_owned() })),
            },
            None => Err(DecodeError::mismatch(Expected::String, kind_of(v))),
        }
    }

    fn encode(&self) -> (v: Value) {
        text_value(self.as_str().to_owned())
    }

    proof fn round_trip(m: MsMutability) {
        m.lemma_named();
    }
}

/// How an operation pages through a list (`x-ms-pageable`).
#[derive(Clone, Debug, PartialEq)]
pub struct MsPageable {
    /// The name of the property that holds the items of a page.
    pub item_name: Option<String>,
    /// The name of the property that holds the link to the next page. The key
    /// is always written; `null` stands for an operation that has no such link.
    pub next_link_name: Option<String>,
    /// The name of the operation that fetches the next page.
    pub operation_name: Option<String>,
}

/// The model of a [`MsPageable`].
pub struct MsPageableV {
    pub item_name: Option<Seq<char>>,
    pub next_link_name: Option<Seq<char>>,
    pub operation_name: Option<Seq<char>>,
}

impl Model for MsPageable {
    type M = MsPageableV;

    open spec fn model(&self) -> MsPageableV {
        MsPageableV {
            item_name: self.item_name.model(),
            next_link_name: self.next_link_name.model(),
            operation_name: self.operation_name.model(),
        }
    }
}

impl MsPageable {
    /// The model of the default value: every optional field absent, every list
    /// and mapping empty, every flag off.
    pub open spec fn default_model() -> MsPageableV {
        MsPageableV {
            item_name: None,
            next_link_name: None,
            operation_name: None,
        }
    }
}

impl Default for MsPageable {
    fn default() -> (r: MsPageable)
        ensures
            r.model() == MsPageable::default_model(),
    {
        let r = MsPageable {
            item_name: None,
            next_link_name: None,
            operation_name: None,
        };
        r
    }
}

impl Binding for MsPageable {
    open spec fn from_json(t: JsonV) -> Result<MsPageableV, DecodeErrorV> {
        match t {
            JsonV::Object(e) => {
                let item_name = optional_field::<String>(e, "itemName"@);
                let next_link_name = optional_field::<String>(e, "nextLinkName"@);
                let operation_name = optional_field::<String>(e, "operationName"@);
                if item_name is Err {
                    Err(item_name->Err_0)
                } else if next_link_name is Err {
                    Err(next_link_name->Err_0)
                } else if operation_name is Err {
                    Err(operation_name->Err_0)
                } else {
                    Ok(
                        MsPageableV {
                            item_name: item_name->Ok_0,
                            next_link_name: next_link_name->Ok_0,
                            operation_name: operation_name->Ok_0,
                        },
                    )
                }
            },
            _ => Err(mismatch(Expected::Object, t)),
        }
    }

    open spec fn to_json(m: MsPageableV) -> JsonV {
        let e: Members = Seq::empty();
        let e = with_member(e, "itemName"@, optional_json::<String>(m.item_name));
        let e = with_member(e, "nextLinkName"@, nullable_json::<String>(m.next_link_name));
        let e = with_member(e, "operationName"@, optional_json::<String>(m.operation_name));
        JsonV::Object(e)
    }

    fn decode(v: &Value) -> (r: Result<MsPageable, DecodeError>) {
        match kind_of(v) {
            Kind::Object => {},
            found => {
                return Err(DecodeError::mismatch(Expected::Object, found));
            },
        }
        let item_name = read_optional::<String>(v, "itemName")?;
        let next_link_name = read_optional::<String>(v, "nextLinkName")?;
        let operation_name = read_optional::<String>(v, "operationName")?;
        Ok(MsPageable { item_name, next_link_name, operation_name })
    }

    fn encode(&self) -> (v: Value) {
        let mut o = empty_object();
        put_optional::<String>(&mut o, "itemName", &self.item_name);
        put_nullable::<String>(&mut o, "nextLinkName", &self.next_link_name);
        put_optional::<String>(&mut o, "operationName", &self.operation_name);
        o
    }

    proof fn round_trip(m: MsPageableV) {
        let e = Self::to_json(m)->Object_0;
        Self::lemma_members(m);
        lemma_optional::<String>(e, "itemName"@, m.item_name);
        lemma_optional::<String>(e, "nextLinkName"@, m.next_link_name);
        lemma_optional::<String>(e, "operationName"@, m.operation_name);
    }
}

impl Record for MsPageable {
    proof fn written_as_record(m: MsPageableV) {
        Self::lemma_written_keys(m, "$ref"@);
        Self::lemma_spelling();
    }
}

impl MsPageable {
    /// Which keys are written: a required field always, an optional field where
    /// it is present, a list or a mapping where it is not empty, a flag where
    /// it is set. Nothing else is written.
    pub proof fn lemma_written_keys(m: MsPageableV, key: Seq<char>)
        ensures
            MsPageable::to_json(m) is Object,
            has_key(MsPageable::to_json(m)->Object_0, "itemName"@) == (m.item_name is Some),
            has_key(MsPageable::to_json(m)->Object_0, "nextLinkName"@),
            has_key(
                MsPageable::to_json(m)->Object_0,
                "operationName"@,
            ) == (m.operation_name is Some),
            has_key(MsPageable::to_json(m)->Object_0, key) ==> {
                ||| key == "itemName"@
                ||| key == "nextLinkName"@
                ||| key == "operationName"@
            },
    {
        lemma_with_member();
        Self::lemma_spelling();
    }

    /// What stands under each key of what a value is written as.
    pub proof fn lemma_members(m: MsPageableV)
        ensures
            find(
                MsPageable::to_json(m)->Object_0,
                "itemName"@,
            ) == optional_json::<String>(m.item_name),
            find(
                MsPageable::to_json(m)->Object_0,
                "nextLinkName"@,
            ) == nullable_json::<String>(m.next_link_name),
            find(
                MsPageable::to_json(m)->Object_0,
                "operationName"@,
            ) == optional_json::<String>(m.operation_name),
    {
        lemma_with_member();
        Self::lemma_spelling();
    }

    /// How the keys are spelled, as far as it takes to tell them apart.
    proof fn lemma_spelling()
        ensures
            "$ref"@.len() == 4,
            "itemName"@.len() == 8,
            "nextLinkName"@.len() == 12,
            "operationName"@.len() == 13,
    {
        reveal_strlit("$ref");
        reveal_strlit("itemName");
        reveal_strlit("nextLinkName");
        reveal_strlit("operationName");
    }
}

impl Keys for MsPageable {
    open spec fn known(key: Seq<char>) -> bool {
        ||| key == "itemName"@
        ||| key == "nextLinkName"@
        ||| key == "operationName"@
    }

    fn knows(key: &str) -> (b: bool) {
        same_text(key, "itemName")
            || same_text(key, "nextLinkName")
            || same_text(key, "operationName")
    }
}

impl Audit for MsPageable {
    open spec fn ignored(t: JsonV) -> Seq<PathV> {
        match t {
            JsonV::Object(e) => unknown_keys::<MsPageable>(e, e.len()),
            _ => Seq::empty(),
        }
    }

    fn audit(v: &Value, at: &mut Vec<Segment>, out: &mut Vec<Vec<Segment>>) {
        let ghost start = out.model();
        let ghost base = at.model();
        proof {
            lemma_collected(start, Seq::empty(), Seq::empty(), base);
        }
        match kind_of(v) {
            Kind::Object => {},
            _ => {
                return;
            },
        }
        report_unknown::<MsPageable>(v, at, out);
    }

    proof fn clean(m: MsPageableV) {
        MsPageable::lemma_members(m);
        let e = Self::to_json(m)->Object_0;
        assert forall|i: int| 0 <= i < e.len() implies MsPageable::known(
            #[trigger] e[i].0,
        ) by {
            lemma_key_present(e, i);
            MsPageable::lemma_written_keys(m, e[i].0);
        }
        lemma_all_known::<MsPageable>(e, e.len());
    }
}

/// Where the final state of a long-running operation is fetched from.
#[derive(Clone, Copy, Debug, PartialEq, Eq, Structural)]
pub enum MsLongRunningOperationOptionsFinalStateVia {
    AzureAsyncOperation,
    Location,
    OriginalUri,
}

impl MsLongRunningOperationOptionsFinalStateVia {
    /// The name of a value on the wire.
    pub open spec fn name(self) -> Seq<char> {
        match self {
            MsLongRunningOperationOptionsFinalStateVia::AzureAsyncOperation => "azure-async-operation"@,
            MsLongRunningOperationOptionsFinalStateVia::Location => "location"@,
            MsLongRunningOperationOptionsFinalStateVia::OriginalUri => "original-uri"@,
        }
    }

    /// The value that a name on the wire stands for.
    pub open spec fn named(s: Seq<char>) -> Option<MsLongRunningOperationOptionsFinalStateVia> {
        if s == "azure-async-operation"@ {
            Some(MsLongRunningOperationOptionsFinalStateVia::AzureAsyncOperation)
        } else if s == "location"@ {
            Some(MsLongRunningOperationOptionsFinalStateVia::Location)
        } else if s == "original-uri"@ {
            Some(MsLongRunningOperationOptionsFinalStateVia::OriginalUri)
        } else {
            None
        }
    }

    /// The name of a value on the wire.
    pub fn as_str(&self) -> (s: &'static str)
        ensures
            s@ == self.name(),
    {
        match self {
            MsLongRunningOperationOptionsFinalStateVia::AzureAsyncOperation => "azure-async-operation",
            MsLongRunningOperationOptionsFinalStateVia::Location => "location",
            MsLongRunningOperationOptionsFinalStateVia::OriginalUri => "original-uri",
        }
    }

    /// The value that a name on the wire stands for.
    pub fn from_name(s: &str) -> (r: Option<MsLongRunningOperationOptionsFinalStateVia>)
        ensures
            r == MsLongRunningOperationOptionsFinalStateVia::named(s@),
    {
        if same_text(s, "azure-async-operation") {
            Some(MsLongRunningOperationOptionsFinalStateVia::AzureAsyncOperation)
        } else if same_text(s, "location") {
            Some(MsLongRunningOperationOptionsFinalStateVia::Location)
        } else if same_text(s, "original-uri") {
            Some(MsLongRunningOperationOptionsFinalStateVia::OriginalUri)
        } else {
            None
        }
    }

    /// Every value is the one that its name stands for.
    pub proof fn lemma_named(self)
        ensures
            MsLongRunningOperationOptionsFinalStateVia::named(self.name()) == Some(self),
    {
        Self::lemma_spelling();
    }

    /// How the names are spelled, as far as it takes to tell them apart.
    proof fn lemma_spelling()
        ensures
            "azure-async-operation"@.len() == 21,
            "location"@.len() == 8,
            "original-uri"@.len() == 12,
    {
        reveal_strlit("azure-async-operation");
        reveal_strlit("location");
        reveal_strlit("original-uri");
    }
}

impl Default for MsLongRunningOperationOptionsFinalStateVia {
    fn default() -> (r: MsLongRunningOperationOptionsFinalStateVia)
        ensures
            r == MsLongRunningOperationOptionsFinalStateVia::AzureAsyncOperation,
    {
        MsLongRunningOperationOptionsFinalStateVia::AzureAsyncOperation
    }
}

impl Model for MsLongRunningOperationOptionsFinalStateVia {
    type M = MsLongRunningOperationOptionsFinalStateVia;

    open spec fn model(&self) -> MsLongRunningOperationOptionsFinalStateVia {
        *self
    }
}

impl Binding for MsLongRunningOperationOptionsFinalStateVia {
    open spec fn from_json(
        t: JsonV,
    ) -> Result<MsLongRunningOperationOptionsFinalStateVia, DecodeErrorV> {
        match t {
            JsonV::Text(s) => match MsLongRunningOperationOptionsFinalStateVia::named(s) {
                Some(x) => Ok(x),
                None => Err(invalid_name(s)),
            },
            _ => Err(mismatch(Expected::String, t)),
        }
    }

    open spec fn to_json(m: MsLongRunningOperationOptionsFinalStateVia) -> JsonV {
        JsonV::Text(m.name())
    }

    fn decode(v: &Value) -> (r: Result<MsLongRunningOperationOptionsFinalStateVia, DecodeError>) {
        match v.as_str() {
            Some(s) => match MsLongRunningOperationOptionsFinalStateVia::from_name(s) {
                Some(x) => Ok(x),
                None => Err(DecodeError::new(Reason::InvalidEnumValue { value: s.to_owned() })),
            },
            None => Err(DecodeError::mismatch(Expected::String, kind_of(v))),
        }
    }

    fn encode(&self) -> (v: Value) {
        text_value(self.as_str().to_owned())
    }

    proof fn round_trip(m: MsLongRunningOperationOptionsFinalStateVia) {
        m.lemma_named();
    }
}

/// How a long-running operation is polled
/// (`x-ms-long-running-operation-options`).
#[derive(Clone, Debug, PartialEq)]
pub struct MsLongRunningOperationOptions {
    /// Where the final state is fetched from; the asynchronous-operation header
    /// where the key is missing.
    pub final_state_via: MsLongRunningOperationOptionsFinalStateVia,
}

/// The model of a [`MsLongRunningOperationOptions`].
pub struct MsLongRunningOperationOptionsV {
    pub final_state_via: MsLongRunningOperationOptionsFinalStateVia,
}

impl Model for MsLongRunningOperationOptions {
    type M = MsLongRunningOperationOptionsV;

    open spec fn model(&self) -> MsLongRunningOperationOptionsV {
        MsLongRunningOperationOptionsV {
            final_state_via: self.final_state_via.model(),
        }
    }
}

impl MsLongRunningOperationOptions {
    /// The model of the default value: every optional field absent, every list
    /// and mapping empty, every flag off.
    pub open spec fn default_model() -> MsLongRunningOperationOptionsV {
        MsLongRunningOperationOptionsV {
            final_state_via: MsLongRunningOperationOptionsFinalStateVia::AzureAsyncOperation,
        }
    }
}

impl Default for MsLongRunningOperationOptions {
    fn default() -> (r: MsLongRunningOperationOptions)
        ensures
            r.model() == MsLongRunningOperationOptions::default_model(),
    {
        let r = MsLongRunningOperationOptions {
            final_state_via: MsLongRunningOperationOptionsFinalStateVia::AzureAsyncOperation,
        };
        r
    }
}

impl Binding for MsLongRunningOperationOptions {
    open spec fn from_json(t: JsonV) -> Result<MsLongRunningOperationOptionsV, DecodeErrorV> {
        match t {
            JsonV::Object(e) => {
                let final_state_via = defaulted_field::<MsLongRunningOperationOptionsFinalStateVia>(
                    e,
                    "final-state-via"@,
                    MsLongRunningOperationOptionsFinalStateVia::AzureAsyncOperation,
                );
                if final_state_via is Err {
                    Err(final_state_via->Err_0)
                } else {
                    Ok(
                        MsLongRunningOperationOptionsV {
                            final_state_via: final_state_via->Ok_0,
                        },
                    )
                }
            },
            _ => Err(mismatch(Expected::Object, t)),
        }
    }

    open spec fn to_json(m: MsLongRunningOperationOptionsV) -> JsonV {
        let e: Members = Seq::empty();
        let e = with_member(
            e,
            "final-state-via"@,
            required_json::<MsLongRunningOperationOptionsFinalStateVia>(m.final_state_via),
        );
        JsonV::Object(e)
    }

    fn decode(v: &Value) -> (r: Result<MsLongRunningOperationOptions, DecodeError>) {
        match kind_of(v) {
            Kind::Object => {},
            found => {
                return Err(DecodeError::mismatch(Expected::Object, found));
            },
        }
        let final_state_via = read_defaulted::<MsLongRunningOperationOptionsFinalStateVia>(
            v,
            "final-state-via",
            MsLongRunningOperationOptionsFinalStateVia::AzureAsyncOperation,
        )?;
        Ok(MsLongRunningOperationOptions { final_state_via })
    }

    fn encode(&self) -> (v: Value) {
        let mut o = empty_object();
        put_required::<MsLongRunningOperationOptionsFinalStateVia>(
            &mut o,
            "final-state-via",
            &self.final_state_via,
        );
        o
    }

    proof fn round_trip(m: MsLongRunningOperationOptionsV) {
        let e = Self::to_json(m)->Object_0;
        Self::lemma_members(m);
        lemma_defaulted::<MsLongRunningOperationOptionsFinalStateVia>(
            e,
            "final-state-via"@,
            m.final_state_via,
            MsLongRunningOperationOptionsFinalStateVia::AzureAsyncOperation,
        );
    }
}

impl Record for MsLongRunningOperationOptions {
    proof fn written_as_record(m: MsLongRunningOperationOptionsV) {
        Self::lemma_written_keys(m, "$ref"@);
        Self::lemma_spelling();
    }
}

impl MsLongRunningOperationOptions {
    /// Which keys are written: a required field always, an optional field where
    /// it is present, a list or a mapping where it is not empty, a flag where
    /// it is set. Nothing else is written.
    pub proof fn lemma_written_keys(m: MsLongRunningOperationOptionsV, key: Seq<char>)
        ensures
            MsLongRunningOperationOptions::to_json(m) is Object,
            has_key(MsLongRunningOperationOptions::to_json(m)->Object_0, "final-state-via"@),
            has_key(MsLongRunningOperationOptions::to_json(m)->Object_0, key) ==> {
                ||| key == "final-state-via"@
            },
    {
        lemma_with_member();
        Self::lemma_spelling();
    }

    /// What stands under each key of what a value is written as.
    pub proof fn lemma_members(m: MsLongRunningOperationOptionsV)
        ensures
            find(
                MsLongRunningOperationOptions::to_json(m)->Object_0,
                "final-state-via"@,
            ) == required_json::<MsLongRunningOperationOptionsFinalStateVia>(m.final_state_via),
    {
        lemma_with_member();
        Self::lemma_spelling();
    }

    /// How the keys are spelled, as far as it takes to tell them apart.
    proof fn lemma_spelling()
        ensures
            "$ref"@.len() == 4,
            "final-state-via"@.len() == 15,
    {
        reveal_strlit("$ref");
        reveal_strlit("final-state-via");
    }
}

impl Keys for MsLongRunningOperationOptions {
    open spec fn known(key: Seq<char>) -> bool {
        ||| key == "final-state-via"@
    }

    fn knows(key: &str) -> (b: bool) {
        same_text(key, "final-state-via")
    }
}

impl Audit for MsLongRunningOperationOptions {
    open spec fn ignored(t: JsonV) -> Seq<PathV> {
        match t {
            JsonV::Object(e) => unknown_keys::<MsLongRunningOperationOptions>(e, e.len()),
            _ => Seq::empty(),
        }
    }

    fn audit(v: &Value, at: &mut Vec<Segment>, out: &mut Vec<Vec<Segment>>) {
        let ghost start = out.model();
        let ghost base = at.model();
        proof {
            lemma_collected(start, Seq::empty(), Seq::empty(), base);
        }
        match kind_of(v) {
            Kind::Object => {},
            _ => {
                return;
            },
        }
        report_unknown::<MsLongRunningOperationOptions>(v, at, out);
    }

    proof fn clean(m: MsLongRunningOperationOptionsV) {
        MsLongRunningOperationOptions::lemma_members(m);
        let e = Self::to_json(m)->Object_0;
        assert forall|i: int| 0 <= i < e.len() implies MsLongRunningOperationOptions::known(
            #[trigger] e[i].0,
        ) by {
            lemma_key_present(e, i);
            MsLongRunningOperationOptions::lemma_written_keys(m, e[i].0);
        }
        lemma_all_known::<MsLongRunningOperationOptions>(e, e.len());
    }
}

/// Whether a global parameter belongs to the client or to each method
/// (`x-ms-parameter-location`).
#[derive(Clone, Copy, Debug, PartialEq, Eq, Structural)]
pub enum MsParameterLocation {
    Client,
    Method,
}

impl MsParameterLocation {
    /// The name of a value on the wire.
    pub open spec fn name(self) -> Seq<char> {
        match self {
            MsParameterLocation::Client => "client"@,
            MsParameterLocation::Method => "method"@,
        }
    }

    /// The value that a name on the wire stands for.
    pub open spec fn named(s: Seq<char>) -> Option<MsParameterLocation> {
        if s == "client"@ {
            Some(MsParameterLocation::Client)
        } else if s == "method"@ {
            Some(MsParameterLocation::Method)
        } else {
            None
        }
    }

    /// The name of a value on the wire.
    pub fn as_str(&self) -> (s: &'static str)
        ensures
            s@ == self.name(),
    {
        match self {
            MsParameterLocation::Client => "client",
            MsParameterLocation::Method => "method",
        }
    }

    /// The value that a name on the wire stands for.
    pub fn from_name(s: &str) -> (r: Option<MsParameterLocation>)
        ensures
            r == MsParameterLocation::named(s@),
    {
        if same_text(s, "client") {
            Some(MsParameterLocation::Client)
        } else if same_text(s, "method") {
            Some(MsParameterLocation::Method)
        } else {
            None
        }
    }

    /// Every value is the one that its name stands for.
    pub proof fn lemma_named(self)
        ensures
            MsParameterLocation::named(self.name()) == Some(self),
    {
        Self::lemma_spelling();
    }

    /// How the names are spelled, as far as it takes to tell them apart.
    proof fn lemma_spelling()
        ensures
            "client"@.len() == 6,
            "method"@.len() == 6,
            "client"@[0] == 'c',
            "method"@[0] == 'm',
    {
        reveal_strlit("client");
        reveal_strlit("method");
    }
}

impl Model for MsParameterLocation {
    type M = MsParameterLocation;

    open spec fn model(&self) -> MsParameterLocation {
        *self
    }
}

impl Binding for MsParameterLocation {
    open spec fn from_json(t: JsonV) -> Result<MsParameterLocation, DecodeErrorV> {
        match t {
            JsonV::Text(s) => match MsParameterLocation::named(s) {
                Some(x) => Ok(x),
                None => Err(invalid_name(s)),
            },
            _ => Err(mismatch(Expected::String, t)),
        }
    }

    open spec fn to_json(m: MsParameterLocation) -> JsonV {
        JsonV::Text(m.name())
    }

    fn decode(v: &Value) -> (r: Result<MsParameterLocation, DecodeError>) {
        match v.as_str() {
            Some(s) => match MsParameterLocation::from_name(s) {
                Some(x) => Ok(x),
                None => Err(DecodeError::new(Reason::InvalidEnumValue { value: s.to_owned() })),
            },
            None => Err(DecodeError::mismatch(Expected::String, kind_of(v))),
        }
    }

    fn encode(&self) -> (v: Value) {
        text_value(self.as_str().to_owned())
    }

    proof fn round_trip(m: MsParameterLocation) {
        m.lemma_named();
    }
}

/// One value of an enumeration with its description.
#[derive(Clone, Debug, PartialEq)]
pub struct MsEnumValue {
    /// The value, kept as it stands; `null` where the key is missing.
    pub value: Value,
    /// What the value means.
    pub description: Option<String>,
    /// The name of the value in generated code.
    pub name: Option<String>,
}

/// The model of a [`MsEnumValue`].
pub struct MsEnumValueV {
    pub value: JsonV,
    pub description: Option<Seq<char>>,
    pub name: Option<Seq<char>>,
}

impl Model for MsEnumValue {
    type M = MsEnumValueV;

    open spec fn model(&self) -> MsEnumValueV {
        MsEnumValueV {
            value: self.value.model(),
            description: self.description.model(),
            name: self.name.model(),
        }
    }
}

impl MsEnumValue {
    /// The model of the default value: every optional field absent, every list
    /// and mapping empty, every flag off.
    pub open spec fn default_model() -> MsEnumValueV {
        MsEnumValueV {
            value: JsonV::Null,
            description: None,
            name: None,
        }
    }
}

impl Default for MsEnumValue {
    fn default() -> (r: MsEnumValue)
        ensures
            r.model() == MsEnumValue::default_model(),
    {
        let r = MsEnumValue {
            value: null_value(),
            description: None,
            name: None,
        };
        r
    }
}

impl Binding for MsEnumValue {
    open spec fn from_json(t: JsonV) -> Result<MsEnumValueV, DecodeErrorV> {
        match t {
            JsonV::Object(e) => {
                let description = optional_field::<String>(e, "description"@);
                let name = optional_field::<String>(e, "name"@);
                if description is Err {
                    Err(description->Err_0)
                } else if name is Err {
                    Err(name->Err_0)
                } else {
                    Ok(
                        MsEnumValueV {
                            value: value_field(e, "value"@),
                            description: description->Ok_0,
                            name: name->Ok_0,
                        },
                    )
                }
            },
            _ => Err(mismatch(Expected::Object, t)),
        }
    }

    open spec fn to_json(m: MsEnumValueV) -> JsonV {
        let e: Members = Seq::empty();
        let e = with_member(e, "value"@, Some(m.value));
        let e = with_member(e, "description"@, optional_json::<String>(m.description));
        let e = with_member(e, "name"@, optional_json::<String>(m.name));
        JsonV::Object(e)
    }

    fn decode(v: &Value) -> (r: Result<MsEnumValue, DecodeError>) {
        match kind_of(v) {
            Kind::Object => {},
            found => {
                return Err(DecodeError::mismatch(Expected::Object, found));
            },
        }
        let value = read_value(v, "value");
        let description = read_optional::<String>(v, "description")?;
        let name = read_optional::<String>(v, "name")?;
        Ok(MsEnumValue { value, description, name })
    }

    fn encode(&self) -> (v: Value) {
        let mut o = empty_object();
        put(&mut o, "value", Some(self.value.clone()));
        put_optional::<String>(&mut o, "description", &self.description);
        put_optional::<String>(&mut o, "name", &self.name);
        o
    }

    proof fn round_trip(m: MsEnumValueV) {
        let e = Self::to_json(m)->Object_0;
        Self::lemma_members(m);
        lemma_optional::<String>(e, "description"@, m.description);
        lemma_optional::<String>(e, "name"@, m.name);
    }
}

impl Record for MsEnumValue {
    proof fn written_as_record(m: MsEnumValueV) {
        Self::lemma_written_keys(m, "$ref"@);
        Self::lemma_spelling();
    }
}

impl MsEnumValue {
    /// Which keys are written: a required field always, an optional field where
    /// it is present, a list or a mapping where it is not empty, a flag where
    /// it is set. Nothing else is written.
    pub proof fn lemma_written_keys(m: MsEnumValueV, key: Seq<char>)
        ensures
            MsEnumValue::to_json(m) is Object,
            has_key(MsEnumValue::to_json(m)->Object_0, "value"@),
            has_key(MsEnumValue::to_json(m)->Object_0, "description"@) == (m.description is Some),
            has_key(MsEnumValue::to_json(m)->Object_0, "name"@) == (m.name is Some),
            has_key(MsEnumValue::to_json(m)->Object_0, key) ==> {
                ||| key == "value"@
                ||| key == "description"@
                ||| key == "name"@
            },
    {
        lemma_with_member();
        Self::lemma_spelling();
    }

    /// What stands under each key of what a value is written as.
    pub proof fn lemma_members(m: MsEnumValueV)
        ensures
            find(MsEnumValue::to_json(m)->Object_0, "value"@) == Some(m.value),
            find(
                MsEnumValue::to_json(m)->Object_0,
                "description"@,
            ) == optional_json::<String>(m.description),
            find(MsEnumValue::to_json(m)->Object_0, "name"@) == optional_json::<String>(m.name),
    {
        lemma_with_member();
        Self::lemma_spelling();
    }

    /// How the keys are spelled, as far as it takes to tell them apart.
    proof fn lemma_spelling()
        ensures
            "$ref"@.len() == 4,
            "value"@.len() == 5,
            "description"@.len() == 11,
            "name"@.len() == 4,
            "$ref"@[0] == '$',
            "name"@[0] == 'n',
    {
        reveal_strlit("$ref");
        reveal_strlit("value");
        reveal_strlit("description");
        reveal_strlit("name");
    }
}

impl Keys for MsEnumValue {
    open spec fn known(key: Seq<char>) -> bool {
        ||| key == "value"@
        ||| key == "description"@
        ||| key == "name"@
    }

    fn knows(key: &str) -> (b: bool) {
        same_text(key, "value")
            || same_text(key, "description")
            || same_text(key, "name")
    }
}

impl Audit for MsEnumValue {
    open spec fn ignored(t: JsonV) -> Seq<PathV> {
        match t {
            JsonV::Object(e) => unknown_keys::<MsEnumValue>(e, e.len()),
            _ => Seq::empty(),
        }
    }

    fn audit(v: &Value, at: &mut Vec<Segment>, out: &mut Vec<Vec<Segment>>) {
        let ghost start = out.model();
        let ghost base = at.model();
        proof {
            lemma_collected(start, Seq::empty(), Seq::empty(), base);
        }
        match kind_of(v) {
            Kind::Object => {},
            _ => {
                return;
            },
        }
        report_unknown::<MsEnumValue>(v, at, out);
    }

    proof fn clean(m: MsEnumValueV) {
        MsEnumValue::lemma_members(m);
        let e = Self::to_json(m)->Object_0;
        assert forall|i: int| 0 <= i < e.len() implies MsEnumValue::known(
            #[trigger] e[i].0,
        ) by {
            lemma_key_present(e, i);
            MsEnumValue::lemma_written_keys(m, e[i].0);
        }
        lemma_all_known::<MsEnumValue>(e, e.len());
    }
}

/// How an enumeration is named and modelled in generated code (`x-ms-enum`).
#[derive(Clone, Debug, PartialEq)]
pub struct MsEnum {
    /// The name of the enumeration.
    pub name: String,
    /// Whether the enumeration is open to values that the document does not
    /// list.
    pub model_as_string: bool,
    /// The values with their descriptions.
    pub values: Vec<MsEnumValue>,
}

/// The model of a [`MsEnum`].
pub struct MsEnumV {
    pub name: Seq<char>,
    pub model_as_string: bool,
    pub values: Seq<MsEnumValueV>,
}

impl Model for MsEnum {
    type M = MsEnumV;

    open spec fn model(&self) -> MsEnumV {
        MsEnumV {
            name: self.name.model(),
            model_as_string: self.model_as_string.model(),
            values: self.values.model(),
        }
    }
}

impl MsEnum {
    /// The model of the default value: every optional field absent, every list
    /// and mapping empty, every flag off.
    pub open spec fn default_model() -> MsEnumV {
        MsEnumV {
            name: Seq::empty(),
            model_as_string: false,
            values: Seq::empty(),
        }
    }
}

impl Default for MsEnum {
    fn default() -> (r: MsEnum)
        ensures
            r.model() == MsEnum::default_model(),
    {
        let r = MsEnum {
            name: String::new(),
            model_as_string: false,
            values: Vec::new(),
        };
        assert(r.model().values =~= Seq::empty());
        r
    }
}

impl Binding for MsEnum {
    open spec fn from_json(t: JsonV) -> Result<MsEnumV, DecodeErrorV> {
        match t {
            JsonV::Object(e) => {
                let name = required_field::<String>(e, "name"@);
                let model_as_string = flag_field(e, "modelAsString"@);
                let values = list_field::<MsEnumValue>(e, "values"@);
                if name is Err {
                    Err(name->Err_0)
                } else if model_as_string is Err {
                    Err(model_as_string->Err_0)
                } else if values is Err {
                    Err(values->Err_0)
                } else {
                    Ok(
                        MsEnumV {
                            name: name->Ok_0,
                            model_as_string: model_as_string->Ok_0,
                            values: values->Ok_0,
                        },
                    )
                }
            },
            _ => Err(mismatch(Expected::Object, t)),
        }
    }

    open spec fn to_json(m: MsEnumV) -> JsonV {
        let e: Members = Seq::empty();
        let e = with_member(e, "name"@, required_json::<String>(m.name));
        let e = with_member(e, "modelAsString"@, flag_json(m.model_as_string));
        let e = with_member(e, "values"@, list_json::<MsEnumValue>(m.values));
        JsonV::Object(e)
    }

    fn decode(v: &Value) -> (r: Result<MsEnum, DecodeError>) {
        match kind_of(v) {
            Kind::Object => {},
            found => {
                return Err(DecodeError::mismatch(Expected::Object, found));
            },
        }
        let name = read_required::<String>(v, "name")?;
        let model_as_string = read_flag(v, "modelAsString")?;
        let values = read_list::<MsEnumValue>(v, "values")?;
        Ok(MsEnum { name, model_as_string, values })
    }

    fn encode(&self) -> (v: Value) {
        let mut o = empty_object();
        put_required::<String>(&mut o, "name", &self.name);
        put_flag(&mut o, "modelAsString", self.model_as_string);
        put_list::<MsEnumValue>(&mut o, "values", &self.values);
        o
    }

    proof fn round_trip(m: MsEnumV) {
        let e = Self::to_json(m)->Object_0;
        Self::lemma_members(m);
        lemma_required::<String>(e, "name"@, m.name);
        lemma_flag(e, "modelAsString"@, m.model_as_string);
        lemma_list::<MsEnumValue>(e, "values"@, m.values);
    }
}

impl Record for MsEnum {
    proof fn written_as_record(m: MsEnumV) {
        Self::lemma_written_keys(m, "$ref"@);
        Self::lemma_spelling();
    }
}

impl MsEnum {
    /// Which keys are written: a required field always, an optional field where
    /// it is present, a list or a mapping where it is not empty, a flag where
    /// it is set. Nothing else is written.
    pub proof fn lemma_written_keys(m: MsEnumV, key: Seq<char>)
        ensures
            MsEnum::to_json(m) is Object,
            has_key(MsEnum::to_json(m)->Object_0, "name"@),
            has_key(MsEnum::to_json(m)->Object_0, "modelAsString"@) == (m.model_as_string),
            has_key(MsEnum::to_json(m)->Object_0, "values"@) == (m.values.len() > 0),
            has_key(MsEnum::to_json(m)->Object_0, key) ==> {
                ||| key == "name"@
                ||| key == "modelAsString"@
                ||| key == "values"@
            },
    {
        lemma_with_member();
        Self::lemma_spelling();
    }

    /// What stands under each key of what a value is written as.
    pub proof fn lemma_members(m: MsEnumV)
        ensures
            find(MsEnum::to_json(m)->Object_0, "name"@) == required_json::<String>(m.name),
            find(MsEnum::to_json(m)->Object_0, "modelAsString"@) == flag_json(m.model_as_string),
            find(MsEnum::to_json(m)->Object_0, "values"@) == list_json::<MsEnumValue>(m.values),
    {
        lemma_with_member();
        Self::lemma_spelling();
    }

    /// How the keys are spelled, as far as it takes to tell them apart.
    proof fn lemma_spelling()
        ensures
            "$ref"@.len() == 4,
            "name"@.len() == 4,
            "modelAsString"@.len() == 13,
            "values"@.len() == 6,
            "$ref"@[0] == '$',
            "name"@[0] == 'n',
    {
        reveal_strlit("$ref");
        reveal_strlit("name");
        reveal_strlit("modelAsString");
        reveal_strlit("values");
    }
}

impl Keys for MsEnum {
    open spec fn known(key: Seq<char>) -> bool {
        ||| key == "name"@
        ||| key == "modelAsString"@
        ||| key == "values"@
    }

    fn knows(key: &str) -> (b: bool) {
        same_text(key, "name")
            || same_text(key, "modelAsString")
            || same_text(key, "values")
    }
}

impl Audit for MsEnum {
    open spec fn ignored(t: JsonV) -> Seq<PathV> {
        match t {
            JsonV::Object(e) => {
                let found = unknown_keys::<MsEnum>(e, e.len());
                let found = found + ignored_under::<Vec<MsEnumValue>>(
                    find(e, "values"@),
                    "values"@,
                );
                found
            },
            _ => Seq::empty(),
        }
    }

    fn audit(v: &Value, at: &mut Vec<Segment>, out: &mut Vec<Vec<Segment>>) {
        let ghost start = out.model();
        let ghost base = at.model();
        proof {
            lemma_collected(start, Seq::empty(), Seq::empty(), base);
        }
        match kind_of(v) {
            Kind::Object => {},
            _ => {
                return;
            },
        }
        let ghost e = value_tree(*v)->Object_0;
        let ghost found = unknown_keys::<MsEnum>(e, e.len());
        report_unknown::<MsEnum>(v, at, out);
        audit_member::<Vec<MsEnumValue>>(v, "values", at, out);
        proof {
            let more = ignored_under::<Vec<MsEnumValue>>(find(e, "values"@), "values"@);
            lemma_collected(start, found, more, base);
            found = found + more;
        }
    }

    proof fn clean(m: MsEnumV) {
        MsEnum::lemma_members(m);
        let e = Self::to_json(m)->Object_0;
        assert forall|i: int| 0 <= i < e.len() implies MsEnum::known(
            #[trigger] e[i].0,
        ) by {
            lemma_key_present(e, i);
            MsEnum::lemma_written_keys(m, e[i].0);
        }
        lemma_all_known::<MsEnum>(e, e.len());
        lemma_under_clean::<Vec<MsEnumValue>>(find(e, "values"@), "values"@, m.values);
        assert(Seq::<PathV>::empty() + Seq::<PathV>::empty() =~= Seq::<PathV>::empty());
    }
}

/// How parameters are grouped into one argument of a generated method
/// (`x-ms-parameter-grouping`).
#[derive(Clone, Debug, PartialEq)]
pub struct MsParameterGrouping {
    /// The name of the group.
    pub name: Option<String>,
    /// What is appended to the name of the operation to name the group.
    pub postfix: Option<String>,
}

/// The model of a [`MsParameterGrouping`].
pub struct MsParameterGroupingV {
    pub name: Option<Seq<char>>,
    pub postfix: Option<Seq<char>>,
}

impl Model for MsParameterGrouping {
    type M = MsParameterGroupingV;

    open spec fn model(&self) -> MsParameterGroupingV {
        MsParameterGroupingV {
            name: self.name.model(),
            postfix: self.postfix.model(),
        }
    }
}

impl MsParameterGrouping {
    /// The model of the default value: every optional field absent, every list
    /// and mapping empty, every flag off.
    pub open spec fn default_model() -> MsParameterGroupingV {
        MsParameterGroupingV {
            name: None,
            postfix: None,
        }
    }
}

impl Default for MsParameterGrouping {
    fn default() -> (r: MsParameterGrouping)
        ensures
            r.model() == MsParameterGrouping::default_model(),
    {
        let r = MsParameterGrouping {
            name: None,
            postfix: None,
        };
        r
    }
}

impl Binding for MsParameterGrouping {
    open spec fn from_json(t: JsonV) -> Result<MsParameterGroupingV, DecodeErrorV> {
        match t {
            JsonV::Object(e) => {
                let name = optional_field::<String>(e, "name"@);
                let postfix = optional_field::<String>(e, "postfix"@);
                if name is Err {
                    Err(name->Err_0)
                } else if postfix is Err {
                    Err(postfix->Err_0)
                } else {
                    Ok(
                        MsParameterGroupingV {
                            name: name->Ok_0,
                            postfix: postfix->Ok_0,
                        },
                    )
                }
            },
            _ => Err(mismatch(Expected::Object, t)),
        }
    }

    open spec fn to_json(m: MsParameterGroupingV) -> JsonV {
        let e: Members = Seq::empty();
        let e = with_member(e, "name"@, optional_json::<String>(m.name));
        let e = with_member(e, "postfix"@, optional_json::<String>(m.postfix));
        JsonV::Object(e)
    }

    fn decode(v: &Value) -> (r: Result<MsParameterGrouping, DecodeError>) {
        match kind_of(v) {
            Kind::Object => {},
            found => {
                return Err(DecodeError::mismatch(Expected::Object, found));
            },
        }
        let name = read_optional::<String>(v, "name")?;
        let postfix = read_optional::<String>(v, "postfix")?;
        Ok(MsParameterGrouping { name, postfix })
    }

    fn encode(&self) -> (v: Value) {
        let mut o = empty_object();
        put_optional::<String>(&mut o, "name", &self.name);
        put_optional::<String>(&mut o, "postfix", &self.postfix);
        o
    }

    proof fn round_trip(m: MsParameterGroupingV) {
        let e = Self::to_json(m)->Object_0;
        Self::lemma_members(m);
        lemma_optional::<String>(e, "name"@, m.name);
        lemma_optional::<String>(e, "postfix"@, m.postfix);
    }
}

impl Record for MsParameterGrouping {
    proof fn written_as_record(m: MsParameterGroupingV) {
        Self::lemma_written_keys(m, "$ref"@);
        Self::lemma_spelling();
    }
}

impl MsParameterGrouping {
    /// Which keys are written: a required field always, an optional field where
    /// it is present, a list or a mapping where it is not empty, a flag where
    /// it is set. Nothing else is written.
    pub proof fn lemma_written_keys(m: MsParameterGroupingV, key: Seq<char>)
        ensures
            MsParameterGrouping::to_json(m) is Object,
            has_key(MsParameterGrouping::to_json(m)->Object_0, "name"@) == (m.name is Some),
            has_key(MsParameterGrouping::to_json(m)->Object_0, "postfix"@) == (m.postfix is Some),
            has_key(MsParameterGrouping::to_json(m)->Object_0, key) ==> {
                ||| key == "name"@
                ||| key == "postfix"@
            },
    {
        lemma_with_member();
        Self::lemma_spelling();
    }

    /// What stands under each key of what a value is written as.
    pub proof fn lemma_members(m: MsParameterGroupingV)
        ensures
            find(
                MsParameterGrouping::to_json(m)->Object_0,
                "name"@,
            ) == optional_json::<String>(m.name),
            find(
                MsParameterGrouping::to_json(m)->Object_0,
                "postfix"@,
            ) == optional_json::<String>(m.postfix),
    {
        lemma_with_member();
        Self::lemma_spelling();
    }

    /// How the keys are spelled, as far as it takes to tell them apart.
    proof fn lemma_spelling()
        ensures
            "$ref"@.len() == 4,
            "name"@.len() == 4,
            "postfix"@.len() == 7,
            "$ref"@[0] == '$',
            "name"@[0] == 'n',
    {
        reveal_strlit("$ref");
        reveal_strlit("name");
        reveal_strlit("postfix");
    }
}

impl Keys for MsParameterGrouping {
    open spec fn known(key: Seq<char>) -> bool {
        ||| key == "name"@
        ||| key == "postfix"@
    }

    fn knows(key: &str) -> (b: bool) {
        same_text(key, "name")
            || same_text(key, "postfix")
    }
}

impl Audit for MsParameterGrouping {
    open spec fn ignored(t: JsonV) -> Seq<PathV> {
        match t {
            JsonV::Object(e) => unknown_keys::<MsParameterGrouping>(e, e.len()),
            _ => Seq::empty(),
        }
    }

    fn audit(v: &Value, at: &mut Vec<Segment>, out: &mut Vec<Vec<Segment>>) {
        let ghost start = out.model();
        let ghost base = at.model();
        proof {
            lemma_collected(start, Seq::empty(), Seq::empty(), base);
        }
        match kind_of(v) {
            Kind::Object => {},
            _ => {
                return;
            },
        }
        report_unknown::<MsParameterGrouping>(v, at, out);
    }

    proof fn clean(m: MsParameterGroupingV) {
        MsParameterGrouping::lemma_members(m);
        let e = Self::to_json(m)->Object_0;
        assert forall|i: int| 0 <= i < e.len() implies MsParameterGrouping::known(
            #[trigger] e[i].0,
        ) by {
            lemma_key_present(e, i);
            MsParameterGrouping::lemma_written_keys(m, e[i].0);
        }
        lemma_all_known::<MsParameterGrouping>(e, e.len());
    }
}

} // verus!
