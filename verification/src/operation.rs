//! Operations.

use vstd::prelude::*;
use serde_json::Value;
use crate::audit::{
    audit_member, based, ignored_under, lemma_all_known, lemma_based_under, lemma_collected,
    lemma_reference_clean, lemma_under_clean, report_unknown, under_all, unknown_keys, Audit, Keys,
    ReferenceKeys,
};
use crate::autorest::{
    MsLongRunningOperationOptions, MsLongRunningOperationOptionsV, MsPageable, MsPageableV,
};
use crate::binding::{Binding, Record};
use crate::error::{
    mismatch, outcome, DecodeError, DecodeErrorV, Expected, PathV, Segment, SegmentV,
};
use crate::fields::{
    lemma_list, lemma_optional, lemma_required, lemma_with_member, list_field, list_json,
    optional_field, optional_json, put, put_list, put_optional, put_required, read_list,
    read_optional, read_required, required_field, required_json, with_member, Members,
};
use crate::json::{
    distinct_keys, empty_object, entries_of, find, has_key, kind_of, lemma_find_decreases,
    lemma_key_present, lemma_with_entry_fresh, member, members, same_text, set_member, value_tree,
    JsonV, Kind,
};
use crate::lists::{entries_from_json, entries_to_json};
use crate::model::Model;
use crate::ordered::OrderedMap;
use crate::parameter::{Parameter, ParameterV};
use crate::reference::{
    decode_reference, encode_reference, holds_reference, is_reference, lemma_reference_round_trip,
    reference_from_json, reference_to_json, RefOrV, ReferenceOr,
};
use crate::schema::{Response, ResponseV, SecurityRequirement, SecurityRequirementV};

verus! {

/// An operation on a path. Its examples hold operations again.
#[derive(Debug, PartialEq)]
pub struct Operation {
    /// What the operation does, in a line.
    pub summary: Option<String>,
    /// What the operation does, at length.
    pub description: Option<String>,
    /// The MIME types that the operation accepts.
    pub consumes: Vec<String>,
    /// The MIME types that the operation answers with.
    pub produces: Vec<String>,
    /// The transfer protocols of the operation.
    pub schemes: Vec<String>,
    /// The tags by which the operation is grouped.
    pub tags: Vec<String>,
    /// The name that identifies the operation.
    pub operation_id: Option<String>,
    /// The responses by status code or under `default`, in the order of the
    /// document. The key is required and always written.
    pub responses: OrderedMap<Response>,
    /// The parameters.
    pub parameters: Vec<ReferenceOr<Parameter>>,
    /// The security schemes that the operation asks for.
    pub security: Vec<SecurityRequirement>,
    /// How the operation pages through a list.
    pub x_ms_pageable: Option<MsPageable>,
    /// Examples of requests and responses, by name.
    pub x_ms_examples: Option<OrderedMap<ReferenceOr<Operation>>>,
    /// Whether the operation goes on after it has answered.
    pub x_ms_long_running_operation: Option<bool>,
    /// How a long-running operation is polled.
    pub x_ms_long_running_operation_options: Option<MsLongRunningOperationOptions>,
    /// Whether the operation is on its way out.
    pub deprecated: Option<bool>,
}

/// The model of a [`Operation`].
pub struct OperationV {
    pub summary: Option<Seq<char>>,
    pub description: Option<Seq<char>>,
    pub consumes: Seq<Seq<char>>,
    pub produces: Seq<Seq<char>>,
    pub schemes: Seq<Seq<char>>,
    pub tags: Seq<Seq<char>>,
    pub operation_id: Option<Seq<char>>,
    pub responses: Seq<(Seq<char>, ResponseV)>,
    pub parameters: Seq<RefOrV<ParameterV>>,
    pub security: Seq<SecurityRequirementV>,
    pub x_ms_pageable: Option<MsPageableV>,
    pub x_ms_examples: Option<Seq<(Seq<char>, RefOrV<OperationV>)>>,
    pub x_ms_long_running_operation: Option<bool>,
    pub x_ms_long_running_operation_options: Option<MsLongRunningOperationOptionsV>,
    pub deprecated: Option<bool>,
}

impl Operation {
    /// The model of an operation.
    pub open spec fn model_of(self) -> OperationV
        decreases self,
    {
        OperationV {
            summary: self.summary.model(),
            description: self.description.model(),
            consumes: self.consumes.model(),
            produces: self.produces.model(),
            schemes: self.schemes.model(),
            tags: self.tags.model(),
            operation_id: self.operation_id.model(),
            responses: self.responses.model(),
            parameters: self.parameters.model(),
            security: self.security.model(),
            x_ms_pageable: self.x_ms_pageable.model(),
            x_ms_examples: match self.x_ms_examples {
                Some(map) => Some(Operation::ref_entries_model(map)),
                None => None,
            },
            x_ms_long_running_operation: self.x_ms_long_running_operation.model(),
            x_ms_long_running_operation_options: self.x_ms_long_running_operation_options.model(),
            deprecated: self.deprecated.model(),
        }
    }

    /// The model of a mapping to operations and references.
    pub open spec fn ref_entries_model(map: OrderedMap<ReferenceOr<Operation>>) -> Seq<
        (Seq<char>, RefOrV<OperationV>),
    >
        decreases map,
        via Self::ref_entries_model_ends
    {
        Seq::new(
            map.entries().len(),
            |i: int|
                if 0 <= i < map.entries().len() {
                    (map.entries()[i].0, Self::ref_model(map.entries()[i].1))
                } else {
                    arbitrary()
                },
        )
    }

    #[via_fn]
    proof fn ref_entries_model_ends(map: OrderedMap<ReferenceOr<Operation>>) {
        assert forall|i: int| 0 <= i < map.entries().len() implies decreases_to!(
            map => #[trigger] map.entries()[i].1,
        ) by {
            map.lemma_value_decreases(i);
        }
    }

    /// The model of an operation or of a reference to one.
    pub open spec fn ref_model(r: ReferenceOr<Operation>) -> RefOrV<OperationV>
        decreases r,
    {
        match r {
            ReferenceOr::Reference {
                reference,
                title,
                description,
                type_,
                read_only,
                x_ms_client_flatten,
            } => RefOrV::Reference {
                reference: reference.model(),
                title: title.model(),
                description: description.model(),
                type_: type_.model(),
                read_only: read_only.model(),
                x_ms_client_flatten: x_ms_client_flatten.model(),
            },
            ReferenceOr::Item(x) => RefOrV::Item(x.model_of()),
        }
    }
}

impl Model for Operation {
    type M = OperationV;

    open spec fn model(&self) -> OperationV {
        self.model_of()
    }
}

impl Operation {
    /// The model of the default value: every optional field absent, every list
    /// and mapping empty, every flag off.
    pub open spec fn default_model() -> OperationV {
        OperationV {
            summary: None,
            description: None,
            consumes: Seq::empty(),
            produces: Seq::empty(),
            schemes: Seq::empty(),
            tags: Seq::empty(),
            operation_id: None,
            responses: Seq::empty(),
            parameters: Seq::empty(),
            security: Seq::empty(),
            x_ms_pageable: None,
            x_ms_examples: None,
            x_ms_long_running_operation: None,
            x_ms_long_running_operation_options: None,
            deprecated: None,
        }
    }
}

impl Default for Operation {
    fn default() -> (r: Operation)
        ensures
            r.model() == Operation::default_model(),
    {
        let r = Operation {
            summary: None,
            description: None,
            consumes: Vec::new(),
            produces: Vec::new(),
            schemes: Vec::new(),
            tags: Vec::new(),
            operation_id: None,
            responses: OrderedMap::new(),
            parameters: Vec::new(),
            security: Vec::new(),
            x_ms_pageable: None,
            x_ms_examples: None,
            x_ms_long_running_operation: None,
            x_ms_long_running_operation_options: None,
            deprecated: None,
        };
        assert(r.model_of().consumes =~= Seq::empty());
        assert(r.model_of().produces =~= Seq::empty());
        assert(r.model_of().schemes =~= Seq::empty());
        assert(r.model_of().tags =~= Seq::empty());
        assert(r.model_of().responses =~= Seq::empty());
        assert(r.model_of().parameters =~= Seq::empty());
        assert(r.model_of().security =~= Seq::empty());
        r
    }
}

/// The operation that a tree is read as.
pub open spec fn operation_from_json(t: JsonV) -> Result<OperationV, DecodeErrorV>
    decreases t, 1nat,
{
    match t {
        JsonV::Object(e) => {
            let summary = optional_field::<String>(e, "summary"@);
            let description = optional_field::<String>(e, "description"@);
            let consumes = list_field::<String>(e, "consumes"@);
            let produces = list_field::<String>(e, "produces"@);
            let schemes = list_field::<String>(e, "schemes"@);
            let tags = list_field::<String>(e, "tags"@);
            let operation_id = optional_field::<String>(e, "operationId"@);
            let responses = required_field::<OrderedMap<Response>>(e, "responses"@);
            let parameters = list_field::<ReferenceOr<Parameter>>(e, "parameters"@);
            let security = list_field::<SecurityRequirement>(e, "security"@);
            let x_ms_pageable = optional_field::<MsPageable>(e, "x-ms-pageable"@);
            let x_ms_examples = operation_optional_ref_map_field(e, "x-ms-examples"@);
            let x_ms_long_running_operation = optional_field::<bool>(
                e,
                "x-ms-long-running-operation"@,
            );
            let x_ms_long_running_operation_options = optional_field::<MsLongRunningOperationOptions>(
                e,
                "x-ms-long-running-operation-options"@,
            );
            let deprecated = optional_field::<bool>(e, "deprecated"@);
            if summary is Err {
                Err(summary->Err_0)
            } else if description is Err {
                Err(description->Err_0)
            } else if consumes is Err {
                Err(consumes->Err_0)
            } else if produces is Err {
                Err(produces->Err_0)
            } else if schemes is Err {
                Err(schemes->Err_0)
            } else if tags is Err {
                Err(tags->Err_0)
            } else if operation_id is Err {
                Err(operation_id->Err_0)
            } else if responses is Err {
                Err(responses->Err_0)
            } else if parameters is Err {
                Err(parameters->Err_0)
            } else if security is Err {
                Err(security->Err_0)
            } else if x_ms_pageable is Err {
                Err(x_ms_pageable->Err_0)
            } else if x_ms_examples is Err {
                Err(x_ms_examples->Err_0)
            } else if x_ms_long_running_operation is Err {
                Err(x_ms_long_running_operation->Err_0)
            } else if x_ms_long_running_operation_options is Err {
                Err(x_ms_long_running_operation_options->Err_0)
            } else if deprecated is Err {
                Err(deprecated->Err_0)
            } else {
                Ok(
                    OperationV {
                        summary: summary->Ok_0,
                        description: description->Ok_0,
                        consumes: consumes->Ok_0,
                        produces: produces->Ok_0,
                        schemes: schemes->Ok_0,
                        tags: tags->Ok_0,
                        operation_id: operation_id->Ok_0,
                        responses: responses->Ok_0,
                        parameters: parameters->Ok_0,
                        security: security->Ok_0,
                        x_ms_pageable: x_ms_pageable->Ok_0,
                        x_ms_examples: x_ms_examples->Ok_0,
                        x_ms_long_running_operation: x_ms_long_running_operation->Ok_0,
                        x_ms_long_running_operation_options: x_ms_long_running_operation_options->Ok_0,
                        deprecated: deprecated->Ok_0,
                    },
                )
            }
        },
        _ => Err(mismatch(Expected::Object, t)),
    }
}

/// The operation or the reference that a tree is read as.
pub open spec fn operation_ref_from_json(t: JsonV) -> Result<RefOrV<OperationV>, DecodeErrorV>
    decreases t, 2nat,
{
    if is_reference(t) {
        reference_from_json::<OperationV>(t->Object_0)
    } else {
        match operation_from_json(t) {
            Ok(x) => Ok(RefOrV::Item(x)),
            Err(e) => Err(e),
        }
    }
}

/// The first `n` members of an object, each read as an operation or a reference
/// under its key. The first member that is rejected decides the error,
/// reported under its key.
pub open spec fn operation_ref_entries_prefix(entries: Members, n: nat) -> Result<
    Seq<(Seq<char>, RefOrV<OperationV>)>,
    DecodeErrorV,
>
    decreases entries, n,
{
    if n == 0 || n > entries.len() {
        Ok(Seq::empty())
    } else {
        match operation_ref_entries_prefix(entries, (n - 1) as nat) {
            Err(e) => Err(e),
            Ok(head) => match operation_ref_from_json(entries[n - 1].1) {
                Err(e) => Err(e.under_key(entries[n - 1].0)),
                Ok(x) => Ok(head.push((entries[n - 1].0, x))),
            },
        }
    }
}

/// The mapping that an object is read as.
pub open spec fn operation_ref_map_from_json(t: JsonV) -> Result<
    Seq<(Seq<char>, RefOrV<OperationV>)>,
    DecodeErrorV,
>
    decreases t, 0nat,
{
    match t {
        JsonV::Object(entries) => operation_ref_entries_prefix(entries, entries.len()),
        _ => Err(mismatch(Expected::Object, t)),
    }
}

/// An optional mapping to operations and references.
pub open spec fn operation_optional_ref_map_field(e: Members, key: Seq<char>) -> Result<
    Option<Seq<(Seq<char>, RefOrV<OperationV>)>>,
    DecodeErrorV,
>
    decreases e, 0nat,
{
    proof {
        lemma_find_decreases(e, key);
    }
    match find(e, key) {
        None => Ok(None),
        Some(JsonV::Null) => Ok(None),
        Some(t) => match operation_ref_map_from_json(t) {
            Ok(x) => Ok(Some(x)),
            Err(err) => Err(err.under_key(key)),
        },
    }
}

/// The tree that an operation is written as.
pub open spec fn operation_to_json(m: OperationV) -> JsonV
    decreases m, 1nat,
{
    let e: Members = Seq::empty();
    let e = with_member(e, "summary"@, optional_json::<String>(m.summary));
    let e = with_member(e, "description"@, optional_json::<String>(m.description));
    let e = with_member(e, "consumes"@, list_json::<String>(m.consumes));
    let e = with_member(e, "produces"@, list_json::<String>(m.produces));
    let e = with_member(e, "schemes"@, list_json::<String>(m.schemes));
    let e = with_member(e, "tags"@, list_json::<String>(m.tags));
    let e = with_member(e, "operationId"@, optional_json::<String>(m.operation_id));
    let e = with_member(e, "responses"@, required_json::<OrderedMap<Response>>(m.responses));
    let e = with_member(e, "parameters"@, list_json::<ReferenceOr<Parameter>>(m.parameters));
    let e = with_member(e, "security"@, list_json::<SecurityRequirement>(m.security));
    let e = with_member(e, "x-ms-pageable"@, optional_json::<MsPageable>(m.x_ms_pageable));
    let e = with_member(e, "x-ms-examples"@, operation_optional_ref_map_json(m.x_ms_examples));
    let e = with_member(
        e,
        "x-ms-long-running-operation"@,
        optional_json::<bool>(m.x_ms_long_running_operation),
    );
    let e = with_member(
        e,
        "x-ms-long-running-operation-options"@,
        optional_json::<MsLongRunningOperationOptions>(m.x_ms_long_running_operation_options),
    );
    let e = with_member(e, "deprecated"@, optional_json::<bool>(m.deprecated));
    JsonV::Object(e)
}

/// The tree that an operation or a reference is written as.
pub open spec fn operation_ref_to_json(m: RefOrV<OperationV>) -> JsonV
    decreases m, 2nat,
{
    match m {
        RefOrV::Reference {
            reference,
            title,
            description,
            type_,
            read_only,
            x_ms_client_flatten,
        } => reference_to_json(
            reference,
            title,
            description,
            type_,
            read_only,
            x_ms_client_flatten,
        ),
        RefOrV::Item(x) => operation_to_json(x),
    }
}

/// The members that a mapping to operations and references is written as.
pub open spec fn operation_ref_entries_to_json(m: Seq<(Seq<char>, RefOrV<OperationV>)>) -> Members
    decreases m, 0nat,
{
    Seq::new(
        m.len(),
        |i: int|
            if 0 <= i < m.len() {
                (m[i].0, operation_ref_to_json(m[i].1))
            } else {
                (Seq::empty(), JsonV::Null)
            },
    )
}

/// How an optional mapping to operations and references is written.
pub open spec fn operation_optional_ref_map_json(
    m: Option<Seq<(Seq<char>, RefOrV<OperationV>)>>,
) -> Option<JsonV>
    decreases m, 1nat,
{
    match m {
        Some(x) => Some(JsonV::Object(operation_ref_entries_to_json(x))),
        None => None,
    }
}

/// Reading what an operation was written as gives it back.
pub proof fn lemma_operation_round_trip(m: OperationV)
    ensures
        operation_from_json(operation_to_json(m)) == Ok::<OperationV, DecodeErrorV>(m),
    decreases m, 1nat,
{
    let e = operation_to_json(m)->Object_0;
    Operation::lemma_members(m);
    lemma_optional::<String>(e, "summary"@, m.summary);
    lemma_optional::<String>(e, "description"@, m.description);
    lemma_list::<String>(e, "consumes"@, m.consumes);
    lemma_list::<String>(e, "produces"@, m.produces);
    lemma_list::<String>(e, "schemes"@, m.schemes);
    lemma_list::<String>(e, "tags"@, m.tags);
    lemma_optional::<String>(e, "operationId"@, m.operation_id);
    lemma_required::<OrderedMap<Response>>(e, "responses"@, m.responses);
    lemma_list::<ReferenceOr<Parameter>>(e, "parameters"@, m.parameters);
    lemma_list::<SecurityRequirement>(e, "security"@, m.security);
    lemma_optional::<MsPageable>(e, "x-ms-pageable"@, m.x_ms_pageable);
    lemma_operation_optional_ref_map(e, "x-ms-examples"@, m.x_ms_examples);
    lemma_optional::<bool>(e, "x-ms-long-running-operation"@, m.x_ms_long_running_operation);
    lemma_optional::<MsLongRunningOperationOptions>(
        e,
        "x-ms-long-running-operation-options"@,
        m.x_ms_long_running_operation_options,
    );
    lemma_optional::<bool>(e, "deprecated"@, m.deprecated);
}

/// Reading what an operation or a reference was written as gives it back.
pub proof fn lemma_operation_ref_round_trip(m: RefOrV<OperationV>)
    ensures
        operation_ref_from_json(
            operation_ref_to_json(m),
        ) == Ok::<RefOrV<OperationV>, DecodeErrorV>(m),
        !(operation_ref_to_json(m) is Null),
    decreases m, 2nat,
{
    match m {
        RefOrV::Reference {
            reference,
            title,
            description,
            type_,
            read_only,
            x_ms_client_flatten,
        } => {
            lemma_reference_round_trip::<OperationV>(
                reference,
                title,
                description,
                type_,
                read_only,
                x_ms_client_flatten,
            );
        },
        RefOrV::Item(x) => {
            Operation::lemma_written_keys(x, "$ref"@);
            Operation::lemma_spelling();
            lemma_operation_round_trip(x);
        },
    }
}

/// The members of a mapping are read back from what they were written as.
proof fn lemma_operation_ref_entries_round_trip(m: Seq<(Seq<char>, RefOrV<OperationV>)>, n: nat)
    requires
        n <= m.len(),
    ensures
        operation_ref_entries_prefix(operation_ref_entries_to_json(m), n) == Ok::<
            Seq<(Seq<char>, RefOrV<OperationV>)>,
            DecodeErrorV,
        >(m.take(n as int)),
    decreases m, n,
{
    if n == 0 {
        assert(m.take(0) =~= Seq::empty());
    } else {
        lemma_operation_ref_entries_round_trip(m, (n - 1) as nat);
        lemma_operation_ref_round_trip(m[n - 1].1);
        assert(m.take(n as int) =~= m.take(n - 1).push(m[n - 1]));
    }
}

/// Once a member is rejected, the error stands for every longer prefix.
proof fn lemma_operation_ref_entries_fail(entries: Members, k: nat, n: nat)
    requires
        k <= n <= entries.len(),
        operation_ref_entries_prefix(entries, k) is Err,
    ensures
        operation_ref_entries_prefix(entries, n) == operation_ref_entries_prefix(entries, k),
    decreases n,
{
    if k < n {
        lemma_operation_ref_entries_fail(entries, k, (n - 1) as nat);
    }
}

/// Order preservation from reading to writing: an object that is read as a
/// mapping to operations and references is written back with its keys in the
/// order in which they came.
pub proof fn lemma_operation_ref_map_order(entries: Members)
    ensures
        operation_ref_map_from_json(JsonV::Object(entries)) matches Ok(m) ==> {
            let written = operation_ref_entries_to_json(m);
            &&& written.len() == entries.len()
            &&& forall|i: int| 0 <= i < entries.len() ==> (#[trigger] written[i]).0 == entries[i].0
        },
{
    lemma_operation_ref_entries_keep_keys(entries, entries.len());
}

/// Order preservation on reading: the members that are read keep the keys of
/// the object, each at its position.
pub proof fn lemma_operation_ref_entries_keep_keys(entries: Members, n: nat)
    requires
        n <= entries.len(),
    ensures
        operation_ref_entries_prefix(entries, n) matches Ok(r) ==> {
            &&& r.len() == n
            &&& forall|i: int| 0 <= i < n ==> (#[trigger] r[i]).0 == entries[i].0
        },
    decreases n,
{
    if n > 0 {
        lemma_operation_ref_entries_keep_keys(entries, (n - 1) as nat);
    }
}

/// An optional mapping to operations and references is read back from what it
/// was written as.
proof fn lemma_operation_optional_ref_map(
    e: Members,
    key: Seq<char>,
    m: Option<Seq<(Seq<char>, RefOrV<OperationV>)>>,
)
    requires
        find(e, key) == operation_optional_ref_map_json(m),
    ensures
        operation_optional_ref_map_field(e, key) == Ok::<
            Option<Seq<(Seq<char>, RefOrV<OperationV>)>>,
            DecodeErrorV,
        >(m),
    decreases m, 1nat,
{
    if m is Some {
        let x = m->0;
        lemma_operation_ref_entries_round_trip(x, x.len());
        assert(x.take(x.len() as int) =~= x);
    }
}

/// Reads an operation.
pub fn decode_operation(v: &Value) -> (r: Result<Operation, DecodeError>)
    ensures
        outcome(r) == operation_from_json(value_tree(*v)),
    decreases value_tree(*v), 1nat,
{
    match kind_of(v) {
        Kind::Object => {},
        found => {
            return Err(DecodeError::mismatch(Expected::Object, found));
        },
    }
    let summary = read_optional::<String>(v, "summary")?;
    let description = read_optional::<String>(v, "description")?;
    let consumes = read_list::<String>(v, "consumes")?;
    let produces = read_list::<String>(v, "produces")?;
    let schemes = read_list::<String>(v, "schemes")?;
    let tags = read_list::<String>(v, "tags")?;
    let operation_id = read_optional::<String>(v, "operationId")?;
    let responses = read_required::<OrderedMap<Response>>(v, "responses")?;
    let parameters = read_list::<ReferenceOr<Parameter>>(v, "parameters")?;
    let security = read_list::<SecurityRequirement>(v, "security")?;
    let x_ms_pageable = read_optional::<MsPageable>(v, "x-ms-pageable")?;
    let x_ms_examples = read_operation_optional_ref_map(v, "x-ms-examples")?;
    let x_ms_long_running_operation = read_optional::<bool>(v, "x-ms-long-running-operation")?;
    let x_ms_long_running_operation_options = read_optional::<MsLongRunningOperationOptions>(
        v,
        "x-ms-long-running-operation-options",
    )?;
    let deprecated = read_optional::<bool>(v, "deprecated")?;
    let ghost x_ms_examples_model = x_ms_examples.model();
    let s = Operation {
        summary,
        description,
        consumes,
        produces,
        schemes,
        tags,
        operation_id,
        responses,
        parameters,
        security,
        x_ms_pageable,
        x_ms_examples,
        x_ms_long_running_operation,
        x_ms_long_running_operation_options,
        deprecated,
    };
    assert(s.model_of().x_ms_examples =~= x_ms_examples_model);
    Ok(s)
}

/// Reads an operation or a reference.
pub fn decode_operation_ref(v: &Value) -> (r: Result<ReferenceOr<Operation>, DecodeError>)
    ensures
        outcome(r) == operation_ref_from_json(value_tree(*v)),
    decreases value_tree(*v), 2nat,
{
    if holds_reference(v) {
        decode_reference::<Operation>(v)
    } else {
        match decode_operation(v) {
            Ok(x) => Ok(ReferenceOr::Item(x)),
            Err(e) => Err(e),
        }
    }
}

/// Reads a mapping to operations and references.
fn decode_operation_ref_map(
    v: &Value,
) -> (r: Result<OrderedMap<ReferenceOr<Operation>>, DecodeError>)
    ensures
        outcome(r) == operation_ref_map_from_json(value_tree(*v)),
    decreases value_tree(*v), 0nat,
{
    match entries_of(v) {
        None => Err(DecodeError::mismatch(Expected::Object, kind_of(v))),
        Some(source) => {
            let ghost entries = value_tree(*v)->Object_0;
            let mut out: OrderedMap<ReferenceOr<Operation>> = OrderedMap::new();
            let mut i: usize = 0;
            assert(out.model() =~= Seq::empty());
            while i < source.len()
                invariant
                    0 <= i <= source.len(),
                    value_tree(*v) == JsonV::Object(entries),
                    members(source@) == entries,
                    distinct_keys(entries),
                    operation_ref_entries_prefix(entries, i as nat) == Ok::<
                        Seq<(Seq<char>, RefOrV<OperationV>)>,
                        DecodeErrorV,
                    >(out.model()),
                decreases source.len() - i,
            {
                assert(entries[i as int] == (
                    source@[i as int].0@,
                    value_tree(*source@[i as int].1),
                ));
                let pair = &source[i];
                assert(value_tree(*pair.1) == entries[i as int].1);
                match decode_operation_ref(pair.1) {
                    Err(e) => {
                        proof {
                            lemma_operation_ref_entries_fail(
                                entries,
                                (i + 1) as nat,
                                entries.len(),
                            );
                        }
                        return Err(e.under_key(pair.0.as_str()));
                    },
                    Ok(x) => {
                        let ghost before = out.entries();
                        let ghost before_model = out.model();
                        proof {
                            lemma_operation_ref_entries_keep_keys(entries, i as nat);
                            assert forall|k: int| 0 <= k < before.len() implies (
                            #[trigger] before[k]).0 != pair.0@ by {
                                assert(before_model[k].0 == before[k].0);
                            }
                            lemma_with_entry_fresh(before, pair.0@, x);
                        }
                        out.insert(pair.0.clone(), x);
                        assert(out.model() =~= before_model.push((pair.0@, x.model())));
                    },
                }
                i += 1;
            }
            Ok(out)
        },
    }
}

/// Reads an optional mapping to operations and references.
fn read_operation_optional_ref_map(v: &Value, key: &str) -> (r: Result<
    Option<OrderedMap<ReferenceOr<Operation>>>,
    DecodeError,
>)
    requires
        value_tree(*v) is Object,
    ensures
        outcome(r) == operation_optional_ref_map_field(value_tree(*v)->Object_0, key@),
    decreases value_tree(*v), 0nat,
{
    proof {
        lemma_find_decreases(value_tree(*v)->Object_0, key@);
    }
    match member(v, key) {
        None => Ok(None),
        Some(x) => match kind_of(x) {
            Kind::Null => Ok(None),
            _ => match decode_operation_ref_map(x) {
                Ok(m) => Ok(Some(m)),
                Err(e) => Err(e.under_key(key)),
            },
        },
    }
}

/// Writes an operation.
pub fn encode_operation(s: &Operation) -> (v: Value)
    ensures
        value_tree(v) == operation_to_json(s.model_of()),
    decreases s, 1nat,
{
    let mut o = empty_object();
    put_optional::<String>(&mut o, "summary", &s.summary);
    put_optional::<String>(&mut o, "description", &s.description);
    put_list::<String>(&mut o, "consumes", &s.consumes);
    put_list::<String>(&mut o, "produces", &s.produces);
    put_list::<String>(&mut o, "schemes", &s.schemes);
    put_list::<String>(&mut o, "tags", &s.tags);
    put_optional::<String>(&mut o, "operationId", &s.operation_id);
    put_required::<OrderedMap<Response>>(&mut o, "responses", &s.responses);
    put_list::<ReferenceOr<Parameter>>(&mut o, "parameters", &s.parameters);
    put_list::<SecurityRequirement>(&mut o, "security", &s.security);
    put_optional::<MsPageable>(&mut o, "x-ms-pageable", &s.x_ms_pageable);
    put_operation_optional_ref_map(&mut o, "x-ms-examples", &s.x_ms_examples);
    put_optional::<bool>(&mut o, "x-ms-long-running-operation", &s.x_ms_long_running_operation);
    put_optional::<MsLongRunningOperationOptions>(
        &mut o,
        "x-ms-long-running-operation-options",
        &s.x_ms_long_running_operation_options,
    );
    put_optional::<bool>(&mut o, "deprecated", &s.deprecated);
    o
}

/// Writes an operation or a reference.
pub fn encode_operation_ref(r: &ReferenceOr<Operation>) -> (v: Value)
    ensures
        value_tree(v) == operation_ref_to_json(Operation::ref_model(*r)),
    decreases r, 2nat,
{
    match r {
        ReferenceOr::Reference {
            reference,
            title,
            description,
            type_,
            read_only,
            x_ms_client_flatten,
        } => encode_reference(
            reference,
            title,
            description,
            type_,
            read_only,
            x_ms_client_flatten,
        ),
        ReferenceOr::Item(x) => encode_operation(x),
    }
}

/// Writes a mapping to operations and references.
fn encode_operation_ref_map(value: &OrderedMap<ReferenceOr<Operation>>) -> (v: Value)
    ensures
        value_tree(v) == JsonV::Object(
            operation_ref_entries_to_json(Operation::ref_entries_model(*value)),
        ),
    decreases value, 0nat,
{
    let ghost m = Operation::ref_entries_model(*value);
    let ghost written = operation_ref_entries_to_json(m);
    let mut out = empty_object();
    let mut i: usize = 0;
    proof {
        value.lemma_distinct();
    }
    while i < value.len()
        invariant
            0 <= i <= value.entries().len(),
            m.len() == value.entries().len(),
            forall|k: int|
                0 <= k < m.len() ==> #[trigger] m[k] == (
                    value.entries()[k].0,
                    Operation::ref_model(value.entries()[k].1),
                ),
            written == operation_ref_entries_to_json(m),
            distinct_keys(value.entries()),
            value_tree(out) is Object,
            value_tree(out)->Object_0 =~= written.take(i as int),
        decreases value.entries().len() - i,
    {
        let key = value.key_at(i);
        proof {
            value.lemma_value_decreases(i as int);
        }
        let item = encode_operation_ref(value.value_at(i));
        proof {
            let sofar = value_tree(out)->Object_0;
            assert forall|k: int| 0 <= k < sofar.len() implies (#[trigger] sofar[k]).0 != key@ by {
                assert(sofar[k].0 == value.entries()[k].0);
            }
            lemma_with_entry_fresh(sofar, key@, value_tree(item));
            assert(written.take(i + 1) =~= written.take(i as int).push(written[i as int]));
        }
        set_member(&mut out, key.clone(), item);
        i += 1;
    }
    assert(written.take(i as int) =~= written);
    out
}

/// Writes an optional mapping to operations and references.
fn put_operation_optional_ref_map(
    object: &mut Value,
    key: &str,
    value: &Option<OrderedMap<ReferenceOr<Operation>>>,
)
    requires
        value_tree(*old(object)) is Object,
    ensures
        value_tree(*final(object)) == JsonV::Object(
            with_member(
                value_tree(*old(object))->Object_0,
                key@,
                operation_optional_ref_map_json(
                    match *value {
                        Some(map) => Some(Operation::ref_entries_model(map)),
                        None => None,
                    },
                ),
            ),
        ),
    decreases value, 1nat,
{
    let written = match value {
        Some(map) => Some(encode_operation_ref_map(map)),
        None => None,
    };
    put(object, key, written);
}

impl Binding for Operation {
    open spec fn from_json(t: JsonV) -> Result<OperationV, DecodeErrorV> {
        operation_from_json(t)
    }

    open spec fn to_json(m: OperationV) -> JsonV {
        operation_to_json(m)
    }

    fn decode(v: &Value) -> (r: Result<Operation, DecodeError>) {
        decode_operation(v)
    }

    fn encode(&self) -> (v: Value) {
        encode_operation(self)
    }

    proof fn round_trip(m: OperationV) {
        lemma_operation_round_trip(m);
    }
}

impl Record for Operation {
    proof fn written_as_record(m: OperationV) {
        Operation::lemma_written_keys(m, "$ref"@);
        Operation::lemma_spelling();
    }
}

impl Clone for Operation {
    /// A deep copy, made by writing the operation and reading it back.
    fn clone(&self) -> (r: Operation)
        ensures
            r.model() == self.model(),
    {
        let written = encode_operation(self);
        proof {
            lemma_operation_round_trip(self.model_of());
        }
        match decode_operation(&written) {
            Ok(copy) => copy,
            Err(_) => vstd::pervasive::unreached(),
        }
    }
}

impl Operation {
    /// Which keys are written: a required field always, an optional field where
    /// it is present, a list or a mapping where it is not empty, a flag where
    /// it is set. Nothing else is written.
    pub proof fn lemma_written_keys(m: OperationV, key: Seq<char>)
        ensures
            operation_to_json(m) is Object,
            has_key(operation_to_json(m)->Object_0, "summary"@) == (m.summary is Some),
            has_key(operation_to_json(m)->Object_0, "description"@) == (m.description is Some),
            has_key(operation_to_json(m)->Object_0, "consumes"@) == (m.consumes.len() > 0),
            has_key(operation_to_json(m)->Object_0, "produces"@) == (m.produces.len() > 0),
            has_key(operation_to_json(m)->Object_0, "schemes"@) == (m.schemes.len() > 0),
            has_key(operation_to_json(m)->Object_0, "tags"@) == (m.tags.len() > 0),
            has_key(operation_to_json(m)->Object_0, "operationId"@) == (m.operation_id is Some),
            has_key(operation_to_json(m)->Object_0, "responses"@),
            has_key(operation_to_json(m)->Object_0, "parameters"@) == (m.parameters.len() > 0),
            has_key(operation_to_json(m)->Object_0, "security"@) == (m.security.len() > 0),
            has_key(operation_to_json(m)->Object_0, "x-ms-pageable"@) == (m.x_ms_pageable is Some),
            has_key(operation_to_json(m)->Object_0, "x-ms-examples"@) == (m.x_ms_examples is Some),
            has_key(
                operation_to_json(m)->Object_0,
                "x-ms-long-running-operation"@,
            ) == (m.x_ms_long_running_operation is Some),
            has_key(
                operation_to_json(m)->Object_0,
                "x-ms-long-running-operation-options"@,
            ) == (m.x_ms_long_running_operation_options is Some),
            has_key(operation_to_json(m)->Object_0, "deprecated"@) == (m.deprecated is Some),
            has_key(operation_to_json(m)->Object_0, key) ==> {
                ||| key == "summary"@
                ||| key == "description"@
                ||| key == "consumes"@
                ||| key == "produces"@
                ||| key == "schemes"@
                ||| key == "tags"@
                ||| key == "operationId"@
                ||| key == "responses"@
                ||| key == "parameters"@
                ||| key == "security"@
                ||| key == "x-ms-pageable"@
                ||| key == "x-ms-examples"@
                ||| key == "x-ms-long-running-operation"@
                ||| key == "x-ms-long-running-operation-options"@
                ||| key == "deprecated"@
            },
    {
        lemma_with_member();
        Self::lemma_spelling();
    }

    /// What stands under each key of what a value is written as.
    pub proof fn lemma_members(m: OperationV)
        ensures
            find(operation_to_json(m)->Object_0, "summary"@) == optional_json::<String>(m.summary),
            find(
                operation_to_json(m)->Object_0,
                "description"@,
            ) == optional_json::<String>(m.description),
            find(operation_to_json(m)->Object_0, "consumes"@) == list_json::<String>(m.consumes),
            find(operation_to_json(m)->Object_0, "produces"@) == list_json::<String>(m.produces),
            find(operation_to_json(m)->Object_0, "schemes"@) == list_json::<String>(m.schemes),
            find(operation_to_json(m)->Object_0, "tags"@) == list_json::<String>(m.tags),
            find(
                operation_to_json(m)->Object_0,
                "operationId"@,
            ) == optional_json::<String>(m.operation_id),
            find(
                operation_to_json(m)->Object_0,
                "responses"@,
            ) == required_json::<OrderedMap<Response>>(m.responses),
            find(
                operation_to_json(m)->Object_0,
                "parameters"@,
            ) == list_json::<ReferenceOr<Parameter>>(m.parameters),
            find(
                operation_to_json(m)->Object_0,
                "security"@,
            ) == list_json::<SecurityRequirement>(m.security),
            find(
                operation_to_json(m)->Object_0,
                "x-ms-pageable"@,
            ) == optional_json::<MsPageable>(m.x_ms_pageable),
            find(
                operation_to_json(m)->Object_0,
                "x-ms-examples"@,
            ) == operation_optional_ref_map_json(m.x_ms_examples),
            find(
                operation_to_json(m)->Object_0,
                "x-ms-long-running-operation"@,
            ) == optional_json::<bool>(m.x_ms_long_running_operation),
            find(
                operation_to_json(m)->Object_0,
                "x-ms-long-running-operation-options"@,
            ) == optional_json::<MsLongRunningOperationOptions>(
                m.x_ms_long_running_operation_options,
            ),
            find(
                operation_to_json(m)->Object_0,
                "deprecated"@,
            ) == optional_json::<bool>(m.deprecated),
    {
        lemma_with_member();
        Self::lemma_spelling();
    }

    /// How the keys are spelled, as far as it takes to tell them apart.
    proof fn lemma_spelling()
        ensures
            "$ref"@.len() == 4,
            "summary"@.len() == 7,
            "description"@.len() == 11,
            "consumes"@.len() == 8,
            "produces"@.len() == 8,
            "schemes"@.len() == 7,
            "tags"@.len() == 4,
            "operationId"@.len() == 11,
            "responses"@.len() == 9,
            "parameters"@.len() == 10,
            "security"@.len() == 8,
            "x-ms-pageable"@.len() == 13,
            "x-ms-examples"@.len() == 13,
            "x-ms-long-running-operation"@.len() == 27,
            "x-ms-long-running-operation-options"@.len() == 35,
            "deprecated"@.len() == 10,
            "$ref"@[0] == '$',
            "tags"@[0] == 't',
            "summary"@[1] == 'u',
            "schemes"@[1] == 'c',
            "description"@[0] == 'd',
            "operationId"@[0] == 'o',
            "consumes"@[0] == 'c',
            "produces"@[0] == 'p',
            "security"@[0] == 's',
            "parameters"@[0] == 'p',
            "deprecated"@[0] == 'd',
            "x-ms-pageable"@[5] == 'p',
            "x-ms-examples"@[5] == 'e',
    {
        reveal_strlit("$ref");
        reveal_strlit("summary");
        reveal_strlit("description");
        reveal_strlit("consumes");
        reveal_strlit("produces");
        reveal_strlit("schemes");
        reveal_strlit("tags");
        reveal_strlit("operationId");
        reveal_strlit("responses");
        reveal_strlit("parameters");
        reveal_strlit("security");
        reveal_strlit("x-ms-pageable");
        reveal_strlit("x-ms-examples");
        reveal_strlit("x-ms-long-running-operation");
        reveal_strlit("x-ms-long-running-operation-options");
        reveal_strlit("deprecated");
    }
}

impl Keys for Operation {
    open spec fn known(key: Seq<char>) -> bool {
        ||| key == "summary"@
        ||| key == "description"@
        ||| key == "consumes"@
        ||| key == "produces"@
        ||| key == "schemes"@
        ||| key == "tags"@
        ||| key == "operationId"@
        ||| key == "responses"@
        ||| key == "parameters"@
        ||| key == "security"@
        ||| key == "x-ms-pageable"@
        ||| key == "x-ms-examples"@
        ||| key == "x-ms-long-running-operation"@
        ||| key == "x-ms-long-running-operation-options"@
        ||| key == "deprecated"@
    }

    fn knows(key: &str) -> (b: bool) {
        same_text(key, "summary")
            || same_text(key, "description")
            || same_text(key, "consumes")
            || same_text(key, "produces")
            || same_text(key, "schemes")
            || same_text(key, "tags")
            || same_text(key, "operationId")
            || same_text(key, "responses")
            || same_text(key, "parameters")
            || same_text(key, "security")
            || same_text(key, "x-ms-pageable")
            || same_text(key, "x-ms-examples")
            || same_text(key, "x-ms-long-running-operation")
            || same_text(key, "x-ms-long-running-operation-options")
            || same_text(key, "deprecated")
    }
}

/// The ignored keys of a tree that is read as an operation.
pub open spec fn operation_ignored(t: JsonV) -> Seq<PathV>
    decreases t, 1nat,
{
    match t {
        JsonV::Object(e) => {
            let found = unknown_keys::<Operation>(e, e.len());
            let found = found + ignored_under::<OrderedMap<Response>>(
                find(e, "responses"@),
                "responses"@,
            );
            let found = found + ignored_under::<Vec<ReferenceOr<Parameter>>>(
                find(e, "parameters"@),
                "parameters"@,
            );
            let found = found + ignored_under::<MsPageable>(
                find(e, "x-ms-pageable"@),
                "x-ms-pageable"@,
            );
            let found = found + operation_ref_map_ignored_under(e, "x-ms-examples"@);
            let found = found + ignored_under::<MsLongRunningOperationOptions>(
                find(e, "x-ms-long-running-operation-options"@),
                "x-ms-long-running-operation-options"@,
            );
            found
        },
        _ => Seq::empty(),
    }
}

/// The ignored keys of a tree that is read as an operation or a reference.
pub open spec fn operation_ref_ignored(t: JsonV) -> Seq<PathV>
    decreases t, 2nat,
{
    if is_reference(t) {
        unknown_keys::<ReferenceKeys>(t->Object_0, t->Object_0.len())
    } else {
        operation_ignored(t)
    }
}

/// The ignored keys beneath the first `n` members of a mapping to operations
/// and references.
pub open spec fn operation_ref_entries_ignored(entries: Members, n: nat) -> Seq<PathV>
    decreases entries, n,
{
    if n == 0 || n > entries.len() {
        Seq::empty()
    } else {
        operation_ref_entries_ignored(entries, (n - 1) as nat) + under_all(
            operation_ref_ignored(entries[n - 1].1),
            SegmentV::Key(entries[n - 1].0),
        )
    }
}

/// The ignored keys beneath a mapping to operations and references.
pub open spec fn operation_ref_map_ignored_under(e: Members, key: Seq<char>) -> Seq<PathV>
    decreases e, 0nat,
{
    proof {
        lemma_find_decreases(e, key);
    }
    match find(e, key) {
        Some(JsonV::Object(entries)) => under_all(
            operation_ref_entries_ignored(entries, entries.len()),
            SegmentV::Key(key),
        ),
        _ => Seq::empty(),
    }
}

/// What an operation is written as holds no ignored key.
pub proof fn lemma_operation_clean(m: OperationV)
    ensures
        operation_ignored(operation_to_json(m)) == Seq::<PathV>::empty(),
    decreases m, 1nat,
{
    Operation::lemma_members(m);
    let e = operation_to_json(m)->Object_0;
    assert forall|i: int| 0 <= i < e.len() implies Operation::known(
        #[trigger] e[i].0,
    ) by {
        lemma_key_present(e, i);
        Operation::lemma_written_keys(m, e[i].0);
    }
    lemma_all_known::<Operation>(e, e.len());
    lemma_under_clean::<OrderedMap<Response>>(find(e, "responses"@), "responses"@, m.responses);
    lemma_under_clean::<Vec<ReferenceOr<Parameter>>>(
        find(e, "parameters"@),
        "parameters"@,
        m.parameters,
    );
    if m.x_ms_pageable is Some {
        lemma_under_clean::<MsPageable>(
            find(e, "x-ms-pageable"@),
            "x-ms-pageable"@,
            m.x_ms_pageable->0,
        );
    }
    if m.x_ms_examples is Some {
        lemma_operation_ref_entries_clean(m.x_ms_examples->0, m.x_ms_examples->0.len());
        assert(
            under_all(
                Seq::<PathV>::empty(),
                SegmentV::Key("x-ms-examples"@),
            ) =~= Seq::<PathV>::empty()
        );
    }
    if m.x_ms_long_running_operation_options is Some {
        lemma_under_clean::<MsLongRunningOperationOptions>(
            find(e, "x-ms-long-running-operation-options"@),
            "x-ms-long-running-operation-options"@,
            m.x_ms_long_running_operation_options->0,
        );
    }
    assert(Seq::<PathV>::empty() + Seq::<PathV>::empty() =~= Seq::<PathV>::empty());
}

/// What an operation or a reference is written as holds no ignored key.
pub proof fn lemma_operation_ref_clean(m: RefOrV<OperationV>)
    ensures
        operation_ref_ignored(operation_ref_to_json(m)) == Seq::<PathV>::empty(),
    decreases m, 2nat,
{
    lemma_operation_ref_round_trip(m);
    match m {
        RefOrV::Reference {
            reference,
            title,
            description,
            type_,
            read_only,
            x_ms_client_flatten,
        } => {
            lemma_reference_round_trip::<OperationV>(
                reference,
                title,
                description,
                type_,
                read_only,
                x_ms_client_flatten,
            );
            lemma_reference_clean(
                reference,
                title,
                description,
                type_,
                read_only,
                x_ms_client_flatten,
            );
        },
        RefOrV::Item(x) => {
            Operation::lemma_written_keys(x, "$ref"@);
            Operation::lemma_spelling();
            lemma_operation_clean(x);
        },
    }
}

/// Nothing is ignored beneath the members that a mapping is written as.
proof fn lemma_operation_ref_entries_clean(m: Seq<(Seq<char>, RefOrV<OperationV>)>, n: nat)
    requires
        n <= m.len(),
    ensures
        operation_ref_entries_ignored(operation_ref_entries_to_json(m), n) == Seq::<PathV>::empty(),
    decreases m, n,
{
    if n > 0 {
        lemma_operation_ref_entries_clean(m, (n - 1) as nat);
        lemma_operation_ref_clean(m[n - 1].1);
        assert(under_all(Seq::<PathV>::empty(), SegmentV::Key(m[n - 1].0))
            =~= Seq::<PathV>::empty());
        assert(Seq::<PathV>::empty() + Seq::<PathV>::empty() =~= Seq::<PathV>::empty());
    }
}

/// Adds the ignored keys of a value that is read as an operation.
pub fn audit_operation(v: &Value, at: &mut Vec<Segment>, out: &mut Vec<Vec<Segment>>)
    ensures
        final(at).model() == old(at).model(),
        final(out).model() == old(out).model() + based(
            operation_ignored(value_tree(*v)),
            old(at).model(),
        ),
    decreases value_tree(*v), 1nat,
{
    let ghost start = out.model();
    let ghost base = at.model();
    proof {
        lemma_collected(start, Seq::empty(), Seq::empty(), base);
    }
    match kind_of(v) {
        Kind::Object => {},
        _ => {
            return;
        },
    }
    let ghost e = value_tree(*v)->Object_0;
    let ghost found = unknown_keys::<Operation>(e, e.len());
    report_unknown::<Operation>(v, at, out);
    audit_member::<OrderedMap<Response>>(v, "responses", at, out);
    proof {
        let more = ignored_under::<OrderedMap<Response>>(find(e, "responses"@), "responses"@);
        lemma_collected(start, found, more, base);
        found = found + more;
    }
    audit_member::<Vec<ReferenceOr<Parameter>>>(v, "parameters", at, out);
    proof {
        let more = ignored_under::<Vec<ReferenceOr<Parameter>>>(
            find(e, "parameters"@),
            "parameters"@,
        );
        lemma_collected(start, found, more, base);
        found = found + more;
    }
    audit_member::<MsPageable>(v, "x-ms-pageable", at, out);
    proof {
        let more = ignored_under::<MsPageable>(find(e, "x-ms-pageable"@), "x-ms-pageable"@);
        lemma_collected(start, found, more, base);
        found = found + more;
    }
    audit_operation_ref_map_under(v, "x-ms-examples", at, out);
    proof {
        let more = operation_ref_map_ignored_under(e, "x-ms-examples"@);
        lemma_collected(start, found, more, base);
        found = found + more;
    }
    audit_member::<MsLongRunningOperationOptions>(
        v,
        "x-ms-long-running-operation-options",
        at,
        out,
    );
    proof {
        let more = ignored_under::<MsLongRunningOperationOptions>(
            find(e, "x-ms-long-running-operation-options"@),
            "x-ms-long-running-operation-options"@,
        );
        lemma_collected(start, found, more, base);
        found = found + more;
    }
}

/// Adds the ignored keys of a value that is read as an operation or a reference.
pub fn audit_operation_ref(v: &Value, at: &mut Vec<Segment>, out: &mut Vec<Vec<Segment>>)
    ensures
        final(at).model() == old(at).model(),
        final(out).model() == old(out).model() + based(
            operation_ref_ignored(value_tree(*v)),
            old(at).model(),
        ),
    decreases value_tree(*v), 2nat,
{
    if holds_reference(v) {
        report_unknown::<ReferenceKeys>(v, at, out);
    } else {
        audit_operation(v, at, out);
    }
}

/// Adds the ignored keys beneath a mapping to operations and references.
fn audit_operation_ref_map_under(
    v: &Value,
    key: &str,
    at: &mut Vec<Segment>,
    out: &mut Vec<Vec<Segment>>,
)
    requires
        value_tree(*v) is Object,
    ensures
        final(at).model() == old(at).model(),
        final(out).model() == old(out).model() + based(
            operation_ref_map_ignored_under(value_tree(*v)->Object_0, key@),
            old(at).model(),
        ),
    decreases value_tree(*v), 0nat,
{
    let ghost start = out.model();
    let ghost base = at.model();
    proof {
        lemma_find_decreases(value_tree(*v)->Object_0, key@);
        lemma_collected(start, Seq::empty(), Seq::empty(), base);
    }
    match member(v, key) {
        None => {},
        Some(x) => match entries_of(x) {
            None => {},
            Some(source) => {
                let ghost entries = value_tree(*x)->Object_0;
                let ghost inner = base.push(SegmentV::Key(key@));
                at.push(Segment::Key(key.to_owned()));
                assert(at.model() =~= inner);
                proof {
                    lemma_collected(start, Seq::empty(), Seq::empty(), inner);
                }
                let mut i: usize = 0;
                while i < source.len()
                    invariant
                        0 <= i <= source.len(),
                        value_tree(*x) == JsonV::Object(entries),
                        decreases_to!(value_tree(*v) => value_tree(*x)),
                        members(source@) == entries,
                        at.model() == inner,
                        out.model() == start + based(
                            operation_ref_entries_ignored(entries, i as nat),
                            inner,
                        ),
                    decreases source.len() - i,
                {
                    let pair = &source[i];
                    assert(entries[i as int] == (pair.0@, value_tree(*pair.1)));
                    assert(entries == value_tree(*x)->Object_0);
                    assert(decreases_to!(value_tree(*x) => value_tree(*x)->Object_0));
                    assert(decreases_to!(entries => entries[i as int]));
                    assert(decreases_to!(entries[i as int] => entries[i as int].1));
                    at.push(Segment::Key(pair.0.clone()));
                    assert(at.model() =~= inner.push(SegmentV::Key(pair.0@)));
                    audit_operation_ref(pair.1, at, out);
                    let ghost mid = at.model();
                    at.pop();
                    proof {
                        assert(at.model() =~= mid.drop_last());
                        assert(mid.drop_last() =~= inner);
                        let below = operation_ref_ignored(entries[i as int].1);
                        lemma_based_under(below, SegmentV::Key(pair.0@), inner);
                        lemma_collected(
                            start,
                            operation_ref_entries_ignored(entries, i as nat),
                            under_all(below, SegmentV::Key(pair.0@)),
                            inner,
                        );
                    }
                    i += 1;
                }
                let ghost mid = at.model();
                at.pop();
                proof {
                    assert(at.model() =~= mid.drop_last());
                    assert(mid.drop_last() =~= base);
                    lemma_based_under(
                        operation_ref_entries_ignored(entries, entries.len()),
                        SegmentV::Key(key@),
                        base,
                    );
                }
            },
        },
    }
}

impl Audit for Operation {
    open spec fn ignored(t: JsonV) -> Seq<PathV> {
        operation_ignored(t)
    }

    fn audit(v: &Value, at: &mut Vec<Segment>, out: &mut Vec<Vec<Segment>>) {
        audit_operation(v, at, out);
    }

    proof fn clean(m: OperationV) {
        lemma_operation_clean(m);
    }
}

/// Inside an operation and outside of one, an operation or a reference is read and
/// audited alike.
pub proof fn lemma_operation_ref_read_agrees(t: JsonV)
    ensures
        operation_ref_from_json(t) == ReferenceOr::<Operation>::from_json(t),
        operation_ref_ignored(t) == ReferenceOr::<Operation>::ignored(t),
{
}

/// Inside an operation and outside of one, an operation or a reference is written
/// alike.
pub proof fn lemma_operation_ref_written_agrees(m: RefOrV<OperationV>)
    ensures
        operation_ref_to_json(m) == ReferenceOr::<Operation>::to_json(m),
{
}

/// Inside an operation and outside of one, a mapping to operations and references is
/// read and written alike.
pub proof fn lemma_operation_ref_entries_agree(entries: Members, n: nat)
    requires
        n <= entries.len(),
    ensures
        operation_ref_entries_prefix(entries, n) == entries_from_json::<ReferenceOr<Operation>>(
            entries.take(n as int),
        ),
    decreases n,
{
    if n > 0 {
        lemma_operation_ref_entries_agree(entries, (n - 1) as nat);
        lemma_operation_ref_read_agrees(entries[n - 1].1);
        assert(entries.take(n as int).drop_last() =~= entries.take(n - 1));
        assert(entries.take(n as int).last() == entries[n - 1]);
    }
}

/// Inside an operation and outside of one, a mapping to operations and references is
/// read from the same objects.
pub proof fn lemma_operation_ref_map_read_agrees(t: JsonV)
    ensures
        operation_ref_map_from_json(t) == OrderedMap::<ReferenceOr<Operation>>::from_json(t),
{
    match t {
        JsonV::Object(entries) => {
            lemma_operation_ref_entries_agree(entries, entries.len());
            assert(entries.take(entries.len() as int) =~= entries);
        },
        _ => {},
    }
}

/// Inside an operation and outside of one, a mapping to operations and references is
/// written as the same object.
pub proof fn lemma_operation_ref_map_written_agrees(m: Seq<(Seq<char>, RefOrV<OperationV>)>)
    ensures
        JsonV::Object(
            operation_ref_entries_to_json(m),
        ) == OrderedMap::<ReferenceOr<Operation>>::to_json(m),
{
    assert forall|i: int| 0 <= i < m.len() implies operation_ref_entries_to_json(m)[i]
        == entries_to_json::<ReferenceOr<Operation>>(m)[i] by {
        lemma_operation_ref_written_agrees(m[i].1);
    }
    assert(operation_ref_entries_to_json(m) =~= entries_to_json::<ReferenceOr<Operation>>(m));
}

/// Inside an operation and outside of one, a field that holds an optional
/// mapping to operations and references is read and written alike.
pub proof fn lemma_operation_optional_ref_map_field_agrees(
    e: Members,
    key: Seq<char>,
    m: Option<Seq<(Seq<char>, RefOrV<OperationV>)>>,
)
    ensures
        operation_optional_ref_map_field(
            e,
            key,
        ) == optional_field::<OrderedMap<ReferenceOr<Operation>>>(
            e,
            key,
        ),
        operation_optional_ref_map_json(
            m,
        ) == optional_json::<OrderedMap<ReferenceOr<Operation>>>(m),
{
    if find(e, key) is Some {
        lemma_operation_ref_map_read_agrees(find(e, key)->0);
    }
    if m is Some {
        lemma_operation_ref_map_written_agrees(m->0);
    }
}

/// The model of an operation or a reference, of a list and of a mapping of them
/// is the same inside an operation and outside of one.
pub proof fn lemma_operation_model_agrees(r: ReferenceOr<Operation>)
    ensures
        Operation::ref_model(r) == r.model(),
{
}

/// Examples of requests and responses of an operation, by name
/// (`x-ms-examples`).
pub type MsExamples = OrderedMap<ReferenceOr<Operation>>;

} // verus!
