//! Paths.

use vstd::prelude::*;
use serde_json::Value;
use crate::audit::{
    audit_member, ignored_under, lemma_all_known, lemma_collected, lemma_under_clean,
    report_unknown, unknown_keys, Audit, Keys,
};
use crate::binding::{Binding, Record};
use crate::error::{mismatch, DecodeError, DecodeErrorV, Expected, PathV, Segment};
use crate::fields::{
    lemma_list, lemma_optional, lemma_with_member, list_field, list_json, optional_field,
    optional_json, put, put_list, put_optional, read_list, read_optional, with_member, Members,
};
use crate::json::{
    empty_object, find, has_key, kind_of, lemma_key_present, same_text, value_tree, JsonV, Kind,
};
use crate::model::Model;
use crate::operation::{Operation, OperationV};
use crate::ordered::OrderedMap;
use crate::parameter::{Parameter, ParameterV};
use crate::reference::{RefOrV, ReferenceOr};

verus! {

/// What can be done on one path: an operation for each HTTP method, and the
/// parameters that they share.
#[derive(Clone, Debug, PartialEq)]
pub struct PathItem {
    pub get: Option<Operation>,
    pub post: Option<Operation>,
    pub put: Option<Operation>,
    pub patch: Option<Operation>,
    pub delete: Option<Operation>,
    pub options: Option<Operation>,
    pub head: Option<Operation>,
    /// The parameters that the operations of the path share.
    pub parameters: Vec<ReferenceOr<Parameter>>,
}

/// The model of a [`PathItem`].
pub struct PathItemV {
    pub get: Option<OperationV>,
    pub post: Option<OperationV>,
    pub put: Option<OperationV>,
    pub patch: Option<OperationV>,
    pub delete: Option<OperationV>,
    pub options: Option<OperationV>,
    pub head: Option<OperationV>,
    pub parameters: Seq<RefOrV<ParameterV>>,
}

impl Model for PathItem {
    type M = PathItemV;

    open spec fn model(&self) -> PathItemV {
        PathItemV {
            get: self.get.model(),
            post: self.post.model(),
            put: self.put.model(),
            patch: self.patch.model(),
            delete: self.delete.model(),
            options: self.options.model(),
            head: self.head.model(),
            parameters: self.parameters.model(),
        }
    }
}

impl PathItem {
    /// The model of the default value: every optional field absent, every list
    /// and mapping empty, every flag off.
    pub open spec fn default_model() -> PathItemV {
        PathItemV {
            get: None,
            post: None,
            put: None,
            patch: None,
            delete: None,
            options: None,
            head: None,
            parameters: Seq::empty(),
        }
    }
}

impl Default for PathItem {
    fn default() -> (r: PathItem)
        ensures
            r.model() == PathItem::default_model(),
    {
        let r = PathItem {
            get: None,
            post: None,
            put: None,
            patch: None,
            delete: None,
            options: None,
            head: None,
            parameters: Vec::new(),
        };
        assert(r.model().parameters =~= Seq::empty());
        r
    }
}

impl Binding for PathItem {
    open spec fn from_json(t: JsonV) -> Result<PathItemV, DecodeErrorV> {
        match t {
            JsonV::Object(e) => {
                let get = optional_field::<Operation>(e, "get"@);
                let post = optional_field::<Operation>(e, "post"@);
                let put = optional_field::<Operation>(e, "put"@);
                let patch = optional_field::<Operation>(e, "patch"@);
                let delete = optional_field::<Operation>(e, "delete"@);
                let options = optional_field::<Operation>(e, "options"@);
                let head = optional_field::<Operation>(e, "head"@);
                let parameters = list_field::<ReferenceOr<Parameter>>(e, "parameters"@);
                if get is Err {
                    Err(get->Err_0)
                } else if post is Err {
                    Err(post->Err_0)
                } else if put is Err {
                    Err(put->Err_0)
                } else if patch is Err {
                    Err(patch->Err_0)
                } else if delete is Err {
                    Err(delete->Err_0)
                } else if options is Err {
                    Err(options->Err_0)
                } else if head is Err {
                    Err(head->Err_0)
                } else if parameters is Err {
                    Err(parameters->Err_0)
                } else {
                    Ok(
                        PathItemV {
                            get: get->Ok_0,
                            post: post->Ok_0,
                            put: put->Ok_0,
                            patch: patch->Ok_0,
                            delete: delete->Ok_0,
                            options: options->Ok_0,
                            head: head->Ok_0,
                            parameters: parameters->Ok_0,
                        },
                    )
                }
            },
            _ => Err(mismatch(Expected::Object, t)),
        }
    }

    open spec fn to_json(m: PathItemV) -> JsonV {
        let e: Members = Seq::empty();
        let e = with_member(e, "get"@, optional_json::<Operation>(m.get));
        let e = with_member(e, "post"@, optional_json::<Operation>(m.post));
        let e = with_member(e, "put"@, optional_json::<Operation>(m.put));
        let e = with_member(e, "patch"@, optional_json::<Operation>(m.patch));
        let e = with_member(e, "delete"@, optional_json::<Operation>(m.delete));
        let e = with_member(e, "options"@, optional_json::<Operation>(m.options));
        let e = with_member(e, "head"@, optional_json::<Operation>(m.head));
        let e = with_member(e, "parameters"@, list_json::<ReferenceOr<Parameter>>(m.parameters));
        JsonV::Object(e)
    }

    fn decode(v: &Value) -> (r: Result<PathItem, DecodeError>) {
        match kind_of(v) {
            Kind::Object => {},
            found => {
                return Err(DecodeError::mismatch(Expected::Object, found));
            },
        }
        let get = read_optional::<Operation>(v, "get")?;
        let post = read_optional::<Operation>(v, "post")?;
        let put = read_optional::<Operation>(v, "put")?;
        let patch = read_optional::<Operation>(v, "patch")?;
        let delete = read_optional::<Operation>(v, "delete")?;
        let options = read_optional::<Operation>(v, "options")?;
        let head = read_optional::<Operation>(v, "head")?;
        let parameters = read_list::<ReferenceOr<Parameter>>(v, "parameters")?;
        Ok(PathItem { get, post, put, patch, delete, options, head, parameters })
    }

    fn encode(&self) -> (v: Value) {
        let mut o = empty_object();
        put_optional::<Operation>(&mut o, "get", &self.get);
        put_optional::<Operation>(&mut o, "post", &self.post);
        put_optional::<Operation>(&mut o, "put", &self.put);
        put_optional::<Operation>(&mut o, "patch", &self.patch);
        put_optional::<Operation>(&mut o, "delete", &self.delete);
        put_optional::<Operation>(&mut o, "options", &self.options);
        put_optional::<Operation>(&mut o, "head", &self.head);
        put_list::<ReferenceOr<Parameter>>(&mut o, "parameters", &self.parameters);
        o
    }

    proof fn round_trip(m: PathItemV) {
        let e = Self::to_json(m)->Object_0;
        Self::lemma_members(m);
        lemma_optional::<Operation>(e, "get"@, m.get);
        lemma_optional::<Operation>(e, "post"@, m.post);
        lemma_optional::<Operation>(e, "put"@, m.put);
        lemma_optional::<Operation>(e, "patch"@, m.patch);
        lemma_optional::<Operation>(e, "delete"@, m.delete);
        lemma_optional::<Operation>(e, "options"@, m.options);
        lemma_optional::<Operation>(e, "head"@, m.head);
        lemma_list::<ReferenceOr<Parameter>>(e, "parameters"@, m.parameters);
    }
}

impl Record for PathItem {
    proof fn written_as_record(m: PathItemV) {
        Self::lemma_written_keys(m, "$ref"@);
        Self::lemma_spelling();
    }
}

impl PathItem {
    /// Which keys are written: a required field always, an optional field where
    /// it is present, a list or a mapping where it is not empty, a flag where
    /// it is set. Nothing else is written.
    pub proof fn lemma_written_keys(m: PathItemV, key: Seq<char>)
        ensures
            PathItem::to_json(m) is Object,
            has_key(PathItem::to_json(m)->Object_0, "get"@) == (m.get is Some),
            has_key(PathItem::to_json(m)->Object_0, "post"@) == (m.post is Some),
            has_key(PathItem::to_json(m)->Object_0, "put"@) == (m.put is Some),
            has_key(PathItem::to_json(m)->Object_0, "patch"@) == (m.patch is Some),
            has_key(PathItem::to_json(m)->Object_0, "delete"@) == (m.delete is Some),
            has_key(PathItem::to_json(m)->Object_0, "options"@) == (m.options is Some),
            has_key(PathItem::to_json(m)->Object_0, "head"@) == (m.head is Some),
            has_key(PathItem::to_json(m)->Object_0, "parameters"@) == (m.parameters.len() > 0),
            has_key(PathItem::to_json(m)->Object_0, key) ==> {
                ||| key == "get"@
                ||| key == "post"@
                ||| key == "put"@
                ||| key == "patch"@
                ||| key == "delete"@
                ||| key == "options"@
                ||| key == "head"@
                ||| key == "parameters"@
            },
    {
        lemma_with_member();
        Self::lemma_spelling();
    }

    /// What stands under each key of what a value is written as.
    pub proof fn lemma_members(m: PathItemV)
        ensures
            find(PathItem::to_json(m)->Object_0, "get"@) == optional_json::<Operation>(m.get),
            find(PathItem::to_json(m)->Object_0, "post"@) == optional_json::<Operation>(m.post),
            find(PathItem::to_json(m)->Object_0, "put"@) == optional_json::<Operation>(m.put),
            find(PathItem::to_json(m)->Object_0, "patch"@) == optional_json::<Operation>(m.patch),
            find(PathItem::to_json(m)->Object_0, "delete"@) == optional_json::<Operation>(m.delete),
            find(
                PathItem::to_json(m)->Object_0,
                "options"@,
            ) == optional_json::<Operation>(m.options),
            find(PathItem::to_json(m)->Object_0, "head"@) == optional_json::<Operation>(m.head),
            find(
                PathItem::to_json(m)->Object_0,
                "parameters"@,
            ) == list_json::<ReferenceOr<Parameter>>(m.parameters),
    {
        lemma_with_member();
        Self::lemma_spelling();
    }

    /// How the keys are spelled, as far as it takes to tell them apart.
    proof fn lemma_spelling()
        ensures
            "$ref"@.len() == 4,
            "get"@.len() == 3,
            "post"@.len() == 4,
            "put"@.len() == 3,
            "patch"@.len() == 5,
            "delete"@.len() == 6,
            "options"@.len() == 7,
            "head"@.len() == 4,
            "parameters"@.len() == 10,
            "$ref"@[0] == '$',
            "post"@[0] == 'p',
            "head"@[0] == 'h',
            "get"@[0] == 'g',
            "put"@[0] == 'p',
    {
        reveal_strlit("$ref");
        reveal_strlit("get");
        reveal_strlit("post");
        reveal_strlit("put");
        reveal_strlit("patch");
        reveal_strlit("delete");
        reveal_strlit("options");
        reveal_strlit("head");
        reveal_strlit("parameters");
    }
}

impl Keys for PathItem {
    open spec fn known(key: Seq<char>) -> bool {
        ||| key == "get"@
        ||| key == "post"@
        ||| key == "put"@
        ||| key == "patch"@
        ||| key == "delete"@
        ||| key == "options"@
        ||| key == "head"@
        ||| key == "parameters"@
    }

    fn knows(key: &str) -> (b: bool) {
        same_text(key, "get")
            || same_text(key, "post")
            || same_text(key, "put")
            || same_text(key, "patch")
            || same_text(key, "delete")
            || same_text(key, "options")
            || same_text(key, "head")
            || same_text(key, "parameters")
    }
}

impl Audit for PathItem {
    open spec fn ignored(t: JsonV) -> Seq<PathV> {
        match t {
            JsonV::Object(e) => {
                let found = unknown_keys::<PathItem>(e, e.len());
                let found = found + ignored_under::<Operation>(find(e, "get"@), "get"@);
                let found = found + ignored_under::<Operation>(find(e, "post"@), "post"@);
                let found = found + ignored_under::<Operation>(find(e, "put"@), "put"@);
                let found = found + ignored_under::<Operation>(find(e, "patch"@), "patch"@);
                let found = found + ignored_under::<Operation>(find(e, "delete"@), "delete"@);
                let found = found + ignored_under::<Operation>(find(e, "options"@), "options"@);
                let found = found + ignored_under::<Operation>(find(e, "head"@), "head"@);
                let found = found + ignored_under::<Vec<ReferenceOr<Parameter>>>(
                    find(e, "parameters"@),
                    "parameters"@,
                );
                found
            },
            _ => Seq::empty(),
        }
    }

    fn audit(v: &Value, at: &mut Vec<Segment>, out: &mut Vec<Vec<Segment>>) {
        let ghost start = out.model();
        let ghost base = at.model();
        proof {
            lemma_collected(start, Seq::empty(), Seq::empty(), base);
        }
        match kind_of(v) {
            Kind::Object => {},
            _ => {
                return;
            },
        }
        let ghost e = value_tree(*v)->Object_0;
        let ghost found = unknown_keys::<PathItem>(e, e.len());
        report_unknown::<PathItem>(v, at, out);
        audit_member::<Operation>(v, "get", at, out);
        proof {
            let more = ignored_under::<Operation>(find(e, "get"@), "get"@);
            lemma_collected(start, found, more, base);
            found = found + more;
        }
        audit_member::<Operation>(v, "post", at, out);
        proof {
            let more = ignored_under::<Operation>(find(e, "post"@), "post"@);
            lemma_collected(start, found, more, base);
            found = found + more;
        }
        audit_member::<Operation>(v, "put", at, out);
        proof {
            let more = ignored_under::<Operation>(find(e, "put"@), "put"@);
            lemma_collected(start, found, more, base);
            found = found + more;
        }
        audit_member::<Operation>(v, "patch", at, out);
        proof {
            let more = ignored_under::<Operation>(find(e, "patch"@), "patch"@);
            lemma_collected(start, found, more, base);
            found = found + more;
        }
        audit_member::<Operation>(v, "delete", at, out);
        proof {
            let more = ignored_under::<Operation>(find(e, "delete"@), "delete"@);
            lemma_collected(start, found, more, base);
            found = found + more;
        }
        audit_member::<Operation>(v, "options", at, out);
        proof {
            let more = ignored_under::<Operation>(find(e, "options"@), "options"@);
            lemma_collected(start, found, more, base);
            found = found + more;
        }
        audit_member::<Operation>(v, "head", at, out);
        proof {
            let more = ignored_under::<Operation>(find(e, "head"@), "head"@);
            lemma_collected(start, found, more, base);
            found = found + more;
        }
        audit_member::<Vec<ReferenceOr<Parameter>>>(v, "parameters", at, out);
        proof {
            let more = ignored_under::<Vec<ReferenceOr<Parameter>>>(
                find(e, "parameters"@),
                "parameters"@,
            );
            lemma_collected(start, found, more, base);
            found = found + more;
        }
    }

    proof fn clean(m: PathItemV) {
        PathItem::lemma_members(m);
        let e = Self::to_json(m)->Object_0;
        assert forall|i: int| 0 <= i < e.len() implies PathItem::known(
            #[trigger] e[i].0,
        ) by {
            lemma_key_present(e, i);
            PathItem::lemma_written_keys(m, e[i].0);
        }
        lemma_all_known::<PathItem>(e, e.len());
        if m.get is Some {
            lemma_under_clean::<Operation>(find(e, "get"@), "get"@, m.get->0);
        }
        if m.post is Some {
            lemma_under_clean::<Operation>(find(e, "post"@), "post"@, m.post->0);
        }
        if m.put is Some {
            lemma_under_clean::<Operation>(find(e, "put"@), "put"@, m.put->0);
        }
        if m.patch is Some {
            lemma_under_clean::<Operation>(find(e, "patch"@), "patch"@, m.patch->0);
        }
        if m.delete is Some {
            lemma_under_clean::<Operation>(find(e, "delete"@), "delete"@, m.delete->0);
        }
        if m.options is Some {
            lemma_under_clean::<Operation>(find(e, "options"@), "options"@, m.options->0);
        }
        if m.head is Some {
            lemma_under_clean::<Operation>(find(e, "head"@), "head"@, m.head->0);
        }
        lemma_under_clean::<Vec<ReferenceOr<Parameter>>>(
            find(e, "parameters"@),
            "parameters"@,
            m.parameters,
        );
        assert(Seq::<PathV>::empty() + Seq::<PathV>::empty() =~= Seq::<PathV>::empty());
    }
}

/// The paths of an API, each with what can be done on it, in the order of the
/// document.
pub type Paths = OrderedMap<ReferenceOr<PathItem>>;

} // verus!
