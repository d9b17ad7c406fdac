//! A typed model of OpenAPI 2.0 documents with the AutoRest extensions, and
//! its binding to JSON.
//!
//! A document is read from JSON into a tree of records rooted at [`Spec`] and
//! written back from it. The records live in the modules named after them;
//! [`binding`] says what it means for a type to be read and written, and
//! [`fields`] how each kind of field is; [`audit`] names the keys of a
//! document that the model passes over; [`text`] goes from and to JSON text.
//!
//! Every type that is read and written comes with a proof that reading gives
//! back what was written ([`binding::Binding::round_trip`]). Parsing and
//! printing JSON text is the work of `serde_json`; what this crate takes from
//! it on trust is stated in [`json`], and what it takes from `indexmap` in
//! [`ordered`].

pub mod util;
pub mod json;
pub mod model;
pub mod ordered;
pub mod error;
pub mod binding;
pub mod lists;
pub mod fields;
pub mod audit;
pub mod autorest;
pub mod reference;
pub mod schema;
pub mod info;
pub mod security;
pub mod parameter;
pub mod operation;
pub mod paths;
pub mod openapi;
pub mod text;
pub mod v2;

pub use crate::autorest::{
    MsEnum, MsEnumValue, MsLongRunningOperationOptions,
    MsLongRunningOperationOptionsFinalStateVia, MsMutability, MsPageable, MsParameterGrouping,
    MsParameterLocation,
};
pub use crate::info::{Contact, ExternalDocumentation, Info, License, Tag};
pub use crate::openapi::{OpenAPI, Spec};
pub use crate::operation::{MsExamples, Operation};
pub use crate::ordered::OrderedMap;
pub use crate::parameter::Parameter;
pub use crate::paths::{PathItem, Paths};
pub use crate::reference::ReferenceOr;
pub use crate::schema::{DataType, Header, Response, Schema, Scheme, SecurityRequirement};
pub use crate::security::{Flow, Security};
pub use crate::util::{default_as_true, is_false, is_true};
