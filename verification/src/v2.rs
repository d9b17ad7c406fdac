//! The model of OpenAPI version 2.0, under one roof.
//!
//! See the
//! [specification](https://github.com/OAI/OpenAPI-Specification/blob/0dd79f6/versions/2.0.md)
//! for what the records stand for.

pub use crate::autorest::{
    MsEnum, MsEnumValue, MsLongRunningOperationOptions,
    MsLongRunningOperationOptionsFinalStateVia, MsMutability, MsPageable, MsParameterGrouping,
    MsParameterLocation,
};
pub use crate::info::{Contact, ExternalDocumentation, Info, License, Tag};
pub use crate::openapi::{OpenAPI, Spec};
pub use crate::operation::{MsExamples, Operation};
pub use crate::parameter::Parameter;
pub use crate::paths::{PathItem, Paths};
pub use crate::reference::ReferenceOr;
pub use crate::schema::{DataType, Header, Response, Schema, Scheme, SecurityRequirement};
pub use crate::security::{Flow, Security};
