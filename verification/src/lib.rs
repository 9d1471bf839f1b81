//! An authorization layer in front of the Cedar policy engine.
//!
//! Policies are ingested from JSON documents or from policy text, collected
//! in sets with unique identifiers, and consulted to answer requests. The
//! engine parses and evaluates; this library decides the form of an input,
//! finds the identifier that a policy text declares, keeps identifiers
//! unique, assembles requests and maps every failure to a message that names
//! the offending input.
//!
//! - [`annotation`]: the `@id("...")` annotation of policy text.
//! - [`policy`]: policies and their ingestion.
//! - [`policy_set`]: sets of policies.
//! - [`request`]: the assembly of a request from plain text.
//! - [`authorizer`]: the two queries.
//! - [`response`]: the answer to a query.
//! - [`error`]: the failures.
//! - [`engine`], [`json`]: the calls into the engine and the JSON reader.
//! - [`text`]: helpers on characters and strings.

pub mod annotation;
pub mod authorizer;
pub mod engine;
pub mod error;
pub mod json;
pub mod policy;
pub mod policy_set;
pub mod request;
pub mod response;
pub mod text;

pub use crate::annotation::extract_policy_id_from_cedar_source;
pub use crate::authorizer::CedarAuthorizer;
pub use crate::error::CedarError;
pub use crate::policy::CedarPolicy;
pub use crate::policy_set::CedarPolicySet;
