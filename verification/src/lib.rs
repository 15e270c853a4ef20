//! Turns the declaration of a response enum into the rules by which each of
//! its variants becomes an HTTP status code and an optional JSON body.
//!
//! The declaration arrives as plain values ([`declaration::RawSchema`]): the
//! variants in the order in which they were written, their annotations as
//! token lists, their fields. [`validate::validate`] checks it and gives the
//! [`schema::EnumSchema`]; [`synth::synthesize`] derives one
//! [`synth::VariantRule`] per variant and one [`synth::WrappingConstructor`]
//! per field marked as a conversion source. [`enum_into_response`] runs both.
//! [`synth::Artifact::respond`] applies the rules to a value of the enum, and
//! [`response::Response::payload`] writes the body of what comes out.
//!
//! The first fault found ends the run with a [`diagnostics::Diagnostic`];
//! faults behind it are not looked for.
//!
//! Where a declaration says two things about one body, this decides:
//! - the field of a variant before any annotation of the variant;
//! - a `message` annotation before a `body` annotation;
//! - of several annotations of one name, the last;
//! - of several variants that wrap one type, the one declared first.
//!
//! A variant without field, `body` and `message` has no body.

pub mod declaration;
pub mod diagnostics;
pub mod grammar;
pub mod json;
pub mod laws;
pub mod outcome;
pub mod parser;
pub mod pipeline;
pub mod response;
pub mod schema;
pub mod status;
pub mod synth;
pub mod text;
pub mod tokens;
pub mod validate;

pub use pipeline::enum_into_response;
