//! The whole way from a declaration to its rules.

use crate::declaration::{RawSchema, RawSchemaView};
use crate::diagnostics::Diagnostic;
use crate::outcome::viewed;
use crate::synth::{synthesis_of, synthesize, Artifact, ArtifactView};
use crate::validate::{validate, validation_of};
use vstd::prelude::*;

verus! {

/// What a declaration compiles to: the synthesis of what validation gives,
/// or the diagnostic with which validation refuses it.
pub open spec fn compilation_of(schema: RawSchemaView) -> Result<ArtifactView, Diagnostic> {
    match validation_of(schema) {
        Ok(valid) => Ok(synthesis_of(valid)),
        Err(diagnostic) => Err(diagnostic),
    }
}

/// Validates a declaration and synthesizes its rules. Nothing is given out
/// for a declaration that is refused.
pub fn enum_into_response(schema: &RawSchema) -> (result: Result<Artifact, Diagnostic>)
    ensures
        viewed(result) == compilation_of(schema@),
        result matches Ok(artifact) ==> artifact@.well_formed(),
{
    match validate(schema) {
        Ok(valid) => Ok(synthesize(&valid)),
        Err(diagnostic) => Err(diagnostic),
    }
}

} // verus!
