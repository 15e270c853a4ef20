//! Checking a declaration, variant by variant, in the order in which the
//! variants were written. The first fault ends the check: no later variant is
//! looked at, and nothing is given out.

use crate::declaration::{RawSchema, RawSchemaView, RawVariant, RawVariantView, Shape};
use crate::diagnostics::{Diagnostic, Fault, Location};
use crate::laws::validated_status_codes_are_listed;
use crate::outcome::{first_failure, first_failure_at, first_failure_is_first, viewed};
use crate::parser::{
    field_declaration, parse_attributes, parse_field_attributes, variant_attributes,
};
use crate::schema::{EnumSchema, EnumSchemaView, VariantDecl, VariantDeclView};
use vstd::prelude::*;

verus! {

/// What the variant at position `at` declares. Its fields are checked before
/// its annotations.
pub open spec fn variant_declaration(at: usize, variant: RawVariantView) -> Result<
    VariantDeclView,
    Diagnostic,
> {
    match field_declaration(at, variant.fields) {
        Err(diagnostic) => Err(diagnostic),
        Ok(field) => match variant_attributes(at, variant.attrs) {
            Err(diagnostic) => Err(diagnostic),
            Ok(attributes) => Ok(
                VariantDeclView {
                    name: variant.name,
                    status_code: attributes.status_code,
                    body: attributes.body,
                    message: attributes.message,
                    field,
                },
            ),
        },
    }
}

/// The outcomes of checking the variants, one by one.
pub open spec fn variant_declarations(variants: Seq<RawVariantView>) -> Seq<
    Result<VariantDeclView, Diagnostic>,
> {
    Seq::new(variants.len(), |i: int| variant_declaration(i as usize, variants[i]))
}

/// What validation gives for `schema`: the refusal of anything but an enum;
/// otherwise the diagnostic of the first variant that is refused; otherwise
/// the declarations of all variants, in their order.
pub open spec fn validation_of(schema: RawSchemaView) -> Result<EnumSchemaView, Diagnostic> {
    let outcomes = variant_declarations(schema.variants);
    if schema.shape != Shape::Enum {
        Err(Diagnostic { fault: Fault::NotAnEnum, location: Location::Schema })
    } else {
        match first_failure(outcomes) {
            Some(at) => Err(outcomes[at]->Err_0),
            None => Ok(
                EnumSchemaView {
                    name: schema.name,
                    variants: Seq::new(outcomes.len(), |i: int| outcomes[i]->Ok_0),
                },
            ),
        }
    }
}

/// Checks the variant at position `at`.
pub fn validate_variant(at: usize, variant: &RawVariant) -> (result: Result<
    VariantDecl,
    Diagnostic,
>)
    ensures
        viewed(result) == variant_declaration(at, variant@),
{
    let field = match parse_field_attributes(at, &variant.fields) {
        Ok(field) => field,
        Err(diagnostic) => {
            return Err(diagnostic);
        },
    };
    match parse_attributes(at, &variant.attrs) {
        Ok(attributes) => Ok(
            VariantDecl {
                name: variant.name.clone(),
                status_code: attributes.status_code,
                body: attributes.body,
                message: attributes.message,
                field,
            },
        ),
        Err(diagnostic) => Err(diagnostic),
    }
}

/// Checks a declaration.
pub fn validate(schema: &RawSchema) -> (result: Result<EnumSchema, Diagnostic>)
    ensures
        viewed(result) == validation_of(schema@),
        result matches Ok(valid) ==> valid@.well_formed(),
{
    match schema.shape {
        Shape::Enum => {},
        _ => {
            return Err(Diagnostic { fault: Fault::NotAnEnum, location: Location::Schema });
        },
    }
    let ghost outcomes = variant_declarations(schema@.variants);
    let mut variants: Vec<VariantDecl> = Vec::new();
    let mut i: usize = 0;
    while i < schema.variants.len()
        invariant
            i <= schema.variants.len(),
            schema.shape == Shape::Enum,
            outcomes == variant_declarations(schema@.variants),
            forall|k: int| 0 <= k < i ==> (#[trigger] outcomes[k]) is Ok,
            variants.deep_view() == Seq::new(i as nat, |k: int| outcomes[k]->Ok_0),
        decreases schema.variants.len() - i,
    {
        let outcome = validate_variant(i, &schema.variants[i]);
        match outcome {
            Ok(decl) => {
                let ghost earlier = variants.deep_view();
                variants.push(decl);
                assert(variants.deep_view() =~= earlier.push(outcomes[i as int]->Ok_0));
            },
            Err(diagnostic) => {
                proof {
                    first_failure_at(outcomes, i as int);
                }
                return Err(diagnostic);
            },
        }
        i += 1;
    }
    proof {
        first_failure_is_first(outcomes);
        validated_status_codes_are_listed(schema@);
    }
    Ok(EnumSchema { name: schema.name.clone(), variants })
}

} // verus!
