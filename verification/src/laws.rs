//! What holds of every declaration.

use crate::declaration::{MetaView, RawAttributeView, RawSchemaView, Shape};
use crate::diagnostics::{ErrorKind, Fault, Location};
use crate::outcome::{
    first_failure, first_failure_at, first_failure_is_first, last_some, last_some_is_last,
};
use crate::grammar::{arrow_at, body_argument};
use crate::parser::{
    field_declaration, field_outcomes, marks_source, status_in, variant_attributes,
    variant_outcomes,
};
use crate::pipeline::compilation_of;
use crate::response::{response_of, response_to, wrapped, BodyView, PayloadView, ResponseView};
use crate::schema::BodySpecView;
use crate::status::status_code_named;
use crate::synth::{constructors_match_sources, constructors_of, default_key, ArtifactView};
use crate::tokens::TokenView;
use crate::validate::{validation_of, variant_declarations};
use vstd::prelude::*;

verus! {

/// An annotation named `status_code` stands among `attributes`.
pub open spec fn declares_status(attributes: Seq<RawAttributeView>) -> bool {
    exists|j: int|
        0 <= j < attributes.len() && (#[trigger] attributes[j]).name == Some("status_code"@)
}

/// An annotation named `from` stands among `attributes`.
pub open spec fn declares_source(attributes: Seq<RawAttributeView>) -> bool {
    exists|j: int| 0 <= j < attributes.len() && (#[trigger] attributes[j]).name == Some("from"@)
}

/// The payload of `body` is accepted in two forms and no other: one string
/// literal, which gives the value, and two string literals with an arrow
/// between them, which give the key and the value.
pub proof fn body_has_two_forms(tokens: Seq<TokenView>)
    ensures
        body_argument(tokens) is Ok <==> {
            ||| tokens.len() == 1 && tokens[0] is Str
            ||| tokens.len() == 4 && tokens[0] is Str && arrow_at(tokens, 1) && tokens[3] is Str
        },
        tokens.len() == 1 && tokens[0] is Str ==> body_argument(tokens) == Ok::<
            BodySpecView,
            Fault,
        >(BodySpecView::Bare(tokens[0]->Str_0)),
        tokens.len() == 4 && tokens[0] is Str && arrow_at(tokens, 1) && tokens[3] is Str
            ==> body_argument(tokens) == Ok::<BodySpecView, Fault>(
            BodySpecView::KeyValue(tokens[0]->Str_0, tokens[3]->Str_0),
        ),
{
}

/// A declaration with a variant that has no `status_code` annotation is
/// refused. Where nothing before that is at fault (no earlier variant, not
/// the variant's fields, none of its annotations), the refusal is of the kind
/// `MissingStatusCode` and points at the variant.
pub proof fn missing_status_code_is_refused(schema: RawSchemaView, at: int)
    requires
        0 <= at < schema.variants.len(),
        !declares_status(schema.variants[at].attrs),
    ensures
        compilation_of(schema) is Err,
        ({
            &&& schema.shape == Shape::Enum
            &&& forall|k: int|
                0 <= k < at ==> (#[trigger] variant_declarations(schema.variants)[k]) is Ok
            &&& field_declaration(at as usize, schema.variants[at].fields) is Ok
            &&& first_failure(variant_outcomes(schema.variants[at].attrs)) is None
        }) ==> {
            &&& compilation_of(schema) matches Err(diagnostic)
            &&& diagnostic.fault.kind_of() == ErrorKind::MissingStatusCode
            &&& diagnostic.location == Location::Variant { variant: at as usize }
        },
{
    let variant = schema.variants[at];
    let outcomes = variant_outcomes(variant.attrs);
    let statuses = outcomes.map_values(|o| status_in(o));
    assert forall|j: int| 0 <= j < statuses.len() implies (#[trigger] statuses[j]) is None by {
        assert(variant.attrs[j].name != Some("status_code"@));
    }
    last_some_is_last(statuses);
    let declarations = variant_declarations(schema.variants);
    first_failure_is_first(declarations);
    if schema.shape == Shape::Enum && (forall|k: int|
        0 <= k < at ==> (#[trigger] declarations[k]) is Ok) {
        first_failure_at(declarations, at);
    }
}

/// The status code of a variant's rule is the one that the variant declares:
/// the name in the last `status_code` annotation of the variant, with the
/// number that the table holds for that name. Every response that the rule
/// makes carries that number.
pub proof fn status_code_is_preserved(schema: RawSchemaView, at: int)
    requires
        compilation_of(schema) is Ok,
        0 <= at < schema.variants.len(),
    ensures
        ({
            let artifact = compilation_of(schema)->Ok_0;
            let rule = artifact.rules[at];
            let attributes = schema.variants[at].attrs;
            &&& artifact.rules.len() == schema.variants.len()
            &&& rule.variant == schema.variants[at].name
            &&& status_code_named(rule.status_code.name) == Some(rule.status_code.code)
            &&& exists|j: int|
                {
                    &&& 0 <= j < attributes.len()
                    &&& (#[trigger] attributes[j]).name == Some("status_code"@)
                    &&& attributes[j].meta == MetaView::List(
                        seq![TokenView::Ident(rule.status_code.name)],
                    )
                    &&& forall|k: int|
                        j < k < attributes.len() ==> (#[trigger] attributes[k]).name != Some(
                            "status_code"@,
                        )
                }
            &&& forall|field: Option<Seq<char>>|
                (#[trigger] response_of(rule, field)) matches Some(response) ==> response.status
                    == rule.status_code.code
        }),
{
    let declarations = variant_declarations(schema.variants);
    first_failure_is_first(declarations);
    let artifact = compilation_of(schema)->Ok_0;
    let rule = artifact.rules[at];
    let attributes = schema.variants[at].attrs;
    let outcomes = variant_outcomes(attributes);
    let statuses = outcomes.map_values(|o| status_in(o));
    first_failure_is_first(outcomes);
    last_some_is_last(statuses);
    let j = choose|j: int|
        {
            &&& 0 <= j < statuses.len()
            &&& #[trigger] statuses[j] == Some(rule.status_code)
            &&& forall|k: int| j < k < statuses.len() ==> (#[trigger] statuses[k]) is None
        };
    let tokens = attributes[j].meta->List_0;
    assert(tokens =~= seq![TokenView::Ident(rule.status_code.name)]);
    assert forall|k: int| j < k < attributes.len() implies (#[trigger] attributes[k]).name != Some(
        "status_code"@,
    ) by {
        assert(statuses[k] is None);
    }
}

/// The rule of a variant depends on the variant alone: not on its position,
/// and not on the variants around it.
pub proof fn rule_depends_on_variant_alone(
    first: RawSchemaView,
    i: int,
    second: RawSchemaView,
    j: int,
)
    requires
        compilation_of(first) is Ok,
        compilation_of(second) is Ok,
        0 <= i < first.variants.len(),
        0 <= j < second.variants.len(),
        first.variants[i] == second.variants[j],
    ensures
        compilation_of(first)->Ok_0.rules[i] == compilation_of(second)->Ok_0.rules[j],
{
    let left = variant_declarations(first.variants);
    let right = variant_declarations(second.variants);
    first_failure_is_first(left);
    first_failure_is_first(right);
}

/// Validation stops at the first variant that it refuses: two enums that
/// agree up to and including that variant are refused alike.
pub proof fn later_variants_are_not_looked_at(first: RawSchemaView, second: RawSchemaView, at: int)
    requires
        first.shape == Shape::Enum,
        second.shape == Shape::Enum,
        0 <= at < first.variants.len(),
        at < second.variants.len(),
        forall|k: int| 0 <= k <= at ==> first.variants[k] == second.variants[k],
        first_failure(variant_declarations(first.variants)) == Some(at),
    ensures
        validation_of(first) is Err,
        validation_of(second) == validation_of(first),
{
    let left = variant_declarations(first.variants);
    let right = variant_declarations(second.variants);
    first_failure_is_first(left);
    assert forall|k: int| 0 <= k < at implies (#[trigger] right[k]) is Ok by {
        assert(left[k] is Ok);
    }
    first_failure_at(right, at);
}

/// Every status code of a validated declaration is one of the table.
pub proof fn validated_status_codes_are_listed(schema: RawSchemaView)
    requires
        validation_of(schema) is Ok,
    ensures
        validation_of(schema)->Ok_0.well_formed(),
{
    let declarations = variant_declarations(schema.variants);
    first_failure_is_first(declarations);
    let valid = validation_of(schema)->Ok_0;
    assert forall|i: int| 0 <= i < valid.variants.len() implies (
    #[trigger] valid.variants[i]).status_code.listed() by {
        let outcomes = variant_outcomes(schema.variants[i].attrs);
        let statuses = outcomes.map_values(|o| status_in(o));
        last_some_is_last(statuses);
        let j = choose|j: int|
            {
                &&& 0 <= j < statuses.len()
                &&& #[trigger] statuses[j] == Some(valid.variants[i].status_code)
                &&& forall|k: int| j < k < statuses.len() ==> (#[trigger] statuses[k]) is None
            };
        assert(outcomes[j] is Ok);
    }
}

/// Where the field of a variant is marked as a conversion source, the
/// artifact holds a constructor that wraps into that variant a value of the
/// field's type; and the response to what it gives for a value carries, under
/// the field's key or under `error` where it has none, the string
/// representation of that value, with the variant's status code.
pub proof fn conversion_source_is_wrapped(schema: RawSchemaView, at: int, text: Seq<char>)
    requires
        compilation_of(schema) is Ok,
        0 <= at < schema.variants.len(),
        schema.variants[at].fields.len() > 0,
        declares_source(schema.variants[at].fields[0].attrs),
    ensures
        ({
            let artifact = compilation_of(schema)->Ok_0;
            let field = validation_of(schema)->Ok_0.variants[at].field->0;
            exists|c: int|
                {
                    &&& 0 <= c < artifact.constructors.len()
                    &&& (#[trigger] artifact.constructors[c]).variant == at
                    &&& artifact.constructors[c].variant_name == schema.variants[at].name
                    &&& artifact.constructors[c].source == schema.variants[at].fields[0].ty
                    &&& response_to(artifact, wrapped(artifact.constructors[c], text)) == Some(
                        ResponseView {
                            status: artifact.rules[at].status_code.code,
                            body: Some(
                                BodyView::Entry {
                                    key: match field.json_key {
                                        Some(key) => key,
                                        None => default_key(),
                                    },
                                    value: PayloadView::Text(text),
                                },
                            ),
                        },
                    )
                }
        }),
{
    reveal_strlit("key");
    reveal_strlit("from");
    let declarations = variant_declarations(schema.variants);
    first_failure_is_first(declarations);
    let valid = validation_of(schema)->Ok_0;
    let artifact = compilation_of(schema)->Ok_0;
    let attributes = schema.variants[at].fields[0].attrs;
    let outcomes = field_outcomes(attributes);
    first_failure_is_first(outcomes);
    let j = choose|j: int|
        0 <= j < attributes.len() && (#[trigger] attributes[j]).name == Some("from"@);
    assert("from"@ != "key"@) by {
        assert("from"@.len() == 4);
        assert("key"@.len() == 3);
    }
    assert(marks_source(outcomes[j]));
    assert(valid.variants[at].wraps());
    constructors_match_sources(valid.variants);
    let c = choose|c: int|
        0 <= c < constructors_of(valid.variants).len() && (#[trigger] constructors_of(
            valid.variants,
        )[c]).variant == at;
    assert(artifact.constructors[c].variant == at);
}

/// Under a well-formed artifact, the response to what a wrapping
/// constructor gives for a value carries the string representation of that
/// value as the text of its one entry, with the status code of the
/// constructor's variant.
pub proof fn wrapped_value_is_reported(artifact: ArtifactView, c: int, text: Seq<char>)
    requires
        artifact.well_formed(),
        0 <= c < artifact.constructors.len(),
    ensures
        ({
            let constructor = artifact.constructors[c];
            let rule = artifact.rules[constructor.variant];
            &&& rule.body is FieldText
            &&& response_to(artifact, wrapped(constructor, text)) == Some(
                ResponseView {
                    status: rule.status_code.code,
                    body: Some(
                        BodyView::Entry {
                            key: rule.body->FieldText_key,
                            value: PayloadView::Text(text),
                        },
                    ),
                },
            )
        }),
{
}

} // verus!
