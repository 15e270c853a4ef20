//! Reading annotations: from tokens to what a variant and its field declare.
//!
//! On a variant the names `status_code`, `body` and `message` are recognized,
//! on a field `key` and `from`. An annotation of any other name is passed
//! over. Where a name occurs more than once, its last occurrence counts. The
//! first annotation that cannot be read ends the reading.

use crate::declaration::{Meta, MetaView, RawAttribute, RawAttributeView, RawField, RawFieldView};
use crate::diagnostics::{Annotated, Diagnostic, Fault, Location};
use crate::grammar::{
    body_argument, parse_status_argument, parse_string_argument, status_argument, string_argument,
};
use crate::outcome::{
    first_failure, first_failure_at, first_failure_is_first, last_some, last_some_step, viewed,
};
use crate::schema::{
    BodySpec, BodySpecView, FieldDecl, FieldDeclView, VariantAttributes, VariantAttributesView,
};
use crate::status::{StatusCode, StatusCodeView};
use crate::text::same_text;
use crate::tokens::TokenView;
use vstd::prelude::*;

verus! {

/// What one annotation of a variant says.
#[derive(Clone, Debug, PartialEq, Eq)]
pub enum VariantAnnotation {
    StatusCode(StatusCode),
    Body(BodySpec),
    Message(String),
    /// An annotation of a name that is not recognized on a variant.
    Other,
}

/// What a [`VariantAnnotation`] holds.
pub enum VariantAnnotationView {
    StatusCode(StatusCodeView),
    Body(BodySpecView),
    Message(Seq<char>),
    Other,
}

impl DeepView for VariantAnnotation {
    type V = VariantAnnotationView;

    open spec fn deep_view(&self) -> VariantAnnotationView {
        match self {
            VariantAnnotation::StatusCode(status) => VariantAnnotationView::StatusCode(status@),
            VariantAnnotation::Body(body) => VariantAnnotationView::Body(body@),
            VariantAnnotation::Message(text) => VariantAnnotationView::Message(text@),
            VariantAnnotation::Other => VariantAnnotationView::Other,
        }
    }
}

impl View for VariantAnnotation {
    type V = VariantAnnotationView;

    open spec fn view(&self) -> VariantAnnotationView {
        self.deep_view()
    }
}

/// What one annotation of a field says.
#[derive(Clone, Debug, PartialEq, Eq)]
pub enum FieldAnnotation {
    Key(String),
    ConversionSource,
    /// An annotation of a name that is not recognized on a field.
    Other,
}

/// What a [`FieldAnnotation`] holds.
pub enum FieldAnnotationView {
    Key(Seq<char>),
    ConversionSource,
    Other,
}

impl DeepView for FieldAnnotation {
    type V = FieldAnnotationView;

    open spec fn deep_view(&self) -> FieldAnnotationView {
        match self {
            FieldAnnotation::Key(key) => FieldAnnotationView::Key(key@),
            FieldAnnotation::ConversionSource => FieldAnnotationView::ConversionSource,
            FieldAnnotation::Other => FieldAnnotationView::Other,
        }
    }
}

impl View for FieldAnnotation {
    type V = FieldAnnotationView;

    open spec fn view(&self) -> FieldAnnotationView {
        self.deep_view()
    }
}

/// The payload of an annotation that has to be written with arguments.
pub open spec fn arguments_of(meta: MetaView, which: Annotated) -> Result<Seq<TokenView>, Fault> {
    match meta {
        MetaView::List(tokens) => Ok(tokens),
        MetaView::Path => Err(Fault::ArgumentsMissing(which)),
        MetaView::NameValue => Err(Fault::ParenthesesExpected),
    }
}

/// What an annotation of a variant says, or why it cannot be read.
pub open spec fn variant_annotation(attribute: RawAttributeView) -> Result<
    VariantAnnotationView,
    Fault,
> {
    match attribute.name {
        None => Err(Fault::UnnamedAttribute),
        Some(name) => {
            if name == "status_code"@ {
                match arguments_of(attribute.meta, Annotated::StatusCode) {
                    Ok(tokens) => match status_argument(tokens) {
                        Ok(status) => Ok(VariantAnnotationView::StatusCode(status)),
                        Err(fault) => Err(fault),
                    },
                    Err(fault) => Err(fault),
                }
            } else if name == "body"@ {
                match arguments_of(attribute.meta, Annotated::Body) {
                    Ok(tokens) => match body_argument(tokens) {
                        Ok(body) => Ok(VariantAnnotationView::Body(body)),
                        Err(fault) => Err(fault),
                    },
                    Err(fault) => Err(fault),
                }
            } else if name == "message"@ {
                match arguments_of(attribute.meta, Annotated::Message) {
                    Ok(tokens) => match string_argument(tokens) {
                        Ok(text) => Ok(VariantAnnotationView::Message(text)),
                        Err(fault) => Err(fault),
                    },
                    Err(fault) => Err(fault),
                }
            } else {
                Ok(VariantAnnotationView::Other)
            }
        },
    }
}

/// What an annotation of a field says, or why it cannot be read. The marker
/// `from` is taken in whatever form it is written.
pub open spec fn field_annotation(attribute: RawAttributeView) -> Result<
    FieldAnnotationView,
    Fault,
> {
    match attribute.name {
        None => Err(Fault::UnnamedAttribute),
        Some(name) => {
            if name == "key"@ {
                match attribute.meta {
                    MetaView::List(tokens) => match string_argument(tokens) {
                        Ok(key) => Ok(FieldAnnotationView::Key(key)),
                        Err(_) => Err(Fault::KeyNotString),
                    },
                    _ => Err(Fault::KeyNotString),
                }
            } else if name == "from"@ {
                Ok(FieldAnnotationView::ConversionSource)
            } else {
                Ok(FieldAnnotationView::Other)
            }
        },
    }
}

/// Reads one annotation of a variant.
pub fn parse_variant_annotation(attribute: &RawAttribute) -> (result: Result<
    VariantAnnotation,
    Fault,
>)
    ensures
        viewed(result) == variant_annotation(attribute@),
{
    let name = match &attribute.name {
        Some(name) => name.as_str(),
        None => {
            return Err(Fault::UnnamedAttribute);
        },
    };
    let which = if same_text(name, "status_code") {
        Annotated::StatusCode
    } else if same_text(name, "body") {
        Annotated::Body
    } else if same_text(name, "message") {
        Annotated::Message
    } else {
        return Ok(VariantAnnotation::Other);
    };
    let tokens = match &attribute.meta {
        Meta::List(tokens) => tokens,
        Meta::Path => {
            return Err(Fault::ArgumentsMissing(which));
        },
        Meta::NameValue => {
            return Err(Fault::ParenthesesExpected);
        },
    };
    match which {
        Annotated::StatusCode => match parse_status_argument(tokens) {
            Ok(status) => Ok(VariantAnnotation::StatusCode(status)),
            Err(fault) => Err(fault),
        },
        Annotated::Body => match BodySpec::parse(tokens) {
            Ok(body) => Ok(VariantAnnotation::Body(body)),
            Err(fault) => Err(fault),
        },
        Annotated::Message => match parse_string_argument(tokens) {
            Ok(text) => Ok(VariantAnnotation::Message(text)),
            Err(fault) => Err(fault),
        },
    }
}

/// Reads one annotation of a field.
pub fn parse_field_annotation(attribute: &RawAttribute) -> (result: Result<FieldAnnotation, Fault>)
    ensures
        viewed(result) == field_annotation(attribute@),
{
    let name = match &attribute.name {
        Some(name) => name.as_str(),
        None => {
            return Err(Fault::UnnamedAttribute);
        },
    };
    if same_text(name, "key") {
        match &attribute.meta {
            Meta::List(tokens) => match parse_string_argument(tokens) {
                Ok(key) => Ok(FieldAnnotation::Key(key)),
                Err(_) => Err(Fault::KeyNotString),
            },
            _ => Err(Fault::KeyNotString),
        }
    } else if same_text(name, "from") {
        Ok(FieldAnnotation::ConversionSource)
    } else {
        Ok(FieldAnnotation::Other)
    }
}

/// The status code that the outcome of reading an annotation sets, if any.
pub open spec fn status_in(outcome: Result<VariantAnnotationView, Fault>) -> Option<
    StatusCodeView,
> {
    match outcome {
        Ok(VariantAnnotationView::StatusCode(status)) => Some(status),
        _ => None,
    }
}

/// The literal body that the outcome of reading an annotation sets, if any.
pub open spec fn body_in(outcome: Result<VariantAnnotationView, Fault>) -> Option<BodySpecView> {
    match outcome {
        Ok(VariantAnnotationView::Body(body)) => Some(body),
        _ => None,
    }
}

/// The message that the outcome of reading an annotation sets, if any.
pub open spec fn message_in(outcome: Result<VariantAnnotationView, Fault>) -> Option<Seq<char>> {
    match outcome {
        Ok(VariantAnnotationView::Message(text)) => Some(text),
        _ => None,
    }
}

/// The key that the outcome of reading an annotation sets, if any.
pub open spec fn key_in(outcome: Result<FieldAnnotationView, Fault>) -> Option<Seq<char>> {
    match outcome {
        Ok(FieldAnnotationView::Key(key)) => Some(key),
        _ => None,
    }
}

/// The outcome of reading an annotation is the marker of a conversion source.
pub open spec fn marks_source(outcome: Result<FieldAnnotationView, Fault>) -> bool {
    outcome == Ok::<FieldAnnotationView, Fault>(FieldAnnotationView::ConversionSource)
}

/// The outcomes of reading the annotations of a variant, one by one.
pub open spec fn variant_outcomes(attributes: Seq<RawAttributeView>) -> Seq<
    Result<VariantAnnotationView, Fault>,
> {
    Seq::new(attributes.len(), |i: int| variant_annotation(attributes[i]))
}

/// The outcomes of reading the annotations of a field, one by one.
pub open spec fn field_outcomes(attributes: Seq<RawAttributeView>) -> Seq<
    Result<FieldAnnotationView, Fault>,
> {
    Seq::new(attributes.len(), |i: int| field_annotation(attributes[i]))
}

/// Where a fault in the annotation at position `attribute` of the variant at
/// position `variant` is reported: an annotation without a name at the
/// variant's name, any other at the annotation.
pub open spec fn variant_fault_location(variant: usize, attribute: int, fault: Fault) -> Location {
    if fault == Fault::UnnamedAttribute {
        Location::Variant { variant }
    } else {
        Location::VariantAttribute { variant, attribute: attribute as usize }
    }
}

/// What the annotations of the variant at position `variant` declare.
///
/// A variant without annotations is refused. Otherwise the first annotation
/// that cannot be read decides; where all can be read, the variant must have
/// a status code, and of each of status code, body and message the last one
/// written counts.
pub open spec fn variant_attributes(variant: usize, attributes: Seq<RawAttributeView>) -> Result<
    VariantAttributesView,
    Diagnostic,
> {
    let outcomes = variant_outcomes(attributes);
    if attributes.len() == 0 {
        Err(Diagnostic { fault: Fault::NoAttributes, location: Location::Variant { variant } })
    } else {
        match first_failure(outcomes) {
            Some(at) => Err(
                Diagnostic {
                    fault: outcomes[at]->Err_0,
                    location: variant_fault_location(variant, at, outcomes[at]->Err_0),
                },
            ),
            None => match last_some(outcomes.map_values(|o| status_in(o))) {
                Some(status_code) => Ok(
                    VariantAttributesView {
                        status_code,
                        body: last_some(outcomes.map_values(|o| body_in(o))),
                        message: last_some(outcomes.map_values(|o| message_in(o))),
                    },
                ),
                None => Err(
                    Diagnostic {
                        fault: Fault::StatusCodeMissing,
                        location: Location::Variant { variant },
                    },
                ),
            },
        }
    }
}

/// What the fields of the variant at position `variant` declare.
///
/// A variant may have no field. Its first field must have no name, and there
/// must be no second one. Of the field's annotations the first that cannot be
/// read decides; where all can be read, the last `key` counts, and the field
/// is a conversion source where one annotation is `from`.
pub open spec fn field_declaration(variant: usize, fields: Seq<RawFieldView>) -> Result<
    Option<FieldDeclView>,
    Diagnostic,
> {
    if fields.len() == 0 {
        Ok(None)
    } else if fields[0].named {
        Err(
            Diagnostic {
                fault: Fault::NamedField,
                location: Location::Field { variant, field: 0 },
            },
        )
    } else if fields.len() > 1 {
        Err(
            Diagnostic {
                fault: Fault::ExtraField,
                location: Location::Field { variant, field: 1 },
            },
        )
    } else {
        let outcomes = field_outcomes(fields[0].attrs);
        match first_failure(outcomes) {
            Some(at) => Err(
                Diagnostic {
                    fault: outcomes[at]->Err_0,
                    location: Location::FieldAttribute {
                        variant,
                        field: 0,
                        attribute: at as usize,
                    },
                },
            ),
            None => Ok(
                Some(
                    FieldDeclView {
                        ty: fields[0].ty,
                        json_key: last_some(outcomes.map_values(|o| key_in(o))),
                        is_conversion_source: exists|at: int|
                            0 <= at < outcomes.len() && marks_source(#[trigger] outcomes[at]),
                    },
                ),
            ),
        }
    }
}

/// Reads the annotations of the variant at position `variant`.
pub fn parse_attributes(variant: usize, attributes: &Vec<RawAttribute>) -> (result: Result<
    VariantAttributes,
    Diagnostic,
>)
    ensures
        viewed(result) == variant_attributes(variant, attributes.deep_view()),
{
    if attributes.len() == 0 {
        return Err(
            Diagnostic { fault: Fault::NoAttributes, location: Location::Variant { variant } },
        );
    }
    let ghost outcomes = variant_outcomes(attributes.deep_view());
    let ghost statuses = outcomes.map_values(|o| status_in(o));
    let ghost bodies = outcomes.map_values(|o| body_in(o));
    let ghost messages = outcomes.map_values(|o| message_in(o));
    let mut status_code: Option<StatusCode> = None;
    let mut body: Option<BodySpec> = None;
    let mut message: Option<String> = None;
    let mut i: usize = 0;
    while i < attributes.len()
        invariant
            i <= attributes.len(),
            outcomes == variant_outcomes(attributes.deep_view()),
            statuses == outcomes.map_values(|o| status_in(o)),
            bodies == outcomes.map_values(|o| body_in(o)),
            messages == outcomes.map_values(|o| message_in(o)),
            forall|k: int| 0 <= k < i ==> (#[trigger] outcomes[k]) is Ok,
            status_code.deep_view() == last_some(statuses.take(i as int)),
            body.deep_view() == last_some(bodies.take(i as int)),
            message.deep_view() == last_some(messages.take(i as int)),
        decreases attributes.len() - i,
    {
        let outcome = parse_variant_annotation(&attributes[i]);
        proof {
            last_some_step(statuses, i as int);
            last_some_step(bodies, i as int);
            last_some_step(messages, i as int);
        }
        match outcome {
            Err(fault) => {
                proof {
                    first_failure_at(outcomes, i as int);
                }
                let location = match fault {
                    Fault::UnnamedAttribute => Location::Variant { variant },
                    _ => Location::VariantAttribute { variant, attribute: i },
                };
                return Err(Diagnostic { fault, location });
            },
            Ok(VariantAnnotation::StatusCode(status)) => {
                status_code = Some(status);
            },
            Ok(VariantAnnotation::Body(spec)) => {
                body = Some(spec);
            },
            Ok(VariantAnnotation::Message(text)) => {
                message = Some(text);
            },
            Ok(VariantAnnotation::Other) => {},
        }
        i += 1;
    }
    proof {
        first_failure_is_first(outcomes);
        assert(statuses.take(i as int) == statuses);
        assert(bodies.take(i as int) == bodies);
        assert(messages.take(i as int) == messages);
    }
    match status_code {
        Some(status_code) => Ok(VariantAttributes { status_code, body, message }),
        None => Err(
            Diagnostic {
                fault: Fault::StatusCodeMissing,
                location: Location::Variant { variant },
            },
        ),
    }
}

/// Reads the fields of the variant at position `variant`.
pub fn parse_field_attributes(variant: usize, fields: &Vec<RawField>) -> (result: Result<
    Option<FieldDecl>,
    Diagnostic,
>)
    ensures
        viewed(result) == field_declaration(variant, fields.deep_view()),
{
    if fields.len() == 0 {
        return Ok(None);
    }
    let field = &fields[0];
    if field.named {
        return Err(
            Diagnostic {
                fault: Fault::NamedField,
                location: Location::Field { variant, field: 0 },
            },
        );
    }
    if fields.len() > 1 {
        return Err(
            Diagnostic {
                fault: Fault::ExtraField,
                location: Location::Field { variant, field: 1 },
            },
        );
    }
    let ghost outcomes = field_outcomes(field@.attrs);
    let ghost keys = outcomes.map_values(|o| key_in(o));
    let mut json_key: Option<String> = None;
    let mut is_conversion_source = false;
    let mut i: usize = 0;
    while i < field.attrs.len()
        invariant
            i <= field.attrs.len(),
            fields.len() == 1,
            fields.deep_view()[0] == field@,
            !field.named,
            outcomes == field_outcomes(field@.attrs),
            keys == outcomes.map_values(|o| key_in(o)),
            forall|k: int| 0 <= k < i ==> (#[trigger] outcomes[k]) is Ok,
            json_key.deep_view() == last_some(keys.take(i as int)),
            is_conversion_source == exists|at: int|
                0 <= at < i && marks_source(#[trigger] outcomes[at]),
        decreases field.attrs.len() - i,
    {
        let outcome = parse_field_annotation(&field.attrs[i]);
        proof {
            last_some_step(keys, i as int);
        }
        match outcome {
            Err(fault) => {
                proof {
                    first_failure_at(outcomes, i as int);
                }
                return Err(
                    Diagnostic {
                        fault,
                        location: Location::FieldAttribute { variant, field: 0, attribute: i },
                    },
                );
            },
            Ok(FieldAnnotation::Key(key)) => {
                json_key = Some(key);
            },
            Ok(FieldAnnotation::ConversionSource) => {
                is_conversion_source = true;
            },
            Ok(FieldAnnotation::Other) => {},
        }
        i += 1;
    }
    proof {
        first_failure_is_first(outcomes);
        assert(keys.take(i as int) == keys);
    }
    Ok(Some(FieldDecl { ty: field.ty.clone(), json_key, is_conversion_source }))
}

} // verus!
