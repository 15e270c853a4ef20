use axum_enum_response::declaration::{Meta, RawAttribute, RawField};
use axum_enum_response::diagnostics::{Annotated, Diagnostic, ErrorKind, Fault, Location};
use axum_enum_response::parser::{
    parse_attributes, parse_field_annotation, parse_field_attributes, parse_variant_annotation,
    FieldAnnotation, VariantAnnotation,
};
use axum_enum_response::schema::{BodySpec, FieldDecl, VariantAttributes};
use axum_enum_response::status::StatusCode;
use axum_enum_response::tokens::Token;

fn named(name: &str, meta: Meta) -> RawAttribute {
    RawAttribute { name: Some(name.to_string()), meta }
}

fn status(name: &str) -> RawAttribute {
    named("status_code", Meta::List(vec![Token::Ident(name.to_string())]))
}

fn strings(name: &str, values: &[&str]) -> RawAttribute {
    named(name, Meta::List(values.iter().map(|value| Token::Str(value.to_string())).collect()))
}

fn key_value(key: &str, value: &str) -> RawAttribute {
    named(
        "body",
        Meta::List(vec![
            Token::Str(key.to_string()),
            Token::Punct { ch: '=', joint: true },
            Token::Punct { ch: '>', joint: false },
            Token::Str(value.to_string()),
        ]),
    )
}

fn code(name: &str, code: u16) -> StatusCode {
    StatusCode { name: name.to_string(), code }
}

fn unnamed_field(ty: &str, attrs: Vec<RawAttribute>) -> RawField {
    RawField { named: false, ty: ty.to_string(), attrs }
}

#[test]
fn each_recognized_annotation_of_a_variant_is_read() {
    assert_eq!(
        parse_variant_annotation(&status("FORBIDDEN")),
        Ok(VariantAnnotation::StatusCode(code("FORBIDDEN", 403)))
    );
    assert_eq!(
        parse_variant_annotation(&strings("body", &["mew"])),
        Ok(VariantAnnotation::Body(BodySpec::Bare("mew".to_string())))
    );
    assert_eq!(
        parse_variant_annotation(&key_value("hello", "world")),
        Ok(VariantAnnotation::Body(BodySpec::KeyValue("hello".to_string(), "world".to_string())))
    );
    assert_eq!(
        parse_variant_annotation(&strings("message", &["gone"])),
        Ok(VariantAnnotation::Message("gone".to_string()))
    );
}

#[test]
fn other_names_on_a_variant_are_passed_over() {
    assert_eq!(parse_variant_annotation(&named("doc", Meta::NameValue)), Ok(VariantAnnotation::Other));
    assert_eq!(parse_variant_annotation(&named("allow", Meta::List(vec![]))), Ok(VariantAnnotation::Other));
    assert_eq!(parse_variant_annotation(&named("key", Meta::Path)), Ok(VariantAnnotation::Other));
    assert_eq!(parse_variant_annotation(&named("from", Meta::Path)), Ok(VariantAnnotation::Other));
    assert_eq!(parse_variant_annotation(&named("Status_Code", Meta::Path)), Ok(VariantAnnotation::Other));
}

#[test]
fn an_annotation_without_a_name_is_refused() {
    let anonymous = RawAttribute { name: None, meta: Meta::Path };
    assert_eq!(parse_variant_annotation(&anonymous), Err(Fault::UnnamedAttribute));
    assert_eq!(parse_field_annotation(&anonymous), Err(Fault::UnnamedAttribute));
    assert_eq!(Fault::UnnamedAttribute.kind(), ErrorKind::UnnamedAttributeError);
}

#[test]
fn a_recognized_annotation_needs_its_arguments() {
    assert_eq!(
        parse_variant_annotation(&named("status_code", Meta::Path)),
        Err(Fault::ArgumentsMissing(Annotated::StatusCode))
    );
    assert_eq!(
        parse_variant_annotation(&named("body", Meta::Path)),
        Err(Fault::ArgumentsMissing(Annotated::Body))
    );
    assert_eq!(
        parse_variant_annotation(&named("message", Meta::Path)),
        Err(Fault::ArgumentsMissing(Annotated::Message))
    );
    assert_eq!(
        parse_variant_annotation(&named("status_code", Meta::NameValue)),
        Err(Fault::ParenthesesExpected)
    );
    assert_eq!(parse_variant_annotation(&named("body", Meta::NameValue)), Err(Fault::ParenthesesExpected));
    assert_eq!(
        parse_variant_annotation(&named("message", Meta::NameValue)),
        Err(Fault::ParenthesesExpected)
    );
}

#[test]
fn a_malformed_payload_of_a_recognized_annotation_is_refused() {
    assert_eq!(parse_variant_annotation(&status("TEAPOT")), Err(Fault::UnknownStatusCode));
    assert_eq!(
        parse_variant_annotation(&strings("status_code", &["OK"])),
        Err(Fault::StatusNameExpected)
    );
    assert_eq!(parse_variant_annotation(&strings("body", &[])), Err(Fault::StringExpectedAtEnd));
    assert_eq!(parse_variant_annotation(&strings("body", &["a", "b"])), Err(Fault::UnexpectedToken));
    assert_eq!(parse_variant_annotation(&strings("message", &[])), Err(Fault::StringExpectedAtEnd));
    assert_eq!(
        parse_variant_annotation(&strings("message", &["a", "b"])),
        Err(Fault::UnexpectedToken)
    );
    assert_eq!(
        parse_variant_annotation(&named("message", Meta::List(vec![Token::Ident("gone".to_string())]))),
        Err(Fault::StringExpected)
    );
}

#[test]
fn the_annotations_of_a_variant_are_gathered() {
    assert_eq!(
        parse_attributes(0, &vec![status("OK"), key_value("hello", "world")]),
        Ok(VariantAttributes {
            status_code: code("OK", 200),
            body: Some(BodySpec::KeyValue("hello".to_string(), "world".to_string())),
            message: None,
        })
    );
    assert_eq!(
        parse_attributes(3, &vec![strings("message", &["m"]), named("doc", Meta::NameValue), status("GONE")]),
        Ok(VariantAttributes { status_code: code("GONE", 410), body: None, message: Some("m".to_string()) })
    );
}

#[test]
fn the_last_of_several_annotations_of_one_name_counts() {
    assert_eq!(
        parse_attributes(
            0,
            &vec![
                status("OK"),
                strings("body", &["first"]),
                strings("message", &["one"]),
                status("FORBIDDEN"),
                strings("body", &["second"]),
                strings("message", &["two"]),
            ]
        ),
        Ok(VariantAttributes {
            status_code: code("FORBIDDEN", 403),
            body: Some(BodySpec::Bare("second".to_string())),
            message: Some("two".to_string()),
        })
    );
}

#[test]
fn a_variant_without_annotations_has_no_status_code() {
    let refusal = parse_attributes(4, &vec![]).unwrap_err();
    assert_eq!(refusal, Diagnostic { fault: Fault::NoAttributes, location: Location::Variant { variant: 4 } });
    assert_eq!(refusal.kind(), ErrorKind::MissingStatusCode);
}

#[test]
fn annotations_without_a_status_code_among_them_are_refused() {
    let refusal = parse_attributes(1, &vec![strings("body", &["mew"]), named("doc", Meta::NameValue)])
        .unwrap_err();
    assert_eq!(
        refusal,
        Diagnostic { fault: Fault::StatusCodeMissing, location: Location::Variant { variant: 1 } }
    );
    assert_eq!(refusal.kind(), ErrorKind::MissingStatusCode);
}

#[test]
fn the_first_unreadable_annotation_of_a_variant_decides() {
    assert_eq!(
        parse_attributes(2, &vec![status("OK"), strings("body", &[]), status("TEAPOT")]),
        Err(Diagnostic {
            fault: Fault::StringExpectedAtEnd,
            location: Location::VariantAttribute { variant: 2, attribute: 1 },
        })
    );
    assert_eq!(
        parse_attributes(2, &vec![status("TEAPOT"), strings("body", &[])]),
        Err(Diagnostic {
            fault: Fault::UnknownStatusCode,
            location: Location::VariantAttribute { variant: 2, attribute: 0 },
        })
    );
}

#[test]
fn an_unnamed_annotation_of_a_variant_is_reported_at_the_variant() {
    assert_eq!(
        parse_attributes(5, &vec![status("OK"), RawAttribute { name: None, meta: Meta::Path }]),
        Err(Diagnostic { fault: Fault::UnnamedAttribute, location: Location::Variant { variant: 5 } })
    );
}

#[test]
fn an_unreadable_annotation_counts_before_a_missing_status_code() {
    assert_eq!(
        parse_attributes(0, &vec![named("body", Meta::Path)]),
        Err(Diagnostic {
            fault: Fault::ArgumentsMissing(Annotated::Body),
            location: Location::VariantAttribute { variant: 0, attribute: 0 },
        })
    );
}

#[test]
fn each_recognized_annotation_of_a_field_is_read() {
    assert_eq!(parse_field_annotation(&strings("key", &["aga"])), Ok(FieldAnnotation::Key("aga".to_string())));
    assert_eq!(parse_field_annotation(&named("from", Meta::Path)), Ok(FieldAnnotation::ConversionSource));
    assert_eq!(
        parse_field_annotation(&named("from", Meta::List(vec![Token::Group]))),
        Ok(FieldAnnotation::ConversionSource)
    );
    assert_eq!(parse_field_annotation(&named("from", Meta::NameValue)), Ok(FieldAnnotation::ConversionSource));
    assert_eq!(parse_field_annotation(&status("OK")), Ok(FieldAnnotation::Other));
    assert_eq!(parse_field_annotation(&named("serde", Meta::List(vec![]))), Ok(FieldAnnotation::Other));
}

#[test]
fn a_key_must_be_one_string() {
    assert_eq!(parse_field_annotation(&named("key", Meta::Path)), Err(Fault::KeyNotString));
    assert_eq!(parse_field_annotation(&named("key", Meta::NameValue)), Err(Fault::KeyNotString));
    assert_eq!(parse_field_annotation(&strings("key", &[])), Err(Fault::KeyNotString));
    assert_eq!(parse_field_annotation(&strings("key", &["a", "b"])), Err(Fault::KeyNotString));
    assert_eq!(
        parse_field_annotation(&named("key", Meta::List(vec![Token::Ident("aga".to_string())]))),
        Err(Fault::KeyNotString)
    );
    assert_eq!(Fault::KeyNotString.kind(), ErrorKind::InvalidAttributeGrammar);
}

#[test]
fn a_variant_may_have_no_field() {
    assert_eq!(parse_field_attributes(0, &vec![]), Ok(None));
}

#[test]
fn the_one_field_is_declared_by_its_type_and_annotations() {
    assert_eq!(
        parse_field_attributes(0, &vec![unnamed_field("String", vec![])]),
        Ok(Some(FieldDecl { ty: "String".to_string(), json_key: None, is_conversion_source: false }))
    );
    assert_eq!(
        parse_field_attributes(0, &vec![unnamed_field("String", vec![strings("key", &["awwa"])])]),
        Ok(Some(FieldDecl {
            ty: "String".to_string(),
            json_key: Some("awwa".to_string()),
            is_conversion_source: false,
        }))
    );
    assert_eq!(
        parse_field_attributes(0, &vec![unnamed_field("FromUtf8Error", vec![named("from", Meta::Path)])]),
        Ok(Some(FieldDecl {
            ty: "FromUtf8Error".to_string(),
            json_key: None,
            is_conversion_source: true,
        }))
    );
    assert_eq!(
        parse_field_attributes(
            0,
            &vec![unnamed_field(
                "E",
                vec![
                    strings("key", &["first"]),
                    named("from", Meta::Path),
                    named("doc", Meta::NameValue),
                    strings("key", &["last"]),
                ]
            )]
        ),
        Ok(Some(FieldDecl {
            ty: "E".to_string(),
            json_key: Some("last".to_string()),
            is_conversion_source: true,
        }))
    );
}

#[test]
fn a_named_field_is_refused() {
    let refusal = parse_field_attributes(
        2,
        &vec![RawField { named: true, ty: "String".to_string(), attrs: vec![] }],
    )
    .unwrap_err();
    assert_eq!(
        refusal,
        Diagnostic { fault: Fault::NamedField, location: Location::Field { variant: 2, field: 0 } }
    );
    assert_eq!(refusal.kind(), ErrorKind::FieldCardinalityError);
}

#[test]
fn a_second_field_is_refused_at_the_second_field() {
    let refusal = parse_field_attributes(
        1,
        &vec![unnamed_field("String", vec![]), unnamed_field("u8", vec![])],
    )
    .unwrap_err();
    assert_eq!(
        refusal,
        Diagnostic { fault: Fault::ExtraField, location: Location::Field { variant: 1, field: 1 } }
    );
    assert_eq!(refusal.kind(), ErrorKind::FieldCardinalityError);
}

#[test]
fn the_count_of_fields_is_checked_before_their_annotations() {
    let broken = RawAttribute { name: None, meta: Meta::Path };
    assert_eq!(
        parse_field_attributes(0, &vec![unnamed_field("A", vec![broken.clone()]), unnamed_field("B", vec![])]),
        Err(Diagnostic { fault: Fault::ExtraField, location: Location::Field { variant: 0, field: 1 } })
    );
    assert_eq!(
        parse_field_attributes(0, &vec![RawField { named: true, ty: "A".to_string(), attrs: vec![broken] }]),
        Err(Diagnostic { fault: Fault::NamedField, location: Location::Field { variant: 0, field: 0 } })
    );
}

#[test]
fn the_first_unreadable_annotation_of_a_field_decides() {
    assert_eq!(
        parse_field_attributes(
            7,
            &vec![unnamed_field(
                "E",
                vec![
                    named("from", Meta::Path),
                    named("key", Meta::Path),
                    RawAttribute { name: None, meta: Meta::Path },
                ]
            )]
        ),
        Err(Diagnostic {
            fault: Fault::KeyNotString,
            location: Location::FieldAttribute { variant: 7, field: 0, attribute: 1 },
        })
    );
    assert_eq!(
        parse_field_attributes(
            7,
            &vec![unnamed_field("E", vec![RawAttribute { name: None, meta: Meta::Path }])]
        ),
        Err(Diagnostic {
            fault: Fault::UnnamedAttribute,
            location: Location::FieldAttribute { variant: 7, field: 0, attribute: 0 },
        })
    );
}
