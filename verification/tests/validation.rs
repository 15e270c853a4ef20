use axum_enum_response::declaration::{Meta, RawAttribute, RawField, RawSchema, RawVariant, Shape};
use axum_enum_response::diagnostics::{Diagnostic, ErrorKind, Fault, Location};
use axum_enum_response::schema::{BodySpec, EnumSchema, FieldDecl, VariantDecl};
use axum_enum_response::status::StatusCode;
use axum_enum_response::tokens::Token;
use axum_enum_response::validate::{validate, validate_variant};

fn status(name: &str) -> RawAttribute {
    RawAttribute {
        name: Some("status_code".to_string()),
        meta: Meta::List(vec![Token::Ident(name.to_string())]),
    }
}

fn body(value: &str) -> RawAttribute {
    RawAttribute {
        name: Some("body".to_string()),
        meta: Meta::List(vec![Token::Str(value.to_string())]),
    }
}

fn marker(name: &str) -> RawAttribute {
    RawAttribute { name: Some(name.to_string()), meta: Meta::Path }
}

fn unit(name: &str, attrs: Vec<RawAttribute>) -> RawVariant {
    RawVariant { name: name.to_string(), attrs, fields: vec![] }
}

fn tuple(name: &str, attrs: Vec<RawAttribute>, fields: Vec<RawField>) -> RawVariant {
    RawVariant { name: name.to_string(), attrs, fields }
}

fn field(ty: &str, attrs: Vec<RawAttribute>) -> RawField {
    RawField { named: false, ty: ty.to_string(), attrs }
}

fn an_enum(variants: Vec<RawVariant>) -> RawSchema {
    RawSchema { name: "ErrorResponse".to_string(), shape: Shape::Enum, variants }
}

#[test]
fn a_struct_or_a_union_is_refused() {
    for shape in [Shape::Struct, Shape::Union] {
        let refusal =
            validate(&RawSchema { name: "NotAnEnum".to_string(), shape, variants: vec![] })
                .unwrap_err();
        assert_eq!(refusal, Diagnostic { fault: Fault::NotAnEnum, location: Location::Schema });
        assert_eq!(refusal.kind(), ErrorKind::SchemaShapeError);
    }
}

#[test]
fn the_shape_is_checked_before_any_variant() {
    let schema = RawSchema {
        name: "S".to_string(),
        shape: Shape::Struct,
        variants: vec![unit("Broken", vec![])],
    };
    assert_eq!(
        validate(&schema),
        Err(Diagnostic { fault: Fault::NotAnEnum, location: Location::Schema })
    );
}

#[test]
fn an_enum_without_variants_is_valid() {
    assert_eq!(
        validate(&an_enum(vec![])),
        Ok(EnumSchema { name: "ErrorResponse".to_string(), variants: vec![] })
    );
}

#[test]
fn every_variant_is_declared_in_its_place() {
    let schema = an_enum(vec![
        unit("Unauthorized", vec![status("UNAUTHORIZED")]),
        unit("Forbidden", vec![status("FORBIDDEN"), body("mew")]),
        tuple(
            "Internal",
            vec![status("INTERNAL_SERVER_ERROR")],
            vec![field("String", vec![marker("from")])],
        ),
    ]);
    assert_eq!(
        validate(&schema),
        Ok(EnumSchema {
            name: "ErrorResponse".to_string(),
            variants: vec![
                VariantDecl {
                    name: "Unauthorized".to_string(),
                    status_code: StatusCode { name: "UNAUTHORIZED".to_string(), code: 401 },
                    body: None,
                    message: None,
                    field: None,
                },
                VariantDecl {
                    name: "Forbidden".to_string(),
                    status_code: StatusCode { name: "FORBIDDEN".to_string(), code: 403 },
                    body: Some(BodySpec::Bare("mew".to_string())),
                    message: None,
                    field: None,
                },
                VariantDecl {
                    name: "Internal".to_string(),
                    status_code: StatusCode {
                        name: "INTERNAL_SERVER_ERROR".to_string(),
                        code: 500
                    },
                    body: None,
                    message: None,
                    field: Some(FieldDecl {
                        ty: "String".to_string(),
                        json_key: None,
                        is_conversion_source: true,
                    }),
                },
            ],
        })
    );
}

#[test]
fn the_fields_of_a_variant_are_checked_before_its_annotations() {
    let variant = tuple("Both", vec![], vec![field("A", vec![]), field("B", vec![])]);
    assert_eq!(
        validate_variant(0, &variant),
        Err(Diagnostic { fault: Fault::ExtraField, location: Location::Field { variant: 0, field: 1 } })
    );
}

#[test]
fn the_first_refused_variant_decides() {
    let schema = an_enum(vec![
        unit("Fine", vec![status("OK")]),
        unit("NoStatus", vec![body("mew")]),
        tuple("TwoFields", vec![status("OK")], vec![field("A", vec![]), field("B", vec![])]),
    ]);
    assert_eq!(
        validate(&schema),
        Err(Diagnostic { fault: Fault::StatusCodeMissing, location: Location::Variant { variant: 1 } })
    );
    let schema = an_enum(vec![
        unit("Fine", vec![status("OK")]),
        tuple("TwoFields", vec![status("OK")], vec![field("A", vec![]), field("B", vec![])]),
        unit("NoStatus", vec![body("mew")]),
    ]);
    assert_eq!(
        validate(&schema),
        Err(Diagnostic { fault: Fault::ExtraField, location: Location::Field { variant: 1, field: 1 } })
    );
}

#[test]
fn what_follows_the_first_refused_variant_changes_nothing() {
    let head = vec![unit("Fine", vec![status("OK")]), unit("NoStatus", vec![])];
    let short = validate(&an_enum(head.clone()));
    let mut longer = head.clone();
    longer.push(unit("AlsoBroken", vec![marker("body")]));
    longer.push(unit("Good", vec![status("GONE")]));
    assert_eq!(validate(&an_enum(longer)), short);
    assert_eq!(
        short,
        Err(Diagnostic { fault: Fault::NoAttributes, location: Location::Variant { variant: 1 } })
    );
}

#[test]
fn an_unknown_status_name_fails_validation() {
    let refusal = validate(&an_enum(vec![unit("Odd", vec![status("NOT_A_STATUS")])])).unwrap_err();
    assert_eq!(
        refusal,
        Diagnostic {
            fault: Fault::UnknownStatusCode,
            location: Location::VariantAttribute { variant: 0, attribute: 0 },
        }
    );
    assert_eq!(refusal.kind(), ErrorKind::InvalidAttributeGrammar);
}
