use axum_enum_response::schema::{BodySpec, EnumSchema, FieldDecl, VariantDecl};
use axum_enum_response::status::StatusCode;
use axum_enum_response::synth::{
    synthesize, synthesize_body, synthesize_variant, Artifact, BodyRule, VariantRule,
    WrappingConstructor,
};

fn ok() -> StatusCode {
    StatusCode { name: "OK".to_string(), code: 200 }
}

fn variant(
    name: &str,
    body: Option<BodySpec>,
    message: Option<&str>,
    field: Option<FieldDecl>,
) -> VariantDecl {
    VariantDecl {
        name: name.to_string(),
        status_code: ok(),
        body,
        message: message.map(|text| text.to_string()),
        field,
    }
}

fn field(ty: &str, key: Option<&str>, source: bool) -> FieldDecl {
    FieldDecl {
        ty: ty.to_string(),
        json_key: key.map(|key| key.to_string()),
        is_conversion_source: source,
    }
}

#[test]
fn without_field_and_annotation_the_body_is_empty() {
    assert_eq!(synthesize_body(&variant("V", None, None, None)), BodyRule::Empty);
}

#[test]
fn a_bare_body_goes_under_error() {
    assert_eq!(
        synthesize_body(&variant("V", Some(BodySpec::Bare("mew".to_string())), None, None)),
        BodyRule::Literal { key: "error".to_string(), value: "mew".to_string() }
    );
}

#[test]
fn a_body_with_a_key_goes_under_its_key() {
    assert_eq!(
        synthesize_body(&variant(
            "V",
            Some(BodySpec::KeyValue("hello".to_string(), "world".to_string())),
            None,
            None
        )),
        BodyRule::Literal { key: "hello".to_string(), value: "world".to_string() }
    );
}

#[test]
fn a_message_goes_under_message() {
    assert_eq!(
        synthesize_body(&variant("V", None, Some("gone"), None)),
        BodyRule::Literal { key: "message".to_string(), value: "gone".to_string() }
    );
}

#[test]
fn a_message_decides_before_a_body() {
    assert_eq!(
        synthesize_body(&variant("V", Some(BodySpec::Bare("mew".to_string())), Some("gone"), None)),
        BodyRule::Literal { key: "message".to_string(), value: "gone".to_string() }
    );
}

#[test]
fn a_conversion_source_is_reported_by_its_text() {
    assert_eq!(
        synthesize_body(&variant("V", None, None, Some(field("E", Some("awwa"), true)))),
        BodyRule::FieldText { key: "awwa".to_string() }
    );
    assert_eq!(
        synthesize_body(&variant("V", None, None, Some(field("E", None, true)))),
        BodyRule::FieldText { key: "error".to_string() }
    );
}

#[test]
fn any_other_field_is_reported_by_its_serialized_form() {
    assert_eq!(
        synthesize_body(&variant("V", None, None, Some(field("T", Some("aga"), false)))),
        BodyRule::FieldValue { key: "aga".to_string() }
    );
    assert_eq!(
        synthesize_body(&variant("V", None, None, Some(field("T", None, false)))),
        BodyRule::FieldDocument
    );
}

#[test]
fn a_field_decides_before_every_annotation_of_the_variant() {
    let body = Some(BodySpec::KeyValue("hello".to_string(), "world".to_string()));
    assert_eq!(
        synthesize_body(&variant("V", body.clone(), Some("gone"), Some(field("T", None, false)))),
        BodyRule::FieldDocument
    );
    assert_eq!(
        synthesize_body(&variant("V", body, None, Some(field("E", None, true)))),
        BodyRule::FieldText { key: "error".to_string() }
    );
}

#[test]
fn a_rule_keeps_the_name_and_the_status_code_of_its_variant() {
    let decl = VariantDecl {
        name: "Gone".to_string(),
        status_code: StatusCode { name: "GONE".to_string(), code: 410 },
        body: None,
        message: None,
        field: None,
    };
    assert_eq!(
        synthesize_variant(&decl),
        VariantRule {
            variant: "Gone".to_string(),
            status_code: StatusCode { name: "GONE".to_string(), code: 410 },
            body: BodyRule::Empty,
        }
    );
}

#[test]
fn nothing_comes_of_an_enum_without_variants() {
    assert_eq!(
        synthesize(&EnumSchema { name: "Never".to_string(), variants: vec![] }),
        Artifact { name: "Never".to_string(), rules: vec![], constructors: vec![] }
    );
}

#[test]
fn one_rule_per_variant_and_one_constructor_per_conversion_source() {
    let schema = EnumSchema {
        name: "ErrorResponse".to_string(),
        variants: vec![
            variant("Plain", None, None, None),
            variant("Utf8", None, None, Some(field("FromUtf8Error", None, true))),
            variant("Data", None, None, Some(field("SomeData", None, false))),
            variant("Io", None, None, Some(field("std :: io :: Error", Some("io"), true))),
        ],
    };
    let artifact = synthesize(&schema);
    assert_eq!(artifact.name, "ErrorResponse");
    assert_eq!(
        artifact.rules.iter().map(|rule| rule.body.clone()).collect::<Vec<_>>(),
        vec![
            BodyRule::Empty,
            BodyRule::FieldText { key: "error".to_string() },
            BodyRule::FieldDocument,
            BodyRule::FieldText { key: "io".to_string() },
        ]
    );
    assert_eq!(
        artifact.rules.iter().map(|rule| rule.variant.as_str()).collect::<Vec<_>>(),
        vec!["Plain", "Utf8", "Data", "Io"]
    );
    assert_eq!(
        artifact.constructors,
        vec![
            WrappingConstructor {
                variant: 1,
                variant_name: "Utf8".to_string(),
                source: "FromUtf8Error".to_string(),
            },
            WrappingConstructor {
                variant: 3,
                variant_name: "Io".to_string(),
                source: "std :: io :: Error".to_string(),
            },
        ]
    );
}
