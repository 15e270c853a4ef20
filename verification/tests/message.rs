use axum::http::StatusCode;
use axum_enum_response::declaration::{Meta, RawAttribute, RawSchema, RawVariant, Shape};
use axum_enum_response::enum_into_response;
use axum_enum_response::response::{Body, Instance, Payload};
use axum_enum_response::synth::BodyRule;
use axum_enum_response::tokens::Token;

fn test_response() -> RawSchema {
    RawSchema {
        name: "TestResponse".to_string(),
        shape: Shape::Enum,
        variants: vec![RawVariant {
            name: "InternalServerError".to_string(),
            attrs: vec![
                RawAttribute {
                    name: Some("status_code".to_string()),
                    meta: Meta::List(vec![Token::Ident("INTERNAL_SERVER_ERROR".to_string())]),
                },
                RawAttribute {
                    name: Some("message".to_string()),
                    meta: Meta::List(vec![Token::literal("\"InternalServerError\"")]),
                },
            ],
            fields: vec![],
        }],
    }
}

#[test]
fn no_fields() {
    let artifact = enum_into_response(&test_response()).unwrap();
    {
        let res = artifact.respond(&Instance { variant: 0, field: None }).unwrap();
        assert_eq!(res.status, StatusCode::INTERNAL_SERVER_ERROR.as_u16());

        let body = res.payload();
        assert_eq!(body, "{\"message\":\"InternalServerError\"}");
    }
}

#[test]
fn message_becomes_the_entry_under_message() {
    let artifact = enum_into_response(&test_response()).unwrap();
    assert_eq!(
        artifact.rules[0].body,
        BodyRule::Literal { key: "message".to_string(), value: "InternalServerError".to_string() }
    );
    let res = artifact.respond(&Instance { variant: 0, field: None }).unwrap();
    assert_eq!(res.status, 500);
    assert_eq!(
        res.body,
        Some(Body::Entry {
            key: "message".to_string(),
            value: Payload::Text("InternalServerError".to_string()),
        })
    );
}
