//! The grammars of the payloads: what stands between the brackets of
//! `status_code(..)`, `body(..)`, `message(..)` and `key(..)`.

use crate::diagnostics::Fault;
use crate::outcome::viewed;
use crate::schema::{BodySpec, BodySpecView};
use crate::status::{status_code_named, StatusCode, StatusCodeView};
use crate::tokens::{Token, TokenView};
use vstd::prelude::*;

verus! {

/// The payload is one string literal and nothing else.
pub open spec fn string_argument(tokens: Seq<TokenView>) -> Result<Seq<char>, Fault> {
    if tokens.len() == 0 {
        Err(Fault::StringExpectedAtEnd)
    } else if !(tokens[0] is Str) {
        Err(Fault::StringExpected)
    } else if tokens.len() > 1 {
        Err(Fault::UnexpectedToken)
    } else {
        Ok(tokens[0]->Str_0)
    }
}

/// The two tokens at `at` are the arrow `=>`: a `=` with a `>` written
/// directly behind it.
pub open spec fn arrow_at(tokens: Seq<TokenView>, at: int) -> bool {
    &&& 0 <= at
    &&& at + 1 < tokens.len()
    &&& tokens[at] == (TokenView::Punct { ch: '=', joint: true })
    &&& tokens[at + 1] matches TokenView::Punct { ch, .. }
    &&& ch == '>'
}

/// The payload of `body`: one string literal, or two with an arrow between
/// them. Where it is neither, the fault is that of the first place at which
/// it departs from both.
pub open spec fn body_argument(tokens: Seq<TokenView>) -> Result<BodySpecView, Fault> {
    if tokens.len() == 0 {
        Err(Fault::StringExpectedAtEnd)
    } else if !(tokens[0] is Str) {
        Err(Fault::StringExpected)
    } else if tokens.len() == 1 {
        Ok(BodySpecView::Bare(tokens[0]->Str_0))
    } else if !arrow_at(tokens, 1) {
        Err(Fault::UnexpectedToken)
    } else if tokens.len() == 3 {
        Err(Fault::StringExpectedAtEnd)
    } else if !(tokens[3] is Str) {
        Err(Fault::StringExpected)
    } else if tokens.len() > 4 {
        Err(Fault::UnexpectedToken)
    } else {
        Ok(BodySpecView::KeyValue(tokens[0]->Str_0, tokens[3]->Str_0))
    }
}

/// The payload of `status_code`: one name, which the table of status codes
/// holds.
pub open spec fn status_argument(tokens: Seq<TokenView>) -> Result<StatusCodeView, Fault> {
    if tokens.len() != 1 || !(tokens[0] is Ident) {
        Err(Fault::StatusNameExpected)
    } else {
        match status_code_named(tokens[0]->Ident_0) {
            Some(code) => Ok(StatusCodeView { name: tokens[0]->Ident_0, code }),
            None => Err(Fault::UnknownStatusCode),
        }
    }
}

/// Reads a payload that is to be one string literal.
pub fn parse_string_argument(tokens: &Vec<Token>) -> (result: Result<String, Fault>)
    ensures
        viewed(result) == string_argument(tokens.deep_view()),
{
    if tokens.len() == 0 {
        return Err(Fault::StringExpectedAtEnd);
    }
    match &tokens[0] {
        Token::Str(value) => {
            if tokens.len() > 1 {
                Err(Fault::UnexpectedToken)
            } else {
                Ok(value.clone())
            }
        },
        _ => Err(Fault::StringExpected),
    }
}

/// Whether the two tokens at `at` are the arrow `=>`.
fn is_arrow_at(tokens: &Vec<Token>, at: usize) -> (found: bool)
    requires
        at < usize::MAX,
    ensures
        found == arrow_at(tokens.deep_view(), at as int),
{
    if at + 1 >= tokens.len() {
        return false;
    }
    let first = match &tokens[at] {
        Token::Punct { ch, joint } => *ch == '=' && *joint,
        _ => false,
    };
    let second = match &tokens[at + 1] {
        Token::Punct { ch, .. } => *ch == '>',
        _ => false,
    };
    first && second
}

impl BodySpec {
    /// Reads the payload of a `body` annotation.
    pub fn parse(tokens: &Vec<Token>) -> (result: Result<BodySpec, Fault>)
        ensures
            viewed(result) == body_argument(tokens.deep_view()),
    {
        let count = tokens.len();
        if count == 0 {
            return Err(Fault::StringExpectedAtEnd);
        }
        let first = match &tokens[0] {
            Token::Str(value) => value,
            _ => {
                return Err(Fault::StringExpected);
            },
        };
        if count == 1 {
            return Ok(BodySpec::Bare(first.clone()));
        }
        if !is_arrow_at(tokens, 1) {
            return Err(Fault::UnexpectedToken);
        }
        if count == 3 {
            return Err(Fault::StringExpectedAtEnd);
        }
        let second = match &tokens[3] {
            Token::Str(value) => value,
            _ => {
                return Err(Fault::StringExpected);
            },
        };
        if count > 4 {
            return Err(Fault::UnexpectedToken);
        }
        Ok(BodySpec::KeyValue(first.clone(), second.clone()))
    }
}

/// Reads the payload of a `status_code` annotation.
pub fn parse_status_argument(tokens: &Vec<Token>) -> (result: Result<StatusCode, Fault>)
    ensures
        viewed(result) == status_argument(tokens.deep_view()),
{
    if tokens.len() != 1 {
        return Err(Fault::StatusNameExpected);
    }
    match &tokens[0] {
        Token::Ident(name) => match StatusCode::named(name.as_str()) {
            Some(status) => Ok(status),
            None => Err(Fault::UnknownStatusCode),
        },
        _ => Err(Fault::StatusNameExpected),
    }
}

} // verus!
