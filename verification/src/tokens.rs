//! The tokens of an annotation's payload.

use vstd::prelude::*;

verus! {

/// One token of a payload. Groups that have no delimiters of their own are
/// not tokens: what they hold stands in their place.
#[derive(Clone, Debug, PartialEq, Eq)]
pub enum Token {
    /// A name.
    Ident(String),
    /// A string literal; the text is what the literal stands for.
    Str(String),
    /// Any other literal; the text is the literal as it was written.
    Literal(String),
    /// One character of punctuation; `joint` says that the next token is
    /// another one, written directly behind it.
    Punct { ch: char, joint: bool },
    /// Tokens between brackets of any kind.
    Group,
}

/// What a [`Token`] holds.
pub enum TokenView {
    Ident(Seq<char>),
    Str(Seq<char>),
    Literal(Seq<char>),
    Punct { ch: char, joint: bool },
    Group,
}

impl DeepView for Token {
    type V = TokenView;

    open spec fn deep_view(&self) -> TokenView {
        match self {
            Token::Ident(name) => TokenView::Ident(name@),
            Token::Str(value) => TokenView::Str(value@),
            Token::Literal(repr) => TokenView::Literal(repr@),
            Token::Punct { ch, joint } => TokenView::Punct { ch: *ch, joint: *joint },
            Token::Group => TokenView::Group,
        }
    }
}

impl View for Token {
    type V = TokenView;

    open spec fn view(&self) -> TokenView {
        self.deep_view()
    }
}

/// What the Rust string literal written as `repr` stands for, or `None` where
/// `repr` is not one string literal.
pub uninterp spec fn string_literal_value(repr: Seq<char>) -> Option<Seq<char>>;

/// Reads `repr` as one Rust string literal with `syn::parse_str::<syn::LitStr>`
/// and decodes it with `syn::LitStr::value`. The result is `None` where syn
/// refuses `repr`; otherwise it is the text that the literal stands for, with
/// its escapes resolved. The contract gives that outcome a name and says no
/// more of it.
#[verifier::external_body]
fn decode_string_literal(repr: &str) -> (value: Option<String>)
    ensures
        value.deep_view() == string_literal_value(repr@),
{
    match syn::parse_str::<syn::LitStr>(repr) {
        Ok(literal) => Some(literal.value()),
        Err(_) => None,
    }
}

/// The token of a literal that was written as `repr`, given what `repr`
/// stands for as a string literal, if it is one.
pub open spec fn literal_token(repr: Seq<char>, value: Option<Seq<char>>) -> TokenView {
    match value {
        Some(text) => TokenView::Str(text),
        None => TokenView::Literal(repr),
    }
}

impl Token {
    /// The token of a literal that was written as `repr`, where `value` is
    /// what `repr` stands for if it is a string literal.
    pub fn classify(repr: &str, value: Option<String>) -> (token: Token)
        ensures
            token@ == literal_token(repr@, value.deep_view()),
    {
        match value {
            Some(text) => Token::Str(text),
            None => Token::Literal(repr.to_owned()),
        }
    }

    /// The token of a literal that was written as `repr`: a [`Token::Str`]
    /// with the decoded text where `repr` is a string literal, a
    /// [`Token::Literal`] otherwise.
    pub fn literal(repr: &str) -> (token: Token)
        ensures
            token@ == literal_token(repr@, string_literal_value(repr@)),
    {
        Token::classify(repr, decode_string_literal(repr))
    }
}

} // verus!
