//! What is reported when a declaration is refused: the fault, and the place
//! in the declaration at which it was found.

use vstd::prelude::*;

verus! {

/// The five kinds of refusal.
#[derive(Clone, Copy, Debug, PartialEq, Eq, Structural)]
pub enum ErrorKind {
    /// The declared type is not an enum.
    SchemaShapeError,
    /// A variant has no `status_code` annotation.
    MissingStatusCode,
    /// A recognized annotation whose payload is not of its grammar.
    InvalidAttributeGrammar,
    /// A variant with a named field, or with more than one field.
    FieldCardinalityError,
    /// An annotation whose path is not a single name.
    UnnamedAttributeError,
}

/// An annotation that the library recognizes on a variant.
#[derive(Clone, Copy, Debug, PartialEq, Eq, Structural)]
pub enum Annotated {
    StatusCode,
    Body,
    Message,
}

/// The precise cause of a refusal. Its kind and its message follow from it.
#[derive(Clone, Copy, Debug, PartialEq, Eq, Structural)]
pub enum Fault {
    /// The declaration is a struct or a union.
    NotAnEnum,
    /// The first field of a variant has a name.
    NamedField,
    /// A variant has a second field.
    ExtraField,
    /// The path of an annotation is not a single name.
    UnnamedAttribute,
    /// A variant carries no annotation at all.
    NoAttributes,
    /// A variant carries annotations, none of them `status_code`.
    StatusCodeMissing,
    /// A recognized annotation was written without arguments.
    ArgumentsMissing(Annotated),
    /// A recognized annotation was written as `name = value`.
    ParenthesesExpected,
    /// A token stands where a string literal is due.
    StringExpected,
    /// The arguments end where a string literal is due.
    StringExpectedAtEnd,
    /// A token follows the end of a complete payload.
    UnexpectedToken,
    /// The argument of `status_code` is not a single name.
    StatusNameExpected,
    /// The argument of `status_code` names no status code of the table.
    UnknownStatusCode,
    /// The argument of `key` is not a single string literal.
    KeyNotString,
}

/// A place in a declaration. Variants, fields and annotations are counted
/// from zero in the order in which they were written.
#[derive(Clone, Copy, Debug, PartialEq, Eq, Structural)]
pub enum Location {
    /// The name of the declared type.
    Schema,
    /// The name of a variant.
    Variant { variant: usize },
    /// An annotation of a variant.
    VariantAttribute { variant: usize, attribute: usize },
    /// A field of a variant.
    Field { variant: usize, field: usize },
    /// An annotation of a field of a variant.
    FieldAttribute { variant: usize, field: usize, attribute: usize },
}

/// A refusal: what is wrong, and where.
#[derive(Clone, Copy, Debug, PartialEq, Eq, Structural)]
pub struct Diagnostic {
    pub fault: Fault,
    pub location: Location,
}

impl Fault {
    /// The kind under which this fault is reported.
    pub open spec fn kind_of(self) -> ErrorKind {
        match self {
            Fault::NotAnEnum => ErrorKind::SchemaShapeError,
            Fault::NamedField | Fault::ExtraField => ErrorKind::FieldCardinalityError,
            Fault::UnnamedAttribute => ErrorKind::UnnamedAttributeError,
            Fault::NoAttributes | Fault::StatusCodeMissing => ErrorKind::MissingStatusCode,
            Fault::ArgumentsMissing(_)
            | Fault::ParenthesesExpected
            | Fault::StringExpected
            | Fault::StringExpectedAtEnd
            | Fault::UnexpectedToken
            | Fault::StatusNameExpected
            | Fault::UnknownStatusCode
            | Fault::KeyNotString => ErrorKind::InvalidAttributeGrammar,
        }
    }

    /// The kind under which this fault is reported.
    pub fn kind(&self) -> (kind: ErrorKind)
        ensures
            kind == self.kind_of(),
    {
        match self {
            Fault::NotAnEnum => ErrorKind::SchemaShapeError,
            Fault::NamedField | Fault::ExtraField => ErrorKind::FieldCardinalityError,
            Fault::UnnamedAttribute => ErrorKind::UnnamedAttributeError,
            Fault::NoAttributes | Fault::StatusCodeMissing => ErrorKind::MissingStatusCode,
            _ => ErrorKind::InvalidAttributeGrammar,
        }
    }

    /// The message with which this fault is reported.
    pub open spec fn message_of(self) -> Seq<char> {
        match self {
            Fault::NotAnEnum => "You may only use 'EnumIntoResponse' on enums"@,
            Fault::NamedField => "EnumIntoResponse only supports unnamed fields."@,
            Fault::ExtraField => "EnumIntoResponse only supports up to one unnamed field."@,
            Fault::UnnamedAttribute => "You must name attributes"@,
            Fault::NoAttributes => "You must specify the 'status_code' attribute"@,
            Fault::StatusCodeMissing => "'status_code' attribute must be specified"@,
            Fault::ArgumentsMissing(Annotated::StatusCode) => "expected attribute arguments in parentheses: `status_code(...)`"@,
            Fault::ArgumentsMissing(Annotated::Body) => "expected attribute arguments in parentheses: `body(...)`"@,
            Fault::ArgumentsMissing(Annotated::Message) => "expected attribute arguments in parentheses: `message(...)`"@,
            Fault::ParenthesesExpected => "expected `(`"@,
            Fault::StringExpected => "expected string literal"@,
            Fault::StringExpectedAtEnd => "unexpected end of input, expected string literal"@,
            Fault::UnexpectedToken => "unexpected token"@,
            Fault::StatusNameExpected => "expected the name of a status code"@,
            Fault::UnknownStatusCode => "unknown status code"@,
            Fault::KeyNotString => "'key' attribute value must be a string"@,
        }
    }

    /// The message with which this fault is reported.
    pub fn message(&self) -> (message: String)
        ensures
            message@ == self.message_of(),
    {
        match self {
            Fault::NotAnEnum => "You may only use 'EnumIntoResponse' on enums".to_owned(),
            Fault::NamedField => "EnumIntoResponse only supports unnamed fields.".to_owned(),
            Fault::ExtraField => "EnumIntoResponse only supports up to one unnamed field.".to_owned(),
            Fault::UnnamedAttribute => "You must name attributes".to_owned(),
            Fault::NoAttributes => "You must specify the 'status_code' attribute".to_owned(),
            Fault::StatusCodeMissing => "'status_code' attribute must be specified".to_owned(),
            Fault::ArgumentsMissing(Annotated::StatusCode) => "expected attribute arguments in parentheses: `status_code(...)`".to_owned(),
            Fault::ArgumentsMissing(Annotated::Body) => "expected attribute arguments in parentheses: `body(...)`".to_owned(),
            Fault::ArgumentsMissing(Annotated::Message) => "expected attribute arguments in parentheses: `message(...)`".to_owned(),
            Fault::ParenthesesExpected => "expected `(`".to_owned(),
            Fault::StringExpected => "expected string literal".to_owned(),
            Fault::StringExpectedAtEnd => "unexpected end of input, expected string literal".to_owned(),
            Fault::UnexpectedToken => "unexpected token".to_owned(),
            Fault::StatusNameExpected => "expected the name of a status code".to_owned(),
            Fault::UnknownStatusCode => "unknown status code".to_owned(),
            Fault::KeyNotString => "'key' attribute value must be a string".to_owned(),
        }
    }
}

impl Diagnostic {
    /// The kind of this refusal.
    pub fn kind(&self) -> (kind: ErrorKind)
        ensures
            kind == self.fault.kind_of(),
    {
        self.fault.kind()
    }

    /// The message of this refusal.
    pub fn message(&self) -> (message: String)
        ensures
            message@ == self.fault.message_of(),
    {
        self.fault.message()
    }
}

} // verus!
