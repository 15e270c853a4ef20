//! A declaration that has passed validation.

use crate::status::{StatusCode, StatusCodeView};
use vstd::prelude::*;

verus! {

/// The literal body that a `body` annotation asks for.
#[derive(Clone, Debug, PartialEq, Eq)]
pub enum BodySpec {
    /// `#[body("value")]`: the object `{"error": value}`.
    Bare(String),
    /// `#[body("key" => "value")]`: the object `{key: value}`.
    KeyValue(String, String),
}

/// What a [`BodySpec`] holds.
pub enum BodySpecView {
    Bare(Seq<char>),
    KeyValue(Seq<char>, Seq<char>),
}

impl DeepView for BodySpec {
    type V = BodySpecView;

    open spec fn deep_view(&self) -> BodySpecView {
        match self {
            BodySpec::Bare(value) => BodySpecView::Bare(value@),
            BodySpec::KeyValue(key, value) => BodySpecView::KeyValue(key@, value@),
        }
    }
}

impl View for BodySpec {
    type V = BodySpecView;

    open spec fn view(&self) -> BodySpecView {
        self.deep_view()
    }
}

/// The one field of a variant.
#[derive(Clone, Debug, PartialEq, Eq)]
pub struct FieldDecl {
    /// The field's type, as it was written.
    pub ty: String,
    /// The key under which the field's value goes into the body.
    pub json_key: Option<String>,
    /// Whether a value of the field's type converts into the variant.
    pub is_conversion_source: bool,
}

/// What a [`FieldDecl`] holds.
pub struct FieldDeclView {
    pub ty: Seq<char>,
    pub json_key: Option<Seq<char>>,
    pub is_conversion_source: bool,
}

impl DeepView for FieldDecl {
    type V = FieldDeclView;

    open spec fn deep_view(&self) -> FieldDeclView {
        FieldDeclView {
            ty: self.ty@,
            json_key: self.json_key.deep_view(),
            is_conversion_source: self.is_conversion_source,
        }
    }
}

impl View for FieldDecl {
    type V = FieldDeclView;

    open spec fn view(&self) -> FieldDeclView {
        self.deep_view()
    }
}

/// What the annotations of one variant say.
#[derive(Clone, Debug, PartialEq, Eq)]
pub struct VariantAttributes {
    pub status_code: StatusCode,
    pub body: Option<BodySpec>,
    pub message: Option<String>,
}

/// What a [`VariantAttributes`] holds.
pub struct VariantAttributesView {
    pub status_code: StatusCodeView,
    pub body: Option<BodySpecView>,
    pub message: Option<Seq<char>>,
}

impl DeepView for VariantAttributes {
    type V = VariantAttributesView;

    open spec fn deep_view(&self) -> VariantAttributesView {
        VariantAttributesView {
            status_code: self.status_code@,
            body: self.body.deep_view(),
            message: self.message.deep_view(),
        }
    }
}

impl View for VariantAttributes {
    type V = VariantAttributesView;

    open spec fn view(&self) -> VariantAttributesView {
        self.deep_view()
    }
}

/// One variant of a validated declaration.
#[derive(Clone, Debug, PartialEq, Eq)]
pub struct VariantDecl {
    pub name: String,
    pub status_code: StatusCode,
    pub body: Option<BodySpec>,
    pub message: Option<String>,
    pub field: Option<FieldDecl>,
}

/// What a [`VariantDecl`] holds.
pub struct VariantDeclView {
    pub name: Seq<char>,
    pub status_code: StatusCodeView,
    pub body: Option<BodySpecView>,
    pub message: Option<Seq<char>>,
    pub field: Option<FieldDeclView>,
}

impl DeepView for VariantDecl {
    type V = VariantDeclView;

    open spec fn deep_view(&self) -> VariantDeclView {
        VariantDeclView {
            name: self.name@,
            status_code: self.status_code@,
            body: self.body.deep_view(),
            message: self.message.deep_view(),
            field: self.field.deep_view(),
        }
    }
}

impl View for VariantDecl {
    type V = VariantDeclView;

    open spec fn view(&self) -> VariantDeclView {
        self.deep_view()
    }
}

impl VariantDeclView {
    /// The variant has a field whose type converts into it.
    pub open spec fn wraps(self) -> bool {
        self.field matches Some(field) && field.is_conversion_source
    }
}

/// A validated declaration: the enum's name and its variants, in the order in
/// which they were declared.
#[derive(Clone, Debug, PartialEq, Eq)]
pub struct EnumSchema {
    pub name: String,
    pub variants: Vec<VariantDecl>,
}

/// What an [`EnumSchema`] holds.
pub struct EnumSchemaView {
    pub name: Seq<char>,
    pub variants: Seq<VariantDeclView>,
}

impl DeepView for EnumSchema {
    type V = EnumSchemaView;

    open spec fn deep_view(&self) -> EnumSchemaView {
        EnumSchemaView { name: self.name@, variants: self.variants.deep_view() }
    }
}

impl View for EnumSchema {
    type V = EnumSchemaView;

    open spec fn view(&self) -> EnumSchemaView {
        self.deep_view()
    }
}

impl EnumSchemaView {
    /// Every variant's status code is one of the table.
    pub open spec fn well_formed(self) -> bool {
        forall|i: int| 0 <= i < self.variants.len() ==> (#[trigger] self.variants[i]).status_code.listed()
    }
}

} // verus!
