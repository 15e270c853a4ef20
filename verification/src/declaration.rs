//! A declaration as it was written, before any check.

use crate::tokens::{Token, TokenView};
use vstd::prelude::*;

verus! {

/// The three forms in which an annotation is written.
#[derive(Clone, Debug, PartialEq, Eq)]
pub enum Meta {
    /// `#[name]`
    Path,
    /// `#[name(tokens)]`, with brackets of any kind.
    List(Vec<Token>),
    /// `#[name = value]`
    NameValue,
}

/// What a [`Meta`] holds.
pub enum MetaView {
    Path,
    List(Seq<TokenView>),
    NameValue,
}

impl DeepView for Meta {
    type V = MetaView;

    open spec fn deep_view(&self) -> MetaView {
        match self {
            Meta::Path => MetaView::Path,
            Meta::List(tokens) => MetaView::List(tokens.deep_view()),
            Meta::NameValue => MetaView::NameValue,
        }
    }
}

impl View for Meta {
    type V = MetaView;

    open spec fn view(&self) -> MetaView {
        self.deep_view()
    }
}

/// One annotation of a variant or of a field.
#[derive(Clone, Debug, PartialEq, Eq)]
pub struct RawAttribute {
    /// The annotation's name; `None` where its path is not a single name.
    pub name: Option<String>,
    pub meta: Meta,
}

/// What a [`RawAttribute`] holds.
pub struct RawAttributeView {
    pub name: Option<Seq<char>>,
    pub meta: MetaView,
}

impl DeepView for RawAttribute {
    type V = RawAttributeView;

    open spec fn deep_view(&self) -> RawAttributeView {
        RawAttributeView { name: self.name.deep_view(), meta: self.meta@ }
    }
}

impl View for RawAttribute {
    type V = RawAttributeView;

    open spec fn view(&self) -> RawAttributeView {
        self.deep_view()
    }
}

/// One field of a variant.
#[derive(Clone, Debug, PartialEq, Eq)]
pub struct RawField {
    /// Whether the field was declared with a name.
    pub named: bool,
    /// The field's type, as it was written.
    pub ty: String,
    pub attrs: Vec<RawAttribute>,
}

/// What a [`RawField`] holds.
pub struct RawFieldView {
    pub named: bool,
    pub ty: Seq<char>,
    pub attrs: Seq<RawAttributeView>,
}

impl DeepView for RawField {
    type V = RawFieldView;

    open spec fn deep_view(&self) -> RawFieldView {
        RawFieldView { named: self.named, ty: self.ty@, attrs: self.attrs.deep_view() }
    }
}

impl View for RawField {
    type V = RawFieldView;

    open spec fn view(&self) -> RawFieldView {
        self.deep_view()
    }
}

/// One variant of a declaration.
#[derive(Clone, Debug, PartialEq, Eq)]
pub struct RawVariant {
    pub name: String,
    pub attrs: Vec<RawAttribute>,
    pub fields: Vec<RawField>,
}

/// What a [`RawVariant`] holds.
pub struct RawVariantView {
    pub name: Seq<char>,
    pub attrs: Seq<RawAttributeView>,
    pub fields: Seq<RawFieldView>,
}

impl DeepView for RawVariant {
    type V = RawVariantView;

    open spec fn deep_view(&self) -> RawVariantView {
        RawVariantView {
            name: self.name@,
            attrs: self.attrs.deep_view(),
            fields: self.fields.deep_view(),
        }
    }
}

impl View for RawVariant {
    type V = RawVariantView;

    open spec fn view(&self) -> RawVariantView {
        self.deep_view()
    }
}

/// What kind of type a declaration declares.
#[derive(Clone, Copy, Debug, PartialEq, Eq, Structural)]
pub enum Shape {
    Enum,
    Struct,
    Union,
}

/// A declaration: the type's name, its kind and, for an enum, its variants in
/// the order in which they were written.
#[derive(Clone, Debug, PartialEq, Eq)]
pub struct RawSchema {
    pub name: String,
    pub shape: Shape,
    pub variants: Vec<RawVariant>,
}

/// What a [`RawSchema`] holds.
pub struct RawSchemaView {
    pub name: Seq<char>,
    pub shape: Shape,
    pub variants: Seq<RawVariantView>,
}

impl DeepView for RawSchema {
    type V = RawSchemaView;

    open spec fn deep_view(&self) -> RawSchemaView {
        RawSchemaView {
            name: self.name@,
            shape: self.shape,
            variants: self.variants.deep_view(),
        }
    }
}

impl View for RawSchema {
    type V = RawSchemaView;

    open spec fn view(&self) -> RawSchemaView {
        self.deep_view()
    }
}

} // verus!
