//! From a validated declaration to the rules of its variants.

use crate::schema::{BodySpec, BodySpecView, EnumSchema, EnumSchemaView, VariantDecl, VariantDeclView};
use crate::status::{StatusCode, StatusCodeView};
use vstd::prelude::*;

verus! {

/// How the body of a variant's response is made.
#[derive(Clone, Debug, PartialEq, Eq)]
pub enum BodyRule {
    /// No body.
    Empty,
    /// The object `{key: value}`, both fixed by the declaration.
    Literal { key: String, value: String },
    /// The object `{key: text}`, where `text` is the string representation of
    /// the field's value.
    FieldText { key: String },
    /// The object `{key: value}`, where `value` is the field's value in its
    /// serialized form.
    FieldValue { key: String },
    /// The field's value in its serialized form, as the whole body.
    FieldDocument,
}

/// What a [`BodyRule`] holds.
pub enum BodyRuleView {
    Empty,
    Literal { key: Seq<char>, value: Seq<char> },
    FieldText { key: Seq<char> },
    FieldValue { key: Seq<char> },
    FieldDocument,
}

impl DeepView for BodyRule {
    type V = BodyRuleView;

    open spec fn deep_view(&self) -> BodyRuleView {
        match self {
            BodyRule::Empty => BodyRuleView::Empty,
            BodyRule::Literal { key, value } => BodyRuleView::Literal { key: key@, value: value@ },
            BodyRule::FieldText { key } => BodyRuleView::FieldText { key: key@ },
            BodyRule::FieldValue { key } => BodyRuleView::FieldValue { key: key@ },
            BodyRule::FieldDocument => BodyRuleView::FieldDocument,
        }
    }
}

impl View for BodyRule {
    type V = BodyRuleView;

    open spec fn view(&self) -> BodyRuleView {
        self.deep_view()
    }
}

impl BodyRuleView {
    /// The rule reads the value of the variant's field.
    pub open spec fn reads_field(self) -> bool {
        self is FieldText || self is FieldValue || self is FieldDocument
    }
}

/// The rule of one variant: its status code and how its body is made.
#[derive(Clone, Debug, PartialEq, Eq)]
pub struct VariantRule {
    pub variant: String,
    pub status_code: StatusCode,
    pub body: BodyRule,
}

/// What a [`VariantRule`] holds.
pub struct VariantRuleView {
    pub variant: Seq<char>,
    pub status_code: StatusCodeView,
    pub body: BodyRuleView,
}

impl DeepView for VariantRule {
    type V = VariantRuleView;

    open spec fn deep_view(&self) -> VariantRuleView {
        VariantRuleView {
            variant: self.variant@,
            status_code: self.status_code@,
            body: self.body@,
        }
    }
}

impl View for VariantRule {
    type V = VariantRuleView;

    open spec fn view(&self) -> VariantRuleView {
        self.deep_view()
    }
}

/// The declaration of a constructor that wraps a value of type `source` in
/// the variant at position `variant`.
#[derive(Clone, Debug, PartialEq, Eq)]
pub struct WrappingConstructor {
    pub variant: usize,
    pub variant_name: String,
    pub source: String,
}

/// What a [`WrappingConstructor`] holds.
pub struct WrappingConstructorView {
    pub variant: int,
    pub variant_name: Seq<char>,
    pub source: Seq<char>,
}

impl DeepView for WrappingConstructor {
    type V = WrappingConstructorView;

    open spec fn deep_view(&self) -> WrappingConstructorView {
        WrappingConstructorView {
            variant: self.variant as int,
            variant_name: self.variant_name@,
            source: self.source@,
        }
    }
}

impl View for WrappingConstructor {
    type V = WrappingConstructorView;

    open spec fn view(&self) -> WrappingConstructorView {
        self.deep_view()
    }
}

/// What synthesis gives: one rule per variant, in declaration order, and one
/// wrapping constructor per conversion source, in declaration order too.
#[derive(Clone, Debug, PartialEq, Eq)]
pub struct Artifact {
    pub name: String,
    pub rules: Vec<VariantRule>,
    pub constructors: Vec<WrappingConstructor>,
}

/// What an [`Artifact`] holds.
pub struct ArtifactView {
    pub name: Seq<char>,
    pub rules: Seq<VariantRuleView>,
    pub constructors: Seq<WrappingConstructorView>,
}

impl DeepView for Artifact {
    type V = ArtifactView;

    open spec fn deep_view(&self) -> ArtifactView {
        ArtifactView {
            name: self.name@,
            rules: self.rules.deep_view(),
            constructors: self.constructors.deep_view(),
        }
    }
}

impl View for Artifact {
    type V = ArtifactView;

    open spec fn view(&self) -> ArtifactView {
        self.deep_view()
    }
}

impl ArtifactView {
    /// Every rule's status code is one of the table; every constructor wraps
    /// into a variant of the artifact whose rule reads the string
    /// representation of its field; and the constructors stand in the order
    /// of their variants, at most one for each.
    pub open spec fn well_formed(self) -> bool {
        &&& forall|i: int|
            0 <= i < self.rules.len() ==> (#[trigger] self.rules[i]).status_code.listed()
        &&& forall|c: int|
            0 <= c < self.constructors.len() ==> {
                let constructor = #[trigger] self.constructors[c];
                &&& 0 <= constructor.variant < self.rules.len()
                &&& self.rules[constructor.variant].body is FieldText
                &&& self.rules[constructor.variant].variant == constructor.variant_name
            }
        &&& forall|c: int, d: int|
            0 <= c < d < self.constructors.len() ==> (#[trigger] self.constructors[c]).variant < (
            #[trigger] self.constructors[d]).variant
    }
}

/// The key of a body whose annotation names none.
pub open spec fn default_key() -> Seq<char> {
    "error"@
}

/// The key of a body that a `message` annotation asks for.
pub open spec fn message_key() -> Seq<char> {
    "message"@
}

/// How the body of `decl` is made. A field decides before any annotation of
/// the variant; without a field, a `message` annotation decides before a
/// `body` annotation; with neither, the body is empty.
pub open spec fn body_rule_of(decl: VariantDeclView) -> BodyRuleView {
    match decl.field {
        Some(field) => {
            if field.is_conversion_source {
                match field.json_key {
                    Some(key) => BodyRuleView::FieldText { key },
                    None => BodyRuleView::FieldText { key: default_key() },
                }
            } else {
                match field.json_key {
                    Some(key) => BodyRuleView::FieldValue { key },
                    None => BodyRuleView::FieldDocument,
                }
            }
        },
        None => match decl.message {
            Some(text) => BodyRuleView::Literal { key: message_key(), value: text },
            None => match decl.body {
                Some(BodySpecView::Bare(value)) => BodyRuleView::Literal { key: default_key(), value },
                Some(BodySpecView::KeyValue(key, value)) => BodyRuleView::Literal { key, value },
                None => BodyRuleView::Empty,
            },
        },
    }
}

/// The rule of `decl`: its declared status code, and its body rule.
pub open spec fn rule_of(decl: VariantDeclView) -> VariantRuleView {
    VariantRuleView { variant: decl.name, status_code: decl.status_code, body: body_rule_of(decl) }
}

/// The constructor that wraps into the variant `decl`, which stands at
/// position `at` and has a field.
pub open spec fn constructor_of(at: int, decl: VariantDeclView) -> WrappingConstructorView {
    WrappingConstructorView { variant: at, variant_name: decl.name, source: decl.field->0.ty }
}

/// The wrapping constructors of `variants`: one for each variant whose field
/// is a conversion source, in the order of the variants.
pub open spec fn constructors_of(variants: Seq<VariantDeclView>) -> Seq<WrappingConstructorView>
    decreases variants.len(),
{
    if variants.len() == 0 {
        Seq::empty()
    } else {
        let earlier = constructors_of(variants.drop_last());
        if variants.last().wraps() {
            earlier.push(constructor_of(variants.len() - 1, variants.last()))
        } else {
            earlier
        }
    }
}

/// The rules of `variants`: one for each, in the order of the variants.
pub open spec fn rules_of(variants: Seq<VariantDeclView>) -> Seq<VariantRuleView> {
    Seq::new(variants.len(), |i: int| rule_of(variants[i]))
}

/// What synthesis gives for `schema`.
pub open spec fn synthesis_of(schema: EnumSchemaView) -> ArtifactView {
    ArtifactView {
        name: schema.name,
        rules: rules_of(schema.variants),
        constructors: constructors_of(schema.variants),
    }
}

/// Derives the body rule of one variant.
pub fn synthesize_body(decl: &VariantDecl) -> (rule: BodyRule)
    ensures
        rule@ == body_rule_of(decl@),
{
    match &decl.field {
        Some(field) => {
            if field.is_conversion_source {
                match &field.json_key {
                    Some(key) => BodyRule::FieldText { key: key.clone() },
                    None => BodyRule::FieldText { key: "error".to_owned() },
                }
            } else {
                match &field.json_key {
                    Some(key) => BodyRule::FieldValue { key: key.clone() },
                    None => BodyRule::FieldDocument,
                }
            }
        },
        None => match &decl.message {
            Some(text) => BodyRule::Literal { key: "message".to_owned(), value: text.clone() },
            None => match &decl.body {
                Some(BodySpec::Bare(value)) => BodyRule::Literal {
                    key: "error".to_owned(),
                    value: value.clone(),
                },
                Some(BodySpec::KeyValue(key, value)) => BodyRule::Literal {
                    key: key.clone(),
                    value: value.clone(),
                },
                None => BodyRule::Empty,
            },
        },
    }
}

/// Derives the rule of one variant.
pub fn synthesize_variant(decl: &VariantDecl) -> (rule: VariantRule)
    ensures
        rule@ == rule_of(decl@),
{
    VariantRule {
        variant: decl.name.clone(),
        status_code: decl.status_code.duplicate(),
        body: synthesize_body(decl),
    }
}

/// Each wrapping constructor belongs to a variant whose field is a conversion
/// source; each such variant has one; and they stand in the order of their
/// variants.
pub proof fn constructors_match_sources(variants: Seq<VariantDeclView>)
    ensures
        forall|c: int|
            0 <= c < constructors_of(variants).len() ==> {
                let constructor = #[trigger] constructors_of(variants)[c];
                &&& 0 <= constructor.variant < variants.len()
                &&& variants[constructor.variant].wraps()
                &&& constructor == constructor_of(
                    constructor.variant,
                    variants[constructor.variant],
                )
            },
        forall|i: int|
            0 <= i < variants.len() && (#[trigger] variants[i]).wraps() ==> exists|c: int|
                0 <= c < constructors_of(variants).len() && (#[trigger] constructors_of(
                    variants,
                )[c]).variant == i,
        forall|c: int, d: int|
            0 <= c < d < constructors_of(variants).len() ==> (#[trigger] constructors_of(
                variants,
            )[c]).variant < (#[trigger] constructors_of(variants)[d]).variant,
    decreases variants.len(),
{
    if variants.len() > 0 {
        let earlier = variants.drop_last();
        constructors_match_sources(earlier);
        let before = constructors_of(earlier);
        let all = constructors_of(variants);
        assert forall|i: int| 0 <= i < variants.len() && (#[trigger] variants[i]).wraps() implies exists|
            c: int,
        |
            0 <= c < all.len() && (#[trigger] all[c]).variant == i by {
            if i < earlier.len() {
                assert(earlier[i].wraps());
                let c = choose|c: int| 0 <= c < before.len() && (#[trigger] before[c]).variant == i;
                assert(all[c].variant == i);
            } else {
                assert(all[all.len() - 1].variant == i);
            }
        }
    }
}

/// The synthesis of a well-formed declaration is a well-formed artifact.
pub proof fn synthesis_is_well_formed(schema: EnumSchemaView)
    requires
        schema.well_formed(),
    ensures
        synthesis_of(schema).well_formed(),
{
    constructors_match_sources(schema.variants);
    let artifact = synthesis_of(schema);
    assert forall|i: int| 0 <= i < artifact.rules.len() implies (
    #[trigger] artifact.rules[i]).status_code.listed() by {
        assert(schema.variants[i].status_code.listed());
    }
}

/// Derives the rules and the wrapping constructors of a validated
/// declaration.
pub fn synthesize(schema: &EnumSchema) -> (artifact: Artifact)
    ensures
        artifact@ == synthesis_of(schema@),
        schema@.well_formed() ==> artifact@.well_formed(),
{
    let mut rules: Vec<VariantRule> = Vec::new();
    let mut constructors: Vec<WrappingConstructor> = Vec::new();
    let mut i: usize = 0;
    while i < schema.variants.len()
        invariant
            i <= schema.variants.len(),
            rules.deep_view() == rules_of(schema@.variants.take(i as int)),
            constructors.deep_view() == constructors_of(schema@.variants.take(i as int)),
        decreases schema.variants.len() - i,
    {
        let decl = &schema.variants[i];
        let ghost before = schema@.variants.take(i as int);
        let ghost after = schema@.variants.take(i + 1);
        let ghost earlier_rules = rules.deep_view();
        let ghost earlier_constructors = constructors.deep_view();
        assert(after.drop_last() == before);
        let rule = synthesize_variant(decl);
        rules.push(rule);
        assert(rules.deep_view() =~= earlier_rules.push(rule_of(decl@)));
        match &decl.field {
            Some(field) => {
                if field.is_conversion_source {
                    let constructor = WrappingConstructor {
                        variant: i,
                        variant_name: decl.name.clone(),
                        source: field.ty.clone(),
                    };
                    constructors.push(constructor);
                    assert(constructors.deep_view() =~= earlier_constructors.push(
                        constructor_of(i as int, decl@),
                    ));
                }
            },
            None => {},
        }
        i += 1;
    }
    proof {
        assert(schema@.variants.take(i as int) == schema@.variants);
        if schema@.well_formed() {
            synthesis_is_well_formed(schema@);
        }
    }
    Artifact { name: schema.name.clone(), rules, constructors }
}

} // verus!
