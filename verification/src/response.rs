//! Applying the rules: from an instance of a variant to its response.

use crate::synth::{
    Artifact, ArtifactView, BodyRule, BodyRuleView, VariantRule, VariantRuleView,
    WrappingConstructor, WrappingConstructorView,
};
use crate::text::same_text;
use vstd::prelude::*;

verus! {

/// A value of the declared enum: the position of its variant, and the value
/// of the variant's field in the form that the variant's rule reads. That is
/// its string representation under [`BodyRule::FieldText`], and its
/// serialized form, a JSON document, under [`BodyRule::FieldValue`] and
/// [`BodyRule::FieldDocument`].
#[derive(Clone, Debug, PartialEq, Eq)]
pub struct Instance {
    pub variant: usize,
    pub field: Option<String>,
}

/// What an [`Instance`] holds.
pub struct InstanceView {
    pub variant: int,
    pub field: Option<Seq<char>>,
}

impl DeepView for Instance {
    type V = InstanceView;

    open spec fn deep_view(&self) -> InstanceView {
        InstanceView { variant: self.variant as int, field: self.field.deep_view() }
    }
}

impl View for Instance {
    type V = InstanceView;

    open spec fn view(&self) -> InstanceView {
        self.deep_view()
    }
}

/// The value of a body's one entry.
#[derive(Clone, Debug, PartialEq, Eq)]
pub enum Payload {
    /// A JSON string that holds this text.
    Text(String),
    /// This JSON document.
    Json(String),
}

/// What a [`Payload`] holds.
pub enum PayloadView {
    Text(Seq<char>),
    Json(Seq<char>),
}

impl DeepView for Payload {
    type V = PayloadView;

    open spec fn deep_view(&self) -> PayloadView {
        match self {
            Payload::Text(text) => PayloadView::Text(text@),
            Payload::Json(document) => PayloadView::Json(document@),
        }
    }
}

impl View for Payload {
    type V = PayloadView;

    open spec fn view(&self) -> PayloadView {
        self.deep_view()
    }
}

/// The body of a response.
#[derive(Clone, Debug, PartialEq, Eq)]
pub enum Body {
    /// The JSON object with the one entry `key: value`.
    Entry { key: String, value: Payload },
    /// This JSON document.
    Document(String),
}

/// What a [`Body`] holds.
pub enum BodyView {
    Entry { key: Seq<char>, value: PayloadView },
    Document(Seq<char>),
}

impl DeepView for Body {
    type V = BodyView;

    open spec fn deep_view(&self) -> BodyView {
        match self {
            Body::Entry { key, value } => BodyView::Entry { key: key@, value: value@ },
            Body::Document(document) => BodyView::Document(document@),
        }
    }
}

impl View for Body {
    type V = BodyView;

    open spec fn view(&self) -> BodyView {
        self.deep_view()
    }
}

/// A response: the number of its status code, and its body if it has one.
#[derive(Clone, Debug, PartialEq, Eq)]
pub struct Response {
    pub status: u16,
    pub body: Option<Body>,
}

/// What a [`Response`] holds.
pub struct ResponseView {
    pub status: u16,
    pub body: Option<BodyView>,
}

impl DeepView for Response {
    type V = ResponseView;

    open spec fn deep_view(&self) -> ResponseView {
        ResponseView { status: self.status, body: self.body.deep_view() }
    }
}

impl View for Response {
    type V = ResponseView;

    open spec fn view(&self) -> ResponseView {
        self.deep_view()
    }
}

/// The body that `rule` makes of `field`; `None` where the rule reads a field
/// and there is none, or reads none and there is one.
pub open spec fn body_of(rule: BodyRuleView, field: Option<Seq<char>>) -> Option<Option<BodyView>> {
    match (rule, field) {
        (BodyRuleView::Empty, None) => Some(None),
        (BodyRuleView::Literal { key, value }, None) => Some(
            Some(BodyView::Entry { key, value: PayloadView::Text(value) }),
        ),
        (BodyRuleView::FieldText { key }, Some(text)) => Some(
            Some(BodyView::Entry { key, value: PayloadView::Text(text) }),
        ),
        (BodyRuleView::FieldValue { key }, Some(document)) => Some(
            Some(BodyView::Entry { key, value: PayloadView::Json(document) }),
        ),
        (BodyRuleView::FieldDocument, Some(document)) => Some(Some(BodyView::Document(document))),
        _ => None,
    }
}

/// The response that `rule` makes of `field`: the rule's status code, and the
/// body that the rule makes.
pub open spec fn response_of(rule: VariantRuleView, field: Option<Seq<char>>) -> Option<
    ResponseView,
> {
    match body_of(rule.body, field) {
        Some(body) => Some(ResponseView { status: rule.status_code.code, body }),
        None => None,
    }
}

/// The response of `instance` under the rules of `artifact`; `None` where the
/// artifact has no variant at the instance's position.
pub open spec fn response_to(artifact: ArtifactView, instance: InstanceView) -> Option<
    ResponseView,
> {
    if 0 <= instance.variant < artifact.rules.len() {
        response_of(artifact.rules[instance.variant], instance.field)
    } else {
        None
    }
}

/// The instance in which `constructor` wraps a value whose string
/// representation is `text`.
pub open spec fn wrapped(constructor: WrappingConstructorView, text: Seq<char>) -> InstanceView {
    InstanceView { variant: constructor.variant, field: Some(text) }
}

impl VariantRule {
    /// The response of an instance of this rule's variant whose field is
    /// `field`.
    pub fn respond(&self, field: &Option<String>) -> (response: Option<Response>)
        ensures
            response.deep_view() == response_of(self@, field.deep_view()),
    {
        let body = match (&self.body, field) {
            (BodyRule::Empty, None) => None,
            (BodyRule::Literal { key, value }, None) => Some(
                Body::Entry { key: key.clone(), value: Payload::Text(value.clone()) },
            ),
            (BodyRule::FieldText { key }, Some(text)) => Some(
                Body::Entry { key: key.clone(), value: Payload::Text(text.clone()) },
            ),
            (BodyRule::FieldValue { key }, Some(document)) => Some(
                Body::Entry { key: key.clone(), value: Payload::Json(document.clone()) },
            ),
            (BodyRule::FieldDocument, Some(document)) => Some(Body::Document(document.clone())),
            _ => {
                return None;
            },
        };
        Some(Response { status: self.status_code.code, body })
    }
}

impl Artifact {
    /// Converts an instance into its status code and body.
    pub fn respond(&self, instance: &Instance) -> (response: Option<Response>)
        ensures
            response.deep_view() == response_to(self@, instance@),
    {
        if instance.variant < self.rules.len() {
            self.rules[instance.variant].respond(&instance.field)
        } else {
            None
        }
    }

    /// The position, among this artifact's constructors, of the first one
    /// that wraps a value of the type written as `source`. Where two variants
    /// claim one type, the one declared first has it.
    pub fn constructor_for(&self, source: &str) -> (found: Option<usize>)
        ensures
            match found {
                Some(at) => {
                    &&& at < self@.constructors.len()
                    &&& self@.constructors[at as int].source == source@
                    &&& forall|k: int|
                        0 <= k < at ==> (#[trigger] self@.constructors[k]).source != source@
                },
                None => forall|k: int|
                    0 <= k < self@.constructors.len() ==> (#[trigger] self@.constructors[k]).source
                        != source@,
            },
    {
        let mut i: usize = 0;
        while i < self.constructors.len()
            invariant
                i <= self.constructors.len(),
                forall|k: int| 0 <= k < i ==> (#[trigger] self@.constructors[k]).source != source@,
            decreases self.constructors.len() - i,
        {
            if same_text(self.constructors[i].source.as_str(), source) {
                return Some(i);
            }
            i += 1;
        }
        None
    }
}

impl Instance {
    /// Converts this instance into a response under the rules of `artifact`:
    /// the same conversion as [`Artifact::respond`], entered from the value.
    pub fn into_response(&self, artifact: &Artifact) -> (response: Option<Response>)
        ensures
            response.deep_view() == response_to(artifact@, self@),
    {
        artifact.respond(self)
    }
}

impl WrappingConstructor {
    /// Wraps a value, given by its string representation, in this
    /// constructor's variant.
    pub fn wrap(&self, text: String) -> (instance: Instance)
        ensures
            instance@ == wrapped(self@, text@),
    {
        Instance { variant: self.variant, field: Some(text) }
    }
}

} // verus!
