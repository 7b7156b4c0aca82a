//! Redundant words in the alternative text of an image.

use crate::diagnostic::{
    plain_text, text_of_three, MarkupNode, MarkupNodeView, RuleDiagnostic, RuleDiagnosticView, Severity,
};
use crate::syntax::{
    AnyJsxElement, Expression, JsxAttribute, JsxAttributeValue, JsxAttributeValueKind,
    JsxNamedAttribute, TemplateElement,
};
use crate::text::{is_name, is_text, names};
use biome_string_case::StrLikeExtension;
use vstd::prelude::*;

verus! {

/// The words of a text: what `str::split_whitespace` yields for it, in order.
/// These are the maximal runs of characters that are not Unicode whitespace.
pub uninterp spec fn whitespace_words(text: Seq<char>) -> Seq<Seq<char>>;

/// A character with the ASCII letters `A` to `Z` mapped to `a` to `z`.
pub open spec fn ascii_lowercase_char(c: char) -> char {
    if 'A' <= c && c <= 'Z' {
        ((c as u8 + 32) as u8) as char
    } else {
        c
    }
}

/// A text with each of its characters mapped by [`ascii_lowercase_char`].
pub open spec fn ascii_lowercase(text: Seq<char>) -> Seq<char> {
    text.map_values(|c: char| ascii_lowercase_char(c))
}

/// A lower-case word that only repeats what a screen reader says of an image
/// anyway.
pub open spec fn is_redundant_word(word: Seq<char>) -> bool {
    word == "image"@ || word == "photo"@ || word == "picture"@
}

/// Some word of `words` is, but for the case of its ASCII letters, redundant.
pub open spec fn has_redundant_word(words: Seq<Seq<char>>) -> bool {
    exists|i: int| 0 <= i < words.len() && is_redundant_word(#[trigger] ascii_lowercase(words[i]))
}

/// `str::split_whitespace`, collected: the sub-slices of `text` that its
/// whitespace separates, each as an owned string.
#[verifier::external_body]
fn split_whitespace(text: &str) -> (words: Vec<String>)
    ensures
        words.deep_view() == whitespace_words(text@),
{
    text.split_whitespace().map(String::from).collect()
}

/// `StrLikeExtension::to_ascii_lowercase_cow` of `biome_string_case`, owned:
/// the text unchanged where it has no ASCII upper-case letter, else
/// `str::to_ascii_lowercase` of it. Either way each ASCII upper-case letter
/// is replaced by its lower-case counterpart and nothing else changes.
#[verifier::external_body]
fn to_ascii_lowercase(word: &str) -> (lower: String)
    ensures
        lower@ == ascii_lowercase(word@),
{
    word.to_ascii_lowercase_cow().into_owned()
}

/// Whether some word of `words` is `image`, `photo` or `picture`, compared
/// without regard to the case of ASCII letters.
pub fn contains_redundant_word(words: &Vec<String>) -> (found: bool)
    ensures
        found == has_redundant_word(words.deep_view()),
{
    let mut i: usize = 0;
    while i < words.len()
        invariant
            i <= words.len(),
            forall|j: int| 0 <= j < i ==> !is_redundant_word(#[trigger] ascii_lowercase(words.deep_view()[j])),
        decreases words.len() - i,
    {
        let lower = to_ascii_lowercase(words[i].as_str());
        assert(words.deep_view()[i as int] == words@[i as int]@);
        if is_text(lower.as_str(), "image") || is_text(lower.as_str(), "photo") || is_text(
            lower.as_str(),
            "picture",
        ) {
            return true;
        }
        i += 1;
    }
    false
}

/// Whether an alternative text holds one of the words `image`, `photo` or
/// `picture`, as a whitespace-separated word, in any ASCII letter case.
pub fn is_redundant_alt(alt: &str) -> (redundant: bool)
    ensures
        redundant == has_redundant_word(whitespace_words(alt@)),
{
    let words = split_whitespace(alt);
    contains_redundant_word(&words)
}

/// The first attribute, from position `from` on, that is written with the
/// name `name`.
pub open spec fn find_attribute_from(
    attributes: Seq<JsxAttribute>,
    name: Seq<char>,
    from: int,
) -> Option<JsxNamedAttribute>
    decreases attributes.len() - from,
{
    if from < 0 || from >= attributes.len() {
        None
    } else {
        match attributes[from] {
            JsxAttribute::Named(named) if names(named.name, name) => Some(named),
            _ => find_attribute_from(attributes, name, from + 1),
        }
    }
}

/// The name of the element.
pub open spec fn element_name(node: AnyJsxElement) -> Option<String> {
    match node {
        AnyJsxElement::JsxOpeningElement(element) => element.name,
        AnyJsxElement::JsxSelfClosingElement(element) => element.name,
    }
}

/// The attributes of the element.
pub open spec fn element_attributes(node: AnyJsxElement) -> Seq<JsxAttribute> {
    match node {
        AnyJsxElement::JsxOpeningElement(element) => element.attributes@,
        AnyJsxElement::JsxSelfClosingElement(element) => element.attributes@,
    }
}

/// The value says `false` in so many words: as the literal `false` between
/// braces, or as the string `"false"`.
pub open spec fn says_false(value: JsxAttributeValue) -> bool {
    match value.kind {
        JsxAttributeValueKind::Tag => false,
        JsxAttributeValueKind::Expression { expression } => match expression {
            Some(expression) => match *expression {
                Expression::BooleanLiteral(literal) => names(literal.text, "false"@),
                _ => false,
            },
            None => false,
        },
        JsxAttributeValueKind::String { inner_text } => names(inner_text, "false"@),
    }
}

/// The element is not hidden from assistive technology as far as its text
/// shows: it has no `aria-hidden` attribute, or one that says `false`.
pub open spec fn is_exposed(node: AnyJsxElement) -> bool {
    match find_attribute_from(element_attributes(node), "aria-hidden"@, 0) {
        Some(aria_hidden) => match aria_hidden.value {
            Some(value) => says_false(value),
            None => false,
        },
        None => true,
    }
}

/// Some literal chunk of a template holds a redundant word.
pub open spec fn has_redundant_chunk(elements: Seq<TemplateElement>) -> bool {
    exists|i: int|
        0 <= i < elements.len() && (#[trigger] elements[i] matches TemplateElement::Chunk {
            text: Some(text),
        } && has_redundant_word(whitespace_words(text@)))
}

/// The alternative text, as far as it is written out, holds a redundant
/// word. A text is written out in a string, in a string literal between
/// braces, and in the literal chunks of a template between braces.
pub open spec fn is_redundant_value(value: JsxAttributeValue) -> bool {
    match value.kind {
        JsxAttributeValueKind::Tag => false,
        JsxAttributeValueKind::Expression { expression } => match expression {
            Some(expression) => match *expression {
                Expression::StringLiteral(literal) => match literal.inner_text {
                    Some(text) => has_redundant_word(whitespace_words(text@)),
                    None => false,
                },
                Expression::Template(template) => has_redundant_chunk(template.elements@),
                _ => false,
            },
            None => false,
        },
        JsxAttributeValueKind::String { inner_text } => match inner_text {
            Some(text) => has_redundant_word(whitespace_words(text@)),
            None => false,
        },
    }
}

/// What the rule reports for an element: the value of the `alt` attribute
/// of an `img` element that is exposed, where that value is redundant.
pub open spec fn redundant_alt(node: AnyJsxElement) -> Option<JsxAttributeValue> {
    if !names(element_name(node), "img"@) || !is_exposed(node) {
        None
    } else {
        match find_attribute_from(element_attributes(node), "alt"@, 0) {
            Some(alt) => match alt.value {
                Some(value) if is_redundant_value(value) => Some(value),
                _ => None,
            },
            None => None,
        }
    }
}

/// Finds the first attribute of a list that is written with the name
/// `name_to_lookup`.
pub fn find_attribute_by_name<'a>(
    attributes: &'a Vec<JsxAttribute>,
    name_to_lookup: &str,
) -> (found: Option<&'a JsxNamedAttribute>)
    ensures
        match found {
            Some(attribute) => find_attribute_from(attributes@, name_to_lookup@, 0) == Some(*attribute),
            None => find_attribute_from(attributes@, name_to_lookup@, 0) is None,
        },
{
    let mut i: usize = 0;
    while i < attributes.len()
        invariant
            i <= attributes.len(),
            find_attribute_from(attributes@, name_to_lookup@, 0) == find_attribute_from(
                attributes@,
                name_to_lookup@,
                i as int,
            ),
        decreases attributes.len() - i,
    {
        if let JsxAttribute::Named(named) = &attributes[i] {
            if is_name(&named.name, name_to_lookup) {
                return Some(named);
            }
        }
        i += 1;
    }
    None
}

/// Whether some literal chunk of a template holds a redundant word.
fn contains_redundant_chunk(elements: &Vec<TemplateElement>) -> (found: bool)
    ensures
        found == has_redundant_chunk(elements@),
{
    let mut i: usize = 0;
    while i < elements.len()
        invariant
            i <= elements.len(),
            forall|j: int|
                0 <= j < i ==> !(#[trigger] elements@[j] matches TemplateElement::Chunk {
                    text: Some(text),
                } && has_redundant_word(whitespace_words(text@))),
        decreases elements.len() - i,
    {
        if let TemplateElement::Chunk { text: Some(text) } = &elements[i] {
            if is_redundant_alt(text.as_str()) {
                return true;
            }
        }
        i += 1;
    }
    false
}

/// Whether the value of an `alt` attribute holds a redundant word.
fn is_redundant_alt_value(value: &JsxAttributeValue) -> (redundant: bool)
    ensures
        redundant == is_redundant_value(*value),
{
    match &value.kind {
        JsxAttributeValueKind::Tag => false,
        JsxAttributeValueKind::Expression { expression } => match expression {
            Some(expression) => match &**expression {
                Expression::StringLiteral(literal) => match &literal.inner_text {
                    Some(text) => is_redundant_alt(text.as_str()),
                    None => false,
                },
                Expression::Template(template) => contains_redundant_chunk(&template.elements),
                _ => false,
            },
            None => false,
        },
        JsxAttributeValueKind::String { inner_text } => match inner_text {
            Some(text) => is_redundant_alt(text.as_str()),
            None => false,
        },
    }
}

/// The rule: the alternative text of an image does not say that it is one.
pub struct NoRedundantAlt;

impl NoRedundantAlt {
    /// Runs the rule on one element and gives the attribute value to report,
    /// if there is one.
    pub fn run<'a>(node: &'a AnyJsxElement) -> (signal: Option<&'a JsxAttributeValue>)
        ensures
            match signal {
                Some(value) => redundant_alt(*node) == Some(*value),
                None => redundant_alt(*node) is None,
            },
    {
        let (name, attributes) = match node {
            AnyJsxElement::JsxOpeningElement(element) => (&element.name, &element.attributes),
            AnyJsxElement::JsxSelfClosingElement(element) => (&element.name, &element.attributes),
        };
        if !is_name(name, "img") {
            return None;
        }
        if let Some(aria_hidden) = find_attribute_by_name(attributes, "aria-hidden") {
            let is_false = match &aria_hidden.value {
                Some(value) => match &value.kind {
                    JsxAttributeValueKind::Tag => false,
                    JsxAttributeValueKind::Expression { expression } => match expression {
                        Some(expression) => match &**expression {
                            Expression::BooleanLiteral(literal) => is_name(&literal.text, "false"),
                            _ => false,
                        },
                        None => false,
                    },
                    JsxAttributeValueKind::String { inner_text } => is_name(inner_text, "false"),
                },
                None => false,
            };
            if !is_false {
                return None;
            }
        }
        let alt = match find_attribute_by_name(attributes, "alt") {
            Some(attribute) => match &attribute.value {
                Some(alt) => alt,
                None => {
                    return None;
                },
            },
            None => {
                return None;
            },
        };
        if is_redundant_alt_value(alt) {
            Some(alt)
        } else {
            None
        }
    }

    /// What is reported of a redundant alternative text.
    pub open spec fn diagnostic_of(state: JsxAttributeValue) -> RuleDiagnosticView {
        RuleDiagnosticView {
            category: "lint/a11y/noRedundantAlt"@,
            severity: Severity::Error,
            range: state.range,
            message: seq![
                MarkupNodeView::Plain {
                    content: "Avoid the words \"image\", \"picture\", or \"photo\" in "@,
                },
                MarkupNodeView::Emphasis { content: "img"@ },
                MarkupNodeView::Plain { content: " element alt text."@ },
            ],
            notes: seq![
                seq![
                    MarkupNodeView::Plain {
                        content: "Screen readers announce img elements as \"images\", so it is not necessary to redeclare this in alternative text."@,
                    },
                ],
            ],
        }
    }

    /// Describes a finding of the rule.
    pub fn diagnostic(state: &JsxAttributeValue) -> (diagnostic: Option<RuleDiagnostic>)
        ensures
            match diagnostic {
                Some(diagnostic) => diagnostic.deep_view() == Self::diagnostic_of(*state),
                None => false,
            },
    {
        let message = text_of_three(
            MarkupNode::plain("Avoid the words \"image\", \"picture\", or \"photo\" in "),
            MarkupNode::emphasis("img"),
            MarkupNode::plain(" element alt text."),
        );
        let mut notes: Vec<Vec<MarkupNode>> = Vec::new();
        notes.push(
            plain_text(
                "Screen readers announce img elements as \"images\", so it is not necessary to redeclare this in alternative text.",
            ),
        );
        let diagnostic = RuleDiagnostic {
            category: "lint/a11y/noRedundantAlt".to_owned(),
            severity: Severity::Error,
            range: state.range,
            message,
            notes,
        };
        proof {
            assert(diagnostic.notes.deep_view() =~= Self::diagnostic_of(*state).notes);
        }
        Some(diagnostic)
    }
}

} // verus!
