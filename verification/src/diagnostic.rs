//! What a rule hands to whoever renders its findings.

use crate::text_range::TextRange;
use vstd::prelude::*;

verus! {

/// How grave a finding is.
#[derive(Clone, Copy, Debug, PartialEq, Eq, Structural)]
pub enum Severity {
    Information,
    Warning,
    Error,
}

/// How a piece of text is set off from the text around it.
#[derive(Debug, PartialEq, Eq)]
pub enum MarkupElement {
    Emphasis,
    Hyperlink { href: String },
}

/// A piece of text, set off or plain.
#[derive(Debug, PartialEq, Eq)]
pub struct MarkupNode {
    pub element: Option<MarkupElement>,
    pub content: String,
}

/// A piece of text with its texts as sequences of characters.
pub enum MarkupNodeView {
    Plain { content: Seq<char> },
    Emphasis { content: Seq<char> },
    Hyperlink { href: Seq<char>, content: Seq<char> },
}

impl DeepView for MarkupNode {
    type V = MarkupNodeView;

    open spec fn deep_view(&self) -> MarkupNodeView {
        match self.element {
            None => MarkupNodeView::Plain { content: self.content@ },
            Some(MarkupElement::Emphasis) => MarkupNodeView::Emphasis { content: self.content@ },
            Some(MarkupElement::Hyperlink { href }) => MarkupNodeView::Hyperlink {
                href: href@,
                content: self.content@,
            },
        }
    }
}

impl MarkupNode {
    /// A piece of plain text.
    pub fn plain(content: &str) -> (node: MarkupNode)
        ensures
            node.deep_view() == (MarkupNodeView::Plain { content: content@ }),
    {
        MarkupNode { element: None, content: content.to_owned() }
    }

    /// A piece of emphasized text.
    pub fn emphasis(content: &str) -> (node: MarkupNode)
        ensures
            node.deep_view() == (MarkupNodeView::Emphasis { content: content@ }),
    {
        MarkupNode { element: Some(MarkupElement::Emphasis), content: content.to_owned() }
    }

    /// A piece of text that leads to `href`.
    pub fn hyperlink(href: &str, content: &str) -> (node: MarkupNode)
        ensures
            node.deep_view() == (MarkupNodeView::Hyperlink { href: href@, content: content@ }),
    {
        MarkupNode {
            element: Some(MarkupElement::Hyperlink { href: href.to_owned() }),
            content: content.to_owned(),
        }
    }
}

/// One finding of a rule.
#[derive(Debug, PartialEq, Eq)]
pub struct RuleDiagnostic {
    /// The rule's name, with its group, as a path.
    pub category: String,
    pub severity: Severity,
    /// Where the finding is.
    pub range: TextRange,
    pub message: Vec<MarkupNode>,
    /// What is said in addition to the message, in order.
    pub notes: Vec<Vec<MarkupNode>>,
}

/// A finding with its texts as sequences of characters.
pub struct RuleDiagnosticView {
    pub category: Seq<char>,
    pub severity: Severity,
    pub range: TextRange,
    pub message: Seq<MarkupNodeView>,
    pub notes: Seq<Seq<MarkupNodeView>>,
}

impl DeepView for RuleDiagnostic {
    type V = RuleDiagnosticView;

    open spec fn deep_view(&self) -> RuleDiagnosticView {
        RuleDiagnosticView {
            category: self.category@,
            severity: self.severity,
            range: self.range,
            message: self.message.deep_view(),
            notes: self.notes.deep_view(),
        }
    }
}

/// A text of one plain piece.
pub fn plain_text(content: &str) -> (text: Vec<MarkupNode>)
    ensures
        text.deep_view() == seq![MarkupNodeView::Plain { content: content@ }],
{
    let mut text: Vec<MarkupNode> = Vec::new();
    text.push(MarkupNode::plain(content));
    assert(text.deep_view() =~= seq![MarkupNodeView::Plain { content: content@ }]);
    text
}

/// A text of three pieces.
pub fn text_of_three(
    first: MarkupNode,
    second: MarkupNode,
    third: MarkupNode,
) -> (text: Vec<MarkupNode>)
    ensures
        text.deep_view() == seq![first.deep_view(), second.deep_view(), third.deep_view()],
{
    let ghost pieces = seq![first.deep_view(), second.deep_view(), third.deep_view()];
    let mut text: Vec<MarkupNode> = Vec::new();
    text.push(first);
    text.push(second);
    text.push(third);
    assert(text.deep_view() =~= pieces);
    text
}

} // verus!
