//! Elements that are produced once per item of a collection need a `key`.
//!
//! The rule looks at array literals and at calls of the iteration methods of
//! arrays. It flags each element that such an expression produces and that
//! carries no key. What a callback produces is estimated from its text: no
//! data flow is followed.

use crate::diagnostic::{
    plain_text, text_of_three, MarkupNode, MarkupNodeView, RuleDiagnostic, RuleDiagnosticView, Severity,
};
use crate::key_flags::{
    branch_flags, candidate_flags, child_flags, clauses_flags, component_flags, declarators_flags,
    elements_flags, factory_call_flag, first_return_from, flagged_ranges, function_body_flags,
    is_iteration_method, iterator_flags, lemma_candidate_flags_ignore_parentheses, non_empty,
    statement_flags, statements_flags, tag_flags, without_parentheses,
};
use crate::key_presence::{has_key_attribute, has_key_prop};
use crate::semantic::is_react_call_api;
use crate::syntax::{
    ArrayElement, ArrayExpression, ArrowFunctionBody, CallArgument, CallExpression, Expression,
    FunctionBody, JsxChild, JsxTagExpression, ReactComponentExpression, ReactLibrary, ReturnStatement,
    Statement, SwitchClause,
};
use crate::text::{is_name, is_text};
use crate::text_range::TextRange;
use vstd::prelude::*;

verus! {

/// What the rule can be told.
#[derive(Clone, Debug, PartialEq, Eq, Structural)]
pub struct UseJsxKeyInIterableOptions {
    /// Whether a shorthand fragment (`<></>`) needs a key as an element does.
    pub check_shorthand_fragments: bool,
}

impl Default for UseJsxKeyInIterableOptions {
    /// Shorthand fragments are not checked.
    fn default() -> (options: UseJsxKeyInIterableOptions)
        ensures
            !options.check_shorthand_fragments,
    {
        UseJsxKeyInIterableOptions { check_shorthand_fragments: false }
    }
}

/// The nodes that the rule is run on.
#[derive(Debug, PartialEq, Eq)]
pub enum UseJsxKeyInIterableQuery {
    JsArrayExpression(ArrayExpression),
    JsCallExpression(CallExpression),
}

/// A result as a sequence of ranges, where there is one.
pub open spec fn ranges_view(ranges: Option<Vec<TextRange>>) -> Option<Seq<TextRange>> {
    match ranges {
        Some(ranges) => Some(ranges@),
        None => None,
    }
}

/// Strips the parentheses around an expression.
///
/// Gives the expression inside all of them, which is itself not
/// parenthesized and is a part of `expr` or `expr` itself. Gives none where a
/// pair of parentheses holds nothing.
pub fn unwrap_parenthesis(expr: &Expression) -> (inner: Option<&Expression>)
    ensures
        match inner {
            Some(inner) => without_parentheses(*expr) == Some(*inner),
            None => without_parentheses(*expr) is None,
        },
        inner matches Some(inner) ==> !(inner is Parenthesized),
        inner matches Some(inner) ==> *inner == *expr || decreases_to!(*expr => *inner),
{
    let mut inner_expr: &Expression = expr;
    loop
        invariant
            without_parentheses(*inner_expr) == without_parentheses(*expr),
            *inner_expr == *expr || decreases_to!(*expr => *inner_expr),
        decreases inner_expr,
    {
        match inner_expr {
            Expression::Parenthesized(parenthesized) => match &parenthesized.expression {
                Some(expression) => {
                    inner_expr = expression;
                },
                None => {
                    return None;
                },
            },
            _ => {
                return Some(inner_expr);
            },
        }
    }
}

/// Checks a call that may build an element without markup, such as
/// `React.createElement("h1", {...})`.
pub fn handle_react_non_jsx(node: &CallExpression) -> (range: Option<TextRange>)
    ensures
        range == factory_call_flag(*node),
{
    if node.callee.is_none() {
        return None;
    }
    let arguments = match &node.arguments {
        Some(arguments) => arguments,
        None => {
            return None;
        },
    };
    if !is_react_call_api(node, ReactLibrary::React, "cloneElement") && !is_react_call_api(
        node,
        ReactLibrary::React,
        "createElement",
    ) {
        return None;
    }
    let has_key = arguments.args.len() > 1 && match &arguments.args[1] {
        CallArgument::Expression(Expression::Object(props)) => has_key_prop(props),
        _ => false,
    };
    if has_key {
        None
    } else {
        Some(arguments.range)
    }
}

/// Scans one node of markup for a missing key.
///
/// The nodes still to be looked at wait on a stack, which starts out with
/// `node` alone. Nothing is added to it along the way, so the children of an
/// element are left alone: nested markup is reached only through an embedded
/// expression.
pub fn handle_jsx_child(
    node: &JsxChild,
    options: &UseJsxKeyInIterableOptions,
) -> (ranges: Option<Vec<TextRange>>)
    ensures
        ranges_view(ranges) == child_flags(*node, *options),
    decreases node,
{
    let mut stack: Vec<&JsxChild> = Vec::new();
    stack.push(node);
    let mut ranges: Vec<TextRange> = Vec::new();
    while stack.len() > 0
        invariant
            stack@.len() <= 1,
            stack@.len() == 1 ==> *stack@[0] == *node && ranges@.len() == 0,
            stack@.len() == 0 ==> non_empty(ranges@) == child_flags(*node, *options),
        decreases stack@.len(),
    {
        let current = stack.pop().unwrap();
        match current {
            JsxChild::Element(element) => {
                let open_node = match &element.opening_element {
                    Some(open_node) => open_node,
                    None => {
                        return None;
                    },
                };
                if !has_key_attribute(&open_node.attributes) {
                    ranges.push(open_node.range);
                }
            },
            JsxChild::SelfClosingElement(element) => {
                if !has_key_attribute(&element.attributes) {
                    ranges.push(element.range);
                }
            },
            JsxChild::ExpressionChild(child) => {
                let expr = match &child.expression {
                    Some(expr) => expr,
                    None => {
                        return None;
                    },
                };
                if let Some(mut child_ranges) = handle_potential_react_component(expr, true, options) {
                    ranges.append(&mut child_ranges);
                }
            },
            JsxChild::Fragment(fragment) => {
                if options.check_shorthand_fragments {
                    ranges.push(fragment.range);
                }
            },
            _ => {},
        }
    }
    if ranges.is_empty() {
        None
    } else {
        Some(ranges)
    }
}

/// Checks an element written in tag notation, such as `<Hello></Hello>`.
pub fn handle_jsx_tag(
    node: &JsxTagExpression,
    options: &UseJsxKeyInIterableOptions,
) -> (ranges: Option<Vec<TextRange>>)
    ensures
        ranges_view(ranges) == tag_flags(*node, *options),
    decreases node,
{
    match &node.tag {
        Some(tag) => handle_jsx_child(tag, options),
        None => None,
    }
}

/// Checks an expression of one of the two component shapes.
pub fn handle_react_component(
    node: &ReactComponentExpression,
    options: &UseJsxKeyInIterableOptions,
) -> (ranges: Option<Vec<TextRange>>)
    ensures
        ranges_view(ranges) == component_flags(*node, *options),
    decreases node,
{
    match node {
        ReactComponentExpression::JsxTagExpression(node) => handle_jsx_tag(node, options),
        ReactComponentExpression::JsCallExpression(node) => match handle_react_non_jsx(node) {
            Some(range) => {
                let mut ranges: Vec<TextRange> = Vec::new();
                ranges.push(range);
                Some(ranges)
            },
            None => None,
        },
    }
}

/// Checks an expression that may produce an element.
pub fn handle_potential_react_component(
    node: &Expression,
    is_inside_jsx: bool,
    options: &UseJsxKeyInIterableOptions,
) -> (ranges: Option<Vec<TextRange>>)
    ensures
        ranges_view(ranges) == candidate_flags(*node, is_inside_jsx, *options),
    decreases node,
{
    proof {
        lemma_candidate_flags_ignore_parentheses(*node, is_inside_jsx, *options);
    }
    let unwrapped = match unwrap_parenthesis(node) {
        Some(unwrapped) => unwrapped,
        None => {
            return None;
        },
    };
    match unwrapped {
        Expression::Conditional(conditional) => {
            let consequent = match &conditional.consequent {
                Some(consequent) => handle_potential_react_component(consequent, is_inside_jsx, options),
                None => {
                    return None;
                },
            };
            let alternate = match &conditional.alternate {
                Some(alternate) => handle_potential_react_component(alternate, is_inside_jsx, options),
                None => {
                    return None;
                },
            };
            match (consequent, alternate) {
                (Some(mut consequent), Some(mut alternate)) => {
                    consequent.append(&mut alternate);
                    Some(consequent)
                },
                (Some(consequent), None) => Some(consequent),
                (None, Some(alternate)) => Some(alternate),
                (None, None) => None,
            }
        },
        Expression::Component(component) => {
            let is_candidate = match component {
                ReactComponentExpression::JsxTagExpression(_) => true,
                ReactComponentExpression::JsCallExpression(_) => !is_inside_jsx,
            };
            if is_candidate {
                handle_react_component(component, options)
            } else {
                None
            }
        },
        _ => None,
    }
}

/// Checks the statements of a block, one after the other.
pub fn handle_statements(
    statement_list: &Vec<Statement>,
    is_inside_jsx: bool,
    options: &UseJsxKeyInIterableOptions,
) -> (ranges: Vec<TextRange>)
    ensures
        ranges@ == statements_flags(statement_list@, is_inside_jsx, *options),
    decreases statement_list,
{
    let mut ranges: Vec<TextRange> = Vec::new();
    let mut i: usize = 0;
    while i < statement_list.len()
        invariant
            i <= statement_list.len(),
            ranges@ == statements_flags(statement_list@.take(i as int), is_inside_jsx, *options),
        decreases statement_list.len() - i,
    {
        proof {
            assert(statement_list@.take(i + 1).drop_last() == statement_list@.take(i as int));
        }
        if let Some(mut found) = handle_statement(&statement_list[i], is_inside_jsx, options) {
            ranges.append(&mut found);
        }
        i += 1;
    }
    proof {
        assert(statement_list@.take(i as int) == statement_list@);
    }
    ranges
}

/// Checks a branch of an `if`: its statements where it is a block.
fn handle_branch(
    branch: &Option<Box<Statement>>,
    is_inside_jsx: bool,
    options: &UseJsxKeyInIterableOptions,
) -> (ranges: Vec<TextRange>)
    ensures
        ranges@ == branch_flags(*branch, is_inside_jsx, *options),
    decreases branch,
{
    match branch {
        Some(statement) => match &**statement {
            Statement::Block(block) => handle_statements(&block.statements, is_inside_jsx, options),
            _ => Vec::new(),
        },
        None => Vec::new(),
    }
}

/// Checks one statement for expressions that may produce an element: the
/// initializers of a declaration, the argument of a `return`, and what the
/// clauses of a `switch` and the branches of an `if` hold of these.
pub fn handle_statement(
    node: &Statement,
    is_inside_jsx: bool,
    options: &UseJsxKeyInIterableOptions,
) -> (ranges: Option<Vec<TextRange>>)
    ensures
        ranges_view(ranges) == statement_flags(*node, is_inside_jsx, *options),
    decreases node,
{
    match node {
        Statement::Variable(variable) => {
            let declaration = match &variable.declaration {
                Some(declaration) => declaration,
                None => {
                    return None;
                },
            };
            let declarators = &declaration.declarators;
            let mut ranges: Vec<TextRange> = Vec::new();
            let mut i: usize = 0;
            while i < declarators.len()
                invariant
                    i <= declarators.len(),
                    ranges@ == declarators_flags(declarators@.take(i as int), is_inside_jsx, *options),
                decreases declarators.len() - i,
            {
                proof {
                    assert(declarators@.take(i + 1).drop_last() == declarators@.take(i as int));
                }
                if let Some(init) = &declarators[i].initializer {
                    if let Some(mut found) = handle_potential_react_component(init, is_inside_jsx, options) {
                        ranges.append(&mut found);
                    }
                }
                i += 1;
            }
            proof {
                assert(declarators@.take(i as int) == declarators@);
            }
            Some(ranges)
        },
        Statement::Return(ret) => match &ret.argument {
            Some(returned_value) => handle_potential_react_component(returned_value, is_inside_jsx, options),
            None => None,
        },
        Statement::Switch(switch) => {
            let cases = &switch.cases;
            let mut ranges: Vec<TextRange> = Vec::new();
            let mut i: usize = 0;
            while i < cases.len()
                invariant
                    i <= cases.len(),
                    *cases == switch.cases,
                    *node matches Statement::Switch(matched) && matched == *switch,
                    ranges@ == clauses_flags(cases@.take(i as int), is_inside_jsx, *options),
                decreases cases.len() - i,
            {
                proof {
                    assert(cases@.take(i + 1).drop_last() == cases@.take(i as int));
                }
                let cons = match &cases[i] {
                    SwitchClause::Case { consequent } => consequent,
                    SwitchClause::Default { consequent } => consequent,
                };
                proof {
                    assert(decreases_to!(*node => node->Switch_0));
                }
                let mut found = handle_statements(cons, is_inside_jsx, options);
                ranges.append(&mut found);
                i += 1;
            }
            proof {
                assert(cases@.take(i as int) == cases@);
            }
            Some(ranges)
        },
        Statement::If(if_statement) => {
            let mut ranges = handle_branch(&if_statement.consequent, is_inside_jsx, options);
            if let Some(else_clause) = &if_statement.else_clause {
                let mut found = handle_branch(&else_clause.alternate, is_inside_jsx, options);
                ranges.append(&mut found);
            }
            Some(ranges)
        },
        _ => None,
    }
}

/// Checks the body of a callback.
///
/// Where the first `return` returns a component and nothing in it is
/// flagged, the rest of the body is not looked at.
pub fn handle_function_body(
    node: &FunctionBody,
    is_inside_jsx: bool,
    options: &UseJsxKeyInIterableOptions,
) -> (ranges: Vec<TextRange>)
    ensures
        ranges@ == function_body_flags(*node, is_inside_jsx, *options),
{
    let statements = &node.statements;
    let mut return_statement: Option<&ReturnStatement> = None;
    let mut i: usize = 0;
    while i < statements.len()
        invariant_except_break
            i <= statements.len(),
            return_statement is None,
            first_return_from(statements@, 0) == first_return_from(statements@, i as int),
        ensures
            match return_statement {
                Some(ret) => first_return_from(statements@, 0) == Some(*ret),
                None => first_return_from(statements@, 0) is None,
            },
        decreases statements.len() - i,
    {
        if let Statement::Return(ret) = &statements[i] {
            return_statement = Some(ret);
            break;
        }
        i += 1;
    }
    if let Some(ret) = return_statement {
        if let Some(returned_value) = &ret.argument {
            let is_return_component = match unwrap_parenthesis(returned_value) {
                Some(Expression::Component(_)) => true,
                _ => false,
            };
            if is_return_component {
                let ranges = handle_potential_react_component(returned_value, is_inside_jsx, options);
                if ranges.is_none() {
                    return Vec::new();
                }
            }
        }
    }
    handle_statements(statements, is_inside_jsx, options)
}

/// Whether a member is named like a method of arrays that calls a function
/// once per item.
fn is_iteration_method_name(name: &str) -> (found: bool)
    ensures
        found == is_iteration_method(name@),
{
    is_text(name, "map") || is_text(name, "flatMap") || is_text(name, "from") || is_text(name, "forEach")
        || is_text(name, "filter") || is_text(name, "some") || is_text(name, "every") || is_text(
        name,
        "find",
    ) || is_text(name, "findIndex") || is_text(name, "reduce") || is_text(name, "reduceRight")
}

/// Checks a call that iterates, such as `data.map(x => <h1>{x}</h1>)`, for
/// what its callback produces.
pub fn handle_iterators(
    node: &CallExpression,
    is_inside_jsx: bool,
    options: &UseJsxKeyInIterableOptions,
) -> (ranges: Option<Vec<TextRange>>)
    ensures
        ranges_view(ranges) == iterator_flags(*node, is_inside_jsx, *options),
{
    let callee = match &node.callee {
        Some(callee) => callee,
        None => {
            return None;
        },
    };
    let member_expression = match &**callee {
        Expression::Member(member_expression) => member_expression,
        _ => {
            return None;
        },
    };
    let arguments = match &node.arguments {
        Some(arguments) => arguments,
        None => {
            return None;
        },
    };
    let member_name = match &member_expression.member_name {
        Some(member_name) => member_name,
        None => {
            return None;
        },
    };
    if !is_iteration_method_name(member_name.as_str()) {
        return None;
    }
    let is_array_caller = match &member_expression.object {
        Some(object) => match &**object {
            Expression::Identifier(identifier) => is_name(&identifier.name, "Array"),
            _ => false,
        },
        None => false,
    };
    let callback_index: usize = if is_array_caller {
        1
    } else {
        0
    };
    if callback_index >= arguments.args.len() {
        return None;
    }
    match &arguments.args[callback_index] {
        CallArgument::Expression(Expression::Function(callback)) => match &callback.body {
            Some(body) => Some(handle_function_body(body, is_inside_jsx, options)),
            None => None,
        },
        CallArgument::Expression(Expression::ArrowFunction(callback)) => match &callback.body {
            Some(ArrowFunctionBody::Expression(expr)) => handle_potential_react_component(
                expr,
                is_inside_jsx,
                options,
            ),
            Some(ArrowFunctionBody::Block(body)) => Some(handle_function_body(body, is_inside_jsx, options)),
            None => None,
        },
        _ => None,
    }
}

/// Checks the entries of an array literal, such as `[<h1></h1>, <h1></h1>]`.
///
/// A spread entry is passed over: where its argument is itself an array
/// literal, that literal is checked on its own.
pub fn handle_collections(
    node: &ArrayExpression,
    is_inside_jsx: bool,
    options: &UseJsxKeyInIterableOptions,
) -> (ranges: Vec<TextRange>)
    ensures
        ranges@ == elements_flags(node.elements@, is_inside_jsx, *options),
{
    let elements = &node.elements;
    let mut ranges: Vec<TextRange> = Vec::new();
    let mut i: usize = 0;
    while i < elements.len()
        invariant
            i <= elements.len(),
            ranges@ == elements_flags(elements@.take(i as int), is_inside_jsx, *options),
        decreases elements.len() - i,
    {
        proof {
            assert(elements@.take(i + 1).drop_last() == elements@.take(i as int));
        }
        if let ArrayElement::Expression(expr) = &elements[i] {
            if let Some(mut found) = handle_potential_react_component(expr, is_inside_jsx, options) {
                ranges.append(&mut found);
            }
        }
        i += 1;
    }
    proof {
        assert(elements@.take(i as int) == elements@);
    }
    ranges
}

/// The rule: no element without a key in an array literal or in what the
/// callback of an iteration produces.
pub struct UseJsxKeyInIterable;

impl UseJsxKeyInIterable {
    /// Runs the rule on one node and gives the ranges to report.
    ///
    /// `is_inside_jsx` says whether the node stands directly in an expression
    /// embedded in markup. The result depends on nothing but the arguments.
    pub fn run(
        node: &UseJsxKeyInIterableQuery,
        is_inside_jsx: bool,
        options: &UseJsxKeyInIterableOptions,
    ) -> (signals: Vec<TextRange>)
        ensures
            signals@ == flagged_ranges(*node, is_inside_jsx, *options),
    {
        match node {
            UseJsxKeyInIterableQuery::JsArrayExpression(node) => handle_collections(
                node,
                is_inside_jsx,
                options,
            ),
            UseJsxKeyInIterableQuery::JsCallExpression(node) => match handle_iterators(
                node,
                is_inside_jsx,
                options,
            ) {
                Some(ranges) => ranges,
                None => Vec::new(),
            },
        }
    }

    /// What is reported of an element without a key.
    pub open spec fn diagnostic_of(state: TextRange) -> RuleDiagnosticView {
        RuleDiagnosticView {
            category: "lint/correctness/useJsxKeyInIterable"@,
            severity: Severity::Error,
            range: state,
            message: seq![
                MarkupNodeView::Plain { content: "Missing "@ },
                MarkupNodeView::Emphasis { content: "key"@ },
                MarkupNodeView::Plain { content: " property for this element in iterable."@ },
            ],
            notes: seq![
                seq![
                    MarkupNodeView::Plain {
                        content: "The order of the items may change, and having a key can help React identify which item was moved."@,
                    },
                ],
                seq![
                    MarkupNodeView::Plain { content: "Check the "@ },
                    MarkupNodeView::Hyperlink {
                        href: "https://react.dev/learn/rendering-lists#why-does-react-need-keys"@,
                        content: "React documentation"@,
                    },
                    MarkupNodeView::Plain { content: ". "@ },
                ],
            ],
        }
    }

    /// Describes a finding of the rule.
    pub fn diagnostic(state: &TextRange) -> (diagnostic: Option<RuleDiagnostic>)
        ensures
            match diagnostic {
                Some(diagnostic) => diagnostic.deep_view() == Self::diagnostic_of(*state),
                None => false,
            },
    {
        let message = text_of_three(
            MarkupNode::plain("Missing "),
            MarkupNode::emphasis("key"),
            MarkupNode::plain(" property for this element in iterable."),
        );
        let mut notes: Vec<Vec<MarkupNode>> = Vec::new();
        notes.push(
            plain_text(
                "The order of the items may change, and having a key can help React identify which item was moved.",
            ),
        );
        notes.push(
            text_of_three(
                MarkupNode::plain("Check the "),
                MarkupNode::hyperlink(
                    "https://react.dev/learn/rendering-lists#why-does-react-need-keys",
                    "React documentation",
                ),
                MarkupNode::plain(". "),
            ),
        );
        let diagnostic = RuleDiagnostic {
            category: "lint/correctness/useJsxKeyInIterable".to_owned(),
            severity: Severity::Error,
            range: *state,
            message,
            notes,
        };
        proof {
            assert(diagnostic.notes.deep_view() =~= Self::diagnostic_of(*state).notes);
        }
        Some(diagnostic)
    }
}

} // verus!
