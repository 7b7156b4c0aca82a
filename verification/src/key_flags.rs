//! What the key rule flags, stated over the tree.
//!
//! A result is a list of ranges, or no result at all. No result and an empty
//! list are kept apart up to the point where the results of several
//! expressions are strung together.

use crate::key_presence::{key_attribute_present, key_member_present};
use crate::semantic::denotes_api;
use crate::syntax::{
    ArrayElement, ArrowFunctionBody, CallArgument, CallExpression, Expression, FunctionBody, JsxChild,
    JsxTagExpression, MemberExpression, ObjectExpression, ReactComponentExpression, ReactLibrary,
    ReturnStatement, Statement, SwitchClause, VariableDeclarator,
};
use crate::text::names;
use crate::text_range::TextRange;
use crate::use_jsx_key_in_iterable::{UseJsxKeyInIterableOptions, UseJsxKeyInIterableQuery};
use vstd::prelude::*;

verus! {

/// The ranges of a result, with no result read as no range.
pub open spec fn flattened(flags: Option<Seq<TextRange>>) -> Seq<TextRange> {
    match flags {
        Some(ranges) => ranges,
        None => Seq::empty(),
    }
}

/// The ranges as a result: none where there is no range.
pub open spec fn non_empty(ranges: Seq<TextRange>) -> Option<Seq<TextRange>> {
    if ranges.len() == 0 {
        None
    } else {
        Some(ranges)
    }
}

/// The results of two branches taken together: the ranges of the first, then
/// those of the second, and no result only where neither branch has one.
pub open spec fn union_flags(
    first: Option<Seq<TextRange>>,
    second: Option<Seq<TextRange>>,
) -> Option<Seq<TextRange>> {
    match (first, second) {
        (Some(first), Some(second)) => Some(first + second),
        (Some(first), None) => Some(first),
        (None, Some(second)) => Some(second),
        (None, None) => None,
    }
}

/// The expression inside all of its parentheses, or none where a pair of
/// parentheses holds nothing.
pub open spec fn without_parentheses(expr: Expression) -> Option<Expression>
    decreases expr,
{
    match expr {
        Expression::Parenthesized(parenthesized) => match parenthesized.expression {
            Some(inner) => without_parentheses(*inner),
            None => None,
        },
        _ => Some(expr),
    }
}

/// The callee is `createElement` or `cloneElement` of React.
pub open spec fn is_element_factory(call: CallExpression) -> bool {
    denotes_api(call.target, ReactLibrary::React, "cloneElement"@) || denotes_api(
        call.target,
        ReactLibrary::React,
        "createElement"@,
    )
}

/// The object literal that holds the properties in a call of an element
/// factory: the second argument, where it is one.
pub open spec fn factory_props(call: CallExpression) -> Option<ObjectExpression> {
    match call.arguments {
        Some(arguments) => {
            if arguments.args.len() > 1 {
                match arguments.args[1] {
                    CallArgument::Expression(Expression::Object(props)) => Some(props),
                    _ => None,
                }
            } else {
                None
            }
        },
        None => None,
    }
}

/// The properties in a call of an element factory name a key. Where there
/// are no properties to read, because the call has no second argument or has
/// one that is no object literal, there is no key.
pub open spec fn factory_props_name_key(call: CallExpression) -> bool {
    match factory_props(call) {
        Some(props) => key_member_present(props.members@),
        None => false,
    }
}

/// Where a call of an element factory lacks a key.
///
/// A call with its callee and arguments in place, whose callee is an element
/// factory, is flagged at its arguments unless its properties name a key.
/// Every other call gives no result.
pub open spec fn factory_call_flag(call: CallExpression) -> Option<TextRange> {
    match (call.callee, call.arguments) {
        (Some(_), Some(arguments)) => {
            if is_element_factory(call) && !factory_props_name_key(call) {
                Some(arguments.range)
            } else {
                None
            }
        },
        _ => None,
    }
}

/// What one node of markup is flagged with.
///
/// An element is flagged at its opening tag, a self-closing element at the
/// whole of it, where the attributes name no key. A fragment is flagged where
/// the options ask for it. An embedded expression has the flags of the
/// expression as a candidate inside markup. The children of an element are
/// not looked at.
pub open spec fn child_flags(
    child: JsxChild,
    options: UseJsxKeyInIterableOptions,
) -> Option<Seq<TextRange>>
    decreases child,
{
    match child {
        JsxChild::Element(element) => match element.opening_element {
            Some(opening) => if key_attribute_present(opening.attributes@) {
                None
            } else {
                Some(seq![opening.range])
            },
            None => None,
        },
        JsxChild::SelfClosingElement(element) => if key_attribute_present(element.attributes@) {
            None
        } else {
            Some(seq![element.range])
        },
        JsxChild::ExpressionChild(child) => match child.expression {
            Some(expression) => non_empty(flattened(candidate_flags(*expression, true, options))),
            None => None,
        },
        JsxChild::Fragment(fragment) => if options.check_shorthand_fragments {
            Some(seq![fragment.range])
        } else {
            None
        },
        _ => None,
    }
}

/// What an element in tag notation is flagged with: the flags of its tag.
pub open spec fn tag_flags(
    node: JsxTagExpression,
    options: UseJsxKeyInIterableOptions,
) -> Option<Seq<TextRange>>
    decreases node,
{
    match node.tag {
        Some(tag) => child_flags(tag, options),
        None => None,
    }
}

/// What an expression of one of the two component shapes is flagged with.
pub open spec fn component_flags(
    node: ReactComponentExpression,
    options: UseJsxKeyInIterableOptions,
) -> Option<Seq<TextRange>>
    decreases node,
{
    match node {
        ReactComponentExpression::JsxTagExpression(tag) => tag_flags(tag, options),
        ReactComponentExpression::JsCallExpression(call) => match factory_call_flag(call) {
            Some(range) => Some(seq![range]),
            None => None,
        },
    }
}

/// What an expression is flagged with as a candidate for producing an
/// element.
///
/// Parentheses are looked through. A conditional expression has the flags of
/// its two branches, each taken by itself. Markup has the flags of its tag. A
/// call has the flag of a factory call, but inside markup a call is no
/// candidate. Any other expression, and one with a part missing on the way,
/// gives no result.
pub open spec fn candidate_flags(
    node: Expression,
    is_inside_jsx: bool,
    options: UseJsxKeyInIterableOptions,
) -> Option<Seq<TextRange>>
    decreases node,
{
    match node {
        Expression::Parenthesized(parenthesized) => match parenthesized.expression {
            Some(inner) => candidate_flags(*inner, is_inside_jsx, options),
            None => None,
        },
        Expression::Conditional(conditional) => match (conditional.consequent, conditional.alternate) {
            (Some(consequent), Some(alternate)) => union_flags(
                candidate_flags(*consequent, is_inside_jsx, options),
                candidate_flags(*alternate, is_inside_jsx, options),
            ),
            _ => None,
        },
        Expression::Component(component) => {
            if is_inside_jsx && component is JsCallExpression {
                None
            } else {
                component_flags(component, options)
            }
        },
        _ => None,
    }
}

/// Candidate flags are those of the expression inside the parentheses.
pub proof fn lemma_candidate_flags_ignore_parentheses(
    node: Expression,
    is_inside_jsx: bool,
    options: UseJsxKeyInIterableOptions,
)
    ensures
        candidate_flags(node, is_inside_jsx, options) == match without_parentheses(node) {
            Some(inner) => candidate_flags(inner, is_inside_jsx, options),
            None => None,
        },
    decreases node,
{
    match node {
        Expression::Parenthesized(parenthesized) => match parenthesized.expression {
            Some(inner) => lemma_candidate_flags_ignore_parentheses(*inner, is_inside_jsx, options),
            None => {},
        },
        _ => {},
    }
}

/// What the declarators of one declaration are flagged with: the flags of
/// each initializer as a candidate, in order.
pub open spec fn declarators_flags(
    declarators: Seq<VariableDeclarator>,
    is_inside_jsx: bool,
    options: UseJsxKeyInIterableOptions,
) -> Seq<TextRange>
    decreases declarators.len(),
{
    if declarators.len() == 0 {
        Seq::empty()
    } else {
        declarators_flags(declarators.drop_last(), is_inside_jsx, options) + match declarators.last().initializer {
            Some(init) => flattened(candidate_flags(init, is_inside_jsx, options)),
            None => Seq::empty(),
        }
    }
}

/// What a list of statements is flagged with: the flags of each statement, in
/// order.
pub open spec fn statements_flags(
    statements: Seq<Statement>,
    is_inside_jsx: bool,
    options: UseJsxKeyInIterableOptions,
) -> Seq<TextRange>
    decreases statements,
{
    if statements.len() == 0 {
        Seq::empty()
    } else {
        statements_flags(statements.drop_last(), is_inside_jsx, options) + flattened(
            statement_flags(statements.last(), is_inside_jsx, options),
        )
    }
}

/// What the clauses of a `switch` are flagged with: the flags of the
/// statements of each clause, in order.
pub open spec fn clauses_flags(
    cases: Seq<SwitchClause>,
    is_inside_jsx: bool,
    options: UseJsxKeyInIterableOptions,
) -> Seq<TextRange>
    decreases cases,
{
    if cases.len() == 0 {
        Seq::empty()
    } else {
        clauses_flags(cases.drop_last(), is_inside_jsx, options) + match cases.last() {
            SwitchClause::Case { consequent } => statements_flags(consequent@, is_inside_jsx, options),
            SwitchClause::Default { consequent } => statements_flags(consequent@, is_inside_jsx, options),
        }
    }
}

/// What a branch of an `if` is flagged with: the flags of its statements
/// where it is a block, and nothing where it is not.
pub open spec fn branch_flags(
    branch: Option<Box<Statement>>,
    is_inside_jsx: bool,
    options: UseJsxKeyInIterableOptions,
) -> Seq<TextRange>
    decreases branch,
{
    match branch {
        Some(statement) => match *statement {
            Statement::Block(block) => statements_flags(block.statements@, is_inside_jsx, options),
            _ => Seq::empty(),
        },
        None => Seq::empty(),
    }
}

/// What one statement is flagged with.
///
/// A declaration has the flags of its declarators, whether or not the
/// variable is ever returned. A `return` has the flags of its argument as a
/// candidate. A `switch` has the flags of all its clauses, and an `if` those
/// of its two branches. Any other statement gives no result.
pub open spec fn statement_flags(
    statement: Statement,
    is_inside_jsx: bool,
    options: UseJsxKeyInIterableOptions,
) -> Option<Seq<TextRange>>
    decreases statement,
{
    match statement {
        Statement::Variable(variable) => match variable.declaration {
            Some(declaration) => Some(declarators_flags(declaration.declarators@, is_inside_jsx, options)),
            None => None,
        },
        Statement::Return(ret) => match ret.argument {
            Some(argument) => candidate_flags(argument, is_inside_jsx, options),
            None => None,
        },
        Statement::Switch(switch) => Some(clauses_flags(switch.cases@, is_inside_jsx, options)),
        Statement::If(if_statement) => Some(
            branch_flags(if_statement.consequent, is_inside_jsx, options) + match if_statement.else_clause {
                Some(else_clause) => branch_flags(else_clause.alternate, is_inside_jsx, options),
                None => Seq::empty(),
            },
        ),
        _ => None,
    }
}

/// The first `return` among the statements from position `start` on. A
/// `return` inside another statement is not looked for.
pub open spec fn first_return_from(statements: Seq<Statement>, start: int) -> Option<ReturnStatement>
    decreases statements.len() - start,
{
    if start < 0 || start >= statements.len() {
        None
    } else {
        match statements[start] {
            Statement::Return(ret) => Some(ret),
            _ => first_return_from(statements, start + 1),
        }
    }
}

/// The expression has, inside its parentheses, one of the two component
/// shapes.
pub open spec fn is_component_shaped(expr: Expression) -> bool {
    match without_parentheses(expr) {
        Some(inner) => inner is Component,
        None => false,
    }
}

/// The first `return` of the body returns a component that the rule finds
/// nothing to flag in. Such a body is taken to be in order as a whole.
pub open spec fn covered_by_return(
    body: FunctionBody,
    is_inside_jsx: bool,
    options: UseJsxKeyInIterableOptions,
) -> bool {
    match first_return_from(body.statements@, 0) {
        Some(ret) => match ret.argument {
            Some(returned_value) => is_component_shaped(returned_value) && candidate_flags(
                returned_value,
                is_inside_jsx,
                options,
            ) is None,
            None => false,
        },
        None => false,
    }
}

/// What the body of a callback is flagged with: nothing where its first
/// `return` covers it, else the flags of all its statements.
pub open spec fn function_body_flags(
    body: FunctionBody,
    is_inside_jsx: bool,
    options: UseJsxKeyInIterableOptions,
) -> Seq<TextRange> {
    if covered_by_return(body, is_inside_jsx, options) {
        Seq::empty()
    } else {
        statements_flags(body.statements@, is_inside_jsx, options)
    }
}

/// A method of arrays that calls a function once per item.
pub open spec fn is_iteration_method(name: Seq<char>) -> bool {
    name == "map"@ || name == "flatMap"@ || name == "from"@ || name == "forEach"@ || name == "filter"@
        || name == "some"@ || name == "every"@ || name == "find"@ || name == "findIndex"@ || name
        == "reduce"@ || name == "reduceRight"@
}

/// The object of the member expression is the identifier `Array`.
pub open spec fn is_called_on_array_constructor(member: MemberExpression) -> bool {
    match member.object {
        Some(object) => match *object {
            Expression::Identifier(identifier) => names(identifier.name, "Array"@),
            _ => false,
        },
        None => false,
    }
}

/// Where the callback stands among the arguments: in the second place for a
/// method of the constructor `Array`, as in `Array.from(items, callback)`,
/// else in the first.
pub open spec fn callback_index(member: MemberExpression) -> int {
    if is_called_on_array_constructor(member) {
        1
    } else {
        0
    }
}

/// What a callback is flagged with. An arrow function with an expression to
/// its right has the flags of that expression as a candidate. A function with
/// a block has the flags of the block. Anything else is no callback.
pub open spec fn callback_flags(
    callback: CallArgument,
    is_inside_jsx: bool,
    options: UseJsxKeyInIterableOptions,
) -> Option<Seq<TextRange>> {
    match callback {
        CallArgument::Expression(Expression::Function(function)) => match function.body {
            Some(body) => Some(function_body_flags(body, is_inside_jsx, options)),
            None => None,
        },
        CallArgument::Expression(Expression::ArrowFunction(arrow)) => match arrow.body {
            Some(ArrowFunctionBody::Expression(expr)) => candidate_flags(*expr, is_inside_jsx, options),
            Some(ArrowFunctionBody::Block(body)) => Some(function_body_flags(body, is_inside_jsx, options)),
            None => None,
        },
        _ => None,
    }
}

/// What a call is flagged with as an iteration.
///
/// The call has a result only where its callee is a member expression that
/// names an iteration method, and a callback stands at the place where that
/// method takes one. The result is then that of the callback.
pub open spec fn iterator_flags(
    call: CallExpression,
    is_inside_jsx: bool,
    options: UseJsxKeyInIterableOptions,
) -> Option<Seq<TextRange>> {
    match (call.callee, call.arguments) {
        (Some(callee), Some(arguments)) => match *callee {
            Expression::Member(member) => match member.member_name {
                Some(name) => {
                    if is_iteration_method(name@) && callback_index(member) < arguments.args.len() {
                        callback_flags(arguments.args[callback_index(member)], is_inside_jsx, options)
                    } else {
                        None
                    }
                },
                None => None,
            },
            _ => None,
        },
        _ => None,
    }
}

/// What the entries of an array literal are flagged with: the flags of each
/// entry that is an expression, as a candidate, in order.
pub open spec fn elements_flags(
    elements: Seq<ArrayElement>,
    is_inside_jsx: bool,
    options: UseJsxKeyInIterableOptions,
) -> Seq<TextRange>
    decreases elements.len(),
{
    if elements.len() == 0 {
        Seq::empty()
    } else {
        elements_flags(elements.drop_last(), is_inside_jsx, options) + match elements.last() {
            ArrayElement::Expression(expr) => flattened(candidate_flags(expr, is_inside_jsx, options)),
            _ => Seq::empty(),
        }
    }
}

/// What the rule reports for a node, in the order in which it finds it.
/// `is_inside_jsx` says whether the node stands directly in an expression
/// embedded in markup.
pub open spec fn flagged_ranges(
    node: UseJsxKeyInIterableQuery,
    is_inside_jsx: bool,
    options: UseJsxKeyInIterableOptions,
) -> Seq<TextRange> {
    match node {
        UseJsxKeyInIterableQuery::JsArrayExpression(array) => elements_flags(
            array.elements@,
            is_inside_jsx,
            options,
        ),
        UseJsxKeyInIterableQuery::JsCallExpression(call) => flattened(
            iterator_flags(call, is_inside_jsx, options),
        ),
    }
}

} // verus!
