//! What holds of the key rule on every tree.

use crate::key_flags::{
    callback_index, candidate_flags, child_flags, component_flags, elements_flags, factory_call_flag,
    factory_props, factory_props_name_key, flagged_ranges, flattened, is_element_factory,
    is_iteration_method, iterator_flags, lemma_candidate_flags_ignore_parentheses, tag_flags,
    union_flags, without_parentheses,
};
use crate::key_presence::{is_key_attribute, is_key_member, key_attribute_present, key_member_present};
use crate::syntax::{
    ArrayElement, ArrayExpression, ArrowFunctionBody, CallArgument, CallExpression,
    ConditionalExpression, Expression, JsxAttribute, JsxChild, JsxElement, JsxFragment,
    ObjectMember, ReactComponentExpression,
};
use crate::text_range::TextRange;
use crate::use_jsx_key_in_iterable::{UseJsxKeyInIterableOptions, UseJsxKeyInIterableQuery};
use vstd::prelude::*;

verus! {

/// The attributes of a node of markup that is an element with its opening
/// tag in place, or a self-closing element.
pub open spec fn markup_attributes(child: JsxChild) -> Option<Seq<JsxAttribute>> {
    match child {
        JsxChild::Element(element) => match element.opening_element {
            Some(opening) => Some(opening.attributes@),
            None => None,
        },
        JsxChild::SelfClosingElement(element) => Some(element.attributes@),
        _ => None,
    }
}

/// Where a node of markup is flagged if it is: an element at its opening
/// tag, a self-closing element or a fragment at the whole of it.
pub open spec fn markup_range(child: JsxChild) -> Option<TextRange> {
    match child {
        JsxChild::Element(element) => match element.opening_element {
            Some(opening) => Some(opening.range),
            None => None,
        },
        JsxChild::SelfClosingElement(element) => Some(element.range),
        JsxChild::Fragment(fragment) => Some(fragment.range),
        _ => None,
    }
}

/// The markup of an expression that is, inside its parentheses, an element in
/// tag notation.
pub open spec fn markup_of(expr: Expression) -> Option<JsxChild> {
    match without_parentheses(expr) {
        Some(Expression::Component(ReactComponentExpression::JsxTagExpression(node))) => node.tag,
        _ => None,
    }
}

/// The expression is an element or a self-closing element whose attributes
/// name no key.
pub open spec fn is_unkeyed_element(expr: Expression) -> bool {
    match markup_of(expr) {
        Some(tag) => match markup_attributes(tag) {
            Some(attributes) => !key_attribute_present(attributes),
            None => false,
        },
        None => false,
    }
}

/// The expression is an element or a self-closing element whose attributes
/// name a key.
pub open spec fn is_keyed_element(expr: Expression) -> bool {
    match markup_of(expr) {
        Some(tag) => match markup_attributes(tag) {
            Some(attributes) => key_attribute_present(attributes),
            None => false,
        },
        None => false,
    }
}

/// Where an expression that is an element is flagged if it is.
pub open spec fn element_range(expr: Expression) -> TextRange {
    match markup_of(expr) {
        Some(tag) => match markup_range(tag) {
            Some(range) => range,
            None => arbitrary(),
        },
        None => arbitrary(),
    }
}

/// The entry of an array literal is an element without a key.
pub open spec fn is_unkeyed_entry(entry: ArrayElement) -> bool {
    match entry {
        ArrayElement::Expression(expr) => is_unkeyed_element(expr),
        _ => false,
    }
}

/// Where an entry that is an element is flagged if it is.
pub open spec fn entry_range(entry: ArrayElement) -> TextRange {
    match entry {
        ArrayElement::Expression(expr) => element_range(expr),
        _ => arbitrary(),
    }
}

/// Markup has, as a candidate, the flags of its tag.
proof fn lemma_markup_flags(expr: Expression, is_inside_jsx: bool, options: UseJsxKeyInIterableOptions)
    requires
        markup_of(expr) is Some,
    ensures
        candidate_flags(expr, is_inside_jsx, options) == child_flags(markup_of(expr).unwrap(), options),
{
    lemma_candidate_flags_ignore_parentheses(expr, is_inside_jsx, options);
    let inner = without_parentheses(expr).unwrap();
    match inner {
        Expression::Component(component) => {
            assert(candidate_flags(inner, is_inside_jsx, options) == component_flags(component, options));
            match component {
                ReactComponentExpression::JsxTagExpression(node) => {
                    assert(component_flags(component, options) == tag_flags(node, options));
                    assert(tag_flags(node, options) == child_flags(node.tag.unwrap(), options));
                },
                _ => {},
            }
        },
        _ => {},
    }
}

/// An element without a key is flagged, as a candidate, with its own range
/// and nothing else, inside markup and outside.
pub proof fn lemma_unkeyed_element_is_flagged(
    expr: Expression,
    is_inside_jsx: bool,
    options: UseJsxKeyInIterableOptions,
)
    requires
        is_unkeyed_element(expr),
    ensures
        candidate_flags(expr, is_inside_jsx, options) == Some(seq![element_range(expr)]),
{
    lemma_candidate_flags_ignore_parentheses(expr, is_inside_jsx, options);
    lemma_markup_flags(expr, is_inside_jsx, options);
}

/// An element with a key is not flagged.
pub proof fn lemma_keyed_element_is_not_flagged(
    expr: Expression,
    is_inside_jsx: bool,
    options: UseJsxKeyInIterableOptions,
)
    requires
        is_keyed_element(expr),
    ensures
        candidate_flags(expr, is_inside_jsx, options) is None,
{
    lemma_candidate_flags_ignore_parentheses(expr, is_inside_jsx, options);
    lemma_markup_flags(expr, is_inside_jsx, options);
}

proof fn lemma_unkeyed_entries_are_all_flagged(
    elements: Seq<ArrayElement>,
    is_inside_jsx: bool,
    options: UseJsxKeyInIterableOptions,
)
    requires
        forall|i: int| 0 <= i < elements.len() ==> is_unkeyed_entry(#[trigger] elements[i]),
    ensures
        elements_flags(elements, is_inside_jsx, options) == elements.map_values(
            |entry: ArrayElement| entry_range(entry),
        ),
    decreases elements.len(),
{
    let ranges = elements.map_values(|entry: ArrayElement| entry_range(entry));
    if elements.len() == 0 {
        assert(elements_flags(elements, is_inside_jsx, options) =~= ranges);
    } else {
        let front = elements.drop_last();
        lemma_unkeyed_entries_are_all_flagged(front, is_inside_jsx, options);
        assert(is_unkeyed_entry(elements.last()));
        match elements.last() {
            ArrayElement::Expression(expr) => {
                lemma_unkeyed_element_is_flagged(expr, is_inside_jsx, options);
            },
            _ => {},
        }
        assert(elements_flags(elements, is_inside_jsx, options) =~= ranges);
    }
}

/// An array literal all of whose entries are elements without a key is
/// flagged once for each entry, at the entry's own range, in order, and with
/// nothing else.
pub proof fn lemma_every_unkeyed_element_of_a_collection_is_flagged(
    array: ArrayExpression,
    is_inside_jsx: bool,
    options: UseJsxKeyInIterableOptions,
)
    requires
        forall|i: int| 0 <= i < array.elements.len() ==> is_unkeyed_entry(#[trigger] array.elements[i]),
    ensures
        flagged_ranges(UseJsxKeyInIterableQuery::JsArrayExpression(array), is_inside_jsx, options).len()
            == array.elements.len(),
        forall|i: int|
            0 <= i < array.elements.len() ==> #[trigger] flagged_ranges(
                UseJsxKeyInIterableQuery::JsArrayExpression(array),
                is_inside_jsx,
                options,
            )[i] == entry_range(array.elements[i]),
{
    lemma_unkeyed_entries_are_all_flagged(array.elements@, is_inside_jsx, options);
}

/// A list with one more attribute names a key where the added attribute is
/// one or the list named one before.
proof fn lemma_key_attribute_after_insert(attributes: Seq<JsxAttribute>, at: int, added: JsxAttribute)
    requires
        0 <= at <= attributes.len(),
    ensures
        key_attribute_present(attributes.insert(at, added)) == (is_key_attribute(added)
            || key_attribute_present(attributes)),
{
    let longer = attributes.insert(at, added);
    if key_attribute_present(longer) {
        let i = choose|i: int| 0 <= i < longer.len() && is_key_attribute(#[trigger] longer[i]);
        if i < at {
            assert(is_key_attribute(attributes[i]));
        } else if i > at {
            assert(is_key_attribute(attributes[i - 1]));
        }
    }
    if is_key_attribute(added) {
        assert(is_key_attribute(longer[at]));
    }
    if key_attribute_present(attributes) {
        let i = choose|i: int| 0 <= i < attributes.len() && is_key_attribute(#[trigger] attributes[i]);
        if i < at {
            assert(is_key_attribute(longer[i]));
        } else {
            assert(is_key_attribute(longer[i + 1]));
        }
    }
}

/// A list with one more member names a key where the added member is one or
/// the list named one before.
proof fn lemma_key_member_after_insert(members: Seq<ObjectMember>, at: int, added: ObjectMember)
    requires
        0 <= at <= members.len(),
    ensures
        key_member_present(members.insert(at, added)) == (is_key_member(added) || key_member_present(
            members,
        )),
{
    let longer = members.insert(at, added);
    if key_member_present(longer) {
        let i = choose|i: int| 0 <= i < longer.len() && is_key_member(#[trigger] longer[i]);
        if i < at {
            assert(is_key_member(members[i]));
        } else if i > at {
            assert(is_key_member(members[i - 1]));
        }
    }
    if is_key_member(added) {
        assert(is_key_member(longer[at]));
    }
    if key_member_present(members) {
        let i = choose|i: int| 0 <= i < members.len() && is_key_member(#[trigger] members[i]);
        if i < at {
            assert(is_key_member(longer[i]));
        } else {
            assert(is_key_member(longer[i + 1]));
        }
    }
}

/// An element that differs from another by one more attribute, a `key`
/// written out, is not flagged, wherever in the list the attribute stands.
pub proof fn lemma_static_key_attribute_suppresses(
    plain: JsxChild,
    keyed: JsxChild,
    at: int,
    added: JsxAttribute,
    options: UseJsxKeyInIterableOptions,
)
    requires
        markup_attributes(plain) is Some,
        0 <= at <= markup_attributes(plain).unwrap().len(),
        markup_attributes(keyed) == Some(markup_attributes(plain).unwrap().insert(at, added)),
        is_key_attribute(added),
    ensures
        child_flags(keyed, options) is None,
{
    lemma_key_attribute_after_insert(markup_attributes(plain).unwrap(), at, added);
}

/// An element that differs from another by one more attribute, a spread, is
/// flagged exactly as the other is: a spread is never taken as proof of a
/// key.
pub proof fn lemma_spread_attribute_does_not_suppress(
    plain: JsxChild,
    with_spread: JsxChild,
    at: int,
    options: UseJsxKeyInIterableOptions,
)
    requires
        markup_attributes(plain) is Some,
        0 <= at <= markup_attributes(plain).unwrap().len(),
        markup_attributes(with_spread) == Some(
            markup_attributes(plain).unwrap().insert(at, JsxAttribute::Spread),
        ),
        markup_range(with_spread) == markup_range(plain),
    ensures
        child_flags(with_spread, options) == child_flags(plain, options),
{
    lemma_key_attribute_after_insert(markup_attributes(plain).unwrap(), at, JsxAttribute::Spread);
}

/// A call of an element factory is flagged, at its arguments, unless its
/// properties name a key. Properties that cannot be read count as naming
/// none.
pub proof fn lemma_factory_call_is_flagged_unless_keyed(call: CallExpression)
    requires
        call.callee is Some,
        call.arguments is Some,
        is_element_factory(call),
    ensures
        factory_call_flag(call) == if factory_props_name_key(call) {
            None
        } else {
            Some(call.arguments.unwrap().range)
        },
        call.arguments.unwrap().args.len() <= 1 ==> factory_call_flag(call) == Some(
            call.arguments.unwrap().range,
        ),
{
}

/// A call of an element factory that differs from another by one more
/// property, a `key` written out in full or in short, is not flagged.
pub proof fn lemma_static_key_property_suppresses(
    plain: CallExpression,
    keyed: CallExpression,
    at: int,
    added: ObjectMember,
)
    requires
        factory_props(plain) is Some,
        factory_props(keyed) is Some,
        0 <= at <= factory_props(plain).unwrap().members.len(),
        factory_props(keyed).unwrap().members@ == factory_props(plain).unwrap().members@.insert(
            at,
            added,
        ),
        is_key_member(added),
    ensures
        factory_call_flag(keyed) is None,
{
    lemma_key_member_after_insert(factory_props(plain).unwrap().members@, at, added);
}

/// A call of an element factory that differs from another by one more
/// member of its properties, a spread, is flagged if and only if the other
/// is, each at its own arguments.
pub proof fn lemma_spread_property_does_not_suppress(
    plain: CallExpression,
    with_spread: CallExpression,
    at: int,
)
    requires
        plain.callee is Some,
        with_spread.callee is Some,
        is_element_factory(plain),
        is_element_factory(with_spread),
        factory_props(plain) is Some,
        factory_props(with_spread) is Some,
        0 <= at <= factory_props(plain).unwrap().members.len(),
        factory_props(with_spread).unwrap().members@ == factory_props(plain).unwrap().members@.insert(
            at,
            ObjectMember::Spread,
        ),
    ensures
        factory_call_flag(with_spread) is Some <==> factory_call_flag(plain) is Some,
        factory_call_flag(with_spread) is Some ==> factory_call_flag(with_spread) == Some(
            with_spread.arguments.unwrap().range,
        ),
{
    lemma_key_member_after_insert(factory_props(plain).unwrap().members@, at, ObjectMember::Spread);
}

/// A shorthand fragment is flagged, at the whole of it, where the options
/// ask for that, and nowhere else.
pub proof fn lemma_fragment_is_flagged_on_request(
    fragment: JsxFragment,
    options: UseJsxKeyInIterableOptions,
)
    ensures
        child_flags(JsxChild::Fragment(fragment), options) == if options.check_shorthand_fragments {
            Some(seq![fragment.range])
        } else {
            None
        },
{
}

/// A node of markup that is no embedded expression is flagged at most once,
/// and then at its own range: a scan flags no node twice.
pub proof fn lemma_markup_is_flagged_at_its_own_range(
    child: JsxChild,
    options: UseJsxKeyInIterableOptions,
)
    requires
        !(child is ExpressionChild),
    ensures
        match child_flags(child, options) {
            Some(ranges) => markup_range(child) == Some(ranges[0]) && ranges.len() == 1,
            None => true,
        },
{
}

/// What an element is flagged with does not depend on its children: markup
/// nested in an element is not reached through the element.
pub proof fn lemma_children_are_not_scanned(
    first: JsxElement,
    second: JsxElement,
    options: UseJsxKeyInIterableOptions,
)
    requires
        first.opening_element == second.opening_element,
    ensures
        child_flags(JsxChild::Element(first), options) == child_flags(JsxChild::Element(second), options),
{
}

/// Two runs of the rule on the same node with the same options report the
/// same ranges in the same order.
pub proof fn lemma_run_is_repeatable(
    node: UseJsxKeyInIterableQuery,
    is_inside_jsx: bool,
    options: UseJsxKeyInIterableOptions,
    first: Vec<TextRange>,
    second: Vec<TextRange>,
)
    requires
        first@ == flagged_ranges(node, is_inside_jsx, options),
        second@ == flagged_ranges(node, is_inside_jsx, options),
    ensures
        first@ == second@,
{
}

/// A conditional expression is flagged with what its two branches are
/// flagged with, the consequent's ranges first. Nothing is merged: a range
/// that both branches give is given twice.
pub proof fn lemma_conditional_has_the_flags_of_both_branches(
    conditional: ConditionalExpression,
    is_inside_jsx: bool,
    options: UseJsxKeyInIterableOptions,
)
    requires
        conditional.consequent is Some,
        conditional.alternate is Some,
    ensures
        candidate_flags(Expression::Conditional(conditional), is_inside_jsx, options) == union_flags(
            candidate_flags(*conditional.consequent.unwrap(), is_inside_jsx, options),
            candidate_flags(*conditional.alternate.unwrap(), is_inside_jsx, options),
        ),
        flattened(candidate_flags(Expression::Conditional(conditional), is_inside_jsx, options))
            == flattened(candidate_flags(*conditional.consequent.unwrap(), is_inside_jsx, options))
            + flattened(candidate_flags(*conditional.alternate.unwrap(), is_inside_jsx, options)),
{
}

/// Of the two branches of a conditional expression that are elements, each
/// one without a key is flagged and each one with a key is not.
pub proof fn lemma_conditional_of_elements(
    conditional: ConditionalExpression,
    is_inside_jsx: bool,
    options: UseJsxKeyInIterableOptions,
)
    requires
        conditional.consequent is Some,
        conditional.alternate is Some,
        is_unkeyed_element(*conditional.consequent.unwrap()) || is_keyed_element(
            *conditional.consequent.unwrap(),
        ),
        is_unkeyed_element(*conditional.alternate.unwrap()) || is_keyed_element(
            *conditional.alternate.unwrap(),
        ),
    ensures
        flattened(candidate_flags(Expression::Conditional(conditional), is_inside_jsx, options)) == (
        if is_unkeyed_element(*conditional.consequent.unwrap()) {
            seq![element_range(*conditional.consequent.unwrap())]
        } else {
            Seq::empty()
        }) + (if is_unkeyed_element(*conditional.alternate.unwrap()) {
            seq![element_range(*conditional.alternate.unwrap())]
        } else {
            Seq::empty()
        }),
{
    let consequent = *conditional.consequent.unwrap();
    let alternate = *conditional.alternate.unwrap();
    if is_unkeyed_element(consequent) {
        lemma_unkeyed_element_is_flagged(consequent, is_inside_jsx, options);
    } else {
        lemma_keyed_element_is_not_flagged(consequent, is_inside_jsx, options);
    }
    if is_unkeyed_element(alternate) {
        lemma_unkeyed_element_is_flagged(alternate, is_inside_jsx, options);
    } else {
        lemma_keyed_element_is_not_flagged(alternate, is_inside_jsx, options);
    }
}

/// The expression that the callback of an iteration produces, where the
/// callback is an arrow function with an expression to its right: the
/// expression itself.
pub open spec fn produced_expression(call: CallExpression) -> Option<Expression> {
    match (call.callee, call.arguments) {
        (Some(callee), Some(arguments)) => match *callee {
            Expression::Member(member) => match member.member_name {
                Some(name) => {
                    if is_iteration_method(name@) && callback_index(member) < arguments.args.len() {
                        match arguments.args[callback_index(member)] {
                            CallArgument::Expression(Expression::ArrowFunction(arrow)) => match arrow.body {
                                Some(ArrowFunctionBody::Expression(expr)) => Some(*expr),
                                _ => None,
                            },
                            _ => None,
                        }
                    } else {
                        None
                    }
                },
                None => None,
            },
            _ => None,
        },
        _ => None,
    }
}

/// An iteration whose callback produces an expression is flagged with what
/// that expression is flagged with as a candidate.
pub proof fn lemma_iteration_has_the_flags_of_what_it_produces(
    call: CallExpression,
    is_inside_jsx: bool,
    options: UseJsxKeyInIterableOptions,
)
    requires
        produced_expression(call) is Some,
    ensures
        iterator_flags(call, is_inside_jsx, options) == candidate_flags(
            produced_expression(call).unwrap(),
            is_inside_jsx,
            options,
        ),
{
}

/// An iteration whose callback produces an element is reported at that
/// element where the element has no key, and not at all where it has one.
pub proof fn lemma_iteration_producing_an_element(
    call: CallExpression,
    is_inside_jsx: bool,
    options: UseJsxKeyInIterableOptions,
)
    requires
        produced_expression(call) is Some,
        is_unkeyed_element(produced_expression(call).unwrap()) || is_keyed_element(
            produced_expression(call).unwrap(),
        ),
    ensures
        flagged_ranges(UseJsxKeyInIterableQuery::JsCallExpression(call), is_inside_jsx, options) == (
        if is_unkeyed_element(produced_expression(call).unwrap()) {
            seq![element_range(produced_expression(call).unwrap())]
        } else {
            Seq::empty()
        }),
{
    let produced = produced_expression(call).unwrap();
    if is_unkeyed_element(produced) {
        lemma_unkeyed_element_is_flagged(produced, is_inside_jsx, options);
    } else {
        lemma_keyed_element_is_not_flagged(produced, is_inside_jsx, options);
    }
}

/// An iteration whose callback produces a conditional expression with an
/// element in each branch is reported at each branch that has no key, the
/// consequent first, and at no branch that has one.
pub proof fn lemma_iteration_producing_a_conditional_of_elements(
    call: CallExpression,
    conditional: ConditionalExpression,
    is_inside_jsx: bool,
    options: UseJsxKeyInIterableOptions,
)
    requires
        produced_expression(call) == Some(Expression::Conditional(conditional)),
        conditional.consequent is Some,
        conditional.alternate is Some,
        is_unkeyed_element(*conditional.consequent.unwrap()) || is_keyed_element(
            *conditional.consequent.unwrap(),
        ),
        is_unkeyed_element(*conditional.alternate.unwrap()) || is_keyed_element(
            *conditional.alternate.unwrap(),
        ),
    ensures
        flagged_ranges(UseJsxKeyInIterableQuery::JsCallExpression(call), is_inside_jsx, options) == (
        if is_unkeyed_element(*conditional.consequent.unwrap()) {
            seq![element_range(*conditional.consequent.unwrap())]
        } else {
            Seq::empty()
        }) + (if is_unkeyed_element(*conditional.alternate.unwrap()) {
            seq![element_range(*conditional.alternate.unwrap())]
        } else {
            Seq::empty()
        }),
{
    lemma_iteration_has_the_flags_of_what_it_produces(call, is_inside_jsx, options);
    lemma_conditional_of_elements(conditional, is_inside_jsx, options);
}

/// A call of a method that is not an iteration method is reported nothing
/// of, whatever its callback produces.
pub proof fn lemma_unknown_method_is_not_checked(
    call: CallExpression,
    is_inside_jsx: bool,
    options: UseJsxKeyInIterableOptions,
)
    requires
        match call.callee {
            Some(callee) => match *callee {
                Expression::Member(member) => match member.member_name {
                    Some(name) => !is_iteration_method(name@),
                    None => true,
                },
                _ => true,
            },
            None => true,
        },
    ensures
        iterator_flags(call, is_inside_jsx, options) is None,
        flagged_ranges(UseJsxKeyInIterableQuery::JsCallExpression(call), is_inside_jsx, options).len()
            == 0,
{
}

/// A result is never an empty list of ranges: where nothing is flagged there
/// is no result.
pub proof fn lemma_candidate_flags_are_not_empty(
    node: Expression,
    is_inside_jsx: bool,
    options: UseJsxKeyInIterableOptions,
)
    ensures
        match candidate_flags(node, is_inside_jsx, options) {
            Some(ranges) => ranges.len() > 0,
            None => true,
        },
    decreases node,
{
    match node {
        Expression::Parenthesized(parenthesized) => match parenthesized.expression {
            Some(inner) => lemma_candidate_flags_are_not_empty(*inner, is_inside_jsx, options),
            None => {},
        },
        Expression::Conditional(conditional) => match (conditional.consequent, conditional.alternate) {
            (Some(consequent), Some(alternate)) => {
                lemma_candidate_flags_are_not_empty(*consequent, is_inside_jsx, options);
                lemma_candidate_flags_are_not_empty(*alternate, is_inside_jsx, options);
            },
            _ => {},
        },
        Expression::Component(component) => match component {
            ReactComponentExpression::JsxTagExpression(node) => {
                assert(component_flags(component, options) == tag_flags(node, options));
                match node.tag {
                    Some(tag) => {
                        assert(tag_flags(node, options) == child_flags(tag, options));
                    },
                    None => {},
                }
            },
            _ => {},
        },
        _ => {},
    }
}

} // verus!
