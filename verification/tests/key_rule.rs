use jsx_lint::key_presence::{has_key_attribute, has_key_prop};
use jsx_lint::semantic::is_react_call_api;
use jsx_lint::syntax::{
    ArrayElement, ArrayExpression, ArrowFunctionBody, ArrowFunctionExpression, BlockStatement,
    CallArgument, CallArguments, CallExpression, CallTarget, ConditionalExpression, ElseClause,
    Expression, FunctionBody, FunctionExpression, IdentifierExpression, IfStatement, JsxAttribute,
    JsxChild, JsxElement, JsxExpressionChild, JsxFragment, JsxNamedAttribute, JsxOpeningElement,
    JsxSelfClosingElement, JsxTagExpression, MemberExpression, ObjectExpression, ObjectMember,
    ParenthesizedExpression, ReactComponentExpression, ReactLibrary, ReturnStatement, Statement,
    SwitchClause, SwitchStatement, VariableDeclaration, VariableDeclarator, VariableStatement,
};
use jsx_lint::text_range::TextRange;
use jsx_lint::use_jsx_key_in_iterable::{
    handle_collections, handle_function_body, handle_iterators, handle_jsx_child, handle_jsx_tag,
    handle_potential_react_component, handle_react_component, handle_react_non_jsx, handle_statement,
    handle_statements, unwrap_parenthesis, UseJsxKeyInIterable, UseJsxKeyInIterableOptions,
    UseJsxKeyInIterableQuery,
};

fn range(start: u32, end: u32) -> TextRange {
    TextRange::new(start, end)
}

fn defaults() -> UseJsxKeyInIterableOptions {
    UseJsxKeyInIterableOptions::default()
}

fn with_fragments() -> UseJsxKeyInIterableOptions {
    UseJsxKeyInIterableOptions { check_shorthand_fragments: true }
}

fn attribute(name: &str) -> JsxAttribute {
    JsxAttribute::Named(JsxNamedAttribute { name: Some(name.to_string()), value: None })
}

fn self_closing_child(attributes: Vec<JsxAttribute>, at: TextRange) -> JsxChild {
    JsxChild::SelfClosingElement(JsxSelfClosingElement {
        name: Some("A".to_string()),
        attributes,
        range: at,
    })
}

fn element_child(attributes: Vec<JsxAttribute>, children: Vec<JsxChild>, at: TextRange) -> JsxChild {
    JsxChild::Element(JsxElement {
        opening_element: Some(JsxOpeningElement {
            name: Some("Wrapper".to_string()),
            attributes,
            range: at,
        }),
        children,
    })
}

fn markup(tag: JsxChild) -> Expression {
    Expression::Component(ReactComponentExpression::JsxTagExpression(JsxTagExpression { tag: Some(tag) }))
}

/// `<A/>` at the given range.
fn unkeyed(at: TextRange) -> Expression {
    markup(self_closing_child(vec![], at))
}

/// `<A key={x}/>` at the given range.
fn keyed(at: TextRange) -> Expression {
    markup(self_closing_child(vec![attribute("key")], at))
}

fn identifier(name: &str) -> Expression {
    Expression::Identifier(IdentifierExpression { name: Some(name.to_string()) })
}

fn member(object: &str, name: &str) -> Expression {
    Expression::Member(MemberExpression {
        object: Some(Box::new(identifier(object))),
        member_name: Some(name.to_string()),
    })
}

fn call(callee: Expression, args: Vec<CallArgument>, target: Option<CallTarget>) -> CallExpression {
    CallExpression {
        callee: Some(Box::new(callee)),
        arguments: Some(CallArguments { args, range: range(100, 120) }),
        target,
    }
}

fn arrow(body: Expression) -> CallArgument {
    CallArgument::Expression(Expression::ArrowFunction(ArrowFunctionExpression {
        body: Some(ArrowFunctionBody::Expression(Box::new(body))),
    }))
}

fn arrow_block(statements: Vec<Statement>) -> CallArgument {
    CallArgument::Expression(Expression::ArrowFunction(ArrowFunctionExpression {
        body: Some(ArrowFunctionBody::Block(FunctionBody { statements })),
    }))
}

fn function(statements: Vec<Statement>) -> CallArgument {
    CallArgument::Expression(Expression::Function(FunctionExpression {
        body: Some(FunctionBody { statements }),
    }))
}

/// `object.method(callback)`
fn iteration(object: &str, method: &str, callback: CallArgument) -> CallExpression {
    call(member(object, method), vec![callback], None)
}

fn returning(argument: Expression) -> Statement {
    Statement::Return(ReturnStatement { argument: Some(argument) })
}

fn declares(initializers: Vec<Option<Expression>>) -> Statement {
    Statement::Variable(VariableStatement {
        declaration: Some(VariableDeclaration {
            declarators: initializers
                .into_iter()
                .map(|initializer| VariableDeclarator { initializer })
                .collect(),
        }),
    })
}

fn block(statements: Vec<Statement>) -> Statement {
    Statement::Block(BlockStatement { statements })
}

fn conditional(consequent: Expression, alternate: Expression) -> Expression {
    Expression::Conditional(ConditionalExpression {
        consequent: Some(Box::new(consequent)),
        alternate: Some(Box::new(alternate)),
    })
}

fn parenthesized(inner: Expression) -> Expression {
    Expression::Parenthesized(ParenthesizedExpression { expression: Some(Box::new(inner)) })
}

fn react(name: &str) -> Option<CallTarget> {
    Some(CallTarget { library: ReactLibrary::React, export_name: name.to_string() })
}

fn property(name: &str) -> ObjectMember {
    ObjectMember::Property { name: Some(name.to_string()) }
}

fn object(members: Vec<ObjectMember>) -> CallArgument {
    CallArgument::Expression(Expression::Object(ObjectExpression { members }))
}

/// `React.createElement("h1", ..rest)` with its arguments at 100..120.
fn create_element(rest: Vec<CallArgument>) -> CallExpression {
    let mut args = vec![CallArgument::Expression(Expression::Other)];
    args.extend(rest);
    call(member("React", "createElement"), args, react("createElement"))
}

fn factory(call: CallExpression) -> Expression {
    Expression::Component(ReactComponentExpression::JsCallExpression(call))
}

fn array(elements: Vec<ArrayElement>) -> ArrayExpression {
    ArrayExpression { elements }
}

fn run_on_array(node: ArrayExpression, options: &UseJsxKeyInIterableOptions) -> Vec<TextRange> {
    UseJsxKeyInIterable::run(&UseJsxKeyInIterableQuery::JsArrayExpression(node), false, options)
}

fn run_on_call(node: CallExpression, options: &UseJsxKeyInIterableOptions) -> Vec<TextRange> {
    UseJsxKeyInIterable::run(&UseJsxKeyInIterableQuery::JsCallExpression(node), false, options)
}

#[test]
fn options_default_to_not_checking_fragments() {
    assert!(!UseJsxKeyInIterableOptions::default().check_shorthand_fragments);
    assert_eq!(
        UseJsxKeyInIterableOptions::default(),
        UseJsxKeyInIterableOptions { check_shorthand_fragments: false }
    );
}

#[test]
fn every_unkeyed_element_of_an_array_is_flagged_once() {
    let node = array(vec![
        ArrayElement::Expression(unkeyed(range(1, 10))),
        ArrayElement::Expression(unkeyed(range(12, 21))),
        ArrayElement::Expression(markup(element_child(vec![], vec![], range(23, 32)))),
    ]);
    assert_eq!(
        run_on_array(node, &defaults()),
        vec![range(1, 10), range(12, 21), range(23, 32)]
    );
}

#[test]
fn empty_array_is_not_flagged() {
    assert_eq!(run_on_array(array(vec![]), &defaults()), vec![]);
}

#[test]
fn keyed_elements_of_an_array_are_not_flagged() {
    let node = array(vec![
        ArrayElement::Expression(keyed(range(1, 10))),
        ArrayElement::Expression(unkeyed(range(12, 21))),
        ArrayElement::Expression(keyed(range(23, 32))),
    ]);
    assert_eq!(run_on_array(node, &defaults()), vec![range(12, 21)]);
}

#[test]
fn spread_and_hole_entries_are_passed_over() {
    let node = array(vec![
        ArrayElement::Spread,
        ArrayElement::Hole,
        ArrayElement::Expression(identifier("x")),
        ArrayElement::Expression(unkeyed(range(5, 9))),
    ]);
    assert_eq!(handle_collections(&node, false, &defaults()), vec![range(5, 9)]);
}

#[test]
fn static_key_attribute_suppresses_the_flag() {
    let plain = self_closing_child(vec![attribute("id")], range(0, 8));
    assert_eq!(handle_jsx_child(&plain, &defaults()), Some(vec![range(0, 8)]));
    let first = self_closing_child(vec![attribute("key"), attribute("id")], range(0, 8));
    assert_eq!(handle_jsx_child(&first, &defaults()), None);
    let last = self_closing_child(vec![attribute("id"), attribute("key")], range(0, 8));
    assert_eq!(handle_jsx_child(&last, &defaults()), None);
    let opening = element_child(vec![attribute("key")], vec![], range(0, 8));
    assert_eq!(handle_jsx_child(&opening, &defaults()), None);
}

#[test]
fn spread_attribute_does_not_suppress_the_flag() {
    let spread = self_closing_child(vec![attribute("id"), JsxAttribute::Spread], range(0, 8));
    assert_eq!(handle_jsx_child(&spread, &defaults()), Some(vec![range(0, 8)]));
    let opening = element_child(vec![JsxAttribute::Spread], vec![], range(3, 8));
    assert_eq!(handle_jsx_child(&opening, &defaults()), Some(vec![range(3, 8)]));
}

#[test]
fn key_attribute_is_matched_by_its_exact_name() {
    assert!(has_key_attribute(&vec![attribute("id"), attribute("key")]));
    assert!(!has_key_attribute(&vec![]));
    assert!(!has_key_attribute(&vec![attribute("Key"), attribute("keys"), attribute("xml:key")]));
    assert!(!has_key_attribute(&vec![JsxAttribute::Spread]));
    assert!(!has_key_attribute(&vec![JsxAttribute::Named(JsxNamedAttribute {
        name: None,
        value: None
    })]));
}

#[test]
fn key_property_is_matched_by_its_exact_name() {
    let props = |members| ObjectExpression { members };
    assert!(has_key_prop(&props(vec![property("id"), property("key")])));
    assert!(has_key_prop(&props(vec![ObjectMember::ShorthandProperty {
        name: Some("key".to_string())
    }])));
    assert!(!has_key_prop(&props(vec![])));
    assert!(!has_key_prop(&props(vec![property("text"), property("Key")])));
    assert!(!has_key_prop(&props(vec![ObjectMember::Spread, ObjectMember::Other])));
    assert!(!has_key_prop(&props(vec![ObjectMember::Property { name: None }])));
}

#[test]
fn repeated_runs_give_the_same_ranges() {
    let build = || {
        UseJsxKeyInIterableQuery::JsCallExpression(iteration(
            "data",
            "map",
            arrow(conditional(unkeyed(range(1, 5)), unkeyed(range(8, 12)))),
        ))
    };
    let node = build();
    let first = UseJsxKeyInIterable::run(&node, false, &defaults());
    let second = UseJsxKeyInIterable::run(&node, false, &defaults());
    assert_eq!(first, second);
    assert_eq!(UseJsxKeyInIterable::run(&build(), false, &defaults()), first);
}

#[test]
fn both_unkeyed_branches_of_a_conditional_are_flagged() {
    let node = iteration("data", "map", arrow(conditional(unkeyed(range(1, 5)), unkeyed(range(8, 12)))));
    assert_eq!(run_on_call(node, &defaults()), vec![range(1, 5), range(8, 12)]);
}

#[test]
fn only_the_unkeyed_branch_of_a_conditional_is_flagged() {
    let node = iteration("data", "map", arrow(conditional(keyed(range(1, 5)), unkeyed(range(8, 12)))));
    assert_eq!(run_on_call(node, &defaults()), vec![range(8, 12)]);
    let node = iteration("data", "map", arrow(conditional(unkeyed(range(1, 5)), keyed(range(8, 12)))));
    assert_eq!(run_on_call(node, &defaults()), vec![range(1, 5)]);
    let node = iteration("data", "map", arrow(conditional(keyed(range(1, 5)), keyed(range(8, 12)))));
    assert_eq!(run_on_call(node, &defaults()), vec![]);
}

#[test]
fn equal_branches_of_a_conditional_are_both_reported() {
    let node = conditional(unkeyed(range(1, 5)), unkeyed(range(1, 5)));
    assert_eq!(
        handle_potential_react_component(&node, false, &defaults()),
        Some(vec![range(1, 5), range(1, 5)])
    );
}

#[test]
fn conditional_with_a_missing_branch_gives_no_result() {
    let node = Expression::Conditional(ConditionalExpression {
        consequent: Some(Box::new(unkeyed(range(1, 5)))),
        alternate: None,
    });
    assert_eq!(handle_potential_react_component(&node, false, &defaults()), None);
    let node = Expression::Conditional(ConditionalExpression {
        consequent: None,
        alternate: Some(Box::new(unkeyed(range(1, 5)))),
    });
    assert_eq!(handle_potential_react_component(&node, false, &defaults()), None);
}

#[test]
fn unknown_method_is_not_checked() {
    let node = iteration("arr", "customMethod", arrow(unkeyed(range(1, 5))));
    assert_eq!(handle_iterators(&node, false, &defaults()), None);
    let node = iteration("arr", "customMethod", arrow(unkeyed(range(1, 5))));
    assert_eq!(run_on_call(node, &defaults()), vec![]);
}

#[test]
fn map_with_a_keyed_element_is_not_flagged() {
    let node = iteration("arr", "map", arrow(keyed(range(1, 5))));
    assert_eq!(run_on_call(node, &defaults()), vec![]);
}

#[test]
fn map_with_an_unkeyed_element_is_flagged_at_the_element() {
    let node = iteration("arr", "map", arrow(unkeyed(range(14, 19))));
    assert_eq!(run_on_call(node, &defaults()), vec![range(14, 19)]);
}

#[test]
fn every_iteration_method_is_recognised() {
    let methods = [
        "map",
        "flatMap",
        "from",
        "forEach",
        "filter",
        "some",
        "every",
        "find",
        "findIndex",
        "reduce",
        "reduceRight",
    ];
    for method in methods {
        let node = iteration("arr", method, arrow(unkeyed(range(2, 6))));
        assert_eq!(handle_iterators(&node, false, &defaults()), Some(vec![range(2, 6)]));
    }
    for method in ["Map", "maps", "", "sort", "reduceLeft"] {
        let node = iteration("arr", method, arrow(unkeyed(range(2, 6))));
        assert_eq!(handle_iterators(&node, false, &defaults()), None);
    }
}

#[test]
fn callback_of_the_array_constructor_stands_second() {
    let node = call(
        member("Array", "from"),
        vec![CallArgument::Expression(identifier("items")), arrow(unkeyed(range(3, 7)))],
        None,
    );
    assert_eq!(handle_iterators(&node, false, &defaults()), Some(vec![range(3, 7)]));
    let first_only = call(member("Array", "from"), vec![arrow(unkeyed(range(3, 7)))], None);
    assert_eq!(handle_iterators(&first_only, false, &defaults()), None);
    let other_object = call(
        member("items", "from"),
        vec![CallArgument::Expression(identifier("items")), arrow(unkeyed(range(3, 7)))],
        None,
    );
    assert_eq!(handle_iterators(&other_object, false, &defaults()), None);
}

#[test]
fn call_of_another_shape_is_no_iteration() {
    let plain_callee = call(identifier("map"), vec![arrow(unkeyed(range(3, 7)))], None);
    assert_eq!(handle_iterators(&plain_callee, false, &defaults()), None);
    let no_callee = CallExpression {
        callee: None,
        arguments: Some(CallArguments { args: vec![arrow(unkeyed(range(3, 7)))], range: range(0, 1) }),
        target: None,
    };
    assert_eq!(handle_iterators(&no_callee, false, &defaults()), None);
    let no_arguments = CallExpression {
        callee: Some(Box::new(member("arr", "map"))),
        arguments: None,
        target: None,
    };
    assert_eq!(handle_iterators(&no_arguments, false, &defaults()), None);
    let no_name = call(
        Expression::Member(MemberExpression {
            object: Some(Box::new(identifier("arr"))),
            member_name: None,
        }),
        vec![arrow(unkeyed(range(3, 7)))],
        None,
    );
    assert_eq!(handle_iterators(&no_name, false, &defaults()), None);
    let no_callback = call(member("arr", "map"), vec![], None);
    assert_eq!(handle_iterators(&no_callback, false, &defaults()), None);
    let not_a_function = iteration("arr", "map", CallArgument::Expression(identifier("render")));
    assert_eq!(handle_iterators(&not_a_function, false, &defaults()), None);
    let spread = iteration("arr", "map", CallArgument::Spread);
    assert_eq!(handle_iterators(&spread, false, &defaults()), None);
    let no_body = iteration(
        "arr",
        "map",
        CallArgument::Expression(Expression::ArrowFunction(ArrowFunctionExpression { body: None })),
    );
    assert_eq!(handle_iterators(&no_body, false, &defaults()), None);
}

#[test]
fn factory_call_with_a_key_is_not_flagged() {
    let node = create_element(vec![object(vec![property("key")])]);
    assert_eq!(handle_react_non_jsx(&node), None);
    let node = iteration(
        "data",
        "map",
        arrow(factory(create_element(vec![object(vec![property("id"), property("key")])]))),
    );
    assert_eq!(run_on_call(node, &defaults()), vec![]);
}

#[test]
fn factory_call_without_properties_is_flagged_at_its_arguments() {
    let node = create_element(vec![]);
    assert_eq!(handle_react_non_jsx(&node), Some(range(100, 120)));
    let no_arguments_at_all = call(member("React", "createElement"), vec![], react("createElement"));
    assert_eq!(handle_react_non_jsx(&no_arguments_at_all), Some(range(100, 120)));
    let node = iteration("data", "map", arrow(factory(create_element(vec![]))));
    assert_eq!(run_on_call(node, &defaults()), vec![range(100, 120)]);
    let clone = call(
        member("React", "cloneElement"),
        vec![CallArgument::Expression(identifier("c"))],
        react("cloneElement"),
    );
    assert_eq!(handle_react_non_jsx(&clone), Some(range(100, 120)));
}

#[test]
fn factory_call_with_properties_that_name_no_key_is_flagged_at_its_arguments() {
    let node = create_element(vec![object(vec![property("id")])]);
    assert_eq!(handle_react_non_jsx(&node), Some(range(100, 120)));
    let empty = create_element(vec![object(vec![])]);
    assert_eq!(handle_react_non_jsx(&empty), Some(range(100, 120)));
    let spread = create_element(vec![object(vec![ObjectMember::Spread])]);
    assert_eq!(handle_react_non_jsx(&spread), Some(range(100, 120)));
    let computed = create_element(vec![object(vec![ObjectMember::Property { name: None }])]);
    assert_eq!(handle_react_non_jsx(&computed), Some(range(100, 120)));
}

#[test]
fn factory_call_with_properties_that_cannot_be_read_is_flagged_at_its_arguments() {
    let node = create_element(vec![CallArgument::Expression(identifier("props"))]);
    assert_eq!(handle_react_non_jsx(&node), Some(range(100, 120)));
    let node = create_element(vec![CallArgument::Expression(Expression::Other)]);
    assert_eq!(handle_react_non_jsx(&node), Some(range(100, 120)));
    let node = create_element(vec![CallArgument::Spread]);
    assert_eq!(handle_react_non_jsx(&node), Some(range(100, 120)));
    let key_in_third_place = create_element(vec![
        CallArgument::Expression(identifier("props")),
        object(vec![property("key")]),
    ]);
    assert_eq!(handle_react_non_jsx(&key_in_third_place), Some(range(100, 120)));
}

#[test]
fn call_of_anything_but_an_element_factory_gives_no_result() {
    let unresolved = call(member("React", "createElement"), vec![], None);
    assert_eq!(handle_react_non_jsx(&unresolved), None);
    let other_export = call(member("React", "useState"), vec![], react("useState"));
    assert_eq!(handle_react_non_jsx(&other_export), None);
    let other_library = call(
        member("ReactDOM", "createElement"),
        vec![],
        Some(CallTarget { library: ReactLibrary::ReactDom, export_name: "createElement".to_string() }),
    );
    assert_eq!(handle_react_non_jsx(&other_library), None);
    let no_callee = CallExpression {
        callee: None,
        arguments: Some(CallArguments { args: vec![], range: range(0, 2) }),
        target: react("createElement"),
    };
    assert_eq!(handle_react_non_jsx(&no_callee), None);
    let no_arguments = CallExpression {
        callee: Some(Box::new(member("React", "createElement"))),
        arguments: None,
        target: react("createElement"),
    };
    assert_eq!(handle_react_non_jsx(&no_arguments), None);
}

#[test]
fn callee_is_compared_by_library_and_name() {
    let node = create_element(vec![]);
    assert!(is_react_call_api(&node, ReactLibrary::React, "createElement"));
    assert!(!is_react_call_api(&node, ReactLibrary::React, "cloneElement"));
    assert!(!is_react_call_api(&node, ReactLibrary::ReactDom, "createElement"));
    let unresolved = call(member("React", "createElement"), vec![], None);
    assert!(!is_react_call_api(&unresolved, ReactLibrary::React, "createElement"));
}

#[test]
fn fragment_is_flagged_only_on_request() {
    let fragment = |at| {
        markup(JsxChild::Fragment(JsxFragment {
            children: vec![JsxChild::ExpressionChild(JsxExpressionChild {
                expression: Some(Box::new(identifier("x"))),
            })],
            range: at,
        }))
    };
    let node = iteration("data", "map", arrow(fragment(range(16, 24))));
    assert_eq!(run_on_call(node, &defaults()), vec![]);
    let node = iteration("data", "map", arrow(fragment(range(16, 24))));
    assert_eq!(run_on_call(node, &with_fragments()), vec![range(16, 24)]);
}

/// `inner.map(y => <Item/>)` with `<Item/>` at 40..47.
fn inner_iteration() -> CallExpression {
    iteration("inner", "map", arrow(unkeyed(range(40, 47))))
}

#[test]
fn nested_markup_is_flagged_where_it_is_produced() {
    let wrapper = markup(element_child(
        vec![attribute("key")],
        vec![JsxChild::ExpressionChild(JsxExpressionChild {
            expression: Some(Box::new(factory(inner_iteration()))),
        })],
        range(16, 30),
    ));
    let outer = iteration("data", "map", arrow(wrapper));
    assert_eq!(run_on_call(outer, &defaults()), vec![]);
    let inner = UseJsxKeyInIterableQuery::JsCallExpression(inner_iteration());
    assert_eq!(UseJsxKeyInIterable::run(&inner, true, &defaults()), vec![range(40, 47)]);
}

#[test]
fn children_of_an_element_are_not_scanned() {
    let wrapper = element_child(vec![], vec![self_closing_child(vec![], range(20, 25))], range(10, 19));
    assert_eq!(handle_jsx_child(&wrapper, &defaults()), Some(vec![range(10, 19)]));
}

#[test]
fn element_without_an_opening_tag_gives_no_result() {
    let node = JsxChild::Element(JsxElement { opening_element: None, children: vec![] });
    assert_eq!(handle_jsx_child(&node, &defaults()), None);
}

#[test]
fn embedded_expression_is_checked_as_a_candidate_inside_markup() {
    let child = |expression| JsxChild::ExpressionChild(JsxExpressionChild { expression });
    assert_eq!(
        handle_jsx_child(&child(Some(Box::new(unkeyed(range(4, 9))))), &defaults()),
        Some(vec![range(4, 9)])
    );
    assert_eq!(handle_jsx_child(&child(Some(Box::new(keyed(range(4, 9))))), &defaults()), None);
    assert_eq!(handle_jsx_child(&child(Some(Box::new(identifier("x")))), &defaults()), None);
    assert_eq!(handle_jsx_child(&child(None), &defaults()), None);
    assert_eq!(
        handle_jsx_child(&child(Some(Box::new(factory(create_element(vec![]))))), &defaults()),
        None
    );
}

#[test]
fn text_and_spread_children_give_no_result() {
    assert_eq!(handle_jsx_child(&JsxChild::Text, &with_fragments()), None);
    assert_eq!(handle_jsx_child(&JsxChild::SpreadChild, &with_fragments()), None);
}

#[test]
fn tag_expression_has_the_flags_of_its_tag() {
    let node = JsxTagExpression { tag: Some(self_closing_child(vec![], range(2, 6))) };
    assert_eq!(handle_jsx_tag(&node, &defaults()), Some(vec![range(2, 6)]));
    assert_eq!(handle_jsx_tag(&JsxTagExpression { tag: None }, &defaults()), None);
}

#[test]
fn component_is_checked_by_its_shape() {
    let tag = ReactComponentExpression::JsxTagExpression(JsxTagExpression {
        tag: Some(self_closing_child(vec![], range(2, 6))),
    });
    assert_eq!(handle_react_component(&tag, &defaults()), Some(vec![range(2, 6)]));
    let call = ReactComponentExpression::JsCallExpression(create_element(vec![]));
    assert_eq!(handle_react_component(&call, &defaults()), Some(vec![range(100, 120)]));
    let other = ReactComponentExpression::JsCallExpression(iteration("a", "map", arrow(identifier("x"))));
    assert_eq!(handle_react_component(&other, &defaults()), None);
}

#[test]
fn factory_call_is_no_candidate_inside_markup() {
    let node = factory(create_element(vec![]));
    assert_eq!(handle_potential_react_component(&node, false, &defaults()), Some(vec![range(100, 120)]));
    assert_eq!(handle_potential_react_component(&node, true, &defaults()), None);
    let tag = unkeyed(range(1, 4));
    assert_eq!(handle_potential_react_component(&tag, true, &defaults()), Some(vec![range(1, 4)]));
    let array_inside_markup = array(vec![
        ArrayElement::Expression(factory(create_element(vec![]))),
        ArrayElement::Expression(unkeyed(range(1, 4))),
    ]);
    assert_eq!(handle_collections(&array_inside_markup, true, &defaults()), vec![range(1, 4)]);
}

#[test]
fn parentheses_are_looked_through() {
    let node = parenthesized(parenthesized(unkeyed(range(3, 8))));
    assert_eq!(handle_potential_react_component(&node, false, &defaults()), Some(vec![range(3, 8)]));
    let empty = parenthesized(Expression::Parenthesized(ParenthesizedExpression { expression: None }));
    assert_eq!(handle_potential_react_component(&empty, false, &defaults()), None);
}

#[test]
fn unwrapping_gives_the_innermost_expression() {
    let node = parenthesized(parenthesized(identifier("x")));
    assert_eq!(unwrap_parenthesis(&node), Some(&identifier("x")));
    let plain = identifier("y");
    assert_eq!(unwrap_parenthesis(&plain), Some(&identifier("y")));
    let empty = parenthesized(Expression::Parenthesized(ParenthesizedExpression { expression: None }));
    assert_eq!(unwrap_parenthesis(&empty), None);
}

#[test]
fn other_expressions_are_no_candidates() {
    assert_eq!(handle_potential_react_component(&identifier("x"), false, &defaults()), None);
    assert_eq!(handle_potential_react_component(&Expression::Other, false, &defaults()), None);
    assert_eq!(handle_potential_react_component(&member("a", "b"), false, &defaults()), None);
}

#[test]
fn block_callback_is_checked_at_its_return() {
    let node = iteration("data", "map", arrow_block(vec![returning(unkeyed(range(20, 26)))]));
    assert_eq!(run_on_call(node, &defaults()), vec![range(20, 26)]);
    let node = iteration("data", "map", function(vec![returning(parenthesized(unkeyed(range(20, 26))))]));
    assert_eq!(run_on_call(node, &defaults()), vec![range(20, 26)]);
    let node = iteration("data", "map", function(vec![returning(keyed(range(20, 26)))]));
    assert_eq!(run_on_call(node, &defaults()), vec![]);
}

#[test]
fn declarations_are_checked_whether_returned_or_not() {
    let body = FunctionBody {
        statements: vec![
            declares(vec![Some(unkeyed(range(5, 9))), None, Some(identifier("x")), Some(unkeyed(range(12, 16)))]),
            returning(identifier("item")),
        ],
    };
    assert_eq!(handle_function_body(&body, false, &defaults()), vec![range(5, 9), range(12, 16)]);
}

#[test]
fn keyed_first_return_covers_the_whole_body() {
    let body = FunctionBody {
        statements: vec![
            declares(vec![Some(unkeyed(range(5, 9)))]),
            returning(keyed(range(20, 30))),
            returning(unkeyed(range(40, 50))),
        ],
    };
    assert_eq!(handle_function_body(&body, false, &defaults()), vec![]);
    let not_a_component = FunctionBody {
        statements: vec![declares(vec![Some(unkeyed(range(5, 9)))]), returning(identifier("item"))],
    };
    assert_eq!(handle_function_body(&not_a_component, false, &defaults()), vec![range(5, 9)]);
    let flagged_return = FunctionBody {
        statements: vec![declares(vec![Some(unkeyed(range(5, 9)))]), returning(unkeyed(range(20, 30)))],
    };
    assert_eq!(
        handle_function_body(&flagged_return, false, &defaults()),
        vec![range(5, 9), range(20, 30)]
    );
    let second_return_keyed = FunctionBody {
        statements: vec![returning(unkeyed(range(20, 30))), returning(keyed(range(40, 50)))],
    };
    assert_eq!(handle_function_body(&second_return_keyed, false, &defaults()), vec![range(20, 30)]);
    let nested_return_is_not_the_first = FunctionBody {
        statements: vec![
            block(vec![returning(keyed(range(1, 3)))]),
            declares(vec![Some(unkeyed(range(5, 9)))]),
        ],
    };
    assert_eq!(
        handle_function_body(&nested_return_is_not_the_first, false, &defaults()),
        vec![range(5, 9)]
    );
}

#[test]
fn empty_body_is_not_flagged() {
    assert_eq!(handle_function_body(&FunctionBody { statements: vec![] }, false, &defaults()), vec![]);
}

#[test]
fn every_clause_of_a_switch_is_checked() {
    let node = Statement::Switch(SwitchStatement {
        cases: vec![
            SwitchClause::Case { consequent: vec![returning(unkeyed(range(1, 4)))] },
            SwitchClause::Case { consequent: vec![returning(keyed(range(5, 8)))] },
            SwitchClause::Default {
                consequent: vec![declares(vec![Some(unkeyed(range(9, 12)))]), returning(unkeyed(range(13, 16)))],
            },
        ],
    });
    assert_eq!(
        handle_statement(&node, false, &defaults()),
        Some(vec![range(1, 4), range(9, 12), range(13, 16)])
    );
    let empty = Statement::Switch(SwitchStatement { cases: vec![] });
    assert_eq!(handle_statement(&empty, false, &defaults()), Some(vec![]));
}

#[test]
fn both_block_branches_of_an_if_are_checked() {
    let node = Statement::If(IfStatement {
        consequent: Some(Box::new(block(vec![returning(unkeyed(range(1, 4)))]))),
        else_clause: Some(ElseClause {
            alternate: Some(Box::new(block(vec![returning(unkeyed(range(5, 8)))]))),
        }),
    });
    assert_eq!(handle_statement(&node, false, &defaults()), Some(vec![range(1, 4), range(5, 8)]));
    let no_else = Statement::If(IfStatement {
        consequent: Some(Box::new(block(vec![returning(unkeyed(range(1, 4)))]))),
        else_clause: None,
    });
    assert_eq!(handle_statement(&no_else, false, &defaults()), Some(vec![range(1, 4)]));
}

#[test]
fn branch_of_an_if_that_is_no_block_is_skipped() {
    let bare_consequent = Statement::If(IfStatement {
        consequent: Some(Box::new(returning(unkeyed(range(1, 4))))),
        else_clause: Some(ElseClause {
            alternate: Some(Box::new(block(vec![returning(unkeyed(range(5, 8)))]))),
        }),
    });
    assert_eq!(handle_statement(&bare_consequent, false, &defaults()), Some(vec![range(5, 8)]));
    let else_if = Statement::If(IfStatement {
        consequent: Some(Box::new(block(vec![returning(unkeyed(range(1, 4)))]))),
        else_clause: Some(ElseClause {
            alternate: Some(Box::new(Statement::If(IfStatement {
                consequent: Some(Box::new(block(vec![returning(unkeyed(range(5, 8)))]))),
                else_clause: None,
            }))),
        }),
    });
    assert_eq!(handle_statement(&else_if, false, &defaults()), Some(vec![range(1, 4)]));
    let nothing = Statement::If(IfStatement { consequent: None, else_clause: None });
    assert_eq!(handle_statement(&nothing, false, &defaults()), Some(vec![]));
}

#[test]
fn statements_of_other_kinds_give_no_result() {
    assert_eq!(handle_statement(&Statement::Other, false, &defaults()), None);
    assert_eq!(handle_statement(&block(vec![returning(unkeyed(range(1, 4)))]), false, &defaults()), None);
    assert_eq!(
        handle_statement(&Statement::Return(ReturnStatement { argument: None }), false, &defaults()),
        None
    );
    assert_eq!(
        handle_statement(
            &Statement::Variable(VariableStatement { declaration: None }),
            false,
            &defaults()
        ),
        None
    );
    assert_eq!(handle_statement(&declares(vec![]), false, &defaults()), Some(vec![]));
    assert_eq!(handle_statement(&returning(identifier("x")), false, &defaults()), None);
}

#[test]
fn statements_are_checked_in_order() {
    let list = vec![
        returning(unkeyed(range(9, 12))),
        Statement::Other,
        declares(vec![Some(unkeyed(range(1, 4)))]),
        returning(keyed(range(20, 24))),
    ];
    assert_eq!(handle_statements(&list, false, &defaults()), vec![range(9, 12), range(1, 4)]);
    assert_eq!(handle_statements(&vec![], false, &defaults()), vec![]);
}
