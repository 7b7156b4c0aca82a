//! The parts of a JavaScript syntax tree with embedded markup that the rules
//! of this crate read.
//!
//! A tree is plain, immutable data. A child that the parser could not
//! produce, or that a rule has no use for, is absent: an `Option` that is
//! `None`, a list entry left out, or a variant named `Other`.

use crate::text_range::TextRange;
use vstd::prelude::*;

verus! {

/// An expression.
#[derive(Debug, PartialEq, Eq)]
pub enum Expression {
    /// `(expression)`
    Parenthesized(ParenthesizedExpression),
    /// `test ? consequent : alternate`
    Conditional(ConditionalExpression),
    /// An expression whose syntax alone makes it a candidate for producing
    /// an element: markup, or a call.
    Component(ReactComponentExpression),
    /// `function (..) { .. }`
    Function(FunctionExpression),
    /// `(..) => ..`
    ArrowFunction(ArrowFunctionExpression),
    /// `object.member` or `object["member"]`
    Member(MemberExpression),
    /// A reference to a binding by its name.
    Identifier(IdentifierExpression),
    /// `{ .. }`
    Object(ObjectExpression),
    /// `[ .. ]`
    Array(ArrayExpression),
    /// `"text"` or `'text'`
    StringLiteral(StringLiteralExpression),
    /// `true` or `false`
    BooleanLiteral(BooleanLiteralExpression),
    /// `` `chunk${element}chunk` ``
    Template(TemplateExpression),
    /// Any other expression.
    Other,
}

/// The two shapes of expression that may denote a UI element.
#[derive(Debug, PartialEq, Eq)]
pub enum ReactComponentExpression {
    /// An element in tag notation.
    JsxTagExpression(JsxTagExpression),
    /// A call, which may be one of an element factory.
    JsCallExpression(CallExpression),
}

#[derive(Debug, PartialEq, Eq)]
pub struct ParenthesizedExpression {
    pub expression: Option<Box<Expression>>,
}

#[derive(Debug, PartialEq, Eq)]
pub struct ConditionalExpression {
    pub consequent: Option<Box<Expression>>,
    pub alternate: Option<Box<Expression>>,
}

#[derive(Debug, PartialEq, Eq)]
pub struct FunctionExpression {
    pub body: Option<FunctionBody>,
}

#[derive(Debug, PartialEq, Eq)]
pub struct ArrowFunctionExpression {
    pub body: Option<ArrowFunctionBody>,
}

/// What stands to the right of an arrow.
#[derive(Debug, PartialEq, Eq)]
pub enum ArrowFunctionBody {
    Expression(Box<Expression>),
    Block(FunctionBody),
}

/// The statements between the braces of a function.
#[derive(Debug, PartialEq, Eq)]
pub struct FunctionBody {
    pub statements: Vec<Statement>,
}

#[derive(Debug, PartialEq, Eq)]
pub struct MemberExpression {
    pub object: Option<Box<Expression>>,
    /// The member's name, where it is written out: after the dot, or as a
    /// string literal between the brackets.
    pub member_name: Option<String>,
}

#[derive(Debug, PartialEq, Eq)]
pub struct IdentifierExpression {
    pub name: Option<String>,
}

#[derive(Debug, PartialEq, Eq)]
pub struct ObjectExpression {
    pub members: Vec<ObjectMember>,
}

/// A member of an object literal.
#[derive(Debug, PartialEq, Eq)]
pub enum ObjectMember {
    /// `name: value`. The name is absent where it is computed from an
    /// expression that is no literal.
    Property { name: Option<String> },
    /// `name`, short for `name: name`.
    ShorthandProperty { name: Option<String> },
    /// `...object`
    Spread,
    /// A getter, a setter or a method.
    Other,
}

#[derive(Debug, PartialEq, Eq)]
pub struct ArrayExpression {
    pub elements: Vec<ArrayElement>,
}

/// An entry of an array literal.
#[derive(Debug, PartialEq, Eq)]
pub enum ArrayElement {
    Expression(Expression),
    /// `...iterable`
    Spread,
    /// Nothing between two commas.
    Hole,
}

#[derive(Debug, PartialEq, Eq)]
pub struct StringLiteralExpression {
    /// The text between the quotes.
    pub inner_text: Option<String>,
}

#[derive(Debug, PartialEq, Eq)]
pub struct BooleanLiteralExpression {
    /// The literal as written.
    pub text: Option<String>,
}

#[derive(Debug, PartialEq, Eq)]
pub struct TemplateExpression {
    pub elements: Vec<TemplateElement>,
}

/// A part of a template literal.
#[derive(Debug, PartialEq, Eq)]
pub enum TemplateElement {
    /// Literal text.
    Chunk { text: Option<String> },
    /// `${expression}`
    Element,
}

/// `callee(arguments)`
#[derive(Debug, PartialEq, Eq)]
pub struct CallExpression {
    pub callee: Option<Box<Expression>>,
    pub arguments: Option<CallArguments>,
    /// What the callee denotes, where name resolution has found it to be an
    /// export of a known library.
    pub target: Option<CallTarget>,
}

/// The arguments of a call, parentheses included.
#[derive(Debug, PartialEq, Eq)]
pub struct CallArguments {
    pub args: Vec<CallArgument>,
    pub range: TextRange,
}

#[derive(Debug, PartialEq, Eq)]
pub enum CallArgument {
    Expression(Expression),
    /// `...iterable`
    Spread,
}

/// A library whose exports name resolution recognises.
#[derive(Clone, Copy, Debug, PartialEq, Eq, Structural)]
pub enum ReactLibrary {
    React,
    ReactDom,
}

/// An export of a library, as a callee resolves to it.
#[derive(Debug, PartialEq, Eq)]
pub struct CallTarget {
    pub library: ReactLibrary,
    pub export_name: String,
}

/// An element in tag notation, used as an expression.
#[derive(Debug, PartialEq, Eq)]
pub struct JsxTagExpression {
    /// The tag, seen as a node of markup: an element, a self-closing element
    /// or a fragment.
    pub tag: Option<JsxChild>,
}

/// A node of markup.
#[derive(Debug, PartialEq, Eq)]
pub enum JsxChild {
    /// `<name ..> .. </name>`
    Element(JsxElement),
    /// `<name .. />`
    SelfClosingElement(JsxSelfClosingElement),
    /// `<> .. </>`
    Fragment(JsxFragment),
    /// `{expression}` among the children of an element.
    ExpressionChild(JsxExpressionChild),
    /// `{...expression}` among the children of an element.
    SpreadChild,
    /// Literal text.
    Text,
}

#[derive(Debug, PartialEq, Eq)]
pub struct JsxElement {
    pub opening_element: Option<JsxOpeningElement>,
    pub children: Vec<JsxChild>,
}

/// `<name ..>`
#[derive(Debug, PartialEq, Eq)]
pub struct JsxOpeningElement {
    /// The element's name; of a dotted name, its last part.
    pub name: Option<String>,
    pub attributes: Vec<JsxAttribute>,
    pub range: TextRange,
}

#[derive(Debug, PartialEq, Eq)]
pub struct JsxSelfClosingElement {
    /// The element's name; of a dotted name, its last part.
    pub name: Option<String>,
    pub attributes: Vec<JsxAttribute>,
    pub range: TextRange,
}

#[derive(Debug, PartialEq, Eq)]
pub struct JsxFragment {
    pub children: Vec<JsxChild>,
    pub range: TextRange,
}

#[derive(Debug, PartialEq, Eq)]
pub struct JsxExpressionChild {
    pub expression: Option<Box<Expression>>,
}

/// The part of an element that carries its name and its attributes.
#[derive(Debug, PartialEq, Eq)]
pub enum AnyJsxElement {
    JsxOpeningElement(JsxOpeningElement),
    JsxSelfClosingElement(JsxSelfClosingElement),
}

/// An entry of an element's attribute list.
#[derive(Debug, PartialEq, Eq)]
pub enum JsxAttribute {
    /// `name` or `name=value`
    Named(JsxNamedAttribute),
    /// `{...expression}`
    Spread,
}

#[derive(Debug, PartialEq, Eq)]
pub struct JsxNamedAttribute {
    /// The name as written; a namespaced name holds its colon.
    pub name: Option<String>,
    pub value: Option<JsxAttributeValue>,
}

/// What stands to the right of `=` in an attribute.
#[derive(Debug, PartialEq, Eq)]
pub struct JsxAttributeValue {
    pub kind: JsxAttributeValueKind,
    pub range: TextRange,
}

#[derive(Debug, PartialEq, Eq)]
pub enum JsxAttributeValueKind {
    /// Markup.
    Tag,
    /// `{expression}`
    Expression { expression: Option<Box<Expression>> },
    /// A quoted string, given by the text between its quotes.
    String { inner_text: Option<String> },
}

/// A statement.
#[derive(Debug, PartialEq, Eq)]
pub enum Statement {
    /// `var`, `let` or `const` with its declarators.
    Variable(VariableStatement),
    /// `return argument;`
    Return(ReturnStatement),
    /// `switch (..) { .. }`
    Switch(SwitchStatement),
    /// `if (..) consequent else alternate`
    If(IfStatement),
    /// `{ .. }`
    Block(BlockStatement),
    /// Any other statement.
    Other,
}

#[derive(Debug, PartialEq, Eq)]
pub struct VariableStatement {
    pub declaration: Option<VariableDeclaration>,
}

#[derive(Debug, PartialEq, Eq)]
pub struct VariableDeclaration {
    pub declarators: Vec<VariableDeclarator>,
}

/// `name = initializer`
#[derive(Debug, PartialEq, Eq)]
pub struct VariableDeclarator {
    pub initializer: Option<Expression>,
}

#[derive(Debug, PartialEq, Eq)]
pub struct ReturnStatement {
    pub argument: Option<Expression>,
}

#[derive(Debug, PartialEq, Eq)]
pub struct SwitchStatement {
    pub cases: Vec<SwitchClause>,
}

/// A `case` or the `default` of a `switch`.
#[derive(Debug, PartialEq, Eq)]
pub enum SwitchClause {
    Case { consequent: Vec<Statement> },
    Default { consequent: Vec<Statement> },
}

#[derive(Debug, PartialEq, Eq)]
pub struct IfStatement {
    pub consequent: Option<Box<Statement>>,
    pub else_clause: Option<ElseClause>,
}

#[derive(Debug, PartialEq, Eq)]
pub struct ElseClause {
    pub alternate: Option<Box<Statement>>,
}

#[derive(Debug, PartialEq, Eq)]
pub struct BlockStatement {
    pub statements: Vec<Statement>,
}

} // verus!
