//! The syntax that the analysis reads: the declarations and expressions of a
//! parsed TypeScript file, as plain values.
//!
//! A node holds what a concrete syntax tree holds at that place. A token is
//! its trimmed text, `None` where the tree has no token there. A child that
//! the grammar requires and the tree lacks is the variant `Missing` of its
//! type, or `None`. A construct that the analysis does not model is the
//! variant `Other`.

use vstd::prelude::*;

verus! {

/// A parsed file.
#[derive(Debug, PartialEq, Eq)]
pub enum Root {
    Module(Vec<ModuleItem>),
    DeclarationModule(Vec<ModuleItem>),
    /// A script or an expression snippet.
    Other,
}

#[derive(Debug, PartialEq, Eq)]
pub enum ModuleItem {
    Statement(Statement),
    /// An import or an export.
    Other,
}

#[derive(Debug, PartialEq, Eq)]
pub enum Statement {
    Declare(DeclarationClause),
    Interface(InterfaceDeclaration),
    Variable(VariableStatement),
    Expression(ExpressionStatement),
    Function(FunctionDeclaration),
    Other,
}

/// What follows the word `declare`.
#[derive(Debug, PartialEq, Eq)]
pub enum DeclarationClause {
    Variable(VariableStatement),
    Function(DeclareFunctionDeclaration),
    Other,
    Missing,
}

/// `const a = .., b: ..;` with or without `declare` before it.
#[derive(Debug, PartialEq, Eq)]
pub struct VariableStatement {
    /// `None` where the declaration itself is missing; a `None` element is a
    /// missing declarator between two commas.
    pub declarators: Option<Vec<Option<VariableDeclarator>>>,
}

#[derive(Debug, PartialEq, Eq)]
pub struct VariableDeclarator {
    pub id: BindingPattern,
    pub annotation: Option<VariableAnnotation>,
    pub initializer: Option<Expression>,
}

#[derive(Debug, PartialEq, Eq)]
pub enum BindingPattern {
    /// A plain identifier, with its name token.
    Identifier(Option<String>),
    Array,
    Object,
    Other,
    Missing,
}

#[derive(Debug, PartialEq, Eq)]
pub enum VariableAnnotation {
    /// `x!: T`
    Definite,
    /// `x: T`
    Type(TypeNode),
}

/// A type as written.
#[derive(Debug, PartialEq, Eq)]
pub enum TypeNode {
    Any,
    Bigint,
    Boolean,
    Never,
    Number,
    String,
    Symbol,
    Undefined,
    Void,
    Unknown,
    /// The keyword `object`.
    NonPrimitive,
    BooleanLiteral(Option<String>),
    NumberLiteral { minus: bool, literal: Option<String> },
    StringLiteral(Option<String>),
    NullLiteral,
    Reference(ReferenceType),
    Union(Vec<TypeNode>),
    Intersection(Vec<TypeNode>),
    Parenthesized(Box<TypeNode>),
    Function(FunctionType),
    Other,
    Missing,
}

/// `Name<A, B>`
#[derive(Debug, PartialEq, Eq)]
pub struct ReferenceType {
    pub name: TypeName,
    /// Empty where no argument list is written.
    pub type_arguments: Vec<TypeNode>,
}

#[derive(Debug, PartialEq, Eq)]
pub enum TypeName {
    Identifier(Option<String>),
    /// `a.b.C`
    Qualified,
    Missing,
}

/// `<T>(x: A) => R`
#[derive(Debug, PartialEq, Eq)]
pub struct FunctionType {
    pub type_parameters: Vec<Option<TypeParameter>>,
    pub parameters: Option<Parameters>,
    pub return_type: ReturnType,
}

/// What stands where a function's result is declared.
#[derive(Debug, PartialEq, Eq)]
pub enum ReturnType {
    Type(Box<TypeNode>),
    /// `x is T` or `asserts x`.
    Other,
    Missing,
}

/// `T extends C = D`
#[derive(Debug, PartialEq, Eq)]
pub struct TypeParameter {
    pub name: Option<String>,
    /// The type of the `extends` clause; `Some(Missing)` is a clause without one.
    pub constraint: Option<TypeNode>,
    pub default: Option<TypeNode>,
}

/// `(a, b?: T)`
#[derive(Debug, PartialEq, Eq)]
pub struct Parameters {
    pub items: Vec<Parameter>,
}

#[derive(Debug, PartialEq, Eq)]
pub enum Parameter {
    Formal(FormalParameter),
    Rest,
    This,
    Other,
    Missing,
}

#[derive(Debug, PartialEq, Eq)]
pub struct FormalParameter {
    /// The text of the binding pattern.
    pub binding: Option<String>,
    pub optional: bool,
    pub annotation: Option<TypeNode>,
}

#[derive(Debug, PartialEq, Eq)]
pub struct InterfaceDeclaration {
    pub id: Option<String>,
    pub type_parameters: Vec<Option<TypeParameter>>,
    pub members: Vec<TypeMember>,
}

#[derive(Debug, PartialEq, Eq)]
pub enum TypeMember {
    Property(PropertySignature),
    Method(MethodSignature),
    /// A call, construct or index signature, a getter or a setter.
    Other,
}

#[derive(Debug, PartialEq, Eq)]
pub enum MemberName {
    Literal(Option<String>),
    Computed,
    Missing,
}

/// `readonly name?: T`
#[derive(Debug, PartialEq, Eq)]
pub struct PropertySignature {
    pub readonly: bool,
    pub name: MemberName,
    pub optional: bool,
    pub annotation: Option<TypeNode>,
}

/// `name?<T>(x: A): R`
#[derive(Debug, PartialEq, Eq)]
pub struct MethodSignature {
    pub name: MemberName,
    pub optional: bool,
    pub type_parameters: Vec<Option<TypeParameter>>,
    pub parameters: Option<Parameters>,
    pub return_type: Option<ReturnType>,
}

/// `async function f(x: A): R { .. }`, as a declaration or as an expression.
#[derive(Debug, PartialEq, Eq)]
pub struct FunctionDeclaration {
    pub is_async: bool,
    /// The text of the binding.
    pub id: Option<String>,
    pub parameters: Option<Parameters>,
    pub return_type: Option<ReturnType>,
}

/// `declare function f<T>(x: A): R;`
#[derive(Debug, PartialEq, Eq)]
pub struct DeclareFunctionDeclaration {
    pub id: Option<String>,
    pub type_parameters: Vec<Option<TypeParameter>>,
    pub parameters: Option<Parameters>,
    pub return_type: Option<ReturnType>,
}

#[derive(Debug, PartialEq, Eq)]
pub enum Expression {
    Literal(LiteralExpression),
    Object(Vec<ObjectMember>),
    Arrow(ArrowFunction),
    Function(FunctionDeclaration),
    Call(CallExpression),
    StaticMember(StaticMemberExpression),
    /// A reference to a name, with its token.
    Identifier(Option<String>),
    Await(Box<Expression>),
    Unary(UnaryExpression),
    Other,
    Missing,
}

#[derive(Debug, PartialEq, Eq)]
pub enum LiteralExpression {
    Boolean(Option<String>),
    Number(Option<String>),
    String(Option<String>),
    Null,
    /// A bigint or a regular expression.
    Other,
}

#[derive(Debug, PartialEq, Eq)]
pub enum ObjectMember {
    Property(PropertyObjectMember),
    /// A method, an accessor, a shorthand property or a spread.
    Other,
    Missing,
}

/// `key: value`
#[derive(Debug, PartialEq, Eq)]
pub struct PropertyObjectMember {
    /// The key as a name, where it has one.
    pub name: Option<String>,
    pub value: Expression,
}

/// `async <T>(x: A): R => ..`
#[derive(Debug, PartialEq, Eq)]
pub struct ArrowFunction {
    pub is_async: bool,
    pub type_parameters: Vec<Option<TypeParameter>>,
    pub parameters: ArrowParameters,
    pub return_type: Option<ReturnType>,
}

#[derive(Debug, PartialEq, Eq)]
pub enum ArrowParameters {
    /// `x => ..`, with the name token of `x`.
    Binding(Option<String>),
    Parameters(Parameters),
    Other,
    Missing,
}

/// `callee(arguments)`
#[derive(Debug, PartialEq, Eq)]
pub struct CallExpression {
    pub callee: Box<Expression>,
    pub arguments: Option<Vec<CallArgument>>,
}

#[derive(Debug, PartialEq, Eq)]
pub enum CallArgument {
    Expression(Expression),
    Spread,
    Missing,
}

/// `object.member`
#[derive(Debug, PartialEq, Eq)]
pub struct StaticMemberExpression {
    pub object: Box<Expression>,
    pub member: Option<String>,
}

#[derive(Debug, PartialEq, Eq)]
pub struct UnaryExpression {
    pub operator: Option<UnaryOperator>,
    pub argument: Box<Expression>,
}

#[derive(Debug, Clone, Copy, PartialEq, Eq)]
pub enum UnaryOperator {
    Delete,
    Void,
    Typeof,
    Plus,
    Minus,
    BitwiseNot,
    LogicalNot,
}

/// An expression that stands as a statement, with its place in the source.
#[derive(Debug, PartialEq, Eq)]
pub struct ExpressionStatement {
    pub expression: Expression,
    /// Offsets of the statement's first byte and of the byte after its last.
    pub start: u32,
    pub end: u32,
    /// The statement's trimmed text.
    pub text: String,
}

} // verus!
