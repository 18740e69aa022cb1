use biome_js_parser::{parse, JsParserOptions};
use biome_js_syntax::{
    AnyJsArrowFunctionParameters, AnyJsBinding, AnyJsBindingPattern, AnyJsCallArgument,
    AnyJsDeclarationClause, AnyJsExpression, AnyJsFormalParameter, AnyJsLiteralExpression,
    AnyJsModuleItem, AnyJsObjectMember, AnyJsObjectMemberName, AnyJsParameter, AnyJsRoot,
    AnyJsStatement, AnyTsName, AnyTsReturnType, AnyTsType, AnyTsTypeMember,
    AnyTsVariableAnnotation, JsExpressionStatement, JsFileSource, JsParameters, JsSyntaxToken,
    JsUnaryOperator, JsVariableDeclaration, JsVariableDeclarator, TsInterfaceDeclaration,
    TsTypeParameters,
};
use biome_rowan::{AstNode, AstNodeList, AstSeparatedList, SyntaxResult, WalkEvent};
use ts_analyzer::analyzer::TypeAnalyzer;
use ts_analyzer::linter::{DiagnosticKind, NoFloatingPromisesLinter};
use ts_analyzer::server::{Server, SourceFile};
use ts_analyzer::symbol::Symbol;
use ts_analyzer::syntax::{
    ArrowFunction, ArrowParameters, BindingPattern, CallArgument, CallExpression,
    DeclarationClause, DeclareFunctionDeclaration, Expression, ExpressionStatement,
    FormalParameter, FunctionDeclaration, FunctionType, InterfaceDeclaration, LiteralExpression,
    MemberName, MethodSignature, ModuleItem, ObjectMember, Parameter, Parameters,
    PropertyObjectMember, PropertySignature, ReferenceType, ReturnType, Root, Statement,
    StaticMemberExpression, TypeMember, TypeName, TypeNode, TypeParameter, UnaryExpression,
    UnaryOperator, VariableAnnotation, VariableDeclarator, VariableStatement,
};
use ts_analyzer::type_info::{
    BoolLiteral, FunctionParam, ObjectLiteral, ObjectPropertyType, TsFunctionSignature,
    TsInterface, TsInterfaceProperty, TsKeywordTypeKind, TsLiteralTypeKind, TsTypeRef, Type,
    TypeParam,
};
use ts_analyzer::visitor::Visitor;

fn token_text(token: SyntaxResult<JsSyntaxToken>) -> Option<String> {
    token.ok().map(|token| token.text_trimmed().to_string())
}

fn convert_root(root: &AnyJsRoot, declaration_file: bool) -> Root {
    match root {
        AnyJsRoot::JsModule(module) => {
            let items = module.items().iter().map(|item| convert_item(&item)).collect();
            if declaration_file {
                Root::DeclarationModule(items)
            } else {
                Root::Module(items)
            }
        }
        _ => Root::Other,
    }
}

fn convert_item(item: &AnyJsModuleItem) -> ModuleItem {
    match item {
        AnyJsModuleItem::AnyJsStatement(statement) => {
            ModuleItem::Statement(convert_statement(statement))
        }
        _ => ModuleItem::Other,
    }
}

fn convert_statement(statement: &AnyJsStatement) -> Statement {
    match statement {
        AnyJsStatement::TsDeclareStatement(node) => {
            Statement::Declare(convert_clause(node.declaration()))
        }
        AnyJsStatement::TsInterfaceDeclaration(node) => {
            Statement::Interface(convert_interface(node))
        }
        AnyJsStatement::JsVariableStatement(node) => {
            Statement::Variable(convert_variables(node.declaration()))
        }
        AnyJsStatement::JsExpressionStatement(node) => {
            Statement::Expression(convert_expression_statement(node))
        }
        AnyJsStatement::JsFunctionDeclaration(node) => Statement::Function(FunctionDeclaration {
            is_async: node.async_token().is_some(),
            id: node.id().ok().map(|id| id.syntax().text_trimmed().to_string()),
            parameters: convert_parameters(node.parameters()),
            return_type: node.return_type_annotation().map(|a| convert_return_type(a.ty())),
        }),
        _ => Statement::Other,
    }
}

fn convert_clause(clause: SyntaxResult<AnyJsDeclarationClause>) -> DeclarationClause {
    match clause {
        Err(_) => DeclarationClause::Missing,
        Ok(AnyJsDeclarationClause::JsVariableDeclarationClause(node)) => {
            DeclarationClause::Variable(convert_variables(node.declaration()))
        }
        Ok(AnyJsDeclarationClause::TsDeclareFunctionDeclaration(node)) => {
            DeclarationClause::Function(DeclareFunctionDeclaration {
                id: node.id().ok().map(|id| id.syntax().text_trimmed().to_string()),
                type_parameters: convert_type_parameters(node.type_parameters()),
                parameters: convert_parameters(node.parameters()),
                return_type: node.return_type_annotation().map(|a| convert_return_type(a.ty())),
            })
        }
        Ok(_) => DeclarationClause::Other,
    }
}

fn convert_variables(declaration: SyntaxResult<JsVariableDeclaration>) -> VariableStatement {
    VariableStatement {
        declarators: declaration.ok().map(|declaration| {
            declaration
                .declarators()
                .iter()
                .map(|declarator| declarator.ok().map(|d| convert_declarator(&d)))
                .collect()
        }),
    }
}

fn convert_declarator(node: &JsVariableDeclarator) -> VariableDeclarator {
    VariableDeclarator {
        id: match node.id() {
            Err(_) => BindingPattern::Missing,
            Ok(AnyJsBindingPattern::AnyJsBinding(AnyJsBinding::JsIdentifierBinding(binding))) => {
                BindingPattern::Identifier(token_text(binding.name_token()))
            }
            Ok(AnyJsBindingPattern::AnyJsBinding(_)) => BindingPattern::Other,
            Ok(AnyJsBindingPattern::JsArrayBindingPattern(_)) => BindingPattern::Array,
            Ok(AnyJsBindingPattern::JsObjectBindingPattern(_)) => BindingPattern::Object,
        },
        annotation: node.variable_annotation().map(|annotation| match annotation {
            AnyTsVariableAnnotation::TsDefiniteVariableAnnotation(_) => {
                VariableAnnotation::Definite
            }
            AnyTsVariableAnnotation::TsTypeAnnotation(annotation) => {
                VariableAnnotation::Type(convert_type_result(annotation.ty()))
            }
        }),
        initializer: node
            .initializer()
            .map(|initializer| convert_expression_result(initializer.expression())),
    }
}

fn convert_type_result(ty: SyntaxResult<AnyTsType>) -> TypeNode {
    match ty {
        Ok(ty) => convert_type(&ty),
        Err(_) => TypeNode::Missing,
    }
}

fn convert_type(ty: &AnyTsType) -> TypeNode {
    match ty {
        AnyTsType::TsAnyType(_) => TypeNode::Any,
        AnyTsType::TsBigintType(_) => TypeNode::Bigint,
        AnyTsType::TsBooleanType(_) => TypeNode::Boolean,
        AnyTsType::TsNeverType(_) => TypeNode::Never,
        AnyTsType::TsNumberType(_) => TypeNode::Number,
        AnyTsType::TsStringType(_) => TypeNode::String,
        AnyTsType::TsSymbolType(_) => TypeNode::Symbol,
        AnyTsType::TsUndefinedType(_) => TypeNode::Undefined,
        AnyTsType::TsVoidType(_) => TypeNode::Void,
        AnyTsType::TsUnknownType(_) => TypeNode::Unknown,
        AnyTsType::TsNonPrimitiveType(_) => TypeNode::NonPrimitive,
        AnyTsType::TsBooleanLiteralType(node) => {
            TypeNode::BooleanLiteral(token_text(node.literal()))
        }
        AnyTsType::TsNumberLiteralType(node) => TypeNode::NumberLiteral {
            minus: node.minus_token().is_some(),
            literal: token_text(node.literal_token()),
        },
        AnyTsType::TsStringLiteralType(node) => {
            TypeNode::StringLiteral(token_text(node.literal_token()))
        }
        AnyTsType::TsNullLiteralType(_) => TypeNode::NullLiteral,
        AnyTsType::TsReferenceType(node) => TypeNode::Reference(ReferenceType {
            name: match node.name() {
                Err(_) => TypeName::Missing,
                Ok(AnyTsName::JsReferenceIdentifier(name)) => {
                    TypeName::Identifier(token_text(name.value_token()))
                }
                Ok(AnyTsName::TsQualifiedName(_)) => TypeName::Qualified,
            },
            type_arguments: match node.type_arguments() {
                Some(arguments) => {
                    arguments.ts_type_argument_list().iter().map(convert_type_result).collect()
                }
                None => Vec::new(),
            },
        }),
        AnyTsType::TsUnionType(node) => {
            TypeNode::Union(node.types().iter().map(convert_type_result).collect())
        }
        AnyTsType::TsIntersectionType(node) => {
            TypeNode::Intersection(node.types().iter().map(convert_type_result).collect())
        }
        AnyTsType::TsParenthesizedType(node) => {
            TypeNode::Parenthesized(Box::new(convert_type_result(node.ty())))
        }
        AnyTsType::TsFunctionType(node) => TypeNode::Function(FunctionType {
            type_parameters: convert_type_parameters(node.type_parameters()),
            parameters: convert_parameters(node.parameters()),
            return_type: convert_return_type(node.return_type()),
        }),
        _ => TypeNode::Other,
    }
}

fn convert_return_type(ty: SyntaxResult<AnyTsReturnType>) -> ReturnType {
    match ty {
        Err(_) => ReturnType::Missing,
        Ok(AnyTsReturnType::AnyTsType(ty)) => ReturnType::Type(Box::new(convert_type(&ty))),
        Ok(_) => ReturnType::Other,
    }
}

fn convert_type_parameters(parameters: Option<TsTypeParameters>) -> Vec<Option<TypeParameter>> {
    match parameters {
        Some(parameters) => parameters
            .items()
            .iter()
            .map(|parameter| {
                parameter.ok().map(|parameter| TypeParameter {
                    name: parameter.name().ok().and_then(|name| token_text(name.ident_token())),
                    constraint: parameter.constraint().map(|c| convert_type_result(c.ty())),
                    default: parameter.default().map(|d| convert_type_result(d.ty())),
                })
            })
            .collect(),
        None => Vec::new(),
    }
}

fn convert_parameters(parameters: SyntaxResult<JsParameters>) -> Option<Parameters> {
    parameters.ok().map(|parameters| Parameters {
        items: parameters
            .items()
            .iter()
            .map(|parameter| match parameter {
                Err(_) => Parameter::Missing,
                Ok(AnyJsParameter::AnyJsFormalParameter(
                    AnyJsFormalParameter::JsFormalParameter(parameter),
                )) => Parameter::Formal(FormalParameter {
                    binding: parameter
                        .binding()
                        .ok()
                        .map(|binding| binding.syntax().text_trimmed().to_string()),
                    optional: parameter.question_mark_token().is_some(),
                    annotation: parameter.type_annotation().map(|a| convert_type_result(a.ty())),
                }),
                Ok(AnyJsParameter::AnyJsFormalParameter(_)) => Parameter::Other,
                Ok(AnyJsParameter::JsRestParameter(_)) => Parameter::Rest,
                Ok(AnyJsParameter::TsThisParameter(_)) => Parameter::This,
            })
            .collect(),
    })
}

fn convert_member_name(name: SyntaxResult<AnyJsObjectMemberName>) -> MemberName {
    match name {
        Err(_) => MemberName::Missing,
        Ok(AnyJsObjectMemberName::JsLiteralMemberName(name)) => {
            MemberName::Literal(token_text(name.value()))
        }
        Ok(AnyJsObjectMemberName::JsComputedMemberName(_)) => MemberName::Computed,
    }
}

fn convert_interface(node: &TsInterfaceDeclaration) -> InterfaceDeclaration {
    InterfaceDeclaration {
        id: node.id().ok().and_then(|id| token_text(id.name_token())),
        type_parameters: convert_type_parameters(node.type_parameters()),
        members: node
            .members()
            .iter()
            .map(|member| match member {
                AnyTsTypeMember::TsPropertySignatureTypeMember(member) => {
                    TypeMember::Property(PropertySignature {
                        readonly: member.readonly_token().is_some(),
                        name: convert_member_name(member.name()),
                        optional: member.optional_token().is_some(),
                        annotation: member.type_annotation().map(|a| convert_type_result(a.ty())),
                    })
                }
                AnyTsTypeMember::TsMethodSignatureTypeMember(member) => {
                    TypeMember::Method(MethodSignature {
                        name: convert_member_name(member.name()),
                        optional: member.optional_token().is_some(),
                        type_parameters: convert_type_parameters(member.type_parameters()),
                        parameters: convert_parameters(member.parameters()),
                        return_type: member
                            .return_type_annotation()
                            .map(|a| convert_return_type(a.ty())),
                    })
                }
                _ => TypeMember::Other,
            })
            .collect(),
    }
}

fn convert_expression_result(expression: SyntaxResult<AnyJsExpression>) -> Expression {
    match expression {
        Ok(expression) => convert_expression(&expression),
        Err(_) => Expression::Missing,
    }
}

fn convert_expression(expression: &AnyJsExpression) -> Expression {
    match expression {
        AnyJsExpression::AnyJsLiteralExpression(literal) => Expression::Literal(match literal {
            AnyJsLiteralExpression::JsBooleanLiteralExpression(node) => {
                LiteralExpression::Boolean(token_text(node.value_token()))
            }
            AnyJsLiteralExpression::JsNumberLiteralExpression(node) => {
                LiteralExpression::Number(token_text(node.value_token()))
            }
            AnyJsLiteralExpression::JsStringLiteralExpression(node) => {
                LiteralExpression::String(token_text(node.value_token()))
            }
            AnyJsLiteralExpression::JsNullLiteralExpression(_) => LiteralExpression::Null,
            _ => LiteralExpression::Other,
        }),
        AnyJsExpression::JsObjectExpression(node) => Expression::Object(
            node.members()
                .iter()
                .map(|member| match member {
                    Err(_) => ObjectMember::Missing,
                    Ok(AnyJsObjectMember::JsPropertyObjectMember(member)) => {
                        ObjectMember::Property(PropertyObjectMember {
                            name: member
                                .name()
                                .ok()
                                .and_then(|name| name.name())
                                .map(|name| name.to_string()),
                            value: convert_expression_result(member.value()),
                        })
                    }
                    Ok(_) => ObjectMember::Other,
                })
                .collect(),
        ),
        AnyJsExpression::JsArrowFunctionExpression(node) => Expression::Arrow(ArrowFunction {
            is_async: node.async_token().is_some(),
            type_parameters: convert_type_parameters(node.type_parameters()),
            parameters: match node.parameters() {
                Err(_) => ArrowParameters::Missing,
                Ok(AnyJsArrowFunctionParameters::AnyJsBinding(
                    AnyJsBinding::JsIdentifierBinding(binding),
                )) => ArrowParameters::Binding(token_text(binding.name_token())),
                Ok(AnyJsArrowFunctionParameters::AnyJsBinding(_)) => ArrowParameters::Other,
                Ok(AnyJsArrowFunctionParameters::JsParameters(parameters)) => {
                    match convert_parameters(Ok(parameters)) {
                        Some(parameters) => ArrowParameters::Parameters(parameters),
                        None => ArrowParameters::Missing,
                    }
                }
            },
            return_type: node.return_type_annotation().map(|a| convert_return_type(a.ty())),
        }),
        AnyJsExpression::JsFunctionExpression(node) => Expression::Function(FunctionDeclaration {
            is_async: node.async_token().is_some(),
            id: node.id().map(|id| id.syntax().text_trimmed().to_string()),
            parameters: convert_parameters(node.parameters()),
            return_type: node.return_type_annotation().map(|a| convert_return_type(a.ty())),
        }),
        AnyJsExpression::JsCallExpression(node) => Expression::Call(CallExpression {
            callee: Box::new(convert_expression_result(node.callee())),
            arguments: node.arguments().ok().map(|arguments| {
                arguments
                    .args()
                    .iter()
                    .map(|argument| match argument {
                        Err(_) => CallArgument::Missing,
                        Ok(AnyJsCallArgument::AnyJsExpression(expression)) => {
                            CallArgument::Expression(convert_expression(&expression))
                        }
                        Ok(AnyJsCallArgument::JsSpread(_)) => CallArgument::Spread,
                    })
                    .collect()
            }),
        }),
        AnyJsExpression::JsStaticMemberExpression(node) => {
            Expression::StaticMember(StaticMemberExpression {
                object: Box::new(convert_expression_result(node.object())),
                member: node.member().ok().map(|name| name.syntax().text_trimmed().to_string()),
            })
        }
        AnyJsExpression::JsIdentifierExpression(node) => Expression::Identifier(
            node.name().ok().map(|name| name.syntax().text_trimmed().to_string()),
        ),
        AnyJsExpression::JsAwaitExpression(node) => {
            Expression::Await(Box::new(convert_expression_result(node.argument())))
        }
        AnyJsExpression::JsUnaryExpression(node) => Expression::Unary(UnaryExpression {
            operator: node.operator().ok().map(|operator| match operator {
                JsUnaryOperator::Delete => UnaryOperator::Delete,
                JsUnaryOperator::Void => UnaryOperator::Void,
                JsUnaryOperator::Typeof => UnaryOperator::Typeof,
                JsUnaryOperator::Plus => UnaryOperator::Plus,
                JsUnaryOperator::Minus => UnaryOperator::Minus,
                JsUnaryOperator::BitwiseNot => UnaryOperator::BitwiseNot,
                JsUnaryOperator::LogicalNot => UnaryOperator::LogicalNot,
            }),
            argument: Box::new(convert_expression_result(node.argument())),
        }),
        _ => Expression::Other,
    }
}

fn convert_expression_statement(node: &JsExpressionStatement) -> ExpressionStatement {
    let range = node.syntax().text_range();
    ExpressionStatement {
        expression: convert_expression_result(node.expression()),
        start: u32::from(range.start()),
        end: u32::from(range.end()),
        text: node.syntax().text_trimmed().to_string(),
    }
}

fn expression_statements(root: &AnyJsRoot) -> Vec<ExpressionStatement> {
    let mut statements = Vec::new();
    for event in root.syntax().preorder() {
        if let WalkEvent::Enter(node) = event {
            if let Some(statement) = JsExpressionStatement::cast(node) {
                statements.push(convert_expression_statement(&statement));
            }
        }
    }
    statements
}

fn parse_source(src: &str, declaration_file: bool) -> AnyJsRoot {
    let source_type = if declaration_file { JsFileSource::d_ts() } else { JsFileSource::ts() };
    let parsed = parse(src, source_type, JsParserOptions::default());
    if parsed.has_errors() {
        panic!("Failed to parse source code: {:?}", parsed.diagnostics());
    }
    parsed.tree()
}

fn test_analyzer(src: &str) -> TypeAnalyzer {
    let root = convert_root(&parse_source(src, false), false);
    let mut analyzer = TypeAnalyzer::new(&Vec::new());
    analyzer.visit(&root);
    analyzer
}

const PROMISE_DECLARATIONS: &str = r#"
interface PromiseLike<T> {
    then<TResult1 = T, TResult2 = never>(onfulfilled?: ((value: T) => TResult1 | PromiseLike<TResult1>) | undefined | null, onrejected?: ((reason: any) => TResult2 | PromiseLike<TResult2>) | undefined | null): PromiseLike<TResult1 | TResult2>;
}

interface Promise<T> {
    then<TResult1 = T, TResult2 = never>(onfulfilled?: ((value: T) => TResult1 | PromiseLike<TResult1>) | undefined | null, onrejected?: ((reason: any) => TResult2 | PromiseLike<TResult2>) | undefined | null): Promise<TResult1 | TResult2>;
    catch<TResult = never>(onrejected?: ((reason: any) => TResult | PromiseLike<TResult>) | undefined | null): Promise<T | TResult>;
}
"#;

fn setup_server(src: &str) -> Server {
    let builtins = vec![convert_root(&parse_source(PROMISE_DECLARATIONS, true), true)];
    let mut server = Server::new(&builtins);
    let files = vec![SourceFile {
        path: "test.ts".to_string(),
        root: convert_root(&parse_source(src, false), false),
    }];
    server.analyze(&files);
    server
}

fn lint(src: &str) -> Vec<(DiagnosticKind, String)> {
    let server = setup_server(src);
    let mut linter = NoFloatingPromisesLinter::new(server);
    let root = parse_source(src, false);
    linter.set_current_path("test.ts".to_string());
    linter.visit(&expression_statements(&root));
    let mut found = Vec::new();
    for diagnostic in linter.diagnostics() {
        println!("{} at {}..{} => {:?}", diagnostic.message(), diagnostic.start, diagnostic.end, diagnostic.text);
        found.push((diagnostic.kind, diagnostic.text.clone()));
    }
    found
}

fn keyword(kind: TsKeywordTypeKind) -> Type {
    Type::KeywordType(kind)
}

fn reference(name: &str, type_params: Vec<Type>) -> Type {
    Type::TypeRef(TsTypeRef { name: name.to_string(), type_params })
}

fn function(
    type_params: Vec<TypeParam>,
    params: Vec<FunctionParam>,
    return_type: Type,
    is_async: bool,
) -> Type {
    Type::Function(TsFunctionSignature {
        type_params,
        this_param: None,
        params,
        return_type: Box::new(return_type),
        is_async,
    })
}

fn param(name: &str, param_type: Type, is_optional: bool) -> FunctionParam {
    FunctionParam { name: name.to_string(), param_type, is_optional }
}

fn property(name: &str, type_info: Type, is_optional: bool, is_readonly: bool) -> TsInterfaceProperty {
    TsInterfaceProperty { name: name.to_string(), type_info, is_optional, is_readonly }
}

fn type_param(name: &str, constraint: Option<Type>, default: Option<Type>) -> TypeParam {
    TypeParam { name: name.to_string(), constraint, default }
}

fn unhandled(text: &str) -> (DiagnosticKind, String) {
    (DiagnosticKind::UnhandledPromise, text.to_string())
}

fn bad_handler(text: &str) -> (DiagnosticKind, String) {
    (DiagnosticKind::NonFunctionHandler, text.to_string())
}

#[test]
fn test_keyword_types() {
    let src = r#"declare const a: number;
declare const b: string;
declare const c: boolean;
declare const d: bigint;
declare const e: symbol;
declare const f: null;
declare const g: undefined;
declare const h: never;
declare const i: void;
declare const j: any;
        "#;

    let analyzer = test_analyzer(src);
    let expected = [
        ("a", TsKeywordTypeKind::Number),
        ("b", TsKeywordTypeKind::String),
        ("c", TsKeywordTypeKind::Boolean),
        ("d", TsKeywordTypeKind::BigInt),
        ("e", TsKeywordTypeKind::Symbol),
        ("f", TsKeywordTypeKind::Null),
        ("g", TsKeywordTypeKind::Undefined),
        ("h", TsKeywordTypeKind::Never),
        ("i", TsKeywordTypeKind::Void),
        ("j", TsKeywordTypeKind::Any),
    ];
    for (name, kind) in expected {
        assert_eq!(
            analyzer.get_symbol(name).unwrap(),
            &Symbol::new(name.to_string(), Type::KeywordType(kind))
        );
    }
}

#[test]
fn test_object_literal() {
    let src = r#"
        const obj = {
            num: 42,
            str: 'hello',
            bool: true,
        };
    "#;

    let analyzer = test_analyzer(src);

    assert_eq!(
        analyzer.get_symbol("obj").unwrap(),
        &Symbol::new(
            "obj".to_string(),
            Type::Literal(TsLiteralTypeKind::Object(ObjectLiteral {
                properties: vec![
                    ObjectPropertyType {
                        name: "num".to_string(),
                        type_info: Type::Literal(TsLiteralTypeKind::Number(42))
                    },
                    ObjectPropertyType {
                        name: "str".to_string(),
                        type_info: Type::Literal(TsLiteralTypeKind::String("hello".to_string()))
                    },
                    ObjectPropertyType {
                        name: "bool".to_string(),
                        type_info: Type::Literal(TsLiteralTypeKind::Boolean(BoolLiteral::True))
                    }
                ]
            }))
        )
    )
}

#[test]
fn test_literal_types() {
    let src = r#"declare const a: 1;
declare const b: 'hello';
declare const c: true;
declare const d: false;
const e = 1;
const f = 'hello';
const g = true;
const h = false;
        "#;

    let analyzer = test_analyzer(src);
    assert_eq!(
        analyzer.get_symbol("a").unwrap(),
        &Symbol::new("a".to_string(), Type::Literal(TsLiteralTypeKind::Number(1)))
    );
    assert_eq!(
        analyzer.get_symbol("b").unwrap(),
        &Symbol::new(
            "b".to_string(),
            Type::Literal(TsLiteralTypeKind::String("'hello'".to_string()))
        )
    );
    assert_eq!(
        analyzer.get_symbol("c").unwrap(),
        &Symbol::new(
            "c".to_string(),
            Type::Literal(TsLiteralTypeKind::Boolean(BoolLiteral::True))
        )
    );
    assert_eq!(
        analyzer.get_symbol("d").unwrap(),
        &Symbol::new(
            "d".to_string(),
            Type::Literal(TsLiteralTypeKind::Boolean(BoolLiteral::False))
        )
    );
    assert_eq!(
        analyzer.get_symbol("e").unwrap(),
        &Symbol::new("e".to_string(), Type::Literal(TsLiteralTypeKind::Number(1)))
    );
    assert_eq!(
        analyzer.get_symbol("f").unwrap(),
        &Symbol::new(
            "f".to_string(),
            Type::Literal(TsLiteralTypeKind::String("hello".to_string()))
        )
    );
    assert_eq!(
        analyzer.get_symbol("g").unwrap(),
        &Symbol::new(
            "g".to_string(),
            Type::Literal(TsLiteralTypeKind::Boolean(BoolLiteral::True))
        )
    );
    assert_eq!(
        analyzer.get_symbol("h").unwrap(),
        &Symbol::new(
            "h".to_string(),
            Type::Literal(TsLiteralTypeKind::Boolean(BoolLiteral::False))
        )
    );
}

#[test]
fn test_interface() {
    let src = r#"
        interface Person {
            name: string;
            age: number;
            foo?: string;
            readonly bar: boolean;
        }

        interface MethodSignature {
          basic(): void;
          withParams(x: number, y: string): boolean;
          optional?(): void;
          generic<T>(value: T): T;
          complex(): string | Promise<number>;
        }
        "#;

    let analyzer = test_analyzer(src);

    assert_eq!(
        analyzer.get_symbol("Person").unwrap(),
        &Symbol::new(
            "Person".to_string(),
            Type::Interface(TsInterface {
                name: "Person".to_string(),
                extends: vec![],
                type_params: vec![],
                properties: vec![
                    property("name", keyword(TsKeywordTypeKind::String), false, false),
                    property("age", keyword(TsKeywordTypeKind::Number), false, false),
                    property("foo", keyword(TsKeywordTypeKind::String), true, false),
                    property("bar", keyword(TsKeywordTypeKind::Boolean), false, true),
                ]
            })
        )
    );

    assert_eq!(
        analyzer.get_symbol("MethodSignature").unwrap(),
        &Symbol::new(
            "MethodSignature".to_string(),
            Type::Interface(TsInterface {
                name: "MethodSignature".to_string(),
                extends: vec![],
                type_params: vec![],
                properties: vec![
                    property(
                        "basic",
                        function(vec![], vec![], keyword(TsKeywordTypeKind::Void), false),
                        false,
                        false
                    ),
                    property(
                        "withParams",
                        function(
                            vec![],
                            vec![
                                param("x", keyword(TsKeywordTypeKind::Number), false),
                                param("y", keyword(TsKeywordTypeKind::String), false)
                            ],
                            keyword(TsKeywordTypeKind::Boolean),
                            false
                        ),
                        false,
                        false
                    ),
                    property(
                        "optional",
                        function(vec![], vec![], keyword(TsKeywordTypeKind::Void), false),
                        true,
                        false
                    ),
                    property(
                        "generic",
                        function(
                            vec![type_param("T", None, None)],
                            vec![param("value", reference("T", vec![]), false)],
                            reference("T", vec![]),
                            false
                        ),
                        false,
                        false
                    ),
                    property(
                        "complex",
                        function(
                            vec![],
                            vec![],
                            Type::Union(vec![
                                keyword(TsKeywordTypeKind::String),
                                reference("Promise", vec![keyword(TsKeywordTypeKind::Number)])
                            ]),
                            false
                        ),
                        false,
                        false
                    ),
                ]
            })
        )
    );
}

#[test]
fn test_interface_with_generics() {
    let src = r#"
        interface Box<T> {
            value: T;
        }

        interface Pair<T = string, U extends number> {
          first: T;
          second: U;
        }
        "#;

    let analyzer = test_analyzer(src);

    assert_eq!(
        analyzer.get_symbol("Box").unwrap(),
        &Symbol::new(
            "Box".to_string(),
            Type::Interface(TsInterface {
                name: "Box".to_string(),
                extends: vec![],
                type_params: vec![type_param("T", None, None)],
                properties: vec![property("value", reference("T", vec![]), false, false)]
            })
        )
    );

    assert_eq!(
        analyzer.get_symbol("Pair").unwrap(),
        &Symbol::new(
            "Pair".to_string(),
            Type::Interface(TsInterface {
                name: "Pair".to_string(),
                extends: vec![],
                type_params: vec![
                    type_param("T", None, Some(keyword(TsKeywordTypeKind::String))),
                    type_param("U", Some(keyword(TsKeywordTypeKind::Number)), None),
                ],
                properties: vec![
                    property("first", reference("T", vec![]), false, false),
                    property("second", reference("U", vec![]), false, false),
                ]
            })
        )
    );
}

#[test]
fn test_simple_type_ref() {
    let src = r#"
        declare const ref: Array;
        declare const withTypeArg: Array<number>;
        declare const nested: Array<Array<string>>;

        interface Person {
            name: string;
            age: number;
            foo?: string;
            readonly bar: boolean;
        }
        declare const person: Person;
        "#;

    let analyzer = test_analyzer(src);

    assert_eq!(
        analyzer.get_symbol("ref").unwrap(),
        &Symbol::new("ref".to_string(), reference("Array", vec![]))
    );
    assert_eq!(
        analyzer.get_symbol("withTypeArg").unwrap(),
        &Symbol::new(
            "withTypeArg".to_string(),
            reference("Array", vec![keyword(TsKeywordTypeKind::Number)])
        )
    );
    assert_eq!(
        analyzer.get_symbol("nested").unwrap(),
        &Symbol::new(
            "nested".to_string(),
            reference(
                "Array",
                vec![reference("Array", vec![keyword(TsKeywordTypeKind::String)])]
            )
        )
    );
    assert_eq!(
        analyzer.get_symbol("person").unwrap(),
        &Symbol::new("person".to_string(), reference("Person", vec![]))
    );
}

#[test]
fn test_union_test() {
    let src = r#"
        declare const basic: string | number;
        declare const withLiteral: "foo" | 42 | true;
        declare const withRef: Array<string> | Promise<number>;
        declare const nested: (string | number) | (boolean | null);
        "#;

    let analyzer = test_analyzer(src);

    assert_eq!(
        analyzer.get_symbol("basic").unwrap(),
        &Symbol::new(
            "basic".to_string(),
            Type::Union(vec![
                keyword(TsKeywordTypeKind::String),
                keyword(TsKeywordTypeKind::Number)
            ])
        )
    );
    assert_eq!(
        analyzer.get_symbol("withLiteral").unwrap(),
        &Symbol::new(
            "withLiteral".to_string(),
            Type::Union(vec![
                Type::Literal(TsLiteralTypeKind::String("\"foo\"".to_string())),
                Type::Literal(TsLiteralTypeKind::Number(42)),
                Type::Literal(TsLiteralTypeKind::Boolean(BoolLiteral::True))
            ])
        )
    );
    assert_eq!(
        analyzer.get_symbol("withRef").unwrap(),
        &Symbol::new(
            "withRef".to_string(),
            Type::Union(vec![
                reference("Array", vec![keyword(TsKeywordTypeKind::String)]),
                reference("Promise", vec![keyword(TsKeywordTypeKind::Number)])
            ])
        )
    );
    assert_eq!(
        analyzer.get_symbol("nested").unwrap(),
        &Symbol::new(
            "nested".to_string(),
            Type::Union(vec![
                Type::Union(vec![
                    keyword(TsKeywordTypeKind::String),
                    keyword(TsKeywordTypeKind::Number)
                ]),
                Type::Union(vec![
                    keyword(TsKeywordTypeKind::Boolean),
                    keyword(TsKeywordTypeKind::Null)
                ])
            ])
        )
    );
}

#[test]
fn test_func_type() {
    let src = r#"
        declare const basic: () => void;
        declare const withParams: (x: number, y: string) => boolean;
        declare const withOptional: (x?: number) => string;
        declare const generic: <T>(value: T) => T;
        "#;

    let analyzer = test_analyzer(src);

    assert_eq!(
        analyzer.get_symbol("basic").unwrap(),
        &Symbol::new(
            "basic".to_string(),
            function(vec![], vec![], keyword(TsKeywordTypeKind::Void), false)
        )
    );
    assert_eq!(
        analyzer.get_symbol("withParams").unwrap(),
        &Symbol::new(
            "withParams".to_string(),
            function(
                vec![],
                vec![
                    param("x", keyword(TsKeywordTypeKind::Number), false),
                    param("y", keyword(TsKeywordTypeKind::String), false)
                ],
                keyword(TsKeywordTypeKind::Boolean),
                false
            )
        )
    );
    assert_eq!(
        analyzer.get_symbol("withOptional").unwrap(),
        &Symbol::new(
            "withOptional".to_string(),
            function(
                vec![],
                vec![param("x", keyword(TsKeywordTypeKind::Number), true)],
                keyword(TsKeywordTypeKind::String),
                false
            )
        )
    );
    assert_eq!(
        analyzer.get_symbol("generic").unwrap(),
        &Symbol::new(
            "generic".to_string(),
            function(
                vec![type_param("T", None, None)],
                vec![param("value", reference("T", vec![]), false)],
                reference("T", vec![]),
                false
            )
        )
    );
}

#[test]
fn test_arrow_function() {
    let src = r#"
        const foo = (): Promise<string> => {};"#;

    let analyzer = test_analyzer(src);
    assert_eq!(
        analyzer.get_symbol("foo").unwrap(),
        &Symbol::new(
            "foo".to_string(),
            function(
                vec![],
                vec![],
                reference("Promise", vec![keyword(TsKeywordTypeKind::String)]),
                false
            )
        )
    );
}

#[test]
fn test_function_declaration() {
    let src = r#"async function test(): Promise<void> {
  Promise.resolve("value");
}
"#;

    let analyzer = test_analyzer(src);

    let symbol = analyzer.get_symbol("test").unwrap();
    assert_eq!(
        symbol,
        &Symbol::new(
            "test".to_string(),
            function(
                vec![],
                vec![],
                reference("Promise", vec![keyword(TsKeywordTypeKind::Void)]),
                true
            )
        )
    );
}

const LOCAL_PROMISE: &str = r#"
        interface Promise<T> {
          then<TResult1 = T, TResult2 = never>(onfulfilled?: ((value: T) => TResult1 | PromiseLike<TResult1>) | undefined | null, onrejected?: ((reason: any) => TResult2 | PromiseLike<TResult2>) | undefined | null): Promise<TResult1 | TResult2>;
          catch<TResult = never>(onrejected?: ((reason: any) => TResult | PromiseLike<TResult>) | undefined | null): Promise<T | TResult>;
        }

        interface PromiseLike<T> {
          then<TResult1 = T, TResult2 = never>(onfulfilled?: ((value: T) => TResult1 | PromiseLike<TResult1>) | undefined | null, onrejected?: ((reason: any) => TResult2 | PromiseLike<TResult2>) | undefined | null): PromiseLike<TResult1 | TResult2>;
        }

        declare const foo: () => Promise<string>;
        "#;

#[test]
fn test_resolve_generic_interface() {
    let analyzer = test_analyzer(LOCAL_PROMISE);

    let symbol = analyzer.get_symbol("foo").unwrap();
    let type_info = analyzer.resolve_type_info(symbol, "");
    println!("{:?}", type_info);

    // The result of `foo` is the file's own `Promise`, applied to `string`.
    let Type::Function(signature) = type_info else {
        panic!("a function resolves to a function");
    };
    let Type::Interface(promise) = *signature.return_type else {
        panic!("the reference resolves to the interface");
    };
    assert_eq!(promise.name, "Promise");
    assert_eq!(promise.type_params, vec![type_param("T", None, None)]);
    assert_eq!(promise.properties.len(), 2);
    assert_eq!(promise.properties[0].name, "then");
    assert_eq!(promise.properties[1].name, "catch");
    // `catch` returns `Promise<T | TResult>`: the `T` inside the reference is replaced.
    let Type::Function(catch) = &promise.properties[1].type_info else {
        panic!("a method is a function");
    };
    assert_eq!(
        *catch.return_type,
        reference(
            "Promise",
            vec![Type::Union(vec![
                keyword(TsKeywordTypeKind::String),
                reference("TResult", vec![])
            ])]
        )
    );
}

#[test]
fn test_no_floating_promises_linter() {
    let src = r#"
        async function test(): Promise<void> {
            Promise.resolve("value");
            Promise.resolve("value").then(() => {});
            Promise.resolve("value").catch();
            Promise.resolve("value").finally();
        }
        "#;

    assert_eq!(lint(src), vec![unhandled("Promise.resolve(\"value\");")]);
}

#[test]
fn test_1() {
    let src = r#"
        async function returnPromise(): Promise<string> {
            return "value";
        }
        // invalid
        returnPromise();
        returnPromise().then(() => {});
        returnPromise().catch();
        returnPromise().finally();

        //valid
        await returnPromise();
        (async () => {
            await returnPromise();
            await returnPromise().then(() => {});
            await returnPromise().catch();
            await returnPromise().finally();
        })();
        "#;

    assert_eq!(
        lint(src),
        vec![
            unhandled("returnPromise();"),
            unhandled("returnPromise().then(() => {});"),
            unhandled("returnPromise().catch();"),
            unhandled("returnPromise().finally();"),
        ]
    );
}

#[test]
fn test_2() {
    let src = r#"
        declare const promiseValue: Promise<number>;
        async function test4(): Promise<void> {
            promiseValue;
            promiseValue.then(() => {});
            promiseValue.catch();
            await promiseValue.finally();
        }
        test4();
        "#;

    assert_eq!(
        lint(src),
        vec![
            unhandled("promiseValue;"),
            unhandled("promiseValue.then(() => {});"),
            unhandled("promiseValue.catch();"),
            unhandled("test4();"),
        ]
    );
}

#[test]
fn test_3() {
    let src = r#"
        declare const promiseOrNumber: Promise<number> | number;

async function test() {
  promiseOrNumber;
}
        "#;

    assert_eq!(lint(src), vec![unhandled("promiseOrNumber;")]);
}

#[test]
fn test_4() {
    let src = r#"
        const foo = async (): Promise<void> => {
            Promise.resolve("value");
        }
        foo();
        "#;

    assert_eq!(
        lint(src),
        vec![unhandled("Promise.resolve(\"value\");"), unhandled("foo();")]
    );
}

#[test]
fn keyword_roundtrip() {
    let analyzer = test_analyzer("declare const a: number;");
    assert_eq!(
        analyzer.get_symbol("a").unwrap(),
        &Symbol::new("a".to_string(), keyword(TsKeywordTypeKind::Number))
    );
    let analyzer = test_analyzer("declare const o: object; declare const u: unknown;");
    assert_eq!(analyzer.get_symbol("o").unwrap().ty, keyword(TsKeywordTypeKind::Object));
    assert_eq!(analyzer.get_symbol("u").unwrap().ty, keyword(TsKeywordTypeKind::Unknown));
}

#[test]
fn generic_interface_application() {
    let analyzer = test_analyzer("interface Box<T>{ value: T } declare const b: Box<number>;");
    let b = analyzer.get_symbol("b").unwrap();
    assert_eq!(b.ty, reference("Box", vec![keyword(TsKeywordTypeKind::Number)]));
    assert_eq!(
        analyzer.resolve_type_info_inner(&b.ty, ""),
        Type::Interface(TsInterface {
            name: "Box".to_string(),
            extends: vec![],
            type_params: vec![type_param("T", None, None)],
            properties: vec![property("value", keyword(TsKeywordTypeKind::Number), false, false)],
        })
    );
    // The type of a symbol is resolved member by member: a bare reference has none.
    assert_eq!(analyzer.resolve_type_info(b, ""), b.ty);
}

#[test]
fn generic_interface_with_wrong_arity_is_unknown() {
    let analyzer = test_analyzer(
        "interface Box<T>{ value: T } declare const b: Box<number, string>; declare const c: Box;",
    );
    assert_eq!(
        analyzer.resolve_type_info_inner(&analyzer.get_symbol("b").unwrap().ty, ""),
        Type::Unknown
    );
    assert_eq!(
        analyzer.resolve_type_info_inner(&analyzer.get_symbol("c").unwrap().ty, ""),
        Type::Unknown
    );
}

#[test]
fn union_of_literals() {
    let analyzer = test_analyzer("declare const u: \"foo\" | 42 | true;");
    assert_eq!(
        analyzer.get_symbol("u").unwrap().ty,
        Type::Union(vec![
            Type::Literal(TsLiteralTypeKind::String("\"foo\"".to_string())),
            Type::Literal(TsLiteralTypeKind::Number(42)),
            Type::Literal(TsLiteralTypeKind::Boolean(BoolLiteral::True)),
        ])
    );
}

#[test]
fn async_function_return() {
    let analyzer = test_analyzer("async function f(): Promise<void>{}");
    let f = analyzer.get_symbol("f").unwrap();
    assert_eq!(
        f.ty,
        function(
            vec![],
            vec![],
            reference("Promise", vec![keyword(TsKeywordTypeKind::Void)]),
            true
        )
    );
    let Type::Function(signature) = &f.ty else {
        panic!("a function declaration is a function");
    };
    assert!(ts_analyzer::linter::is_promise_type(&signature.return_type));
}

#[test]
fn floating_promise_detection() {
    let declaration = "async function g(): Promise<string>{return \"v\"} ";
    assert_eq!(lint(&format!("{declaration}g();")), vec![unhandled("g();")]);
    assert_eq!(lint(&format!("{declaration}await g();")), vec![]);
    assert_eq!(lint(&format!("{declaration}g().then(()=>{{}}, ()=>{{}});")), vec![]);
    assert_eq!(lint(&format!("{declaration}void g();")), vec![]);
    assert_eq!(lint(&format!("{declaration}g().catch(() => {{}});")), vec![]);
    assert_eq!(
        lint(&format!("{declaration}g().catch(123);")),
        vec![bad_handler("g().catch(123);")]
    );
    assert_eq!(
        lint(&format!("{declaration}g().then(() => {{}}, 123);")),
        vec![bad_handler("g().then(() => {}, 123);")]
    );
}

#[test]
fn rejection_handlers_by_name() {
    let declarations = "async function g(): Promise<string>{return \"v\"}
        declare const handle: (reason: any) => void;
        declare const either: ((reason: any) => void) | (() => void);
        declare const count: number;
        declare const mixed: (() => void) | number;
        ";
    assert_eq!(lint(&format!("{declarations}g().catch(handle);")), vec![]);
    assert_eq!(lint(&format!("{declarations}g().catch(either);")), vec![]);
    assert_eq!(lint(&format!("{declarations}g().catch(undefined);")), vec![]);
    assert_eq!(lint(&format!("{declarations}g().catch(null);")), vec![]);
    assert_eq!(
        lint(&format!("{declarations}g().catch(count);")),
        vec![bad_handler("g().catch(count);")]
    );
    assert_eq!(
        lint(&format!("{declarations}g().catch(mixed);")),
        vec![bad_handler("g().catch(mixed);")]
    );
    assert_eq!(
        lint(&format!("{declarations}g().catch(nowhere);")),
        vec![bad_handler("g().catch(nowhere);")]
    );
}

#[test]
fn local_shadows_ambient() {
    let src = "interface Promise<T> { x: T } declare function f(): Promise<number>;";
    let server = setup_server(src);
    let f = server.get_resolved_type_info("test.ts", "f").unwrap();
    let resolved = server.analyzer().resolve_type_info(f, "test.ts");
    assert_eq!(
        resolved,
        function(
            vec![],
            vec![],
            Type::Interface(TsInterface {
                name: "Promise".to_string(),
                extends: vec![],
                type_params: vec![type_param("T", None, None)],
                properties: vec![property("x", keyword(TsKeywordTypeKind::Number), false, false)],
            }),
            false
        )
    );
    // Another file sees the ambient definition, with `then` and `catch`.
    let elsewhere = server.analyzer().resolve_type_info(f, "other.ts");
    let Type::Function(signature) = elsewhere else {
        panic!("a function resolves to a function");
    };
    let Type::Interface(promise) = *signature.return_type else {
        panic!("the reference resolves to the ambient interface");
    };
    assert_eq!(promise.properties.len(), 2);
    assert_eq!(promise.properties[0].name, "then");
}

#[test]
fn await_unwraps_the_first_argument() {
    let server = setup_server(
        "declare const one: Promise<string>; declare const two: Promise<number, string>;
         declare const bare: Promise; declare const other: Array<string>;",
    );
    let mut linter = NoFloatingPromisesLinter::new(server);
    linter.set_current_path("test.ts".to_string());
    let awaited = |name: &str| {
        Expression::Await(Box::new(Expression::Identifier(Some(name.to_string()))))
    };
    assert_eq!(linter.infer_expression_type(&awaited("one")), keyword(TsKeywordTypeKind::String));
    assert_eq!(linter.infer_expression_type(&awaited("two")), keyword(TsKeywordTypeKind::Number));
    assert_eq!(linter.infer_expression_type(&awaited("bare")), Type::Unknown);
    assert_eq!(linter.infer_expression_type(&awaited("other")), Type::Unknown);
    assert_eq!(linter.infer_expression_type(&awaited("nowhere")), Type::Unknown);
}

#[test]
fn ambient_symbols_are_seen_from_every_file() {
    let server = setup_server("declare const a: number;");
    assert!(server.get_resolved_type_info("test.ts", "Promise").is_some());
    assert!(server.get_resolved_type_info("other.ts", "Promise").is_some());
    assert!(server.get_resolved_type_info("test.ts", "a").is_some());
    assert!(server.get_resolved_type_info("other.ts", "a").is_none());
    assert!(server.analyzer().get_global_symbol("PromiseLike").is_some());
    assert!(server.analyzer().get_global_symbol("a").is_none());
    let name = Expression::Identifier(Some("Promise".to_string()));
    assert!(matches!(server.get_type_info_from_builtin(&name), Type::Interface(_)));
    let local = Expression::Identifier(Some("a".to_string()));
    assert_eq!(server.get_type_info_from_builtin(&local), Type::Unknown);
}

#[test]
fn later_declaration_overwrites_earlier() {
    let analyzer = test_analyzer("declare const a: number; declare const a: string;");
    assert_eq!(analyzer.get_symbol("a").unwrap().ty, keyword(TsKeywordTypeKind::String));
}

#[test]
fn unsupported_syntax_is_unknown_or_ignored() {
    let analyzer = test_analyzer(
        "declare const t: [number, string];
         declare const big: 99999999999999999999;
         declare const neg: -7;
         const call = f();
         const [x, y] = [1, 2];
         export const e = 1;
         class C {}
         const dq = \"it's\";
         declare function d<T>(first: T, second?: string): boolean;",
    );
    assert_eq!(analyzer.get_symbol("t").unwrap().ty, Type::Unknown);
    assert_eq!(analyzer.get_symbol("big").unwrap().ty, Type::Unknown);
    assert_eq!(
        analyzer.get_symbol("neg").unwrap().ty,
        Type::Literal(TsLiteralTypeKind::Number(-7))
    );
    assert_eq!(analyzer.get_symbol("call").unwrap().ty, Type::Unknown);
    assert!(analyzer.get_symbol("x").is_none());
    assert!(analyzer.get_symbol("e").is_none());
    assert!(analyzer.get_symbol("C").is_none());
    assert_eq!(
        analyzer.get_symbol("dq").unwrap().ty,
        Type::Literal(TsLiteralTypeKind::String("\"it's\"".to_string()))
    );
    assert_eq!(
        analyzer.get_symbol("d").unwrap().ty,
        function(
            vec![type_param("T", None, None)],
            vec![
                param("first", reference("T", vec![]), false),
                param("second", keyword(TsKeywordTypeKind::String), true)
            ],
            keyword(TsKeywordTypeKind::Boolean),
            false
        )
    );
}
