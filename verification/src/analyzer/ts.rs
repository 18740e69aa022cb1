//! Lowering of written types, type parameters, parameter lists and
//! interface members to type terms.

use vstd::prelude::*;
use crate::analyzer::{AnalysisError, TypeAnalyzer};
use crate::sequences::{lemma_take_all, lemma_take_none, lemma_take_one_more};
use crate::syntax::{
    DeclareFunctionDeclaration, FormalParameter, FunctionType, InterfaceDeclaration, MemberName,
    MethodSignature, Parameter, Parameters, PropertySignature, ReferenceType, ReturnType,
    TypeMember, TypeName, TypeNode, TypeParameter,
};
use crate::text::{decimal_of, literal_number, parse_decimal, same_text, signed_literal};
use crate::type_info::{
    optional_type_view, param_views, property_views, type_param_views, type_views, BoolLiteral,
    FunctionParam, FunctionView, InterfaceView, LiteralView, ParamView, PropertyView,
    TsFunctionSignature, TsInterface, TsInterfaceProperty, TsKeywordTypeKind, TsLiteralTypeKind,
    TsTypeRef, Type, TypeParam, TypeParamView, TypeRefView, TypeView,
};

verus! {

/// The value of a decimal token under an optional minus sign, as a literal type.
pub open spec fn lower_number(minus: bool, text: Seq<char>) -> Result<TypeView, AnalysisError> {
    match decimal_of(text) {
        Some(magnitude) => match signed_literal(minus, magnitude) {
            Some(value) => Ok(TypeView::Literal(LiteralView::Number(value))),
            None => Err(AnalysisError::Unsupported),
        },
        None => Err(AnalysisError::Unsupported),
    }
}

/// The literal type that the token `true` or `false` writes.
pub open spec fn lower_boolean(text: Seq<char>) -> Result<TypeView, AnalysisError> {
    if text == "true"@ {
        Ok(TypeView::Literal(LiteralView::Boolean(BoolLiteral::True)))
    } else if text == "false"@ {
        Ok(TypeView::Literal(LiteralView::Boolean(BoolLiteral::False)))
    } else {
        Err(AnalysisError::Unsupported)
    }
}

/// The type term of a written type.
pub open spec fn lower_type(node: TypeNode) -> Result<TypeView, AnalysisError>
    decreases node, 0int,
{
    match node {
        TypeNode::Any => Ok(TypeView::KeywordType(TsKeywordTypeKind::Any)),
        TypeNode::Bigint => Ok(TypeView::KeywordType(TsKeywordTypeKind::BigInt)),
        TypeNode::Boolean => Ok(TypeView::KeywordType(TsKeywordTypeKind::Boolean)),
        TypeNode::Never => Ok(TypeView::KeywordType(TsKeywordTypeKind::Never)),
        TypeNode::Number => Ok(TypeView::KeywordType(TsKeywordTypeKind::Number)),
        TypeNode::String => Ok(TypeView::KeywordType(TsKeywordTypeKind::String)),
        TypeNode::Symbol => Ok(TypeView::KeywordType(TsKeywordTypeKind::Symbol)),
        TypeNode::Undefined => Ok(TypeView::KeywordType(TsKeywordTypeKind::Undefined)),
        TypeNode::Void => Ok(TypeView::KeywordType(TsKeywordTypeKind::Void)),
        TypeNode::Unknown => Ok(TypeView::KeywordType(TsKeywordTypeKind::Unknown)),
        TypeNode::NonPrimitive => Ok(TypeView::KeywordType(TsKeywordTypeKind::Object)),
        TypeNode::BooleanLiteral(literal) => match literal {
            Some(text) => lower_boolean(text@),
            None => Err(AnalysisError::MissingNode),
        },
        TypeNode::NumberLiteral { minus, literal } => match literal {
            Some(text) => lower_number(minus, text@),
            None => Err(AnalysisError::MissingNode),
        },
        TypeNode::StringLiteral(literal) => match literal {
            Some(text) => Ok(TypeView::Literal(LiteralView::String(text@))),
            None => Err(AnalysisError::MissingNode),
        },
        TypeNode::NullLiteral => Ok(TypeView::KeywordType(TsKeywordTypeKind::Null)),
        TypeNode::Reference(reference) => lower_reference(reference),
        TypeNode::Union(members) => match lower_members(members@) {
            Ok(types) => Ok(TypeView::Union(types)),
            Err(e) => Err(e),
        },
        TypeNode::Intersection(members) => match lower_members(members@) {
            Ok(types) => Ok(TypeView::Intersection(types)),
            Err(e) => Err(e),
        },
        TypeNode::Parenthesized(inner) => lower_type(*inner),
        TypeNode::Function(function) => lower_function_type(function),
        TypeNode::Other => Err(AnalysisError::Unsupported),
        TypeNode::Missing => Err(AnalysisError::MissingNode),
    }
}

/// The members of a union or an intersection in written order. A missing
/// member is passed over; the first member without a type fails the whole.
pub open spec fn lower_members(members: Seq<TypeNode>) -> Result<Seq<TypeView>, AnalysisError>
    decreases members, 0int,
{
    if members.len() == 0 {
        Ok(Seq::empty())
    } else {
        match lower_members(members.drop_last()) {
            Err(e) => Err(e),
            Ok(types) => if members.last() is Missing {
                Ok(types)
            } else {
                match lower_type(members.last()) {
                    Ok(t) => Ok(types.push(t)),
                    Err(e) => Err(e),
                }
            },
        }
    }
}

/// The type arguments of a reference in written order; one that is missing
/// or has no type is passed over.
pub open spec fn lower_arguments(arguments: Seq<TypeNode>) -> Seq<TypeView>
    decreases arguments, 0int,
{
    if arguments.len() == 0 {
        Seq::empty()
    } else {
        match lower_type(arguments.last()) {
            Ok(t) => lower_arguments(arguments.drop_last()).push(t),
            Err(_) => lower_arguments(arguments.drop_last()),
        }
    }
}

/// A named reference: never resolved here.
pub open spec fn lower_reference(reference: ReferenceType) -> Result<TypeView, AnalysisError>
    decreases reference, 0int,
{
    match reference.name {
        TypeName::Identifier(Some(name)) => Ok(
            TypeView::TypeRef(
                TypeRefView {
                    name: name@,
                    type_params: lower_arguments(reference.type_arguments@),
                },
            ),
        ),
        TypeName::Identifier(None) => Err(AnalysisError::MissingNode),
        TypeName::Qualified => Err(AnalysisError::Unsupported),
        TypeName::Missing => Err(AnalysisError::MissingNode),
    }
}

/// The type of an annotation: `Unknown` where the written type has none.
pub open spec fn lower_annotation(node: TypeNode) -> TypeView
    decreases node, 1int,
{
    match lower_type(node) {
        Ok(t) => t,
        Err(_) => TypeView::Unknown,
    }
}

/// A type parameter with its constraint and default. A clause without a
/// type counts as no clause.
pub open spec fn lower_type_parameter(parameter: TypeParameter) -> Result<
    TypeParamView,
    AnalysisError,
>
    decreases parameter, 0int,
{
    match parameter.name {
        None => Err(AnalysisError::MissingNode),
        Some(name) => match lower_clause(parameter.constraint) {
            Err(e) => Err(e),
            Ok(constraint) => match lower_clause(parameter.default) {
                Err(e) => Err(e),
                Ok(default) => Ok(TypeParamView { name: name@, constraint, default }),
            },
        },
    }
}

/// The type of an `extends` or `=` clause of a type parameter.
pub open spec fn lower_clause(clause: Option<TypeNode>) -> Result<Option<TypeView>, AnalysisError>
    decreases clause, 0int,
{
    match clause {
        None => Ok(None),
        Some(TypeNode::Missing) => Ok(None),
        Some(node) => match lower_type(node) {
            Ok(t) => Ok(Some(t)),
            Err(e) => Err(e),
        },
    }
}

/// The type parameters of a signature in written order. A missing one is
/// passed over; the first one without a value fails the whole.
pub open spec fn lower_type_parameters(parameters: Seq<Option<TypeParameter>>) -> Result<
    Seq<TypeParamView>,
    AnalysisError,
>
    decreases parameters, 0int,
{
    if parameters.len() == 0 {
        Ok(Seq::empty())
    } else {
        match lower_type_parameters(parameters.drop_last()) {
            Err(e) => Err(e),
            Ok(lowered) => match parameters.last() {
                None => Ok(lowered),
                Some(parameter) => match lower_type_parameter(parameter) {
                    Ok(p) => Ok(lowered.push(p)),
                    Err(e) => Err(e),
                },
            },
        }
    }
}

/// The type parameters of an interface in written order; one that is
/// missing or has no value is passed over.
pub open spec fn lower_type_parameters_leniently(parameters: Seq<Option<TypeParameter>>) -> Seq<
    TypeParamView,
>
    decreases parameters, 0int,
{
    if parameters.len() == 0 {
        Seq::empty()
    } else {
        match parameters.last() {
            Some(parameter) => match lower_type_parameter(parameter) {
                Ok(p) => lower_type_parameters_leniently(parameters.drop_last()).push(p),
                Err(_) => lower_type_parameters_leniently(parameters.drop_last()),
            },
            None => lower_type_parameters_leniently(parameters.drop_last()),
        }
    }
}

/// One formal parameter: its name is the text of its binding, its type that
/// of its annotation, `Unknown` without one.
pub open spec fn lower_formal_parameter(parameter: FormalParameter) -> Result<
    ParamView,
    AnalysisError,
>
    decreases parameter, 0int,
{
    match parameter.binding {
        None => Err(AnalysisError::MissingNode),
        Some(name) => Ok(
            ParamView {
                name: name@,
                param_type: match parameter.annotation {
                    Some(node) => lower_annotation(node),
                    None => TypeView::Unknown,
                },
                is_optional: parameter.optional,
            },
        ),
    }
}

/// One item of a parameter list: nothing for a missing one, no value for a
/// rest parameter, a `this` parameter or a parameter without a binding.
pub open spec fn lower_parameter(item: Parameter) -> Result<Option<ParamView>, AnalysisError>
    decreases item, 0int,
{
    match item {
        Parameter::Missing => Ok(None),
        Parameter::Formal(parameter) => match lower_formal_parameter(parameter) {
            Ok(p) => Ok(Some(p)),
            Err(e) => Err(e),
        },
        Parameter::Rest => Err(AnalysisError::Unsupported),
        Parameter::This => Err(AnalysisError::Unsupported),
        Parameter::Other => Err(AnalysisError::Unsupported),
    }
}

/// The parameters of a list in written order. A missing one is passed over;
/// the first one without a value fails the whole.
pub open spec fn lower_parameter_items(items: Seq<Parameter>) -> Result<
    Seq<ParamView>,
    AnalysisError,
>
    decreases items, 0int,
{
    if items.len() == 0 {
        Ok(Seq::empty())
    } else {
        match lower_parameter_items(items.drop_last()) {
            Err(e) => Err(e),
            Ok(lowered) => match lower_parameter(items.last()) {
                Ok(None) => Ok(lowered),
                Ok(Some(p)) => Ok(lowered.push(p)),
                Err(e) => Err(e),
            },
        }
    }
}

/// The parameters of a signature: none where the list itself is missing.
pub open spec fn lower_parameters(parameters: Option<Parameters>) -> Result<
    Seq<ParamView>,
    AnalysisError,
>
    decreases parameters, 0int,
{
    match parameters {
        Some(list) => lower_parameter_items(list.items@),
        None => Ok(Seq::empty()),
    }
}

/// The declared result of a signature. A type predicate or an assertion
/// stands for no type that is modelled: `Unknown`.
pub open spec fn lower_return_type(result: ReturnType) -> Result<TypeView, AnalysisError>
    decreases result, 0int,
{
    match result {
        ReturnType::Type(node) => lower_type(*node),
        ReturnType::Other => Ok(TypeView::Unknown),
        ReturnType::Missing => Err(AnalysisError::MissingNode),
    }
}

/// The result of a signature with an optional annotation: `Unknown` without one.
pub open spec fn lower_return_annotation(annotation: Option<ReturnType>) -> Result<
    TypeView,
    AnalysisError,
>
    decreases annotation, 0int,
{
    match annotation {
        Some(result) => lower_return_type(result),
        None => Ok(TypeView::Unknown),
    }
}

/// The function term made of the lowered parts of a signature; the first
/// part without a value fails the whole.
pub open spec fn signature_of(
    type_params: Result<Seq<TypeParamView>, AnalysisError>,
    params: Result<Seq<ParamView>, AnalysisError>,
    return_type: Result<TypeView, AnalysisError>,
    is_async: bool,
) -> Result<FunctionView, AnalysisError> {
    match type_params {
        Err(e) => Err(e),
        Ok(type_params) => match params {
            Err(e) => Err(e),
            Ok(params) => match return_type {
                Err(e) => Err(e),
                Ok(return_type) => Ok(
                    FunctionView {
                        type_params,
                        this_param: None,
                        params,
                        return_type: Box::new(return_type),
                        is_async,
                    },
                ),
            },
        },
    }
}

/// A function term as a type.
pub open spec fn function_type_of(signature: Result<FunctionView, AnalysisError>) -> Result<
    TypeView,
    AnalysisError,
> {
    match signature {
        Ok(f) => Ok(TypeView::Function(f)),
        Err(e) => Err(e),
    }
}

/// `(x: T) => R`: never async; a missing result is `Unknown`.
pub open spec fn lower_function_type(function: FunctionType) -> Result<TypeView, AnalysisError>
    decreases function, 0int,
{
    function_type_of(
        signature_of(
            lower_type_parameters(function.type_parameters@),
            lower_parameters(function.parameters),
            match function.return_type {
                ReturnType::Missing => Ok(TypeView::Unknown),
                result => lower_return_type(result),
            },
            false,
        ),
    )
}

/// `declare function f<T>(x: A): R;`
pub open spec fn lower_declare_function(function: DeclareFunctionDeclaration) -> Result<
    TypeView,
    AnalysisError,
> {
    function_type_of(
        signature_of(
            lower_type_parameters(function.type_parameters@),
            lower_parameters(function.parameters),
            lower_return_annotation(function.return_type),
            false,
        ),
    )
}

/// The name of an interface member: the text of its literal name.
pub open spec fn lower_member_name(name: MemberName) -> Result<Seq<char>, AnalysisError> {
    match name {
        MemberName::Literal(Some(text)) => Ok(text@),
        MemberName::Literal(None) => Err(AnalysisError::MissingNode),
        MemberName::Computed => Err(AnalysisError::Unsupported),
        MemberName::Missing => Err(AnalysisError::MissingNode),
    }
}

/// `readonly name?: T` as a property with its flags.
pub open spec fn lower_property_signature(property: PropertySignature) -> Result<
    PropertyView,
    AnalysisError,
> {
    match lower_member_name(property.name) {
        Err(e) => Err(e),
        Ok(name) => Ok(
            PropertyView {
                name,
                type_info: match property.annotation {
                    Some(node) => lower_annotation(node),
                    None => TypeView::Unknown,
                },
                is_optional: property.optional,
                is_readonly: property.readonly,
            },
        ),
    }
}

/// `name?<T>(x: A): R` as a property whose type is a function, never readonly.
pub open spec fn lower_method_signature(method: MethodSignature) -> Result<
    PropertyView,
    AnalysisError,
> {
    match lower_member_name(method.name) {
        Err(e) => Err(e),
        Ok(name) => match signature_of(
            lower_type_parameters(method.type_parameters@),
            lower_parameters(method.parameters),
            lower_return_annotation(method.return_type),
            false,
        ) {
            Err(e) => Err(e),
            Ok(f) => Ok(
                PropertyView {
                    name,
                    type_info: TypeView::Function(f),
                    is_optional: method.optional,
                    is_readonly: false,
                },
            ),
        },
    }
}

pub open spec fn lower_member(member: TypeMember) -> Result<PropertyView, AnalysisError> {
    match member {
        TypeMember::Property(property) => lower_property_signature(property),
        TypeMember::Method(method) => lower_method_signature(method),
        TypeMember::Other => Err(AnalysisError::Unsupported),
    }
}

/// The members of an interface in written order; one that has no value is
/// passed over.
pub open spec fn lower_members_leniently(members: Seq<TypeMember>) -> Seq<PropertyView>
    decreases members.len(),
{
    if members.len() == 0 {
        Seq::empty()
    } else {
        match lower_member(members.last()) {
            Ok(p) => lower_members_leniently(members.drop_last()).push(p),
            Err(_) => lower_members_leniently(members.drop_last()),
        }
    }
}

/// An interface declaration as an interface term: nothing is extended.
pub open spec fn lower_interface(declaration: InterfaceDeclaration) -> Result<
    TypeView,
    AnalysisError,
> {
    match declaration.id {
        None => Err(AnalysisError::MissingNode),
        Some(name) => Ok(
            TypeView::Interface(
                InterfaceView {
                    name: name@,
                    extends: Seq::empty(),
                    properties: lower_members_leniently(declaration.members@),
                    type_params: lower_type_parameters_leniently(declaration.type_parameters@),
                },
            ),
        ),
    }
}

/// What an analysis returned, as a mathematical value.
pub open spec fn type_outcome(r: Result<Type, AnalysisError>) -> Result<TypeView, AnalysisError> {
    match r {
        Ok(t) => Ok(t@),
        Err(e) => Err(e),
    }
}

pub open spec fn types_outcome(r: Result<Vec<Type>, AnalysisError>) -> Result<
    Seq<TypeView>,
    AnalysisError,
> {
    match r {
        Ok(v) => Ok(type_views(v@)),
        Err(e) => Err(e),
    }
}

pub open spec fn type_param_outcome(r: Result<TypeParam, AnalysisError>) -> Result<
    TypeParamView,
    AnalysisError,
> {
    match r {
        Ok(p) => Ok(p@),
        Err(e) => Err(e),
    }
}

pub open spec fn type_params_outcome(r: Result<Vec<TypeParam>, AnalysisError>) -> Result<
    Seq<TypeParamView>,
    AnalysisError,
> {
    match r {
        Ok(v) => Ok(type_param_views(v@)),
        Err(e) => Err(e),
    }
}

pub open spec fn params_outcome(r: Result<Vec<FunctionParam>, AnalysisError>) -> Result<
    Seq<ParamView>,
    AnalysisError,
> {
    match r {
        Ok(v) => Ok(param_views(v@)),
        Err(e) => Err(e),
    }
}

pub open spec fn property_outcome(r: Result<TsInterfaceProperty, AnalysisError>) -> Result<
    PropertyView,
    AnalysisError,
> {
    match r {
        Ok(p) => Ok(p@),
        Err(e) => Err(e),
    }
}

pub open spec fn signature_outcome(r: Result<TsFunctionSignature, AnalysisError>) -> Result<
    FunctionView,
    AnalysisError,
> {
    match r {
        Ok(f) => Ok(f@),
        Err(e) => Err(e),
    }
}

/// A failure among the first members is the failure of the whole list.
pub proof fn lemma_member_failure_stays(members: Seq<TypeNode>, n: int)
    requires
        0 <= n <= members.len(),
        lower_members(members.take(n)) is Err,
    ensures
        lower_members(members) == lower_members(members.take(n)),
    decreases members.len(),
{
    if n == members.len() {
        assert(members.take(n) =~= members);
    } else {
        assert(members.drop_last().take(n) =~= members.take(n));
        lemma_member_failure_stays(members.drop_last(), n);
    }
}

/// A failure among the first type parameters is the failure of the whole list.
pub proof fn lemma_type_parameter_failure_stays(parameters: Seq<Option<TypeParameter>>, n: int)
    requires
        0 <= n <= parameters.len(),
        lower_type_parameters(parameters.take(n)) is Err,
    ensures
        lower_type_parameters(parameters) == lower_type_parameters(parameters.take(n)),
    decreases parameters.len(),
{
    if n == parameters.len() {
        assert(parameters.take(n) =~= parameters);
    } else {
        assert(parameters.drop_last().take(n) =~= parameters.take(n));
        lemma_type_parameter_failure_stays(parameters.drop_last(), n);
    }
}

/// A failure among the first parameters is the failure of the whole list.
pub proof fn lemma_parameter_failure_stays(items: Seq<Parameter>, n: int)
    requires
        0 <= n <= items.len(),
        lower_parameter_items(items.take(n)) is Err,
    ensures
        lower_parameter_items(items) == lower_parameter_items(items.take(n)),
    decreases items.len(),
{
    if n == items.len() {
        assert(items.take(n) =~= items);
    } else {
        assert(items.drop_last().take(n) =~= items.take(n));
        lemma_parameter_failure_stays(items.drop_last(), n);
    }
}

impl TypeAnalyzer {
    /// The type of an annotation: `Unknown` where the written type has none.
    pub fn analyze_type_annotation(&self, node: &TypeNode) -> (ty: Type)
        ensures
            ty@ == lower_annotation(*node),
        decreases node, 1int,
    {
        match self.analyze_any_ts_types(node) {
            Ok(ty) => ty,
            Err(_) => Type::Unknown,
        }
    }

    /// The type term of a written type, or why it has none.
    pub fn analyze_any_ts_types(&self, node: &TypeNode) -> (ty: Result<Type, AnalysisError>)
        ensures
            type_outcome(ty) == lower_type(*node),
        decreases node, 0int,
    {
        match node {
            TypeNode::Any => Ok(Type::KeywordType(TsKeywordTypeKind::Any)),
            TypeNode::Bigint => Ok(Type::KeywordType(TsKeywordTypeKind::BigInt)),
            TypeNode::Boolean => Ok(Type::KeywordType(TsKeywordTypeKind::Boolean)),
            TypeNode::Never => Ok(Type::KeywordType(TsKeywordTypeKind::Never)),
            TypeNode::Number => Ok(Type::KeywordType(TsKeywordTypeKind::Number)),
            TypeNode::String => Ok(Type::KeywordType(TsKeywordTypeKind::String)),
            TypeNode::Symbol => Ok(Type::KeywordType(TsKeywordTypeKind::Symbol)),
            TypeNode::Undefined => Ok(Type::KeywordType(TsKeywordTypeKind::Undefined)),
            TypeNode::Void => Ok(Type::KeywordType(TsKeywordTypeKind::Void)),
            TypeNode::Unknown => Ok(Type::KeywordType(TsKeywordTypeKind::Unknown)),
            TypeNode::NonPrimitive => Ok(Type::KeywordType(TsKeywordTypeKind::Object)),
            TypeNode::BooleanLiteral(literal) => match literal {
                Some(text) => boolean_literal(text.as_str()),
                None => Err(AnalysisError::MissingNode),
            },
            TypeNode::NumberLiteral { minus, literal } => match literal {
                Some(text) => number_literal(*minus, text.as_str()),
                None => Err(AnalysisError::MissingNode),
            },
            TypeNode::StringLiteral(literal) => match literal {
                Some(text) => Ok(Type::Literal(TsLiteralTypeKind::String(text.clone()))),
                None => Err(AnalysisError::MissingNode),
            },
            TypeNode::NullLiteral => Ok(Type::KeywordType(TsKeywordTypeKind::Null)),
            TypeNode::Reference(reference) => self.analyze_ts_type_ref(reference),
            TypeNode::Union(members) => match self.analyze_members(members) {
                Ok(types) => Ok(Type::Union(types)),
                Err(e) => Err(e),
            },
            TypeNode::Intersection(members) => match self.analyze_members(members) {
                Ok(types) => Ok(Type::Intersection(types)),
                Err(e) => Err(e),
            },
            TypeNode::Parenthesized(inner) => self.analyze_any_ts_types(&**inner),
            TypeNode::Function(function) => self.analyze_ts_function_type(function),
            TypeNode::Other => Err(AnalysisError::Unsupported),
            TypeNode::Missing => Err(AnalysisError::MissingNode),
        }
    }

    fn analyze_members(&self, members: &Vec<TypeNode>) -> (types: Result<Vec<Type>, AnalysisError>)
        ensures
            types_outcome(types) == lower_members(members@),
        decreases members, 0int,
    {
        let mut types: Vec<Type> = Vec::new();
        let mut i: usize = 0;
        proof {
            lemma_take_none(members@);
            assert(type_views(types@) =~= Seq::<TypeView>::empty());
        }
        while i < members.len()
            invariant
                0 <= i <= members.len(),
                lower_members(members@.take(i as int)) == Ok::<Seq<TypeView>, AnalysisError>(
                    type_views(types@),
                ),
            decreases members.len() - i,
        {
            proof {
                lemma_take_one_more(members@, i as int);
            }
            match &members[i] {
                TypeNode::Missing => {},
                member => {
                    match self.analyze_any_ts_types(member) {
                        Ok(t) => {
                            proof {
                                assert(type_views(types@.push(t)) =~= type_views(types@).push(t@));
                            }
                            types.push(t);
                        },
                        Err(e) => {
                            proof {
                                lemma_member_failure_stays(members@, i as int + 1);
                            }
                            return Err(e);
                        },
                    }
                },
            }
            i = i + 1;
        }
        proof {
            lemma_take_all(members@);
        }
        Ok(types)
    }

    /// A named reference with its type arguments, unresolved.
    pub fn analyze_ts_type_ref(&self, node: &ReferenceType) -> (ty: Result<Type, AnalysisError>)
        ensures
            type_outcome(ty) == lower_reference(*node),
        decreases node, 0int,
    {
        match &node.name {
            TypeName::Identifier(Some(name)) => {
                let arguments = &node.type_arguments;
                let mut types: Vec<Type> = Vec::new();
                let mut i: usize = 0;
                proof {
                    lemma_take_none(arguments@);
                    assert(type_views(types@) =~= Seq::<TypeView>::empty());
                }
                while i < arguments.len()
                    invariant
                        0 <= i <= arguments.len(),
                        arguments == &node.type_arguments,
                        lower_arguments(arguments@.take(i as int)) == type_views(types@),
                    decreases arguments.len() - i,
                {
                    proof {
                        lemma_take_one_more(arguments@, i as int);
                    }
                    match self.analyze_any_ts_types(&arguments[i]) {
                        Ok(t) => {
                            proof {
                                assert(type_views(types@.push(t)) =~= type_views(types@).push(t@));
                            }
                            types.push(t);
                        },
                        Err(_) => {},
                    }
                    i = i + 1;
                }
                proof {
                    lemma_take_all(arguments@);
                }
                Ok(Type::TypeRef(TsTypeRef { name: name.clone(), type_params: types }))
            },
            TypeName::Identifier(None) => Err(AnalysisError::MissingNode),
            TypeName::Qualified => Err(AnalysisError::Unsupported),
            TypeName::Missing => Err(AnalysisError::MissingNode),
        }
    }
}

impl TypeAnalyzer {
    /// A type parameter with the types of its `extends` and `=` clauses.
    pub fn analyze_type_param(&self, param: &TypeParameter) -> (lowered: Result<
        TypeParam,
        AnalysisError,
    >)
        ensures
            type_param_outcome(lowered) == lower_type_parameter(*param),
        decreases param, 0int,
    {
        match &param.name {
            None => Err(AnalysisError::MissingNode),
            Some(name) => {
                let constraint = match self.analyze_clause(&param.constraint) {
                    Ok(c) => c,
                    Err(e) => {
                        return Err(e);
                    },
                };
                let default = match self.analyze_clause(&param.default) {
                    Ok(d) => d,
                    Err(e) => {
                        return Err(e);
                    },
                };
                Ok(TypeParam { name: name.clone(), constraint, default })
            },
        }
    }

    fn analyze_clause(&self, clause: &Option<TypeNode>) -> (lowered: Result<
        Option<Type>,
        AnalysisError,
    >)
        ensures
            match lowered {
                Ok(t) => lower_clause(*clause) == Ok::<Option<TypeView>, AnalysisError>(
                    optional_type_view(t),
                ),
                Err(e) => lower_clause(*clause) == Err::<Option<TypeView>, AnalysisError>(e),
            },
        decreases clause, 0int,
    {
        match clause {
            None => Ok(None),
            Some(TypeNode::Missing) => Ok(None),
            Some(node) => match self.analyze_any_ts_types(node) {
                Ok(t) => Ok(Some(t)),
                Err(e) => Err(e),
            },
        }
    }

    /// The type parameters of a signature; the first one without a value
    /// fails the whole.
    pub fn analyze_type_parameters(&self, parameters: &Vec<Option<TypeParameter>>) -> (lowered:
        Result<Vec<TypeParam>, AnalysisError>)
        ensures
            type_params_outcome(lowered) == lower_type_parameters(parameters@),
        decreases parameters, 0int,
    {
        let mut lowered: Vec<TypeParam> = Vec::new();
        let mut i: usize = 0;
        proof {
            lemma_take_none(parameters@);
            assert(type_param_views(lowered@) =~= Seq::<TypeParamView>::empty());
        }
        while i < parameters.len()
            invariant
                0 <= i <= parameters.len(),
                lower_type_parameters(parameters@.take(i as int)) == Ok::<
                    Seq<TypeParamView>,
                    AnalysisError,
                >(type_param_views(lowered@)),
            decreases parameters.len() - i,
        {
            proof {
                lemma_take_one_more(parameters@, i as int);
            }
            match &parameters[i] {
                None => {},
                Some(parameter) => {
                    match self.analyze_type_param(parameter) {
                        Ok(p) => {
                            proof {
                                assert(type_param_views(lowered@.push(p)) =~= type_param_views(
                                    lowered@,
                                ).push(p@));
                            }
                            lowered.push(p);
                        },
                        Err(e) => {
                            proof {
                                lemma_type_parameter_failure_stays(parameters@, i as int + 1);
                            }
                            return Err(e);
                        },
                    }
                },
            }
            i = i + 1;
        }
        proof {
            lemma_take_all(parameters@);
        }
        Ok(lowered)
    }

    /// The type parameters of an interface; one without a value is passed over.
    pub fn analyze_type_parameters_leniently(
        &self,
        parameters: &Vec<Option<TypeParameter>>,
    ) -> (lowered: Vec<TypeParam>)
        ensures
            type_param_views(lowered@) == lower_type_parameters_leniently(parameters@),
    {
        let mut lowered: Vec<TypeParam> = Vec::new();
        let mut i: usize = 0;
        proof {
            lemma_take_none(parameters@);
            assert(type_param_views(lowered@) =~= Seq::<TypeParamView>::empty());
        }
        while i < parameters.len()
            invariant
                0 <= i <= parameters.len(),
                lower_type_parameters_leniently(parameters@.take(i as int)) == type_param_views(
                    lowered@,
                ),
            decreases parameters.len() - i,
        {
            proof {
                lemma_take_one_more(parameters@, i as int);
            }
            match &parameters[i] {
                None => {},
                Some(parameter) => {
                    match self.analyze_type_param(parameter) {
                        Ok(p) => {
                            proof {
                                assert(type_param_views(lowered@.push(p)) =~= type_param_views(
                                    lowered@,
                                ).push(p@));
                            }
                            lowered.push(p);
                        },
                        Err(_) => {},
                    }
                },
            }
            i = i + 1;
        }
        proof {
            lemma_take_all(parameters@);
        }
        lowered
    }

    /// One item of a parameter list.
    pub fn analyze_parameter(&self, item: &Parameter) -> (lowered: Result<
        Option<FunctionParam>,
        AnalysisError,
    >)
        ensures
            match lowered {
                Ok(Some(p)) => lower_parameter(*item) == Ok::<Option<ParamView>, AnalysisError>(
                    Some(p@),
                ),
                Ok(None) => lower_parameter(*item) == Ok::<Option<ParamView>, AnalysisError>(None),
                Err(e) => lower_parameter(*item) == Err::<Option<ParamView>, AnalysisError>(e),
            },
        decreases item, 0int,
    {
        match item {
            Parameter::Missing => Ok(None),
            Parameter::Formal(parameter) => match &parameter.binding {
                None => Err(AnalysisError::MissingNode),
                Some(name) => {
                    let param_type = match &parameter.annotation {
                        Some(node) => self.analyze_type_annotation(node),
                        None => Type::Unknown,
                    };
                    Ok(
                        Some(
                            FunctionParam {
                                name: name.clone(),
                                param_type,
                                is_optional: parameter.optional,
                            },
                        ),
                    )
                },
            },
            Parameter::Rest => Err(AnalysisError::Unsupported),
            Parameter::This => Err(AnalysisError::Unsupported),
            Parameter::Other => Err(AnalysisError::Unsupported),
        }
    }

    /// The parameters of a list; a rest parameter, a `this` parameter or one
    /// without a binding fails the whole.
    pub fn analyze_js_parameters(&self, params: &Parameters) -> (lowered: Result<
        Vec<FunctionParam>,
        AnalysisError,
    >)
        ensures
            params_outcome(lowered) == lower_parameter_items(params.items@),
        decreases params, 0int,
    {
        let items = &params.items;
        let mut lowered: Vec<FunctionParam> = Vec::new();
        let mut i: usize = 0;
        proof {
            lemma_take_none(items@);
            assert(param_views(lowered@) =~= Seq::<ParamView>::empty());
        }
        while i < items.len()
            invariant
                0 <= i <= items.len(),
                items == &params.items,
                lower_parameter_items(items@.take(i as int)) == Ok::<Seq<ParamView>, AnalysisError>(
                    param_views(lowered@),
                ),
            decreases items.len() - i,
        {
            proof {
                lemma_take_one_more(items@, i as int);
            }
            match self.analyze_parameter(&items[i]) {
                Ok(None) => {},
                Ok(Some(p)) => {
                    proof {
                        assert(param_views(lowered@.push(p)) =~= param_views(lowered@).push(p@));
                    }
                    lowered.push(p);
                },
                Err(e) => {
                    proof {
                        lemma_parameter_failure_stays(items@, i as int + 1);
                    }
                    return Err(e);
                },
            }
            i = i + 1;
        }
        proof {
            lemma_take_all(items@);
        }
        Ok(lowered)
    }

    /// The parameters of a signature: none where the list itself is missing.
    pub fn analyze_optional_parameters(&self, parameters: &Option<Parameters>) -> (lowered: Result<
        Vec<FunctionParam>,
        AnalysisError,
    >)
        ensures
            params_outcome(lowered) == lower_parameters(*parameters),
        decreases parameters, 0int,
    {
        match parameters {
            Some(list) => self.analyze_js_parameters(list),
            None => {
                let none: Vec<FunctionParam> = Vec::new();
                proof {
                    assert(param_views(none@) =~= Seq::<ParamView>::empty());
                }
                Ok(none)
            },
        }
    }

    /// The declared result of a signature.
    pub fn analyze_return_type(&self, result: &ReturnType) -> (ty: Result<Type, AnalysisError>)
        ensures
            type_outcome(ty) == lower_return_type(*result),
        decreases result, 0int,
    {
        match result {
            ReturnType::Type(node) => self.analyze_any_ts_types(&**node),
            ReturnType::Other => Ok(Type::Unknown),
            ReturnType::Missing => Err(AnalysisError::MissingNode),
        }
    }

    /// The result of a signature with an optional annotation.
    pub fn analyze_return_annotation(&self, annotation: &Option<ReturnType>) -> (ty: Result<
        Type,
        AnalysisError,
    >)
        ensures
            type_outcome(ty) == lower_return_annotation(*annotation),
        decreases annotation, 0int,
    {
        match annotation {
            Some(result) => self.analyze_return_type(result),
            None => Ok(Type::Unknown),
        }
    }

    /// `(x: T) => R` as a function term that is not async.
    pub fn analyze_ts_function_type(&self, node: &FunctionType) -> (ty: Result<
        Type,
        AnalysisError,
    >)
        ensures
            type_outcome(ty) == lower_function_type(*node),
        decreases node, 0int,
    {
        let type_params = self.analyze_type_parameters(&node.type_parameters);
        let params = self.analyze_optional_parameters(&node.parameters);
        let return_type = match &node.return_type {
            ReturnType::Missing => Ok(Type::Unknown),
            result => self.analyze_return_type(result),
        };
        function_type(build_signature(type_params, params, return_type, false))
    }

    /// `declare function f<T>(x: A): R;` as a function term that is not async.
    pub fn analyze_ts_declare_function_declaration(
        &self,
        node: &DeclareFunctionDeclaration,
    ) -> (ty: Result<Type, AnalysisError>)
        ensures
            type_outcome(ty) == lower_declare_function(*node),
    {
        let type_params = self.analyze_type_parameters(&node.type_parameters);
        let params = self.analyze_optional_parameters(&node.parameters);
        let return_type = self.analyze_return_annotation(&node.return_type);
        function_type(build_signature(type_params, params, return_type, false))
    }

    /// An interface member as a property: a property signature with its
    /// flags, a method signature as a function that is never readonly.
    pub fn analyze_any_ts_type_member(&self, node: &TypeMember) -> (property: Result<
        TsInterfaceProperty,
        AnalysisError,
    >)
        ensures
            property_outcome(property) == lower_member(*node),
    {
        match node {
            TypeMember::Property(property) => {
                let name = match member_name(&property.name) {
                    Ok(name) => name,
                    Err(e) => {
                        return Err(e);
                    },
                };
                let type_info = match &property.annotation {
                    Some(node) => self.analyze_type_annotation(node),
                    None => Type::Unknown,
                };
                Ok(
                    TsInterfaceProperty {
                        name,
                        type_info,
                        is_optional: property.optional,
                        is_readonly: property.readonly,
                    },
                )
            },
            TypeMember::Method(method) => {
                let name = match member_name(&method.name) {
                    Ok(name) => name,
                    Err(e) => {
                        return Err(e);
                    },
                };
                let type_params = self.analyze_type_parameters(&method.type_parameters);
                let params = self.analyze_optional_parameters(&method.parameters);
                let return_type = self.analyze_return_annotation(&method.return_type);
                match build_signature(type_params, params, return_type, false) {
                    Ok(signature) => Ok(
                        TsInterfaceProperty {
                            name,
                            type_info: Type::Function(signature),
                            is_optional: method.optional,
                            is_readonly: false,
                        },
                    ),
                    Err(e) => Err(e),
                }
            },
            TypeMember::Other => Err(AnalysisError::Unsupported),
        }
    }

    /// An interface declaration as an interface term. Type parameters and
    /// members without a value are passed over; nothing is extended.
    pub fn analyze_ts_interface_declaration(&self, node: &InterfaceDeclaration) -> (ty: Result<
        Type,
        AnalysisError,
    >)
        ensures
            type_outcome(ty) == lower_interface(*node),
    {
        let name = match &node.id {
            Some(name) => name.clone(),
            None => {
                return Err(AnalysisError::MissingNode);
            },
        };
        let type_params = self.analyze_type_parameters_leniently(&node.type_parameters);
        let members = &node.members;
        let mut properties: Vec<TsInterfaceProperty> = Vec::new();
        let mut i: usize = 0;
        proof {
            lemma_take_none(members@);
            assert(property_views(properties@) =~= Seq::<PropertyView>::empty());
        }
        while i < members.len()
            invariant
                0 <= i <= members.len(),
                members == &node.members,
                lower_members_leniently(members@.take(i as int)) == property_views(properties@),
            decreases members.len() - i,
        {
            proof {
                lemma_take_one_more(members@, i as int);
            }
            match self.analyze_any_ts_type_member(&members[i]) {
                Ok(p) => {
                    proof {
                        assert(property_views(properties@.push(p)) =~= property_views(
                            properties@,
                        ).push(p@));
                    }
                    properties.push(p);
                },
                Err(_) => {},
            }
            i = i + 1;
        }
        let extends: Vec<Type> = Vec::new();
        proof {
            lemma_take_all(members@);
            assert(type_views(extends@) =~= Seq::<TypeView>::empty());
        }
        let interface = TsInterface { name, extends, properties, type_params };
        proof {
            assert(interface@.name == node.id->0@);
            assert(interface@.extends == Seq::<TypeView>::empty());
            assert(interface@.type_params == lower_type_parameters_leniently(node.type_parameters@));
            assert(interface@.properties == lower_members_leniently(node.members@));
        }
        Ok(Type::Interface(interface))
    }
}

/// The function term made of the parts of a signature; the first part
/// without a value fails the whole.
pub fn build_signature(
    type_params: Result<Vec<TypeParam>, AnalysisError>,
    params: Result<Vec<FunctionParam>, AnalysisError>,
    return_type: Result<Type, AnalysisError>,
    is_async: bool,
) -> (signature: Result<TsFunctionSignature, AnalysisError>)
    ensures
        signature_outcome(signature) == signature_of(
            type_params_outcome(type_params),
            params_outcome(params),
            type_outcome(return_type),
            is_async,
        ),
{
    match type_params {
        Err(e) => Err(e),
        Ok(type_params) => match params {
            Err(e) => Err(e),
            Ok(params) => match return_type {
                Err(e) => Err(e),
                Ok(return_type) => Ok(
                    TsFunctionSignature {
                        type_params,
                        this_param: None,
                        params,
                        return_type: Box::new(return_type),
                        is_async,
                    },
                ),
            },
        },
    }
}

/// A function term as a type.
pub fn function_type(signature: Result<TsFunctionSignature, AnalysisError>) -> (ty: Result<
    Type,
    AnalysisError,
>)
    ensures
        type_outcome(ty) == function_type_of(signature_outcome(signature)),
{
    match signature {
        Ok(f) => Ok(Type::Function(f)),
        Err(e) => Err(e),
    }
}

fn member_name(name: &MemberName) -> (text: Result<String, AnalysisError>)
    ensures
        match text {
            Ok(t) => lower_member_name(*name) == Ok::<Seq<char>, AnalysisError>(t@),
            Err(e) => lower_member_name(*name) == Err::<Seq<char>, AnalysisError>(e),
        },
{
    match name {
        MemberName::Literal(Some(text)) => Ok(text.clone()),
        MemberName::Literal(None) => Err(AnalysisError::MissingNode),
        MemberName::Computed => Err(AnalysisError::Unsupported),
        MemberName::Missing => Err(AnalysisError::MissingNode),
    }
}

fn boolean_literal(text: &str) -> (ty: Result<Type, AnalysisError>)
    ensures
        type_outcome(ty) == lower_boolean(text@),
{
    if same_text(text, "true") {
        Ok(Type::Literal(TsLiteralTypeKind::Boolean(BoolLiteral::True)))
    } else if same_text(text, "false") {
        Ok(Type::Literal(TsLiteralTypeKind::Boolean(BoolLiteral::False)))
    } else {
        Err(AnalysisError::Unsupported)
    }
}

fn number_literal(minus: bool, text: &str) -> (ty: Result<Type, AnalysisError>)
    ensures
        type_outcome(ty) == lower_number(minus, text@),
{
    match parse_decimal(text) {
        Some(magnitude) => match literal_number(minus, magnitude) {
            Some(value) => Ok(Type::Literal(TsLiteralTypeKind::Number(value))),
            None => Err(AnalysisError::Unsupported),
        },
        None => Err(AnalysisError::Unsupported),
    }
}

/// The way each keyword type is written.
pub open spec fn keyword_node(keyword: TsKeywordTypeKind) -> TypeNode {
    match keyword {
        TsKeywordTypeKind::BigInt => TypeNode::Bigint,
        TsKeywordTypeKind::Boolean => TypeNode::Boolean,
        TsKeywordTypeKind::Null => TypeNode::NullLiteral,
        TsKeywordTypeKind::Number => TypeNode::Number,
        TsKeywordTypeKind::String => TypeNode::String,
        TsKeywordTypeKind::Symbol => TypeNode::Symbol,
        TsKeywordTypeKind::Undefined => TypeNode::Undefined,
        TsKeywordTypeKind::Any => TypeNode::Any,
        TsKeywordTypeKind::Unknown => TypeNode::Unknown,
        TsKeywordTypeKind::Never => TypeNode::Never,
        TsKeywordTypeKind::Void => TypeNode::Void,
        TsKeywordTypeKind::Object => TypeNode::NonPrimitive,
    }
}

/// Every keyword type lowers to the keyword term of its own kind, as a
/// type and as an annotation.
pub proof fn lemma_keyword_lowers_to_itself(keyword: TsKeywordTypeKind)
    ensures
        lower_type(keyword_node(keyword)) == Ok::<TypeView, AnalysisError>(
            TypeView::KeywordType(keyword),
        ),
        lower_annotation(keyword_node(keyword)) == TypeView::KeywordType(keyword),
{
}

/// The members of a union or an intersection come out in written order:
/// where no member is missing and the list has a value, it holds one type
/// for each member, at the member's place.
pub proof fn lemma_members_keep_their_order(members: Seq<TypeNode>)
    requires
        forall|i: int| 0 <= i < members.len() ==> !(#[trigger] members[i] is Missing),
        lower_members(members) is Ok,
    ensures
        lower_members(members)->Ok_0.len() == members.len(),
        forall|i: int|
            0 <= i < members.len() ==> lower_type(#[trigger] members[i]) == Ok::<
                TypeView,
                AnalysisError,
            >(lower_members(members)->Ok_0[i]),
    decreases members.len(),
{
    if members.len() > 0 {
        let earlier = members.drop_last();
        assert forall|i: int| 0 <= i < earlier.len() implies !(#[trigger] earlier[i] is Missing) by {
            assert(earlier[i] == members[i]);
        }
        lemma_members_keep_their_order(earlier);
        assert forall|i: int| 0 <= i < members.len() implies lower_type(#[trigger] members[i])
            == Ok::<TypeView, AnalysisError>(lower_members(members)->Ok_0[i]) by {
            if i < earlier.len() {
                assert(earlier[i] == members[i]);
            }
        }
    }
}

/// A property signature with a literal name becomes a property of that
/// name that carries the signature's flags and the type of its annotation.
pub proof fn lemma_property_carries_its_flags(property: PropertySignature, name: String)
    requires
        property.name == MemberName::Literal(Some(name)),
    ensures
        lower_member(TypeMember::Property(property)) == Ok::<PropertyView, AnalysisError>(
            PropertyView {
                name: name@,
                type_info: match property.annotation {
                    Some(node) => lower_annotation(node),
                    None => TypeView::Unknown,
                },
                is_optional: property.optional,
                is_readonly: property.readonly,
            },
        ),
{
}

/// A function has one parameter for each declared one, in written order:
/// where no item of the list is missing and the list has a value, it holds
/// the value of each item at the item's place.
pub proof fn lemma_parameters_keep_their_number(items: Seq<Parameter>)
    requires
        forall|i: int| 0 <= i < items.len() ==> !(#[trigger] items[i] is Missing),
        lower_parameter_items(items) is Ok,
    ensures
        lower_parameter_items(items)->Ok_0.len() == items.len(),
        forall|i: int|
            0 <= i < items.len() ==> lower_parameter(#[trigger] items[i]) == Ok::<
                Option<ParamView>,
                AnalysisError,
            >(Some(lower_parameter_items(items)->Ok_0[i])),
    decreases items.len(),
{
    if items.len() > 0 {
        let earlier = items.drop_last();
        assert forall|i: int| 0 <= i < earlier.len() implies !(#[trigger] earlier[i] is Missing) by {
            assert(earlier[i] == items[i]);
        }
        lemma_parameters_keep_their_number(earlier);
        assert forall|i: int| 0 <= i < items.len() implies lower_parameter(#[trigger] items[i])
            == Ok::<Option<ParamView>, AnalysisError>(
            Some(lower_parameter_items(items)->Ok_0[i]),
        ) by {
            if i < earlier.len() {
                assert(earlier[i] == items[i]);
            }
        }
    }
}

/// An interface has one property for each member that has a value, in
/// written order: where every member has one, the properties are the
/// values of the members, each at its member's place.
pub proof fn lemma_members_become_properties(members: Seq<TypeMember>)
    requires
        forall|i: int| 0 <= i < members.len() ==> lower_member(#[trigger] members[i]) is Ok,
    ensures
        lower_members_leniently(members).len() == members.len(),
        forall|i: int|
            0 <= i < members.len() ==> lower_member(#[trigger] members[i]) == Ok::<
                PropertyView,
                AnalysisError,
            >(lower_members_leniently(members)[i]),
    decreases members.len(),
{
    if members.len() > 0 {
        let earlier = members.drop_last();
        assert forall|i: int| 0 <= i < earlier.len() implies lower_member(
            #[trigger] earlier[i],
        ) is Ok by {
            assert(earlier[i] == members[i]);
        }
        lemma_members_become_properties(earlier);
        assert(lower_member(members.last()) is Ok);
        assert forall|i: int| 0 <= i < members.len() implies lower_member(#[trigger] members[i])
            == Ok::<PropertyView, AnalysisError>(lower_members_leniently(members)[i]) by {
            if i < earlier.len() {
                assert(earlier[i] == members[i]);
            }
        }
    }
}

/// An interface has as many type parameters as are declared with a value,
/// in written order: where every declared one is there and has a value,
/// the list holds the value of each at its place.
pub proof fn lemma_interface_keeps_its_arity(parameters: Seq<Option<TypeParameter>>)
    requires
        forall|i: int|
            0 <= i < parameters.len() ==> (#[trigger] parameters[i]) is Some
                && lower_type_parameter(parameters[i]->Some_0) is Ok,
    ensures
        lower_type_parameters_leniently(parameters).len() == parameters.len(),
        forall|i: int|
            0 <= i < parameters.len() ==> lower_type_parameter(
                (#[trigger] parameters[i])->Some_0,
            ) == Ok::<TypeParamView, AnalysisError>(lower_type_parameters_leniently(parameters)[i]),
    decreases parameters.len(),
{
    if parameters.len() > 0 {
        let earlier = parameters.drop_last();
        assert forall|i: int| 0 <= i < earlier.len() implies (#[trigger] earlier[i]) is Some
            && lower_type_parameter(earlier[i]->Some_0) is Ok by {
            assert(earlier[i] == parameters[i]);
        }
        lemma_interface_keeps_its_arity(earlier);
        assert(parameters.last() == parameters[parameters.len() - 1]);
        assert forall|i: int| 0 <= i < parameters.len() implies lower_type_parameter(
            (#[trigger] parameters[i])->Some_0,
        ) == Ok::<TypeParamView, AnalysisError>(lower_type_parameters_leniently(parameters)[i]) by {
            if i < earlier.len() {
                assert(earlier[i] == parameters[i]);
            }
        }
    }
}

} // verus!
