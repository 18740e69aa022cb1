//! Lowering of initialiser expressions: literals, object literals and
//! functions have a type; any other expression is `Unknown`.

use vstd::prelude::*;
use crate::analyzer::function::{lower_arrow_function, lower_function_declaration};
use crate::analyzer::ts::{lower_boolean, lower_number, type_outcome};
use crate::analyzer::{AnalysisError, TypeAnalyzer};
use crate::sequences::{lemma_take_all, lemma_take_none, lemma_take_one_more};
use crate::syntax::{Expression, LiteralExpression, ObjectMember};
use crate::text::{
    literal_number, parse_decimal, same_text, strip_single_quotes, without_single_quotes,
};
use crate::type_info::{
    object_property_views, BoolLiteral, LiteralView, ObjectLiteral, ObjectPropertyType,
    ObjectPropertyView, TsKeywordTypeKind, TsLiteralTypeKind, Type, TypeView,
};

verus! {

/// The type of a literal. A string literal in single quotes loses them; one
/// in double quotes keeps them.
pub open spec fn lower_literal_expression(literal: LiteralExpression) -> Result<
    TypeView,
    AnalysisError,
> {
    match literal {
        LiteralExpression::Boolean(Some(text)) => lower_boolean(text@),
        LiteralExpression::Boolean(None) => Err(AnalysisError::MissingNode),
        LiteralExpression::Number(Some(text)) => lower_number(false, text@),
        LiteralExpression::Number(None) => Err(AnalysisError::MissingNode),
        LiteralExpression::String(Some(text)) => Ok(
            TypeView::Literal(LiteralView::String(without_single_quotes(text@))),
        ),
        LiteralExpression::String(None) => Err(AnalysisError::MissingNode),
        LiteralExpression::Null => Ok(TypeView::KeywordType(TsKeywordTypeKind::Null)),
        LiteralExpression::Other => Err(AnalysisError::Unsupported),
    }
}

/// The type of an expression, or why it has none.
pub open spec fn lower_expression(expression: Expression) -> Result<TypeView, AnalysisError>
    decreases expression,
{
    match expression {
        Expression::Literal(literal) => lower_literal_expression(literal),
        Expression::Object(members) => match lower_object_members(members@) {
            Ok(properties) => Ok(TypeView::Literal(LiteralView::Object(properties))),
            Err(e) => Err(e),
        },
        Expression::Arrow(function) => lower_arrow_function(function),
        Expression::Function(function) => lower_function_declaration(function),
        Expression::Missing => Err(AnalysisError::MissingNode),
        _ => Ok(TypeView::Unknown),
    }
}

/// One member of an object literal: a property with a name has the type of
/// its value; any other member has no value.
pub open spec fn lower_object_member(member: ObjectMember) -> Result<
    ObjectPropertyView,
    AnalysisError,
>
    decreases member,
{
    match member {
        ObjectMember::Property(property) => match property.name {
            None => Err(AnalysisError::MissingNode),
            Some(name) => match lower_expression(property.value) {
                Ok(t) => Ok(ObjectPropertyView { name: name@, type_info: t }),
                Err(e) => Err(e),
            },
        },
        ObjectMember::Other => Err(AnalysisError::Unsupported),
        ObjectMember::Missing => Err(AnalysisError::MissingNode),
    }
}

/// The properties of an object literal in written order; the first member
/// without a value fails the whole.
pub open spec fn lower_object_members(members: Seq<ObjectMember>) -> Result<
    Seq<ObjectPropertyView>,
    AnalysisError,
>
    decreases members,
{
    if members.len() == 0 {
        Ok(Seq::empty())
    } else {
        match lower_object_members(members.drop_last()) {
            Err(e) => Err(e),
            Ok(properties) => match lower_object_member(members.last()) {
                Ok(p) => Ok(properties.push(p)),
                Err(e) => Err(e),
            },
        }
    }
}

/// The type of an initialiser: `Unknown` where the expression has none.
pub open spec fn lower_initializer(expression: Expression) -> TypeView {
    match lower_expression(expression) {
        Ok(t) => t,
        Err(_) => TypeView::Unknown,
    }
}

/// A failure among the first members is the failure of the whole literal.
pub proof fn lemma_object_member_failure_stays(members: Seq<ObjectMember>, n: int)
    requires
        0 <= n <= members.len(),
        lower_object_members(members.take(n)) is Err,
    ensures
        lower_object_members(members) == lower_object_members(members.take(n)),
    decreases members.len(),
{
    if n == members.len() {
        assert(members.take(n) =~= members);
    } else {
        assert(members.drop_last().take(n) =~= members.take(n));
        lemma_object_member_failure_stays(members.drop_last(), n);
    }
}

impl TypeAnalyzer {
    /// The type of an initialiser: `Unknown` where the expression has none.
    pub fn analyze_expression(&self, node: &Expression) -> (ty: Type)
        ensures
            ty@ == lower_initializer(*node),
    {
        match self.analyze_any_js_expression(node) {
            Ok(ty) => ty,
            Err(_) => Type::Unknown,
        }
    }

    /// The type of an expression, or why it has none.
    pub fn analyze_any_js_expression(&self, node: &Expression) -> (ty: Result<Type, AnalysisError>)
        ensures
            type_outcome(ty) == lower_expression(*node),
        decreases node,
    {
        match node {
            Expression::Literal(literal) => self.analyze_js_literal_expression(literal),
            Expression::Object(members) => self.analyze_js_object_expression(members),
            Expression::Arrow(function) => self.analyze_js_arrow_function_expression(function),
            Expression::Function(function) => self.analyze_js_function_declaration(function),
            Expression::Missing => Err(AnalysisError::MissingNode),
            _ => Ok(Type::Unknown),
        }
    }

    /// The type of a literal.
    pub fn analyze_js_literal_expression(&self, node: &LiteralExpression) -> (ty: Result<
        Type,
        AnalysisError,
    >)
        ensures
            type_outcome(ty) == lower_literal_expression(*node),
    {
        match node {
            LiteralExpression::Boolean(Some(text)) => {
                if same_text(text.as_str(), "true") {
                    Ok(Type::Literal(TsLiteralTypeKind::Boolean(BoolLiteral::True)))
                } else if same_text(text.as_str(), "false") {
                    Ok(Type::Literal(TsLiteralTypeKind::Boolean(BoolLiteral::False)))
                } else {
                    Err(AnalysisError::Unsupported)
                }
            },
            LiteralExpression::Boolean(None) => Err(AnalysisError::MissingNode),
            LiteralExpression::Number(Some(text)) => match parse_decimal(text.as_str()) {
                Some(magnitude) => match literal_number(false, magnitude) {
                    Some(value) => Ok(Type::Literal(TsLiteralTypeKind::Number(value))),
                    None => Err(AnalysisError::Unsupported),
                },
                None => Err(AnalysisError::Unsupported),
            },
            LiteralExpression::Number(None) => Err(AnalysisError::MissingNode),
            LiteralExpression::String(Some(text)) => Ok(
                Type::Literal(TsLiteralTypeKind::String(strip_single_quotes(text.as_str()))),
            ),
            LiteralExpression::String(None) => Err(AnalysisError::MissingNode),
            LiteralExpression::Null => Ok(Type::KeywordType(TsKeywordTypeKind::Null)),
            LiteralExpression::Other => Err(AnalysisError::Unsupported),
        }
    }

    fn analyze_object_member(&self, member: &ObjectMember) -> (lowered: Result<
        ObjectPropertyType,
        AnalysisError,
    >)
        ensures
            match lowered {
                Ok(p) => lower_object_member(*member) == Ok::<ObjectPropertyView, AnalysisError>(p@),
                Err(e) => lower_object_member(*member) == Err::<ObjectPropertyView, AnalysisError>(
                    e,
                ),
            },
        decreases member,
    {
        match member {
            ObjectMember::Property(property) => match &property.name {
                None => Err(AnalysisError::MissingNode),
                Some(name) => match self.analyze_any_js_expression(&property.value) {
                    Ok(t) => Ok(ObjectPropertyType { name: name.clone(), type_info: t }),
                    Err(e) => Err(e),
                },
            },
            ObjectMember::Other => Err(AnalysisError::Unsupported),
            ObjectMember::Missing => Err(AnalysisError::MissingNode),
        }
    }

    /// The type of an object literal: its properties in written order, each
    /// with the type of its value.
    pub fn analyze_js_object_expression(&self, members: &Vec<ObjectMember>) -> (ty: Result<
        Type,
        AnalysisError,
    >)
        ensures
            type_outcome(ty) == lower_expression(Expression::Object(*members)),
        decreases members,
    {
        let mut properties: Vec<ObjectPropertyType> = Vec::new();
        let mut i: usize = 0;
        proof {
            lemma_take_none(members@);
            assert(object_property_views(properties@) =~= Seq::<ObjectPropertyView>::empty());
        }
        while i < members.len()
            invariant
                0 <= i <= members.len(),
                lower_object_members(members@.take(i as int)) == Ok::<
                    Seq<ObjectPropertyView>,
                    AnalysisError,
                >(object_property_views(properties@)),
            decreases members.len() - i,
        {
            proof {
                lemma_take_one_more(members@, i as int);
            }
            let lowered = self.analyze_object_member(&members[i]);
            match lowered {
                Ok(p) => {
                    proof {
                        assert(object_property_views(properties@.push(p))
                            =~= object_property_views(properties@).push(p@));
                    }
                    properties.push(p);
                },
                Err(e) => {
                    proof {
                        lemma_object_member_failure_stays(members@, i as int + 1);
                    }
                    return Err(e);
                },
            }
            i = i + 1;
        }
        proof {
            lemma_take_all(members@);
        }
        Ok(Type::Literal(TsLiteralTypeKind::Object(ObjectLiteral { properties })))
    }
}

} // verus!
