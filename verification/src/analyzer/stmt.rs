//! The type that a variable declarator binds.

use vstd::prelude::*;
use crate::analyzer::expr::lower_initializer;
use crate::analyzer::ts::{keyword_node, lower_annotation, type_outcome};
use crate::analyzer::{AnalysisError, TypeAnalyzer};
use crate::syntax::{
    BindingPattern, Expression, LiteralExpression, TypeNode, VariableAnnotation,
    VariableDeclarator,
};
use crate::text::without_single_quotes;
use crate::type_info::{LiteralView, TsKeywordTypeKind, Type, TypeView};

verus! {

/// The type of a declared variable: that of its annotation where it has
/// one, else that of its initialiser, else `Unknown`. A definite-assignment
/// annotation (`x!: T`) is not modelled.
pub open spec fn lower_declarator(declarator: VariableDeclarator) -> Result<
    TypeView,
    AnalysisError,
> {
    match declarator.annotation {
        Some(VariableAnnotation::Definite) => Err(AnalysisError::Unsupported),
        Some(VariableAnnotation::Type(node)) => Ok(lower_annotation(node)),
        None => match declarator.initializer {
            Some(expression) => Ok(lower_initializer(expression)),
            None => Ok(TypeView::Unknown),
        },
    }
}

impl TypeAnalyzer {
    /// The type that a declarator gives its variable.
    pub fn analyze_js_variable_declarator(&self, node: &VariableDeclarator) -> (ty: Result<
        Type,
        AnalysisError,
    >)
        ensures
            type_outcome(ty) == lower_declarator(*node),
    {
        match &node.annotation {
            Some(VariableAnnotation::Definite) => Err(AnalysisError::Unsupported),
            Some(VariableAnnotation::Type(annotation)) => Ok(
                self.analyze_type_annotation(annotation),
            ),
            None => match &node.initializer {
                Some(expression) => Ok(self.analyze_expression(expression)),
                None => Ok(Type::Unknown),
            },
        }
    }
}

/// `x: T` as a declarator.
pub open spec fn annotated(id: BindingPattern, node: TypeNode) -> VariableDeclarator {
    VariableDeclarator { id, annotation: Some(VariableAnnotation::Type(node)), initializer: None }
}

/// `x = e` as a declarator.
pub open spec fn initialized(id: BindingPattern, expression: Expression) -> VariableDeclarator {
    VariableDeclarator { id, annotation: None, initializer: Some(expression) }
}

/// A variable declared with a keyword type has the keyword term of that kind.
pub proof fn lemma_keyword_declaration(id: BindingPattern, keyword: TsKeywordTypeKind)
    ensures
        lower_declarator(annotated(id, keyword_node(keyword))) == Ok::<TypeView, AnalysisError>(
            TypeView::KeywordType(keyword),
        ),
{
}

/// A boolean or a number literal gives a variable the same type as an
/// annotation and as an initialiser, and so does `null`.
pub proof fn lemma_literal_declarations_agree(id: BindingPattern, text: Option<String>)
    ensures
        lower_declarator(annotated(id, TypeNode::BooleanLiteral(text))) == lower_declarator(
            initialized(id, Expression::Literal(LiteralExpression::Boolean(text))),
        ),
        lower_declarator(annotated(id, TypeNode::NumberLiteral { minus: false, literal: text }))
            == lower_declarator(
            initialized(id, Expression::Literal(LiteralExpression::Number(text))),
        ),
        lower_declarator(annotated(id, TypeNode::NullLiteral)) == lower_declarator(
            initialized(id, Expression::Literal(LiteralExpression::Null)),
        ),
{
}

/// A string literal keeps its text as an annotation, quotes too; as an
/// initialiser it loses the single quotes around it and nothing else.
pub proof fn lemma_string_declarations_differ_in_quotes(id: BindingPattern, text: String)
    ensures
        lower_declarator(annotated(id, TypeNode::StringLiteral(Some(text)))) == Ok::<
            TypeView,
            AnalysisError,
        >(TypeView::Literal(LiteralView::String(text@))),
        lower_declarator(
            initialized(id, Expression::Literal(LiteralExpression::String(Some(text)))),
        ) == Ok::<TypeView, AnalysisError>(
            TypeView::Literal(LiteralView::String(without_single_quotes(text@))),
        ),
{
}

} // verus!
