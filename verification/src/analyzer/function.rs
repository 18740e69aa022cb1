//! Lowering of function declarations, function expressions and arrow
//! functions to function terms.

use vstd::prelude::*;
use crate::analyzer::ts::{
    build_signature, function_type, function_type_of, lower_parameter_items,
    lower_parameters, lower_return_annotation, lower_type_parameters, params_outcome,
    signature_of, type_outcome,
};
use crate::analyzer::{AnalysisError, TypeAnalyzer};
use crate::syntax::{ArrowFunction, ArrowParameters, FunctionDeclaration};
use crate::type_info::{
    param_views, type_param_views, FunctionParam, ParamView, Type, TypeParam, TypeParamView,
    TypeView,
};

verus! {

/// `async function f(x: A): R { .. }`: async where the word is written, and
/// without type parameters.
pub open spec fn lower_function_declaration(function: FunctionDeclaration) -> Result<
    TypeView,
    AnalysisError,
> {
    function_type_of(
        signature_of(
            Ok(Seq::empty()),
            lower_parameters(function.parameters),
            lower_return_annotation(function.return_type),
            function.is_async,
        ),
    )
}

/// The parameters of an arrow function. A lone name is one parameter of
/// unknown type that is not optional.
pub open spec fn lower_arrow_parameters(parameters: ArrowParameters) -> Result<
    Seq<ParamView>,
    AnalysisError,
> {
    match parameters {
        ArrowParameters::Binding(Some(name)) => Ok(
            seq![ParamView { name: name@, param_type: TypeView::Unknown, is_optional: false }],
        ),
        ArrowParameters::Binding(None) => Err(AnalysisError::MissingNode),
        ArrowParameters::Parameters(list) => lower_parameter_items(list.items@),
        ArrowParameters::Other => Err(AnalysisError::Unsupported),
        ArrowParameters::Missing => Ok(Seq::empty()),
    }
}

/// `async <T>(x: A): R => ..`
pub open spec fn lower_arrow_function(function: ArrowFunction) -> Result<TypeView, AnalysisError> {
    function_type_of(
        signature_of(
            lower_type_parameters(function.type_parameters@),
            lower_arrow_parameters(function.parameters),
            lower_return_annotation(function.return_type),
            function.is_async,
        ),
    )
}

impl TypeAnalyzer {
    /// A function declaration or expression as a function term.
    pub fn analyze_js_function_declaration(&self, node: &FunctionDeclaration) -> (ty: Result<
        Type,
        AnalysisError,
    >)
        ensures
            type_outcome(ty) == lower_function_declaration(*node),
    {
        let none: Vec<TypeParam> = Vec::new();
        proof {
            assert(type_param_views(none@) =~= Seq::<TypeParamView>::empty());
        }
        let params = self.analyze_optional_parameters(&node.parameters);
        let return_type = self.analyze_return_annotation(&node.return_type);
        function_type(build_signature(Ok(none), params, return_type, node.is_async))
    }

    /// An arrow function as a function term.
    pub fn analyze_js_arrow_function_expression(&self, node: &ArrowFunction) -> (ty: Result<
        Type,
        AnalysisError,
    >)
        ensures
            type_outcome(ty) == lower_arrow_function(*node),
    {
        let type_params = self.analyze_type_parameters(&node.type_parameters);
        let params = self.analyze_arrow_parameters(&node.parameters);
        let return_type = self.analyze_return_annotation(&node.return_type);
        function_type(build_signature(type_params, params, return_type, node.is_async))
    }

    fn analyze_arrow_parameters(&self, parameters: &ArrowParameters) -> (lowered: Result<
        Vec<FunctionParam>,
        AnalysisError,
    >)
        ensures
            params_outcome(lowered) == lower_arrow_parameters(*parameters),
    {
        match parameters {
            ArrowParameters::Binding(Some(name)) => {
                let mut params: Vec<FunctionParam> = Vec::new();
                params.push(
                    FunctionParam {
                        name: name.clone(),
                        param_type: Type::Unknown,
                        is_optional: false,
                    },
                );
                proof {
                    assert(param_views(params@) =~= seq![
                        ParamView {
                            name: name@,
                            param_type: TypeView::Unknown,
                            is_optional: false,
                        },
                    ]);
                }
                Ok(params)
            },
            ArrowParameters::Binding(None) => Err(AnalysisError::MissingNode),
            ArrowParameters::Parameters(list) => self.analyze_js_parameters(list),
            ArrowParameters::Other => Err(AnalysisError::Unsupported),
            ArrowParameters::Missing => {
                let none: Vec<FunctionParam> = Vec::new();
                proof {
                    assert(param_views(none@) =~= Seq::<ParamView>::empty());
                }
                Ok(none)
            },
        }
    }
}

} // verus!
