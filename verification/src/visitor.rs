//! A walk over the top-level items of a parsed file.

use vstd::prelude::*;
use crate::syntax::{
    DeclarationClause, ExpressionStatement, FunctionDeclaration, InterfaceDeclaration, ModuleItem,
    Root, Statement, VariableDeclarator, VariableStatement,
};

verus! {

/// One method for each kind of node that a walk enters. An implementation
/// says in its own contracts what entering a node does to it.
pub trait Visitor {
    fn visit(&mut self, node: &Root);

    fn visit_module(&mut self, items: &Vec<ModuleItem>);

    fn visit_ts_declaration_module(&mut self, items: &Vec<ModuleItem>);

    fn visit_module_item(&mut self, node: &ModuleItem);

    fn visit_statement(&mut self, node: &Statement);

    fn visit_js_expression_statement(&mut self, node: &ExpressionStatement);

    fn visit_js_function_declaration(&mut self, node: &FunctionDeclaration);

    fn visit_js_variable_statement(&mut self, node: &VariableStatement);

    fn visit_ts_declare_statement(&mut self, node: &DeclarationClause);

    fn visit_js_variable_declaration_clause(&mut self, node: &VariableStatement);

    fn visit_js_variable_declarator(&mut self, node: &VariableDeclarator);

    fn visit_ts_interface_declaration(&mut self, node: &InterfaceDeclaration);
}

} // verus!
