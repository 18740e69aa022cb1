//! The declaration analyser: from the declarations of a file to the symbols
//! of its scope.

use vstd::prelude::*;
use crate::analyzer::function::lower_function_declaration;
use crate::analyzer::stmt::lower_declarator;
use crate::analyzer::ts::{lower_declare_function, lower_interface, type_outcome};
use crate::sequences::{lemma_take_all, lemma_take_none, lemma_take_one_more};
use crate::symbol::{lists_scope, BuiltinTable, Symbol, SymbolTable};
use crate::syntax::{
    BindingPattern, DeclarationClause, ExpressionStatement, FunctionDeclaration,
    InterfaceDeclaration, ModuleItem, Root, Statement, VariableDeclarator, VariableStatement,
};
use crate::type_info::{Type, TypeView};
use crate::visitor::Visitor;

pub mod expr;
pub mod function;
pub mod resolver;
pub mod stmt;
pub mod ts;

verus! {

/// Why a piece of syntax has no type.
#[derive(Debug, Clone, Copy, PartialEq, Eq)]
pub enum AnalysisError {
    /// The tree lacks a child that the grammar requires.
    MissingNode,
    /// The construct is not modelled.
    Unsupported,
}

/// The types that the symbols of a scope bind, by name.
pub open spec fn bindings(entries: Map<Seq<char>, Symbol>) -> Map<Seq<char>, TypeView> {
    entries.map_values(|symbol: Symbol| symbol.ty@)
}

/// Storing a symbol binds its type under the key.
pub proof fn lemma_bindings_insert(entries: Map<Seq<char>, Symbol>, key: Seq<char>, symbol: Symbol)
    ensures
        bindings(entries.insert(key, symbol)) == bindings(entries).insert(key, symbol.ty@),
{
    assert(bindings(entries.insert(key, symbol)) =~= bindings(entries).insert(key, symbol.ty@));
}

/// The scope after a name is bound: a later binding replaces an earlier one.
pub open spec fn bind(
    scope: Map<Seq<char>, TypeView>,
    name: Option<String>,
    ty: Result<TypeView, AnalysisError>,
) -> Map<Seq<char>, TypeView> {
    match (name, ty) {
        (Some(name), Ok(ty)) => scope.insert(name@, ty),
        _ => scope,
    }
}

/// The name that a binding pattern declares: only a plain identifier has one.
pub open spec fn binder(id: BindingPattern) -> Option<String> {
    match id {
        BindingPattern::Identifier(name) => name,
        _ => None,
    }
}

/// The scope after one declarator.
pub open spec fn declare_declarator(
    scope: Map<Seq<char>, TypeView>,
    declarator: VariableDeclarator,
) -> Map<Seq<char>, TypeView> {
    bind(scope, binder(declarator.id), lower_declarator(declarator))
}

/// The scope after the declarators of one statement, in written order; a
/// missing declarator binds nothing.
pub open spec fn declare_declarators(
    scope: Map<Seq<char>, TypeView>,
    declarators: Seq<Option<VariableDeclarator>>,
) -> Map<Seq<char>, TypeView>
    decreases declarators.len(),
{
    if declarators.len() == 0 {
        scope
    } else {
        let before = declare_declarators(scope, declarators.drop_last());
        match declarators.last() {
            Some(declarator) => declare_declarator(before, declarator),
            None => before,
        }
    }
}

/// The scope after a variable statement.
pub open spec fn declare_variables(
    scope: Map<Seq<char>, TypeView>,
    statement: VariableStatement,
) -> Map<Seq<char>, TypeView> {
    match statement.declarators {
        Some(declarators) => declare_declarators(scope, declarators@),
        None => scope,
    }
}

/// The scope after what follows the word `declare`.
pub open spec fn declare_clause(
    scope: Map<Seq<char>, TypeView>,
    clause: DeclarationClause,
) -> Map<Seq<char>, TypeView> {
    match clause {
        DeclarationClause::Variable(statement) => declare_variables(scope, statement),
        DeclarationClause::Function(function) => bind(
            scope,
            function.id,
            lower_declare_function(function),
        ),
        _ => scope,
    }
}

/// The scope after one statement: a declaration binds its name, any other
/// statement leaves the scope as it is.
pub open spec fn declare_statement(
    scope: Map<Seq<char>, TypeView>,
    statement: Statement,
) -> Map<Seq<char>, TypeView> {
    match statement {
        Statement::Declare(clause) => declare_clause(scope, clause),
        Statement::Interface(declaration) => bind(
            scope,
            declaration.id,
            lower_interface(declaration),
        ),
        Statement::Variable(statement) => declare_variables(scope, statement),
        Statement::Function(function) => bind(
            scope,
            function.id,
            lower_function_declaration(function),
        ),
        _ => scope,
    }
}

/// The scope after one item of a module.
pub open spec fn declare_item(
    scope: Map<Seq<char>, TypeView>,
    item: ModuleItem,
) -> Map<Seq<char>, TypeView> {
    match item {
        ModuleItem::Statement(statement) => declare_statement(scope, statement),
        ModuleItem::Other => scope,
    }
}

/// The scope after the items of a module, in source order.
pub open spec fn declare_items(
    scope: Map<Seq<char>, TypeView>,
    items: Seq<ModuleItem>,
) -> Map<Seq<char>, TypeView>
    decreases items.len(),
{
    if items.len() == 0 {
        scope
    } else {
        declare_item(declare_items(scope, items.drop_last()), items.last())
    }
}

/// The scope after a parsed file.
pub open spec fn declare_root(
    scope: Map<Seq<char>, TypeView>,
    root: Root,
) -> Map<Seq<char>, TypeView> {
    match root {
        Root::Module(items) => declare_items(scope, items@),
        Root::DeclarationModule(items) => declare_items(scope, items@),
        Root::Other => scope,
    }
}

/// The scope of the bootstrap file and the ambient scope after the ambient
/// declaration files, in the order given: each file declares into the
/// scope, and after each file every symbol of the scope is ambient too.
pub open spec fn bootstrap(
    scope: Map<Seq<char>, TypeView>,
    ambient: Map<Seq<char>, TypeView>,
    builtins: Seq<Root>,
) -> (Map<Seq<char>, TypeView>, Map<Seq<char>, TypeView>)
    decreases builtins.len(),
{
    if builtins.len() == 0 {
        (scope, ambient)
    } else {
        let before = bootstrap(scope, ambient, builtins.drop_last());
        let declared = declare_root(before.0, builtins.last());
        (declared, before.1.union_prefer_right(declared))
    }
}

/// A scope without bindings.
pub open spec fn no_types() -> Map<Seq<char>, TypeView> {
    Map::empty()
}

/// The scopes of the analysed files, the ambient scope, and the path of
/// the file that is being analysed.
#[derive(Debug)]
pub struct TypeAnalyzer {
    current_path: String,
    symbol_table: SymbolTable,
    global_symbol_table: BuiltinTable,
}

impl TypeAnalyzer {
    /// The path of the file whose scope declarations go to.
    pub closed spec fn path(&self) -> Seq<char> {
        self.current_path@
    }

    /// The types bound in the scope of a file, by name.
    pub closed spec fn scope_types(&self, path: Seq<char>) -> Map<Seq<char>, TypeView> {
        bindings(self.symbol_table.scope(path))
    }

    /// The types bound in the ambient scope, by name.
    pub closed spec fn ambient_types(&self) -> Map<Seq<char>, TypeView> {
        bindings(self.global_symbol_table.entries())
    }

    /// Whether nothing but the scope of the current file differs from `before`.
    pub open spec fn differs_in_scope_only(&self, before: &TypeAnalyzer) -> bool {
        &&& self.path() == before.path()
        &&& self.ambient_types() == before.ambient_types()
        &&& forall|path: Seq<char>|
            path != self.path() ==> self.scope_types(path) == before.scope_types(path)
    }

    /// An analyser whose ambient scope holds what the ambient declaration
    /// files declare. Its current path is empty, and the declarations of
    /// the ambient files stay in the scope of that path.
    pub fn new(builtins: &Vec<Root>) -> (analyzer: Self)
        ensures
            analyzer.path() == Seq::<char>::empty(),
            analyzer.scope_types(analyzer.path()) == bootstrap(no_types(), no_types(), builtins@).0,
            analyzer.ambient_types() == bootstrap(no_types(), no_types(), builtins@).1,
            forall|path: Seq<char>|
                path != analyzer.path() ==> analyzer.scope_types(path) == no_types(),
    {
        let mut analyzer = Self {
            current_path: String::new(),
            symbol_table: SymbolTable::new(),
            global_symbol_table: BuiltinTable::new(),
        };
        proof {
            assert(analyzer.ambient_types() =~= no_types());
            assert forall|path: Seq<char>| analyzer.scope_types(path) == no_types() by {
                assert(analyzer.scope_types(path) =~= no_types());
            }
        }
        analyzer.init_builtin_types(builtins);
        analyzer
    }

    /// Makes `path` the file whose scope declarations go to.
    pub fn set_current_path(&mut self, path: String)
        ensures
            final(self).path() == path@,
            final(self).ambient_types() == old(self).ambient_types(),
            forall|p: Seq<char>| final(self).scope_types(p) == old(self).scope_types(p),
    {
        self.current_path = path;
    }

    /// Declares each ambient declaration file into the scope of the current
    /// file and makes every symbol of that scope ambient.
    pub fn init_builtin_types(&mut self, builtins: &Vec<Root>)
        ensures
            final(self).path() == old(self).path(),
            final(self).scope_types(old(self).path()) == bootstrap(
                old(self).scope_types(old(self).path()),
                old(self).ambient_types(),
                builtins@,
            ).0,
            final(self).ambient_types() == bootstrap(
                old(self).scope_types(old(self).path()),
                old(self).ambient_types(),
                builtins@,
            ).1,
            forall|path: Seq<char>|
                path != old(self).path() ==> final(self).scope_types(path) == old(
                    self,
                ).scope_types(path),
    {
        let ghost before = *self;
        let mut i: usize = 0;
        proof {
            lemma_take_none(builtins@);
        }
        while i < builtins.len()
            invariant
                0 <= i <= builtins.len(),
                self.path() == before.path(),
                forall|path: Seq<char>|
                    path != before.path() ==> self.scope_types(path) == before.scope_types(path),
                self.scope_types(before.path()) == bootstrap(
                    before.scope_types(before.path()),
                    before.ambient_types(),
                    builtins@.take(i as int),
                ).0,
                self.ambient_types() == bootstrap(
                    before.scope_types(before.path()),
                    before.ambient_types(),
                    builtins@.take(i as int),
                ).1,
            decreases builtins.len() - i,
        {
            proof {
                lemma_take_one_more(builtins@, i as int);
            }
            self.visit(&builtins[i]);
            self.promote_scope();
            i = i + 1;
        }
        proof {
            lemma_take_all(builtins@);
        }
    }

    /// Makes every symbol of the scope of the current file ambient.
    fn promote_scope(&mut self)
        ensures
            final(self).path() == old(self).path(),
            forall|path: Seq<char>| final(self).scope_types(path) == old(self).scope_types(path),
            final(self).ambient_types() == old(self).ambient_types().union_prefer_right(
                old(self).scope_types(old(self).path()),
            ),
    {
        let ghost start = *self;
        let ghost before = self.global_symbol_table.entries();
        let ghost scope = self.symbol_table.scope(self.current_path@);
        let symbols = self.symbol_table.symbols_in(self.current_path.as_str());
        let mut i: usize = 0;
        while i < symbols.len()
            invariant
                0 <= i <= symbols.len(),
                self.current_path == start.current_path,
                self.symbol_table == start.symbol_table,
                lists_scope(symbols@, scope),
                forall|j: int|
                    0 <= j < i ==> bindings(self.global_symbol_table.entries()).contains_key(
                        (#[trigger] symbols@[j]).name@,
                    ) && bindings(self.global_symbol_table.entries())[symbols@[j].name@]
                        == symbols@[j].ty@,
                forall|name: Seq<char>|
                    (forall|j: int| 0 <= j < i ==> (#[trigger] symbols@[j]).name@ != name) ==> (
                    #[trigger] bindings(self.global_symbol_table.entries()).contains_key(name))
                        == bindings(before).contains_key(name) && bindings(
                        self.global_symbol_table.entries(),
                    )[name] == bindings(before)[name],
            decreases symbols.len() - i,
        {
            let ghost earlier = self.global_symbol_table.entries();
            let copy = symbols[i].clone();
            proof {
                lemma_bindings_insert(earlier, copy.name@, copy);
            }
            self.global_symbol_table.insert(copy);
            proof {
                let now = bindings(self.global_symbol_table.entries());
                assert(now == bindings(earlier).insert(symbols@[i as int].name@, symbols@[i as int].ty@));
                assert forall|j: int| 0 <= j < i + 1 implies now.contains_key(
                    (#[trigger] symbols@[j]).name@,
                ) && now[symbols@[j].name@] == symbols@[j].ty@ by {
                    if j < i && symbols@[j].name@ == symbols@[i as int].name@ {
                        assert(scope[symbols@[j].name@] == *symbols@[j]);
                        assert(scope[symbols@[i as int].name@] == *symbols@[i as int]);
                    }
                }
            }
            i = i + 1;
        }
        proof {
            let now = bindings(self.global_symbol_table.entries());
            let promoted = bindings(before).union_prefer_right(bindings(scope));
            assert forall|name: Seq<char>| now.contains_key(name) == promoted.contains_key(
                name,
            ) && (now.contains_key(name) ==> now[name] == promoted[name]) by {
                if scope.contains_key(name) {
                    let j = choose|j: int|
                        0 <= j < symbols@.len() && (#[trigger] symbols@[j]).name@ == name;
                    assert(now[symbols@[j].name@] == symbols@[j].ty@);
                } else {
                    assert forall|j: int| 0 <= j < symbols@.len() implies (
                    #[trigger] symbols@[j]).name@ != name by {
                        assert(scope.contains_key(symbols@[j].name@));
                    }
                    assert(now.contains_key(name) == bindings(before).contains_key(name));
                }
            }
            assert(now =~= promoted);
        }
    }

    /// The table of the analysed files.
    pub fn symbol_table(&self) -> (table: &SymbolTable)
        ensures
            forall|path: Seq<char>| bindings(table.scope(path)) == self.scope_types(path),
    {
        &self.symbol_table
    }

    /// The table of the ambient scope.
    pub fn global_symbol_table(&self) -> (table: &BuiltinTable)
        ensures
            bindings(table.entries()) == self.ambient_types(),
    {
        &self.global_symbol_table
    }

    /// Binds the symbol in the scope of the current file.
    pub fn insert_new_symbol(&mut self, symbol: Symbol)
        ensures
            final(self).scope_types(old(self).path()) == old(self).scope_types(
                old(self).path(),
            ).insert(symbol.name@, symbol.ty@),
            final(self).differs_in_scope_only(old(self)),
    {
        let path = self.current_path.clone();
        proof {
            lemma_bindings_insert(self.symbol_table.scope(path@), symbol.name@, symbol);
        }
        self.symbol_table.insert(path, symbol);
    }

    /// The symbol of that name in the scope of the current file.
    pub fn get_symbol(&self, name: &str) -> (found: Option<&Symbol>)
        ensures
            match found {
                Some(symbol) => self.scope_types(self.path()).contains_key(name@) && symbol.ty@
                    == self.scope_types(self.path())[name@] && symbol.name@ == name@,
                None => !self.scope_types(self.path()).contains_key(name@),
            },
    {
        self.symbol_table.get(self.current_path.as_str(), name)
    }

    /// The symbol of that name in the scope of the file at `path`.
    pub fn get_symbol_in(&self, path: &str, name: &str) -> (found: Option<&Symbol>)
        ensures
            match found {
                Some(symbol) => self.scope_types(path@).contains_key(name@) && symbol.ty@
                    == self.scope_types(path@)[name@] && symbol.name@ == name@,
                None => !self.scope_types(path@).contains_key(name@),
            },
    {
        self.symbol_table.get(path, name)
    }

    /// The symbol of that name in the ambient scope.
    pub fn get_global_symbol(&self, name: &str) -> (found: Option<&Symbol>)
        ensures
            match found {
                Some(symbol) => self.ambient_types().contains_key(name@) && symbol.ty@
                    == self.ambient_types()[name@] && symbol.name@ == name@,
                None => !self.ambient_types().contains_key(name@),
            },
    {
        self.global_symbol_table.get(name)
    }
}

impl TypeAnalyzer {
    /// Binds the name to the type in the scope of the current file, where
    /// there is a name and a type.
    fn bind_symbol(&mut self, name: &Option<String>, ty: Result<Type, AnalysisError>)
        ensures
            final(self).scope_types(old(self).path()) == bind(
                old(self).scope_types(old(self).path()),
                *name,
                type_outcome(ty),
            ),
            final(self).differs_in_scope_only(old(self)),
    {
        match name {
            Some(name) => match ty {
                Ok(ty) => {
                    self.insert_new_symbol(Symbol::new(name.clone(), ty));
                },
                Err(_) => {},
            },
            None => {},
        }
    }

    /// Binds what the declarators of a statement declare, in written order.
    fn visit_declarators(&mut self, node: &VariableStatement)
        ensures
            final(self).scope_types(old(self).path()) == declare_variables(
                old(self).scope_types(old(self).path()),
                *node,
            ),
            final(self).differs_in_scope_only(old(self)),
    {
        match &node.declarators {
            None => {},
            Some(declarators) => {
                let ghost before = *self;
                let mut i: usize = 0;
                proof {
                    lemma_take_none(declarators@);
                }
                while i < declarators.len()
                    invariant
                        0 <= i <= declarators.len(),
                        self.differs_in_scope_only(&before),
                        self.scope_types(before.path()) == declare_declarators(
                            before.scope_types(before.path()),
                            declarators@.take(i as int),
                        ),
                    decreases declarators.len() - i,
                {
                    proof {
                        lemma_take_one_more(declarators@, i as int);
                    }
                    match &declarators[i] {
                        Some(declarator) => {
                            self.visit_js_variable_declarator(declarator);
                        },
                        None => {},
                    }
                    i = i + 1;
                }
                proof {
                    lemma_take_all(declarators@);
                }
            },
        }
    }

    /// Binds what the items of a module declare, in source order.
    fn visit_items(&mut self, items: &Vec<ModuleItem>)
        ensures
            final(self).scope_types(old(self).path()) == declare_items(
                old(self).scope_types(old(self).path()),
                items@,
            ),
            final(self).differs_in_scope_only(old(self)),
    {
        let ghost before = *self;
        let mut i: usize = 0;
        proof {
            lemma_take_none(items@);
        }
        while i < items.len()
            invariant
                0 <= i <= items.len(),
                self.differs_in_scope_only(&before),
                self.scope_types(before.path()) == declare_items(
                    before.scope_types(before.path()),
                    items@.take(i as int),
                ),
            decreases items.len() - i,
        {
            proof {
                lemma_take_one_more(items@, i as int);
            }
            self.visit_module_item(&items[i]);
            i = i + 1;
        }
        proof {
            lemma_take_all(items@);
        }
    }
}

impl Visitor for TypeAnalyzer {
    /// Binds in the scope of the current file what the file declares.
    fn visit(&mut self, node: &Root)
        ensures
            final(self).scope_types(old(self).path()) == declare_root(
                old(self).scope_types(old(self).path()),
                *node,
            ),
            final(self).differs_in_scope_only(old(self)),
    {
        match node {
            Root::Module(items) => self.visit_module(items),
            Root::DeclarationModule(items) => self.visit_ts_declaration_module(items),
            Root::Other => {},
        }
    }

    /// Binds what the items of a module declare, in source order.
    fn visit_module(&mut self, items: &Vec<ModuleItem>)
        ensures
            final(self).scope_types(old(self).path()) == declare_items(
                old(self).scope_types(old(self).path()),
                items@,
            ),
            final(self).differs_in_scope_only(old(self)),
    {
        self.visit_items(items)
    }

    /// Binds what the items of a declaration module declare, in source order.
    fn visit_ts_declaration_module(&mut self, items: &Vec<ModuleItem>)
        ensures
            final(self).scope_types(old(self).path()) == declare_items(
                old(self).scope_types(old(self).path()),
                items@,
            ),
            final(self).differs_in_scope_only(old(self)),
    {
        self.visit_items(items)
    }

    /// Binds what a statement declares; an import or an export binds nothing.
    fn visit_module_item(&mut self, node: &ModuleItem)
        ensures
            final(self).scope_types(old(self).path()) == declare_item(
                old(self).scope_types(old(self).path()),
                *node,
            ),
            final(self).differs_in_scope_only(old(self)),
    {
        match node {
            ModuleItem::Statement(statement) => self.visit_statement(statement),
            ModuleItem::Other => {},
        }
    }

    /// Binds what a declaration declares; any other statement binds nothing.
    fn visit_statement(&mut self, node: &Statement)
        ensures
            final(self).scope_types(old(self).path()) == declare_statement(
                old(self).scope_types(old(self).path()),
                *node,
            ),
            final(self).differs_in_scope_only(old(self)),
    {
        match node {
            Statement::Declare(clause) => self.visit_ts_declare_statement(clause),
            Statement::Interface(declaration) => self.visit_ts_interface_declaration(declaration),
            Statement::Variable(statement) => self.visit_js_variable_statement(statement),
            Statement::Expression(statement) => self.visit_js_expression_statement(statement),
            Statement::Function(function) => self.visit_js_function_declaration(function),
            Statement::Other => {},
        }
    }

    /// An expression statement declares nothing.
    fn visit_js_expression_statement(&mut self, node: &ExpressionStatement)
        ensures
            *final(self) == *old(self),
    {
    }

    /// Binds the function's name to its function term.
    fn visit_js_function_declaration(&mut self, node: &FunctionDeclaration)
        ensures
            final(self).scope_types(old(self).path()) == bind(
                old(self).scope_types(old(self).path()),
                node.id,
                lower_function_declaration(*node),
            ),
            final(self).differs_in_scope_only(old(self)),
    {
        let ty = self.analyze_js_function_declaration(node);
        self.bind_symbol(&node.id, ty);
    }

    /// Binds what the declarators of the statement declare, in written order.
    fn visit_js_variable_statement(&mut self, node: &VariableStatement)
        ensures
            final(self).scope_types(old(self).path()) == declare_variables(
                old(self).scope_types(old(self).path()),
                *node,
            ),
            final(self).differs_in_scope_only(old(self)),
    {
        self.visit_declarators(node)
    }

    /// Binds what follows the word `declare`: variables or a function.
    fn visit_ts_declare_statement(&mut self, node: &DeclarationClause)
        ensures
            final(self).scope_types(old(self).path()) == declare_clause(
                old(self).scope_types(old(self).path()),
                *node,
            ),
            final(self).differs_in_scope_only(old(self)),
    {
        match node {
            DeclarationClause::Variable(statement) => self.visit_js_variable_declaration_clause(
                statement,
            ),
            DeclarationClause::Function(function) => {
                let ty = self.analyze_ts_declare_function_declaration(function);
                self.bind_symbol(&function.id, ty);
            },
            _ => {},
        }
    }

    /// Binds what the declarators of the clause declare, in written order.
    fn visit_js_variable_declaration_clause(&mut self, node: &VariableStatement)
        ensures
            final(self).scope_types(old(self).path()) == declare_variables(
                old(self).scope_types(old(self).path()),
                *node,
            ),
            final(self).differs_in_scope_only(old(self)),
    {
        self.visit_declarators(node)
    }

    /// Binds the declared name to the declarator's type. A pattern that is
    /// no plain identifier binds nothing.
    fn visit_js_variable_declarator(&mut self, node: &VariableDeclarator)
        ensures
            final(self).scope_types(old(self).path()) == declare_declarator(
                old(self).scope_types(old(self).path()),
                *node,
            ),
            final(self).differs_in_scope_only(old(self)),
    {
        match &node.id {
            BindingPattern::Identifier(name) => {
                let ty = self.analyze_js_variable_declarator(node);
                self.bind_symbol(name, ty);
            },
            _ => {},
        }
    }

    /// Binds the interface's name to its interface term.
    fn visit_ts_interface_declaration(&mut self, node: &InterfaceDeclaration)
        ensures
            final(self).scope_types(old(self).path()) == bind(
                old(self).scope_types(old(self).path()),
                node.id,
                lower_interface(*node),
            ),
            final(self).differs_in_scope_only(old(self)),
    {
        let ty = self.analyze_ts_interface_declaration(node);
        self.bind_symbol(&node.id, ty);
    }
}

} // verus!
