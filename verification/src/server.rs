//! The analysed files and the ambient declarations behind one query surface.

use vstd::prelude::*;
use crate::analyzer::{bootstrap, declare_root, no_types, TypeAnalyzer};
use crate::sequences::{lemma_take_all, lemma_take_none, lemma_take_one_more};
use crate::symbol::Symbol;
use crate::syntax::{Expression, Root};
use crate::type_info::{clone_type, Type, TypeView};
use crate::visitor::Visitor;

verus! {

/// A parsed file with the path that its scope goes by.
#[derive(Debug, PartialEq, Eq)]
pub struct SourceFile {
    pub path: String,
    pub root: Root,
}

/// The scope of the file at `path` after the files are analysed in the
/// order given: each file at that path declares into it.
pub open spec fn scope_after(
    scope: Map<Seq<char>, TypeView>,
    files: Seq<SourceFile>,
    path: Seq<char>,
) -> Map<Seq<char>, TypeView>
    decreases files.len(),
{
    if files.len() == 0 {
        scope
    } else {
        let before = scope_after(scope, files.drop_last(), path);
        if files.last().path@ == path {
            declare_root(before, files.last().root)
        } else {
            before
        }
    }
}

/// The type bound to a name as a file sees it: that of its own scope where
/// the name is bound there, else that of the ambient scope.
pub open spec fn lookup(
    local: Map<Seq<char>, TypeView>,
    ambient: Map<Seq<char>, TypeView>,
    name: Seq<char>,
) -> Option<TypeView> {
    if local.contains_key(name) {
        Some(local[name])
    } else if ambient.contains_key(name) {
        Some(ambient[name])
    } else {
        None
    }
}

/// An analyser with its ambient scope in place.
#[derive(Debug)]
pub struct Server {
    analyzer: TypeAnalyzer,
}

impl Server {
    /// The types bound in the scope of a file, by name.
    pub closed spec fn local_types(&self, path: Seq<char>) -> Map<Seq<char>, TypeView> {
        self.analyzer.scope_types(path)
    }

    /// The types bound in the ambient scope, by name.
    pub closed spec fn ambient_types(&self) -> Map<Seq<char>, TypeView> {
        self.analyzer.ambient_types()
    }

    /// A server whose ambient scope holds what the ambient declaration
    /// files declare. Those declarations are also the scope of the empty
    /// path; no other path has a binding.
    pub fn new(builtins: &Vec<Root>) -> (server: Self)
        ensures
            server.local_types(Seq::<char>::empty()) == bootstrap(
                no_types(),
                no_types(),
                builtins@,
            ).0,
            server.ambient_types() == bootstrap(no_types(), no_types(), builtins@).1,
            forall|path: Seq<char>|
                path != Seq::<char>::empty() ==> server.local_types(path) == no_types(),
    {
        Self { analyzer: TypeAnalyzer::new(builtins) }
    }

    /// Declares each file into the scope of its path, in the order given.
    pub fn analyze(&mut self, files: &Vec<SourceFile>)
        ensures
            final(self).ambient_types() == old(self).ambient_types(),
            forall|path: Seq<char>|
                final(self).local_types(path) == scope_after(
                    old(self).local_types(path),
                    files@,
                    path,
                ),
    {
        let ghost before = *self;
        let mut i: usize = 0;
        proof {
            lemma_take_none(files@);
        }
        while i < files.len()
            invariant
                0 <= i <= files.len(),
                self.ambient_types() == before.ambient_types(),
                forall|path: Seq<char>|
                    self.local_types(path) == scope_after(
                        before.local_types(path),
                        files@.take(i as int),
                        path,
                    ),
            decreases files.len() - i,
        {
            proof {
                lemma_take_one_more(files@, i as int);
            }
            let file = &files[i];
            let ghost earlier = *self;
            self.analyzer.set_current_path(file.path.clone());
            self.analyzer.visit(&file.root);
            proof {
                assert forall|path: Seq<char>|
                    self.local_types(path) == scope_after(
                        before.local_types(path),
                        files@.take(i as int + 1),
                        path,
                    ) by {
                    assert(earlier.local_types(path) == scope_after(
                        before.local_types(path),
                        files@.take(i as int),
                        path,
                    ));
                    if path == file.path@ {
                        assert(self.local_types(path) == declare_root(
                            earlier.local_types(path),
                            file.root,
                        ));
                    } else {
                        assert(self.local_types(path) == earlier.local_types(path));
                    }
                }
            }
            i = i + 1;
        }
        proof {
            lemma_take_all(files@);
        }
    }

    /// The analyser behind the server.
    pub fn analyzer(&self) -> (analyzer: &TypeAnalyzer)
        ensures
            forall|path: Seq<char>| analyzer.scope_types(path) == self.local_types(path),
            analyzer.ambient_types() == self.ambient_types(),
    {
        &self.analyzer
    }

    /// The symbol that a name stands for in the file at `path`: that of
    /// the file's scope, else that of the ambient scope.
    pub fn get_resolved_type_info(&self, path: &str, symbol_name: &str) -> (found: Option<&Symbol>)
        ensures
            match found {
                Some(symbol) => lookup(
                    self.local_types(path@),
                    self.ambient_types(),
                    symbol_name@,
                ) == Some(symbol.ty@) && symbol.name@ == symbol_name@,
                None => lookup(self.local_types(path@), self.ambient_types(), symbol_name@)
                    is None,
            },
    {
        match self.analyzer.get_symbol_in(path, symbol_name) {
            Some(local) => Some(local),
            None => self.analyzer.get_global_symbol(symbol_name),
        }
    }

    /// The ambient type of a reference to a name: `Unknown` for a name that
    /// is not ambient and for any other expression.
    pub fn get_type_info_from_builtin(&self, node: &Expression) -> (ty: Type)
        ensures
            ty@ == match *node {
                Expression::Identifier(Some(name)) => if self.ambient_types().contains_key(name@) {
                    self.ambient_types()[name@]
                } else {
                    TypeView::Unknown
                },
                _ => TypeView::Unknown,
            },
    {
        match node {
            Expression::Identifier(Some(name)) => match self.analyzer.get_global_symbol(
                name.as_str(),
            ) {
                Some(symbol) => clone_type(&symbol.ty),
                None => Type::Unknown,
            },
            _ => Type::Unknown,
        }
    }
}

} // verus!
