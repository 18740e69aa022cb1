//! Named types, and the two scopes that hold them: one table per analysed
//! file, and one ambient table that every file sees.

use vstd::prelude::*;
use rustc_hash::{FxBuildHasher, FxHashMap};
use crate::type_info::{Type, TypeView};

verus! {

/// A name bound to its type.
#[derive(Debug, PartialEq, Eq)]
pub struct Symbol {
    pub name: String,
    pub ty: Type,
}

/// The mathematical value of a [`Symbol`].
pub struct SymbolView {
    pub name: Seq<char>,
    pub ty: TypeView,
}

impl View for Symbol {
    type V = SymbolView;

    open spec fn view(&self) -> SymbolView {
        SymbolView { name: self.name@, ty: self.ty@ }
    }
}

impl Symbol {
    /// The symbol that binds `name` to `ty`.
    pub fn new(name: String, ty: Type) -> (symbol: Self)
        ensures
            symbol.name == name,
            symbol.ty == ty,
    {
        Self { name, ty }
    }
}

impl Clone for Symbol {
    fn clone(&self) -> (copy: Self)
        ensures
            copy@ == self@,
    {
        Symbol { name: self.name.clone(), ty: self.ty.clone() }
    }
}

/// `rustc_hash::FxBuildHasher`, the hasher of every table here. Nothing is
/// known of it but that maps can be built with it.
#[verifier::external_type_specification]
#[verifier::external_body]
pub struct ExFxBuildHasher(FxBuildHasher);

/// The entries of one scope: each name with the symbol stored under it.
pub uninterp spec fn scope_entries(scope: FxHashMap<String, Symbol>) -> Map<Seq<char>, Symbol>;

/// The scopes of a per-file table: each path with the entries of its scope.
pub uninterp spec fn file_scopes(files: FxHashMap<String, FxHashMap<String, Symbol>>) -> Map<
    Seq<char>,
    Map<Seq<char>, Symbol>,
>;

/// A scope without entries.
pub open spec fn no_symbols() -> Map<Seq<char>, Symbol> {
    Map::empty()
}

/// A per-file table without scopes.
pub open spec fn no_scopes() -> Map<Seq<char>, Map<Seq<char>, Symbol>> {
    Map::empty()
}

/// `FxHashMap::default()` for a scope: a map with the Fx hasher and no entry.
#[verifier::external_body]
fn empty_scope() -> (scope: FxHashMap<String, Symbol>)
    ensures
        scope_entries(scope) == no_symbols(),
{
    FxHashMap::default()
}

/// `HashMap::insert` on a scope: the symbol is stored under the key, in place
/// of whatever was stored under an equal key; no other entry changes.
#[verifier::external_body]
fn scope_insert(scope: &mut FxHashMap<String, Symbol>, key: String, symbol: Symbol)
    ensures
        scope_entries(*final(scope)) == scope_entries(*old(scope)).insert(key@, symbol),
{
    scope.insert(key, symbol);
}

/// `HashMap::get` on a scope: the symbol stored under the name, if there is one.
#[verifier::external_body]
fn scope_get<'a>(scope: &'a FxHashMap<String, Symbol>, name: &str) -> (found: Option<&'a Symbol>)
    ensures
        match found {
            Some(symbol) => scope_entries(*scope).contains_key(name@) && *symbol
                == scope_entries(*scope)[name@],
            None => !scope_entries(*scope).contains_key(name@),
        },
{
    scope.get(name)
}

/// `HashMap::iter` on a scope, collected: every entry once, as its name and
/// its symbol, in an order that is not stated.
#[verifier::external_body]
fn scope_pairs<'a>(scope: &'a FxHashMap<String, Symbol>) -> (pairs: Vec<(&'a String, &'a Symbol)>)
    ensures
        forall|i: int|
            0 <= i < pairs@.len() ==> scope_entries(*scope).contains_key(
                (#[trigger] pairs@[i]).0@,
            ) && scope_entries(*scope)[pairs@[i].0@] == *pairs@[i].1,
        forall|name: Seq<char>| #[trigger]
            scope_entries(*scope).contains_key(name) ==> exists|i: int|
                0 <= i < pairs@.len() && (#[trigger] pairs@[i]).0@ == name,
        forall|i: int, j: int|
            0 <= i < j < pairs@.len() ==> (#[trigger] pairs@[i]).0@ != (#[trigger] pairs@[j]).0@,
{
    scope.iter().collect()
}

/// `FxHashMap::default()` for a per-file table: no path has a scope.
#[verifier::external_body]
fn empty_files() -> (files: FxHashMap<String, FxHashMap<String, Symbol>>)
    ensures
        file_scopes(files) == no_scopes(),
{
    FxHashMap::default()
}

/// `HashMap::get` on a per-file table: the scope stored under the path, if
/// there is one.
#[verifier::external_body]
fn files_get<'a>(files: &'a FxHashMap<String, FxHashMap<String, Symbol>>, path: &str) -> (found:
    Option<&'a FxHashMap<String, Symbol>>)
    ensures
        match found {
            Some(scope) => file_scopes(*files).contains_key(path@) && scope_entries(*scope)
                == file_scopes(*files)[path@],
            None => !file_scopes(*files).contains_key(path@),
        },
{
    files.get(path)
}

/// `HashMap::remove` on a per-file table: the scope stored under the path
/// leaves the table and is handed out, if there is one; no other scope
/// changes.
#[verifier::external_body]
fn files_remove(files: &mut FxHashMap<String, FxHashMap<String, Symbol>>, path: &str) -> (removed:
    Option<FxHashMap<String, Symbol>>)
    ensures
        file_scopes(*final(files)) == file_scopes(*old(files)).remove(path@),
        match removed {
            Some(scope) => file_scopes(*old(files)).contains_key(path@) && scope_entries(scope)
                == file_scopes(*old(files))[path@],
            None => !file_scopes(*old(files)).contains_key(path@),
        },
{
    files.remove(path)
}

/// `HashMap::insert` on a per-file table: the scope is stored under the
/// path, in place of whatever was stored under an equal path; no other
/// scope changes.
#[verifier::external_body]
fn files_put(
    files: &mut FxHashMap<String, FxHashMap<String, Symbol>>,
    path: String,
    scope: FxHashMap<String, Symbol>,
)
    ensures
        file_scopes(*final(files)) == file_scopes(*old(files)).insert(path@, scope_entries(scope)),
{
    files.insert(path, scope);
}

/// `HashMap::iter` on a per-file table, collected: every path once with its
/// scope, in an order that is not stated.
#[verifier::external_body]
fn files_entries<'a>(files: &'a FxHashMap<String, FxHashMap<String, Symbol>>) -> (entries: Vec<
    (&'a String, &'a FxHashMap<String, Symbol>),
>)
    ensures
        forall|i: int|
            0 <= i < entries@.len() ==> file_scopes(*files).contains_key(
                (#[trigger] entries@[i]).0@,
            ) && file_scopes(*files)[entries@[i].0@] == scope_entries(*entries@[i].1),
        forall|path: Seq<char>| #[trigger]
            file_scopes(*files).contains_key(path) ==> exists|i: int|
                0 <= i < entries@.len() && (#[trigger] entries@[i]).0@ == path,
        forall|i: int, j: int|
            0 <= i < j < entries@.len() ==> (#[trigger] entries@[i]).0@ != (
            #[trigger] entries@[j]).0@,
{
    files.iter().collect()
}

/// The entries that a path's scope holds: none where the path has no scope.
pub open spec fn scope_of(scopes: Map<Seq<char>, Map<Seq<char>, Symbol>>, path: Seq<char>) -> Map<
    Seq<char>,
    Symbol,
> {
    if scopes.contains_key(path) {
        scopes[path]
    } else {
        Map::empty()
    }
}

/// Whether every symbol of a scope is stored under its own name.
pub open spec fn keyed_by_name(entries: Map<Seq<char>, Symbol>) -> bool {
    forall|name: Seq<char>| #[trigger]
        entries.contains_key(name) ==> entries[name].name@ == name
}

/// Whether the symbols are those of the scope, each once: each is stored
/// under its own name, each stored name has its symbol among them, and no
/// two of them have one name.
pub open spec fn lists_scope(symbols: Seq<&Symbol>, entries: Map<Seq<char>, Symbol>) -> bool {
    &&& forall|i: int|
        0 <= i < symbols.len() ==> entries.contains_key((#[trigger] symbols[i]).name@)
            && entries[symbols[i].name@] == *symbols[i]
    &&& forall|name: Seq<char>| #[trigger]
        entries.contains_key(name) ==> exists|i: int|
            0 <= i < symbols.len() && (#[trigger] symbols[i]).name@ == name
    &&& forall|i: int, j: int|
        0 <= i < j < symbols.len() ==> (#[trigger] symbols[i]).name@ != (
        #[trigger] symbols[j]).name@
}

/// The symbols of a scope whose symbols are stored under their own names.
fn list_scope<'a>(scope: &'a FxHashMap<String, Symbol>) -> (symbols: Vec<&'a Symbol>)
    requires
        keyed_by_name(scope_entries(*scope)),
    ensures
        lists_scope(symbols@, scope_entries(*scope)),
{
    let pairs = scope_pairs(scope);
    let mut symbols: Vec<&Symbol> = Vec::new();
    let mut i: usize = 0;
    while i < pairs.len()
        invariant
            0 <= i <= pairs.len(),
            symbols@.len() == i,
            forall|j: int| 0 <= j < i ==> *(#[trigger] symbols@[j]) == *pairs@[j].1,
        decreases pairs.len() - i,
    {
        symbols.push(pairs[i].1);
        i = i + 1;
    }
    proof {
        let entries = scope_entries(*scope);
        assert forall|j: int| 0 <= j < symbols@.len() implies (#[trigger] symbols@[j]).name@
            == pairs@[j].0@ by {
            assert(entries.contains_key(pairs@[j].0@));
        }
        assert forall|name: Seq<char>| #[trigger] entries.contains_key(name) implies exists|j: int|
            0 <= j < symbols@.len() && (#[trigger] symbols@[j]).name@ == name by {
            let j = choose|j: int| 0 <= j < pairs@.len() && (#[trigger] pairs@[j]).0@ == name;
            assert(symbols@[j].name@ == name);
        }
    }
    symbols
}

/// The ambient scope: names that every file sees.
#[derive(Debug)]
pub struct BuiltinTable(FxHashMap<String, Symbol>);

impl BuiltinTable {
    /// The stored symbols by name.
    pub closed spec fn entries(&self) -> Map<Seq<char>, Symbol> {
        scope_entries(self.0)
    }

    /// Every symbol is stored under its own name.
    #[verifier::type_invariant]
    spec fn keyed_by_name(self) -> bool {
        keyed_by_name(scope_entries(self.0))
    }

    /// A table without symbols.
    pub fn new() -> (table: Self)
        ensures
            table.entries() == no_symbols(),
    {
        BuiltinTable(empty_scope())
    }

    /// Binds the symbol under its own name; an earlier symbol of that name
    /// is replaced.
    pub fn insert(&mut self, symbol: Symbol)
        ensures
            final(self).entries() == old(self).entries().insert(symbol.name@, symbol),
    {
        proof {
            use_type_invariant(&*self);
        }
        let mut taken = BuiltinTable(empty_scope());
        std::mem::swap(self, &mut taken);
        let BuiltinTable(mut scope) = taken;
        let key = symbol.name.clone();
        scope_insert(&mut scope, key, symbol);
        *self = BuiltinTable(scope);
    }

    /// The stored symbols, each once, in no stated order.
    pub fn iter(&self) -> (symbols: Vec<&Symbol>)
        ensures
            lists_scope(symbols@, self.entries()),
    {
        proof {
            use_type_invariant(self);
        }
        list_scope(&self.0)
    }

    /// The symbol stored under the name, if there is one.
    pub fn get(&self, name: &str) -> (found: Option<&Symbol>)
        ensures
            match found {
                Some(symbol) => self.entries().contains_key(name@) && *symbol
                    == self.entries()[name@] && symbol.name@ == name@,
                None => !self.entries().contains_key(name@),
            },
    {
        proof {
            use_type_invariant(self);
        }
        scope_get(&self.0, name)
    }
}

/// The scopes of the analysed files, by path.
#[derive(Debug)]
pub struct SymbolTable(FxHashMap<String, FxHashMap<String, Symbol>>);

impl SymbolTable {
    /// The stored symbols by path and name.
    pub closed spec fn scopes(&self) -> Map<Seq<char>, Map<Seq<char>, Symbol>> {
        file_scopes(self.0)
    }

    /// In every scope every symbol is stored under its own name.
    #[verifier::type_invariant]
    spec fn scopes_keyed_by_name(self) -> bool {
        forall|path: Seq<char>| #[trigger]
            file_scopes(self.0).contains_key(path) ==> keyed_by_name(file_scopes(self.0)[path])
    }

    /// The symbols of one file by name: none for a path without a scope.
    pub open spec fn scope(&self, path: Seq<char>) -> Map<Seq<char>, Symbol> {
        scope_of(self.scopes(), path)
    }

    /// A table without scopes.
    pub fn new() -> (table: Self)
        ensures
            table.scopes() == no_scopes(),
    {
        SymbolTable(empty_files())
    }

    /// Binds the symbol under its own name in the scope of the path; an
    /// earlier symbol of that name in that scope is replaced.
    pub fn insert(&mut self, path: String, symbol: Symbol)
        ensures
            final(self).scopes() == old(self).scopes().insert(
                path@,
                old(self).scope(path@).insert(symbol.name@, symbol),
            ),
    {
        proof {
            use_type_invariant(&*self);
        }
        let mut taken = SymbolTable(empty_files());
        std::mem::swap(self, &mut taken);
        let SymbolTable(mut files) = taken;
        let mut scope = match files_remove(&mut files, path.as_str()) {
            Some(scope) => scope,
            None => empty_scope(),
        };
        let key = symbol.name.clone();
        scope_insert(&mut scope, key, symbol);
        let ghost stored = scope_entries(scope);
        files_put(&mut files, path, scope);
        proof {
            assert(file_scopes(files) =~= old(self).scopes().insert(path@, stored));
        }
        *self = SymbolTable(files);
    }

    /// The symbols of the file at `path`, each once, in no stated order.
    pub fn symbols_in(&self, path: &str) -> (symbols: Vec<&Symbol>)
        ensures
            lists_scope(symbols@, self.scope(path@)),
    {
        proof {
            use_type_invariant(self);
        }
        match files_get(&self.0, path) {
            Some(scope) => list_scope(scope),
            None => Vec::new(),
        }
    }

    /// Every path that has a scope, each once with the symbols of its
    /// scope, in no stated order.
    pub fn iter(&self) -> (files: Vec<(&String, Vec<&Symbol>)>)
        ensures
            forall|i: int|
                0 <= i < files@.len() ==> self.scopes().contains_key((#[trigger] files@[i]).0@)
                    && lists_scope(files@[i].1@, self.scopes()[files@[i].0@]),
            forall|path: Seq<char>| #[trigger]
                self.scopes().contains_key(path) ==> exists|i: int|
                    0 <= i < files@.len() && (#[trigger] files@[i]).0@ == path,
            forall|i: int, j: int|
                0 <= i < j < files@.len() ==> (#[trigger] files@[i]).0@ != (
                #[trigger] files@[j]).0@,
    {
        proof {
            use_type_invariant(self);
        }
        let entries = files_entries(&self.0);
        let mut files: Vec<(&String, Vec<&Symbol>)> = Vec::new();
        let mut i: usize = 0;
        while i < entries.len()
            invariant
                0 <= i <= entries.len(),
                files@.len() == i,
                forall|path: Seq<char>| #[trigger]
                    file_scopes(self.0).contains_key(path) ==> keyed_by_name(
                        file_scopes(self.0)[path],
                    ),
                forall|j: int|
                    0 <= j < entries@.len() ==> file_scopes(self.0).contains_key(
                        (#[trigger] entries@[j]).0@,
                    ) && file_scopes(self.0)[entries@[j].0@] == scope_entries(*entries@[j].1),
                forall|j: int|
                    0 <= j < i ==> (#[trigger] files@[j]).0 == entries@[j].0 && lists_scope(
                        files@[j].1@,
                        file_scopes(self.0)[entries@[j].0@],
                    ),
            decreases entries.len() - i,
        {
            let entry = &entries[i];
            assert(file_scopes(self.0).contains_key(entries@[i as int].0@));
            let symbols = list_scope(entry.1);
            files.push((entry.0, symbols));
            i = i + 1;
        }
        proof {
            assert forall|path: Seq<char>| #[trigger]
                self.scopes().contains_key(path) implies exists|i: int|
                0 <= i < files@.len() && (#[trigger] files@[i]).0@ == path by {
                let i = choose|i: int| 0 <= i < entries@.len() && (#[trigger] entries@[i]).0@ == path;
                assert(files@[i].0@ == path);
            }
        }
        files
    }

    /// The symbol stored under the name in the scope of the file at
    /// `path`, if there is one.
    pub fn get(&self, path: &str, name: &str) -> (found: Option<&Symbol>)
        ensures
            match found {
                Some(symbol) => self.scope(path@).contains_key(name@) && *symbol == self.scope(
                    path@,
                )[name@] && symbol.name@ == name@,
                None => !self.scope(path@).contains_key(name@),
            },
    {
        proof {
            use_type_invariant(self);
        }
        match files_get(&self.0, path) {
            Some(scope) => scope_get(scope, name),
            None => None,
        }
    }
}

impl Default for BuiltinTable {
    fn default() -> (table: Self)
        ensures
            table.entries() == no_symbols(),
    {
        BuiltinTable::new()
    }
}

impl Default for SymbolTable {
    fn default() -> (table: Self)
        ensures
            table.scopes() == no_scopes(),
    {
        SymbolTable::new()
    }
}

} // verus!
