//! Resolution of named references: lookup in the scope of a file and in the
//! ambient scope, and substitution of type arguments for type parameters.

use vstd::prelude::*;
use rustc_hash::FxHashMap;
use crate::analyzer::TypeAnalyzer;
use crate::symbol::Symbol;
use crate::type_info::{
    clone_type, clone_type_params, clone_types, optional_type_view, param_views, property_views,
    type_param_views, type_views, FunctionParam, FunctionView, InterfaceView, ParamView,
    PropertyView, TsFunctionSignature, TsInterface, TsInterfaceProperty, TsTypeRef, Type,
    TypeParam, TypeParamView, TypeRefView, TypeView,
};

verus! {

/// The type with every reference to a bound name replaced by its binding.
/// A replaced reference loses its own arguments; a binding is put in as it
/// is, never substituted into.
pub open spec fn substitute(ty: TypeView, map: Map<Seq<char>, TypeView>) -> TypeView
    decreases ty,
{
    match ty {
        TypeView::TypeRef(reference) => if map.contains_key(reference.name) {
            map[reference.name]
        } else {
            TypeView::TypeRef(
                TypeRefView {
                    name: reference.name,
                    type_params: substitute_all(reference.type_params, map),
                },
            )
        },
        TypeView::Union(members) => TypeView::Union(substitute_all(members, map)),
        TypeView::Intersection(members) => TypeView::Intersection(substitute_all(members, map)),
        TypeView::Function(function) => TypeView::Function(substitute_function(function, map)),
        _ => ty,
    }
}

/// Substitution in each type of a sequence.
pub open spec fn substitute_all(types: Seq<TypeView>, map: Map<Seq<char>, TypeView>) -> Seq<
    TypeView,
>
    decreases types,
{
    Seq::new(
        types.len(),
        |i: int|
            if 0 <= i < types.len() {
                substitute(types[i], map)
            } else {
                TypeView::Unknown
            },
    )
}

/// Substitution in the parameter types and the result of a function.
pub open spec fn substitute_function(
    function: FunctionView,
    map: Map<Seq<char>, TypeView>,
) -> FunctionView
    decreases function,
{
    FunctionView {
        type_params: function.type_params,
        this_param: function.this_param,
        params: Seq::new(
            function.params.len(),
            |i: int|
                if 0 <= i < function.params.len() {
                    ParamView {
                        name: function.params[i].name,
                        param_type: substitute(function.params[i].param_type, map),
                        is_optional: function.params[i].is_optional,
                    }
                } else {
                    function.params[i]
                },
        ),
        return_type: Box::new(substitute(*function.return_type, map)),
        is_async: function.is_async,
    }
}

/// Substitution in the type of each property; names and flags stay.
pub open spec fn substitute_properties(
    properties: Seq<PropertyView>,
    map: Map<Seq<char>, TypeView>,
) -> Seq<PropertyView> {
    Seq::new(
        properties.len(),
        |i: int|
            PropertyView {
                name: properties[i].name,
                type_info: substitute(properties[i].type_info, map),
                is_optional: properties[i].is_optional,
                is_readonly: properties[i].is_readonly,
            },
    )
}

/// The substitution that binds each type parameter to the argument at its
/// place; of two parameters of one name the later one counts.
pub open spec fn bind_arguments(type_params: Seq<TypeParamView>, args: Seq<TypeView>) -> Map<
    Seq<char>,
    TypeView,
>
    decreases type_params.len(),
{
    if type_params.len() == 0 || args.len() == 0 {
        Map::empty()
    } else {
        bind_arguments(type_params.drop_last(), args.drop_last()).insert(
            type_params.last().name,
            args.last(),
        )
    }
}

/// A generic type applied to arguments. An interface with as many type
/// parameters as there are arguments has them substituted in its property
/// types; with another number it is `Unknown`. Any other type stays as it
/// is and the arguments are dropped.
pub open spec fn apply_arguments(base: TypeView, args: Seq<TypeView>) -> TypeView {
    match base {
        TypeView::Interface(interface) => if interface.type_params.len() == args.len() {
            TypeView::Interface(
                InterfaceView {
                    name: interface.name,
                    extends: interface.extends,
                    properties: substitute_properties(
                        interface.properties,
                        bind_arguments(interface.type_params, args),
                    ),
                    type_params: interface.type_params,
                },
            )
        } else {
            TypeView::Unknown
        },
        _ => base,
    }
}

/// What a type stands for in a file: references are looked up, first in the
/// scope of the file, then in the ambient scope, and applied to their
/// arguments. A name in neither scope is `Unknown`. An ambient definition is
/// itself resolved before it is applied, as long as `depth` allows: at
/// depth 0 a reference to an ambient name stays a reference. Inside an
/// ambient definition a type parameter is a name like any other: where no
/// scope binds it, it is `Unknown` before the arguments are applied.
pub open spec fn resolve_reference(
    local: Map<Seq<char>, TypeView>,
    ambient: Map<Seq<char>, TypeView>,
    ty: TypeView,
    depth: nat,
) -> TypeView
    decreases depth, ty,
{
    match ty {
        TypeView::TypeRef(reference) => if local.contains_key(reference.name) {
            apply_arguments(local[reference.name], reference.type_params)
        } else if ambient.contains_key(reference.name) {
            if depth == 0 {
                ty
            } else {
                let definition = resolve_definition(
                    local,
                    ambient,
                    ambient[reference.name],
                    (depth - 1) as nat,
                );
                if reference.type_params.len() > 0 {
                    apply_arguments(definition, reference.type_params)
                } else {
                    definition
                }
            }
        } else {
            TypeView::Unknown
        },
        TypeView::Union(members) => TypeView::Union(
            resolve_references(local, ambient, members, depth),
        ),
        TypeView::Intersection(members) => TypeView::Intersection(
            resolve_references(local, ambient, members, depth),
        ),
        TypeView::Function(function) => TypeView::Function(
            resolve_function(local, ambient, function, depth),
        ),
        _ => ty,
    }
}

/// Resolution of each type of a sequence.
pub open spec fn resolve_references(
    local: Map<Seq<char>, TypeView>,
    ambient: Map<Seq<char>, TypeView>,
    types: Seq<TypeView>,
    depth: nat,
) -> Seq<TypeView>
    decreases depth, types,
{
    Seq::new(
        types.len(),
        |i: int|
            if 0 <= i < types.len() {
                resolve_reference(local, ambient, types[i], depth)
            } else {
                TypeView::Unknown
            },
    )
}

/// Resolution of the parameter types and the result of a function.
pub open spec fn resolve_function(
    local: Map<Seq<char>, TypeView>,
    ambient: Map<Seq<char>, TypeView>,
    function: FunctionView,
    depth: nat,
) -> FunctionView
    decreases depth, function,
{
    FunctionView {
        type_params: function.type_params,
        this_param: function.this_param,
        params: Seq::new(
            function.params.len(),
            |i: int|
                if 0 <= i < function.params.len() {
                    ParamView {
                        name: function.params[i].name,
                        param_type: resolve_reference(
                            local,
                            ambient,
                            function.params[i].param_type,
                            depth,
                        ),
                        is_optional: function.params[i].is_optional,
                    }
                } else {
                    function.params[i]
                },
        ),
        return_type: Box::new(resolve_reference(local, ambient, *function.return_type, depth)),
        is_async: function.is_async,
    }
}

/// Resolution of an optional type.
pub open spec fn resolve_optional(
    local: Map<Seq<char>, TypeView>,
    ambient: Map<Seq<char>, TypeView>,
    ty: Option<TypeView>,
    depth: nat,
) -> Option<TypeView>
    decreases depth, ty,
{
    match ty {
        Some(t) => Some(resolve_reference(local, ambient, t, depth)),
        None => None,
    }
}

/// Resolution of the members of an interface: what it extends, the types
/// of its properties, and the constraints and defaults of its type
/// parameters. The type parameters themselves stay.
pub open spec fn resolve_interface(
    local: Map<Seq<char>, TypeView>,
    ambient: Map<Seq<char>, TypeView>,
    interface: InterfaceView,
    depth: nat,
) -> InterfaceView
    decreases depth, interface,
{
    InterfaceView {
        name: interface.name,
        extends: resolve_references(local, ambient, interface.extends, depth),
        properties: Seq::new(
            interface.properties.len(),
            |i: int|
                if 0 <= i < interface.properties.len() {
                    PropertyView {
                        name: interface.properties[i].name,
                        type_info: resolve_reference(
                            local,
                            ambient,
                            interface.properties[i].type_info,
                            depth,
                        ),
                        is_optional: interface.properties[i].is_optional,
                        is_readonly: interface.properties[i].is_readonly,
                    }
                } else {
                    interface.properties[i]
                },
        ),
        type_params: Seq::new(
            interface.type_params.len(),
            |i: int|
                if 0 <= i < interface.type_params.len() {
                    TypeParamView {
                        name: interface.type_params[i].name,
                        constraint: resolve_optional(
                            local,
                            ambient,
                            interface.type_params[i].constraint,
                            depth,
                        ),
                        default: resolve_optional(
                            local,
                            ambient,
                            interface.type_params[i].default,
                            depth,
                        ),
                    }
                } else {
                    interface.type_params[i]
                },
        ),
    }
}

/// What the type of a symbol stands for: an interface or a function has its
/// members resolved; any other type, a reference too, stays as it is.
pub open spec fn resolve_definition(
    local: Map<Seq<char>, TypeView>,
    ambient: Map<Seq<char>, TypeView>,
    ty: TypeView,
    depth: nat,
) -> TypeView
    decreases depth, ty,
{
    match ty {
        TypeView::Interface(interface) => TypeView::Interface(
            resolve_interface(local, ambient, interface, depth),
        ),
        TypeView::Function(function) => TypeView::Function(
            resolve_function(local, ambient, function, depth),
        ),
        _ => ty,
    }
}

/// How many ambient definitions deep a resolution goes.
pub const RESOLUTION_DEPTH: usize = 1;

/// The entries of a substitution: each name with the type stored under it.
pub uninterp spec fn substitution_entries(map: FxHashMap<String, Type>) -> Map<Seq<char>, Type>;

/// A substitution as a mathematical map from names to types.
pub open spec fn substitution(map: FxHashMap<String, Type>) -> Map<Seq<char>, TypeView> {
    substitution_entries(map).map_values(|ty: Type| ty@)
}

/// A substitution without entries.
pub open spec fn no_bindings() -> Map<Seq<char>, Type> {
    Map::empty()
}

/// `FxHashMap::default()` for a substitution: a map with the Fx hasher and
/// no entry.
#[verifier::external_body]
fn empty_substitution() -> (map: FxHashMap<String, Type>)
    ensures
        substitution_entries(map) == no_bindings(),
{
    FxHashMap::default()
}

/// `HashMap::insert` on a substitution: the type is stored under the name,
/// in place of whatever was stored under an equal name; no other entry
/// changes.
#[verifier::external_body]
fn substitution_insert(map: &mut FxHashMap<String, Type>, name: String, ty: Type)
    ensures
        substitution_entries(*final(map)) == substitution_entries(*old(map)).insert(name@, ty),
{
    map.insert(name, ty);
}

/// `HashMap::get` on a substitution: the type stored under the name, if
/// there is one.
#[verifier::external_body]
fn substitution_get<'a>(map: &'a FxHashMap<String, Type>, name: &str) -> (found: Option<&'a Type>)
    ensures
        match found {
            Some(ty) => substitution_entries(*map).contains_key(name@) && *ty
                == substitution_entries(*map)[name@],
            None => !substitution_entries(*map).contains_key(name@),
        },
{
    map.get(name)
}

/// The type with every reference to a name of the substitution replaced by
/// a copy of its binding.
pub fn substitute_type(ty: &Type, type_map: &FxHashMap<String, Type>) -> (substituted: Type)
    ensures
        substituted@ == substitute(ty@, substitution(*type_map)),
    decreases ty,
{
    match ty {
        Type::TypeRef(reference) => {
            match substitution_get(type_map, reference.name.as_str()) {
                Some(binding) => clone_type(binding),
                None => Type::TypeRef(
                    TsTypeRef {
                        name: reference.name.clone(),
                        type_params: substitute_types(&reference.type_params, type_map),
                    },
                ),
            }
        },
        Type::Union(members) => Type::Union(substitute_types(members, type_map)),
        Type::Intersection(members) => Type::Intersection(substitute_types(members, type_map)),
        Type::Function(function) => Type::Function(substitute_signature(function, type_map)),
        _ => clone_type(ty),
    }
}

fn substitute_types(types: &Vec<Type>, type_map: &FxHashMap<String, Type>) -> (substituted: Vec<
    Type,
>)
    ensures
        type_views(substituted@) == substitute_all(type_views(types@), substitution(*type_map)),
    decreases types,
{
    let mut substituted: Vec<Type> = Vec::new();
    let mut i: usize = 0;
    while i < types.len()
        invariant
            0 <= i <= types.len(),
            substituted@.len() == i,
            forall|j: int|
                0 <= j < i ==> (#[trigger] substituted@[j])@ == substitute(
                    types@[j]@,
                    substitution(*type_map),
                ),
        decreases types.len() - i,
    {
        substituted.push(substitute_type(&types[i], type_map));
        i = i + 1;
    }
    proof {
        assert(type_views(substituted@) =~= substitute_all(
            type_views(types@),
            substitution(*type_map),
        ));
    }
    substituted
}

fn substitute_signature(function: &TsFunctionSignature, type_map: &FxHashMap<String, Type>) -> (
    substituted: TsFunctionSignature)
    ensures
        substituted@ == substitute_function(function@, substitution(*type_map)),
    decreases function,
{
    let params = &function.params;
    let mut substituted: Vec<FunctionParam> = Vec::new();
    let mut i: usize = 0;
    while i < params.len()
        invariant
            0 <= i <= params.len(),
            params == &function.params,
            substituted@.len() == i,
            forall|j: int|
                0 <= j < i ==> (#[trigger] substituted@[j])@ == (ParamView {
                    name: params@[j].name@,
                    param_type: substitute(params@[j].param_type@, substitution(*type_map)),
                    is_optional: params@[j].is_optional,
                }),
        decreases params.len() - i,
    {
        let param = &params[i];
        substituted.push(
            FunctionParam {
                name: param.name.clone(),
                param_type: substitute_type(&param.param_type, type_map),
                is_optional: param.is_optional,
            },
        );
        i = i + 1;
    }
    let result = TsFunctionSignature {
        type_params: clone_type_params(&function.type_params),
        this_param: match &function.this_param {
            Some(t) => Some(Box::new(clone_type(&**t))),
            None => None,
        },
        params: substituted,
        return_type: Box::new(substitute_type(&*function.return_type, type_map)),
        is_async: function.is_async,
    };
    proof {
        let expected = substitute_function(function@, substitution(*type_map));
        assert(function@.params == param_views(function.params@));
        assert(result@.params.len() == expected.params.len());
        assert forall|j: int| 0 <= j < result@.params.len() implies result@.params[j]
            == expected.params[j] by {
            assert(result@.params[j] == substituted@[j]@);
            assert(function@.params[j] == params@[j]@);
        }
        assert(result@.params =~= expected.params);
    }
    result
}

impl TypeAnalyzer {
    /// A generic type applied to arguments.
    pub fn apply_type_arguments(&self, base_type: &Type, type_args: &Vec<Type>) -> (applied: Type)
        ensures
            applied@ == apply_arguments(base_type@, type_views(type_args@)),
    {
        match base_type {
            Type::Interface(interface) => {
                let type_params = &interface.type_params;
                proof {
                    assert(base_type@ == TypeView::Interface(interface@));
                    assert(interface@.type_params.len() == type_params.len());
                    assert(type_views(type_args@).len() == type_args.len());
                }
                if type_params.len() != type_args.len() {
                    return Type::Unknown;
                }
                let mut type_map = empty_substitution();
                let mut k: usize = 0;
                proof {
                    assert(substitution(type_map) =~= bind_arguments(
                        type_param_views(type_params@).take(0),
                        type_views(type_args@).take(0),
                    ));
                }
                while k < type_params.len()
                    invariant
                        0 <= k <= type_params.len(),
                        type_params.len() == type_args.len(),
                        substitution(type_map) == bind_arguments(
                            type_param_views(type_params@).take(k as int),
                            type_views(type_args@).take(k as int),
                        ),
                    decreases type_params.len() - k,
                {
                    let ghost before = substitution_entries(type_map);
                    let argument = clone_type(&type_args[k]);
                    let name = type_params[k].name.clone();
                    substitution_insert(&mut type_map, name, argument);
                    proof {
                        let params = type_param_views(type_params@);
                        let args = type_views(type_args@);
                        assert(params.take(k as int + 1).drop_last() =~= params.take(k as int));
                        assert(args.take(k as int + 1).drop_last() =~= args.take(k as int));
                        assert(substitution(type_map) =~= before.map_values(|ty: Type| ty@).insert(
                            name@,
                            argument@,
                        ));
                    }
                    k = k + 1;
                }
                proof {
                    let params = type_param_views(type_params@);
                    let args = type_views(type_args@);
                    assert(params.take(params.len() as int) =~= params);
                    assert(args.take(args.len() as int) =~= args);
                }
                let properties = &interface.properties;
                let mut resolved: Vec<TsInterfaceProperty> = Vec::new();
                let mut i: usize = 0;
                while i < properties.len()
                    invariant
                        0 <= i <= properties.len(),
                        properties == &interface.properties,
                        resolved@.len() == i,
                        forall|j: int|
                            0 <= j < i ==> (#[trigger] resolved@[j])@ == (PropertyView {
                                name: properties@[j].name@,
                                type_info: substitute(
                                    properties@[j].type_info@,
                                    substitution(type_map),
                                ),
                                is_optional: properties@[j].is_optional,
                                is_readonly: properties@[j].is_readonly,
                            }),
                    decreases properties.len() - i,
                {
                    let property = &properties[i];
                    resolved.push(
                        TsInterfaceProperty {
                            name: property.name.clone(),
                            type_info: substitute_type(&property.type_info, &type_map),
                            is_optional: property.is_optional,
                            is_readonly: property.is_readonly,
                        },
                    );
                    i = i + 1;
                }
                let applied = TsInterface {
                    name: interface.name.clone(),
                    extends: clone_types(&interface.extends),
                    properties: resolved,
                    type_params: clone_type_params(&interface.type_params),
                };
                proof {
                    let expected = substitute_properties(
                        interface@.properties,
                        substitution(type_map),
                    );
                    assert(interface@.properties == property_views(properties@));
                    assert forall|j: int| 0 <= j < applied@.properties.len() implies applied@.properties[j]
                        == expected[j] by {
                        assert(applied@.properties[j] == resolved@[j]@);
                        assert(interface@.properties[j] == properties@[j]@);
                    }
                    assert(applied@.properties =~= expected);
                }
                Type::Interface(applied)
            },
            _ => clone_type(base_type),
        }
    }
}

impl TypeAnalyzer {
    /// What the type of a symbol stands for in the file at `path`.
    pub fn resolve_type_info(&self, symbol: &Symbol, path: &str) -> (resolved: Type)
        ensures
            resolved@ == resolve_definition(
                self.scope_types(path@),
                self.ambient_types(),
                symbol.ty@,
                RESOLUTION_DEPTH as nat,
            ),
    {
        self.resolve_definition_to(&symbol.ty, path, RESOLUTION_DEPTH)
    }

    /// What a type stands for in the file at `path`, references looked up.
    pub fn resolve_type_info_inner(&self, ty: &Type, path: &str) -> (resolved: Type)
        ensures
            resolved@ == resolve_reference(
                self.scope_types(path@),
                self.ambient_types(),
                ty@,
                RESOLUTION_DEPTH as nat,
            ),
    {
        self.resolve_reference_to(ty, path, RESOLUTION_DEPTH)
    }

    /// What the type of a symbol stands for, ambient definitions followed
    /// `depth` deep.
    pub fn resolve_definition_to(&self, ty: &Type, path: &str, depth: usize) -> (resolved: Type)
        ensures
            resolved@ == resolve_definition(
                self.scope_types(path@),
                self.ambient_types(),
                ty@,
                depth as nat,
            ),
        decreases depth, ty,
    {
        match ty {
            Type::Interface(interface) => Type::Interface(
                self.resolve_interface_to(interface, path, depth),
            ),
            Type::Function(function) => Type::Function(
                self.resolve_function_to(function, path, depth),
            ),
            _ => clone_type(ty),
        }
    }

    /// What a type stands for, ambient definitions followed `depth` deep.
    pub fn resolve_reference_to(&self, ty: &Type, path: &str, depth: usize) -> (resolved: Type)
        ensures
            resolved@ == resolve_reference(
                self.scope_types(path@),
                self.ambient_types(),
                ty@,
                depth as nat,
            ),
        decreases depth, ty,
    {
        match ty {
            Type::TypeRef(reference) => {
                match self.get_symbol_in(path, reference.name.as_str()) {
                    Some(symbol) => self.apply_type_arguments(&symbol.ty, &reference.type_params),
                    None => match self.get_global_symbol(reference.name.as_str()) {
                        Some(symbol) => {
                            if depth == 0 {
                                clone_type(ty)
                            } else {
                                let definition = self.resolve_definition_to(
                                    &symbol.ty,
                                    path,
                                    depth - 1,
                                );
                                if reference.type_params.len() > 0 {
                                    self.apply_type_arguments(&definition, &reference.type_params)
                                } else {
                                    definition
                                }
                            }
                        },
                        None => Type::Unknown,
                    },
                }
            },
            Type::Union(members) => Type::Union(self.resolve_references_to(members, path, depth)),
            Type::Intersection(members) => Type::Intersection(
                self.resolve_references_to(members, path, depth),
            ),
            Type::Function(function) => Type::Function(
                self.resolve_function_to(function, path, depth),
            ),
            _ => clone_type(ty),
        }
    }

    fn resolve_references_to(&self, types: &Vec<Type>, path: &str, depth: usize) -> (resolved: Vec<
        Type,
    >)
        ensures
            type_views(resolved@) == resolve_references(
                self.scope_types(path@),
                self.ambient_types(),
                type_views(types@),
                depth as nat,
            ),
        decreases depth, types,
    {
        let mut resolved: Vec<Type> = Vec::new();
        let mut i: usize = 0;
        while i < types.len()
            invariant
                0 <= i <= types.len(),
                resolved@.len() == i,
                forall|j: int|
                    0 <= j < i ==> (#[trigger] resolved@[j])@ == resolve_reference(
                        self.scope_types(path@),
                        self.ambient_types(),
                        types@[j]@,
                        depth as nat,
                    ),
            decreases types.len() - i,
        {
            resolved.push(self.resolve_reference_to(&types[i], path, depth));
            i = i + 1;
        }
        proof {
            assert(type_views(resolved@) =~= resolve_references(
                self.scope_types(path@),
                self.ambient_types(),
                type_views(types@),
                depth as nat,
            ));
        }
        resolved
    }

    fn resolve_optional_to(&self, ty: &Option<Type>, path: &str, depth: usize) -> (resolved: Option<
        Type,
    >)
        ensures
            optional_type_view(resolved) == resolve_optional(
                self.scope_types(path@),
                self.ambient_types(),
                optional_type_view(*ty),
                depth as nat,
            ),
        decreases depth, ty,
    {
        match ty {
            Some(t) => Some(self.resolve_reference_to(t, path, depth)),
            None => None,
        }
    }

    fn resolve_function_to(&self, function: &TsFunctionSignature, path: &str, depth: usize) -> (
        resolved: TsFunctionSignature)
        ensures
            resolved@ == resolve_function(
                self.scope_types(path@),
                self.ambient_types(),
                function@,
                depth as nat,
            ),
        decreases depth, function,
    {
        let params = &function.params;
        let mut resolved: Vec<FunctionParam> = Vec::new();
        let mut i: usize = 0;
        while i < params.len()
            invariant
                0 <= i <= params.len(),
                params == &function.params,
                resolved@.len() == i,
                forall|j: int|
                    0 <= j < i ==> (#[trigger] resolved@[j])@ == (ParamView {
                        name: params@[j].name@,
                        param_type: resolve_reference(
                            self.scope_types(path@),
                            self.ambient_types(),
                            params@[j].param_type@,
                            depth as nat,
                        ),
                        is_optional: params@[j].is_optional,
                    }),
            decreases params.len() - i,
        {
            let param = &params[i];
            resolved.push(
                FunctionParam {
                    name: param.name.clone(),
                    param_type: self.resolve_reference_to(&param.param_type, path, depth),
                    is_optional: param.is_optional,
                },
            );
            i = i + 1;
        }
        let result = TsFunctionSignature {
            type_params: clone_type_params(&function.type_params),
            this_param: match &function.this_param {
                Some(t) => Some(Box::new(clone_type(&**t))),
                None => None,
            },
            params: resolved,
            return_type: Box::new(self.resolve_reference_to(&*function.return_type, path, depth)),
            is_async: function.is_async,
        };
        proof {
            let expected = resolve_function(
                self.scope_types(path@),
                self.ambient_types(),
                function@,
                depth as nat,
            );
            assert(function@.params == param_views(function.params@));
            assert forall|j: int| 0 <= j < result@.params.len() implies result@.params[j]
                == expected.params[j] by {
                assert(result@.params[j] == resolved@[j]@);
                assert(function@.params[j] == params@[j]@);
            }
            assert(result@.params =~= expected.params);
        }
        result
    }

    fn resolve_interface_to(&self, interface: &TsInterface, path: &str, depth: usize) -> (resolved:
        TsInterface)
        ensures
            resolved@ == resolve_interface(
                self.scope_types(path@),
                self.ambient_types(),
                interface@,
                depth as nat,
            ),
        decreases depth, interface,
    {
        let type_params = &interface.type_params;
        let mut resolved_params: Vec<TypeParam> = Vec::new();
        let mut k: usize = 0;
        while k < type_params.len()
            invariant
                0 <= k <= type_params.len(),
                type_params == &interface.type_params,
                resolved_params@.len() == k,
                forall|j: int|
                    0 <= j < k ==> (#[trigger] resolved_params@[j])@ == (TypeParamView {
                        name: type_params@[j].name@,
                        constraint: resolve_optional(
                            self.scope_types(path@),
                            self.ambient_types(),
                            optional_type_view(type_params@[j].constraint),
                            depth as nat,
                        ),
                        default: resolve_optional(
                            self.scope_types(path@),
                            self.ambient_types(),
                            optional_type_view(type_params@[j].default),
                            depth as nat,
                        ),
                    }),
            decreases type_params.len() - k,
        {
            let param = &type_params[k];
            resolved_params.push(
                TypeParam {
                    name: param.name.clone(),
                    constraint: self.resolve_optional_to(&param.constraint, path, depth),
                    default: self.resolve_optional_to(&param.default, path, depth),
                },
            );
            k = k + 1;
        }
        let properties = &interface.properties;
        let mut resolved_properties: Vec<TsInterfaceProperty> = Vec::new();
        let mut i: usize = 0;
        while i < properties.len()
            invariant
                0 <= i <= properties.len(),
                properties == &interface.properties,
                resolved_properties@.len() == i,
                forall|j: int|
                    0 <= j < i ==> (#[trigger] resolved_properties@[j])@ == (PropertyView {
                        name: properties@[j].name@,
                        type_info: resolve_reference(
                            self.scope_types(path@),
                            self.ambient_types(),
                            properties@[j].type_info@,
                            depth as nat,
                        ),
                        is_optional: properties@[j].is_optional,
                        is_readonly: properties@[j].is_readonly,
                    }),
            decreases properties.len() - i,
        {
            let property = &properties[i];
            resolved_properties.push(
                TsInterfaceProperty {
                    name: property.name.clone(),
                    type_info: self.resolve_reference_to(&property.type_info, path, depth),
                    is_optional: property.is_optional,
                    is_readonly: property.is_readonly,
                },
            );
            i = i + 1;
        }
        let result = TsInterface {
            name: interface.name.clone(),
            extends: self.resolve_references_to(&interface.extends, path, depth),
            properties: resolved_properties,
            type_params: resolved_params,
        };
        proof {
            let expected = resolve_interface(
                self.scope_types(path@),
                self.ambient_types(),
                interface@,
                depth as nat,
            );
            assert(interface@.properties == property_views(properties@));
            assert(interface@.type_params == type_param_views(type_params@));
            assert forall|j: int| 0 <= j < result@.properties.len() implies result@.properties[j]
                == expected.properties[j] by {
                assert(result@.properties[j] == resolved_properties@[j]@);
                assert(interface@.properties[j] == properties@[j]@);
            }
            assert(result@.properties =~= expected.properties);
            assert forall|j: int| 0 <= j < result@.type_params.len() implies result@.type_params[j]
                == expected.type_params[j] by {
                assert(result@.type_params[j] == resolved_params@[j]@);
                assert(interface@.type_params[j] == type_params@[j]@);
            }
            assert(result@.type_params =~= expected.type_params);
        }
        result
    }
}

/// A type parameter is bound to the argument at its place, unless a later
/// parameter has its name.
pub proof fn lemma_parameter_is_bound_to_its_argument(
    type_params: Seq<TypeParamView>,
    args: Seq<TypeView>,
    k: int,
)
    requires
        type_params.len() == args.len(),
        0 <= k < args.len(),
        forall|j: int| k < j < type_params.len() ==> type_params[j].name != type_params[k].name,
    ensures
        bind_arguments(type_params, args).contains_key(type_params[k].name),
        bind_arguments(type_params, args)[type_params[k].name] == args[k],
    decreases type_params.len(),
{
    if k < type_params.len() - 1 {
        let earlier = type_params.drop_last();
        assert(earlier[k] == type_params[k]);
        assert forall|j: int| k < j < earlier.len() implies earlier[j].name != earlier[k].name by {
            assert(earlier[j] == type_params[j]);
        }
        lemma_parameter_is_bound_to_its_argument(earlier, args.drop_last(), k);
        assert(type_params.last().name != type_params[k].name);
    }
}

/// A generic interface applied to as many arguments as it has type
/// parameters: a property whose type is a reference to a type parameter
/// has the argument at that parameter's place as its type, and keeps its
/// name and flags.
pub proof fn lemma_argument_replaces_parameter(
    interface: InterfaceView,
    args: Seq<TypeView>,
    i: int,
    k: int,
)
    requires
        interface.type_params.len() == args.len(),
        0 <= i < interface.properties.len(),
        0 <= k < args.len(),
        interface.properties[i].type_info is TypeRef,
        interface.properties[i].type_info->TypeRef_0.name == interface.type_params[k].name,
        forall|j: int|
            k < j < interface.type_params.len() ==> interface.type_params[j].name
                != interface.type_params[k].name,
    ensures
        apply_arguments(TypeView::Interface(interface), args) is Interface,
        apply_arguments(TypeView::Interface(interface), args)->Interface_0.properties[i]
            == (PropertyView {
            name: interface.properties[i].name,
            type_info: args[k],
            is_optional: interface.properties[i].is_optional,
            is_readonly: interface.properties[i].is_readonly,
        }),
{
    lemma_parameter_is_bound_to_its_argument(interface.type_params, args, k);
}

/// A name that the file binds is resolved against the file's own
/// definition, whatever the ambient scope holds and however deep ambient
/// definitions are followed.
pub proof fn lemma_local_definition_shadows_ambient(
    local: Map<Seq<char>, TypeView>,
    ambient: Map<Seq<char>, TypeView>,
    reference: TypeRefView,
    depth: nat,
)
    requires
        local.contains_key(reference.name),
    ensures
        resolve_reference(local, ambient, TypeView::TypeRef(reference), depth) == apply_arguments(
            local[reference.name],
            reference.type_params,
        ),
{
}

/// An interface applied to another number of arguments than it has type
/// parameters is `Unknown`: no parameter takes its default.
pub proof fn lemma_wrong_arity_is_unknown(interface: InterfaceView, args: Seq<TypeView>)
    requires
        interface.type_params.len() != args.len(),
    ensures
        apply_arguments(TypeView::Interface(interface), args) == TypeView::Unknown,
{
}

/// At depth 0 a reference to a name that only the ambient scope binds
/// stays as it is.
pub proof fn lemma_ambient_reference_stays_at_depth_zero(
    local: Map<Seq<char>, TypeView>,
    ambient: Map<Seq<char>, TypeView>,
    reference: TypeRefView,
)
    requires
        !local.contains_key(reference.name),
        ambient.contains_key(reference.name),
    ensures
        resolve_reference(local, ambient, TypeView::TypeRef(reference), 0)
            == TypeView::TypeRef(reference),
{
}

/// A name that neither scope binds resolves to `Unknown`.
pub proof fn lemma_unbound_name_is_unknown(
    local: Map<Seq<char>, TypeView>,
    ambient: Map<Seq<char>, TypeView>,
    reference: TypeRefView,
    depth: nat,
)
    requires
        !local.contains_key(reference.name),
        !ambient.contains_key(reference.name),
    ensures
        resolve_reference(local, ambient, TypeView::TypeRef(reference), depth)
            == TypeView::Unknown,
{
}

/// Resolution of a union or an intersection resolves each member at its
/// place and keeps the kind.
pub proof fn lemma_resolution_is_pointwise(
    local: Map<Seq<char>, TypeView>,
    ambient: Map<Seq<char>, TypeView>,
    members: Seq<TypeView>,
    depth: nat,
)
    ensures
        resolve_reference(local, ambient, TypeView::Union(members), depth) == TypeView::Union(
            resolve_references(local, ambient, members, depth),
        ),
        resolve_reference(local, ambient, TypeView::Intersection(members), depth)
            == TypeView::Intersection(resolve_references(local, ambient, members, depth)),
        resolve_references(local, ambient, members, depth).len() == members.len(),
        forall|i: int|
            0 <= i < members.len() ==> #[trigger] resolve_references(
                local,
                ambient,
                members,
                depth,
            )[i] == resolve_reference(local, ambient, members[i], depth),
{
}

/// Resolving an interface keeps its name, the number and names of its type
/// parameters, and the number, names and flags of its properties; the type
/// of each property is the resolution of the declared one.
pub proof fn lemma_resolution_keeps_flags(
    local: Map<Seq<char>, TypeView>,
    ambient: Map<Seq<char>, TypeView>,
    interface: InterfaceView,
    depth: nat,
)
    ensures
        resolve_definition(local, ambient, TypeView::Interface(interface), depth)
            == TypeView::Interface(resolve_interface(local, ambient, interface, depth)),
        resolve_interface(local, ambient, interface, depth).name == interface.name,
        resolve_interface(local, ambient, interface, depth).type_params.len()
            == interface.type_params.len(),
        resolve_interface(local, ambient, interface, depth).properties.len()
            == interface.properties.len(),
        forall|i: int|
            0 <= i < interface.type_params.len() ==> (#[trigger] resolve_interface(
                local,
                ambient,
                interface,
                depth,
            ).type_params[i]).name == interface.type_params[i].name,
        forall|i: int|
            0 <= i < interface.properties.len() ==> #[trigger] resolve_interface(
                local,
                ambient,
                interface,
                depth,
            ).properties[i] == (PropertyView {
                name: interface.properties[i].name,
                type_info: resolve_reference(
                    local,
                    ambient,
                    interface.properties[i].type_info,
                    depth,
                ),
                is_optional: interface.properties[i].is_optional,
                is_readonly: interface.properties[i].is_readonly,
            }),
{
}

/// Whether a type holds no reference where resolution looks: below
/// unions, intersections, and the parameters and results of functions.
pub open spec fn is_reference_free(ty: TypeView) -> bool
    decreases ty,
{
    match ty {
        TypeView::TypeRef(_) => false,
        TypeView::Union(members) => forall|i: int|
            0 <= i < members.len() ==> is_reference_free(#[trigger] members[i]),
        TypeView::Intersection(members) => forall|i: int|
            0 <= i < members.len() ==> is_reference_free(#[trigger] members[i]),
        TypeView::Function(function) => is_reference_free(*function.return_type) && forall|
            i: int,
        |
            0 <= i < function.params.len() ==> is_reference_free(
                (#[trigger] function.params[i]).param_type,
            ),
        _ => true,
    }
}

/// A type without references is its own resolution, in every file.
pub proof fn lemma_reference_free_type_is_resolved(
    local: Map<Seq<char>, TypeView>,
    ambient: Map<Seq<char>, TypeView>,
    ty: TypeView,
    depth: nat,
)
    requires
        is_reference_free(ty),
    ensures
        resolve_reference(local, ambient, ty, depth) == ty,
    decreases ty,
{
    match ty {
        TypeView::Union(members) => {
            assert forall|i: int| 0 <= i < members.len() implies resolve_reference(
                local,
                ambient,
                #[trigger] members[i],
                depth,
            ) == members[i] by {
                assert(ty->Union_0[i] == members[i]);
                lemma_reference_free_type_is_resolved(local, ambient, members[i], depth);
            }
            assert(resolve_references(local, ambient, members, depth) =~= members);
        },
        TypeView::Intersection(members) => {
            assert forall|i: int| 0 <= i < members.len() implies resolve_reference(
                local,
                ambient,
                #[trigger] members[i],
                depth,
            ) == members[i] by {
                assert(ty->Intersection_0[i] == members[i]);
                lemma_reference_free_type_is_resolved(local, ambient, members[i], depth);
            }
            assert(resolve_references(local, ambient, members, depth) =~= members);
        },
        TypeView::Function(function) => {
            lemma_reference_free_type_is_resolved(local, ambient, *function.return_type, depth);
            assert forall|i: int| 0 <= i < function.params.len() implies resolve_reference(
                local,
                ambient,
                (#[trigger] function.params[i]).param_type,
                depth,
            ) == function.params[i].param_type by {
                assert(ty->Function_0.params[i] == function.params[i]);
                lemma_reference_free_type_is_resolved(
                    local,
                    ambient,
                    function.params[i].param_type,
                    depth,
                );
            }
            let resolved = resolve_function(local, ambient, function, depth);
            assert(resolved.params =~= function.params);
            assert(resolved == function);
        },
        _ => {},
    }
}

/// A property whose declared type holds no reference has that type after
/// its interface is resolved.
pub proof fn lemma_resolved_property_has_declared_type(
    local: Map<Seq<char>, TypeView>,
    ambient: Map<Seq<char>, TypeView>,
    interface: InterfaceView,
    depth: nat,
    i: int,
)
    requires
        0 <= i < interface.properties.len(),
        is_reference_free(interface.properties[i].type_info),
    ensures
        resolve_interface(local, ambient, interface, depth).properties[i]
            == interface.properties[i],
{
    lemma_reference_free_type_is_resolved(
        local,
        ambient,
        interface.properties[i].type_info,
        depth,
    );
}

} // verus!
