//! The type terms that the analysis produces, and their mathematical views.

use vstd::prelude::*;

verus! {

/// A TypeScript type as far as the analysis models it.
#[derive(Debug, PartialEq, Eq)]
pub enum Type {
    /// A primitive or special type that a keyword names.
    KeywordType(TsKeywordTypeKind),
    /// `A | B`, members in written order.
    Union(Vec<Type>),
    /// `A & B`, members in written order.
    Intersection(Vec<Type>),
    Function(TsFunctionSignature),
    Alias(TsTypeAlias),
    Interface(TsInterface),
    Literal(TsLiteralTypeKind),
    /// A reference by name that is not resolved yet.
    TypeRef(TsTypeRef),
    /// The analysis could not tell. Not the keyword `unknown`.
    Unknown,
}

/// The types that keywords name.
#[derive(Debug, Clone, Copy, PartialEq, Eq)]
pub enum TsKeywordTypeKind {
    BigInt,
    Boolean,
    Null,
    Number,
    String,
    Symbol,
    Undefined,
    Any,
    Unknown,
    Never,
    Void,
    Object,
}

/// The type of one literal value.
#[derive(Debug, PartialEq, Eq)]
pub enum TsLiteralTypeKind {
    Number(i64),
    String(String),
    Boolean(BoolLiteral),
    Object(ObjectLiteral),
}

/// `true` or `false` as a type.
#[derive(Debug, Clone, Copy, PartialEq, Eq)]
pub enum BoolLiteral {
    True,
    False,
}

/// The type of an object literal: its properties in written order.
#[derive(Debug, PartialEq, Eq)]
pub struct ObjectLiteral {
    pub properties: Vec<ObjectPropertyType>,
}

/// One property of an object literal with the type of its value.
#[derive(Debug, PartialEq, Eq)]
pub struct ObjectPropertyType {
    pub name: String,
    pub type_info: Type,
}

/// The signature of a function. The result is always there: `Unknown`
/// where none is declared.
#[derive(Debug, PartialEq, Eq)]
pub struct TsFunctionSignature {
    pub type_params: Vec<TypeParam>,
    pub this_param: Option<Box<Type>>,
    pub params: Vec<FunctionParam>,
    pub return_type: Box<Type>,
    pub is_async: bool,
}

/// One declared parameter of a function.
#[derive(Debug, PartialEq, Eq)]
pub struct FunctionParam {
    pub name: String,
    pub param_type: Type,
    pub is_optional: bool,
}

/// An interface with its type parameters and its properties in written order.
#[derive(Debug, PartialEq, Eq)]
pub struct TsInterface {
    pub name: String,
    pub extends: Vec<Type>,
    pub properties: Vec<TsInterfaceProperty>,
    pub type_params: Vec<TypeParam>,
}

/// One property of an interface. A method is a property whose type is a
/// function.
#[derive(Debug, PartialEq, Eq)]
pub struct TsInterfaceProperty {
    pub name: String,
    pub type_info: Type,
    pub is_optional: bool,
    pub is_readonly: bool,
}

/// A named alias of a type.
#[derive(Debug, PartialEq, Eq)]
pub struct TsTypeAlias {
    pub name: String,
    pub type_params: Vec<TypeParam>,
    pub aliased_type: Box<Type>,
}

/// A reference to a named type with its type arguments.
#[derive(Debug, PartialEq, Eq)]
pub struct TsTypeRef {
    pub name: String,
    pub type_params: Vec<Type>,
}

/// A type parameter with the types of its `extends` and `=` clauses.
#[derive(Debug, PartialEq, Eq)]
pub struct TypeParam {
    pub name: String,
    pub constraint: Option<Type>,
    pub default: Option<Type>,
}

/// The mathematical value of a [`Type`]: the same tree over sequences.
pub enum TypeView {
    KeywordType(TsKeywordTypeKind),
    Union(Seq<TypeView>),
    Intersection(Seq<TypeView>),
    Function(FunctionView),
    Alias(AliasView),
    Interface(InterfaceView),
    Literal(LiteralView),
    TypeRef(TypeRefView),
    Unknown,
}

/// The mathematical value of a [`TsLiteralTypeKind`].
pub enum LiteralView {
    Number(i64),
    String(Seq<char>),
    Boolean(BoolLiteral),
    Object(Seq<ObjectPropertyView>),
}

/// The mathematical value of an [`ObjectPropertyType`].
pub struct ObjectPropertyView {
    pub name: Seq<char>,
    pub type_info: TypeView,
}

/// The mathematical value of a [`TsFunctionSignature`].
pub struct FunctionView {
    pub type_params: Seq<TypeParamView>,
    pub this_param: Option<Box<TypeView>>,
    pub params: Seq<ParamView>,
    pub return_type: Box<TypeView>,
    pub is_async: bool,
}

/// The mathematical value of a [`FunctionParam`].
pub struct ParamView {
    pub name: Seq<char>,
    pub param_type: TypeView,
    pub is_optional: bool,
}

/// The mathematical value of a [`TsInterface`].
pub struct InterfaceView {
    pub name: Seq<char>,
    pub extends: Seq<TypeView>,
    pub properties: Seq<PropertyView>,
    pub type_params: Seq<TypeParamView>,
}

/// The mathematical value of a [`TsInterfaceProperty`].
pub struct PropertyView {
    pub name: Seq<char>,
    pub type_info: TypeView,
    pub is_optional: bool,
    pub is_readonly: bool,
}

/// The mathematical value of a [`TsTypeAlias`].
pub struct AliasView {
    pub name: Seq<char>,
    pub type_params: Seq<TypeParamView>,
    pub aliased_type: Box<TypeView>,
}

/// The mathematical value of a [`TsTypeRef`].
pub struct TypeRefView {
    pub name: Seq<char>,
    pub type_params: Seq<TypeView>,
}

/// The mathematical value of a [`TypeParam`].
pub struct TypeParamView {
    pub name: Seq<char>,
    pub constraint: Option<TypeView>,
    pub default: Option<TypeView>,
}

/// The value of a type: the same tree, with each vector as the sequence of
/// the values of its elements and each string as its characters.
pub open spec fn type_view(t: Type) -> TypeView
    decreases t,
{
    match t {
        Type::KeywordType(k) => TypeView::KeywordType(k),
        Type::Union(members) => TypeView::Union(type_views(members@)),
        Type::Intersection(members) => TypeView::Intersection(type_views(members@)),
        Type::Function(f) => TypeView::Function(function_view(f)),
        Type::Alias(a) => TypeView::Alias(
            AliasView {
                name: a.name@,
                type_params: type_param_views(a.type_params@),
                aliased_type: Box::new(type_view(*a.aliased_type)),
            },
        ),
        Type::Interface(i) => TypeView::Interface(interface_view(i)),
        Type::Literal(l) => TypeView::Literal(
            match l {
                TsLiteralTypeKind::Number(n) => LiteralView::Number(n),
                TsLiteralTypeKind::String(s) => LiteralView::String(s@),
                TsLiteralTypeKind::Boolean(b) => LiteralView::Boolean(b),
                TsLiteralTypeKind::Object(o) => LiteralView::Object(
                    object_property_views(o.properties@),
                ),
            },
        ),
        Type::TypeRef(r) => TypeView::TypeRef(
            TypeRefView { name: r.name@, type_params: type_views(r.type_params@) },
        ),
        Type::Unknown => TypeView::Unknown,
    }
}

/// The values of the types of a sequence, each at its place.
pub open spec fn type_views(s: Seq<Type>) -> Seq<TypeView>
    decreases s,
{
    Seq::new(
        s.len(),
        |i: int|
            if 0 <= i < s.len() {
                type_view(s[i])
            } else {
                TypeView::Unknown
            },
    )
}

/// The value of an optional type.
pub open spec fn optional_type_view(t: Option<Type>) -> Option<TypeView>
    decreases t,
{
    match t {
        Some(ty) => Some(type_view(ty)),
        None => None,
    }
}

/// The value of a type parameter.
pub open spec fn type_param_view(p: TypeParam) -> TypeParamView
    decreases p,
{
    TypeParamView {
        name: p.name@,
        constraint: optional_type_view(p.constraint),
        default: optional_type_view(p.default),
    }
}

/// The values of the type parameters of a sequence, each at its place.
pub open spec fn type_param_views(s: Seq<TypeParam>) -> Seq<TypeParamView>
    decreases s,
{
    Seq::new(
        s.len(),
        |i: int|
            if 0 <= i < s.len() {
                type_param_view(s[i])
            } else {
                TypeParamView { name: Seq::empty(), constraint: None, default: None }
            },
    )
}

/// The value of a function signature.
pub open spec fn function_view(f: TsFunctionSignature) -> FunctionView
    decreases f,
{
    FunctionView {
        type_params: type_param_views(f.type_params@),
        this_param: match f.this_param {
            Some(t) => Some(Box::new(type_view(*t))),
            None => None,
        },
        params: param_views(f.params@),
        return_type: Box::new(type_view(*f.return_type)),
        is_async: f.is_async,
    }
}

/// The value of a parameter.
pub open spec fn param_view(p: FunctionParam) -> ParamView
    decreases p,
{
    ParamView { name: p.name@, param_type: type_view(p.param_type), is_optional: p.is_optional }
}

/// The values of the parameters of a sequence, each at its place.
pub open spec fn param_views(s: Seq<FunctionParam>) -> Seq<ParamView>
    decreases s,
{
    Seq::new(
        s.len(),
        |i: int|
            if 0 <= i < s.len() {
                param_view(s[i])
            } else {
                ParamView { name: Seq::empty(), param_type: TypeView::Unknown, is_optional: false }
            },
    )
}

/// The value of an interface.
pub open spec fn interface_view(i: TsInterface) -> InterfaceView
    decreases i,
{
    InterfaceView {
        name: i.name@,
        extends: type_views(i.extends@),
        properties: property_views(i.properties@),
        type_params: type_param_views(i.type_params@),
    }
}

/// The value of a property.
pub open spec fn property_view(p: TsInterfaceProperty) -> PropertyView
    decreases p,
{
    PropertyView {
        name: p.name@,
        type_info: type_view(p.type_info),
        is_optional: p.is_optional,
        is_readonly: p.is_readonly,
    }
}

/// The values of the properties of a sequence, each at its place.
pub open spec fn property_views(s: Seq<TsInterfaceProperty>) -> Seq<PropertyView>
    decreases s,
{
    Seq::new(
        s.len(),
        |i: int|
            if 0 <= i < s.len() {
                property_view(s[i])
            } else {
                PropertyView {
                    name: Seq::empty(),
                    type_info: TypeView::Unknown,
                    is_optional: false,
                    is_readonly: false,
                }
            },
    )
}

/// The value of a property of an object literal.
pub open spec fn object_property_view(p: ObjectPropertyType) -> ObjectPropertyView
    decreases p,
{
    ObjectPropertyView { name: p.name@, type_info: type_view(p.type_info) }
}

/// The values of the properties of an object literal, each at its place.
pub open spec fn object_property_views(s: Seq<ObjectPropertyType>) -> Seq<ObjectPropertyView>
    decreases s,
{
    Seq::new(
        s.len(),
        |i: int|
            if 0 <= i < s.len() {
                object_property_view(s[i])
            } else {
                ObjectPropertyView { name: Seq::empty(), type_info: TypeView::Unknown }
            },
    )
}

/// The value of a literal type.
pub open spec fn literal_view(l: TsLiteralTypeKind) -> LiteralView {
    match l {
        TsLiteralTypeKind::Number(n) => LiteralView::Number(n),
        TsLiteralTypeKind::String(s) => LiteralView::String(s@),
        TsLiteralTypeKind::Boolean(b) => LiteralView::Boolean(b),
        TsLiteralTypeKind::Object(o) => LiteralView::Object(object_property_views(o.properties@)),
    }
}

/// The value of a reference.
pub open spec fn type_ref_view(r: TsTypeRef) -> TypeRefView {
    TypeRefView { name: r.name@, type_params: type_views(r.type_params@) }
}

/// The value of an alias.
pub open spec fn alias_view(a: TsTypeAlias) -> AliasView {
    AliasView {
        name: a.name@,
        type_params: type_param_views(a.type_params@),
        aliased_type: Box::new(type_view(*a.aliased_type)),
    }
}

impl View for TsLiteralTypeKind {
    type V = LiteralView;

    open spec fn view(&self) -> LiteralView {
        literal_view(*self)
    }
}

impl View for ObjectLiteral {
    type V = Seq<ObjectPropertyView>;

    open spec fn view(&self) -> Seq<ObjectPropertyView> {
        object_property_views(self.properties@)
    }
}

impl View for TsTypeRef {
    type V = TypeRefView;

    open spec fn view(&self) -> TypeRefView {
        type_ref_view(*self)
    }
}

impl View for TsTypeAlias {
    type V = AliasView;

    open spec fn view(&self) -> AliasView {
        alias_view(*self)
    }
}

impl View for Type {
    type V = TypeView;

    open spec fn view(&self) -> TypeView {
        type_view(*self)
    }
}

impl View for TypeParam {
    type V = TypeParamView;

    open spec fn view(&self) -> TypeParamView {
        type_param_view(*self)
    }
}

impl View for FunctionParam {
    type V = ParamView;

    open spec fn view(&self) -> ParamView {
        param_view(*self)
    }
}

impl View for TsFunctionSignature {
    type V = FunctionView;

    open spec fn view(&self) -> FunctionView {
        function_view(*self)
    }
}

impl View for TsInterfaceProperty {
    type V = PropertyView;

    open spec fn view(&self) -> PropertyView {
        property_view(*self)
    }
}

impl View for TsInterface {
    type V = InterfaceView;

    open spec fn view(&self) -> InterfaceView {
        interface_view(*self)
    }
}

impl View for ObjectPropertyType {
    type V = ObjectPropertyView;

    open spec fn view(&self) -> ObjectPropertyView {
        object_property_view(*self)
    }
}

/// A copy of the type: another value with the same view.
pub fn clone_type(t: &Type) -> (copy: Type)
    ensures
        copy@ == t@,
    decreases t,
{
    match t {
        Type::KeywordType(k) => Type::KeywordType(*k),
        Type::Union(members) => Type::Union(clone_types(members)),
        Type::Intersection(members) => Type::Intersection(clone_types(members)),
        Type::Function(f) => Type::Function(clone_function(f)),
        Type::Alias(a) => Type::Alias(
            TsTypeAlias {
                name: a.name.clone(),
                type_params: clone_type_params(&a.type_params),
                aliased_type: Box::new(clone_type(&*a.aliased_type)),
            },
        ),
        Type::Interface(i) => Type::Interface(clone_interface(i)),
        Type::Literal(l) => Type::Literal(
            match l {
                TsLiteralTypeKind::Number(n) => TsLiteralTypeKind::Number(*n),
                TsLiteralTypeKind::String(s) => TsLiteralTypeKind::String(s.clone()),
                TsLiteralTypeKind::Boolean(b) => TsLiteralTypeKind::Boolean(*b),
                TsLiteralTypeKind::Object(o) => TsLiteralTypeKind::Object(
                    ObjectLiteral { properties: clone_object_properties(&o.properties) },
                ),
            },
        ),
        Type::TypeRef(r) => Type::TypeRef(
            TsTypeRef { name: r.name.clone(), type_params: clone_types(&r.type_params) },
        ),
        Type::Unknown => Type::Unknown,
    }
}

/// Copies of the types, each at its place.
pub fn clone_types(v: &Vec<Type>) -> (copy: Vec<Type>)
    ensures
        type_views(copy@) == type_views(v@),
    decreases v,
{
    let mut copy: Vec<Type> = Vec::new();
    let mut i: usize = 0;
    while i < v.len()
        invariant
            0 <= i <= v.len(),
            copy@.len() == i,
            forall|j: int| 0 <= j < i ==> type_view(#[trigger] copy@[j]) == type_view(v@[j]),
        decreases v.len() - i,
    {
        copy.push(clone_type(&v[i]));
        i = i + 1;
    }
    assert(type_views(copy@) =~= type_views(v@));
    copy
}

fn clone_optional_type(t: &Option<Type>) -> (copy: Option<Type>)
    ensures
        optional_type_view(copy) == optional_type_view(*t),
    decreases t,
{
    match t {
        Some(ty) => Some(clone_type(ty)),
        None => None,
    }
}

/// A copy of the type parameter.
pub fn clone_type_param(p: &TypeParam) -> (copy: TypeParam)
    ensures
        copy@ == p@,
    decreases p,
{
    TypeParam {
        name: p.name.clone(),
        constraint: clone_optional_type(&p.constraint),
        default: clone_optional_type(&p.default),
    }
}

/// Copies of the type parameters, each at its place.
pub fn clone_type_params(v: &Vec<TypeParam>) -> (copy: Vec<TypeParam>)
    ensures
        type_param_views(copy@) == type_param_views(v@),
    decreases v,
{
    let mut copy: Vec<TypeParam> = Vec::new();
    let mut i: usize = 0;
    while i < v.len()
        invariant
            0 <= i <= v.len(),
            copy@.len() == i,
            forall|j: int|
                0 <= j < i ==> type_param_view(#[trigger] copy@[j]) == type_param_view(v@[j]),
        decreases v.len() - i,
    {
        copy.push(clone_type_param(&v[i]));
        i = i + 1;
    }
    assert(type_param_views(copy@) =~= type_param_views(v@));
    copy
}

/// A copy of the signature.
pub fn clone_function(f: &TsFunctionSignature) -> (copy: TsFunctionSignature)
    ensures
        copy@ == f@,
    decreases f,
{
    TsFunctionSignature {
        type_params: clone_type_params(&f.type_params),
        this_param: match &f.this_param {
            Some(t) => Some(Box::new(clone_type(&**t))),
            None => None,
        },
        params: clone_params(&f.params),
        return_type: Box::new(clone_type(&*f.return_type)),
        is_async: f.is_async,
    }
}

/// Copies of the parameters, each at its place.
pub fn clone_params(v: &Vec<FunctionParam>) -> (copy: Vec<FunctionParam>)
    ensures
        param_views(copy@) == param_views(v@),
    decreases v,
{
    let mut copy: Vec<FunctionParam> = Vec::new();
    let mut i: usize = 0;
    while i < v.len()
        invariant
            0 <= i <= v.len(),
            copy@.len() == i,
            forall|j: int| 0 <= j < i ==> param_view(#[trigger] copy@[j]) == param_view(v@[j]),
        decreases v.len() - i,
    {
        let p = &v[i];
        copy.push(
            FunctionParam {
                name: p.name.clone(),
                param_type: clone_type(&p.param_type),
                is_optional: p.is_optional,
            },
        );
        i = i + 1;
    }
    assert(param_views(copy@) =~= param_views(v@));
    copy
}

/// A copy of the interface.
pub fn clone_interface(i: &TsInterface) -> (copy: TsInterface)
    ensures
        copy@ == i@,
    decreases i,
{
    TsInterface {
        name: i.name.clone(),
        extends: clone_types(&i.extends),
        properties: clone_properties(&i.properties),
        type_params: clone_type_params(&i.type_params),
    }
}

/// Copies of the properties, each at its place.
pub fn clone_properties(v: &Vec<TsInterfaceProperty>) -> (copy: Vec<TsInterfaceProperty>)
    ensures
        property_views(copy@) == property_views(v@),
    decreases v,
{
    let mut copy: Vec<TsInterfaceProperty> = Vec::new();
    let mut i: usize = 0;
    while i < v.len()
        invariant
            0 <= i <= v.len(),
            copy@.len() == i,
            forall|j: int|
                0 <= j < i ==> property_view(#[trigger] copy@[j]) == property_view(v@[j]),
        decreases v.len() - i,
    {
        let p = &v[i];
        copy.push(
            TsInterfaceProperty {
                name: p.name.clone(),
                type_info: clone_type(&p.type_info),
                is_optional: p.is_optional,
                is_readonly: p.is_readonly,
            },
        );
        i = i + 1;
    }
    assert(property_views(copy@) =~= property_views(v@));
    copy
}

fn clone_object_properties(v: &Vec<ObjectPropertyType>) -> (copy: Vec<ObjectPropertyType>)
    ensures
        object_property_views(copy@) == object_property_views(v@),
    decreases v,
{
    let mut copy: Vec<ObjectPropertyType> = Vec::new();
    let mut i: usize = 0;
    while i < v.len()
        invariant
            0 <= i <= v.len(),
            copy@.len() == i,
            forall|j: int|
                0 <= j < i ==> object_property_view(#[trigger] copy@[j]) == object_property_view(
                    v@[j],
                ),
        decreases v.len() - i,
    {
        let p = &v[i];
        copy.push(ObjectPropertyType { name: p.name.clone(), type_info: clone_type(&p.type_info) });
        i = i + 1;
    }
    assert(object_property_views(copy@) =~= object_property_views(v@));
    copy
}

impl Clone for Type {
    fn clone(&self) -> (copy: Self)
        ensures
            copy@ == self@,
    {
        clone_type(self)
    }
}

impl Clone for TsLiteralTypeKind {
    fn clone(&self) -> (copy: Self)
        ensures
            copy@ == self@,
    {
        match self {
            TsLiteralTypeKind::Number(n) => TsLiteralTypeKind::Number(*n),
            TsLiteralTypeKind::String(s) => TsLiteralTypeKind::String(s.clone()),
            TsLiteralTypeKind::Boolean(b) => TsLiteralTypeKind::Boolean(*b),
            TsLiteralTypeKind::Object(o) => TsLiteralTypeKind::Object(o.clone()),
        }
    }
}

impl Clone for ObjectLiteral {
    fn clone(&self) -> (copy: Self)
        ensures
            copy@ == self@,
    {
        ObjectLiteral { properties: clone_object_properties(&self.properties) }
    }
}

impl Clone for ObjectPropertyType {
    fn clone(&self) -> (copy: Self)
        ensures
            copy@ == self@,
    {
        ObjectPropertyType { name: self.name.clone(), type_info: clone_type(&self.type_info) }
    }
}

impl Clone for TsFunctionSignature {
    fn clone(&self) -> (copy: Self)
        ensures
            copy@ == self@,
    {
        clone_function(self)
    }
}

impl Clone for FunctionParam {
    fn clone(&self) -> (copy: Self)
        ensures
            copy@ == self@,
    {
        FunctionParam {
            name: self.name.clone(),
            param_type: clone_type(&self.param_type),
            is_optional: self.is_optional,
        }
    }
}

impl Clone for TsInterface {
    fn clone(&self) -> (copy: Self)
        ensures
            copy@ == self@,
    {
        clone_interface(self)
    }
}

impl Clone for TsInterfaceProperty {
    fn clone(&self) -> (copy: Self)
        ensures
            copy@ == self@,
    {
        TsInterfaceProperty {
            name: self.name.clone(),
            type_info: clone_type(&self.type_info),
            is_optional: self.is_optional,
            is_readonly: self.is_readonly,
        }
    }
}

impl Clone for TsTypeAlias {
    fn clone(&self) -> (copy: Self)
        ensures
            copy@ == self@,
    {
        TsTypeAlias {
            name: self.name.clone(),
            type_params: clone_type_params(&self.type_params),
            aliased_type: Box::new(clone_type(&*self.aliased_type)),
        }
    }
}

impl Clone for TsTypeRef {
    fn clone(&self) -> (copy: Self)
        ensures
            copy@ == self@,
    {
        TsTypeRef { name: self.name.clone(), type_params: clone_types(&self.type_params) }
    }
}

impl Clone for TypeParam {
    fn clone(&self) -> (copy: Self)
        ensures
            copy@ == self@,
    {
        clone_type_param(self)
    }
}

} // verus!
