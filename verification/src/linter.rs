//! The floating-promise check: an expression statement whose value is a
//! Promise that nothing handles is a finding.

use vstd::prelude::*;
use crate::sequences::{lemma_take_all, lemma_take_none, lemma_take_one_more};
use crate::server::{lookup, Server};
use crate::syntax::{
    CallArgument, CallExpression, Expression, ExpressionStatement, LiteralExpression,
    UnaryExpression, UnaryOperator,
};
use crate::text::same_text;
use crate::type_info::{clone_type, type_views, Type, TypeRefView, TypeView};

verus! {

/// Whether a type counts as a Promise: a reference to `Promise`, an
/// interface named `Promise`, a function whose result counts, or a union
/// with a member that counts.
pub open spec fn is_promise(ty: TypeView) -> bool
    decreases ty,
{
    match ty {
        TypeView::Interface(interface) => interface.name == "Promise"@,
        TypeView::TypeRef(reference) => reference.name == "Promise"@,
        TypeView::Function(function) => is_promise(*function.return_type),
        TypeView::Union(members) => exists|i: int|
            0 <= i < members.len() && is_promise(#[trigger] members[i]),
        _ => false,
    }
}

/// Whether a value of the type can be called: a function, or a union of
/// types that can all be called.
pub open spec fn is_callable(ty: TypeView) -> bool
    decreases ty,
{
    match ty {
        TypeView::Function(_) => true,
        TypeView::Union(members) => forall|i: int|
            0 <= i < members.len() ==> is_callable(#[trigger] members[i]),
        _ => false,
    }
}

/// The type of an expression as far as its shape tells. A name has the
/// type bound to it, a call the result of its callee, a member access the
/// type of its object, and `await` the first argument of the `Promise`
/// reference that it awaits. Anything else is `Unknown`.
pub open spec fn infer(
    local: Map<Seq<char>, TypeView>,
    ambient: Map<Seq<char>, TypeView>,
    expression: Expression,
) -> TypeView
    decreases expression,
{
    match expression {
        Expression::Identifier(Some(name)) => match lookup(local, ambient, name@) {
            Some(ty) => ty,
            None => TypeView::Unknown,
        },
        Expression::Call(call) => match infer(local, ambient, *call.callee) {
            TypeView::Function(function) => *function.return_type,
            _ => TypeView::Unknown,
        },
        Expression::StaticMember(access) => infer(local, ambient, *access.object),
        Expression::Await(argument) => unwrap_promise(infer(local, ambient, *argument)),
        _ => TypeView::Unknown,
    }
}

/// What awaiting a value of the type gives: the first argument of a
/// reference to `Promise`, `Unknown` for any other type.
pub open spec fn unwrap_promise(ty: TypeView) -> TypeView {
    match ty {
        TypeView::TypeRef(reference) => if reference.name == "Promise"@
            && reference.type_params.len() > 0 {
            reference.type_params[0]
        } else {
            TypeView::Unknown
        },
        _ => TypeView::Unknown,
    }
}

/// Whether an expression can stand where a rejection handler is expected: a
/// function, `undefined`, `null`, or a name bound to a callable type.
pub open spec fn is_valid_handler(
    local: Map<Seq<char>, TypeView>,
    ambient: Map<Seq<char>, TypeView>,
    handler: Expression,
) -> bool {
    match handler {
        Expression::Arrow(_) => true,
        Expression::Function(_) => true,
        Expression::Identifier(Some(name)) => name@ == "undefined"@ || match lookup(
            local,
            ambient,
            name@,
        ) {
            Some(ty) => is_callable(ty),
            None => false,
        },
        Expression::Literal(LiteralExpression::Null) => true,
        _ => false,
    }
}

/// Whether an argument is an expression that is a valid handler.
pub open spec fn is_valid_handler_argument(
    local: Map<Seq<char>, TypeView>,
    ambient: Map<Seq<char>, TypeView>,
    argument: CallArgument,
) -> bool {
    match argument {
        CallArgument::Expression(handler) => is_valid_handler(local, ambient, handler),
        _ => false,
    }
}

/// What is wrong with a statement.
#[derive(Debug, Clone, Copy, PartialEq, Eq)]
pub enum DiagnosticKind {
    /// The value is a Promise and nothing handles it.
    UnhandledPromise,
    /// `then` or `catch` was given a handler that is no function.
    NonFunctionHandler,
}

/// A finding with the place of its statement.
#[derive(Debug, PartialEq, Eq)]
pub struct Diagnostic {
    pub kind: DiagnosticKind,
    pub start: u32,
    pub end: u32,
    pub text: String,
}

/// The arguments of a call: none where the list itself is missing.
pub open spec fn arguments_of(call: CallExpression) -> Seq<CallArgument> {
    match call.arguments {
        Some(arguments) => arguments@,
        None => Seq::empty(),
    }
}

/// The finding for a value that nothing handles: one where it is a Promise.
pub open spec fn unhandled_if_promise(is_promise: bool) -> Option<DiagnosticKind> {
    if is_promise {
        Some(DiagnosticKind::UnhandledPromise)
    } else {
        None
    }
}

/// The finding for a call `object.member(arguments)`.
///
/// `catch` with a handler as its first argument handles the Promise where
/// the handler is valid; else the handler is the finding. `then` with
/// arguments has the handler as its finding where the first argument, or
/// the second one if there is one, is no valid handler; with two valid
/// ones it handles the Promise. Any other call, `then` with one valid
/// argument too, is a finding where its object or the call itself is a
/// Promise.
pub open spec fn judge_member_call(
    local: Map<Seq<char>, TypeView>,
    ambient: Map<Seq<char>, TypeView>,
    call: CallExpression,
    object: Expression,
    member: Seq<char>,
) -> Option<DiagnosticKind> {
    let arguments = arguments_of(call);
    if member == "catch"@ && arguments.len() >= 1 && arguments[0] is Expression {
        if is_valid_handler_argument(local, ambient, arguments[0]) {
            None
        } else {
            Some(DiagnosticKind::NonFunctionHandler)
        }
    } else if member == "then"@ && arguments.len() >= 1 && !(is_valid_handler_argument(
        local,
        ambient,
        arguments[0],
    ) && (arguments.len() < 2 || is_valid_handler_argument(local, ambient, arguments[1]))) {
        Some(DiagnosticKind::NonFunctionHandler)
    } else if member == "then"@ && arguments.len() >= 2 {
        None
    } else {
        unhandled_if_promise(
            is_promise(infer(local, ambient, object)) || is_promise(
                infer(local, ambient, Expression::Call(call)),
            ),
        )
    }
}

/// The finding for an expression that stands as a statement, if there is
/// one. `await` and `void` handle their operand.
pub open spec fn judge(
    local: Map<Seq<char>, TypeView>,
    ambient: Map<Seq<char>, TypeView>,
    expression: Expression,
) -> Option<DiagnosticKind> {
    match expression {
        Expression::Call(call) => match *call.callee {
            Expression::StaticMember(access) => match access.member {
                Some(member) => if *access.object is Missing {
                    unhandled_if_promise(is_promise(infer(local, ambient, expression)))
                } else {
                    judge_member_call(local, ambient, call, *access.object, member@)
                },
                None => unhandled_if_promise(is_promise(infer(local, ambient, expression))),
            },
            _ => unhandled_if_promise(is_promise(infer(local, ambient, expression))),
        },
        Expression::Await(_) => None,
        Expression::Unary(unary) => if unary.operator == Some(UnaryOperator::Void) {
            None
        } else {
            unhandled_if_promise(is_promise(infer(local, ambient, expression)))
        },
        _ => unhandled_if_promise(is_promise(infer(local, ambient, expression))),
    }
}

/// The finding for a statement, with the statement's place and text.
pub open spec fn finding(
    local: Map<Seq<char>, TypeView>,
    ambient: Map<Seq<char>, TypeView>,
    statement: ExpressionStatement,
) -> Option<Diagnostic> {
    match judge(local, ambient, statement.expression) {
        Some(kind) => Some(
            Diagnostic { kind, start: statement.start, end: statement.end, text: statement.text },
        ),
        None => None,
    }
}

/// The findings for the statements, in the order of the statements.
pub open spec fn findings(
    local: Map<Seq<char>, TypeView>,
    ambient: Map<Seq<char>, TypeView>,
    statements: Seq<ExpressionStatement>,
) -> Seq<Diagnostic>
    decreases statements.len(),
{
    if statements.len() == 0 {
        Seq::empty()
    } else {
        let earlier = findings(local, ambient, statements.drop_last());
        match finding(local, ambient, statements.last()) {
            Some(diagnostic) => earlier.push(diagnostic),
            None => earlier,
        }
    }
}

impl Diagnostic {
    /// The message of the finding, without its place.
    pub fn message(&self) -> (message: String)
        ensures
            message@ == match self.kind {
                DiagnosticKind::UnhandledPromise => "Unhandled Promise"@,
                DiagnosticKind::NonFunctionHandler => "Unhandled Promise with non-function handler"@,
            },
    {
        match self.kind {
            DiagnosticKind::UnhandledPromise => String::from_str("Unhandled Promise"),
            DiagnosticKind::NonFunctionHandler => String::from_str(
                "Unhandled Promise with non-function handler",
            ),
        }
    }
}

/// Whether a type counts as a Promise.
pub fn is_promise_type(type_info: &Type) -> (promise: bool)
    ensures
        promise == is_promise(type_info@),
    decreases type_info,
{
    match type_info {
        Type::Interface(interface) => {
            assert(type_info@ == TypeView::Interface(interface@));
            let promise = same_text(interface.name.as_str(), "Promise");
            assert(promise == is_promise(type_info@));
            promise
        },
        Type::TypeRef(reference) => {
            assert(type_info@ is TypeRef && type_info@->TypeRef_0.name == reference.name@);
            let promise = same_text(reference.name.as_str(), "Promise");
            assert(promise == is_promise(type_info@));
            promise
        },
        Type::Function(function) => {
            assert(type_info@ == TypeView::Function(function@));
            let promise = is_promise_type(&*function.return_type);
            assert(promise == is_promise(type_info@));
            promise
        },
        Type::Union(members) => {
            assert(type_info@ == TypeView::Union(type_views(members@)));
            let promise = has_promise(members);
            assert(promise == is_promise(type_info@));
            promise
        },
        _ => {
            assert(!is_promise(type_info@));
            false
        },
    }
}

fn has_promise(members: &Vec<Type>) -> (found: bool)
    ensures
        found == exists|i: int|
            0 <= i < type_views(members@).len() && is_promise(
                #[trigger] type_views(members@)[i],
            ),
    decreases members,
{
    let mut i: usize = 0;
    while i < members.len()
        invariant
            0 <= i <= members.len(),
            forall|j: int| 0 <= j < i ==> !is_promise(#[trigger] type_views(members@)[j]),
        decreases members.len() - i,
    {
        if is_promise_type(&members[i]) {
            assert(is_promise(type_views(members@)[i as int]));
            return true;
        }
        i = i + 1;
    }
    false
}

/// Whether a value of the type can be called.
pub fn is_call_signature(type_info: &Type) -> (callable: bool)
    ensures
        callable == is_callable(type_info@),
    decreases type_info,
{
    match type_info {
        Type::Function(function) => {
            assert(type_info@ == TypeView::Function(function@));
            assert(is_callable(type_info@));
            true
        },
        Type::Union(members) => {
            assert(type_info@ == TypeView::Union(type_views(members@)));
            let all = all_callable(members);
            proof {
                let views = type_views(members@);
                if all {
                    assert forall|i: int| 0 <= i < views.len() implies is_callable(
                        #[trigger] views[i],
                    ) by {}
                } else {
                    let i = choose|i: int| 0 <= i < views.len() && !is_callable(#[trigger] views[i]);
                    assert(TypeView::Union(views)->Union_0[i] == views[i]);
                }
                assert(all == is_callable(TypeView::Union(views)));
            }
            all
        },
        _ => {
            assert(!is_callable(type_info@));
            false
        },
    }
}

fn all_callable(members: &Vec<Type>) -> (all: bool)
    ensures
        all == forall|i: int|
            0 <= i < type_views(members@).len() ==> is_callable(
                #[trigger] type_views(members@)[i],
            ),
    decreases members,
{
    let mut i: usize = 0;
    while i < members.len()
        invariant
            0 <= i <= members.len(),
            forall|j: int| 0 <= j < i ==> is_callable(#[trigger] type_views(members@)[j]),
        decreases members.len() - i,
    {
        if !is_call_signature(&members[i]) {
            assert(!is_callable(type_views(members@)[i as int]));
            return false;
        }
        i = i + 1;
    }
    true
}

/// The check over one server, with the findings that it has made.
#[derive(Debug)]
pub struct NoFloatingPromisesLinter {
    server: Server,
    current_path: String,
    diagnostics: Vec<Diagnostic>,
}

impl NoFloatingPromisesLinter {
    /// The path of the file whose scope names are looked up in.
    pub closed spec fn path(&self) -> Seq<char> {
        self.current_path@
    }

    /// The types that the file at the current path binds, by name.
    pub closed spec fn local_types(&self) -> Map<Seq<char>, TypeView> {
        self.server.local_types(self.current_path@)
    }

    /// The types bound in the ambient scope, by name.
    pub closed spec fn ambient_types(&self) -> Map<Seq<char>, TypeView> {
        self.server.ambient_types()
    }

    /// The findings so far, oldest first.
    pub closed spec fn reported(&self) -> Seq<Diagnostic> {
        self.diagnostics@
    }

    /// The server that the linter asks.
    pub closed spec fn server(&self) -> Server {
        self.server
    }

    /// A linter over what the server knows, at the empty path and without
    /// findings.
    pub fn new(server: Server) -> (linter: Self)
        ensures
            linter.server() == server,
            linter.path() == Seq::<char>::empty(),
            linter.local_types() == server.local_types(Seq::<char>::empty()),
            linter.ambient_types() == server.ambient_types(),
            linter.reported() == Seq::<Diagnostic>::empty(),
    {
        Self { server, current_path: String::new(), diagnostics: Vec::new() }
    }

    /// Makes `path` the file whose scope names are looked up in.
    pub fn set_current_path(&mut self, path: String)
        ensures
            final(self).path() == path@,
            final(self).server() == old(self).server(),
            final(self).local_types() == old(self).server().local_types(path@),
            final(self).ambient_types() == old(self).ambient_types(),
            final(self).reported() == old(self).reported(),
    {
        self.current_path = path;
    }

    /// The findings so far, oldest first.
    pub fn diagnostics(&self) -> (diagnostics: &Vec<Diagnostic>)
        ensures
            diagnostics@ == self.reported(),
    {
        &self.diagnostics
    }

    /// Checks each statement in the order given and reports its finding.
    pub fn visit(&mut self, statements: &Vec<ExpressionStatement>)
        ensures
            final(self).reported() == old(self).reported() + findings(
                old(self).local_types(),
                old(self).ambient_types(),
                statements@,
            ),
            final(self).path() == old(self).path(),
            final(self).server() == old(self).server(),
    {
        let ghost before = *self;
        let mut i: usize = 0;
        proof {
            lemma_take_none(statements@);
            assert(self.reported() =~= before.reported() + Seq::<Diagnostic>::empty());
        }
        while i < statements.len()
            invariant
                0 <= i <= statements.len(),
                self.path() == before.path(),
                self.server() == before.server(),
                self.reported() == before.reported() + findings(
                    before.local_types(),
                    before.ambient_types(),
                    statements@.take(i as int),
                ),
            decreases statements.len() - i,
        {
            proof {
                lemma_take_one_more(statements@, i as int);
            }
            let ghost earlier = self.reported();
            self.check_expression_statement(&statements[i]);
            proof {
                let found = findings(
                    before.local_types(),
                    before.ambient_types(),
                    statements@.take(i as int),
                );
                match finding(before.local_types(), before.ambient_types(), statements@[i as int]) {
                    Some(diagnostic) => {
                        assert(earlier.push(diagnostic) =~= before.reported() + found.push(
                            diagnostic,
                        ));
                    },
                    None => {},
                }
            }
            i = i + 1;
        }
        proof {
            lemma_take_all(statements@);
        }
    }

    /// Reports the finding for a statement, if there is one.
    pub fn check_expression_statement(&mut self, expr_stmt: &ExpressionStatement)
        ensures
            final(self).reported() == match finding(
                old(self).local_types(),
                old(self).ambient_types(),
                *expr_stmt,
            ) {
                Some(diagnostic) => old(self).reported().push(diagnostic),
                None => old(self).reported(),
            },
            final(self).path() == old(self).path(),
            final(self).server() == old(self).server(),
    {
        match self.is_unhandled_promise(&expr_stmt.expression) {
            Some(kind) => {
                self.diagnostics.push(
                    Diagnostic {
                        kind,
                        start: expr_stmt.start,
                        end: expr_stmt.end,
                        text: expr_stmt.text.clone(),
                    },
                );
            },
            None => {},
        }
    }

    /// The finding for an expression that stands as a statement.
    pub fn is_unhandled_promise(&self, expr: &Expression) -> (verdict: Option<DiagnosticKind>)
        ensures
            verdict == judge(self.local_types(), self.ambient_types(), *expr),
    {
        match expr {
            Expression::Call(call) => {
                match &*call.callee {
                    Expression::StaticMember(access) => {
                        match (&*access.object, &access.member) {
                            (Expression::Missing, _) => {},
                            (_, None) => {},
                            (object, Some(member)) => {
                                return self.judge_member_call(call, object, member.as_str());
                            },
                        }
                    },
                    _ => {},
                }
                let ty = self.infer_expression_type(expr);
                if is_promise_type(&ty) {
                    Some(DiagnosticKind::UnhandledPromise)
                } else {
                    None
                }
            },
            Expression::Await(_) => None,
            Expression::Unary(unary) => {
                match unary.operator {
                    Some(UnaryOperator::Void) => {
                        return None;
                    },
                    _ => {},
                }
                let ty = self.infer_expression_type(expr);
                if is_promise_type(&ty) {
                    Some(DiagnosticKind::UnhandledPromise)
                } else {
                    None
                }
            },
            _ => {
                let ty = self.infer_expression_type(expr);
                if is_promise_type(&ty) {
                    Some(DiagnosticKind::UnhandledPromise)
                } else {
                    None
                }
            },
        }
    }

    fn judge_member_call(&self, call: &CallExpression, object: &Expression, member: &str) -> (verdict:
        Option<DiagnosticKind>)
        ensures
            verdict == judge_member_call(
                self.local_types(),
                self.ambient_types(),
                *call,
                *object,
                member@,
            ),
    {
        let none: Vec<CallArgument> = Vec::new();
        let arguments = match &call.arguments {
            Some(arguments) => arguments,
            None => &none,
        };
        assert(arguments@ =~= arguments_of(*call));
        if same_text(member, "catch") && arguments.len() >= 1 {
            match &arguments[0] {
                CallArgument::Expression(handler) => {
                    return if self.is_valid_rejection_handler(handler) {
                        None
                    } else {
                        Some(DiagnosticKind::NonFunctionHandler)
                    };
                },
                _ => {},
            }
        }
        if same_text(member, "then") && arguments.len() >= 1 {
            let first = self.is_valid_handler_argument(&arguments[0]);
            let second = arguments.len() < 2 || self.is_valid_handler_argument(&arguments[1]);
            if !(first && second) {
                return Some(DiagnosticKind::NonFunctionHandler);
            }
            if arguments.len() >= 2 {
                return None;
            }
        }
        let object_type = self.infer_expression_type(object);
        if is_promise_type(&object_type) {
            return Some(DiagnosticKind::UnhandledPromise);
        }
        let ty = self.infer_call_type(call);
        if is_promise_type(&ty) {
            Some(DiagnosticKind::UnhandledPromise)
        } else {
            None
        }
    }

    fn is_valid_handler_argument(&self, argument: &CallArgument) -> (valid: bool)
        ensures
            valid == is_valid_handler_argument(
                self.local_types(),
                self.ambient_types(),
                *argument,
            ),
    {
        match argument {
            CallArgument::Expression(handler) => self.is_valid_rejection_handler(handler),
            _ => false,
        }
    }

    /// Whether an expression can stand where a rejection handler is expected.
    pub fn is_valid_rejection_handler(&self, handler: &Expression) -> (valid: bool)
        ensures
            valid == is_valid_handler(self.local_types(), self.ambient_types(), *handler),
    {
        match handler {
            Expression::Arrow(_) => true,
            Expression::Function(_) => true,
            Expression::Identifier(Some(name)) => {
                if same_text(name.as_str(), "undefined") {
                    true
                } else {
                    match self.server.get_resolved_type_info(
                        self.current_path.as_str(),
                        name.as_str(),
                    ) {
                        Some(symbol) => is_call_signature(&symbol.ty),
                        None => false,
                    }
                }
            },
            Expression::Literal(LiteralExpression::Null) => true,
            _ => false,
        }
    }

    /// The type of an expression as far as its shape tells.
    pub fn infer_expression_type(&self, expr: &Expression) -> (ty: Type)
        ensures
            ty@ == infer(self.local_types(), self.ambient_types(), *expr),
        decreases expr, 1int,
    {
        match expr {
            Expression::Identifier(Some(name)) => {
                match self.server.get_resolved_type_info(
                    self.current_path.as_str(),
                    name.as_str(),
                ) {
                    Some(symbol) => clone_type(&symbol.ty),
                    None => Type::Unknown,
                }
            },
            Expression::Call(call) => self.infer_call_type(call),
            Expression::StaticMember(access) => self.infer_expression_type(&*access.object),
            Expression::Await(argument) => {
                let awaited = self.infer_expression_type(&**argument);
                match &awaited {
                    Type::TypeRef(reference) => {
                        assert(awaited@ is TypeRef && awaited@->TypeRef_0.name == reference.name@
                            && awaited@->TypeRef_0.type_params == type_views(
                            reference.type_params@,
                        ));
                        if same_text(reference.name.as_str(), "Promise")
                            && reference.type_params.len() > 0 {
                            clone_type(&reference.type_params[0])
                        } else {
                            Type::Unknown
                        }
                    },
                    _ => {
                        assert(!(awaited@ is TypeRef));
                        Type::Unknown
                    },
                }
            },
            _ => Type::Unknown,
        }
    }

    fn infer_call_type(&self, call: &CallExpression) -> (ty: Type)
        ensures
            ty@ == infer(self.local_types(), self.ambient_types(), Expression::Call(*call)),
        decreases call, 0int,
    {
        let callee = self.infer_expression_type(&*call.callee);
        match &callee {
            Type::Function(function) => {
                assert(callee@ == TypeView::Function(function@));
                clone_type(&*function.return_type)
            },
            _ => {
                assert(!(callee@ is Function));
                Type::Unknown
            },
        }
    }
}


/// A type counts as a Promise exactly when it is a reference to `Promise`,
/// an interface named `Promise`, a function whose result counts, or a
/// union with a member that counts.
pub proof fn lemma_promise_predicate(ty: TypeView)
    ensures
        is_promise(ty) <==> {
            ||| ty is TypeRef && ty->TypeRef_0.name == "Promise"@
            ||| ty is Interface && ty->Interface_0.name == "Promise"@
            ||| ty is Function && is_promise(*ty->Function_0.return_type)
            ||| ty is Union && exists|i: int|
                0 <= i < ty->Union_0.len() && is_promise(#[trigger] ty->Union_0[i])
        },
{
}

/// A union with a Promise among its members is a Promise.
pub proof fn lemma_union_with_promise_is_promise(members: Seq<TypeView>, i: int)
    requires
        0 <= i < members.len(),
        is_promise(members[i]),
    ensures
        is_promise(TypeView::Union(members)),
{
    assert(TypeView::Union(members)->Union_0[i] == members[i]);
}

/// Awaiting an expression whose type is a reference to `Promise` with
/// arguments gives the first argument, whatever the others are.
pub proof fn lemma_await_unwraps_promise(
    local: Map<Seq<char>, TypeView>,
    ambient: Map<Seq<char>, TypeView>,
    argument: Expression,
    reference: TypeRefView,
)
    requires
        infer(local, ambient, argument) == TypeView::TypeRef(reference),
        reference.name == "Promise"@,
        reference.type_params.len() >= 1,
    ensures
        infer(local, ambient, Expression::Await(Box::new(argument))) == reference.type_params[0],
{
}

/// Awaiting anything else gives `Unknown`.
pub proof fn lemma_await_of_other_type_is_unknown(
    local: Map<Seq<char>, TypeView>,
    ambient: Map<Seq<char>, TypeView>,
    argument: Expression,
)
    requires
        !(infer(local, ambient, argument) is TypeRef),
    ensures
        infer(local, ambient, Expression::Await(Box::new(argument))) == TypeView::Unknown,
{
}

/// `await` and `void` in front of a statement's expression handle it:
/// there is no finding, whatever the operand is.
pub proof fn lemma_await_and_void_handle(
    local: Map<Seq<char>, TypeView>,
    ambient: Map<Seq<char>, TypeView>,
    operand: Expression,
)
    ensures
        judge(local, ambient, Expression::Await(Box::new(operand))) is None,
        judge(
            local,
            ambient,
            Expression::Unary(
                UnaryExpression {
                    operator: Some(UnaryOperator::Void),
                    argument: Box::new(operand),
                },
            ),
        ) is None,
{
}

} // verus!
