//! The two-register automaton that reduces walk notices into a module, and the
//! depth-first walker that feeds it.
use crate::model::{
    empty_function, exprs_view, functions_view, placeholder_model, statements_view, variables_view,
    Expr, ExprModel, Function, FunctionModel, ModuleModel, Statement, StatementModel, TopLevelModule,
    Variable, VariableModel,
};
use crate::syntax::{ControlFlow, NodeKind, Step, SyntaxNode};
use vstd::prelude::*;

verus! {

/// The innermost syntactic category being interpreted.
#[derive(Clone, Copy, Debug, PartialEq, Eq, Structural)]
pub enum Context {
    Empty,
    FunctionDefinition,
    FunctionDeclarator,
    ParameterList,
    ParameterDeclaration,
    CompoundStatement,
    LocalDeclaration,
    LocalInitDeclarator,
}

/// The role anticipated for the next matching node.
#[derive(Clone, Copy, Debug, PartialEq, Eq, Structural)]
pub enum Expected {
    Empty,
    ReturnType,
    FunctionName,
    Parameter,
    ParameterType,
    ParameterName,
    Statement,
    VariableType,
    VariableName,
    InitRight,
}

/// The registers after a notice, and the answer to the walker.
pub open spec fn transition(ctx: Context, exp: Expected, step: Step, kind: NodeKind, named: bool)
    -> (Context, Expected, ControlFlow)
{
    if !named {
        (ctx, exp, ControlFlow::Skip)
    } else if step == Step::Enter {
        match kind {
            NodeKind::FunctionDefinition => (Context::FunctionDefinition, Expected::ReturnType, ControlFlow::Continue),
            NodeKind::PrimitiveType => match ctx {
                Context::FunctionDefinition => (ctx, exp, ControlFlow::Continue),
                Context::ParameterDeclaration => if matches!(exp, Expected::ParameterType) {
                    (ctx, Expected::ParameterName, ControlFlow::Continue)
                } else {
                    (ctx, exp, ControlFlow::Continue)
                },
                Context::LocalDeclaration => if matches!(exp, Expected::VariableType) {
                    (ctx, Expected::VariableName, ControlFlow::Continue)
                } else {
                    (ctx, exp, ControlFlow::Continue)
                },
                _ => (ctx, exp, ControlFlow::Quit),
            },
            NodeKind::FunctionDeclarator => (Context::FunctionDeclarator, Expected::FunctionName, ControlFlow::Continue),
            NodeKind::Identifier => match ctx {
                Context::FunctionDeclarator | Context::ParameterDeclaration => (ctx, exp, ControlFlow::Continue),
                Context::LocalInitDeclarator => if matches!(exp, Expected::VariableName) {
                    (ctx, Expected::InitRight, ControlFlow::Continue)
                } else {
                    (ctx, exp, ControlFlow::Continue)
                },
                _ => (ctx, exp, ControlFlow::Quit),
            },
            NodeKind::ParameterList => (Context::ParameterList, Expected::Parameter, ControlFlow::Continue),
            NodeKind::ParameterDeclaration => (Context::ParameterDeclaration, Expected::ParameterType, ControlFlow::Continue),
            NodeKind::CompoundStatement => (Context::CompoundStatement, Expected::Statement, ControlFlow::Continue),
            NodeKind::Declaration => if ctx == Context::CompoundStatement {
                (Context::LocalDeclaration, Expected::VariableType, ControlFlow::Continue)
            } else {
                (ctx, exp, ControlFlow::Quit)
            },
            NodeKind::InitDeclarator => (Context::LocalInitDeclarator, Expected::VariableName, ControlFlow::Continue),
            NodeKind::NumberLiteral => (ctx, exp, ControlFlow::Continue),
            NodeKind::Other => (ctx, exp, ControlFlow::Quit),
        }
    } else {
        match kind {
            NodeKind::FunctionDefinition | NodeKind::ParameterList => (Context::Empty, Expected::Empty, ControlFlow::Continue),
            NodeKind::Declaration => (Context::CompoundStatement, Expected::Statement, ControlFlow::Continue),
            NodeKind::Other => (ctx, exp, ControlFlow::Quit),
            _ => (ctx, exp, ControlFlow::Continue),
        }
    }
}

/// Which part of a declaration's pending expression a node fills in.
#[derive(Clone, Copy, Debug, PartialEq, Eq, Structural)]
pub enum Part {
    Type,
    Name,
    Value,
}

/// `m` with its last function replaced by `f`.
pub open spec fn with_last_function(m: ModuleModel, f: FunctionModel) -> ModuleModel {
    ModuleModel {
        name: m.name,
        global_variables: m.global_variables,
        functions: m.functions.update(m.functions.len() - 1, f),
    }
}

/// `m` with the last function's return type set to `text`.
pub open spec fn with_return_type(m: ModuleModel, text: Seq<char>) -> ModuleModel {
    if m.functions.len() == 0 {
        m
    } else {
        let f = m.functions.last();
        with_last_function(m, FunctionModel { return_type: text, name: f.name, args: f.args, body: f.body })
    }
}

/// `m` with the last function's name set to `text`.
pub open spec fn with_function_name(m: ModuleModel, text: Seq<char>) -> ModuleModel {
    if m.functions.len() == 0 {
        m
    } else {
        let f = m.functions.last();
        with_last_function(m, FunctionModel { return_type: f.return_type, name: text, args: f.args, body: f.body })
    }
}

/// `m` with a parameter of type `text`, and no name or value, appended to the
/// last function.
pub open spec fn with_parameter(m: ModuleModel, text: Seq<char>) -> ModuleModel {
    if m.functions.len() == 0 {
        m
    } else {
        let f = m.functions.last();
        let a = VariableModel { name: seq![], var_type: text, value: None };
        with_last_function(m, FunctionModel { return_type: f.return_type, name: f.name, args: f.args.push(a), body: f.body })
    }
}

/// `m` with the last parameter of the last function named `text`.
pub open spec fn with_parameter_name(m: ModuleModel, text: Seq<char>) -> ModuleModel {
    if m.functions.len() == 0 || m.functions.last().args.len() == 0 {
        m
    } else {
        let f = m.functions.last();
        let a = f.args.last();
        let a2 = VariableModel { name: text, var_type: a.var_type, value: a.value };
        with_last_function(
            m,
            FunctionModel { return_type: f.return_type, name: f.name, args: f.args.update(f.args.len() - 1, a2), body: f.body },
        )
    }
}

/// The statement that entering a declaration appends: kind `declaration`,
/// holding the placeholder expression alone.
pub open spec fn declaration_model() -> StatementModel {
    StatementModel { kind: "declaration"@, expr: seq![placeholder_model()] }
}

/// `m` with a new declaration statement appended to the last function's body.
pub open spec fn with_declaration(m: ModuleModel) -> ModuleModel {
    if m.functions.len() == 0 {
        m
    } else {
        let f = m.functions.last();
        with_last_function(
            m,
            FunctionModel { return_type: f.return_type, name: f.name, args: f.args, body: f.body.push(declaration_model()) },
        )
    }
}

/// `e` with one part filled in from `text`: the left variable's type or
/// name, or a right value that is a literal with that text.
pub open spec fn filled(e: ExprModel, part: Part, text: Seq<char>) -> ExprModel {
    match part {
        Part::Type => ExprModel {
            kind: e.kind,
            left: VariableModel { name: e.left.name, var_type: text, value: e.left.value },
            operator: e.operator,
            right: e.right,
        },
        Part::Name => ExprModel {
            kind: e.kind,
            left: VariableModel { name: text, var_type: e.left.var_type, value: e.left.value },
            operator: e.operator,
            right: e.right,
        },
        Part::Value => ExprModel {
            kind: e.kind,
            left: e.left,
            operator: e.operator,
            right: Some(VariableModel { name: seq![], var_type: seq![], value: Some(text) }),
        },
    }
}

/// `m` with one part of the pending expression filled in: the last
/// expression of the last statement of the last function.
pub open spec fn with_pending(m: ModuleModel, part: Part, text: Seq<char>) -> ModuleModel {
    if m.functions.len() == 0 || m.functions.last().body.len() == 0
        || m.functions.last().body.last().expr.len() == 0 {
        m
    } else {
        let f = m.functions.last();
        let s = f.body.last();
        let s2 = StatementModel { kind: s.kind, expr: s.expr.update(s.expr.len() - 1, filled(s.expr.last(), part, text)) };
        with_last_function(
            m,
            FunctionModel { return_type: f.return_type, name: f.name, args: f.args, body: f.body.update(f.body.len() - 1, s2) },
        )
    }
}

/// The module after one notice, by the transition table: what the node
/// fills in or appends, given the registers before it.
pub open spec fn stepped(m: ModuleModel, ctx: Context, exp: Expected, step: Step, kind: NodeKind, named: bool, text: Seq<char>) -> ModuleModel {
    if !named || step == Step::Exit {
        m
    } else {
        match kind {
            NodeKind::FunctionDefinition => ModuleModel {
                name: m.name,
                global_variables: m.global_variables,
                functions: m.functions.push(empty_function()),
            },
            NodeKind::PrimitiveType => if ctx == Context::FunctionDefinition && exp == Expected::ReturnType {
                with_return_type(m, text)
            } else if ctx == Context::ParameterDeclaration && exp == Expected::ParameterType {
                with_parameter(m, text)
            } else if ctx == Context::LocalDeclaration && exp == Expected::VariableType {
                with_pending(m, Part::Type, text)
            } else {
                m
            },
            NodeKind::Identifier => if ctx == Context::FunctionDeclarator && exp == Expected::FunctionName {
                with_function_name(m, text)
            } else if ctx == Context::ParameterDeclaration && exp == Expected::ParameterName {
                with_parameter_name(m, text)
            } else if ctx == Context::LocalInitDeclarator && exp == Expected::VariableName {
                with_pending(m, Part::Name, text)
            } else {
                m
            },
            NodeKind::Declaration => if ctx == Context::CompoundStatement && exp == Expected::Statement {
                with_declaration(m)
            } else {
                m
            },
            NodeKind::NumberLiteral => if exp == Expected::InitRight {
                with_pending(m, Part::Value, text)
            } else {
                m
            },
            _ => m,
        }
    }
}

/// The view of a reducer: its module and its two registers.
pub struct ReducerModel {
    pub module: ModuleModel,
    pub context: Context,
    pub expected: Expected,
}

/// The reducer after one notice, and its answer.
pub open spec fn step_state(s: ReducerModel, step: Step, node: SyntaxNode) -> (ReducerModel, ControlFlow) {
    let t = transition(s.context, s.expected, step, node.kind, node.named);
    (
        ReducerModel {
            module: stepped(s.module, s.context, s.expected, step, node.kind, node.named, node.text@),
            context: t.0,
            expected: t.1,
        },
        t.2,
    )
}

/// The reducer after a depth-first walk of `node`, and the walk's answer:
/// the enter notice; on `Skip` the walk ends there with `Continue`; on
/// `Continue` the children in order and then the exit notice; `Quit`
/// anywhere ends the walk with `Quit`.
pub open spec fn walked(s: ReducerModel, node: SyntaxNode) -> (ReducerModel, ControlFlow)
    decreases node, node.children@.len() + 1,
{
    let (s1, c) = step_state(s, Step::Enter, node);
    if c == ControlFlow::Quit {
        (s1, ControlFlow::Quit)
    } else if c == ControlFlow::Skip {
        (s1, ControlFlow::Continue)
    } else {
        walked_from(s1, node, 0)
    }
}

/// The walk of `node`'s children from the `i`-th on, followed by its exit
/// notice.
pub open spec fn walked_from(s: ReducerModel, node: SyntaxNode, i: int) -> (ReducerModel, ControlFlow)
    decreases node, if 0 <= i <= node.children@.len() { node.children@.len() - i } else { 0 },
{
    if i < 0 || i >= node.children@.len() {
        let (s1, c) = step_state(s, Step::Exit, node);
        if c == ControlFlow::Quit {
            (s1, ControlFlow::Quit)
        } else {
            (s1, ControlFlow::Continue)
        }
    } else {
        let (s1, c) = walked(s, node.children@[i]);
        if c == ControlFlow::Quit {
            (s1, ControlFlow::Quit)
        } else {
            walked_from(s1, node, i + 1)
        }
    }
}

/// A reducer with an empty module of the given name and empty registers.
pub open spec fn initial(name: Seq<char>) -> ReducerModel {
    ReducerModel {
        module: ModuleModel { name, global_variables: seq![], functions: seq![] },
        context: Context::Empty,
        expected: Expected::Empty,
    }
}

/// The reducer after walking the items of `root` from the `i`-th on,
/// stopping at the first `Quit`.
pub open spec fn reduced_from(s: ReducerModel, root: SyntaxNode, i: int) -> ReducerModel
    decreases root.children@.len() - i,
{
    if i < 0 || i >= root.children@.len() {
        s
    } else {
        let (s1, c) = walked(s, root.children@[i]);
        if c == ControlFlow::Quit {
            s1
        } else {
            reduced_from(s1, root, i + 1)
        }
    }
}

/// The module that reducing the items of `root` builds.
pub open spec fn reduced(root: SyntaxNode, name: Seq<char>) -> ModuleModel {
    reduced_from(initial(name), root, 0).module
}

/// The reducer: the module under construction and the two registers.
pub struct Reducer {
    pub module: TopLevelModule,
    pub context: Context,
    pub expected: Expected,
}

impl View for Reducer {
    type V = ReducerModel;

    open spec fn view(&self) -> ReducerModel {
        ReducerModel { module: self.module@, context: self.context, expected: self.expected }
    }
}

/// Sets the return type of the last function, if there is one.
fn set_return_type(m: &mut TopLevelModule, text: String)
    ensures
        final(m)@ == with_return_type(old(m)@, text@),
{
    match m.functions.pop() {
        Some(mut f) => {
            f.return_type = text;
            let ghost fv = f@;
            m.functions.push(f);
            assert(functions_view(m.functions@) =~= functions_view(old(m).functions@).update(old(m).functions@.len() - 1, fv));
        },
        None => {},
    }
}

/// Sets the name of the last function, if there is one.
fn set_function_name(m: &mut TopLevelModule, text: String)
    ensures
        final(m)@ == with_function_name(old(m)@, text@),
{
    match m.functions.pop() {
        Some(mut f) => {
            f.name = text;
            let ghost fv = f@;
            m.functions.push(f);
            assert(functions_view(m.functions@) =~= functions_view(old(m).functions@).update(old(m).functions@.len() - 1, fv));
        },
        None => {},
    }
}

/// Appends a parameter of the given type to the last function.
fn push_parameter(m: &mut TopLevelModule, text: String)
    ensures
        final(m)@ == with_parameter(old(m)@, text@),
{
    match m.functions.pop() {
        Some(mut f) => {
            let ghost f0 = f;
            let a = Variable { name: String::new(), var_type: text, value: None };
            let ghost av = a@;
            f.args.push(a);
            assert(variables_view(f.args@) =~= variables_view(f0.args@).push(av));
            let ghost fv = f@;
            m.functions.push(f);
            assert(functions_view(m.functions@) =~= functions_view(old(m).functions@).update(old(m).functions@.len() - 1, fv));
        },
        None => {},
    }
}

/// Names the last parameter of the last function.
fn set_parameter_name(m: &mut TopLevelModule, text: String)
    ensures
        final(m)@ == with_parameter_name(old(m)@, text@),
{
    match m.functions.pop() {
        Some(mut f) => {
            let ghost f0 = f;
            match f.args.pop() {
                Some(mut a) => {
                    a.name = text;
                    let ghost av = a@;
                    f.args.push(a);
                    assert(variables_view(f.args@) =~= variables_view(f0.args@).update(f0.args@.len() - 1, av));
                },
                None => {
                    assert(f.args@ =~= f0.args@);
                },
            }
            let ghost fv = f@;
            m.functions.push(f);
            assert(functions_view(m.functions@) =~= functions_view(old(m).functions@).update(old(m).functions@.len() - 1, fv));
            assert(fv == f0@ ==> functions_view(m.functions@) =~= functions_view(old(m).functions@));
        },
        None => {},
    }
}

/// Appends a declaration statement, holding the placeholder expression, to
/// the last function's body.
fn push_declaration(m: &mut TopLevelModule)
    ensures
        final(m)@ == with_declaration(old(m)@),
{
    match m.functions.pop() {
        Some(mut f) => {
            let ghost f0 = f;
            proof { reveal_strlit("declaration"); }
            let s = Statement { kind: String::from_str("declaration"), expr: vec![Expr::placeholder()] };
            assert(s@.expr =~= seq![placeholder_model()]);
            let ghost sv = s@;
            f.body.push(s);
            assert(statements_view(f.body@) =~= statements_view(f0.body@).push(sv));
            let ghost fv = f@;
            m.functions.push(f);
            assert(functions_view(m.functions@) =~= functions_view(old(m).functions@).update(old(m).functions@.len() - 1, fv));
        },
        None => {},
    }
}

/// Fills in one part of the pending expression: the last expression of the
/// last statement of the last function.
fn fill_pending(m: &mut TopLevelModule, part: Part, text: String)
    ensures
        final(m)@ == with_pending(old(m)@, part, text@),
{
    match m.functions.pop() {
        Some(mut f) => {
            let ghost f0 = f;
            match f.body.pop() {
                Some(mut s) => {
                    let ghost s0 = s;
                    match s.expr.pop() {
                        Some(mut e) => {
                            let ghost e0 = e;
                            match part {
                                Part::Type => e.left.var_type = text,
                                Part::Name => e.left.name = text,
                                Part::Value => e.right = Some(Variable { name: String::new(), var_type: String::new(), value: Some(text) }),
                            }
                            assert(e@ == crate::reducer::filled(e0@, part, text@));
                            let ghost ev = e@;
                            s.expr.push(e);
                            assert(exprs_view(s.expr@) =~= exprs_view(s0.expr@).update(s0.expr@.len() - 1, ev));
                        },
                        None => {
                            assert(s.expr@ =~= s0.expr@);
                        },
                    }
                    let ghost sv = s@;
                    f.body.push(s);
                    assert(statements_view(f.body@) =~= statements_view(f0.body@).update(f0.body@.len() - 1, sv));
                    assert(s0.expr@.len() == 0 ==> statements_view(f.body@) =~= statements_view(f0.body@));
                },
                None => {
                    assert(f.body@ =~= f0.body@);
                },
            }
            let ghost fv = f@;
            m.functions.push(f);
            assert(functions_view(m.functions@) =~= functions_view(old(m).functions@).update(old(m).functions@.len() - 1, fv));
            assert(fv == f0@ ==> functions_view(m.functions@) =~= functions_view(old(m).functions@));
        },
        None => {},
    }
}

impl Reducer {
    /// A reducer with an empty module of the given name and empty registers.
    pub fn new(name: String) -> (r: Reducer)
        ensures
            r@ == initial(name@),
    {
        Reducer { module: TopLevelModule::new(name), context: Context::Empty, expected: Expected::Empty }
    }

    /// Interprets one notice by the transition table: fills in or appends
    /// to the module, updates the registers, and answers `Continue`, `Skip`
    /// (unnamed node) or `Quit` (unsupported construct).
    pub fn visit(&mut self, step: Step, node: &SyntaxNode) -> (r: ControlFlow)
        ensures
            (final(self)@, r) == step_state(old(self)@, step, *node),
    {
        if !node.named {
            return ControlFlow::Skip;
        }
        let ctx = self.context;
        let exp = self.expected;
        match step {
            Step::Enter => match node.kind {
                NodeKind::FunctionDefinition => {
                    self.module.functions.push(Function::new());
                    assert(functions_view(self.module.functions@) =~= functions_view(old(self).module.functions@).push(empty_function()));
                    self.context = Context::FunctionDefinition;
                    self.expected = Expected::ReturnType;
                    ControlFlow::Continue
                },
                NodeKind::PrimitiveType => match ctx {
                    Context::FunctionDefinition => {
                        if matches!(exp, Expected::ReturnType) {
                            set_return_type(&mut self.module, node.text.clone());
                        }
                        ControlFlow::Continue
                    },
                    Context::ParameterDeclaration => {
                        if matches!(exp, Expected::ParameterType) {
                            push_parameter(&mut self.module, node.text.clone());
                            self.expected = Expected::ParameterName;
                        }
                        ControlFlow::Continue
                    },
                    Context::LocalDeclaration => {
                        if matches!(exp, Expected::VariableType) {
                            fill_pending(&mut self.module, Part::Type, node.text.clone());
                            self.expected = Expected::VariableName;
                        }
                        ControlFlow::Continue
                    },
                    _ => ControlFlow::Quit,
                },
                NodeKind::FunctionDeclarator => {
                    self.context = Context::FunctionDeclarator;
                    self.expected = Expected::FunctionName;
                    ControlFlow::Continue
                },
                NodeKind::Identifier => match ctx {
                    Context::FunctionDeclarator => {
                        if matches!(exp, Expected::FunctionName) {
                            set_function_name(&mut self.module, node.text.clone());
                        }
                        ControlFlow::Continue
                    },
                    Context::ParameterDeclaration => {
                        if matches!(exp, Expected::ParameterName) {
                            set_parameter_name(&mut self.module, node.text.clone());
                        }
                        ControlFlow::Continue
                    },
                    Context::LocalInitDeclarator => {
                        if matches!(exp, Expected::VariableName) {
                            fill_pending(&mut self.module, Part::Name, node.text.clone());
                            self.expected = Expected::InitRight;
                        }
                        ControlFlow::Continue
                    },
                    _ => ControlFlow::Quit,
                },
                NodeKind::ParameterList => {
                    self.context = Context::ParameterList;
                    self.expected = Expected::Parameter;
                    ControlFlow::Continue
                },
                NodeKind::ParameterDeclaration => {
                    self.context = Context::ParameterDeclaration;
                    self.expected = Expected::ParameterType;
                    ControlFlow::Continue
                },
                NodeKind::CompoundStatement => {
                    self.context = Context::CompoundStatement;
                    self.expected = Expected::Statement;
                    ControlFlow::Continue
                },
                NodeKind::Declaration => match ctx {
                    Context::CompoundStatement => {
                        if matches!(exp, Expected::Statement) {
                            push_declaration(&mut self.module);
                        }
                        self.context = Context::LocalDeclaration;
                        self.expected = Expected::VariableType;
                        ControlFlow::Continue
                    },
                    _ => ControlFlow::Quit,
                },
                NodeKind::InitDeclarator => {
                    self.context = Context::LocalInitDeclarator;
                    self.expected = Expected::VariableName;
                    ControlFlow::Continue
                },
                NodeKind::NumberLiteral => {
                    if matches!(exp, Expected::InitRight) {
                        fill_pending(&mut self.module, Part::Value, node.text.clone());
                    }
                    ControlFlow::Continue
                },
                NodeKind::Other => ControlFlow::Quit,
            },
            Step::Exit => match node.kind {
                NodeKind::FunctionDefinition | NodeKind::ParameterList => {
                    self.context = Context::Empty;
                    self.expected = Expected::Empty;
                    ControlFlow::Continue
                },
                NodeKind::Declaration => {
                    self.context = Context::CompoundStatement;
                    self.expected = Expected::Statement;
                    ControlFlow::Continue
                },
                NodeKind::Other => ControlFlow::Quit,
                _ => ControlFlow::Continue,
            },
        }
    }
}

impl Reducer {
    /// Walks `node` depth first: an enter notice, then, on `Continue`, each
    /// child in order and an exit notice. `Skip` prunes the subtree and the
    /// walk goes on with the next sibling; `Quit` stops the whole walk, and is
    /// the only answer other than `Continue` that comes back.
    pub fn walk(&mut self, node: &SyntaxNode) -> (r: ControlFlow)
        ensures
            (final(self)@, r) == walked(old(self)@, *node),
        decreases node,
    {
        let c = self.visit(Step::Enter, node);
        match c {
            ControlFlow::Quit => return ControlFlow::Quit,
            ControlFlow::Skip => return ControlFlow::Continue,
            ControlFlow::Continue => {},
        }
        let ghost goal = walked(old(self)@, *node);
        assert(goal == walked_from(self@, *node, 0));
        let n = node.children.len();
        let mut i: usize = 0;
        while i < n
            invariant
                n == node.children@.len(),
                i <= n,
                walked_from(self@, *node, i as int) == goal,
                goal == walked(old(self)@, *node),
            decreases n - i,
        {
            proof { vstd::std_specs::vec::axiom_vec_index_decreases(node.children, i as int); }
            let ghost before = self@;
            let c = self.walk(&node.children[i]);
            proof {
                assert(walked_from(before, *node, i as int) == (if c == ControlFlow::Quit {
                    (self@, ControlFlow::Quit)
                } else {
                    walked_from(self@, *node, i + 1)
                }));
            }
            if let ControlFlow::Quit = c {
                return ControlFlow::Quit;
            }
            i = i + 1;
        }
        let c = self.visit(Step::Exit, node);
        match c {
            ControlFlow::Quit => ControlFlow::Quit,
            _ => ControlFlow::Continue,
        }
    }
}

/// Reduces the top-level items of a translation unit, the children of `root`
/// in order, into a module of the given name. The walk stops at the first
/// unsupported construct; the module holds what was built up to there.
pub fn reduce(root: &SyntaxNode, name: String) -> (r: TopLevelModule)
    ensures
        r@ == reduced(*root, name@),
{
    let mut reducer = Reducer::new(name);
    let ghost goal = reduced_from(reducer@, *root, 0);
    let n = root.children.len();
    let mut i: usize = 0;
    let mut stopped = false;
    while i < n && !stopped
        invariant
            n == root.children@.len(),
            i <= n,
            stopped ==> reducer@ == goal,
            !stopped ==> reduced_from(reducer@, *root, i as int) == goal,
        decreases n - i + if stopped { 0int } else { 1int },
    {
        if let ControlFlow::Quit = reducer.walk(&root.children[i]) {
            stopped = true;
        } else {
            i = i + 1;
        }
    }
    reducer.module
}

/// `b` keeps every element of `a` but the last, and is at most one longer.
pub open spec fn keeps_all_but_last<T>(a: Seq<T>, b: Seq<T>) -> bool {
    &&& a.len() <= b.len() <= a.len() + 1
    &&& forall|i: int| 0 <= i < a.len() - 1 ==> b[i] == a[i]
}

/// `b` grows from `a` by one step, without removing or reordering: the name
/// and globals stay; at most one function is appended, and then every old
/// function stays; the last old function keeps all its parameters and
/// statements but the last, and gains at most one of each.
pub open spec fn grows(a: ModuleModel, b: ModuleModel) -> bool {
    &&& b.name == a.name
    &&& b.global_variables == a.global_variables
    &&& keeps_all_but_last(a.functions, b.functions)
    &&& b.functions.len() > a.functions.len() ==> forall|i: int| 0 <= i < a.functions.len() ==> b.functions[i] == a.functions[i]
    &&& a.functions.len() > 0 ==> {
        let k = a.functions.len() - 1;
        &&& keeps_all_but_last(a.functions[k].args, b.functions[k].args)
        &&& keeps_all_but_last(a.functions[k].body, b.functions[k].body)
    }
}

/// Every notice only grows the module: nothing is removed or reordered.
pub proof fn lemma_step_grows(s: ReducerModel, step: Step, node: SyntaxNode)
    ensures
        grows(s.module, step_state(s, step, node).0.module),
{
}

/// After the exit of a function definition both registers are empty and the
/// module is as it was, so a following function starts from a clean
/// automaton.
pub proof fn lemma_function_exit_resets(s: ReducerModel, node: SyntaxNode)
    requires
        node.named,
        node.kind == NodeKind::FunctionDefinition,
    ensures
        step_state(s, Step::Exit, node)
            == (ReducerModel { module: s.module, context: Context::Empty, expected: Expected::Empty }, ControlFlow::Continue),
{
}

/// After the exit of a declaration the reducer is back in the statement
/// sequence of its block, with the module as it was.
pub proof fn lemma_declaration_exit_returns(s: ReducerModel, node: SyntaxNode)
    requires
        node.named,
        node.kind == NodeKind::Declaration,
    ensures
        step_state(s, Step::Exit, node)
            == (ReducerModel { module: s.module, context: Context::CompoundStatement, expected: Expected::Statement }, ControlFlow::Continue),
{
}

/// An unnamed node is pruned: its walk changes nothing and goes on.
pub proof fn lemma_unnamed_pruned(s: ReducerModel, step: Step, node: SyntaxNode)
    requires
        !node.named,
    ensures
        step_state(s, step, node) == (s, ControlFlow::Skip),
        walked(s, node) == (s, ControlFlow::Continue),
{
}

/// A named node outside the supported vocabulary stops the walk at once and
/// leaves the reducer as it was.
pub proof fn lemma_unsupported_aborts(s: ReducerModel, step: Step, node: SyntaxNode)
    requires
        node.named,
        node.kind == NodeKind::Other,
    ensures
        step_state(s, step, node) == (s, ControlFlow::Quit),
        walked(s, node) == (s, ControlFlow::Quit),
{
}

/// Reducing one tree twice gives the same module.
pub proof fn lemma_reduction_deterministic(root: SyntaxNode, name: String, r1: TopLevelModule, r2: TopLevelModule)
    requires
        r1@ == reduced(root, name@),
        r2@ == reduced(root, name@),
    ensures
        r1@ == r2@,
{
}

/// An unnamed child is passed over: the walk of the remaining children is
/// the same with or without it.
pub proof fn lemma_unnamed_child_passed_over(s: ReducerModel, node: SyntaxNode, i: int)
    requires
        0 <= i < node.children@.len(),
        !node.children@[i].named,
    ensures
        walked_from(s, node, i) == walked_from(s, node, i + 1),
{
    lemma_unnamed_pruned(s, Step::Enter, node.children@[i]);
}

/// A named node of kind `k` with no children.
pub open spec fn is_leaf(n: SyntaxNode, k: NodeKind) -> bool {
    n.named && n.kind == k && n.children@.len() == 0
}

/// `int a`: a parameter declaration holding a type and a name.
pub open spec fn is_parameter(n: SyntaxNode) -> bool {
    &&& n.named && n.kind == NodeKind::ParameterDeclaration && n.children@.len() == 2
    &&& is_leaf(n.children@[0], NodeKind::PrimitiveType)
    &&& is_leaf(n.children@[1], NodeKind::Identifier)
}

/// `(int a, int b)`: parameters among punctuation.
pub open spec fn is_parameter_list(n: SyntaxNode) -> bool {
    &&& n.named && n.kind == NodeKind::ParameterList
    &&& forall|i: int| 0 <= i < n.children@.len() ==> !(#[trigger] n.children@[i]).named || is_parameter(n.children@[i])
}

/// `add(int a, int b)`: a function's name and its parameter list.
pub open spec fn is_declarator(n: SyntaxNode) -> bool {
    &&& n.named && n.kind == NodeKind::FunctionDeclarator && n.children@.len() == 2
    &&& is_leaf(n.children@[0], NodeKind::Identifier)
    &&& is_parameter_list(n.children@[1])
}

/// `x = 5`: a declared name and its literal initializer.
pub open spec fn is_init_declarator(n: SyntaxNode) -> bool {
    &&& n.named && n.kind == NodeKind::InitDeclarator && n.children@.len() == 2
    &&& is_leaf(n.children@[0], NodeKind::Identifier)
    &&& is_leaf(n.children@[1], NodeKind::NumberLiteral)
}

/// `int x = 5`: a local declaration with a literal initializer.
pub open spec fn is_declaration(n: SyntaxNode) -> bool {
    &&& n.named && n.kind == NodeKind::Declaration && n.children@.len() == 2
    &&& is_leaf(n.children@[0], NodeKind::PrimitiveType)
    &&& is_init_declarator(n.children@[1])
}

/// `{ int x = 5; }`: declarations among punctuation.
pub open spec fn is_block(n: SyntaxNode) -> bool {
    &&& n.named && n.kind == NodeKind::CompoundStatement
    &&& forall|i: int| 0 <= i < n.children@.len() ==> !(#[trigger] n.children@[i]).named || is_declaration(n.children@[i])
}

/// `int add(int a, int b) { int x = 5; }`: a function definition of the
/// supported vocabulary, nested as the grammar nests it.
pub open spec fn is_function(n: SyntaxNode) -> bool {
    &&& n.named && n.kind == NodeKind::FunctionDefinition && n.children@.len() == 3
    &&& is_leaf(n.children@[0], NodeKind::PrimitiveType)
    &&& is_declarator(n.children@[1])
    &&& is_block(n.children@[2])
}

proof fn lemma_leaf_walk(s: ReducerModel, n: SyntaxNode)
    requires
        n.named,
        n.kind != NodeKind::Other,
        n.children@.len() == 0,
        step_state(s, Step::Enter, n).1 == ControlFlow::Continue,
    ensures
        walked(s, n) == step_state(step_state(s, Step::Enter, n).0, Step::Exit, n),
        walked(s, n).1 == ControlFlow::Continue,
{
    assert(walked(s, n) == walked_from(step_state(s, Step::Enter, n).0, n, 0));
}

proof fn lemma_parameter_walk(s: ReducerModel, n: SyntaxNode)
    requires
        is_parameter(n),
    ensures
        walked(s, n).1 == ControlFlow::Continue,
{
    let s1 = step_state(s, Step::Enter, n).0;
    lemma_leaf_walk(s1, n.children@[0]);
    let s2 = walked(s1, n.children@[0]).0;
    lemma_leaf_walk(s2, n.children@[1]);
    let s3 = walked(s2, n.children@[1]).0;
    assert(walked(s, n) == walked_from(s1, n, 0));
    assert(walked_from(s1, n, 0) == walked_from(s2, n, 1));
    assert(walked_from(s2, n, 1) == walked_from(s3, n, 2));
}

proof fn lemma_parameters_from(s: ReducerModel, n: SyntaxNode, i: int)
    requires
        is_parameter_list(n),
        0 <= i <= n.children@.len(),
    ensures
        walked_from(s, n, i).1 == ControlFlow::Continue,
        walked_from(s, n, i).0.context == Context::Empty,
        walked_from(s, n, i).0.expected == Expected::Empty,
    decreases n.children@.len() - i,
{
    if i < n.children@.len() {
        let c = n.children@[i];
        if c.named {
            lemma_parameter_walk(s, c);
        } else {
            lemma_unnamed_pruned(s, Step::Enter, c);
        }
        lemma_parameters_from(walked(s, c).0, n, i + 1);
    }
}

proof fn lemma_declarator_walk(s: ReducerModel, n: SyntaxNode)
    requires
        is_declarator(n),
    ensures
        walked(s, n).1 == ControlFlow::Continue,
{
    let s1 = step_state(s, Step::Enter, n).0;
    lemma_leaf_walk(s1, n.children@[0]);
    let s2 = walked(s1, n.children@[0]).0;
    let l = n.children@[1];
    lemma_parameters_from(step_state(s2, Step::Enter, l).0, l, 0);
    let s3 = walked(s2, l).0;
    assert(walked(s, n) == walked_from(s1, n, 0));
    assert(walked_from(s1, n, 0) == walked_from(s2, n, 1));
    assert(walked_from(s2, n, 1) == walked_from(s3, n, 2));
}

proof fn lemma_declaration_walk(s: ReducerModel, n: SyntaxNode)
    requires
        is_declaration(n),
        s.context == Context::CompoundStatement,
    ensures
        walked(s, n).1 == ControlFlow::Continue,
        walked(s, n).0.context == Context::CompoundStatement,
{
    let s1 = step_state(s, Step::Enter, n).0;
    lemma_leaf_walk(s1, n.children@[0]);
    let s2 = walked(s1, n.children@[0]).0;
    let d = n.children@[1];
    let t1 = step_state(s2, Step::Enter, d).0;
    lemma_leaf_walk(t1, d.children@[0]);
    let t2 = walked(t1, d.children@[0]).0;
    lemma_leaf_walk(t2, d.children@[1]);
    let t3 = walked(t2, d.children@[1]).0;
    assert(walked(s2, d) == walked_from(t1, d, 0));
    assert(walked_from(t1, d, 0) == walked_from(t2, d, 1));
    assert(walked_from(t2, d, 1) == walked_from(t3, d, 2));
    let s3 = walked(s2, d).0;
    assert(walked(s, n) == walked_from(s1, n, 0));
    assert(walked_from(s1, n, 0) == walked_from(s2, n, 1));
    assert(walked_from(s2, n, 1) == walked_from(s3, n, 2));
}

proof fn lemma_block_from(s: ReducerModel, n: SyntaxNode, i: int)
    requires
        is_block(n),
        0 <= i <= n.children@.len(),
        s.context == Context::CompoundStatement,
    ensures
        walked_from(s, n, i).1 == ControlFlow::Continue,
    decreases n.children@.len() - i,
{
    if i < n.children@.len() {
        let c = n.children@[i];
        if c.named {
            lemma_declaration_walk(s, c);
        } else {
            lemma_unnamed_pruned(s, Step::Enter, c);
        }
        lemma_block_from(walked(s, c).0, n, i + 1);
    }
}

/// A function definition of the supported vocabulary, nested as the grammar
/// nests it and with punctuation anywhere among parameters and statements,
/// is walked to its end without stopping, from any state of the reducer, and
/// leaves both registers empty.
pub proof fn lemma_supported_function_continues(s: ReducerModel, n: SyntaxNode)
    requires
        is_function(n),
    ensures
        walked(s, n).1 == ControlFlow::Continue,
        walked(s, n).0.context == Context::Empty,
        walked(s, n).0.expected == Expected::Empty,
{
    let s1 = step_state(s, Step::Enter, n).0;
    lemma_leaf_walk(s1, n.children@[0]);
    let s2 = walked(s1, n.children@[0]).0;
    lemma_declarator_walk(s2, n.children@[1]);
    let s3 = walked(s2, n.children@[1]).0;
    let b = n.children@[2];
    lemma_block_from(step_state(s3, Step::Enter, b).0, b, 0);
    let s4 = walked(s3, b).0;
    assert(walked(s, n) == walked_from(s1, n, 0));
    assert(walked_from(s1, n, 0) == walked_from(s2, n, 1));
    assert(walked_from(s2, n, 1) == walked_from(s3, n, 2));
    assert(walked_from(s3, n, 2) == walked_from(s4, n, 3));
}

/// Every statement of every function is a declaration holding exactly one
/// expression, of kind `Expr`, with an empty operator.
pub open spec fn statements_well_formed(m: ModuleModel) -> bool {
    forall|i: int, j: int|
        0 <= i < m.functions.len() && 0 <= j < m.functions[i].body.len() ==> {
            let s = #[trigger] m.functions[i].body[j];
            &&& s.kind == "declaration"@
            &&& s.expr.len() == 1
            &&& s.expr[0].kind == "Expr"@
            &&& s.expr[0].operator == Seq::<char>::empty()
        }
}

/// Every notice keeps each statement a single `Expr` that is only filled in,
/// never removed or replaced.
pub proof fn lemma_step_keeps_statements(s: ReducerModel, step: Step, node: SyntaxNode)
    requires
        statements_well_formed(s.module),
    ensures
        statements_well_formed(step_state(s, step, node).0.module),
{
    let m = s.module;
    let m2 = step_state(s, step, node).0.module;
    assert forall|i: int, j: int|
        0 <= i < m2.functions.len() && 0 <= j < m2.functions[i].body.len() implies {
            let st = #[trigger] m2.functions[i].body[j];
            &&& st.kind == "declaration"@
            &&& st.expr.len() == 1
            &&& st.expr[0].kind == "Expr"@
            &&& st.expr[0].operator == Seq::<char>::empty()
        } by {
        if i < m.functions.len() && j < m.functions[i].body.len() {
            assert(m.functions[i].body[j].expr.len() == 1);
        }
    }
}

} // verus!
