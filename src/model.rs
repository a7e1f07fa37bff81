//! The program model that a reduction builds, and its mathematical view.
use vstd::prelude::*;

verus! {

/// A named, typed variable, with the text of its literal value if it has one.
#[derive(Debug)]
pub struct Variable {
    pub name: String,
    pub var_type: String,
    pub value: Option<String>,
}

/// An expression: the declared variable on the left, an operator slot, and
/// an optional value on the right.
#[derive(Debug)]
pub struct Expr {
    pub kind: String,
    pub left: Variable,
    pub operator: String,
    pub right: Option<Variable>,
}

/// A statement of a function body; a declaration holds one expression.
#[derive(Debug)]
pub struct Statement {
    pub kind: String,
    pub expr: Vec<Expr>,
}

/// A function: return type, name, parameters and body.
#[derive(Debug)]
pub struct Function {
    pub return_type: String,
    pub name: String,
    pub args: Vec<Variable>,
    pub body: Vec<Statement>,
}

/// The root of a reduction's result.
#[derive(Debug)]
pub struct TopLevelModule {
    pub name: String,
    pub global_variables: Vec<Variable>,
    pub functions: Vec<Function>,
}

/// The view of a `Variable`.
pub struct VariableModel {
    pub name: Seq<char>,
    pub var_type: Seq<char>,
    pub value: Option<Seq<char>>,
}

/// The view of an `Expr`.
pub struct ExprModel {
    pub kind: Seq<char>,
    pub left: VariableModel,
    pub operator: Seq<char>,
    pub right: Option<VariableModel>,
}

/// The view of a `Statement`.
pub struct StatementModel {
    pub kind: Seq<char>,
    pub expr: Seq<ExprModel>,
}

/// The view of a `Function`.
pub struct FunctionModel {
    pub return_type: Seq<char>,
    pub name: Seq<char>,
    pub args: Seq<VariableModel>,
    pub body: Seq<StatementModel>,
}

/// The view of a `TopLevelModule`.
pub struct ModuleModel {
    pub name: Seq<char>,
    pub global_variables: Seq<VariableModel>,
    pub functions: Seq<FunctionModel>,
}

pub open spec fn text_view(t: Option<String>) -> Option<Seq<char>> {
    match t {
        Some(s) => Some(s@),
        None => None,
    }
}

pub open spec fn variable_view(t: Option<Variable>) -> Option<VariableModel> {
    match t {
        Some(v) => Some(v@),
        None => None,
    }
}

pub open spec fn variables_view(v: Seq<Variable>) -> Seq<VariableModel> {
    v.map_values(|x: Variable| x@)
}

pub open spec fn exprs_view(v: Seq<Expr>) -> Seq<ExprModel> {
    v.map_values(|x: Expr| x@)
}

pub open spec fn statements_view(v: Seq<Statement>) -> Seq<StatementModel> {
    v.map_values(|x: Statement| x@)
}

pub open spec fn functions_view(v: Seq<Function>) -> Seq<FunctionModel> {
    v.map_values(|x: Function| x@)
}

impl View for Variable {
    type V = VariableModel;

    open spec fn view(&self) -> VariableModel {
        VariableModel { name: self.name@, var_type: self.var_type@, value: text_view(self.value) }
    }
}

impl View for Expr {
    type V = ExprModel;

    open spec fn view(&self) -> ExprModel {
        ExprModel {
            kind: self.kind@,
            left: self.left@,
            operator: self.operator@,
            right: variable_view(self.right),
        }
    }
}

impl View for Statement {
    type V = StatementModel;

    open spec fn view(&self) -> StatementModel {
        StatementModel { kind: self.kind@, expr: exprs_view(self.expr@) }
    }
}

impl View for Function {
    type V = FunctionModel;

    open spec fn view(&self) -> FunctionModel {
        FunctionModel {
            return_type: self.return_type@,
            name: self.name@,
            args: variables_view(self.args@),
            body: statements_view(self.body@),
        }
    }
}

impl View for TopLevelModule {
    type V = ModuleModel;

    open spec fn view(&self) -> ModuleModel {
        ModuleModel {
            name: self.name@,
            global_variables: variables_view(self.global_variables@),
            functions: functions_view(self.functions@),
        }
    }
}

/// A variable with no name, no type and no value.
pub open spec fn empty_variable() -> VariableModel {
    VariableModel { name: seq![], var_type: seq![], value: None }
}

/// The placeholder expression that a declaration starts with.
pub open spec fn placeholder_model() -> ExprModel {
    ExprModel { kind: "Expr"@, left: empty_variable(), operator: seq![], right: None }
}

/// A function with nothing discovered yet.
pub open spec fn empty_function() -> FunctionModel {
    FunctionModel { return_type: seq![], name: seq![], args: seq![], body: seq![] }
}

impl Variable {
    /// A variable with no name, no type and no value.
    pub fn new() -> (r: Variable)
        ensures
            r@ == empty_variable(),
    {
        Variable { name: String::new(), var_type: String::new(), value: None }
    }

    /// This variable as an expression of kind `Variable`, with a copy of it on
    /// the left and nothing on the right.
    pub fn to_expr(&self) -> (r: Expr)
        ensures
            r.kind@ == "Variable"@,
            r.left == *self,
            r.operator@.len() == 0,
            r.right is None,
    {
        let value = match &self.value {
            Some(v) => Some(v.clone()),
            None => None,
        };
        proof { reveal_strlit("Variable"); }
        Expr {
            kind: String::from_str("Variable"),
            left: Variable { name: self.name.clone(), var_type: self.var_type.clone(), value },
            operator: String::new(),
            right: None,
        }
    }
}

impl Expr {
    /// The placeholder expression of a declaration just entered: kind `Expr`,
    /// an empty variable on the left, nothing on the right.
    pub fn placeholder() -> (r: Expr)
        ensures
            r@ == placeholder_model(),
    {
        proof { reveal_strlit("Expr"); }
        let r = Expr {
            kind: String::from_str("Expr"),
            left: Variable::new(),
            operator: String::new(),
            right: None,
        };
        assert(r.operator@ =~= seq![]);
        r
    }
}

impl Function {
    /// A function with nothing discovered yet.
    pub fn new() -> (r: Function)
        ensures
            r@ == empty_function(),
    {
        let r = Function { return_type: String::new(), name: String::new(), args: Vec::new(), body: Vec::new() };
        assert(r@.args =~= seq![]);
        assert(r@.body =~= seq![]);
        r
    }
}

impl TopLevelModule {
    /// An empty module with the given name.
    pub fn new(name: String) -> (r: TopLevelModule)
        ensures
            r@ == (ModuleModel { name: name@, global_variables: seq![], functions: seq![] }),
    {
        let r = TopLevelModule { name, global_variables: Vec::new(), functions: Vec::new() };
        assert(r@.global_variables =~= seq![]);
        assert(r@.functions =~= seq![]);
        r
    }
}

} // verus!
