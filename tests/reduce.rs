use c_reducer::model::TopLevelModule;
use c_reducer::reducer::{reduce, Context, Expected, Reducer};
use c_reducer::syntax::{ControlFlow, NodeKind, Step, SyntaxNode};

fn named(kind: NodeKind, text: &str, children: Vec<SyntaxNode>) -> SyntaxNode {
    SyntaxNode { kind, named: true, text: text.to_string(), children }
}

fn token(text: &str) -> SyntaxNode {
    SyntaxNode { kind: NodeKind::Other, named: false, text: text.to_string(), children: vec![] }
}

fn unit(items: Vec<SyntaxNode>) -> SyntaxNode {
    SyntaxNode { kind: NodeKind::Other, named: true, text: String::new(), children: items }
}

fn param(ty: &str, name: &str) -> SyntaxNode {
    named(
        NodeKind::ParameterDeclaration,
        "",
        vec![named(NodeKind::PrimitiveType, ty, vec![]), named(NodeKind::Identifier, name, vec![])],
    )
}

fn function(ret: &str, name: &str, params: Vec<SyntaxNode>, body: Vec<SyntaxNode>, trivia: bool) -> SyntaxNode {
    let mut list = Vec::new();
    if trivia {
        list.push(token("("));
    }
    for (i, p) in params.into_iter().enumerate() {
        if trivia && i > 0 {
            list.push(token(","));
        }
        list.push(p);
    }
    if trivia {
        list.push(token(")"));
    }
    let mut block = Vec::new();
    if trivia {
        block.push(token("{"));
    }
    block.extend(body);
    if trivia {
        block.push(token("}"));
    }
    named(
        NodeKind::FunctionDefinition,
        "",
        vec![
            named(NodeKind::PrimitiveType, ret, vec![]),
            named(
                NodeKind::FunctionDeclarator,
                "",
                vec![named(NodeKind::Identifier, name, vec![]), named(NodeKind::ParameterList, "", list)],
            ),
            named(NodeKind::CompoundStatement, "", block),
        ],
    )
}

fn declaration(ty: &str, name: &str, value: &str, trivia: bool) -> SyntaxNode {
    let mut init = vec![named(NodeKind::Identifier, name, vec![])];
    if trivia {
        init.push(token("="));
    }
    init.push(named(NodeKind::NumberLiteral, value, vec![]));
    let mut decl = vec![named(NodeKind::PrimitiveType, ty, vec![]), named(NodeKind::InitDeclarator, "", init)];
    if trivia {
        decl.push(token(";"));
    }
    named(NodeKind::Declaration, "", decl)
}

fn scenario_a(trivia: bool) -> SyntaxNode {
    unit(vec![function("int", "add", vec![param("int", "a"), param("int", "b")], vec![], trivia)])
}

fn scenario_b(trivia: bool) -> SyntaxNode {
    unit(vec![function("int", "main", vec![], vec![declaration("int", "x", "5", trivia)], trivia)])
}

fn render(m: &TopLevelModule) -> String {
    let mut out = format!("{}:", m.name);
    for f in &m.functions {
        out.push_str(&format!(" [{} {} (", f.return_type, f.name));
        for a in &f.args {
            out.push_str(&format!("{} {};", a.var_type, a.name));
        }
        out.push_str(") {");
        for s in &f.body {
            for e in &s.expr {
                let right = e.right.as_ref().and_then(|r| r.value.clone()).unwrap_or_default();
                out.push_str(&format!("{} {} = {};", e.left.var_type, e.left.name, right));
            }
        }
        out.push_str("}]");
    }
    out
}

#[test]
fn scenario_parameters() {
    let m = reduce(&scenario_a(true), "main".to_string());
    assert_eq!(m.functions.len(), 1);
    let f = &m.functions[0];
    assert_eq!(f.return_type, "int");
    assert_eq!(f.name, "add");
    assert_eq!(f.args.len(), 2);
    assert_eq!((f.args[0].var_type.as_str(), f.args[0].name.as_str()), ("int", "a"));
    assert_eq!((f.args[1].var_type.as_str(), f.args[1].name.as_str()), ("int", "b"));
    assert!(f.args.iter().all(|a| a.value.is_none()));
    assert!(f.body.is_empty());
}

#[test]
fn scenario_local_declaration() {
    let m = reduce(&scenario_b(true), "main".to_string());
    let f = &m.functions[0];
    assert_eq!(f.return_type, "int");
    assert_eq!(f.name, "main");
    assert!(f.args.is_empty());
    assert_eq!(f.body.len(), 1);
    assert_eq!(f.body[0].expr.len(), 1);
    let e = &f.body[0].expr[0];
    assert_eq!(e.left.name, "x");
    assert_eq!(e.left.var_type, "int");
    assert!(e.left.value.is_none());
    let r = e.right.as_ref().unwrap();
    assert_eq!(r.value.as_deref(), Some("5"));
    assert_eq!(r.name, "");
    assert_eq!(r.var_type, "");
}

#[test]
fn trivia_is_pruned() {
    assert_eq!(render(&reduce(&scenario_a(true), "main".to_string())), render(&reduce(&scenario_a(false), "main".to_string())));
    assert_eq!(render(&reduce(&scenario_b(true), "main".to_string())), render(&reduce(&scenario_b(false), "main".to_string())));
}

#[test]
fn unsupported_construct_stops_walk() {
    let for_stmt = named(NodeKind::Other, "for (;;) {}", vec![]);
    let body = vec![declaration("int", "x", "5", true), for_stmt, declaration("int", "y", "6", true)];
    let root = unit(vec![
        function("int", "main", vec![], body, true),
        function("int", "other", vec![], vec![], true),
    ]);
    let m = reduce(&root, "main".to_string());
    assert_eq!(m.functions.len(), 1);
    assert_eq!(m.functions[0].body.len(), 1);
    assert_eq!(m.functions[0].body[0].expr[0].left.name, "x");
}

#[test]
fn walk_answers_quit_on_unsupported() {
    let mut r = Reducer::new("main".to_string());
    let c = r.walk(&named(NodeKind::Other, "", vec![]));
    assert_eq!(c, ControlFlow::Quit);
    assert!(r.module.functions.is_empty());
}

#[test]
fn reduction_is_deterministic() {
    let a = render(&reduce(&scenario_b(true), "main".to_string()));
    let b = render(&reduce(&scenario_b(true), "main".to_string()));
    assert_eq!(a, b);
}

#[test]
fn function_exit_resets_registers() {
    let mut r = Reducer::new("main".to_string());
    assert_eq!(r.walk(&function("int", "f", vec![param("int", "a")], vec![declaration("int", "x", "1", true)], true)), ControlFlow::Continue);
    assert_eq!(r.context, Context::Empty);
    assert_eq!(r.expected, Expected::Empty);
    let root = unit(vec![
        function("int", "f", vec![param("int", "a")], vec![], true),
        function("void", "g", vec![], vec![declaration("int", "y", "2", true)], true),
    ]);
    let m = reduce(&root, "main".to_string());
    assert_eq!(m.functions.len(), 2);
    assert_eq!(m.functions[1].name, "g");
    assert!(m.functions[1].args.is_empty());
    assert_eq!(m.functions[1].body.len(), 1);
    assert_eq!(m.functions[0].args.len(), 1);
}

#[test]
fn unnamed_node_is_skipped() {
    let mut r = Reducer::new("main".to_string());
    assert_eq!(r.visit(Step::Enter, &token(";")), ControlFlow::Skip);
    assert_eq!(r.walk(&token(";")), ControlFlow::Continue);
    assert_eq!(r.context, Context::Empty);
}

#[test]
fn growth_is_append_only() {
    let mut r = Reducer::new("main".to_string());
    r.visit(Step::Enter, &named(NodeKind::FunctionDefinition, "", vec![]));
    r.visit(Step::Enter, &named(NodeKind::ParameterDeclaration, "", vec![]));
    r.visit(Step::Enter, &named(NodeKind::PrimitiveType, "int", vec![]));
    assert_eq!(r.module.functions[0].args.len(), 1);
    r.visit(Step::Enter, &named(NodeKind::Identifier, "a", vec![]));
    assert_eq!(r.module.functions[0].args.len(), 1);
    assert_eq!(r.module.functions[0].args[0].name, "a");
    r.visit(Step::Enter, &named(NodeKind::ParameterDeclaration, "", vec![]));
    r.visit(Step::Enter, &named(NodeKind::PrimitiveType, "long", vec![]));
    assert_eq!(r.module.functions[0].args.len(), 2);
    assert_eq!(r.module.functions[0].args[0].name, "a");
    assert_eq!(r.module.functions[0].args[1].var_type, "long");
}

#[test]
fn variable_as_expression() {
    let v = c_reducer::model::Variable { name: "x".to_string(), var_type: "int".to_string(), value: Some("3".to_string()) };
    let e = v.to_expr();
    assert_eq!(e.kind, "Variable");
    assert_eq!(e.left.name, "x");
    assert_eq!(e.left.value.as_deref(), Some("3"));
    assert!(e.right.is_none());
}

#[test]
fn kind_names_translate() {
    assert_eq!(NodeKind::from_name(&"function_definition".to_string()), NodeKind::FunctionDefinition);
    assert_eq!(NodeKind::from_name(&"number_literal".to_string()), NodeKind::NumberLiteral);
    assert_eq!(NodeKind::from_name(&"declaration".to_string()), NodeKind::Declaration);
    assert_eq!(NodeKind::from_name(&"for_statement".to_string()), NodeKind::Other);
    assert_eq!(NodeKind::from_name(&"".to_string()), NodeKind::Other);
}
