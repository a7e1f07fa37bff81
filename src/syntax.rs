//! The syntax tree handed in by a parser, and the walker's control protocol.
use vstd::prelude::*;

verus! {

/// The node kinds the reducer knows, and one for every other kind.
#[derive(Clone, Copy, Debug, PartialEq, Eq, Structural)]
pub enum NodeKind {
    FunctionDefinition,
    PrimitiveType,
    FunctionDeclarator,
    Identifier,
    ParameterList,
    ParameterDeclaration,
    CompoundStatement,
    Declaration,
    InitDeclarator,
    NumberLiteral,
    Other,
}

/// The kind that a grammar symbol's name denotes.
pub open spec fn kind_named(name: Seq<char>) -> NodeKind {
    if name == "function_definition"@ {
        NodeKind::FunctionDefinition
    } else if name == "primitive_type"@ {
        NodeKind::PrimitiveType
    } else if name == "function_declarator"@ {
        NodeKind::FunctionDeclarator
    } else if name == "identifier"@ {
        NodeKind::Identifier
    } else if name == "parameter_list"@ {
        NodeKind::ParameterList
    } else if name == "parameter_declaration"@ {
        NodeKind::ParameterDeclaration
    } else if name == "compound_statement"@ {
        NodeKind::CompoundStatement
    } else if name == "declaration"@ {
        NodeKind::Declaration
    } else if name == "init_declarator"@ {
        NodeKind::InitDeclarator
    } else if name == "number_literal"@ {
        NodeKind::NumberLiteral
    } else {
        NodeKind::Other
    }
}

impl NodeKind {
    /// Translates a grammar symbol's name into a kind; every name outside the
    /// supported vocabulary becomes `Other`.
    pub fn from_name(name: &String) -> (r: NodeKind)
        ensures
            r == kind_named(name@),
    {
        proof { reveal_strlit("function_definition"); }
        if *name == String::from_str("function_definition") {
            return NodeKind::FunctionDefinition;
        }
        proof { reveal_strlit("primitive_type"); }
        if *name == String::from_str("primitive_type") {
            return NodeKind::PrimitiveType;
        }
        proof { reveal_strlit("function_declarator"); }
        if *name == String::from_str("function_declarator") {
            return NodeKind::FunctionDeclarator;
        }
        proof { reveal_strlit("identifier"); }
        if *name == String::from_str("identifier") {
            return NodeKind::Identifier;
        }
        proof { reveal_strlit("parameter_list"); }
        if *name == String::from_str("parameter_list") {
            return NodeKind::ParameterList;
        }
        proof { reveal_strlit("parameter_declaration"); }
        if *name == String::from_str("parameter_declaration") {
            return NodeKind::ParameterDeclaration;
        }
        proof { reveal_strlit("compound_statement"); }
        if *name == String::from_str("compound_statement") {
            return NodeKind::CompoundStatement;
        }
        proof { reveal_strlit("declaration"); }
        if *name == String::from_str("declaration") {
            return NodeKind::Declaration;
        }
        proof { reveal_strlit("init_declarator"); }
        if *name == String::from_str("init_declarator") {
            return NodeKind::InitDeclarator;
        }
        proof { reveal_strlit("number_literal"); }
        if *name == String::from_str("number_literal") {
            return NodeKind::NumberLiteral;
        }
        NodeKind::Other
    }
}

/// A node of a concrete syntax tree: its kind, whether the grammar names it,
/// the source text it spans, and its children in order.
pub struct SyntaxNode {
    pub kind: NodeKind,
    pub named: bool,
    pub text: String,
    pub children: Vec<SyntaxNode>,
}

/// Which of the two notices of a node is delivered.
#[derive(Clone, Copy, Debug, PartialEq, Eq, Structural)]
pub enum Step {
    Enter,
    Exit,
}

/// A consumer's answer to a notice.
#[derive(Clone, Copy, Debug, PartialEq, Eq, Structural)]
pub enum ControlFlow {
    Continue,
    Skip,
    Quit,
}

} // verus!
