//! The crate's own shape for a parsed DOT description: exactly the parts of
//! the language that the graph builder reads, held as plain strings.  A DOT
//! parser fills these types in; everything computed from them is verified.

use vstd::prelude::*;

verus! {

/// One statement of a DOT graph body, reduced to what the graph builder
/// reads.  Attribute lists are flattened to key/value pairs in source order;
/// statements the builder ignores (edge statements, node- and edge-default
/// attributes) are left out by the caller that fills this in.
pub enum DotStmt {
    /// A node declaration with its attributes.
    Node { id: String, attrs: Vec<(String, String)> },
    /// A bare `key = value` statement.
    IdEq { key: String, value: String },
    /// A `graph [...]` attribute statement.
    GraphAttrs { attrs: Vec<(String, String)> },
    /// A nested subgraph and its own statements.
    Subgraph { stmts: Vec<DotStmt> },
}

/// One edge of the flattened edge set, with its attributes.
pub struct DotEdge {
    pub from: String,
    pub to: String,
    pub attrs: Vec<(String, String)>,
}

/// A whole parsed DOT graph: its statement tree and its flattened edges.
pub struct DotAst {
    pub stmts: Vec<DotStmt>,
    pub edges: Vec<DotEdge>,
}

} // verus!
