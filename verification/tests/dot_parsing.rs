//! Runs the graph builder on DOT text parsed by the real parser: the test
//! transcribes the parser's syntax tree into the crate's own statement model
//! and checks what `GraphData::from_ast` builds from it.

use dot_parser::{ast, canonical};
use plumb::dot_ast::{DotAst, DotEdge, DotStmt};
use plumb::graph_data::{GraphData, GraphDirection};

fn stmt_to_model(stmt: &ast::Stmt<(String, String)>) -> Option<DotStmt> {
    match stmt {
        ast::Stmt::NodeStmt(n) => Some(DotStmt::Node {
            id: n.node.id.clone(),
            attrs: n
                .attr
                .as_ref()
                .map(|a| a.clone().flatten().elems)
                .unwrap_or_default(),
        }),
        ast::Stmt::IDEq(key, value) => {
            Some(DotStmt::IdEq { key: key.clone(), value: value.clone() })
        }
        ast::Stmt::AttrStmt(ast::AttrStmt::Graph(attrs)) => {
            Some(DotStmt::GraphAttrs { attrs: attrs.clone().flatten().elems })
        }
        ast::Stmt::Subgraph(sg) => Some(DotStmt::Subgraph {
            stmts: sg.stmts.stmts.iter().filter_map(stmt_to_model).collect(),
        }),
        _ => None,
    }
}

fn parse(dot: &str) -> GraphData {
    let parsed = ast::Graph::try_from(dot).expect("DOT text should parse");
    let owned: ast::Graph<(String, String)> =
        parsed.filter_map(&|(k, v)| Some((k.into(), v.into())));
    let stmts: Vec<DotStmt> = owned.stmts.stmts.iter().filter_map(stmt_to_model).collect();
    let edges: Vec<DotEdge> = canonical::Graph::from(owned)
        .edges
        .set
        .into_iter()
        .map(|e| DotEdge { from: e.from, to: e.to, attrs: e.attr.elems })
        .collect();
    GraphData::from_ast(&DotAst { stmts, edges })
}

#[test]
fn parses_simple_digraph() {
    let g = parse(
        "digraph G { label=\"Demo\"; rankdir=\"LR\"; a [label=\"Start\"]; b; a -> b [label=\"next\"]; }",
    );
    assert_eq!(g.id, "G");
    assert_eq!(g.label, Some("Demo".to_string()));
    assert_eq!(g.direction, GraphDirection::LeftToRight);
    assert_eq!(g.nodes.len(), 2);
    assert_eq!(g.nodes[0].id, "a");
    assert_eq!(g.nodes[0].label, Some("Start".to_string()));
    assert_eq!(g.nodes[1].id, "b");
    assert_eq!(g.nodes[1].label, None);
    assert_eq!(g.edges.len(), 1);
    assert_eq!(g.edges[0].source, "a");
    assert_eq!(g.edges[0].target, "b");
    assert_eq!(g.edges[0].id, "a-b");
    assert_eq!(g.edges[0].label, Some("next".to_string()));
}

#[test]
fn parses_subgraph_with_prefixes() {
    let g = parse(
        "digraph { subgraph cluster_inner { label=\"Box\"; x; y; x -> y; } z; y -> z; }",
    );
    assert_eq!(g.subgraphs.len(), 1);
    let sg = &g.subgraphs[0];
    assert_eq!(sg.id, "cluster_0");
    assert_eq!(sg.label, Some("Box".to_string()));
    assert_eq!(sg.nodes.len(), 2);
    assert_eq!(sg.nodes[0].id, "cluster_0-x");
    assert_eq!(sg.nodes[1].id, "cluster_0-y");
    assert_eq!(g.nodes.len(), 1);
    assert_eq!(g.nodes[0].id, "z");
    // Edges live only at the top level, with resolved endpoints.
    assert!(sg.edges.is_empty());
    assert_eq!(g.edges.len(), 2);
    let mut ids: Vec<String> = g.edges.iter().map(|e| e.id.clone()).collect();
    ids.sort();
    assert_eq!(ids, vec!["cluster_0-x-cluster_0-y".to_string(), "cluster_0-y-z".to_string()]);
}

#[test]
fn undeclared_edge_endpoints_keep_their_names() {
    // Edges may name nodes that no statement declares; the endpoints then
    // keep their written names.
    let g = parse("digraph { a -> b; }");
    assert!(g.nodes.is_empty());
    assert_eq!(g.edges.len(), 1);
    assert_eq!(g.edges[0].source, "a");
    assert_eq!(g.edges[0].target, "b");
}

#[test]
fn empty_graph_builds_empty_model() {
    let g = parse("digraph {}");
    assert_eq!(g.id, "G");
    assert_eq!(g.label, None);
    assert!(g.nodes.is_empty());
    assert!(g.subgraphs.is_empty());
    assert!(g.edges.is_empty());
    assert_eq!(g.direction, GraphDirection::TopToBottom);
}

#[test]
fn rejects_malformed_dot() {
    assert!(ast::Graph::try_from("this is not dot").is_err());
}
