use plumb::dot_ast::{DotAst, DotEdge, DotStmt};
use plumb::graph_data::{EdgeData, GraphData, GraphDirection, IdMap, NodeData};

fn node(id: &str, attrs: Vec<(&str, &str)>) -> DotStmt {
    DotStmt::Node {
        id: id.to_string(),
        attrs: attrs.iter().map(|(k, v)| (k.to_string(), v.to_string())).collect(),
    }
}

fn edge(from: &str, to: &str, attrs: Vec<(&str, &str)>) -> DotEdge {
    DotEdge {
        from: from.to_string(),
        to: to.to_string(),
        attrs: attrs.iter().map(|(k, v)| (k.to_string(), v.to_string())).collect(),
    }
}

#[test]
fn builds_nodes_and_edges() {
    let ast = DotAst {
        stmts: vec![
            node("a", vec![("label", "\"Start\"")]),
            node("b", vec![]),
        ],
        edges: vec![edge("a", "b", vec![("label", "\"go\"")])],
    };
    let g = GraphData::from_ast(&ast);
    assert_eq!(g.id, "G");
    assert_eq!(g.label, None);
    assert_eq!(g.style, None);
    assert_eq!(g.direction, GraphDirection::TopToBottom);
    assert_eq!(
        g.nodes,
        vec![
            NodeData { id: "a".to_string(), label: Some("Start".to_string()) },
            NodeData { id: "b".to_string(), label: None },
        ]
    );
    assert_eq!(
        g.edges,
        vec![EdgeData {
            id: "a-b".to_string(),
            source: "a".to_string(),
            target: "b".to_string(),
            label: Some("go".to_string()),
        }]
    );
}

#[test]
fn graph_label_first_setting_wins() {
    let ast = DotAst {
        stmts: vec![
            DotStmt::IdEq { key: "label".to_string(), value: "\"First\"".to_string() },
            DotStmt::GraphAttrs {
                attrs: vec![("label".to_string(), "Second".to_string())],
            },
        ],
        edges: vec![],
    };
    let g = GraphData::from_ast(&ast);
    assert_eq!(g.label, Some("First".to_string()));
}

#[test]
fn graph_label_from_attr_statement() {
    let ast = DotAst {
        stmts: vec![DotStmt::GraphAttrs {
            attrs: vec![
                ("color".to_string(), "red".to_string()),
                ("label".to_string(), "\"My Graph\"".to_string()),
            ],
        }],
        edges: vec![],
    };
    let g = GraphData::from_ast(&ast);
    assert_eq!(g.label, Some("My Graph".to_string()));
}

#[test]
fn rankdir_ideq_is_trimmed_but_attr_statement_is_not() {
    // A bare `rankdir = "LR"` statement has its quote marks stripped before
    // the comparison ...
    let quoted_ideq = DotAst {
        stmts: vec![DotStmt::IdEq { key: "rankdir".to_string(), value: "\"LR\"".to_string() }],
        edges: vec![],
    };
    assert_eq!(GraphData::from_ast(&quoted_ideq).direction, GraphDirection::LeftToRight);

    // ... while a `graph [rankdir="LR"]` entry is compared raw, so a quoted
    // value falls back to top-to-bottom.
    let quoted_attr = DotAst {
        stmts: vec![DotStmt::GraphAttrs {
            attrs: vec![("rankdir".to_string(), "\"LR\"".to_string())],
        }],
        edges: vec![],
    };
    assert_eq!(GraphData::from_ast(&quoted_attr).direction, GraphDirection::TopToBottom);

    let plain_attr = DotAst {
        stmts: vec![DotStmt::GraphAttrs {
            attrs: vec![("rankdir".to_string(), "LR".to_string())],
        }],
        edges: vec![],
    };
    assert_eq!(GraphData::from_ast(&plain_attr).direction, GraphDirection::LeftToRight);
}

#[test]
fn subgraph_nodes_get_prefixed_identifiers() {
    let inner = vec![
        DotStmt::IdEq { key: "label".to_string(), value: "\"Inner\"".to_string() },
        DotStmt::IdEq { key: "style".to_string(), value: "dashed".to_string() },
        node("x", vec![]),
        DotStmt::Subgraph { stmts: vec![node("y", vec![])] },
    ];
    let ast = DotAst {
        stmts: vec![node("a", vec![]), DotStmt::Subgraph { stmts: inner }],
        edges: vec![edge("x", "a", vec![])],
    };
    let g = GraphData::from_ast(&ast);
    assert_eq!(g.nodes.len(), 1);
    assert_eq!(g.subgraphs.len(), 1);
    let sg = &g.subgraphs[0];
    assert_eq!(sg.id, "cluster_0");
    assert_eq!(sg.label, Some("Inner".to_string()));
    assert_eq!(sg.style, Some("dashed".to_string()));
    assert_eq!(sg.nodes, vec![NodeData { id: "cluster_0-x".to_string(), label: None }]);
    assert_eq!(sg.edges, vec![]);
    assert_eq!(sg.subgraphs.len(), 1);
    let nested = &sg.subgraphs[0];
    assert_eq!(nested.id, "cluster_0");
    assert_eq!(
        nested.nodes,
        vec![NodeData { id: "cluster_0-cluster_0-y".to_string(), label: None }]
    );
    // The edge endpoint `x` resolves to the prefixed identifier.
    assert_eq!(g.edges[0].source, "cluster_0-x");
    assert_eq!(g.edges[0].target, "a");
    assert_eq!(g.edges[0].id, "cluster_0-x-a");
}

#[test]
fn sibling_subgraphs_are_numbered_in_order() {
    let ast = DotAst {
        stmts: vec![
            DotStmt::Subgraph { stmts: vec![] },
            DotStmt::Subgraph { stmts: vec![node("n", vec![])] },
        ],
        edges: vec![],
    };
    let g = GraphData::from_ast(&ast);
    assert_eq!(g.subgraphs[0].id, "cluster_0");
    assert_eq!(g.subgraphs[1].id, "cluster_1");
    assert_eq!(g.subgraphs[1].nodes[0].id, "cluster_1-n");
}

#[test]
fn subgraph_attributes_last_setting_wins() {
    let inner = vec![
        DotStmt::IdEq { key: "label".to_string(), value: "old".to_string() },
        DotStmt::GraphAttrs {
            attrs: vec![
                ("label".to_string(), "mid".to_string()),
                ("label".to_string(), "\"new\"".to_string()),
            ],
        },
    ];
    let ast = DotAst { stmts: vec![DotStmt::Subgraph { stmts: inner }], edges: vec![] };
    let g = GraphData::from_ast(&ast);
    assert_eq!(g.subgraphs[0].label, Some("new".to_string()));
}

#[test]
fn unknown_edge_endpoints_keep_their_written_names() {
    let ast = DotAst {
        stmts: vec![],
        edges: vec![edge("\"p\"", "q", vec![])],
    };
    let g = GraphData::from_ast(&ast);
    assert_eq!(g.edges[0].source, "p");
    assert_eq!(g.edges[0].target, "q");
    assert_eq!(g.edges[0].id, "p-q");
    assert_eq!(g.edges[0].label, None);
}

#[test]
fn repeated_node_declaration_overrides_mapping() {
    let ast = DotAst {
        stmts: vec![
            node("a", vec![]),
            DotStmt::Subgraph { stmts: vec![node("a", vec![])] },
        ],
        edges: vec![edge("a", "a", vec![])],
    };
    let g = GraphData::from_ast(&ast);
    // The later declaration, inside the subgraph, wins the mapping.
    assert_eq!(g.edges[0].source, "cluster_0-a");
    assert_eq!(g.edges[0].target, "cluster_0-a");
}

#[test]
fn id_map_insert_and_get() {
    let mut m = IdMap::new();
    assert_eq!(m.get("a"), None);
    m.insert("a".to_string(), "one".to_string());
    m.insert("b".to_string(), "two".to_string());
    assert_eq!(m.get("a"), Some("one".to_string()));
    assert_eq!(m.get("b"), Some("two".to_string()));
    m.insert("a".to_string(), "three".to_string());
    assert_eq!(m.get("a"), Some("three".to_string()));
    assert_eq!(m.get("c"), None);
}

#[test]
fn graph_direction_class_and_default() {
    assert_eq!(GraphDirection::default(), GraphDirection::TopToBottom);
    assert_eq!(GraphDirection::TopToBottom.to_class(), "flex-col");
    assert_eq!(GraphDirection::LeftToRight.to_class(), "flex-row");
}

#[test]
fn connect_to_builds_edge_record() {
    let e = EdgeData::connect_to("n1", "n2", Some("wire".to_string()));
    assert_eq!(e.id, "n1-n2");
    assert_eq!(e.source, "n1");
    assert_eq!(e.target, "n2");
    assert_eq!(e.label, Some("wire".to_string()));
}

#[test]
fn default_graph_is_empty() {
    let g = GraphData::default();
    assert_eq!(g.id, "");
    assert_eq!(g.label, None);
    assert_eq!(g.nodes, vec![]);
    assert_eq!(g.subgraphs, vec![]);
    assert_eq!(g.edges, vec![]);
    assert_eq!(g.direction, GraphDirection::TopToBottom);
}
