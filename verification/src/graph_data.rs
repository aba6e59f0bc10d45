//! The graph model a DOT description is turned into: nodes, nested
//! subgraphs, edges and a layout direction, all owned strings.

use vstd::prelude::*;

use crate::dot_ast::{DotAst, DotEdge, DotStmt};
use crate::text::{spec_trim_quotes, str_eq, trim_quotes};

verus! {

/// Direction the whole graph is laid out in (the only two directions the
/// viewer distinguishes).
#[derive(Debug, Clone, Copy, PartialEq, Eq, Structural)]
pub enum GraphDirection {
    TopToBottom,
    LeftToRight,
}

impl Default for GraphDirection {
    fn default() -> (d: Self)
        ensures
            d == GraphDirection::TopToBottom,
    {
        GraphDirection::TopToBottom
    }
}

impl GraphDirection {
    /// The flex-box class that lays the graph out in this direction.
    pub open spec fn spec_to_class(self) -> Seq<char> {
        match self {
            GraphDirection::TopToBottom => "flex-col"@,
            GraphDirection::LeftToRight => "flex-row"@,
        }
    }

    pub fn to_class(&self) -> (r: &'static str)
        ensures
            r@ == self.spec_to_class(),
    {
        match self {
            GraphDirection::TopToBottom => "flex-col",
            GraphDirection::LeftToRight => "flex-row",
        }
    }
}

/// Owned representation of one node.
#[derive(Debug, Clone, PartialEq)]
pub struct NodeData {
    pub id: String,
    pub label: Option<String>,
}

/// Owned representation of one edge.
#[derive(Debug, Clone, PartialEq)]
pub struct EdgeData {
    pub id: String,
    pub source: String,
    pub target: String,
    pub label: Option<String>,
}

/// A graph or subgraph: its own nodes, its nested subgraphs, and (at the
/// top level only) the edges of the whole graph.
#[derive(Debug, PartialEq)]
pub struct GraphData {
    pub id: String,
    pub label: Option<String>,
    pub style: Option<String>,
    pub nodes: Vec<NodeData>,
    pub subgraphs: Vec<GraphData>,
    pub edges: Vec<EdgeData>,
    pub direction: GraphDirection,
}

/// Mathematical image of an `Option<String>`.
pub open spec fn spec_opt_str(o: Option<String>) -> Option<Seq<char>> {
    match o {
        Option::Some(s) => Option::Some(s@),
        Option::None => Option::None,
    }
}

/// Mathematical image of a `NodeData`.
pub ghost struct SpecNodeData {
    pub id: Seq<char>,
    pub label: Option<Seq<char>>,
}

/// Mathematical image of an `EdgeData`.
pub ghost struct SpecEdgeData {
    pub id: Seq<char>,
    pub source: Seq<char>,
    pub target: Seq<char>,
    pub label: Option<Seq<char>>,
}

/// Mathematical image of a `GraphData`, with every string a sequence of
/// characters.
pub ghost struct SpecGraphData {
    pub id: Seq<char>,
    pub label: Option<Seq<char>>,
    pub style: Option<Seq<char>>,
    pub nodes: Seq<SpecNodeData>,
    pub subgraphs: Seq<SpecGraphData>,
    pub edges: Seq<SpecEdgeData>,
    pub direction: GraphDirection,
}

impl View for NodeData {
    type V = SpecNodeData;

    open spec fn view(&self) -> SpecNodeData {
        SpecNodeData { id: self.id@, label: spec_opt_str(self.label) }
    }
}

impl View for EdgeData {
    type V = SpecEdgeData;

    open spec fn view(&self) -> SpecEdgeData {
        SpecEdgeData {
            id: self.id@,
            source: self.source@,
            target: self.target@,
            label: spec_opt_str(self.label),
        }
    }
}

/// Deep image of a sequence of graphs.
pub open spec fn spec_graphs_view(s: Seq<GraphData>) -> Seq<SpecGraphData>
    decreases s,
{
    if s.len() == 0 {
        Seq::empty()
    } else {
        spec_graphs_view(s.drop_last()).push(spec_graph_view(s.last()))
    }
}

/// Deep image of one graph.
pub open spec fn spec_graph_view(g: GraphData) -> SpecGraphData
    decreases g,
{
    SpecGraphData {
        id: g.id@,
        label: spec_opt_str(g.label),
        style: spec_opt_str(g.style),
        nodes: g.nodes@.map_values(|n: NodeData| n@),
        subgraphs: spec_graphs_view(g.subgraphs@),
        edges: g.edges@.map_values(|e: EdgeData| e@),
        direction: g.direction,
    }
}

impl View for GraphData {
    type V = SpecGraphData;

    open spec fn view(&self) -> SpecGraphData {
        spec_graph_view(*self)
    }
}

/// The image of a sequence of graphs has one entry per graph.
pub proof fn lemma_graphs_view_len(s: Seq<GraphData>)
    ensures
        spec_graphs_view(s).len() == s.len(),
    decreases s,
{
    if s.len() > 0 {
        lemma_graphs_view_len(s.drop_last());
    }
}

impl Default for GraphData {
    /// An empty, unlabelled graph laid out top to bottom.
    fn default() -> (g: Self)
        ensures
            g@.id == Seq::<char>::empty(),
            g@.label is None,
            g@.style is None,
            g@.nodes == Seq::<SpecNodeData>::empty(),
            g@.subgraphs == Seq::<SpecGraphData>::empty(),
            g@.edges == Seq::<SpecEdgeData>::empty(),
            g@.direction == GraphDirection::TopToBottom,
    {
        GraphData {
            id: String::new(),
            label: Option::None,
            style: Option::None,
            nodes: Vec::new(),
            subgraphs: Vec::new(),
            edges: Vec::new(),
            direction: GraphDirection::TopToBottom,
        }
    }
}

/// The value of the first attribute named `key`, in list order.
pub open spec fn spec_first_attr(attrs: Seq<(String, String)>, key: Seq<char>) -> Option<Seq<char>>
    decreases attrs.len(),
{
    if attrs.len() == 0 {
        Option::None
    } else if attrs[0].0@ == key {
        Option::Some(attrs[0].1@)
    } else {
        spec_first_attr(attrs.drop_first(), key)
    }
}

/// Finds the first attribute named `key` and returns its raw value.
pub fn find_attr(attrs: &Vec<(String, String)>, key: &str) -> (r: Option<String>)
    ensures
        spec_opt_str(r) == spec_first_attr(attrs@, key@),
{
    let mut i: usize = 0;
    proof {
        assert(attrs@.skip(0) =~= attrs@);
    }
    while i < attrs.len()
        invariant
            0 <= i <= attrs@.len(),
            spec_first_attr(attrs@, key@) == spec_first_attr(attrs@.skip(i as int), key@),
        decreases attrs@.len() - i,
    {
        proof {
            assert(attrs@.skip(i as int).drop_first() =~= attrs@.skip(i + 1));
            assert(attrs@.skip(i as int)[0] == attrs@[i as int]);
        }
        if str_eq(attrs[i].0.as_str(), key) {
            return Option::Some(attrs[i].1.clone());
        }
        i = i + 1;
    }
    proof {
        assert(attrs@.skip(i as int) =~= Seq::<(String, String)>::empty());
    }
    Option::None
}

/// The graph label one statement carries, if any: a `label` entry of a
/// `graph [...]` statement or a bare `label = value`, with quote marks
/// stripped.
pub open spec fn spec_stmt_label(stmt: DotStmt) -> Option<Seq<char>> {
    match stmt {
        DotStmt::GraphAttrs { attrs } => match spec_first_attr(attrs@, "label"@) {
            Option::Some(v) => Option::Some(spec_trim_quotes(v)),
            Option::None => Option::None,
        },
        DotStmt::IdEq { key, value } => if key@ == "label"@ {
            Option::Some(spec_trim_quotes(value@))
        } else {
            Option::None
        },
        _ => Option::None,
    }
}

/// The first graph label among `stmts`, if any.
pub open spec fn spec_find_label(stmts: Seq<DotStmt>) -> Option<Seq<char>>
    decreases stmts.len(),
{
    if stmts.len() == 0 {
        Option::None
    } else if spec_stmt_label(stmts[0]) is Some {
        spec_stmt_label(stmts[0])
    } else {
        spec_find_label(stmts.drop_first())
    }
}

/// Finds the graph label among the statements of a graph body.
pub fn find_graph_label(stmts: &Vec<DotStmt>) -> (r: Option<String>)
    ensures
        spec_opt_str(r) == spec_find_label(stmts@),
{
    let mut i: usize = 0;
    proof {
        assert(stmts@.skip(0) =~= stmts@);
    }
    while i < stmts.len()
        invariant
            0 <= i <= stmts@.len(),
            spec_find_label(stmts@) == spec_find_label(stmts@.skip(i as int)),
        decreases stmts@.len() - i,
    {
        proof {
            assert(stmts@.skip(i as int).drop_first() =~= stmts@.skip(i + 1));
            assert(stmts@.skip(i as int)[0] == stmts@[i as int]);
        }
        match &stmts[i] {
            DotStmt::GraphAttrs { attrs } => {
                if let Option::Some(v) = find_attr(attrs, "label") {
                    return Option::Some(trim_quotes(v.as_str()).to_owned());
                }
            },
            DotStmt::IdEq { key, value } => {
                if str_eq(key.as_str(), "label") {
                    return Option::Some(trim_quotes(value.as_str()).to_owned());
                }
            },
            _ => {},
        }
        i = i + 1;
    }
    Option::None
}

/// The layout direction one statement names, if any: a `rankdir` entry of a
/// `graph [...]` statement (compared raw) or a bare `rankdir = value`
/// (compared with quote marks stripped); `LR` means left-to-right and any
/// other value top-to-bottom.
pub open spec fn spec_stmt_direction(stmt: DotStmt) -> Option<GraphDirection> {
    match stmt {
        DotStmt::GraphAttrs { attrs } => match spec_first_attr(attrs@, "rankdir"@) {
            Option::Some(v) => Option::Some(
                if v == "LR"@ {
                    GraphDirection::LeftToRight
                } else {
                    GraphDirection::TopToBottom
                },
            ),
            Option::None => Option::None,
        },
        DotStmt::IdEq { key, value } => if key@ == "rankdir"@ {
            Option::Some(
                if spec_trim_quotes(value@) == "LR"@ {
                    GraphDirection::LeftToRight
                } else {
                    GraphDirection::TopToBottom
                },
            )
        } else {
            Option::None
        },
        _ => Option::None,
    }
}

/// The direction the first `rankdir` statement among `stmts` names, or
/// top-to-bottom when none does.
pub open spec fn spec_find_direction(stmts: Seq<DotStmt>) -> GraphDirection
    decreases stmts.len(),
{
    if stmts.len() == 0 {
        GraphDirection::TopToBottom
    } else if spec_stmt_direction(stmts[0]) is Some {
        spec_stmt_direction(stmts[0])->0
    } else {
        spec_find_direction(stmts.drop_first())
    }
}

/// Finds the layout direction among the statements of a graph body.
pub fn find_graph_direction(stmts: &Vec<DotStmt>) -> (r: GraphDirection)
    ensures
        r == spec_find_direction(stmts@),
{
    let mut i: usize = 0;
    proof {
        assert(stmts@.skip(0) =~= stmts@);
    }
    while i < stmts.len()
        invariant
            0 <= i <= stmts@.len(),
            spec_find_direction(stmts@) == spec_find_direction(stmts@.skip(i as int)),
        decreases stmts@.len() - i,
    {
        proof {
            assert(stmts@.skip(i as int).drop_first() =~= stmts@.skip(i + 1));
            assert(stmts@.skip(i as int)[0] == stmts@[i as int]);
        }
        match &stmts[i] {
            DotStmt::GraphAttrs { attrs } => {
                if let Option::Some(v) = find_attr(attrs, "rankdir") {
                    if str_eq(v.as_str(), "LR") {
                        return GraphDirection::LeftToRight;
                    }
                    return GraphDirection::TopToBottom;
                }
            },
            DotStmt::IdEq { key, value } => {
                if str_eq(key.as_str(), "rankdir") {
                    if str_eq(trim_quotes(value.as_str()), "LR") {
                        return GraphDirection::LeftToRight;
                    }
                    return GraphDirection::TopToBottom;
                }
            },
            _ => {},
        }
        i = i + 1;
    }
    GraphDirection::TopToBottom
}

/// Folds one attribute list over a label/style pair: each `label` or
/// `style` entry overwrites what an earlier one set.
pub open spec fn spec_extract_pairs(
    attrs: Seq<(String, String)>,
    label: Option<Seq<char>>,
    style: Option<Seq<char>>,
) -> (Option<Seq<char>>, Option<Seq<char>>)
    decreases attrs.len(),
{
    if attrs.len() == 0 {
        (label, style)
    } else {
        let prev = spec_extract_pairs(attrs.drop_last(), label, style);
        if attrs.last().0@ == "label"@ {
            (Option::Some(spec_trim_quotes(attrs.last().1@)), prev.1)
        } else if attrs.last().0@ == "style"@ {
            (prev.0, Option::Some(spec_trim_quotes(attrs.last().1@)))
        } else {
            prev
        }
    }
}

/// What one statement does to the label/style pair.
pub open spec fn spec_extract_stmt(
    stmt: DotStmt,
    label: Option<Seq<char>>,
    style: Option<Seq<char>>,
) -> (Option<Seq<char>>, Option<Seq<char>>) {
    match stmt {
        DotStmt::IdEq { key, value } => if key@ == "label"@ {
            (Option::Some(spec_trim_quotes(value@)), style)
        } else if key@ == "style"@ {
            (label, Option::Some(spec_trim_quotes(value@)))
        } else {
            (label, style)
        },
        DotStmt::GraphAttrs { attrs } => spec_extract_pairs(attrs@, label, style),
        _ => (label, style),
    }
}

/// Folds a whole statement list over the label/style pair, in statement
/// order, so that the last setting wins.
pub open spec fn spec_extract(
    stmts: Seq<DotStmt>,
    label: Option<Seq<char>>,
    style: Option<Seq<char>>,
) -> (Option<Seq<char>>, Option<Seq<char>>)
    decreases stmts.len(),
{
    if stmts.len() == 0 {
        (label, style)
    } else {
        let prev = spec_extract(stmts.drop_last(), label, style);
        spec_extract_stmt(stmts.last(), prev.0, prev.1)
    }
}

/// Reads the `label` and `style` attributes a subgraph body sets, later
/// settings overriding earlier ones.
pub fn extract_attributes(
    stmts: &Vec<DotStmt>,
    label: &mut Option<String>,
    style: &mut Option<String>,
)
    ensures
        (spec_opt_str(*final(label)), spec_opt_str(*final(style))) == spec_extract(
            stmts@,
            spec_opt_str(*old(label)),
            spec_opt_str(*old(style)),
        ),
{
    let ghost l0 = spec_opt_str(*label);
    let ghost s0 = spec_opt_str(*style);
    let mut i: usize = 0;
    proof {
        assert(stmts@.take(0) =~= Seq::<DotStmt>::empty());
    }
    while i < stmts.len()
        invariant
            0 <= i <= stmts@.len(),
            (spec_opt_str(*label), spec_opt_str(*style)) == spec_extract(
                stmts@.take(i as int),
                l0,
                s0,
            ),
        decreases stmts@.len() - i,
    {
        proof {
            assert(stmts@.take(i + 1).drop_last() =~= stmts@.take(i as int));
            assert(stmts@.take(i + 1).last() == stmts@[i as int]);
        }
        match &stmts[i] {
            DotStmt::IdEq { key, value } => {
                if str_eq(key.as_str(), "label") {
                    *label = Option::Some(trim_quotes(value.as_str()).to_owned());
                } else if str_eq(key.as_str(), "style") {
                    *style = Option::Some(trim_quotes(value.as_str()).to_owned());
                }
            },
            DotStmt::GraphAttrs { attrs } => {
                let ghost la = spec_opt_str(*label);
                let ghost sa = spec_opt_str(*style);
                let mut j: usize = 0;
                proof {
                    assert(attrs@.take(0) =~= Seq::<(String, String)>::empty());
                }
                while j < attrs.len()
                    invariant
                        0 <= j <= attrs@.len(),
                        (spec_opt_str(*label), spec_opt_str(*style)) == spec_extract_pairs(
                            attrs@.take(j as int),
                            la,
                            sa,
                        ),
                    decreases attrs@.len() - j,
                {
                    proof {
                        assert(attrs@.take(j + 1).drop_last() =~= attrs@.take(j as int));
                        assert(attrs@.take(j + 1).last() == attrs@[j as int]);
                    }
                    if str_eq(attrs[j].0.as_str(), "label") {
                        *label = Option::Some(trim_quotes(attrs[j].1.as_str()).to_owned());
                    } else if str_eq(attrs[j].0.as_str(), "style") {
                        *style = Option::Some(trim_quotes(attrs[j].1.as_str()).to_owned());
                    }
                    j = j + 1;
                }
                proof {
                    assert(attrs@.take(attrs@.len() as int) =~= attrs@);
                }
            },
            _ => {},
        }
        i = i + 1;
    }
    proof {
        assert(stmts@.take(stmts@.len() as int) =~= stmts@);
    }
}

/// The finite map a list of entries stands for: later entries override
/// earlier ones with the same key.
pub open spec fn spec_entry_map(s: Seq<(String, String)>) -> Map<Seq<char>, Seq<char>>
    decreases s.len(),
{
    if s.len() == 0 {
        Map::empty()
    } else {
        spec_entry_map(s.drop_last()).insert(s.last().0@, s.last().1@)
    }
}

/// Tracks, for each node identifier a DOT description writes, the prefixed
/// identifier the built graph gives that node.  Behaves as a finite map
/// from string to string.
pub struct IdMap {
    entries: Vec<(String, String)>,
}

impl View for IdMap {
    type V = Map<Seq<char>, Seq<char>>;

    closed spec fn view(&self) -> Map<Seq<char>, Seq<char>> {
        spec_entry_map(self.entries@)
    }
}

impl IdMap {
    /// An empty map.
    pub fn new() -> (m: IdMap)
        ensures
            m@ == Map::<Seq<char>, Seq<char>>::empty(),
    {
        IdMap { entries: Vec::new() }
    }

    /// Binds `key` to `value`, replacing any earlier binding.
    pub fn insert(&mut self, key: String, value: String)
        ensures
            final(self)@ == old(self)@.insert(key@, value@),
    {
        self.entries.push((key, value));
        proof {
            assert(self.entries@.drop_last() =~= old(self).entries@);
        }
    }

    /// The value bound to `key`, if any.
    pub fn get(&self, key: &str) -> (r: Option<String>)
        ensures
            match r {
                Option::Some(v) => self@.contains_key(key@) && self@[key@] == v@,
                Option::None => !self@.contains_key(key@),
            },
    {
        let mut j: usize = self.entries.len();
        proof {
            assert(self.entries@.take(self.entries@.len() as int) =~= self.entries@);
        }
        while j > 0
            invariant
                0 <= j <= self.entries@.len(),
                self@ == spec_entry_map(self.entries@),
                spec_entry_map(self.entries@)[key@] == spec_entry_map(
                    self.entries@.take(j as int),
                )[key@],
                spec_entry_map(self.entries@).contains_key(key@) == spec_entry_map(
                    self.entries@.take(j as int),
                ).contains_key(key@),
            decreases j,
        {
            proof {
                assert(self.entries@.take(j as int).drop_last() =~= self.entries@.take(j - 1));
                assert(self.entries@.take(j as int).last() == self.entries@[j - 1]);
            }
            if str_eq(self.entries[j - 1].0.as_str(), key) {
                return Option::Some(self.entries[j - 1].1.clone());
            }
            j = j - 1;
        }
        proof {
            assert(self.entries@.take(0) =~= Seq::<(String, String)>::empty());
        }
        Option::None
    }
}

/// `id` put under a path prefix: the two joined with a dash, or `id` alone
/// when the prefix is empty.
pub open spec fn spec_prefixed(prefix: Seq<char>, id: Seq<char>) -> Seq<char> {
    if prefix.len() == 0 {
        id
    } else {
        prefix + "-"@ + id
    }
}

/// Joins a path prefix and an identifier with a dash; an empty prefix
/// leaves the identifier alone.
pub fn prefixed(prefix: &str, id: &str) -> (r: String)
    ensures
        r@ == spec_prefixed(prefix@, id@),
{
    if prefix.is_empty() {
        id.to_owned()
    } else {
        prefix.to_owned().concat("-").concat(id)
    }
}

/// The label a node's attribute list gives it: the first `label` entry,
/// with quote marks stripped.
pub open spec fn spec_node_label(attrs: Seq<(String, String)>) -> Option<Seq<char>> {
    match spec_first_attr(attrs, "label"@) {
        Option::Some(v) => Option::Some(spec_trim_quotes(v)),
        Option::None => Option::None,
    }
}

/// What walking statements builds up: the nodes and subgraphs of the level
/// being filled, and the one map from written node identifiers to prefixed
/// ones that the whole walk shares.
pub ghost struct BuildState {
    pub nodes: Seq<SpecNodeData>,
    pub subgraphs: Seq<SpecGraphData>,
    pub id_map: Map<Seq<char>, Seq<char>>,
}

/// What one statement adds to the build state.  A node statement appends a
/// node under its prefixed identifier and records the identifier mapping; a
/// subgraph statement builds the whole subgraph (named `cluster_` plus its
/// position among its siblings) and appends it; other statements add
/// nothing.
pub open spec fn spec_parse_stmt(stmt: DotStmt, prefix: Seq<char>, st: BuildState) -> BuildState
    decreases stmt,
{
    match stmt {
        DotStmt::Node { id, attrs } => {
            let node_id = spec_prefixed(prefix, id@);
            BuildState {
                nodes: st.nodes.push(SpecNodeData { id: node_id, label: spec_node_label(attrs@) }),
                subgraphs: st.subgraphs,
                id_map: st.id_map.insert(id@, node_id),
            }
        },
        DotStmt::Subgraph { stmts } => {
            let sid = "cluster_"@ + crate::text::spec_decimal(st.subgraphs.len());
            let new_prefix = spec_prefixed(prefix, sid);
            let pair = spec_extract(stmts@, Option::None, Option::None);
            let inner = spec_parse_stmts(
                stmts@,
                new_prefix,
                BuildState { nodes: Seq::empty(), subgraphs: Seq::empty(), id_map: st.id_map },
            );
            let sub = SpecGraphData {
                id: sid,
                label: pair.0,
                style: pair.1,
                nodes: inner.nodes,
                subgraphs: inner.subgraphs,
                edges: Seq::empty(),
                direction: spec_find_direction(stmts@),
            };
            BuildState {
                nodes: st.nodes,
                subgraphs: st.subgraphs.push(sub),
                id_map: inner.id_map,
            }
        },
        _ => st,
    }
}

/// Folds a statement list over the build state, in statement order.
pub open spec fn spec_parse_stmts(stmts: Seq<DotStmt>, prefix: Seq<char>, st: BuildState) -> BuildState
    decreases stmts,
{
    if stmts.len() == 0 {
        st
    } else {
        spec_parse_stmt(stmts.last(), prefix, spec_parse_stmts(stmts.drop_last(), prefix, st))
    }
}

/// Walks the statements of one graph body: appends this level's nodes and
/// subgraphs to `graph` and records every node's prefixed identifier in
/// `node_id_map`.
pub fn parse_statements(
    stmts: &Vec<DotStmt>,
    graph: &mut GraphData,
    path_prefix: &str,
    node_id_map: &mut IdMap,
)
    ensures
        ({
            let st = spec_parse_stmts(
                stmts@,
                path_prefix@,
                BuildState {
                    nodes: old(graph)@.nodes,
                    subgraphs: old(graph)@.subgraphs,
                    id_map: old(node_id_map)@,
                },
            );
            final(graph)@.nodes == st.nodes && final(graph)@.subgraphs == st.subgraphs
                && final(node_id_map)@ == st.id_map
        }),
        final(graph)@.id == old(graph)@.id,
        final(graph)@.label == old(graph)@.label,
        final(graph)@.style == old(graph)@.style,
        final(graph)@.edges == old(graph)@.edges,
        final(graph)@.direction == old(graph)@.direction,
    decreases stmts@,
{
    let ghost st0 = BuildState {
        nodes: graph@.nodes,
        subgraphs: graph@.subgraphs,
        id_map: node_id_map@,
    };
    let mut i: usize = 0;
    proof {
        assert(stmts@.take(0) =~= Seq::<DotStmt>::empty());
    }
    while i < stmts.len()
        invariant
            0 <= i <= stmts@.len(),
            graph@.id == old(graph)@.id,
            graph@.label == old(graph)@.label,
            graph@.style == old(graph)@.style,
            graph@.edges == old(graph)@.edges,
            graph@.direction == old(graph)@.direction,
            (BuildState {
                nodes: graph@.nodes,
                subgraphs: graph@.subgraphs,
                id_map: node_id_map@,
            }) == spec_parse_stmts(stmts@.take(i as int), path_prefix@, st0),
        decreases stmts@.len() - i,
    {
        proof {
            assert(stmts@.take(i + 1).drop_last() =~= stmts@.take(i as int));
            assert(stmts@.take(i + 1).last() == stmts@[i as int]);
        }
        match &stmts[i] {
            DotStmt::Node { id, attrs } => {
                let node_id = prefixed(path_prefix, id.as_str());
                node_id_map.insert(id.clone(), node_id.clone());
                let label = match find_attr(attrs, "label") {
                    Option::Some(v) => Option::Some(trim_quotes(v.as_str()).to_owned()),
                    Option::None => Option::None,
                };
                let nd = NodeData { id: node_id, label };
                let ghost ndv = nd@;
                graph.nodes.push(nd);
                proof {
                    let s_i = spec_parse_stmts(stmts@.take(i as int), path_prefix@, st0);
                    let s_i1 = spec_parse_stmts(stmts@.take(i + 1), path_prefix@, st0);
                    assert(s_i1 == spec_parse_stmt(stmts@[i as int], path_prefix@, s_i));
                    assert(s_i1.nodes == s_i.nodes.push(
                        SpecNodeData {
                            id: spec_prefixed(path_prefix@, stmts@[i as int]->Node_id@),
                            label: spec_node_label(stmts@[i as int]->Node_attrs@),
                        },
                    ));
                    assert(ndv == SpecNodeData {
                        id: spec_prefixed(path_prefix@, stmts@[i as int]->Node_id@),
                        label: spec_node_label(stmts@[i as int]->Node_attrs@),
                    });
                    assert(graph@.nodes =~= s_i1.nodes);
                }
            },
            DotStmt::Subgraph { stmts: inner } => {
                let count: usize = graph.subgraphs.len();
                let sid = String::from_str("cluster_").concat(
                    crate::text::decimal_string(count as u64).as_str(),
                );
                let ghost sidv = sid@;
                let new_prefix = prefixed(path_prefix, sid.as_str());
                let mut label: Option<String> = Option::None;
                let mut style: Option<String> = Option::None;
                extract_attributes(inner, &mut label, &mut style);
                let direction = find_graph_direction(inner);
                let mut sub_graph = GraphData {
                    id: sid,
                    label,
                    style,
                    nodes: Vec::new(),
                    subgraphs: Vec::new(),
                    edges: Vec::new(),
                    direction,
                };
                proof {
                    assert(decreases_to!(stmts@ => stmts@[i as int]));
                    assert(decreases_to!(stmts@[i as int] => stmts@[i as int]->Subgraph_stmts));
                    assert(decreases_to!(stmts@[i as int]->Subgraph_stmts => inner@));
                    assert(sub_graph@.nodes =~= Seq::<SpecNodeData>::empty());
                    assert(sub_graph@.subgraphs =~= Seq::<SpecGraphData>::empty());
                    assert(sub_graph@.edges =~= Seq::<SpecEdgeData>::empty());
                }
                parse_statements(inner, &mut sub_graph, new_prefix.as_str(), node_id_map);
                let ghost sgv = sub_graph@;
                let ghost pre_subs = graph.subgraphs@;
                graph.subgraphs.push(sub_graph);
                proof {
                    let s_i = spec_parse_stmts(stmts@.take(i as int), path_prefix@, st0);
                    let s_i1 = spec_parse_stmts(stmts@.take(i + 1), path_prefix@, st0);
                    assert(s_i1 == spec_parse_stmt(stmts@[i as int], path_prefix@, s_i));
                    lemma_graphs_view_len(pre_subs);
                    let sid_s = "cluster_"@ + crate::text::spec_decimal(s_i.subgraphs.len());
                    assert(sidv == sid_s);
                    let inner_st = spec_parse_stmts(
                        inner@,
                        spec_prefixed(path_prefix@, sid_s),
                        BuildState {
                            nodes: Seq::empty(),
                            subgraphs: Seq::empty(),
                            id_map: s_i.id_map,
                        },
                    );
                    let pair = spec_extract(inner@, Option::None, Option::None);
                    assert(sgv == SpecGraphData {
                        id: sid_s,
                        label: pair.0,
                        style: pair.1,
                        nodes: inner_st.nodes,
                        subgraphs: inner_st.subgraphs,
                        edges: Seq::empty(),
                        direction: spec_find_direction(inner@),
                    });
                    assert(s_i1.subgraphs == s_i.subgraphs.push(sgv));
                    assert(graph.subgraphs@.drop_last() =~= pre_subs);
                    assert(spec_graph_view(graph.subgraphs@.last()) == sgv);
                    assert(graph@.subgraphs =~= s_i1.subgraphs);
                }
            },
            _ => {
                proof {
                    let s_i = spec_parse_stmts(stmts@.take(i as int), path_prefix@, st0);
                    let s_i1 = spec_parse_stmts(stmts@.take(i + 1), path_prefix@, st0);
                    assert(s_i1 == spec_parse_stmt(stmts@[i as int], path_prefix@, s_i));
                    assert(s_i1 == s_i);
                }
            },
        }
        i = i + 1;
    }
    proof {
        assert(stmts@.take(stmts@.len() as int) =~= stmts@);
    }
}

/// The edge record one flattened edge gives: each endpoint's written
/// identifier is replaced by its prefixed one where the map knows it, quote
/// marks are stripped, and the edge's own identifier joins the two with a
/// dash.  The label is the first `label` attribute, quote marks stripped.
pub open spec fn spec_edge_data(edge: DotEdge, m: Map<Seq<char>, Seq<char>>) -> SpecEdgeData {
    let source = spec_trim_quotes(
        if m.contains_key(edge.from@) {
            m[edge.from@]
        } else {
            edge.from@
        },
    );
    let target = spec_trim_quotes(
        if m.contains_key(edge.to@) {
            m[edge.to@]
        } else {
            edge.to@
        },
    );
    SpecEdgeData {
        id: source + "-"@ + target,
        source: source,
        target: target,
        label: spec_node_label(edge.attrs@),
    }
}

/// The edge records of a whole flattened edge set, in order.
pub open spec fn spec_edges(edges: Seq<DotEdge>, m: Map<Seq<char>, Seq<char>>) -> Seq<SpecEdgeData>
    decreases edges.len(),
{
    if edges.len() == 0 {
        Seq::empty()
    } else {
        spec_edges(edges.drop_last(), m).push(spec_edge_data(edges.last(), m))
    }
}

/// Builds the owned edge records for a flattened edge set, resolving each
/// endpoint through the node identifier map.
pub fn build_edges(edges: &Vec<DotEdge>, node_id_map: &IdMap) -> (r: Vec<EdgeData>)
    ensures
        r@.map_values(|e: EdgeData| e@) == spec_edges(edges@, node_id_map@),
{
    let mut r: Vec<EdgeData> = Vec::new();
    let mut i: usize = 0;
    proof {
        assert(edges@.take(0) =~= Seq::<DotEdge>::empty());
        assert(r@.map_values(|e: EdgeData| e@) =~= Seq::<SpecEdgeData>::empty());
    }
    while i < edges.len()
        invariant
            0 <= i <= edges@.len(),
            r@.map_values(|e: EdgeData| e@) == spec_edges(edges@.take(i as int), node_id_map@),
        decreases edges@.len() - i,
    {
        proof {
            assert(edges@.take(i + 1).drop_last() =~= edges@.take(i as int));
            assert(edges@.take(i + 1).last() == edges@[i as int]);
        }
        let raw_source = match node_id_map.get(edges[i].from.as_str()) {
            Option::Some(v) => v,
            Option::None => edges[i].from.clone(),
        };
        let raw_target = match node_id_map.get(edges[i].to.as_str()) {
            Option::Some(v) => v,
            Option::None => edges[i].to.clone(),
        };
        let source = trim_quotes(raw_source.as_str()).to_owned();
        let target = trim_quotes(raw_target.as_str()).to_owned();
        let id = source.clone().concat("-").concat(target.as_str());
        let label = match find_attr(&edges[i].attrs, "label") {
            Option::Some(v) => Option::Some(trim_quotes(v.as_str()).to_owned()),
            Option::None => Option::None,
        };
        let e = EdgeData { id, source, target, label };
        let ghost ev = e@;
        r.push(e);
        proof {
            assert(ev == spec_edge_data(edges@[i as int], node_id_map@));
            assert(r@.map_values(|e: EdgeData| e@) =~= spec_edges(
                edges@.take(i + 1),
                node_id_map@,
            ));
        }
        i = i + 1;
    }
    proof {
        assert(edges@.take(edges@.len() as int) =~= edges@);
    }
    r
}

/// The whole graph a parsed DOT description builds: identifier `G`, the
/// first graph label, the node and subgraph tree with prefixed identifiers,
/// the resolved edges, and the first `rankdir` direction.
pub open spec fn spec_from_ast(ast: DotAst) -> SpecGraphData {
    let st = spec_parse_stmts(
        ast.stmts@,
        Seq::empty(),
        BuildState { nodes: Seq::empty(), subgraphs: Seq::empty(), id_map: Map::empty() },
    );
    SpecGraphData {
        id: "G"@,
        label: spec_find_label(ast.stmts@),
        style: Option::None,
        nodes: st.nodes,
        subgraphs: st.subgraphs,
        edges: spec_edges(ast.edges@, st.id_map),
        direction: spec_find_direction(ast.stmts@),
    }
}

impl GraphData {
    /// Builds the graph a parsed DOT description describes.
    pub fn from_ast(ast_graph: &DotAst) -> (g: GraphData)
        ensures
            g@ == spec_from_ast(*ast_graph),
    {
        let label = find_graph_label(&ast_graph.stmts);
        let direction = find_graph_direction(&ast_graph.stmts);
        let mut graph = GraphData {
            id: String::from_str("G"),
            label,
            style: Option::None,
            nodes: Vec::new(),
            subgraphs: Vec::new(),
            edges: Vec::new(),
            direction,
        };
        let mut node_id_map = IdMap::new();
        proof {
            reveal_strlit("");
            assert(""@ =~= Seq::<char>::empty());
            assert(graph@.nodes =~= Seq::<SpecNodeData>::empty());
            assert(graph@.subgraphs =~= Seq::<SpecGraphData>::empty());
            assert(graph@.edges =~= Seq::<SpecEdgeData>::empty());
        }
        parse_statements(&ast_graph.stmts, &mut graph, "", &mut node_id_map);
        let edges = build_edges(&ast_graph.edges, &node_id_map);
        graph.edges = edges;
        graph
    }
}

impl EdgeData {
    /// The edge a connectable component with identifier `source_id` draws to
    /// `target_id`: its own identifier is the two joined with a dash.
    pub fn connect_to(source_id: &str, target_id: &str, label: Option<String>) -> (e: EdgeData)
        ensures
            e@.id == source_id@ + "-"@ + target_id@,
            e@.source == source_id@,
            e@.target == target_id@,
            e@.label == spec_opt_str(label),
    {
        let id = source_id.to_owned().concat("-").concat(target_id);
        EdgeData { id, source: source_id.to_owned(), target: target_id.to_owned(), label }
    }
}

} // verus!
