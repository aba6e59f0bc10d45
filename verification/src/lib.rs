//! Verified core of a DOT-graph viewer: the data model built from a parsed
//! DOT description (nodes, edges, nested subgraphs, layout direction) and the
//! collision-count rule that picks which way a connector curve bows.
//!
//! Rendering, layout measurement and the floating-point curve geometry live
//! outside this crate; everything here is exact string and integer logic,
//! specified and proved with Verus.

pub mod dot_ast;
pub mod graph_data;
pub mod rankdir;
pub mod routing;
pub mod text;
