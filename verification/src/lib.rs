//! Compiles a declarative decision flow into a node and edge graph.
//!
//! A flow is a list of decision units (lookup tables, expressions, functions)
//! wired together by the identifiers of their producers and consumers.
//!
//! - `reader` resolves each declared unit: it turns the unit's rule location
//!   into the payload of its kind, with `rules` for tabular rule files.
//! - `graph` projects the resolved units onto a graph: a fixed entry node, one
//!   node per unit, a fixed exit node, and one edge per declared source or
//!   target.
//! - `compiler` runs the two in turn.
//!
//! The library reads no file itself. A caller asks `reader::rule_files` which
//! files a flow needs, reads them, and hands their text in.

pub mod command;
pub mod compiler;
pub mod error;
pub mod graph;
pub mod model;
pub mod reader;
pub mod rules;
pub mod text;
