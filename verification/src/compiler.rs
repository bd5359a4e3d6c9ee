//! The compiler as a whole: resolution of every unit, then the graph.

use crate::error::FlowError;
use crate::graph::{build, build_error, graph_of, well_formed, FlowGraph};
use crate::model::{DecisionRef, SourceFile};
use crate::reader::{first_failure, read_flow, resolved, resolves};
use vstd::prelude::*;

verus! {

/// Compiles the declared units of a flow into its graph, with `files` as the
/// files that could be read. All units are resolved first, in their order;
/// the graph is built from them only where every one of them resolved. The
/// first error ends the work, and nothing of a graph comes back with it.
pub fn compile(refs: Vec<DecisionRef>, files: &Vec<SourceFile>) -> (graph: Result<
    FlowGraph,
    FlowError,
>)
    ensures
        graph is Ok <==> {
            &&& resolves(refs.deep_view(), files.deep_view())
            &&& well_formed(resolved(refs.deep_view(), files.deep_view()))
        },
        match graph {
            Ok(graph) => {
                &&& graph@ == graph_of(resolved(refs.deep_view(), files.deep_view()))
                &&& graph@.valid()
                &&& graph.nodes.len() == refs.len() + 2
            },
            Err(e) => if resolves(refs.deep_view(), files.deep_view()) {
                build_error(resolved(refs.deep_view(), files.deep_view()), e@)
            } else {
                first_failure(refs.deep_view(), files.deep_view(), e@)
            },
        },
{
    match read_flow(refs, files) {
        Ok(flow) => build(flow),
        Err(e) => Err(e),
    }
}

} // verus!
