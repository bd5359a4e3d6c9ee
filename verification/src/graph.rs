//! The graph of a flow: one node per resolved unit between a fixed entry and
//! a fixed exit node, and one edge per declared source or target.

use crate::error::{FlowError, FlowErrorView};
use crate::model::{Decision, DecisionView, Payload, PayloadView, Rule, RuleView};
use vstd::prelude::*;
use vstd::seq_lib::{lemma_flatten_concat, lemma_multiset_commutative};
use vstd::string::*;

verus! {

/// How a table selects among the rows that match.
#[derive(Debug, Clone, Copy, PartialEq, Eq, Structural)]
pub enum HitPolicy {
    /// The first matching row wins.
    First,
    /// Every matching row contributes.
    Collect,
}

/// An input column of a table.
#[derive(Debug, Clone, PartialEq, Eq)]
pub struct InputField {
    pub id: String,
    pub name: String,
    pub field: String,
}

/// An output column of a table.
#[derive(Debug, Clone, PartialEq, Eq)]
pub struct OutputField {
    pub id: String,
    pub name: String,
    pub field: String,
}

/// A column of a table in specifications, input or output.
pub struct FieldView {
    pub id: Seq<char>,
    pub name: Seq<char>,
    pub field: Seq<char>,
}

impl View for InputField {
    type V = FieldView;

    open spec fn view(&self) -> FieldView {
        FieldView { id: self.id@, name: self.name@, field: self.field@ }
    }
}

impl DeepView for InputField {
    type V = FieldView;

    open spec fn deep_view(&self) -> FieldView {
        self@
    }
}

impl View for OutputField {
    type V = FieldView;

    open spec fn view(&self) -> FieldView {
        FieldView { id: self.id@, name: self.name@, field: self.field@ }
    }
}

impl DeepView for OutputField {
    type V = FieldView;

    open spec fn deep_view(&self) -> FieldView {
        self@
    }
}

/// The one binding of an expression node: `value` is computed and bound to
/// `key`, which is also the field the expression is keyed on.
#[derive(Debug, Clone, PartialEq, Eq)]
pub struct Binding {
    pub key: String,
    pub field: String,
    pub value: String,
}

pub struct BindingView {
    pub key: Seq<char>,
    pub field: Seq<char>,
    pub value: Seq<char>,
}

impl View for Binding {
    type V = BindingView;

    open spec fn view(&self) -> BindingView {
        BindingView { key: self.key@, field: self.field@, value: self.value@ }
    }
}

/// What a node is and holds.
#[derive(Debug, Clone, PartialEq, Eq)]
pub enum NodeKind {
    /// Where the caller's input enters the flow.
    Entry,
    /// Where the flow's output leaves it.
    Exit,
    Table { rows: Vec<Rule>, inputs: Vec<InputField>, outputs: Vec<OutputField>, hit_policy: HitPolicy },
    Expression { binding: Binding },
    Function { source: String },
}

pub enum NodeKindView {
    Entry,
    Exit,
    Table {
        rows: Seq<RuleView>,
        inputs: Seq<FieldView>,
        outputs: Seq<FieldView>,
        hit_policy: HitPolicy,
    },
    Expression { binding: BindingView },
    Function { source: Seq<char> },
}

impl View for NodeKind {
    type V = NodeKindView;

    open spec fn view(&self) -> NodeKindView {
        match *self {
            NodeKind::Entry => NodeKindView::Entry,
            NodeKind::Exit => NodeKindView::Exit,
            NodeKind::Table { rows, inputs, outputs, hit_policy } => NodeKindView::Table {
                rows: rows.deep_view(),
                inputs: inputs.deep_view(),
                outputs: outputs.deep_view(),
                hit_policy,
            },
            NodeKind::Expression { binding } => NodeKindView::Expression { binding: binding@ },
            NodeKind::Function { source } => NodeKindView::Function { source: source@ },
        }
    }
}

/// A node of the graph.
#[derive(Debug, Clone, PartialEq, Eq)]
pub struct GraphNode {
    pub id: String,
    pub name: String,
    pub kind: NodeKind,
}

pub struct NodeView {
    pub id: Seq<char>,
    pub name: Seq<char>,
    pub kind: NodeKindView,
}

impl View for GraphNode {
    type V = NodeView;

    open spec fn view(&self) -> NodeView {
        NodeView { id: self.id@, name: self.name@, kind: self.kind@ }
    }
}

impl DeepView for GraphNode {
    type V = NodeView;

    open spec fn deep_view(&self) -> NodeView {
        self@
    }
}

/// A directed edge: data flows from the node `source_id` to the node
/// `target_id`.
#[derive(Debug, Clone, PartialEq, Eq)]
pub struct GraphEdge {
    pub source_id: String,
    pub target_id: String,
}

pub struct EdgeView {
    pub source_id: Seq<char>,
    pub target_id: Seq<char>,
}

impl View for GraphEdge {
    type V = EdgeView;

    open spec fn view(&self) -> EdgeView {
        EdgeView { source_id: self.source_id@, target_id: self.target_id@ }
    }
}

impl DeepView for GraphEdge {
    type V = EdgeView;

    open spec fn deep_view(&self) -> EdgeView {
        self@
    }
}

/// The compiled flow: its nodes and its edges, each in order.
#[derive(Debug, Clone, PartialEq, Eq)]
pub struct FlowGraph {
    pub nodes: Vec<GraphNode>,
    pub edges: Vec<GraphEdge>,
}

pub struct GraphView {
    pub nodes: Seq<NodeView>,
    pub edges: Seq<EdgeView>,
}

impl View for FlowGraph {
    type V = GraphView;

    open spec fn view(&self) -> GraphView {
        GraphView { nodes: self.nodes.deep_view(), edges: self.edges.deep_view() }
    }
}

/// The column that stands for the field `name`: identifier, display name and
/// underlying field are all `name`.
pub open spec fn field_of(name: Seq<char>) -> FieldView {
    FieldView { id: name, name, field: name }
}

/// The columns that stand for the fields `names`, in their order.
pub open spec fn fields_of(names: Seq<Seq<char>>) -> Seq<FieldView> {
    names.map_values(|name: Seq<char>| field_of(name))
}

/// The entry node.
pub open spec fn entry_node() -> NodeView {
    NodeView { id: "request"@, name: "request"@, kind: NodeKindView::Entry }
}

/// The exit node.
pub open spec fn exit_node() -> NodeView {
    NodeView { id: "response"@, name: "response"@, kind: NodeKindView::Exit }
}

/// The content of the node that stands for a unit with `payload`.
pub open spec fn node_kind_of(unit: DecisionView) -> NodeKindView {
    match unit.payload {
        PayloadView::Table { rows } => NodeKindView::Table {
            rows,
            inputs: fields_of(unit.inputs),
            outputs: fields_of(unit.outputs),
            hit_policy: HitPolicy::First,
        },
        PayloadView::Expression { key, text } => NodeKindView::Expression {
            binding: BindingView { key, field: key, value: text },
        },
        PayloadView::Function { source } => NodeKindView::Function { source },
    }
}

/// The node that stands for `unit`. It is named by the unit's identifier.
pub open spec fn node_of(unit: DecisionView) -> NodeView {
    NodeView { id: unit.id, name: unit.id, kind: node_kind_of(unit) }
}

/// The nodes of a flow: the entry node, one node per unit in the order of the
/// units, the exit node.
pub open spec fn nodes_of(flow: Seq<DecisionView>) -> Seq<NodeView> {
    seq![entry_node()] + flow.map_values(|unit: DecisionView| node_of(unit)) + seq![exit_node()]
}

/// The edges that `unit` declares: one from each of its sources to the unit,
/// then one from the unit to each of its targets.
pub open spec fn unit_edges(unit: DecisionView) -> Seq<EdgeView> {
    unit.sources.map_values(|s: Seq<char>| EdgeView { source_id: s, target_id: unit.id })
        + unit.targets.map_values(|t: Seq<char>| EdgeView { source_id: unit.id, target_id: t })
}

/// The edges of a flow: those of each unit, in the order of the units. What
/// two units both declare occurs twice.
pub open spec fn edges_of(flow: Seq<DecisionView>) -> Seq<EdgeView> {
    flow.flat_map(|unit: DecisionView| unit_edges(unit))
}

/// `id` is kept for the entry and the exit node: `request` and `response`
/// identify them, and `entry` and `exit` are set aside for them as well. No
/// unit may bear such an identifier.
pub open spec fn is_reserved(id: Seq<char>) -> bool {
    id == "request"@ || id == "response"@ || id == "entry"@ || id == "exit"@
}

/// `id` is the identifier of one of `nodes`.
pub open spec fn names_node(nodes: Seq<NodeView>, id: Seq<char>) -> bool {
    exists|k: int| 0 <= k < nodes.len() && (#[trigger] nodes[k]).id == id
}

/// An endpoint of `edge` is the identifier of none of `nodes`.
pub open spec fn dangles(nodes: Seq<NodeView>, edge: EdgeView) -> bool {
    !names_node(nodes, edge.source_id) || !names_node(nodes, edge.target_id)
}

/// The units of `flow` form a graph: none bears a reserved identifier, and
/// every source and target that a unit declares is the identifier of a node.
pub open spec fn well_formed(flow: Seq<DecisionView>) -> bool {
    &&& forall|i: int| 0 <= i < flow.len() ==> !is_reserved((#[trigger] flow[i]).id)
    &&& forall|k: int|
        0 <= k < edges_of(flow).len() ==> !dangles(nodes_of(flow), #[trigger] edges_of(flow)[k])
}

/// `e` reports what first stops `flow` from forming a graph: the first unit
/// with a reserved identifier, or else the first edge that dangles.
pub open spec fn build_error(flow: Seq<DecisionView>, e: FlowErrorView) -> bool {
    ||| exists|i: int|
        {
            &&& 0 <= i < flow.len()
            &&& is_reserved((#[trigger] flow[i]).id)
            &&& forall|j: int| 0 <= j < i ==> !is_reserved((#[trigger] flow[j]).id)
            &&& e == FlowErrorView::ReservedIdentifier { unit: flow[i].id }
        }
    ||| {
        &&& forall|i: int| 0 <= i < flow.len() ==> !is_reserved((#[trigger] flow[i]).id)
        &&& exists|k: int|
            {
                &&& 0 <= k < edges_of(flow).len()
                &&& dangles(nodes_of(flow), #[trigger] edges_of(flow)[k])
                &&& forall|j: int|
                    0 <= j < k ==> !dangles(nodes_of(flow), #[trigger] edges_of(flow)[j])
                &&& e == FlowErrorView::DanglingEdge {
                    source: edges_of(flow)[k].source_id,
                    target: edges_of(flow)[k].target_id,
                }
            }
    }
}

/// The graph of a flow.
pub open spec fn graph_of(flow: Seq<DecisionView>) -> GraphView {
    GraphView { nodes: nodes_of(flow), edges: edges_of(flow) }
}

impl GraphView {
    /// The graph has the entry node first and the exit node last, no node
    /// between them is an entry or exit node or bears a reserved identifier,
    /// every node is named by its identifier, and both endpoints of every
    /// edge are identifiers of nodes.
    pub open spec fn valid(self) -> bool {
        &&& self.nodes.len() >= 2
        &&& self.nodes.first() == entry_node()
        &&& self.nodes.last() == exit_node()
        &&& forall|k: int|
            0 < k < self.nodes.len() - 1 ==> {
                &&& !is_reserved((#[trigger] self.nodes[k]).id)
                &&& self.nodes[k].kind !is Entry
                &&& self.nodes[k].kind !is Exit
            }
        &&& forall|k: int|
            0 <= k < self.nodes.len() ==> (#[trigger] self.nodes[k]).name == self.nodes[k].id
        &&& forall|k: int|
            0 <= k < self.edges.len() ==> !dangles(self.nodes, #[trigger] self.edges[k])
    }
}

/// The graph of a flow whose units form a graph is valid.
pub proof fn lemma_graph_valid(flow: Seq<DecisionView>)
    requires
        well_formed(flow),
    ensures
        graph_of(flow).valid(),
{
    let nodes = nodes_of(flow);
    assert forall|k: int| 0 < k < nodes.len() - 1 implies {
        &&& !is_reserved((#[trigger] nodes[k]).id)
        &&& nodes[k].kind !is Entry
        &&& nodes[k].kind !is Exit
    } by {
        assert(nodes[k] == node_of(flow[k - 1]));
    }
}

/// How often `unit` declares `edge`: as one of its sources, where the edge
/// ends at the unit, and as one of its targets, where it starts there.
pub open spec fn unit_declarations(unit: DecisionView, edge: EdgeView) -> nat {
    let as_source = if unit.id == edge.target_id {
        unit.sources.to_multiset().count(edge.source_id)
    } else {
        0
    };
    let as_target = if unit.id == edge.source_id {
        unit.targets.to_multiset().count(edge.target_id)
    } else {
        0
    };
    as_source + as_target
}

/// How often the units of `flow` declare `edge`, all together.
pub open spec fn declarations(flow: Seq<DecisionView>, edge: EdgeView) -> nat
    decreases flow.len(),
{
    if flow.len() == 0 {
        0
    } else {
        declarations(flow.drop_last(), edge) + unit_declarations(flow.last(), edge)
    }
}

/// Where the edges of the unit at `i` begin among the edges of `flow`.
pub open spec fn edge_offset(flow: Seq<DecisionView>, i: int) -> int {
    edges_of(flow.take(i)).len() as int
}

/// A flow of N units has N + 2 nodes: the entry node first, the exit node
/// last, between them the node of each unit at the place of the unit. Every
/// node is named by its identifier.
pub proof fn lemma_nodes_shape(flow: Seq<DecisionView>)
    ensures
        nodes_of(flow).len() == flow.len() + 2,
        nodes_of(flow).first() == entry_node(),
        nodes_of(flow).last() == exit_node(),
        forall|i: int| 0 <= i < flow.len() ==> #[trigger] nodes_of(flow)[i + 1] == node_of(flow[i]),
        forall|k: int|
            0 <= k < nodes_of(flow).len() ==> (#[trigger] nodes_of(flow)[k]).name == nodes_of(
                flow,
            )[k].id,
{
}

/// The edges of a flow are the edges of its first `i` units, then those of
/// the unit at `i`, then those of the later units.
pub proof fn lemma_edges_split(flow: Seq<DecisionView>, i: int)
    requires
        0 <= i < flow.len(),
    ensures
        edges_of(flow) == edges_of(flow.take(i)) + unit_edges(flow[i]) + edges_of(flow.skip(i + 1)),
{
    let per_unit = |unit: DecisionView| unit_edges(unit);
    let before = flow.take(i).map_values(per_unit);
    let at = seq![unit_edges(flow[i])];
    let after = flow.skip(i + 1).map_values(per_unit);
    assert(flow.map_values(per_unit) =~= before + at + after);
    lemma_flatten_concat(before + at, after);
    lemma_flatten_concat(before, at);
    at.lemma_flatten_one_element();
}

/// Every source and every target that a unit declares is an edge of the
/// flow, at its place: the edges of the unit at `i` stand together, in the
/// order of the declarations, sources first.
pub proof fn lemma_unit_edges_in_place(flow: Seq<DecisionView>, i: int)
    requires
        0 <= i < flow.len(),
    ensures
        0 <= edge_offset(flow, i),
        edge_offset(flow, i) + unit_edges(flow[i]).len() <= edges_of(flow).len(),
        edges_of(flow).subrange(
            edge_offset(flow, i),
            edge_offset(flow, i) + unit_edges(flow[i]).len(),
        ) == unit_edges(flow[i]),
        forall|j: int|
            0 <= j < flow[i].sources.len() ==> #[trigger] edges_of(flow)[edge_offset(flow, i) + j]
                == (EdgeView { source_id: flow[i].sources[j], target_id: flow[i].id }),
        forall|j: int|
            0 <= j < flow[i].targets.len() ==> #[trigger] edges_of(flow)[edge_offset(flow, i)
                + flow[i].sources.len() + j] == (EdgeView {
                source_id: flow[i].id,
                target_id: flow[i].targets[j],
            }),
{
    lemma_edges_split(flow, i);
    let at = edge_offset(flow, i);
    assert(edges_of(flow).subrange(at, at + unit_edges(flow[i]).len()) =~= unit_edges(flow[i]));
}

/// In a flow whose units form a graph, every source and every target that a
/// unit declares is the identifier of a node, and so is the unit's own.
pub proof fn lemma_declared_ids_name_nodes(flow: Seq<DecisionView>, i: int)
    requires
        well_formed(flow),
        0 <= i < flow.len(),
    ensures
        names_node(nodes_of(flow), flow[i].id),
        forall|j: int|
            0 <= j < flow[i].sources.len() ==> names_node(
                nodes_of(flow),
                #[trigger] flow[i].sources[j],
            ),
        forall|j: int|
            0 <= j < flow[i].targets.len() ==> names_node(
                nodes_of(flow),
                #[trigger] flow[i].targets[j],
            ),
{
    lemma_unit_edges_in_place(flow, i);
    let at = edge_offset(flow, i);
    assert(nodes_of(flow)[i + 1].id == flow[i].id);
    assert forall|j: int| 0 <= j < flow[i].sources.len() implies names_node(
        nodes_of(flow),
        #[trigger] flow[i].sources[j],
    ) by {
        assert(edges_of(flow)[at + j].source_id == flow[i].sources[j]);
    }
    assert forall|j: int| 0 <= j < flow[i].targets.len() implies names_node(
        nodes_of(flow),
        #[trigger] flow[i].targets[j],
    ) by {
        assert(edges_of(flow)[at + flow[i].sources.len() + j].target_id == flow[i].targets[j]);
    }
}

/// The edges made from the sources of a unit hold `edge` as often as the
/// sources hold its start, where it ends at the unit, and not at all
/// otherwise.
proof fn lemma_source_edges_count(sources: Seq<Seq<char>>, id: Seq<char>, edge: EdgeView)
    ensures
        sources.map_values(
            |s: Seq<char>| EdgeView { source_id: s, target_id: id },
        ).to_multiset().count(edge) == if id == edge.target_id {
            sources.to_multiset().count(edge.source_id)
        } else {
            0
        },
    decreases sources.len(),
{
    broadcast use vstd::multiset::group_multiset_axioms;
    broadcast use vstd::seq_lib::group_to_multiset_ensures;

    let f = |s: Seq<char>| EdgeView { source_id: s, target_id: id };
    if sources.len() == 0 {
        assert(sources.map_values(f) =~= Seq::empty());
    } else {
        let rest = sources.drop_last();
        lemma_source_edges_count(rest, id, edge);
        assert(sources =~= rest.push(sources.last()));
        assert(sources.map_values(f) =~= rest.map_values(f).push(f(sources.last())));
    }
}

/// The edges made from the targets of a unit hold `edge` as often as the
/// targets hold its end, where it starts at the unit, and not at all
/// otherwise.
proof fn lemma_target_edges_count(targets: Seq<Seq<char>>, id: Seq<char>, edge: EdgeView)
    ensures
        targets.map_values(
            |t: Seq<char>| EdgeView { source_id: id, target_id: t },
        ).to_multiset().count(edge) == if id == edge.source_id {
            targets.to_multiset().count(edge.target_id)
        } else {
            0
        },
    decreases targets.len(),
{
    broadcast use vstd::multiset::group_multiset_axioms;
    broadcast use vstd::seq_lib::group_to_multiset_ensures;

    let f = |t: Seq<char>| EdgeView { source_id: id, target_id: t };
    if targets.len() == 0 {
        assert(targets.map_values(f) =~= Seq::empty());
    } else {
        let rest = targets.drop_last();
        lemma_target_edges_count(rest, id, edge);
        assert(targets =~= rest.push(targets.last()));
        assert(targets.map_values(f) =~= rest.map_values(f).push(f(targets.last())));
    }
}

/// Edges are never merged: the edges of a flow hold each edge exactly as
/// often as the units declare it.
pub proof fn lemma_edge_multiplicity(flow: Seq<DecisionView>, edge: EdgeView)
    ensures
        edges_of(flow).to_multiset().count(edge) == declarations(flow, edge),
    decreases flow.len(),
{
    broadcast use vstd::multiset::group_multiset_axioms;
    broadcast use vstd::seq_lib::group_to_multiset_ensures;

    let per_unit = |unit: DecisionView| unit_edges(unit);
    if flow.len() == 0 {
        assert(edges_of(flow) =~= Seq::empty());
    } else {
        let rest = flow.drop_last();
        let unit = flow.last();
        lemma_edge_multiplicity(rest, edge);
        assert(flow.map_values(per_unit) =~= rest.map_values(per_unit).push(unit_edges(unit)));
        rest.map_values(per_unit).lemma_flatten_push(unit_edges(unit));
        assert(edges_of(flow) == edges_of(rest) + unit_edges(unit));
        lemma_multiset_commutative(edges_of(rest), unit_edges(unit));
        let into = unit.sources.map_values(
            |s: Seq<char>| EdgeView { source_id: s, target_id: unit.id },
        );
        let out_of = unit.targets.map_values(
            |t: Seq<char>| EdgeView { source_id: unit.id, target_id: t },
        );
        lemma_multiset_commutative(into, out_of);
        lemma_source_edges_count(unit.sources, unit.id, edge);
        lemma_target_edges_count(unit.targets, unit.id, edge);
    }
}

/// Makes the input columns of a table from its declared input fields.
pub fn make_inputs(fields: Vec<String>) -> (columns: Vec<InputField>)
    ensures
        columns.deep_view() == fields_of(fields.deep_view()),
{
    let mut columns: Vec<InputField> = Vec::new();
    for f in it: fields
        invariant
            it.seq() == fields@,
            columns.len() == it.index(),
            forall|i: int| 0 <= i < columns.len() ==> (#[trigger] columns[i])@ == field_of(fields[i]@),
    {
        columns.push(InputField { id: f.clone(), name: f.clone(), field: f });
    }
    assert(columns.deep_view() =~= fields_of(fields.deep_view()));
    columns
}

/// Makes the output columns of a table from its declared output fields.
pub fn make_outputs(fields: Vec<String>) -> (columns: Vec<OutputField>)
    ensures
        columns.deep_view() == fields_of(fields.deep_view()),
{
    let mut columns: Vec<OutputField> = Vec::new();
    for f in it: fields
        invariant
            it.seq() == fields@,
            columns.len() == it.index(),
            forall|i: int| 0 <= i < columns.len() ==> (#[trigger] columns[i])@ == field_of(fields[i]@),
    {
        columns.push(OutputField { id: f.clone(), name: f.clone(), field: f });
    }
    assert(columns.deep_view() =~= fields_of(fields.deep_view()));
    columns
}

/// Makes the node of a table. Its columns are made from the declared fields,
/// and among matching rows the first wins.
pub fn make_decision_table_node(
    id: String,
    rows: Vec<Rule>,
    inputs: Vec<String>,
    outputs: Vec<String>,
) -> (node: GraphNode)
    ensures
        node@ == (NodeView {
            id: id@,
            name: id@,
            kind: NodeKindView::Table {
                rows: rows.deep_view(),
                inputs: fields_of(inputs.deep_view()),
                outputs: fields_of(outputs.deep_view()),
                hit_policy: HitPolicy::First,
            },
        }),
{
    let input_fields = make_inputs(inputs);
    let output_fields = make_outputs(outputs);
    GraphNode {
        id: id.clone(),
        name: id,
        kind: NodeKind::Table {
            rows,
            inputs: input_fields,
            outputs: output_fields,
            hit_policy: HitPolicy::First,
        },
    }
}

/// Makes the node of an expression: one binding, keyed on `key` and computed
/// from `text`.
pub fn make_expression_node(id: String, key: String, text: String) -> (node: GraphNode)
    ensures
        node@ == (NodeView {
            id: id@,
            name: id@,
            kind: NodeKindView::Expression {
                binding: BindingView { key: key@, field: key@, value: text@ },
            },
        }),
{
    GraphNode {
        id: id.clone(),
        name: id,
        kind: NodeKind::Expression { binding: Binding { key: key.clone(), field: key, value: text } },
    }
}

/// Makes the node of a function. It holds the source text unchanged.
pub fn make_function_node(id: String, source: String) -> (node: GraphNode)
    ensures
        node@ == (NodeView { id: id@, name: id@, kind: NodeKindView::Function { source: source@ } }),
{
    GraphNode { id: id.clone(), name: id, kind: NodeKind::Function { source } }
}

/// Makes the node that stands for `unit`, by the kind of its payload.
pub fn make_node(unit: Decision) -> (node: GraphNode)
    ensures
        node@ == node_of(unit@),
{
    let Decision { id, payload, inputs, outputs, sources: _, targets: _ } = unit;
    match payload {
        Payload::Table { rows } => make_decision_table_node(id, rows, inputs, outputs),
        Payload::Expression { key, text } => make_expression_node(id, key, text),
        Payload::Function { source } => make_function_node(id, source),
    }
}

/// Makes the nodes of a flow: the entry node `request`, one node per unit in
/// the order of the units, the exit node `response`.
pub fn make_nodes(flow: Vec<Decision>) -> (nodes: Vec<GraphNode>)
    ensures
        nodes.deep_view() == nodes_of(flow.deep_view()),
        nodes.len() == flow.len() + 2,
        nodes[0]@ == entry_node(),
        nodes[nodes.len() - 1]@ == exit_node(),
        forall|i: int| 0 <= i < flow.len() ==> (#[trigger] nodes[i + 1])@ == node_of(flow[i]@),
{
    let mut nodes: Vec<GraphNode> = Vec::new();
    nodes.push(
        GraphNode { id: "request".to_owned(), name: "request".to_owned(), kind: NodeKind::Entry },
    );
    for unit in it: flow
        invariant
            it.seq() == flow@,
            nodes.len() == it.index() + 1,
            nodes[0]@ == entry_node(),
            forall|i: int| 0 <= i < it.index() ==> (#[trigger] nodes[i + 1])@ == node_of(flow[i]@),
    {
        let node = make_node(unit);
        nodes.push(node);
    }
    nodes.push(
        GraphNode { id: "response".to_owned(), name: "response".to_owned(), kind: NodeKind::Exit },
    );
    assert(nodes.deep_view() =~= nodes_of(flow.deep_view())) by {
        assert forall|k: int| 0 <= k < nodes.len() implies nodes.deep_view()[k] == nodes_of(
            flow.deep_view(),
        )[k] by {
            if 0 < k < nodes.len() - 1 {
                assert(nodes[(k - 1) + 1]@ == node_of(flow[k - 1]@));
            }
        }
    }
    nodes
}

/// Makes the edges of a flow: for each unit in order, one edge from each of
/// its sources to the unit, then one from the unit to each of its targets.
/// Nothing is left out and nothing is merged.
pub fn make_edges(flow: &Vec<Decision>) -> (edges: Vec<GraphEdge>)
    ensures
        edges.deep_view() == edges_of(flow.deep_view()),
{
    let ghost per_unit = |unit: DecisionView| unit_edges(unit);
    let mut edges: Vec<GraphEdge> = Vec::new();
    let mut i: usize = 0;
    proof {
        assert(flow.deep_view().take(0) =~= Seq::empty());
        assert(edges.deep_view() =~= Seq::empty());
    }
    while i < flow.len()
        invariant
            i <= flow.len(),
            per_unit == |unit: DecisionView| unit_edges(unit),
            edges.deep_view() == flow.deep_view().take(i as int).flat_map(per_unit),
        decreases flow.len() - i,
    {
        let unit = &flow[i];
        let ghost done = edges.deep_view();
        let ghost into = unit@.sources.map_values(
            |s: Seq<char>| EdgeView { source_id: s, target_id: unit@.id },
        );
        let ghost out_of = unit@.targets.map_values(
            |t: Seq<char>| EdgeView { source_id: unit@.id, target_id: t },
        );
        let mut j: usize = 0;
        while j < unit.sources.len()
            invariant
                j <= unit.sources.len(),
                into == unit@.sources.map_values(
                    |s: Seq<char>| EdgeView { source_id: s, target_id: unit@.id },
                ),
                edges.deep_view() == done + into.take(j as int),
            decreases unit.sources.len() - j,
        {
            let ghost before = edges.deep_view();
            let edge = GraphEdge { source_id: unit.sources[j].clone(), target_id: unit.id.clone() };
            edges.push(edge);
            assert(edges.deep_view() =~= before.push(edge@));
            assert(edges.deep_view() =~= done + into.take(j + 1));
            j = j + 1;
        }
        let mut k: usize = 0;
        while k < unit.targets.len()
            invariant
                k <= unit.targets.len(),
                j == unit.sources.len(),
                into.len() == unit.sources.len(),
                out_of == unit@.targets.map_values(
                    |t: Seq<char>| EdgeView { source_id: unit@.id, target_id: t },
                ),
                edges.deep_view() == done + into + out_of.take(k as int),
            decreases unit.targets.len() - k,
        {
            let ghost before = edges.deep_view();
            let edge = GraphEdge { source_id: unit.id.clone(), target_id: unit.targets[k].clone() };
            edges.push(edge);
            assert(edges.deep_view() =~= before.push(edge@));
            assert(edges.deep_view() =~= done + into + out_of.take(k + 1));
            k = k + 1;
        }
        proof {
            let seen = flow.deep_view().take(i as int);
            let next = flow.deep_view().take(i + 1);
            assert(out_of.take(k as int) =~= out_of);
            assert(into + out_of == unit_edges(unit@));
            assert(next.map_values(per_unit) =~= seen.map_values(per_unit).push(unit_edges(unit@)));
            seen.map_values(per_unit).lemma_flatten_push(unit_edges(unit@));
            assert(edges.deep_view() =~= next.flat_map(per_unit));
        }
        i = i + 1;
    }
    assert(flow.deep_view().take(i as int) =~= flow.deep_view());
    edges
}

/// Tells whether `id` is kept for the entry and the exit node.
pub fn is_reserved_id(id: &str) -> (reserved: bool)
    ensures
        reserved == is_reserved(id@),
{
    let id = id.to_owned();
    id == "request".to_owned() || id == "response".to_owned() || id == "entry".to_owned() || id
        == "exit".to_owned()
}

/// Tells whether `id` is the identifier of one of `nodes`.
pub fn has_node(nodes: &Vec<GraphNode>, id: &str) -> (found: bool)
    ensures
        found == names_node(nodes.deep_view(), id@),
{
    let wanted = id.to_owned();
    let mut k: usize = 0;
    while k < nodes.len()
        invariant
            k <= nodes.len(),
            wanted@ == id@,
            forall|j: int| 0 <= j < k ==> (#[trigger] nodes.deep_view()[j]).id != id@,
        decreases nodes.len() - k,
    {
        if nodes[k].id == wanted {
            assert(nodes.deep_view()[k as int].id == id@);
            return true;
        }
        k = k + 1;
    }
    false
}

/// Compiles the resolved units of a flow into its graph. The graph holds the
/// entry node, one node per unit in order, and the exit node, and one edge
/// for each source and each target that a unit declares. A unit that bears a
/// reserved identifier, or an edge whose endpoint names no node, stops the
/// compilation: no part of a graph is returned.
pub fn build(flow: Vec<Decision>) -> (graph: Result<FlowGraph, FlowError>)
    ensures
        graph is Ok <==> well_formed(flow.deep_view()),
        match graph {
            Ok(graph) => {
                &&& graph@ == graph_of(flow.deep_view())
                &&& graph@.valid()
                &&& graph.nodes.len() == flow.len() + 2
                &&& graph.nodes[0]@ == entry_node()
                &&& graph.nodes[graph.nodes.len() - 1]@ == exit_node()
            },
            Err(e) => build_error(flow.deep_view(), e@),
        },
{
    let mut i: usize = 0;
    while i < flow.len()
        invariant
            i <= flow.len(),
            forall|j: int| 0 <= j < i ==> !is_reserved((#[trigger] flow.deep_view()[j]).id),
        decreases flow.len() - i,
    {
        if is_reserved_id(flow[i].id.as_str()) {
            let unit = flow[i].id.clone();
            assert(is_reserved(flow.deep_view()[i as int].id));
            return Err(FlowError::ReservedIdentifier { unit });
        }
        i = i + 1;
    }
    let edges = make_edges(&flow);
    let ghost units = flow.deep_view();
    let nodes = make_nodes(flow);
    let mut k: usize = 0;
    while k < edges.len()
        invariant
            k <= edges.len(),
            units == flow.deep_view(),
            forall|j: int| 0 <= j < units.len() ==> !is_reserved((#[trigger] units[j]).id),
            nodes.deep_view() == nodes_of(units),
            edges.deep_view() == edges_of(units),
            forall|j: int| 0 <= j < k ==> !dangles(nodes_of(units), #[trigger] edges_of(units)[j]),
        decreases edges.len() - k,
    {
        let edge = &edges[k];
        assert(edge@ == edges_of(units)[k as int]);
        if !has_node(&nodes, edge.source_id.as_str()) || !has_node(&nodes, edge.target_id.as_str()) {
            let source = edge.source_id.clone();
            let target = edge.target_id.clone();
            assert(dangles(nodes_of(units), edges_of(units)[k as int]));
            return Err(FlowError::DanglingEdge { source, target });
        }
        k = k + 1;
    }
    proof {
        lemma_graph_valid(units);
    }
    Ok(FlowGraph { nodes, edges })
}

} // verus!
