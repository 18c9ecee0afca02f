//! The graph of a control-flow graph: numbered blocks and the edges between them.

use petgraph::stable_graph::{NodeIndex, StableGraph};
use petgraph::Directed;
use vstd::prelude::*;

verus! {

#[verifier::external_type_specification]
#[verifier::external_body]
pub struct ExDirected(petgraph::Directed);

#[verifier::external_type_specification]
#[verifier::external_body]
#[verifier::reject_recursive_types(N)]
#[verifier::reject_recursive_types(E)]
#[verifier::reject_recursive_types(D)]
#[verifier::reject_recursive_types(Ix)]
pub struct ExStableGraph<N, E, D, Ix>(petgraph::stable_graph::StableGraph<N, E, D, Ix>);

/// The node weights of a graph from which nothing was removed, by node index.
pub uninterp spec fn graph_nodes(g: StableGraph<usize, (), Directed, u32>) -> Seq<usize>;

/// The edges of a graph from which nothing was removed, as pairs of node
/// indices, in the order in which they were added.
pub uninterp spec fn graph_edges(g: StableGraph<usize, (), Directed, u32>) -> Seq<(usize, usize)>;

/// `StableGraph::new` makes a graph without nodes and edges.
#[verifier::external_body]
fn new_graph() -> (g: StableGraph<usize, (), Directed, u32>)
    ensures
        graph_nodes(g) == Seq::<usize>::empty(),
        graph_edges(g) == Seq::<(usize, usize)>::empty(),
{
    StableGraph::new()
}

/// `StableGraph::add_node` appends a node and returns its index. It panics once
/// the index type is exhausted.
#[verifier::external_body]
fn add_node(g: &mut StableGraph<usize, (), Directed, u32>, weight: usize) -> (index: usize)
    requires
        graph_nodes(*old(g)).len() < u32::MAX,
    ensures
        graph_nodes(*final(g)) == graph_nodes(*old(g)).push(weight),
        graph_edges(*final(g)) == graph_edges(*old(g)),
        index == graph_nodes(*old(g)).len(),
{
    g.add_node(weight).index()
}

/// `StableGraph::add_edge` appends an edge. It panics when a node is absent, or
/// once the index type is exhausted.
#[verifier::external_body]
fn add_edge(g: &mut StableGraph<usize, (), Directed, u32>, from: usize, to: usize)
    requires
        from < graph_nodes(*old(g)).len(),
        to < graph_nodes(*old(g)).len(),
        graph_nodes(*old(g)).len() <= u32::MAX,
        graph_edges(*old(g)).len() < u32::MAX,
    ensures
        graph_nodes(*final(g)) == graph_nodes(*old(g)),
        graph_edges(*final(g)) == graph_edges(*old(g)).push((from, to)),
{
    g.add_edge(NodeIndex::new(from), NodeIndex::new(to), ());
}

/// `StableGraph::node_count` is the number of nodes.
#[verifier::external_body]
fn count_nodes(g: &StableGraph<usize, (), Directed, u32>) -> (n: usize)
    ensures
        n == graph_nodes(*g).len(),
{
    g.node_count()
}

/// `StableGraph::edge_count` is the number of edges.
#[verifier::external_body]
fn count_edges(g: &StableGraph<usize, (), Directed, u32>) -> (n: usize)
    ensures
        n == graph_edges(*g).len(),
{
    g.edge_count()
}

/// `StableGraph::neighbors` walks the targets of the edges out of a node, the
/// edge that was added last first.
#[verifier::external_body]
fn neighbors_of(g: &StableGraph<usize, (), Directed, u32>, from: usize) -> (r: Vec<usize>)
    requires
        from <= u32::MAX,
    ensures
        r@ == targets_of(graph_edges(*g), from),
{
    g.neighbors(NodeIndex::new(from)).map(|n| n.index()).collect()
}

/// The targets of the edges out of a node, last edge first.
pub open spec fn targets_of(edges: Seq<(usize, usize)>, from: usize) -> Seq<usize>
    decreases edges.len(),
{
    if edges.len() == 0 {
        Seq::empty()
    } else if edges.last().0 == from {
        seq![edges.last().1] + targets_of(edges.drop_last(), from)
    } else {
        targets_of(edges.drop_last(), from)
    }
}

/// A node is among the targets exactly when there is an edge to it.
pub proof fn targets_are_edges(edges: Seq<(usize, usize)>, from: usize, to: usize)
    ensures
        targets_of(edges, from).contains(to) <==> edges.contains((from, to)),
    decreases edges.len(),
{
    if edges.len() > 0 {
        let last = edges.last();
        let rest = edges.drop_last();
        targets_are_edges(rest, from, to);
        assert(edges =~= rest.push(last));
        if rest.contains((from, to)) {
            let k = choose|k: int| 0 <= k < rest.len() && rest[k] == (from, to);
            assert(edges[k] == (from, to));
        }
        if edges.contains((from, to)) {
            let k = choose|k: int| 0 <= k < edges.len() && edges[k] == (from, to);
            if k < rest.len() {
                assert(rest[k] == (from, to));
            }
        }
        if last.0 == from {
            let all = seq![last.1] + targets_of(rest, from);
            if last.1 == to {
                assert(all[0] == to);
                assert(edges[edges.len() - 1] == (from, to));
            }
            if targets_of(rest, from).contains(to) {
                let k = choose|k: int|
                    0 <= k < targets_of(rest, from).len() && targets_of(rest, from)[k] == to;
                assert(all[k + 1] == to);
            }
            if all.contains(to) {
                let k = choose|k: int| 0 <= k < all.len() && all[k] == to;
                if k > 0 {
                    assert(targets_of(rest, from)[k - 1] == to);
                }
            }
        }
    }
}

/// The graph of a control-flow graph. Block `i` is node `i`.
#[derive(Debug)]
pub struct BlockGraph {
    g: StableGraph<usize, (), Directed, u32>,
}

/// What a [`BlockGraph`] holds.
#[verifier::ext_equal]
pub struct BlockGraphView {
    /// How many blocks there are.
    pub nodes: nat,
    /// The edges, in the order in which they were added.
    pub edges: Seq<(usize, usize)>,
}

pub closed spec fn block_graph_view(x: BlockGraph) -> BlockGraphView {
    BlockGraphView { nodes: graph_nodes(x.g).len(), edges: graph_edges(x.g) }
}

impl View for BlockGraph {
    type V = BlockGraphView;

    open spec fn view(&self) -> BlockGraphView {
        block_graph_view(*self)
    }
}

/// A graph without blocks.
pub open spec fn no_blocks() -> BlockGraphView {
    BlockGraphView { nodes: 0, edges: Seq::empty() }
}

/// Whether there is room for another block.
pub open spec fn block_fits(g: BlockGraphView) -> bool {
    g.nodes < u32::MAX
}

/// The graph with one more block.
pub open spec fn with_block(g: BlockGraphView) -> BlockGraphView {
    if block_fits(g) {
        BlockGraphView { nodes: g.nodes + 1, edges: g.edges }
    } else {
        g
    }
}

/// Whether an edge can be added: both ends are there and there is room.
pub open spec fn edge_fits(g: BlockGraphView, from: usize, to: usize) -> bool {
    from < g.nodes && to < g.nodes && g.nodes <= u32::MAX && g.edges.len() < u32::MAX
}

/// The graph with one more edge.
pub open spec fn with_edge(g: BlockGraphView, from: usize, to: usize) -> BlockGraphView {
    if edge_fits(g, from, to) {
        BlockGraphView { nodes: g.nodes, edges: g.edges.push((from, to)) }
    } else {
        g
    }
}

impl BlockGraph {
    pub fn new() -> (r: BlockGraph)
        ensures
            r@ == no_blocks(),
    {
        BlockGraph { g: new_graph() }
    }

    /// Add a block; whether it found room.
    pub fn add_block(&mut self) -> (r: bool)
        ensures
            final(self)@ == with_block(old(self)@),
            r == block_fits(old(self)@),
    {
        let n: usize = count_nodes(&self.g);
        if n < 0xFFFF_FFFF {
            let _ = add_node(&mut self.g, n);
            true
        } else {
            false
        }
    }

    /// Add an edge; whether it could be added.
    pub fn connect(&mut self, from: usize, to: usize) -> (r: bool)
        ensures
            final(self)@ == with_edge(old(self)@, from, to),
            r == edge_fits(old(self)@, from, to),
    {
        let n: usize = count_nodes(&self.g);
        let m: usize = count_edges(&self.g);
        if from < n && to < n && n <= 0xFFFF_FFFF && m < 0xFFFF_FFFF {
            add_edge(&mut self.g, from, to);
            true
        } else {
            false
        }
    }

    /// The number of blocks.
    pub fn node_count(&self) -> (r: usize)
        ensures
            r == self@.nodes,
    {
        count_nodes(&self.g)
    }

    /// The number of edges.
    pub fn edge_count(&self) -> (r: usize)
        ensures
            r == self@.edges.len(),
    {
        count_edges(&self.g)
    }

    /// The successors of a block; none for a block that is not there.
    pub fn successors(&self, from: usize) -> (r: Vec<usize>)
        ensures
            from <= u32::MAX ==> r@ == targets_of(self@.edges, from),
            from > u32::MAX ==> r@ == Seq::<usize>::empty(),
    {
        if from <= 0xFFFF_FFFF {
            neighbors_of(&self.g, from)
        } else {
            Vec::new()
        }
    }
}

} // verus!
