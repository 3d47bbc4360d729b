//! The directed graph and its promotion to a cluster of another graph.

use crate::edge::edge::{
    edge_texts, edges_identifiers, edges_view, lemma_renamed_edges_identifiers, rename_edges,
    renamed_edges, EdgeView, GraphVizEdge,
};
use crate::graph::style::{GraphvizGraphStyle, GraphvizGraphStyleItem};
use crate::item::cluster::{ClusterView, GraphVizCluster};
use crate::item::item::{
    boxed_items_view, item_texts, items_identifiers, items_view, lemma_renamed_items_identifiers,
    renamed_items, GraphItemView, GraphVizGraphItem,
};
use crate::item::node::style::{node_style_view, GraphvizNodeStyle, NodeStyleItemView};
use crate::text::{
    concat_wrapped, lemma_prefixed_all_add, lemma_prefixes_never_meet, option_view, prefixed_all,
};
use crate::traits::{dot_texts, RenameableWithPrefix};
use vstd::prelude::*;

verus! {

/// A directed graph: a style, items and edges, each in the order in which
/// they were added.
pub struct GraphVizDiGraph {
    pub style: GraphvizGraphStyle,
    pub items: Vec<GraphVizGraphItem>,
    pub edges: Vec<GraphVizEdge>,
}

/// The model of a directed graph.
#[verifier::ext_equal]
pub struct DiGraphView {
    pub style: Seq<GraphvizGraphStyleItem>,
    pub items: Seq<GraphItemView>,
    pub edges: Seq<EdgeView>,
}

/// How many of the items are clusters.
pub open spec fn cluster_count(items: Seq<GraphItemView>) -> nat
    decreases items.len(),
{
    if items.len() == 0 {
        0
    } else {
        cluster_count(items.drop_last()) + if items.last() is Cluster {
            1nat
        } else {
            0nat
        }
    }
}

/// Whether the item at `place` is a cluster with exactly `n` clusters before
/// it among the items.
pub open spec fn is_nth_cluster(items: Seq<GraphItemView>, n: nat, place: int) -> bool {
    &&& 0 <= place < items.len()
    &&& items[place] is Cluster
    &&& cluster_count(items.take(place)) == n
}

/// The place among the items of the cluster that has `n` clusters before it.
/// It says nothing where the items hold no more than `n` clusters.
pub open spec fn nth_cluster_place(items: Seq<GraphItemView>, n: nat) -> int
    decreases items.len(),
{
    if items.len() == 0 {
        0
    } else if cluster_count(items.drop_last()) > n {
        nth_cluster_place(items.drop_last(), n)
    } else {
        items.len() - 1
    }
}

impl DiGraphView {
    /// The graph with `cluster` in the place of the item at `place`.
    pub open spec fn with_cluster_at(self, place: int, cluster: ClusterView) -> DiGraphView {
        DiGraphView {
            style: self.style,
            items: self.items.update(place, GraphItemView::Cluster(cluster)),
            edges: self.edges,
        }
    }

    /// The document: a head line, the line that lets edges end at the borders
    /// of clusters, which is always there, one line for each attribute, ended
    /// by a semicolon, one indented line for each item and then one for each
    /// edge, and a closing brace on a line of its own.
    pub open spec fn dot_text(self) -> Seq<char> {
        "digraph G {"@ + "\ncompound=true;"@ + concat_wrapped(dot_texts(self.style), "\n"@, ";"@)
            + concat_wrapped(item_texts(self.items), "\n\t"@, ""@) + concat_wrapped(
            edge_texts(self.edges),
            "\n\t"@,
            ""@,
        ) + "\n}"@
    }

    /// Every identifier in the graph: those in its items, at every depth, then
    /// those that its edges name.
    pub open spec fn identifiers(self) -> Seq<Seq<char>> {
        items_identifiers(self.items) + edges_identifiers(self.edges)
    }

    /// The cluster that holds what the graph holds, under the name and with
    /// the style given: the items and edges as they are where no prefix is
    /// given, and each of them renamed with the prefix where one is.
    pub open spec fn as_cluster(
        self,
        new_name: Seq<char>,
        style: Seq<NodeStyleItemView>,
        prefix: Option<Seq<char>>,
    ) -> ClusterView {
        match prefix {
            None => ClusterView { id: new_name, style, items: self.items, edges: self.edges },
            Some(prefix) => ClusterView {
                id: new_name,
                style,
                items: renamed_items(self.items, prefix),
                edges: renamed_edges(self.edges, prefix),
            },
        }
    }
}

impl View for GraphVizDiGraph {
    type V = DiGraphView;

    open spec fn view(&self) -> DiGraphView {
        DiGraphView {
            style: self.style@,
            items: items_view(self.items@),
            edges: edges_view(self.edges@),
        }
    }
}

impl GraphVizDiGraph {
    /// A graph with the style given and nothing in it.
    pub fn new(style: GraphvizGraphStyle) -> (graph: GraphVizDiGraph)
        ensures
            graph.style == style,
            graph.items@ == Seq::<GraphVizGraphItem>::empty(),
            graph.edges@ == Seq::<GraphVizEdge>::empty(),
    {
        GraphVizDiGraph { style, items: Vec::new(), edges: Vec::new() }
    }

    /// The place among the items of the cluster that has `cluster_id`
    /// clusters before it, if there are that many clusters.
    fn specific_cluster_place(&self, cluster_id: usize) -> (res: Option<usize>)
        ensures
            res is Some <==> cluster_id < cluster_count(self@.items),
            res matches Some(place) ==> place == nth_cluster_place(self@.items, cluster_id as nat)
                && is_nth_cluster(self@.items, cluster_id as nat, place as int),
    {
        let mut seen: usize = 0;
        let mut i: usize = 0;
        while i < self.items.len()
            invariant
                0 <= i <= self.items.len(),
                seen == cluster_count(self@.items.take(i as int)),
                seen <= cluster_id,
                seen <= i,
            decreases self.items.len() - i,
        {
            proof {
                lemma_cluster_count_grows(self@.items, i + 1);
                assert(self@.items.take(i + 1).drop_last() == self@.items.take(i as int));
            }
            match &self.items[i] {
                GraphVizGraphItem::Cluster(_) => {
                    if seen == cluster_id {
                        proof {
                            lemma_nth_cluster_place(self@.items, cluster_id as nat);
                            lemma_nth_cluster_is_unique(
                                self@.items,
                                cluster_id as nat,
                                i as int,
                                nth_cluster_place(self@.items, cluster_id as nat),
                            );
                        }
                        return Some(i);
                    }
                    seen = seen + 1;
                },
                GraphVizGraphItem::Node(_) => {},
            }
            i = i + 1;
        }
        assert(self@.items.take(i as int) == self@.items);
        None
    }

    /// The cluster that was added to this graph after `cluster_id` other
    /// clusters, for adding to it, or `None` where the graph has no more than
    /// `cluster_id` clusters. Whatever the caller does to the cluster is done
    /// to that item of the graph; the rest of the graph stays as it is.
    pub fn get_specific_cluster(&mut self, cluster_id: usize) -> (res: Option<&mut GraphVizCluster>)
        ensures
            res is Some <==> cluster_id < cluster_count(old(self)@.items),
            res is None ==> *final(self) == *old(self),
            res matches Some(cluster) ==> old(self)@.items[nth_cluster_place(
                old(self)@.items,
                cluster_id as nat,
            )] == GraphItemView::Cluster(cluster@),
            res matches Some(cluster) ==> final(self)@ == old(self)@.with_cluster_at(
                nth_cluster_place(old(self)@.items, cluster_id as nat),
                final(cluster)@,
            ),
    {
        match self.specific_cluster_place(cluster_id) {
            Some(place) => {
                match &mut self.items[place] {
                    GraphVizGraphItem::Cluster(cluster) => Some(cluster),
                    GraphVizGraphItem::Node(_) => None,
                }
            },
            None => None,
        }
    }

    /// The content of this graph as a cluster, for use inside another graph.
    /// With a prefix, every identifier in the items and edges of the cluster
    /// begins with the prefix, so that the same graph can be used several
    /// times in one document; without one, the caller sees to it that the
    /// identifiers do not collide.
    pub fn as_cluster(
        &self,
        new_name: String,
        style: GraphvizNodeStyle,
        prefix: Option<String>,
    ) -> (cluster: GraphVizCluster)
        ensures
            cluster.id == new_name,
            cluster.style == style,
            cluster@ == self@.as_cluster(new_name@, node_style_view(style@), option_view(prefix)),
    {
        match prefix {
            None => {
                let new_items = boxed_copies(&self.items);
                let new_edges = self.edges.clone();
                assert(edges_view(new_edges@) =~= edges_view(self.edges@));
                GraphVizCluster::new(new_name, style, new_items, new_edges)
            },
            Some(prefix) => {
                let new_items = boxed_renamed_copies(&self.items, prefix.as_str());
                let new_edges = rename_edges(&self.edges, prefix.as_str());
                GraphVizCluster::new(new_name, style, new_items, new_edges)
            },
        }
    }
}

/// Copies the items of a graph, each into a box, as a cluster holds them.
fn boxed_copies(items: &Vec<GraphVizGraphItem>) -> (res: Vec<Box<GraphVizGraphItem>>)
    ensures
        boxed_items_view(res@) == items_view(items@),
{
    let mut res: Vec<Box<GraphVizGraphItem>> = Vec::new();
    let mut i: usize = 0;
    while i < items.len()
        invariant
            0 <= i <= items.len(),
            boxed_items_view(res@) == items_view(items@).take(i as int),
        decreases items.len() - i,
    {
        let ghost before = boxed_items_view(res@);
        res.push(Box::new(items[i].clone()));
        assert(boxed_items_view(res@) =~= before.push(items[i as int]@));
        assert(items_view(items@).take(i + 1) =~= before.push(items[i as int]@));
        i = i + 1;
    }
    assert(items_view(items@).take(i as int) == items_view(items@));
    res
}

/// Renames the items of a graph with `prefix`, each into a box, as a cluster
/// holds them.
fn boxed_renamed_copies(items: &Vec<GraphVizGraphItem>, prefix: &str) -> (res: Vec<
    Box<GraphVizGraphItem>,
>)
    ensures
        boxed_items_view(res@) == renamed_items(items_view(items@), prefix@),
{
    let mut res: Vec<Box<GraphVizGraphItem>> = Vec::new();
    let mut i: usize = 0;
    while i < items.len()
        invariant
            0 <= i <= items.len(),
            boxed_items_view(res@) == renamed_items(items_view(items@), prefix@).take(i as int),
        decreases items.len() - i,
    {
        let ghost before = boxed_items_view(res@);
        res.push(Box::new(items[i].rename_with_prefix(prefix)));
        assert(boxed_items_view(res@) =~= before.push(items[i as int]@.renamed(prefix@)));
        assert(renamed_items(items_view(items@), prefix@).take(i + 1) =~= before.push(
            items[i as int]@.renamed(prefix@),
        ));
        i = i + 1;
    }
    assert(renamed_items(items_view(items@), prefix@).take(i as int) == renamed_items(
        items_view(items@),
        prefix@,
    ));
    res
}

/// Every document begins with the head line and the line that lets edges end
/// at the borders of clusters, whatever the graph holds, and ends with the
/// closing brace on a line of its own.
pub proof fn lemma_digraph_text_is_framed(graph: DiGraphView)
    ensures
        ("digraph G {"@ + "\ncompound=true;"@).is_prefix_of(graph.dot_text()),
        "\n}"@.is_suffix_of(graph.dot_text()),
{
    let head = "digraph G {"@ + "\ncompound=true;"@;
    let body = concat_wrapped(dot_texts(graph.style), "\n"@, ";"@) + concat_wrapped(
        item_texts(graph.items),
        "\n\t"@,
        ""@,
    ) + concat_wrapped(edge_texts(graph.edges), "\n\t"@, ""@);
    let text = graph.dot_text();
    assert(text =~= head + body + "\n}"@);
    assert(head =~= text.subrange(0, head.len() as int));
    assert("\n}"@ =~= text.subrange(text.len() - "\n}"@.len(), text.len() as int));
}

/// Among the first `n` items there are no more clusters than among all.
pub proof fn lemma_cluster_count_grows(items: Seq<GraphItemView>, n: int)
    requires
        0 <= n <= items.len(),
    ensures
        cluster_count(items.take(n)) <= cluster_count(items),
    decreases items.len(),
{
    if n == items.len() {
        assert(items.take(n) == items);
    } else {
        lemma_cluster_count_grows(items.drop_last(), n);
        assert(items.drop_last().take(n) == items.take(n));
    }
}

/// Where the items hold more than `n` clusters, the item at the place that
/// `nth_cluster_place` gives is the cluster with `n` clusters before it.
pub proof fn lemma_nth_cluster_place(items: Seq<GraphItemView>, n: nat)
    requires
        n < cluster_count(items),
    ensures
        is_nth_cluster(items, n, nth_cluster_place(items, n)),
    decreases items.len(),
{
    if cluster_count(items.drop_last()) > n {
        lemma_nth_cluster_place(items.drop_last(), n);
        let place = nth_cluster_place(items.drop_last(), n);
        assert(items.drop_last().take(place) == items.take(place));
    } else {
        assert(items.take(items.len() - 1) == items.drop_last());
    }
}

/// At most one item is the cluster with `n` clusters before it.
pub proof fn lemma_nth_cluster_is_unique(items: Seq<GraphItemView>, n: nat, i: int, j: int)
    requires
        is_nth_cluster(items, n, i),
        is_nth_cluster(items, n, j),
    ensures
        i == j,
{
    if i < j {
        lemma_counts_cluster_before(items, i, j);
    } else if j < i {
        lemma_counts_cluster_before(items, j, i);
    }
}

/// A cluster at place `i` is counted among the first `j` items where `i < j`.
proof fn lemma_counts_cluster_before(items: Seq<GraphItemView>, i: int, j: int)
    requires
        0 <= i < j <= items.len(),
        items[i] is Cluster,
    ensures
        cluster_count(items.take(i)) < cluster_count(items.take(j)),
{
    let upto = items.take(i + 1);
    assert(upto.drop_last() == items.take(i));
    assert(upto.last() == items[i]);
    lemma_cluster_count_grows(items.take(j), i + 1);
    assert(items.take(j).take(i + 1) == upto);
}

/// A graph made a cluster without a prefix keeps its items and edges, so
/// that each of them is written in the cluster as it is in the graph.
pub proof fn lemma_as_cluster_without_prefix(
    graph: DiGraphView,
    new_name: Seq<char>,
    style: Seq<NodeStyleItemView>,
)
    ensures
        graph.as_cluster(new_name, style, None).items == graph.items,
        graph.as_cluster(new_name, style, None).edges == graph.edges,
        item_texts(graph.as_cluster(new_name, style, None).items) == item_texts(graph.items),
        edge_texts(graph.as_cluster(new_name, style, None).edges) == edge_texts(graph.edges),
{
}

/// A graph made a cluster with a prefix has every identifier of its items and
/// edges prefixed: the identifiers in the cluster are the new name and then,
/// for each identifier in the graph and at the same place, the prefix
/// followed by that identifier.
pub proof fn lemma_as_cluster_with_prefix(
    graph: DiGraphView,
    new_name: Seq<char>,
    style: Seq<NodeStyleItemView>,
    prefix: Seq<char>,
)
    ensures
        graph.as_cluster(new_name, style, Some(prefix)).identifiers() == seq![new_name]
            + prefixed_all(graph.identifiers(), prefix),
{
    lemma_renamed_items_identifiers(graph.items, prefix);
    lemma_renamed_edges_identifiers(graph.edges, prefix);
    lemma_prefixed_all_add(items_identifiers(graph.items), edges_identifiers(graph.edges), prefix);
    assert(graph.as_cluster(new_name, style, Some(prefix)).identifiers() =~= seq![new_name]
        + prefixed_all(graph.identifiers(), prefix));
}

/// Two graphs made clusters with prefixes of which neither begins with the
/// other have no identifier in common, the names of the two clusters apart:
/// each prefix makes a space of names of its own.
pub proof fn lemma_as_cluster_with_apart_prefixes(
    a: DiGraphView,
    a_name: Seq<char>,
    a_style: Seq<NodeStyleItemView>,
    p: Seq<char>,
    b: DiGraphView,
    b_name: Seq<char>,
    b_style: Seq<NodeStyleItemView>,
    q: Seq<char>,
)
    requires
        !p.is_prefix_of(q),
        !q.is_prefix_of(p),
    ensures
        forall|i: int, j: int|
            #![trigger
                a.as_cluster(a_name, a_style, Some(p)).identifiers()[i],
                b.as_cluster(b_name, b_style, Some(q)).identifiers()[j]
            ]
            1 <= i < a.as_cluster(a_name, a_style, Some(p)).identifiers().len()
                && 1 <= j < b.as_cluster(b_name, b_style, Some(q)).identifiers().len()
                ==> a.as_cluster(a_name, a_style, Some(p)).identifiers()[i]
                != b.as_cluster(b_name, b_style, Some(q)).identifiers()[j],
{
    lemma_as_cluster_with_prefix(a, a_name, a_style, p);
    lemma_as_cluster_with_prefix(b, b_name, b_style, q);
    let in_a = a.as_cluster(a_name, a_style, Some(p)).identifiers();
    let in_b = b.as_cluster(b_name, b_style, Some(q)).identifiers();
    assert forall|i: int, j: int|
        #![trigger in_a[i], in_b[j]]
        1 <= i < in_a.len() && 1 <= j < in_b.len() implies in_a[i] != in_b[j] by {
        lemma_prefixes_never_meet(p, q, a.identifiers()[i - 1], b.identifiers()[j - 1]);
    }
}

} // verus!
