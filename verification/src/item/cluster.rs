//! A cluster: a named subgraph with a style, items and edges of its own.

use crate::edge::edge::{
    edge_texts, edges_identifiers, edges_same_shape, edges_view, lemma_renamed_edges_identifiers,
    lemma_renamed_edges_same_shape, lemma_renamed_edges_twice, rename_edges, renamed_edges,
    EdgeView, GraphVizEdge,
};
use crate::item::item::{
    boxed_items_view, item_identifier_lists, item_texts, items_identifiers, items_same_shape,
    lemma_renamed_items_identifiers, lemma_renamed_items_same_shape, lemma_renamed_items_twice,
    renamed_items, GraphItemView, GraphVizGraphItem,
};
use crate::item::node::style::{
    node_style_texts, node_style_view, GraphvizNodeStyle, NodeStyleItemView,
};
use crate::text::{
    append_wrapped, concat_wrapped, lemma_prefix_keeps_apart, lemma_prefixed_all_add,
    lemma_prefixes_never_meet, prefixed_all, views_of,
};
use crate::traits::{
    dot_texts, to_dot_strings, DotBuildable, DotTranslatable, RenameableWithPrefix,
};
use vstd::prelude::*;

verus! {

/// A subgraph that is drawn inside a border. Its items may be clusters too.
#[derive(PartialEq, Eq, Debug)]
pub struct GraphVizCluster {
    pub id: String,
    pub style: GraphvizNodeStyle,
    pub items: Vec<Box<GraphVizGraphItem>>,
    pub edges: Vec<GraphVizEdge>,
}

/// The model of a cluster.
#[verifier::ext_equal]
pub struct ClusterView {
    pub id: Seq<char>,
    pub style: Seq<NodeStyleItemView>,
    pub items: Seq<GraphItemView>,
    pub edges: Seq<EdgeView>,
}

impl ClusterView {
    /// The block of the cluster: a head line that names it, one line for each
    /// attribute, ended by a semicolon, one indented line for each item and
    /// then one for each edge, and a closing brace.
    pub open spec fn dot_text(self) -> Seq<char>
        decreases self,
    {
        "subgraph cluster_"@ + self.id + " {\n"@ + concat_wrapped(
            node_style_texts(self.style),
            ""@,
            ";\n"@,
        ) + concat_wrapped(item_texts(self.items), "\t"@, "\n"@) + concat_wrapped(
            edge_texts(self.edges),
            "\t"@,
            "\n"@,
        ) + "}"@
    }

    /// Every identifier in the cluster: its own, then those in its items, at
    /// every depth, then those that its edges name.
    pub open spec fn identifiers(self) -> Seq<Seq<char>>
        decreases self,
    {
        seq![self.id] + item_identifier_lists(self.items).flatten() + edges_identifiers(self.edges)
    }

    /// Whether the two clusters differ in identifiers at most: they have the
    /// same style, as many items, of the same kinds, styles and shapes at
    /// every depth, and as many edges, with the same styles and with clusters
    /// named at the same ends.
    pub open spec fn same_shape(self, other: ClusterView) -> bool
        decreases self,
    {
        &&& self.style == other.style
        &&& items_same_shape(self.items, other.items)
        &&& edges_same_shape(self.edges, other.edges)
    }

    /// The cluster with `prefix` before its own identifier and before every
    /// identifier in its items and edges, at every depth; styles as they were.
    pub open spec fn renamed(self, prefix: Seq<char>) -> ClusterView
        decreases self,
    {
        ClusterView {
            id: prefix + self.id,
            style: self.style,
            items: renamed_items(self.items, prefix),
            edges: renamed_edges(self.edges, prefix),
        }
    }
}

impl GraphVizCluster {
    /// The model of this cluster, which `@` gives too.
    pub open spec fn model(&self) -> ClusterView
        decreases self,
    {
        ClusterView {
            id: self.id@,
            style: node_style_view(self.style@),
            items: boxed_items_view(self.items@),
            edges: edges_view(self.edges@),
        }
    }

    /// A cluster of the parts given.
    pub fn new(
        id: String,
        style: GraphvizNodeStyle,
        items: Vec<Box<GraphVizGraphItem>>,
        edges: Vec<GraphVizEdge>,
    ) -> (cluster: GraphVizCluster)
        ensures
            cluster.id == id,
            cluster.style == style,
            cluster.items == items,
            cluster.edges == edges,
    {
        GraphVizCluster { id, style, items, edges }
    }
}

impl View for GraphVizCluster {
    type V = ClusterView;

    open spec fn view(&self) -> ClusterView {
        self.model()
    }
}

/// Copies the items of a cluster.
fn clone_boxed_items(items: &Vec<Box<GraphVizGraphItem>>) -> (res: Vec<Box<GraphVizGraphItem>>)
    ensures
        boxed_items_view(res@) == boxed_items_view(items@),
    decreases items,
{
    let mut res: Vec<Box<GraphVizGraphItem>> = Vec::new();
    let mut i: usize = 0;
    while i < items.len()
        invariant
            0 <= i <= items.len(),
            boxed_items_view(res@) == boxed_items_view(items@).take(i as int),
        decreases items.len() - i,
    {
        let ghost before = boxed_items_view(res@);
        let item: &GraphVizGraphItem = &items[i];
        res.push(Box::new(item.clone()));
        assert(boxed_items_view(res@) =~= before.push(items[i as int].model()));
        assert(boxed_items_view(items@).take(i + 1) =~= before.push(items[i as int].model()));
        i = i + 1;
    }
    assert(boxed_items_view(items@).take(i as int) == boxed_items_view(items@));
    res
}

/// Writes each item of a cluster as DOT text, keeping the order.
fn boxed_items_to_dot_strings(items: &Vec<Box<GraphVizGraphItem>>) -> (texts: Vec<String>)
    ensures
        views_of(texts@) == item_texts(boxed_items_view(items@)),
    decreases items,
{
    let mut texts: Vec<String> = Vec::new();
    let mut i: usize = 0;
    while i < items.len()
        invariant
            0 <= i <= items.len(),
            views_of(texts@) == item_texts(boxed_items_view(items@)).take(i as int),
        decreases items.len() - i,
    {
        let ghost before = views_of(texts@);
        let item: &GraphVizGraphItem = &items[i];
        texts.push(item.to_dot_string());
        assert(views_of(texts@) =~= before.push(items[i as int].model().dot_text()));
        assert(item_texts(boxed_items_view(items@)).take(i + 1) =~= before.push(
            items[i as int].model().dot_text(),
        ));
        i = i + 1;
    }
    assert(item_texts(boxed_items_view(items@)).take(i as int) == item_texts(
        boxed_items_view(items@),
    ));
    texts
}

/// Renames each item of a cluster with `prefix`, keeping the order.
fn rename_boxed_items(items: &Vec<Box<GraphVizGraphItem>>, prefix: &str) -> (res: Vec<
    Box<GraphVizGraphItem>,
>)
    ensures
        boxed_items_view(res@) == renamed_items(boxed_items_view(items@), prefix@),
    decreases items,
{
    let mut res: Vec<Box<GraphVizGraphItem>> = Vec::new();
    let mut i: usize = 0;
    while i < items.len()
        invariant
            0 <= i <= items.len(),
            boxed_items_view(res@) == renamed_items(boxed_items_view(items@), prefix@).take(
                i as int,
            ),
        decreases items.len() - i,
    {
        let ghost before = boxed_items_view(res@);
        let item: &GraphVizGraphItem = &items[i];
        res.push(Box::new(item.rename_with_prefix(prefix)));
        assert(boxed_items_view(res@) =~= before.push(items[i as int].model().renamed(prefix@)));
        assert(renamed_items(boxed_items_view(items@), prefix@).take(i + 1) =~= before.push(
            items[i as int].model().renamed(prefix@),
        ));
        i = i + 1;
    }
    assert(renamed_items(boxed_items_view(items@), prefix@).take(i as int) == renamed_items(
        boxed_items_view(items@),
        prefix@,
    ));
    res
}

impl Clone for GraphVizCluster {
    fn clone(&self) -> (res: Self)
        ensures
            res@ == self@,
        decreases self,
    {
        let style = self.style.clone();
        assert(node_style_view(style@) =~= node_style_view(self.style@));
        let edges = self.edges.clone();
        assert(edges_view(edges@) =~= edges_view(self.edges@));
        GraphVizCluster {
            id: self.id.clone(),
            style,
            items: clone_boxed_items(&self.items),
            edges,
        }
    }
}

impl DotTranslatable for GraphVizCluster {
    open spec fn dot_text(&self) -> Seq<char> {
        self@.dot_text()
    }

    fn to_dot_string(&self) -> (s: String)
        decreases self,
    {
        let mut res = String::from_str("subgraph cluster_");
        res.append(self.id.as_str());
        res.append(" {\n");
        let style = to_dot_strings(&self.style);
        assert(dot_texts(self.style@) =~= node_style_texts(self@.style));
        append_wrapped(&mut res, &style, "", ";\n");
        let items = boxed_items_to_dot_strings(&self.items);
        append_wrapped(&mut res, &items, "\t", "\n");
        let edges = to_dot_strings(&self.edges);
        assert(dot_texts(self.edges@) =~= edge_texts(self@.edges));
        append_wrapped(&mut res, &edges, "\t", "\n");
        res.append("}");
        res
    }
}

impl RenameableWithPrefix for GraphVizCluster {
    open spec fn prefixed(value: ClusterView, prefix: Seq<char>) -> ClusterView {
        value.renamed(prefix)
    }

    fn rename_with_prefix(&self, prefix: &str) -> (renamed: Self)
        decreases self,
    {
        let new_items = rename_boxed_items(&self.items, prefix);
        let new_edges = rename_edges(&self.edges, prefix);
        let mut id = String::from_str(prefix);
        id.append(self.id.as_str());
        let style = self.style.clone();
        assert(node_style_view(style@) =~= node_style_view(self.style@));
        GraphVizCluster::new(id, style, new_items, new_edges)
    }
}

impl DotBuildable for GraphVizCluster {
    open spec fn with_item(container: ClusterView, item: GraphItemView) -> ClusterView {
        ClusterView {
            id: container.id,
            style: container.style,
            items: container.items.push(item),
            edges: container.edges,
        }
    }

    open spec fn with_edge(container: ClusterView, edge: EdgeView) -> ClusterView {
        ClusterView {
            id: container.id,
            style: container.style,
            items: container.items,
            edges: container.edges.push(edge),
        }
    }

    fn add_item(&mut self, item: GraphVizGraphItem) {
        self.items.push(Box::new(item));
        assert(boxed_items_view(self.items@) =~= boxed_items_view(old(self).items@).push(item@));
    }

    fn add_edge(&mut self, edge: GraphVizEdge) {
        self.edges.push(edge);
        assert(edges_view(self.edges@) =~= edges_view(old(self).edges@).push(edge@));
    }
}

/// Renaming reaches every identifier: each identifier in the renamed cluster,
/// be it the cluster's own, that of a node or a cluster at any depth, or an
/// end or a cluster that an edge names, is the prefix followed by the
/// identifier that the cluster had at the same place, and there are as many.
pub proof fn lemma_renamed_cluster_identifiers(cluster: ClusterView, prefix: Seq<char>)
    ensures
        cluster.renamed(prefix).identifiers() == prefixed_all(cluster.identifiers(), prefix),
        forall|k: int|
            0 <= k < cluster.renamed(prefix).identifiers().len() ==> prefix.is_prefix_of(
                #[trigger] cluster.renamed(prefix).identifiers()[k],
            ),
    decreases cluster,
{
    assert forall|k: int| 0 <= k < cluster.identifiers().len() implies prefix.is_prefix_of(
        #[trigger] prefixed_all(cluster.identifiers(), prefix)[k],
    ) by {
        let id = cluster.identifiers()[k];
        assert((prefix + id).subrange(0, prefix.len() as int) =~= prefix);
    }
    lemma_renamed_items_identifiers(cluster.items, prefix);
    lemma_renamed_edges_identifiers(cluster.edges, prefix);
    lemma_prefixed_all_add(
        seq![cluster.id] + items_identifiers(cluster.items),
        edges_identifiers(cluster.edges),
        prefix,
    );
    lemma_prefixed_all_add(seq![cluster.id], items_identifiers(cluster.items), prefix);
    assert(prefixed_all(seq![cluster.id], prefix) =~= seq![prefix + cluster.id]);
}

/// Renaming moves names and what names them in step: two identifiers in the
/// renamed cluster are the same exactly where they were the same before. So
/// an edge still names the node or the cluster that it named, and names no
/// other.
pub proof fn lemma_renamed_cluster_keeps_references(cluster: ClusterView, prefix: Seq<char>)
    ensures
        forall|i: int, j: int|
            #![trigger cluster.renamed(prefix).identifiers()[i], cluster.renamed(prefix).identifiers()[j]]
            0 <= i < cluster.identifiers().len() && 0 <= j < cluster.identifiers().len() ==> (
            cluster.renamed(prefix).identifiers()[i] == cluster.renamed(prefix).identifiers()[j]
                <==> cluster.identifiers()[i] == cluster.identifiers()[j]),
{
    lemma_renamed_cluster_identifiers(cluster, prefix);
    let ids = cluster.identifiers();
    let renamed = prefixed_all(ids, prefix);
    assert forall|i: int, j: int|
        #![trigger renamed[i], renamed[j]]
        0 <= i < ids.len() && 0 <= j < ids.len() implies (renamed[i] == renamed[j] <==> ids[i]
        == ids[j]) by {
        if ids[i] != ids[j] {
            lemma_prefix_keeps_apart(prefix, ids[i], ids[j]);
        }
    }
}

/// Two clusters renamed with prefixes of which neither begins with the other
/// have no identifier in common.
pub proof fn lemma_renamed_clusters_share_no_identifier(
    a: ClusterView,
    p: Seq<char>,
    b: ClusterView,
    q: Seq<char>,
)
    requires
        !p.is_prefix_of(q),
        !q.is_prefix_of(p),
    ensures
        forall|i: int, j: int|
            #![trigger a.renamed(p).identifiers()[i], b.renamed(q).identifiers()[j]]
            0 <= i < a.identifiers().len() && 0 <= j < b.identifiers().len()
                ==> a.renamed(p).identifiers()[i] != b.renamed(q).identifiers()[j],
{
    lemma_renamed_cluster_identifiers(a, p);
    lemma_renamed_cluster_identifiers(b, q);
    let in_a = prefixed_all(a.identifiers(), p);
    let in_b = prefixed_all(b.identifiers(), q);
    assert forall|i: int, j: int|
        #![trigger in_a[i], in_b[j]]
        0 <= i < in_a.len() && 0 <= j < in_b.len() implies in_a[i] != in_b[j] by {
        lemma_prefixes_never_meet(p, q, a.identifiers()[i], b.identifiers()[j]);
    }
}

/// Renaming twice is renaming once, with the later prefix before the earlier:
/// each renaming puts its prefix at the very front of every identifier.
pub proof fn lemma_renamed_cluster_twice(cluster: ClusterView, first: Seq<char>, second: Seq<char>)
    ensures
        cluster.renamed(first).renamed(second) == cluster.renamed(second + first),
    decreases cluster,
{
    lemma_renamed_items_twice(cluster.items, first, second);
    lemma_renamed_edges_twice(cluster.edges, first, second);
    assert(second + (first + cluster.id) =~= (second + first) + cluster.id);
}

/// Renaming changes identifiers and nothing else: the renamed cluster has the
/// style that the cluster had, as many items and as many edges, and the same
/// shape at every depth.
pub proof fn lemma_renamed_cluster_same_shape(cluster: ClusterView, prefix: Seq<char>)
    ensures
        cluster.renamed(prefix).style == cluster.style,
        cluster.renamed(prefix).items.len() == cluster.items.len(),
        cluster.renamed(prefix).edges.len() == cluster.edges.len(),
        cluster.same_shape(cluster.renamed(prefix)),
    decreases cluster,
{
    lemma_renamed_items_same_shape(cluster.items, prefix);
    lemma_renamed_edges_same_shape(cluster.edges, prefix);
}

} // verus!
