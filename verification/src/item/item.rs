//! An item of a graph or of a cluster: a node, or a cluster with items of
//! its own.

use crate::item::cluster::{
    lemma_renamed_cluster_identifiers, lemma_renamed_cluster_same_shape,
    lemma_renamed_cluster_twice, ClusterView, GraphVizCluster,
};
use crate::item::node::node::{GraphVizNode, NodeView};
use crate::text::{lemma_prefixed_all_flatten, prefixed_all};
use crate::traits::{DotTranslatable, RenameableWithPrefix};
use vstd::prelude::*;

verus! {

/// What a graph or a cluster holds.
#[derive(PartialEq, Eq, Debug)]
pub enum GraphVizGraphItem {
    Node(GraphVizNode),
    Cluster(GraphVizCluster),
}

/// The model of an item.
#[verifier::ext_equal]
pub enum GraphItemView {
    Node(NodeView),
    Cluster(ClusterView),
}

impl GraphItemView {
    /// The text of the node or of the cluster.
    pub open spec fn dot_text(self) -> Seq<char>
        decreases self,
    {
        match self {
            GraphItemView::Node(node) => node.dot_text(),
            GraphItemView::Cluster(cluster) => cluster.dot_text(),
        }
    }

    /// The identifiers in the item: that of the node, or all those in the
    /// cluster.
    pub open spec fn identifiers(self) -> Seq<Seq<char>>
        decreases self,
    {
        match self {
            GraphItemView::Node(node) => seq![node.id],
            GraphItemView::Cluster(cluster) => cluster.identifiers(),
        }
    }

    /// Whether the two items differ in identifiers at most: both are nodes
    /// with the same style, or both are clusters of the same shape.
    pub open spec fn same_shape(self, other: GraphItemView) -> bool
        decreases self,
    {
        match self {
            GraphItemView::Node(node) => other matches GraphItemView::Node(other_node)
                && node.style == other_node.style,
            GraphItemView::Cluster(cluster) => other matches GraphItemView::Cluster(other_cluster)
                && cluster.same_shape(other_cluster),
        }
    }

    /// The node or the cluster, renamed with `prefix`.
    pub open spec fn renamed(self, prefix: Seq<char>) -> GraphItemView
        decreases self,
    {
        match self {
            GraphItemView::Node(node) => GraphItemView::Node(node.renamed(prefix)),
            GraphItemView::Cluster(cluster) => GraphItemView::Cluster(cluster.renamed(prefix)),
        }
    }
}

/// The texts of the items, in order.
pub open spec fn item_texts(items: Seq<GraphItemView>) -> Seq<Seq<char>>
    decreases items,
{
    Seq::new(
        items.len(),
        |i: int|
            if 0 <= i < items.len() {
                items[i].dot_text()
            } else {
                Seq::empty()
            },
    )
}

/// The items, each renamed with `prefix`.
pub open spec fn renamed_items(items: Seq<GraphItemView>, prefix: Seq<char>) -> Seq<GraphItemView>
    decreases items,
{
    Seq::new(
        items.len(),
        |i: int|
            if 0 <= i < items.len() {
                items[i].renamed(prefix)
            } else {
                arbitrary()
            },
    )
}

/// For each item, in order, the identifiers in it.
pub open spec fn item_identifier_lists(items: Seq<GraphItemView>) -> Seq<Seq<Seq<char>>>
    decreases items,
{
    Seq::new(
        items.len(),
        |i: int|
            if 0 <= i < items.len() {
                items[i].identifiers()
            } else {
                Seq::empty()
            },
    )
}

/// The identifiers in the items, item by item.
pub open spec fn items_identifiers(items: Seq<GraphItemView>) -> Seq<Seq<char>> {
    item_identifier_lists(items).flatten()
}

/// Whether there are as many items on both sides and each has the shape of
/// the one at its place on the other side.
pub open spec fn items_same_shape(a: Seq<GraphItemView>, b: Seq<GraphItemView>) -> bool
    decreases a,
{
    &&& a.len() == b.len()
    &&& forall|i: int| 0 <= i < a.len() ==> (#[trigger] a[i]).same_shape(b[i])
}

impl GraphVizGraphItem {
    /// The model of this item, which `@` gives too.
    pub open spec fn model(&self) -> GraphItemView
        decreases self,
    {
        match self {
            GraphVizGraphItem::Node(node) => GraphItemView::Node(node@),
            GraphVizGraphItem::Cluster(cluster) => GraphItemView::Cluster(cluster.model()),
        }
    }
}

/// The models of the items, in order.
pub open spec fn items_view(items: Seq<GraphVizGraphItem>) -> Seq<GraphItemView> {
    Seq::new(items.len(), |i: int| items[i].model())
}

/// The models of the items of a cluster, in order.
pub open spec fn boxed_items_view(items: Seq<Box<GraphVizGraphItem>>) -> Seq<GraphItemView>
    decreases items,
{
    Seq::new(
        items.len(),
        |i: int|
            if 0 <= i < items.len() {
                items[i].model()
            } else {
                arbitrary()
            },
    )
}

impl View for GraphVizGraphItem {
    type V = GraphItemView;

    open spec fn view(&self) -> GraphItemView {
        self.model()
    }
}

impl Clone for GraphVizGraphItem {
    fn clone(&self) -> (res: Self)
        ensures
            res@ == self@,
        decreases self,
    {
        match self {
            GraphVizGraphItem::Cluster(cluster) => GraphVizGraphItem::Cluster(cluster.clone()),
            GraphVizGraphItem::Node(node) => GraphVizGraphItem::Node(node.clone()),
        }
    }
}

impl DotTranslatable for GraphVizGraphItem {
    open spec fn dot_text(&self) -> Seq<char> {
        self@.dot_text()
    }

    fn to_dot_string(&self) -> (s: String)
        decreases self,
    {
        match self {
            GraphVizGraphItem::Cluster(cluster) => cluster.to_dot_string(),
            GraphVizGraphItem::Node(node) => node.to_dot_string(),
        }
    }
}

impl RenameableWithPrefix for GraphVizGraphItem {
    open spec fn prefixed(value: GraphItemView, prefix: Seq<char>) -> GraphItemView {
        value.renamed(prefix)
    }

    fn rename_with_prefix(&self, prefix: &str) -> (renamed: Self)
        decreases self,
    {
        match self {
            GraphVizGraphItem::Cluster(cluster) => GraphVizGraphItem::Cluster(
                cluster.rename_with_prefix(prefix),
            ),
            GraphVizGraphItem::Node(node) => GraphVizGraphItem::Node(
                node.rename_with_prefix(prefix),
            ),
        }
    }
}

/// Every identifier in a renamed item is the prefix followed by the
/// identifier that the item had at the same place, and there are as many.
pub proof fn lemma_renamed_item_identifiers(item: GraphItemView, prefix: Seq<char>)
    ensures
        item.renamed(prefix).identifiers() == prefixed_all(item.identifiers(), prefix),
    decreases item,
{
    match item {
        GraphItemView::Node(node) => {
            assert(item.renamed(prefix).identifiers() =~= prefixed_all(
                item.identifiers(),
                prefix,
            ));
        },
        GraphItemView::Cluster(cluster) => {
            lemma_renamed_cluster_identifiers(cluster, prefix);
        },
    }
}

/// Every identifier in renamed items is the prefix followed by the identifier
/// that the items had at the same place, and there are as many.
pub proof fn lemma_renamed_items_identifiers(items: Seq<GraphItemView>, prefix: Seq<char>)
    ensures
        items_identifiers(renamed_items(items, prefix)) == prefixed_all(
            items_identifiers(items),
            prefix,
        ),
    decreases items,
{
    let lists = item_identifier_lists(items);
    let prefixed_lists = item_identifier_lists(renamed_items(items, prefix));
    assert forall|i: int| 0 <= i < lists.len() implies #[trigger] prefixed_lists[i]
        == prefixed_all(lists[i], prefix) by {
        lemma_renamed_item_identifiers(items[i], prefix);
    }
    lemma_prefixed_all_flatten(lists, prefixed_lists, prefix);
}

/// Renaming an item twice is renaming it once, with the later prefix before
/// the earlier.
pub proof fn lemma_renamed_item_twice(item: GraphItemView, first: Seq<char>, second: Seq<char>)
    ensures
        item.renamed(first).renamed(second) == item.renamed(second + first),
    decreases item,
{
    match item {
        GraphItemView::Node(node) => {
            assert(second + (first + node.id) =~= (second + first) + node.id);
        },
        GraphItemView::Cluster(cluster) => {
            lemma_renamed_cluster_twice(cluster, first, second);
        },
    }
}

/// Renaming items twice is renaming them once, with the later prefix before
/// the earlier.
pub proof fn lemma_renamed_items_twice(
    items: Seq<GraphItemView>,
    first: Seq<char>,
    second: Seq<char>,
)
    ensures
        renamed_items(renamed_items(items, first), second) == renamed_items(items, second + first),
    decreases items,
{
    assert forall|i: int| 0 <= i < items.len() implies #[trigger] renamed_items(
        renamed_items(items, first),
        second,
    )[i] == renamed_items(items, second + first)[i] by {
        lemma_renamed_item_twice(items[i], first, second);
    }
    assert(renamed_items(renamed_items(items, first), second) =~= renamed_items(
        items,
        second + first,
    ));
}

/// Renaming keeps the kind of an item, its style, and the shape of all that
/// it holds.
pub proof fn lemma_renamed_item_same_shape(item: GraphItemView, prefix: Seq<char>)
    ensures
        item.same_shape(item.renamed(prefix)),
    decreases item,
{
    match item {
        GraphItemView::Node(node) => {},
        GraphItemView::Cluster(cluster) => {
            lemma_renamed_cluster_same_shape(cluster, prefix);
        },
    }
}

/// Renaming keeps the number of the items and the shape of each.
pub proof fn lemma_renamed_items_same_shape(items: Seq<GraphItemView>, prefix: Seq<char>)
    ensures
        items_same_shape(items, renamed_items(items, prefix)),
    decreases items,
{
    assert forall|i: int| 0 <= i < items.len() implies (#[trigger] items[i]).same_shape(
        renamed_items(items, prefix)[i],
    ) by {
        lemma_renamed_item_same_shape(items[i], prefix);
    }
}

} // verus!
