//! What the graph elements have in common: each is written as DOT text, the
//! structural ones can have their identifiers prefixed, and the containers
//! take items and edges.

use crate::edge::edge::{EdgeView, GraphVizEdge};
use crate::item::cluster::GraphVizCluster;
use crate::item::item::{GraphItemView, GraphVizGraphItem};
use crate::item::node::node::GraphVizNode;
use crate::text::views_of;
use vstd::prelude::*;

verus! {

/// The kind of image that the renderer is asked for.
#[allow(non_camel_case_types)]
#[derive(Clone, Copy, PartialEq, Eq, Debug, Hash)]
pub enum GraphVizOutputFormat {
    svg,
    png,
}

impl GraphVizOutputFormat {
    /// The name of the format, which is also the extension of its files.
    pub open spec fn name(&self) -> Seq<char> {
        match self {
            GraphVizOutputFormat::svg => "svg"@,
            GraphVizOutputFormat::png => "png"@,
        }
    }

    /// The argument that asks the renderer for this format: anti-aliased
    /// output for `svg`, a raster image for `png`.
    pub open spec fn renderer_argument(&self) -> Seq<char> {
        match self {
            GraphVizOutputFormat::svg => "-Tsvg:cairo"@,
            GraphVizOutputFormat::png => "-Tpng"@,
        }
    }

    /// The name of the format.
    pub fn to_string(&self) -> (s: String)
        ensures
            s@ == self.name(),
    {
        match self {
            GraphVizOutputFormat::svg => String::from_str("svg"),
            GraphVizOutputFormat::png => String::from_str("png"),
        }
    }

    /// The argument that asks the renderer for this format.
    pub fn command_format_argument(&self) -> (s: &'static str)
        ensures
            s@ == self.renderer_argument(),
    {
        match self {
            GraphVizOutputFormat::svg => "-Tsvg:cairo",
            GraphVizOutputFormat::png => "-Tpng",
        }
    }
}

/// A value that has a DOT fragment.
pub trait DotTranslatable {
    /// The DOT fragment of this value.
    spec fn dot_text(&self) -> Seq<char>;

    /// Writes this value as DOT text.
    fn to_dot_string(&self) -> (s: String)
        ensures
            s@ == self.dot_text(),
    ;
}

/// A value whose identifiers can all be given a prefix.
pub trait RenameableWithPrefix: View + Sized {
    /// The model `value` with `prefix` put before every identifier in it.
    spec fn prefixed(value: Self::V, prefix: Seq<char>) -> Self::V;

    /// A copy of this value in which every identifier begins with `prefix`
    /// and goes on as it was; nothing else differs.
    fn rename_with_prefix(&self, prefix: &str) -> (renamed: Self)
        ensures
            renamed@ == Self::prefixed(self@, prefix@),
    ;
}

/// A container that items and edges are added to, each after those that are
/// already there. Nothing is looked up or compared: an edge may name what the
/// container does not hold, and the same identifier may be added twice.
pub trait DotBuildable: View + Sized {
    /// The model `container` with `item` after its items.
    spec fn with_item(container: Self::V, item: GraphItemView) -> Self::V;

    /// The model `container` with `edge` after its edges.
    spec fn with_edge(container: Self::V, edge: EdgeView) -> Self::V;

    /// Puts `item` after the items of this container.
    fn add_item(&mut self, item: GraphVizGraphItem)
        ensures
            final(self)@ == Self::with_item(old(self)@, item@),
    ;

    /// Puts `edge` after the edges of this container.
    fn add_edge(&mut self, edge: GraphVizEdge)
        ensures
            final(self)@ == Self::with_edge(old(self)@, edge@),
    ;

    /// Puts `node` after the items of this container.
    fn add_node(&mut self, node: GraphVizNode)
        ensures
            final(self)@ == Self::with_item(old(self)@, GraphItemView::Node(node@)),
    {
        self.add_item(GraphVizGraphItem::Node(node));
    }

    /// Puts `cluster` after the items of this container.
    fn add_cluster(&mut self, cluster: GraphVizCluster)
        ensures
            final(self)@ == Self::with_item(old(self)@, GraphItemView::Cluster(cluster@)),
    {
        self.add_item(GraphVizGraphItem::Cluster(cluster));
    }
}

/// The DOT fragments of the values, in order.
pub open spec fn dot_texts<T: DotTranslatable>(items: Seq<T>) -> Seq<Seq<char>> {
    Seq::new(items.len(), |i: int| items[i].dot_text())
}

/// Writes each value as DOT text, keeping the order.
pub fn to_dot_strings<T: DotTranslatable>(items: &Vec<T>) -> (texts: Vec<String>)
    ensures
        views_of(texts@) == dot_texts(items@),
{
    let mut texts: Vec<String> = Vec::new();
    let mut i: usize = 0;
    while i < items.len()
        invariant
            0 <= i <= items.len(),
            views_of(texts@) == dot_texts(items@).take(i as int),
        decreases items.len() - i,
    {
        let ghost before = views_of(texts@);
        texts.push(items[i].to_dot_string());
        assert(views_of(texts@) =~= before.push(items[i as int].dot_text()));
        assert(dot_texts(items@).take(i + 1) =~= before.push(items[i as int].dot_text()));
        i = i + 1;
    }
    assert(dot_texts(items@).take(i as int) == dot_texts(items@));
    texts
}

} // verus!
