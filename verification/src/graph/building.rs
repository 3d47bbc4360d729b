//! Writing a directed graph out, and adding to it.

use crate::edge::edge::{edge_texts, edges_view, EdgeView, GraphVizEdge};
use crate::graph::graph::{DiGraphView, GraphVizDiGraph};
use crate::item::item::{item_texts, items_view, GraphItemView, GraphVizGraphItem};
use crate::text::append_wrapped;
use crate::traits::{dot_texts, to_dot_strings, DotBuildable, DotTranslatable};
use vstd::prelude::*;

verus! {

impl DotTranslatable for GraphVizDiGraph {
    open spec fn dot_text(&self) -> Seq<char> {
        self@.dot_text()
    }

    fn to_dot_string(&self) -> (s: String) {
        let mut res = String::new();
        res.append("digraph G {");
        res.append("\ncompound=true;");
        let style = to_dot_strings(&self.style);
        append_wrapped(&mut res, &style, "\n", ";");
        let items = to_dot_strings(&self.items);
        assert(dot_texts(self.items@) =~= item_texts(self@.items));
        append_wrapped(&mut res, &items, "\n\t", "");
        let edges = to_dot_strings(&self.edges);
        assert(dot_texts(self.edges@) =~= edge_texts(self@.edges));
        append_wrapped(&mut res, &edges, "\n\t", "");
        res.append("\n}");
        assert(res@ =~= self@.dot_text());
        res
    }
}

impl DotBuildable for GraphVizDiGraph {
    open spec fn with_item(container: DiGraphView, item: GraphItemView) -> DiGraphView {
        DiGraphView {
            style: container.style,
            items: container.items.push(item),
            edges: container.edges,
        }
    }

    open spec fn with_edge(container: DiGraphView, edge: EdgeView) -> DiGraphView {
        DiGraphView {
            style: container.style,
            items: container.items,
            edges: container.edges.push(edge),
        }
    }

    fn add_item(&mut self, item: GraphVizGraphItem) {
        self.items.push(item);
        assert(items_view(self.items@) =~= items_view(old(self).items@).push(item@));
    }

    fn add_edge(&mut self, edge: GraphVizEdge) {
        self.edges.push(edge);
        assert(edges_view(self.edges@) =~= edges_view(old(self).edges@).push(edge@));
    }
}

} // verus!
