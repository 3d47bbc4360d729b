//! An edge: a directed connection between two identifiers, which may be cut
//! off at the borders of the clusters that its ends lie in.

use crate::edge::style::{
    edge_style_texts, edge_style_view, EdgeStyleItemView, GraphvizEdgeStyle,
};
use crate::text::{
    join, join_strings, lemma_prefixed_all_flatten, option_view, prefixed_all, views_of,
};
use crate::traits::{dot_texts, to_dot_strings, DotTranslatable};
use vstd::prelude::*;

verus! {

/// A directed edge. Where a cluster is given for an end, the edge is drawn up
/// to the border of that cluster and not up to the node.
#[derive(PartialEq, Eq, Debug)]
pub struct GraphVizEdge {
    pub origin_node_id: String,
    pub origin_cluster: Option<String>,
    pub target_node_id: String,
    pub target_cluster: Option<String>,
    pub style: GraphvizEdgeStyle,
}

/// The model of an edge.
#[verifier::ext_equal]
pub struct EdgeView {
    pub origin_node_id: Seq<char>,
    pub origin_cluster: Option<Seq<char>>,
    pub target_node_id: Seq<char>,
    pub target_cluster: Option<Seq<char>>,
    pub style: Seq<EdgeStyleItemView>,
}

/// The attribute that cuts an edge off at the border of the cluster that it
/// starts in.
pub open spec fn ltail_text(cluster_id: Seq<char>) -> Seq<char> {
    "ltail=cluster_"@ + cluster_id
}

/// The attribute that cuts an edge off at the border of the cluster that it
/// ends in.
pub open spec fn lhead_text(cluster_id: Seq<char>) -> Seq<char> {
    "lhead=cluster_"@ + cluster_id
}

/// `prefix` before the identifier, where there is one.
pub open spec fn prefixed_option(id: Option<Seq<char>>, prefix: Seq<char>) -> Option<Seq<char>> {
    match id {
        Some(id) => Some(prefix + id),
        None => None,
    }
}

impl EdgeView {
    /// The attributes that name clusters: the one for the origin, if the
    /// origin has a cluster, and then the one for the target, if it has one.
    pub open spec fn cluster_attributes(self) -> Seq<Seq<char>> {
        let tail = match self.origin_cluster {
            Some(cluster_id) => seq![ltail_text(cluster_id)],
            None => Seq::empty(),
        };
        let head = match self.target_cluster {
            Some(cluster_id) => seq![lhead_text(cluster_id)],
            None => Seq::empty(),
        };
        tail + head
    }

    /// All that goes between the square brackets: the attributes of the style
    /// in their order, and after them those that name clusters.
    pub open spec fn attributes(self) -> Seq<Seq<char>> {
        edge_style_texts(self.style) + self.cluster_attributes()
    }

    /// The line of the edge: origin, arrow and target, then the attributes
    /// between square brackets and with commas between them, where there are
    /// any, then a semicolon.
    pub open spec fn dot_text(self) -> Seq<char> {
        if self.attributes().len() == 0 {
            self.origin_node_id + "->"@ + self.target_node_id + ";"@
        } else {
            self.origin_node_id + "->"@ + self.target_node_id + " ["@ + join(
                self.attributes(),
                ","@,
            ) + "];"@
        }
    }

    /// The edge with `prefix` before the identifiers of both ends and of the
    /// clusters that it names, and its style as it was.
    pub open spec fn renamed(self, prefix: Seq<char>) -> EdgeView {
        EdgeView {
            origin_node_id: prefix + self.origin_node_id,
            origin_cluster: prefixed_option(self.origin_cluster, prefix),
            target_node_id: prefix + self.target_node_id,
            target_cluster: prefixed_option(self.target_cluster, prefix),
            style: self.style,
        }
    }

    /// Whether the two edges differ in identifiers at most: they have the same
    /// style and name a cluster at the same ends.
    pub open spec fn same_shape(self, other: EdgeView) -> bool {
        &&& self.style == other.style
        &&& self.origin_cluster is Some <==> other.origin_cluster is Some
        &&& self.target_cluster is Some <==> other.target_cluster is Some
    }

    /// The identifiers that the edge names: origin, cluster of the origin,
    /// target, cluster of the target, leaving out the clusters it has not.
    pub open spec fn identifiers(self) -> Seq<Seq<char>> {
        let origin_cluster = match self.origin_cluster {
            Some(cluster_id) => seq![cluster_id],
            None => Seq::empty(),
        };
        let target_cluster = match self.target_cluster {
            Some(cluster_id) => seq![cluster_id],
            None => Seq::empty(),
        };
        seq![self.origin_node_id] + origin_cluster + seq![self.target_node_id] + target_cluster
    }
}

/// The models of the edges, in order.
pub open spec fn edges_view(edges: Seq<GraphVizEdge>) -> Seq<EdgeView> {
    Seq::new(edges.len(), |i: int| edges[i]@)
}

/// The lines of the edges, in order.
pub open spec fn edge_texts(edges: Seq<EdgeView>) -> Seq<Seq<char>> {
    Seq::new(edges.len(), |i: int| edges[i].dot_text())
}

/// The edges, each renamed with `prefix`.
pub open spec fn renamed_edges(edges: Seq<EdgeView>, prefix: Seq<char>) -> Seq<EdgeView> {
    Seq::new(edges.len(), |i: int| edges[i].renamed(prefix))
}

/// For each edge, in order, the identifiers that it names.
pub open spec fn edge_identifier_lists(edges: Seq<EdgeView>) -> Seq<Seq<Seq<char>>> {
    Seq::new(edges.len(), |i: int| edges[i].identifiers())
}

/// The identifiers that the edges name, edge by edge.
pub open spec fn edges_identifiers(edges: Seq<EdgeView>) -> Seq<Seq<char>> {
    edge_identifier_lists(edges).flatten()
}

/// Whether there are as many edges on both sides and each has the shape of
/// the one at its place on the other side.
pub open spec fn edges_same_shape(a: Seq<EdgeView>, b: Seq<EdgeView>) -> bool {
    &&& a.len() == b.len()
    &&& forall|i: int| 0 <= i < a.len() ==> (#[trigger] a[i]).same_shape(b[i])
}

impl View for GraphVizEdge {
    type V = EdgeView;

    open spec fn view(&self) -> EdgeView {
        EdgeView {
            origin_node_id: self.origin_node_id@,
            origin_cluster: option_view(self.origin_cluster),
            target_node_id: self.target_node_id@,
            target_cluster: option_view(self.target_cluster),
            style: edge_style_view(self.style@),
        }
    }
}

/// `prefix` and then `id`, as one new string.
fn prefixed_string(prefix: &str, id: &String) -> (res: String)
    ensures
        res@ == prefix@ + id@,
{
    let mut res = String::from_str(prefix);
    res.append(id.as_str());
    res
}

impl GraphVizEdge {
    /// An edge of the parts given.
    pub fn new(
        origin_node_id: String,
        origin_cluster: Option<String>,
        target_node_id: String,
        target_cluster: Option<String>,
        style: GraphvizEdgeStyle,
    ) -> (edge: GraphVizEdge)
        ensures
            edge.origin_node_id == origin_node_id,
            edge.origin_cluster == origin_cluster,
            edge.target_node_id == target_node_id,
            edge.target_cluster == target_cluster,
            edge.style == style,
    {
        GraphVizEdge { origin_node_id, origin_cluster, target_node_id, target_cluster, style }
    }

    /// A copy of this edge in which the identifiers of both ends, and of the
    /// clusters that it names, begin with `prefix` and go on as they were.
    pub fn rename_with_prefix(&self, prefix: &str) -> (renamed: Self)
        ensures
            renamed@ == self@.renamed(prefix@),
    {
        let new_origin_id = prefixed_string(prefix, &self.origin_node_id);
        let new_origin_cluster = match &self.origin_cluster {
            Some(cluster_id) => Some(prefixed_string(prefix, cluster_id)),
            None => None,
        };
        let new_target_id = prefixed_string(prefix, &self.target_node_id);
        let new_target_cluster = match &self.target_cluster {
            Some(cluster_id) => Some(prefixed_string(prefix, cluster_id)),
            None => None,
        };
        let style = self.style.clone();
        assert(edge_style_view(style@) =~= edge_style_view(self.style@));
        GraphVizEdge::new(
            new_origin_id,
            new_origin_cluster,
            new_target_id,
            new_target_cluster,
            style,
        )
    }
}

/// Renames each edge with `prefix`, keeping the order.
pub fn rename_edges(edges: &Vec<GraphVizEdge>, prefix: &str) -> (res: Vec<GraphVizEdge>)
    ensures
        edges_view(res@) == renamed_edges(edges_view(edges@), prefix@),
{
    let mut res: Vec<GraphVizEdge> = Vec::new();
    let mut i: usize = 0;
    while i < edges.len()
        invariant
            0 <= i <= edges.len(),
            edges_view(res@) == renamed_edges(edges_view(edges@), prefix@).take(i as int),
        decreases edges.len() - i,
    {
        let ghost before = edges_view(res@);
        res.push(edges[i].rename_with_prefix(prefix));
        assert(edges_view(res@) =~= before.push(edges[i as int]@.renamed(prefix@)));
        assert(renamed_edges(edges_view(edges@), prefix@).take(i + 1) =~= before.push(
            edges[i as int]@.renamed(prefix@),
        ));
        i = i + 1;
    }
    assert(renamed_edges(edges_view(edges@), prefix@).take(i as int) == renamed_edges(
        edges_view(edges@),
        prefix@,
    ));
    res
}

impl Clone for GraphVizEdge {
    fn clone(&self) -> (res: Self)
        ensures
            res@ == self@,
    {
        let style = self.style.clone();
        assert(edge_style_view(style@) =~= edge_style_view(self.style@));
        GraphVizEdge {
            origin_node_id: self.origin_node_id.clone(),
            origin_cluster: self.origin_cluster.clone(),
            target_node_id: self.target_node_id.clone(),
            target_cluster: self.target_cluster.clone(),
            style,
        }
    }
}

impl DotTranslatable for GraphVizEdge {
    open spec fn dot_text(&self) -> Seq<char> {
        self@.dot_text()
    }

    fn to_dot_string(&self) -> (s: String) {
        let mut style = to_dot_strings(&self.style);
        assert(dot_texts(self.style@) =~= edge_style_texts(self@.style));
        match &self.origin_cluster {
            None => {},
            Some(cluster_id) => {
                let ghost before = views_of(style@);
                style.push(prefixed_string("ltail=cluster_", cluster_id));
                assert(views_of(style@) =~= before.push(ltail_text(cluster_id@)));
            },
        }
        match &self.target_cluster {
            None => {},
            Some(cluster_id) => {
                let ghost before = views_of(style@);
                style.push(prefixed_string("lhead=cluster_", cluster_id));
                assert(views_of(style@) =~= before.push(lhead_text(cluster_id@)));
            },
        }
        assert(views_of(style@) =~= self@.attributes());
        let mut res = self.origin_node_id.clone();
        res.append("->");
        res.append(self.target_node_id.as_str());
        if style.len() == 0 {
            res.append(";");
        } else {
            res.append(" [");
            res.append(join_strings(&style, ",").as_str());
            res.append("];");
        }
        res
    }
}

/// An edge without attributes that names no cluster is written as origin,
/// arrow, target and a semicolon.
pub proof fn lemma_edge_text_plain(edge: EdgeView)
    requires
        edge.style.len() == 0,
        edge.origin_cluster is None,
        edge.target_cluster is None,
    ensures
        edge.dot_text() == edge.origin_node_id + "->"@ + edge.target_node_id + ";"@,
{
}

/// The attributes of an edge are those of its style and, after them, those
/// that name clusters. Where the origin has a cluster, exactly one of the
/// latter is the one that names it: the first.
pub proof fn lemma_edge_names_origin_cluster_once(edge: EdgeView)
    requires
        edge.origin_cluster is Some,
    ensures
        edge.attributes().skip(edge.style.len() as int) == edge.cluster_attributes(),
        edge.cluster_attributes().len() >= 1,
        edge.cluster_attributes()[0] == ltail_text(edge.origin_cluster->0),
        forall|i: int|
            1 <= i < edge.cluster_attributes().len() ==> edge.cluster_attributes()[i]
                != ltail_text(edge.origin_cluster->0),
{
    assert(edge.attributes().skip(edge.style.len() as int) =~= edge.cluster_attributes());
    if edge.target_cluster is Some {
        lemma_ltail_is_not_lhead(edge.origin_cluster->0, edge.target_cluster->0);
    }
}

/// The attributes of an edge are those of its style and, after them, those
/// that name clusters. Where the target has a cluster, exactly one of the
/// latter is the one that names it: the last.
pub proof fn lemma_edge_names_target_cluster_once(edge: EdgeView)
    requires
        edge.target_cluster is Some,
    ensures
        edge.attributes().skip(edge.style.len() as int) == edge.cluster_attributes(),
        edge.cluster_attributes().len() >= 1,
        edge.cluster_attributes().last() == lhead_text(edge.target_cluster->0),
        forall|i: int|
            0 <= i < edge.cluster_attributes().len() - 1 ==> edge.cluster_attributes()[i]
                != lhead_text(edge.target_cluster->0),
{
    assert(edge.attributes().skip(edge.style.len() as int) =~= edge.cluster_attributes());
    if edge.origin_cluster is Some {
        lemma_ltail_is_not_lhead(edge.origin_cluster->0, edge.target_cluster->0);
    }
}

/// Every identifier that a renamed edge names is the prefix followed by the
/// identifier that the edge named at the same place, and there are as many.
pub proof fn lemma_renamed_edge_identifiers(edge: EdgeView, prefix: Seq<char>)
    ensures
        edge.renamed(prefix).identifiers() == prefixed_all(edge.identifiers(), prefix),
{
    assert(edge.renamed(prefix).identifiers() =~= prefixed_all(edge.identifiers(), prefix));
}

/// Every identifier that renamed edges name is the prefix followed by the
/// identifier that the edges named at the same place, and there are as many.
pub proof fn lemma_renamed_edges_identifiers(edges: Seq<EdgeView>, prefix: Seq<char>)
    ensures
        edges_identifiers(renamed_edges(edges, prefix)) == prefixed_all(
            edges_identifiers(edges),
            prefix,
        ),
{
    let lists = edge_identifier_lists(edges);
    let prefixed_lists = edge_identifier_lists(renamed_edges(edges, prefix));
    assert forall|i: int| 0 <= i < lists.len() implies #[trigger] prefixed_lists[i]
        == prefixed_all(lists[i], prefix) by {
        lemma_renamed_edge_identifiers(edges[i], prefix);
    }
    lemma_prefixed_all_flatten(lists, prefixed_lists, prefix);
}

/// Renaming an edge twice is renaming it once, with the later prefix before
/// the earlier.
pub proof fn lemma_renamed_edge_twice(edge: EdgeView, first: Seq<char>, second: Seq<char>)
    ensures
        edge.renamed(first).renamed(second) == edge.renamed(second + first),
{
    assert(second + (first + edge.origin_node_id) =~= (second + first) + edge.origin_node_id);
    assert(second + (first + edge.target_node_id) =~= (second + first) + edge.target_node_id);
    if edge.origin_cluster is Some {
        let id = edge.origin_cluster->0;
        assert(second + (first + id) =~= (second + first) + id);
    }
    if edge.target_cluster is Some {
        let id = edge.target_cluster->0;
        assert(second + (first + id) =~= (second + first) + id);
    }
}

/// Renaming edges twice is renaming them once, with the later prefix before
/// the earlier.
pub proof fn lemma_renamed_edges_twice(edges: Seq<EdgeView>, first: Seq<char>, second: Seq<char>)
    ensures
        renamed_edges(renamed_edges(edges, first), second) == renamed_edges(edges, second + first),
{
    assert forall|i: int| 0 <= i < edges.len() implies #[trigger] renamed_edges(
        renamed_edges(edges, first),
        second,
    )[i] == renamed_edges(edges, second + first)[i] by {
        lemma_renamed_edge_twice(edges[i], first, second);
    }
    assert(renamed_edges(renamed_edges(edges, first), second) =~= renamed_edges(
        edges,
        second + first,
    ));
}

/// Renaming keeps the number of the edges, the style of each and the ends at
/// which each names a cluster.
pub proof fn lemma_renamed_edges_same_shape(edges: Seq<EdgeView>, prefix: Seq<char>)
    ensures
        edges_same_shape(edges, renamed_edges(edges, prefix)),
{
}

/// The two attributes that name clusters differ, whatever clusters they name.
pub proof fn lemma_ltail_is_not_lhead(origin_cluster: Seq<char>, target_cluster: Seq<char>)
    ensures
        ltail_text(origin_cluster) != lhead_text(target_cluster),
{
    reveal_strlit("ltail=cluster_");
    reveal_strlit("lhead=cluster_");
    assert(ltail_text(origin_cluster)[1] == 't');
    assert(lhead_text(target_cluster)[1] == 'h');
}

} // verus!
