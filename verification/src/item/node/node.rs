//! A node: an identifier and a style.

use crate::item::node::style::{
    node_style_texts, node_style_view, GraphvizNodeStyle, NodeStyleItemView,
};
use crate::text::{join, join_strings};
use crate::traits::{dot_texts, to_dot_strings, DotTranslatable, RenameableWithPrefix};
use vstd::prelude::*;

verus! {

/// A leaf of the graph.
#[derive(PartialEq, Eq, Debug)]
pub struct GraphVizNode {
    pub id: String,
    pub style: GraphvizNodeStyle,
}

/// The model of a node.
#[verifier::ext_equal]
pub struct NodeView {
    pub id: Seq<char>,
    pub style: Seq<NodeStyleItemView>,
}

impl NodeView {
    /// The line of the node: its identifier, then its attributes in order
    /// between square brackets and with commas between them, where it has any,
    /// then a semicolon.
    pub open spec fn dot_text(self) -> Seq<char> {
        if self.style.len() == 0 {
            self.id + ";"@
        } else {
            self.id + " ["@ + join(node_style_texts(self.style), ","@) + "];"@
        }
    }

    /// The node with `prefix` before its identifier and its style as it was.
    pub open spec fn renamed(self, prefix: Seq<char>) -> NodeView {
        NodeView { id: prefix + self.id, style: self.style }
    }
}

impl View for GraphVizNode {
    type V = NodeView;

    open spec fn view(&self) -> NodeView {
        NodeView { id: self.id@, style: node_style_view(self.style@) }
    }
}

impl GraphVizNode {
    /// A node of the parts given.
    pub fn new(id: String, style: GraphvizNodeStyle) -> (node: GraphVizNode)
        ensures
            node.id == id,
            node.style == style,
    {
        GraphVizNode { id, style }
    }
}

impl Clone for GraphVizNode {
    fn clone(&self) -> (res: Self)
        ensures
            res@ == self@,
    {
        let style = self.style.clone();
        assert(node_style_view(style@) =~= node_style_view(self.style@));
        GraphVizNode { id: self.id.clone(), style }
    }
}

impl DotTranslatable for GraphVizNode {
    open spec fn dot_text(&self) -> Seq<char> {
        self@.dot_text()
    }

    fn to_dot_string(&self) -> (s: String) {
        let style = to_dot_strings(&self.style);
        assert(dot_texts(self.style@) =~= node_style_texts(self@.style));
        let mut res = self.id.clone();
        if style.len() == 0 {
            res.append(";");
        } else {
            res.append(" [");
            res.append(join_strings(&style, ",").as_str());
            res.append("];");
        }
        res
    }
}

impl RenameableWithPrefix for GraphVizNode {
    open spec fn prefixed(value: NodeView, prefix: Seq<char>) -> NodeView {
        value.renamed(prefix)
    }

    fn rename_with_prefix(&self, prefix: &str) -> (renamed: Self) {
        let mut id = String::from_str(prefix);
        id.append(self.id.as_str());
        let style = self.style.clone();
        assert(node_style_view(style@) =~= node_style_view(self.style@));
        GraphVizNode::new(id, style)
    }
}

/// A node without attributes is written as its identifier and a semicolon.
pub proof fn lemma_node_text_without_style(node: NodeView)
    requires
        node.style.len() == 0,
    ensures
        node.dot_text() == node.id + ";"@,
{
}

/// A node with attributes is written as its identifier and, between square
/// brackets, the text of each attribute in the order of the style, with a
/// comma between each two.
pub proof fn lemma_node_text_with_style(node: NodeView)
    requires
        node.style.len() > 0,
    ensures
        node.dot_text() == node.id + " ["@ + join(node_style_texts(node.style), ","@) + "];"@,
        node_style_texts(node.style).len() == node.style.len(),
        forall|i: int|
            0 <= i < node.style.len() ==> #[trigger] node_style_texts(node.style)[i]
                == node.style[i].dot_text(),
{
}

} // verus!
