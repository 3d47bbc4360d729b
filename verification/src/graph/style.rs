//! The style attributes of the graph as a whole.

use crate::text::{bool_str, bool_text, decimal, u32_to_decimal};
use crate::traits::DotTranslatable;
use vstd::prelude::*;

verus! {

/// The direction in which the ranks of the graph follow each other.
#[derive(Clone, Copy, PartialEq, Eq, Debug)]
pub enum GvGraphRankDir {
    TB,
    BT,
    LR,
    RL,
}

impl DotTranslatable for GvGraphRankDir {
    /// The name of the variant in lower case.
    open spec fn dot_text(&self) -> Seq<char> {
        match self {
            GvGraphRankDir::TB => "tb"@,
            GvGraphRankDir::BT => "bt"@,
            GvGraphRankDir::LR => "lr"@,
            GvGraphRankDir::RL => "rl"@,
        }
    }

    fn to_dot_string(&self) -> (s: String) {
        match self {
            GvGraphRankDir::TB => String::from_str("tb"),
            GvGraphRankDir::BT => String::from_str("bt"),
            GvGraphRankDir::LR => String::from_str("lr"),
            GvGraphRankDir::RL => String::from_str("rl"),
        }
    }
}

/// How the lines of the edges are routed.
#[derive(Clone, Copy, PartialEq, Eq, Debug)]
pub enum GraphvizSplines {
    /// Edges are not drawn at all.
    NoSplines,
    /// Straight lines, which may cross nodes.
    Line,
    /// Curved lines, which may cross nodes.
    Curved,
    /// Polylines that keep clear of the nodes.
    Polyline,
    /// Straight or curved lines that keep clear of the nodes.
    Spline,
    /// Horizontal and vertical segments that keep clear of the nodes.
    Ortho,
}

impl DotTranslatable for GraphvizSplines {
    /// The name of the variant in lower case.
    open spec fn dot_text(&self) -> Seq<char> {
        match self {
            GraphvizSplines::NoSplines => "none"@,
            GraphvizSplines::Line => "line"@,
            GraphvizSplines::Curved => "curved"@,
            GraphvizSplines::Polyline => "polyline"@,
            GraphvizSplines::Spline => "spline"@,
            GraphvizSplines::Ortho => "ortho"@,
        }
    }

    fn to_dot_string(&self) -> (s: String) {
        match self {
            GraphvizSplines::NoSplines => String::from_str("none"),
            GraphvizSplines::Line => String::from_str("line"),
            GraphvizSplines::Curved => String::from_str("curved"),
            GraphvizSplines::Polyline => String::from_str("polyline"),
            GraphvizSplines::Spline => String::from_str("spline"),
            GraphvizSplines::Ortho => String::from_str("ortho"),
        }
    }
}

/// One style attribute of the graph.
#[derive(Clone, Copy, PartialEq, Eq, Debug)]
pub enum GraphvizGraphStyleItem {
    Rankdir(GvGraphRankDir),
    /// The least distance between two nodes of a rank: whole part and digits
    /// after the point.
    NodeSep(u32, u32),
    Concentrate(bool),
    Splines(GraphvizSplines),
}

impl DotTranslatable for GraphvizGraphStyleItem {
    /// The attribute as `key=value`. The two numbers of a node separation are
    /// written in base ten with a point between them.
    open spec fn dot_text(&self) -> Seq<char> {
        match self {
            GraphvizGraphStyleItem::Rankdir(rank_dir) => "rankdir="@ + rank_dir.dot_text(),
            GraphvizGraphStyleItem::NodeSep(unit, decimals) => "nodesep="@ + decimal(*unit as nat)
                + "."@ + decimal(*decimals as nat),
            GraphvizGraphStyleItem::Concentrate(concentrate) => "concentrate="@ + bool_text(
                *concentrate,
            ),
            GraphvizGraphStyleItem::Splines(splines) => "splines="@ + splines.dot_text(),
        }
    }

    fn to_dot_string(&self) -> (s: String) {
        let mut res = String::new();
        match self {
            GraphvizGraphStyleItem::Rankdir(rank_dir) => {
                res.append("rankdir=");
                res.append(rank_dir.to_dot_string().as_str());
            },
            GraphvizGraphStyleItem::NodeSep(unit, decimals) => {
                res.append("nodesep=");
                res.append(u32_to_decimal(*unit).as_str());
                res.append(".");
                res.append(u32_to_decimal(*decimals).as_str());
            },
            GraphvizGraphStyleItem::Concentrate(concentrate) => {
                res.append("concentrate=");
                res.append(bool_str(*concentrate));
            },
            GraphvizGraphStyleItem::Splines(splines) => {
                res.append("splines=");
                res.append(splines.to_dot_string().as_str());
            },
        }
        assert(res@ =~= self.dot_text());
        res
    }
}

/// The style of a graph: its attributes in the order in which they are written.
pub type GraphvizGraphStyle = Vec<GraphvizGraphStyleItem>;

} // verus!
