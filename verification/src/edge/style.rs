//! The style attributes of an edge: its line, label, colors, sizes and the
//! shapes at its two ends.

use crate::colors::GraphvizColor;
use crate::text::{decimal, quoted, u32_to_decimal};
use crate::traits::DotTranslatable;
use vstd::prelude::*;

verus! {

/// Whether an arrowhead is drawn filled or as an outline.
#[derive(Clone, Copy, PartialEq, Eq, Debug)]
pub enum GvArrowHeadFill {
    Open,
    Filled,
}

impl DotTranslatable for GvArrowHeadFill {
    /// `o` for an outline, nothing for a filled shape.
    open spec fn dot_text(&self) -> Seq<char> {
        match self {
            GvArrowHeadFill::Open => "o"@,
            GvArrowHeadFill::Filled => ""@,
        }
    }

    fn to_dot_string(&self) -> (s: String) {
        match self {
            GvArrowHeadFill::Open => String::from_str("o"),
            GvArrowHeadFill::Filled => String::from_str(""),
        }
    }
}

/// Which half of an arrowhead is drawn.
#[derive(Clone, Copy, PartialEq, Eq, Debug)]
pub enum GvArrowHeadSide {
    Left,
    Right,
    Both,
}

impl DotTranslatable for GvArrowHeadSide {
    /// `l` or `r` for one half, nothing for both.
    open spec fn dot_text(&self) -> Seq<char> {
        match self {
            GvArrowHeadSide::Left => "l"@,
            GvArrowHeadSide::Right => "r"@,
            GvArrowHeadSide::Both => ""@,
        }
    }

    fn to_dot_string(&self) -> (s: String) {
        match self {
            GvArrowHeadSide::Left => String::from_str("l"),
            GvArrowHeadSide::Right => String::from_str("r"),
            GvArrowHeadSide::Both => String::from_str(""),
        }
    }
}

/// The shape at one end of an edge, with the modifiers that the shape admits.
#[derive(Clone, Copy, PartialEq, Eq, Debug)]
pub enum GvArrowHeadStyle {
    /// Nothing is drawn at the end.
    NoArrow,
    /// A triangle that points to the end.
    Normal(GvArrowHeadFill, GvArrowHeadSide),
    /// A small square.
    Box(GvArrowHeadFill, GvArrowHeadSide),
    /// Three lines that spread out, a crow's foot.
    Crow(GvArrowHeadSide),
    /// An arc that is open to the end.
    Curve(GvArrowHeadSide),
    /// An arc the other way round.
    ICurve(GvArrowHeadFill, GvArrowHeadSide),
    /// A diamond.
    Diamond(GvArrowHeadFill, GvArrowHeadSide),
    /// A circle.
    Dot(GvArrowHeadFill),
    /// A triangle that points away from the end.
    Inv(GvArrowHeadFill, GvArrowHeadSide),
    /// A bar across the line.
    Tee(GvArrowHeadSide),
    /// Two lines that meet at the end.
    Vee(GvArrowHeadSide),
}

impl GvArrowHeadStyle {
    /// The name of the shape, without modifiers.
    pub open spec fn shape_name(&self) -> Seq<char> {
        match self {
            GvArrowHeadStyle::NoArrow => "none"@,
            GvArrowHeadStyle::Normal(_, _) => "normal"@,
            GvArrowHeadStyle::Box(_, _) => "box"@,
            GvArrowHeadStyle::Crow(_) => "crow"@,
            GvArrowHeadStyle::Curve(_) => "curve"@,
            GvArrowHeadStyle::ICurve(_, _) => "icurve"@,
            GvArrowHeadStyle::Diamond(_, _) => "diamond"@,
            GvArrowHeadStyle::Dot(_) => "dot"@,
            GvArrowHeadStyle::Inv(_, _) => "inv"@,
            GvArrowHeadStyle::Tee(_) => "tee"@,
            GvArrowHeadStyle::Vee(_) => "vee"@,
        }
    }

    /// The modifiers that go before the name: the fill code and then the side
    /// code where the shape has both, the one it has where it has only one,
    /// and nothing for no arrow.
    pub open spec fn modifiers(&self) -> Seq<char> {
        match self {
            GvArrowHeadStyle::Normal(fill, side)
            | GvArrowHeadStyle::Box(fill, side)
            | GvArrowHeadStyle::ICurve(fill, side)
            | GvArrowHeadStyle::Diamond(fill, side)
            | GvArrowHeadStyle::Inv(fill, side) => fill.dot_text() + side.dot_text(),
            GvArrowHeadStyle::Dot(fill) => fill.dot_text(),
            GvArrowHeadStyle::Crow(side)
            | GvArrowHeadStyle::Curve(side)
            | GvArrowHeadStyle::Tee(side)
            | GvArrowHeadStyle::Vee(side) => side.dot_text(),
            GvArrowHeadStyle::NoArrow => Seq::empty(),
        }
    }
}

impl DotTranslatable for GvArrowHeadStyle {
    /// The modifiers and then the name of the shape, with nothing between.
    open spec fn dot_text(&self) -> Seq<char> {
        self.modifiers() + self.shape_name()
    }

    fn to_dot_string(&self) -> (s: String) {
        let mut res = String::new();
        match self {
            GvArrowHeadStyle::Box(fill, side)
            | GvArrowHeadStyle::ICurve(fill, side)
            | GvArrowHeadStyle::Diamond(fill, side)
            | GvArrowHeadStyle::Inv(fill, side)
            | GvArrowHeadStyle::Normal(fill, side) => {
                res.append(fill.to_dot_string().as_str());
                match side {
                    GvArrowHeadSide::Left | GvArrowHeadSide::Right => {
                        res.append(side.to_dot_string().as_str());
                    },
                    GvArrowHeadSide::Both => {},
                };
            },
            GvArrowHeadStyle::Dot(fill) => {
                res.append(fill.to_dot_string().as_str());
            },
            GvArrowHeadStyle::Crow(side)
            | GvArrowHeadStyle::Curve(side)
            | GvArrowHeadStyle::Tee(side)
            | GvArrowHeadStyle::Vee(side) => {
                match side {
                    GvArrowHeadSide::Left | GvArrowHeadSide::Right => {
                        res.append(side.to_dot_string().as_str());
                    },
                    GvArrowHeadSide::Both => {},
                }
            },
            GvArrowHeadStyle::NoArrow => {},
        };
        proof {
            reveal_strlit("");
            assert(res@ =~= self.modifiers());
        }
        match self {
            GvArrowHeadStyle::NoArrow => res.append("none"),
            GvArrowHeadStyle::Normal(_, _) => res.append("normal"),
            GvArrowHeadStyle::Box(_, _) => res.append("box"),
            GvArrowHeadStyle::Crow(_) => res.append("crow"),
            GvArrowHeadStyle::Curve(_) => res.append("curve"),
            GvArrowHeadStyle::ICurve(_, _) => res.append("icurve"),
            GvArrowHeadStyle::Diamond(_, _) => res.append("diamond"),
            GvArrowHeadStyle::Dot(_) => res.append("dot"),
            GvArrowHeadStyle::Inv(_, _) => res.append("inv"),
            GvArrowHeadStyle::Tee(_) => res.append("tee"),
            GvArrowHeadStyle::Vee(_) => res.append("vee"),
        };
        res
    }
}

/// How the line of an edge is drawn.
#[derive(Clone, Copy, PartialEq, Eq, Debug)]
pub enum GvEdgeLineStyle {
    Solid,
    Dashed,
    Dotted,
    Bold,
}

impl DotTranslatable for GvEdgeLineStyle {
    /// The name of the variant in lower case.
    open spec fn dot_text(&self) -> Seq<char> {
        match self {
            GvEdgeLineStyle::Solid => "solid"@,
            GvEdgeLineStyle::Dashed => "dashed"@,
            GvEdgeLineStyle::Dotted => "dotted"@,
            GvEdgeLineStyle::Bold => "bold"@,
        }
    }

    fn to_dot_string(&self) -> (s: String) {
        match self {
            GvEdgeLineStyle::Solid => String::from_str("solid"),
            GvEdgeLineStyle::Dashed => String::from_str("dashed"),
            GvEdgeLineStyle::Dotted => String::from_str("dotted"),
            GvEdgeLineStyle::Bold => String::from_str("bold"),
        }
    }
}

/// One style attribute of an edge.
///
/// The attributes that make an edge end at the border of a cluster are not
/// among these: they name clusters, and are kept with the edge itself so that
/// they are renamed together with the clusters.
#[derive(PartialEq, Eq, Debug)]
pub enum GraphvizEdgeStyleItem {
    LineStyle(GvEdgeLineStyle),
    Label(String),
    Head(GvArrowHeadStyle),
    Tail(GvArrowHeadStyle),
    Color(GraphvizColor),
    FontColor(GraphvizColor),
    ArrowSize(u32),
    FontSize(u32),
}

/// The model of an edge's style attribute.
pub enum EdgeStyleItemView {
    LineStyle(GvEdgeLineStyle),
    Label(Seq<char>),
    Head(GvArrowHeadStyle),
    Tail(GvArrowHeadStyle),
    Color(GraphvizColor),
    FontColor(GraphvizColor),
    ArrowSize(u32),
    FontSize(u32),
}

impl EdgeStyleItemView {
    /// The attribute as `key=value`: a label goes between double quotes as it
    /// is, a number is written in base ten.
    pub open spec fn dot_text(self) -> Seq<char> {
        match self {
            EdgeStyleItemView::LineStyle(line_style) => "style="@ + line_style.dot_text(),
            EdgeStyleItemView::Label(label) => "label="@ + quoted(label),
            EdgeStyleItemView::Head(arrow) => "arrowhead="@ + arrow.dot_text(),
            EdgeStyleItemView::Tail(arrow) => "arrowtail="@ + arrow.dot_text(),
            EdgeStyleItemView::Color(color) => "color="@ + color.dot_text(),
            EdgeStyleItemView::FontColor(color) => "fontcolor="@ + color.dot_text(),
            EdgeStyleItemView::ArrowSize(size) => "arrowsize="@ + decimal(size as nat),
            EdgeStyleItemView::FontSize(size) => "fontsize="@ + decimal(size as nat),
        }
    }
}

impl View for GraphvizEdgeStyleItem {
    type V = EdgeStyleItemView;

    open spec fn view(&self) -> EdgeStyleItemView {
        match self {
            GraphvizEdgeStyleItem::LineStyle(line_style) => EdgeStyleItemView::LineStyle(
                *line_style,
            ),
            GraphvizEdgeStyleItem::Label(label) => EdgeStyleItemView::Label(label@),
            GraphvizEdgeStyleItem::Head(arrow) => EdgeStyleItemView::Head(*arrow),
            GraphvizEdgeStyleItem::Tail(arrow) => EdgeStyleItemView::Tail(*arrow),
            GraphvizEdgeStyleItem::Color(color) => EdgeStyleItemView::Color(*color),
            GraphvizEdgeStyleItem::FontColor(color) => EdgeStyleItemView::FontColor(*color),
            GraphvizEdgeStyleItem::ArrowSize(size) => EdgeStyleItemView::ArrowSize(*size),
            GraphvizEdgeStyleItem::FontSize(size) => EdgeStyleItemView::FontSize(*size),
        }
    }
}

impl Clone for GraphvizEdgeStyleItem {
    fn clone(&self) -> (res: Self)
        ensures
            res@ == self@,
    {
        match self {
            GraphvizEdgeStyleItem::LineStyle(line_style) => GraphvizEdgeStyleItem::LineStyle(
                *line_style,
            ),
            GraphvizEdgeStyleItem::Label(label) => GraphvizEdgeStyleItem::Label(label.clone()),
            GraphvizEdgeStyleItem::Head(arrow) => GraphvizEdgeStyleItem::Head(*arrow),
            GraphvizEdgeStyleItem::Tail(arrow) => GraphvizEdgeStyleItem::Tail(*arrow),
            GraphvizEdgeStyleItem::Color(color) => GraphvizEdgeStyleItem::Color(*color),
            GraphvizEdgeStyleItem::FontColor(color) => GraphvizEdgeStyleItem::FontColor(*color),
            GraphvizEdgeStyleItem::ArrowSize(size) => GraphvizEdgeStyleItem::ArrowSize(*size),
            GraphvizEdgeStyleItem::FontSize(size) => GraphvizEdgeStyleItem::FontSize(*size),
        }
    }
}

impl DotTranslatable for GraphvizEdgeStyleItem {
    open spec fn dot_text(&self) -> Seq<char> {
        self@.dot_text()
    }

    fn to_dot_string(&self) -> (s: String) {
        let mut res = String::new();
        match self {
            GraphvizEdgeStyleItem::LineStyle(line_style) => {
                res.append("style=");
                res.append(line_style.to_dot_string().as_str());
            },
            GraphvizEdgeStyleItem::Label(label) => {
                res.append("label=");
                res.append("\"");
                res.append(label.as_str());
                res.append("\"");
            },
            GraphvizEdgeStyleItem::Head(arrow_head_style) => {
                res.append("arrowhead=");
                res.append(arrow_head_style.to_dot_string().as_str());
            },
            GraphvizEdgeStyleItem::Tail(arrow_head_style) => {
                res.append("arrowtail=");
                res.append(arrow_head_style.to_dot_string().as_str());
            },
            GraphvizEdgeStyleItem::Color(graphviz_color) => {
                res.append("color=");
                res.append(graphviz_color.to_dot_string().as_str());
            },
            GraphvizEdgeStyleItem::FontColor(graphviz_color) => {
                res.append("fontcolor=");
                res.append(graphviz_color.to_dot_string().as_str());
            },
            GraphvizEdgeStyleItem::ArrowSize(size) => {
                res.append("arrowsize=");
                res.append(u32_to_decimal(*size).as_str());
            },
            GraphvizEdgeStyleItem::FontSize(size) => {
                res.append("fontsize=");
                res.append(u32_to_decimal(*size).as_str());
            },
        }
        assert(res@ =~= self@.dot_text());
        res
    }
}

/// The style of an edge: its attributes in the order in which they are written.
pub type GraphvizEdgeStyle = Vec<GraphvizEdgeStyleItem>;

/// The models of the attributes of an edge's style, in order.
pub open spec fn edge_style_view(style: Seq<GraphvizEdgeStyleItem>) -> Seq<EdgeStyleItemView> {
    Seq::new(style.len(), |i: int| style[i]@)
}

/// The DOT fragments of the attributes of an edge's style, in order.
pub open spec fn edge_style_texts(style: Seq<EdgeStyleItemView>) -> Seq<Seq<char>> {
    Seq::new(style.len(), |i: int| style[i].dot_text())
}

} // verus!
