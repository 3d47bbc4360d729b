//! The style attributes of a node or of a cluster: shape, label, image,
//! colors, font and sizes.

use crate::colors::GraphvizColor;
use crate::text::{decimal, join, join_strings, quoted, u32_to_decimal};
use crate::traits::{dot_texts, to_dot_strings, DotTranslatable};
use vstd::prelude::*;

verus! {

/// One way of drawing the outline and the inside of a node.
#[derive(Clone, Copy, PartialEq, Eq, Debug)]
pub enum GvNodeStyleKind {
    Solid,
    Dashed,
    Dotted,
    Bold,
    Rounded,
    Diagonals,
    Filled,
    Striped,
    Wedged,
    Invis,
}

impl DotTranslatable for GvNodeStyleKind {
    /// The name of the variant in lower case.
    open spec fn dot_text(&self) -> Seq<char> {
        match self {
            GvNodeStyleKind::Solid => "solid"@,
            GvNodeStyleKind::Dashed => "dashed"@,
            GvNodeStyleKind::Dotted => "dotted"@,
            GvNodeStyleKind::Bold => "bold"@,
            GvNodeStyleKind::Rounded => "rounded"@,
            GvNodeStyleKind::Diagonals => "diagonals"@,
            GvNodeStyleKind::Filled => "filled"@,
            GvNodeStyleKind::Striped => "striped"@,
            GvNodeStyleKind::Wedged => "wedged"@,
            GvNodeStyleKind::Invis => "invis"@,
        }
    }

    fn to_dot_string(&self) -> (s: String) {
        match self {
            GvNodeStyleKind::Solid => String::from_str("solid"),
            GvNodeStyleKind::Dashed => String::from_str("dashed"),
            GvNodeStyleKind::Dotted => String::from_str("dotted"),
            GvNodeStyleKind::Bold => String::from_str("bold"),
            GvNodeStyleKind::Rounded => String::from_str("rounded"),
            GvNodeStyleKind::Diagonals => String::from_str("diagonals"),
            GvNodeStyleKind::Filled => String::from_str("filled"),
            GvNodeStyleKind::Striped => String::from_str("striped"),
            GvNodeStyleKind::Wedged => String::from_str("wedged"),
            GvNodeStyleKind::Invis => String::from_str("invis"),
        }
    }
}

/// Several ways of drawing a node, all applied together.
pub type GvNodeStyle = Vec<GvNodeStyleKind>;

/// The kinds as one quoted list, with commas between them.
pub open spec fn node_style_kinds_text(kinds: Seq<GvNodeStyleKind>) -> Seq<char> {
    quoted(join(dot_texts(kinds), ","@))
}

impl DotTranslatable for GvNodeStyle {
    open spec fn dot_text(&self) -> Seq<char> {
        node_style_kinds_text(self@)
    }

    fn to_dot_string(&self) -> (s: String) {
        let elements = to_dot_strings(self);
        let mut res = String::from_str("\"");
        res.append(join_strings(&elements, ",").as_str());
        res.append("\"");
        res
    }
}

/// The outline of a node.
#[derive(Clone, Copy, PartialEq, Eq, Debug)]
pub enum GvNodeShape {
    Ellipse,
    Circle,
    DoubleCircle,
    Triangle,
    Diamond,
    Trapezium,
    Parallelogram,
    House,
    Pentagon,
    Hexagon,
    Septagon,
    Octagon,
    Rectangle,
    Square,
    InvTriangle,
    InvTrapezium,
    InvHouse,
    Star,
    PlainText,
    Point,
}

impl DotTranslatable for GvNodeShape {
    /// The name of the variant in lower case.
    open spec fn dot_text(&self) -> Seq<char> {
        match self {
            GvNodeShape::Ellipse => "ellipse"@,
            GvNodeShape::Circle => "circle"@,
            GvNodeShape::DoubleCircle => "doublecircle"@,
            GvNodeShape::Triangle => "triangle"@,
            GvNodeShape::Diamond => "diamond"@,
            GvNodeShape::Trapezium => "trapezium"@,
            GvNodeShape::Parallelogram => "parallelogram"@,
            GvNodeShape::House => "house"@,
            GvNodeShape::Pentagon => "pentagon"@,
            GvNodeShape::Hexagon => "hexagon"@,
            GvNodeShape::Septagon => "septagon"@,
            GvNodeShape::Octagon => "octagon"@,
            GvNodeShape::Rectangle => "rectangle"@,
            GvNodeShape::Square => "square"@,
            GvNodeShape::InvTriangle => "invtriangle"@,
            GvNodeShape::InvTrapezium => "invtrapezium"@,
            GvNodeShape::InvHouse => "invhouse"@,
            GvNodeShape::Star => "star"@,
            GvNodeShape::PlainText => "plaintext"@,
            GvNodeShape::Point => "point"@,
        }
    }

    fn to_dot_string(&self) -> (s: String) {
        match self {
            GvNodeShape::Ellipse => String::from_str("ellipse"),
            GvNodeShape::Circle => String::from_str("circle"),
            GvNodeShape::DoubleCircle => String::from_str("doublecircle"),
            GvNodeShape::Triangle => String::from_str("triangle"),
            GvNodeShape::Diamond => String::from_str("diamond"),
            GvNodeShape::Trapezium => String::from_str("trapezium"),
            GvNodeShape::Parallelogram => String::from_str("parallelogram"),
            GvNodeShape::House => String::from_str("house"),
            GvNodeShape::Pentagon => String::from_str("pentagon"),
            GvNodeShape::Hexagon => String::from_str("hexagon"),
            GvNodeShape::Septagon => String::from_str("septagon"),
            GvNodeShape::Octagon => String::from_str("octagon"),
            GvNodeShape::Rectangle => String::from_str("rectangle"),
            GvNodeShape::Square => String::from_str("square"),
            GvNodeShape::InvTriangle => String::from_str("invtriangle"),
            GvNodeShape::InvTrapezium => String::from_str("invtrapezium"),
            GvNodeShape::InvHouse => String::from_str("invhouse"),
            GvNodeShape::Star => String::from_str("star"),
            GvNodeShape::PlainText => String::from_str("plaintext"),
            GvNodeShape::Point => String::from_str("point"),
        }
    }
}

/// One style attribute of a node or of a cluster.
#[derive(PartialEq, Eq, Debug)]
pub enum GraphvizNodeStyleItem {
    Style(GvNodeStyle),
    Shape(GvNodeShape),
    Label(String),
    Image(String),
    Color(GraphvizColor),
    FillColor(GraphvizColor),
    FontColor(GraphvizColor),
    FontSize(u32),
    FontName(String),
    Height(u32),
    Width(u32),
    Peripheries(u32),
    PenWidth(u32),
}

/// The model of a node's style attribute.
pub enum NodeStyleItemView {
    Style(Seq<GvNodeStyleKind>),
    Shape(GvNodeShape),
    Label(Seq<char>),
    Image(Seq<char>),
    Color(GraphvizColor),
    FillColor(GraphvizColor),
    FontColor(GraphvizColor),
    FontSize(u32),
    FontName(Seq<char>),
    Height(u32),
    Width(u32),
    Peripheries(u32),
    PenWidth(u32),
}

impl NodeStyleItemView {
    /// The attribute as `key=value`. A label, a file name and a font name go
    /// between double quotes as they are; a number is written in base ten.
    /// An image and a fill color are two settings each, with a semicolon
    /// between them.
    pub open spec fn dot_text(self) -> Seq<char> {
        match self {
            NodeStyleItemView::PenWidth(pen_width) => "penwidth="@ + decimal(pen_width as nat),
            NodeStyleItemView::Height(height) => "height="@ + decimal(height as nat),
            NodeStyleItemView::Width(width) => "width="@ + decimal(width as nat),
            NodeStyleItemView::Peripheries(peripheries) => "peripheries="@ + decimal(
                peripheries as nat,
            ),
            NodeStyleItemView::Style(kinds) => "style="@ + node_style_kinds_text(kinds),
            NodeStyleItemView::Shape(shape) => "shape="@ + shape.dot_text(),
            NodeStyleItemView::Label(label) => "label="@ + quoted(label),
            NodeStyleItemView::Image(path) => "imagescale=true;image="@ + quoted(path),
            NodeStyleItemView::Color(color) => "color="@ + color.dot_text(),
            NodeStyleItemView::FillColor(color) => "style=filled;fillcolor="@ + color.dot_text(),
            NodeStyleItemView::FontColor(color) => "fontcolor="@ + color.dot_text(),
            NodeStyleItemView::FontSize(size) => "fontsize="@ + decimal(size as nat),
            NodeStyleItemView::FontName(name) => "fontname="@ + quoted(name),
        }
    }
}

impl View for GraphvizNodeStyleItem {
    type V = NodeStyleItemView;

    open spec fn view(&self) -> NodeStyleItemView {
        match self {
            GraphvizNodeStyleItem::Style(kinds) => NodeStyleItemView::Style(kinds@),
            GraphvizNodeStyleItem::Shape(shape) => NodeStyleItemView::Shape(*shape),
            GraphvizNodeStyleItem::Label(label) => NodeStyleItemView::Label(label@),
            GraphvizNodeStyleItem::Image(path) => NodeStyleItemView::Image(path@),
            GraphvizNodeStyleItem::Color(color) => NodeStyleItemView::Color(*color),
            GraphvizNodeStyleItem::FillColor(color) => NodeStyleItemView::FillColor(*color),
            GraphvizNodeStyleItem::FontColor(color) => NodeStyleItemView::FontColor(*color),
            GraphvizNodeStyleItem::FontSize(size) => NodeStyleItemView::FontSize(*size),
            GraphvizNodeStyleItem::FontName(name) => NodeStyleItemView::FontName(name@),
            GraphvizNodeStyleItem::Height(height) => NodeStyleItemView::Height(*height),
            GraphvizNodeStyleItem::Width(width) => NodeStyleItemView::Width(*width),
            GraphvizNodeStyleItem::Peripheries(peripheries) => NodeStyleItemView::Peripheries(
                *peripheries,
            ),
            GraphvizNodeStyleItem::PenWidth(pen_width) => NodeStyleItemView::PenWidth(*pen_width),
        }
    }
}

impl Clone for GraphvizNodeStyleItem {
    fn clone(&self) -> (res: Self)
        ensures
            res@ == self@,
    {
        match self {
            GraphvizNodeStyleItem::Style(kinds) => {
                let copy = kinds.clone();
                assert(copy@ =~= kinds@);
                GraphvizNodeStyleItem::Style(copy)
            },
            GraphvizNodeStyleItem::Shape(shape) => GraphvizNodeStyleItem::Shape(*shape),
            GraphvizNodeStyleItem::Label(label) => GraphvizNodeStyleItem::Label(label.clone()),
            GraphvizNodeStyleItem::Image(path) => GraphvizNodeStyleItem::Image(path.clone()),
            GraphvizNodeStyleItem::Color(color) => GraphvizNodeStyleItem::Color(*color),
            GraphvizNodeStyleItem::FillColor(color) => GraphvizNodeStyleItem::FillColor(*color),
            GraphvizNodeStyleItem::FontColor(color) => GraphvizNodeStyleItem::FontColor(*color),
            GraphvizNodeStyleItem::FontSize(size) => GraphvizNodeStyleItem::FontSize(*size),
            GraphvizNodeStyleItem::FontName(name) => GraphvizNodeStyleItem::FontName(name.clone()),
            GraphvizNodeStyleItem::Height(height) => GraphvizNodeStyleItem::Height(*height),
            GraphvizNodeStyleItem::Width(width) => GraphvizNodeStyleItem::Width(*width),
            GraphvizNodeStyleItem::Peripheries(peripheries) => GraphvizNodeStyleItem::Peripheries(
                *peripheries,
            ),
            GraphvizNodeStyleItem::PenWidth(pen_width) => GraphvizNodeStyleItem::PenWidth(
                *pen_width,
            ),
        }
    }
}

impl DotTranslatable for GraphvizNodeStyleItem {
    open spec fn dot_text(&self) -> Seq<char> {
        self@.dot_text()
    }

    fn to_dot_string(&self) -> (s: String) {
        let mut res = String::new();
        match self {
            GraphvizNodeStyleItem::PenWidth(pen_width) => {
                res.append("penwidth=");
                res.append(u32_to_decimal(*pen_width).as_str());
            },
            GraphvizNodeStyleItem::Height(height) => {
                res.append("height=");
                res.append(u32_to_decimal(*height).as_str());
            },
            GraphvizNodeStyleItem::Width(width) => {
                res.append("width=");
                res.append(u32_to_decimal(*width).as_str());
            },
            GraphvizNodeStyleItem::Peripheries(peripheries) => {
                res.append("peripheries=");
                res.append(u32_to_decimal(*peripheries).as_str());
            },
            GraphvizNodeStyleItem::Style(node_style) => {
                res.append("style=");
                res.append(node_style.to_dot_string().as_str());
            },
            GraphvizNodeStyleItem::Shape(node_shape) => {
                res.append("shape=");
                res.append(node_shape.to_dot_string().as_str());
            },
            GraphvizNodeStyleItem::Label(label) => {
                res.append("label=");
                res.append("\"");
                res.append(label.as_str());
                res.append("\"");
            },
            GraphvizNodeStyleItem::Image(image_path) => {
                res.append("imagescale=true;image=");
                res.append("\"");
                res.append(image_path.as_str());
                res.append("\"");
            },
            GraphvizNodeStyleItem::Color(graphviz_color) => {
                res.append("color=");
                res.append(graphviz_color.to_dot_string().as_str());
            },
            GraphvizNodeStyleItem::FillColor(graphviz_color) => {
                res.append("style=filled;fillcolor=");
                res.append(graphviz_color.to_dot_string().as_str());
            },
            GraphvizNodeStyleItem::FontColor(graphviz_color) => {
                res.append("fontcolor=");
                res.append(graphviz_color.to_dot_string().as_str());
            },
            GraphvizNodeStyleItem::FontSize(size) => {
                res.append("fontsize=");
                res.append(u32_to_decimal(*size).as_str());
            },
            GraphvizNodeStyleItem::FontName(font_name) => {
                res.append("fontname=");
                res.append("\"");
                res.append(font_name.as_str());
                res.append("\"");
            },
        }
        assert(res@ =~= self@.dot_text());
        res
    }
}

/// The style of a node or of a cluster: its attributes in the order in which
/// they are written.
pub type GraphvizNodeStyle = Vec<GraphvizNodeStyleItem>;

/// The models of the attributes of a node's style, in order.
pub open spec fn node_style_view(style: Seq<GraphvizNodeStyleItem>) -> Seq<NodeStyleItemView> {
    Seq::new(style.len(), |i: int| style[i]@)
}

/// The DOT fragments of the attributes of a node's style, in order.
pub open spec fn node_style_texts(style: Seq<NodeStyleItemView>) -> Seq<Seq<char>> {
    Seq::new(style.len(), |i: int| style[i].dot_text())
}

} // verus!
