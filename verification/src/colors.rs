//! Colors, as Graphviz names them or as red, green and blue parts.

use crate::text::{hex_byte, quoted, u8_to_hex};
use crate::traits::DotTranslatable;
use vstd::prelude::*;

verus! {

/// A color: one of a palette of names that Graphviz knows, or any color by
/// its red, green and blue parts.
#[allow(non_camel_case_types)]
#[derive(Clone, Copy, PartialEq, Eq, Debug, Hash)]
pub enum GraphvizColor {
    black,
    white,
    gray,
    lightgray,
    red,
    darkred,
    green,
    darkgreen,
    blue,
    navy,
    lightblue,
    yellow,
    gold,
    orange,
    brown,
    pink,
    purple,
    violet,
    cyan,
    magenta,
    /// Red, green and blue, written as a quoted `#rrggbb` literal.
    Rgb(u8, u8, u8),
}

impl DotTranslatable for GraphvizColor {
    /// A named color is written as its name; the other colors as `"#rrggbb"`,
    /// in lower-case hexadecimal and between double quotes.
    open spec fn dot_text(&self) -> Seq<char> {
        match self {
            GraphvizColor::black => "black"@,
            GraphvizColor::white => "white"@,
            GraphvizColor::gray => "gray"@,
            GraphvizColor::lightgray => "lightgray"@,
            GraphvizColor::red => "red"@,
            GraphvizColor::darkred => "darkred"@,
            GraphvizColor::green => "green"@,
            GraphvizColor::darkgreen => "darkgreen"@,
            GraphvizColor::blue => "blue"@,
            GraphvizColor::navy => "navy"@,
            GraphvizColor::lightblue => "lightblue"@,
            GraphvizColor::yellow => "yellow"@,
            GraphvizColor::gold => "gold"@,
            GraphvizColor::orange => "orange"@,
            GraphvizColor::brown => "brown"@,
            GraphvizColor::pink => "pink"@,
            GraphvizColor::purple => "purple"@,
            GraphvizColor::violet => "violet"@,
            GraphvizColor::cyan => "cyan"@,
            GraphvizColor::magenta => "magenta"@,
            GraphvizColor::Rgb(r, g, b) => quoted("#"@ + hex_byte(*r) + hex_byte(*g) + hex_byte(*b)),
        }
    }

    fn to_dot_string(&self) -> (s: String) {
        match self {
            GraphvizColor::black => String::from_str("black"),
            GraphvizColor::white => String::from_str("white"),
            GraphvizColor::gray => String::from_str("gray"),
            GraphvizColor::lightgray => String::from_str("lightgray"),
            GraphvizColor::red => String::from_str("red"),
            GraphvizColor::darkred => String::from_str("darkred"),
            GraphvizColor::green => String::from_str("green"),
            GraphvizColor::darkgreen => String::from_str("darkgreen"),
            GraphvizColor::blue => String::from_str("blue"),
            GraphvizColor::navy => String::from_str("navy"),
            GraphvizColor::lightblue => String::from_str("lightblue"),
            GraphvizColor::yellow => String::from_str("yellow"),
            GraphvizColor::gold => String::from_str("gold"),
            GraphvizColor::orange => String::from_str("orange"),
            GraphvizColor::brown => String::from_str("brown"),
            GraphvizColor::pink => String::from_str("pink"),
            GraphvizColor::purple => String::from_str("purple"),
            GraphvizColor::violet => String::from_str("violet"),
            GraphvizColor::cyan => String::from_str("cyan"),
            GraphvizColor::magenta => String::from_str("magenta"),
            GraphvizColor::Rgb(r, g, b) => {
                let mut res = String::from_str("\"");
                res.append("#");
                res.append(u8_to_hex(*r).as_str());
                res.append(u8_to_hex(*g).as_str());
                res.append(u8_to_hex(*b).as_str());
                res.append("\"");
                assert(res@ =~= self.dot_text());
                res
            },
        }
    }
}

} // verus!
