//! Pen strokes as a page holds them: layers of lines, each line a color, a
//! width and the points the pen went through.

use vstd::prelude::*;

verus! {

/// Ink color of a line.
#[derive(Clone, Copy, Debug, PartialEq, Eq, Structural)]
pub enum Color {
    Black,
    Blue,
    Grey,
    Red,
    White,
}

/// A color as red, green and blue components, each from 0 to 255.
#[derive(Clone, Copy, Debug, PartialEq, Eq, Structural)]
pub struct Rgb {
    pub red: u8,
    pub green: u8,
    pub blue: u8,
}

impl Color {
    /// The components that stand for an ink color in the output.
    pub open spec fn spec_rgb(self) -> Rgb {
        match self {
            Color::Black => Rgb { red: 0, green: 0, blue: 0 },
            Color::Blue => Rgb { red: 0, green: 0, blue: 255 },
            Color::Grey => Rgb { red: 50, green: 50, blue: 50 },
            Color::Red => Rgb { red: 255, green: 0, blue: 0 },
            Color::White => Rgb { red: 255, green: 255, blue: 255 },
        }
    }

    /// Maps an ink color to its components: black is (0, 0, 0), blue
    /// (0, 0, 255), grey (50, 50, 50), red (255, 0, 0), white (255, 255, 255).
    pub fn rgb(self) -> (rgb: Rgb)
        ensures
            rgb == self.spec_rgb(),
    {
        match self {
            Color::Black => Rgb { red: 0, green: 0, blue: 0 },
            Color::Blue => Rgb { red: 0, green: 0, blue: 255 },
            Color::Grey => Rgb { red: 50, green: 50, blue: 50 },
            Color::Red => Rgb { red: 255, green: 0, blue: 0 },
            Color::White => Rgb { red: 255, green: 255, blue: 255 },
        }
    }
}

/// Whether some ink color maps to the components.
pub open spec fn is_ink(rgb: Rgb) -> bool {
    exists|color: Color| color.spec_rgb() == rgb
}

/// The color mapping is one to one: two ink colors with the same components
/// are the same color.
pub proof fn lemma_rgb_injective(first: Color, second: Color)
    requires
        first.spec_rgb() == second.spec_rgb(),
    ensures
        first == second,
{
}

/// The color mapping reaches five triples and no others.
pub proof fn lemma_rgb_image(rgb: Rgb)
    ensures
        is_ink(rgb) <==> rgb == (Rgb { red: 0, green: 0, blue: 0 }) || rgb == (Rgb {
            red: 0,
            green: 0,
            blue: 255,
        }) || rgb == (Rgb { red: 50, green: 50, blue: 50 }) || rgb == (Rgb {
            red: 255,
            green: 0,
            blue: 0,
        }) || rgb == (Rgb { red: 255, green: 255, blue: 255 }),
{
    if rgb == (Rgb { red: 0, green: 0, blue: 0 }) {
        assert(Color::Black.spec_rgb() == rgb);
    }
    if rgb == (Rgb { red: 0, green: 0, blue: 255 }) {
        assert(Color::Blue.spec_rgb() == rgb);
    }
    if rgb == (Rgb { red: 50, green: 50, blue: 50 }) {
        assert(Color::Grey.spec_rgb() == rgb);
    }
    if rgb == (Rgb { red: 255, green: 0, blue: 0 }) {
        assert(Color::Red.spec_rgb() == rgb);
    }
    if rgb == (Rgb { red: 255, green: 255, blue: 255 }) {
        assert(Color::White.spec_rgb() == rgb);
    }
}

/// A point of a line.  The origin is the page's top left corner and `y`
/// grows downward.  Each coordinate is kept as the bit pattern of the
/// single-precision number that the tablet recorded.
#[derive(Clone, Copy, Debug, PartialEq, Eq, Structural)]
pub struct Point {
    pub x: u32,
    pub y: u32,
}

/// One pen stroke.  `width` is kept as the bit pattern of the
/// single-precision number that the tablet recorded.
#[derive(Clone, Debug)]
pub struct Line {
    pub color: Color,
    pub width: u32,
    pub points: Vec<Point>,
}

/// What a `Line` holds.
pub struct LineView {
    pub color: Color,
    pub width: u32,
    pub points: Seq<Point>,
}

impl View for Line {
    type V = LineView;

    open spec fn view(&self) -> LineView {
        LineView { color: self.color, width: self.width, points: self.points@ }
    }
}

/// An ordered group of lines that is drawn as one layer.
#[derive(Clone, Debug)]
pub struct Layer {
    pub lines: Vec<Line>,
}

/// What a `Layer` holds.
pub struct LayerView {
    pub lines: Seq<LineView>,
}

impl View for Layer {
    type V = LayerView;

    open spec fn view(&self) -> LayerView {
        LayerView { lines: Seq::new(self.lines@.len(), |i: int| self.lines@[i]@) }
    }
}

/// What a sequence of layers holds.
pub open spec fn layers_view(layers: Seq<Layer>) -> Seq<LayerView> {
    Seq::new(layers.len(), |i: int| layers[i]@)
}

} // verus!
