//! The primitives that a frame draws, and the settings and statistics of
//! painting.

use crate::math::Pos2;
use crate::math::Rect;
use crate::math::Vec2;
use vstd::prelude::*;

verus! {

/// A colour with straight alpha, eight bits per channel.
#[derive(Clone, Copy, Debug, PartialEq, Eq, Structural)]
pub struct Color {
    pub r: u8,
    pub g: u8,
    pub b: u8,
    pub a: u8,
}

/// Builds a colour from its four channels.
pub open spec fn spec_srgba(r: u8, g: u8, b: u8, a: u8) -> Color {
    Color { r, g, b, a }
}

#[verifier::when_used_as_spec(spec_srgba)]
pub fn srgba(r: u8, g: u8, b: u8, a: u8) -> (c: Color)
    ensures
        c == spec_srgba(r, g, b, a),
{
    Color { r, g, b, a }
}

/// A grey of lightness `l` and opacity `a`.
pub open spec fn spec_gray(l: u8, a: u8) -> Color {
    Color { r: l, g: l, b: l, a }
}

#[verifier::when_used_as_spec(spec_gray)]
pub fn gray(l: u8, a: u8) -> (c: Color)
    ensures
        c == spec_gray(l, a),
{
    Color { r: l, g: l, b: l, a }
}

impl Color {
    /// Opaque red.
    pub open spec fn spec_red() -> Color {
        Color { r: 255, g: 0, b: 0, a: 255 }
    }

    #[verifier::when_used_as_spec(spec_red)]
    pub fn red() -> (c: Color)
        ensures
            c == Color::spec_red(),
    {
        Color { r: 255, g: 0, b: 0, a: 255 }
    }

    /// Opaque yellow.
    pub open spec fn spec_yellow() -> Color {
        Color { r: 255, g: 255, b: 0, a: 255 }
    }

    #[verifier::when_used_as_spec(spec_yellow)]
    pub fn yellow() -> (c: Color)
        ensures
            c == Color::spec_yellow(),
    {
        Color { r: 255, g: 255, b: 0, a: 255 }
    }
}

/// How an outline is drawn.
#[derive(Clone, Copy, Debug, PartialEq, Eq, Structural)]
pub struct LineStyle {
    pub width: i32,
    pub color: Color,
}

impl LineStyle {
    /// An outline of the given width and colour.
    pub open spec fn spec_new(width: i32, color: Color) -> LineStyle {
        LineStyle { width, color }
    }

    #[verifier::when_used_as_spec(spec_new)]
    pub fn new(width: i32, color: Color) -> (style: LineStyle)
        ensures
            style == LineStyle::spec_new(width, color),
    {
        LineStyle { width, color }
    }
}

/// The font role of a run of text.
#[derive(Clone, Copy, Debug, PartialEq, Eq, Hash, Structural)]
pub enum TextStyle {
    Body,
    Button,
    Heading,
    Monospace,
}

/// How a run of text lies relative to its position.
#[derive(Clone, Copy, Debug, PartialEq, Eq, Structural)]
pub enum TextAlign {
    Start,
    Center,
    End,
}

/// A text that the font layout has measured.
#[derive(Debug)]
pub struct Galley {
    pub text: String,
    pub size: Vec2,
}

/// The mathematical content of a [`Galley`].
pub struct GalleyView {
    pub text: Seq<char>,
    pub size: Vec2,
}

impl View for Galley {
    type V = GalleyView;

    open spec fn view(&self) -> GalleyView {
        GalleyView { text: self.text@, size: self.size }
    }
}

/// One corner of a triangle.
#[derive(Clone, Copy, Debug, PartialEq, Eq, Structural)]
pub struct Vertex {
    pub pos: Pos2,
    pub u: u16,
    pub v: u16,
    pub color: Color,
}

/// Triangles that need no further tessellation: each three indices name the
/// corners of one triangle.
#[derive(Debug)]
pub struct Triangles {
    pub indices: Vec<u32>,
    pub vertices: Vec<Vertex>,
}

/// The mathematical content of [`Triangles`].
pub struct TrianglesView {
    pub indices: Seq<u32>,
    pub vertices: Seq<Vertex>,
}

impl View for Triangles {
    type V = TrianglesView;

    open spec fn view(&self) -> TrianglesView {
        TrianglesView { indices: self.indices@, vertices: self.vertices@ }
    }
}

/// Copies a vector of plain values.
pub fn copy_vec<T: Copy>(source: &Vec<T>) -> (copy: Vec<T>)
    ensures
        copy@ == source@,
{
    let mut copy: Vec<T> = Vec::new();
    let mut i: usize = 0;
    while i < source.len()
        invariant
            i <= source.len(),
            copy@ == source@.take(i as int),
        decreases source.len() - i,
    {
        copy.push(source[i]);
        proof {
            assert(copy@ =~= source@.take(i + 1));
        }
        i = i + 1;
    }
    proof {
        assert(source@.take(i as int) == source@);
    }
    copy
}

impl Clone for Triangles {
    fn clone(&self) -> (copy: Triangles)
        ensures
            copy@ == self@,
    {
        Triangles { indices: copy_vec(&self.indices), vertices: copy_vec(&self.vertices) }
    }
}

/// One drawable primitive.
#[derive(Debug)]
pub enum PaintCmd {
    Circle { center: Pos2, fill: Option<Color>, outline: Option<LineStyle>, radius: i32 },
    Line { points: Vec<Pos2>, color: Color, width: i32 },
    Rect { corner_radius: i32, fill: Option<Color>, outline: Option<LineStyle>, rect: Rect },
    Text { pos: Pos2, text: String, text_style: TextStyle, align: TextAlign, color: Color },
    Triangles(Triangles),
}

/// The mathematical content of a [`PaintCmd`].
pub enum PaintCmdView {
    Circle { center: Pos2, fill: Option<Color>, outline: Option<LineStyle>, radius: i32 },
    Line { points: Seq<Pos2>, color: Color, width: i32 },
    Rect { corner_radius: i32, fill: Option<Color>, outline: Option<LineStyle>, rect: Rect },
    Text { pos: Pos2, text: Seq<char>, text_style: TextStyle, align: TextAlign, color: Color },
    Triangles(TrianglesView),
}

impl View for PaintCmd {
    type V = PaintCmdView;

    open spec fn view(&self) -> PaintCmdView {
        match self {
            PaintCmd::Circle { center, fill, outline, radius } => PaintCmdView::Circle {
                center: *center,
                fill: *fill,
                outline: *outline,
                radius: *radius,
            },
            PaintCmd::Line { points, color, width } => PaintCmdView::Line {
                points: points@,
                color: *color,
                width: *width,
            },
            PaintCmd::Rect { corner_radius, fill, outline, rect } => PaintCmdView::Rect {
                corner_radius: *corner_radius,
                fill: *fill,
                outline: *outline,
                rect: *rect,
            },
            PaintCmd::Text { pos, text, text_style, align, color } => PaintCmdView::Text {
                pos: *pos,
                text: text@,
                text_style: *text_style,
                align: *align,
                color: *color,
            },
            PaintCmd::Triangles(triangles) => PaintCmdView::Triangles(triangles@),
        }
    }
}

impl Clone for PaintCmd {
    fn clone(&self) -> (copy: PaintCmd)
        ensures
            copy@ == self@,
    {
        match self {
            PaintCmd::Circle { center, fill, outline, radius } => PaintCmd::Circle {
                center: *center,
                fill: *fill,
                outline: *outline,
                radius: *radius,
            },
            PaintCmd::Line { points, color, width } => PaintCmd::Line {
                points: copy_vec(points),
                color: *color,
                width: *width,
            },
            PaintCmd::Rect { corner_radius, fill, outline, rect } => PaintCmd::Rect {
                corner_radius: *corner_radius,
                fill: *fill,
                outline: *outline,
                rect: *rect,
            },
            PaintCmd::Text { pos, text, text_style, align, color } => PaintCmd::Text {
                pos: *pos,
                text: text.clone(),
                text_style: *text_style,
                align: *align,
                color: *color,
            },
            PaintCmd::Triangles(triangles) => PaintCmd::Triangles(triangles.clone()),
        }
    }
}

/// The primitives of a sequence of clipped commands, each with its clip
/// rectangle.
pub open spec fn clipped_views(commands: Seq<(Rect, PaintCmd)>) -> Seq<(Rect, PaintCmdView)> {
    Seq::new(commands.len(), |i: int| (commands[i].0, commands[i].1@))
}

/// The primitives of a sequence of commands.
pub open spec fn cmd_views(commands: Seq<PaintCmd>) -> Seq<PaintCmdView> {
    Seq::new(commands.len(), |i: int| commands[i]@)
}

} // verus!
