//! The settings and the statistics of painting, and the rows in which a
//! panel shows them.

use crate::math::Rect;
use crate::paint::Triangles;
use crate::text::decimal;
use crate::text::push_decimal;
use vstd::prelude::*;
use vstd::string::StringExecFns;

verus! {

/// One row of a panel.
#[derive(Debug)]
pub enum Widget {
    /// A line of text, with an explanation that is shown on demand.
    Label { text: String, tooltip: Option<String> },
    /// A line of text that heads the rows below it.
    Heading { text: String },
    /// A box that can be ticked, with its caption.
    Checkbox { checked: bool, text: String },
    /// A button, with an explanation that is shown on demand.
    Button { text: String, tooltip: Option<String> },
}

/// The mathematical content of a [`Widget`].
pub enum WidgetView {
    Label { text: Seq<char>, tooltip: Option<Seq<char>> },
    Heading { text: Seq<char> },
    Checkbox { checked: bool, text: Seq<char> },
    Button { text: Seq<char>, tooltip: Option<Seq<char>> },
}

impl View for Widget {
    type V = WidgetView;

    open spec fn view(&self) -> WidgetView {
        match self {
            Widget::Label { text, tooltip } => WidgetView::Label {
                text: text@,
                tooltip: match tooltip {
                    Some(tip) => Some(tip@),
                    None => None,
                },
            },
            Widget::Heading { text } => WidgetView::Heading { text: text@ },
            Widget::Checkbox { checked, text } => WidgetView::Checkbox { checked: *checked, text: text@ },
            Widget::Button { text, tooltip } => WidgetView::Button {
                text: text@,
                tooltip: match tooltip {
                    Some(tip) => Some(tip@),
                    None => None,
                },
            },
        }
    }
}

/// The contents of the rows of a panel.
pub open spec fn widget_views(widgets: Seq<Widget>) -> Seq<WidgetView> {
    Seq::new(widgets.len(), |i: int| widgets[i]@)
}

/// How the frame's primitives are turned into triangles.
#[derive(Clone, Copy, Debug, PartialEq, Eq, Structural)]
pub struct PaintOptions {
    /// Whether edges are smoothed.
    pub anti_alias: bool,
    /// The width of the smoothed edge, in thousandths of a point.
    pub aa_size: u32,
    /// Whether the clip rectangles are drawn, to debug them.
    pub debug_paint_clip_rects: bool,
}

impl PaintOptions {
    /// The options of a new session.
    pub open spec fn spec_default() -> PaintOptions {
        PaintOptions { anti_alias: true, aa_size: 1000, debug_paint_clip_rects: false }
    }

    /// The options after the row `clicked` of the panel was clicked: the
    /// first row toggles the smoothing, the second the drawing of clip
    /// rectangles.
    pub open spec fn toggled(self, clicked: Option<usize>) -> PaintOptions {
        match clicked {
            Some(row) => if row == 0 {
                PaintOptions { anti_alias: !self.anti_alias, ..self }
            } else if row == 1 {
                PaintOptions { debug_paint_clip_rects: !self.debug_paint_clip_rects, ..self }
            } else {
                self
            },
            None => self,
        }
    }

    /// The rows of the panel of these options.
    pub open spec fn rows(self) -> Seq<WidgetView> {
        seq![
            WidgetView::Checkbox { checked: self.anti_alias, text: "Antialias"@ },
            WidgetView::Checkbox {
                checked: self.debug_paint_clip_rects,
                text: "Paint Clip Rects (debug)"@,
            },
        ]
    }

    /// Shows the options as a panel of two check boxes. `clicked` names the
    /// row that was clicked this frame, if one was: its option is toggled
    /// before the rows are made.
    pub fn ui(&mut self, clicked: Option<usize>) -> (widgets: Vec<Widget>)
        ensures
            *final(self) == old(self).toggled(clicked),
            widget_views(widgets@) == final(self).rows(),
    {
        match clicked {
            Some(row) => {
                if row == 0 {
                    self.anti_alias = !self.anti_alias;
                } else if row == 1 {
                    self.debug_paint_clip_rects = !self.debug_paint_clip_rects;
                }
            },
            None => {},
        }
        let mut widgets: Vec<Widget> = Vec::new();
        widgets.push(Widget::Checkbox { checked: self.anti_alias, text: String::from_str("Antialias") });
        widgets.push(
            Widget::Checkbox {
                checked: self.debug_paint_clip_rects,
                text: String::from_str("Paint Clip Rects (debug)"),
            },
        );
        assert(widget_views(widgets@) =~= self.rows());
        widgets
    }

    /// The options for a screen of `pixels_per_point` thousandths of a
    /// device pixel per point: the smoothed edge is one and a half device
    /// pixels wide. A scale of zero counts as the smallest scale.
    pub open spec fn spec_for_scale(self, pixels_per_point: u32) -> PaintOptions {
        PaintOptions {
            aa_size: if pixels_per_point == 0 {
                1_500_000
            } else {
                (1_500_000int / pixels_per_point as int) as u32
            },
            ..self
        }
    }

    #[verifier::when_used_as_spec(spec_for_scale)]
    pub fn for_scale(self, pixels_per_point: u32) -> (options: PaintOptions)
        ensures
            options == self.spec_for_scale(pixels_per_point),
    {
        let aa_size: u32 = if pixels_per_point == 0 {
            1_500_000
        } else {
            1_500_000 / pixels_per_point
        };
        PaintOptions { anti_alias: self.anti_alias, aa_size, debug_paint_clip_rects: self.debug_paint_clip_rects }
    }
}

impl Default for PaintOptions {
    fn default() -> (options: PaintOptions)
        ensures
            options == PaintOptions::spec_default(),
    {
        PaintOptions { anti_alias: true, aa_size: 1000, debug_paint_clip_rects: false }
    }
}

/// How much the last frame painted.
#[derive(Clone, Copy, Debug, PartialEq, Eq, Structural)]
pub struct PaintStats {
    pub num_batches: usize,
    pub num_primitives: usize,
    pub num_vertices: usize,
    pub num_triangles: usize,
}

/// The number of vertices of the batches.
pub open spec fn total_vertices(batches: Seq<(Rect, Triangles)>) -> nat
    decreases batches.len(),
{
    if batches.len() == 0 {
        0
    } else {
        total_vertices(batches.drop_last()) + batches.last().1.vertices@.len()
    }
}

/// The number of whole triangles of the batches.
pub open spec fn total_triangles(batches: Seq<(Rect, Triangles)>) -> nat
    decreases batches.len(),
{
    if batches.len() == 0 {
        0
    } else {
        total_triangles(batches.drop_last()) + batches.last().1.indices@.len() / 3
    }
}

/// A count held to what a `usize` can hold.
pub open spec fn capped(n: nat) -> usize {
    if n > usize::MAX {
        usize::MAX
    } else {
        n as usize
    }
}

/// The text of a row that shows a count under a caption.
pub open spec fn count_text(caption: Seq<char>, n: usize) -> Seq<char> {
    caption + decimal(n as nat)
}

/// A row that shows a count under a caption.
pub fn count_label(caption: &str, n: usize, tooltip: Option<&str>) -> (widget: Widget)
    ensures
        widget@ == (WidgetView::Label {
            text: count_text(caption@, n),
            tooltip: match tooltip {
                Some(tip) => Some(tip@),
                None => None,
            },
        }),
{
    let mut text = String::from_str(caption);
    push_decimal(&mut text, n as u64);
    let tooltip = match tooltip {
        Some(tip) => Some(String::from_str(tip)),
        None => None,
    };
    Widget::Label { text, tooltip }
}

impl PaintStats {
    /// The statistics before anything was painted.
    pub open spec fn spec_default() -> PaintStats {
        PaintStats { num_batches: 0, num_primitives: 0, num_vertices: 0, num_triangles: 0 }
    }

    /// The statistics of a frame that drew `num_primitives` primitives,
    /// which were turned into `batches`. Counts beyond what a `usize` holds
    /// are held at its maximum.
    pub open spec fn spec_from_batches(num_primitives: usize, batches: Seq<(Rect, Triangles)>) -> PaintStats {
        PaintStats {
            num_batches: batches.len() as usize,
            num_primitives,
            num_vertices: capped(total_vertices(batches)),
            num_triangles: capped(total_triangles(batches)),
        }
    }

    pub fn from_batches(num_primitives: usize, batches: &Vec<(Rect, Triangles)>) -> (stats: PaintStats)
        ensures
            stats == PaintStats::spec_from_batches(num_primitives, batches@),
    {
        let mut num_vertices: usize = 0;
        let mut num_triangles: usize = 0;
        let mut i: usize = 0;
        while i < batches.len()
            invariant
                i <= batches.len(),
                num_vertices == capped(total_vertices(batches@.take(i as int))),
                num_triangles == capped(total_triangles(batches@.take(i as int))),
            decreases batches.len() - i,
        {
            proof {
                let upto = batches@.take(i + 1);
                assert(upto.drop_last() =~= batches@.take(i as int));
                assert(upto.last() == batches@[i as int]);
            }
            let vertices: usize = batches[i].1.vertices.len();
            let triangles: usize = batches[i].1.indices.len() / 3;
            num_vertices = if vertices > usize::MAX - num_vertices {
                usize::MAX
            } else {
                num_vertices + vertices
            };
            num_triangles = if triangles > usize::MAX - num_triangles {
                usize::MAX
            } else {
                num_triangles + triangles
            };
            i = i + 1;
        }
        proof {
            assert(batches@.take(i as int) == batches@);
        }
        PaintStats { num_batches: batches.len(), num_primitives, num_vertices, num_triangles }
    }

    /// The rows of the panel of these statistics.
    pub open spec fn rows(self) -> Seq<WidgetView> {
        seq![
            WidgetView::Label {
                text: count_text("Batches: "@, self.num_batches),
                tooltip: Some("Number of separate clip rectangles"@),
            },
            WidgetView::Label {
                text: count_text("Primitives: "@, self.num_primitives),
                tooltip: Some("Boxes, circles, text areas etc"@),
            },
            WidgetView::Label { text: count_text("Vertices: "@, self.num_vertices), tooltip: None },
            WidgetView::Label { text: count_text("Triangles: "@, self.num_triangles), tooltip: None },
        ]
    }

    /// Shows the statistics as a panel of four labels.
    pub fn ui(&self) -> (widgets: Vec<Widget>)
        ensures
            widget_views(widgets@) == self.rows(),
    {
        let mut widgets: Vec<Widget> = Vec::new();
        widgets.push(count_label("Batches: ", self.num_batches, Some("Number of separate clip rectangles")));
        widgets.push(count_label("Primitives: ", self.num_primitives, Some("Boxes, circles, text areas etc")));
        widgets.push(count_label("Vertices: ", self.num_vertices, None));
        widgets.push(count_label("Triangles: ", self.num_triangles, None));
        assert(widget_views(widgets@) =~= self.rows());
        widgets
    }
}

impl Default for PaintStats {
    fn default() -> (stats: PaintStats)
        ensures
            stats == PaintStats::spec_default(),
    {
        PaintStats { num_batches: 0, num_primitives: 0, num_vertices: 0, num_triangles: 0 }
    }
}

} // verus!
