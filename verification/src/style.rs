//! The look of the widgets: how a widget command becomes paint commands.

use crate::math::lerp;
use crate::math::remap_clamp;
use crate::math::saturate;
use crate::math::clamp_to_grid;
use crate::math::spec_lerp;
use crate::math::spec_remap_clamp;
use crate::math::lemma_remap_between;
use crate::math::spec_min;
use crate::math::spec_max;
use crate::math::Pos2;
use crate::math::Rect;
use crate::math::Vec2;
use crate::memory::InteractInfo;
use crate::paint::cmd_views;
use crate::paint::spec_srgba;
use crate::paint::srgba;
use crate::paint::Color;
use crate::paint::PaintCmd;
use crate::paint::PaintCmdView;
use crate::paint::TextAlign;
use crate::paint::TextStyle;
use crate::text::fixed3;
use crate::text::push_fixed3;
use vstd::prelude::*;
use vstd::string::StringExecFns;

verus! {

/// The measures and colours that widgets share.
#[derive(Clone, Copy, Debug, PartialEq, Eq, Structural)]
pub struct Style {
    /// The space between two widgets. Half of it is added around a region
    /// to make it easier to hit.
    pub item_spacing: Vec2,
    /// How far outside a window the pointer still reaches it.
    pub resize_interact_radius_side: i32,
    /// The colour of text that names none.
    pub text_color: Color,
    /// The width of lines such as the mark in a check box.
    pub line_width: i32,
}

impl Style {
    /// The style of a new session.
    pub open spec fn spec_default() -> Style {
        Style {
            item_spacing: Vec2 { x: 8, y: 4 },
            resize_interact_radius_side: 5,
            text_color: Color { r: 255, g: 255, b: 255, a: 187 },
            line_width: 2,
        }
    }
}

impl Default for Style {
    fn default() -> (style: Style)
        ensures
            style == Style::spec_default(),
    {
        Style {
            item_spacing: Vec2 { x: 8, y: 4 },
            resize_interact_radius_side: 5,
            text_color: Color { r: 255, g: 255, b: 255, a: 187 },
            line_width: 2,
        }
    }
}

/// What a widget asks to have drawn.
#[derive(Debug)]
pub enum GuiCmd {
    /// Primitives that are passed through as they are.
    PaintCommands(Vec<PaintCmd>),
    Button { interact: InteractInfo, rect: Rect, text: String },
    Checkbox { checked: bool, interact: InteractInfo, rect: Rect, text: String },
    RadioButton { checked: bool, interact: InteractInfo, rect: Rect, text: String },
    /// A slider whose `value`, `min` and `max` are given in thousandths.
    Slider { interact: InteractInfo, label: String, max: i64, min: i64, rect: Rect, value: i64 },
    Text { pos: Pos2, text: String, text_align: TextAlign, style: TextStyle },
}

/// The mathematical content of a [`GuiCmd`].
pub enum GuiCmdView {
    PaintCommands(Seq<PaintCmdView>),
    Button { interact: InteractInfo, rect: Rect, text: Seq<char> },
    Checkbox { checked: bool, interact: InteractInfo, rect: Rect, text: Seq<char> },
    RadioButton { checked: bool, interact: InteractInfo, rect: Rect, text: Seq<char> },
    Slider { interact: InteractInfo, label: Seq<char>, max: i64, min: i64, rect: Rect, value: i64 },
    Text { pos: Pos2, text: Seq<char>, text_align: TextAlign, style: TextStyle },
}

impl View for GuiCmd {
    type V = GuiCmdView;

    open spec fn view(&self) -> GuiCmdView {
        match self {
            GuiCmd::PaintCommands(commands) => GuiCmdView::PaintCommands(cmd_views(commands@)),
            GuiCmd::Button { interact, rect, text } => GuiCmdView::Button {
                interact: *interact,
                rect: *rect,
                text: text@,
            },
            GuiCmd::Checkbox { checked, interact, rect, text } => GuiCmdView::Checkbox {
                checked: *checked,
                interact: *interact,
                rect: *rect,
                text: text@,
            },
            GuiCmd::RadioButton { checked, interact, rect, text } => GuiCmdView::RadioButton {
                checked: *checked,
                interact: *interact,
                rect: *rect,
                text: text@,
            },
            GuiCmd::Slider { interact, label, max, min, rect, value } => GuiCmdView::Slider {
                interact: *interact,
                label: label@,
                max: *max,
                min: *min,
                rect: *rect,
                value: *value,
            },
            GuiCmd::Text { pos, text, text_align, style } => GuiCmdView::Text {
                pos: *pos,
                text: text@,
                text_align: *text_align,
                style: *style,
            },
        }
    }
}

/// Copies a vector of paint commands.
pub fn clone_commands(commands: &Vec<PaintCmd>) -> (copy: Vec<PaintCmd>)
    ensures
        cmd_views(copy@) == cmd_views(commands@),
{
    let mut copy: Vec<PaintCmd> = Vec::new();
    let mut i: usize = 0;
    while i < commands.len()
        invariant
            i <= commands.len(),
            cmd_views(copy@) == cmd_views(commands@.take(i as int)),
        decreases commands.len() - i,
    {
        let ghost sofar = copy@;
        let cmd = commands[i].clone();
        proof {
            lemma_cmd_views_push(sofar, cmd);
            lemma_cmd_views_push(commands@.take(i as int), commands@[i as int]);
            assert(commands@.take(i + 1) =~= commands@.take(i as int).push(commands@[i as int]));
        }
        copy.push(cmd);
        i = i + 1;
    }
    proof {
        assert(commands@.take(i as int) == commands@);
    }
    copy
}

impl Clone for GuiCmd {
    fn clone(&self) -> (copy: GuiCmd)
        ensures
            copy@ == self@,
    {
        match self {
            GuiCmd::PaintCommands(commands) => GuiCmd::PaintCommands(clone_commands(commands)),
            GuiCmd::Button { interact, rect, text } => GuiCmd::Button {
                interact: *interact,
                rect: *rect,
                text: text.clone(),
            },
            GuiCmd::Checkbox { checked, interact, rect, text } => GuiCmd::Checkbox {
                checked: *checked,
                interact: *interact,
                rect: *rect,
                text: text.clone(),
            },
            GuiCmd::RadioButton { checked, interact, rect, text } => GuiCmd::RadioButton {
                checked: *checked,
                interact: *interact,
                rect: *rect,
                text: text.clone(),
            },
            GuiCmd::Slider { interact, label, max, min, rect, value } => GuiCmd::Slider {
                interact: *interact,
                label: label.clone(),
                max: *max,
                min: *min,
                rect: *rect,
                value: *value,
            },
            GuiCmd::Text { pos, text, text_align, style } => GuiCmd::Text {
                pos: *pos,
                text: text.clone(),
                text_align: *text_align,
                style: *style,
            },
        }
    }
}

/// The fill of a widget: lightest while it owns the interaction, lighter
/// while the pointer is over it, and dark otherwise.
pub open spec fn spec_fill_color(interact: InteractInfo) -> Color {
    if interact.active {
        spec_srgba(136, 136, 136, 255)
    } else if interact.hovered {
        spec_srgba(100, 100, 100, 255)
    } else {
        spec_srgba(68, 68, 68, 255)
    }
}

#[verifier::when_used_as_spec(spec_fill_color)]
pub fn fill_color(interact: InteractInfo) -> (color: Color)
    ensures
        color == spec_fill_color(interact),
{
    if interact.active {
        srgba(136, 136, 136, 255)
    } else if interact.hovered {
        srgba(100, 100, 100, 255)
    } else {
        srgba(68, 68, 68, 255)
    }
}

/// The colour of a widget's mark and text, by the same three tiers.
pub open spec fn spec_stroke_color(interact: InteractInfo) -> Color {
    if interact.active {
        spec_srgba(255, 255, 255, 255)
    } else if interact.hovered {
        spec_srgba(255, 255, 255, 200)
    } else {
        spec_srgba(255, 255, 255, 170)
    }
}

#[verifier::when_used_as_spec(spec_stroke_color)]
pub fn stroke_color(interact: InteractInfo) -> (color: Color)
    ensures
        color == spec_stroke_color(interact),
{
    if interact.active {
        srgba(255, 255, 255, 255)
    } else if interact.hovered {
        srgba(255, 255, 255, 200)
    } else {
        srgba(255, 255, 255, 170)
    }
}

/// The colour of plain text.
pub open spec fn label_color() -> Color {
    spec_srgba(255, 255, 255, 187)
}

/// The box of a check box: a square of side 16 at the left end of `rect`,
/// centred on its height.
pub open spec fn checkbox_box(rect: Rect) -> Rect {
    Rect::spec_from_center_size(
        Pos2 { x: clamp_to_grid(rect.min.x + 8), y: rect.spec_center().y },
        Vec2 { x: 16, y: 16 },
    )
}

/// The square of side 10 that bounds the mark of a check box, centred in
/// the box `box_rect`.
pub open spec fn checkmark_square(box_rect: Rect) -> Rect {
    Rect::spec_from_center_size(box_rect.spec_center(), Vec2 { x: 10, y: 10 })
}

/// The three points of the mark of a check box.
pub open spec fn checkmark_points(box_rect: Rect) -> Seq<Pos2> {
    let square = checkmark_square(box_rect);
    seq![
        Pos2 { x: square.min.x, y: square.spec_center().y },
        Pos2 { x: square.spec_center().x, y: square.max.y },
        Pos2 { x: square.max.x, y: square.min.y },
    ]
}

/// The track of a slider: a bar of height 8 over the width of `rect`, two
/// thirds of the way down.
pub open spec fn slider_track(rect: Rect) -> Rect {
    Rect::spec_from_min_size(
        Pos2 { x: rect.min.x, y: spec_lerp(rect.min.y, rect.max.y, 2, 3) },
        Vec2 { x: rect.spec_width(), y: 8 },
    )
}

/// The marker of a slider that is centred at `center_x` on the track of
/// `rect`: a square of side 16.
pub open spec fn slider_marker_at(rect: Rect, center_x: i32) -> Rect {
    Rect::spec_from_center_size(
        Pos2 { x: center_x, y: slider_track(rect).spec_center().y },
        Vec2 { x: 16, y: 16 },
    )
}

/// The marker of a slider: centred where `value`, held between `min` and
/// `max`, falls between the left and the right end of `rect`.
pub open spec fn slider_marker(rect: Rect, value: i64, min: i64, max: i64) -> Rect {
    slider_marker_at(rect, spec_remap_clamp(value, min, max, rect.min.x, rect.max.x))
}

/// The text beside a slider: its label and its value to three places.
pub open spec fn slider_text(label: Seq<char>, value: i64) -> Seq<char> {
    label + ": "@ + fixed3(value as int)
}

/// The primitives that draw one widget command under a style.
pub open spec fn translated(cmd: GuiCmdView, style: Style) -> Seq<PaintCmdView> {
    match cmd {
        GuiCmdView::PaintCommands(commands) => commands,
        GuiCmdView::Button { interact, rect, text } => seq![
            PaintCmdView::Rect {
                corner_radius: 5,
                fill: Some(spec_fill_color(interact)),
                outline: None,
                rect,
            },
            PaintCmdView::Text {
                pos: Pos2 { x: rect.spec_center().x, y: clamp_to_grid(rect.spec_center().y + 6) },
                text,
                text_style: TextStyle::Body,
                align: TextAlign::Center,
                color: label_color(),
            },
        ],
        GuiCmdView::Checkbox { checked, interact, rect, text } => {
            let box_rect = checkbox_box(rect);
            let frame = seq![
                PaintCmdView::Rect {
                    corner_radius: 3,
                    fill: Some(spec_fill_color(interact)),
                    outline: None,
                    rect: box_rect,
                },
            ];
            let mark = if checked {
                seq![
                    PaintCmdView::Line {
                        points: checkmark_points(box_rect),
                        color: spec_stroke_color(interact),
                        width: style.line_width,
                    },
                ]
            } else {
                Seq::empty()
            };
            let caption = seq![
                PaintCmdView::Text {
                    pos: Pos2 {
                        x: clamp_to_grid(box_rect.max.x + 4),
                        y: clamp_to_grid(rect.spec_center().y + 5),
                    },
                    text,
                    text_style: TextStyle::Body,
                    align: TextAlign::Start,
                    color: spec_stroke_color(interact),
                },
            ];
            frame + mark + caption
        },
        GuiCmdView::RadioButton { checked, interact, rect, text } => {
            let center = Pos2 { x: clamp_to_grid(rect.min.x + 8), y: rect.spec_center().y };
            let frame = seq![
                PaintCmdView::Circle {
                    center,
                    fill: Some(spec_fill_color(interact)),
                    outline: None,
                    radius: 8,
                },
            ];
            let mark = if checked {
                seq![
                    PaintCmdView::Circle {
                        center,
                        fill: Some(spec_srgba(0, 0, 0, 255)),
                        outline: None,
                        radius: 4,
                    },
                ]
            } else {
                Seq::empty()
            };
            let caption = seq![
                PaintCmdView::Text {
                    pos: Pos2 {
                        x: clamp_to_grid(rect.min.x + 20),
                        y: clamp_to_grid(rect.spec_center().y + 7),
                    },
                    text,
                    text_style: TextStyle::Body,
                    align: TextAlign::Start,
                    color: spec_stroke_color(interact),
                },
            ];
            frame + mark + caption
        },
        GuiCmdView::Slider { interact, label, max, min, rect, value } => seq![
            PaintCmdView::Rect {
                corner_radius: 2,
                fill: Some(spec_srgba(34, 34, 34, 255)),
                outline: None,
                rect: slider_track(rect),
            },
            PaintCmdView::Rect {
                corner_radius: 3,
                fill: Some(spec_fill_color(interact)),
                outline: None,
                rect: slider_marker(rect, value, min, max),
            },
            PaintCmdView::Text {
                pos: Pos2 {
                    x: rect.min.x,
                    y: clamp_to_grid(spec_lerp(rect.min.y, rect.max.y, 1, 3) + 6),
                },
                text: slider_text(label, value),
                text_style: TextStyle::Body,
                align: TextAlign::Start,
                color: label_color(),
            },
        ],
        GuiCmdView::Text { pos, text, text_align, style: text_style } => seq![
            PaintCmdView::Text {
                pos: pos.spec_offset(Vec2 { x: 0, y: 7 }),
                text,
                text_style,
                align: text_align,
                color: label_color(),
            },
        ],
    }
}

/// The primitives that draw a sequence of widget commands, in their order.
pub open spec fn translated_all(commands: Seq<GuiCmdView>, style: Style) -> Seq<PaintCmdView>
    decreases commands.len(),
{
    if commands.len() == 0 {
        Seq::empty()
    } else {
        translated_all(commands.drop_last(), style) + translated(commands.last(), style)
    }
}

/// The contents of a sequence of widget commands.
pub open spec fn gui_views(commands: Seq<GuiCmd>) -> Seq<GuiCmdView> {
    Seq::new(commands.len(), |i: int| commands[i]@)
}

/// The primitives of two sequences of commands one after the other.
pub proof fn lemma_cmd_views_concat(a: Seq<PaintCmd>, b: Seq<PaintCmd>)
    ensures
        cmd_views(a + b) == cmd_views(a) + cmd_views(b),
{
    assert(cmd_views(a + b) =~= cmd_views(a) + cmd_views(b));
}

/// The primitives of a sequence of commands with one more at its end.
pub proof fn lemma_cmd_views_push(a: Seq<PaintCmd>, cmd: PaintCmd)
    ensures
        cmd_views(a.push(cmd)) == cmd_views(a).push(cmd@),
{
    assert(cmd_views(a.push(cmd)) =~= cmd_views(a).push(cmd@));
}

/// Appends to `out_commands` the primitives that draw `cmd` under `style`.
pub fn translate_cmd(out_commands: &mut Vec<PaintCmd>, style: &Style, cmd: GuiCmd)
    ensures
        cmd_views(final(out_commands)@) == cmd_views(old(out_commands)@) + translated(cmd@, *style),
{
    let ghost before = out_commands@;
    let ghost wanted = cmd_views(before) + translated(cmd@, *style);
    match cmd {
        GuiCmd::PaintCommands(mut commands) => {
            proof {
                lemma_cmd_views_concat(before, commands@);
            }
            out_commands.append(&mut commands);
        },
        GuiCmd::Button { interact, rect, text } => {
            let center = rect.center();
            out_commands.push(
                PaintCmd::Rect {
                    corner_radius: 5,
                    fill: Some(fill_color(interact)),
                    outline: None,
                    rect,
                },
            );
            out_commands.push(
                PaintCmd::Text {
                    pos: Pos2 { x: center.x, y: saturate(center.y as i64 + 6) },
                    text,
                    text_style: TextStyle::Body,
                    align: TextAlign::Center,
                    color: srgba(255, 255, 255, 187),
                },
            );
            assert(cmd_views(out_commands@) =~= wanted);
        },
        GuiCmd::Checkbox { checked, interact, rect, text } => {
            let fill = fill_color(interact);
            let stroke = stroke_color(interact);
            let box_rect = Rect::from_center_size(
                Pos2 { x: saturate(rect.min.x as i64 + 8), y: rect.center().y },
                Vec2 { x: 16, y: 16 },
            );
            out_commands.push(
                PaintCmd::Rect { corner_radius: 3, fill: Some(fill), outline: None, rect: box_rect },
            );
            if checked {
                let square = Rect::from_center_size(box_rect.center(), Vec2 { x: 10, y: 10 });
                let mut points: Vec<Pos2> = Vec::new();
                points.push(Pos2 { x: square.min.x, y: square.center().y });
                points.push(Pos2 { x: square.center().x, y: square.max.y });
                points.push(Pos2 { x: square.max.x, y: square.min.y });
                assert(points@ =~= checkmark_points(box_rect));
                out_commands.push(PaintCmd::Line { points, color: stroke, width: style.line_width });
            }
            out_commands.push(
                PaintCmd::Text {
                    pos: Pos2 {
                        x: saturate(box_rect.max.x as i64 + 4),
                        y: saturate(rect.center().y as i64 + 5),
                    },
                    text,
                    text_style: TextStyle::Body,
                    align: TextAlign::Start,
                    color: stroke,
                },
            );
            assert(cmd_views(out_commands@) =~= wanted);
        },
        GuiCmd::RadioButton { checked, interact, rect, text } => {
            let fill = fill_color(interact);
            let stroke = stroke_color(interact);
            let center = Pos2 { x: saturate(rect.min.x as i64 + 8), y: rect.center().y };
            out_commands.push(PaintCmd::Circle { center, fill: Some(fill), outline: None, radius: 8 });
            if checked {
                out_commands.push(
                    PaintCmd::Circle {
                        center,
                        fill: Some(srgba(0, 0, 0, 255)),
                        outline: None,
                        radius: 4,
                    },
                );
            }
            out_commands.push(
                PaintCmd::Text {
                    pos: Pos2 {
                        x: saturate(rect.min.x as i64 + 20),
                        y: saturate(rect.center().y as i64 + 7),
                    },
                    text,
                    text_style: TextStyle::Body,
                    align: TextAlign::Start,
                    color: stroke,
                },
            );
            assert(cmd_views(out_commands@) =~= wanted);
        },
        GuiCmd::Slider { interact, label, max, min, rect, value } => {
            let track = Rect::from_min_size(
                Pos2 { x: rect.min.x, y: lerp(rect.min.y, rect.max.y, 2, 3) },
                Vec2 { x: rect.width(), y: 8 },
            );
            let marker_center_x = remap_clamp(value, min, max, rect.min.x, rect.max.x);
            let marker = Rect::from_center_size(
                Pos2 { x: marker_center_x, y: track.center().y },
                Vec2 { x: 16, y: 16 },
            );
            let mut text = label;
            text.append(": ");
            push_fixed3(&mut text, value);
            out_commands.push(
                PaintCmd::Rect {
                    corner_radius: 2,
                    fill: Some(srgba(34, 34, 34, 255)),
                    outline: None,
                    rect: track,
                },
            );
            out_commands.push(
                PaintCmd::Rect {
                    corner_radius: 3,
                    fill: Some(fill_color(interact)),
                    outline: None,
                    rect: marker,
                },
            );
            out_commands.push(
                PaintCmd::Text {
                    pos: Pos2 {
                        x: rect.min.x,
                        y: saturate(lerp(rect.min.y, rect.max.y, 1, 3) as i64 + 6),
                    },
                    text,
                    text_style: TextStyle::Body,
                    align: TextAlign::Start,
                    color: srgba(255, 255, 255, 187),
                },
            );
            assert(cmd_views(out_commands@) =~= wanted);
        },
        GuiCmd::Text { pos, text, text_align, style: text_style } => {
            out_commands.push(
                PaintCmd::Text {
                    pos: pos.offset(Vec2 { x: 0, y: 7 }),
                    text,
                    text_style,
                    align: text_align,
                    color: srgba(255, 255, 255, 187),
                },
            );
            assert(cmd_views(out_commands@) =~= wanted);
        },
    }
}

/// The primitives that draw `gui_commands` under `style`, in their order.
pub fn into_paint_commands(gui_commands: &[GuiCmd], style: &Style) -> (paint_commands: Vec<PaintCmd>)
    ensures
        cmd_views(paint_commands@) == translated_all(gui_views(gui_commands@), *style),
{
    let mut paint_commands: Vec<PaintCmd> = Vec::new();
    let mut i: usize = 0;
    assert(cmd_views(paint_commands@) =~= Seq::empty());
    assert(gui_views(gui_commands@.take(0)) =~= Seq::empty());
    while i < gui_commands.len()
        invariant
            i <= gui_commands.len(),
            cmd_views(paint_commands@) == translated_all(gui_views(gui_commands@.take(i as int)), *style),
        decreases gui_commands.len() - i,
    {
        let cmd = gui_commands[i].clone();
        proof {
            let upto = gui_views(gui_commands@.take(i + 1));
            assert(upto.drop_last() =~= gui_views(gui_commands@.take(i as int)));
            assert(upto.last() == gui_commands@[i as int]@);
        }
        translate_cmd(&mut paint_commands, style, cmd);
        i = i + 1;
    }
    proof {
        assert(gui_commands@.take(i as int) == gui_commands@);
    }
    paint_commands
}

/// A value of the slider, held between `min` and `max`.
pub open spec fn held_between(value: i64, min: i64, max: i64) -> i64 {
    if value < min {
        min
    } else if value > max {
        max
    } else {
        value
    }
}

/// A check box that is not checked draws no line. One that is checked draws
/// exactly one, its mark, right after the box; the mark has three points,
/// and each lies in the square that bounds the mark.
pub proof fn lemma_checkbox_mark(checked: bool, interact: InteractInfo, rect: Rect, text: Seq<char>, style: Style)
    ensures
        ({
            let drawn = translated(GuiCmdView::Checkbox { checked, interact, rect, text }, style);
            let square = checkmark_square(checkbox_box(rect));
            &&& !checked ==> forall|i: int| 0 <= i < drawn.len() ==> !(#[trigger] drawn[i] is Line)
            &&& checked ==> {
                &&& drawn.len() == 3
                &&& drawn[0] is Rect
                &&& drawn[0]->Rect_rect == checkbox_box(rect)
                &&& drawn[1] is Line
                &&& drawn[2] is Text
                &&& drawn[1]->Line_points.len() == 3
                &&& forall|k: int| 0 <= k < 3 ==> square.spec_contains(#[trigger] drawn[1]->Line_points[k])
            }
        }),
{
    let drawn = translated(GuiCmdView::Checkbox { checked, interact, rect, text }, style);
    let square = checkmark_square(checkbox_box(rect));
    if checked {
        let points = checkmark_points(checkbox_box(rect));
        assert(drawn[1]->Line_points == points);
        assert(square.spec_contains(points[0]));
        assert(square.spec_contains(points[1]));
        assert(square.spec_contains(points[2]));
    }
}

/// Where the box of a check box has its full size of 16 by 16, which it has
/// unless it reaches over an end of the grid, the three points of the mark
/// lie five points left of, below, and right of and above the centre of
/// the box, and all three lie inside the box.
pub proof fn lemma_checkbox_mark_in_box(rect: Rect)
    requires
        checkbox_box(rect).max.x - checkbox_box(rect).min.x == 16,
        checkbox_box(rect).max.y - checkbox_box(rect).min.y == 16,
    ensures
        ({
            let box_rect = checkbox_box(rect);
            let center = box_rect.spec_center();
            let points = checkmark_points(box_rect);
            &&& points.len() == 3
            &&& points[0].x == center.x - 5 && points[0].y == center.y
            &&& points[1].x == center.x && points[1].y == center.y + 5
            &&& points[2].x == center.x + 5 && points[2].y == center.y - 5
            &&& forall|k: int| 0 <= k < 3 ==> box_rect.spec_contains(#[trigger] points[k])
        }),
{
    let box_rect = checkbox_box(rect);
    let center = box_rect.spec_center();
    let points = checkmark_points(box_rect);
    assert(center.x == box_rect.min.x + 8);
    assert(center.y == box_rect.min.y + 8);
    assert(box_rect.spec_contains(points[0]));
    assert(box_rect.spec_contains(points[1]));
    assert(box_rect.spec_contains(points[2]));
}

/// The marker of a slider is placed by the value held between `min` and
/// `max`: a value at or below `min` puts it at the left end of the track,
/// a value at or above `max` at the right end, and no value puts it
/// outside of the two ends. The second primitive of the slider is the
/// marker.
pub proof fn lemma_slider_marker(
    interact: InteractInfo,
    label: Seq<char>,
    rect: Rect,
    value: i64,
    min: i64,
    max: i64,
    style: Style,
)
    requires
        min < max,
    ensures
        slider_marker(rect, value, min, max) == slider_marker(rect, held_between(value, min, max), min, max),
        value <= min ==> slider_marker(rect, value, min, max) == slider_marker_at(rect, rect.min.x),
        value >= max ==> slider_marker(rect, value, min, max) == slider_marker_at(rect, rect.max.x),
        spec_min(rect.min.x as int, rect.max.x as int) <= spec_remap_clamp(
            value,
            min,
            max,
            rect.min.x,
            rect.max.x,
        ) <= spec_max(rect.min.x as int, rect.max.x as int),
        translated(GuiCmdView::Slider { interact, label, max, min, rect, value }, style)[1]
            == (PaintCmdView::Rect {
            corner_radius: 3,
            fill: Some(spec_fill_color(interact)),
            outline: None,
            rect: slider_marker(rect, value, min, max),
        }),
{
    lemma_remap_between(value, min, max, rect.min.x, rect.max.x);
}

} // verus!
