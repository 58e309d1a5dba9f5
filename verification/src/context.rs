//! The context of a session: the state that all widget code of a frame
//! shares, and the transitions from one frame to the next.

use crate::areas::layers_of;
use crate::areas::lemma_with_state_registers;
use crate::areas::position_of;
use crate::areas::well_ordered;
use crate::areas::topmost_hit;
use crate::areas::with_state;
use crate::areas::AreaState;
use crate::fonts::FontDefinitions;
use crate::graphics::drained;
use crate::graphics::lemma_drained_empty;
use crate::graphics::paint_order;
use crate::graphics::pushed;
use crate::graphics::GraphicLayers;
use crate::graphics::Layered;
use crate::input::InputState;
use crate::input::RawInput;
use crate::inspect::widget_views;
use crate::inspect::PaintOptions;
use crate::inspect::PaintStats;
use crate::inspect::Widget;
use crate::inspect::WidgetView;
use crate::layer::Id;
use crate::layer::Layer;
use crate::math::align_rect;
use crate::math::spec_align_rect;
use crate::math::Align;
use crate::math::Pos2;
use crate::math::Rect;
use crate::memory::resolve;
use crate::memory::InteractInfo;
use crate::memory::Interaction;
use crate::memory::Memory;
use crate::memory::MemoryView;
use crate::memory::Sense;
use crate::output::Output;
use crate::output::OutputView;
use crate::paint::clipped_views;
use crate::paint::gray;
use crate::paint::spec_gray;
use crate::paint::Color;
use crate::paint::Galley;
use crate::paint::GalleyView;
use crate::paint::LineStyle;
use crate::paint::PaintCmd;
use crate::paint::PaintCmdView;
use crate::paint::TextAlign;
use crate::paint::TextStyle;
use crate::paint::Triangles;
use crate::style::Style;
use crate::used_ids::clash_diagnostics;
use crate::used_ids::diagnostic_views;
use crate::used_ids::Diagnostic;
use crate::text::decimal;
use crate::text::fixed3;
use crate::text::push_decimal;
use crate::text::push_fixed3;
use crate::text::push_signed;
use crate::text::signed_decimal;
use crate::used_ids::UsedIds;
use vstd::prelude::*;
use vstd::string::StringExecFns;

verus! {

/// A region that widgets are laid out in: its layer, its identity and its
/// bounds.
#[derive(Clone, Copy, Debug, PartialEq, Eq, Structural)]
pub struct Ui {
    pub layer: Layer,
    pub id: Id,
    pub rect: Rect,
}

/// The answer to a claim of an identity: the identity, and what to show the
/// author of the interface if the claim clashes with an earlier one.
#[derive(Debug)]
pub struct Registration {
    pub id: Id,
    pub diagnostics: Vec<Diagnostic>,
}

/// The state of a session.
pub struct Context {
    style: Style,
    paint_options: PaintOptions,
    fonts: Option<FontDefinitions>,
    fonts_rebuilt: bool,
    font_definitions: FontDefinitions,
    memory: Memory,
    input: InputState,
    graphics: GraphicLayers,
    output: Output,
    used_ids: UsedIds,
    paint_stats: PaintStats,
}

/// The mathematical content of a [`Context`].
pub struct ContextView {
    /// The style that new regions start with.
    pub style: Style,
    pub paint_options: PaintOptions,
    /// The configuration that the fonts in use were built from; none before
    /// the first frame.
    pub fonts: Option<FontDefinitions>,
    /// Whether the fonts in use were built at the start of this frame.
    pub fonts_rebuilt: bool,
    /// The configuration that the fonts of the next frame are built from.
    pub font_definitions: FontDefinitions,
    pub memory: MemoryView,
    /// The input snapshot of this frame.
    pub input: InputState,
    /// What was painted this frame.
    pub graphics: Layered,
    /// What this frame asks of the platform.
    pub output: OutputView,
    /// The identities that were claimed this frame, by their numbers, each
    /// with the position of its latest claim.
    pub used_ids: Map<u64, Pos2>,
    pub paint_stats: PaintStats,
}

impl ContextView {
    /// What holds of the content of every context: no layer is registered
    /// twice, and the registered layers lie in the order of their classes.
    pub open spec fn wf(self) -> bool {
        well_ordered(self.memory.areas)
    }

    /// The state of a new session.
    pub open spec fn new() -> ContextView {
        ContextView {
            style: Style::spec_default(),
            paint_options: PaintOptions::spec_default(),
            fonts: None,
            fonts_rebuilt: false,
            font_definitions: FontDefinitions::spec_default(),
            memory: MemoryView {
                interaction: Interaction::spec_default(),
                window_interaction: None,
                areas: Seq::empty(),
            },
            input: InputState::spec_default(),
            graphics: Map::empty(),
            output: OutputView::nothing(),
            used_ids: Map::empty(),
            paint_stats: PaintStats::spec_default(),
        }
    }

    /// The bounds of the screen.
    pub open spec fn rect(self) -> Rect {
        Rect::spec_from_min_size(Pos2 { x: 0, y: 0 }, self.input.screen_size)
    }

    /// The region that covers the screen behind all windows.
    pub open spec fn fullscreen_ui(self) -> Ui {
        Ui { layer: Layer::spec_background(), id: Id::spec_background(), rect: self.rect() }
    }

    /// The first half of starting a frame: the interest of the frame before
    /// is forgotten, no identity is claimed, nothing is painted, the input
    /// snapshot is derived from the one before and `new_raw_input`, and
    /// the fonts follow the scale of the new snapshot.
    pub open spec fn begin_frame_mut(self, new_raw_input: RawInput) -> ContextView {
        let input = self.input.spec_begin_frame(new_raw_input);
        let font_definitions = self.font_definitions.spec_with_scale(input.pixels_per_point);
        ContextView {
            memory: self.memory.begin_frame(),
            used_ids: Map::empty(),
            graphics: Map::empty(),
            input,
            font_definitions,
            fonts: Some(font_definitions),
            fonts_rebuilt: font_definitions.spec_needs_rebuild(self.fonts),
            ..self
        }
    }

    /// The second half of starting a frame: the background is registered as
    /// an area that covers the screen.
    pub open spec fn with_fullscreen_ui(self) -> ContextView {
        ContextView {
            memory: MemoryView {
                areas: with_state(
                    self.memory.areas,
                    Layer::spec_background(),
                    AreaState { pos: Pos2 { x: 0, y: 0 }, size: self.rect().spec_size(), interactable: true },
                ),
                ..self.memory
            },
            ..self
        }
    }

    /// The state at the start of the frame of `new_input`.
    pub open spec fn begin_frame(self, new_input: RawInput) -> ContextView {
        self.begin_frame_mut(new_input).with_fullscreen_ui()
    }

    /// The order in which the layers are painted: the registered areas from
    /// the back to the front, and last the layer of diagnostic overlays.
    pub open spec fn paint_order(self) -> Seq<Layer> {
        paint_order(layers_of(self.memory.areas))
    }

    /// What the end of the frame hands to the tessellator.
    pub open spec fn drained(self) -> Seq<(Rect, PaintCmdView)> {
        drained(self.graphics, self.paint_order())
    }

    /// The state after the end of the frame: the ownership follows the
    /// button, the output and the paint buffer are empty, and the
    /// statistics count the primitives that were handed out.
    pub open spec fn end_frame(self) -> ContextView {
        ContextView {
            memory: self.memory.end_frame(self.input),
            output: OutputView::nothing(),
            graphics: Map::empty(),
            paint_stats: PaintStats {
                num_batches: 0,
                num_primitives: self.drained().len() as usize,
                num_vertices: 0,
                num_triangles: 0,
            },
            ..self
        }
    }

    /// The frontmost layer at `pos`.
    pub open spec fn layer_at(self, pos: Pos2) -> Option<Layer> {
        topmost_hit(self.memory.areas, pos, self.style.resize_interact_radius_side)
    }

    /// Whether the pointer is over the part of `rect` inside `clip_rect`,
    /// with no other layer in front of `layer` there.
    pub open spec fn contains_mouse(self, layer: Layer, clip_rect: Rect, rect: Rect) -> bool {
        match self.input.mouse.pos {
            Some(mouse_pos) => rect.spec_intersect(clip_rect).spec_contains(mouse_pos) && self.layer_at(
                mouse_pos,
            ) == Some(layer),
            None => false,
        }
    }

    /// The region in which the pointer counts as over `rect`: larger than
    /// `rect` by half the item spacing on each side.
    pub open spec fn interact_rect(self, rect: Rect) -> Rect {
        rect.spec_expand2(self.style.item_spacing.spec_halved())
    }

    /// Whether a probe of `rect` finds the pointer over it.
    pub open spec fn hovers(self, layer: Layer, clip_rect: Rect, rect: Rect) -> bool {
        self.contains_mouse(layer, clip_rect, self.interact_rect(rect))
    }

    /// What a probe of `rect` learns.
    pub open spec fn interact_info(
        self,
        layer: Layer,
        clip_rect: Rect,
        rect: Rect,
        interaction_id: Option<Id>,
        sense: Sense,
    ) -> InteractInfo {
        resolve(
            self.memory.interaction,
            self.memory.window_interaction,
            self.input.mouse,
            rect,
            self.hovers(layer, clip_rect, rect),
            interaction_id,
            sense,
        ).info
    }

    /// The state after a probe of `rect`.
    pub open spec fn interact(
        self,
        layer: Layer,
        clip_rect: Rect,
        rect: Rect,
        interaction_id: Option<Id>,
        sense: Sense,
    ) -> ContextView {
        ContextView {
            memory: self.memory.interact(
                self.input.mouse,
                rect,
                self.hovers(layer, clip_rect, rect),
                interaction_id,
                sense,
            ),
            ..self
        }
    }

    /// The state after one more primitive was painted on `layer`.
    pub open spec fn add_paint_cmd(self, layer: Layer, cmd: PaintCmdView) -> ContextView {
        ContextView { graphics: pushed(self.graphics, layer, Rect::spec_everything(), cmd), ..self }
    }

    /// The state after a measured text was painted on `layer` at `pos`, in
    /// `color` or else in the colour of the style.
    pub open spec fn add_galley(
        self,
        layer: Layer,
        pos: Pos2,
        galley: GalleyView,
        text_style: TextStyle,
        color: Option<Color>,
    ) -> ContextView {
        self.add_paint_cmd(
            layer,
            PaintCmdView::Text {
                pos,
                text: galley.text,
                text_style,
                align: TextAlign::Start,
                color: match color {
                    Some(color) => color,
                    None => self.style.text_color,
                },
            },
        )
    }

    /// Where a measured text lies that is aligned at `pos`.
    pub open spec fn floating_rect(pos: Pos2, galley: GalleyView, align: (Align, Align)) -> Rect {
        spec_align_rect(Rect::spec_from_min_size(pos, galley.size), align.0, align.1)
    }

    /// The state after a measured text was painted aligned at `pos`.
    pub open spec fn floating_text(
        self,
        layer: Layer,
        pos: Pos2,
        galley: GalleyView,
        text_style: TextStyle,
        align: (Align, Align),
        text_color: Option<Color>,
    ) -> ContextView {
        self.add_galley(layer, Self::floating_rect(pos, galley, align).min, galley, text_style, text_color)
    }

    /// The state after an error was shown at `pos`: on the layer of
    /// diagnostic overlays, a dark box with a red outline two points around
    /// the text, and on it the text in red.
    pub open spec fn show_error(self, pos: Pos2, galley: GalleyView) -> ContextView {
        let rect = Self::floating_rect(pos, galley, (Align::Min, Align::Min));
        self.add_paint_cmd(
            Layer::spec_debug(),
            PaintCmdView::Rect {
                corner_radius: 0,
                fill: Some(spec_gray(0, 240)),
                outline: Some(LineStyle::spec_new(1, Color::spec_red())),
                rect: rect.spec_expand(2),
            },
        ).add_galley(Layer::spec_debug(), rect.min, galley, TextStyle::Monospace, Some(Color::spec_red()))
    }

    /// The state after a text was shown at `pos` on the layer of diagnostic
    /// overlays, in yellow.
    pub open spec fn debug_text(self, pos: Pos2, galley: GalleyView) -> ContextView {
        self.floating_text(
            Layer::spec_debug(),
            pos,
            galley,
            TextStyle::Monospace,
            (Align::Min, Align::Min),
            Some(Color::spec_yellow()),
        )
    }

    /// The state after `rect` was outlined on the layer of diagnostic
    /// overlays, two points wide in `color`, with a text at its corner.
    pub open spec fn debug_rect(self, rect: Rect, color: Color, galley: GalleyView) -> ContextView {
        self.add_paint_cmd(
            Layer::spec_debug(),
            PaintCmdView::Rect {
                corner_radius: 0,
                fill: None,
                outline: Some(LineStyle::spec_new(2, color)),
                rect,
            },
        ).floating_text(
            Layer::spec_debug(),
            rect.min,
            galley,
            TextStyle::Monospace,
            (Align::Min, Align::Min),
            Some(color),
        )
    }

    /// The state after `id` was claimed at `pos`.
    pub open spec fn register_unique_id(self, id: Id, pos: Pos2) -> ContextView {
        ContextView { used_ids: self.used_ids.insert(id.0, pos), ..self }
    }
}

impl ContextView {
    /// The row of the settings panel that a click on its row `clicked`
    /// means for the panel of the paint options, which begins below the
    /// first heading.
    pub open spec fn settings_click(clicked: Option<usize>) -> Option<usize> {
        match clicked {
            Some(row) => if row >= 1 {
                Some((row - 1) as usize)
            } else {
                None
            },
            None => None,
        }
    }

    /// The state after the settings panel was shown and its row `clicked`
    /// was clicked: that paint option is toggled, and the fonts of the next
    /// frame are built from the configuration of the fonts in use.
    pub open spec fn settings_ui(self, clicked: Option<usize>) -> ContextView {
        ContextView {
            paint_options: self.paint_options.toggled(Self::settings_click(clicked)),
            font_definitions: self.fonts.unwrap(),
            ..self
        }
    }

    /// The rows of the settings panel.
    pub open spec fn settings_rows(self) -> Seq<WidgetView> {
        seq![WidgetView::Heading { text: "Style"@ }] + self.paint_options.rows() + seq![
            WidgetView::Heading { text: "Fonts"@ },
        ]
    }

    /// The text that tells the size and the scale of the screen.
    pub open spec fn screen_text(self) -> Seq<char> {
        "Screen size: "@ + signed_decimal(self.input.screen_size.x as int) + " x "@ + signed_decimal(
            self.input.screen_size.y as int,
        ) + " points, pixels_per_point: "@ + fixed3(self.input.pixels_per_point as int)
    }

    /// The rows of the inspection panel: the screen, then the statistics
    /// of painting.
    pub open spec fn inspection_rows(self) -> Seq<WidgetView> {
        seq![
            WidgetView::Label { text: self.screen_text(), tooltip: None },
            WidgetView::Heading { text: "Painting:"@ },
        ] + self.paint_stats.rows()
    }

    /// The state after the memory panel was shown and its row `clicked`
    /// was clicked: the first row forgets everything, the third forgets
    /// the areas.
    pub open spec fn memory_ui(self, clicked: Option<usize>) -> ContextView {
        if clicked == Some(0usize) {
            ContextView {
                memory: MemoryView {
                    interaction: Interaction::spec_default(),
                    window_interaction: None,
                    areas: Seq::empty(),
                },
                ..self
            }
        } else if clicked == Some(2usize) {
            ContextView { memory: MemoryView { areas: Seq::empty(), ..self.memory }, ..self }
        } else {
            self
        }
    }

    /// The rows of the memory panel. The count of areas is taken after a
    /// click on the first row and before a click on the third took effect.
    pub open spec fn memory_rows(self, clicked: Option<usize>) -> Seq<WidgetView> {
        let shown: nat = if clicked == Some(0usize) {
            0
        } else {
            self.memory.areas.len()
        };
        seq![
            WidgetView::Button { text: "Reset all"@, tooltip: Some("Reset all state"@) },
            WidgetView::Label { text: decimal(shown) + " areas (window positions)"@, tooltip: None },
            WidgetView::Button { text: "Reset"@, tooltip: None },
            WidgetView::Label {
                text: "NOTE: the position of this window cannot be reset from within itself."@,
                tooltip: None,
            },
        ]
    }
}

impl View for Context {
    type V = ContextView;

    closed spec fn view(&self) -> ContextView {
        ContextView {
            style: self.style,
            paint_options: self.paint_options,
            fonts: self.fonts,
            fonts_rebuilt: self.fonts_rebuilt,
            font_definitions: self.font_definitions,
            memory: self.memory@,
            input: self.input,
            graphics: self.graphics@,
            output: self.output@,
            used_ids: self.used_ids@,
            paint_stats: self.paint_stats,
        }
    }
}

impl Context {
    /// The context of a new session.
    pub fn new() -> (ctx: Context)
        ensures
            ctx@ == ContextView::new(),
    {
        Context {
            style: Style::default(),
            paint_options: PaintOptions::default(),
            fonts: None,
            fonts_rebuilt: false,
            font_definitions: FontDefinitions::default(),
            memory: Memory::new(),
            input: InputState::default(),
            graphics: GraphicLayers::new(),
            output: Output::default(),
            used_ids: UsedIds::new(),
            paint_stats: PaintStats::default(),
        }
    }

    /// The bounds of the screen.
    pub fn rect(&self) -> (rect: Rect)
        ensures
            rect == self@.rect(),
    {
        Rect::from_min_size(Pos2 { x: 0, y: 0 }, self.input.screen_size)
    }

    /// What the engine remembers between frames, for reading and writing.
    pub fn memory(&mut self) -> (memory: &mut Memory)
        ensures
            memory@ == old(self)@.memory,
            final(self)@ == (ContextView { memory: final(memory)@, ..old(self)@ }),
    {
        &mut self.memory
    }

    /// The paint buffer of this frame, for reading and writing.
    pub fn graphics(&mut self) -> (graphics: &mut GraphicLayers)
        ensures
            graphics@ == old(self)@.graphics,
            final(self)@ == (ContextView { graphics: final(graphics)@, ..old(self)@ }),
    {
        &mut self.graphics
    }

    /// What this frame asks of the platform, for reading and writing.
    pub fn output(&mut self) -> (output: &mut Output)
        ensures
            output@ == old(self)@.output,
            final(self)@ == (ContextView { output: final(output)@, ..old(self)@ }),
    {
        &mut self.output
    }

    /// The input snapshot of this frame.
    pub fn input(&self) -> (input: &InputState)
        ensures
            *input == self@.input,
    {
        &self.input
    }

    /// The configuration that the fonts in use were built from. There is
    /// none before the first frame has begun.
    pub fn fonts(&self) -> (fonts: &FontDefinitions)
        requires
            self@.fonts.is_some(),
        ensures
            Some(*fonts) == self@.fonts,
    {
        self.fonts.as_ref().unwrap()
    }

    /// Whether the fonts in use were built at the start of this frame, so
    /// that what was made from the fonts before is out of date.
    pub fn fonts_rebuilt(&self) -> (rebuilt: bool)
        ensures
            rebuilt == self@.fonts_rebuilt,
    {
        self.fonts_rebuilt
    }

    /// Sets the configuration that the fonts are built from at the start of
    /// the next frame. Its scale is replaced by that of the input then.
    pub fn set_fonts(&mut self, font_definitions: FontDefinitions)
        ensures
            final(self)@ == (ContextView { font_definitions, ..old(self)@ }),
    {
        self.font_definitions = font_definitions;
    }

    /// The style that new regions start with.
    pub fn style(&self) -> (style: Style)
        ensures
            style == self@.style,
    {
        self.style
    }

    /// Replaces the style that new regions start with.
    pub fn set_style(&mut self, style: Style)
        ensures
            final(self)@ == (ContextView { style, ..old(self)@ }),
    {
        self.style = style;
    }

    /// Device pixels per point, in thousandths.
    pub fn pixels_per_point(&self) -> (scale: u32)
        ensures
            scale == self@.input.pixels_per_point,
    {
        self.input.pixels_per_point
    }

    /// The settings of painting for this frame's scale.
    pub fn paint_options(&self) -> (options: PaintOptions)
        ensures
            options == self@.paint_options.spec_for_scale(self@.input.pixels_per_point),
    {
        self.paint_options.for_scale(self.input.pixels_per_point)
    }

    /// The statistics of the last frame that was painted.
    pub fn paint_stats(&self) -> (stats: PaintStats)
        ensures
            stats == self@.paint_stats,
    {
        self.paint_stats
    }

    /// Starts the frame of `new_input` and returns the region that covers
    /// the screen behind all windows.
    pub fn begin_frame(&mut self, new_input: RawInput) -> (ui: Ui)
        ensures
            final(self)@ == old(self)@.begin_frame(new_input),
            ui == final(self)@.fullscreen_ui(),
            final(self)@.wf(),
    {
        self.begin_frame_mut(new_input);
        self.fullscreen_ui()
    }

    fn begin_frame_mut(&mut self, new_raw_input: RawInput)
        ensures
            final(self)@ == old(self)@.begin_frame_mut(new_raw_input),
    {
        self.memory.begin_frame();
        self.used_ids.clear();
        self.graphics.clear();
        self.input = self.input.begin_frame(new_raw_input);
        self.font_definitions.pixels_per_point = self.input.pixels_per_point;
        self.fonts_rebuilt = self.font_definitions.needs_rebuild(self.fonts);
        if self.fonts_rebuilt {
            self.fonts = Some(self.font_definitions);
        }
    }

    /// Ends the frame: returns what the frame asks of the platform and what
    /// it painted, layer by layer from the back to the front, and leaves
    /// both empty for the next frame.
    pub fn end_frame(&mut self) -> (out: (Output, Vec<(Rect, PaintCmd)>))
        ensures
            out.0@ == old(self)@.output,
            clipped_views(out.1@) == old(self)@.drained(),
            final(self)@ == old(self)@.end_frame(),
    {
        let input = self.input;
        self.memory.end_frame(&input);
        let mut output = Output::default();
        std::mem::swap(&mut self.output, &mut output);
        let paint_commands = self.drain_paint_lists();
        self.paint_stats = PaintStats {
            num_batches: 0,
            num_primitives: paint_commands.len(),
            num_vertices: 0,
            num_triangles: 0,
        };
        proof {
            assert(clipped_views(paint_commands@).len() == paint_commands@.len());
        }
        (output, paint_commands)
    }

    fn drain_paint_lists(&mut self) -> (commands: Vec<(Rect, PaintCmd)>)
        ensures
            clipped_views(commands@) == old(self)@.drained(),
            final(self)@ == (ContextView { graphics: Map::empty(), ..old(self)@ }),
    {
        let order = self.memory.areas.order();
        self.graphics.drain(&order)
    }

    /// Records what the tessellator made of the primitives of the last
    /// frame.
    pub fn paint(&mut self, batches: &Vec<(Rect, Triangles)>)
        ensures
            final(self)@ == (ContextView {
                paint_stats: PaintStats::spec_from_batches(old(self)@.paint_stats.num_primitives, batches@),
                ..old(self)@
            }),
    {
        self.paint_stats = PaintStats::from_batches(self.paint_stats.num_primitives, batches);
    }

    fn fullscreen_ui(&mut self) -> (ui: Ui)
        ensures
            final(self)@ == old(self)@.with_fullscreen_ui(),
            ui == old(self)@.fullscreen_ui(),
            final(self)@.wf(),
    {
        let rect = Rect::from_min_size(Pos2 { x: 0, y: 0 }, self.input.screen_size);
        let id = Id::background();
        let layer = Layer { order: crate::layer::Order::Background, id };
        self.memory.areas.set_state(layer, AreaState { pos: rect.min, size: rect.size(), interactable: true });
        Ui { layer, id, rect }
    }

    /// Claims the identity of the widget that `source` names, at `pos`.
    pub fn make_unique_id(&mut self, source: &str, pos: Pos2) -> (registration: Registration)
        ensures
            final(self)@ == old(self)@.register_unique_id(registration.id, pos),
            diagnostic_views(registration.diagnostics@) == clash_diagnostics(
                old(self)@.used_ids,
                registration.id,
                source@,
                pos,
            ),
    {
        self.register_unique_id(Id::new(source), source, pos)
    }

    /// Claims `id`, which `source_name` describes, at `pos`. If the identity
    /// was claimed this frame at a place that is not close by, the answer
    /// holds a diagnostic for each of the two places.
    pub fn register_unique_id(&mut self, id: Id, source_name: &str, pos: Pos2) -> (registration: Registration)
        ensures
            final(self)@ == old(self)@.register_unique_id(id, pos),
            registration.id == id,
            diagnostic_views(registration.diagnostics@) == clash_diagnostics(
                old(self)@.used_ids,
                id,
                source_name@,
                pos,
            ),
    {
        let diagnostics = self.used_ids.register(id, source_name, pos);
        Registration { id, diagnostics }
    }

    /// The frontmost layer at `pos`, where a window is reached a little
    /// outside its bounds.
    pub fn layer_at(&self, pos: Pos2) -> (layer: Option<Layer>)
        ensures
            layer == self@.layer_at(pos),
    {
        let resize_interact_radius_side = self.style.resize_interact_radius_side;
        self.memory.layer_at(pos, resize_interact_radius_side)
    }

    /// Whether the pointer is over the part of `rect` inside `clip_rect`,
    /// with no other layer in front of `layer` there.
    pub fn contains_mouse(&self, layer: Layer, clip_rect: Rect, rect: Rect) -> (contains: bool)
        ensures
            contains == self@.contains_mouse(layer, clip_rect, rect),
    {
        let rect = rect.intersect(clip_rect);
        match self.input.mouse.pos {
            Some(mouse_pos) => {
                rect.contains(mouse_pos) && match self.layer_at(mouse_pos) {
                    Some(top) => top == layer,
                    None => false,
                }
            },
            None => false,
        }
    }

    /// Probes the region `rect` of the widget `interaction_id` on `layer`:
    /// tells whether the pointer is over it, and lets the widget claim and
    /// complete clicks and drags as `sense` asks.
    pub fn interact(
        &mut self,
        layer: Layer,
        clip_rect: Rect,
        rect: Rect,
        interaction_id: Option<Id>,
        sense: Sense,
    ) -> (info: InteractInfo)
        ensures
            info == old(self)@.interact_info(layer, clip_rect, rect, interaction_id, sense),
            final(self)@ == old(self)@.interact(layer, clip_rect, rect, interaction_id, sense),
    {
        let interact_rect = rect.expand2(self.style.item_spacing.halved());
        let hovered = self.contains_mouse(layer, clip_rect, interact_rect);
        let mouse = self.input.mouse;
        self.memory.interact(&mouse, rect, hovered, interaction_id, sense)
    }

    /// Shows the measured text of an error at `pos`, on the layer of
    /// diagnostic overlays.
    pub fn show_error(&mut self, pos: Pos2, galley: Galley)
        ensures
            final(self)@ == old(self)@.show_error(pos, galley@),
    {
        let layer = Layer::debug();
        let text_style = TextStyle::Monospace;
        let rect = align_rect(Rect::from_min_size(pos, galley.size), Align::Min, Align::Min);
        self.add_paint_cmd(
            layer,
            PaintCmd::Rect {
                corner_radius: 0,
                fill: Some(gray(0, 240)),
                outline: Some(LineStyle::new(1, Color::red())),
                rect: rect.expand(2),
            },
        );
        self.add_galley(layer, rect.min, galley, text_style, Some(Color::red()));
    }

    /// Shows a measured text at `pos`, on the layer of diagnostic overlays.
    pub fn debug_text(&mut self, pos: Pos2, galley: Galley)
        ensures
            final(self)@ == old(self)@.debug_text(pos, galley@),
    {
        let layer = Layer::debug();
        let align = (Align::Min, Align::Min);
        self.floating_text(layer, pos, galley, TextStyle::Monospace, align, Some(Color::yellow()));
    }

    /// Outlines `rect` on the layer of diagnostic overlays and shows a
    /// measured text at its corner.
    pub fn debug_rect(&mut self, rect: Rect, color: Color, galley: Galley)
        ensures
            final(self)@ == old(self)@.debug_rect(rect, color, galley@),
    {
        let layer = Layer::debug();
        self.add_paint_cmd(
            layer,
            PaintCmd::Rect {
                corner_radius: 0,
                fill: None,
                outline: Some(LineStyle::new(2, color)),
                rect,
            },
        );
        let align = (Align::Min, Align::Min);
        let text_style = TextStyle::Monospace;
        self.floating_text(layer, rect.min, galley, text_style, align, Some(color));
    }

    /// Shows a measured text anywhere on the screen, aligned at `pos`, and
    /// returns where it lies.
    pub fn floating_text(
        &mut self,
        layer: Layer,
        pos: Pos2,
        galley: Galley,
        text_style: TextStyle,
        align: (Align, Align),
        text_color: Option<Color>,
    ) -> (rect: Rect)
        ensures
            rect == ContextView::floating_rect(pos, galley@, align),
            final(self)@ == old(self)@.floating_text(layer, pos, galley@, text_style, align, text_color),
    {
        let rect = align_rect(Rect::from_min_size(pos, galley.size), align.0, align.1);
        self.add_galley(layer, rect.min, galley, text_style, text_color);
        rect
    }

    /// Paints a text that was measured already.
    pub fn add_galley(
        &mut self,
        layer: Layer,
        pos: Pos2,
        galley: Galley,
        text_style: TextStyle,
        color: Option<Color>,
    )
        ensures
            final(self)@ == old(self)@.add_galley(layer, pos, galley@, text_style, color),
    {
        let color = match color {
            Some(color) => color,
            None => self.style.text_color,
        };
        self.add_paint_cmd(
            layer,
            PaintCmd::Text { pos, text: galley.text, text_style, align: TextAlign::Start, color },
        );
    }

    /// Paints one primitive on `layer`, without clipping.
    pub fn add_paint_cmd(&mut self, layer: Layer, paint_cmd: PaintCmd)
        ensures
            final(self)@ == old(self)@.add_paint_cmd(layer, paint_cmd@),
    {
        self.graphics.push(layer, Rect::everything(), paint_cmd);
    }
}

impl Context {
    /// Shows the settings as a panel: the paint options under a heading,
    /// and the heading of the fonts. `clicked` names the row that was
    /// clicked this frame, if one was. There are no fonts to show before
    /// the first frame has begun.
    pub fn settings_ui(&mut self, clicked: Option<usize>) -> (widgets: Vec<Widget>)
        requires
            old(self)@.fonts.is_some(),
        ensures
            final(self)@ == old(self)@.settings_ui(clicked),
            widget_views(widgets@) == final(self)@.settings_rows(),
    {
        let inner = match clicked {
            Some(row) => if row >= 1 {
                Some(row - 1)
            } else {
                None
            },
            None => None,
        };
        let mut widgets: Vec<Widget> = Vec::new();
        widgets.push(Widget::Heading { text: String::from_str("Style") });
        let mut options = self.paint_options.ui(inner);
        let ghost first = widgets@;
        let ghost second = options@;
        widgets.append(&mut options);
        let font_definitions = *self.fonts();
        self.set_fonts(font_definitions);
        let ghost third = widgets@;
        widgets.push(Widget::Heading { text: String::from_str("Fonts") });
        proof {
            assert(third == first + second);
            assert(widget_views(third) =~= widget_views(first) + widget_views(second));
            assert(widget_views(first) =~= seq![WidgetView::Heading { text: "Style"@ }]);
            assert(widget_views(widgets@) =~= self@.settings_rows());
        }
        widgets
    }

    /// Shows the screen and the statistics of painting as a panel.
    pub fn inspection_ui(&self) -> (widgets: Vec<Widget>)
        ensures
            widget_views(widgets@) == self@.inspection_rows(),
    {
        let mut text = String::from_str("Screen size: ");
        push_signed(&mut text, self.input.screen_size.x as i64);
        text.append(" x ");
        push_signed(&mut text, self.input.screen_size.y as i64);
        text.append(" points, pixels_per_point: ");
        push_fixed3(&mut text, self.input.pixels_per_point as i64);
        let mut widgets: Vec<Widget> = Vec::new();
        widgets.push(Widget::Label { text, tooltip: None });
        widgets.push(Widget::Heading { text: String::from_str("Painting:") });
        let ghost first = widgets@;
        let mut stats = self.paint_stats.ui();
        let ghost second = stats@;
        widgets.append(&mut stats);
        proof {
            assert(widgets@ == first + second);
            assert(widget_views(widgets@) =~= widget_views(first) + widget_views(second));
            assert(widget_views(first) =~= seq![
                WidgetView::Label { text: self@.screen_text(), tooltip: None },
                WidgetView::Heading { text: "Painting:"@ },
            ]);
        }
        widgets
    }

    /// Shows what the engine remembers as a panel with buttons to forget
    /// it. `clicked` names the row that was clicked this frame, if one was.
    pub fn memory_ui(&mut self, clicked: Option<usize>) -> (widgets: Vec<Widget>)
        ensures
            final(self)@ == old(self)@.memory_ui(clicked),
            widget_views(widgets@) == old(self)@.memory_rows(clicked),
    {
        let mut widgets: Vec<Widget> = Vec::new();
        widgets.push(
            Widget::Button {
                text: String::from_str("Reset all"),
                tooltip: Some(String::from_str("Reset all state")),
            },
        );
        let reset_all = match clicked {
            Some(row) => row == 0,
            None => false,
        };
        if reset_all {
            self.memory = Memory::new();
        }
        let mut text = String::new();
        push_decimal(&mut text, self.memory.areas.count() as u64);
        text.append(" areas (window positions)");
        widgets.push(Widget::Label { text, tooltip: None });
        widgets.push(Widget::Button { text: String::from_str("Reset"), tooltip: None });
        let reset_areas = match clicked {
            Some(row) => row == 2,
            None => false,
        };
        if reset_areas {
            self.memory.areas = crate::areas::Areas::new();
        }
        widgets.push(
            Widget::Label {
                text: String::from_str("NOTE: the position of this window cannot be reset from within itself."),
                tooltip: None,
            },
        );
        assert(widget_views(widgets@) =~= old(self)@.memory_rows(clicked));
        widgets
    }
}

impl Clone for Context {
    /// A copy of the whole state, from which the next frame can be derived
    /// while this one is still read.
    fn clone(&self) -> (copy: Context)
        ensures
            copy@ == self@,
    {
        Context {
            style: self.style,
            paint_options: self.paint_options,
            fonts: self.fonts,
            fonts_rebuilt: self.fonts_rebuilt,
            font_definitions: self.font_definitions,
            memory: self.memory.clone(),
            input: self.input,
            graphics: self.graphics.clone(),
            output: self.output.clone(),
            used_ids: self.used_ids.clone(),
            paint_stats: self.paint_stats,
        }
    }
}

/// One thing that happens to a context.
pub enum Step {
    /// A frame begins with this input.
    BeginFrame(RawInput),
    /// A widget probes its region.
    Interact { layer: Layer, clip_rect: Rect, rect: Rect, interaction_id: Option<Id>, sense: Sense },
    /// The frame ends.
    EndFrame,
}

impl ContextView {
    /// The state after one step.
    pub open spec fn step(self, step: Step) -> ContextView {
        match step {
            Step::BeginFrame(new_input) => self.begin_frame(new_input),
            Step::Interact { layer, clip_rect, rect, interaction_id, sense } => self.interact(
                layer,
                clip_rect,
                rect,
                interaction_id,
                sense,
            ),
            Step::EndFrame => self.end_frame(),
        }
    }

    /// The state after a sequence of steps.
    pub open spec fn run(self, steps: Seq<Step>) -> ContextView
        decreases steps.len(),
    {
        if steps.len() == 0 {
            self
        } else {
            self.run(steps.drop_last()).step(steps.last())
        }
    }
}

/// Whatever happens in whatever order, at every instant the click has no
/// owner or exactly one, and so has the drag.
pub proof fn lemma_ownership_invariant(start: ContextView, steps: Seq<Step>, instant: int)
    requires
        0 <= instant <= steps.len(),
    ensures
        ({
            let owners = start.run(steps.take(instant)).memory.interaction;
            &&& owners.click_owners() == Set::<Id>::empty() || exists|id: Id| owners.click_owners() == set![id]
            &&& owners.drag_owners() == Set::<Id>::empty() || exists|id: Id| owners.drag_owners() == set![id]
        }),
{
    start.run(steps.take(instant)).memory.interaction.lemma_at_most_one_owner();
}

/// The owner of the click stays the owner through the probes and the
/// beginnings of frames, in whatever order: only the end of a frame takes
/// the click away.
pub proof fn lemma_click_owner_stays(start: ContextView, steps: Seq<Step>)
    requires
        start.memory.interaction.click_id.is_some(),
        forall|i: int| 0 <= i < steps.len() ==> !(#[trigger] steps[i] is EndFrame),
    ensures
        start.run(steps).memory.interaction.click_id == start.memory.interaction.click_id,
    decreases steps.len(),
{
    if steps.len() > 0 {
        let front = steps.drop_last();
        assert forall|i: int| 0 <= i < front.len() implies !(#[trigger] front[i] is EndFrame) by {
            assert(front[i] == steps[i]);
        }
        lemma_click_owner_stays(start, front);
        assert(!(steps[steps.len() - 1] is EndFrame));
    }
}

/// A frame without widget activity hands nothing to the tessellator and
/// asks nothing of the platform, and the background is registered in it so
/// that what is painted on it is handed out.
pub proof fn lemma_idle_frame(before: ContextView, new_input: RawInput)
    requires
        before.wf(),
        before.output == OutputView::nothing(),
    ensures
        before.begin_frame(new_input).drained() == Seq::<(Rect, PaintCmdView)>::empty(),
        before.begin_frame(new_input).output == OutputView::nothing(),
        before.begin_frame(new_input).end_frame().output == OutputView::nothing(),
        before.begin_frame(new_input).end_frame().graphics == Layered::empty(),
        position_of(before.begin_frame(new_input).memory.areas, Layer::spec_background()).is_some(),
{
    let started = before.begin_frame(new_input);
    lemma_drained_empty(started.paint_order());
    let half = before.begin_frame_mut(new_input);
    lemma_with_state_registers(
        half.memory.areas,
        Layer::spec_background(),
        AreaState { pos: Pos2 { x: 0, y: 0 }, size: half.rect().spec_size(), interactable: true },
    );
}

/// A widget that asks for clicks and is pressed while the click has no
/// owner becomes active. If the button goes up in the next frame while the
/// pointer is still over the widget, the widget is clicked.
pub proof fn lemma_press_then_release_clicks(
    before: ContextView,
    layer: Layer,
    clip_rect: Rect,
    rect: Rect,
    id: Id,
    release: RawInput,
)
    requires
        before.input.mouse.pressed,
        before.input.mouse.down,
        before.hovers(layer, clip_rect, rect),
        before.memory.interaction.click_id.is_none(),
        !release.mouse_down,
        before.interact(layer, clip_rect, rect, Some(id), Sense::spec_click()).end_frame().begin_frame(
            release,
        ).hovers(layer, clip_rect, rect),
    ensures
        before.interact_info(layer, clip_rect, rect, Some(id), Sense::spec_click()).active,
        before.interact(layer, clip_rect, rect, Some(id), Sense::spec_click()).memory.interaction.click_id
            == Some(id),
        before.interact(layer, clip_rect, rect, Some(id), Sense::spec_click()).end_frame().begin_frame(
            release,
        ).interact_info(layer, clip_rect, rect, Some(id), Sense::spec_click()).clicked,
{
}

/// While another widget owns the click, a press over a hovered widget that
/// asks for clicks and owns no drag does not make it active and changes no
/// owner.
pub proof fn lemma_press_while_owned(
    before: ContextView,
    layer: Layer,
    clip_rect: Rect,
    rect: Rect,
    id: Id,
    owner: Id,
)
    requires
        before.input.mouse.pressed,
        before.hovers(layer, clip_rect, rect),
        before.memory.interaction.click_id == Some(owner),
        owner != id,
        before.memory.interaction.drag_id != Some(id),
    ensures
        !before.interact_info(layer, clip_rect, rect, Some(id), Sense::spec_click()).active,
        before.interact(layer, clip_rect, rect, Some(id), Sense::spec_click()).memory.interaction.click_id
            == Some(owner),
        before.interact(layer, clip_rect, rect, Some(id), Sense::spec_click()).memory.interaction.drag_id
            == before.memory.interaction.drag_id,
{
}

} // verus!
