//! What the engine remembers between frames: who owns the click and the
//! drag in progress, and the registry of areas.

use crate::areas::topmost_hit;
use crate::areas::AreaEntry;
use crate::areas::Areas;
use crate::input::InputState;
use crate::input::MouseInput;
use crate::layer::Id;
use crate::layer::Layer;
use crate::math::Pos2;
use crate::math::Rect;
use vstd::prelude::*;

verus! {

/// Which interactions a region asks for.
#[derive(Clone, Copy, Debug, PartialEq, Eq, Structural)]
pub struct Sense {
    pub click: bool,
    pub drag: bool,
}

impl Sense {
    /// No interest in the pointer beyond hovering.
    pub open spec fn spec_nothing() -> Sense {
        Sense { click: false, drag: false }
    }

    #[verifier::when_used_as_spec(spec_nothing)]
    pub fn nothing() -> (sense: Sense)
        ensures
            sense == Sense::spec_nothing(),
    {
        Sense { click: false, drag: false }
    }

    /// Interest in clicks.
    pub open spec fn spec_click() -> Sense {
        Sense { click: true, drag: false }
    }

    #[verifier::when_used_as_spec(spec_click)]
    pub fn click() -> (sense: Sense)
        ensures
            sense == Sense::spec_click(),
    {
        Sense { click: true, drag: false }
    }

    /// Interest in drags.
    pub open spec fn spec_drag() -> Sense {
        Sense { click: false, drag: true }
    }

    #[verifier::when_used_as_spec(spec_drag)]
    pub fn drag() -> (sense: Sense)
        ensures
            sense == Sense::spec_drag(),
    {
        Sense { click: false, drag: true }
    }

    /// Interest in clicks and in drags.
    pub open spec fn spec_click_and_drag() -> Sense {
        Sense { click: true, drag: true }
    }

    #[verifier::when_used_as_spec(spec_click_and_drag)]
    pub fn click_and_drag() -> (sense: Sense)
        ensures
            sense == Sense::spec_click_and_drag(),
    {
        Sense { click: true, drag: true }
    }
}

/// What a region learns about the pointer.
#[derive(Clone, Copy, Debug, PartialEq, Eq, Structural)]
pub struct InteractInfo {
    /// The region that was probed.
    pub rect: Rect,
    /// Whether the pointer is over the region and may react to it.
    pub hovered: bool,
    /// Whether a click on the region was completed this frame.
    pub clicked: bool,
    /// Whether that click completes a double click.
    pub double_clicked: bool,
    /// Whether the region owns the click or the drag in progress.
    pub active: bool,
}

/// The owners of the pointer interactions in progress.
#[derive(Clone, Copy, Debug, PartialEq, Eq, Structural)]
pub struct Interaction {
    /// The widget that owns the click in progress.
    pub click_id: Option<Id>,
    /// The widget that owns the drag in progress.
    pub drag_id: Option<Id>,
    /// Whether the owner of the drag is a window that is being moved, which
    /// gives way to any widget that claims the drag.
    pub drag_is_window: bool,
    /// Whether a hovered region asked for clicks this frame.
    pub click_interest: bool,
    /// Whether a hovered region asked for drags this frame.
    pub drag_interest: bool,
}

/// A window that is being moved or resized.
#[derive(Clone, Copy, Debug, PartialEq, Eq, Structural)]
pub struct WindowInteraction {
    pub area_layer: Layer,
    pub start_rect: Rect,
    pub start_mouse_pos: Pos2,
}

/// The outcome of one probe: what the region learns, and the ownership
/// afterwards.
pub struct Resolved {
    pub info: InteractInfo,
    pub interaction: Interaction,
    pub window_interaction: Option<WindowInteraction>,
}

impl Interaction {
    /// No owner and no interest.
    pub open spec fn spec_default() -> Interaction {
        Interaction {
            click_id: None,
            drag_id: None,
            drag_is_window: false,
            click_interest: false,
            drag_interest: false,
        }
    }

    /// Whether `id` owns the click or the drag in progress.
    pub open spec fn spec_is_active(self, id: Id) -> bool {
        self.click_id == Some(id) || self.drag_id == Some(id)
    }

    #[verifier::when_used_as_spec(spec_is_active)]
    pub fn is_active(self, id: Id) -> (active: bool)
        ensures
            active == self.spec_is_active(id),
    {
        let owns_click = match self.click_id {
            Some(owner) => owner == id,
            None => false,
        };
        let owns_drag = match self.drag_id {
            Some(owner) => owner == id,
            None => false,
        };
        owns_click || owns_drag
    }

    /// Whether any widget owns the click or the drag.
    pub open spec fn spec_is_using_mouse(self) -> bool {
        self.click_id.is_some() || self.drag_id.is_some()
    }

    #[verifier::when_used_as_spec(spec_is_using_mouse)]
    pub fn is_using_mouse(self) -> (using: bool)
        ensures
            using == self.spec_is_using_mouse(),
    {
        self.click_id.is_some() || self.drag_id.is_some()
    }

    /// The ownership at the start of a frame: the interest of the frame
    /// before is forgotten.
    pub open spec fn spec_begin_frame(self) -> Interaction {
        Interaction { click_interest: false, drag_interest: false, ..self }
    }

    /// The ownership at the end of a frame: a button that is up leaves no
    /// owner behind.
    pub open spec fn spec_end_frame(self, mouse: MouseInput) -> Interaction {
        if mouse.down {
            self
        } else {
            Interaction { click_id: None, drag_id: None, ..self }
        }
    }

    /// The claims that a press over the hovered region of `id` makes: the
    /// click if it has no owner, the drag if it has no owner or a window
    /// owns it.
    pub open spec fn claimed(self, id: Id, sense: Sense) -> Interaction {
        let takes_click = sense.click && self.click_id.is_none();
        let takes_drag = sense.drag && (self.drag_id.is_none() || self.drag_is_window);
        Interaction {
            click_id: if takes_click {
                Some(id)
            } else {
                self.click_id
            },
            drag_id: if takes_drag {
                Some(id)
            } else {
                self.drag_id
            },
            drag_is_window: if takes_drag {
                false
            } else {
                self.drag_is_window
            },
            ..self
        }
    }

    /// Whether a press over the hovered region of `id` claims anything.
    pub open spec fn claims(self, sense: Sense) -> bool {
        (sense.click && self.click_id.is_none()) || self.claims_drag(sense)
    }

    /// Whether a press over a hovered region claims the drag.
    pub open spec fn claims_drag(self, sense: Sense) -> bool {
        sense.drag && (self.drag_id.is_none() || self.drag_is_window)
    }
}

impl Default for Interaction {
    fn default() -> (interaction: Interaction)
        ensures
            interaction == Interaction::spec_default(),
    {
        Interaction {
            click_id: None,
            drag_id: None,
            drag_is_window: false,
            click_interest: false,
            drag_interest: false,
        }
    }
}

/// Resolves one probe of the region `rect` of `interaction_id`, where
/// `hovered` says whether the pointer is over the region on its own layer.
///
/// A probe without identity or without interest learns `hovered` and
/// changes nothing. Otherwise the interest is recorded, and the pointer's
/// transition decides, a press before a release before a held button:
/// a press over the region claims what is free and makes the region active
/// if it owns anything then, a press elsewhere is a miss, a release
/// completes a click of the owner, and a held button hides the hover from
/// all but the owner.
pub open spec fn resolve(
    interaction: Interaction,
    window_interaction: Option<WindowInteraction>,
    mouse: MouseInput,
    rect: Rect,
    hovered: bool,
    interaction_id: Option<Id>,
    sense: Sense,
) -> Resolved {
    if interaction_id.is_none() || sense == Sense::spec_nothing() {
        Resolved {
            info: InteractInfo { rect, hovered, clicked: false, double_clicked: false, active: false },
            interaction,
            window_interaction,
        }
    } else {
        let id = interaction_id.unwrap();
        let noted = Interaction {
            click_interest: interaction.click_interest || (hovered && sense.click),
            drag_interest: interaction.drag_interest || (hovered && sense.drag),
            ..interaction
        };
        let active = interaction.spec_is_active(id);
        if mouse.pressed {
            if hovered {
                Resolved {
                    info: InteractInfo {
                        rect,
                        hovered: true,
                        clicked: false,
                        double_clicked: false,
                        active: active || noted.claims(sense),
                    },
                    interaction: noted.claimed(id, sense),
                    window_interaction: if noted.claims_drag(sense) {
                        None
                    } else {
                        window_interaction
                    },
                }
            } else {
                Resolved {
                    info: InteractInfo {
                        rect,
                        hovered: false,
                        clicked: false,
                        double_clicked: false,
                        active: false,
                    },
                    interaction: noted,
                    window_interaction,
                }
            }
        } else if mouse.released {
            Resolved {
                info: InteractInfo {
                    rect,
                    hovered,
                    clicked: hovered && active,
                    double_clicked: hovered && active && mouse.double_click,
                    active,
                },
                interaction: noted,
                window_interaction,
            }
        } else if mouse.down {
            Resolved {
                info: InteractInfo {
                    rect,
                    hovered: hovered && active,
                    clicked: false,
                    double_clicked: false,
                    active,
                },
                interaction: noted,
                window_interaction,
            }
        } else {
            Resolved {
                info: InteractInfo { rect, hovered, clicked: false, double_clicked: false, active },
                interaction: noted,
                window_interaction,
            }
        }
    }
}

/// What the engine remembers between frames.
pub struct Memory {
    pub interaction: Interaction,
    pub window_interaction: Option<WindowInteraction>,
    pub areas: Areas,
}

/// The mathematical content of a [`Memory`].
pub struct MemoryView {
    pub interaction: Interaction,
    pub window_interaction: Option<WindowInteraction>,
    pub areas: Seq<AreaEntry>,
}

impl View for Memory {
    type V = MemoryView;

    open spec fn view(&self) -> MemoryView {
        MemoryView {
            interaction: self.interaction,
            window_interaction: self.window_interaction,
            areas: self.areas@,
        }
    }
}

impl MemoryView {
    /// The memory at the start of a frame.
    pub open spec fn begin_frame(self) -> MemoryView {
        MemoryView { interaction: self.interaction.spec_begin_frame(), ..self }
    }

    /// The memory at the end of a frame under the input `input`: a button
    /// that is up ends the click, the drag and the moving of a window.
    pub open spec fn end_frame(self, input: InputState) -> MemoryView {
        MemoryView {
            interaction: self.interaction.spec_end_frame(input.mouse),
            window_interaction: if input.mouse.down {
                self.window_interaction
            } else {
                None
            },
            ..self
        }
    }

    /// The memory after one probe.
    pub open spec fn interact(
        self,
        mouse: MouseInput,
        rect: Rect,
        hovered: bool,
        interaction_id: Option<Id>,
        sense: Sense,
    ) -> MemoryView {
        let resolved = resolve(
            self.interaction,
            self.window_interaction,
            mouse,
            rect,
            hovered,
            interaction_id,
            sense,
        );
        MemoryView {
            interaction: resolved.interaction,
            window_interaction: resolved.window_interaction,
            ..self
        }
    }
}

impl Memory {
    /// A memory without owners and without areas.
    pub fn new() -> (memory: Memory)
        ensures
            memory@ == (MemoryView {
                interaction: Interaction::spec_default(),
                window_interaction: None,
                areas: Seq::empty(),
            }),
    {
        Memory { interaction: Interaction::default(), window_interaction: None, areas: Areas::new() }
    }

    /// Starts a frame: the interest of the frame before is forgotten.
    pub fn begin_frame(&mut self)
        ensures
            final(self)@ == old(self)@.begin_frame(),
    {
        self.interaction.click_interest = false;
        self.interaction.drag_interest = false;
    }

    /// Ends a frame: once the button is up, the click and the drag have no
    /// owner and no window is being moved.
    pub fn end_frame(&mut self, input: &InputState)
        ensures
            final(self)@ == old(self)@.end_frame(*input),
    {
        if !input.mouse.down {
            self.interaction.click_id = None;
            self.interaction.drag_id = None;
            self.window_interaction = None;
        }
    }

    /// The frontmost layer that the pointer at `pos` reaches.
    pub fn layer_at(&self, pos: Pos2, resize_interact_radius_side: i32) -> (layer: Option<Layer>)
        ensures
            layer == topmost_hit(self@.areas, pos, resize_interact_radius_side),
    {
        self.areas.layer_at(pos, resize_interact_radius_side)
    }

    /// Resolves one probe and records its claims.
    pub fn interact(
        &mut self,
        mouse: &MouseInput,
        rect: Rect,
        hovered: bool,
        interaction_id: Option<Id>,
        sense: Sense,
    ) -> (info: InteractInfo)
        ensures
            info == resolve(
                old(self)@.interaction,
                old(self)@.window_interaction,
                *mouse,
                rect,
                hovered,
                interaction_id,
                sense,
            ).info,
            final(self)@ == old(self)@.interact(*mouse, rect, hovered, interaction_id, sense),
    {
        let id = match interaction_id {
            Some(id) => id,
            None => {
                return InteractInfo { rect, hovered, clicked: false, double_clicked: false, active: false };
            },
        };
        if sense == Sense::nothing() {
            return InteractInfo { rect, hovered, clicked: false, double_clicked: false, active: false };
        }
        self.interaction.click_interest = self.interaction.click_interest || (hovered && sense.click);
        self.interaction.drag_interest = self.interaction.drag_interest || (hovered && sense.drag);
        let active = self.interaction.is_active(id);
        if mouse.pressed {
            if hovered {
                let mut info = InteractInfo {
                    rect,
                    hovered: true,
                    clicked: false,
                    double_clicked: false,
                    active,
                };
                if sense.click && self.interaction.click_id.is_none() {
                    self.interaction.click_id = Some(id);
                    info.active = true;
                }
                if sense.drag && (self.interaction.drag_id.is_none() || self.interaction.drag_is_window) {
                    self.interaction.drag_id = Some(id);
                    self.interaction.drag_is_window = false;
                    self.window_interaction = None;
                    info.active = true;
                }
                info
            } else {
                InteractInfo { rect, hovered, clicked: false, double_clicked: false, active: false }
            }
        } else if mouse.released {
            let clicked = hovered && active;
            InteractInfo {
                rect,
                hovered,
                clicked,
                double_clicked: clicked && mouse.double_click,
                active,
            }
        } else if mouse.down {
            InteractInfo {
                rect,
                hovered: hovered && active,
                clicked: false,
                double_clicked: false,
                active,
            }
        } else {
            InteractInfo { rect, hovered, clicked: false, double_clicked: false, active }
        }
    }
}

impl Interaction {
    /// The widgets that own the click in progress.
    pub open spec fn click_owners(self) -> Set<Id> {
        Set::new(|id: Id| self.click_id == Some(id))
    }

    /// The widgets that own the drag in progress.
    pub open spec fn drag_owners(self) -> Set<Id> {
        Set::new(|id: Id| self.drag_id == Some(id))
    }

    /// In every state the click has no owner or exactly one, and so has the
    /// drag.
    pub proof fn lemma_at_most_one_owner(self)
        ensures
            self.click_owners() == Set::<Id>::empty() || exists|id: Id| self.click_owners() == set![id],
            self.drag_owners() == Set::<Id>::empty() || exists|id: Id| self.drag_owners() == set![id],
    {
        match self.click_id {
            Some(id) => {
                assert(self.click_owners() =~= set![id]);
            },
            None => {
                assert(self.click_owners() =~= Set::<Id>::empty());
            },
        }
        match self.drag_id {
            Some(id) => {
                assert(self.drag_owners() =~= set![id]);
            },
            None => {
                assert(self.drag_owners() =~= Set::<Id>::empty());
            },
        }
    }
}

/// No probe takes the click from its owner, and none takes the drag from an
/// owner that is not a window: who claims first keeps what was claimed.
pub proof fn lemma_owner_is_kept(
    interaction: Interaction,
    window_interaction: Option<WindowInteraction>,
    mouse: MouseInput,
    rect: Rect,
    hovered: bool,
    interaction_id: Option<Id>,
    sense: Sense,
)
    ensures
        interaction.click_id.is_some() ==> resolve(
            interaction,
            window_interaction,
            mouse,
            rect,
            hovered,
            interaction_id,
            sense,
        ).interaction.click_id == interaction.click_id,
        interaction.drag_id.is_some() && !interaction.drag_is_window ==> resolve(
            interaction,
            window_interaction,
            mouse,
            rect,
            hovered,
            interaction_id,
            sense,
        ).interaction.drag_id == interaction.drag_id,
{
}

/// A press over a hovered region that asks for clicks, while another widget
/// owns the click and the region owns no drag, does not make the region
/// active and leaves the owners as they are.
pub proof fn lemma_press_on_owned_click(
    interaction: Interaction,
    window_interaction: Option<WindowInteraction>,
    mouse: MouseInput,
    rect: Rect,
    id: Id,
    owner: Id,
)
    requires
        mouse.pressed,
        interaction.click_id == Some(owner),
        owner != id,
        interaction.drag_id != Some(id),
    ensures
        !resolve(interaction, window_interaction, mouse, rect, true, Some(id), Sense::spec_click()).info.active,
        resolve(
            interaction,
            window_interaction,
            mouse,
            rect,
            true,
            Some(id),
            Sense::spec_click(),
        ).interaction.click_id == Some(owner),
        resolve(
            interaction,
            window_interaction,
            mouse,
            rect,
            true,
            Some(id),
            Sense::spec_click(),
        ).interaction.drag_id == interaction.drag_id,
        resolve(
            interaction,
            window_interaction,
            mouse,
            rect,
            true,
            Some(id),
            Sense::spec_click(),
        ).window_interaction == window_interaction,
{
}

/// All probes of a hovered region in the frame of a press agree on whether
/// its widget is active: once a probe has made its claims, a second probe of
/// the same widget changes no owner and is active exactly if the widget
/// owns the click or the drag.
pub proof fn lemma_repeated_press_agrees(
    interaction: Interaction,
    window_interaction: Option<WindowInteraction>,
    mouse: MouseInput,
    rect: Rect,
    id: Id,
    sense: Sense,
)
    requires
        mouse.pressed,
        sense != Sense::spec_nothing(),
    ensures
        ({
            let first = resolve(interaction, window_interaction, mouse, rect, true, Some(id), sense);
            let second = resolve(
                first.interaction,
                first.window_interaction,
                mouse,
                rect,
                true,
                Some(id),
                sense,
            );
            &&& first.info.active == first.interaction.spec_is_active(id)
            &&& second.info == first.info
            &&& second.interaction == first.interaction
            &&& second.window_interaction == first.window_interaction
        }),
{
}

/// A probe without identity, or one that asks for neither clicks nor drags,
/// changes nothing and learns only whether the pointer is over the region.
pub proof fn lemma_hover_probe_is_pure(
    interaction: Interaction,
    window_interaction: Option<WindowInteraction>,
    mouse: MouseInput,
    rect: Rect,
    hovered: bool,
    interaction_id: Option<Id>,
    sense: Sense,
)
    requires
        interaction_id.is_none() || sense == Sense::spec_nothing(),
    ensures
        resolve(interaction, window_interaction, mouse, rect, hovered, interaction_id, sense).interaction
            == interaction,
        resolve(interaction, window_interaction, mouse, rect, hovered, interaction_id, sense).window_interaction
            == window_interaction,
        resolve(interaction, window_interaction, mouse, rect, hovered, interaction_id, sense).info == (
        InteractInfo { rect, hovered, clicked: false, double_clicked: false, active: false }),
{
}

impl Clone for Memory {
    fn clone(&self) -> (copy: Memory)
        ensures
            copy@ == self@,
    {
        Memory {
            interaction: self.interaction,
            window_interaction: self.window_interaction,
            areas: self.areas.clone(),
        }
    }
}

} // verus!
