//! The paint command buffer: what has been drawn this frame, layer by layer.

use crate::layer::Layer;
use crate::math::Rect;
use crate::paint::clipped_views;
use crate::paint::PaintCmd;
use crate::paint::PaintCmdView;
use vstd::prelude::*;

verus! {

/// The commands of one layer, in the order in which they were pushed.
pub struct PaintList {
    layer: Layer,
    commands: Vec<(Rect, PaintCmd)>,
}

/// The paint commands of a frame, grouped by layer.
pub struct GraphicLayers {
    lists: Vec<PaintList>,
}

/// What a buffer holds: for each layer with commands, its clipped primitives
/// in the order of insertion.
pub type Layered = Map<Layer, Seq<(Rect, PaintCmdView)>>;

/// The index of the last list of `layer`.
pub closed spec fn list_position(lists: Seq<PaintList>, layer: Layer) -> Option<int>
    decreases lists.len(),
{
    if lists.len() == 0 {
        None
    } else if lists.last().layer == layer {
        Some(lists.len() - 1)
    } else {
        list_position(lists.drop_last(), layer)
    }
}

/// The primitives that the lists hold for `layer`.
pub closed spec fn list_commands(lists: Seq<PaintList>, layer: Layer) -> Seq<(Rect, PaintCmdView)> {
    match list_position(lists, layer) {
        Some(i) => clipped_views(lists[i].commands@),
        None => Seq::empty(),
    }
}

/// The primitives that `buffer` holds for `layer`: none where it has no
/// entry.
pub open spec fn commands_at(buffer: Layered, layer: Layer) -> Seq<(Rect, PaintCmdView)> {
    if buffer.contains_key(layer) {
        buffer[layer]
    } else {
        Seq::empty()
    }
}

/// `buffer` after one more primitive was pushed to `layer`.
pub open spec fn pushed(buffer: Layered, layer: Layer, clip_rect: Rect, cmd: PaintCmdView) -> Layered {
    buffer.insert(layer, commands_at(buffer, layer).push((clip_rect, cmd)))
}

/// What draining hands out: the primitives of each layer of `order` in turn,
/// each layer's in the order of insertion. A layer that `order` names again
/// has nothing left, and a layer that it does not name gives nothing.
pub open spec fn drained(buffer: Layered, order: Seq<Layer>) -> Seq<(Rect, PaintCmdView)>
    decreases order.len(),
{
    if order.len() == 0 {
        Seq::empty()
    } else {
        commands_at(buffer, order[0]) + drained(buffer.remove(order[0]), order.drop_first())
    }
}

/// The primitives of the layers of `order` one after the other.
pub open spec fn in_order(buffer: Layered, order: Seq<Layer>) -> Seq<(Rect, PaintCmdView)>
    decreases order.len(),
{
    if order.len() == 0 {
        Seq::empty()
    } else {
        commands_at(buffer, order[0]) + in_order(buffer, order.drop_first())
    }
}

/// `order` without `layer`.
pub open spec fn skipping(order: Seq<Layer>, layer: Layer) -> Seq<Layer>
    decreases order.len(),
{
    if order.len() == 0 {
        Seq::empty()
    } else if order[0] == layer {
        skipping(order.drop_first(), layer)
    } else {
        seq![order[0]] + skipping(order.drop_first(), layer)
    }
}

/// The order in which the layers are painted: the layers of `area_order`
/// in turn, but for the layer of diagnostic overlays, which comes last
/// wherever `area_order` names it.
pub open spec fn paint_order(area_order: Seq<Layer>) -> Seq<Layer> {
    skipping(area_order, Layer::spec_debug()).push(Layer::spec_debug())
}

/// `skipping` leaves the layer out and keeps nothing that `order` does not
/// hold.
pub proof fn lemma_skipping(order: Seq<Layer>, layer: Layer)
    ensures
        forall|i: int| 0 <= i < skipping(order, layer).len() ==> skipping(order, layer)[i] != layer,
        forall|i: int|
            0 <= i < skipping(order, layer).len() ==> order.contains(#[trigger] skipping(order, layer)[i]),
    decreases order.len(),
{
    if order.len() > 0 {
        let rest = order.drop_first();
        lemma_skipping(rest, layer);
        let kept = skipping(order, layer);
        assert forall|i: int| 0 <= i < kept.len() implies kept[i] != layer && order.contains(
            #[trigger] kept[i],
        ) by {
            if order[0] == layer {
                let j = choose|j: int| 0 <= j < rest.len() && rest[j] == skipping(rest, layer)[i];
                assert(order[j + 1] == kept[i]);
            } else if i == 0 {
                assert(order[0] == kept[0]);
            } else {
                assert(kept[i] == skipping(rest, layer)[i - 1]);
                let j = choose|j: int| 0 <= j < rest.len() && rest[j] == skipping(rest, layer)[i - 1];
                assert(order[j + 1] == kept[i]);
            }
        }
    }
}

/// A layer that comes after the layers of `order`, none of which it is,
/// is drained after them, with all that it holds.
pub proof fn lemma_drained_push(buffer: Layered, order: Seq<Layer>, layer: Layer)
    requires
        forall|i: int| 0 <= i < order.len() ==> order[i] != layer,
    ensures
        drained(buffer, order.push(layer)) == drained(buffer, order) + commands_at(buffer, layer),
    decreases order.len(),
{
    let longer = order.push(layer);
    if order.len() == 0 {
        assert(longer[0] == layer);
        assert(longer.drop_first() =~= Seq::<Layer>::empty());
        assert(drained(buffer.remove(layer), longer.drop_first()) =~= Seq::empty());
        assert(drained(buffer, longer) =~= commands_at(buffer, layer));
        assert(drained(buffer, order) + commands_at(buffer, layer) =~= commands_at(buffer, layer));
    } else {
        let rest = order.drop_first();
        assert(longer[0] == order[0]);
        assert(longer.drop_first() =~= rest.push(layer));
        assert(order[0] != layer);
        assert forall|i: int| 0 <= i < rest.len() implies rest[i] != layer by {
            assert(rest[i] == order[i + 1]);
        }
        lemma_drained_push(buffer.remove(order[0]), rest, layer);
        assert(commands_at(buffer.remove(order[0]), layer) == commands_at(buffer, layer));
        assert(drained(buffer, longer) =~= drained(buffer, order) + commands_at(buffer, layer));
    }
}

/// What was painted on the layer of diagnostic overlays is handed out last,
/// after the other layers in the order of the areas, whether or not that
/// layer is itself an area.
pub proof fn lemma_overlays_come_last(buffer: Layered, area_order: Seq<Layer>)
    ensures
        drained(buffer, paint_order(area_order)) == drained(
            buffer,
            skipping(area_order, Layer::spec_debug()),
        ) + commands_at(buffer, Layer::spec_debug()),
{
    lemma_skipping(area_order, Layer::spec_debug());
    lemma_drained_push(buffer, skipping(area_order, Layer::spec_debug()), Layer::spec_debug());
}

/// Draining an empty buffer hands out nothing, whatever the order.
pub proof fn lemma_drained_empty(order: Seq<Layer>)
    ensures
        drained(Map::empty(), order) == Seq::<(Rect, PaintCmdView)>::empty(),
    decreases order.len(),
{
    if order.len() > 0 {
        assert(Map::<Layer, Seq<(Rect, PaintCmdView)>>::empty().remove(order[0]) =~= Map::empty());
        lemma_drained_empty(order.drop_first());
    }
}

/// Removing a layer that `order` does not name changes nothing of what the
/// layers of `order` hold.
pub proof fn lemma_in_order_remove(buffer: Layered, layer: Layer, order: Seq<Layer>)
    requires
        forall|i: int| 0 <= i < order.len() ==> order[i] != layer,
    ensures
        in_order(buffer.remove(layer), order) == in_order(buffer, order),
    decreases order.len(),
{
    if order.len() > 0 {
        assert(order[0] != layer);
        assert forall|i: int| 0 <= i < order.drop_first().len() implies order.drop_first()[i] != layer by {
            assert(order.drop_first()[i] == order[i + 1]);
        }
        lemma_in_order_remove(buffer, layer, order.drop_first());
    }
}

/// Where `order` names no layer twice, draining visits the layers strictly
/// in that order and hands out each layer's primitives in the order of
/// insertion.
pub proof fn lemma_drained_in_order(buffer: Layered, order: Seq<Layer>)
    requires
        forall|i: int, j: int| 0 <= i < j < order.len() ==> order[i] != order[j],
    ensures
        drained(buffer, order) == in_order(buffer, order),
    decreases order.len(),
{
    if order.len() > 0 {
        let rest = order.drop_first();
        assert forall|i: int, j: int| 0 <= i < j < rest.len() implies rest[i] != rest[j] by {
            assert(rest[i] == order[i + 1]);
            assert(rest[j] == order[j + 1]);
        }
        assert forall|i: int| 0 <= i < rest.len() implies rest[i] != order[0] by {
            assert(rest[i] == order[i + 1]);
        }
        lemma_drained_in_order(buffer.remove(order[0]), rest);
        lemma_in_order_remove(buffer, order[0], rest);
    }
}

/// The clipped primitives of two sequences one after the other.
pub proof fn lemma_clipped_views_concat(a: Seq<(Rect, PaintCmd)>, b: Seq<(Rect, PaintCmd)>)
    ensures
        clipped_views(a + b) == clipped_views(a) + clipped_views(b),
{
    assert(clipped_views(a + b) =~= clipped_views(a) + clipped_views(b));
}

/// Replacing the commands of the last list of a layer changes what the lists
/// hold for that layer only.
proof fn lemma_replace_commands(lists: Seq<PaintList>, i: int, replaced: PaintList)
    requires
        list_position(lists, replaced.layer) == Some(i),
    ensures
        0 <= i < lists.len(),
        lists[i].layer == replaced.layer,
        forall|layer: Layer| #[trigger]
            list_commands(lists.update(i, replaced), layer) == if layer == replaced.layer {
                clipped_views(replaced.commands@)
            } else {
                list_commands(lists, layer)
            },
        forall|layer: Layer| #[trigger]
            list_position(lists.update(i, replaced), layer) == list_position(lists, layer),
    decreases lists.len(),
{
    lemma_list_position(lists, replaced.layer);
    let after = lists.update(i, replaced);
    let front = lists.drop_last();
    if lists.last().layer == replaced.layer {
        assert(after.drop_last() =~= front);
        assert(after.last() == replaced);
        assert forall|layer: Layer| #[trigger]
            list_position(after, layer) == list_position(lists, layer) by {}
        assert forall|layer: Layer| #[trigger]
            list_commands(after, layer) == if layer == replaced.layer {
                clipped_views(replaced.commands@)
            } else {
                list_commands(lists, layer)
            } by {
            if layer != replaced.layer {
                lemma_list_position(front, layer);
                if let Some(j) = list_position(front, layer) {
                    assert(after[j] == lists[j]);
                }
            }
        }
    } else {
        lemma_replace_commands(front, i, replaced);
        let after_front = front.update(i, replaced);
        assert(after.drop_last() =~= after_front);
        assert(after.last() == lists.last());
        assert forall|layer: Layer| #[trigger]
            list_position(after, layer) == list_position(lists, layer) by {
            assert(list_position(after_front, layer) == list_position(front, layer));
        }
        assert forall|layer: Layer| #[trigger]
            list_commands(after, layer) == if layer == replaced.layer {
                clipped_views(replaced.commands@)
            } else {
                list_commands(lists, layer)
            } by {
            assert(list_position(after_front, layer) == list_position(front, layer));
            if lists.last().layer != layer {
                assert(list_commands(after_front, layer) == if layer == replaced.layer {
                    clipped_views(replaced.commands@)
                } else {
                    list_commands(front, layer)
                });
                lemma_list_position(front, layer);
                if let Some(j) = list_position(front, layer) {
                    assert(front[j] == lists[j]);
                    assert(after_front[j] == after[j]);
                }
            }
        }
    }
}

/// The position that `list_position` names is a valid index of a list of
/// that layer.
proof fn lemma_list_position(lists: Seq<PaintList>, layer: Layer)
    ensures
        match list_position(lists, layer) {
            Some(i) => 0 <= i < lists.len() && lists[i].layer == layer,
            None => true,
        },
    decreases lists.len(),
{
    if lists.len() > 0 && lists.last().layer != layer {
        lemma_list_position(lists.drop_last(), layer);
    }
}

impl View for GraphicLayers {
    type V = Layered;

    closed spec fn view(&self) -> Layered {
        Map::new(
            |layer: Layer| list_commands(self.lists@, layer).len() > 0,
            |layer: Layer| list_commands(self.lists@, layer),
        )
    }
}

impl GraphicLayers {
    /// A buffer without commands.
    pub fn new() -> (buffer: GraphicLayers)
        ensures
            buffer@ == Layered::empty(),
    {
        let buffer = GraphicLayers { lists: Vec::new() };
        assert(buffer@ =~= Map::empty());
        buffer
    }

    /// Drops all commands.
    pub fn clear(&mut self)
        ensures
            final(self)@ == Layered::empty(),
    {
        self.lists.clear();
        assert(self@ =~= Map::empty());
    }

    /// The index of the list of `layer`.
    fn find(&self, layer: Layer) -> (found: Option<usize>)
        ensures
            match found {
                Some(i) => list_position(self.lists@, layer) == Some(i as int) && i < self.lists.len(),
                None => list_position(self.lists@, layer).is_none(),
            },
    {
        let mut i: usize = self.lists.len();
        assert(self.lists@.take(i as int) == self.lists@);
        while i > 0
            invariant
                i <= self.lists.len(),
                list_position(self.lists@, layer) == list_position(self.lists@.take(i as int), layer),
            decreases i,
        {
            proof {
                let prefix = self.lists@.take(i as int);
                assert(prefix.last() == self.lists@[i - 1]);
                assert(prefix.drop_last() == self.lists@.take(i - 1));
            }
            if self.lists[i - 1].layer == layer {
                return Some(i - 1);
            }
            i = i - 1;
        }
        None
    }

    /// Appends a command to the commands of `layer`.
    pub fn push(&mut self, layer: Layer, clip_rect: Rect, cmd: PaintCmd)
        ensures
            final(self)@ == pushed(old(self)@, layer, clip_rect, cmd@),
    {
        let ghost before = self.lists@;
        match self.find(layer) {
            Some(i) => {
                self.lists[i].commands.push((clip_rect, cmd));
                proof {
                    lemma_list_position(before, layer);
                    assert(self.lists@[i as int].layer == before[i as int].layer);
                    lemma_replace_commands(before, i as int, self.lists@[i as int]);
                    assert(self.lists@ =~= before.update(i as int, self.lists@[i as int]));
                    assert(clipped_views(self.lists@[i as int].commands@) =~= clipped_views(
                        before[i as int].commands@,
                    ).push((clip_rect, cmd@)));
                    assert(list_commands(before, layer) == clipped_views(before[i as int].commands@));
                    assert(commands_at(old(self)@, layer) =~= list_commands(before, layer));
                    assert forall|other: Layer|
                        list_commands(self.lists@, other) == if other == layer {
                            clipped_views(before[i as int].commands@).push((clip_rect, cmd@))
                        } else {
                            list_commands(before, other)
                        } by {
                        assert(list_commands(before.update(i as int, self.lists@[i as int]), other) == if other
                            == layer {
                            clipped_views(self.lists@[i as int].commands@)
                        } else {
                            list_commands(before, other)
                        });
                    }
                    assert(self@ =~= pushed(old(self)@, layer, clip_rect, cmd@));
                }
            },
            None => {
                let mut commands: Vec<(Rect, PaintCmd)> = Vec::new();
                commands.push((clip_rect, cmd));
                self.lists.push(PaintList { layer, commands });
                proof {
                    assert(self.lists@.drop_last() =~= before);
                    assert(clipped_views(self.lists@.last().commands@) =~= Seq::<
                        (Rect, PaintCmdView),
                    >::empty().push((clip_rect, cmd@)));
                    assert forall|other: Layer| #[trigger]
                        list_commands(self.lists@, other) == if other == layer {
                            clipped_views(self.lists@.last().commands@)
                        } else {
                            list_commands(before, other)
                        } by {
                        if other != layer {
                            match list_position(before, other) {
                                Some(j) => {
                                    lemma_list_position(before, other);
                                    assert(self.lists@[j] == before[j]);
                                },
                                None => {},
                            }
                        }
                    }
                    assert(self@ =~= pushed(old(self)@, layer, clip_rect, cmd@));
                }
            },
        }
    }

    /// Moves the commands of `layer` to the end of `out`.
    fn drain_layer(&mut self, layer: Layer, out: &mut Vec<(Rect, PaintCmd)>)
        ensures
            final(self)@ == old(self)@.remove(layer),
            clipped_views(final(out)@) == clipped_views(old(out)@) + commands_at(old(self)@, layer),
    {
        let ghost before = self.lists@;
        match self.find(layer) {
            Some(i) => {
                let mut taken: Vec<(Rect, PaintCmd)> = Vec::new();
                std::mem::swap(&mut self.lists[i].commands, &mut taken);
                proof {
                    lemma_list_position(before, layer);
                    assert(self.lists@[i as int].layer == before[i as int].layer);
                    lemma_replace_commands(before, i as int, self.lists@[i as int]);
                    assert(self.lists@ =~= before.update(i as int, self.lists@[i as int]));
                    assert(clipped_views(self.lists@[i as int].commands@) =~= Seq::empty());
                    assert(self@ =~= old(self)@.remove(layer));
                    lemma_clipped_views_concat(out@, taken@);
                    assert(clipped_views(taken@) == list_commands(before, layer));
                }
                out.append(&mut taken);
            },
            None => {
                proof {
                    assert(self@ =~= old(self)@.remove(layer));
                    assert(clipped_views(out@) =~= clipped_views(out@) + commands_at(old(self)@, layer));
                }
            },
        }
    }

    /// Hands out all commands: those of each layer of `area_order` in turn,
    /// and last those of the layer of diagnostic overlays, which is passed
    /// over where `area_order` names it. The buffer is empty afterwards;
    /// commands of layers that were not visited are dropped.
    pub fn drain(&mut self, area_order: &Vec<Layer>) -> (commands: Vec<(Rect, PaintCmd)>)
        ensures
            clipped_views(commands@) == drained(old(self)@, paint_order(area_order@)),
            final(self)@ == Layered::empty(),
    {
        let debug = Layer::debug();
        let mut commands: Vec<(Rect, PaintCmd)> = Vec::new();
        let mut i: usize = 0;
        assert(area_order@.skip(0) == area_order@);
        assert(clipped_views(commands@) =~= Seq::empty());
        while i < area_order.len()
            invariant
                i <= area_order.len(),
                debug == Layer::spec_debug(),
                drained(old(self)@, paint_order(area_order@)) == clipped_views(commands@) + drained(
                    self@,
                    paint_order(area_order@.skip(i as int)),
                ),
            decreases area_order.len() - i,
        {
            let ghost rest = area_order@.skip(i as int);
            let ghost held = self@;
            let ghost sofar = clipped_views(commands@);
            let layer = area_order[i];
            proof {
                assert(rest[0] == layer);
                assert(rest.drop_first() == area_order@.skip(i + 1));
            }
            if layer != debug {
                self.drain_layer(layer, &mut commands);
                proof {
                    let next = paint_order(area_order@.skip(i + 1));
                    assert(paint_order(rest)[0] == layer);
                    assert(paint_order(rest).drop_first() =~= next);
                    assert(sofar + (commands_at(held, layer) + drained(self@, next)) =~= (sofar + commands_at(
                        held,
                        layer,
                    )) + drained(self@, next));
                }
            }
            i = i + 1;
        }
        let ghost rest = paint_order(area_order@.skip(i as int));
        let ghost held = self@;
        let ghost sofar = clipped_views(commands@);
        self.drain_layer(debug, &mut commands);
        proof {
            assert(area_order@.skip(i as int) =~= Seq::<Layer>::empty());
            assert(rest =~= seq![Layer::spec_debug()]);
            assert(rest.drop_first() =~= Seq::<Layer>::empty());
            assert(drained(self@, rest.drop_first()) =~= Seq::empty());
            assert(sofar + (commands_at(held, rest[0]) + Seq::empty()) =~= sofar + commands_at(held, rest[0]));
        }
        self.lists.clear();
        assert(self@ =~= Map::empty());
        commands
    }
}

/// Leaving a layer out of an order that names no layer twice gives an order
/// that names no layer twice.
pub proof fn lemma_skipping_distinct(order: Seq<Layer>, layer: Layer)
    requires
        forall|i: int, j: int| 0 <= i < j < order.len() ==> order[i] != order[j],
    ensures
        forall|i: int, j: int|
            0 <= i < j < skipping(order, layer).len() ==> skipping(order, layer)[i] != skipping(order, layer)[j],
    decreases order.len(),
{
    if order.len() > 0 {
        let rest = order.drop_first();
        assert forall|i: int, j: int| 0 <= i < j < rest.len() implies rest[i] != rest[j] by {
            assert(rest[i] == order[i + 1]);
            assert(rest[j] == order[j + 1]);
        }
        lemma_skipping_distinct(rest, layer);
        lemma_skipping(rest, layer);
        let kept = skipping(order, layer);
        let inner = skipping(rest, layer);
        if order[0] != layer {
            assert forall|i: int, j: int| 0 <= i < j < kept.len() implies kept[i] != kept[j] by {
                assert(kept[j] == inner[j - 1]);
                if i == 0 {
                    let k = choose|k: int| 0 <= k < rest.len() && rest[k] == inner[j - 1];
                    assert(rest[k] == order[k + 1]);
                    assert(kept[0] == order[0]);
                } else {
                    assert(kept[i] == inner[i - 1]);
                }
            }
        }
    }
}

/// Where the areas name no layer twice, draining visits the layers strictly
/// in the order of painting: the areas in their order, then the layer of
/// diagnostic overlays, each layer with its commands in the order of
/// insertion.
pub proof fn lemma_drained_in_paint_order(buffer: Layered, area_order: Seq<Layer>)
    requires
        forall|i: int, j: int| 0 <= i < j < area_order.len() ==> area_order[i] != area_order[j],
    ensures
        drained(buffer, paint_order(area_order)) == in_order(buffer, paint_order(area_order)),
{
    let debug = Layer::spec_debug();
    let kept = skipping(area_order, debug);
    let order = paint_order(area_order);
    lemma_skipping_distinct(area_order, debug);
    lemma_skipping(area_order, debug);
    assert forall|i: int, j: int| 0 <= i < j < order.len() implies order[i] != order[j] by {
        assert(order[i] == kept[i]);
        if j < kept.len() {
            assert(order[j] == kept[j]);
        }
    }
    lemma_drained_in_order(buffer, order);
}

/// Lists that agree in their layers and in their primitives hold the same
/// for every layer.
proof fn lemma_same_lists(a: Seq<PaintList>, b: Seq<PaintList>, layer: Layer)
    requires
        a.len() == b.len(),
        forall|i: int|
            0 <= i < a.len() ==> (#[trigger] a[i]).layer == b[i].layer && clipped_views(a[i].commands@)
                == clipped_views(b[i].commands@),
    ensures
        list_position(a, layer) == list_position(b, layer),
        list_commands(a, layer) == list_commands(b, layer),
    decreases a.len(),
{
    if a.len() > 0 {
        let last = a.len() - 1;
        assert(a[last].layer == b[last].layer);
        if a.last().layer != layer {
            assert forall|i: int| 0 <= i < a.drop_last().len() implies (#[trigger] a.drop_last()[i]).layer
                == b.drop_last()[i].layer && clipped_views(a.drop_last()[i].commands@) == clipped_views(
                b.drop_last()[i].commands@,
            ) by {
                assert(a.drop_last()[i] == a[i]);
                assert(b.drop_last()[i] == b[i]);
            }
            lemma_same_lists(a.drop_last(), b.drop_last(), layer);
            lemma_list_position(a.drop_last(), layer);
            if let Some(j) = list_position(a.drop_last(), layer) {
                assert(a.drop_last()[j] == a[j]);
                assert(b.drop_last()[j] == b[j]);
            }
        }
    }
}

/// Copies a sequence of clipped commands.
fn clone_clipped(commands: &Vec<(Rect, PaintCmd)>) -> (copy: Vec<(Rect, PaintCmd)>)
    ensures
        clipped_views(copy@) == clipped_views(commands@),
{
    let mut copy: Vec<(Rect, PaintCmd)> = Vec::new();
    let mut i: usize = 0;
    assert(clipped_views(copy@) =~= clipped_views(commands@.take(0)));
    while i < commands.len()
        invariant
            i <= commands.len(),
            clipped_views(copy@) == clipped_views(commands@.take(i as int)),
        decreases commands.len() - i,
    {
        let ghost sofar = copy@;
        let clip_rect = commands[i].0;
        let cmd = commands[i].1.clone();
        copy.push((clip_rect, cmd));
        proof {
            assert(clipped_views(copy@) =~= clipped_views(sofar).push((clip_rect, cmd@)));
            assert(clipped_views(commands@.take(i + 1)) =~= clipped_views(commands@.take(i as int)).push(
                (clip_rect, cmd@),
            ));
        }
        i = i + 1;
    }
    proof {
        assert(commands@.take(i as int) == commands@);
    }
    copy
}

impl Clone for GraphicLayers {
    fn clone(&self) -> (copy: GraphicLayers)
        ensures
            copy@ == self@,
    {
        let mut lists: Vec<PaintList> = Vec::new();
        let mut i: usize = 0;
        while i < self.lists.len()
            invariant
                i <= self.lists.len(),
                lists.len() == i,
                forall|j: int|
                    0 <= j < i ==> (#[trigger] lists@[j]).layer == self.lists@[j].layer && clipped_views(
                        lists@[j].commands@,
                    ) == clipped_views(self.lists@[j].commands@),
            decreases self.lists.len() - i,
        {
            let layer = self.lists[i].layer;
            let commands = clone_clipped(&self.lists[i].commands);
            lists.push(PaintList { layer, commands });
            i = i + 1;
        }
        let copy = GraphicLayers { lists };
        proof {
            assert forall|layer: Layer|
                list_commands(copy.lists@, layer) == list_commands(self.lists@, layer) by {
                lemma_same_lists(copy.lists@, self.lists@, layer);
            }
            assert(copy@ =~= self@);
        }
        copy
    }
}

} // verus!
