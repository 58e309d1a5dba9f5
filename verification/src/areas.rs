//! The registry of areas: which layers exist, where they are on the screen,
//! and in which order they lie on top of each other.

use crate::layer::Layer;
use crate::layer::Order;
use crate::math::Pos2;
use crate::math::Rect;
use crate::math::Vec2;
use vstd::prelude::*;

verus! {

/// Where an area is and whether the pointer can reach it.
#[derive(Clone, Copy, Debug, PartialEq, Eq, Structural)]
pub struct AreaState {
    pub pos: Pos2,
    pub size: Vec2,
    pub interactable: bool,
}

/// One registered area.
#[derive(Clone, Copy, Debug, PartialEq, Eq, Structural)]
pub struct AreaEntry {
    pub layer: Layer,
    pub state: AreaState,
}

impl AreaEntry {
    /// Whether the pointer at `pos` reaches this area, counting a margin of
    /// `tolerance` around it.
    pub open spec fn spec_is_hit(self, pos: Pos2, tolerance: i32) -> bool {
        self.state.interactable && Rect::spec_from_min_size(self.state.pos, self.state.size).spec_expand(
            tolerance,
        ).spec_contains(pos)
    }

    #[verifier::when_used_as_spec(spec_is_hit)]
    pub fn is_hit(self, pos: Pos2, tolerance: i32) -> (b: bool)
        ensures
            b == self.spec_is_hit(pos, tolerance),
    {
        self.state.interactable && Rect::from_min_size(self.state.pos, self.state.size).expand(
            tolerance,
        ).contains(pos)
    }
}

/// The index of the entry of `layer`, if it has one.
pub open spec fn position_of(entries: Seq<AreaEntry>, layer: Layer) -> Option<int>
    decreases entries.len(),
{
    if entries.len() == 0 {
        None
    } else if entries.last().layer == layer {
        Some(entries.len() - 1)
    } else {
        position_of(entries.drop_last(), layer)
    }
}

/// Where a new area of class `order` goes: behind the last entry whose class
/// is not in front of it.
pub open spec fn insertion_point(entries: Seq<AreaEntry>, order: Order) -> int
    decreases entries.len(),
{
    if entries.len() == 0 {
        0
    } else if entries.last().layer.order.spec_rank() <= order.spec_rank() {
        entries.len() as int
    } else {
        insertion_point(entries.drop_last(), order)
    }
}

/// The registry after `layer` was given `state`: a known layer keeps its
/// place, a new one goes in front of the layers of its class and behind
/// those of the classes in front of it.
pub open spec fn with_state(entries: Seq<AreaEntry>, layer: Layer, state: AreaState) -> Seq<AreaEntry> {
    match position_of(entries, layer) {
        Some(i) => entries.update(i, AreaEntry { layer, state }),
        None => entries.insert(insertion_point(entries, layer.order), AreaEntry { layer, state }),
    }
}

/// The layers of the entries, from the back to the front.
pub open spec fn layers_of(entries: Seq<AreaEntry>) -> Seq<Layer> {
    Seq::new(entries.len(), |i: int| entries[i].layer)
}

/// The frontmost layer that the pointer at `pos` reaches.
pub open spec fn topmost_hit(entries: Seq<AreaEntry>, pos: Pos2, tolerance: i32) -> Option<Layer>
    decreases entries.len(),
{
    if entries.len() == 0 {
        None
    } else if entries.last().spec_is_hit(pos, tolerance) {
        Some(entries.last().layer)
    } else {
        topmost_hit(entries.drop_last(), pos, tolerance)
    }
}

/// No layer is registered twice, and no entry lies behind one of a class
/// further back.
pub open spec fn well_ordered(entries: Seq<AreaEntry>) -> bool {
    &&& forall|i: int, j: int|
        0 <= i < j < entries.len() ==> #[trigger] entries[i].layer != #[trigger] entries[j].layer
    &&& forall|i: int, j: int|
        0 <= i < j < entries.len() ==> (#[trigger] entries[i]).layer.order.spec_rank() <= (
        #[trigger] entries[j]).layer.order.spec_rank()
}

/// `position_of` finds the entry of a layer exactly when there is one.
pub proof fn lemma_position_of(entries: Seq<AreaEntry>, layer: Layer)
    ensures
        match position_of(entries, layer) {
            Some(i) => 0 <= i < entries.len() && entries[i].layer == layer && forall|j: int|
                i < j < entries.len() ==> (#[trigger] entries[j]).layer != layer,
            None => forall|j: int| 0 <= j < entries.len() ==> (#[trigger] entries[j]).layer != layer,
        },
    decreases entries.len(),
{
    if entries.len() > 0 && entries.last().layer != layer {
        let front = entries.drop_last();
        lemma_position_of(front, layer);
        assert forall|j: int| 0 <= j < entries.len() && position_of(front, layer).is_none() implies (
        #[trigger] entries[j]).layer != layer by {
            if j < front.len() {
                assert(front[j] == entries[j]);
            }
        }
        if let Some(i) = position_of(front, layer) {
            assert(front[i] == entries[i]);
            assert forall|j: int| i < j < entries.len() implies (#[trigger] entries[j]).layer != layer by {
                if j < front.len() {
                    assert(front[j] == entries[j]);
                }
            }
        }
    }
}

/// `insertion_point` splits the entries into those not in front of `order`
/// and, when the entries are well ordered, those in front of it.
pub proof fn lemma_insertion_point(entries: Seq<AreaEntry>, order: Order)
    ensures
        0 <= insertion_point(entries, order) <= entries.len(),
        forall|j: int|
            insertion_point(entries, order) <= j < entries.len() ==> (
            #[trigger] entries[j]).layer.order.spec_rank() > order.spec_rank(),
        well_ordered(entries) ==> forall|j: int|
            0 <= j < insertion_point(entries, order) ==> (
            #[trigger] entries[j]).layer.order.spec_rank() <= order.spec_rank(),
    decreases entries.len(),
{
    if entries.len() > 0 {
        let front = entries.drop_last();
        if entries.last().layer.order.spec_rank() > order.spec_rank() {
            lemma_insertion_point(front, order);
            let k = insertion_point(front, order);
            assert forall|j: int| k <= j < entries.len() implies (
            #[trigger] entries[j]).layer.order.spec_rank() > order.spec_rank() by {
                if j < front.len() {
                    assert(front[j] == entries[j]);
                }
            }
            if well_ordered(entries) {
                assert forall|a: int, b: int| 0 <= a < b < front.len() implies #[trigger] front[a].layer
                    != #[trigger] front[b].layer by {
                    assert(front[a] == entries[a]);
                    assert(front[b] == entries[b]);
                }
                assert forall|a: int, b: int| 0 <= a < b < front.len() implies (
                #[trigger] front[a]).layer.order.spec_rank() <= (
                #[trigger] front[b]).layer.order.spec_rank() by {
                    assert(front[a] == entries[a]);
                    assert(front[b] == entries[b]);
                }
                assert forall|j: int| 0 <= j < k implies (
                #[trigger] entries[j]).layer.order.spec_rank() <= order.spec_rank() by {
                    assert(front[j] == entries[j]);
                }
            }
        } else {
            if well_ordered(entries) {
                assert forall|j: int| 0 <= j < entries.len() implies (
                #[trigger] entries[j]).layer.order.spec_rank() <= order.spec_rank() by {
                    if j < entries.len() - 1 {
                        assert(entries[j].layer.order.spec_rank() <= entries[entries.len() - 1].layer.order.spec_rank());
                    }
                }
            }
        }
    }
}

/// Giving a layer a state keeps the registry well ordered.
pub proof fn lemma_with_state_well_ordered(entries: Seq<AreaEntry>, layer: Layer, state: AreaState)
    requires
        well_ordered(entries),
    ensures
        well_ordered(with_state(entries, layer, state)),
{
    lemma_position_of(entries, layer);
    lemma_insertion_point(entries, layer.order);
    let after = with_state(entries, layer, state);
    match position_of(entries, layer) {
        Some(i) => {
            assert forall|a: int, b: int| 0 <= a < b < after.len() implies #[trigger] after[a].layer
                != #[trigger] after[b].layer by {
                assert(after[a].layer == entries[a].layer);
                assert(after[b].layer == entries[b].layer);
            }
            assert forall|a: int, b: int| 0 <= a < b < after.len() implies (
            #[trigger] after[a]).layer.order.spec_rank() <= (#[trigger] after[b]).layer.order.spec_rank() by {
                assert(after[a].layer == entries[a].layer);
                assert(after[b].layer == entries[b].layer);
            }
        },
        None => {
            let k = insertion_point(entries, layer.order);
            assert forall|a: int, b: int| 0 <= a < b < after.len() implies #[trigger] after[a].layer
                != #[trigger] after[b].layer by {
                if a < k && b > k {
                    assert(after[a] == entries[a]);
                    assert(after[b] == entries[b - 1]);
                } else if a < k && b < k {
                    assert(after[a] == entries[a]);
                    assert(after[b] == entries[b]);
                } else if a > k {
                    assert(after[a] == entries[a - 1]);
                    assert(after[b] == entries[b - 1]);
                } else if a == k {
                    assert(after[b] == entries[b - 1]);
                } else {
                    assert(after[a] == entries[a]);
                }
            }
            assert forall|a: int, b: int| 0 <= a < b < after.len() implies (
            #[trigger] after[a]).layer.order.spec_rank() <= (#[trigger] after[b]).layer.order.spec_rank() by {
                if a < k && b > k {
                    assert(after[a] == entries[a]);
                    assert(after[b] == entries[b - 1]);
                } else if a < k && b < k {
                    assert(after[a] == entries[a]);
                    assert(after[b] == entries[b]);
                } else if a > k {
                    assert(after[a] == entries[a - 1]);
                    assert(after[b] == entries[b - 1]);
                } else if a == k {
                    assert(after[b] == entries[b - 1]);
                } else {
                    assert(after[a] == entries[a]);
                }
            }
        },
    }
}

/// A layer that was given a state is registered with that state.
pub proof fn lemma_with_state_registers(entries: Seq<AreaEntry>, layer: Layer, state: AreaState)
    requires
        well_ordered(entries),
    ensures
        match position_of(with_state(entries, layer, state), layer) {
            Some(i) => 0 <= i < with_state(entries, layer, state).len() && with_state(entries, layer, state)[i]
                == (AreaEntry { layer, state }),
            None => false,
        },
{
    let after = with_state(entries, layer, state);
    lemma_with_state_well_ordered(entries, layer, state);
    lemma_position_of(entries, layer);
    lemma_insertion_point(entries, layer.order);
    lemma_position_of(after, layer);
    let k = match position_of(entries, layer) {
        Some(i) => i,
        None => insertion_point(entries, layer.order),
    };
    assert(after[k] == (AreaEntry { layer, state }));
    match position_of(after, layer) {
        Some(i) => {
            if i < k {
                assert(after[i].layer != after[k].layer);
            } else if k < i {
                assert(after[k].layer != after[i].layer);
            }
        },
        None => {
            assert(after[k].layer != layer);
        },
    }
}

/// `topmost_hit` names a layer that the pointer reaches and that no reached
/// layer lies in front of; it names none exactly when no layer is reached.
pub proof fn lemma_topmost_hit(entries: Seq<AreaEntry>, pos: Pos2, tolerance: i32)
    ensures
        match topmost_hit(entries, pos, tolerance) {
            Some(layer) => exists|i: int|
                0 <= i < entries.len() && (#[trigger] entries[i]).layer == layer && entries[i].spec_is_hit(
                    pos,
                    tolerance,
                ) && forall|j: int|
                    i < j < entries.len() ==> !(#[trigger] entries[j]).spec_is_hit(pos, tolerance),
            None => forall|j: int|
                0 <= j < entries.len() ==> !(#[trigger] entries[j]).spec_is_hit(pos, tolerance),
        },
    decreases entries.len(),
{
    if entries.len() > 0 {
        if entries.last().spec_is_hit(pos, tolerance) {
            assert(entries[entries.len() - 1].layer == entries.last().layer);
        } else {
            lemma_topmost_hit(entries.drop_last(), pos, tolerance);
            match topmost_hit(entries.drop_last(), pos, tolerance) {
                Some(layer) => {
                    let i = choose|i: int|
                        0 <= i < entries.drop_last().len() && (#[trigger] entries.drop_last()[i]).layer
                            == layer && entries.drop_last()[i].spec_is_hit(pos, tolerance) && forall|j: int|
                            i < j < entries.drop_last().len() ==> !(
                            #[trigger] entries.drop_last()[j]).spec_is_hit(pos, tolerance);
                    assert(entries[i] == entries.drop_last()[i]);
                    assert forall|j: int| i < j < entries.len() implies !(
                    #[trigger] entries[j]).spec_is_hit(pos, tolerance) by {
                        if j < entries.len() - 1 {
                            assert(entries[j] == entries.drop_last()[j]);
                        }
                    }
                },
                None => {
                    assert forall|j: int| 0 <= j < entries.len() implies !(
                    #[trigger] entries[j]).spec_is_hit(pos, tolerance) by {
                        if j < entries.len() - 1 {
                            assert(entries[j] == entries.drop_last()[j]);
                        }
                    }
                },
            }
        }
    }
}

/// The areas of a session, from the back to the front.
pub struct Areas {
    entries: Vec<AreaEntry>,
}

impl View for Areas {
    type V = Seq<AreaEntry>;

    closed spec fn view(&self) -> Seq<AreaEntry> {
        self.entries@
    }
}

impl Areas {
    /// No layer is registered twice, and the layers lie in the order of
    /// their classes.
    #[verifier::type_invariant]
    spec fn inv(self) -> bool {
        well_ordered(self.entries@)
    }

    /// A registry without areas.
    pub fn new() -> (areas: Areas)
        ensures
            areas@ == Seq::<AreaEntry>::empty(),
    {
        Areas { entries: Vec::new() }
    }


    /// How many areas are registered. No layer is counted twice.
    pub fn count(&self) -> (n: usize)
        ensures
            n == self@.len(),
            well_ordered(self@),
    {
        proof {
            use_type_invariant(self);
        }
        self.entries.len()
    }

    /// The state of `layer`, if it is registered.
    pub fn get(&self, layer: Layer) -> (state: Option<AreaState>)
        ensures
            state == match position_of(self@, layer) {
                Some(i) => Some(self@[i].state),
                None => None,
            },
    {
        let mut i: usize = self.entries.len();
        assert(self@.take(i as int) == self@);
        while i > 0
            invariant
                i <= self.entries.len(),
                position_of(self@, layer) == position_of(self@.take(i as int), layer),
                self@ == self.entries@,
            decreases i,
        {
            let entry = self.entries[i - 1];
            proof {
                let prefix = self@.take(i as int);
                assert(prefix.last() == entry);
                assert(prefix.drop_last() == self@.take(i - 1));
            }
            if entry.layer == layer {
                return Some(entry.state);
            }
            i = i - 1;
        }
        None
    }

    /// Records where `layer` is. A layer that is new to the registry is put
    /// in front of the layers of its own class.
    pub fn set_state(&mut self, layer: Layer, state: AreaState)
        ensures
            final(self)@ == with_state(old(self)@, layer, state),
            well_ordered(final(self)@),
    {
        proof {
            use_type_invariant(&*self);
        }
        let entry = AreaEntry { layer, state };
        let mut i: usize = self.entries.len();
        assert(self@.take(i as int) == self@);
        while i > 0
            invariant
                i <= self.entries.len(),
                position_of(self@, layer) == position_of(self@.take(i as int), layer),
                self@ == self.entries@,
                self@ == old(self)@,
                well_ordered(self@),
                entry == (AreaEntry { layer, state }),
            decreases i,
        {
            let found = self.entries[i - 1];
            proof {
                let prefix = self@.take(i as int);
                assert(prefix.last() == found);
                assert(prefix.drop_last() == self@.take(i - 1));
            }
            if found.layer == layer {
                proof {
                    lemma_with_state_well_ordered(self@, layer, state);
                }
                let mut entries: Vec<AreaEntry> = Vec::new();
                std::mem::swap(&mut self.entries, &mut entries);
                entries[i - 1] = entry;
                self.entries = entries;
                return ;
            }
            i = i - 1;
        }
        let rank: u8 = layer.order.rank();
        let mut k: usize = self.entries.len();
        assert(self@.take(k as int) == self@);
        while k > 0 && self.entries[k - 1].layer.order.rank() > rank
            invariant
                k <= self.entries.len(),
                rank == layer.order.spec_rank(),
                insertion_point(self@, layer.order) == insertion_point(self@.take(k as int), layer.order),
                self@ == self.entries@,
                self@ == old(self)@,
                well_ordered(self@),
            decreases k,
        {
            proof {
                let prefix = self@.take(k as int);
                assert(prefix.last() == self@[k - 1]);
                assert(prefix.drop_last() == self@.take(k - 1));
            }
            k = k - 1;
        }
        proof {
            let prefix = self@.take(k as int);
            if k > 0 {
                assert(prefix.last() == self@[k - 1]);
            }
            lemma_with_state_well_ordered(self@, layer, state);
        }
        let mut entries: Vec<AreaEntry> = Vec::new();
        std::mem::swap(&mut self.entries, &mut entries);
        entries.insert(k, entry);
        self.entries = entries;
    }

    /// The registered layers, from the back to the front: each layer once,
    /// and none behind a layer of a class further back.
    pub fn order(&self) -> (layers: Vec<Layer>)
        ensures
            layers@ == layers_of(self@),
            well_ordered(self@),
    {
        proof {
            use_type_invariant(self);
        }
        let mut layers: Vec<Layer> = Vec::new();
        let mut i: usize = 0;
        while i < self.entries.len()
            invariant
                i <= self.entries.len(),
                self@ == self.entries@,
                layers@ == layers_of(self@.take(i as int)),
            decreases self.entries.len() - i,
        {
            layers.push(self.entries[i].layer);
            proof {
                assert(layers@ =~= layers_of(self@.take(i + 1)));
            }
            i = i + 1;
        }
        proof {
            assert(self@.take(i as int) == self@);
        }
        layers
    }

    /// The frontmost layer that the pointer at `pos` reaches, where an area
    /// is reached up to `tolerance` outside its bounds.
    pub fn layer_at(&self, pos: Pos2, tolerance: i32) -> (layer: Option<Layer>)
        ensures
            layer == topmost_hit(self@, pos, tolerance),
    {
        let mut i: usize = self.entries.len();
        assert(self@.take(i as int) == self@);
        while i > 0
            invariant
                i <= self.entries.len(),
                topmost_hit(self@, pos, tolerance) == topmost_hit(self@.take(i as int), pos, tolerance),
                self@ == self.entries@,
            decreases i,
        {
            let entry = self.entries[i - 1];
            proof {
                let prefix = self@.take(i as int);
                assert(prefix.last() == entry);
                assert(prefix.drop_last() == self@.take(i - 1));
            }
            if entry.is_hit(pos, tolerance) {
                return Some(entry.layer);
            }
            i = i - 1;
        }
        None
    }
}

impl Clone for Areas {
    fn clone(&self) -> (copy: Areas)
        ensures
            copy@ == self@,
    {
        proof {
            use_type_invariant(self);
        }
        Areas { entries: crate::paint::copy_vec(&self.entries) }
    }
}

} // verus!
