//! Widget identities and the layers that group what is drawn.

use vstd::prelude::*;

verus! {

/// The stable identity of a widget, compared by value.
#[derive(Clone, Copy, Debug, PartialEq, Eq, Hash, Structural)]
pub struct Id(pub u64);

impl Id {
    /// The identity of the region behind all windows.
    pub open spec fn spec_background() -> Id {
        Id(0)
    }

    #[verifier::when_used_as_spec(spec_background)]
    pub fn background() -> (id: Id)
        ensures
            id == Id::spec_background(),
    {
        Id(0)
    }

    /// The identity of the layer that holds diagnostic overlays.
    pub open spec fn spec_debug() -> Id {
        Id(1)
    }

    #[verifier::when_used_as_spec(spec_debug)]
    pub fn debug() -> (id: Id)
        ensures
            id == Id::spec_debug(),
    {
        Id(1)
    }
}

/// The z-order class of a layer, from the back to the front.
#[derive(Clone, Copy, Debug, PartialEq, Eq, Hash, Structural)]
pub enum Order {
    /// Behind all windows.
    Background,
    /// Ordinary windows.
    Middle,
    /// Popups and menus.
    Foreground,
    /// Diagnostic overlays, in front of everything.
    Debug,
}

impl Order {
    /// The place of the class in the z-order: a higher rank is nearer to the
    /// viewer.
    pub open spec fn spec_rank(self) -> u8 {
        match self {
            Order::Background => 0,
            Order::Middle => 1,
            Order::Foreground => 2,
            Order::Debug => 3,
        }
    }

    #[verifier::when_used_as_spec(spec_rank)]
    pub fn rank(self) -> (r: u8)
        ensures
            r == self.spec_rank(),
    {
        match self {
            Order::Background => 0,
            Order::Middle => 1,
            Order::Foreground => 2,
            Order::Debug => 3,
        }
    }
}

/// A group of drawn regions: its z-order class and its own identity.
#[derive(Clone, Copy, Debug, PartialEq, Eq, Hash, Structural)]
pub struct Layer {
    pub order: Order,
    pub id: Id,
}

impl Layer {
    /// The layer behind all windows, which covers the screen.
    pub open spec fn spec_background() -> Layer {
        Layer { order: Order::Background, id: Id::spec_background() }
    }

    #[verifier::when_used_as_spec(spec_background)]
    pub fn background() -> (layer: Layer)
        ensures
            layer == Layer::spec_background(),
    {
        Layer { order: Order::Background, id: Id::background() }
    }

    /// The reserved layer of diagnostic overlays, which is painted last.
    pub open spec fn spec_debug() -> Layer {
        Layer { order: Order::Debug, id: Id::spec_debug() }
    }

    #[verifier::when_used_as_spec(spec_debug)]
    pub fn debug() -> (layer: Layer)
        ensures
            layer == Layer::spec_debug(),
    {
        Layer { order: Order::Debug, id: Id::debug() }
    }
}

} // verus!
