//! The two horizontal headings.

use crate::chance::coin_flip;
use vstd::prelude::*;

verus! {

/// A horizontal heading.
#[derive(Clone, Copy, Debug, PartialEq, Eq, Structural)]
pub enum Directions {
    LEFT,
    RIGHT,
}

impl Directions {
    /// The heading that a coin flip selects: `LEFT` on `true`.
    pub open spec fn from_flip(flip: bool) -> Directions {
        if flip {
            Directions::LEFT
        } else {
            Directions::RIGHT
        }
    }

    /// The heading for a given coin flip.
    pub fn chosen(flip: bool) -> (heading: Directions)
        ensures
            heading == Self::from_flip(flip),
    {
        match flip {
            true => Self::LEFT,
            false => Self::RIGHT,
        }
    }

    /// A heading chosen by a fair coin. Either heading may come back.
    pub fn random() -> (heading: Directions) {
        Self::chosen(coin_flip())
    }

    /// Whether the heading is `LEFT`.
    pub fn going_left(self) -> (left: bool)
        ensures
            left == (self == Directions::LEFT),
    {
        match self {
            Self::LEFT => true,
            Self::RIGHT => false,
        }
    }
}

} // verus!
