//! How buttons answer the pointer.

use vstd::prelude::*;

verus! {

/// What the pointer does to a button.
#[derive(Debug, Clone, Copy, PartialEq, Eq, Hash, Structural)]
pub enum Interaction {
    Clicked,
    Hovered,
    Idle,
}

/// By how many pixels a button is moved down from its place: a clicked
/// button sinks by three, a hovered one rises by three, and a disabled
/// button does not move at all.
pub fn button_interaction(interaction: Interaction, disabled: bool) -> (offset: i32)
    ensures
        offset == if disabled {
            0int
        } else {
            match interaction {
                Interaction::Clicked => 3int,
                Interaction::Hovered => -3int,
                Interaction::Idle => 0int,
            }
        },
{
    if disabled {
        0
    } else {
        match interaction {
            Interaction::Clicked => 3,
            Interaction::Hovered => -3,
            Interaction::Idle => 0,
        }
    }
}

} // verus!
