//! The people of the overworld. There is one: a healer.

use crate::combat::CombatStats;
use crate::player::Player;
use vstd::prelude::*;

verus! {

/// Who a map tile can be.
#[derive(Debug, Clone, Copy, PartialEq, Eq, Hash, Structural)]
pub enum Npc {
    Healer,
}

/// The player and the dialog, as a talk with the healer sees them.
pub struct Talk {
    pub player: Player,
    pub stats: CombatStats,
    /// Whether the dialog box is on the screen.
    pub dialog_open: bool,
}

impl Talk {
    /// Whether this tick makes the healer speak: an active player interacts
    /// with a healer in reach.
    pub open spec fn heals(self, interact: bool, npc_in_reach: bool) -> bool {
        self.player.active && interact && npc_in_reach
    }

    /// The talk after one tick. While the player is not active, a key that
    /// dismisses closes the dialog and hands the controls back. An active
    /// player who interacts with a healer in reach is healed to full health,
    /// and the dialog holds the player until it is dismissed.
    pub open spec fn step(self, dismiss: bool, interact: bool, npc_in_reach: bool) -> Talk {
        if !self.player.active {
            if dismiss {
                Talk { player: Player { active: true, ..self.player }, dialog_open: false, ..self }
            } else {
                self
            }
        } else if interact && npc_in_reach {
            Talk {
                player: Player { active: false, ..self.player },
                stats: CombatStats { health: self.stats.max_health, ..self.stats },
                dialog_open: true,
            }
        } else {
            self
        }
    }
}

/// Runs one tick of the talk with the healer, and returns whether the healer
/// spoke in it.
pub fn npc_dialog(
    player: &mut Player,
    stats: &mut CombatStats,
    dialog_open: &mut bool,
    dismiss: bool,
    interact: bool,
    npc_in_reach: bool,
) -> (spoke: bool)
    ensures
        (Talk { player: *final(player), stats: *final(stats), dialog_open: *final(dialog_open) })
            == (Talk { player: *old(player), stats: *old(stats), dialog_open: *old(dialog_open) })
            .step(dismiss, interact, npc_in_reach),
        spoke == (Talk {
            player: *old(player),
            stats: *old(stats),
            dialog_open: *old(dialog_open),
        }).heals(interact, npc_in_reach),
        old(stats).wf() ==> final(stats).wf(),
{
    if !player.active {
        if dismiss {
            *dialog_open = false;
            player.active = true;
        }
        return false;
    }
    if !interact || !npc_in_reach {
        return false;
    }
    *dialog_open = true;
    player.active = false;
    stats.heal();
    true
}

/// Picks the person who gets the speech bubble: the first of those in reach,
/// in the order in which they are given.
pub fn highlight_npc(in_reach: &Vec<bool>) -> (bubble: Option<usize>)
    ensures
        match bubble {
            Some(i) => i < in_reach@.len() && in_reach@[i as int] && forall|j: int|
                0 <= j < i ==> !in_reach@[j],
            None => forall|j: int| 0 <= j < in_reach@.len() ==> !in_reach@[j],
        },
{
    let n = in_reach.len();
    let mut i: usize = 0;
    while i < n
        invariant
            n == in_reach@.len(),
            i <= n,
            forall|j: int| 0 <= j < i ==> !in_reach@[j],
        decreases n - i,
    {
        if in_reach[i] {
            return Some(i);
        }
        i = i + 1;
    }
    None
}

} // verus!
