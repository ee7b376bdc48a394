//! The overworld: the player walks, meets the healer, and now and then is
//! drawn into a fight.

use crate::combat::CombatStats;
use crate::mode::GameState;
use crate::npc::{npc_dialog, Talk};
use crate::player::{
    dwell_tick, encounter_delay, encounter_fires, encounter_timer_after, encounter_timer_wf,
    new_player,
    player_encounter_checker, player_movement, player_stats, DwellTick, EncounterTimer, Player,
    ENCOUNTER_MIN_MILLIS, NANOS_PER_MILLI,
};
use crate::timer::{TimerMode, TimerView};
use crate::transition::{ScreenFade, ScreenFadeView};
use vstd::prelude::*;

verus! {

/// What the world outside the game tells the overworld in one tick.
#[derive(Debug, Clone, Copy, PartialEq, Eq, Structural)]
pub struct OverworldInput {
    /// The length of the tick, in nanoseconds.
    pub delta: u64,
    /// Whether the player's input, if it is obeyed, changes the avatar's
    /// place in this tick.
    pub displaced: bool,
    /// Whether the avatar stands in an encounter zone.
    pub over_encounter: bool,
    /// Whether a key that closes the dialog was pressed.
    pub dismiss: bool,
    /// Whether the key that talks to people was pressed.
    pub interact: bool,
    /// Whether a healer is in reach of the avatar.
    pub npc_in_reach: bool,
}

/// What one tick of the overworld asks of the world around it.
#[derive(Debug, Clone, Copy, PartialEq, Eq, Structural)]
pub struct OverworldReport {
    /// Whether the walk cycle plays.
    pub walking: bool,
    /// Whether an encounter started.
    pub encounter: bool,
    /// Whether the healer spoke.
    pub healed: bool,
}

/// The state of an [`Overworld`].
pub struct OverworldView {
    pub player: Player,
    pub stats: CombatStats,
    pub encounter: TimerView,
    pub visible: bool,
    pub dialog_open: bool,
}

impl OverworldView {
    pub open spec fn wf(self) -> bool {
        self.stats.wf() && encounter_timer_wf(self.encounter)
    }

    /// The overworld as it is entered.
    pub open spec fn fresh() -> OverworldView {
        OverworldView {
            player: Player { active: true, just_moved: false, xp: 0 },
            stats: CombatStats { max_health: 15, health: 15, attack: 3, defence: 1 },
            encounter: TimerView::fresh(
                (ENCOUNTER_MIN_MILLIS * NANOS_PER_MILLI) as nat,
                TimerMode::Repeating,
            ),
            visible: true,
            dialog_open: false,
        }
    }

    /// The player after the movement of this tick.
    pub open spec fn moved(self, input: OverworldInput) -> Player {
        Player { just_moved: self.player.active && input.displaced, ..self.player }
    }

    /// The tick as the encounter timer sees it.
    pub open spec fn dwell(self, input: OverworldInput, rearm: nat) -> DwellTick {
        DwellTick {
            dwelling: self.moved(input).just_moved && input.over_encounter,
            delta: input.delta as nat,
            rearm,
        }
    }

    /// Whether an encounter starts in this tick.
    pub open spec fn meets(self, input: OverworldInput) -> bool {
        encounter_fires(self.encounter, self.dwell(input, 0))
    }

    /// The player after movement and encounter check.
    pub open spec fn met(self, input: OverworldInput) -> Player {
        if self.meets(input) {
            Player { active: false, ..self.moved(input) }
        } else {
            self.moved(input)
        }
    }

    /// The talk with the healer in this tick.
    pub open spec fn talk(self, input: OverworldInput) -> Talk {
        Talk { player: self.met(input), stats: self.stats, dialog_open: self.dialog_open }
    }

    /// The overworld after one tick: the player moves, the encounter timer
    /// is checked, and the healer is talked to, in this order. `rearm` is
    /// the delay, in milliseconds, that the encounter timer gets if it
    /// fires.
    pub open spec fn update(self, input: OverworldInput, rearm: nat) -> OverworldView {
        let talked = self.talk(input).step(input.dismiss, input.interact, input.npc_in_reach);
        OverworldView {
            player: talked.player,
            stats: talked.stats,
            encounter: encounter_timer_after(self.encounter, self.dwell(input, rearm)),
            visible: self.visible,
            dialog_open: talked.dialog_open,
        }
    }

    /// What the tick asks of the world around the overworld.
    pub open spec fn report(self, input: OverworldInput) -> OverworldReport {
        OverworldReport {
            walking: self.moved(input).just_moved,
            encounter: self.meets(input),
            healed: self.talk(input).heals(input.interact, input.npc_in_reach),
        }
    }

    /// The overworld when it is hidden behind another mode.
    pub open spec fn paused(self) -> OverworldView {
        OverworldView { visible: false, ..self }
    }

    /// The overworld when it comes back: on the screen, and the controls
    /// with the player.
    pub open spec fn resumed(self) -> OverworldView {
        OverworldView { visible: true, player: Player { active: true, ..self.player }, ..self }
    }
}

/// The overworld and the player in it.
#[derive(Debug, Clone, Copy)]
pub struct Overworld {
    pub player: Player,
    pub stats: CombatStats,
    pub encounter: EncounterTimer,
    /// Whether the scene and the avatar are on the screen.
    pub visible: bool,
    /// Whether the dialog box is on the screen.
    pub dialog_open: bool,
}

impl View for Overworld {
    type V = OverworldView;

    open spec fn view(&self) -> OverworldView {
        OverworldView {
            player: self.player,
            stats: self.stats,
            encounter: self.encounter@,
            visible: self.visible,
            dialog_open: self.dialog_open,
        }
    }
}

impl Overworld {
    /// Enters the overworld: the player at full health and without
    /// experience, the first encounter one second of tall grass away.
    pub fn new() -> (world: Overworld)
        ensures
            world@ == OverworldView::fresh(),
            world@.wf(),
    {
        Overworld {
            player: new_player(),
            stats: player_stats(),
            encounter: EncounterTimer::new(),
            visible: true,
            dialog_open: false,
        }
    }

    /// Hides the overworld while another mode runs on top of it.
    pub fn pause(&mut self)
        ensures
            final(self)@ == old(self)@.paused(),
    {
        self.visible = false;
    }

    /// Shows the overworld again and hands the controls to the player.
    pub fn resume(&mut self)
        ensures
            final(self)@ == old(self)@.resumed(),
    {
        self.visible = true;
        self.player.active = true;
    }

    /// Runs one tick of the overworld. Returns what the tick asks of the
    /// world around it and, if an encounter started, the fade into combat.
    pub fn update(&mut self, input: OverworldInput) -> (out: (OverworldReport, Option<ScreenFade>))
        requires
            old(self)@.wf(),
            old(self)@.encounter.fits(input.delta as nat),
        ensures
            exists|rearm: nat|
                encounter_delay(rearm) && final(self)@ == #[trigger] old(self)@.update(input, rearm),
            out.0 == old(self)@.report(input),
            out.1.is_some() == out.0.encounter,
            out.1 matches Some(f) ==> f@ == ScreenFadeView::fresh(Some(GameState::Combat))
                && f@.wf(),
            final(self)@.wf(),
            final(self)@.visible == old(self)@.visible,
            final(self)@.player.xp == old(self)@.player.xp,
    {
        let walking = player_movement(&mut self.player, input.displaced);
        let ghost moved = self.player;
        let fade = player_encounter_checker(
            &mut self.player,
            &mut self.encounter,
            input.over_encounter,
            input.delta,
        );
        let ghost rearm = choose|millis: nat|
            encounter_delay(millis) && self.encounter@ == encounter_timer_after(
                old(self)@.encounter,
                #[trigger] dwell_tick(moved, input.over_encounter, input.delta, millis),
            );
        let healed = npc_dialog(
            &mut self.player,
            &mut self.stats,
            &mut self.dialog_open,
            input.dismiss,
            input.interact,
            input.npc_in_reach,
        );
        proof {
            assert(self@ == old(self)@.update(input, rearm));
        }
        (OverworldReport { walking, encounter: fade.is_some(), healed }, fade)
    }
}

} // verus!
