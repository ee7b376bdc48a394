//! The whole game in one value: the stack of modes, what each mode owns, and
//! the fades that are on the screen.
//!
//! One tick updates the mode on top of the stack, advances every fade, and
//! then makes the changes of mode that fell due. So all of a tick sees one
//! mode, and modes change between ticks.

use crate::combat::{
    escape_combat, Combat, CombatInput, CombatReport, CombatState, CombatView, Fight, VICTORY_XP,
};
use crate::menu::{on_start_click, MainMenu};
use crate::mode::{GameState, ModeStack};
use crate::overworld::{Overworld, OverworldInput, OverworldReport, OverworldView};
use crate::player::encounter_delay;
use crate::transition::{
    all_fades, changes_of, create_fadeout, fadeout, fades_left, ModeChange,
    ScreenFade, ScreenFadeView,
};
use vstd::prelude::*;

verus! {

/// What the world outside the game tells it in one tick.
#[derive(Debug, Clone, Copy, PartialEq, Eq, Structural)]
pub struct Input {
    /// The length of the tick, in nanoseconds.
    pub delta: u64,
    /// The start button of the main menu was clicked.
    pub start: bool,
    /// The "fight" button was clicked.
    pub fight: bool,
    /// The "run" button was clicked.
    pub run: bool,
    /// Whether the player's input, if it is obeyed, changes the avatar's
    /// place in this tick.
    pub displaced: bool,
    /// Whether the avatar stands in an encounter zone.
    pub over_encounter: bool,
    /// Whether a key that closes the dialog was pressed.
    pub dismiss: bool,
    /// Whether the key that talks to people was pressed.
    pub interact: bool,
    /// Whether a healer is in reach of the avatar.
    pub npc_in_reach: bool,
}

impl Input {
    /// The part of the input that the overworld reads.
    pub open spec fn overworld(self) -> OverworldInput {
        OverworldInput {
            delta: self.delta,
            displaced: self.displaced,
            over_encounter: self.over_encounter,
            dismiss: self.dismiss,
            interact: self.interact,
            npc_in_reach: self.npc_in_reach,
        }
    }

    /// The part of the input that a fight reads.
    pub open spec fn combat(self) -> CombatInput {
        CombatInput { fight: self.fight, run: self.run }
    }

    /// The part of the input that the overworld reads.
    pub fn for_overworld(&self) -> (input: OverworldInput)
        ensures
            input == self.overworld(),
    {
        OverworldInput {
            delta: self.delta,
            displaced: self.displaced,
            over_encounter: self.over_encounter,
            dismiss: self.dismiss,
            interact: self.interact,
            npc_in_reach: self.npc_in_reach,
        }
    }

    /// The part of the input that a fight reads.
    pub fn for_combat(&self) -> (input: CombatInput)
        ensures
            input == self.combat(),
    {
        CombatInput { fight: self.fight, run: self.run }
    }

    /// A tick of `delta` nanoseconds in which nothing is pressed and nothing
    /// moves.
    pub fn idle(delta: u64) -> (input: Input)
        ensures
            input == (Input {
                delta,
                start: false,
                fight: false,
                run: false,
                displaced: false,
                over_encounter: false,
                dismiss: false,
                interact: false,
                npc_in_reach: false,
            }),
    {
        Input {
            delta,
            start: false,
            fight: false,
            run: false,
            displaced: false,
            over_encounter: false,
            dismiss: false,
            interact: false,
            npc_in_reach: false,
        }
    }
}

/// What happens to a mode when the stack changes.
#[derive(Debug, Clone, Copy, PartialEq, Eq, Structural)]
pub enum Lifecycle {
    /// Another mode was put on top of it; it keeps what it owns.
    Paused(GameState),
    /// It was put on the stack and starts afresh.
    Entered(GameState),
    /// It was taken from the stack; what it owned is gone.
    Exited(GameState),
    /// The mode on top of it was taken away; it runs again.
    Resumed(GameState),
}

/// The stack after `change`. The last mode is never taken away.
pub open spec fn stack_after(modes: Seq<GameState>, change: ModeChange) -> Seq<GameState> {
    match change {
        ModeChange::Push(mode) => modes.push(mode),
        ModeChange::Pop => if modes.len() > 1 {
            modes.drop_last()
        } else {
            modes
        },
    }
}

/// Whether `change` is refused: only taking the last mode away is.
pub open spec fn refuses(modes: Seq<GameState>, change: ModeChange) -> bool {
    change == ModeChange::Pop && modes.len() <= 1
}

/// What `change` does to the modes on the stack.
pub open spec fn lifecycle_of(modes: Seq<GameState>, change: ModeChange) -> Seq<Lifecycle> {
    match change {
        ModeChange::Push(mode) => seq![Lifecycle::Paused(modes.last()), Lifecycle::Entered(mode)],
        ModeChange::Pop => if modes.len() > 1 {
            seq![Lifecycle::Exited(modes.last()), Lifecycle::Resumed(modes[modes.len() - 2])]
        } else {
            seq![]
        },
    }
}

/// The stack after all of `changes`, in their order.
pub open spec fn stack_after_all(modes: Seq<GameState>, changes: Seq<ModeChange>) -> Seq<GameState>
    decreases changes.len(),
{
    if changes.len() == 0 {
        modes
    } else {
        stack_after(stack_after_all(modes, changes.drop_last()), changes.last())
    }
}

/// What all of `changes` do to the modes on the stack.
pub open spec fn lifecycle_all(modes: Seq<GameState>, changes: Seq<ModeChange>) -> Seq<Lifecycle>
    decreases changes.len(),
{
    if changes.len() == 0 {
        seq![]
    } else {
        lifecycle_all(modes, changes.drop_last()) + lifecycle_of(
            stack_after_all(modes, changes.drop_last()),
            changes.last(),
        )
    }
}

/// How many of `changes` are refused.
pub open spec fn refused_all(modes: Seq<GameState>, changes: Seq<ModeChange>) -> nat
    decreases changes.len(),
{
    if changes.len() == 0 {
        0
    } else if refuses(stack_after_all(modes, changes.drop_last()), changes.last()) {
        refused_all(modes, changes.drop_last()) + 1
    } else {
        refused_all(modes, changes.drop_last())
    }
}

/// `n` fades that each leave the running mode.
pub open spec fn exit_fades(n: nat) -> Seq<ScreenFadeView> {
    Seq::new(n, |i: int| ScreenFadeView::fresh(None))
}

/// What one tick of the game asks of the world around it.
pub struct TickSummary {
    /// Whether the start button was accepted.
    pub started: bool,
    /// Whether the walk cycle plays.
    pub walking: bool,
    /// Whether an encounter started.
    pub encounter: bool,
    /// Whether the healer spoke.
    pub healed: bool,
    /// How many hits were resolved.
    pub hits: nat,
    /// Whether a fight was won.
    pub victory: bool,
    /// Whether the view shakes.
    pub shake: bool,
    /// What happened to the modes, in order.
    pub lifecycle: Seq<Lifecycle>,
    /// How many changes of mode were refused because they would have left
    /// the stack empty.
    pub refused: nat,
}

/// What one tick of the game asks of the world around it.
#[derive(Debug)]
pub struct TickReport {
    pub started: bool,
    pub walking: bool,
    pub encounter: bool,
    pub healed: bool,
    pub hits: usize,
    pub victory: bool,
    pub shake: bool,
    pub lifecycle: Vec<Lifecycle>,
    pub refused: usize,
}

impl View for TickReport {
    type V = TickSummary;

    open spec fn view(&self) -> TickSummary {
        TickSummary {
            started: self.started,
            walking: self.walking,
            encounter: self.encounter,
            healed: self.healed,
            hits: self.hits as nat,
            victory: self.victory,
            shake: self.shake,
            lifecycle: self.lifecycle@,
            refused: self.refused as nat,
        }
    }
}

/// The state of a [`Game`].
pub struct GameView {
    /// The stack of modes, the running one last. Never empty.
    pub modes: Seq<GameState>,
    pub menu: MainMenu,
    /// The overworld, from when it is entered until it is left.
    pub overworld: Option<OverworldView>,
    /// The fight, from when combat is entered until it is left.
    pub combat: Option<CombatView>,
    /// The fades on the screen, the oldest first.
    pub fades: Seq<ScreenFadeView>,
}

impl GameView {
    pub open spec fn wf(self) -> bool {
        &&& self.modes.len() > 0
        &&& self.overworld matches Some(world) ==> world.wf()
        &&& self.combat matches Some(combat) ==> combat.wf() && combat.events.len() == 0
        &&& all_fades(self.fades)
    }

    /// Whether a tick with this input can be counted: the timers that may
    /// run in it count their periods in 32 bits, and the player's experience
    /// has room for a victory.
    pub open spec fn accepts(self, input: Input) -> bool {
        &&& self.overworld matches Some(world) ==> world.encounter.fits(input.delta as nat)
            && world.player.xp + VICTORY_XP <= usize::MAX
        &&& self.combat matches Some(combat) ==> combat.effects.timer.fits(input.delta as nat)
    }

    /// The game as it opens: the main menu alone.
    pub open spec fn fresh() -> GameView {
        GameView {
            modes: seq![GameState::MainMenu],
            menu: MainMenu { visible: true, start_disabled: false },
            overworld: None,
            combat: None,
            fades: seq![],
        }
    }

    /// The running mode.
    pub open spec fn current(self) -> GameState {
        self.modes.last()
    }

    /// The game after `mode` was paused: it leaves the screen and keeps what
    /// it owns.
    pub open spec fn paused(self, mode: GameState) -> GameView {
        match mode {
            GameState::MainMenu => GameView {
                menu: MainMenu { visible: false, ..self.menu },
                ..self
            },
            GameState::Overworld => GameView {
                overworld: match self.overworld {
                    Some(world) => Some(world.paused()),
                    None => None,
                },
                ..self
            },
            GameState::Combat => self,
        }
    }

    /// The game after `mode` was entered. Entering the overworld puts the
    /// player into it; entering combat starts a fight, in the player's turn
    /// and against one enemy.
    pub open spec fn entered(self, mode: GameState) -> GameView {
        match mode {
            GameState::MainMenu => self,
            GameState::Overworld => GameView {
                overworld: Some(OverworldView::fresh()),
                ..self
            },
            GameState::Combat => GameView { combat: Some(CombatView::fresh()), ..self },
        }
    }

    /// The game after `mode` was left: what the mode owned is gone. Leaving
    /// combat removes the fight, the enemy with it, whatever its phase.
    pub open spec fn exited(self, mode: GameState) -> GameView {
        match mode {
            GameState::MainMenu => self,
            GameState::Overworld => GameView { overworld: None, ..self },
            GameState::Combat => GameView { combat: None, ..self },
        }
    }

    /// The game after `mode` was resumed: it is back on the screen.
    pub open spec fn resumed(self, mode: GameState) -> GameView {
        match mode {
            GameState::MainMenu => GameView {
                menu: MainMenu { visible: true, ..self.menu },
                ..self
            },
            GameState::Overworld => GameView {
                overworld: match self.overworld {
                    Some(world) => Some(world.resumed()),
                    None => None,
                },
                ..self
            },
            GameState::Combat => self,
        }
    }

    /// The game after `mode` was pushed: the running mode is paused and
    /// `mode` entered.
    pub open spec fn pushed(self, mode: GameState) -> GameView {
        GameView { modes: self.modes.push(mode), ..self.paused(self.current()).entered(mode) }
    }

    /// The game after the running mode was popped: it is left and the mode
    /// beneath it resumed. The last mode stays.
    pub open spec fn popped(self) -> GameView {
        if self.modes.len() > 1 {
            GameView {
                modes: self.modes.drop_last(),
                ..self.exited(self.current()).resumed(self.modes[self.modes.len() - 2])
            }
        } else {
            self
        }
    }

    /// The game after `change`.
    pub open spec fn changed(self, change: ModeChange) -> GameView {
        match change {
            ModeChange::Push(mode) => self.pushed(mode),
            ModeChange::Pop => self.popped(),
        }
    }

    /// The game after all of `changes`, in their order.
    pub open spec fn changed_all(self, changes: Seq<ModeChange>) -> GameView
        decreases changes.len(),
    {
        if changes.len() == 0 {
            self
        } else {
            self.changed_all(changes.drop_last()).changed(changes.last())
        }
    }

    /// The game with one more fade on the screen, which at its midpoint
    /// enters `next_state` or, for `None`, leaves the running mode.
    pub open spec fn requested(self, next_state: Option<GameState>) -> GameView {
        GameView { fades: self.fades.push(ScreenFadeView::fresh(next_state)), ..self }
    }

    /// Whether this tick accepts the start button.
    pub open spec fn starts(self, input: Input) -> bool {
        self.current() == GameState::MainMenu && input.start && !self.menu.start_disabled
    }

    /// Whether the overworld runs in this tick.
    pub open spec fn walks(self) -> bool {
        self.current() == GameState::Overworld && self.overworld.is_some()
    }

    /// Whether a fight runs in this tick.
    pub open spec fn fights(self) -> bool {
        self.current() == GameState::Combat && self.combat.is_some() && self.overworld.is_some()
    }

    /// The fight of this tick.
    pub open spec fn fight(self) -> Fight {
        Fight {
            combat: self.combat.unwrap(),
            player: self.overworld.unwrap().player,
            stats: self.overworld.unwrap().stats,
        }
    }

    /// What the overworld asks for in this tick; nothing if it does not run.
    pub open spec fn walk_report(self, input: Input) -> OverworldReport {
        if self.walks() {
            self.overworld.unwrap().report(input.overworld())
        } else {
            OverworldReport { walking: false, encounter: false, healed: false }
        }
    }

    /// What the fight asks for in this tick; nothing if none runs.
    pub open spec fn fight_report(self, input: Input) -> CombatReport {
        if self.fights() {
            self.fight().report(input.combat(), input.delta as nat)
        } else {
            CombatReport { hits: 0, defeats: 0, escaped: false, victory: false, shake: false }
        }
    }

    /// How many fades out of the fight this tick starts: one if the player
    /// runs, and one for each defeat.
    pub open spec fn exits(self, input: Input) -> nat {
        let report = self.fight_report(input);
        report.defeats as nat + if report.escaped {
            1nat
        } else {
            0nat
        }
    }

    /// The game after the running mode was updated. The main menu waits for
    /// the start button; the overworld moves the player and may start an
    /// encounter; combat runs the fight. Each of them may put fades on the
    /// screen. A mode that lacks what it works on does nothing.
    pub open spec fn updated(self, input: Input, rearm: nat) -> GameView {
        if self.current() == GameState::MainMenu {
            let menu = MainMenu {
                start_disabled: self.menu.start_disabled || input.start,
                ..self.menu
            };
            if self.starts(input) {
                GameView { menu, ..self }.requested(Some(GameState::Overworld))
            } else {
                GameView { menu, ..self }
            }
        } else if self.walks() {
            let world = self.overworld.unwrap();
            let moved = GameView {
                overworld: Some(world.update(input.overworld(), rearm)),
                ..self
            };
            if world.meets(input.overworld()) {
                moved.requested(Some(GameState::Combat))
            } else {
                moved
            }
        } else if self.fights() {
            let fought = self.fight().update(input.combat(), input.delta as nat);
            GameView {
                combat: Some(fought.combat),
                overworld: Some(
                    OverworldView {
                        player: fought.player,
                        stats: fought.stats,
                        ..self.overworld.unwrap()
                    },
                ),
                fades: self.fades + exit_fades(self.exits(input)),
                ..self
            }
        } else {
            self
        }
    }

    /// The game with every fade advanced by `delta` and the fades that have
    /// ended removed.
    pub open spec fn faded(self, delta: nat) -> GameView {
        GameView { fades: fades_left(self.fades, delta), ..self }
    }

    /// The game after one tick: the fades advance, the running mode is
    /// updated, and then the changes of mode that the fades called for are
    /// made. `rearm` is the delay, in milliseconds, that the encounter timer
    /// gets if it fires.
    pub open spec fn tick(self, input: Input, rearm: nat) -> GameView {
        self.faded(input.delta as nat).updated(input, rearm).changed_all(
            changes_of(self.fades, input.delta as nat),
        )
    }

    /// What the tick asks of the world around the game.
    pub open spec fn report(self, input: Input) -> TickSummary {
        let changes = changes_of(self.fades, input.delta as nat);
        TickSummary {
            started: self.starts(input),
            walking: self.walk_report(input).walking,
            encounter: self.walk_report(input).encounter,
            healed: self.walk_report(input).healed,
            hits: self.fight_report(input).hits as nat,
            victory: self.fight_report(input).victory,
            shake: self.fight_report(input).shake,
            lifecycle: lifecycle_all(self.modes, changes),
            refused: refused_all(self.modes, changes),
        }
    }
}

/// The game.
#[derive(Debug)]
pub struct Game {
    modes: ModeStack,
    menu: MainMenu,
    overworld: Option<Overworld>,
    combat: Option<Combat>,
    fades: Vec<ScreenFade>,
}

impl View for Game {
    type V = GameView;

    closed spec fn view(&self) -> GameView {
        GameView {
            modes: self.modes@,
            menu: self.menu,
            overworld: match self.overworld {
                Some(world) => Some(world@),
                None => None,
            },
            combat: match self.combat {
                Some(combat) => Some(combat@),
                None => None,
            },
            fades: self.fades.deep_view(),
        }
    }
}

impl Game {
    /// Opens the game in the main menu.
    pub fn new() -> (game: Game)
        ensures
            game@ == GameView::fresh(),
            game@.wf(),
    {
        let game = Game {
            modes: ModeStack::new(GameState::MainMenu),
            menu: MainMenu::new(),
            overworld: None,
            combat: None,
            fades: Vec::new(),
        };
        assert(game.fades.deep_view() =~= seq![]);
        game
    }

    /// The stack of modes.
    pub fn modes(&self) -> (modes: &ModeStack)
        ensures
            modes@ == self@.modes,
    {
        &self.modes
    }

    /// The running mode.
    pub fn current(&self) -> (mode: GameState)
        ensures
            mode == self@.current(),
    {
        self.modes.current()
    }

    /// The main menu.
    pub fn menu(&self) -> (menu: MainMenu)
        ensures
            menu == self@.menu,
    {
        self.menu
    }

    /// The overworld, if it has been entered and not left.
    pub fn overworld(&self) -> (world: Option<Overworld>)
        ensures
            world.is_some() == self@.overworld.is_some(),
            world matches Some(w) ==> w@ == self@.overworld.unwrap(),
    {
        self.overworld
    }

    /// The fight, if there is one.
    pub fn combat(&self) -> (combat: Option<&Combat>)
        ensures
            combat.is_some() == self@.combat.is_some(),
            combat matches Some(c) ==> c@ == self@.combat.unwrap(),
    {
        self.combat.as_ref()
    }

    /// The fades on the screen, the oldest first.
    pub fn fades(&self) -> (fades: &Vec<ScreenFade>)
        ensures
            fades.deep_view() == self@.fades,
    {
        &self.fades
    }

    /// Whether `tick` may be called with this input.
    pub fn accepts(&self, input: &Input) -> (b: bool)
        ensures
            b == self@.accepts(*input),
    {
        let world_fits = match self.overworld {
            Some(world) => world.encounter.fits(input.delta) && world.player.xp <= usize::MAX
                - VICTORY_XP,
            None => true,
        };
        let combat_fits = match &self.combat {
            Some(combat) => combat.effects().timer().fits(input.delta),
            None => true,
        };
        world_fits && combat_fits
    }

    /// Asks for a change of mode: puts a fade on the screen that at its
    /// midpoint enters `next_state` or, for `None`, leaves the running mode.
    pub fn request_transition(&mut self, next_state: Option<GameState>)
        requires
            old(self)@.wf(),
        ensures
            final(self)@ == old(self)@.requested(next_state),
            final(self)@.wf(),
    {
        let fade = create_fadeout(next_state);
        self.fades.push(fade);
        assert(self.fades.deep_view() =~= old(self).fades.deep_view().push(fade@));
    }

    fn pause(&mut self, mode: GameState)
        requires
            old(self)@.wf(),
        ensures
            final(self)@ == old(self)@.paused(mode),
            final(self)@.wf(),
    {
        match mode {
            GameState::MainMenu => {
                self.menu.visible = false;
            },
            GameState::Overworld => {
                if let Some(mut world) = self.overworld {
                    world.pause();
                    self.overworld = Some(world);
                }
            },
            GameState::Combat => {},
        }
    }

    fn enter(&mut self, mode: GameState)
        requires
            old(self)@.wf(),
        ensures
            final(self)@ == old(self)@.entered(mode),
            final(self)@.wf(),
    {
        match mode {
            GameState::MainMenu => {},
            GameState::Overworld => {
                self.overworld = Some(Overworld::new());
            },
            GameState::Combat => {
                self.combat = Some(Combat::new());
            },
        }
    }

    fn exit(&mut self, mode: GameState)
        requires
            old(self)@.wf(),
        ensures
            final(self)@ == old(self)@.exited(mode),
            final(self)@.wf(),
    {
        match mode {
            GameState::MainMenu => {},
            GameState::Overworld => {
                self.overworld = None;
            },
            GameState::Combat => {
                self.combat = None;
            },
        }
    }

    fn resume(&mut self, mode: GameState)
        requires
            old(self)@.wf(),
        ensures
            final(self)@ == old(self)@.resumed(mode),
            final(self)@.wf(),
    {
        match mode {
            GameState::MainMenu => {
                self.menu.visible = true;
            },
            GameState::Overworld => {
                if let Some(mut world) = self.overworld {
                    world.resume();
                    self.overworld = Some(world);
                }
            },
            GameState::Combat => {},
        }
    }

    /// Makes a change of mode at once, writes what it does to the modes
    /// behind `log`, and returns whether the change was made. Taking the
    /// last mode away is refused and changes nothing.
    pub fn change_mode(&mut self, change: ModeChange, log: &mut Vec<Lifecycle>) -> (made: bool)
        requires
            old(self)@.wf(),
        ensures
            final(self)@ == old(self)@.changed(change),
            final(self)@.modes == stack_after(old(self)@.modes, change),
            final(log)@ == old(log)@ + lifecycle_of(old(self)@.modes, change),
            made == !refuses(old(self)@.modes, change),
            final(self)@.wf(),
    {
        let top = self.modes.current();
        match change {
            ModeChange::Push(mode) => {
                self.pause(top);
                self.enter(mode);
                self.modes.push(mode);
                log.push(Lifecycle::Paused(top));
                log.push(Lifecycle::Entered(mode));
                true
            },
            ModeChange::Pop => {
                if self.modes.can_pop() {
                    let _ = self.modes.pop();
                    self.exit(top);
                    let beneath = self.modes.current();
                    self.resume(beneath);
                    log.push(Lifecycle::Exited(top));
                    log.push(Lifecycle::Resumed(beneath));
                    true
                } else {
                    false
                }
            },
        }
    }

    /// Makes the changes of mode in their order, writes what they do to the
    /// modes behind `log`, and returns how many of them were refused.
    pub fn change_modes(&mut self, changes: &Vec<ModeChange>, log: &mut Vec<Lifecycle>) -> (refused:
        usize)
        requires
            old(self)@.wf(),
        ensures
            final(self)@ == old(self)@.changed_all(changes@),
            final(self)@.modes == stack_after_all(old(self)@.modes, changes@),
            final(log)@ == old(log)@ + lifecycle_all(old(self)@.modes, changes@),
            refused == refused_all(old(self)@.modes, changes@),
            final(self)@.wf(),
    {
        let ghost start = self@;
        let n = changes.len();
        let mut refused: usize = 0;
        let mut i: usize = 0;
        while i < n
            invariant
                n == changes@.len(),
                i <= n,
                self@.wf(),
                self@ == start.changed_all(changes@.take(i as int)),
                self@.modes == stack_after_all(start.modes, changes@.take(i as int)),
                log@ == old(log)@ + lifecycle_all(start.modes, changes@.take(i as int)),
                refused == refused_all(start.modes, changes@.take(i as int)),
                refused <= i,
            decreases n - i,
        {
            let made = self.change_mode(changes[i], log);
            if !made {
                refused = refused + 1;
            }
            proof {
                let next = changes@.take(i + 1);
                assert(next.drop_last() =~= changes@.take(i as int));
            }
            i = i + 1;
        }
        assert(changes@.take(n as int) =~= changes@);
        refused
    }

    /// Puts `n` fades on the screen that each leave the running mode.
    fn request_exits(&mut self, n: usize)
        requires
            old(self)@.wf(),
        ensures
            final(self)@ == (GameView {
                fades: old(self)@.fades + exit_fades(n as nat),
                ..old(self)@
            }),
            final(self)@.wf(),
    {
        let mut k: usize = 0;
        while k < n
            invariant
                k <= n,
                self@.wf(),
                self@ == (GameView { fades: old(self)@.fades + exit_fades(k as nat), ..old(self)@ }),
            decreases n - k,
        {
            self.request_transition(None);
            assert(self@.fades =~= old(self)@.fades + exit_fades((k + 1) as nat));
            k = k + 1;
        }
    }

    /// The main menu's tick.
    fn update_menu(&mut self, input: &Input) -> (started: bool)
        requires
            old(self)@.wf(),
            old(self)@.current() == GameState::MainMenu,
        ensures
            forall|rearm: nat| final(self)@ == #[trigger] old(self)@.updated(*input, rearm),
            started == old(self)@.starts(*input),
            final(self)@.wf(),
            final(self)@.modes == old(self)@.modes,
    {
        match on_start_click(&mut self.menu, input.start) {
            Some(fade) => {
                self.fades.push(fade);
                assert(self.fades.deep_view() =~= old(self).fades.deep_view().push(fade@));
                true
            },
            None => false,
        }
    }

    /// The overworld's tick.
    fn update_overworld(&mut self, input: &Input) -> (report: OverworldReport)
        requires
            old(self)@.wf(),
            old(self)@.accepts(*input),
            old(self)@.current() == GameState::Overworld,
        ensures
            exists|rearm: nat|
                encounter_delay(rearm) && final(self)@ == #[trigger] old(self)@.updated(
                    *input,
                    rearm,
                ),
            report == old(self)@.walk_report(*input),
            final(self)@.wf(),
            final(self)@.modes == old(self)@.modes,
    {
        match self.overworld {
            Some(mut world) => {
                let (report, fade) = world.update(input.for_overworld());
                let ghost rearm = choose|rearm: nat|
                    encounter_delay(rearm) && world@ == #[trigger] old(self)@.overworld.unwrap().update(
                        input.overworld(),
                        rearm,
                    );
                self.overworld = Some(world);
                if let Some(fade) = fade {
                    self.fades.push(fade);
                    assert(self.fades.deep_view() =~= old(self).fades.deep_view().push(fade@));
                }
                assert(self@ == old(self)@.updated(*input, rearm));
                report
            },
            None => {
                assert(self@ == old(self)@.updated(*input, 1000));
                OverworldReport { walking: false, encounter: false, healed: false }
            },
        }
    }

    /// Combat's tick.
    fn update_combat(&mut self, input: &Input) -> (report: CombatReport)
        requires
            old(self)@.wf(),
            old(self)@.accepts(*input),
            old(self)@.current() == GameState::Combat,
        ensures
            forall|rearm: nat| final(self)@ == #[trigger] old(self)@.updated(*input, rearm),
            report == old(self)@.fight_report(*input),
            final(self)@.wf(),
            final(self)@.modes == old(self)@.modes,
    {
        let quiet = CombatReport {
            hits: 0,
            defeats: 0,
            escaped: false,
            victory: false,
            shake: false,
        };
        let mut world = match self.overworld {
            Some(world) => world,
            None => {
                return quiet;
            },
        };
        let mut combat = match self.combat.take() {
            Some(combat) => combat,
            None => {
                return quiet;
            },
        };
        let report = combat.update(
            &mut world.player,
            &mut world.stats,
            input.for_combat(),
            input.delta,
        );
        self.overworld = Some(world);
        self.combat = Some(combat);
        let ghost fought = self@;
        if let Some(fade) = escape_combat(report.escaped) {
            self.fades.push(fade);
            assert(self.fades.deep_view() =~= fought.fades.push(fade@));
        }
        self.request_exits(report.defeats);
        assert(self@.fades =~= fought.fades + exit_fades(old(self)@.exits(*input)));
        report
    }

    /// Runs one tick of the game, and returns what the tick asks of the
    /// world around the game.
    pub fn tick(&mut self, input: Input) -> (report: TickReport)
        requires
            old(self)@.wf(),
            old(self)@.accepts(input),
        ensures
            exists|rearm: nat|
                encounter_delay(rearm) && final(self)@ == #[trigger] old(self)@.tick(input, rearm),
            report@ == old(self)@.report(input),
            final(self)@.wf(),
            final(self)@.modes == stack_after_all(
                old(self)@.modes,
                changes_of(old(self)@.fades, input.delta as nat),
            ),
    {
        let changes = fadeout(&mut self.fades, input.delta);
        let ghost faded = self@;
        let mut started = false;
        let mut walk = OverworldReport { walking: false, encounter: false, healed: false };
        let mut fight = CombatReport {
            hits: 0,
            defeats: 0,
            escaped: false,
            victory: false,
            shake: false,
        };
        let ghost mut rearm: nat = 1000;
        match self.modes.current() {
            GameState::MainMenu => {
                started = self.update_menu(&input);
            },
            GameState::Overworld => {
                walk = self.update_overworld(&input);
                proof {
                    rearm = choose|r: nat|
                        encounter_delay(r) && self@ == #[trigger] faded.updated(input, r);
                }
            },
            GameState::Combat => {
                fight = self.update_combat(&input);
            },
        }
        let mut lifecycle: Vec<Lifecycle> = Vec::new();
        let refused = self.change_modes(&changes, &mut lifecycle);
        assert(self@ == old(self)@.tick(input, rearm));
        TickReport {
            started,
            walking: walk.walking,
            encounter: walk.encounter,
            healed: walk.healed,
            hits: fight.hits,
            victory: fight.victory,
            shake: fight.shake,
            lifecycle,
            refused,
        }
    }
}

/// Entering combat starts a fresh fight whatever was there before: one
/// goblin at full health, the player to move.
pub proof fn lemma_combat_entry(game: GameView)
    ensures
        game.entered(GameState::Combat).combat == Some(CombatView::fresh()),
        game.pushed(GameState::Combat).combat == Some(CombatView::fresh()),
        game.pushed(GameState::Combat).combat.unwrap().phase == CombatState::PlayerTurn,
        game.pushed(GameState::Combat).current() == GameState::Combat,
{
}

/// Leaving combat removes the fight and the enemy with it, whatever the
/// phase of the fight, and leaving it twice is the same as leaving it once.
pub proof fn lemma_combat_exit(game: GameView)
    ensures
        game.exited(GameState::Combat).combat.is_none(),
        game.exited(GameState::Combat).exited(GameState::Combat) == game.exited(GameState::Combat),
        game.current() == GameState::Combat && game.modes.len() > 1
            ==> game.popped().combat.is_none(),
{
}

/// Popping a mode off the overworld brings the overworld back: it is the
/// running mode again, on the screen, and the controls are the player's.
pub proof fn lemma_pop_resumes_overworld(game: GameView)
    requires
        game.modes.len() > 1,
        game.current() != GameState::Overworld,
        game.modes[game.modes.len() - 2] == GameState::Overworld,
        game.overworld.is_some(),
    ensures
        game.popped().modes == game.modes.drop_last(),
        game.popped().current() == GameState::Overworld,
        game.popped().overworld.is_some(),
        game.popped().overworld.unwrap().visible,
        game.popped().overworld.unwrap().player.active,
        game.popped().overworld.unwrap().stats == game.overworld.unwrap().stats,
        game.popped().overworld.unwrap().player.xp == game.overworld.unwrap().player.xp,
{
}

/// No change of mode empties the stack, and each change moves its height by
/// at most one.
pub proof fn lemma_stack_never_empty(modes: Seq<GameState>, changes: Seq<ModeChange>)
    requires
        modes.len() > 0,
    ensures
        stack_after_all(modes, changes).len() > 0,
        refused_all(modes, changes) <= changes.len(),
    decreases changes.len(),
{
    if changes.len() > 0 {
        lemma_stack_never_empty(modes, changes.drop_last());
    }
}

} // verus!
