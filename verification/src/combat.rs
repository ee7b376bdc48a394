//! Turn-based combat: the phases of a fight, the combatants' stats, and the
//! fight events by which one combatant hurts the other.

use crate::player::Player;
use crate::queue::{drain, ever_sent, new_queue, queued, send, waiting, FightQueue};
use crate::timer::{Timer, TimerMode, TimerView};
use crate::transition::{create_fadeout, ScreenFade, ScreenFadeView};
use vstd::math::max;
use vstd::prelude::*;

verus! {

/// Experience that a victory is worth.
pub const VICTORY_XP: usize = 10;

/// The length of one attack animation, in nanoseconds.
pub const ATTACK_NANOS: u64 = 700_000_000;

/// The period of the blink that shows the player's attack, in nanoseconds.
pub const FLASH_NANOS: u64 = 100_000_000;

/// The phase of a fight: whose turn it is, or whose attack is being shown.
#[derive(Debug, Clone, Copy, PartialEq, Eq, Hash, Structural)]
pub enum CombatState {
    /// The player may choose an action.
    PlayerTurn,
    /// The player's attack is being shown.
    PlayerAttack,
    /// The enemy is to act. The flag is set once the enemy has chosen and
    /// its fight event is on the way, so that it chooses only once per turn.
    EnemyTurn(bool),
    /// The enemy's attack is being shown.
    EnemyAttack,
    /// A combatant was defeated; the fight is over.
    Success,
}

/// Who a fight event is aimed at.
#[derive(Debug, Clone, Copy, PartialEq, Eq, Hash, Structural)]
pub enum Target {
    Player,
    Enemy,
}

/// What a combatant brings to a fight.
#[derive(Debug, Clone, Copy, PartialEq, Eq, Structural)]
pub struct CombatStats {
    pub max_health: isize,
    pub health: isize,
    pub attack: isize,
    pub defence: isize,
}

/// The health that a hit of `damage` takes from a combatant with `defence`:
/// what the defence does not absorb, and never less than nothing.
pub open spec fn health_loss(damage: int, defence: int) -> int {
    max(0, damage - defence)
}

/// The health left of `health` after a hit of `damage` against `defence`:
/// health does not go below zero.
pub open spec fn health_after(health: int, damage: int, defence: int) -> int {
    max(0, health - health_loss(damage, defence))
}

/// A hit takes what the defence does not absorb and no more, it never adds
/// health, and it never leaves health below zero.
pub proof fn lemma_damage_resolution(health: int, damage: int, defence: int)
    requires
        damage >= 0,
        defence >= 0,
    ensures
        health_loss(damage, defence) == max(0, damage - defence),
        0 <= health_loss(damage, defence) <= damage,
        health_after(health, damage, defence) == max(0, health - health_loss(damage, defence)),
        health_after(health, damage, defence) >= 0,
        health >= 0 ==> health_after(health, damage, defence) <= health,
        damage <= defence && health >= 0 ==> health_after(health, damage, defence) == health,
{
}

impl CombatStats {
    /// Health lies between zero and a positive maximum, and neither attack
    /// nor defence is negative.
    pub open spec fn wf(self) -> bool {
        &&& self.max_health > 0
        &&& 0 <= self.health <= self.max_health
        &&& self.attack >= 0
        &&& self.defence >= 0
    }

    /// These stats after a hit of `damage`.
    pub open spec fn hit(self, damage: int) -> CombatStats {
        CombatStats {
            health: health_after(self.health as int, damage, self.defence as int) as isize,
            ..self
        }
    }

    /// Whether the combatant is defeated.
    pub open spec fn defeated(self) -> bool {
        self.health == 0
    }

    /// Stats at full health, or `None` where the numbers are no valid stats.
    pub fn new(max_health: isize, attack: isize, defence: isize) -> (stats: Option<CombatStats>)
        ensures
            stats == if max_health > 0 && attack >= 0 && defence >= 0 {
                Some(CombatStats { max_health, health: max_health, attack, defence })
            } else {
                None
            },
            stats matches Some(s) ==> s.wf(),
    {
        if max_health > 0 && attack >= 0 && defence >= 0 {
            Some(CombatStats { max_health, health: max_health, attack, defence })
        } else {
            None
        }
    }

    /// Whether these are valid stats.
    pub fn is_valid(&self) -> (b: bool)
        ensures
            b == self.wf(),
    {
        self.max_health > 0 && 0 <= self.health && self.health <= self.max_health && self.attack
            >= 0 && self.defence >= 0
    }

    /// Takes a hit of `damage` and says whether it defeated the combatant.
    pub fn take_damage(&mut self, damage: isize) -> (defeated: bool)
        requires
            old(self).wf(),
        ensures
            *final(self) == old(self).hit(damage as int),
            final(self).health == max(0, old(self).health - max(0, damage - old(self).defence)),
            0 <= final(self).health <= old(self).health,
            final(self).wf(),
            defeated == final(self).defeated(),
    {
        let loss: isize = if damage > self.defence {
            damage - self.defence
        } else {
            0
        };
        if self.health > loss {
            self.health = self.health - loss;
        } else {
            self.health = 0;
        }
        self.health == 0
    }

    /// Restores full health.
    pub fn heal(&mut self)
        ensures
            *final(self) == (CombatStats { health: old(self).max_health, ..*old(self) }),
    {
        self.health = self.max_health;
    }
}

/// The stats of the goblin that every fight is fought against.
pub fn spawn_enemy() -> (stats: CombatStats)
    ensures
        stats == (CombatStats { max_health: 7, health: 7, attack: 2, defence: 1 }),
        stats.wf(),
{
    CombatStats { max_health: 7, health: 7, attack: 2, defence: 1 }
}

/// A hit that is on its way to its target, and the phase that follows it if
/// the target survives.
#[derive(Debug, Clone, Copy, PartialEq, Eq, Structural)]
pub struct FightEvent {
    pub target: Target,
    pub damage: isize,
    pub next_state: CombatState,
}

/// The two combatants and the phase of their fight, as the resolution of
/// fight events sees them.
pub struct Duel {
    pub player: CombatStats,
    pub enemy: CombatStats,
    pub phase: CombatState,
    /// How many hits so far left their target without health. Each of them
    /// asks for the fight to be left.
    pub defeats: nat,
}

impl Duel {
    pub open spec fn wf(self) -> bool {
        self.player.wf() && self.enemy.wf()
    }

    /// The duel after `event` has hit its target: a target left without
    /// health ends the fight, otherwise the event names the next phase.
    pub open spec fn resolve(self, event: FightEvent) -> Duel {
        let hurt = match event.target {
            Target::Player => self.player.hit(event.damage as int),
            Target::Enemy => self.enemy.hit(event.damage as int),
        };
        Duel {
            player: if event.target == Target::Player {
                hurt
            } else {
                self.player
            },
            enemy: if event.target == Target::Enemy {
                hurt
            } else {
                self.enemy
            },
            phase: if hurt.defeated() {
                CombatState::Success
            } else {
                event.next_state
            },
            defeats: if hurt.defeated() {
                self.defeats + 1
            } else {
                self.defeats
            },
        }
    }

    /// The duel after all of `events`, first come first served, each against
    /// what the events before it left.
    pub open spec fn resolve_all(self, events: Seq<FightEvent>) -> Duel
        decreases events.len(),
    {
        if events.len() == 0 {
            self
        } else {
            self.resolve_all(events.drop_last()).resolve(events.last())
        }
    }

    /// Resolution keeps valid stats valid, never raises health, and counts
    /// at most one defeat per event.
    pub proof fn lemma_resolve_all(self, events: Seq<FightEvent>)
        requires
            self.wf(),
        ensures
            self.resolve_all(events).wf(),
            self.resolve_all(events).player.health <= self.player.health,
            self.resolve_all(events).enemy.health <= self.enemy.health,
            self.defeats <= self.resolve_all(events).defeats <= self.defeats + events.len(),
        decreases events.len(),
    {
        if events.len() > 0 {
            self.lemma_resolve_all(events.drop_last());
        }
    }
}

/// The hit that the player's attack sends at the enemy.
pub open spec fn player_hit(player: CombatStats) -> FightEvent {
    FightEvent {
        target: Target::Enemy,
        damage: player.attack,
        next_state: CombatState::PlayerAttack,
    }
}

/// The hit that the enemy's attack sends at the player.
pub open spec fn enemy_hit(enemy: CombatStats) -> FightEvent {
    FightEvent {
        target: Target::Player,
        damage: enemy.attack,
        next_state: CombatState::EnemyAttack,
    }
}

/// The player's turn: a click on "fight" sends the player's attack at the
/// enemy. The phase stays until the hit is resolved.
pub fn combat_input(state: CombatState, fight: bool, player: &CombatStats) -> (event: Option<
    FightEvent,
>)
    ensures
        event == if state == CombatState::PlayerTurn && fight {
            Some(player_hit(*player))
        } else {
            None
        },
{
    if state == CombatState::PlayerTurn && fight {
        Some(
            FightEvent {
                target: Target::Enemy,
                damage: player.attack,
                next_state: CombatState::PlayerAttack,
            },
        )
    } else {
        None
    }
}

/// The phase after the enemy was given the chance to choose its action.
pub open spec fn enemy_turn_taken(state: CombatState) -> CombatState {
    if state == CombatState::EnemyTurn(false) {
        CombatState::EnemyTurn(true)
    } else {
        state
    }
}

/// The enemy's turn: an enemy that has not chosen yet sends its attack at
/// the player and marks the turn as taken, so that it does not choose again
/// while the hit is on its way.
pub fn process_enemy_turn(state: &mut CombatState, enemy: &CombatStats) -> (event: Option<
    FightEvent,
>)
    ensures
        *final(state) == enemy_turn_taken(*old(state)),
        event == if *old(state) == CombatState::EnemyTurn(false) {
            Some(enemy_hit(*enemy))
        } else {
            None
        },
{
    if *state == CombatState::EnemyTurn(false) {
        *state = CombatState::EnemyTurn(true);
        Some(
            FightEvent {
                target: Target::Player,
                damage: enemy.attack,
                next_state: CombatState::EnemyAttack,
            },
        )
    } else {
        None
    }
}

/// Resolves the queued fight events in the order in which they were sent,
/// and returns how many of them defeated their target. Each defeat asks for
/// the fight to be left and ends it in `Success`; a hit that is survived
/// moves the fight to the phase that its event names.
pub fn damage_calculation(
    events: &Vec<FightEvent>,
    player: &mut CombatStats,
    enemy: &mut CombatStats,
    state: &mut CombatState,
) -> (defeats: usize)
    requires
        old(player).wf(),
        old(enemy).wf(),
    ensures
        (Duel {
            player: *final(player),
            enemy: *final(enemy),
            phase: *final(state),
            defeats: defeats as nat,
        }) == (Duel {
            player: *old(player),
            enemy: *old(enemy),
            phase: *old(state),
            defeats: 0,
        }).resolve_all(events@),
        final(player).wf(),
        final(enemy).wf(),
        0 <= final(player).health <= old(player).health,
        0 <= final(enemy).health <= old(enemy).health,
        defeats <= events@.len(),
        events@.len() == 0 ==> *final(state) == *old(state),
{
    let ghost start = Duel { player: *player, enemy: *enemy, phase: *state, defeats: 0 };
    let n = events.len();
    let mut defeats: usize = 0;
    let mut i: usize = 0;
    while i < n
        invariant
            n == events@.len(),
            i <= n,
            start.wf(),
            (Duel { player: *player, enemy: *enemy, phase: *state, defeats: defeats as nat })
                == start.resolve_all(events@.take(i as int)),
            player.wf(),
            enemy.wf(),
            defeats <= i,
        decreases n - i,
    {
        let event = events[i];
        let defeated = match event.target {
            Target::Player => player.take_damage(event.damage),
            Target::Enemy => enemy.take_damage(event.damage),
        };
        if defeated {
            defeats = defeats + 1;
            *state = CombatState::Success;
        } else {
            *state = event.next_state;
        }
        proof {
            let next = events@.take(i + 1);
            assert(next.drop_last() =~= events@.take(i as int));
        }
        i = i + 1;
    }
    proof {
        assert(events@.take(n as int) =~= events@);
        start.lemma_resolve_all(events@);
    }
    defeats
}

/// The way out: a click on "run" starts the fade that leaves the fight. It
/// is heard in every phase and goes past the turns and the resolution of
/// hits.
pub fn escape_combat(run: bool) -> (fade: Option<ScreenFade>)
    ensures
        fade.is_some() == run,
        fade matches Some(f) ==> f@ == ScreenFadeView::fresh(None) && f@.wf(),
{
    if run {
        Some(create_fadeout(None))
    } else {
        None
    }
}

/// The reward for a victory.
pub fn handle_success(player: &mut Player)
    requires
        old(player).xp + VICTORY_XP <= usize::MAX,
    ensures
        *final(player) == (Player { xp: (old(player).xp + VICTORY_XP) as usize, ..*old(player) }),
{
    player.xp = player.xp + VICTORY_XP;
}

/// Whether the player's buttons are locked: they are open during the
/// player's turn and at no other time.
pub fn ui_disabled(state: CombatState) -> (disabled: bool)
    ensures
        disabled == (state != CombatState::PlayerTurn),
{
    state != CombatState::PlayerTurn
}

/// The state of [`AttackEffects`].
pub struct AttackEffectsView {
    /// Paces both attack animations; repeating, and not reset between them.
    pub timer: TimerView,
    /// The period of the blink, in nanoseconds; positive.
    pub flash: nat,
}

impl AttackEffectsView {
    pub open spec fn wf(self) -> bool {
        self.timer.wf() && self.flash > 0
    }

    /// The effects as a fight starts with them.
    pub open spec fn fresh() -> AttackEffectsView {
        AttackEffectsView {
            timer: TimerView::fresh(ATTACK_NANOS as nat, TimerMode::Repeating),
            flash: FLASH_NANOS as nat,
        }
    }

    /// Whether the blink shows its target: in the second half of each flash.
    pub open spec fn blink(self) -> bool {
        2 * (self.timer.elapsed % self.flash) > self.flash
    }

    pub open spec fn tick(self, delta: nat) -> AttackEffectsView {
        AttackEffectsView { timer: self.timer.tick(delta), ..self }
    }
}

/// What shows an attack: the one timer that paces the player's and the
/// enemy's attack animation alike, and the period of the blink.
///
/// The timer is not reset when a phase begins, so the cadence of the
/// animations carries over from one attack to the next.
#[derive(Debug, Clone, Copy)]
pub struct AttackEffects {
    timer: Timer,
    flash: u64,
}

impl View for AttackEffects {
    type V = AttackEffectsView;

    closed spec fn view(&self) -> AttackEffectsView {
        AttackEffectsView { timer: self.timer@, flash: self.flash as nat }
    }
}

impl AttackEffects {
    /// Effects with an attack animation of 0.7 s and a blink of 0.1 s.
    pub fn new() -> (fx: AttackEffects)
        ensures
            fx@ == AttackEffectsView::fresh(),
            fx@.wf(),
    {
        AttackEffects { timer: Timer::new(ATTACK_NANOS, TimerMode::Repeating), flash: FLASH_NANOS }
    }

    /// The timer of the animations.
    pub fn timer(&self) -> (timer: &Timer)
        ensures
            timer@ == self@.timer,
    {
        &self.timer
    }

    /// The period of the blink, in nanoseconds.
    pub fn flash(&self) -> (nanos: u64)
        ensures
            nanos == self@.flash,
    {
        self.flash
    }

    /// Whether the blink shows its target now.
    pub fn blink(&self) -> (visible: bool)
        requires
            self@.wf(),
        ensures
            visible == self@.blink(),
    {
        self.timer.elapsed() % self.flash > self.flash / 2
    }
}

/// What the attack animations work on.
pub struct Stage {
    pub effects: AttackEffectsView,
    pub phase: CombatState,
    pub enemy_visible: bool,
}

impl Stage {
    /// Whether an attack is being shown.
    pub open spec fn animating(self) -> bool {
        self.phase == CombatState::PlayerAttack || self.phase == CombatState::EnemyAttack
    }

    /// The stage after `delta` nanoseconds. While the player's attack is
    /// shown the enemy blinks; when the timer fires the enemy is shown and
    /// its turn begins. While the enemy's attack is shown the view shakes;
    /// when the timer fires the player's turn begins. In every other phase
    /// nothing moves, the timer included.
    pub open spec fn animate(self, delta: nat) -> Stage {
        let effects = self.effects.tick(delta);
        if self.phase == CombatState::PlayerAttack {
            if effects.timer.just_finished() {
                Stage { effects, phase: CombatState::EnemyTurn(false), enemy_visible: true }
            } else {
                Stage { effects, enemy_visible: effects.blink(), ..self }
            }
        } else if self.phase == CombatState::EnemyAttack {
            if effects.timer.just_finished() {
                Stage { effects, phase: CombatState::PlayerTurn, ..self }
            } else {
                Stage { effects, ..self }
            }
        } else {
            self
        }
    }

    /// Whether the view shakes in the tick of `delta`: while the enemy's
    /// attack is shown and has not ended.
    pub open spec fn shakes(self, delta: nat) -> bool {
        self.phase == CombatState::EnemyAttack && !self.effects.tick(delta).timer.just_finished()
    }
}

/// Shows the attack of the current phase for `delta` more nanoseconds and
/// moves the fight on when the animation ends. Returns whether the view
/// shakes in this tick; the offset follows from the timer's elapsed share.
pub fn handle_attack_effects(
    fx: &mut AttackEffects,
    delta: u64,
    state: &mut CombatState,
    enemy_visible: &mut bool,
) -> (shake: bool)
    requires
        old(fx)@.wf(),
        (Stage { effects: old(fx)@, phase: *old(state), enemy_visible: *old(enemy_visible) })
            .animating() ==> old(fx)@.timer.fits(delta as nat),
    ensures
        (Stage { effects: final(fx)@, phase: *final(state), enemy_visible: *final(enemy_visible) })
            == (Stage {
            effects: old(fx)@,
            phase: *old(state),
            enemy_visible: *old(enemy_visible),
        }).animate(delta as nat),
        shake == (Stage {
            effects: old(fx)@,
            phase: *old(state),
            enemy_visible: *old(enemy_visible),
        }).shakes(delta as nat),
        final(fx)@.wf(),
{
    match *state {
        CombatState::PlayerAttack => {
            fx.timer.tick(delta);
            if fx.timer.just_finished() {
                *enemy_visible = true;
                *state = CombatState::EnemyTurn(false);
            } else {
                *enemy_visible = fx.blink();
            }
            false
        },
        CombatState::EnemyAttack => {
            fx.timer.tick(delta);
            if fx.timer.just_finished() {
                *state = CombatState::PlayerTurn;
                false
            } else {
                true
            }
        },
        _ => false,
    }
}

/// What the player asks for in one tick of a fight.
#[derive(Debug, Clone, Copy, PartialEq, Eq, Structural)]
pub struct CombatInput {
    /// The "fight" button was clicked.
    pub fight: bool,
    /// The "run" button was clicked.
    pub run: bool,
}

/// What one tick of a fight asks of the world around it.
#[derive(Debug, Clone, Copy, PartialEq, Eq, Structural)]
pub struct CombatReport {
    /// How many fight events were resolved; each one is a hit to be heard.
    pub hits: usize,
    /// How many of them defeated their target; each one asks for the fight
    /// to be left.
    pub defeats: usize,
    /// Whether the player ran; this too asks for the fight to be left.
    pub escaped: bool,
    /// Whether the fight was won in this tick.
    pub victory: bool,
    /// Whether the view shakes in this tick.
    pub shake: bool,
}

/// The state of a [`Combat`].
pub struct CombatView {
    pub phase: CombatState,
    pub enemy: CombatStats,
    pub enemy_visible: bool,
    pub effects: AttackEffectsView,
    /// The fight events that wait to be resolved, the oldest first.
    pub events: Seq<FightEvent>,
    /// How many fight events the queue has numbered: as many as wait in it,
    /// since the queue is made anew whenever it has been drained.
    pub sent: nat,
}

/// A fight together with the player who fights it.
pub struct Fight {
    pub combat: CombatView,
    pub player: Player,
    pub stats: CombatStats,
}

impl CombatView {
    pub open spec fn wf(self) -> bool {
        self.enemy.wf() && self.effects.wf() && self.sent == self.events.len()
    }

    /// A fight as it starts: the player's turn, against a goblin in full
    /// health, with nothing on its way.
    pub open spec fn fresh() -> CombatView {
        CombatView {
            phase: CombatState::PlayerTurn,
            enemy: CombatStats { max_health: 7, health: 7, attack: 2, defence: 1 },
            enemy_visible: true,
            effects: AttackEffectsView::fresh(),
            events: seq![],
            sent: 0,
        }
    }

    /// Whether the queue can take one more event: it numbers its events
    /// with a `usize`.
    pub open spec fn can_send(self) -> bool {
        self.events.len() < usize::MAX
    }

    /// The fight with one more event waiting.
    pub open spec fn with_sent(self, event: FightEvent) -> CombatView {
        CombatView { events: self.events.push(event), sent: self.sent + 1, ..self }
    }

    /// The fight after the player and the enemy had their chance to act: in
    /// the player's turn a click on "fight" sends the player's attack, and
    /// an enemy that has not chosen yet sends its own.
    pub open spec fn acted(self, fight: bool, player: CombatStats) -> CombatView {
        if self.phase == CombatState::PlayerTurn && fight {
            self.with_sent(player_hit(player))
        } else if self.phase == CombatState::EnemyTurn(false) {
            CombatView { phase: CombatState::EnemyTurn(true), ..self }.with_sent(
                enemy_hit(self.enemy),
            )
        } else {
            self
        }
    }

    /// The outcome of the events that wait, for a player with these stats.
    pub open spec fn duel(self, player: CombatStats) -> Duel {
        (Duel { player, enemy: self.enemy, phase: self.phase, defeats: 0 }).resolve_all(
            self.events,
        )
    }

    /// The fight after the events that wait have been resolved: none is
    /// left for a later tick.
    pub open spec fn resolved(self, player: CombatStats) -> CombatView {
        CombatView {
            phase: self.duel(player).phase,
            enemy: self.duel(player).enemy,
            events: seq![],
            sent: 0,
            ..self
        }
    }

    pub open spec fn stage(self) -> Stage {
        Stage { effects: self.effects, phase: self.phase, enemy_visible: self.enemy_visible }
    }

    /// The fight after its attack animation has run for `delta` nanoseconds.
    pub open spec fn animated(self, delta: nat) -> CombatView {
        CombatView {
            phase: self.stage().animate(delta).phase,
            enemy_visible: self.stage().animate(delta).enemy_visible,
            effects: self.stage().animate(delta).effects,
            ..self
        }
    }
}

impl Fight {
    pub open spec fn wf(self) -> bool {
        self.combat.wf() && self.stats.wf()
    }

    /// Whether this tick wins the fight: the events of the tick end it, and
    /// it was not over before.
    pub open spec fn wins(self, input: CombatInput) -> bool {
        self.combat.acted(input.fight, self.stats).duel(self.stats).phase == CombatState::Success
            && self.combat.phase != CombatState::Success
    }

    /// The fight after one tick. First the player and the enemy act, then
    /// every event that waits is resolved, then the victory is rewarded, and
    /// last the attack animation of the phase that resulted runs.
    pub open spec fn update(self, input: CombatInput, delta: nat) -> Fight {
        let acted = self.combat.acted(input.fight, self.stats);
        Fight {
            combat: acted.resolved(self.stats).animated(delta),
            player: if self.wins(input) {
                Player { xp: (self.player.xp + VICTORY_XP) as usize, ..self.player }
            } else {
                self.player
            },
            stats: acted.duel(self.stats).player,
        }
    }

    /// What the tick asks of the world around the fight.
    pub open spec fn report(self, input: CombatInput, delta: nat) -> CombatReport {
        let acted = self.combat.acted(input.fight, self.stats);
        CombatReport {
            hits: acted.events.len() as usize,
            defeats: acted.duel(self.stats).defeats as usize,
            escaped: input.run,
            victory: self.wins(input),
            shake: acted.resolved(self.stats).stage().shakes(delta),
        }
    }
}

/// One fight: its phase, the enemy, the effects that show the attacks, and
/// the fight events that have been sent and not yet resolved.
#[derive(Debug)]
pub struct Combat {
    phase: CombatState,
    enemy: CombatStats,
    enemy_visible: bool,
    effects: AttackEffects,
    events: FightQueue,
}

impl View for Combat {
    type V = CombatView;

    closed spec fn view(&self) -> CombatView {
        CombatView {
            phase: self.phase,
            enemy: self.enemy,
            enemy_visible: self.enemy_visible,
            effects: self.effects@,
            events: queued(self.events),
            sent: ever_sent(self.events),
        }
    }
}

impl Combat {
    /// Starts a fight: it is the player's turn, and one goblin is the enemy.
    pub fn new() -> (combat: Combat)
        ensures
            combat@ == CombatView::fresh(),
            combat@.wf(),
            combat@.phase == CombatState::PlayerTurn,
    {
        Combat {
            phase: CombatState::PlayerTurn,
            enemy: spawn_enemy(),
            enemy_visible: true,
            effects: AttackEffects::new(),
            events: new_queue(),
        }
    }

    pub fn phase(&self) -> (phase: CombatState)
        ensures
            phase == self@.phase,
    {
        self.phase
    }

    pub fn enemy(&self) -> (stats: CombatStats)
        ensures
            stats == self@.enemy,
    {
        self.enemy
    }

    pub fn enemy_visible(&self) -> (visible: bool)
        ensures
            visible == self@.enemy_visible,
    {
        self.enemy_visible
    }

    pub fn effects(&self) -> (effects: &AttackEffects)
        ensures
            effects@ == self@.effects,
    {
        &self.effects
    }

    /// How many fight events wait to be resolved.
    pub fn pending(&self) -> (n: usize)
        ensures
            n == self@.events.len(),
    {
        waiting(&self.events)
    }

    /// Whether the player's buttons are locked.
    pub fn ui_disabled(&self) -> (disabled: bool)
        ensures
            disabled == (self@.phase != CombatState::PlayerTurn),
    {
        ui_disabled(self.phase)
    }

    /// Whether the queue can take one more event.
    pub fn can_send(&self) -> (b: bool)
        ensures
            b == self@.can_send(),
    {
        waiting(&self.events) < usize::MAX
    }

    /// Puts a fight event behind those that wait.
    pub fn send(&mut self, event: FightEvent)
        requires
            old(self)@.wf(),
            old(self)@.can_send(),
        ensures
            final(self)@ == old(self)@.with_sent(event),
            final(self)@.wf(),
    {
        send(&mut self.events, event);
    }

    /// Runs one tick of the fight for a player with these stats, and
    /// returns what the tick asks of the world around the fight.
    pub fn update(
        &mut self,
        player: &mut Player,
        stats: &mut CombatStats,
        input: CombatInput,
        delta: u64,
    ) -> (report: CombatReport)
        requires
            old(self)@.wf(),
            old(stats).wf(),
            old(player).xp + VICTORY_XP <= usize::MAX,
            old(self)@.effects.timer.fits(delta as nat),
            old(self)@.can_send(),
        ensures
            (Fight { combat: final(self)@, player: *final(player), stats: *final(stats) }) == (Fight {
                combat: old(self)@,
                player: *old(player),
                stats: *old(stats),
            }).update(input, delta as nat),
            report == (Fight { combat: old(self)@, player: *old(player), stats: *old(stats) })
                .report(input, delta as nat),
            final(self)@.wf(),
            final(stats).wf(),
            final(self)@.events.len() == 0,
            0 <= final(stats).health <= old(stats).health,
            0 <= final(self)@.enemy.health <= old(self)@.enemy.health,
    {
        let began = self.phase;
        if let Some(event) = combat_input(self.phase, input.fight, stats) {
            send(&mut self.events, event);
        }
        let enemy = self.enemy;
        if let Some(event) = process_enemy_turn(&mut self.phase, &enemy) {
            send(&mut self.events, event);
        }
        let events = drain(&mut self.events);
        // A new queue numbers its events from zero again.
        self.events = new_queue();
        let hits = events.len();
        let defeats = damage_calculation(&events, stats, &mut self.enemy, &mut self.phase);
        let victory = self.phase == CombatState::Success && began != CombatState::Success;
        if victory {
            handle_success(player);
        }
        let shake = handle_attack_effects(
            &mut self.effects,
            delta,
            &mut self.phase,
            &mut self.enemy_visible,
        );
        CombatReport { hits, defeats, escaped: input.run, victory, shake }
    }
}

/// A tick keeps a fight valid, leaves no event waiting, and raises nobody's
/// health.
pub proof fn lemma_fight_update(fight: Fight, input: CombatInput, delta: nat)
    requires
        fight.wf(),
    ensures
        fight.update(input, delta).wf(),
        fight.update(input, delta).combat.events.len() == 0,
        fight.update(input, delta).stats.health <= fight.stats.health,
        fight.update(input, delta).combat.enemy.health <= fight.combat.enemy.health,
{
    let acted = fight.combat.acted(input.fight, fight.stats);
    (Duel { player: fight.stats, enemy: acted.enemy, phase: acted.phase, defeats: 0 })
        .lemma_resolve_all(acted.events);
}

} // verus!
