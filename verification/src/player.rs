//! The player's avatar in the overworld, and the timer that turns a walk
//! through the tall grass into a fight.

use crate::combat::CombatStats;
use crate::mode::GameState;
use crate::timer::{Timer, TimerMode, TimerView};
use crate::transition::{create_fadeout, ScreenFade, ScreenFadeView};
use rand::Rng;
use vstd::prelude::*;

verus! {

/// The shortest time to the next encounter, in milliseconds.
pub const ENCOUNTER_MIN_MILLIS: u64 = 1000;

/// The longest time to the next encounter, in milliseconds.
pub const ENCOUNTER_MAX_MILLIS: u64 = 3000;

/// Nanoseconds in a millisecond.
pub const NANOS_PER_MILLI: u64 = 1_000_000;

/// What the game knows of the player besides the stats of a combatant.
#[derive(Debug, Clone, Copy, PartialEq, Eq, Structural)]
pub struct Player {
    /// Whether the player's input moves the avatar.
    pub active: bool,
    /// Whether the avatar changed place in the current tick.
    pub just_moved: bool,
    /// Experience gathered so far.
    pub xp: usize,
}

/// Draws a number with `rand::Rng::gen_range` from `rand::thread_rng()`,
/// over the inclusive range from `low` to `high`.
///
/// Trusted: the draw lies in the range. Which number comes is left open, and
/// two draws need not agree. The range is not empty, since `gen_range`
/// panics on an empty one.
#[verifier::external_body]
fn random_between(low: u64, high: u64) -> (drawn: u64)
    requires
        low <= high,
    ensures
        low <= drawn <= high,
{
    rand::thread_rng().gen_range(low..=high)
}

/// Whether `millis` can be the time to the next encounter.
pub open spec fn encounter_delay(millis: nat) -> bool {
    ENCOUNTER_MIN_MILLIS <= millis <= ENCOUNTER_MAX_MILLIS
}

/// One tick as the encounter timer sees it.
pub struct DwellTick {
    /// Whether the player moved in this tick and stands in an encounter zone.
    pub dwelling: bool,
    /// The length of the tick, in nanoseconds.
    pub delta: nat,
    /// The delay, in milliseconds, with which the timer is armed again if
    /// this tick fires it.
    pub rearm: nat,
}

/// The tick that the encounter timer sees when `player` is given `delta`
/// nanoseconds, in or out of an encounter zone.
pub open spec fn dwell_tick(player: Player, over_zone: bool, delta: u64, rearm: nat) -> DwellTick {
    DwellTick { dwelling: player.just_moved && over_zone, delta: delta as nat, rearm }
}

/// Whether the timer fires in this tick: only a tick in which the player
/// dwells advances the timer, and only an advance can fire it.
pub open spec fn encounter_fires(timer: TimerView, tick: DwellTick) -> bool {
    tick.dwelling && timer.tick(tick.delta).just_finished()
}

/// The timer after this tick: untouched unless the player dwells, advanced
/// if so, and armed with the new delay if it fired.
pub open spec fn encounter_timer_after(timer: TimerView, tick: DwellTick) -> TimerView {
    if !tick.dwelling {
        timer
    } else if timer.tick(tick.delta).just_finished() {
        TimerView { duration: tick.rearm * NANOS_PER_MILLI as nat, ..timer.tick(tick.delta) }
    } else {
        timer.tick(tick.delta)
    }
}

/// The timer after all of `ticks`, in their order.
pub open spec fn encounter_timer_after_all(timer: TimerView, ticks: Seq<DwellTick>) -> TimerView
    decreases ticks.len(),
{
    if ticks.len() == 0 {
        timer
    } else {
        encounter_timer_after(encounter_timer_after_all(timer, ticks.drop_last()), ticks.last())
    }
}

/// Whether tick `i` of the run `ticks` fires the timer.
pub open spec fn encounter_fires_at(timer: TimerView, ticks: Seq<DwellTick>, i: int) -> bool {
    encounter_fires(encounter_timer_after_all(timer, ticks.take(i)), ticks[i])
}

/// The time of the ticks of `ticks` in which the player dwells.
pub open spec fn dwell_time(ticks: Seq<DwellTick>) -> nat
    decreases ticks.len(),
{
    if ticks.len() == 0 {
        0
    } else if ticks.last().dwelling {
        dwell_time(ticks.drop_last()) + ticks.last().delta
    } else {
        dwell_time(ticks.drop_last())
    }
}

/// The cooldown between two encounters. It runs only while the player walks
/// through an encounter zone, and each time it fires it is armed again with
/// a delay drawn at random from one to three seconds.
#[derive(Debug, Clone, Copy)]
pub struct EncounterTimer {
    timer: Timer,
}

impl View for EncounterTimer {
    type V = TimerView;

    closed spec fn view(&self) -> TimerView {
        self.timer@
    }
}

/// What holds of every encounter timer: it repeats.
pub open spec fn encounter_timer_wf(timer: TimerView) -> bool {
    timer.wf() && timer.mode == TimerMode::Repeating
}

impl EncounterTimer {
    /// A timer that fires after one second in the encounter zones.
    pub fn new() -> (timer: EncounterTimer)
        ensures
            timer@ == TimerView::fresh(
                (ENCOUNTER_MIN_MILLIS * NANOS_PER_MILLI) as nat,
                TimerMode::Repeating,
            ),
            encounter_timer_wf(timer@),
    {
        EncounterTimer {
            timer: Timer::new(ENCOUNTER_MIN_MILLIS * NANOS_PER_MILLI, TimerMode::Repeating),
        }
    }

    /// The timer itself.
    pub fn timer(&self) -> (timer: &Timer)
        ensures
            timer@ == self@,
    {
        &self.timer
    }

    /// Whether a tick of `delta` can be counted.
    pub fn fits(&self, delta: u64) -> (b: bool)
        ensures
            b == self@.fits(delta as nat),
    {
        self.timer.fits(delta)
    }

    /// Arms the timer with a delay of `millis` milliseconds.
    pub fn rearm(&mut self, millis: u64)
        requires
            encounter_delay(millis as nat),
        ensures
            final(self)@ == (TimerView {
                duration: millis as nat * NANOS_PER_MILLI as nat,
                ..old(self)@
            }),
    {
        self.timer.set_duration(millis * NANOS_PER_MILLI);
    }
}

/// The player as the overworld starts with it.
pub fn new_player() -> (player: Player)
    ensures
        player == (Player { active: true, just_moved: false, xp: 0 }),
{
    Player { active: true, just_moved: false, xp: 0 }
}

/// The stats with which the player enters the first fight.
pub fn player_stats() -> (stats: CombatStats)
    ensures
        stats == (CombatStats { max_health: 15, health: 15, attack: 3, defence: 1 }),
        stats.wf(),
{
    CombatStats { max_health: 15, health: 15, attack: 3, defence: 1 }
}

/// Records whether the avatar changed place in this tick, and returns
/// whether the walk cycle plays. An avatar that is not active stays where it
/// is, whatever the input.
pub fn player_movement(player: &mut Player, displaced: bool) -> (walking: bool)
    ensures
        *final(player) == (Player { just_moved: old(player).active && displaced, ..*old(player) }),
        walking == final(player).just_moved,
{
    player.just_moved = player.active && displaced;
    player.just_moved
}

/// Starts the encounter that the timer called for: arms the timer with the
/// delay that was drawn, takes the controls from the player, and starts the
/// fade into combat.
pub fn start_encounter(player: &mut Player, timer: &mut EncounterTimer, millis: u64) -> (fade:
    ScreenFade)
    requires
        encounter_delay(millis as nat),
    ensures
        *final(player) == (Player { active: false, ..*old(player) }),
        final(timer)@ == (TimerView {
            duration: millis as nat * NANOS_PER_MILLI as nat,
            ..old(timer)@
        }),
        fade@ == ScreenFadeView::fresh(Some(GameState::Combat)),
        fade@.wf(),
{
    timer.rearm(millis);
    player.active = false;
    create_fadeout(Some(GameState::Combat))
}

/// Advances the encounter timer by `delta` nanoseconds if the player moved
/// in this tick and stands in an encounter zone, and starts an encounter if
/// that fires the timer. In any other tick the timer rests and nothing
/// starts.
pub fn player_encounter_checker(
    player: &mut Player,
    timer: &mut EncounterTimer,
    over_zone: bool,
    delta: u64,
) -> (fade: Option<ScreenFade>)
    requires
        encounter_timer_wf(old(timer)@),
        old(player).just_moved && over_zone ==> old(timer)@.fits(delta as nat),
    ensures
        exists|millis: nat|
            encounter_delay(millis) && final(timer)@ == encounter_timer_after(
                old(timer)@,
                #[trigger] dwell_tick(*old(player), over_zone, delta, millis),
            ),
        fade.is_some() == encounter_fires(
            old(timer)@,
            dwell_tick(*old(player), over_zone, delta, 0),
        ),
        fade matches Some(f) ==> f@ == ScreenFadeView::fresh(Some(GameState::Combat)) && f@.wf(),
        *final(player) == if fade.is_some() {
            Player { active: false, ..*old(player) }
        } else {
            *old(player)
        },
        encounter_timer_wf(final(timer)@),
        !(old(player).just_moved && over_zone) ==> fade.is_none() && final(timer)@ == old(timer)@,
{
    if !player.just_moved || !over_zone {
        return None;
    }
    timer.timer.tick(delta);
    if !timer.timer.just_finished() {
        assert(encounter_delay(1000) && timer@ == encounter_timer_after(
            old(timer)@,
            dwell_tick(*old(player), over_zone, delta, 1000),
        ));
        return None;
    }
    let millis = random_between(ENCOUNTER_MIN_MILLIS, ENCOUNTER_MAX_MILLIS);
    let fade = start_encounter(player, timer, millis);
    assert(encounter_delay(millis as nat) && timer@ == encounter_timer_after(
        old(timer)@,
        dwell_tick(*old(player), over_zone, delta, millis as nat),
    ));
    Some(fade)
}

/// A tick that does not fire a repeating timer adds its whole length to the
/// elapsed time.
pub proof fn lemma_quiet_tick(timer: TimerView, delta: nat)
    requires
        encounter_timer_wf(timer),
        !timer.tick(delta).just_finished(),
    ensures
        timer.tick(delta).elapsed == timer.elapsed + delta,
        timer.elapsed + delta < timer.duration,
        timer.tick(delta).duration == timer.duration,
        encounter_timer_wf(timer.tick(delta)),
{
    let total = timer.elapsed + delta;
    if total >= timer.duration {
        assert(total / timer.duration >= 1) by (nonlinear_arith)
            requires
                total >= timer.duration,
                timer.duration > 0,
        ;
    }
}

/// As long as the timer has not fired, it has counted the time in which the
/// player dwelt and no other: a tick without dwelling adds nothing.
pub proof fn lemma_encounter_counts_dwell(timer: TimerView, ticks: Seq<DwellTick>)
    requires
        encounter_timer_wf(timer),
        forall|j: int| 0 <= j < ticks.len() ==> !#[trigger] encounter_fires_at(timer, ticks, j),
    ensures
        encounter_timer_after_all(timer, ticks).elapsed == timer.elapsed + dwell_time(ticks),
        encounter_timer_after_all(timer, ticks).duration == timer.duration,
        encounter_timer_wf(encounter_timer_after_all(timer, ticks)),
        ticks.len() > 0 ==> timer.elapsed + dwell_time(ticks) < timer.duration || dwell_time(ticks)
            == 0,
    decreases ticks.len(),
{
    if ticks.len() > 0 {
        let front = ticks.drop_last();
        let last = ticks.len() - 1;
        assert forall|j: int| 0 <= j < front.len() implies !#[trigger] encounter_fires_at(
            timer,
            front,
            j,
        ) by {
            assert(front.take(j) =~= ticks.take(j));
            assert(!encounter_fires_at(timer, ticks, j));
        }
        lemma_encounter_counts_dwell(timer, front);
        assert(!encounter_fires_at(timer, ticks, last));
        if ticks.last().dwelling {
            lemma_quiet_tick(encounter_timer_after_all(timer, front), ticks.last().delta);
        }
    }
}

/// The timer fires only in a tick in which the player moved inside an
/// encounter zone, and not before the time of such ticks has filled the
/// delay that the timer was armed with.
pub proof fn lemma_encounter_needs_dwell(timer: TimerView, ticks: Seq<DwellTick>, i: int)
    requires
        encounter_timer_wf(timer),
        0 <= i < ticks.len(),
        forall|j: int| 0 <= j < i ==> !#[trigger] encounter_fires_at(timer, ticks, j),
        encounter_fires_at(timer, ticks, i),
    ensures
        ticks[i].dwelling,
        timer.elapsed + dwell_time(ticks.take(i + 1)) >= timer.duration,
{
    let before = ticks.take(i);
    assert forall|j: int| 0 <= j < before.len() implies !#[trigger] encounter_fires_at(
        timer,
        before,
        j,
    ) by {
        assert(before.take(j) =~= ticks.take(j));
        assert(!encounter_fires_at(timer, ticks, j));
    }
    lemma_encounter_counts_dwell(timer, before);
    let upto = ticks.take(i + 1);
    assert(upto.drop_last() =~= before);
}

} // verus!
