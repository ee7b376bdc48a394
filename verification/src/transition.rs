//! Screen fades: the timed overlays that gate every change of mode.
//!
//! A fade lasts one second. When more than half of it has passed it changes
//! the mode, once; when it ends it is removed.

use crate::mode::GameState;
use crate::timer::{Timer, TimerMode, TimerView};
use vstd::prelude::*;

verus! {

/// The length of a fade, in nanoseconds.
pub const FADE_NANOS: u64 = 1_000_000_000;

/// What a fade does to the stack of modes at its midpoint.
#[derive(Debug, Clone, Copy, PartialEq, Eq, Structural)]
pub enum ModeChange {
    /// Pause the running mode and enter this one.
    Push(GameState),
    /// Leave the running mode and resume the one beneath it.
    Pop,
}

/// The change that a fade with this request is to make.
pub open spec fn change_for(next_state: Option<GameState>) -> ModeChange {
    match next_state {
        Some(mode) => ModeChange::Push(mode),
        None => ModeChange::Pop,
    }
}

/// What one tick of a fade asks its owner to do.
#[derive(Debug, Clone, Copy, PartialEq, Eq, Structural)]
pub struct FadeStep {
    /// The change of mode to make now, if this tick passed the midpoint.
    pub change: Option<ModeChange>,
    /// Whether the fade has ended and is to be removed.
    pub finished: bool,
}

/// The state of a [`ScreenFade`].
pub struct ScreenFadeView {
    /// Whether the change of mode has been made.
    pub sent: bool,
    /// The mode to enter, or `None` to leave the running mode.
    pub next_state: Option<GameState>,
    pub timer: TimerView,
}

impl ScreenFadeView {
    /// A fade runs on a one-shot timer.
    pub open spec fn wf(self) -> bool {
        self.timer.wf() && self.timer.mode == TimerMode::Once
    }

    /// A fade as `create_fadeout` makes it.
    pub open spec fn fresh(next_state: Option<GameState>) -> ScreenFadeView {
        ScreenFadeView {
            sent: false,
            next_state,
            timer: TimerView::fresh(FADE_NANOS as nat, TimerMode::Once),
        }
    }

    /// Whether the tick of `delta` is the one that changes the mode: the
    /// first after which more than half of the fade has passed.
    pub open spec fn fires(self, delta: nat) -> bool {
        !self.sent && self.timer.tick(delta).past_half()
    }

    /// The fade after a tick of `delta`.
    pub open spec fn tick(self, delta: nat) -> ScreenFadeView {
        let timer = self.timer.tick(delta);
        ScreenFadeView { sent: self.sent || timer.past_half(), timer, ..self }
    }

    /// What the tick of `delta` asks for.
    pub open spec fn step(self, delta: nat) -> FadeStep {
        FadeStep {
            change: if self.fires(delta) {
                Some(change_for(self.next_state))
            } else {
                None
            },
            finished: self.timer.tick(delta).just_finished(),
        }
    }

    /// The fade after one tick for each of `deltas`, in their order.
    pub open spec fn after(self, deltas: Seq<nat>) -> ScreenFadeView
        decreases deltas.len(),
    {
        if deltas.len() == 0 {
            self
        } else {
            self.after(deltas.drop_last()).tick(deltas.last())
        }
    }

    /// Whether tick `i` of the run `deltas` changes the mode.
    pub open spec fn fires_at(self, deltas: Seq<nat>, i: int) -> bool {
        self.after(deltas.take(i)).fires(deltas[i])
    }

    /// Whether more than half of the fade has passed after tick `i` of the
    /// run `deltas`.
    pub open spec fn past_half_at(self, deltas: Seq<nat>, i: int) -> bool {
        self.after(deltas.take(i + 1)).timer.past_half()
    }
}

/// The sum of `deltas`.
pub open spec fn total(deltas: Seq<nat>) -> nat
    decreases deltas.len(),
{
    if deltas.len() == 0 {
        0
    } else {
        total(deltas.drop_last()) + deltas.last()
    }
}

/// A full-screen fade that carries one change of mode.
#[derive(Debug, Clone, Copy)]
pub struct ScreenFade {
    sent: bool,
    next_state: Option<GameState>,
    timer: Timer,
}

impl View for ScreenFade {
    type V = ScreenFadeView;

    closed spec fn view(&self) -> ScreenFadeView {
        ScreenFadeView { sent: self.sent, next_state: self.next_state, timer: self.timer@ }
    }
}

impl DeepView for ScreenFade {
    type V = ScreenFadeView;

    open spec fn deep_view(&self) -> ScreenFadeView {
        self@
    }
}

/// Starts a fade that enters `next_state` at its midpoint, or, for `None`,
/// leaves the running mode.
pub fn create_fadeout(next_state: Option<GameState>) -> (fade: ScreenFade)
    ensures
        fade@ == ScreenFadeView::fresh(next_state),
        fade@.wf(),
{
    ScreenFade { sent: false, next_state, timer: Timer::new(FADE_NANOS, TimerMode::Once) }
}

impl ScreenFade {
    /// Whether the change of mode has been made.
    pub fn sent(&self) -> (sent: bool)
        ensures
            sent == self@.sent,
    {
        self.sent
    }

    /// The mode to enter, or `None` to leave the running mode.
    pub fn next_state(&self) -> (next_state: Option<GameState>)
        ensures
            next_state == self@.next_state,
    {
        self.next_state
    }

    /// The timer of the fade. The opacity of the overlay follows from its
    /// elapsed share.
    pub fn timer(&self) -> (timer: &Timer)
        ensures
            timer@ == self@.timer,
    {
        &self.timer
    }

    /// Advances the fade by `delta` nanoseconds. The tick that first leaves
    /// more than half of the fade behind returns the change of mode, and no
    /// other tick does; the tick that ends the fade says so.
    pub fn tick(&mut self, delta: u64) -> (step: FadeStep)
        requires
            old(self)@.wf(),
        ensures
            final(self)@ == old(self)@.tick(delta as nat),
            step == old(self)@.step(delta as nat),
            final(self)@.wf(),
            step.change.is_some() ==> !old(self)@.sent && final(self)@.sent,
            old(self)@.sent ==> step.change.is_none(),
    {
        self.timer.tick(delta);
        let mut change: Option<ModeChange> = None;
        if self.timer.past_half() && !self.sent {
            change = Some(
                match self.next_state {
                    Some(mode) => ModeChange::Push(mode),
                    None => ModeChange::Pop,
                },
            );
            self.sent = true;
        }
        FadeStep { change, finished: self.timer.just_finished() }
    }
}

/// Ticking keeps a fade a fade.
pub proof fn lemma_after_wf(fade: ScreenFadeView, deltas: Seq<nat>)
    requires
        fade.wf(),
    ensures
        fade.after(deltas).wf(),
        fade.after(deltas).next_state == fade.next_state,
        fade.after(deltas).timer.duration == fade.timer.duration,
    decreases deltas.len(),
{
    if deltas.len() > 0 {
        lemma_after_wf(fade, deltas.drop_last());
    }
}

/// A fade has changed the mode exactly when some earlier tick left more than
/// half of it behind.
pub proof fn lemma_sent_iff_past_half(fade: ScreenFadeView, deltas: Seq<nat>)
    requires
        !fade.sent,
    ensures
        fade.after(deltas).sent <==> exists|j: int|
            0 <= j < deltas.len() && #[trigger] fade.past_half_at(deltas, j),
    decreases deltas.len(),
{
    if deltas.len() > 0 {
        let front = deltas.drop_last();
        let last = deltas.len() - 1;
        lemma_sent_iff_past_half(fade, front);
        assert(deltas.take(last + 1) =~= deltas);
        assert forall|j: int| 0 <= j < last implies fade.past_half_at(front, j)
            == fade.past_half_at(deltas, j) by {
            assert(front.take(j + 1) =~= deltas.take(j + 1));
        }
        if fade.after(deltas).sent && !fade.after(front).sent {
            assert(fade.past_half_at(deltas, last));
        }
    }
}

/// A fade changes the mode at the first tick after which more than half of
/// it has passed, and at no other tick: exactly once if the run gets that
/// far, whatever the lengths of the single ticks.
pub proof fn lemma_fade_fires_once(fade: ScreenFadeView, deltas: Seq<nat>, i: int)
    requires
        !fade.sent,
        0 <= i < deltas.len(),
    ensures
        fade.fires_at(deltas, i) <==> fade.past_half_at(deltas, i) && forall|j: int|
            0 <= j < i ==> !#[trigger] fade.past_half_at(deltas, j),
        forall|k: int|
            0 <= k < deltas.len() && k != i && fade.fires_at(deltas, i) ==> !#[trigger] fade.fires_at(
                deltas,
                k,
            ),
{
    lemma_fires_first(fade, deltas, i);
    assert forall|k: int|
        0 <= k < deltas.len() && k != i && fade.fires_at(deltas, i) implies !#[trigger] fade.fires_at(
        deltas,
        k,
    ) by {
        lemma_fires_first(fade, deltas, k);
    }
}

/// Tick `i` changes the mode exactly when it is the first to leave more than
/// half of the fade behind.
pub proof fn lemma_fires_first(fade: ScreenFadeView, deltas: Seq<nat>, i: int)
    requires
        !fade.sent,
        0 <= i < deltas.len(),
    ensures
        fade.fires_at(deltas, i) <==> fade.past_half_at(deltas, i) && forall|j: int|
            0 <= j < i ==> !#[trigger] fade.past_half_at(deltas, j),
{
    let before = deltas.take(i);
    let upto = deltas.take(i + 1);
    lemma_sent_iff_past_half(fade, before);
    assert(upto.drop_last() =~= before);
    assert forall|j: int| 0 <= j < i implies fade.past_half_at(before, j) == fade.past_half_at(
        deltas,
        j,
    ) by {
        assert(before.take(j + 1) =~= deltas.take(j + 1));
    }
}

/// The elapsed time of a fresh fade is the time of its ticks together, up to
/// the length of the fade: when a fade changes the mode depends on the time
/// that has passed and not on how it was cut into ticks.
pub proof fn lemma_fresh_fade_elapsed(next_state: Option<GameState>, deltas: Seq<nat>)
    ensures
        ScreenFadeView::fresh(next_state).after(deltas).timer.elapsed == if total(deltas)
            < FADE_NANOS {
            total(deltas)
        } else {
            FADE_NANOS as nat
        },
        ScreenFadeView::fresh(next_state).after(deltas).timer.finished <==> total(deltas)
            >= FADE_NANOS,
    decreases deltas.len(),
{
    if deltas.len() > 0 {
        lemma_fresh_fade_elapsed(next_state, deltas.drop_last());
        lemma_after_wf(ScreenFadeView::fresh(next_state), deltas.drop_last());
    }
}

/// Whether all of `fades` are fades.
pub open spec fn all_fades(fades: Seq<ScreenFadeView>) -> bool {
    forall|i: int| 0 <= i < fades.len() ==> (#[trigger] fades[i]).wf()
}

/// The changes of mode that a tick of `delta` draws from `fades`, in the
/// order of the fades.
pub open spec fn changes_of(fades: Seq<ScreenFadeView>, delta: nat) -> Seq<ModeChange>
    decreases fades.len(),
{
    if fades.len() == 0 {
        seq![]
    } else {
        let front = changes_of(fades.drop_last(), delta);
        match fades.last().step(delta).change {
            Some(change) => front.push(change),
            None => front,
        }
    }
}

/// The fades that a tick of `delta` leaves of `fades`: each one ticked, and
/// those that have ended removed.
pub open spec fn fades_left(fades: Seq<ScreenFadeView>, delta: nat) -> Seq<ScreenFadeView>
    decreases fades.len(),
{
    if fades.len() == 0 {
        seq![]
    } else {
        let front = fades_left(fades.drop_last(), delta);
        if fades.last().step(delta).finished {
            front
        } else {
            front.push(fades.last().tick(delta))
        }
    }
}

/// A tick draws at most one change from each fade and leaves fades.
pub proof fn lemma_fadeout(fades: Seq<ScreenFadeView>, delta: nat)
    requires
        all_fades(fades),
    ensures
        all_fades(fades_left(fades, delta)),
        fades_left(fades, delta).len() <= fades.len(),
        changes_of(fades, delta).len() <= fades.len(),
    decreases fades.len(),
{
    if fades.len() > 0 {
        lemma_fadeout(fades.drop_last(), delta);
    }
}

/// Advances every fade by `delta` nanoseconds, removes the fades that have
/// ended, and returns the changes of mode that fell due, in the order of the
/// fades.
pub fn fadeout(fades: &mut Vec<ScreenFade>, delta: u64) -> (changes: Vec<ModeChange>)
    requires
        all_fades(old(fades).deep_view()),
    ensures
        final(fades).deep_view() == fades_left(old(fades).deep_view(), delta as nat),
        changes@ == changes_of(old(fades).deep_view(), delta as nat),
        all_fades(final(fades).deep_view()),
        final(fades)@.len() <= old(fades)@.len(),
        changes@.len() <= old(fades)@.len(),
{
    let ghost before = fades.deep_view();
    let n = fades.len();
    let mut kept: Vec<ScreenFade> = Vec::new();
    let mut changes: Vec<ModeChange> = Vec::new();
    let mut i: usize = 0;
    while i < n
        invariant
            n == fades@.len(),
            i <= n,
            before == fades.deep_view(),
            all_fades(before),
            kept.deep_view() == fades_left(before.take(i as int), delta as nat),
            changes@ == changes_of(before.take(i as int), delta as nat),
        decreases n - i,
    {
        let mut fade = fades[i];
        assert(before[i as int].wf());
        let step = fade.tick(delta);
        if let Some(change) = step.change {
            changes.push(change);
        }
        if !step.finished {
            kept.push(fade);
        }
        proof {
            let next = before.take(i + 1);
            assert(next.drop_last() =~= before.take(i as int));
        }
        i = i + 1;
    }
    proof {
        assert(before.take(n as int) =~= before);
        lemma_fadeout(before, delta as nat);
    }
    *fades = kept;
    changes
}

} // verus!
