//! The game's top-level modes and the stack that says which one is running.

use vstd::prelude::*;

verus! {

/// A top-level mode of the game.
#[derive(Debug, Clone, Copy, PartialEq, Eq, Hash, Structural)]
pub enum GameState {
    MainMenu,
    Overworld,
    Combat,
}

/// The refusal to pop the last mode: the stack never becomes empty.
#[derive(Debug, Clone, Copy, PartialEq, Eq, Structural)]
pub struct StackEmpty;

/// The modes that have been entered and not left, the running one last.
///
/// Only the top mode is updated; the modes beneath it are paused and keep
/// what they own until they are resumed. The stack holds at least one mode by
/// construction: the bottom mode has a field of its own.
#[derive(Debug)]
pub struct ModeStack {
    bottom: GameState,
    above: Vec<GameState>,
}

impl View for ModeStack {
    type V = Seq<GameState>;

    closed spec fn view(&self) -> Seq<GameState> {
        seq![self.bottom] + self.above@
    }
}

impl ModeStack {
    /// A stack that holds `initial` alone.
    pub fn new(initial: GameState) -> (modes: ModeStack)
        ensures
            modes@ == seq![initial],
    {
        let modes = ModeStack { bottom: initial, above: Vec::new() };
        modes
    }

    /// No stack is empty.
    pub proof fn lemma_never_empty(self)
        ensures
            self@.len() > 0,
    {
    }

    /// How many modes are paused beneath the running one.
    pub fn paused(&self) -> (n: usize)
        ensures
            n == self@.len() - 1,
    {
        self.above.len()
    }

    /// The whole stack, the bottom mode first and the running mode last.
    pub fn modes(&self) -> (all: Vec<GameState>)
        ensures
            all@ == self@,
    {
        let mut all: Vec<GameState> = Vec::new();
        all.push(self.bottom);
        let n = self.above.len();
        let mut i: usize = 0;
        while i < n
            invariant
                n == self.above@.len(),
                i <= n,
                all@ == seq![self.bottom] + self.above@.take(i as int),
            decreases n - i,
        {
            all.push(self.above[i]);
            i += 1;
        }
        all
    }

    /// The running mode.
    pub fn current(&self) -> (mode: GameState)
        ensures
            self@.len() > 0,
            mode == self@.last(),
    {
        let n = self.above.len();
        if n > 0 {
            self.above[n - 1]
        } else {
            self.bottom
        }
    }

    /// Whether a paused mode lies beneath the running one.
    pub fn can_pop(&self) -> (b: bool)
        ensures
            b == (self@.len() > 1),
    {
        self.above.len() > 0
    }

    /// Pauses the running mode and puts `mode` on top of it.
    pub fn push(&mut self, mode: GameState)
        ensures
            final(self)@ == old(self)@.push(mode),
    {
        self.above.push(mode);
    }

    /// Removes the running mode, so that the one beneath it resumes, and
    /// returns the removed mode. The last mode cannot be removed.
    pub fn pop(&mut self) -> (popped: Result<GameState, StackEmpty>)
        ensures
            old(self)@.len() > 1 ==> popped == Ok::<GameState, StackEmpty>(old(self)@.last())
                && final(self)@ == old(self)@.drop_last(),
            old(self)@.len() <= 1 ==> popped == Err::<GameState, StackEmpty>(StackEmpty)
                && final(self)@ == old(self)@,
    {
        match self.above.pop() {
            Some(top) => {
                Ok(top)
            },
            None => Err(StackEmpty),
        }
    }
}

} // verus!
