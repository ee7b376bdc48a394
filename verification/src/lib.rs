//! The core of a small role-playing game: turn-based combat layered on a
//! real-time overworld.
//!
//! The game is a stack of modes ([`mode`]), of which the top one runs. Fades
//! ([`transition`]) carry every change of mode and make it once, past their
//! midpoint. Combat ([`combat`]) is a machine of phases, driven by fight
//! events and by the timer of the attack animations. In the overworld
//! ([`overworld`], [`player`], [`npc`], [`tilemap`]) a timer that runs only
//! in the tall grass starts the fights. [`game`] puts the parts together: one
//! call for each frame, from what the frame saw to what it is to show.
//!
//! Time is counted in whole nanoseconds. The game leans on the engine in two
//! places, the arithmetic of timers ([`timer`]) and the queue of fight events
//! ([`queue`]), and on a random number generator for the delay between
//! encounters ([`player`]). What is taken on trust there is said at each of
//! those functions; everything else is proved.

pub mod combat;
pub mod game;
pub mod menu;
pub mod mode;
pub mod npc;
pub mod overworld;
pub mod player;
pub mod queue;
pub mod tilemap;
pub mod timer;
pub mod transition;
pub mod ui;
