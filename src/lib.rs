//! Dice-driven combat simulation: the rolling-dice state machine, roll
//! resolution, the opponent's attack scheduler and the animation sequencer,
//! with the screen logic around them.

pub mod animation;
pub mod background;
pub mod battle;
pub mod customise;
pub mod dice;
pub mod display;
pub mod face;
pub mod generation;
pub mod sfx;
