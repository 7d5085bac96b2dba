//! Core state for in-game characters: identity and storage, the disposition
//! algebra, the attribute model, and template-driven NPC generation.

pub mod chara;
pub mod creation;
pub mod holder;
pub mod talkscript;

use vstd::prelude::*;

verus! {

/// Initial value of a character's turn-scheduling counter.
pub const WAIT_TIME_NUMERATOR: u32 = 100;

} // verus!
