//! What a character shares with its equipment: the places an item can be
//! worn or held, and the record of combat modifiers that items add to.

use vstd::prelude::*;

verus! {

/// A position on a character that holds one item.
#[derive(Copy, Clone, Eq, PartialEq, Debug, Structural)]
pub enum Slot {
    /// The primary hand.
    RHand,
    /// The torso.
    Body,
}

/// An additive record of combat and defense modifiers.
#[derive(Copy, Clone, Eq, PartialEq, Debug, Structural)]
pub struct Stats {
    /// Melee damage.
    pub melee_dmg: i32,
    /// Melee cooldown.
    pub melee_cd: i32,
    /// Armor class.
    pub ac: i32,
    /// Evasion.
    pub ev: i32,
}

impl Stats {
    /// The neutral record: every modifier is zero.
    pub fn zero() -> (stats: Stats)
        ensures
            stats == (Stats { melee_dmg: 0, melee_cd: 0, ac: 0, ev: 0 }),
    {
        Stats { melee_dmg: 0, melee_cd: 0, ac: 0, ev: 0 }
    }
}

} // verus!
