//! Weapons: items held in the primary hand that add to melee damage, the
//! heavier ones at the price of a longer cooldown.

use vstd::prelude::*;
use crate::actor::{Slot, Stats};
use crate::{AnyItem, Attributes, Item};
use crate::Type as ItemType;

pub use self::Type::{Axe, Knife, Sword};

verus! {

/// The kinds of weapon.
#[derive(Copy, Clone, Eq, PartialEq, Debug, Structural)]
pub enum Type {
    Knife,
    Sword,
    Axe,
}

/// A weapon of one kind.
#[derive(Copy, Clone, Eq, PartialEq, Debug, Structural)]
pub struct Weapon {
    type_: Type,
}

/// The name of a weapon of the given kind.
pub open spec fn description_of(kind: Type) -> Seq<char> {
    match kind {
        Type::Knife => "knife"@,
        Type::Sword => "sword"@,
        Type::Axe => "axe"@,
    }
}

/// What a weapon of the given kind adds to its bearer's stats: melee damage
/// and melee cooldown, nothing else.
pub open spec fn stats_of(kind: Type) -> Stats {
    match kind {
        Type::Knife => Stats { melee_dmg: 1, melee_cd: 0, ac: 0, ev: 0 },
        Type::Sword => Stats { melee_dmg: 3, melee_cd: 1, ac: 0, ev: 0 },
        Type::Axe => Stats { melee_dmg: 4, melee_cd: 2, ac: 0, ev: 0 },
    }
}

/// The attributes of a weapon of the given kind.
pub open spec fn attributes_of(kind: Type) -> Attributes {
    Attributes {
        description: description_of(kind),
        category: ItemType::Weapon,
        slot: Slot::RHand,
        stats: stats_of(kind),
    }
}

impl Weapon {
    /// The kind that the weapon was made with.
    pub closed spec fn kind(self) -> Type {
        self.type_
    }

    /// The weapon of the given kind, as a value for contracts.
    pub closed spec fn of(kind: Type) -> Weapon {
        Weapon { type_: kind }
    }

    /// A weapon is nothing but its kind: the weapon made of a kind has that
    /// kind, and every weapon is the one made of its kind.
    pub proof fn lemma_weapon_is_its_kind(weapon: Weapon, kind: Type)
        ensures
            Weapon::of(kind).kind() == kind,
            Weapon::of(weapon.kind()) == weapon,
    {
    }

    /// A weapon of the given kind.
    pub fn new(type_: Type) -> (weapon: Weapon)
        ensures
            weapon == Weapon::of(type_),
            weapon.kind() == type_,
    {
        Weapon { type_: type_ }
    }

    /// The weapon as an item of any family.
    pub fn to_item(self) -> (item: AnyItem)
        ensures
            item == AnyItem::Weapon(self),
    {
        AnyItem::Weapon(self)
    }
}

impl Item for Weapon {
    open spec fn attributes(&self) -> Attributes {
        attributes_of(self.kind())
    }

    fn description(&self) -> (text: &str) {
        match self.type_ {
            Type::Knife => "knife",
            Type::Sword => "sword",
            Type::Axe => "axe",
        }
    }

    fn type_(&self) -> (category: ItemType) {
        ItemType::Weapon
    }

    fn clone_item(&self) -> (copy: AnyItem)
        ensures
            copy == AnyItem::Weapon(*self),
    {
        AnyItem::Weapon(*self)
    }

    fn slot(&self) -> (slot: Slot) {
        Slot::RHand
    }

    fn stats(&self) -> (stats: Stats) {
        let mut stats = Stats::zero();
        match self.type_ {
            Type::Knife => {
                stats.melee_dmg += 1;
            },
            Type::Sword => {
                stats.melee_dmg += 3;
                stats.melee_cd += 1;
            },
            Type::Axe => {
                stats.melee_dmg += 4;
                stats.melee_cd += 2;
            },
        }
        stats
    }
}

} // verus!
