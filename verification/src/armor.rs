//! Armor: items worn on the body that add to armor class, the heavier ones
//! at the price of evasion.

use vstd::prelude::*;
use crate::actor::{Slot, Stats};
use crate::{AnyItem, Attributes, Item};
use crate::Type as ItemType;

pub use self::Type::{Leather, Plate};

verus! {

/// The kinds of armor.
#[derive(Copy, Clone, Eq, PartialEq, Debug, Structural)]
pub enum Type {
    Leather,
    Plate,
}

/// A piece of armor of one kind.
#[derive(Copy, Clone, Eq, PartialEq, Debug, Structural)]
pub struct Armor {
    pub type_: Type,
}

/// The name of a piece of armor of the given kind.
pub open spec fn description_of(kind: Type) -> Seq<char> {
    match kind {
        Type::Leather => "leather armor"@,
        Type::Plate => "plate armor"@,
    }
}

/// What a piece of armor of the given kind adds to its bearer's stats: armor
/// class and evasion, nothing else.
pub open spec fn stats_of(kind: Type) -> Stats {
    match kind {
        Type::Leather => Stats { melee_dmg: 0, melee_cd: 0, ac: 1, ev: 0 },
        Type::Plate => Stats { melee_dmg: 0, melee_cd: 0, ac: 4, ev: -2i32 },
    }
}

/// The attributes of a piece of armor of the given kind.
pub open spec fn attributes_of(kind: Type) -> Attributes {
    Attributes {
        description: description_of(kind),
        category: ItemType::Armor,
        slot: Slot::Body,
        stats: stats_of(kind),
    }
}

impl Armor {
    /// The kind that the armor was made with.
    pub open spec fn kind(self) -> Type {
        self.type_
    }

    /// The armor of the given kind, as a value for contracts.
    pub open spec fn of(kind: Type) -> Armor {
        Armor { type_: kind }
    }

    /// A piece of armor of the given kind.
    pub fn new(type_: Type) -> (armor: Armor)
        ensures
            armor == Armor::of(type_),
    {
        Armor { type_: type_ }
    }

    /// The armor as an item of any family.
    pub fn to_item(self) -> (item: AnyItem)
        ensures
            item == AnyItem::Armor(self),
    {
        AnyItem::Armor(self)
    }
}

impl Item for Armor {
    open spec fn attributes(&self) -> Attributes {
        attributes_of(self.kind())
    }

    fn description(&self) -> (text: &str) {
        match self.type_ {
            Type::Plate => "plate armor",
            Type::Leather => "leather armor",
        }
    }

    fn type_(&self) -> (category: ItemType) {
        ItemType::Armor
    }

    fn clone_item(&self) -> (copy: AnyItem)
        ensures
            copy == AnyItem::Armor(*self),
    {
        AnyItem::Armor(*self)
    }

    fn slot(&self) -> (slot: Slot) {
        Slot::Body
    }

    fn stats(&self) -> (stats: Stats) {
        let mut stats = Stats::zero();
        match self.type_ {
            Type::Plate => {
                stats.ac += 4;
                stats.ev -= 2;
            },
            Type::Leather => {
                stats.ac += 1;
            },
        }
        stats
    }
}

} // verus!
