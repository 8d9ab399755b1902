//! Equipment for a role-playing game: the things a character can wield or
//! wear, what each adds to the character's stats, and a level-scaled random
//! generator of single items.

use vstd::prelude::*;

pub mod actor;
pub mod armor;
pub mod dice;
pub mod generator;
pub mod weapon;

pub use crate::armor::Armor;
pub use crate::generator::random;
pub use crate::weapon::Weapon;

verus! {

/// The family an item belongs to, whatever its specific kind.
#[derive(Copy, Clone, Eq, PartialEq, Debug, Structural)]
pub enum Type {
    Weapon,
    Armor,
}

/// Everything that can be observed of an item.
pub struct Attributes {
    /// The human-readable name.
    pub description: Seq<char>,
    /// The family of the item.
    pub category: Type,
    /// Where a character carries the item.
    pub slot: actor::Slot,
    /// What the item adds to the stats of the character who carries it.
    pub stats: actor::Stats,
}

/// Any one item, of whatever family.
#[derive(Copy, Clone, Eq, PartialEq, Debug, Structural)]
pub enum AnyItem {
    Weapon(Weapon),
    Armor(Armor),
}

impl View for AnyItem {
    type V = Attributes;

    /// The attributes of the item, which are those of the variant it holds.
    open spec fn view(&self) -> Attributes {
        match *self {
            AnyItem::Weapon(weapon) => weapon::attributes_of(weapon.kind()),
            AnyItem::Armor(armor) => armor::attributes_of(armor.kind()),
        }
    }
}

impl AnyItem {
    /// Whether two items are of the same family and, within it, of the same
    /// kind.
    pub open spec fn same_kind(self, other: AnyItem) -> bool {
        match (self, other) {
            (AnyItem::Weapon(a), AnyItem::Weapon(b)) => a.kind() == b.kind(),
            (AnyItem::Armor(a), AnyItem::Armor(b)) => a.kind() == b.kind(),
            _ => false,
        }
    }

    /// Family and kind decide everything about an item: two items that
    /// agree in them are equal, and so are all their attributes.
    pub proof fn lemma_kind_decides(self, other: AnyItem)
        requires
            self.same_kind(other),
        ensures
            self == other,
            self@ == other@,
    {
        match (self, other) {
            (AnyItem::Weapon(a), AnyItem::Weapon(b)) => {
                Weapon::lemma_weapon_is_its_kind(a, a.kind());
                Weapon::lemma_weapon_is_its_kind(b, b.kind());
            },
            _ => {},
        }
    }
}

/// What every item offers, whatever its family and kind.
///
/// An item never changes: each method returns the matching field of
/// `attributes()`, on every call.
pub trait Item: Send + Sync + core::fmt::Debug {
    /// The attributes that the methods below report.
    spec fn attributes(&self) -> Attributes;

    /// The human-readable name of the item.
    fn description(&self) -> (text: &str)
        ensures
            text@ == self.attributes().description,
    ;

    /// The family of the item.
    fn type_(&self) -> (category: Type)
        ensures
            category == self.attributes().category,
    ;

    /// The slot that the item occupies once equipped.
    fn slot(&self) -> (slot: actor::Slot)
        ensures
            slot == self.attributes().slot,
    ;

    /// An independent copy of the item, with the same attributes.
    fn clone_item(&self) -> (copy: AnyItem)
        ensures
            copy@ == self.attributes(),
    ;

    /// What the item adds to the stats of the character who carries it.
    fn stats(&self) -> (stats: actor::Stats)
        ensures
            stats == self.attributes().stats,
    ;
}

impl Item for AnyItem {
    open spec fn attributes(&self) -> Attributes {
        self@
    }

    fn description(&self) -> (text: &str) {
        match self {
            AnyItem::Weapon(weapon) => weapon.description(),
            AnyItem::Armor(armor) => armor.description(),
        }
    }

    fn type_(&self) -> (category: Type) {
        match self {
            AnyItem::Weapon(weapon) => weapon.type_(),
            AnyItem::Armor(armor) => armor.type_(),
        }
    }

    fn slot(&self) -> (slot: actor::Slot) {
        match self {
            AnyItem::Weapon(weapon) => weapon.slot(),
            AnyItem::Armor(armor) => armor.slot(),
        }
    }

    fn clone_item(&self) -> (copy: AnyItem)
        ensures
            copy == *self,
    {
        match self {
            AnyItem::Weapon(weapon) => weapon.clone_item(),
            AnyItem::Armor(armor) => armor.clone_item(),
        }
    }

    fn stats(&self) -> (stats: actor::Stats) {
        match self {
            AnyItem::Weapon(weapon) => weapon.stats(),
            AnyItem::Armor(armor) => armor.stats(),
        }
    }
}

} // verus!
