use item::actor::{Slot, Stats};
use item::{armor, weapon};
use item::{AnyItem, Armor, Item, Type, Weapon};

fn stats(melee_dmg: i32, melee_cd: i32, ac: i32, ev: i32) -> Stats {
    Stats { melee_dmg, melee_cd, ac, ev }
}

#[test]
fn zero_stats_are_neutral() {
    assert_eq!(Stats::zero(), stats(0, 0, 0, 0));
}

#[test]
fn weapon_descriptions() {
    assert_eq!(Weapon::new(weapon::Knife).description(), "knife");
    assert_eq!(Weapon::new(weapon::Sword).description(), "sword");
    assert_eq!(Weapon::new(weapon::Axe).description(), "axe");
}

#[test]
fn armor_descriptions() {
    assert_eq!(Armor::new(armor::Leather).description(), "leather armor");
    assert_eq!(Armor::new(armor::Plate).description(), "plate armor");
}

#[test]
fn weapons_are_weapons_in_the_primary_hand() {
    for kind in [weapon::Knife, weapon::Sword, weapon::Axe] {
        let weapon = Weapon::new(kind);
        assert_eq!(weapon.type_(), Type::Weapon);
        assert_eq!(weapon.slot(), Slot::RHand);
    }
}

#[test]
fn armor_is_armor_on_the_body() {
    for kind in [armor::Leather, armor::Plate] {
        let armor = Armor::new(kind);
        assert_eq!(armor.type_(), Type::Armor);
        assert_eq!(armor.slot(), Slot::Body);
    }
}

#[test]
fn weapon_stats_table() {
    assert_eq!(Weapon::new(weapon::Knife).stats(), stats(1, 0, 0, 0));
    assert_eq!(Weapon::new(weapon::Sword).stats(), stats(3, 1, 0, 0));
    assert_eq!(Weapon::new(weapon::Axe).stats(), stats(4, 2, 0, 0));
}

#[test]
fn armor_stats_table() {
    assert_eq!(Armor::new(armor::Leather).stats(), stats(0, 0, 1, 0));
    assert_eq!(Armor::new(armor::Plate).stats(), stats(0, 0, 4, -2));
}

#[test]
fn armor_keeps_its_kind() {
    assert_eq!(Armor::new(armor::Leather).type_, armor::Type::Leather);
    assert_eq!(Armor::new(armor::Plate).type_, armor::Type::Plate);
}

#[test]
fn kinds_are_told_apart() {
    assert_ne!(Weapon::new(weapon::Knife), Weapon::new(weapon::Sword));
    assert_ne!(Weapon::new(weapon::Sword), Weapon::new(weapon::Axe));
    assert_ne!(Armor::new(armor::Leather), Armor::new(armor::Plate));
    assert_ne!(
        Weapon::new(weapon::Knife).to_item(),
        Armor::new(armor::Leather).to_item()
    );
}

#[test]
fn attributes_depend_on_the_kind_alone() {
    for kind in [weapon::Knife, weapon::Sword, weapon::Axe] {
        let one = Weapon::new(kind);
        let other = Weapon::new(kind);
        assert_eq!(one, other);
        assert_eq!(one.description(), other.description());
        assert_eq!(one.description(), one.description());
        assert_eq!(one.slot(), other.slot());
        assert_eq!(one.stats(), other.stats());
        assert_eq!(one.stats(), one.stats());
    }
    for kind in [armor::Leather, armor::Plate] {
        let one = Armor::new(kind);
        let other = Armor::new(kind);
        assert_eq!(one, other);
        assert_eq!(one.description(), other.description());
        assert_eq!(one.slot(), other.slot());
        assert_eq!(one.stats(), other.stats());
        assert_eq!(one.stats(), one.stats());
    }
}

#[test]
fn to_item_wraps_the_variant() {
    let sword = Weapon::new(weapon::Sword);
    assert_eq!(sword.to_item(), AnyItem::Weapon(sword));
    let plate = Armor::new(armor::Plate);
    assert_eq!(plate.to_item(), AnyItem::Armor(plate));
}

#[test]
fn any_item_reports_what_its_variant_reports() {
    for kind in [weapon::Knife, weapon::Sword, weapon::Axe] {
        let weapon = Weapon::new(kind);
        let item = weapon.to_item();
        assert_eq!(item.description(), weapon.description());
        assert_eq!(item.type_(), Type::Weapon);
        assert_eq!(item.slot(), Slot::RHand);
        assert_eq!(item.stats(), weapon.stats());
    }
    for kind in [armor::Leather, armor::Plate] {
        let armor = Armor::new(kind);
        let item = armor.to_item();
        assert_eq!(item.description(), armor.description());
        assert_eq!(item.type_(), Type::Armor);
        assert_eq!(item.slot(), Slot::Body);
        assert_eq!(item.stats(), armor.stats());
    }
}

#[test]
fn clone_item_copies_every_attribute() {
    let items = [
        Weapon::new(weapon::Knife).to_item(),
        Weapon::new(weapon::Sword).to_item(),
        Weapon::new(weapon::Axe).to_item(),
        Armor::new(armor::Leather).to_item(),
        Armor::new(armor::Plate).to_item(),
    ];
    for item in items {
        let copy = item.clone_item();
        assert_eq!(copy, item);
        assert_eq!(copy.description(), item.description());
        assert_eq!(copy.type_(), item.type_());
        assert_eq!(copy.slot(), item.slot());
        assert_eq!(copy.stats(), item.stats());
        assert_eq!(item.clone(), item);
    }
}

#[test]
fn clone_item_of_a_variant_is_that_variant() {
    let axe = Weapon::new(weapon::Axe);
    assert_eq!(axe.clone_item(), AnyItem::Weapon(axe));
    let leather = Armor::new(armor::Leather);
    assert_eq!(leather.clone_item(), AnyItem::Armor(leather));
}

#[test]
fn a_copy_does_not_follow_what_it_was_made_from() {
    let mut worn = Armor::new(armor::Leather);
    let copy = worn.clone_item();
    worn.type_ = armor::Type::Plate;
    assert_eq!(worn.description(), "plate armor");
    assert_eq!(copy.description(), "leather armor");
    assert_eq!(copy.stats(), stats(0, 0, 1, 0));
}

fn describe(item: &dyn Item) -> String {
    format!("{} in {:?}", item.description(), item.slot())
}

#[test]
fn items_serve_behind_the_common_interface() {
    assert_eq!(describe(&Weapon::new(weapon::Axe)), "axe in RHand");
    assert_eq!(describe(&Armor::new(armor::Plate)), "plate armor in Body");
    assert_eq!(describe(&Weapon::new(weapon::Knife).to_item()), "knife in RHand");
}
