//! The generator: one item for a character of a given level.
//!
//! Three uniform draws are summed into an offset that is most often near the
//! middle of its range; the level shifted by that offset is looked up in a
//! short table, and whatever the table does not list is a knife.

use vstd::prelude::*;
use crate::dice;
use crate::{armor, weapon};
use crate::{AnyItem, Armor, Weapon};

verus! {

/// Whether `draw` is a value that a single draw can take.
pub open spec fn is_draw(draw: int) -> bool {
    0 <= draw < 5
}

/// The offset that three draws add to the level.
pub open spec fn offset_of(first: int, second: int, third: int) -> int {
    first + second + third - 9
}

/// The item that the table gives for a key.
pub open spec fn generated(key: int) -> AnyItem {
    if key == 1 || key == 2 || key == 5 {
        AnyItem::Weapon(Weapon::of(weapon::Type::Sword))
    } else if key == 3 {
        AnyItem::Armor(Armor::of(armor::Type::Leather))
    } else if key == 7 {
        AnyItem::Armor(Armor::of(armor::Type::Plate))
    } else {
        AnyItem::Weapon(Weapon::of(weapon::Type::Knife))
    }
}

/// The item for a level once the three draws are known.
pub open spec fn drawn(level: int, first: int, second: int, third: int) -> AnyItem {
    generated(level + offset_of(first, second, third))
}

/// In how many ways one draw gives `total`.
pub open spec fn ways_of_one(total: int) -> nat {
    if is_draw(total) {
        1
    } else {
        0
    }
}

/// In how many ways two draws, taken in order, sum to `total`.
pub open spec fn ways_of_two(total: int) -> nat {
    ways_of_one(total) + ways_of_one(total - 1) + ways_of_one(total - 2) + ways_of_one(total - 3)
        + ways_of_one(total - 4)
}

/// In how many ways three draws, taken in order, sum to `total`.
pub open spec fn ways_of_three(total: int) -> nat {
    ways_of_two(total) + ways_of_two(total - 1) + ways_of_two(total - 2) + ways_of_two(total - 3)
        + ways_of_two(total - 4)
}

/// In how many of the 125 outcomes of three draws the offset is `offset`.
pub open spec fn ways(offset: int) -> nat {
    ways_of_three(offset + 9)
}

/// Three draws can give an offset exactly when it lies between -9 and 3,
/// and every such offset is given by some three draws.
pub proof fn lemma_offsets_reached(offset: int)
    ensures
        ways(offset) > 0 <==> -9 <= offset <= 3,
        ways(offset) > 0 <==> exists|first: int, second: int, third: int|
            is_draw(first) && is_draw(second) && is_draw(third) && #[trigger] offset_of(
                first,
                second,
                third,
            ) == offset,
{
    if -9 <= offset <= 3 {
        let total = offset + 9;
        let first = if total <= 4 { total } else { 4 };
        let second = if total - first <= 4 { total - first } else { 4 };
        let third = total - first - second;
        assert(is_draw(first) && is_draw(second) && is_draw(third));
        assert(offset_of(first, second, third) == offset);
    }
}

/// The offsets pile up in the middle: the ways to reach an offset grow in
/// number up to -3 and shrink from there on.
pub proof fn lemma_ways_rise_then_fall(offset: int)
    ensures
        offset < -3 ==> ways(offset) <= ways(offset + 1),
        offset >= -3 ==> ways(offset + 1) <= ways(offset),
{
}

/// An offset of 0 is reached in more ways than any offset of -9 or less, or
/// of 5 or more: with uniform draws, a key equal to the level is likelier
/// than one at either tail.
pub proof fn lemma_center_outweighs_tails(tail: int)
    requires
        tail <= -9 || tail >= 5,
    ensures
        ways(tail) < ways(0),
{
}

/// Far from the table every draw gives a knife: a level under -2 or over 16
/// cannot reach a listed key.
pub proof fn lemma_far_levels_give_knives(level: int, first: int, second: int, third: int)
    requires
        is_draw(first),
        is_draw(second),
        is_draw(third),
        level < -2 || level > 16,
    ensures
        drawn(level, first, second, third) == AnyItem::Weapon(Weapon::of(weapon::Type::Knife)),
{
}

/// Looks a key up in the table.
pub fn for_key(key: i64) -> (item: AnyItem)
    ensures
        item == generated(key as int),
{
    match key {
        1 | 2 => Weapon::new(weapon::Type::Sword).to_item(),
        3 => Armor::new(armor::Type::Leather).to_item(),
        5 => Weapon::new(weapon::Type::Sword).to_item(),
        7 => Armor::new(armor::Type::Plate).to_item(),
        _ => Weapon::new(weapon::Type::Knife).to_item(),
    }
}

/// The item for a level and three given draws. Every level is served, and
/// so is every value of a draw.
pub fn from_draws(level: i32, first: i32, second: i32, third: i32) -> (item: AnyItem)
    ensures
        item == drawn(level as int, first as int, second as int, third as int),
{
    let offset: i64 = first as i64 + second as i64 + third as i64 - 9;
    for_key(level as i64 + offset)
}

/// A random item for a character of the given level: the item that
/// `from_draws` gives for three draws made here.
pub fn random(level: i32) -> (item: AnyItem)
    ensures
        exists|first: int, second: int, third: int|
            is_draw(first) && is_draw(second) && is_draw(third) && item == #[trigger] drawn(
                level as int,
                first,
                second,
                third,
            ),
{
    let mut rng = rand::thread_rng();
    let first: i32 = dice::gen_range(&mut rng, 0, 5);
    let mut rng = rand::thread_rng();
    let second: i32 = dice::gen_range(&mut rng, 0, 5);
    let mut rng = rand::thread_rng();
    let third: i32 = dice::gen_range(&mut rng, 0, 5);
    let item = from_draws(level, first, second, third);
    assert(item == drawn(level as int, first as int, second as int, third as int));
    item
}

} // verus!
