//! Items: things that lie in the world or are carried by a creature.
//!
//! An item is food to be eaten, something to fight or gather with, or a
//! resource for crafting. Each live item has one owner at a time: the world's
//! item list or a creature's single inventory slot.

use vstd::prelude::*;

verus! {

/// The three families of items.
#[derive(Clone, Copy, Debug, PartialEq, Eq, Structural)]
pub enum ItemType {
    /// Can be thrown or interacted with.
    Interactable(InteractableType),
    /// Can be thrown or eaten.
    Food(FoodType),
    /// Can be thrown; used for crafting.
    Resource(ResourceType),
}

#[derive(Clone, Copy, Debug, PartialEq, Eq, Structural)]
pub enum FoodType {
    Bisket,
}

#[derive(Clone, Copy, Debug, PartialEq, Eq, Structural)]
pub enum InteractableType {
    Sword,
}

#[derive(Clone, Copy, Debug, PartialEq, Eq, Structural)]
pub enum ResourceType {
    Logs,
    Grune,
}

/// An item and where it is.
#[derive(Clone, Copy, Debug, PartialEq, Eq, Structural)]
pub struct Item {
    /// Horizontal position in world pixels.
    pub x: i64,
    /// Vertical position in world pixels.
    pub y: i64,
    /// The item's family and kind.
    pub item_type: ItemType,
    /// Damage done when the item is thrown.
    pub damage: i32,
    /// Whether the item can be picked up.
    pub pickupable: bool,
    /// Horizontal velocity while thrown.
    pub x_vel: i64,
    /// Vertical velocity while thrown.
    pub y_vel: i64,
    /// Weight, in tenths of a unit.
    pub weight: u32,
}

impl Item {
    /// A template item at the origin, at rest.
    pub fn new(item_type: ItemType, damage: i32, pickupable: bool, w: u32) -> (item: Item)
        ensures
            item == (Item {
                x: 0,
                y: 0,
                item_type,
                damage,
                pickupable,
                x_vel: 0,
                y_vel: 0,
                weight: w,
            }),
    {
        Item {
            x: 0,
            y: 0,
            item_type: item_type,
            damage: damage,
            pickupable: pickupable,
            x_vel: 0,
            y_vel: 0,
            weight: w,
        }
    }

    /// A new item made after this one, placed at `(x, y)`. The template is
    /// left as it is.
    pub fn generate_clone(&self, x: i64, y: i64) -> (item: Item)
        ensures
            item == (Item { x, y, ..*self }),
    {
        Item { x: x, y: y, ..*self }
    }

    /// Whether the item is food.
    pub open spec fn is_food(self) -> bool {
        self.item_type is Food
    }
}

} // verus!
