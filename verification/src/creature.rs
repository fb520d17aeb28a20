//! The creature: the player's character, and the template for anything else
//! that walks.
//!
//! A creature has a position, a velocity of its own that comes from the
//! movement keys, and a velocity imposed by what it stands on. It carries at
//! most one item, has health, and either walks or steers the ship.

use vstd::prelude::*;
use crate::input::{direction_of_key, key_direction, ButtonState, Key};
use crate::item::{Item, ItemType};
use crate::misc::{
    axis_speed, axis_velocity, has_direction, sat_add, saturate, toggle_direction, toggled,
    Direction, Moveable,
};

verus! {

/// Who receives the movement keys.
#[derive(Clone, Copy, Debug, PartialEq, Eq, Structural)]
pub enum CreatureState {
    /// The creature walks.
    Normal,
    /// The creature stands at the helm; the keys steer the ship.
    ControllingShip,
}

/// A creature: where it is, how it moves, what it holds.
pub struct Creature {
    /// Whether the creature walks or steers.
    pub creature_state: CreatureState,
    /// Horizontal position in world pixels.
    pub x: i64,
    /// Vertical position in world pixels.
    pub y: i64,
    /// Horizontal velocity from the creature's own movement.
    pub self_vel_x: i64,
    /// Vertical velocity from the creature's own movement.
    pub self_vel_y: i64,
    /// The directions whose keys are held.
    pub directions: Vec<Direction>,
    /// Horizontal velocity imposed by what the creature stands on.
    pub other_vel_x: i64,
    /// Vertical velocity imposed by what the creature stands on.
    pub other_vel_y: i64,
    /// The greatest speed along either axis.
    pub speed: u32,
    /// Remaining health; the creature is dead at zero.
    pub health: u32,
    /// The one item the creature can carry.
    pub inventory: Option<Item>,
    /// The direction the creature faces.
    pub dir: Direction,
    /// Which of the three pictures of the creature's animation is shown.
    pub sprite_index: u32,
    /// Draws since the picture last changed.
    pub frames_since_last_draw: u32,
    /// Number of draws a picture stays.
    pub animation_rate: u32,
}

/// A creature as a mathematical value.
pub struct CreatureView {
    pub creature_state: CreatureState,
    pub x: i64,
    pub y: i64,
    pub self_vel_x: i64,
    pub self_vel_y: i64,
    pub directions: Seq<Direction>,
    pub other_vel_x: i64,
    pub other_vel_y: i64,
    pub speed: u32,
    pub health: u32,
    pub inventory: Option<Item>,
    pub dir: Direction,
    pub sprite_index: u32,
    pub frames_since_last_draw: u32,
    pub animation_rate: u32,
}

impl View for Creature {
    type V = CreatureView;

    open spec fn view(&self) -> CreatureView {
        CreatureView {
            creature_state: self.creature_state,
            x: self.x,
            y: self.y,
            self_vel_x: self.self_vel_x,
            self_vel_y: self.self_vel_y,
            directions: self.directions@,
            other_vel_x: self.other_vel_x,
            other_vel_y: self.other_vel_y,
            speed: self.speed,
            health: self.health,
            inventory: self.inventory,
            dir: self.dir,
            sprite_index: self.sprite_index,
            frames_since_last_draw: self.frames_since_last_draw,
            animation_rate: self.animation_rate,
        }
    }
}

/// The direction faced after moving with the given own velocity, having faced
/// `dir` before. At rest the facing stays. Otherwise a horizontal movement
/// turns the creature east or west, and a vertical movement overrides that
/// with south or north.
pub open spec fn facing_after(dir: Direction, vel_x: i64, vel_y: i64) -> Direction {
    if vel_y > 0 {
        Direction::S
    } else if vel_y < 0 {
        Direction::N
    } else if vel_x > 0 {
        Direction::E
    } else if vel_x < 0 {
        Direction::W
    } else {
        dir
    }
}

impl CreatureView {
    /// No own velocity exceeds the speed along either axis.
    pub open spec fn speed_clamped(self) -> bool {
        &&& -(self.speed as int) <= self.self_vel_x <= self.speed as int
        &&& -(self.speed as int) <= self.self_vel_y <= self.speed as int
    }

    /// The position the creature's own velocity would take it to.
    pub open spec fn x_to_be(self) -> i64 {
        saturate(self.x + self.self_vel_x)
    }

    /// See [`CreatureView::x_to_be`].
    pub open spec fn y_to_be(self) -> i64 {
        saturate(self.y + self.self_vel_y)
    }

    /// The creature put at `(x, y)`. What it carries is carried along: a held
    /// item is where the creature is whenever the creature has moved.
    pub open spec fn put_at(self, x: i64, y: i64) -> CreatureView {
        CreatureView {
            x,
            y,
            inventory: match self.inventory {
                Some(item) => Some(Item { x, y, ..item }),
                None => None,
            },
            ..self
        }
    }

    /// The creature after being carried by what it stands on.
    pub open spec fn carried(self) -> CreatureView {
        self.put_at(saturate(self.x + self.other_vel_x), saturate(self.y + self.other_vel_y))
    }

    /// The creature after a step of its own.
    pub open spec fn stepped(self) -> CreatureView {
        self.put_at(self.x_to_be(), self.y_to_be())
    }

    /// The creature after turning to where it moves.
    pub open spec fn turned(self) -> CreatureView {
        CreatureView { dir: facing_after(self.dir, self.self_vel_x, self.self_vel_y), ..self }
    }

    /// The creature after turning to where it moves a number of times.
    pub open spec fn turned_times(self, turns: nat) -> CreatureView
        decreases turns,
    {
        if turns == 0 {
            self
        } else {
            self.turned_times((turns - 1) as nat).turned()
        }
    }

    /// The creature after a hit.
    pub open spec fn damaged(self, damage: u32) -> CreatureView {
        CreatureView {
            health: if self.health >= damage {
                (self.health - damage) as u32
            } else {
                0
            },
            ..self
        }
    }

    /// The creature after using what it holds: food is eaten and heals one
    /// point, anything else stays in hand.
    pub open spec fn after_use(self) -> CreatureView {
        match self.inventory {
            Some(item) if item.is_food() => CreatureView {
                health: if self.health < u32::MAX {
                    (self.health + 1) as u32
                } else {
                    u32::MAX
                },
                inventory: None,
                ..self
            },
            _ => self,
        }
    }

    /// The creature in the given control state, stopped and holding no
    /// direction.
    pub open spec fn at_rest_in(self, state: CreatureState) -> CreatureView {
        CreatureView {
            creature_state: state,
            directions: Seq::empty(),
            self_vel_x: 0,
            self_vel_y: 0,
            ..self
        }
    }

    /// The creature after taking or leaving the helm. Either way it stops
    /// and lets go of every held direction: nothing of its motion is carried
    /// over from walking to steering or back.
    pub open spec fn control_toggled(self) -> CreatureView {
        match self.creature_state {
            CreatureState::Normal => self.at_rest_in(CreatureState::ControllingShip),
            CreatureState::ControllingShip => self.at_rest_in(CreatureState::Normal),
        }
    }

    /// The creature made to walk. One that steers leaves the helm, stopped
    /// and holding no direction; one that walks already stays as it is.
    pub open spec fn released(self) -> CreatureView {
        match self.creature_state {
            CreatureState::Normal => self,
            CreatureState::ControllingShip => self.at_rest_in(CreatureState::Normal),
        }
    }

    /// The creature after a movement key event.
    pub open spec fn after_input(self, state: ButtonState, key: Option<Key>) -> CreatureView {
        match key_direction(key) {
            Some(dir) => CreatureView { directions: toggled(self.directions, state, dir), ..self },
            None => self,
        }
    }

    /// The creature with its own velocity set from the held directions: along
    /// each axis the full speed towards a held direction, nothing where both
    /// or neither are held.
    pub open spec fn with_velocity_from_directions(self) -> CreatureView {
        CreatureView {
            self_vel_x: axis_velocity(
                self.directions.contains(Direction::E),
                self.directions.contains(Direction::W),
                self.speed,
            ),
            self_vel_y: axis_velocity(
                self.directions.contains(Direction::S),
                self.directions.contains(Direction::N),
                self.speed,
            ),
            ..self
        }
    }

    /// The creature after one draw: the draw is counted, and once a picture
    /// has stayed for more draws than the rate the next of the three is
    /// shown and the count starts again.
    pub open spec fn animated(self) -> CreatureView {
        if self.frames_since_last_draw > self.animation_rate {
            CreatureView {
                frames_since_last_draw: 1,
                sprite_index: ((self.sprite_index + 1) % 3) as u32,
                ..self
            }
        } else {
            CreatureView {
                frames_since_last_draw: if self.frames_since_last_draw < u32::MAX {
                    (self.frames_since_last_draw + 1) as u32
                } else {
                    u32::MAX
                },
                ..self
            }
        }
    }

    /// The creature after moving by both velocities, imposed first.
    pub open spec fn moved(self) -> CreatureView {
        self.put_at(
            saturate(saturate(self.x + self.other_vel_x) + self.self_vel_x),
            saturate(saturate(self.y + self.other_vel_y) + self.self_vel_y),
        )
    }
}

/// Idle facing is frozen: a creature at rest faces the same way however
/// often it turns to where it moves.
pub proof fn lemma_idle_keeps_facing(creature: CreatureView, turns: nat)
    requires
        creature.self_vel_x == 0,
        creature.self_vel_y == 0,
    ensures
        creature.turned_times(turns) == creature,
    decreases turns,
{
    if turns > 0 {
        lemma_idle_keeps_facing(creature, (turns - 1) as nat);
    }
}

impl Creature {
    /// The default creature: at the origin, at rest, walking, facing south,
    /// with speed 2, health 3 and empty hands.
    pub open spec fn new_view() -> CreatureView {
        CreatureView {
            creature_state: CreatureState::Normal,
            x: 0,
            y: 0,
            self_vel_x: 0,
            self_vel_y: 0,
            directions: Seq::empty(),
            other_vel_x: 0,
            other_vel_y: 0,
            speed: 2,
            health: 3,
            inventory: None,
            dir: Direction::S,
            sprite_index: 0,
            frames_since_last_draw: 0,
            animation_rate: 5,
        }
    }

    /// The default creature.
    pub fn new() -> (creature: Creature)
        ensures
            creature@ == Creature::new_view(),
            creature@.speed_clamped(),
    {
        Creature {
            creature_state: CreatureState::Normal,
            x: 0,
            y: 0,
            self_vel_x: 0,
            self_vel_y: 0,
            directions: Vec::new(),
            other_vel_x: 0,
            other_vel_y: 0,
            speed: 2,
            health: 3,
            inventory: None,
            dir: Direction::S,
            sprite_index: 0,
            frames_since_last_draw: 0,
            animation_rate: 5,
        }
    }

    /// Counts one draw of the creature and shows the next of its three
    /// pictures once the current one has stayed long enough.
    pub fn advance_animation(&mut self)
        ensures
            final(self)@ == old(self)@.animated(),
    {
        if self.frames_since_last_draw > self.animation_rate {
            self.frames_since_last_draw = 0;
            self.sprite_index = (self.sprite_index % 3 + 1) % 3;
        }
        if self.frames_since_last_draw < u32::MAX {
            self.frames_since_last_draw += 1;
        }
    }

    /// Moves the creature by the velocity imposed on it, as when the ship
    /// under its feet moves, and takes a carried item along.
    pub fn update_position_other(&mut self)
        ensures
            final(self)@ == old(self)@.carried(),
    {
        self.x = sat_add(self.x, self.other_vel_x);
        self.y = sat_add(self.y, self.other_vel_y);
        self.carry_item();
    }

    /// Moves the creature by its own velocity and takes a carried item along.
    pub fn update_position_self(&mut self)
        ensures
            final(self)@ == old(self)@.stepped(),
    {
        self.x = sat_add(self.x, self.self_vel_x);
        self.y = sat_add(self.y, self.self_vel_y);
        self.carry_item();
    }

    /// Puts a carried item where the creature is.
    fn carry_item(&mut self)
        ensures
            final(self)@ == old(self)@.put_at(old(self).x, old(self).y),
    {
        match self.inventory {
            Some(item) => {
                self.inventory = Some(Item { x: self.x, y: self.y, ..item });
            },
            None => {},
        }
    }

    /// Turns the creature to where it moves. At rest the facing is kept;
    /// vertical movement overrides horizontal.
    pub fn update_direction(&mut self)
        ensures
            final(self)@ == old(self)@.turned(),
            old(self).self_vel_x == 0 && old(self).self_vel_y == 0 ==> final(self)@ == old(self)@,
    {
        if !(self.self_vel_y == 0 && self.self_vel_x == 0) {
            if self.self_vel_x > 0 {
                self.dir = Direction::E;
            } else if self.self_vel_x < 0 {
                self.dir = Direction::W;
            }
            if self.self_vel_y > 0 {
                self.dir = Direction::S;
            } else if self.self_vel_y < 0 {
                self.dir = Direction::N;
            }
        }
    }

    /// The horizontal position the creature is heading for.
    pub fn x_to_be_location(&self) -> (x: i64)
        ensures
            x == self@.x_to_be(),
    {
        sat_add(self.x, self.self_vel_x)
    }

    /// The vertical position the creature is heading for.
    pub fn y_to_be_location(&self) -> (y: i64)
        ensures
            y == self@.y_to_be(),
    {
        sat_add(self.y, self.self_vel_y)
    }

    /// The direction the creature faces.
    pub fn facing(&self) -> (dir: Direction)
        ensures
            dir == self.dir,
    {
        self.dir
    }

    /// Whether the creature moves of its own.
    pub fn is_moving(&self) -> (moving: bool)
        ensures
            moving == (self.self_vel_x != 0 || self.self_vel_y != 0),
    {
        self.self_vel_y != 0 || self.self_vel_x != 0
    }

    /// Whether the creature has no health left.
    pub fn is_dead(&self) -> (dead: bool)
        ensures
            dead == (self.health == 0),
    {
        self.health == 0
    }

    /// Takes `damage` from the creature's health, which never falls below
    /// zero.
    pub fn take_damage(&mut self, damage: u32)
        ensures
            final(self)@ == old(self)@.damaged(damage),
    {
        self.health = self.health.saturating_sub(damage);
    }

    /// Empties the inventory and hands out what was in it.
    pub fn drop_item(&mut self) -> (dropped: Option<Item>)
        ensures
            dropped == old(self).inventory,
            final(self)@ == (CreatureView { inventory: None, ..old(self)@ }),
    {
        let dropped = self.inventory;
        self.inventory = None;
        dropped
    }

    /// Puts `item` into the inventory if that is empty, and says whether it
    /// did.
    pub fn pickup_item(&mut self, item: Item) -> (picked: bool)
        ensures
            picked == (old(self).inventory is None),
            final(self)@ == if picked {
                CreatureView { inventory: Some(item), ..old(self)@ }
            } else {
                old(self)@
            },
    {
        match self.inventory {
            None => {
                self.inventory = Some(item);
                true
            },
            Some(_) => false,
        }
    }

    /// Uses the carried item. Food heals one point and is gone; nothing else
    /// has a use yet.
    pub fn use_item(&mut self)
        ensures
            final(self)@ == old(self)@.after_use(),
    {
        let mut item_used = false;
        match self.inventory {
            Some(item) => {
                match item.item_type {
                    ItemType::Food(_) => {
                        if self.health < u32::MAX {
                            self.health = self.health + 1;
                        }
                        item_used = true;
                    },
                    _ => {},
                }
            },
            None => {},
        }
        if item_used {
            self.inventory = None;
        }
    }

    /// Takes the helm when walking, leaves it when steering. Either way the
    /// creature stops and lets go of every held direction.
    pub fn change_control_state(&mut self)
        ensures
            final(self)@ == old(self)@.control_toggled(),
            final(self).creature_state == match old(self).creature_state {
                CreatureState::Normal => CreatureState::ControllingShip,
                CreatureState::ControllingShip => CreatureState::Normal,
            },
            final(self).self_vel_x == 0,
            final(self).self_vel_y == 0,
            final(self).directions@.len() == 0,
    {
        match self.creature_state {
            CreatureState::Normal => self.state_normal(),
            CreatureState::ControllingShip => self.state_controlling_ship(),
        }
    }

    /// Makes the creature walk: one that steers leaves the helm, stopped and
    /// holding no direction; one that walks already stays as it is.
    pub fn leave_helm(&mut self)
        ensures
            final(self)@ == old(self)@.released(),
            final(self).creature_state == CreatureState::Normal,
    {
        match self.creature_state {
            CreatureState::Normal => {},
            CreatureState::ControllingShip => self.state_controlling_ship(),
        }
    }

    /// Leaves the helm: the creature walks again, stopped and holding no
    /// direction.
    fn state_controlling_ship(&mut self)
        ensures
            final(self)@ == old(self)@.at_rest_in(CreatureState::Normal),
    {
        self.directions = Vec::new();
        self.self_vel_x = 0;
        self.self_vel_y = 0;
        self.creature_state = CreatureState::Normal;
    }

    /// Takes the helm: the creature stops and every held direction is let
    /// go.
    fn state_normal(&mut self)
        ensures
            final(self)@ == old(self)@.at_rest_in(CreatureState::ControllingShip),
    {
        self.directions = Vec::new();
        self.self_vel_x = 0;
        self.self_vel_y = 0;
        self.creature_state = CreatureState::ControllingShip;
    }
}

impl Moveable for Creature {
    open spec fn within_speed(&self) -> bool {
        self@.speed_clamped()
    }

    /// Records a movement key going down or coming up; other keys change
    /// nothing.
    fn handle_input(&mut self, state: &ButtonState, key: &Option<Key>)
        ensures
            final(self)@ == old(self)@.after_input(*state, *key),
    {
        match direction_of_key(key) {
            Some(dir) => toggle_direction(&mut self.directions, state, dir),
            None => {},
        }
    }

    /// Moves by the imposed velocity, then by the own one, whatever lies
    /// there, and takes a carried item along.
    fn update_position(&mut self)
        ensures
            final(self)@ == old(self)@.moved(),
    {
        self.x = sat_add(self.x, self.other_vel_x);
        self.y = sat_add(self.y, self.other_vel_y);
        self.x = sat_add(self.x, self.self_vel_x);
        self.y = sat_add(self.y, self.self_vel_y);
        self.carry_item();
    }

    /// Sets the own velocity from the held directions alone, so that no
    /// earlier velocity lingers; it never exceeds the speed.
    fn update_self_velocity(&mut self)
        ensures
            final(self)@ == old(self)@.with_velocity_from_directions(),
            final(self)@.speed_clamped(),
    {
        let east = has_direction(&self.directions, Direction::E);
        let west = has_direction(&self.directions, Direction::W);
        let south = has_direction(&self.directions, Direction::S);
        let north = has_direction(&self.directions, Direction::N);
        self.self_vel_x = axis_speed(east, west, self.speed);
        self.self_vel_y = axis_speed(south, north, self.speed);
    }
}

} // verus!
