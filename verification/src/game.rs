//! The game: one creature, one ship, one map, and the order in which they
//! are updated.
//!
//! The game owns everything and routes every input. Each update first lets
//! the ship carry the creature, then asks whether the creature's own step is
//! free in the frame the creature is in, the ship's deck or the world map,
//! and only then takes the step. The ship moves last.

use vstd::prelude::*;
use vstd::multiset::Multiset;
use crate::chance::draw_between;
use crate::creature::{Creature, CreatureState, CreatureView};
use crate::grid::{
    can_occupy, cell_under, centre_cell, footprint_clear, set_tile, tile_at, tile_under,
};
use crate::input::{intent_of, Button, ButtonState, InputIntent, Key};
use crate::item::{FoodType, InteractableType, Item, ItemType, ResourceType};
use crate::map::{WorldMap, WorldMapView};
use crate::misc::{clamp_to_i64, sat_add, saturate, Direction, Moveable};
use crate::ship::{Ship, ShipView};
use crate::tile::{Tile, TileType};

verus! {

/// What the game shows.
#[derive(Clone, Copy, Debug, PartialEq, Eq, Structural)]
pub enum GameState {
    Title,
    InGame,
    InMenu,
    GameOver,
}

/// The frame the creature is in: the ship's deck or the world map.
#[derive(Clone, Copy, Debug, PartialEq, Eq, Structural)]
pub enum PlayerLocation {
    OnShip,
    InWorld,
}

/// Place of the bisket among the item templates.
pub const PROTOTYPE_BISKET: usize = 0;

/// Place of the sword among the item templates.
pub const PROTOTYPE_SWORD: usize = 1;

/// Place of the grune among the item templates.
pub const PROTOTYPE_GRUNE: usize = 2;

/// Place of the logs among the item templates.
pub const PROTOTYPE_LOGS: usize = 3;

/// Number of updates between two items appearing near the creature.
pub const ITEM_GEN_RATE: u32 = 1000;

/// How far along the deck, in pixels, the creature is put when it comes back
/// to the ship.
pub const RETURN_OFFSET: i64 = 96;

/// The game: everything there is, owned in one place.
pub struct Game {
    /// The creature the player controls.
    pub player: Creature,
    /// The player's airship.
    pub ship: Ship,
    /// What the game shows.
    pub game_state: GameState,
    /// The frame the creature is in.
    pub player_location: PlayerLocation,
    /// The templates new items are made after.
    pub item_prototypes: Vec<Item>,
    /// The items that lie in the world.
    pub items_in_game: Vec<Item>,
    /// The world map.
    pub map: WorldMap,
    /// Updates since an item last appeared.
    pub updates_since_last_gen: u32,
    /// Width of the window in pixels.
    pub w_width: u32,
    /// Height of the window in pixels.
    pub w_height: u32,
}

/// A game as a mathematical value.
pub struct GameView {
    pub player: CreatureView,
    pub ship: ShipView,
    pub game_state: GameState,
    pub player_location: PlayerLocation,
    pub item_prototypes: Seq<Item>,
    pub items_in_game: Seq<Item>,
    pub map: WorldMapView,
    pub updates_since_last_gen: u32,
    pub w_width: u32,
    pub w_height: u32,
}

impl View for Game {
    type V = GameView;

    open spec fn view(&self) -> GameView {
        GameView {
            player: self.player@,
            ship: self.ship@,
            game_state: self.game_state,
            player_location: self.player_location,
            item_prototypes: self.item_prototypes@,
            items_in_game: self.items_in_game@,
            map: self.map@,
            updates_since_last_gen: self.updates_since_last_gen,
            w_width: self.w_width,
            w_height: self.w_height,
        }
    }
}

/// The item templates: a bisket, a sword, a grune and logs, in the order of
/// their places.
pub open spec fn item_templates() -> Seq<Item> {
    seq![
        Item {
            x: 0,
            y: 0,
            item_type: ItemType::Food(FoodType::Bisket),
            damage: 1,
            pickupable: true,
            x_vel: 0,
            y_vel: 0,
            weight: 10,
        },
        Item {
            x: 0,
            y: 0,
            item_type: ItemType::Interactable(InteractableType::Sword),
            damage: 10,
            pickupable: true,
            x_vel: 0,
            y_vel: 0,
            weight: 50,
        },
        Item {
            x: 0,
            y: 0,
            item_type: ItemType::Resource(ResourceType::Grune),
            damage: 1,
            pickupable: true,
            x_vel: 0,
            y_vel: 0,
            weight: 5,
        },
        Item {
            x: 0,
            y: 0,
            item_type: ItemType::Resource(ResourceType::Logs),
            damage: 5,
            pickupable: true,
            x_vel: 0,
            y_vel: 0,
            weight: 80,
        },
    ]
}

/// Builds the item templates.
pub fn generate_item_prototypes() -> (prototypes: Vec<Item>)
    ensures
        prototypes@ == item_templates(),
{
    let mut prototypes: Vec<Item> = Vec::new();
    prototypes.push(Item::new(ItemType::Food(FoodType::Bisket), 1, true, 10));
    prototypes.push(Item::new(ItemType::Interactable(InteractableType::Sword), 10, true, 50));
    prototypes.push(Item::new(ItemType::Resource(ResourceType::Grune), 1, true, 5));
    prototypes.push(Item::new(ItemType::Resource(ResourceType::Logs), 5, true, 80));
    assert(prototypes@ =~= item_templates());
    prototypes
}

/// Whether an item lies within one tile of the position `(x, y)` along both
/// axes.
pub open spec fn in_reach(item: Item, x: int, y: int) -> bool {
    &&& -32 < item.x - x < 32
    &&& -32 < item.y - y < 32
}

/// Whether an item is drawn when the window, `extent` pixels wide, shows the
/// world around the position `(x, y)`: the item lies less than half the
/// extent from the position along both axes, or up to a tile more to the
/// left.
pub open spec fn on_screen(item: Item, x: int, y: int, extent: int) -> bool {
    &&& -(extent / 2) - 32 < item.x - x < extent / 2
    &&& -(extent / 2) < item.y - y < extent / 2
}

/// Whether `index` is the place of the first item within reach.
pub open spec fn first_in_reach(items: Seq<Item>, x: int, y: int, index: int) -> bool {
    &&& 0 <= index < items.len()
    &&& in_reach(items[index], x, y)
    &&& forall|k: int| 0 <= k < index ==> !in_reach(#[trigger] items[k], x, y)
}

/// The place of the first item within reach, if any is.
pub open spec fn nearest_item(items: Seq<Item>, x: int, y: int) -> Option<int> {
    if exists|i: int| first_in_reach(items, x, y, i) {
        Some(choose|i: int| first_in_reach(items, x, y, i))
    } else {
        None
    }
}

/// At most one place is the first within reach.
pub proof fn lemma_first_in_reach_unique(items: Seq<Item>, x: int, y: int, i: int, j: int)
    requires
        first_in_reach(items, x, y, i),
        first_in_reach(items, x, y, j),
    ensures
        i == j,
{
    if i < j {
        assert(!in_reach(items[i], x, y));
    }
    if j < i {
        assert(!in_reach(items[j], x, y));
    }
}

impl GameView {
    /// The game's parts are well formed, and a tile is put aside under the
    /// portal exactly while the creature is away from the ship.
    pub open spec fn wf(self) -> bool {
        &&& self.map.wf()
        &&& self.ship.wf()
        &&& self.item_prototypes == item_templates()
        &&& (self.map.under_portal is Some <==> self.player_location == PlayerLocation::InWorld)
    }

    /// Whether the creature may stand at `(x, y)` of the world map: all four
    /// corners of its box lie on tiles of the map that can be walked on.
    pub open spec fn can_go_to(self, x: int, y: int) -> bool {
        can_occupy(self.map.tiles, x, y)
    }

    /// Whether the creature may stand at the world position `(x, y)` on the
    /// ship's deck. The position is taken relative to where the ship is
    /// heading, and all four corners of the creature's box must lie on tiles
    /// of the deck that can be walked on.
    pub open spec fn is_on_ship(self, x: int, y: int) -> bool {
        can_occupy(self.ship.tiles, x - self.ship.x_to_be(), y - self.ship.y_to_be())
    }

    /// Whether the creature may stand at the world position `(x, y)` in the
    /// given frame. The deck alone decides on the ship, the map alone in the
    /// world.
    pub open spec fn can_occupy(self, frame: PlayerLocation, x: int, y: int) -> bool {
        match frame {
            PlayerLocation::OnShip => self.is_on_ship(x, y),
            PlayerLocation::InWorld => self.can_go_to(x, y),
        }
    }

    /// The tile under the creature's centre in the given frame, or nothing
    /// where the frame's grid has no cell there.
    pub open spec fn tile_under_player(self, location: PlayerLocation) -> Option<Tile> {
        match location {
            PlayerLocation::OnShip => tile_at(
                self.ship.tiles,
                centre_cell(self.player.x as int, self.ship.x as int),
                centre_cell(self.player.y as int, self.ship.y as int),
            ),
            PlayerLocation::InWorld => tile_at(
                self.map.tiles,
                centre_cell(self.player.x as int, 0),
                centre_cell(self.player.y as int, 0),
            ),
        }
    }

    /// Whether an item appears at the next update.
    pub open spec fn spawn_due(self) -> bool {
        self.updates_since_last_gen > ITEM_GEN_RATE
    }

    /// The game after counting an update and, when one is due, letting a
    /// bisket appear at the offset `(dx, dy)` from the creature.
    pub open spec fn after_spawn(self, dx: i64, dy: i64) -> GameView {
        if self.spawn_due() {
            GameView {
                items_in_game: if PROTOTYPE_BISKET < self.item_prototypes.len() {
                    self.items_in_game.push(
                        Item {
                            x: saturate(self.player.x + dx),
                            y: saturate(self.player.y + dy),
                            ..self.item_prototypes[PROTOTYPE_BISKET as int]
                        },
                    )
                } else {
                    self.items_in_game
                },
                updates_since_last_gen: 1,
                ..self
            }
        } else {
            GameView {
                updates_since_last_gen: (self.updates_since_last_gen + 1) as u32,
                ..self
            }
        }
    }

    /// The game is over once the creature is dead.
    pub open spec fn after_death_check(self) -> GameView {
        if self.player.health == 0 {
            GameView { game_state: GameState::GameOver, ..self }
        } else {
            self
        }
    }

    /// The creature after trying its own step in the given frame: the step
    /// is taken, and the creature turns to where it moves, only if the
    /// position it leads to is free in that frame. Otherwise the creature
    /// stays.
    pub open spec fn player_stepped(self, frame: PlayerLocation) -> CreatureView {
        if self.can_occupy(frame, self.player.x_to_be() as int, self.player.y_to_be() as int) {
            self.player.stepped().turned()
        } else {
            self.player
        }
    }

    /// One step of the simulation, which happens only while the game is
    /// played. On the ship the creature takes over the ship's velocity and is
    /// carried by it, whatever lies there; then it tries its own step against
    /// the deck; then the ship moves. In the world the creature tries its own
    /// step against the map, and the ship rests.
    pub open spec fn moved(self) -> GameView {
        if self.game_state == GameState::InGame {
            match self.player_location {
                PlayerLocation::OnShip => {
                    let carried = GameView {
                        player: CreatureView {
                            other_vel_x: self.ship.self_vel_x,
                            other_vel_y: self.ship.self_vel_y,
                            ..self.player
                        }.carried(),
                        ..self
                    };
                    GameView {
                        player: carried.player_stepped(PlayerLocation::OnShip),
                        ship: self.ship.moved(),
                        ..self
                    }
                },
                PlayerLocation::InWorld => GameView {
                    player: self.player_stepped(PlayerLocation::InWorld),
                    ..self
                },
            }
        } else {
            self
        }
    }

    /// One update: an item may appear, the game ends if the creature is dead,
    /// and the simulation takes a step.
    pub open spec fn updated(self, dx: i64, dy: i64) -> GameView {
        self.after_spawn(dx, dy).after_death_check().moved()
    }
}

impl Game {
    /// A new game on the given map: the default creature on the default
    /// ship's deck, the title showing, no items in the world, and a window of
    /// 800 by 640 pixels.
    pub fn new(map: WorldMap) -> (game: Game)
        ensures
            game@.player == Creature::new_view(),
            game@.ship == Ship::default_view(),
            game@.game_state == GameState::Title,
            game@.player_location == PlayerLocation::OnShip,
            game@.item_prototypes == item_templates(),
            game@.items_in_game == Seq::<Item>::empty(),
            game@.map == map@,
            game@.updates_since_last_gen == 0,
            game@.w_width == 800,
            game@.w_height == 640,
            map@.wf() && map@.under_portal is None ==> game@.wf(),
    {
        Game {
            player: Creature::new(),
            ship: Ship::default_ship(),
            game_state: GameState::Title,
            player_location: PlayerLocation::OnShip,
            item_prototypes: generate_item_prototypes(),
            items_in_game: Vec::new(),
            map: map,
            updates_since_last_gen: 0,
            w_width: 800,
            w_height: 640,
        }
    }

    /// Whether the creature may stand at `(x, y)` of the world map.
    pub fn can_go_to(&self, x: i64, y: i64) -> (free: bool)
        ensures
            free == self@.can_go_to(x as int, y as int),
    {
        footprint_clear(&self.map.tiles, 0, 0, x, y)
    }

    /// Whether the creature may stand at the world position `(x, y)` on the
    /// ship's deck.
    pub fn is_on_ship(&self, x: i64, y: i64) -> (free: bool)
        ensures
            free == self@.is_on_ship(x as int, y as int),
    {
        let ship_x = self.ship.x_to_be_location();
        let ship_y = self.ship.y_to_be_location();
        footprint_clear(&self.ship.tiles, ship_x, ship_y, x, y)
    }

    /// Whether the creature may stand at the world position `(x, y)` in the
    /// given frame.
    pub fn can_occupy(&self, frame: PlayerLocation, x: i64, y: i64) -> (free: bool)
        ensures
            free == self@.can_occupy(frame, x as int, y as int),
    {
        match frame {
            PlayerLocation::OnShip => self.is_on_ship(x, y),
            PlayerLocation::InWorld => self.can_go_to(x, y),
        }
    }

    /// The tile under the creature's centre in the given frame.
    pub fn tile_under_player(&self, location: PlayerLocation) -> (tile: Option<Tile>)
        ensures
            tile == self@.tile_under_player(location),
    {
        match location {
            PlayerLocation::OnShip => tile_under(
                &self.ship.tiles,
                self.ship.x,
                self.ship.y,
                self.player.x,
                self.player.y,
            ),
            PlayerLocation::InWorld => tile_under(
                &self.map.tiles,
                0,
                0,
                self.player.x,
                self.player.y,
            ),
        }
    }

    /// Whether the item at place `index` of the world's items is drawn. No
    /// item is at a place beyond the last.
    pub fn item_on_screen(&self, index: usize) -> (shown: bool)
        ensures
            shown == (index < self.items_in_game@.len() && on_screen(
                self.items_in_game@[index as int],
                self.player.x as int,
                self.player.y as int,
                self.w_width as int,
            )),
    {
        if index >= self.items_in_game.len() {
            return false;
        }
        let half: i128 = (self.w_width / 2) as i128;
        let diff_x: i128 = self.items_in_game[index].x as i128 - self.player.x as i128;
        let diff_y: i128 = self.items_in_game[index].y as i128 - self.player.y as i128;
        diff_x > -half - 32 && diff_x < half && diff_y > -half && diff_y < half
    }

    /// One update, with the offset from the creature at which an item
    /// appears, should one be due.
    pub fn update_with(&mut self, dx: i64, dy: i64)
        ensures
            final(self)@ == old(self)@.updated(dx, dy),
    {
        if self.updates_since_last_gen > ITEM_GEN_RATE {
            self.updates_since_last_gen = 0;
            let item_x = sat_add(self.player.x, dx);
            let item_y = sat_add(self.player.y, dy);
            if PROTOTYPE_BISKET < self.item_prototypes.len() {
                let item = self.item_prototypes[PROTOTYPE_BISKET].generate_clone(item_x, item_y);
                self.items_in_game.push(item);
            }
        }
        self.updates_since_last_gen += 1;
        assert(self@ == old(self)@.after_spawn(dx, dy));
        if self.player.is_dead() {
            self.game_state = GameState::GameOver;
        }
        assert(self@ == old(self)@.after_spawn(dx, dy).after_death_check());
        if self.game_state == GameState::InGame {
            match self.player_location {
                PlayerLocation::OnShip => {
                    self.player.other_vel_x = self.ship.self_vel_x;
                    self.player.other_vel_y = self.ship.self_vel_y;
                    self.player.update_position_other();
                    let x = self.player.x_to_be_location();
                    let y = self.player.y_to_be_location();
                    if self.is_on_ship(x, y) {
                        self.player.update_position_self();
                        self.player.update_direction();
                    }
                    self.ship.update_position();
                },
                PlayerLocation::InWorld => {
                    let x = self.player.x_to_be_location();
                    let y = self.player.y_to_be_location();
                    if self.can_go_to(x, y) {
                        self.player.update_position_self();
                        self.player.update_direction();
                    }
                },
            }
        }
    }

    /// One update. When an item is due it appears within half a window of
    /// the creature, at an offset drawn at random.
    pub fn update(&mut self)
        ensures
            exists|dx: i64, dy: i64|
                {
                    &&& -(old(self).w_width / 2) <= dx <= old(self).w_width / 2
                    &&& -(old(self).w_height / 2) <= dy <= old(self).w_height / 2
                    &&& final(self)@ == old(self)@.updated(dx, dy)
                },
            !old(self)@.spawn_due() ==> final(self)@ == old(self)@.updated(0, 0),
    {
        let mut dx: i64 = 0;
        let mut dy: i64 = 0;
        if self.updates_since_last_gen > ITEM_GEN_RATE {
            let half_w: i64 = (self.w_width / 2) as i64;
            let half_h: i64 = (self.w_height / 2) as i64;
            if half_w > 0 {
                dx = draw_between(-half_w, half_w);
            }
            if half_h > 0 {
                dy = draw_between(-half_h, half_h);
            }
        }
        self.update_with(dx, dy);
    }
}

/// The key that stands for a direction.
pub open spec fn key_of(dir: Direction) -> Key {
    match dir {
        Direction::N => Key::W,
        Direction::W => Key::A,
        Direction::S => Key::S,
        Direction::E => Key::D,
    }
}

/// Executable form of [`key_of`].
pub fn key_for(dir: Direction) -> (key: Key)
    ensures
        key == key_of(dir),
{
    match dir {
        Direction::N => Key::W,
        Direction::W => Key::A,
        Direction::S => Key::S,
        Direction::E => Key::D,
    }
}

impl GameView {
    /// The game after the menu key: a press opens the menu from the title
    /// and from the game, and closes it into the game. A lost game stays
    /// lost, and a release does nothing.
    pub open spec fn after_open_menu(self, state: ButtonState) -> GameView {
        if state == ButtonState::Press {
            match self.game_state {
                GameState::Title | GameState::InGame => GameView {
                    game_state: GameState::InMenu,
                    ..self
                },
                GameState::InMenu => GameView { game_state: GameState::InGame, ..self },
                GameState::GameOver => self,
            }
        } else {
            self
        }
    }

    /// The game after a movement key, which counts only while the game is
    /// played. The key goes to the creature while it walks and to the ship
    /// while the creature steers; whoever gets it recomputes its velocity.
    pub open spec fn after_move(self, state: ButtonState, key: Option<Key>) -> GameView {
        if self.game_state == GameState::InGame {
            match self.player.creature_state {
                CreatureState::Normal => GameView {
                    player: self.player.after_input(state, key).with_velocity_from_directions(),
                    ..self
                },
                CreatureState::ControllingShip => GameView {
                    ship: self.ship.after_input(state, key).with_velocity_from_directions(),
                    ..self
                },
            }
        } else {
            self
        }
    }

    /// The game after the key for the creature's hands. On a press, a held
    /// item is handed over to the world; with empty hands the first item of
    /// the world within reach, if there is one, is handed over to the
    /// creature. An item has one owner before and after.
    pub open spec fn after_player_hands(self, state: ButtonState) -> GameView {
        if state == ButtonState::Press {
            match self.player.inventory {
                Some(item) => GameView {
                    player: CreatureView { inventory: None, ..self.player },
                    items_in_game: self.items_in_game.push(item),
                    ..self
                },
                None => match nearest_item(
                    self.items_in_game,
                    self.player.x as int,
                    self.player.y as int,
                ) {
                    Some(i) => GameView {
                        player: CreatureView {
                            inventory: Some(self.items_in_game[i]),
                            ..self.player
                        },
                        items_in_game: self.items_in_game.remove(i),
                        ..self
                    },
                    None => self,
                },
            }
        } else {
            self
        }
    }

    /// The game with the creature in the other frame, walking. A creature
    /// that steered leaves the helm as it always does: stopped and holding no
    /// direction.
    pub open spec fn location_changed(self) -> GameView {
        GameView {
            player_location: match self.player_location {
                PlayerLocation::OnShip => PlayerLocation::InWorld,
                PlayerLocation::InWorld => PlayerLocation::OnShip,
            },
            player: self.player.released(),
            ..self
        }
    }

    /// Whether the creature, on the ship, can leave through the portal: the
    /// map has a tile under the creature's centre that can be walked on, and
    /// no tile is put aside yet.
    pub open spec fn can_depart(self) -> bool {
        &&& self.player_location == PlayerLocation::OnShip
        &&& self.tile_under_player(PlayerLocation::InWorld) matches Some(tile) && tile.passable
        &&& self.map.under_portal is None
    }

    /// The game after the creature left the ship through the portal: the
    /// creature stands in the world, on the corner of the cell its centre was
    /// over, and the portal has opened over that cell.
    pub open spec fn departed(self) -> GameView {
        let col = centre_cell(self.player.x as int, 0);
        let row = centre_cell(self.player.y as int, 0);
        let moved = self.location_changed();
        GameView {
            player: CreatureView { x: saturate(col * 32), y: saturate(row * 32), ..moved.player },
            map: self.map.portal_opened(col, row),
            ..moved
        }
    }

    /// Whether the creature, in the world, can come back through the portal:
    /// it stands on a cell of the map, the ship has a tile under the
    /// creature's centre that can be walked on, and a tile is put aside.
    pub open spec fn can_return(self) -> bool {
        &&& self.player_location == PlayerLocation::InWorld
        &&& self.tile_under_player(PlayerLocation::InWorld) is Some
        &&& self.tile_under_player(PlayerLocation::OnShip) matches Some(tile) && tile.passable
        &&& self.map.under_portal is Some
    }

    /// The game after the creature came back through the portal: the
    /// creature stands on the deck, three tiles along from the ship's
    /// origin, and the portal has closed over the cell the creature stood
    /// on.
    pub open spec fn returned(self) -> GameView {
        let col = centre_cell(self.player.x as int, 0);
        let row = centre_cell(self.player.y as int, 0);
        let moved = self.location_changed();
        GameView {
            player: CreatureView {
                x: saturate(self.ship.x + RETURN_OFFSET),
                y: self.ship.y,
                ..moved.player
            },
            map: self.map.portal_closed(col, row),
            ..moved
        }
    }

    /// The game after the creature used the portal it stands on. Where the
    /// other side is blocked or missing nothing happens, and neither does it
    /// where a tile is already put aside on leaving or none is on coming
    /// back: the one tile put aside is never overwritten or made up.
    pub open spec fn through_portal(self) -> GameView {
        if self.can_depart() {
            self.departed()
        } else if self.can_return() {
            self.returned()
        } else {
            self
        }
    }

    /// The game after the creature took or left the helm: the ship lets go
    /// of every held direction.
    pub open spec fn helm_toggled(self) -> GameView {
        GameView {
            player: self.player.control_toggled(),
            ship: ShipView { directions: Seq::empty(), ..self.ship },
            ..self
        }
    }

    /// The game after the key for taking and leaving the helm, which works
    /// on a press, while the game is played and the creature stands on the
    /// wheel.
    pub open spec fn after_toggle_control(self, state: ButtonState) -> GameView {
        if self.game_state == GameState::InGame && state == ButtonState::Press {
            match self.tile_under_player(self.player_location) {
                Some(tile) => if tile.tile_type == TileType::Wheel {
                    self.helm_toggled()
                } else {
                    self
                },
                None => self,
            }
        } else {
            self
        }
    }

    /// The game after the action key, which works on a press while the game
    /// is played. What happens depends on the tile under the creature: on the
    /// portal the creature goes through it, on the wheel it takes or leaves
    /// the helm, anywhere else it uses what it holds.
    pub open spec fn after_action(self, state: ButtonState) -> GameView {
        if self.game_state == GameState::InGame && state == ButtonState::Press {
            match self.tile_under_player(self.player_location) {
                Some(tile) => match tile.tile_type {
                    TileType::Portal => self.through_portal(),
                    TileType::Wheel => self.helm_toggled(),
                    _ => GameView { player: self.player.after_use(), ..self },
                },
                None => GameView { player: self.player.after_use(), ..self },
            }
        } else {
            self
        }
    }

    /// The game after a hit on the creature.
    pub open spec fn after_damage(self, damage: u32) -> GameView {
        GameView { player: self.player.damaged(damage), ..self }
    }

    /// The game after what the player asked for.
    pub open spec fn after_intent(self, intent: InputIntent) -> GameView {
        match intent {
            InputIntent::MoveStart(dir) => self.after_move(ButtonState::Press, Some(key_of(dir))),
            InputIntent::MoveStop(dir) => self.after_move(
                ButtonState::Release,
                Some(key_of(dir)),
            ),
            InputIntent::ToggleMenu => self.after_open_menu(ButtonState::Press),
            InputIntent::ContextAction => self.after_action(ButtonState::Press),
            InputIntent::ToggleControl => self.after_toggle_control(ButtonState::Press),
            InputIntent::TakeDamage(damage) => self.after_damage(damage),
            InputIntent::PickupOrDrop => self.after_player_hands(ButtonState::Press),
        }
    }

    /// The game after a button event: `Return` and `Tab` are the menu keys,
    /// `W`, `A`, `S` and `D` move, `E` acts, a press of `L` costs one point
    /// of health, and `Space` is the key for the creature's hands. Nothing
    /// else has an effect.
    pub open spec fn after_input(self, state: ButtonState, button: Button) -> GameView {
        match button {
            Button::Keyboard(key) => match key {
                Key::Return | Key::Tab => self.after_open_menu(state),
                Key::W | Key::A | Key::S | Key::D => self.after_move(state, Some(key)),
                Key::E => self.after_action(state),
                Key::L => if state == ButtonState::Press {
                    self.after_damage(1)
                } else {
                    self
                },
                Key::Space => self.after_player_hands(state),
                Key::Other => self,
            },
            Button::Other => self,
        }
    }

    /// The game as play begins: the ship lies at the middle of the map, the
    /// creature at the middle of the deck, and one bisket four tiles along
    /// both axes from the ship's origin.
    pub open spec fn started(self) -> GameView {
        let columns: int = self.map.tiles.len() as int;
        let rows: int = if columns > 0 {
            self.map.tiles[0].len() as int
        } else {
            0
        };
        let ship_x = saturate(columns * 16);
        let ship_y = saturate(rows * 16);
        GameView {
            ship: ShipView { x: ship_x, y: ship_y, ..self.ship },
            player: CreatureView {
                x: saturate(ship_x + self.ship.width * 16),
                y: saturate(ship_y + self.ship.height * 16),
                ..self.player
            },
            items_in_game: if PROTOTYPE_BISKET < self.item_prototypes.len() {
                self.items_in_game.push(
                    Item {
                        x: saturate(ship_x + 128),
                        y: saturate(ship_y + 128),
                        ..self.item_prototypes[PROTOTYPE_BISKET as int]
                    },
                )
            } else {
                self.items_in_game
            },
            ..self
        }
    }
}

/// Finds the first item within one tile of `(x, y)`.
fn find_in_reach(items: &Vec<Item>, x: i64, y: i64) -> (found: Option<usize>)
    ensures
        match found {
            Some(i) => nearest_item(items@, x as int, y as int) == Some(i as int),
            None => nearest_item(items@, x as int, y as int) is None,
        },
{
    let mut i: usize = 0;
    while i < items.len()
        invariant
            i <= items.len(),
            forall|k: int| 0 <= k < i ==> !in_reach(#[trigger] items@[k], x as int, y as int),
        decreases items.len() - i,
    {
        let diff_x: i128 = items[i].x as i128 - x as i128;
        let diff_y: i128 = items[i].y as i128 - y as i128;
        if diff_x < 32 && diff_x > -32 && diff_y < 32 && diff_y > -32 {
            proof {
                assert(first_in_reach(items@, x as int, y as int, i as int));
                let chosen = choose|j: int| first_in_reach(items@, x as int, y as int, j);
                lemma_first_in_reach_unique(items@, x as int, y as int, i as int, chosen);
            }
            return Some(i);
        }
        i += 1;
    }
    None
}

impl Game {
    /// Sets the game up for play: puts the ship at the middle of the map and
    /// the creature at the middle of the deck, and lays out one bisket.
    pub fn start(&mut self)
        ensures
            final(self)@ == old(self)@.started(),
    {
        let columns = self.map.tiles.len();
        let rows = if columns > 0 {
            self.map.tiles[0].len()
        } else {
            0
        };
        self.ship.x = clamp_to_i64(columns as i128 * 16);
        self.ship.y = clamp_to_i64(rows as i128 * 16);
        self.player.x = clamp_to_i64(self.ship.x as i128 + self.ship.width as i128 * 16);
        self.player.y = clamp_to_i64(self.ship.y as i128 + self.ship.height as i128 * 16);
        if PROTOTYPE_BISKET < self.item_prototypes.len() {
            let item = self.item_prototypes[PROTOTYPE_BISKET].generate_clone(
                sat_add(self.ship.x, 128),
                sat_add(self.ship.y, 128),
            );
            self.items_in_game.push(item);
        }
    }

    /// Routes a button event of the host to what it stands for.
    pub fn handle_input(&mut self, state: &ButtonState, button: &Button)
        ensures
            final(self)@ == old(self)@.after_input(*state, *button),
    {
        match *button {
            Button::Keyboard(key) => match key {
                Key::Return | Key::Tab => self.execute_open_menu(state),
                Key::W | Key::A | Key::S | Key::D => self.execute_move(state, &Some(key)),
                Key::E => self.execute_action(state),
                Key::L => {
                    if *state == ButtonState::Press {
                        self.player.take_damage(1)
                    }
                },
                Key::Space => {
                    self.execute_player_hands(state);
                },
                Key::Other => {},
            },
            Button::Other => {},
        }
    }

    /// Carries out what the player asked for.
    pub fn handle_intent(&mut self, intent: InputIntent)
        ensures
            final(self)@ == old(self)@.after_intent(intent),
    {
        match intent {
            InputIntent::MoveStart(dir) => self.execute_move(
                &ButtonState::Press,
                &Some(key_for(dir)),
            ),
            InputIntent::MoveStop(dir) => self.execute_move(
                &ButtonState::Release,
                &Some(key_for(dir)),
            ),
            InputIntent::ToggleMenu => self.execute_open_menu(&ButtonState::Press),
            InputIntent::ContextAction => self.execute_action(&ButtonState::Press),
            InputIntent::ToggleControl => self.execute_toggle_control(&ButtonState::Press),
            InputIntent::TakeDamage(damage) => self.player.take_damage(damage),
            InputIntent::PickupOrDrop => self.execute_player_hands(&ButtonState::Press),
        }
    }

    /// Puts the creature into the other frame, walking. A creature that
    /// steered leaves the helm, stopped and holding no direction.
    pub fn change_player_location(&mut self)
        ensures
            final(self)@ == old(self)@.location_changed(),
    {
        self.player_location = match self.player_location {
            PlayerLocation::OnShip => PlayerLocation::InWorld,
            PlayerLocation::InWorld => PlayerLocation::OnShip,
        };
        self.player.leave_helm();
    }

    /// Picks up the first item within reach, or drops the one held.
    pub fn execute_player_hands(&mut self, state: &ButtonState)
        ensures
            final(self)@ == old(self)@.after_player_hands(*state),
    {
        if *state == ButtonState::Press {
            match self.player.drop_item() {
                Some(item) => {
                    self.items_in_game.push(item);
                },
                None => {
                    match find_in_reach(&self.items_in_game, self.player.x, self.player.y) {
                        Some(place) => {
                            let item = self.items_in_game.remove(place);
                            self.player.pickup_item(item);
                        },
                        None => {},
                    }
                },
            }
        }
    }

    /// Opens the menu, or closes it.
    pub fn execute_open_menu(&mut self, state: &ButtonState)
        ensures
            final(self)@ == old(self)@.after_open_menu(*state),
    {
        if *state == ButtonState::Press {
            match self.game_state {
                GameState::Title => {
                    self.game_state = GameState::InMenu;
                },
                GameState::InGame => {
                    self.game_state = GameState::InMenu;
                },
                GameState::InMenu => {
                    self.game_state = GameState::InGame;
                },
                GameState::GameOver => {},
            }
        }
    }

    /// Hands a movement key to the creature or, while the creature steers,
    /// to the ship.
    pub fn execute_move(&mut self, state: &ButtonState, key: &Option<Key>)
        ensures
            final(self)@ == old(self)@.after_move(*state, *key),
    {
        if self.game_state == GameState::InGame {
            match self.player.creature_state {
                CreatureState::Normal => {
                    self.player.handle_input(state, key);
                    self.player.update_self_velocity();
                },
                CreatureState::ControllingShip => {
                    self.ship.handle_input(state, key);
                    self.ship.update_self_velocity();
                },
            }
        }
    }

    /// Takes or leaves the helm if the creature stands on the wheel.
    pub fn execute_toggle_control(&mut self, state: &ButtonState)
        ensures
            final(self)@ == old(self)@.after_toggle_control(*state),
    {
        if self.game_state == GameState::InGame && *state == ButtonState::Press {
            match self.tile_under_player(self.player_location) {
                Some(tile) => {
                    if tile.tile_type == TileType::Wheel {
                        self.player.change_control_state();
                        self.ship.reset_dir();
                    }
                },
                None => {},
            }
        }
    }

    /// Goes through the portal the creature stands on, if the other side is
    /// free.
    fn use_portal(&mut self)
        requires
            old(self)@.tile_under_player(old(self).player_location) is Some,
        ensures
            final(self)@ == old(self)@.through_portal(),
    {
        match self.player_location {
            PlayerLocation::OnShip => {
                match cell_under(&self.map.tiles, 0, 0, self.player.x, self.player.y) {
                    Some((col, row)) => {
                        let tile = self.map.tiles[col][row];
                        if tile.passable && self.map.under_portal.is_none() {
                            self.change_player_location();
                            self.player.x = clamp_to_i64(col as i128 * 32);
                            self.player.y = clamp_to_i64(row as i128 * 32);
                            self.map.under_portal = Some(tile);
                            set_tile(&mut self.map.tiles, col, row, Tile::new(TileType::Portal));
                        }
                    },
                    None => {},
                }
            },
            PlayerLocation::InWorld => {
                match self.tile_under_player(PlayerLocation::OnShip) {
                    Some(tile) => {
                        if tile.passable {
                            match (
                                self.map.under_portal,
                                cell_under(&self.map.tiles, 0, 0, self.player.x, self.player.y),
                            ) {
                                (Some(stashed), Some((col, row))) => {
                                    self.change_player_location();
                                    self.player.x = sat_add(self.ship.x, RETURN_OFFSET);
                                    self.player.y = self.ship.y;
                                    set_tile(&mut self.map.tiles, col, row, stashed);
                                    self.map.under_portal = None;
                                },
                                _ => {},
                            }
                        }
                    },
                    None => {},
                }
            },
        }
    }

    /// Acts on the tile under the creature: goes through the portal, takes
    /// or leaves the helm, or uses the item held.
    pub fn execute_action(&mut self, state: &ButtonState)
        ensures
            final(self)@ == old(self)@.after_action(*state),
    {
        if self.game_state == GameState::InGame {
            if *state == ButtonState::Press {
                match self.tile_under_player(self.player_location) {
                    Some(t) => match t.tile_type {
                        TileType::Portal => self.use_portal(),
                        TileType::Wheel => {
                            self.player.change_control_state();
                            self.ship.reset_dir();
                        },
                        _ => self.player.use_item(),
                    },
                    None => {
                        self.player.use_item();
                    },
                }
            }
        }
    }
}

/// On the ship the map has no say in where the creature may step: two games
/// that differ in their maps alone take the same step, each keeping its map.
pub proof fn lemma_deck_alone_decides_on_ship(game: GameView, other_map: WorldMapView)
    requires
        game.player_location == PlayerLocation::OnShip,
    ensures
        forall|x: int, y: int|
            game.can_occupy(PlayerLocation::OnShip, x, y) == (GameView {
                map: other_map,
                ..game
            }).can_occupy(PlayerLocation::OnShip, x, y),
        (GameView { map: other_map, ..game }).moved() == (GameView {
            map: other_map,
            ..game.moved()
        }),
{
}

/// In the world the deck has no say in where the creature may step: two
/// games that differ in their ships alone take the same step, each keeping
/// its ship.
pub proof fn lemma_map_alone_decides_in_world(game: GameView, other_ship: ShipView)
    requires
        game.player_location == PlayerLocation::InWorld,
    ensures
        forall|x: int, y: int|
            game.can_occupy(PlayerLocation::InWorld, x, y) == (GameView {
                ship: other_ship,
                ..game
            }).can_occupy(PlayerLocation::InWorld, x, y),
        (GameView { ship: other_ship, ..game }).moved() == (GameView {
            ship: other_ship,
            ..game.moved()
        }),
{
}

/// A creature that leaves through the portal and comes back finds the map
/// restored. Whatever happened while it was away, if the tile put aside is
/// still the one from its departure and it comes back over the cell it left
/// to, that cell gets its tile back, type and passability and texture, and
/// nothing is put aside any more. If the rest of the map was left alone too,
/// the whole map is as it was before the departure.
pub proof fn lemma_portal_round_trip(before: GameView, away: GameView)
    requires
        before.can_depart(),
        away.can_return(),
        away.map.under_portal == before.departed().map.under_portal,
        centre_cell(away.player.x as int, 0) == centre_cell(before.player.x as int, 0),
        centre_cell(away.player.y as int, 0) == centre_cell(before.player.y as int, 0),
    ensures
        tile_at(
            away.returned().map.tiles,
            centre_cell(before.player.x as int, 0),
            centre_cell(before.player.y as int, 0),
        ) == before.tile_under_player(PlayerLocation::InWorld),
        away.returned().map.under_portal is None,
        away.returned().player_location == PlayerLocation::OnShip,
        away.map == before.departed().map ==> away.returned().map == before.map,
{
    let col = centre_cell(before.player.x as int, 0);
    let row = centre_cell(before.player.y as int, 0);
    if away.map == before.departed().map {
        crate::map::lemma_portal_there_and_back(before.map, col, row);
    }
}

/// Leaving through the portal and coming straight back restores the map.
pub proof fn lemma_portal_there_and_back_at_once(before: GameView)
    requires
        before.can_depart(),
        before.departed().can_return(),
    ensures
        before.departed().returned().map == before.map,
        before.departed().returned().player_location == before.player_location,
{
    let away = before.departed();
    let col = centre_cell(before.player.x as int, 0);
    let row = centre_cell(before.player.y as int, 0);
    assert(0 <= col < before.map.tiles.len());
    assert(0 <= row < before.map.tiles[col].len());
    assert(centre_cell(saturate(col * 32) as int, 0) == col);
    assert(centre_cell(saturate(row * 32) as int, 0) == row);
    lemma_portal_round_trip(before, away);
}

/// Taking the helm stops the creature: whatever its velocity and held
/// directions were, after the action key on the wheel the creature steers,
/// its own velocity is zero and it holds no direction.
pub proof fn lemma_taking_helm_stops_creature(game: GameView)
    requires
        game.game_state == GameState::InGame,
        game.player.creature_state == CreatureState::Normal,
        game.tile_under_player(game.player_location) matches Some(tile) && tile.tile_type
            == TileType::Wheel,
    ensures
        game.after_action(ButtonState::Press).player.creature_state
            == CreatureState::ControllingShip,
        game.after_action(ButtonState::Press).player.self_vel_x == 0,
        game.after_action(ButtonState::Press).player.self_vel_y == 0,
        game.after_action(ButtonState::Press).player.directions == Seq::<Direction>::empty(),
        game.after_toggle_control(ButtonState::Press) == game.after_action(ButtonState::Press),
{
}

/// Leaving the helm stops the creature as taking it does: after the action
/// key on the wheel a creature that steered walks, its own velocity is zero
/// and it holds no direction, whatever it held before.
pub proof fn lemma_leaving_helm_stops_creature(game: GameView)
    requires
        game.game_state == GameState::InGame,
        game.player.creature_state == CreatureState::ControllingShip,
        game.tile_under_player(game.player_location) matches Some(tile) && tile.tile_type
            == TileType::Wheel,
    ensures
        game.after_action(ButtonState::Press).player.creature_state == CreatureState::Normal,
        game.after_action(ButtonState::Press).player.self_vel_x == 0,
        game.after_action(ButtonState::Press).player.self_vel_y == 0,
        game.after_action(ButtonState::Press).player.directions == Seq::<Direction>::empty(),
        game.after_toggle_control(ButtonState::Press) == game.after_action(ButtonState::Press),
{
}

/// No state is carried over the helm: whenever a button event or an intent
/// changes who is in control, be it at the wheel or through the portal, the
/// creature is at rest afterwards and holds no direction.
pub proof fn lemma_change_of_control_stops_creature(
    game: GameView,
    state: ButtonState,
    button: Button,
    intent: InputIntent,
)
    ensures
        game.after_input(state, button).player.creature_state != game.player.creature_state ==> {
            &&& game.after_input(state, button).player.self_vel_x == 0
            &&& game.after_input(state, button).player.self_vel_y == 0
            &&& game.after_input(state, button).player.directions == Seq::<Direction>::empty()
        },
        game.after_intent(intent).player.creature_state != game.player.creature_state ==> {
            &&& game.after_intent(intent).player.self_vel_x == 0
            &&& game.after_intent(intent).player.self_vel_y == 0
            &&& game.after_intent(intent).player.directions == Seq::<Direction>::empty()
        },
{
}

/// No input lets a velocity exceed its owner's speed: if creature and ship
/// kept within their speeds before a button event, they do so after it.
pub proof fn lemma_input_keeps_speed(game: GameView, state: ButtonState, button: Button)
    requires
        game.player.speed_clamped(),
        game.ship.speed_clamped(),
    ensures
        game.after_input(state, button).player.speed_clamped(),
        game.after_input(state, button).ship.speed_clamped(),
{
}

/// A movement key sets the velocity of whoever gets it within that one's
/// speed, whatever the velocity was before.
pub proof fn lemma_move_clamps_speed(game: GameView, state: ButtonState, key: Option<Key>)
    requires
        game.game_state == GameState::InGame,
    ensures
        game.player.creature_state == CreatureState::Normal ==> game.after_move(
            state,
            key,
        ).player.speed_clamped(),
        game.player.creature_state == CreatureState::ControllingShip ==> game.after_move(
            state,
            key,
        ).ship.speed_clamped(),
{
}

/// A button event does what the intent behind it asks for, and nothing where
/// there is no intent behind it.
pub proof fn lemma_input_is_intent(game: GameView, state: ButtonState, button: Button)
    ensures
        game.after_input(state, button) == match intent_of(state, button) {
            Some(intent) => game.after_intent(intent),
            None => game,
        },
{
}

/// A well-formed game stays well formed under every update, every button
/// event and the set-up for play.
pub proof fn lemma_game_stays_wf(game: GameView)
    requires
        game.wf(),
    ensures
        forall|dx: i64, dy: i64| (#[trigger] game.updated(dx, dy)).wf(),
        forall|state: ButtonState, button: Button| (#[trigger] game.after_input(state, button)).wf(),
        forall|intent: InputIntent| (#[trigger] game.after_intent(intent)).wf(),
        game.started().wf(),
{
    assert forall|state: ButtonState| (#[trigger] game.after_action(state)).wf() by {
        lemma_portal_keeps_wf(game);
    }
    assert forall|state: ButtonState, button: Button|
        (#[trigger] game.after_input(state, button)).wf() by {
        assert(game.after_action(state).wf());
    }
    assert forall|intent: InputIntent| (#[trigger] game.after_intent(intent)).wf() by {
        assert(game.after_action(ButtonState::Press).wf());
    }
}

/// Going through the portal keeps a well-formed game well formed: the map
/// keeps its shape, and a tile is put aside exactly while the creature is
/// away.
pub proof fn lemma_portal_keeps_wf(game: GameView)
    requires
        game.wf(),
    ensures
        game.through_portal().wf(),
{
    let col = centre_cell(game.player.x as int, 0);
    let row = centre_cell(game.player.y as int, 0);
    if game.can_depart() {
        crate::map::lemma_with_tile_keeps_wf(
            game.map,
            col,
            row,
            Tile { tile_type: TileType::Portal, passable: true, texture: false },
        );
    } else if game.can_return() {
        crate::map::lemma_with_tile_keeps_wf(game.map, col, row, game.map.under_portal->0);
    }
}

/// Every item of the game, whoever owns it: those that lie in the world and
/// the one the creature holds.
pub open spec fn all_items(game: GameView) -> Multiset<Item> {
    match game.player.inventory {
        Some(item) => game.items_in_game.to_multiset().insert(item),
        None => game.items_in_game.to_multiset(),
    }
}

/// Picking up and dropping hand an item over from one owner to the other: no
/// item is lost, none is made, and none has two owners.
pub proof fn lemma_hands_keep_every_item(game: GameView, state: ButtonState)
    ensures
        all_items(game.after_player_hands(state)) == all_items(game),
{
    broadcast use vstd::multiset::group_multiset_axioms;

    let after = game.after_player_hands(state);
    if state == ButtonState::Press {
        match game.player.inventory {
            Some(item) => {
                vstd::seq_lib::to_multiset_build(game.items_in_game, item);
            },
            None => {
                match nearest_item(game.items_in_game, game.player.x as int, game.player.y as int) {
                    Some(i) => {
                        assert(first_in_reach(
                            game.items_in_game,
                            game.player.x as int,
                            game.player.y as int,
                            i,
                        ));
                        vstd::seq_lib::to_multiset_remove(game.items_in_game, i);
                        vstd::seq_lib::to_multiset_contains(
                            game.items_in_game,
                            game.items_in_game[i],
                        );
                        assert(game.items_in_game.to_multiset().count(game.items_in_game[i]) > 0);
                        assert(all_items(after) =~= all_items(game));
                    },
                    None => {},
                }
            },
        }
    }
}

} // verus!
