//! The airship: a deck of tiles that moves through the world.
//!
//! The ship keeps its deck, its position and its own velocity. While the
//! creature stands at the helm the movement keys steer the ship.

use vstd::prelude::*;
use crate::grid::{cells, fits, tile_at, tile_in, tiles_wf};
use crate::input::{direction_of_key, key_direction, ButtonState, Key};
use crate::map::Sprite;
use crate::misc::{
    axis_speed, axis_velocity, has_direction, sat_add, saturate, toggle_direction, toggled,
    Direction, Moveable,
};
use crate::tile::{Tile, TileType};

verus! {

/// The ship: its deck, where it is and how it moves.
pub struct Ship {
    /// The deck, by columns: `tiles[col][row]`.
    pub tiles: Vec<Vec<Tile>>,
    /// Horizontal position of the deck's origin in world pixels.
    pub x: i64,
    /// Vertical position of the deck's origin in world pixels.
    pub y: i64,
    /// Horizontal velocity.
    pub self_vel_x: i64,
    /// Vertical velocity.
    pub self_vel_y: i64,
    /// The directions whose keys are held while the ship is steered.
    pub directions: Vec<Direction>,
    /// The greatest speed along either axis.
    pub speed: u32,
    /// Number of columns of the deck.
    pub width: usize,
    /// Number of rows of the deck.
    pub height: usize,
}

/// A ship as a mathematical value.
pub struct ShipView {
    pub tiles: Seq<Seq<Tile>>,
    pub x: i64,
    pub y: i64,
    pub self_vel_x: i64,
    pub self_vel_y: i64,
    pub directions: Seq<Direction>,
    pub speed: u32,
    pub width: usize,
    pub height: usize,
}

impl View for Ship {
    type V = ShipView;

    open spec fn view(&self) -> ShipView {
        ShipView {
            tiles: cells(self.tiles),
            x: self.x,
            y: self.y,
            self_vel_x: self.self_vel_x,
            self_vel_y: self.self_vel_y,
            directions: self.directions@,
            speed: self.speed,
            width: self.width,
            height: self.height,
        }
    }
}

/// Why a deck plan was turned down.
#[derive(Clone, Copy, Debug, PartialEq, Eq, Structural)]
pub enum ShipError {
    /// The plan has no rows, or its first row has no cells.
    EmptyPlan,
    /// Some row is not as long as the first.
    RaggedRows,
}

impl ShipError {
    /// The error in words.
    pub open spec fn text(self) -> Seq<char> {
        match self {
            ShipError::EmptyPlan => "the deck plan has no cells"@,
            ShipError::RaggedRows => "the rows of the deck plan differ in length"@,
        }
    }

    /// The error in words, as an owned string.
    pub fn describe(&self) -> (message: String)
        ensures
            message@ == self.text(),
    {
        match self {
            ShipError::EmptyPlan => "the deck plan has no cells".to_string(),
            ShipError::RaggedRows => "the rows of the deck plan differ in length".to_string(),
        }
    }
}

/// The type of tile a number of a deck plan stands for: 0 is open air, 1 a
/// wooden floor, 2 the wheel and 3 the portal. Any other number is open air
/// too.
pub open spec fn tile_type_of_code(code: i32) -> TileType {
    if code == 1 {
        TileType::WoodFloor
    } else if code == 2 {
        TileType::Wheel
    } else if code == 3 {
        TileType::Portal
    } else {
        TileType::Air
    }
}

/// Executable form of [`tile_type_of_code`].
pub fn tile_type_for(code: i32) -> (tile_type: TileType)
    ensures
        tile_type == tile_type_of_code(code),
{
    match code {
        1 => TileType::WoodFloor,
        2 => TileType::Wheel,
        3 => TileType::Portal,
        _ => TileType::Air,
    }
}

/// The images a tile of the deck is drawn with, the lower first: planks for
/// every floor, with the wheel or the portal on top of them where they
/// stand. Open air is not drawn.
pub open spec fn deck_layers(tile_type: TileType) -> (Option<Sprite>, Option<Sprite>) {
    match tile_type {
        TileType::WoodFloor => (Some(Sprite::WoodFloor), None),
        TileType::Wheel => (Some(Sprite::WoodFloor), Some(Sprite::Wheel)),
        TileType::Portal => (Some(Sprite::WoodFloor), Some(Sprite::Portal)),
        _ => (None, None),
    }
}

/// Executable form of [`deck_layers`].
pub fn deck_sprites(tile_type: TileType) -> (layers: (Option<Sprite>, Option<Sprite>))
    ensures
        layers == deck_layers(tile_type),
{
    match tile_type {
        TileType::WoodFloor => (Some(Sprite::WoodFloor), None),
        TileType::Wheel => (Some(Sprite::WoodFloor), Some(Sprite::Wheel)),
        TileType::Portal => (Some(Sprite::WoodFloor), Some(Sprite::Portal)),
        _ => (None, None),
    }
}

/// The plan has at least one cell.
pub open spec fn plan_nonempty(rows: Seq<Seq<i32>>) -> bool {
    rows.len() > 0 && rows[0].len() > 0
}

/// Every row of the plan is as long as the first.
pub open spec fn plan_even(rows: Seq<Seq<i32>>) -> bool {
    forall|row: int| 0 <= row < rows.len() ==> (#[trigger] rows[row]).len() == rows[0].len()
}

/// The deck a plan describes. The plan is written row by row, the deck is
/// stored column by column: the cell `(col, row)` of the deck is the number at
/// place `col` of the plan's row `row`.
pub open spec fn deck_of(rows: Seq<Seq<i32>>) -> Seq<Seq<Tile>> {
    Seq::new(
        rows[0].len(),
        |col: int|
            Seq::new(
                rows.len(),
                |row: int|
                    Tile {
                        tile_type: tile_type_of_code(rows[row][col]),
                        passable: crate::tile::classify(tile_type_of_code(rows[row][col])),
                        texture: false,
                    },
            ),
    )
}

impl ShipView {
    /// The deck has no holes, its recorded size is its real one, and every
    /// tile has the passability of its type.
    pub open spec fn wf(self) -> bool {
        &&& fits(self.tiles, self.width as int, self.height as int)
        &&& self.width > 0
        &&& self.height > 0
        &&& tiles_wf(self.tiles)
    }

    /// No velocity exceeds the speed along either axis.
    pub open spec fn speed_clamped(self) -> bool {
        &&& -(self.speed as int) <= self.self_vel_x <= self.speed as int
        &&& -(self.speed as int) <= self.self_vel_y <= self.speed as int
    }

    /// The position the ship's velocity would take it to.
    pub open spec fn x_to_be(self) -> i64 {
        saturate(self.x + self.self_vel_x)
    }

    /// See [`ShipView::x_to_be`].
    pub open spec fn y_to_be(self) -> i64 {
        saturate(self.y + self.self_vel_y)
    }

    /// The ship after moving by its velocity.
    pub open spec fn moved(self) -> ShipView {
        ShipView { x: self.x_to_be(), y: self.y_to_be(), ..self }
    }

    /// The ship after a movement key event at the helm.
    pub open spec fn after_input(self, state: ButtonState, key: Option<Key>) -> ShipView {
        match key_direction(key) {
            Some(dir) => ShipView { directions: toggled(self.directions, state, dir), ..self },
            None => self,
        }
    }

    /// The ship with its velocity set from the held directions: along each
    /// axis the full speed towards a held direction, nothing where both or
    /// neither are held.
    pub open spec fn with_velocity_from_directions(self) -> ShipView {
        ShipView {
            self_vel_x: axis_velocity(
                self.directions.contains(Direction::E),
                self.directions.contains(Direction::W),
                self.speed,
            ),
            self_vel_y: axis_velocity(
                self.directions.contains(Direction::S),
                self.directions.contains(Direction::N),
                self.speed,
            ),
            ..self
        }
    }
}

/// Checks that a deck plan has a cell and that its rows are of one length.
fn check_plan(plan: &Vec<Vec<i32>>) -> (checked: Result<(), ShipError>)
    ensures
        checked is Ok <==> plan_nonempty(cells(*plan)) && plan_even(cells(*plan)),
        checked == Err::<(), ShipError>(ShipError::EmptyPlan) <==> !plan_nonempty(cells(*plan)),
{
    if plan.len() == 0 {
        return Err(ShipError::EmptyPlan);
    }
    let w = plan[0].len();
    if w == 0 {
        return Err(ShipError::EmptyPlan);
    }
    let mut row: usize = 0;
    while row < plan.len()
        invariant
            row <= plan.len(),
            plan.len() > 0,
            w == plan@[0]@.len(),
            w > 0,
            forall|k: int| 0 <= k < row ==> (#[trigger] cells(*plan)[k]).len() == w,
        decreases plan.len() - row,
    {
        if plan[row].len() != w {
            assert(cells(*plan)[row as int].len() != cells(*plan)[0].len());
            return Err(ShipError::RaggedRows);
        }
        row += 1;
    }
    Ok(())
}

impl Ship {
    /// Builds a ship from a deck plan, written row by row with one number per
    /// cell. The ship lies at the origin, at rest, with speed 6. A plan
    /// without cells or with rows of different lengths is turned down.
    pub fn new(ship_tiles: Vec<Vec<i32>>) -> (built: Result<Ship, ShipError>)
        ensures
            match built {
                Ok(ship) => {
                    &&& plan_nonempty(cells(ship_tiles))
                    &&& plan_even(cells(ship_tiles))
                    &&& ship@ == (ShipView {
                        tiles: deck_of(cells(ship_tiles)),
                        x: 0,
                        y: 0,
                        self_vel_x: 0,
                        self_vel_y: 0,
                        directions: Seq::empty(),
                        speed: 6,
                        width: ship_tiles@[0]@.len() as usize,
                        height: ship_tiles@.len() as usize,
                    })
                    &&& ship@.wf()
                },
                Err(ShipError::EmptyPlan) => !plan_nonempty(cells(ship_tiles)),
                Err(ShipError::RaggedRows) => plan_nonempty(cells(ship_tiles)) && !plan_even(
                    cells(ship_tiles),
                ),
            },
    {
        match check_plan(&ship_tiles) {
            Err(e) => {
                return Err(e);
            },
            Ok(()) => {},
        }
        let w = ship_tiles[0].len();
        let h = ship_tiles.len();
        let ghost rows = cells(ship_tiles);
        let mut temp_tiles: Vec<Vec<Tile>> = Vec::new();
        let mut col: usize = 0;
        while col < w
            invariant
                col <= w,
                w == rows[0].len(),
                h == rows.len(),
                rows == cells(ship_tiles),
                plan_nonempty(rows),
                plan_even(rows),
                temp_tiles@.len() == col,
                forall|c: int| 0 <= c < col ==> (#[trigger] temp_tiles@[c])@ == deck_of(rows)[c],
            decreases w - col,
        {
            let mut column: Vec<Tile> = Vec::new();
            let mut row: usize = 0;
            while row < h
                invariant
                    row <= h,
                    col < w,
                    w == rows[0].len(),
                    h == rows.len(),
                    rows == cells(ship_tiles),
                    plan_even(rows),
                    column@.len() == row,
                    forall|r: int| 0 <= r < row ==> column@[r] == deck_of(rows)[col as int][r],
                decreases h - row,
            {
                assert(rows[row as int].len() == w);
                let code = ship_tiles[row][col];
                column.push(Tile::new(tile_type_for(code)));
                row += 1;
            }
            assert(column@ =~= deck_of(rows)[col as int]);
            temp_tiles.push(column);
            col += 1;
        }
        let ship = Ship {
            tiles: temp_tiles,
            x: 0,
            y: 0,
            self_vel_x: 0,
            self_vel_y: 0,
            directions: Vec::new(),
            speed: 6,
            width: w,
            height: h,
        };
        assert(ship@.tiles =~= deck_of(rows));
        Ok(ship)
    }

    /// The plan of the default ship: seven columns and eight rows, with the
    /// portal at the bow and the wheel behind it.
    pub open spec fn default_plan() -> Seq<Seq<i32>> {
        seq![
            seq![0i32, 0, 1, 3, 1, 0, 0],
            seq![0i32, 1, 1, 1, 1, 1, 0],
            seq![0i32, 1, 1, 2, 1, 1, 0],
            seq![1i32, 1, 1, 1, 1, 1, 1],
            seq![1i32, 1, 1, 1, 1, 1, 1],
            seq![1i32, 1, 1, 1, 1, 1, 1],
            seq![1i32, 1, 1, 1, 1, 1, 1],
            seq![1i32, 1, 1, 1, 1, 1, 1],
        ]
    }

    /// The default ship: the default plan's deck at the origin, at rest.
    pub open spec fn default_view() -> ShipView {
        ShipView {
            tiles: deck_of(Ship::default_plan()),
            x: 0,
            y: 0,
            self_vel_x: 0,
            self_vel_y: 0,
            directions: Seq::empty(),
            speed: 6,
            width: 7,
            height: 8,
        }
    }

    /// Builds the default ship.
    pub fn default_ship() -> (ship: Ship)
        ensures
            ship@ == Ship::default_view(),
            ship@.wf(),
    {
        let mut plan: Vec<Vec<i32>> = Vec::new();
        plan.push(vec![0, 0, 1, 3, 1, 0, 0]);
        plan.push(vec![0, 1, 1, 1, 1, 1, 0]);
        plan.push(vec![0, 1, 1, 2, 1, 1, 0]);
        plan.push(vec![1, 1, 1, 1, 1, 1, 1]);
        plan.push(vec![1, 1, 1, 1, 1, 1, 1]);
        plan.push(vec![1, 1, 1, 1, 1, 1, 1]);
        plan.push(vec![1, 1, 1, 1, 1, 1, 1]);
        plan.push(vec![1, 1, 1, 1, 1, 1, 1]);
        assert(cells(plan) =~~= Ship::default_plan());
        assert(plan_nonempty(cells(plan)));
        assert(plan_even(cells(plan)));
        match Ship::new(plan) {
            Ok(ship) => ship,
            Err(_) => unreached(),
        }
    }

    /// The tile at a cell of the deck, or nothing where the deck has no such
    /// cell.
    pub fn tile_at(&self, col: usize, row: usize) -> (tile: Option<Tile>)
        ensures
            tile == tile_at(self@.tiles, col as int, row as int),
    {
        tile_in(&self.tiles, col, row)
    }

    /// The horizontal position the ship is heading for.
    pub fn x_to_be_location(&self) -> (x: i64)
        ensures
            x == self@.x_to_be(),
    {
        sat_add(self.x, self.self_vel_x)
    }

    /// The vertical position the ship is heading for.
    pub fn y_to_be_location(&self) -> (y: i64)
        ensures
            y == self@.y_to_be(),
    {
        sat_add(self.y, self.self_vel_y)
    }

    /// Lets go of every held direction. The velocity stays: a ship left
    /// alone keeps its course.
    pub fn reset_dir(&mut self)
        ensures
            final(self)@ == (ShipView { directions: Seq::empty(), ..old(self)@ }),
    {
        self.directions = Vec::new();
    }
}

impl Moveable for Ship {
    open spec fn within_speed(&self) -> bool {
        self@.speed_clamped()
    }

    /// Records a movement key going down or coming up while the ship is
    /// steered; other keys change nothing.
    fn handle_input(&mut self, state: &ButtonState, key: &Option<Key>)
        ensures
            final(self)@ == old(self)@.after_input(*state, *key),
    {
        match direction_of_key(key) {
            Some(dir) => toggle_direction(&mut self.directions, state, dir),
            None => {},
        }
    }

    /// Moves the ship by its velocity. Nothing in the world stops a ship.
    fn update_position(&mut self)
        ensures
            final(self)@ == old(self)@.moved(),
    {
        self.x = sat_add(self.x, self.self_vel_x);
        self.y = sat_add(self.y, self.self_vel_y);
    }

    /// Sets the velocity from the held directions alone, so that no earlier
    /// velocity lingers; it never exceeds the speed.
    fn update_self_velocity(&mut self)
        ensures
            final(self)@ == old(self)@.with_velocity_from_directions(),
            final(self)@.speed_clamped(),
    {
        let east = has_direction(&self.directions, Direction::E);
        let west = has_direction(&self.directions, Direction::W);
        let south = has_direction(&self.directions, Direction::S);
        let north = has_direction(&self.directions, Direction::N);
        self.self_vel_x = axis_speed(east, west, self.speed);
        self.self_vel_y = axis_speed(south, north, self.speed);
    }
}

} // verus!
