//! The world map: how it is generated from noise, and which sprite each of
//! its tiles is drawn with.
//!
//! Terrain comes from three fields of noise samples, one sample per cell. A
//! sample is a whole number of thousandths: 0 stands for 0.0 and
//! [`NOISE_ONE`] for 1.0. The sprite of a stone or grass tile depends on its
//! four neighbours, which are looked up in a table of sixteen entries.

use vstd::prelude::*;
use crate::chance::{coin, fair_coin};
use crate::grid::{
    cells, fits, has_shape, set_tile, tile_at, tile_at_cell, tile_in, tiles_wf, with_tile,
};
use crate::tile::{classify, Tile, TileType};

verus! {

/// The sample that stands for 1.0.
pub const NOISE_ONE: u32 = 1000;

/// What is added to every elevation sample, so that land outweighs water.
pub const BASE_WEIGHT: u32 = 200;

/// Number of draws of a water tile between two changes of its texture.
pub const WATER_CHANGE_RATE: u32 = 10;

/// Elevation scores up to this one are water. A score is the product of two
/// samples, so 1.0 is a million.
pub const WATER_LEVEL: u64 = 100000;

/// Elevation scores above water and up to this one are dirt.
pub const DIRT_LEVEL: u64 = 200000;

/// Elevation scores above dirt and up to this one are grass or trees; higher
/// ones are stone.
pub const GRASS_LEVEL: u64 = 600000;

/// From this moisture on, grassland grows a tree.
pub const TREE_MOISTURE: u32 = 700;

/// One tile in this many is generated with its alternative texture, on
/// average.
pub const ALT_TEXTURE_ODDS: u32 = 10;

/// The images a tile of the map or of the deck can be drawn with.
#[derive(Clone, Copy, Debug, PartialEq, Eq, Structural)]
pub enum Sprite {
    Water,
    WaterTexture,
    StoneWall,
    StoneWallTexture,
    StoneWallEdge1Side,
    StoneWallEdge2Side,
    StoneWallEdge3Side,
    StoneWallEdgeCorner,
    StoneWallFront,
    StoneWallFrontREdge,
    StoneWallFrontLEdge,
    StoneWallFrontDeep,
    GrassFloor,
    GrassFloorTexture,
    DirtFloor,
    DirtFloorTexture,
    GrassDirtFloor1Side,
    GrassDirtFloor2Side,
    GrassDirtFloor3Side,
    GrassDirtFloor4Side,
    GrassDirtFloorCorner,
    Tree,
    Portal,
    WoodFloor,
    Wheel,
}

/// How to draw one tile: with which image, turned by how many degrees, and
/// shifted by how many pixels so that the turned image lies in its cell.
#[derive(Clone, Copy, Debug, PartialEq, Eq, Structural)]
pub struct DrawInfo {
    /// The image, or nothing where the tile is not drawn or where the plain
    /// image of the tile's type is meant.
    pub image: Option<Sprite>,
    /// Clockwise rotation about the image's corner, in degrees.
    pub rotation: u16,
    /// Horizontal shift in pixels.
    pub shift_x: i64,
    /// Vertical shift in pixels.
    pub shift_y: i64,
}

/// No image, unturned and unshifted.
pub open spec fn no_image() -> DrawInfo {
    DrawInfo { image: None, rotation: 0, shift_x: 0, shift_y: 0 }
}

/// An image as it is, unturned and unshifted.
pub open spec fn upright(sprite: Sprite) -> DrawInfo {
    DrawInfo { image: Some(sprite), rotation: 0, shift_x: 0, shift_y: 0 }
}

/// An image turned by a number of quarter turns. Turning about the corner
/// swings the image out of its cell; the shift of one tile along one or both
/// axes brings it back.
pub open spec fn turned(sprite: Sprite, quarter_turns: int) -> DrawInfo {
    DrawInfo {
        image: Some(sprite),
        rotation: (90 * quarter_turns) as u16,
        shift_x: if quarter_turns == 1 || quarter_turns == 2 {
            32
        } else {
            0
        },
        shift_y: if quarter_turns == 2 || quarter_turns == 3 {
            32
        } else {
            0
        },
    }
}

impl DrawInfo {
    /// Executable form of [`no_image`].
    pub fn none() -> (info: DrawInfo)
        ensures
            info == no_image(),
    {
        DrawInfo { image: None, rotation: 0, shift_x: 0, shift_y: 0 }
    }

    /// Executable form of [`upright`].
    pub fn plain(sprite: Sprite) -> (info: DrawInfo)
        ensures
            info == upright(sprite),
    {
        DrawInfo { image: Some(sprite), rotation: 0, shift_x: 0, shift_y: 0 }
    }

    /// Executable form of [`turned`].
    fn quarter_turned(sprite: Sprite, quarter_turns: u8) -> (info: DrawInfo)
        requires
            quarter_turns < 4,
        ensures
            info == turned(sprite, quarter_turns as int),
    {
        let rotation: u16 = 90 * (quarter_turns as u16);
        let shift_x: i64 = if quarter_turns == 1 || quarter_turns == 2 {
            32
        } else {
            0
        };
        let shift_y: i64 = if quarter_turns == 2 || quarter_turns == 3 {
            32
        } else {
            0
        };
        DrawInfo { image: Some(sprite), rotation, shift_x, shift_y }
    }
}

/// How a grass tile is drawn, given on which of its four sides dirt lies.
/// Without dirt around it the plain grass image is meant. Dirt on one side,
/// on two adjacent sides or on three sides has one image each, turned to
/// where the dirt is; dirt on two opposite sides and dirt all around have
/// their own.
pub open spec fn grass_dirt_variant(right: bool, down: bool, left: bool, up: bool) -> DrawInfo {
    match (right, down, left, up) {
        (false, false, false, false) => no_image(),
        (true, false, false, false) => turned(Sprite::GrassDirtFloor1Side, 0),
        (false, true, false, false) => turned(Sprite::GrassDirtFloor1Side, 1),
        (false, false, true, false) => turned(Sprite::GrassDirtFloor1Side, 2),
        (false, false, false, true) => turned(Sprite::GrassDirtFloor1Side, 3),
        (true, false, false, true) => turned(Sprite::GrassDirtFloorCorner, 0),
        (true, true, false, false) => turned(Sprite::GrassDirtFloorCorner, 1),
        (false, true, true, false) => turned(Sprite::GrassDirtFloorCorner, 2),
        (false, false, true, true) => turned(Sprite::GrassDirtFloorCorner, 3),
        (true, false, true, false) => turned(Sprite::GrassDirtFloor2Side, 0),
        (false, true, false, true) => turned(Sprite::GrassDirtFloor2Side, 1),
        (true, false, true, true) => turned(Sprite::GrassDirtFloor3Side, 0),
        (true, true, false, true) => turned(Sprite::GrassDirtFloor3Side, 1),
        (true, true, true, false) => turned(Sprite::GrassDirtFloor3Side, 2),
        (false, true, true, true) => turned(Sprite::GrassDirtFloor3Side, 3),
        (true, true, true, true) => turned(Sprite::GrassDirtFloor4Side, 0),
    }
}

/// How a stone tile is drawn, given on which of its four sides stone lies.
/// With stone all around the plain stone image is meant. A tile with nothing
/// below shows the wall's front; the other open sides show an edge.
pub open spec fn stone_variant(right: bool, down: bool, left: bool, up: bool) -> DrawInfo {
    match (right, down, left, up) {
        (true, true, true, true) => no_image(),
        (false, true, true, true) => turned(Sprite::StoneWallEdge1Side, 0),
        (true, false, true, true) => upright(Sprite::StoneWallFront),
        (true, true, false, true) => turned(Sprite::StoneWallEdge1Side, 2),
        (true, true, true, false) => turned(Sprite::StoneWallEdge1Side, 3),
        (false, true, true, false) => turned(Sprite::StoneWallEdgeCorner, 0),
        (false, false, true, true) => upright(Sprite::StoneWallFrontREdge),
        (true, false, false, true) => upright(Sprite::StoneWallFrontLEdge),
        (true, true, false, false) => turned(Sprite::StoneWallEdgeCorner, 3),
        (false, true, false, true) => upright(Sprite::StoneWallEdge2Side),
        (true, false, true, false) => upright(Sprite::StoneWallFrontDeep),
        (false, true, false, false) => upright(Sprite::StoneWallEdge3Side),
        (false, false, true, false) => upright(Sprite::StoneWallFrontDeep),
        (false, false, false, true) => upright(Sprite::StoneWallFront),
        (true, false, false, false) => upright(Sprite::StoneWallFrontDeep),
        (false, false, false, false) => upright(Sprite::StoneWallFrontDeep),
    }
}

/// The place of a neighbourhood in a table of sixteen: one bit per side, the
/// right side lowest, then down, left and up.
pub open spec fn neighbour_mask(right: bool, down: bool, left: bool, up: bool) -> int {
    (if right { 1int } else { 0 }) + (if down { 2int } else { 0 })
        + (if left { 4int } else { 0 }) + (if up { 8int } else { 0 })
}

/// The table of grass variants, one entry per neighbourhood.
pub open spec fn grass_dirt_table() -> Seq<DrawInfo> {
    Seq::new(
        16,
        |m: int| grass_dirt_variant(m % 2 == 1, (m / 2) % 2 == 1, (m / 4) % 2 == 1, (m / 8) % 2 == 1),
    )
}

/// The table of stone variants, one entry per neighbourhood.
pub open spec fn stone_table() -> Seq<DrawInfo> {
    Seq::new(
        16,
        |m: int| stone_variant(m % 2 == 1, (m / 2) % 2 == 1, (m / 4) % 2 == 1, (m / 8) % 2 == 1),
    )
}

/// The entry of a table for a neighbourhood, or nothing where the table is
/// too short to have one.
pub open spec fn table_entry(table: Seq<DrawInfo>, mask: int) -> Option<DrawInfo> {
    if 0 <= mask < table.len() {
        Some(table[mask])
    } else {
        None
    }
}

/// Each table holds, at the place of a neighbourhood, the variant of that
/// neighbourhood: the lookup is total over all sixteen.
pub proof fn lemma_tables_total(right: bool, down: bool, left: bool, up: bool)
    ensures
        table_entry(grass_dirt_table(), neighbour_mask(right, down, left, up)) == Some(
            grass_dirt_variant(right, down, left, up),
        ),
        table_entry(stone_table(), neighbour_mask(right, down, left, up)) == Some(
            stone_variant(right, down, left, up),
        ),
{
}

/// Builds the table of grass variants.
pub fn populate_grass_dirt_map() -> (table: Vec<DrawInfo>)
    ensures
        table@ == grass_dirt_table(),
{
    let mut table: Vec<DrawInfo> = Vec::new();
    table.push(DrawInfo::none());
    table.push(DrawInfo::quarter_turned(Sprite::GrassDirtFloor1Side, 0));
    table.push(DrawInfo::quarter_turned(Sprite::GrassDirtFloor1Side, 1));
    table.push(DrawInfo::quarter_turned(Sprite::GrassDirtFloorCorner, 1));
    table.push(DrawInfo::quarter_turned(Sprite::GrassDirtFloor1Side, 2));
    table.push(DrawInfo::quarter_turned(Sprite::GrassDirtFloor2Side, 0));
    table.push(DrawInfo::quarter_turned(Sprite::GrassDirtFloorCorner, 2));
    table.push(DrawInfo::quarter_turned(Sprite::GrassDirtFloor3Side, 2));
    table.push(DrawInfo::quarter_turned(Sprite::GrassDirtFloor1Side, 3));
    table.push(DrawInfo::quarter_turned(Sprite::GrassDirtFloorCorner, 0));
    table.push(DrawInfo::quarter_turned(Sprite::GrassDirtFloor2Side, 1));
    table.push(DrawInfo::quarter_turned(Sprite::GrassDirtFloor3Side, 1));
    table.push(DrawInfo::quarter_turned(Sprite::GrassDirtFloorCorner, 3));
    table.push(DrawInfo::quarter_turned(Sprite::GrassDirtFloor3Side, 0));
    table.push(DrawInfo::quarter_turned(Sprite::GrassDirtFloor3Side, 3));
    table.push(DrawInfo::quarter_turned(Sprite::GrassDirtFloor4Side, 0));
    assert(table@ =~= grass_dirt_table());
    table
}

/// Builds the table of stone variants.
pub fn populate_stone_map() -> (table: Vec<DrawInfo>)
    ensures
        table@ == stone_table(),
{
    let mut table: Vec<DrawInfo> = Vec::new();
    table.push(DrawInfo::plain(Sprite::StoneWallFrontDeep));
    table.push(DrawInfo::plain(Sprite::StoneWallFrontDeep));
    table.push(DrawInfo::plain(Sprite::StoneWallEdge3Side));
    table.push(DrawInfo::quarter_turned(Sprite::StoneWallEdgeCorner, 3));
    table.push(DrawInfo::plain(Sprite::StoneWallFrontDeep));
    table.push(DrawInfo::plain(Sprite::StoneWallFrontDeep));
    table.push(DrawInfo::quarter_turned(Sprite::StoneWallEdgeCorner, 0));
    table.push(DrawInfo::quarter_turned(Sprite::StoneWallEdge1Side, 3));
    table.push(DrawInfo::plain(Sprite::StoneWallFront));
    table.push(DrawInfo::plain(Sprite::StoneWallFrontLEdge));
    table.push(DrawInfo::plain(Sprite::StoneWallEdge2Side));
    table.push(DrawInfo::quarter_turned(Sprite::StoneWallEdge1Side, 2));
    table.push(DrawInfo::plain(Sprite::StoneWallFrontREdge));
    table.push(DrawInfo::plain(Sprite::StoneWallFront));
    table.push(DrawInfo::quarter_turned(Sprite::StoneWallEdge1Side, 0));
    table.push(DrawInfo::none());
    assert(table@ =~= stone_table());
    table
}

/// Looks a neighbourhood up in a table.
pub fn lookup_variant(table: &Vec<DrawInfo>, right: bool, down: bool, left: bool, up: bool) -> (entry:
    Option<DrawInfo>)
    ensures
        entry == table_entry(table@, neighbour_mask(right, down, left, up)),
{
    let mut mask: usize = 0;
    if right {
        mask += 1;
    }
    if down {
        mask += 2;
    }
    if left {
        mask += 4;
    }
    if up {
        mask += 8;
    }
    if mask < table.len() {
        Some(table[mask])
    } else {
        None
    }
}

/// The image drawn under the portal for the tile the portal covers: grass
/// under grass and trees, dirt under dirt, nothing under anything else.
pub open spec fn ground_sprite(tile_type: TileType) -> Option<Sprite> {
    match tile_type {
        TileType::GrassFloor | TileType::Tree => Some(Sprite::GrassFloor),
        TileType::DirtFloor => Some(Sprite::DirtFloor),
        _ => None,
    }
}

/// Executable form of [`ground_sprite`].
pub fn what_to_draw_tile(tile_type: &TileType) -> (sprite: Option<Sprite>)
    ensures
        sprite == ground_sprite(*tile_type),
{
    match *tile_type {
        TileType::GrassFloor | TileType::Tree => Some(Sprite::GrassFloor),
        TileType::DirtFloor => Some(Sprite::DirtFloor),
        _ => None,
    }
}

/// Why a map could not be generated.
#[derive(Clone, Copy, Debug, PartialEq, Eq, Structural)]
pub enum MapError {
    /// The map was asked to have no columns or no rows.
    ZeroSize,
    /// One of the fields handed in does not have one sample per cell.
    FieldShape,
}

impl MapError {
    /// The error in words.
    pub open spec fn text(self) -> Seq<char> {
        match self {
            MapError::ZeroSize => "the map has no cells"@,
            MapError::FieldShape => "a field does not have one sample per cell"@,
        }
    }

    /// The error in words, as an owned string.
    pub fn describe(&self) -> (message: String)
        ensures
            message@ == self.text(),
    {
        match self {
            MapError::ZeroSize => "the map has no cells".to_string(),
            MapError::FieldShape => "a field does not have one sample per cell".to_string(),
        }
    }
}

/// An elevation sample with the base weight added, held at 1.0.
pub open spec fn weighted(sample: u32, base: u32) -> u32 {
    if sample + base >= NOISE_ONE {
        NOISE_ONE
    } else {
        (sample + base) as u32
    }
}

/// A field with the base weight added to every sample.
pub open spec fn weighted_field(field: Seq<Seq<u32>>, base: u32) -> Seq<Seq<u32>> {
    Seq::new(
        field.len(),
        |col: int| Seq::new(field[col].len(), |row: int| weighted(field[col][row], base)),
    )
}

/// The terrain of a cell. The elevation score is the product of the sample
/// that shapes the land masses and the weighted elevation sample. The lowest
/// band of scores is water, the next dirt, the next grassland, and the
/// highest stone; grassland that is moist enough grows a tree.
pub open spec fn terrain_type(shape: u32, elevation: u32, moisture: u32) -> TileType {
    let score = shape * elevation;
    if score <= WATER_LEVEL {
        TileType::Water
    } else if score <= DIRT_LEVEL {
        TileType::DirtFloor
    } else if score <= GRASS_LEVEL {
        if moisture >= TREE_MOISTURE {
            TileType::Tree
        } else {
            TileType::GrassFloor
        }
    } else {
        TileType::StoneWall
    }
}

/// The tile generated for a cell from its samples and its texture coin.
pub open spec fn terrain_tile(shape: u32, elevation: u32, moisture: u32, alt: bool) -> Tile {
    let tile_type = terrain_type(shape, weighted(elevation, BASE_WEIGHT), moisture);
    Tile { tile_type, passable: classify(tile_type), texture: alt }
}

/// The grid generated from three fields of samples and a field of texture
/// coins.
pub open spec fn terrain(
    width: int,
    height: int,
    worley: Seq<Seq<u32>>,
    perlin: Seq<Seq<u32>>,
    moist: Seq<Seq<u32>>,
    alt: Seq<Seq<bool>>,
) -> Seq<Seq<Tile>> {
    Seq::new(
        width as nat,
        |col: int|
            Seq::new(
                height as nat,
                |row: int|
                    terrain_tile(
                        worley[col][row],
                        perlin[col][row],
                        moist[col][row],
                        alt[col][row],
                    ),
            ),
    )
}

/// Adds the base weight to one sample.
fn weigh(sample: u32, base: u32) -> (w: u32)
    ensures
        w == weighted(sample, base),
{
    let sum: u64 = sample as u64 + base as u64;
    if sum >= NOISE_ONE as u64 {
        NOISE_ONE
    } else {
        sum as u32
    }
}

/// Adds a base weight to every sample of a field and holds the sum at 1.0.
/// The field may have any shape; the result has the same.
pub fn add_base_weight(arr: &Vec<Vec<u32>>, base: u32) -> (result: Vec<Vec<u32>>)
    ensures
        cells(result) == weighted_field(cells(*arr), base),
{
    let mut result: Vec<Vec<u32>> = Vec::new();
    let mut i: usize = 0;
    while i < arr.len()
        invariant
            i <= arr.len(),
            result@.len() == i,
            forall|c: int|
                0 <= c < i ==> (#[trigger] result@[c])@ == weighted_field(cells(*arr), base)[c],
        decreases arr.len() - i,
    {
        let mut column: Vec<u32> = Vec::new();
        let mut j: usize = 0;
        while j < arr[i].len()
            invariant
                i < arr.len(),
                j <= arr@[i as int]@.len(),
                column@.len() == j,
                forall|r: int|
                    0 <= r < j ==> column@[r] == weighted(cells(*arr)[i as int][r], base),
            decreases arr@[i as int]@.len() - j,
        {
            column.push(weigh(arr[i][j], base));
            j += 1;
        }
        assert(column@ =~= weighted_field(cells(*arr), base)[i as int]);
        result.push(column);
        i += 1;
    }
    assert(cells(result) =~= weighted_field(cells(*arr), base));
    result
}

/// Executable form of [`terrain_type`].
pub fn classify_terrain(shape: u32, elevation: u32, moisture: u32) -> (tile_type: TileType)
    ensures
        tile_type == terrain_type(shape, elevation, moisture),
{
    assert(shape * elevation <= 0xffff_ffff * 0xffff_ffff) by (nonlinear_arith)
        requires
            0 <= shape <= 0xffff_ffff,
            0 <= elevation <= 0xffff_ffff,
    ;
    let score: u64 = (shape as u64) * (elevation as u64);
    if score <= WATER_LEVEL {
        TileType::Water
    } else if score <= DIRT_LEVEL {
        TileType::DirtFloor
    } else if score <= GRASS_LEVEL {
        if moisture >= TREE_MOISTURE {
            TileType::Tree
        } else {
            TileType::GrassFloor
        }
    } else {
        TileType::StoneWall
    }
}

/// The world map: its tiles, the tables its sprites are chosen from, and
/// what the portal covers.
pub struct WorldMap {
    /// The tiles, by columns: `tiles[col][row]`.
    pub tiles: Vec<Vec<Tile>>,
    /// The grass variants, one per neighbourhood.
    pub grass_dirt_map: Vec<DrawInfo>,
    /// The stone variants, one per neighbourhood.
    pub stone_map: Vec<DrawInfo>,
    /// The tile the portal covers while the creature is away from the ship.
    pub under_portal: Option<Tile>,
    /// Draws of water tiles since their texture last changed.
    pub frames_since_last_draw: u32,
}

/// A map as a mathematical value.
pub struct WorldMapView {
    pub tiles: Seq<Seq<Tile>>,
    pub grass_dirt_map: Seq<DrawInfo>,
    pub stone_map: Seq<DrawInfo>,
    pub under_portal: Option<Tile>,
    pub frames_since_last_draw: u32,
}

impl View for WorldMap {
    type V = WorldMapView;

    open spec fn view(&self) -> WorldMapView {
        WorldMapView {
            tiles: cells(self.tiles),
            grass_dirt_map: self.grass_dirt_map@,
            stone_map: self.stone_map@,
            under_portal: self.under_portal,
            frames_since_last_draw: self.frames_since_last_draw,
        }
    }
}

/// The plain image of a tile type that has two textures.
pub open spec fn textured(plain: Sprite, alternative: Sprite, texture: bool) -> DrawInfo {
    upright(if texture { alternative } else { plain })
}

impl WorldMapView {
    /// The map is a grid without holes and with at least one cell, every
    /// tile, the one put aside under the portal too, has the passability of
    /// its type, and both variant tables are complete.
    pub open spec fn wf(self) -> bool {
        &&& self.tiles.len() > 0
        &&& self.tiles[0].len() > 0
        &&& fits(self.tiles, self.tiles.len() as int, self.tiles[0].len() as int)
        &&& tiles_wf(self.tiles)
        &&& self.grass_dirt_map == grass_dirt_table()
        &&& self.stone_map == stone_table()
        &&& (self.under_portal matches Some(tile) ==> tile.wf())
    }

    /// Whether the cell is there and of the given type. A cell beyond the
    /// edge of the map is of no type.
    pub open spec fn is_type(self, col: int, row: int, tile_type: TileType) -> bool {
        match tile_at(self.tiles, col, row) {
            Some(tile) => tile.tile_type == tile_type,
            None => false,
        }
    }

    /// The place in a variant table of the neighbourhood of a cell: which of
    /// its right, lower, left and upper neighbours are of the given type.
    pub open spec fn neighbourhood(self, col: int, row: int, tile_type: TileType) -> int {
        neighbour_mask(
            self.is_type(col + 1, row, tile_type),
            self.is_type(col, row + 1, tile_type),
            self.is_type(col - 1, row, tile_type),
            self.is_type(col, row - 1, tile_type),
        )
    }

    /// How to draw a cell as grass: by the dirt around it, or plainly where
    /// there is none. Nothing is drawn for a cell that is not there.
    pub open spec fn grass_info(self, col: int, row: int) -> DrawInfo {
        match tile_at(self.tiles, col, row) {
            Some(tile) => match table_entry(
                self.grass_dirt_map,
                self.neighbourhood(col, row, TileType::DirtFloor),
            ) {
                Some(entry) => if entry.image is Some {
                    entry
                } else {
                    textured(Sprite::GrassFloor, Sprite::GrassFloorTexture, tile.texture)
                },
                None => no_image(),
            },
            None => no_image(),
        }
    }

    /// How to draw a cell as stone: by the stone around it, or plainly where
    /// stone is all around.
    pub open spec fn stone_info(self, col: int, row: int) -> DrawInfo {
        match tile_at(self.tiles, col, row) {
            Some(tile) => match table_entry(
                self.stone_map,
                self.neighbourhood(col, row, TileType::StoneWall),
            ) {
                Some(entry) => if entry.image is Some {
                    entry
                } else {
                    textured(Sprite::StoneWall, Sprite::StoneWallTexture, tile.texture)
                },
                None => no_image(),
            },
            None => no_image(),
        }
    }

    /// How to draw a cell of the map as it is. Air, wooden floors and the
    /// wheel are not drawn by the map, nor is a cell that is not there.
    pub open spec fn draw_info(self, col: int, row: int) -> DrawInfo {
        match tile_at(self.tiles, col, row) {
            Some(tile) => match tile.tile_type {
                TileType::Water => textured(Sprite::Water, Sprite::WaterTexture, tile.texture),
                TileType::StoneWall => self.stone_info(col, row),
                TileType::GrassFloor => self.grass_info(col, row),
                TileType::DirtFloor => textured(
                    Sprite::DirtFloor,
                    Sprite::DirtFloorTexture,
                    tile.texture,
                ),
                TileType::Tree => upright(Sprite::Tree),
                TileType::Portal => upright(Sprite::Portal),
                _ => no_image(),
            },
            None => no_image(),
        }
    }

    /// Whether drawing the cell changes the water's texture: the cell is
    /// water and enough draws have passed since the last change.
    pub open spec fn water_due(self, col: int, row: int) -> bool {
        self.is_type(col, row, TileType::Water) && self.frames_since_last_draw
            > WATER_CHANGE_RATE
    }

    /// The map after drawing a cell. Only water changes anything: each draw
    /// of a water tile is counted, and when the change is due the tile takes
    /// the texture that `roll` gives and the count starts again.
    pub open spec fn after_draw(self, col: int, row: int, roll: bool) -> WorldMapView {
        if self.is_type(col, row, TileType::Water) {
            if self.frames_since_last_draw > WATER_CHANGE_RATE {
                WorldMapView {
                    tiles: with_tile(
                        self.tiles,
                        col,
                        row,
                        Tile { texture: roll, ..self.tiles[col][row] },
                    ),
                    frames_since_last_draw: 1,
                    ..self
                }
            } else {
                WorldMapView {
                    frames_since_last_draw: (self.frames_since_last_draw + 1) as u32,
                    ..self
                }
            }
        } else {
            self
        }
    }

    /// The map with the portal opened over a cell: the cell's tile is put
    /// aside and a portal takes its place.
    pub open spec fn portal_opened(self, col: int, row: int) -> WorldMapView
        recommends
            tile_at(self.tiles, col, row) is Some,
    {
        WorldMapView {
            tiles: with_tile(
                self.tiles,
                col,
                row,
                Tile { tile_type: TileType::Portal, passable: true, texture: false },
            ),
            under_portal: Some(self.tiles[col][row]),
            ..self
        }
    }

    /// The map with the portal closed over a cell: the tile put aside comes
    /// back and nothing is put aside any more.
    pub open spec fn portal_closed(self, col: int, row: int) -> WorldMapView
        recommends
            tile_at(self.tiles, col, row) is Some,
            self.under_portal is Some,
    {
        WorldMapView {
            tiles: with_tile(self.tiles, col, row, self.under_portal->0),
            under_portal: None,
            ..self
        }
    }
}

/// On a well-formed map the variant of a stone or grass tile is the one its
/// four neighbours call for, and the plain image where they call for none:
/// the tables stand for the variants, whichever tiles have been replaced.
pub proof fn lemma_variants_by_neighbours(map: WorldMapView, col: int, row: int)
    requires
        map.wf(),
        tile_at(map.tiles, col, row) is Some,
    ensures
        map.grass_info(col, row) == ({
            let variant = grass_dirt_variant(
                map.is_type(col + 1, row, TileType::DirtFloor),
                map.is_type(col, row + 1, TileType::DirtFloor),
                map.is_type(col - 1, row, TileType::DirtFloor),
                map.is_type(col, row - 1, TileType::DirtFloor),
            );
            if variant.image is Some {
                variant
            } else {
                textured(Sprite::GrassFloor, Sprite::GrassFloorTexture, map.tiles[col][row].texture)
            }
        }),
        map.stone_info(col, row) == ({
            let variant = stone_variant(
                map.is_type(col + 1, row, TileType::StoneWall),
                map.is_type(col, row + 1, TileType::StoneWall),
                map.is_type(col - 1, row, TileType::StoneWall),
                map.is_type(col, row - 1, TileType::StoneWall),
            );
            if variant.image is Some {
                variant
            } else {
                textured(Sprite::StoneWall, Sprite::StoneWallTexture, map.tiles[col][row].texture)
            }
        }),
{
    lemma_tables_total(
        map.is_type(col + 1, row, TileType::DirtFloor),
        map.is_type(col, row + 1, TileType::DirtFloor),
        map.is_type(col - 1, row, TileType::DirtFloor),
        map.is_type(col, row - 1, TileType::DirtFloor),
    );
    lemma_tables_total(
        map.is_type(col + 1, row, TileType::StoneWall),
        map.is_type(col, row + 1, TileType::StoneWall),
        map.is_type(col - 1, row, TileType::StoneWall),
        map.is_type(col, row - 1, TileType::StoneWall),
    );
}

/// Replacing a tile of a well-formed map by a tile that has the passability
/// of its type leaves the map's shape and its tiles well formed.
pub proof fn lemma_with_tile_keeps_wf(map: WorldMapView, col: int, row: int, tile: Tile)
    requires
        map.wf(),
        tile_at(map.tiles, col, row) is Some,
        tile.wf(),
    ensures
        (WorldMapView { tiles: with_tile(map.tiles, col, row, tile), ..map }).wf(),
        with_tile(map.tiles, col, row, tile).len() == map.tiles.len(),
        fits(
            with_tile(map.tiles, col, row, tile),
            map.tiles.len() as int,
            map.tiles[0].len() as int,
        ),
        tiles_wf(with_tile(map.tiles, col, row, tile)),
{
    let after = with_tile(map.tiles, col, row, tile);
    assert forall|c: int| 0 <= c < after.len() implies (#[trigger] after[c]).len()
        == map.tiles[0].len() by {
        assert(map.tiles[c].len() == map.tiles[0].len());
    }
    assert forall|c: int, r: int| 0 <= c < after.len() && 0 <= r < after[c].len() implies (
    #[trigger] after[c][r]).wf() by {
        assert(map.tiles[c][r].wf());
    }
}

/// Drawing a cell leaves a well-formed map well formed.
pub proof fn lemma_draw_keeps_wf(map: WorldMapView, col: int, row: int, roll: bool)
    requires
        map.wf(),
    ensures
        map.after_draw(col, row, roll).wf(),
{
    if map.is_type(col, row, TileType::Water) {
        assert(map.tiles[col][row].wf());
        lemma_with_tile_keeps_wf(map, col, row, Tile { texture: roll, ..map.tiles[col][row] });
    }
}

/// Opening the portal over a cell and closing it over the same cell leaves
/// the map as it was, with nothing put aside.
pub proof fn lemma_portal_there_and_back(map: WorldMapView, col: int, row: int)
    requires
        tile_at(map.tiles, col, row) is Some,
        map.under_portal is None,
    ensures
        map.portal_opened(col, row).portal_closed(col, row) == map,
        map.portal_opened(col, row).under_portal == Some(map.tiles[col][row]),
{
    let back = map.portal_opened(col, row).portal_closed(col, row);
    assert(back.tiles[col] =~= map.tiles[col]);
    assert(back.tiles =~= map.tiles);
}

/// The map generated from three fields of samples and a field of texture
/// coins: the terrain, both variant tables, nothing under the portal and no
/// draw counted yet.
pub open spec fn generated(
    width: int,
    height: int,
    worley: Seq<Seq<u32>>,
    perlin: Seq<Seq<u32>>,
    moist: Seq<Seq<u32>>,
    alt: Seq<Seq<bool>>,
) -> WorldMapView {
    WorldMapView {
        tiles: terrain(width, height, worley, perlin, moist, alt),
        grass_dirt_map: grass_dirt_table(),
        stone_map: stone_table(),
        under_portal: None,
        frames_since_last_draw: 0,
    }
}

/// Draws one texture coin per cell.
fn texture_coins(width: usize, height: usize) -> (coins: Vec<Vec<bool>>)
    ensures
        fits(cells(coins), width as int, height as int),
{
    let mut coins: Vec<Vec<bool>> = Vec::new();
    let mut col: usize = 0;
    while col < width
        invariant
            col <= width,
            coins@.len() == col,
            forall|c: int| 0 <= c < col ==> (#[trigger] coins@[c])@.len() == height,
        decreases width - col,
    {
        let mut column: Vec<bool> = Vec::new();
        let mut row: usize = 0;
        while row < height
            invariant
                row <= height,
                column@.len() == row,
            decreases height - row,
        {
            column.push(coin(1, ALT_TEXTURE_ODDS));
            row += 1;
        }
        coins.push(column);
        col += 1;
    }
    coins
}

impl WorldMap {
    /// Generates a map of `width` columns and `height` rows from three
    /// fields of noise samples, with a texture coin drawn for every tile.
    /// `worley` shapes the land masses, `perlin` is the elevation, and
    /// `moist` decides where trees grow. A map without cells is turned down,
    /// and so is a field that does not have one sample per cell.
    pub fn new(
        width: usize,
        height: usize,
        worley: &Vec<Vec<u32>>,
        perlin: &Vec<Vec<u32>>,
        moist: &Vec<Vec<u32>>,
    ) -> (made: Result<WorldMap, MapError>)
        ensures
            match made {
                Ok(map) => {
                    &&& width > 0 && height > 0
                    &&& fits(cells(*worley), width as int, height as int)
                    &&& fits(cells(*perlin), width as int, height as int)
                    &&& fits(cells(*moist), width as int, height as int)
                    &&& exists|alt: Seq<Seq<bool>>|
                        fits(alt, width as int, height as int) && map@ == generated(
                            width as int,
                            height as int,
                            cells(*worley),
                            cells(*perlin),
                            cells(*moist),
                            alt,
                        )
                    &&& map@.wf()
                },
                Err(MapError::ZeroSize) => width == 0 || height == 0,
                Err(MapError::FieldShape) => {
                    &&& width > 0 && height > 0
                    &&& !(fits(cells(*worley), width as int, height as int) && fits(
                        cells(*perlin),
                        width as int,
                        height as int,
                    ) && fits(cells(*moist), width as int, height as int))
                },
            },
    {
        if width == 0 || height == 0 {
            return Err(MapError::ZeroSize);
        }
        if !(has_shape(worley, width, height) && has_shape(perlin, width, height) && has_shape(
            moist,
            width,
            height,
        )) {
            return Err(MapError::FieldShape);
        }
        let coins = texture_coins(width, height);
        WorldMap::from_fields(width, height, worley, perlin, moist, &coins)
    }

    /// Generates a map as [`WorldMap::new`] does, with the texture of every
    /// tile given by `alt` in place of a coin.
    pub fn from_fields(
        width: usize,
        height: usize,
        worley: &Vec<Vec<u32>>,
        perlin: &Vec<Vec<u32>>,
        moist: &Vec<Vec<u32>>,
        alt: &Vec<Vec<bool>>,
    ) -> (made: Result<WorldMap, MapError>)
        ensures
            match made {
                Ok(map) => {
                    &&& width > 0 && height > 0
                    &&& fits(cells(*worley), width as int, height as int)
                    &&& fits(cells(*perlin), width as int, height as int)
                    &&& fits(cells(*moist), width as int, height as int)
                    &&& fits(cells(*alt), width as int, height as int)
                    &&& map@ == generated(
                        width as int,
                        height as int,
                        cells(*worley),
                        cells(*perlin),
                        cells(*moist),
                        cells(*alt),
                    )
                    &&& map@.wf()
                },
                Err(MapError::ZeroSize) => width == 0 || height == 0,
                Err(MapError::FieldShape) => {
                    &&& width > 0 && height > 0
                    &&& !(fits(cells(*worley), width as int, height as int) && fits(
                        cells(*perlin),
                        width as int,
                        height as int,
                    ) && fits(cells(*moist), width as int, height as int) && fits(
                        cells(*alt),
                        width as int,
                        height as int,
                    ))
                },
            },
    {
        if width == 0 || height == 0 {
            return Err(MapError::ZeroSize);
        }
        if !(has_shape(worley, width, height) && has_shape(perlin, width, height) && has_shape(
            moist,
            width,
            height,
        ) && has_shape(alt, width, height)) {
            return Err(MapError::FieldShape);
        }
        let perlin_arr = add_base_weight(perlin, BASE_WEIGHT);
        let ghost goal = terrain(
            width as int,
            height as int,
            cells(*worley),
            cells(*perlin),
            cells(*moist),
            cells(*alt),
        );
        let mut map_tiles: Vec<Vec<Tile>> = Vec::new();
        let mut i: usize = 0;
        while i < width
            invariant
                i <= width,
                height > 0,
                fits(cells(*worley), width as int, height as int),
                fits(cells(*perlin), width as int, height as int),
                fits(cells(*moist), width as int, height as int),
                fits(cells(*alt), width as int, height as int),
                cells(perlin_arr) == weighted_field(cells(*perlin), BASE_WEIGHT),
                goal == terrain(
                    width as int,
                    height as int,
                    cells(*worley),
                    cells(*perlin),
                    cells(*moist),
                    cells(*alt),
                ),
                map_tiles@.len() == i,
                forall|c: int| 0 <= c < i ==> (#[trigger] map_tiles@[c])@ == goal[c],
            decreases width - i,
        {
            let mut column: Vec<Tile> = Vec::new();
            let mut j: usize = 0;
            assert(cells(*worley)[i as int].len() == height);
            assert(cells(*perlin)[i as int].len() == height);
            assert(cells(*moist)[i as int].len() == height);
            assert(cells(*alt)[i as int].len() == height);
            assert(cells(perlin_arr).len() == cells(*perlin).len());
            assert(cells(perlin_arr)[i as int].len() == cells(*perlin)[i as int].len());
            assert(cells(perlin_arr)[i as int] == perlin_arr@[i as int]@);
            while j < height
                invariant
                    i < width,
                    j <= height,
                    worley@.len() == width,
                    perlin_arr@.len() == width,
                    moist@.len() == width,
                    alt@.len() == width,
                    worley@[i as int]@.len() == height,
                    perlin_arr@[i as int]@.len() == height,
                    perlin@[i as int]@.len() == height,
                    perlin@.len() == width,
                    moist@[i as int]@.len() == height,
                    alt@[i as int]@.len() == height,
                    cells(perlin_arr) == weighted_field(cells(*perlin), BASE_WEIGHT),
                    goal == terrain(
                        width as int,
                        height as int,
                        cells(*worley),
                        cells(*perlin),
                        cells(*moist),
                        cells(*alt),
                    ),
                    column@.len() == j,
                    forall|r: int| 0 <= r < j ==> column@[r] == goal[i as int][r],
                decreases height - j,
            {
                assert(cells(perlin_arr)[i as int][j as int] == weighted(
                    cells(*perlin)[i as int][j as int],
                    BASE_WEIGHT,
                ));
                let tile_type = classify_terrain(worley[i][j], perlin_arr[i][j], moist[i][j]);
                let mut tile = Tile::new(tile_type);
                if alt[i][j] {
                    tile.texture = true;
                }
                column.push(tile);
                j += 1;
            }
            assert(column@ =~= goal[i as int]);
            map_tiles.push(column);
            i += 1;
        }
        let map = WorldMap {
            tiles: map_tiles,
            grass_dirt_map: populate_grass_dirt_map(),
            stone_map: populate_stone_map(),
            under_portal: None,
            frames_since_last_draw: 0,
        };
        assert(map@.tiles =~= goal);
        Ok(map)
    }

    /// The tile at a cell, or nothing where the map has no such cell.
    pub fn tile_at(&self, col: usize, row: usize) -> (tile: Option<Tile>)
        ensures
            tile == tile_at(self@.tiles, col as int, row as int),
    {
        tile_in(&self.tiles, col, row)
    }

    /// Whether the cell given by signed numbers is there and of the given
    /// type.
    fn type_matches(&self, col: i128, row: i128, tile_type: TileType) -> (same: bool)
        ensures
            same == self@.is_type(col as int, row as int, tile_type),
    {
        match tile_at_cell(&self.tiles, col, row) {
            Some(tile) => tile.tile_type == tile_type,
            None => false,
        }
    }

    /// Looks up, in a variant table, the neighbourhood of a cell with respect
    /// to a tile type.
    fn variant_around(&self, table: &Vec<DrawInfo>, x: usize, y: usize, tile_type: TileType) -> (entry:
        Option<DrawInfo>)
        ensures
            entry == table_entry(table@, self@.neighbourhood(x as int, y as int, tile_type)),
    {
        let col: i128 = x as i128;
        let row: i128 = y as i128;
        let right = self.type_matches(col + 1, row, tile_type);
        let down = self.type_matches(col, row + 1, tile_type);
        let left = self.type_matches(col - 1, row, tile_type);
        let up = self.type_matches(col, row - 1, tile_type);
        lookup_variant(table, right, down, left, up)
    }

    /// How to draw the cell `(x, y)` as grass, by the dirt around it.
    pub fn get_grass_tile_info(&self, x: usize, y: usize) -> (info: DrawInfo)
        ensures
            info == self@.grass_info(x as int, y as int),
    {
        match tile_in(&self.tiles, x, y) {
            Some(tile) => match self.variant_around(&self.grass_dirt_map, x, y, TileType::DirtFloor) {
                Some(entry) => match entry.image {
                    Some(_) => entry,
                    None => if tile.texture {
                        DrawInfo::plain(Sprite::GrassFloorTexture)
                    } else {
                        DrawInfo::plain(Sprite::GrassFloor)
                    },
                },
                None => DrawInfo::none(),
            },
            None => DrawInfo::none(),
        }
    }

    /// How to draw the cell `(x, y)` as stone, by the stone around it.
    fn get_stone_tile_info(&self, x: usize, y: usize) -> (info: DrawInfo)
        ensures
            info == self@.stone_info(x as int, y as int),
    {
        match tile_in(&self.tiles, x, y) {
            Some(tile) => match self.variant_around(&self.stone_map, x, y, TileType::StoneWall) {
                Some(entry) => match entry.image {
                    Some(_) => entry,
                    None => if tile.texture {
                        DrawInfo::plain(Sprite::StoneWallTexture)
                    } else {
                        DrawInfo::plain(Sprite::StoneWall)
                    },
                },
                None => DrawInfo::none(),
            },
            None => DrawInfo::none(),
        }
    }

    /// How to draw the cell `(x, y)` of the map as it is.
    pub fn draw_info(&self, x: usize, y: usize) -> (info: DrawInfo)
        ensures
            info == self@.draw_info(x as int, y as int),
    {
        match tile_in(&self.tiles, x, y) {
            Some(tile) => match tile.tile_type {
                TileType::Water => if tile.texture {
                    DrawInfo::plain(Sprite::WaterTexture)
                } else {
                    DrawInfo::plain(Sprite::Water)
                },
                TileType::StoneWall => self.get_stone_tile_info(x, y),
                TileType::GrassFloor => self.get_grass_tile_info(x, y),
                TileType::DirtFloor => if tile.texture {
                    DrawInfo::plain(Sprite::DirtFloorTexture)
                } else {
                    DrawInfo::plain(Sprite::DirtFloor)
                },
                TileType::Tree => DrawInfo::plain(Sprite::Tree),
                TileType::Portal => DrawInfo::plain(Sprite::Portal),
                _ => DrawInfo::none(),
            },
            None => DrawInfo::none(),
        }
    }

    /// Whether drawing the cell `(x, y)` now changes the water's texture.
    pub fn water_due(&self, x: usize, y: usize) -> (due: bool)
        ensures
            due == self@.water_due(x as int, y as int),
    {
        self.type_matches(x as i128, y as i128, TileType::Water) && self.frames_since_last_draw
            > WATER_CHANGE_RATE
    }

    /// Draws the cell `(x, y)`: counts the draw if the cell is water, gives
    /// the water the texture `roll` if its change is due, and says how the
    /// cell is to be drawn after that.
    pub fn what_to_draw_with(&mut self, x: usize, y: usize, roll: bool) -> (info: DrawInfo)
        ensures
            final(self)@ == old(self)@.after_draw(x as int, y as int, roll),
            info == final(self)@.draw_info(x as int, y as int),
    {
        match tile_in(&self.tiles, x, y) {
            Some(tile) => {
                if tile.tile_type == TileType::Water {
                    if self.frames_since_last_draw > WATER_CHANGE_RATE {
                        set_tile(&mut self.tiles, x, y, Tile { texture: roll, ..tile });
                        self.frames_since_last_draw = 0;
                    }
                    self.frames_since_last_draw += 1;
                }
            },
            None => {},
        }
        self.draw_info(x, y)
    }

    /// Draws the cell `(x, y)` as [`WorldMap::what_to_draw_with`] does, with
    /// a fair coin for the water's new texture where its change is due.
    pub fn what_to_draw(&mut self, x: usize, y: usize) -> (info: DrawInfo)
        ensures
            final(self)@ == old(self)@.after_draw(x as int, y as int, false) || final(self)@ == old(
                self,
            )@.after_draw(x as int, y as int, true),
            !old(self)@.water_due(x as int, y as int) ==> final(self)@ == old(self)@.after_draw(
                x as int,
                y as int,
                false,
            ),
            info == final(self)@.draw_info(x as int, y as int),
    {
        let roll = if self.water_due(x, y) {
            fair_coin()
        } else {
            false
        };
        self.what_to_draw_with(x, y, roll)
    }
}

/// The first column, or row, that can be seen in a window `extent` pixels
/// wide, or high, around the pixel `centre`: the one a tile before the
/// window's near edge, and the map's first where that edge lies before the
/// map.
pub open spec fn span_start(centre: int, extent: int) -> int {
    let edge = centre - extent / 2 - 32;
    if edge <= 0 {
        0
    } else {
        edge / 32
    }
}

/// One past the last column, or row, that can be seen: the last one that
/// starts at or before the window's far edge, as far as the map has `count`
/// of them.
pub open spec fn span_end(centre: int, extent: int, count: int) -> int {
    let far = centre + extent / 2;
    if far < 0 {
        0
    } else if far / 32 + 1 > count {
        count
    } else {
        far / 32 + 1
    }
}

/// The columns, or rows, of a map of `count` that can be seen in a window
/// `extent` pixels wide, or high, around the pixel `centre`: from the first
/// of the pair up to, but without, the second. The span is empty where the
/// first is not below the second.
pub fn draw_span(centre: i64, extent: u32, count: usize) -> (span: (usize, usize))
    ensures
        span.0 == if span_start(centre as int, extent as int) > count {
            count as int
        } else {
            span_start(centre as int, extent as int)
        },
        span.1 == span_end(centre as int, extent as int, count as int),
{
    let half: i128 = (extent / 2) as i128;
    let edge: i128 = centre as i128 - half - 32;
    let far: i128 = centre as i128 + half;
    let start: usize = if edge <= 0 {
        0
    } else if edge / 32 > count as i128 {
        count
    } else {
        (edge / 32) as usize
    };
    let end: usize = if far < 0 {
        0
    } else if far / 32 + 1 > count as i128 {
        count
    } else {
        (far / 32 + 1) as usize
    };
    (start, end)
}

impl WorldMapView {
    /// What is drawn beneath a cell's own image: grass, by the dirt around
    /// it, beneath a tree, and the ground of the tile put aside beneath the
    /// portal. Nothing lies beneath any other tile.
    pub open spec fn underlay(self, col: int, row: int) -> DrawInfo {
        match tile_at(self.tiles, col, row) {
            Some(tile) => match tile.tile_type {
                TileType::Tree => self.grass_info(col, row),
                TileType::Portal => match self.under_portal {
                    Some(covered) => match ground_sprite(covered.tile_type) {
                        Some(sprite) => upright(sprite),
                        None => no_image(),
                    },
                    None => no_image(),
                },
                _ => no_image(),
            },
            None => no_image(),
        }
    }
}

impl WorldMap {
    /// What is drawn beneath the own image of the cell `(x, y)`.
    pub fn underlay(&self, x: usize, y: usize) -> (info: DrawInfo)
        ensures
            info == self@.underlay(x as int, y as int),
    {
        match tile_in(&self.tiles, x, y) {
            Some(tile) => match tile.tile_type {
                TileType::Tree => self.get_grass_tile_info(x, y),
                TileType::Portal => match self.under_portal {
                    Some(covered) => match what_to_draw_tile(&covered.tile_type) {
                        Some(sprite) => DrawInfo::plain(sprite),
                        None => DrawInfo::none(),
                    },
                    None => DrawInfo::none(),
                },
                _ => DrawInfo::none(),
            },
            None => DrawInfo::none(),
        }
    }
}

} // verus!
