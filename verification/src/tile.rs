//! Tiles: the cells of the world map and of the ship's deck.
//!
//! Floor tiles can be walked on, walls and open air cannot.

use vstd::prelude::*;

verus! {

/// What a cell is made of.
#[derive(Clone, Copy, Debug, PartialEq, Eq, Structural)]
pub enum TileType {
    WoodFloor,
    StoneWall,
    GrassFloor,
    DirtFloor,
    Tree,
    Air,
    Water,
    Wheel,
    Portal,
}

/// One cell of a grid.
#[derive(Clone, Copy, Debug, PartialEq, Eq, Structural)]
pub struct Tile {
    /// The tile's type.
    pub tile_type: TileType,
    /// Whether the tile can be walked on.
    pub passable: bool,
    /// Whether the tile is drawn with its alternative texture.
    pub texture: bool,
}

/// Whether a tile of the given type can be walked on: water, stone walls,
/// open air and trees block movement, every floor, the wheel and the portal
/// do not.
pub open spec fn classify(tile_type: TileType) -> bool {
    match tile_type {
        TileType::Water | TileType::StoneWall | TileType::Air | TileType::Tree => false,
        TileType::WoodFloor
        | TileType::GrassFloor
        | TileType::DirtFloor
        | TileType::Wheel
        | TileType::Portal => true,
    }
}

impl TileType {
    /// Executable form of [`classify`].
    pub fn is_passable(self) -> (passable: bool)
        ensures
            passable == classify(self),
    {
        match self {
            TileType::Water | TileType::StoneWall | TileType::Air | TileType::Tree => false,
            _ => true,
        }
    }
}

impl Tile {
    /// A tile's passability is the one its type dictates.
    pub open spec fn wf(self) -> bool {
        self.passable == classify(self.tile_type)
    }

    /// A fresh tile of the given type, with the plain texture.
    pub fn new(tile_type: TileType) -> (tile: Tile)
        ensures
            tile == (Tile { tile_type, passable: classify(tile_type), texture: false }),
            tile.wf(),
    {
        let can_pass = tile_type.is_passable();
        Tile { tile_type: tile_type, passable: can_pass, texture: false }
    }
}

} // verus!
