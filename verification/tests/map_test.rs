//! Terrain generation and sprite selection.

use aether_of_enclaves::map::{
    add_base_weight, classify_terrain, draw_span, lookup_variant, populate_grass_dirt_map,
    populate_stone_map, what_to_draw_tile, DrawInfo, MapError, Sprite, WorldMap, BASE_WEIGHT,
    NOISE_ONE,
};
use aether_of_enclaves::tile::{Tile, TileType};

fn map_of(tiles: Vec<Vec<Tile>>) -> WorldMap {
    WorldMap {
        tiles,
        grass_dirt_map: populate_grass_dirt_map(),
        stone_map: populate_stone_map(),
        under_portal: None,
        frames_since_last_draw: 0,
    }
}

fn field(width: usize, height: usize, sample: u32) -> Vec<Vec<u32>> {
    vec![vec![sample; height]; width]
}

fn turned(sprite: Sprite, rotation: u16, shift_x: i64, shift_y: i64) -> DrawInfo {
    DrawInfo { image: Some(sprite), rotation, shift_x, shift_y }
}

#[test]
fn terrain_bands() {
    // The score is the product of the first two samples; 1.0 is a million.
    assert_eq!(classify_terrain(0, 0, 0), TileType::Water);
    assert_eq!(classify_terrain(1000, 100, 0), TileType::Water);
    assert_eq!(classify_terrain(1000, 101, 0), TileType::DirtFloor);
    assert_eq!(classify_terrain(1000, 200, 999), TileType::DirtFloor);
    assert_eq!(classify_terrain(1000, 201, 0), TileType::GrassFloor);
    assert_eq!(classify_terrain(1000, 201, 699), TileType::GrassFloor);
    assert_eq!(classify_terrain(1000, 201, 700), TileType::Tree);
    assert_eq!(classify_terrain(600, 1000, 1000), TileType::Tree);
    assert_eq!(classify_terrain(601, 1000, 1000), TileType::StoneWall);
    assert_eq!(classify_terrain(1000, 1000, 0), TileType::StoneWall);
    assert_eq!(classify_terrain(500, 500, 0), TileType::GrassFloor);
    assert_eq!(classify_terrain(u32::MAX, u32::MAX, 0), TileType::StoneWall);
}

#[test]
fn base_weight_is_added_and_capped() {
    let weighted = add_base_weight(&vec![vec![0, 500, 799], vec![800, 900], vec![]], 200);
    assert_eq!(weighted, vec![vec![200, 700, 999], vec![1000, 1000], vec![]]);
    let capped = add_base_weight(&vec![vec![u32::MAX, 5]], u32::MAX);
    assert_eq!(capped, vec![vec![NOISE_ONE, NOISE_ONE]]);
    assert_eq!(add_base_weight(&vec![], 200), Vec::<Vec<u32>>::new());
    assert_eq!(BASE_WEIGHT, 200);
}

#[test]
fn map_from_fields_is_exact() {
    // Elevation 0 becomes 0.2 by the base weight: with shape 1.0 the score is 0.2.
    let worley = vec![vec![1000, 1000], vec![1000, 1000], vec![0, 500]];
    let perlin = vec![vec![0, 1], vec![400, 401], vec![1000, 300]];
    let moist = vec![vec![0, 0], vec![700, 0], vec![0, 699]];
    let alt = vec![vec![false, true], vec![false, false], vec![true, false]];
    let map = WorldMap::from_fields(3, 2, &worley, &perlin, &moist, &alt).unwrap();
    let types: Vec<Vec<TileType>> =
        map.tiles.iter().map(|col| col.iter().map(|t| t.tile_type).collect()).collect();
    assert_eq!(
        types,
        vec![
            vec![TileType::DirtFloor, TileType::GrassFloor],
            vec![TileType::Tree, TileType::StoneWall],
            vec![TileType::Water, TileType::GrassFloor],
        ]
    );
    for (c, col) in map.tiles.iter().enumerate() {
        for (r, tile) in col.iter().enumerate() {
            assert_eq!(tile.passable, tile.tile_type.is_passable());
            assert_eq!(tile.texture, alt[c][r]);
        }
    }
    assert_eq!(map.under_portal, None);
    assert_eq!(map.frames_since_last_draw, 0);
    assert_eq!(map.grass_dirt_map, populate_grass_dirt_map());
    assert_eq!(map.stone_map, populate_stone_map());
    assert_eq!(map.tile_at(1, 1), Some(Tile::new(TileType::StoneWall)));
    assert_eq!(map.tile_at(3, 0), None);
    assert_eq!(map.tile_at(0, 2), None);
}

#[test]
fn generated_map_has_every_cell() {
    let worley = vec![vec![1000, 1000, 0], vec![1000, 1000, 700]];
    let perlin = vec![vec![0, 1, 0], vec![400, 401, 1000]];
    let moist = vec![vec![0, 0, 0], vec![700, 0, 0]];
    let mut textured = 0;
    let mut n = 0;
    while n < 50 {
        let map = WorldMap::new(2, 3, &worley, &perlin, &moist).unwrap();
        assert_eq!(map.tiles.len(), 2);
        let expected = [
            [TileType::DirtFloor, TileType::GrassFloor, TileType::Water],
            [TileType::Tree, TileType::StoneWall, TileType::StoneWall],
        ];
        for c in 0..2 {
            assert_eq!(map.tiles[c].len(), 3);
            for r in 0..3 {
                assert_eq!(map.tiles[c][r].tile_type, expected[c][r]);
                assert_eq!(map.tiles[c][r].passable, expected[c][r].is_passable());
                if map.tiles[c][r].texture {
                    textured += 1;
                }
            }
        }
        assert_eq!(map.under_portal, None);
        n += 1;
    }
    // One tile in ten has the other texture on average: of 300 tiles some
    // do and some do not.
    assert!(textured > 0);
    assert!(textured < 300);
}

#[test]
fn sizeless_maps_are_turned_down() {
    let none: Vec<Vec<u32>> = vec![];
    let no_coins: Vec<Vec<bool>> = vec![];
    assert_eq!(WorldMap::new(0, 0, &none, &none, &none).err(), Some(MapError::ZeroSize));
    assert_eq!(WorldMap::new(0, 5, &none, &none, &none).err(), Some(MapError::ZeroSize));
    assert_eq!(
        WorldMap::new(5, 0, &field(5, 0, 0), &field(5, 0, 0), &field(5, 0, 0)).err(),
        Some(MapError::ZeroSize)
    );
    assert_eq!(
        WorldMap::from_fields(0, 1, &none, &none, &none, &no_coins).err(),
        Some(MapError::ZeroSize)
    );
}

#[test]
fn map_errors_in_words() {
    assert_eq!(MapError::ZeroSize.describe(), "the map has no cells");
    assert_eq!(MapError::FieldShape.describe(), "a field does not have one sample per cell");
}

#[test]
fn misshapen_fields_are_turned_down() {
    let good = field(2, 2, 500);
    let coins = vec![vec![false; 2]; 2];
    assert!(WorldMap::new(2, 2, &good, &good, &good).is_ok());
    assert_eq!(WorldMap::new(2, 2, &field(3, 2, 0), &good, &good).err(), Some(MapError::FieldShape));
    assert_eq!(WorldMap::new(2, 2, &good, &field(2, 1, 0), &good).err(), Some(MapError::FieldShape));
    assert_eq!(
        WorldMap::new(2, 2, &good, &good, &vec![vec![0, 0], vec![0]]).err(),
        Some(MapError::FieldShape)
    );
    assert_eq!(
        WorldMap::from_fields(2, 2, &good, &good, &good, &vec![vec![false; 2]; 3]).err(),
        Some(MapError::FieldShape)
    );
    assert!(WorldMap::from_fields(2, 2, &good, &good, &good, &coins).is_ok());
}

#[test]
fn grass_table_entries() {
    let table = populate_grass_dirt_map();
    assert_eq!(table.len(), 16);
    let at = |r, d, l, u| lookup_variant(&table, r, d, l, u).unwrap();
    assert_eq!(at(false, false, false, false), DrawInfo::none());
    assert_eq!(at(true, false, false, false), turned(Sprite::GrassDirtFloor1Side, 0, 0, 0));
    assert_eq!(at(false, true, false, false), turned(Sprite::GrassDirtFloor1Side, 90, 32, 0));
    assert_eq!(at(false, false, true, false), turned(Sprite::GrassDirtFloor1Side, 180, 32, 32));
    assert_eq!(at(false, false, false, true), turned(Sprite::GrassDirtFloor1Side, 270, 0, 32));
    assert_eq!(at(true, false, false, true), turned(Sprite::GrassDirtFloorCorner, 0, 0, 0));
    assert_eq!(at(true, true, false, false), turned(Sprite::GrassDirtFloorCorner, 90, 32, 0));
    assert_eq!(at(false, true, true, false), turned(Sprite::GrassDirtFloorCorner, 180, 32, 32));
    assert_eq!(at(false, false, true, true), turned(Sprite::GrassDirtFloorCorner, 270, 0, 32));
    assert_eq!(at(true, false, true, false), turned(Sprite::GrassDirtFloor2Side, 0, 0, 0));
    assert_eq!(at(false, true, false, true), turned(Sprite::GrassDirtFloor2Side, 90, 32, 0));
    assert_eq!(at(true, false, true, true), turned(Sprite::GrassDirtFloor3Side, 0, 0, 0));
    assert_eq!(at(true, true, false, true), turned(Sprite::GrassDirtFloor3Side, 90, 32, 0));
    assert_eq!(at(true, true, true, false), turned(Sprite::GrassDirtFloor3Side, 180, 32, 32));
    assert_eq!(at(false, true, true, true), turned(Sprite::GrassDirtFloor3Side, 270, 0, 32));
    assert_eq!(at(true, true, true, true), turned(Sprite::GrassDirtFloor4Side, 0, 0, 0));
}

#[test]
fn stone_table_entries() {
    let table = populate_stone_map();
    assert_eq!(table.len(), 16);
    let at = |r, d, l, u| lookup_variant(&table, r, d, l, u).unwrap();
    assert_eq!(at(true, true, true, true), DrawInfo::none());
    assert_eq!(at(false, true, true, true), turned(Sprite::StoneWallEdge1Side, 0, 0, 0));
    assert_eq!(at(true, false, true, true), DrawInfo::plain(Sprite::StoneWallFront));
    assert_eq!(at(true, true, false, true), turned(Sprite::StoneWallEdge1Side, 180, 32, 32));
    assert_eq!(at(true, true, true, false), turned(Sprite::StoneWallEdge1Side, 270, 0, 32));
    assert_eq!(at(false, true, true, false), turned(Sprite::StoneWallEdgeCorner, 0, 0, 0));
    assert_eq!(at(false, false, true, true), DrawInfo::plain(Sprite::StoneWallFrontREdge));
    assert_eq!(at(true, false, false, true), DrawInfo::plain(Sprite::StoneWallFrontLEdge));
    assert_eq!(at(true, true, false, false), turned(Sprite::StoneWallEdgeCorner, 270, 0, 32));
    assert_eq!(at(false, true, false, true), DrawInfo::plain(Sprite::StoneWallEdge2Side));
    assert_eq!(at(true, false, true, false), DrawInfo::plain(Sprite::StoneWallFrontDeep));
    assert_eq!(at(false, true, false, false), DrawInfo::plain(Sprite::StoneWallEdge3Side));
    assert_eq!(at(false, false, true, false), DrawInfo::plain(Sprite::StoneWallFrontDeep));
    assert_eq!(at(false, false, false, true), DrawInfo::plain(Sprite::StoneWallFront));
    assert_eq!(at(true, false, false, false), DrawInfo::plain(Sprite::StoneWallFrontDeep));
    assert_eq!(at(false, false, false, false), DrawInfo::plain(Sprite::StoneWallFrontDeep));
}

#[test]
fn short_table_has_no_entry() {
    let table = vec![DrawInfo::none(); 3];
    assert_eq!(lookup_variant(&table, false, true, false, false), Some(DrawInfo::none()));
    assert_eq!(lookup_variant(&table, true, true, false, false), None);
    assert_eq!(lookup_variant(&vec![], false, false, false, false), None);
}

#[test]
fn neighbours_select_the_variant() {
    let g = Tile::new(TileType::GrassFloor);
    let d = Tile::new(TileType::DirtFloor);
    let s = Tile::new(TileType::StoneWall);
    // Columns first: tiles[col][row].
    let mut map = map_of(vec![vec![g, d, s], vec![d, g, s], vec![s, s, s]]);
    // The grass at (1, 1) has dirt to its left and above, stone elsewhere.
    assert_eq!(map.get_grass_tile_info(1, 1), turned(Sprite::GrassDirtFloorCorner, 270, 0, 32));
    assert_eq!(map.draw_info(1, 1), turned(Sprite::GrassDirtFloorCorner, 270, 0, 32));
    // The grass at (0, 0) is at the edge: beyond it nothing matches.
    assert_eq!(map.get_grass_tile_info(0, 0), turned(Sprite::GrassDirtFloorCorner, 90, 32, 0));
    // Plain dirt, by its texture.
    assert_eq!(map.draw_info(0, 1), DrawInfo::plain(Sprite::DirtFloor));
    map.tiles[0][1].texture = true;
    assert_eq!(map.draw_info(0, 1), DrawInfo::plain(Sprite::DirtFloorTexture));
    // The stone at (2, 2), in the corner, has stone to its left and above.
    assert_eq!(map.draw_info(2, 2), DrawInfo::plain(Sprite::StoneWallFrontREdge));
    // The stone at (2, 1) has stone above and below.
    assert_eq!(map.draw_info(2, 1), DrawInfo::plain(Sprite::StoneWallEdge2Side));
    // The stone at (1, 2) has stone on both sides.
    assert_eq!(map.draw_info(1, 2), DrawInfo::plain(Sprite::StoneWallFrontDeep));
    // Beyond the map nothing is drawn.
    assert_eq!(map.draw_info(3, 0), DrawInfo::none());
    assert_eq!(map.get_grass_tile_info(0, 3), DrawInfo::none());
    assert_eq!(map.what_to_draw(9, 9), DrawInfo::none());
}

#[test]
fn plain_tiles_by_texture() {
    let g = Tile::new(TileType::GrassFloor);
    let s = Tile::new(TileType::StoneWall);
    let mut map = map_of(vec![vec![g]]);
    assert_eq!(map.what_to_draw(0, 0), DrawInfo::plain(Sprite::GrassFloor));
    map.tiles[0][0].texture = true;
    assert_eq!(map.what_to_draw(0, 0), DrawInfo::plain(Sprite::GrassFloorTexture));
    // Stone with stone on all four sides is plain stone.
    let mut map = map_of(vec![vec![s; 3]; 3]);
    assert_eq!(map.what_to_draw(1, 1), DrawInfo::plain(Sprite::StoneWall));
    map.tiles[1][1].texture = true;
    assert_eq!(map.what_to_draw(1, 1), DrawInfo::plain(Sprite::StoneWallTexture));
    let mut map = map_of(vec![vec![
        Tile::new(TileType::Tree),
        Tile::new(TileType::Portal),
        Tile::new(TileType::Air),
        Tile::new(TileType::WoodFloor),
        Tile::new(TileType::Wheel),
    ]]);
    assert_eq!(map.what_to_draw(0, 0), DrawInfo::plain(Sprite::Tree));
    assert_eq!(map.what_to_draw(0, 1), DrawInfo::plain(Sprite::Portal));
    assert_eq!(map.what_to_draw(0, 2), DrawInfo::none());
    assert_eq!(map.what_to_draw(0, 3), DrawInfo::none());
    assert_eq!(map.what_to_draw(0, 4), DrawInfo::none());
    assert_eq!(map.frames_since_last_draw, 0);
}

#[test]
fn a_short_table_draws_nothing() {
    let s = Tile::new(TileType::StoneWall);
    let mut map = map_of(vec![vec![s; 3]; 3]);
    map.stone_map = vec![];
    assert_eq!(map.draw_info(1, 1), DrawInfo::none());
}

#[test]
fn water_changes_on_its_cadence() {
    let w = Tile::new(TileType::Water);
    let mut map = map_of(vec![vec![w, Tile::new(TileType::DirtFloor)]]);
    let mut n = 1;
    // Eleven draws are counted without any change.
    while n <= 11 {
        assert!(!map.water_due(0, 0));
        assert_eq!(map.what_to_draw_with(0, 0, true), DrawInfo::plain(Sprite::Water));
        assert_eq!(map.frames_since_last_draw, n);
        n += 1;
    }
    // Drawing something else counts nothing.
    assert!(!map.water_due(0, 1));
    assert_eq!(map.what_to_draw_with(0, 1, true), DrawInfo::plain(Sprite::DirtFloor));
    assert_eq!(map.frames_since_last_draw, 11);
    // The twelfth draw takes the roll and starts the count again.
    assert!(map.water_due(0, 0));
    assert_eq!(map.what_to_draw_with(0, 0, true), DrawInfo::plain(Sprite::WaterTexture));
    assert!(map.tiles[0][0].texture);
    assert_eq!(map.tiles[0][0].tile_type, TileType::Water);
    assert!(!map.tiles[0][0].passable);
    assert_eq!(map.frames_since_last_draw, 1);
    assert_eq!(map.what_to_draw_with(0, 0, false), DrawInfo::plain(Sprite::WaterTexture));
    map.frames_since_last_draw = u32::MAX;
    assert_eq!(map.what_to_draw_with(0, 0, false), DrawInfo::plain(Sprite::Water));
    assert_eq!(map.frames_since_last_draw, 1);
}

#[test]
fn water_with_a_coin() {
    let w = Tile::new(TileType::Water);
    let mut map = map_of(vec![vec![w]]);
    let mut n = 0;
    let mut seen = (false, false);
    while n < 2000 {
        let before = map.tiles[0][0].texture;
        let due = map.water_due(0, 0);
        let info = map.what_to_draw(0, 0);
        let after = map.tiles[0][0].texture;
        if !due {
            assert_eq!(before, after);
        }
        if after {
            seen.0 = true;
        } else {
            seen.1 = true;
        }
        let expected = if after { Sprite::WaterTexture } else { Sprite::Water };
        assert_eq!(info, DrawInfo::plain(expected));
        assert!(map.frames_since_last_draw >= 1 && map.frames_since_last_draw <= 11);
        n += 1;
    }
    // Some hundred and eighty coins do not all fall on one side.
    assert_eq!(seen, (true, true));
}

#[test]
fn ground_under_the_portal() {
    assert_eq!(what_to_draw_tile(&TileType::GrassFloor), Some(Sprite::GrassFloor));
    assert_eq!(what_to_draw_tile(&TileType::Tree), Some(Sprite::GrassFloor));
    assert_eq!(what_to_draw_tile(&TileType::DirtFloor), Some(Sprite::DirtFloor));
    assert_eq!(what_to_draw_tile(&TileType::Water), None);
    assert_eq!(what_to_draw_tile(&TileType::Portal), None);
    let d = Tile::new(TileType::DirtFloor);
    let mut map = map_of(vec![
        vec![Tile::new(TileType::Tree), d],
        vec![Tile::new(TileType::Portal), Tile::new(TileType::GrassFloor)],
    ]);
    // Beneath the tree lies grass, shaped by the dirt below it.
    assert_eq!(map.underlay(0, 0), turned(Sprite::GrassDirtFloor1Side, 90, 32, 0));
    assert_eq!(map.underlay(1, 0), DrawInfo::none());
    map.under_portal = Some(d);
    assert_eq!(map.underlay(1, 0), DrawInfo::plain(Sprite::DirtFloor));
    map.under_portal = Some(Tile::new(TileType::Water));
    assert_eq!(map.underlay(1, 0), DrawInfo::none());
    assert_eq!(map.underlay(1, 1), DrawInfo::none());
    assert_eq!(map.underlay(5, 5), DrawInfo::none());
}

#[test]
fn visible_span() {
    // A window 640 wide around pixel 16000 of a map of 1000 columns.
    assert_eq!(draw_span(16000, 640, 1000), (489, 511));
    // Near the map's origin the span starts with the first column.
    assert_eq!(draw_span(100, 640, 1000), (0, 14));
    assert_eq!(draw_span(352, 640, 1000), (0, 22));
    assert_eq!(draw_span(384, 640, 1000), (1, 23));
    // Near its far edge the span ends with the map.
    assert_eq!(draw_span(31900, 640, 1000), (985, 1000));
    // Away from the map nothing is seen.
    assert_eq!(draw_span(-1000, 640, 1000), (0, 0));
    assert_eq!(draw_span(100000, 640, 1000), (1000, 1000));
    assert_eq!(draw_span(i64::MAX, u32::MAX, 10), (10, 10));
    assert_eq!(draw_span(i64::MIN, u32::MAX, 10), (0, 0));
    assert_eq!(draw_span(0, 0, 0), (0, 0));
}
