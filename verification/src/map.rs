//! The map: its grid of tiles, the path of the enemies and the world
//! coordinates of a tile.

use crate::timer::{GameTimer, TimerMode};
use rand::seq::SliceRandom;
use rand::Rng;
use vstd::prelude::*;
use vstd::seq_lib::{lemma_seq_concat_contains_all_elements, lemma_seq_contains_after_push};

verus! {

/// Rows of the grid.
pub const MAP_ROWS: usize = 15;

/// Columns of the grid.
pub const MAP_COLS: usize = 15;

/// The grid, row by row. 0 is empty space, 1 a floor tile, 2 the far end of
/// the ferry, 3 the spawner of tower kits and 4 the spawner of ammunition.
pub const MAP: [[u8; 15]; 15] = [
    [0, 0, 0, 0, 0, 0, 0, 0, 0, 0, 0, 0, 0, 0, 0],
    [0, 0, 0, 0, 0, 0, 0, 0, 0, 0, 0, 0, 0, 0, 0],
    [0, 0, 0, 0, 0, 1, 1, 1, 1, 1, 1, 0, 0, 0, 0],
    [0, 0, 0, 0, 0, 1, 0, 1, 0, 1, 1, 0, 0, 0, 0],
    [0, 0, 0, 0, 0, 0, 0, 0, 0, 0, 0, 0, 0, 0, 0],
    [0, 0, 0, 0, 0, 1, 0, 0, 0, 1, 1, 0, 1, 0, 0],
    [0, 0, 0, 0, 0, 0, 0, 0, 0, 0, 0, 0, 1, 0, 0],
    [0, 0, 0, 0, 1, 1, 0, 0, 0, 0, 0, 0, 1, 0, 0],
    [0, 0, 0, 0, 1, 1, 0, 0, 0, 0, 0, 0, 1, 0, 0],
    [0, 0, 0, 0, 0, 0, 0, 0, 0, 0, 0, 0, 0, 0, 0],
    [0, 0, 0, 1, 1, 1, 0, 0, 0, 0, 0, 0, 1, 0, 0],
    [0, 0, 0, 0, 0, 0, 0, 0, 0, 0, 0, 1, 1, 3, 0],
    [0, 0, 0, 0, 0, 1, 0, 0, 0, 0, 2, 1, 1, 4, 0],
    [0, 0, 0, 0, 0, 0, 0, 0, 0, 0, 0, 0, 0, 0, 0],
    [0, 0, 0, 0, 0, 0, 0, 0, 0, 0, 0, 0, 0, 0, 0],
];

/// A cell of the grid: `x` is its column, `y` its row.
#[derive(Clone, Copy, Debug, PartialEq, Eq, Structural)]
pub struct TilePos {
    pub x: u32,
    pub y: u32,
}

/// A place in the world, in whole world units. A tile is two units wide.
#[derive(Clone, Copy, Debug, PartialEq, Eq, Structural)]
pub struct WorldPos {
    pub x: i64,
    pub y: i64,
    pub z: i64,
}

/// World units along each side of a tile.
pub const TILE_WIDTH: i64 = 2;

/// The world coordinates of the middle of tile `pos`: the grid is centred on
/// the origin, at ground level.
pub open spec fn spec_map_to_world(pos: TilePos) -> WorldPos {
    WorldPos {
        x: ((pos.x - MAP_COLS / 2) * TILE_WIDTH) as i64,
        y: 0,
        z: ((pos.y - MAP_ROWS / 2) * TILE_WIDTH) as i64,
    }
}

/// The world coordinates of the middle of tile `pos`.
pub fn map_to_world(pos: TilePos) -> (r: WorldPos)
    ensures
        r == spec_map_to_world(pos),
{
    let half_cols: i64 = (MAP_COLS / 2) as i64;
    let half_rows: i64 = (MAP_ROWS / 2) as i64;
    WorldPos {
        x: (pos.x as i64 - half_cols) * TILE_WIDTH,
        y: 0,
        z: (pos.y as i64 - half_rows) * TILE_WIDTH,
    }
}

/// The code of the cell in `row` and `col`.
pub open spec fn spec_tile_code(row: int, col: int) -> u8 {
    MAP[row][col]
}

/// The code of the cell in `row` and `col`.
pub fn tile_code(row: usize, col: usize) -> (r: u8)
    requires
        row < MAP_ROWS,
        col < MAP_COLS,
    ensures
        r == spec_tile_code(row as int, col as int),
{
    MAP[row][col]
}

/// The waypoints of the enemies, first to last.
pub open spec fn spec_path() -> Seq<TilePos> {
    seq![
        TilePos { x: 0, y: 4 },
        TilePos { x: 11, y: 4 },
        TilePos { x: 11, y: 10 },
        TilePos { x: 6, y: 10 },
        TilePos { x: 6, y: 9 },
        TilePos { x: 3, y: 9 },
        TilePos { x: 3, y: 7 },
        TilePos { x: 0, y: 7 },
    ]
}

/// Number of waypoints.
pub const PATH_LEN: usize = 8;

/// The waypoint at `index`, if the path is that long.
pub fn waypoint(index: usize) -> (r: Option<TilePos>)
    ensures
        index < PATH_LEN ==> r == Some(spec_path()[index as int]),
        index >= PATH_LEN ==> r.is_none(),
{
    match index {
        0 => Some(TilePos { x: 0, y: 4 }),
        1 => Some(TilePos { x: 11, y: 4 }),
        2 => Some(TilePos { x: 11, y: 10 }),
        3 => Some(TilePos { x: 6, y: 10 }),
        4 => Some(TilePos { x: 6, y: 9 }),
        5 => Some(TilePos { x: 3, y: 9 }),
        6 => Some(TilePos { x: 3, y: 7 }),
        7 => Some(TilePos { x: 0, y: 7 }),
        _ => None,
    }
}

/// The tile on which the player starts, and to which a fall may lead back.
pub open spec fn spec_start_tile() -> TilePos {
    TilePos { x: 12, y: 11 }
}

/// The tile on which the player starts.
pub fn start_tile() -> (r: TilePos)
    ensures
        r == spec_start_tile(),
{
    TilePos { x: 12, y: 11 }
}

/// What can be picked up and carried.
#[derive(Clone, Copy, Debug, PartialEq, Eq, Structural)]
pub enum Item {
    TowerKit,
    LaserAmmo,
}

impl Item {
    /// The name shown above a spawner that holds the item.
    pub open spec fn spec_label(self) -> Seq<char> {
        match self {
            Item::TowerKit => "Tower Kit"@,
            Item::LaserAmmo => "Ammo"@,
        }
    }

    /// The name shown above a spawner that holds the item.
    pub fn label(&self) -> (r: String)
        ensures
            r@ == self.spec_label(),
    {
        match self {
            Item::TowerKit => "Tower Kit".to_owned(),
            Item::LaserAmmo => "Ammo".to_owned(),
        }
    }
}

/// What stands on a cell.
#[derive(Clone, Copy, Debug, PartialEq, Eq, Structural)]
pub enum TileKind {
    Floor,
    Spawner(Item),
}

/// The scene that shows a tile.
#[derive(Clone, Copy, Debug, PartialEq, Eq, Structural)]
pub enum TileModel {
    Tile1,
    Tile2,
    Tile3,
    Tile4,
    ItemSpawner,
}

/// One tile to put into the world.
#[derive(Clone, Copy, Debug, PartialEq, Eq, Structural)]
pub struct TileSpawn {
    pub pos: TilePos,
    pub kind: TileKind,
    pub model: TileModel,
    /// Quarter turns about the vertical axis.
    pub quarter_turns: u32,
    /// Whether the tile is the ferry, which moves between its waypoints.
    pub ferry: bool,
}

/// Seconds that the spawner of tower kits takes.
pub const TOWER_KIT_SECS: u64 = 30;

/// Seconds that the spawner of ammunition takes.
pub const LASER_AMMO_SECS: u64 = 2;

/// Whether a cell with `code` holds a tile.
pub open spec fn spec_solid(code: u8) -> bool {
    code != 0 && code != 2
}

/// What a solid cell with `code` holds.
pub open spec fn spec_kind(code: u8) -> TileKind {
    if code == 3 {
        TileKind::Spawner(Item::TowerKit)
    } else if code == 4 {
        TileKind::Spawner(Item::LaserAmmo)
    } else {
        TileKind::Floor
    }
}

/// The solid cells among the first `n` cells of the grid, counted row by row.
pub open spec fn spec_solid_cells(n: nat) -> Seq<TilePos>
    decreases n,
{
    if n == 0 {
        Seq::empty()
    } else {
        let k = (n - 1) as nat;
        let row = k as int / MAP_COLS as int;
        let col = k as int % MAP_COLS as int;
        if spec_solid(spec_tile_code(row, col)) {
            spec_solid_cells(k).push(TilePos { x: col as u32, y: row as u32 })
        } else {
            spec_solid_cells(k)
        }
    }
}

/// Whether `tile` is a tile that the grid asks for at its cell: its kind goes
/// by the cell's code, a spawner has the spawner's scene and a floor one of
/// the four floor scenes, it is turned by no, one or two quarter turns, and
/// the ferry is the tile in column 5 of row 12.
pub open spec fn spec_tile_ok(tile: TileSpawn) -> bool {
    &&& tile.pos.y < MAP_ROWS
    &&& tile.pos.x < MAP_COLS
    &&& tile.kind == spec_kind(spec_tile_code(tile.pos.y as int, tile.pos.x as int))
    &&& (tile.kind == TileKind::Floor) == (tile.model != TileModel::ItemSpawner)
    &&& tile.quarter_turns < 3
    &&& tile.ferry == (tile.pos.x == 5 && tile.pos.y == 12)
}

/// `rand::Rng::gen_range` on the range from zero up to `bound`, with the
/// thread's generator: some number below `bound`. Which one is left open.
#[verifier::external_body]
fn random_below(bound: u32) -> (r: u32)
    requires
        bound > 0,
    ensures
        r < bound,
{
    rand::thread_rng().gen_range(0..bound)
}

/// `rand::seq::SliceRandom::choose` on `models`, with the thread's
/// generator: one of the scenes, and none only where there is none to choose
/// from. Which one is left open.
#[verifier::external_body]
fn choose_model(models: &Vec<TileModel>) -> (r: Option<TileModel>)
    ensures
        match r {
            Some(model) => models@.contains(model),
            None => models@.len() == 0,
        },
{
    models.choose(&mut rand::thread_rng()).copied()
}

/// The tile for the solid cell in `row` and `col` with `code`: a spawner
/// where the code asks for one, and else a floor with the scene `floor`.
pub fn tile_for(row: usize, col: usize, code: u8, floor: TileModel, quarter_turns: u32) -> (r:
    TileSpawn)
    requires
        row < MAP_ROWS,
        col < MAP_COLS,
    ensures
        r.pos == (TilePos { x: col as u32, y: row as u32 }),
        r.kind == spec_kind(code),
        r.model == if code == 3 || code == 4 {
            TileModel::ItemSpawner
        } else {
            floor
        },
        r.quarter_turns == quarter_turns,
        r.ferry == (col == 5 && row == 12),
{
    let kind = if code == 3 {
        TileKind::Spawner(Item::TowerKit)
    } else if code == 4 {
        TileKind::Spawner(Item::LaserAmmo)
    } else {
        TileKind::Floor
    };
    let model = if code == 3 || code == 4 {
        TileModel::ItemSpawner
    } else {
        floor
    };
    TileSpawn {
        pos: TilePos { x: col as u32, y: row as u32 },
        kind,
        model,
        quarter_turns,
        ferry: col == 5 && row == 12,
    }
}

/// The tiles of the map, row by row: one for each solid cell, each with a
/// floor scene and a turn that chance picks.
pub fn spawn_map() -> (r: Vec<TileSpawn>)
    ensures
        r@.len() == 32,
        r@.len() == spec_solid_cells((MAP_ROWS * MAP_COLS) as nat).len(),
        forall|i: int|
            0 <= i < r@.len() ==> (#[trigger] r@[i]).pos == spec_solid_cells(
                (MAP_ROWS * MAP_COLS) as nat,
            )[i] && spec_tile_ok(r@[i]),
{
    let mut floors: Vec<TileModel> = Vec::new();
    floors.push(TileModel::Tile1);
    floors.push(TileModel::Tile2);
    floors.push(TileModel::Tile3);
    floors.push(TileModel::Tile4);
    let mut tiles: Vec<TileSpawn> = Vec::new();
    let mut row: usize = 0;
    while row < MAP_ROWS
        invariant
            row <= MAP_ROWS,
            floors@ == seq![TileModel::Tile1, TileModel::Tile2, TileModel::Tile3, TileModel::Tile4],
            tiles@.len() == spec_solid_cells((row * MAP_COLS) as nat).len(),
            forall|i: int|
                0 <= i < tiles@.len() ==> (#[trigger] tiles@[i]).pos == spec_solid_cells(
                    (row * MAP_COLS) as nat,
                )[i] && spec_tile_ok(tiles@[i]),
        decreases MAP_ROWS - row,
    {
        let mut col: usize = 0;
        while col < MAP_COLS
            invariant
                row < MAP_ROWS,
                col <= MAP_COLS,
                floors@ == seq![
                    TileModel::Tile1,
                    TileModel::Tile2,
                    TileModel::Tile3,
                    TileModel::Tile4,
                ],
                tiles@.len() == spec_solid_cells((row * MAP_COLS + col) as nat).len(),
                forall|i: int|
                    0 <= i < tiles@.len() ==> (#[trigger] tiles@[i]).pos == spec_solid_cells(
                        (row * MAP_COLS + col) as nat,
                    )[i] && spec_tile_ok(tiles@[i]),
            decreases MAP_COLS - col,
        {
            let code = tile_code(row, col);
            let ghost before = spec_solid_cells((row * MAP_COLS + col) as nat);
            let ghost after = spec_solid_cells((row * MAP_COLS + col + 1) as nat);
            proof {
                let k = row * MAP_COLS + col;
                assert(k as int / MAP_COLS as int == row && k as int % MAP_COLS as int == col);
                assert(after == if spec_solid(code) {
                    before.push(TilePos { x: col as u32, y: row as u32 })
                } else {
                    before
                });
            }
            if code != 0 && code != 2 {
                let floor = if code == 3 || code == 4 {
                    TileModel::ItemSpawner
                } else {
                    choose_model(&floors).unwrap()
                };
                let tile = tile_for(row, col, code, floor, random_below(3));
                assert(spec_tile_ok(tile));
                tiles.push(tile);
            }
            col += 1;
        }
        row += 1;
    }
    proof {
        map_tile_count();
    }
    tiles
}

/// The map has thirty-two tiles.
pub proof fn map_tile_count()
    ensures
        spec_solid_cells((MAP_ROWS * MAP_COLS) as nat).len() == 32,
{
    reveal_with_fuel(spec_solid_cells, 16);
    assert(spec_solid_cells(15).len() == 0);
    assert(spec_solid_cells(30).len() == 0);
    assert(spec_solid_cells(45).len() == 6);
    assert(spec_solid_cells(60).len() == 10);
    assert(spec_solid_cells(75).len() == 10);
    assert(spec_solid_cells(90).len() == 14);
    assert(spec_solid_cells(105).len() == 15);
    assert(spec_solid_cells(120).len() == 18);
    assert(spec_solid_cells(135).len() == 21);
    assert(spec_solid_cells(150).len() == 21);
    assert(spec_solid_cells(165).len() == 25);
    assert(spec_solid_cells(180).len() == 28);
    assert(spec_solid_cells(195).len() == 32);
    assert(spec_solid_cells(210).len() == 32);
    assert(spec_solid_cells(225).len() == 32);
}

/// The smaller of two coordinates.
pub open spec fn spec_low(a: u32, b: u32) -> u32 {
    if a <= b {
        a
    } else {
        b
    }
}

/// The larger of two coordinates.
pub open spec fn spec_high(a: u32, b: u32) -> u32 {
    if a <= b {
        b
    } else {
        a
    }
}

/// Whether `p` lies in the rectangle of cells with corners `start` and `end`;
/// for two waypoints in one row or column, on the stretch between them.
pub open spec fn spec_on_segment(start: TilePos, end: TilePos, p: TilePos) -> bool {
    &&& spec_low(start.x, end.x) <= p.x <= spec_high(start.x, end.x)
    &&& spec_low(start.y, end.y) <= p.y <= spec_high(start.y, end.y)
}

/// Number of cells in the rectangle with corners `start` and `end`.
pub open spec fn spec_segment_len(start: TilePos, end: TilePos) -> int {
    (spec_high(start.x, end.x) - spec_low(start.x, end.x) + 1) * (spec_high(start.y, end.y)
        - spec_low(start.y, end.y) + 1)
}

/// The cells from `start` to `end`, each once.
pub fn segment_tiles(start: TilePos, end: TilePos) -> (r: Vec<TilePos>)
    requires
        spec_segment_len(start, end) <= usize::MAX,
    ensures
        r@.len() == spec_segment_len(start, end),
        r@.no_duplicates(),
        forall|p: TilePos| r@.contains(p) <==> spec_on_segment(start, end, p),
{
    let lo_x: u64 = if start.x <= end.x { start.x as u64 } else { end.x as u64 };
    let hi_x: u64 = if start.x <= end.x { end.x as u64 } else { start.x as u64 };
    let lo_y: u64 = if start.y <= end.y { start.y as u64 } else { end.y as u64 };
    let hi_y: u64 = if start.y <= end.y { end.y as u64 } else { start.y as u64 };
    let ghost height: int = hi_y - lo_y + 1;
    let mut tiles: Vec<TilePos> = Vec::new();
    let mut col: u64 = lo_x;
    while col <= hi_x
        invariant
            lo_x <= col <= hi_x + 1,
            hi_x <= u32::MAX,
            lo_y <= hi_y <= u32::MAX,
            height == hi_y - lo_y + 1,
            tiles@.len() == (col - lo_x) * height,
            tiles@.no_duplicates(),
            forall|p: TilePos|
                #[trigger] tiles@.contains(p) <==> (lo_x <= p.x < col && lo_y <= p.y <= hi_y),
        decreases hi_x + 1 - col,
    {
        let mut row: u64 = lo_y;
        while row <= hi_y
            invariant
                lo_x <= col <= hi_x,
                hi_x <= u32::MAX,
                lo_y <= row <= hi_y + 1,
                hi_y <= u32::MAX,
                height == hi_y - lo_y + 1,
                tiles@.len() == (col - lo_x) * height + (row - lo_y),
                tiles@.no_duplicates(),
                forall|p: TilePos|
                    #[trigger] tiles@.contains(p) <==> ((lo_x <= p.x < col && lo_y <= p.y
                        <= hi_y) || (p.x == col && lo_y <= p.y < row)),
            decreases hi_y + 1 - row,
        {
            let tile = TilePos { x: col as u32, y: row as u32 };
            let ghost before = tiles@;
            tiles.push(tile);
            proof {
                assert(!before.contains(tile));
                assert forall|p: TilePos| #[trigger]
                    tiles@.contains(p) <==> ((lo_x <= p.x < col && lo_y <= p.y <= hi_y) || (p.x
                        == col && lo_y <= p.y < row + 1)) by {
                    lemma_seq_contains_after_push(before, tile, p);
                    assert(p == tile <==> (p.x == col && p.y == row));
                }
                assert forall|i: int, j: int|
                    0 <= i < tiles@.len() && 0 <= j < tiles@.len() && i != j implies tiles@[i]
                    != tiles@[j] by {
                    if i < before.len() && j < before.len() {
                        assert(before[i] != before[j]);
                    } else if i < before.len() {
                        assert(before.contains(before[i]));
                    } else {
                        assert(before.contains(before[j]));
                    }
                }
            }
            row += 1;
        }
        proof {
            assert((col - lo_x) * height + height == (col + 1 - lo_x) * height)
                by (nonlinear_arith);
        }
        col += 1;
    }
    proof {
        assert(hi_x + 1 - lo_x == spec_high(start.x, end.x) - spec_low(start.x, end.x) + 1);
    }
    tiles
}

/// Whether `p` lies on the path: between two waypoints that follow each
/// other.
pub open spec fn spec_on_path(p: TilePos) -> bool {
    exists|i: int|
        0 <= i < PATH_LEN - 1 && spec_on_segment(
            #[trigger] spec_path()[i],
            spec_path()[i + 1],
            p,
        )
}

/// Number of cells on the first `n` stretches of the path, a waypoint where
/// two stretches meet counted with both.
pub open spec fn spec_dots(n: nat) -> int
    decreases n,
{
    if n == 0 {
        0
    } else {
        spec_dots((n - 1) as nat) + spec_segment_len(spec_path()[n - 1], spec_path()[n as int])
    }
}

/// The cells that get a marker of the path: those of each stretch, stretch by
/// stretch.
pub fn path_dots() -> (r: Vec<TilePos>)
    ensures
        r@.len() == spec_dots((PATH_LEN - 1) as nat),
        forall|p: TilePos| r@.contains(p) <==> spec_on_path(p),
{
    let mut dots: Vec<TilePos> = Vec::new();
    let mut i: usize = 0;
    while i + 1 < PATH_LEN
        invariant
            i + 1 <= PATH_LEN,
            dots@.len() == spec_dots(i as nat),
            forall|p: TilePos|
                dots@.contains(p) <==> (exists|j: int|
                    0 <= j < i && spec_on_segment(
                        #[trigger] spec_path()[j],
                        spec_path()[j + 1],
                        p,
                    )),
        decreases PATH_LEN - i,
    {
        let start = waypoint(i).unwrap();
        let end = waypoint(i + 1).unwrap();
        proof {
            stretch_is_short(i as int);
        }
        let mut stretch = segment_tiles(start, end);
        let ghost before = dots@;
        let ghost added = stretch@;
        dots.append(&mut stretch);
        proof {
            assert forall|p: TilePos|
                dots@.contains(p) <==> (exists|j: int|
                    0 <= j < i + 1 && spec_on_segment(
                        #[trigger] spec_path()[j],
                        spec_path()[j + 1],
                        p,
                    )) by {
                lemma_seq_concat_contains_all_elements(before, added, p);
                if added.contains(p) {
                    assert(spec_on_segment(spec_path()[i as int], spec_path()[i + 1], p));
                }
            }
        }
        i += 1;
    }
    dots
}

/// No stretch of the path is longer than the grid is wide.
pub proof fn stretch_is_short(i: int)
    requires
        0 <= i < PATH_LEN - 1,
    ensures
        1 <= spec_segment_len(spec_path()[i], spec_path()[i + 1]) <= MAP_COLS,
{
    let start = spec_path()[i];
    let end = spec_path()[i + 1];
    let width = spec_high(start.x, end.x) - spec_low(start.x, end.x) + 1;
    let height = spec_high(start.y, end.y) - spec_low(start.y, end.y) + 1;
    assert(spec_segment_len(start, end) == width * height);
    if i == 0 {
        assert(width == 12 && height == 1);
    } else if i == 1 {
        assert(width == 1 && height == 7);
    } else if i == 2 {
        assert(width == 6 && height == 1);
    } else if i == 3 {
        assert(width == 1 && height == 2);
    } else if i == 4 {
        assert(width == 4 && height == 1);
    } else if i == 5 {
        assert(width == 1 && height == 3);
    } else {
        assert(width == 4 && height == 1);
    }
    assert(1 <= width * height <= 15) by (nonlinear_arith)
        requires
            (1 <= width <= 15 && height == 1) || (width == 1 && 1 <= height <= 15),
    ;
}

/// The path has thirty-eight markers.
pub proof fn path_dots_count()
    ensures
        spec_dots((PATH_LEN - 1) as nat) == 38,
{
    assert(spec_dots(0) == 0);
    assert(spec_dots(1) == 12) by {
        assert(spec_segment_len(spec_path()[0], spec_path()[1]) == 12 * 1);
    }
    assert(spec_dots(2) == 19) by {
        assert(spec_segment_len(spec_path()[1], spec_path()[2]) == 1 * 7);
    }
    assert(spec_dots(3) == 25) by {
        assert(spec_segment_len(spec_path()[2], spec_path()[3]) == 6 * 1);
    }
    assert(spec_dots(4) == 27) by {
        assert(spec_segment_len(spec_path()[3], spec_path()[4]) == 1 * 2);
    }
    assert(spec_dots(5) == 31) by {
        assert(spec_segment_len(spec_path()[4], spec_path()[5]) == 4 * 1);
    }
    assert(spec_dots(6) == 34) by {
        assert(spec_segment_len(spec_path()[5], spec_path()[6]) == 1 * 3);
    }
    assert(spec_dots(7) == 38) by {
        assert(spec_segment_len(spec_path()[6], spec_path()[7]) == 4 * 1);
    }
}

/// Every waypoint lies on the path, and so does every cell that the grid
/// shows between two waypoints that follow each other.
pub proof fn waypoints_on_path(i: int)
    requires
        0 <= i < PATH_LEN,
    ensures
        spec_on_path(spec_path()[i]),
{
    if i < PATH_LEN - 1 {
        assert(spec_on_segment(spec_path()[i], spec_path()[i + 1], spec_path()[i]));
    } else {
        assert(spec_on_segment(spec_path()[i - 1], spec_path()[i], spec_path()[i]));
    }
}

/// Gives out one item, and the next after a while once that one is taken.
#[derive(Clone, Copy, Debug, PartialEq, Eq, Structural)]
pub struct ItemSpawner {
    pub item: Item,
    pub timer: GameTimer,
    /// How many items it has given out.
    pub spawned: usize,
}

impl ItemSpawner {
    /// A spawner of `item` that takes `duration` nanoseconds and begins with
    /// `head_start` of them behind it.
    pub fn new(item: Item, duration: u64, head_start: u64) -> (r: Self)
        ensures
            r.item == item,
            r.spawned == 0,
            r.timer == (GameTimer {
                duration,
                elapsed: head_start,
                mode: TimerMode::Once,
                finished: false,
                just_finished: false,
            }),
    {
        let mut timer = GameTimer::new(duration, TimerMode::Once);
        timer.elapsed = head_start;
        ItemSpawner { item, timer, spawned: 0 }
    }

    /// The spawner after a frame of `delta` nanoseconds, and the item that
    /// the frame brings out, if it brings one out.
    pub open spec fn spec_item_spawner(self, delta: u64) -> (ItemSpawner, Option<Item>) {
        let timer = self.timer.spec_tick(delta);
        if timer.just_finished {
            (
                ItemSpawner { timer, spawned: (self.spawned + 1) as usize, ..self },
                Some(self.item),
            )
        } else {
            (ItemSpawner { timer, ..self }, None)
        }
    }

    /// Runs the spawner for a frame of `delta` nanoseconds and returns the
    /// item to bring out, if its time is up with this frame.
    pub fn item_spawner(&mut self, delta: u64) -> (r: Option<Item>)
        requires
            old(self).timer.spec_tick(delta).just_finished ==> old(self).spawned < usize::MAX,
        ensures
            (*final(self), r) == old(self).spec_item_spawner(delta),
    {
        self.timer.tick(delta);
        if !self.timer.just_finished {
            return None;
        }
        self.spawned += 1;
        Some(self.item)
    }

    /// Starts the time for the next item once none of `items` items lies on
    /// the spawner any more.
    pub fn item_spawner_reset(&mut self, items: usize)
        ensures
            items == 0 ==> *final(self) == (ItemSpawner {
                timer: old(self).timer.spec_reset(),
                ..*old(self)
            }),
            items != 0 ==> *final(self) == *old(self),
    {
        if items == 0 {
            self.timer.reset();
        }
    }
}

/// A spawner that begins with all its time behind it brings out its item in
/// the first frame, however short, and none in the frames after it until it
/// is reset.
pub proof fn full_head_start_spawns_at_once(item: Item, duration: u64, first: u64, second: u64)
    ensures
        ({
            let spawner = ItemSpawner {
                item,
                timer: GameTimer {
                    duration,
                    elapsed: duration,
                    mode: TimerMode::Once,
                    finished: false,
                    just_finished: false,
                },
                spawned: 0,
            };
            let after = spawner.spec_item_spawner(first);
            &&& after.1 == Some(item)
            &&& after.0.spawned == 1
            &&& after.0.spec_item_spawner(second).1.is_none()
        }),
{
}

/// Whether the ferry waits or travels.
#[derive(Clone, Copy, Debug, PartialEq, Eq, Structural)]
pub enum MovingFloorState {
    Dwell,
    Move,
}

/// Which way along its waypoints the ferry travels.
#[derive(Clone, Copy, Debug, PartialEq, Eq, Structural)]
pub enum MovingFloorDirection {
    Forward,
    Backward,
}

impl MovingFloorDirection {
    /// The other direction.
    pub open spec fn spec_toggle(self) -> Self {
        match self {
            MovingFloorDirection::Forward => MovingFloorDirection::Backward,
            MovingFloorDirection::Backward => MovingFloorDirection::Forward,
        }
    }

    /// Turns round.
    pub fn toggle(&mut self)
        ensures
            *final(self) == old(self).spec_toggle(),
    {
        *self = match self {
            MovingFloorDirection::Forward => MovingFloorDirection::Backward,
            MovingFloorDirection::Backward => MovingFloorDirection::Forward,
        }
    }
}

/// What the ferry's velocity has to become in a frame.
#[derive(Clone, Copy, Debug, PartialEq, Eq, Structural)]
pub enum FloorAction {
    /// Leave the velocity as it is.
    Keep,
    /// Stand still.
    Stop,
    /// Head for the tile.
    Approach(TilePos),
}

/// A tile that travels to and fro along its waypoints and waits at each end.
pub struct MovingFloor {
    pub waypoints: Vec<TilePos>,
    /// Index of the waypoint that was reached last.
    pub index: usize,
    pub dwell_timer: GameTimer,
    pub state: MovingFloorState,
    pub direction: MovingFloorDirection,
}

impl MovingFloor {
    /// The index stands for a waypoint.
    pub open spec fn wf(&self) -> bool {
        self.index < self.waypoints@.len()
    }

    /// Index of the waypoint ahead, if there is one in the direction of
    /// travel.
    pub open spec fn spec_next_waypoint_index(&self) -> Option<usize> {
        match self.direction {
            MovingFloorDirection::Forward => if self.index + 1 < self.waypoints@.len() {
                Some((self.index + 1) as usize)
            } else {
                None
            },
            MovingFloorDirection::Backward => if self.index >= 1 {
                Some((self.index - 1) as usize)
            } else {
                None
            },
        }
    }

    /// The waypoint ahead, if there is one in the direction of travel and
    /// among the waypoints.
    pub open spec fn spec_next_waypoint(&self) -> Option<TilePos> {
        match self.spec_next_waypoint_index() {
            Some(index) => if index < self.waypoints@.len() {
                Some(self.waypoints@[index as int])
            } else {
                None
            },
            None => None,
        }
    }

    /// A ferry at the first of `waypoints`, about to wait for `dwell`
    /// nanoseconds and then to travel forward.
    pub fn new(waypoints: Vec<TilePos>, dwell: u64) -> (r: Self)
        ensures
            r.waypoints == waypoints,
            r.index == 0,
            r.dwell_timer == GameTimer::spec_new(dwell, TimerMode::Once),
            r.state == MovingFloorState::Dwell,
            r.direction == MovingFloorDirection::Forward,
    {
        MovingFloor {
            waypoints,
            index: 0,
            dwell_timer: GameTimer::new(dwell, TimerMode::Once),
            state: MovingFloorState::Dwell,
            direction: MovingFloorDirection::Forward,
        }
    }

    /// Index of the waypoint ahead, if there is one in the direction of
    /// travel.
    pub fn next_waypoint_index(&self) -> (r: Option<usize>)
        ensures
            r == self.spec_next_waypoint_index(),
    {
        match self.direction {
            MovingFloorDirection::Forward => {
                if self.index < self.waypoints.len() && self.index + 1 < self.waypoints.len() {
                    Some(self.index + 1)
                } else {
                    None
                }
            },
            MovingFloorDirection::Backward => self.index.checked_sub(1),
        }
    }

    /// The waypoint ahead, if there is one.
    pub fn next_waypoint(&self) -> (r: Option<TilePos>)
        ensures
            r == self.spec_next_waypoint(),
    {
        match self.next_waypoint_index() {
            Some(index) => {
                if index < self.waypoints.len() {
                    Some(self.waypoints[index])
                } else {
                    None
                }
            },
            None => None,
        }
    }

    /// Takes the waypoint ahead as reached, if there is one.
    pub fn advance(&mut self)
        ensures
            final(self).index == match old(self).spec_next_waypoint_index() {
                Some(index) => index,
                None => old(self).index,
            },
            final(self).waypoints == old(self).waypoints,
            final(self).dwell_timer == old(self).dwell_timer,
            final(self).state == old(self).state,
            final(self).direction == old(self).direction,
            old(self).wf() ==> final(self).wf(),
    {
        if let Some(index) = self.next_waypoint_index() {
            self.index = index;
        }
    }

    /// The ferry's index, timer, state and direction after a frame of `delta`
    /// nanoseconds, and what its velocity has to become. `arrived` says
    /// whether the ferry has come to the waypoint ahead.
    ///
    /// While it waits, its timer runs; when the timer ends it sets out and the
    /// timer starts over. While it travels with a waypoint ahead, it heads for
    /// that waypoint until it has arrived, then stands still and takes the
    /// waypoint as reached. With no waypoint ahead it turns round and waits.
    pub open spec fn spec_moving_floor(&self, delta: u64, arrived: bool) -> (
        usize,
        GameTimer,
        MovingFloorState,
        MovingFloorDirection,
        FloorAction,
    ) {
        match self.state {
            MovingFloorState::Dwell => {
                let timer = self.dwell_timer.spec_tick(delta);
                if timer.just_finished {
                    (
                        self.index,
                        timer.spec_reset(),
                        MovingFloorState::Move,
                        self.direction,
                        FloorAction::Keep,
                    )
                } else {
                    (self.index, timer, self.state, self.direction, FloorAction::Keep)
                }
            },
            MovingFloorState::Move => match self.spec_next_waypoint() {
                Some(next) => if arrived {
                    (
                        self.spec_next_waypoint_index().unwrap(),
                        self.dwell_timer,
                        self.state,
                        self.direction,
                        FloorAction::Stop,
                    )
                } else {
                    (
                        self.index,
                        self.dwell_timer,
                        self.state,
                        self.direction,
                        FloorAction::Approach(next),
                    )
                },
                None => (
                    self.index,
                    self.dwell_timer,
                    MovingFloorState::Dwell,
                    self.direction.spec_toggle(),
                    FloorAction::Keep,
                ),
            },
        }
    }

    /// Runs the ferry for a frame of `delta` nanoseconds and returns what its
    /// velocity has to become. `arrived` says whether the ferry has come to
    /// the waypoint ahead.
    pub fn moving_floor(&mut self, delta: u64, arrived: bool) -> (r: FloorAction)
        ensures
            final(self).waypoints == old(self).waypoints,
            (
                final(self).index,
                final(self).dwell_timer,
                final(self).state,
                final(self).direction,
                r,
            ) == old(self).spec_moving_floor(delta, arrived),
            old(self).wf() ==> final(self).wf(),
    {
        match self.state {
            MovingFloorState::Dwell => {
                self.dwell_timer.tick(delta);
                if self.dwell_timer.just_finished {
                    self.state = MovingFloorState::Move;
                    self.dwell_timer.reset();
                }
                FloorAction::Keep
            },
            MovingFloorState::Move => {
                if let Some(next) = self.next_waypoint() {
                    if arrived {
                        self.advance();
                        FloorAction::Stop
                    } else {
                        FloorAction::Approach(next)
                    }
                } else {
                    self.state = MovingFloorState::Dwell;
                    self.direction.toggle();
                    FloorAction::Keep
                }
            },
        }
    }
}

/// A ferry between two waypoints that travels and has arrived ahead ends up
/// at the other waypoint, finds no waypoint ahead in the next frame, and
/// so turns round and waits.
pub proof fn ferry_turns_at_the_end(floor: MovingFloor, delta: u64)
    requires
        floor.waypoints@.len() == 2,
        floor.index == 0,
        floor.state == MovingFloorState::Move,
        floor.direction == MovingFloorDirection::Forward,
    ensures
        floor.spec_moving_floor(delta, true).0 == 1,
        floor.spec_moving_floor(delta, true).4 == FloorAction::Stop,
        ({
            let there = MovingFloor {
                waypoints: floor.waypoints,
                index: 1,
                dwell_timer: floor.dwell_timer,
                state: MovingFloorState::Move,
                direction: MovingFloorDirection::Forward,
            };
            &&& there.spec_moving_floor(delta, true).2 == MovingFloorState::Dwell
            &&& there.spec_moving_floor(delta, true).3 == MovingFloorDirection::Backward
            &&& there.spec_moving_floor(delta, true).0 == 1
        }),
{
}

} // verus!
