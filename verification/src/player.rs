//! The player's actions: what is selected, what is picked up, where a tower
//! is built or fed, where a fall ends, and when the game is over.

use crate::map::{spec_start_tile, start_tile, Item, TilePos};
use crate::state::{Lives, Won};
use crate::waves::{WaveState, Waves};
use vstd::prelude::*;

verus! {

/// The tile under the player's cursor, by the engine's number for it.
#[derive(Clone, Copy, Debug, PartialEq, Eq, Structural)]
pub struct SelectedTile(pub Option<u64>);

/// The item in front of the player, by the engine's number for it.
#[derive(Clone, Copy, Debug, PartialEq, Eq, Structural)]
pub struct SelectedItem(pub Option<u64>);

impl Default for SelectedItem {
    fn default() -> (r: Self)
        ensures
            r == SelectedItem(None),
    {
        SelectedItem(None)
    }
}

/// The last fixed tile that the player stood on.
#[derive(Clone, Copy, Debug, PartialEq, Eq, Structural)]
pub struct LastTile(pub TilePos);

/// What a probe of the player reports.
#[derive(Clone, Copy, Debug, PartialEq, Eq, Structural)]
pub enum ProbeEvent {
    /// The probe touches the thing with this number.
    Started(u64),
    /// The probe has come off what it touched.
    Stopped,
}

/// Follows the cursor: the tile that it touches is selected, and none once it
/// has come off.
pub fn cursor(selected: &mut SelectedTile, event: ProbeEvent)
    ensures
        final(selected).0 == match event {
            ProbeEvent::Started(tile) => Some(tile),
            ProbeEvent::Stopped => None,
        },
{
    selected.0 = match event {
        ProbeEvent::Started(tile) => Some(tile),
        ProbeEvent::Stopped => None,
    };
}

/// Follows the item probe: the item that it touches is selected, and none
/// once it has come off.
pub fn item_probe(selected: &mut SelectedItem, event: ProbeEvent)
    ensures
        final(selected).0 == match event {
            ProbeEvent::Started(item) => Some(item),
            ProbeEvent::Stopped => None,
        },
{
    selected.0 = match event {
        ProbeEvent::Started(item) => Some(item),
        ProbeEvent::Stopped => None,
    };
}

/// Remembers the fixed tile at `pos` that the player has stepped on.
pub fn track_last_tile(last_tile: &mut LastTile, pos: TilePos)
    ensures
        final(last_tile).0 == pos,
{
    last_tile.0 = pos;
}

/// Whether a tower stands on `pos`.
pub open spec fn spec_occupied(towers: Seq<TilePos>, pos: TilePos) -> bool {
    exists|i: int| 0 <= i < towers.len() && #[trigger] towers[i] == pos
}

/// The tile on which a player who fell into the lava stands again: the last
/// tile stood on, or the starting tile where a tower has been built on that
/// one since.
pub fn lava(last_tile: &LastTile, towers: &Vec<TilePos>) -> (r: TilePos)
    ensures
        r == if spec_occupied(towers@, last_tile.0) {
            spec_start_tile()
        } else {
            last_tile.0
        },
{
    let mut i: usize = 0;
    while i < towers.len()
        invariant
            i <= towers@.len(),
            forall|j: int| 0 <= j < i ==> #[trigger] towers@[j] != last_tile.0,
        decreases towers@.len() - i,
    {
        if towers[i].x == last_tile.0.x && towers[i].y == last_tile.0.y {
            return start_tile();
        }
        i += 1;
    }
    last_tile.0
}

/// An item in the player's hands.
#[derive(Clone, Copy, Debug, PartialEq, Eq, Structural)]
pub struct Held {
    /// The engine's number for the item.
    pub id: u64,
    pub item: Item,
}

/// What a press of the grab button does.
#[derive(Clone, Copy, Debug, PartialEq, Eq, Structural)]
pub enum Action {
    /// Nothing happens.
    Ignore,
    /// The press is refused, with a sound.
    Refuse,
    /// The player picks the item up.
    Grab(u64),
    /// The kit is used up and a tower is built on the tile.
    Build { kit: u64, tile: u64 },
    /// The ammunition is used up and the tower is filled.
    Feed { ammo: u64, tower: u64 },
}

/// What a press does about picking up. `is_item` says whether the selected
/// thing is an item, `holding` whether the player holds one already.
///
/// Without a press, or without an item selected, nothing happens. A player
/// with full hands is refused. Otherwise the selected item is picked up.
pub open spec fn spec_grab(
    pressed: bool,
    selected: SelectedItem,
    is_item: bool,
    holding: bool,
) -> Action {
    match selected.0 {
        Some(item) => if !pressed || !is_item {
            Action::Ignore
        } else if holding {
            Action::Refuse
        } else {
            Action::Grab(item)
        },
        None => Action::Ignore,
    }
}

/// What a press does about building. `taken` says whether the selected tile
/// is the ferry, a spawner or the place of a tower.
///
/// Without a press, or with no tower kit in hand, nothing happens. With no
/// tile selected, or one that is taken, the press is refused. Otherwise the
/// tower is built.
pub open spec fn spec_build_tower(
    pressed: bool,
    held: Option<Held>,
    selected: SelectedTile,
    taken: bool,
) -> Action {
    match held {
        Some(held) => if !pressed || held.item != Item::TowerKit {
            Action::Ignore
        } else {
            match selected.0 {
                Some(tile) => if taken {
                    Action::Refuse
                } else {
                    Action::Build { kit: held.id, tile }
                },
                None => Action::Refuse,
            }
        },
        None => Action::Ignore,
    }
}

/// What a press does about feeding. `tower` is the tower on the selected
/// tile, if one stands there.
///
/// Without a press, or with no ammunition in hand, nothing happens. With no
/// tile selected, or none with a tower, the press is refused. Otherwise the
/// tower is fed.
pub open spec fn spec_feed_tower(
    pressed: bool,
    held: Option<Held>,
    selected: SelectedTile,
    tower: Option<u64>,
) -> Action {
    match held {
        Some(held) => if !pressed || held.item != Item::LaserAmmo {
            Action::Ignore
        } else {
            match (selected.0, tower) {
                (Some(_), Some(tower)) => Action::Feed { ammo: held.id, tower },
                _ => Action::Refuse,
            }
        },
        None => Action::Ignore,
    }
}

/// Decides on picking up.
pub fn grab(pressed: bool, selected: SelectedItem, is_item: bool, holding: bool) -> (r: Action)
    ensures
        r == spec_grab(pressed, selected, is_item, holding),
{
    if !pressed {
        return Action::Ignore;
    }
    let item = match selected.0 {
        Some(item) => item,
        None => {
            return Action::Ignore;
        },
    };
    if !is_item {
        return Action::Ignore;
    }
    if holding {
        return Action::Refuse;
    }
    Action::Grab(item)
}

/// Decides on building.
pub fn build_tower(pressed: bool, held: Option<Held>, selected: SelectedTile, taken: bool) -> (r:
    Action)
    ensures
        r == spec_build_tower(pressed, held, selected, taken),
{
    if !pressed {
        return Action::Ignore;
    }
    let held = match held {
        Some(held) => held,
        None => {
            return Action::Ignore;
        },
    };
    match held.item {
        Item::TowerKit => {},
        Item::LaserAmmo => {
            return Action::Ignore;
        },
    }
    let tile = match selected.0 {
        Some(tile) => tile,
        None => {
            return Action::Refuse;
        },
    };
    if taken {
        return Action::Refuse;
    }
    Action::Build { kit: held.id, tile }
}

/// Decides on feeding.
pub fn feed_tower(pressed: bool, held: Option<Held>, selected: SelectedTile, tower: Option<u64>) -> (r:
    Action)
    ensures
        r == spec_feed_tower(pressed, held, selected, tower),
{
    if !pressed {
        return Action::Ignore;
    }
    let held = match held {
        Some(held) => held,
        None => {
            return Action::Ignore;
        },
    };
    match held.item {
        Item::LaserAmmo => {},
        Item::TowerKit => {
            return Action::Ignore;
        },
    }
    if selected.0.is_none() {
        return Action::Refuse;
    }
    match tower {
        Some(tower) => Action::Feed { ammo: held.id, tower },
        None => Action::Refuse,
    }
}

/// Whether a thing leaves the world when a game is reset: everything at the
/// top of the scene that is neither a window nor marked to persist.
pub fn reset(is_window: bool, persists: bool, has_parent: bool) -> (r: bool)
    ensures
        r == (!is_window && !persists && !has_parent),
{
    !is_window && !persists && !has_parent
}

/// How the game stands: lost with no life left, won once the script is
/// through, the last wave is out and no enemy is alive, and open otherwise. A
/// game that is won and lost in one frame is lost.
pub open spec fn spec_game_over(
    lives: Lives,
    waves_left: bool,
    remaining: usize,
    enemies: usize,
) -> Option<Won> {
    if lives.0 == 0 {
        Some(Won(false))
    } else if !waves_left && remaining == 0 && enemies == 0 {
        Some(Won(true))
    } else {
        None
    }
}

/// Decides whether the game is over, and how it ended. `enemies` is the
/// number of enemies alive.
pub fn game_over(lives: &Lives, waves: &Waves, wave_state: &WaveState, enemies: usize) -> (r:
    Option<Won>)
    ensures
        r == spec_game_over(*lives, waves.spec_current().is_some(), wave_state.remaining, enemies),
{
    let mut over: Option<Won> = None;
    if waves.current().is_none() && wave_state.remaining == 0 && enemies == 0 {
        over = Some(Won(true));
    }
    if lives.0 == 0 {
        over = Some(Won(false));
    }
    over
}

/// One press does one thing. Without a press nothing happens; a press that
/// picks an item up neither builds nor feeds, and a press that builds or is
/// refused building does not feed.
pub proof fn one_press_one_action(
    pressed: bool,
    item: SelectedItem,
    is_item: bool,
    held: Option<Held>,
    tile: SelectedTile,
    taken: bool,
    tower: Option<u64>,
)
    ensures
        ({
            let grabbing = spec_grab(pressed, item, is_item, held.is_some());
            let building = spec_build_tower(pressed, held, tile, taken);
            let feeding = spec_feed_tower(pressed, held, tile, tower);
            &&& (!pressed ==> grabbing == Action::Ignore && building == Action::Ignore && feeding
                == Action::Ignore)
            &&& (grabbing is Grab ==> building == Action::Ignore && feeding == Action::Ignore)
            &&& (building != Action::Ignore ==> feeding == Action::Ignore)
        }),
{
}

} // verus!
