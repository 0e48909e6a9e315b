//! Which thing is outlined to show what a press of the grab button would
//! act on.

use crate::map::Item;
use crate::player::{SelectedItem, SelectedTile};
use vstd::prelude::*;

verus! {

/// What has to happen to the outlines in a frame.
#[derive(Clone, Copy, Debug, PartialEq, Eq, Structural)]
pub struct Outlines {
    /// Whether all outlines are taken away first.
    pub clear: bool,
    /// The thing that is outlined then, by the engine's number for it.
    pub show: Option<u64>,
}

/// The outlines for a frame. `changed` says whether a selection or what the
/// player holds has changed, and `selection` is the changed selection, if
/// exactly one has. `grabbed` is the item in hand, `tower` the tower on the
/// selected tile and `taken` whether that tile cannot take a tower.
///
/// Nothing happens unless something changed. Then all outlines go, and with
/// ammunition in hand the tower on the selected tile is outlined, with a
/// tower kit the selected tile if it is free, and with empty hands the
/// selected item.
pub open spec fn spec_update(
    changed: bool,
    selection: Option<(SelectedTile, SelectedItem)>,
    grabbed: Option<Item>,
    tower: Option<u64>,
    taken: bool,
) -> Outlines {
    if !changed {
        Outlines { clear: false, show: None }
    } else {
        match selection {
            Some((tile, item)) => match grabbed {
                Some(Item::LaserAmmo) => Outlines {
                    clear: true,
                    show: if tile.0.is_some() {
                        tower
                    } else {
                        None
                    },
                },
                Some(Item::TowerKit) => Outlines {
                    clear: true,
                    show: if taken {
                        None
                    } else {
                        tile.0
                    },
                },
                None => Outlines { clear: true, show: item.0 },
            },
            None => Outlines { clear: true, show: None },
        }
    }
}

/// The outlines for a frame.
pub fn update(
    changed: bool,
    selection: Option<(SelectedTile, SelectedItem)>,
    grabbed: Option<Item>,
    tower: Option<u64>,
    taken: bool,
) -> (r: Outlines)
    ensures
        r == spec_update(changed, selection, grabbed, tower, taken),
{
    if !changed {
        return Outlines { clear: false, show: None };
    }
    let (tile, item) = match selection {
        Some(pair) => pair,
        None => {
            return Outlines { clear: true, show: None };
        },
    };
    let show = match grabbed {
        Some(Item::LaserAmmo) => {
            if tile.0.is_some() {
                tower
            } else {
                None
            }
        },
        Some(Item::TowerKit) => {
            if taken {
                None
            } else {
                tile.0
            }
        },
        None => item.0,
    };
    Outlines { clear: true, show }
}

/// At most one thing is outlined, and with a tower kit in hand never a tile
/// that is taken.
pub proof fn taken_tile_is_never_outlined(
    selection: Option<(SelectedTile, SelectedItem)>,
    tower: Option<u64>,
)
    ensures
        spec_update(true, selection, Some(Item::TowerKit), tower, true).show.is_none(),
{
}

} // verus!
