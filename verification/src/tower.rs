//! Towers: their ammunition, the enemies in their range, the choice of a
//! target and the decision to fire.

use crate::timer::GameTimer;
use vstd::prelude::*;

verus! {

/// Shots that a new tower holds.
pub const TOWER_AMMO: u32 = 20;

/// Nanoseconds between two shots of a tower.
pub const TOWER_COOLDOWN: u64 = 2_500_000_000;

/// The shots that a tower has left and can hold.
#[derive(Clone, Copy, Debug, PartialEq, Eq, Structural)]
pub struct Ammo {
    pub current: u32,
    pub max: u32,
}

impl Ammo {
    /// Ammunition for `max` shots, all of them there.
    pub fn new(max: u32) -> (r: Self)
        ensures
            r == (Ammo { current: max, max }),
    {
        Ammo { current: max, max }
    }

    /// Takes one shot away, if one is left.
    pub fn spend(&mut self)
        ensures
            final(self).max == old(self).max,
            final(self).current == if old(self).current == 0 {
                0
            } else {
                old(self).current - 1
            },
    {
        self.current = self.current.saturating_sub(1);
    }

    /// Fills the tower up.
    pub fn refill(&mut self)
        ensures
            *final(self) == (Ammo { current: old(self).max, max: old(self).max }),
    {
        self.current = self.max;
    }

    /// Whether no shot is left.
    pub fn is_empty(&self) -> (r: bool)
        ensures
            r == (self.current == 0),
    {
        self.current == 0
    }
}

/// The enemy that a tower or a laser aims at, by the engine's number for it.
#[derive(Clone, Copy, Debug, PartialEq, Eq, Structural)]
pub struct Target(pub Option<u64>);

/// The enemies within a tower's range, by the engine's numbers for them. It
/// holds a `bevy::utils::HashSet`, which Verus does not look into.
#[verifier::external_body]
pub struct InRange(bevy::utils::HashSet<u64>);

/// The numbers that an `InRange` holds.
pub uninterp spec fn spec_ids(in_range: InRange) -> Set<u64>;

impl InRange {
    /// `HashSet::default`: a set that holds nothing.
    #[verifier::external_body]
    pub(crate) fn empty() -> (r: Self)
        ensures
            spec_ids(r) == Set::<u64>::empty(),
    {
        InRange(bevy::utils::HashSet::default())
    }

    /// `HashSet::insert`: afterwards the set holds `id` besides what it
    /// held; the result says whether `id` is new to it.
    #[verifier::external_body]
    pub(crate) fn insert(&mut self, id: u64) -> (r: bool)
        ensures
            spec_ids(*final(self)) == spec_ids(*old(self)).insert(id),
            r == !spec_ids(*old(self)).contains(id),
    {
        self.0.insert(id)
    }

    /// `HashSet::remove`: afterwards the set holds what it held but `id`;
    /// the result says whether it held `id`.
    #[verifier::external_body]
    pub(crate) fn remove(&mut self, id: u64) -> (r: bool)
        ensures
            spec_ids(*final(self)) == spec_ids(*old(self)).remove(id),
            r == spec_ids(*old(self)).contains(id),
    {
        self.0.remove(&id)
    }

    /// `HashSet::contains`: whether the set holds `id`.
    #[verifier::external_body]
    pub(crate) fn contains(&self, id: u64) -> (r: bool)
        ensures
            r == spec_ids(*self).contains(id),
    {
        self.0.contains(&id)
    }

    /// A range with no enemy in it.
    pub fn new() -> (r: Self)
        ensures
            spec_ids(r) == Set::<u64>::empty(),
    {
        InRange::empty()
    }

    /// Whether the enemy `id` is in range.
    pub fn holds(&self, id: u64) -> (r: bool)
        ensures
            r == spec_ids(*self).contains(id),
    {
        self.contains(id)
    }
}

/// What a tower's range sensor reports of an enemy.
#[derive(Clone, Copy, Debug, PartialEq, Eq, Structural)]
pub enum RangeEvent {
    /// The enemy has come into range.
    Started(u64),
    /// The enemy has left the range.
    Stopped(u64),
}

/// Takes note of what the range sensor reports: an enemy that has come into
/// range is in the set afterwards, one that has left is not, and the rest of
/// the set stays.
pub fn ranging(in_range: &mut InRange, event: RangeEvent)
    ensures
        spec_ids(*final(in_range)) == match event {
            RangeEvent::Started(id) => spec_ids(*old(in_range)).insert(id),
            RangeEvent::Stopped(id) => spec_ids(*old(in_range)).remove(id),
        },
{
    match event {
        RangeEvent::Started(id) => {
            in_range.insert(id);
        },
        RangeEvent::Stopped(id) => {
            in_range.remove(id);
        },
    }
}

/// An enemy that is alive, and how far it is from the waypoint that it walks
/// to, in a measure that grows with the distance.
#[derive(Clone, Copy, Debug, PartialEq, Eq, Structural)]
pub struct Sighting {
    pub id: u64,
    pub distance: u32,
}

/// Whether one of `enemies` has the number `id`.
pub open spec fn spec_alive(enemies: Seq<Sighting>, id: u64) -> bool {
    exists|i: int| 0 <= i < enemies.len() && (#[trigger] enemies[i]).id == id
}

/// Whether a tower keeps `target`: it has one, which is in range and alive.
pub open spec fn spec_keeps(target: Target, ids: Set<u64>, enemies: Seq<Sighting>) -> bool {
    match target.0 {
        Some(id) => ids.contains(id) && spec_alive(enemies, id),
        None => false,
    }
}

/// Whether the enemy at `i` is the one to pick: it is in range, no enemy in
/// range is nearer to its waypoint, and those listed before it that are in
/// range are farther.
pub open spec fn spec_is_pick(ids: Set<u64>, enemies: Seq<Sighting>, i: int) -> bool {
    &&& 0 <= i < enemies.len()
    &&& ids.contains(enemies[i].id)
    &&& forall|j: int|
        0 <= j < enemies.len() && ids.contains((#[trigger] enemies[j]).id) ==> enemies[i].distance
            <= enemies[j].distance
    &&& forall|j: int|
        0 <= j < i && ids.contains((#[trigger] enemies[j]).id) ==> enemies[i].distance
            < enemies[j].distance
}

/// Whether one of `enemies` has the number `id`.
fn alive(enemies: &Vec<Sighting>, id: u64) -> (r: bool)
    ensures
        r == spec_alive(enemies@, id),
{
    let mut i: usize = 0;
    while i < enemies.len()
        invariant
            i <= enemies@.len(),
            forall|j: int| 0 <= j < i ==> (#[trigger] enemies@[j]).id != id,
        decreases enemies@.len() - i,
    {
        if enemies[i].id == id {
            return true;
        }
        i += 1;
    }
    false
}

/// Chooses the target of a tower. A target that is still in range and alive
/// stays. Otherwise the tower takes the enemy in range that is nearest to its
/// waypoint, the first of them in `enemies` where several are equally near,
/// and none where no living enemy is in range.
pub fn targeting(target: &mut Target, in_range: &InRange, enemies: &Vec<Sighting>)
    ensures
        spec_keeps(*old(target), spec_ids(*in_range), enemies@) ==> *final(target) == *old(target),
        !spec_keeps(*old(target), spec_ids(*in_range), enemies@) ==> match final(target).0 {
            Some(id) => exists|i: int|
                spec_is_pick(spec_ids(*in_range), enemies@, i) && (#[trigger] enemies@[i]).id
                    == id,
            None => forall|i: int|
                0 <= i < enemies@.len() ==> !spec_ids(*in_range).contains(
                    (#[trigger] enemies@[i]).id,
                ),
        },
        match final(target).0 {
            Some(id) => spec_ids(*in_range).contains(id) && spec_alive(enemies@, id),
            None => true,
        },
{
    if let Some(id) = target.0 {
        if in_range.contains(id) && alive(enemies, id) {
            return ;
        }
    }
    let mut best: Option<usize> = None;
    let mut i: usize = 0;
    while i < enemies.len()
        invariant
            i <= enemies@.len(),
            match best {
                Some(b) => b < i && spec_is_pick(spec_ids(*in_range), enemies@.take(i as int), b as int),
                None => forall|j: int|
                    0 <= j < i ==> !spec_ids(*in_range).contains((#[trigger] enemies@[j]).id),
            },
        decreases enemies@.len() - i,
    {
        let ghost seen = enemies@.take(i as int);
        let ghost next = enemies@.take(i + 1);
        proof {
            assert forall|j: int| 0 <= j < i implies seen[j] == next[j] by {}
            assert(next[i as int] == enemies@[i as int]);
        }
        if in_range.contains(enemies[i].id) {
            match best {
                Some(b) => {
                    if enemies[i].distance < enemies[b].distance {
                        best = Some(i);
                    }
                },
                None => {
                    best = Some(i);
                },
            }
        }
        proof {
            match best {
                Some(b) => {
                    assert(next[b as int] == enemies@[b as int]);
                    assert(spec_is_pick(spec_ids(*in_range), next, b as int));
                },
                None => {},
            }
        }
        i += 1;
    }
    proof {
        assert(enemies@.take(enemies@.len() as int) =~= enemies@);
    }
    target.0 = match best {
        Some(b) => Some(enemies[b].id),
        None => None,
    };
}

/// Whether a tower fires in a frame of `delta` nanoseconds, given its state
/// before the frame: its cooldown ends with the frame, it has a target and a
/// shot left, and its head was found.
pub open spec fn spec_fires(
    cooldown: GameTimer,
    ammo: Ammo,
    target: Target,
    delta: u64,
    has_head: bool,
) -> bool {
    cooldown.spec_tick(delta).just_finished && target.0.is_some() && ammo.current > 0 && has_head
}

/// Runs a tower's cooldown for a frame of `delta` nanoseconds and decides
/// whether the tower fires. A shot costs one round of ammunition.
pub fn shooting(
    cooldown: &mut GameTimer,
    ammo: &mut Ammo,
    target: &Target,
    delta: u64,
    has_head: bool,
) -> (fires: bool)
    ensures
        *final(cooldown) == old(cooldown).spec_tick(delta),
        fires == spec_fires(*old(cooldown), *old(ammo), *target, delta, has_head),
        final(ammo).max == old(ammo).max,
        final(ammo).current == if fires {
            old(ammo).current - 1
        } else {
            old(ammo).current as int
        },
{
    cooldown.tick(delta);
    if !cooldown.just_finished {
        return false;
    }
    if target.0.is_none() {
        return false;
    }
    if ammo.current == 0 {
        return false;
    }
    if !has_head {
        return false;
    }
    ammo.spend();
    true
}

/// A tower with no shot left never fires, and a tower fires at most as often
/// as it has shots: each shot lowers the count by one.
pub proof fn empty_tower_is_silent(cooldown: GameTimer, ammo: Ammo, target: Target, delta: u64)
    requires
        ammo.current == 0,
    ensures
        !spec_fires(cooldown, ammo, target, delta, true),
{
}

} // verus!
