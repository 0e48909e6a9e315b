//! The scripted waves of enemies and the machine that releases them.

use crate::enemy::SpawnEnemyEvent;
use crate::settings::DifficultySetting;
use crate::timer::{GameTimer, TimerMode, NANOS_PER_SEC};
use vstd::prelude::*;
use vstd::std_specs::convert::FromSpecImpl;

verus! {

/// One scripted batch of enemies.
#[derive(Clone, Copy, Debug, PartialEq, Eq, Structural)]
pub struct Wave {
    /// How many enemies the wave releases.
    pub num: usize,
    /// Hit points of each enemy, before the difficulty adds its own.
    pub hp: u32,
    /// Nanoseconds between two enemies.
    pub interval: u64,
    /// Nanoseconds before the first interval begins.
    pub delay: u64,
}

/// The script and the place reached in it.
pub struct Waves {
    pub waves: Vec<Wave>,
    /// Index of the wave that is running; the length of `waves` once all are
    /// through.
    pub current: usize,
}

/// Progress within the running wave.
#[derive(Clone, Copy, Debug, PartialEq, Eq, Structural)]
pub struct WaveState {
    pub delay_timer: GameTimer,
    pub spawn_timer: GameTimer,
    /// Enemies of this wave that are still to be released.
    pub remaining: usize,
}

/// The wave with `num` enemies of `hp` hit points in the standard rhythm:
/// one enemy every four seconds, after `delay_secs` seconds.
pub open spec fn spec_wave(delay_secs: u64, num: usize, hp: u32) -> Wave {
    Wave {
        num,
        hp,
        interval: (4 * NANOS_PER_SEC) as u64,
        delay: (delay_secs * NANOS_PER_SEC) as u64,
    }
}

/// The ten waves of the game.
pub open spec fn spec_script() -> Seq<Wave> {
    seq![
        spec_wave(15, 4, 2),
        spec_wave(30, 8, 2),
        spec_wave(30, 4, 6),
        spec_wave(30, 8, 4),
        spec_wave(30, 4, 10),
        spec_wave(30, 8, 6),
        spec_wave(30, 4, 14),
        spec_wave(30, 8, 8),
        spec_wave(30, 4, 18),
        spec_wave(30, 8, 10),
    ]
}

/// The state in which `wave` begins.
pub open spec fn spec_wave_start(wave: Wave) -> WaveState {
    WaveState {
        delay_timer: GameTimer::spec_new(wave.delay, TimerMode::Once),
        spawn_timer: GameTimer::spec_new(wave.interval, TimerMode::Repeating),
        remaining: wave.num,
    }
}

/// Whether a frame of `delta` nanoseconds releases an enemy of a running
/// wave in `state`: the delay is over after the frame, and the spawn timer
/// ends with it.
pub open spec fn spec_spawn_due(state: WaveState, delta: u64) -> bool {
    state.delay_timer.spec_tick(delta).finished && state.spawn_timer.spec_tick(
        delta,
    ).just_finished
}

/// What one frame of `delta` nanoseconds does to the wave machine: the index
/// of the running wave, its state, and the hit points of the enemy that the
/// frame releases, if it releases one.
///
/// With all waves through nothing changes. Otherwise the delay runs first;
/// once it is over the spawn timer runs, and each frame in which it ends
/// releases one enemy. The last enemy of a wave moves the script on, and the
/// next wave, if there is one, begins in its starting state.
pub open spec fn spec_spawn_enemies(
    script: Seq<Wave>,
    current: usize,
    state: WaveState,
    delta: u64,
    difficulty: DifficultySetting,
) -> (usize, WaveState, Option<SpawnEnemyEvent>) {
    if current >= script.len() {
        (current, state, None)
    } else {
        let delay_timer = state.delay_timer.spec_tick(delta);
        if !delay_timer.finished {
            (current, WaveState { delay_timer, ..state }, None)
        } else {
            let spawn_timer = state.spawn_timer.spec_tick(delta);
            if !spawn_timer.just_finished {
                (current, WaveState { delay_timer, spawn_timer, ..state }, None)
            } else {
                let event = SpawnEnemyEvent {
                    hp: (script[current as int].hp + difficulty.spec_extra_hp()) as u32,
                };
                let remaining = (state.remaining - 1) as usize;
                if remaining > 0 {
                    (current, WaveState { delay_timer, spawn_timer, remaining }, Some(event))
                } else if current + 1 < script.len() {
                    (
                        (current + 1) as usize,
                        spec_wave_start(script[current + 1]),
                        Some(event),
                    )
                } else {
                    (
                        (current + 1) as usize,
                        WaveState { delay_timer, spawn_timer, remaining },
                        Some(event),
                    )
                }
            }
        }
    }
}

impl From<&Wave> for WaveState {
    /// The state in which `value` begins: both timers at zero, all its
    /// enemies to come.
    fn from(value: &Wave) -> (r: Self) {
        WaveState {
            delay_timer: GameTimer::new(value.delay, TimerMode::Once),
            spawn_timer: GameTimer::new(value.interval, TimerMode::Repeating),
            remaining: value.num,
        }
    }
}

impl FromSpecImpl<&Wave> for WaveState {
    open spec fn obeys_from_spec() -> bool {
        true
    }

    open spec fn from_spec(value: &Wave) -> Self {
        spec_wave_start(*value)
    }
}

/// Whether a frame of `delta` nanoseconds may be run on `waves` in
/// `wave_state` at `difficulty`.
pub fn can_spawn(
    waves: &Waves,
    wave_state: &WaveState,
    delta: u64,
    difficulty: DifficultySetting,
) -> (r: bool)
    ensures
        r == waves.can_step(*wave_state, delta, difficulty),
{
    let wave = match waves.current() {
        Some(wave) => wave,
        None => {
            return true;
        },
    };
    let mut delay_timer = wave_state.delay_timer;
    delay_timer.tick(delta);
    let mut spawn_timer = wave_state.spawn_timer;
    spawn_timer.tick(delta);
    if !delay_timer.finished || !spawn_timer.just_finished {
        return true;
    }
    wave_state.remaining > 0 && wave.hp <= u32::MAX - difficulty.extra_hp()
}

impl Waves {
    /// The place in the script is at most its end.
    pub open spec fn wf(&self) -> bool {
        self.current <= self.waves@.len()
    }

    /// The running wave, if any is left.
    pub open spec fn spec_current(&self) -> Option<Wave> {
        if self.current < self.waves@.len() {
            Some(self.waves@[self.current as int])
        } else {
            None
        }
    }

    /// Whether a frame of `delta` nanoseconds may be run on this script in
    /// `state` at `difficulty`: if the frame releases an enemy, the running
    /// wave still has one to release, and its hit points fit in 32 bits.
    pub open spec fn can_step(
        &self,
        state: WaveState,
        delta: u64,
        difficulty: DifficultySetting,
    ) -> bool {
        self.current < self.waves@.len() && spec_spawn_due(state, delta) ==> state.remaining > 0
            && self.waves@[self.current as int].hp + difficulty.spec_extra_hp() <= u32::MAX
    }

    /// An empty script.
    pub fn new() -> (r: Self)
        ensures
            r.waves@ == Seq::<Wave>::empty(),
            r.current == 0,
    {
        Waves { waves: Vec::new(), current: 0 }
    }

    /// The game's script, at its first wave.
    pub fn standard() -> (r: Self)
        ensures
            r.waves@ == spec_script(),
            r.current == 0,
            r.wf(),
    {
        let mut waves: Vec<Wave> = Vec::new();
        waves.push(Wave { delay: 15 * NANOS_PER_SEC, num: 4, interval: 4 * NANOS_PER_SEC, hp: 2 });
        waves.push(Wave { delay: 30 * NANOS_PER_SEC, num: 8, interval: 4 * NANOS_PER_SEC, hp: 2 });
        waves.push(Wave { delay: 30 * NANOS_PER_SEC, num: 4, interval: 4 * NANOS_PER_SEC, hp: 6 });
        waves.push(Wave { delay: 30 * NANOS_PER_SEC, num: 8, interval: 4 * NANOS_PER_SEC, hp: 4 });
        waves.push(Wave { delay: 30 * NANOS_PER_SEC, num: 4, interval: 4 * NANOS_PER_SEC, hp: 10 });
        waves.push(Wave { delay: 30 * NANOS_PER_SEC, num: 8, interval: 4 * NANOS_PER_SEC, hp: 6 });
        waves.push(Wave { delay: 30 * NANOS_PER_SEC, num: 4, interval: 4 * NANOS_PER_SEC, hp: 14 });
        waves.push(Wave { delay: 30 * NANOS_PER_SEC, num: 8, interval: 4 * NANOS_PER_SEC, hp: 8 });
        waves.push(Wave { delay: 30 * NANOS_PER_SEC, num: 4, interval: 4 * NANOS_PER_SEC, hp: 18 });
        waves.push(Wave { delay: 30 * NANOS_PER_SEC, num: 8, interval: 4 * NANOS_PER_SEC, hp: 10 });
        assert(waves@ =~= spec_script());
        Waves { waves, current: 0 }
    }

    /// The running wave, if any is left.
    pub fn current(&self) -> (r: Option<&Wave>)
        ensures
            match r {
                Some(wave) => self.spec_current() == Some(*wave),
                None => self.spec_current().is_none(),
            },
    {
        if self.current < self.waves.len() {
            Some(&self.waves[self.current])
        } else {
            None
        }
    }

    /// Moves on to the next wave and returns it, if there is one.
    pub fn advance(&mut self) -> (r: Option<&Wave>)
        requires
            old(self).current < usize::MAX,
        ensures
            final(self).waves == old(self).waves,
            final(self).current == old(self).current + 1,
            match r {
                Some(wave) => final(self).spec_current() == Some(*wave),
                None => final(self).spec_current().is_none(),
            },
    {
        self.current += 1;
        self.current()
    }

    /// Goes back to the first wave and returns the state in which it begins.
    pub fn reset(&mut self) -> (r: WaveState)
        requires
            old(self).waves@.len() > 0,
        ensures
            final(self).waves == old(self).waves,
            final(self).current == 0,
            r == spec_wave_start(old(self).waves@[0]),
    {
        self.current = 0;
        WaveState::from(&self.waves[0])
    }
}

/// Runs the wave machine for one frame of `delta` nanoseconds and returns the
/// enemy to release, if the frame releases one.
pub fn spawn_enemies(
    waves: &mut Waves,
    wave_state: &mut WaveState,
    delta: u64,
    difficulty: DifficultySetting,
) -> (r: Option<SpawnEnemyEvent>)
    requires
        old(waves).can_step(*old(wave_state), delta, difficulty),
    ensures
        final(waves).waves == old(waves).waves,
        (final(waves).current, *final(wave_state), r) == spec_spawn_enemies(
            old(waves).waves@,
            old(waves).current,
            *old(wave_state),
            delta,
            difficulty,
        ),
        old(waves).wf() ==> final(waves).wf(),
        old(waves).current <= final(waves).current <= old(waves).current + 1,
        r.is_some() <==> old(waves).current < old(waves).waves@.len() && spec_spawn_due(
            *old(wave_state),
            delta,
        ),
{
    let hp = match waves.current() {
        Some(wave) => wave.hp,
        None => {
            return None;
        },
    };

    wave_state.delay_timer.tick(delta);
    if !wave_state.delay_timer.finished {
        return None;
    }
    wave_state.spawn_timer.tick(delta);
    if !wave_state.spawn_timer.just_finished {
        return None;
    }
    let event = SpawnEnemyEvent { hp: hp + difficulty.extra_hp() };

    wave_state.remaining -= 1;

    if wave_state.remaining == 0 {
        assert(waves.current < waves.waves.len());
        if let Some(next) = waves.advance() {
            *wave_state = WaveState::from(next);
        }
    }
    Some(event)
}

/// Whether every wave of `script` releases at least one enemy whose hit
/// points leave room for the hardest difficulty.
pub open spec fn spec_script_ok(script: Seq<Wave>) -> bool {
    forall|i: int| 0 <= i < script.len() ==> (#[trigger] script[i]).num > 0 && script[i].hp + 2 <= u32::MAX
}

/// The game's script is one on which the machine can always run.
pub proof fn standard_script_ok()
    ensures
        spec_script_ok(spec_script()),
        spec_script().len() == 10,
{
}

/// Enemies that the waves of `script` from index `from` on release.
pub open spec fn spec_to_come(script: Seq<Wave>, from: int) -> nat
    decreases script.len() - from,
{
    if from < 0 || from >= script.len() {
        0
    } else {
        script[from].num as nat + spec_to_come(script, from + 1)
    }
}

/// Enemies that are still to be released: those of the running wave and of
/// the waves after it.
pub open spec fn spec_enemies_left(script: Seq<Wave>, current: usize, state: WaveState) -> nat {
    if current < script.len() {
        state.remaining as nat + spec_to_come(script, current + 1)
    } else {
        0
    }
}

/// Every enemy of the script is released once: a frame that releases an
/// enemy leaves one enemy fewer to release, and a frame that releases none
/// leaves as many as there were.
pub proof fn each_release_counts(
    script: Seq<Wave>,
    current: usize,
    state: WaveState,
    delta: u64,
    difficulty: DifficultySetting,
)
    requires
        script.len() <= usize::MAX,
        current < script.len() ==> state.remaining > 0,
    ensures
        ({
            let next = spec_spawn_enemies(script, current, state, delta, difficulty);
            spec_enemies_left(script, next.0, next.1) + (if next.2.is_some() {
                1nat
            } else {
                0nat
            }) == spec_enemies_left(script, current, state)
        }),
{
    if current < script.len() {
        assert(spec_to_come(script, current + 1) == if current + 1 < script.len() {
            script[current + 1].num as nat + spec_to_come(script, current + 2)
        } else {
            0nat
        });
    }
}

/// What a run of frames, one for each of `deltas`, does to the wave machine:
/// the index of the running wave and its state after the run, and the number
/// of enemies that the run released.
pub open spec fn spec_run(
    script: Seq<Wave>,
    current: usize,
    state: WaveState,
    deltas: Seq<u64>,
    difficulty: DifficultySetting,
) -> (usize, WaveState, nat)
    decreases deltas.len(),
{
    if deltas.len() == 0 {
        (current, state, 0)
    } else {
        let first = spec_spawn_enemies(script, current, state, deltas[0], difficulty);
        let rest = spec_run(script, first.0, first.1, deltas.skip(1), difficulty);
        (
            rest.0,
            rest.1,
            rest.2 + if first.2.is_some() {
                1nat
            } else {
                0nat
            },
        )
    }
}

/// Over any run of frames, the enemies released and the enemies still to be
/// released add up to those that were to be released before the run: no
/// frame, however long or short, loses an enemy or releases one twice. The
/// script never goes back, and the machine can run on after the run.
pub proof fn run_releases_each_enemy_once(
    script: Seq<Wave>,
    current: usize,
    state: WaveState,
    deltas: Seq<u64>,
    difficulty: DifficultySetting,
)
    requires
        spec_script_ok(script),
        script.len() <= usize::MAX,
        current < script.len() ==> state.remaining > 0,
    ensures
        ({
            let end = spec_run(script, current, state, deltas, difficulty);
            &&& spec_enemies_left(script, end.0, end.1) + end.2 == spec_enemies_left(
                script,
                current,
                state,
            )
            &&& end.0 >= current
            &&& (end.0 < script.len() ==> end.1.remaining > 0)
        }),
    decreases deltas.len(),
{
    if deltas.len() > 0 {
        let first = spec_spawn_enemies(script, current, state, deltas[0], difficulty);
        machine_keeps_running(script, current, state, deltas[0], difficulty);
        each_release_counts(script, current, state, deltas[0], difficulty);
        run_releases_each_enemy_once(script, first.0, first.1, deltas.skip(1), difficulty);
    }
}

/// The game's script releases sixty enemies.
pub proof fn standard_script_total()
    ensures
        spec_to_come(spec_script(), 0) == 60,
{
    reveal_with_fuel(spec_to_come, 11);
}

/// On a script whose waves all release an enemy, a machine that can run a
/// frame can run the next one too, whatever the frame's length: the wave
/// machine never gets stuck and never counts below zero.
pub proof fn machine_keeps_running(
    script: Seq<Wave>,
    current: usize,
    state: WaveState,
    delta: u64,
    difficulty: DifficultySetting,
)
    requires
        spec_script_ok(script),
        script.len() <= usize::MAX,
        current < script.len() ==> state.remaining > 0,
    ensures
        ({
            let next = spec_spawn_enemies(script, current, state, delta, difficulty);
            &&& (next.0 < script.len() ==> next.1.remaining > 0)
            &&& (next.0 == current ==> next.1.remaining <= state.remaining)
            &&& (next.2.is_some() && next.0 == current ==> next.1.remaining == state.remaining - 1)
            &&& (next.2.is_none() ==> next.0 == current && next.1.remaining == state.remaining)
        }),
{
}

} // verus!
