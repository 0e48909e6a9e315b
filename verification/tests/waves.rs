use undefended::enemy::SpawnEnemyEvent;
use undefended::settings::DifficultySetting;
use undefended::timer::{GameTimer, TimerMode, NANOS_PER_SEC};
use undefended::waves::{can_spawn, spawn_enemies, Wave, WaveState, Waves};

fn run(
    waves: &mut Waves,
    state: &mut WaveState,
    frames: usize,
    difficulty: DifficultySetting,
) -> Vec<(usize, u32)> {
    let mut out = Vec::new();
    for frame in 1..=frames {
        if let Some(event) = spawn_enemies(waves, state, NANOS_PER_SEC, difficulty) {
            out.push((frame, event.hp));
        }
    }
    out
}

#[test]
fn the_script_has_ten_waves() {
    let waves = Waves::standard();
    assert_eq!(waves.current, 0);
    assert_eq!(waves.waves.len(), 10);
    let expected: [(u64, usize, u32); 10] = [
        (15, 4, 2),
        (30, 8, 2),
        (30, 4, 6),
        (30, 8, 4),
        (30, 4, 10),
        (30, 8, 6),
        (30, 4, 14),
        (30, 8, 8),
        (30, 4, 18),
        (30, 8, 10),
    ];
    for (wave, (delay, num, hp)) in waves.waves.iter().zip(expected) {
        assert_eq!(
            *wave,
            Wave { num, hp, interval: 4_000_000_000, delay: delay * 1_000_000_000 }
        );
    }
}

#[test]
fn a_wave_begins_with_all_its_enemies() {
    let wave = Wave { num: 4, hp: 2, interval: 4 * NANOS_PER_SEC, delay: 15 * NANOS_PER_SEC };
    let state = WaveState::from(&wave);
    assert_eq!(state.remaining, 4);
    assert_eq!(state.delay_timer, GameTimer::new(15_000_000_000, TimerMode::Once));
    assert_eq!(state.spawn_timer, GameTimer::new(4_000_000_000, TimerMode::Repeating));
}

#[test]
fn current_and_advance_walk_the_script() {
    let mut waves = Waves::standard();
    assert_eq!(waves.current().map(|w| w.hp), Some(2));
    let next = waves.advance();
    assert_eq!(next.map(|w| (w.num, w.hp)), Some((8, 2)));
    assert_eq!(waves.current, 1);
    for _ in 0..8 {
        assert!(waves.advance().is_some());
    }
    assert_eq!(waves.current, 9);
    assert!(waves.advance().is_none());
    assert_eq!(waves.current, 10);
    assert!(waves.current().is_none());
}

#[test]
fn an_empty_script_has_no_wave() {
    let waves = Waves::new();
    assert!(waves.current().is_none());
}

#[test]
fn the_first_wave_comes_after_its_delay() {
    let mut waves = Waves::standard();
    let mut state = WaveState::from(&waves.waves[0]);
    let spawned = run(&mut waves, &mut state, 30, DifficultySetting::Normal);
    assert_eq!(spawned, vec![(18, 2), (22, 2), (26, 2), (30, 2)]);
    assert_eq!(waves.current, 1);
    assert_eq!(state, WaveState::from(&waves.waves[1]));
}

#[test]
fn nothing_spawns_during_the_delay() {
    let mut waves = Waves::standard();
    let mut state = WaveState::from(&waves.waves[0]);
    let spawned = run(&mut waves, &mut state, 14, DifficultySetting::Extra);
    assert!(spawned.is_empty());
    assert_eq!(state.remaining, 4);
    assert_eq!(state.delay_timer.elapsed, 14_000_000_000);
    assert_eq!(state.spawn_timer.elapsed, 0);
}

#[test]
fn difficulty_adds_hit_points() {
    let mut waves = Waves::standard();
    let mut state = WaveState::from(&waves.waves[0]);
    let hard = run(&mut waves, &mut state, 18, DifficultySetting::Hard);
    assert_eq!(hard, vec![(18, 3)]);
    let extra = run(&mut waves, &mut state, 4, DifficultySetting::Extra);
    assert_eq!(extra, vec![(4, 4)]);
}

#[test]
fn one_long_frame_releases_one_enemy() {
    let mut waves = Waves::standard();
    let mut state = WaveState::from(&waves.waves[0]);
    let event = spawn_enemies(&mut waves, &mut state, 100 * NANOS_PER_SEC, DifficultySetting::Normal);
    assert_eq!(event, Some(SpawnEnemyEvent { hp: 2 }));
    assert_eq!(state.remaining, 3);
}

#[test]
fn the_whole_script_releases_sixty_enemies() {
    let mut waves = Waves::standard();
    let mut state = WaveState::from(&waves.waves[0]);
    let spawned = run(&mut waves, &mut state, 2_000, DifficultySetting::Normal);
    assert_eq!(spawned.len(), 60);
    assert_eq!(waves.current, 10);
    assert_eq!(state.remaining, 0);
    let again = run(&mut waves, &mut state, 100, DifficultySetting::Normal);
    assert!(again.is_empty());
}

#[test]
fn reset_goes_back_to_the_first_wave() {
    let mut waves = Waves::standard();
    let mut state = WaveState::from(&waves.waves[0]);
    run(&mut waves, &mut state, 100, DifficultySetting::Normal);
    assert!(waves.current > 0);
    let fresh = waves.reset();
    assert_eq!(waves.current, 0);
    assert_eq!(fresh, WaveState::from(&waves.waves[0]));
}

#[test]
fn a_wave_without_enemies_cannot_release_one() {
    let mut waves = Waves::new();
    waves.waves.push(Wave { num: 0, hp: 1, interval: 20, delay: 10 });
    let state = WaveState::from(&waves.waves[0]);
    assert!(can_spawn(&waves, &state, 5, DifficultySetting::Normal));
    assert!(can_spawn(&waves, &state, 10, DifficultySetting::Normal));
    assert!(!can_spawn(&waves, &state, 20, DifficultySetting::Normal));
}

#[test]
fn hit_points_must_fit() {
    let mut waves = Waves::new();
    waves.waves.push(Wave { num: 1, hp: u32::MAX - 1, interval: 1, delay: 0 });
    let state = WaveState::from(&waves.waves[0]);
    assert!(can_spawn(&waves, &state, 1, DifficultySetting::Normal));
    assert!(can_spawn(&waves, &state, 1, DifficultySetting::Hard));
    assert!(!can_spawn(&waves, &state, 1, DifficultySetting::Extra));
    assert!(can_spawn(&waves, &state, 0, DifficultySetting::Extra));
    assert!(can_spawn(&Waves::new(), &state, 1, DifficultySetting::Extra));
}
