use undefended::settings::{next_volume, DifficultySetting, MusicSetting, SfxSetting};

#[test]
fn difficulty_starts_normal() {
    assert_eq!(DifficultySetting::default(), DifficultySetting::Normal);
}

#[test]
fn difficulty_cycles_through_three() {
    let normal = DifficultySetting::Normal;
    assert_eq!(normal.next(), DifficultySetting::Hard);
    assert_eq!(normal.next().next(), DifficultySetting::Extra);
    assert_eq!(normal.next().next().next(), DifficultySetting::Normal);
}

#[test]
fn difficulty_labels() {
    assert_eq!(DifficultySetting::Normal.label(), "NORMAL");
    assert_eq!(DifficultySetting::Hard.label(), "HARD");
    assert_eq!(DifficultySetting::Extra.label(), "EXTRA");
}

#[test]
fn difficulty_extra_hit_points() {
    assert_eq!(DifficultySetting::Normal.extra_hp(), 0);
    assert_eq!(DifficultySetting::Hard.extra_hp(), 1);
    assert_eq!(DifficultySetting::Extra.extra_hp(), 2);
}

#[test]
fn volumes_start_full() {
    assert_eq!(MusicSetting::default().level(), 100);
    assert_eq!(SfxSetting::default().level(), 100);
}

#[test]
fn volume_steps_down_by_ten() {
    assert_eq!(next_volume(100), 90);
    assert_eq!(next_volume(10), 0);
    assert_eq!(next_volume(37), 27);
}

#[test]
fn volume_wraps_from_silence() {
    assert_eq!(next_volume(0), 100);
}

#[test]
fn eleven_presses_restore_the_music() {
    let mut music = MusicSetting::default();
    let mut seen = Vec::new();
    for _ in 0..11 {
        assert!(music.can_step());
        music.press();
        seen.push(music.level());
    }
    assert_eq!(seen, vec![90, 80, 70, 60, 50, 40, 30, 20, 10, 0, 100]);
}

#[test]
fn sfx_press_lowers_the_level() {
    let mut sfx = SfxSetting::new(50);
    sfx.press();
    assert_eq!(sfx, SfxSetting::new(40));
}

#[test]
fn a_level_below_one_step_cannot_step() {
    assert!(!SfxSetting::new(5).can_step());
    assert!(!MusicSetting::new(9).can_step());
    assert!(MusicSetting::new(10).can_step());
    assert!(SfxSetting::new(0).can_step());
}
