//! Audio controls and output devices: terminal stop, pipeline ticks,
//! volume and mute convergence, enable/disable lifecycle.

use soundboard::audio::{AudioControls, GainAction, OutputDevice, TickCommand};

#[test]
fn controls_default_is_playing_unstopped_baseline() {
    let c = AudioControls::default();
    assert!(c.playing());
    assert!(!c.stopped());
    assert_eq!(c.get_volume(), 0);
}

#[test]
fn play_pause_toggle_playing_only() {
    let mut c = AudioControls::new(false, false, 10);
    c.play();
    assert!(c.playing());
    assert!(!c.stopped());
    c.pause();
    assert!(!c.playing());
    assert!(!c.stopped());
    c.set_playing(true);
    assert!(c.playing());
    assert_eq!(c.get_volume(), 10);
}

#[test]
fn stop_is_terminal_for_the_instance() {
    let mut c = AudioControls::default();
    c.stop();
    assert!(c.stopped());
    assert!(!c.playing());
    // no later call on this instance clears stopped
    c.play();
    assert!(c.stopped());
    c.pause();
    assert!(c.stopped());
    c.set_playing(true);
    assert!(c.stopped());
    c.set_volume(50);
    assert!(c.stopped());
    // reviving takes a fresh instance
    let fresh = AudioControls::new(true, false, c.get_volume());
    assert!(!fresh.stopped());
}

#[test]
fn controls_volume_is_unclamped() {
    let mut c = AudioControls::default();
    c.set_volume(i32::MIN);
    assert_eq!(c.get_volume(), i32::MIN);
    c.set_volume(i32::MAX);
    assert_eq!(c.get_volume(), i32::MAX);
}

#[test]
fn device_starts_disabled_and_clean() {
    let d = OutputDevice::new("Speakers".to_string());
    assert_eq!(d.name().as_str(), "Speakers");
    assert!(!d.enabled());
    assert!(!d.muted());
    assert_eq!(d.volume(), 0);
    assert_eq!(d.live_pipelines, 0);
}

#[test]
fn enable_is_idempotent_and_failure_leaves_disabled() {
    let mut d = OutputDevice::new("Speakers".to_string());
    d.enable(false);
    assert!(!d.enabled());
    d.enable(true);
    assert!(d.enabled());
    // enabling an enabled device changes nothing
    d.enable(false);
    assert!(d.enabled());
    // disabling a disabled device is a no-op
    let mut d2 = OutputDevice::new("Other".to_string());
    d2.disable();
    assert!(!d2.enabled());
}

#[test]
fn play_sound_needs_enabled_device_and_both_steps() {
    let mut d = OutputDevice::new("Speakers".to_string());
    assert!(!d.play_sound(true, true));
    assert_eq!(d.live_pipelines, 0);
    d.enable(true);
    assert!(!d.play_sound(false, true));
    assert!(!d.play_sound(true, false));
    assert_eq!(d.live_pipelines, 0);
    assert!(d.play_sound(true, true));
    assert!(d.play_sound(true, true));
    assert_eq!(d.live_pipelines, 2);
}

#[test]
fn disable_halts_pipelines_and_enable_starts_clean() {
    let mut d = OutputDevice::new("Speakers".to_string());
    d.enable(true);
    assert!(d.play_sound(true, true));
    assert_eq!(d.live_pipelines, 1);
    d.disable();
    assert!(!d.enabled());
    assert_eq!(d.live_pipelines, 0);
    d.enable(true);
    assert!(d.enabled());
    assert_eq!(d.live_pipelines, 0);
}

#[test]
fn tick_reflects_controls_state() {
    let mut d = OutputDevice::new("Speakers".to_string());
    d.enable(true);
    let mut c = AudioControls::new(true, false, 25);
    let t = d.pipeline_tick(&c);
    assert_eq!(t, TickCommand { halt: false, paused: false, gain: GainAction::Level(25) });
    c.pause();
    assert!(d.pipeline_tick(&c).paused);
    c.stop();
    assert!(d.pipeline_tick(&c).halt);
}

#[test]
fn volume_change_shows_in_the_next_tick() {
    let mut d = OutputDevice::new("Speakers".to_string());
    d.enable(true);
    let c = AudioControls::new(true, false, 25);
    assert_eq!(d.pipeline_tick(&c).gain, GainAction::Level(25));
    d.set_volume(50);
    assert_eq!(d.volume(), 50);
    assert_eq!(d.pipeline_tick(&c).gain, GainAction::Level(75));
    d.set_volume(-100);
    assert_eq!(d.pipeline_tick(&c).gain, GainAction::Level(-75));
}

#[test]
fn mute_change_shows_in_the_next_tick() {
    let mut d = OutputDevice::new("Speakers".to_string());
    d.enable(true);
    let c = AudioControls::new(true, false, 25);
    d.toggle_muted();
    assert!(d.muted());
    assert_eq!(d.pipeline_tick(&c).gain, GainAction::Silence);
    d.toggle_muted();
    assert!(!d.muted());
    assert_eq!(d.pipeline_tick(&c).gain, GainAction::Level(25));
    d.set_muted(true);
    assert_eq!(d.pipeline_tick(&c).gain, GainAction::Silence);
}

#[test]
fn gain_combines_sound_and_device_levels_without_overflow() {
    let mut d = OutputDevice::new("Speakers".to_string());
    d.enable(true);
    d.set_volume(i32::MAX);
    let c = AudioControls::new(true, false, i32::MAX);
    let t = d.pipeline_tick(&c);
    assert_eq!(t.gain, GainAction::Level(i32::MAX as i64 + i32::MAX as i64));
}
